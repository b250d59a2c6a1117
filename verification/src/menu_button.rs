//! Menu button: a split button. The main zone presses (`on_press`), the
//! chevron zone opens a menu of actions floating below it (`on_action`).
//! The layout reports which zone and which menu row lie under the pointer.

use vstd::prelude::*;

use crate::menu::{Menu, MenuChevron, MenuModel, menu_after_press, menu_after_release, menu_closed, menu_opened, menu_release_fires, menu_row_hit};
use crate::options::{owned, str_texts, strings_from_slice, texts};

verus! {

/// Zone of the split button under the pointer.
#[derive(Clone, Copy, Debug, PartialEq, Eq, Structural)]
pub enum ButtonZone {
    Main,
    Chevron,
}

/// What a release did: a press of the main zone (`on_press` fires) or a
/// menu row click (`on_action` fires with the row).
#[derive(Clone, Copy, Debug, PartialEq, Eq)]
pub struct MenuButtonEvent {
    pub pressed: bool,
    pub action: Option<usize>,
}

/// What a menu button holds.
pub ghost struct MenuButtonModel {
    pub label: Seq<char>,
    pub menu: MenuModel,
    pub armed_main: bool,
    pub armed_chev: bool,
    pub hovered_main: bool,
    pub disabled: bool,
    pub focused: bool,
}

/// State after a press: routed to the open menu, otherwise the zone under
/// the pointer is armed.
pub open spec fn button_after_press(m: MenuButtonModel, zone: Option<ButtonZone>, row: Option<usize>) -> MenuButtonModel {
    if m.disabled {
        m
    } else if m.menu.open {
        MenuButtonModel { menu: menu_after_press(m.menu, false, row), ..m }
    } else {
        match zone {
            Some(ButtonZone::Chevron) => MenuButtonModel { armed_chev: true, armed_main: false, ..m },
            Some(ButtonZone::Main) => MenuButtonModel { armed_main: true, armed_chev: false, ..m },
            None => m,
        }
    }
}

/// State after a release: the open menu handles it; otherwise a chevron
/// click opens the menu. Nothing stays armed.
pub open spec fn button_after_release(m: MenuButtonModel, zone: Option<ButtonZone>, row: Option<usize>) -> MenuButtonModel {
    if m.disabled {
        m
    } else if m.menu.open {
        MenuButtonModel { menu: menu_after_release(m.menu, false, row), armed_main: false, armed_chev: false, ..m }
    } else {
        MenuButtonModel {
            menu: if m.armed_chev && zone == Some(ButtonZone::Chevron) {
                menu_opened(m.menu)
            } else {
                m.menu
            },
            armed_main: false,
            armed_chev: false,
            ..m
        }
    }
}

/// What a release fires: a main-zone click presses (never while the menu
/// is open); a row click of the open menu fires that row.
pub open spec fn button_release_event(m: MenuButtonModel, zone: Option<ButtonZone>, row: Option<usize>) -> MenuButtonEvent {
    if m.disabled {
        MenuButtonEvent { pressed: false, action: None }
    } else if m.menu.open {
        MenuButtonEvent { pressed: false, action: menu_release_fires(m.menu, row) }
    } else {
        MenuButtonEvent { pressed: m.armed_main && zone == Some(ButtonZone::Main), action: None }
    }
}

/// Split button with a press action and a chevron menu.
pub struct MenuButton {
    label: String,
    menu: Menu,
    armed_main: bool,
    armed_chev: bool,
    hovered_main: bool,
    disabled: bool,
    focused: bool,
}

impl View for MenuButton {
    type V = MenuButtonModel;

    closed spec fn view(&self) -> MenuButtonModel {
        MenuButtonModel {
            label: self.label@,
            menu: self.menu@,
            armed_main: self.armed_main,
            armed_chev: self.armed_chev,
            hovered_main: self.hovered_main,
            disabled: self.disabled,
            focused: self.focused,
        }
    }
}

impl MenuButton {
    /// A button labelled `label` whose chevron menu lists `options`.
    pub fn new(label: &str, options: Vec<String>) -> (b: Self)
        ensures
            b@ == (MenuButtonModel {
                label: label@,
                menu: MenuModel {
                    label: Seq::empty(),
                    button: Seq::empty(),
                    chevron: MenuChevron::Down,
                    options: texts(options@),
                    open: false,
                    checked: None,
                    last_action: None,
                    armed_button: false,
                    armed_row: None,
                    hovered: None,
                    disabled: false,
                    focused: true,
                },
                armed_main: false,
                armed_chev: false,
                hovered_main: false,
                disabled: false,
                focused: true,
            }),
    {
        proof {
            reveal_strlit("");
            assert(""@ =~= Seq::<char>::empty());
        }
        MenuButton {
            label: owned(label),
            menu: Menu::new("", options),
            armed_main: false,
            armed_chev: false,
            hovered_main: false,
            disabled: false,
            focused: true,
        }
    }

    pub fn from_slice(label: &str, options: &[&str]) -> (b: Self)
        ensures
            b@ == (MenuButtonModel {
                label: label@,
                menu: MenuModel {
                    label: Seq::empty(),
                    button: Seq::empty(),
                    chevron: MenuChevron::Down,
                    options: str_texts(options@),
                    open: false,
                    checked: None,
                    last_action: None,
                    armed_button: false,
                    armed_row: None,
                    hovered: None,
                    disabled: false,
                    focused: true,
                },
                armed_main: false,
                armed_chev: false,
                hovered_main: false,
                disabled: false,
                focused: true,
            }),
    {
        Self::new(label, strings_from_slice(options))
    }

    /// Disables the button and its menu.
    pub fn disabled(self, disabled: bool) -> (b: Self)
        ensures
            b@ == (MenuButtonModel { disabled, menu: MenuModel { disabled, ..self@.menu }, ..self@ }),
    {
        let MenuButton { label, menu, armed_main, armed_chev, hovered_main, disabled: _, focused } = self;
        MenuButton {
            label,
            menu: menu.disabled(disabled),
            armed_main,
            armed_chev,
            hovered_main,
            disabled,
            focused,
        }
    }

    pub fn set_focused(&mut self, focused: bool)
        ensures
            final(self)@ == (MenuButtonModel { focused, menu: MenuModel { focused, ..old(self)@.menu }, ..old(self)@ }),
    {
        self.focused = focused;
        self.menu.set_focused(focused);
    }

    pub fn set_label(&mut self, label: &str)
        ensures
            final(self)@ == (MenuButtonModel { label: label@, ..old(self)@ }),
    {
        self.label = owned(label);
    }

    pub fn is_open(&self) -> (b: bool)
        ensures
            b == self@.menu.open,
    {
        self.menu.is_open()
    }

    pub fn close(&mut self)
        ensures
            final(self)@ == (MenuButtonModel {
                menu: menu_closed(old(self)@.menu),
                armed_main: false,
                armed_chev: false,
                ..old(self)@
            }),
    {
        self.menu.close();
        self.armed_main = false;
        self.armed_chev = false;
    }

    pub fn len(&self) -> (n: usize)
        ensures
            n == self@.menu.options.len(),
    {
        self.menu.len()
    }

    pub fn is_empty(&self) -> (b: bool)
        ensures
            b == (self@.menu.options.len() == 0),
    {
        self.menu.is_empty()
    }

    /// Last clicked menu row, if any.
    pub fn last_action(&self) -> (r: Option<usize>)
        ensures
            r == self@.menu.last_action,
    {
        self.menu.last_action()
    }

    /// Whether the pointer rests on the main zone (closed menu only).
    pub fn is_main_hovered(&self) -> (b: bool)
        ensures
            b == self@.hovered_main,
    {
        self.hovered_main
    }

    /// Press: routed to the open menu, otherwise arms the zone under the
    /// pointer.
    pub fn mouse_down(&mut self, zone: Option<ButtonZone>, row: Option<usize>)
        ensures
            final(self)@ == button_after_press(old(self)@, zone, row),
    {
        if self.disabled {
            return;
        }
        if self.menu.is_open() {
            self.menu.mouse_down(false, row);
            return;
        }
        match zone {
            Some(ButtonZone::Chevron) => {
                self.armed_chev = true;
                self.armed_main = false;
            },
            Some(ButtonZone::Main) => {
                self.armed_main = true;
                self.armed_chev = false;
            },
            None => {},
        }
    }

    /// Hover: menu rows while open, otherwise the main zone.
    pub fn mouse_move(&mut self, zone: Option<ButtonZone>, row: Option<usize>)
        ensures
            final(self)@ == if old(self)@.menu.open {
                MenuButtonModel {
                    menu: MenuModel { hovered: menu_row_hit(old(self)@.menu, row), ..old(self)@.menu },
                    ..old(self)@
                }
            } else if old(self)@.disabled {
                MenuButtonModel { hovered_main: false, ..old(self)@ }
            } else {
                MenuButtonModel { hovered_main: zone == Some(ButtonZone::Main), ..old(self)@ }
            },
    {
        if self.menu.is_open() {
            self.menu.mouse_move(row);
            return;
        }
        if self.disabled {
            self.hovered_main = false;
            return;
        }
        self.hovered_main = zone == Some(ButtonZone::Main);
    }

    /// Release: with the menu open a row click fires that row (a click
    /// never presses then); otherwise a main-zone click presses and a
    /// chevron click opens the menu.
    pub fn mouse_up(&mut self, zone: Option<ButtonZone>, row: Option<usize>) -> (event: MenuButtonEvent)
        ensures
            final(self)@ == button_after_release(old(self)@, zone, row),
            event == button_release_event(old(self)@, zone, row),
    {
        let none = MenuButtonEvent { pressed: false, action: None };
        if self.disabled {
            return none;
        }
        if self.menu.is_open() {
            let fired = self.menu.mouse_up(false, row);
            self.armed_main = false;
            self.armed_chev = false;
            return MenuButtonEvent { pressed: false, action: fired };
        }
        let pressed = self.armed_main && zone == Some(ButtonZone::Main);
        if self.armed_chev && zone == Some(ButtonZone::Chevron) {
            self.menu.open();
        }
        self.armed_main = false;
        self.armed_chev = false;
        MenuButtonEvent { pressed, action: None }
    }
}

/// On a closed button, a click on the main zone presses and opens
/// nothing; a click on the chevron opens the menu and presses nothing.
/// While the menu is open a click never presses: a row click fires the
/// row, any other click only closes.
pub proof fn lemma_zone_clicks(m: MenuButtonModel, row: Option<usize>)
    requires
        !m.disabled,
        !m.menu.disabled,
    ensures
        ({
            let main = Some(ButtonZone::Main);
            let chev = Some(ButtonZone::Chevron);
            let pm = button_after_press(m, main, row);
            let pc = button_after_press(m, chev, row);
            &&& !m.menu.open ==> button_release_event(pm, main, row) == (MenuButtonEvent {
                pressed: true,
                action: None,
            }) && button_after_release(pm, main, row).menu == m.menu
            &&& !m.menu.open ==> button_release_event(pc, chev, row) == (MenuButtonEvent {
                pressed: false,
                action: None,
            }) && button_after_release(pc, chev, row).menu == menu_opened(m.menu)
            &&& m.menu.open ==> !button_release_event(pm, main, row).pressed
            &&& m.menu.open && menu_row_hit(m.menu, row) is None ==> !button_after_release(pm, main, row).menu.open
                && button_release_event(pm, main, row).action is None
        }),
{
}

} // verus!
