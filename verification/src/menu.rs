//! Dropdown menu base: a button with fixed text and a chevron that opens a
//! panel of action rows. A click (press and release) on the button opens
//! the panel; a click on a row fires that row and closes; any other
//! release closes. The layout reports whether the pointer is on the button
//! and which row lies under it.

use vstd::prelude::*;

use crate::options::{entry, owned, str_texts, strings_from_slice, texts};

verus! {

/// Button chevron style.
#[derive(Clone, Copy, Debug, PartialEq, Eq, Structural)]
pub enum MenuChevron {
    /// Single down chevron, like the simple dropdown.
    Down,
    /// Up/down chevron pair, like the macOS pop-up button.
    Both,
}

impl Default for MenuChevron {
    fn default() -> (c: MenuChevron)
        ensures
            c == MenuChevron::Down,
    {
        MenuChevron::Down
    }
}

/// What a menu holds.
pub ghost struct MenuModel {
    pub label: Seq<char>,
    pub button: Seq<char>,
    pub chevron: MenuChevron,
    pub options: Seq<Seq<char>>,
    pub open: bool,
    pub checked: Option<usize>,
    pub last_action: Option<usize>,
    pub armed_button: bool,
    pub armed_row: Option<usize>,
    pub hovered: Option<usize>,
    pub disabled: bool,
    pub focused: bool,
}

/// The row a pointer position names: rows only exist in the open panel.
pub open spec fn menu_row_hit(m: MenuModel, row: Option<usize>) -> Option<usize> {
    if !m.open || m.options.len() == 0 {
        None
    } else {
        match row {
            Some(r) => if r < m.options.len() {
                Some(r)
            } else {
                None
            },
            None => None,
        }
    }
}

/// The panel opens only when enabled and non-empty.
pub open spec fn menu_opened(m: MenuModel) -> MenuModel {
    if !m.disabled && m.options.len() > 0 {
        MenuModel { open: true, ..m }
    } else {
        m
    }
}

/// Closed panel with nothing armed or hovered.
pub open spec fn menu_closed(m: MenuModel) -> MenuModel {
    MenuModel { open: false, armed_button: false, armed_row: None, hovered: None, ..m }
}

/// State after a press.
pub open spec fn menu_after_press(m: MenuModel, on_button: bool, row: Option<usize>) -> MenuModel {
    if m.disabled {
        m
    } else if !m.open {
        if on_button {
            MenuModel { armed_button: true, ..m }
        } else {
            m
        }
    } else {
        MenuModel { armed_button: false, armed_row: menu_row_hit(m, row), ..m }
    }
}

/// Row a release fires: the armed row, when the release lands on it.
pub open spec fn menu_release_fires(m: MenuModel, row: Option<usize>) -> Option<usize> {
    if !m.disabled && m.open && m.armed_row is Some && menu_row_hit(m, row) == m.armed_row {
        m.armed_row
    } else {
        None
    }
}

/// State after a release.
pub open spec fn menu_after_release(m: MenuModel, on_button: bool, row: Option<usize>) -> MenuModel {
    if m.disabled {
        m
    } else if !m.open {
        let m1 = if m.armed_button && on_button {
            menu_opened(m)
        } else {
            m
        };
        MenuModel { armed_button: false, ..m1 }
    } else {
        match menu_release_fires(m, row) {
            Some(r) => menu_closed(MenuModel { last_action: Some(r), ..m }),
            None => menu_closed(m),
        }
    }
}

/// Simple dropdown menu: a button with fixed text plus a chevron that
/// opens a panel. Every row click fires (no selection state). An optional
/// checkmark row and leading label exist for picker wrappers.
pub struct Menu {
    label: String,
    button: String,
    chevron: MenuChevron,
    options: Vec<String>,
    open: bool,
    checked: Option<usize>,
    last_action: Option<usize>,
    armed_button: bool,
    armed_row: Option<usize>,
    hovered: Option<usize>,
    disabled: bool,
    focused: bool,
}

impl View for Menu {
    type V = MenuModel;

    closed spec fn view(&self) -> MenuModel {
        MenuModel {
            label: self.label@,
            button: self.button@,
            chevron: self.chevron,
            options: texts(self.options@),
            open: self.open,
            checked: self.checked,
            last_action: self.last_action,
            armed_button: self.armed_button,
            armed_row: self.armed_row,
            hovered: self.hovered,
            disabled: self.disabled,
            focused: self.focused,
        }
    }
}

impl Menu {
    /// A closed menu with button text `button` and action rows `options`.
    pub fn new(button: &str, options: Vec<String>) -> (m: Self)
        ensures
            m@ == (MenuModel {
                label: Seq::empty(),
                button: button@,
                chevron: MenuChevron::Down,
                options: texts(options@),
                open: false,
                checked: None,
                last_action: None,
                armed_button: false,
                armed_row: None,
                hovered: None,
                disabled: false,
                focused: true,
            }),
    {
        Menu {
            label: String::new(),
            button: owned(button),
            chevron: MenuChevron::Down,
            options,
            open: false,
            checked: None,
            last_action: None,
            armed_button: false,
            armed_row: None,
            hovered: None,
            disabled: false,
            focused: true,
        }
    }

    pub fn from_slice(button: &str, options: &[&str]) -> (m: Self)
        ensures
            m@ == (MenuModel {
                label: Seq::empty(),
                button: button@,
                chevron: MenuChevron::Down,
                options: str_texts(options@),
                open: false,
                checked: None,
                last_action: None,
                armed_button: false,
                armed_row: None,
                hovered: None,
                disabled: false,
                focused: true,
            }),
    {
        Self::new(button, strings_from_slice(options))
    }

    /// Optional leading label before the button (empty by default).
    pub fn label(self, label: &str) -> (m: Self)
        ensures
            m@ == (MenuModel { label: label@, ..self@ }),
    {
        let mut m = self;
        m.label = owned(label);
        m
    }

    /// Button chevron style (down chevron by default).
    pub fn chevron(self, chevron: MenuChevron) -> (m: Self)
        ensures
            m@ == (MenuModel { chevron, ..self@ }),
    {
        let mut m = self;
        m.chevron = chevron;
        m
    }

    /// Checkmark row, if any (plain action rows by default).
    pub fn checked(self, row: Option<usize>) -> (m: Self)
        ensures
            m@ == (MenuModel { checked: row, ..self@ }),
    {
        let mut m = self;
        m.checked = row;
        m
    }

    pub fn disabled(self, disabled: bool) -> (m: Self)
        ensures
            m@ == (MenuModel { disabled, ..self@ }),
    {
        let mut m = self;
        m.disabled = disabled;
        m
    }

    pub fn set_focused(&mut self, focused: bool)
        ensures
            final(self)@ == (MenuModel { focused, ..old(self)@ }),
    {
        self.focused = focused;
    }

    pub fn set_label(&mut self, label: &str)
        ensures
            final(self)@ == (MenuModel { label: label@, ..old(self)@ }),
    {
        self.label = owned(label);
    }

    /// Fixed button text (stays put on row clicks, unlike a picker).
    pub fn set_button(&mut self, button: &str)
        ensures
            final(self)@ == (MenuModel { button: button@, ..old(self)@ }),
    {
        self.button = owned(button);
    }

    pub fn button_text(&self) -> (t: &str)
        ensures
            t@ == self@.button,
    {
        self.button.as_str()
    }

    pub fn set_chevron(&mut self, chevron: MenuChevron)
        ensures
            final(self)@ == (MenuModel { chevron, ..old(self)@ }),
    {
        self.chevron = chevron;
    }

    /// Current chevron style.
    pub fn chevron_style(&self) -> (c: MenuChevron)
        ensures
            c == self@.chevron,
    {
        self.chevron
    }

    pub fn set_checked(&mut self, row: Option<usize>)
        ensures
            final(self)@ == (MenuModel { checked: row, ..old(self)@ }),
    {
        self.checked = row;
    }

    /// Checkmark row, if any.
    pub fn checked_row(&self) -> (r: Option<usize>)
        ensures
            r == self@.checked,
    {
        self.checked
    }

    /// Whether rows reserve a column for the checkmark: only when a
    /// checkmark row exists.
    pub fn has_check_column(&self) -> (b: bool)
        ensures
            b == (self@.checked is Some),
    {
        self.checked.is_some()
    }

    /// Row under the pointer in the open panel, if any.
    pub fn hovered(&self) -> (r: Option<usize>)
        ensures
            r == self@.hovered,
    {
        self.hovered
    }

    pub fn is_open(&self) -> (b: bool)
        ensures
            b == self@.open,
    {
        self.open
    }

    /// Open the panel (only when enabled and non-empty).
    pub fn open(&mut self)
        ensures
            final(self)@ == menu_opened(old(self)@),
    {
        if !self.disabled && self.options.len() > 0 {
            self.open = true;
        }
    }

    pub fn close(&mut self)
        ensures
            final(self)@ == menu_closed(old(self)@),
    {
        self.open = false;
        self.armed_button = false;
        self.armed_row = None;
        self.hovered = None;
    }

    pub fn len(&self) -> (n: usize)
        ensures
            n == self@.options.len(),
    {
        self.options.len()
    }

    pub fn is_empty(&self) -> (b: bool)
        ensures
            b == (self@.options.len() == 0),
    {
        self.options.len() == 0
    }

    /// Text of row `index`, if it exists.
    pub fn option(&self, index: usize) -> (s: Option<&str>)
        ensures
            match s {
                Some(t) => index < self@.options.len() && t@ == self@.options[index as int],
                None => index >= self@.options.len(),
            },
    {
        entry(&self.options, index)
    }

    /// Last clicked row, if any.
    pub fn last_action(&self) -> (r: Option<usize>)
        ensures
            r == self@.last_action,
    {
        self.last_action
    }

    fn row_at(&self, row: Option<usize>) -> (r: Option<usize>)
        ensures
            r == menu_row_hit(self@, row),
    {
        if !self.open || self.options.len() == 0 {
            return None;
        }
        match row {
            Some(r) => if r < self.options.len() {
                Some(r)
            } else {
                None
            },
            None => None,
        }
    }

    /// Press. `on_button` tells whether the pointer is on the button (never
    /// while the menu floats at an anchor point), `row` the panel row
    /// under it.
    pub fn mouse_down(&mut self, on_button: bool, row: Option<usize>)
        ensures
            final(self)@ == menu_after_press(old(self)@, on_button, row),
    {
        if self.disabled {
            return;
        }
        if !self.open {
            if on_button {
                self.armed_button = true;
            }
            return;
        }
        let hit = self.row_at(row);
        self.armed_button = false;
        self.armed_row = hit;
    }

    /// Hover only exists inside the open panel.
    pub fn mouse_move(&mut self, row: Option<usize>)
        ensures
            final(self)@ == (MenuModel {
                hovered: if old(self)@.open {
                    menu_row_hit(old(self)@, row)
                } else {
                    None
                },
                ..old(self)@
            }),
    {
        if self.open {
            let hit = self.row_at(row);
            self.hovered = hit;
        } else {
            self.hovered = None;
        }
    }

    /// Release. Returns the row that fired (that is when `on_action`
    /// fires), if any.
    pub fn mouse_up(&mut self, on_button: bool, row: Option<usize>) -> (fired: Option<usize>)
        ensures
            final(self)@ == menu_after_release(old(self)@, on_button, row),
            fired == menu_release_fires(old(self)@, row),
    {
        if self.disabled {
            return None;
        }
        if !self.open {
            if self.armed_button && on_button {
                self.open();
            }
            self.armed_button = false;
            return None;
        }
        let armed = self.armed_row;
        self.armed_row = None;
        self.armed_button = false;
        if let Some(r) = armed {
            let hit = self.row_at(row);
            if hit == Some(r) {
                self.last_action = Some(r);
                self.close();
                return Some(r);
            }
        }
        self.close();
        None
    }
}

/// A click on the button of a closed, enabled menu with rows opens it.
pub proof fn lemma_button_click_opens(m: MenuModel, row: Option<usize>)
    requires
        !m.disabled,
        !m.open,
        m.options.len() > 0,
    ensures
        menu_after_release(menu_after_press(m, true, row), true, row).open,
        menu_release_fires(menu_after_press(m, true, row), row) is None,
{
}

/// Every click on a row of the open panel fires that row, records it as
/// the last action and closes the panel, however often the same row was
/// clicked before.
pub proof fn lemma_row_click_fires(m: MenuModel, r: usize)
    requires
        !m.disabled,
        m.open,
        r < m.options.len(),
    ensures
        menu_release_fires(menu_after_press(m, false, Some(r)), Some(r)) == Some(r),
        menu_after_release(menu_after_press(m, false, Some(r)), false, Some(r)) == menu_closed(
            MenuModel { last_action: Some(r), armed_row: Some(r), ..m },
        ),
{
}

/// A press and release outside the panel's rows closes it and fires
/// nothing.
pub proof fn lemma_outside_click_closes(m: MenuModel, row: Option<usize>)
    requires
        !m.disabled,
        m.open,
        menu_row_hit(m, row) is None,
    ensures
        menu_release_fires(menu_after_press(m, false, row), row) is None,
        !menu_after_release(menu_after_press(m, false, row), false, row).open,
{
}

/// The button text never changes through pointer events: it is fixed
/// text, not the last choice.
pub proof fn lemma_button_text_fixed(m: MenuModel, on_button: bool, row: Option<usize>)
    ensures
        menu_after_press(m, on_button, row).button == m.button,
        menu_after_release(m, on_button, row).button == m.button,
        menu_after_release(m, on_button, row).options == m.options,
{
}

} // verus!
