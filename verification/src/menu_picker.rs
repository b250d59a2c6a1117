//! Menu picker: a pop-up button on the menu base whose rows select. The
//! button shows the selected option and the panel checks it.

use vstd::prelude::*;

use crate::menu::{Menu, MenuChevron, MenuModel, menu_release_fires, menu_after_press, menu_after_release, menu_closed, menu_opened};
use crate::options::{clamp_index, clamp_to, selection_in, str_texts, strings_from_slice, texts};

verus! {

/// What a menu picker holds: its menu base and the selected row.
pub ghost struct MenuPickerModel {
    pub menu: MenuModel,
    pub selected: int,
}

/// The base shows the selection: button text and checkmark.
pub open spec fn shows_selection(menu: MenuModel, selected: int) -> bool {
    &&& menu.checked == Some(selected as usize)
    &&& menu.button == if selected < menu.options.len() {
        menu.options[selected]
    } else {
        Seq::<char>::empty()
    }
}

/// The picker after selecting (clamped) `index`.
pub open spec fn picker_selected(p: MenuPickerModel, index: int) -> MenuPickerModel {
    let i = clamp_index(p.menu.options.len() as int, index);
    MenuPickerModel {
        selected: i,
        menu: MenuModel {
            checked: Some(i as usize),
            button: if i < p.menu.options.len() {
                p.menu.options[i]
            } else {
                Seq::<char>::empty()
            },
            ..p.menu
        },
    }
}

/// Whether a release selects a different option: the row it fires,
/// clamped, differs from the selection.
pub open spec fn picker_release_changes(p: MenuPickerModel, row: Option<usize>) -> bool {
    match menu_release_fires(p.menu, row) {
        Some(r) => clamp_index(p.menu.options.len() as int, r as int) != p.selected,
        None => false,
    }
}

/// State after a release: the menu base's release, then the fired row
/// selected when it differs from the selection.
pub open spec fn picker_after_release(p: MenuPickerModel, on_button: bool, row: Option<usize>) -> MenuPickerModel {
    let base = MenuPickerModel { menu: menu_after_release(p.menu, on_button, row), ..p };
    if picker_release_changes(p, row) {
        picker_selected(base, menu_release_fires(p.menu, row)->0 as int)
    } else {
        base
    }
}

/// Menu picker: pick one option from a pop-up menu.
pub struct MenuPicker {
    menu: Menu,
    selected: usize,
}

impl View for MenuPicker {
    type V = MenuPickerModel;

    closed spec fn view(&self) -> MenuPickerModel {
        MenuPickerModel { menu: self.menu@, selected: self.selected as int }
    }
}

impl MenuPicker {
    #[verifier::type_invariant]
    spec fn inv(self) -> bool {
        &&& selection_in(self.menu@.options.len() as int, self.selected as int)
        &&& shows_selection(self.menu@, self.selected as int)
    }

    /// A closed picker on the first option.
    pub fn new(label: &str, options: Vec<String>) -> (p: Self)
        ensures
            p@.selected == 0,
            p@.menu == (MenuModel {
                label: label@,
                button: if options@.len() > 0 {
                    options@[0]@
                } else {
                    Seq::<char>::empty()
                },
                chevron: MenuChevron::Both,
                options: texts(options@),
                open: false,
                checked: Some(0),
                last_action: None,
                armed_button: false,
                armed_row: None,
                hovered: None,
                disabled: false,
                focused: true,
            }),
    {
        let button: String = if options.len() > 0 {
            options[0].clone()
        } else {
            String::new()
        };
        let menu = Menu::new(button.as_str(), options).label(label).chevron(MenuChevron::Both).checked(
            Some(0),
        );
        MenuPicker { menu, selected: 0 }
    }

    pub fn from_slice(label: &str, options: &[&str]) -> (p: Self)
        ensures
            p@.selected == 0,
            p@.menu.label == label@,
            p@.menu.options == str_texts(options@),
            p@.menu.button == if options@.len() > 0 {
                options@[0]@
            } else {
                Seq::<char>::empty()
            },
            p@.menu.chevron == MenuChevron::Both,
            p@.menu.checked == Some(0usize),
            !p@.menu.open,
            !p@.menu.disabled,
    {
        let v = strings_from_slice(options);
        proof {
            assert(texts(v@).len() == v@.len());
            assert(str_texts(options@).len() == options@.len());
            if options@.len() > 0 {
                assert(texts(v@)[0] == str_texts(options@)[0]);
                assert(texts(v@)[0] == v@[0]@);
            }
        }
        Self::new(label, v)
    }

    /// Menu base showing `selected`: its text on the button, its row checked.
    fn synced(menu: Menu, selected: usize) -> (m: Menu)
        ensures
            m@ == (MenuModel {
                checked: Some(selected),
                button: if (selected as int) < menu@.options.len() {
                    menu@.options[selected as int]
                } else {
                    Seq::<char>::empty()
                },
                ..menu@
            }),
    {
        let mut menu = menu;
        let text: String = match menu.option(selected) {
            Some(t) => t.to_owned(),
            None => String::new(),
        };
        menu.set_button(text.as_str());
        menu.set_checked(Some(selected));
        menu
    }

    /// Initial selection (clamped) without reporting a change.
    pub fn selected(self, index: usize) -> (p: Self)
        ensures
            p@ == picker_selected(self@, index as int),
    {
        proof {
            use_type_invariant(&self);
        }
        let (menu, _) = self.into_parts();
        let i = clamp_to(menu.len(), index);
        MenuPicker { menu: Self::synced(menu, i), selected: i }
    }

    pub fn disabled(self, disabled: bool) -> (p: Self)
        ensures
            p@ == (MenuPickerModel { menu: MenuModel { disabled, ..self@.menu }, ..self@ }),
    {
        proof {
            use_type_invariant(&self);
        }
        let (menu, selected) = self.into_parts();
        MenuPicker { menu: menu.disabled(disabled), selected }
    }

    pub fn set_focused(&mut self, focused: bool)
        ensures
            final(self)@ == (MenuPickerModel { menu: MenuModel { focused, ..old(self)@.menu }, ..old(self)@ }),
    {
        proof {
            use_type_invariant(&*self);
        }
        let (mut menu, selected) = self.take().into_parts();
        menu.set_focused(focused);
        *self = MenuPicker { menu, selected };
    }

    pub fn set_label(&mut self, label: &str)
        ensures
            final(self)@ == (MenuPickerModel { menu: MenuModel { label: label@, ..old(self)@.menu }, ..old(self)@ }),
    {
        proof {
            use_type_invariant(&*self);
        }
        let (mut menu, selected) = self.take().into_parts();
        menu.set_label(label);
        *self = MenuPicker { menu, selected };
    }

    /// Moves the picker out, leaving an empty one behind.
    fn take(&mut self) -> (p: Self)
        ensures
            p@ == old(self)@,
    {
        proof {
            reveal_strlit("");
            assert(""@ =~= Seq::<char>::empty());
        }
        let mut p = MenuPicker { menu: Menu::new("", Vec::new()).checked(Some(0)), selected: 0 };
        std::mem::swap(self, &mut p);
        p
    }

    /// Splits a picker into its menu base and selection.
    fn into_parts(self) -> (parts: (Menu, usize))
        ensures
            parts.0@ == self@.menu,
            parts.1 == self@.selected,
            selection_in(self@.menu.options.len() as int, self@.selected),
            shows_selection(self@.menu, self@.selected),
    {
        proof {
            use_type_invariant(&self);
        }
        let MenuPicker { menu, selected } = self;
        (menu, selected)
    }

    pub fn is_open(&self) -> (b: bool)
        ensures
            b == self@.menu.open,
    {
        self.menu.is_open()
    }

    pub fn open(&mut self)
        ensures
            final(self)@ == (MenuPickerModel { menu: menu_opened(old(self)@.menu), ..old(self)@ }),
    {
        proof {
            use_type_invariant(&*self);
        }
        let (mut menu, selected) = self.take().into_parts();
        menu.open();
        *self = MenuPicker { menu, selected };
    }

    pub fn close(&mut self)
        ensures
            final(self)@ == (MenuPickerModel { menu: menu_closed(old(self)@.menu), ..old(self)@ }),
    {
        proof {
            use_type_invariant(&*self);
        }
        let (mut menu, selected) = self.take().into_parts();
        menu.close();
        *self = MenuPicker { menu, selected };
    }

    pub fn selected_index(&self) -> (i: usize)
        ensures
            i == self@.selected,
            selection_in(self@.menu.options.len() as int, i as int),
    {
        proof {
            use_type_invariant(self);
        }
        self.selected
    }

    /// Text of the selected option (`None` without options).
    pub fn selected_label(&self) -> (s: Option<&str>)
        ensures
            match s {
                Some(t) => self@.menu.options.len() > 0 && t@ == self@.menu.options[self@.selected],
                None => self@.menu.options.len() == 0,
            },
    {
        proof {
            use_type_invariant(self);
        }
        self.menu.option(self.selected)
    }

    /// Button text of the menu base: the selected option.
    pub fn button_text(&self) -> (t: &str)
        ensures
            t@ == self@.menu.button,
    {
        self.menu.button_text()
    }

    /// Panel row under the pointer (only while open).
    pub fn hovered(&self) -> (r: Option<usize>)
        ensures
            r == self@.menu.hovered,
    {
        self.menu.hovered()
    }

    pub fn len(&self) -> (n: usize)
        ensures
            n == self@.menu.options.len(),
    {
        self.menu.len()
    }

    pub fn is_empty(&self) -> (b: bool)
        ensures
            b == (self@.menu.options.len() == 0),
    {
        self.menu.is_empty()
    }

    fn adopt(&mut self, index: usize) -> (changed: bool)
        ensures
            changed == (clamp_index(old(self)@.menu.options.len() as int, index as int) != old(self)@.selected),
            final(self)@ == if changed {
                picker_selected(old(self)@, index as int)
            } else {
                old(self)@
            },
    {
        proof {
            use_type_invariant(&*self);
        }
        let clamped = clamp_to(self.menu.len(), index);
        if clamped != self.selected {
            let (menu, _) = self.take().into_parts();
            *self = MenuPicker { menu: Self::synced(menu, clamped), selected: clamped };
            true
        } else {
            false
        }
    }

    /// Select (clamped) and close the menu. Reports `true` when the
    /// selection changed: that is when `on_select` fires.
    pub fn select(&mut self, index: usize) -> (changed: bool)
        ensures
            changed == (clamp_index(old(self)@.menu.options.len() as int, index as int) != old(self)@.selected),
            final(self)@ == (MenuPickerModel {
                menu: menu_closed(picker_selected(old(self)@, index as int).menu),
                ..picker_selected(old(self)@, index as int)
            }),
    {
        proof {
            use_type_invariant(&*self);
        }
        let changed = self.adopt(index);
        self.close();
        changed
    }

    /// Set the selection (clamped) without touching the menu's open state.
    /// Reports `true` when the selection changed.
    pub fn set_selected(&mut self, index: usize) -> (changed: bool)
        ensures
            changed == (clamp_index(old(self)@.menu.options.len() as int, index as int) != old(self)@.selected),
            final(self)@ == if changed {
                picker_selected(old(self)@, index as int)
            } else {
                old(self)@
            },
    {
        self.adopt(index)
    }

    pub fn mouse_down(&mut self, on_button: bool, row: Option<usize>)
        ensures
            final(self)@ == (MenuPickerModel { menu: menu_after_press(old(self)@.menu, on_button, row), ..old(self)@ }),
    {
        proof {
            use_type_invariant(&*self);
        }
        let (mut menu, selected) = self.take().into_parts();
        menu.mouse_down(on_button, row);
        *self = MenuPicker { menu, selected };
    }

    pub fn mouse_move(&mut self, row: Option<usize>)
        ensures
            final(self)@ == (MenuPickerModel {
                menu: MenuModel {
                    hovered: if old(self)@.menu.open {
                        crate::menu::menu_row_hit(old(self)@.menu, row)
                    } else {
                        None
                    },
                    ..old(self)@.menu
                },
                ..old(self)@
            }),
    {
        proof {
            use_type_invariant(&*self);
        }
        let (mut menu, selected) = self.take().into_parts();
        menu.mouse_move(row);
        *self = MenuPicker { menu, selected };
    }

    /// Release: a row click selects that row. Reports `true` when the
    /// selection changed.
    pub fn mouse_up(&mut self, on_button: bool, row: Option<usize>) -> (changed: bool)
        ensures
            final(self)@ == picker_after_release(old(self)@, on_button, row),
            changed == picker_release_changes(old(self)@, row),
    {
        proof {
            use_type_invariant(&*self);
        }
        let (mut menu, selected) = self.take().into_parts();
        let fired = menu.mouse_up(on_button, row);
        *self = MenuPicker { menu, selected };
        match fired {
            Some(r) => self.adopt(r),
            None => false,
        }
    }
}

/// A click on row `r` of the open panel selects that option: the
/// button shows its text, the panel checks it and closes.
pub proof fn lemma_row_click_selects(p: MenuPickerModel, r: usize)
    requires
        selection_in(p.menu.options.len() as int, p.selected),
        shows_selection(p.menu, p.selected),
        !p.menu.disabled,
        p.menu.open,
        r < p.menu.options.len(),
    ensures
        ({
            let after = picker_after_release(
                MenuPickerModel { menu: menu_after_press(p.menu, false, Some(r)), ..p },
                false,
                Some(r),
            );
            &&& after.selected == r
            &&& after.menu.button == p.menu.options[r as int]
            &&& after.menu.checked == Some(r)
            &&& !after.menu.open
            &&& after.menu.last_action == Some(r)
        }),
{
}

} // verus!
