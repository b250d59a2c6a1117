//! Inline picker: a radio list of options with one selected row. Rows
//! select on press and release inside the same row; the layout reports
//! which row lies under the pointer.

use vstd::prelude::*;

use crate::options::{clamp_index, clamp_to, entry, owned, selection_in, str_texts, strings_from_slice, texts};

verus! {

/// What an inline picker holds.
pub ghost struct InlinePickerModel {
    pub label: Seq<char>,
    pub options: Seq<Seq<char>>,
    pub selected: int,
    pub armed: Option<usize>,
    pub hovered: Option<usize>,
    pub disabled: bool,
    pub focused: bool,
}

/// The row a pointer position selects: rows exist only while the picker
/// has options and is enabled.
pub open spec fn inline_row_hit(m: InlinePickerModel, row: Option<usize>) -> Option<usize> {
    if m.options.len() == 0 || m.disabled {
        None
    } else {
        match row {
            Some(r) => if r < m.options.len() {
                Some(r)
            } else {
                None
            },
            None => None,
        }
    }
}

/// State after a press: an enabled picker arms the row under the
/// pointer; a press that hits no row changes nothing.
pub open spec fn inline_after_press(m: InlinePickerModel, row: Option<usize>) -> InlinePickerModel {
    if !m.disabled && inline_row_hit(m, row) is Some {
        InlinePickerModel { armed: inline_row_hit(m, row), ..m }
    } else {
        m
    }
}

/// Selection after a release: the armed row, when the release lands on
/// it again.
pub open spec fn inline_release_target(m: InlinePickerModel, row: Option<usize>) -> int {
    if !m.disabled && m.armed is Some && inline_row_hit(m, row) == m.armed {
        m.armed->0 as int
    } else {
        m.selected
    }
}

/// State after a release: disarmed, with the selection it made.
pub open spec fn inline_after_release(m: InlinePickerModel, row: Option<usize>) -> InlinePickerModel {
    InlinePickerModel { armed: None, selected: inline_release_target(m, row), ..m }
}

/// Radio list picker.
pub struct InlinePicker {
    label: String,
    options: Vec<String>,
    selected: usize,
    armed: Option<usize>,
    hovered: Option<usize>,
    disabled: bool,
    focused: bool,
}

impl View for InlinePicker {
    type V = InlinePickerModel;

    closed spec fn view(&self) -> InlinePickerModel {
        InlinePickerModel {
            label: self.label@,
            options: texts(self.options@),
            selected: self.selected as int,
            armed: self.armed,
            hovered: self.hovered,
            disabled: self.disabled,
            focused: self.focused,
        }
    }
}

impl InlinePicker {
    #[verifier::type_invariant]
    spec fn inv(self) -> bool {
        selection_in(self.options@.len() as int, self.selected as int)
    }

    /// A picker on the first option.
    pub fn new(label: &str, options: Vec<String>) -> (p: Self)
        ensures
            p@ == (InlinePickerModel {
                label: label@,
                options: texts(options@),
                selected: 0,
                armed: None,
                hovered: None,
                disabled: false,
                focused: true,
            }),
    {
        InlinePicker {
            label: owned(label),
            options,
            selected: 0,
            armed: None,
            hovered: None,
            disabled: false,
            focused: true,
        }
    }

    /// Convenience constructor from a slice (e.g. `["Small", "Medium"]`).
    pub fn from_slice(label: &str, options: &[&str]) -> (p: Self)
        ensures
            p@ == (InlinePickerModel {
                label: label@,
                options: str_texts(options@),
                selected: 0,
                armed: None,
                hovered: None,
                disabled: false,
                focused: true,
            }),
    {
        Self::new(label, strings_from_slice(options))
    }

    /// Initial selection (clamped) without reporting a change.
    pub fn selected(self, index: usize) -> (p: Self)
        ensures
            p@ == (InlinePickerModel {
                selected: clamp_index(self@.options.len() as int, index as int),
                ..self@
            }),
    {
        proof {
            use_type_invariant(&self);
        }
        let mut p = self;
        let clamped = p.clamp_index(index);
        p.selected = clamped;
        p
    }

    pub fn disabled(self, disabled: bool) -> (p: Self)
        ensures
            p@ == (InlinePickerModel { disabled, ..self@ }),
    {
        proof {
            use_type_invariant(&self);
        }
        let mut p = self;
        p.disabled = disabled;
        p
    }

    pub fn set_focused(&mut self, focused: bool)
        ensures
            final(self)@ == (InlinePickerModel { focused, ..old(self)@ }),
    {
        proof {
            use_type_invariant(&*self);
        }
        self.focused = focused;
    }

    pub fn set_label(&mut self, label: &str)
        ensures
            final(self)@ == (InlinePickerModel { label: label@, ..old(self)@ }),
    {
        proof {
            use_type_invariant(&*self);
        }
        self.label = owned(label);
    }

    pub fn selected_index(&self) -> (i: usize)
        ensures
            i == self@.selected,
            selection_in(self@.options.len() as int, i as int),
    {
        proof {
            use_type_invariant(self);
        }
        self.selected
    }

    /// Text of the selected option (`None` without options).
    pub fn selected_label(&self) -> (s: Option<&str>)
        ensures
            match s {
                Some(t) => self@.options.len() > 0 && t@ == self@.options[self@.selected],
                None => self@.options.len() == 0,
            },
    {
        proof {
            use_type_invariant(self);
        }
        entry(&self.options, self.selected)
    }

    pub fn len(&self) -> (n: usize)
        ensures
            n == self@.options.len(),
    {
        proof {
            use_type_invariant(self);
        }
        self.options.len()
    }

    pub fn is_empty(&self) -> (b: bool)
        ensures
            b == (self@.options.len() == 0),
    {
        proof {
            use_type_invariant(self);
        }
        self.options.len() == 0
    }

    fn clamp_index(&self, index: usize) -> (i: usize)
        ensures
            i == clamp_index(self@.options.len() as int, index as int),
    {
        proof {
            use_type_invariant(self);
        }
        clamp_to(self.options.len(), index)
    }

    /// Select (clamped) with the dot pop animation. Reports `true` when
    /// the selection changed: that is when `on_select` fires and the dot
    /// animates.
    pub fn select(&mut self, index: usize) -> (changed: bool)
        ensures
            changed == (clamp_index(old(self)@.options.len() as int, index as int) != old(self)@.selected),
            final(self)@ == (InlinePickerModel {
                selected: clamp_index(old(self)@.options.len() as int, index as int),
                ..old(self)@
            }),
    {
        proof {
            use_type_invariant(&*self);
        }
        let clamped = self.clamp_index(index);
        if clamped != self.selected {
            self.selected = clamped;
            true
        } else {
            false
        }
    }

    /// Set the selection immediately (no animation). Reports `true` when
    /// the selection changed: that is when `on_select` fires.
    pub fn set_selected(&mut self, index: usize) -> (changed: bool)
        ensures
            changed == (clamp_index(old(self)@.options.len() as int, index as int) != old(self)@.selected),
            final(self)@ == (InlinePickerModel {
                selected: clamp_index(old(self)@.options.len() as int, index as int),
                ..old(self)@
            }),
    {
        proof {
            use_type_invariant(&*self);
        }
        self.select(index)
    }

    fn row_hit(&self, row: Option<usize>) -> (r: Option<usize>)
        ensures
            r == inline_row_hit(self@, row),
    {
        proof {
            use_type_invariant(self);
        }
        if self.options.len() == 0 || self.disabled {
            return None;
        }
        match row {
            Some(r) => if r < self.options.len() {
                Some(r)
            } else {
                None
            },
            None => None,
        }
    }

    /// Press on `row` (the row under the pointer, if any) arms it.
    pub fn mouse_down(&mut self, row: Option<usize>)
        ensures
            final(self)@ == inline_after_press(old(self)@, row),
    {
        proof {
            use_type_invariant(&*self);
        }
        if self.disabled {
            return;
        }
        let hit = self.row_hit(row);
        if hit.is_some() {
            self.armed = hit;
        }
    }

    pub fn mouse_move(&mut self, row: Option<usize>)
        ensures
            final(self)@ == (InlinePickerModel { hovered: inline_row_hit(old(self)@, row), ..old(self)@ }),
    {
        proof {
            use_type_invariant(&*self);
        }
        let hit = self.row_hit(row);
        self.hovered = hit;
    }

    /// Release: selects the armed row when the release lands on it again.
    /// Reports `true` when the selection changed.
    pub fn mouse_up(&mut self, row: Option<usize>) -> (changed: bool)
        ensures
            final(self)@ == inline_after_release(old(self)@, row),
            changed == (inline_release_target(old(self)@, row) != old(self)@.selected),
    {
        proof {
            use_type_invariant(&*self);
        }
        let was_armed = self.armed;
        self.armed = None;
        if self.disabled {
            return false;
        }
        match was_armed {
            Some(a) => {
                let hit = self.row_hit(row);
                if hit == Some(a) {
                    self.select(a)
                } else {
                    false
                }
            },
            None => false,
        }
    }
}

/// A click (press and release on the same row) on an enabled picker
/// selects that row and leaves nothing armed; a press on a row and a
/// release off it selects nothing.
pub proof fn lemma_click_selects_row(m: InlinePickerModel, r: usize, off: Option<usize>)
    requires
        !m.disabled,
        r < m.options.len(),
        off is None || off->0 >= m.options.len(),
    ensures
        inline_after_release(inline_after_press(m, Some(r)), Some(r)) == (InlinePickerModel {
            armed: None,
            selected: r as int,
            ..m
        }),
        inline_after_release(inline_after_press(m, Some(r)), off) == (InlinePickerModel { armed: None, ..m }),
{
}

} // verus!
