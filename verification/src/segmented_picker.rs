//! Segmented picker: a track of segments with one selected. A press
//! highlights the segment under the pointer, the highlight follows the
//! pointer while held, and the release selects the segment it lands on.

use vstd::prelude::*;

use crate::options::{clamp_index, clamp_to, entry, owned, selection_in, str_texts, strings_from_slice, texts};

verus! {

/// What a segmented picker holds.
pub ghost struct SegmentedPickerModel {
    pub label: Seq<char>,
    pub options: Seq<Seq<char>>,
    pub selected: int,
    pub armed: bool,
    pub pressed: Option<usize>,
    pub disabled: bool,
    pub focused: bool,
}

/// The segment a pointer position names: the layout reports the segment
/// column under the pointer, which clamps to the last segment.
pub open spec fn segment_hit(m: SegmentedPickerModel, column: Option<usize>) -> Option<usize> {
    if m.options.len() == 0 {
        None
    } else {
        match column {
            Some(c) => Some(clamp_index(m.options.len() as int, c as int) as usize),
            None => None,
        }
    }
}

/// State after a press: an enabled picker holds the segment under the
/// pointer.
pub open spec fn segmented_after_press(m: SegmentedPickerModel, column: Option<usize>) -> SegmentedPickerModel {
    if !m.disabled && segment_hit(m, column) is Some {
        SegmentedPickerModel { armed: true, pressed: segment_hit(m, column), ..m }
    } else {
        m
    }
}

/// State after a move: while held the highlight follows the pointer.
pub open spec fn segmented_after_move(m: SegmentedPickerModel, column: Option<usize>) -> SegmentedPickerModel {
    if m.armed {
        SegmentedPickerModel { pressed: segment_hit(m, column), ..m }
    } else {
        m
    }
}

/// Selection after a release: the held segment, when the release lands
/// on it.
pub open spec fn segmented_release_target(m: SegmentedPickerModel, column: Option<usize>) -> int {
    if m.armed && !m.disabled && m.pressed is Some && segment_hit(m, column) == m.pressed {
        m.pressed->0 as int
    } else {
        m.selected
    }
}

/// State after a release: nothing held, with the selection it made.
pub open spec fn segmented_after_release(m: SegmentedPickerModel, column: Option<usize>) -> SegmentedPickerModel {
    SegmentedPickerModel { armed: false, pressed: None, selected: segmented_release_target(m, column), ..m }
}

/// Segmented control.
pub struct SegmentedPicker {
    label: String,
    options: Vec<String>,
    selected: usize,
    armed: bool,
    pressed: Option<usize>,
    disabled: bool,
    focused: bool,
}

impl View for SegmentedPicker {
    type V = SegmentedPickerModel;

    closed spec fn view(&self) -> SegmentedPickerModel {
        SegmentedPickerModel {
            label: self.label@,
            options: texts(self.options@),
            selected: self.selected as int,
            armed: self.armed,
            pressed: self.pressed,
            disabled: self.disabled,
            focused: self.focused,
        }
    }
}

impl SegmentedPicker {
    #[verifier::type_invariant]
    spec fn inv(self) -> bool {
        selection_in(self.options@.len() as int, self.selected as int)
    }

    /// A picker on the first segment.
    pub fn new(label: &str, options: Vec<String>) -> (p: Self)
        ensures
            p@ == (SegmentedPickerModel {
                label: label@,
                options: texts(options@),
                selected: 0,
                armed: false,
                pressed: None,
                disabled: false,
                focused: true,
            }),
    {
        SegmentedPicker {
            label: owned(label),
            options,
            selected: 0,
            armed: false,
            pressed: None,
            disabled: false,
            focused: true,
        }
    }

    /// Convenience constructor from a slice (e.g. `["One", "Two", "Three"]`).
    pub fn from_slice(label: &str, options: &[&str]) -> (p: Self)
        ensures
            p@ == (SegmentedPickerModel {
                label: label@,
                options: str_texts(options@),
                selected: 0,
                armed: false,
                pressed: None,
                disabled: false,
                focused: true,
            }),
    {
        Self::new(label, strings_from_slice(options))
    }

    /// Initial selection (clamped) without reporting a change.
    pub fn selected(self, index: usize) -> (p: Self)
        ensures
            p@ == (SegmentedPickerModel {
                selected: clamp_index(self@.options.len() as int, index as int),
                ..self@
            }),
    {
        proof {
            use_type_invariant(&self);
        }
        let mut p = self;
        let clamped = clamp_to(p.options.len(), index);
        p.selected = clamped;
        p
    }

    pub fn disabled(self, disabled: bool) -> (p: Self)
        ensures
            p@ == (SegmentedPickerModel { disabled, ..self@ }),
    {
        proof {
            use_type_invariant(&self);
        }
        let mut p = self;
        p.disabled = disabled;
        p
    }

    pub fn set_focused(&mut self, focused: bool)
        ensures
            final(self)@ == (SegmentedPickerModel { focused, ..old(self)@ }),
    {
        proof {
            use_type_invariant(&*self);
        }
        self.focused = focused;
    }

    pub fn set_label(&mut self, label: &str)
        ensures
            final(self)@ == (SegmentedPickerModel { label: label@, ..old(self)@ }),
    {
        proof {
            use_type_invariant(&*self);
        }
        self.label = owned(label);
    }

    pub fn selected_index(&self) -> (i: usize)
        ensures
            i == self@.selected,
            selection_in(self@.options.len() as int, i as int),
    {
        proof {
            use_type_invariant(self);
        }
        self.selected
    }

    /// Text of the selected segment (`None` without segments).
    pub fn selected_label(&self) -> (s: Option<&str>)
        ensures
            match s {
                Some(t) => self@.options.len() > 0 && t@ == self@.options[self@.selected],
                None => self@.options.len() == 0,
            },
    {
        proof {
            use_type_invariant(self);
        }
        entry(&self.options, self.selected)
    }

    /// Segment held under the pointer, if any.
    pub fn pressed(&self) -> (p: Option<usize>)
        ensures
            p == self@.pressed,
    {
        self.pressed
    }

    pub fn len(&self) -> (n: usize)
        ensures
            n == self@.options.len(),
    {
        self.options.len()
    }

    pub fn is_empty(&self) -> (b: bool)
        ensures
            b == (self@.options.len() == 0),
    {
        self.options.len() == 0
    }

    /// Select (clamped) instantly. Reports `true` when the selection
    /// changed: that is when `on_select` fires.
    pub fn select(&mut self, index: usize) -> (changed: bool)
        ensures
            changed == (clamp_index(old(self)@.options.len() as int, index as int) != old(self)@.selected),
            final(self)@ == (SegmentedPickerModel {
                selected: clamp_index(old(self)@.options.len() as int, index as int),
                ..old(self)@
            }),
    {
        proof {
            use_type_invariant(&*self);
        }
        let clamped = clamp_to(self.options.len(), index);
        if clamped != self.selected {
            self.selected = clamped;
            true
        } else {
            false
        }
    }

    /// Set the selection instantly; the same as `select`.
    pub fn set_selected(&mut self, index: usize) -> (changed: bool)
        ensures
            changed == (clamp_index(old(self)@.options.len() as int, index as int) != old(self)@.selected),
            final(self)@ == (SegmentedPickerModel {
                selected: clamp_index(old(self)@.options.len() as int, index as int),
                ..old(self)@
            }),
    {
        self.select(index)
    }

    fn segment_at(&self, column: Option<usize>) -> (s: Option<usize>)
        ensures
            s == segment_hit(self@, column),
    {
        if self.options.len() == 0 {
            return None;
        }
        match column {
            Some(c) => Some(clamp_to(self.options.len(), c)),
            None => None,
        }
    }

    /// Press on the segment column under the pointer, if any.
    pub fn mouse_down(&mut self, column: Option<usize>)
        ensures
            final(self)@ == segmented_after_press(old(self)@, column),
    {
        proof {
            use_type_invariant(&*self);
        }
        if self.disabled {
            return;
        }
        let hit = self.segment_at(column);
        if hit.is_some() {
            self.armed = true;
            self.pressed = hit;
        }
    }

    /// While held the highlight follows the pointer; otherwise there is no
    /// hover state.
    pub fn mouse_move(&mut self, column: Option<usize>)
        ensures
            final(self)@ == segmented_after_move(old(self)@, column),
    {
        proof {
            use_type_invariant(&*self);
        }
        if self.armed {
            let hit = self.segment_at(column);
            self.pressed = hit;
        }
    }

    /// Release: selects the held segment when the release lands on it.
    /// Reports `true` when the selection changed.
    pub fn mouse_up(&mut self, column: Option<usize>) -> (changed: bool)
        ensures
            final(self)@ == segmented_after_release(old(self)@, column),
            changed == (segmented_release_target(old(self)@, column) != old(self)@.selected),
    {
        proof {
            use_type_invariant(&*self);
        }
        let was_armed = self.armed;
        let was_pressed = self.pressed;
        self.pressed = None;
        self.armed = false;
        if was_armed && !self.disabled {
            if let Some(index) = was_pressed {
                let hit = self.segment_at(column);
                if hit == Some(index) {
                    return self.select(index);
                }
            }
        }
        false
    }
}

/// The segment selected is the one the held press ends on: a press, a
/// drag that ends over segment `last`, and a release there select `last`,
/// wherever the press began.
pub proof fn lemma_release_selects_held_segment(m: SegmentedPickerModel, first: usize, last: usize)
    requires
        !m.disabled,
        first < m.options.len(),
        last < m.options.len(),
    ensures
        segmented_after_release(
            segmented_after_move(segmented_after_press(m, Some(first)), Some(last)),
            Some(last),
        ) == (SegmentedPickerModel { armed: false, pressed: None, selected: last as int, ..m }),
{
}

} // verus!
