//! Basic sheet: a modal card over a dimmed app. It fades in on `show`,
//! fades out on `dismiss` or Escape, and only an open sheet passes
//! clicks to its child. The fade itself is drawn by the rendering layer,
//! which reports when a fade has run its course.

use vstd::prelude::*;

use crate::input::Key;

verus! {

/// Card size: the child's own size, or a share of the viewport.
#[derive(Clone, Copy, Debug, PartialEq, Eq, Structural)]
pub enum SheetSize {
    Small,
    Quarter,
    Half,
    Large,
}

impl Default for SheetSize {
    fn default() -> (s: SheetSize)
        ensures
            s == SheetSize::Small,
    {
        SheetSize::Small
    }
}

/// Share of the viewport in quarters: none for the child's own size.
pub open spec fn size_quarters(size: SheetSize) -> Option<u32> {
    match size {
        SheetSize::Small => None,
        SheetSize::Quarter => Some(1),
        SheetSize::Half => Some(2),
        SheetSize::Large => Some(3),
    }
}

impl SheetSize {
    /// Share of the viewport the card takes, in quarters of its width and
    /// height (`Quarter` 1, `Half` 2, `Large` 3); `None` for `Small`,
    /// which takes the child's measured size.
    pub fn quarters(&self) -> (q: Option<u32>)
        ensures
            q == size_quarters(*self),
    {
        match self {
            SheetSize::Small => None,
            SheetSize::Quarter => Some(1),
            SheetSize::Half => Some(2),
            SheetSize::Large => Some(3),
        }
    }
}

/// Where the sheet is in its show/dismiss cycle.
#[derive(Clone, Copy, Debug, PartialEq, Eq, Structural)]
pub enum SheetState {
    Hidden,
    Opening,
    Open,
    Closing,
}

/// State after `dismiss`: a visible sheet starts fading out.
pub open spec fn dismissed(state: SheetState) -> SheetState {
    if state == SheetState::Hidden {
        SheetState::Hidden
    } else {
        SheetState::Closing
    }
}

/// State after a fade has run its course.
pub open spec fn fade_done(state: SheetState) -> SheetState {
    match state {
        SheetState::Opening => SheetState::Open,
        SheetState::Closing => SheetState::Hidden,
        other => other,
    }
}

/// Modal card around a child element.
pub struct BasicSheet<V> {
    child: V,
    size: SheetSize,
    focused: bool,
    state: SheetState,
}

impl<V> BasicSheet<V> {
    pub closed spec fn child_spec(&self) -> V {
        self.child
    }

    pub closed spec fn size_spec(&self) -> SheetSize {
        self.size
    }

    pub closed spec fn focused_spec(&self) -> bool {
        self.focused
    }

    pub closed spec fn state_spec(&self) -> SheetState {
        self.state
    }

    /// A hidden sheet of the child's own size.
    pub fn new(child: V) -> (s: Self)
        ensures
            s.child_spec() == child,
            s.size_spec() == SheetSize::Small,
            s.focused_spec(),
            s.state_spec() == SheetState::Hidden,
    {
        BasicSheet { child, size: SheetSize::Small, focused: true, state: SheetState::Hidden }
    }

    pub fn size(self, size: SheetSize) -> (s: Self)
        ensures
            s.child_spec() == self.child_spec(),
            s.size_spec() == size,
            s.focused_spec() == self.focused_spec(),
            s.state_spec() == self.state_spec(),
    {
        BasicSheet { size, ..self }
    }

    pub fn set_size(&mut self, size: SheetSize)
        ensures
            final(self).child_spec() == old(self).child_spec(),
            final(self).size_spec() == size,
            final(self).focused_spec() == old(self).focused_spec(),
            final(self).state_spec() == old(self).state_spec(),
    {
        self.size = size;
    }

    pub fn set_focused(&mut self, focused: bool)
        ensures
            final(self).child_spec() == old(self).child_spec(),
            final(self).size_spec() == old(self).size_spec(),
            final(self).focused_spec() == focused,
            final(self).state_spec() == old(self).state_spec(),
    {
        self.focused = focused;
    }

    /// The card's size setting.
    pub fn card_size(&self) -> (s: SheetSize)
        ensures
            s == self.size_spec(),
    {
        self.size
    }

    pub fn child(&self) -> (c: &V)
        ensures
            *c == self.child_spec(),
    {
        &self.child
    }

    pub fn child_mut(&mut self) -> (c: &mut V)
        ensures
            *c == old(self).child_spec(),
            final(self).child_spec() == *final(c),
            final(self).size_spec() == old(self).size_spec(),
            final(self).focused_spec() == old(self).focused_spec(),
            final(self).state_spec() == old(self).state_spec(),
    {
        &mut self.child
    }

    /// Starts fading in (from any state).
    pub fn show(&mut self)
        ensures
            final(self).child_spec() == old(self).child_spec(),
            final(self).size_spec() == old(self).size_spec(),
            final(self).focused_spec() == old(self).focused_spec(),
            final(self).state_spec() == SheetState::Opening,
    {
        self.state = SheetState::Opening;
    }

    /// Starts fading out; a hidden sheet stays hidden.
    pub fn dismiss(&mut self)
        ensures
            final(self).child_spec() == old(self).child_spec(),
            final(self).size_spec() == old(self).size_spec(),
            final(self).focused_spec() == old(self).focused_spec(),
            final(self).state_spec() == dismissed(old(self).state_spec()),
    {
        if self.state == SheetState::Hidden {
            return;
        }
        self.state = SheetState::Closing;
    }

    /// The running fade has finished: an opening sheet is open, a
    /// closing one hidden.
    pub fn fade_finished(&mut self)
        ensures
            final(self).child_spec() == old(self).child_spec(),
            final(self).size_spec() == old(self).size_spec(),
            final(self).focused_spec() == old(self).focused_spec(),
            final(self).state_spec() == fade_done(old(self).state_spec()),
    {
        self.state = match self.state {
            SheetState::Opening => SheetState::Open,
            SheetState::Closing => SheetState::Hidden,
            other => other,
        };
    }

    /// Fully shown (not fading).
    pub fn is_open(&self) -> (b: bool)
        ensures
            b == (self.state_spec() == SheetState::Open),
    {
        self.state == SheetState::Open
    }

    /// Shown or fading.
    pub fn is_visible(&self) -> (b: bool)
        ensures
            b == (self.state_spec() != SheetState::Hidden),
    {
        self.state != SheetState::Hidden
    }

    /// Current phase of the show/dismiss cycle.
    pub fn state(&self) -> (s: SheetState)
        ensures
            s == self.state_spec(),
    {
        self.state
    }

    /// Whether a press reaches the child: only while fully open.
    pub fn mouse_down(&self) -> (forward: bool)
        ensures
            forward == (self.state_spec() == SheetState::Open),
    {
        self.state == SheetState::Open
    }

    /// Whether a release reaches the child: only while fully open.
    pub fn mouse_up(&self) -> (forward: bool)
        ensures
            forward == (self.state_spec() == SheetState::Open),
    {
        self.state == SheetState::Open
    }

    /// Escape dismisses a visible sheet and is consumed; every other key,
    /// and any key while hidden, passes through.
    pub fn key(&mut self, key: Key) -> (consumed: bool)
        ensures
            consumed == (old(self).state_spec() != SheetState::Hidden && key == Key::Escape),
            final(self).child_spec() == old(self).child_spec(),
            final(self).size_spec() == old(self).size_spec(),
            final(self).focused_spec() == old(self).focused_spec(),
            final(self).state_spec() == if consumed {
                SheetState::Closing
            } else {
                old(self).state_spec()
            },
    {
        if self.state == SheetState::Hidden {
            return false;
        }
        if key == Key::Escape {
            self.dismiss();
            return true;
        }
        false
    }
}

/// Showing and then letting the fade run always ends open; dismissing
/// and letting the fade run always ends hidden, whatever came before.
pub proof fn lemma_show_dismiss_cycle(state: SheetState)
    ensures
        fade_done(SheetState::Opening) == SheetState::Open,
        fade_done(dismissed(state)) == SheetState::Hidden,
        dismissed(SheetState::Hidden) == SheetState::Hidden,
{
}

} // verus!
