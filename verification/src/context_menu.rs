//! Context menu: opens a plain or nested menu at the pointer on a
//! right-click, or on a touch long-press, inside a fixed area. The menu
//! floats at the press point with no button of its own. The layout tells
//! whether a point lies in the area and whether a touch strayed beyond
//! the slop distance; the hold time is read from the monotonic clock.

use vstd::prelude::*;

use crate::menu::{Menu, MenuModel, menu_closed, menu_opened};
use crate::nested_menu::{NestedMenu, NestedMenuModel, nested_closed, nested_opened};

verus! {

#[verifier::external_type_specification]
#[verifier::external_body]
pub struct ExInstant(std::time::Instant);

/// Calls `std::time::Instant::now`. Nothing is stated of the reading:
/// it is the clock's.
#[verifier::external_body]
fn instant_now() -> (t: std::time::Instant) {
    std::time::Instant::now()
}

/// Calls `std::time::Instant::elapsed`. Nothing is stated of the span:
/// it depends on the clock.
#[verifier::external_body]
fn elapsed_since(start: &std::time::Instant) -> (d: std::time::Duration) {
    start.elapsed()
}

/// Calls `std::time::Duration::as_millis`. Nothing is stated of the
/// count: the span is opaque here.
#[verifier::external_body]
fn whole_millis(d: &std::time::Duration) -> (ms: u128) {
    d.as_millis()
}

/// Hold time in milliseconds after which a touch opens the menu.
pub const CONTEXT_LONG_PRESS_MILLIS: u128 = 600;

/// Menu behind a context area: plain or nested dropdown.
pub enum ContextKind {
    Basic(Menu),
    Nested(NestedMenu),
}

/// Whether the menu behind the area is open.
pub open spec fn kind_open(k: ContextKind) -> bool {
    match k {
        ContextKind::Basic(m) => m@.open,
        ContextKind::Nested(n) => n@.open,
    }
}

/// `after` is `before` with the menu opened.
pub open spec fn kind_opened(before: ContextKind, after: ContextKind) -> bool {
    match (before, after) {
        (ContextKind::Basic(b), ContextKind::Basic(a)) => a@ == menu_opened(b@),
        (ContextKind::Nested(b), ContextKind::Nested(a)) => a@ == nested_opened(b@),
        _ => false,
    }
}

/// `after` is `before` with the menu closed.
pub open spec fn kind_closed(before: ContextKind, after: ContextKind) -> bool {
    match (before, after) {
        (ContextKind::Basic(b), ContextKind::Basic(a)) => a@ == menu_closed(b@),
        (ContextKind::Nested(b), ContextKind::Nested(a)) => a@ == nested_closed(b@),
        _ => false,
    }
}

/// `after` is `before` with the window focus set to `focused`.
pub open spec fn kind_focused(before: ContextKind, after: ContextKind, focused: bool) -> bool {
    match (before, after) {
        (ContextKind::Basic(b), ContextKind::Basic(a)) => a@ == (MenuModel { focused, ..b@ }),
        (ContextKind::Nested(b), ContextKind::Nested(a)) => a@ == (NestedMenuModel { focused, ..b@ }),
        _ => false,
    }
}

/// A touch as the context area sees it.
#[derive(Clone, Copy, Debug, PartialEq, Eq)]
pub enum TouchEvent {
    /// A finger went down; `inside` tells whether in the area.
    Started { inside: bool },
    /// The finger moved; `beyond_slop` tells whether it strayed further
    /// than the slop distance from where it went down.
    Moved { beyond_slop: bool },
    /// The finger lifted; `inside` tells whether in the area,
    /// `beyond_slop` whether it lifted further than the slop distance from
    /// where it went down.
    Ended { inside: bool, beyond_slop: bool },
    Cancelled,
}

/// A menu that opens at the pointer inside an area.
pub struct ContextMenu {
    kind: ContextKind,
    touch: Option<std::time::Instant>,
}

impl ContextMenu {
    pub closed spec fn kind_spec(&self) -> ContextKind {
        self.kind
    }

    /// A long-press is being held.
    pub closed spec fn holding(&self) -> bool {
        self.touch is Some
    }

    pub fn new(kind: ContextKind) -> (c: Self)
        ensures
            c.kind_spec() == kind,
            !c.holding(),
    {
        ContextMenu { kind, touch: None }
    }

    pub fn basic(menu: Menu) -> (c: Self)
        ensures
            c.kind_spec() == ContextKind::Basic(menu),
            !c.holding(),
    {
        Self::new(ContextKind::Basic(menu))
    }

    pub fn nested(menu: NestedMenu) -> (c: Self)
        ensures
            c.kind_spec() == ContextKind::Nested(menu),
            !c.holding(),
    {
        Self::new(ContextKind::Nested(menu))
    }

    /// The menu behind the area, to forward pointer events to.
    pub fn kind(&self) -> (k: &ContextKind)
        ensures
            *k == self.kind_spec(),
    {
        &self.kind
    }

    pub fn kind_mut(&mut self) -> (k: &mut ContextKind)
        ensures
            *k == old(self).kind_spec(),
            final(self).kind_spec() == *final(k),
            final(self).holding() == old(self).holding(),
    {
        &mut self.kind
    }

    pub fn is_open(&self) -> (b: bool)
        ensures
            b == kind_open(self.kind_spec()),
    {
        match &self.kind {
            ContextKind::Basic(menu) => menu.is_open(),
            ContextKind::Nested(menu) => menu.is_open(),
        }
    }

    /// Closes the menu and forgets any touch in progress.
    pub fn close(&mut self)
        ensures
            kind_closed(old(self).kind_spec(), final(self).kind_spec()),
            !final(self).holding(),
    {
        match &mut self.kind {
            ContextKind::Basic(menu) => menu.close(),
            ContextKind::Nested(menu) => menu.close(),
        }
        self.touch = None;
    }

    pub fn set_focused(&mut self, focused: bool)
        ensures
            kind_focused(old(self).kind_spec(), final(self).kind_spec(), focused),
            final(self).holding() == old(self).holding(),
    {
        match &mut self.kind {
            ContextKind::Basic(menu) => menu.set_focused(focused),
            ContextKind::Nested(menu) => menu.set_focused(focused),
        }
    }

    fn open_menu(&mut self)
        ensures
            kind_opened(old(self).kind_spec(), final(self).kind_spec()),
            final(self).holding() == old(self).holding(),
    {
        match &mut self.kind {
            ContextKind::Basic(menu) => menu.open(),
            ContextKind::Nested(menu) => menu.open(),
        }
    }

    /// Right-click press: inside the area it opens the menu there and
    /// drops any touch in progress; outside nothing happens.
    pub fn context_click(&mut self, inside: bool)
        ensures
            inside ==> kind_opened(old(self).kind_spec(), final(self).kind_spec()) && !final(self).holding(),
            !inside ==> final(self).kind_spec() == old(self).kind_spec() && final(self).holding() == old(self).holding(),
    {
        if inside {
            self.touch = None;
            self.open_menu();
        }
    }

    /// End of a long-press that was held `held_ms` milliseconds: the menu
    /// opens when the hold reached the long-press time and the finger
    /// lifted inside the area without straying beyond the slop distance.
    /// The hold is over either way.
    pub fn release_hold(&mut self, held_ms: u128, inside: bool, beyond_slop: bool)
        ensures
            held_ms >= CONTEXT_LONG_PRESS_MILLIS && inside && !beyond_slop ==> kind_opened(
                old(self).kind_spec(),
                final(self).kind_spec(),
            ),
            !(held_ms >= CONTEXT_LONG_PRESS_MILLIS && inside && !beyond_slop) ==> final(self).kind_spec() == old(
                self,
            ).kind_spec(),
            !final(self).holding(),
    {
        self.touch = None;
        if held_ms >= CONTEXT_LONG_PRESS_MILLIS && inside && !beyond_slop {
            self.open_menu();
        }
    }

    /// Touch long-press: a hold that starts inside the area while the
    /// menu is closed, does not stray, and lifts inside after the
    /// long-press time opens the menu. A quick tap, a strayed finger or a
    /// cancel opens nothing. When a hold ends, returns how long it was
    /// held: the whole milliseconds the monotonic clock measured since the
    /// finger went down, which decide as in `release_hold`.
    pub fn touch(&mut self, event: TouchEvent) -> (held_ms: Option<u128>)
        ensures
            ({
                let before = old(self).kind_spec();
                let after = final(self).kind_spec();
                let held = old(self).holding();
                let holds = final(self).holding();
                match event {
                    TouchEvent::Started { inside } => after == before && holds == (held || inside && !kind_open(before))
                        && held_ms is None,
                    TouchEvent::Moved { beyond_slop } => after == before && holds == (held && !beyond_slop)
                        && held_ms is None,
                    TouchEvent::Ended { inside, beyond_slop } => {
                        &&& !holds
                        &&& (held_ms is Some <==> held)
                        &&& held_ms is None ==> after == before
                        &&& held_ms matches Some(ms) ==> (ms >= CONTEXT_LONG_PRESS_MILLIS && inside && !beyond_slop
                            ==> kind_opened(before, after))
                        &&& held_ms matches Some(ms) ==> (!(ms >= CONTEXT_LONG_PRESS_MILLIS && inside
                            && !beyond_slop) ==> after == before)
                    },
                    TouchEvent::Cancelled => after == before && !holds && held_ms is None,
                }
            }),
    {
        match event {
            TouchEvent::Started { inside } => {
                if inside && !self.is_open() {
                    self.touch = Some(instant_now());
                }
                None
            },
            TouchEvent::Moved { beyond_slop } => {
                if beyond_slop {
                    self.touch = None;
                }
                None
            },
            TouchEvent::Ended { inside, beyond_slop } => {
                let held: Option<u128> = match &self.touch {
                    Some(start) => {
                        let d = elapsed_since(start);
                        Some(whole_millis(&d))
                    },
                    None => None,
                };
                match held {
                    Some(ms) => self.release_hold(ms, inside, beyond_slop),
                    None => {},
                }
                held
            },
            TouchEvent::Cancelled => {
                self.touch = None;
                None
            },
        }
    }
}

} // verus!
