//! App sidebar: a navigation column of icon items with the window's
//! traffic lights, and a content toolbar with toggle, back and collapse
//! buttons. Selecting an item switches the page on the right (one page
//! per item; an item without a page shows nothing). Collapsing hides the
//! column; the toggle button reopens it. The layout reports which toolbar
//! button, item row or traffic light lies under the pointer.

use vstd::prelude::*;

use crate::options::owned;

verus! {

/// A window command from one of the three traffic lights.
#[derive(Clone, Copy, Debug, PartialEq, Eq, Structural)]
pub enum TrafficAction {
    Close,
    Minimize,
    Maximize,
}

/// A toolbar button of the content area.
#[derive(Clone, Copy, Debug, PartialEq, Eq, Structural)]
pub enum SidebarButton {
    Toggle,
    Back,
    Collapse,
    /// App-supplied toolbar button, by position; it fires its own press.
    Dev(usize),
}

/// One sidebar entry: an icon symbol name and a label.
#[derive(Clone, Debug)]
pub struct SidebarItem {
    label: String,
    icon: String,
}

impl SidebarItem {
    pub closed spec fn label_spec(&self) -> Seq<char> {
        self.label@
    }

    pub closed spec fn icon_spec(&self) -> Seq<char> {
        self.icon@
    }

    pub fn new(label: &str, icon: &str) -> (item: Self)
        ensures
            item.label_spec() == label@,
            item.icon_spec() == icon@,
    {
        SidebarItem { label: owned(label), icon: owned(icon) }
    }

    pub fn label(&self) -> (s: &str)
        ensures
            s@ == self.label_spec(),
    {
        self.label.as_str()
    }

    pub fn icon(&self) -> (s: &str)
        ensures
            s@ == self.icon_spec(),
    {
        self.icon.as_str()
    }

    pub fn set_label(&mut self, label: &str)
        ensures
            final(self).label_spec() == label@,
            final(self).icon_spec() == old(self).icon_spec(),
    {
        self.label = owned(label);
    }
}

/// What a sidebar holds.
pub ghost struct SidebarModel<P> {
    pub items: Seq<SidebarItem>,
    pub pages: Seq<P>,
    pub selected: nat,
    pub title: Option<Seq<char>>,
    pub show_back: bool,
    pub collapsed: bool,
    pub focused: bool,
    pub armed: Option<SidebarButton>,
}

/// The selection always names an item, or is 0 when there are none.
pub open spec fn selection_valid<P>(m: SidebarModel<P>) -> bool {
    m.items.len() == 0 && m.selected == 0 || m.selected < m.items.len()
}

/// The toolbar button a pointer position names: the back button only
/// exists while shown.
pub open spec fn toolbar_hit<P>(m: SidebarModel<P>, button: Option<SidebarButton>) -> Option<SidebarButton> {
    if button == Some(SidebarButton::Back) && !m.show_back {
        None
    } else {
        button
    }
}

/// Traffic light for a light index: lights only show with the column.
pub open spec fn traffic_of<P>(m: SidebarModel<P>, light: Option<usize>) -> Option<TrafficAction> {
    if m.collapsed {
        None
    } else {
        match light {
            Some(0) => Some(TrafficAction::Close),
            Some(1) => Some(TrafficAction::Minimize),
            Some(2) => Some(TrafficAction::Maximize),
            _ => None,
        }
    }
}

/// Selection after a programmatic select of `index`.
pub open spec fn selected_after<P>(m: SidebarModel<P>, index: int) -> nat {
    if 0 <= index < m.items.len() {
        index as nat
    } else {
        m.selected
    }
}

/// Toolbar title: the fixed title, else the selected item's label.
pub open spec fn title_of<P>(m: SidebarModel<P>) -> Seq<char> {
    match m.title {
        Some(t) => t,
        None => if m.selected < m.items.len() {
            m.items[m.selected as int].label_spec()
        } else {
            Seq::empty()
        },
    }
}

/// State after a press: the toolbar button under the pointer is armed,
/// and an item row of the visible column selects that item.
pub open spec fn sidebar_after_press<P>(m: SidebarModel<P>, button: Option<SidebarButton>, row: Option<usize>) -> SidebarModel<P> {
    let selected = match row {
        Some(r) => if !m.collapsed && r < m.items.len() {
            r as nat
        } else {
            m.selected
        },
        None => m.selected,
    };
    SidebarModel { armed: toolbar_hit(m, button), selected, ..m }
}

/// Whether a release completes a click on the armed toolbar button.
pub open spec fn sidebar_clicked<P>(m: SidebarModel<P>, button: Option<SidebarButton>) -> bool {
    m.armed is Some && m.armed == toolbar_hit(m, button)
}

/// Whether a release flips the column: a click on toggle or collapse.
pub open spec fn sidebar_flips<P>(m: SidebarModel<P>, button: Option<SidebarButton>) -> bool {
    sidebar_clicked(m, button) && (m.armed == Some(SidebarButton::Toggle) || m.armed == Some(
        SidebarButton::Collapse,
    ))
}

/// State after a release: nothing armed, the column flipped by a click on
/// toggle or collapse.
pub open spec fn sidebar_after_release<P>(m: SidebarModel<P>, button: Option<SidebarButton>) -> SidebarModel<P> {
    SidebarModel {
        armed: None,
        collapsed: if sidebar_flips(m, button) {
            !m.collapsed
        } else {
            m.collapsed
        },
        ..m
    }
}

/// What a release on the toolbar fires.
#[derive(Clone, Copy, Debug, PartialEq, Eq)]
pub struct SidebarEvent {
    /// The collapsed state after a user flip (`on_collapse`).
    pub collapsed: Option<bool>,
    /// The back button was clicked (`on_back`).
    pub back: bool,
}

/// Navigation column with its pages.
pub struct Sidebar<P> {
    items: Vec<SidebarItem>,
    pages: Vec<P>,
    selected: usize,
    title: Option<String>,
    show_back: bool,
    collapsed: bool,
    focused: bool,
    armed: Option<SidebarButton>,
}

impl<P> View for Sidebar<P> {
    type V = SidebarModel<P>;

    closed spec fn view(&self) -> SidebarModel<P> {
        SidebarModel {
            items: self.items@,
            pages: self.pages@,
            selected: self.selected as nat,
            title: match self.title {
                Some(t) => Some(t@),
                None => None,
            },
            show_back: self.show_back,
            collapsed: self.collapsed,
            focused: self.focused,
            armed: self.armed,
        }
    }
}

impl<P> Sidebar<P> {
    #[verifier::type_invariant]
    closed spec fn wf(&self) -> bool {
        selection_valid(self@)
    }

    /// A column listing `items`, first item selected, back button shown,
    /// no pages yet.
    pub fn new(items: Vec<SidebarItem>) -> (s: Self)
        ensures
            s@ == (SidebarModel::<P> {
                items: items@,
                pages: Seq::empty(),
                selected: 0,
                title: None,
                show_back: true,
                collapsed: false,
                focused: true,
                armed: None,
            }),
    {
        let s = Sidebar {
            items,
            pages: Vec::new(),
            selected: 0,
            title: None,
            show_back: true,
            collapsed: false,
            focused: true,
            armed: None,
        };
        assert(s@.pages =~= Seq::<P>::empty());
        s
    }

    /// Appends the page shown for the next item without one.
    pub fn page(self, page: P) -> (s: Self)
        ensures
            s@ == (SidebarModel { pages: self@.pages.push(page), ..self@ }),
    {
        proof {
            use_type_invariant(&self);
        }
        let Sidebar { items, mut pages, selected, title, show_back, collapsed, focused, armed } = self;
        pages.push(page);
        Sidebar { items, pages, selected, title, show_back, collapsed, focused, armed }
    }

    /// Whether the toolbar shows a back button.
    pub fn back_button(self, show: bool) -> (s: Self)
        ensures
            s@ == (SidebarModel { show_back: show, ..self@ }),
    {
        proof {
            use_type_invariant(&self);
        }
        Sidebar { show_back: show, ..self }
    }

    /// Fixed toolbar title.
    pub fn set_title(&mut self, title: &str)
        ensures
            final(self)@ == (SidebarModel { title: Some(title@), ..old(self)@ }),
    {
        proof {
            use_type_invariant(&*self);
        }
        self.title = Some(owned(title));
    }

    /// Back to the selected item's label as the title.
    pub fn clear_title(&mut self)
        ensures
            final(self)@ == (SidebarModel { title: None, ..old(self)@ }),
    {
        proof {
            use_type_invariant(&*self);
        }
        self.title = None;
    }

    /// The toolbar title: the fixed title, else the selected item's
    /// label, else empty.
    pub fn effective_title(&self) -> (t: String)
        ensures
            t@ == title_of(self@),
    {
        proof {
            use_type_invariant(self);
        }
        match &self.title {
            Some(t) => t.clone(),
            None => if self.selected < self.items.len() {
                owned(self.items[self.selected].label())
            } else {
                String::new()
            },
        }
    }

    pub fn selected_index(&self) -> (i: usize)
        ensures
            i == self@.selected,
            selection_valid(self@),
    {
        proof {
            use_type_invariant(self);
        }
        self.selected
    }

    /// Selects item `index`; false, with nothing changed, when there is
    /// no such item. `on_select` fires exactly when the selection changed,
    /// that is when `index` names an item other than the selected one.
    pub fn select(&mut self, index: usize) -> (ok: bool)
        ensures
            ok == (index < old(self)@.items.len()),
            final(self)@ == (SidebarModel { selected: selected_after(old(self)@, index as int), ..old(self)@ }),
    {
        proof {
            use_type_invariant(&*self);
        }
        if index >= self.items.len() {
            return false;
        }
        if index != self.selected {
            self.selected = index;
        }
        true
    }

    pub fn is_collapsed(&self) -> (b: bool)
        ensures
            b == self@.collapsed,
    {
        self.collapsed
    }

    /// Collapses or reopens the column (no `on_collapse`).
    pub fn set_collapsed(&mut self, collapsed: bool)
        ensures
            final(self)@ == (SidebarModel { collapsed, ..old(self)@ }),
    {
        proof {
            use_type_invariant(&*self);
        }
        self.collapsed = collapsed;
    }

    /// User flip of the column; returns the new collapsed state, which
    /// `on_collapse` reports.
    pub fn toggle_sidebar(&mut self) -> (collapsed: bool)
        ensures
            collapsed == !old(self)@.collapsed,
            final(self)@ == (SidebarModel { collapsed, ..old(self)@ }),
    {
        proof {
            use_type_invariant(&*self);
        }
        self.collapsed = !self.collapsed;
        self.collapsed
    }

    pub fn set_focused(&mut self, focused: bool)
        ensures
            final(self)@ == (SidebarModel { focused, ..old(self)@ }),
    {
        proof {
            use_type_invariant(&*self);
        }
        self.focused = focused;
    }

    pub fn len(&self) -> (n: usize)
        ensures
            n == self@.items.len(),
    {
        self.items.len()
    }

    pub fn is_empty(&self) -> (b: bool)
        ensures
            b == (self@.items.len() == 0),
    {
        self.items.len() == 0
    }

    /// Item `index`, if it exists.
    pub fn item(&self, index: usize) -> (r: Option<&SidebarItem>)
        ensures
            index < self@.items.len() ==> r == Some(&self@.items[index as int]),
            index >= self@.items.len() ==> r is None,
    {
        if index < self.items.len() {
            Some(&self.items[index])
        } else {
            None
        }
    }

    /// Page of item `index`, if one was added.
    pub fn page_at(&self, index: usize) -> (r: Option<&P>)
        ensures
            index < self@.pages.len() ==> r == Some(&self@.pages[index as int]),
            index >= self@.pages.len() ==> r is None,
    {
        if index < self.pages.len() {
            Some(&self.pages[index])
        } else {
            None
        }
    }

    /// Page of the selected item, if one was added.
    pub fn active_page(&self) -> (r: Option<&P>)
        ensures
            self@.selected < self@.pages.len() ==> r == Some(&self@.pages[self@.selected as int]),
            self@.selected >= self@.pages.len() ==> r is None,
    {
        self.page_at(self.selected)
    }

    /// Press on a traffic light (`light` 0, 1, 2 from the left). The app
    /// performs the window command and does not forward the press.
    pub fn press(&self, light: Option<usize>) -> (action: Option<TrafficAction>)
        ensures
            action == traffic_of(self@, light),
    {
        if self.collapsed {
            return None;
        }
        match light {
            Some(0) => Some(TrafficAction::Close),
            Some(1) => Some(TrafficAction::Minimize),
            Some(2) => Some(TrafficAction::Maximize),
            _ => None,
        }
    }

    /// Press: arms the toolbar button under the pointer, and an item row
    /// of the visible column selects that item. Returns the new selection
    /// when it changed (what `on_select` reports).
    pub fn mouse_down(&mut self, button: Option<SidebarButton>, row: Option<usize>) -> (changed: Option<usize>)
        ensures
            final(self)@ == sidebar_after_press(old(self)@, button, row),
            changed == if final(self)@.selected != old(self)@.selected {
                Some(final(self)@.selected as usize)
            } else {
                None
            },
    {
        proof {
            use_type_invariant(&*self);
        }
        self.armed = if button == Some(SidebarButton::Back) && !self.show_back {
            None
        } else {
            button
        };
        let before = self.selected;
        if !self.collapsed {
            if let Some(r) = row {
                if r < self.items.len() {
                    self.select(r);
                }
            }
        }
        if self.selected != before {
            Some(self.selected)
        } else {
            None
        }
    }

    /// Release: a click (press and release on the same toolbar button)
    /// on toggle or collapse flips the column, one on back reports back.
    pub fn mouse_up(&mut self, button: Option<SidebarButton>) -> (event: SidebarEvent)
        ensures
            final(self)@ == sidebar_after_release(old(self)@, button),
            event == (SidebarEvent {
                collapsed: if sidebar_flips(old(self)@, button) {
                    Some(!old(self)@.collapsed)
                } else {
                    None
                },
                back: sidebar_clicked(old(self)@, button) && old(self)@.armed == Some(SidebarButton::Back),
            }),
    {
        proof {
            use_type_invariant(&*self);
        }
        let armed = self.armed;
        self.armed = None;
        let released = if button == Some(SidebarButton::Back) && !self.show_back {
            None
        } else {
            button
        };
        let mut event = SidebarEvent { collapsed: None, back: false };
        if armed.is_some() && armed == released {
            match armed {
                Some(SidebarButton::Toggle) | Some(SidebarButton::Collapse) => {
                    let c = self.toggle_sidebar();
                    event = SidebarEvent { collapsed: Some(c), back: false };
                },
                Some(SidebarButton::Back) => {
                    event = SidebarEvent { collapsed: None, back: true };
                },
                _ => {},
            }
        }
        event
    }
}

impl<P> Default for Sidebar<P> {
    fn default() -> (s: Self)
        ensures
            s@.items.len() == 0,
            s@.pages.len() == 0,
            s@.selected == 0,
            s@.title is None,
            s@.show_back,
            !s@.collapsed,
            s@.focused,
            s@.armed is None,
    {
        Self::new(Vec::new())
    }
}

/// A click on the toggle (or collapse) button flips the column, and a
/// second click flips it back. A press on one button released on another
/// fires nothing.
pub proof fn lemma_toggle_click_flips<P>(m: SidebarModel<P>, other: SidebarButton)
    requires
        other != SidebarButton::Toggle,
    ensures
        ({
            let toggle = Some(SidebarButton::Toggle);
            let once = sidebar_after_release(sidebar_after_press(m, toggle, None), toggle);
            let twice = sidebar_after_release(sidebar_after_press(once, toggle, None), toggle);
            &&& once.collapsed == !m.collapsed
            &&& twice == (SidebarModel { armed: None, ..m })
            &&& !sidebar_clicked(sidebar_after_press(m, toggle, None), Some(other))
            &&& sidebar_after_release(sidebar_after_press(m, toggle, None), Some(other)).collapsed == m.collapsed
        }),
{
}

/// A click on the back button reports back only while the button is
/// shown.
pub proof fn lemma_back_click<P>(m: SidebarModel<P>)
    ensures
        ({
            let back = Some(SidebarButton::Back);
            let pressed = sidebar_after_press(m, back, None);
            &&& sidebar_clicked(pressed, back) == m.show_back
            &&& pressed.armed == Some(SidebarButton::Back) <==> m.show_back
            &&& sidebar_after_release(pressed, back).collapsed == m.collapsed
        }),
{
}

} // verus!
