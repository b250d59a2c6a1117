//! Data model of the toolkit-rendered menus: a menu button and a context
//! menu around a child, each listing entries (items with an optional
//! description and icon, dividers, titled sections and submenus). The
//! toolkit layer builds the popover widgets from these entries and wires
//! each item's activation.

use vstd::prelude::*;

use crate::options::owned;

verus! {

/// How an item is drawn: plain, or in the destructive red.
#[derive(Clone, Copy, Debug, PartialEq, Eq, Structural)]
pub enum MenuRole {
    Default,
    Destructive,
}

/// One selectable menu row.
pub struct MenuItem {
    pub label: String,
    pub description: Option<String>,
    pub icon: Option<String>,
    pub role: MenuRole,
}

/// Text of an optional string.
pub open spec fn opt_text(o: Option<String>) -> Option<Seq<char>> {
    match o {
        Some(s) => Some(s@),
        None => None,
    }
}

/// Whether `item` shows `label`, `description` and `icon` in `role`.
pub open spec fn item_is(
    item: MenuItem,
    label: Seq<char>,
    description: Option<Seq<char>>,
    icon: Option<Seq<char>>,
    role: MenuRole,
) -> bool {
    &&& item.label@ == label
    &&& opt_text(item.description) == description
    &&& opt_text(item.icon) == icon
    &&& item.role == role
}

impl MenuItem {
    /// A plain item with no description or icon.
    pub fn new(label: &str) -> (i: Self)
        ensures
            item_is(i, label@, None, None, MenuRole::Default),
    {
        MenuItem { label: owned(label), description: None, icon: None, role: MenuRole::Default }
    }

    /// Secondary line under the label.
    pub fn description(self, d: &str) -> (i: Self)
        ensures
            item_is(i, self.label@, Some(d@), opt_text(self.icon), self.role),
    {
        MenuItem { description: Some(owned(d)), ..self }
    }

    /// Leading icon by symbol name.
    pub fn icon(self, name: &str) -> (i: Self)
        ensures
            item_is(i, self.label@, opt_text(self.description), Some(name@), self.role),
    {
        MenuItem { icon: Some(owned(name)), ..self }
    }

    /// Drawn in the destructive red.
    pub fn destructive(self) -> (i: Self)
        ensures
            item_is(i, self.label@, opt_text(self.description), opt_text(self.icon), MenuRole::Destructive),
    {
        MenuItem { role: MenuRole::Destructive, ..self }
    }
}

/// One entry of a menu.
pub enum MenuEntry {
    Item(MenuItem),
    Divider,
    Section { title: Option<String>, items: Vec<MenuEntry> },
    Submenu { title: String, items: Vec<MenuEntry> },
}

/// `after` is `before` with one more entry at the end.
pub open spec fn appended(before: Seq<MenuEntry>, after: Seq<MenuEntry>) -> bool {
    after.len() > 0 && after == before.push(after.last())
}

/// The last entry is an item showing `label`, `description` and `icon`.
pub open spec fn last_item_is(
    entries: Seq<MenuEntry>,
    label: Seq<char>,
    description: Option<Seq<char>>,
    icon: Option<Seq<char>>,
) -> bool {
    entries.last() matches MenuEntry::Item(i) && item_is(i, label, description, icon, MenuRole::Default)
}

/// `items` is what the builder `f` returns given an empty list.
pub open spec fn built_from_empty<F: FnOnce(Vec<MenuEntry>) -> Vec<MenuEntry>>(f: F, items: Vec<MenuEntry>) -> bool {
    exists|v: Vec<MenuEntry>| v@.len() == 0 && #[trigger] f.ensures((v,), items)
}

/// Builds a plain item entry.
fn item_entry(label: &str, description: Option<&str>, icon: Option<&str>) -> (e: MenuEntry)
    ensures
        e matches MenuEntry::Item(i) && item_is(
            i,
            label@,
            match description {
                Some(d) => Some(d@),
                None => None,
            },
            match icon {
                Some(n) => Some(n@),
                None => None,
            },
            MenuRole::Default,
        ),
{
    let mut i = MenuItem::new(label);
    if let Some(d) = description {
        i = i.description(d);
    }
    if let Some(n) = icon {
        i = i.icon(n);
    }
    MenuEntry::Item(i)
}

/// A menu button listing entries.
pub struct Menu {
    label: String,
    entries: Vec<MenuEntry>,
}

impl Menu {
    pub closed spec fn label_spec(&self) -> Seq<char> {
        self.label@
    }

    pub closed spec fn entries_spec(&self) -> Seq<MenuEntry> {
        self.entries@
    }

    /// A menu button labelled `label`, no entries yet.
    pub fn new(label: &str) -> (m: Self)
        ensures
            m.label_spec() == label@,
            m.entries_spec().len() == 0,
    {
        Menu { label: owned(label), entries: Vec::new() }
    }

    pub fn label(&self) -> (s: &str)
        ensures
            s@ == self.label_spec(),
    {
        self.label.as_str()
    }

    /// The entries, top to bottom.
    pub fn entry_list(&self) -> (v: &Vec<MenuEntry>)
        ensures
            v@ == self.entries_spec(),
    {
        &self.entries
    }

    pub fn len(&self) -> (n: usize)
        ensures
            n == self.entries_spec().len(),
    {
        self.entries.len()
    }

    /// Appends a raw entry.
    pub fn entry(self, e: MenuEntry) -> (m: Self)
        ensures
            m.label_spec() == self.label_spec(),
            m.entries_spec() == self.entries_spec().push(e),
    {
        let Menu { label, mut entries } = self;
        entries.push(e);
        Menu { label, entries }
    }

    /// Appends a plain item.
    pub fn item(self, label: &str) -> (m: Self)
        ensures
            m.label_spec() == self.label_spec(),
            appended(self.entries_spec(), m.entries_spec()),
            last_item_is(m.entries_spec(), label@, None, None),
    {
        self.entry(item_entry(label, None, None))
    }

    /// Appends an item with a description line.
    pub fn item_with_desc(self, label: &str, desc: &str) -> (m: Self)
        ensures
            m.label_spec() == self.label_spec(),
            appended(self.entries_spec(), m.entries_spec()),
            last_item_is(m.entries_spec(), label@, Some(desc@), None),
    {
        self.entry(item_entry(label, Some(desc), None))
    }

    /// Appends an item with a leading icon.
    pub fn item_with_icon(self, label: &str, icon: &str) -> (m: Self)
        ensures
            m.label_spec() == self.label_spec(),
            appended(self.entries_spec(), m.entries_spec()),
            last_item_is(m.entries_spec(), label@, None, Some(icon@)),
    {
        self.entry(item_entry(label, None, Some(icon)))
    }

    /// Appends a fully built item.
    pub fn item_full(self, item: MenuItem) -> (m: Self)
        ensures
            m.label_spec() == self.label_spec(),
            m.entries_spec() == self.entries_spec().push(MenuEntry::Item(item)),
    {
        self.entry(MenuEntry::Item(item))
    }

    /// Appends a divider line.
    pub fn divider(self) -> (m: Self)
        ensures
            m.label_spec() == self.label_spec(),
            m.entries_spec() == self.entries_spec().push(MenuEntry::Divider),
    {
        self.entry(MenuEntry::Divider)
    }

    /// Appends a titled section whose entries `f` builds from an empty
    /// list.
    pub fn section<F: FnOnce(Vec<MenuEntry>) -> Vec<MenuEntry>>(self, title: &str, f: F) -> (m: Self)
        requires
            forall|v: Vec<MenuEntry>| f.requires((v,)),
        ensures
            m.label_spec() == self.label_spec(),
            appended(self.entries_spec(), m.entries_spec()),
            m.entries_spec().last() matches MenuEntry::Section { title: Some(t), items } && t@ == title@
                && built_from_empty(f, items),
    {
        let empty: Vec<MenuEntry> = Vec::new();
        let ghost start = empty;
        let inner = f(empty);
        assert(start@.len() == 0 && f.ensures((start,), inner));
        assert(built_from_empty(f, inner));
        self.entry(MenuEntry::Section { title: Some(owned(title)), items: inner })
    }

    /// Appends a section with an optional title and given entries.
    pub fn section_items(self, title: Option<String>, items: Vec<MenuEntry>) -> (m: Self)
        ensures
            m.label_spec() == self.label_spec(),
            m.entries_spec() == self.entries_spec().push(MenuEntry::Section { title, items }),
    {
        self.entry(MenuEntry::Section { title, items })
    }

    /// Appends a submenu with given entries.
    pub fn submenu(self, title: &str, items: Vec<MenuEntry>) -> (m: Self)
        ensures
            m.label_spec() == self.label_spec(),
            appended(self.entries_spec(), m.entries_spec()),
            m.entries_spec().last() matches MenuEntry::Submenu { title: t, items: it } && t@ == title@ && it
                == items,
    {
        self.entry(MenuEntry::Submenu { title: owned(title), items })
    }

    /// Appends a submenu whose entries `f` builds from an empty list.
    pub fn submenu_with<F: FnOnce(Vec<MenuEntry>) -> Vec<MenuEntry>>(self, title: &str, f: F) -> (m: Self)
        requires
            forall|v: Vec<MenuEntry>| f.requires((v,)),
        ensures
            m.label_spec() == self.label_spec(),
            appended(self.entries_spec(), m.entries_spec()),
            m.entries_spec().last() matches MenuEntry::Submenu { title: t, items } && t@ == title@
                && built_from_empty(f, items),
    {
        let empty: Vec<MenuEntry> = Vec::new();
        let ghost start = empty;
        let inner = f(empty);
        assert(start@.len() == 0 && f.ensures((start,), inner));
        assert(built_from_empty(f, inner));
        self.entry(MenuEntry::Submenu { title: owned(title), items: inner })
    }
}

/// Fluent building of entry lists for sections and submenus.
pub trait MenuVecExt: Sized {
    fn push_item(self, label: &str) -> Self;

    fn push_item_desc(self, label: &str, desc: &str) -> Self;

    fn push_item_icon(self, label: &str, icon: &str) -> Self;
}

impl MenuVecExt for Vec<MenuEntry> {
    /// Appends a plain item.
    fn push_item(self, label: &str) -> (v: Self)
        ensures
            appended(self@, v@),
            last_item_is(v@, label@, None, None),
    {
        let mut v = self;
        v.push(item_entry(label, None, None));
        v
    }

    /// Appends an item with a description line.
    fn push_item_desc(self, label: &str, desc: &str) -> (v: Self)
        ensures
            appended(self@, v@),
            last_item_is(v@, label@, Some(desc@), None),
    {
        let mut v = self;
        v.push(item_entry(label, Some(desc), None));
        v
    }

    /// Appends an item with a leading icon.
    fn push_item_icon(self, label: &str, icon: &str) -> (v: Self)
        ensures
            appended(self@, v@),
            last_item_is(v@, label@, None, Some(icon@)),
    {
        let mut v = self;
        v.push(item_entry(label, None, Some(icon)));
        v
    }
}

/// A child element that opens a menu of entries on a secondary click,
/// optionally with a preview element above the entries.
pub struct ContextMenu<C, P> {
    child: C,
    entries: Vec<MenuEntry>,
    preview: Option<P>,
}

impl<C, P> ContextMenu<C, P> {
    pub closed spec fn child_spec(&self) -> C {
        self.child
    }

    pub closed spec fn entries_spec(&self) -> Seq<MenuEntry> {
        self.entries@
    }

    pub closed spec fn preview_spec(&self) -> Option<P> {
        self.preview
    }

    /// Wraps `child`, no entries and no preview yet.
    pub fn new(child: C) -> (c: Self)
        ensures
            c.child_spec() == child,
            c.entries_spec().len() == 0,
            c.preview_spec() is None,
    {
        ContextMenu { child, entries: Vec::new(), preview: None }
    }

    pub fn child(&self) -> (c: &C)
        ensures
            *c == self.child_spec(),
    {
        &self.child
    }

    pub fn preview_element(&self) -> (p: &Option<P>)
        ensures
            *p == self.preview_spec(),
    {
        &self.preview
    }

    /// The entries, top to bottom.
    pub fn entry_list(&self) -> (v: &Vec<MenuEntry>)
        ensures
            v@ == self.entries_spec(),
    {
        &self.entries
    }

    pub fn len(&self) -> (n: usize)
        ensures
            n == self.entries_spec().len(),
    {
        self.entries.len()
    }

    /// Appends a raw entry.
    pub fn entry(self, e: MenuEntry) -> (c: Self)
        ensures
            c.child_spec() == self.child_spec(),
            c.preview_spec() == self.preview_spec(),
            c.entries_spec() == self.entries_spec().push(e),
    {
        let ContextMenu { child, mut entries, preview } = self;
        entries.push(e);
        ContextMenu { child, entries, preview }
    }

    /// Appends a plain item.
    pub fn item(self, label: &str) -> (c: Self)
        ensures
            c.child_spec() == self.child_spec(),
            c.preview_spec() == self.preview_spec(),
            appended(self.entries_spec(), c.entries_spec()),
            last_item_is(c.entries_spec(), label@, None, None),
    {
        self.entry(item_entry(label, None, None))
    }

    /// Appends an item with a description line.
    pub fn item_with_desc(self, label: &str, desc: &str) -> (c: Self)
        ensures
            c.child_spec() == self.child_spec(),
            c.preview_spec() == self.preview_spec(),
            appended(self.entries_spec(), c.entries_spec()),
            last_item_is(c.entries_spec(), label@, Some(desc@), None),
    {
        self.entry(item_entry(label, Some(desc), None))
    }

    /// Appends a divider line.
    pub fn divider(self) -> (c: Self)
        ensures
            c.child_spec() == self.child_spec(),
            c.preview_spec() == self.preview_spec(),
            c.entries_spec() == self.entries_spec().push(MenuEntry::Divider),
    {
        self.entry(MenuEntry::Divider)
    }

    /// Shows `w` above the entries.
    pub fn preview(self, w: P) -> (c: Self)
        ensures
            c.child_spec() == self.child_spec(),
            c.entries_spec() == self.entries_spec(),
            c.preview_spec() == Some(w),
    {
        ContextMenu { preview: Some(w), ..self }
    }

    /// Replaces all entries.
    pub fn entries(self, v: Vec<MenuEntry>) -> (c: Self)
        ensures
            c.child_spec() == self.child_spec(),
            c.preview_spec() == self.preview_spec(),
            c.entries_spec() == v@,
    {
        ContextMenu { entries: v, ..self }
    }
}

} // verus!
