//! Nested menu: a dropdown whose rows are actions, submenus, section
//! titles and dividers. Hovering a submenu row opens its child panel
//! beside it; clicking an action fires its index path and closes. The
//! layout reports which panel level and which item band lie under the
//! pointer.

use vstd::prelude::*;

use crate::options::owned;

verus! {

/// One row of a nested menu.
#[derive(Debug, PartialEq, Eq)]
pub enum MenuItem {
    /// Clickable row; fires its index path.
    Action(String),
    /// Row opening a child panel on hover.
    Submenu(String, Vec<MenuItem>),
    /// Non-interactive section title.
    Section(String),
    /// Thin separator line.
    Divider,
}

/// Rows of a submenu item.
pub open spec fn submenu_rows(item: MenuItem) -> Option<Seq<MenuItem>> {
    match item {
        MenuItem::Submenu(_, items) => Some(items@),
        _ => None,
    }
}

/// Whether a row reacts to the pointer: actions and submenus do.
pub open spec fn is_live(item: MenuItem) -> bool {
    item is Action || item is Submenu
}

impl MenuItem {
    pub fn action(label: &str) -> (i: Self)
        ensures
            i matches MenuItem::Action(l) && l@ == label@,
    {
        MenuItem::Action(owned(label))
    }

    pub fn submenu(label: &str, items: Vec<MenuItem>) -> (i: Self)
        ensures
            i matches MenuItem::Submenu(l, c) && l@ == label@ && c@ == items@,
    {
        MenuItem::Submenu(owned(label), items)
    }

    pub fn section(title: &str) -> (i: Self)
        ensures
            i matches MenuItem::Section(l) && l@ == title@,
    {
        MenuItem::Section(owned(title))
    }

    pub fn divider() -> (i: Self)
        ensures
            i is Divider,
    {
        MenuItem::Divider
    }

    /// Row text (dividers have none).
    pub fn label(&self) -> (l: Option<&str>)
        ensures
            match *self {
                MenuItem::Action(s) => l is Some && l->0@ == s@,
                MenuItem::Submenu(s, _) => l is Some && l->0@ == s@,
                MenuItem::Section(s) => l is Some && l->0@ == s@,
                MenuItem::Divider => l is None,
            },
    {
        match self {
            MenuItem::Action(label) => Some(label.as_str()),
            MenuItem::Submenu(label, _) => Some(label.as_str()),
            MenuItem::Section(label) => Some(label.as_str()),
            MenuItem::Divider => None,
        }
    }

    pub fn is_action(&self) -> (b: bool)
        ensures
            b == (*self is Action),
    {
        match self {
            MenuItem::Action(_) => true,
            _ => false,
        }
    }

    /// Child rows of a submenu.
    pub fn children(&self) -> (c: Option<&Vec<MenuItem>>)
        ensures
            match c {
                Some(v) => submenu_rows(*self) == Some(v@),
                None => submenu_rows(*self) is None,
            },
    {
        match self {
            MenuItem::Submenu(_, items) => Some(items),
            _ => None,
        }
    }
}

/// Rows of the panel reached by following the first `k` entries of
/// `path` through submenus (no rows once a step leaves the tree).
pub open spec fn rows_along(items: Seq<MenuItem>, path: Seq<usize>, k: nat) -> Seq<MenuItem>
    decreases k,
{
    if k == 0 {
        items
    } else {
        let prev = rows_along(items, path, (k - 1) as nat);
        let row = path[k - 1];
        if row < prev.len() {
            match submenu_rows(prev[row as int]) {
                Some(c) => c,
                None => Seq::empty(),
            }
        } else {
            Seq::empty()
        }
    }
}

proof fn lemma_rows_stay_empty(items: Seq<MenuItem>, path: Seq<usize>, d: nat, k: nat)
    requires
        d <= k,
        rows_along(items, path, d).len() == 0,
    ensures
        rows_along(items, path, k).len() == 0,
    decreases k - d,
{
    if k > d {
        lemma_rows_stay_empty(items, path, d, (k - 1) as nat);
    }
}

/// Rows of panel `level` for the open submenu path.
pub open spec fn rows_at(items: Seq<MenuItem>, path: Seq<usize>, level: int) -> Seq<MenuItem> {
    rows_along(items, path, if level < path.len() { level as nat } else { path.len() })
}

/// Item at an index path, descending through submenus.
pub open spec fn item_at(items: Seq<MenuItem>, path: Seq<usize>) -> Option<MenuItem>
    decreases path.len(),
{
    if path.len() == 0 || path[0] >= items.len() {
        None
    } else if path.len() == 1 {
        Some(items[path[0] as int])
    } else {
        match submenu_rows(items[path[0] as int]) {
            Some(c) => item_at(c, path.drop_first()),
            None => None,
        }
    }
}

/// Consecutive submenu steps of `path` from step `d` on.
pub open spec fn open_chain(items: Seq<MenuItem>, path: Seq<usize>, d: nat) -> nat
    decreases path.len() - d,
{
    if d >= path.len() {
        0
    } else {
        let rows = rows_along(items, path, d);
        if path[d as int] < rows.len() && submenu_rows(rows[path[d as int] as int]) is Some {
            1 + open_chain(items, path, d + 1)
        } else {
            0
        }
    }
}

/// Panels shown while open: the root plus one per opened submenu, at
/// most nine.
pub open spec fn panel_count(items: Seq<MenuItem>, path: Seq<usize>) -> nat {
    if items.len() == 0 {
        0
    } else if open_chain(items, path, 0) < 8 {
        1 + open_chain(items, path, 0)
    } else {
        9
    }
}

/// What the pointer is over inside the open menu: the topmost panel level
/// under it and the item band of that panel under it, if any.
#[derive(Clone, Copy, Debug)]
pub struct PanelHit {
    pub level: usize,
    pub item: Option<usize>,
}

/// What a nested menu holds.
pub ghost struct NestedMenuModel {
    pub label: Seq<char>,
    pub button: Seq<char>,
    pub items: Seq<MenuItem>,
    pub open: bool,
    pub path: Seq<usize>,
    pub hovered: Seq<Option<usize>>,
    pub last_action: Option<Seq<usize>>,
    pub armed_button: bool,
    pub armed: Option<(usize, usize)>,
    pub armed_outside: bool,
    pub disabled: bool,
    pub focused: bool,
}

/// The live row named by an item band of panel `level`.
pub open spec fn live_row(m: NestedMenuModel, level: int, item: Option<usize>) -> Option<usize> {
    match item {
        Some(i) => {
            let rows = rows_at(m.items, m.path, level);
            if i < rows.len() && is_live(rows[i as int]) {
                Some(i)
            } else {
                None
            }
        },
        None => None,
    }
}

/// Index path of row `row` of panel `level`.
pub open spec fn action_path(m: NestedMenuModel, level: int, row: usize) -> Seq<usize> {
    m.path.take(if level < m.path.len() { level } else { m.path.len() as int }).push(row)
}

/// Closed menu with nothing open, armed or hovered.
pub open spec fn nested_closed(m: NestedMenuModel) -> NestedMenuModel {
    NestedMenuModel {
        open: false,
        path: Seq::empty(),
        hovered: Seq::empty(),
        armed_button: false,
        armed: None,
        armed_outside: false,
        ..m
    }
}

/// The menu opens only when enabled and non-empty.
pub open spec fn nested_opened(m: NestedMenuModel) -> NestedMenuModel {
    if !m.disabled && m.items.len() > 0 {
        NestedMenuModel { open: true, ..m }
    } else {
        m
    }
}

/// State after a press.
pub open spec fn nested_after_press(m: NestedMenuModel, on_button: bool, hit: Option<PanelHit>) -> NestedMenuModel {
    if m.disabled {
        m
    } else if !m.open {
        if on_button {
            NestedMenuModel { armed_button: true, ..m }
        } else {
            m
        }
    } else {
        let row = match hit {
            Some(h) => live_row(m, h.level as int, h.item),
            None => None,
        };
        match row {
            Some(r) => NestedMenuModel {
                armed_button: false,
                armed: Some((hit->0.level, r)),
                armed_outside: false,
                ..m
            },
            None => NestedMenuModel { armed_button: false, armed: None, armed_outside: true, ..m },
        }
    }
}

/// Action path a release fires: press and release on the same action row.
pub open spec fn nested_release_fires(m: NestedMenuModel, hit: Option<PanelHit>) -> Option<Seq<usize>> {
    if !m.disabled && m.open && m.armed is Some && hit is Some {
        let (level, row) = m.armed->0;
        let p = action_path(m, level as int, row);
        if hit->0.level == level && live_row(m, level as int, hit->0.item) == Some(row) && item_at(m.items, p)
            matches Some(MenuItem::Action(_)) {
            Some(p)
        } else {
            None
        }
    } else {
        None
    }
}

/// State after a release.
pub open spec fn nested_after_release(m: NestedMenuModel, on_button: bool, hit: Option<PanelHit>) -> NestedMenuModel {
    if m.disabled {
        m
    } else if !m.open {
        let m1 = if m.armed_button && on_button {
            nested_opened(m)
        } else {
            m
        };
        NestedMenuModel { armed_button: false, ..m1 }
    } else {
        match nested_release_fires(m, hit) {
            Some(p) => nested_closed(NestedMenuModel { last_action: Some(p), ..m }),
            None => {
                let m1 = NestedMenuModel { armed: None, armed_button: false, ..m };
                if m.armed_outside {
                    nested_closed(m1)
                } else {
                    m1
                }
            },
        }
    }
}

/// Whether hovering would index past the open path (the hovered level
/// lies deeper than the open path reaches while naming a submenu row).
pub open spec fn hover_overruns(m: NestedMenuModel, hit: Option<PanelHit>) -> bool {
    &&& m.open
    &&& !m.disabled
    &&& hit is Some
    &&& (hit->0.level as int) > m.path.len()
    &&& live_row(m, hit->0.level as int, hit->0.item) matches Some(r) && submenu_rows(
        rows_at(m.items, m.path, hit->0.level as int)[r as int],
    ) is Some
}

/// Hover slots after hovering `row` on panel `level`: deeper slots drop,
/// missing ones appear empty.
pub open spec fn hover_slots(hovered: Seq<Option<usize>>, level: int, row: Option<usize>) -> Seq<Option<usize>> {
    let kept = hovered.take(if level + 1 < hovered.len() { level + 1 } else { hovered.len() as int });
    let padded = kept + Seq::new((level + 1 - kept.len()) as nat, |i: int| None::<usize>);
    padded.update(level, row)
}

/// State after a pointer move.
pub open spec fn nested_after_move(m: NestedMenuModel, hit: Option<PanelHit>) -> NestedMenuModel {
    if !m.open || m.disabled {
        m
    } else {
        match hit {
            None => NestedMenuModel { hovered: Seq::new(m.hovered.len(), |i: int| None::<usize>), ..m },
            Some(h) => {
                let level = h.level as int;
                let base = m.path.take(if level < m.path.len() { level } else { m.path.len() as int });
                let row = live_row(m, level, h.item);
                let path = match row {
                    Some(r) => if submenu_rows(rows_at(m.items, m.path, level)[r as int]) is Some {
                        base.push(r)
                    } else {
                        base
                    },
                    None => base,
                };
                NestedMenuModel { path, hovered: hover_slots(m.hovered, level, row), ..m }
            },
        }
    }
}

/// Dropdown menu with nested submenus.
pub struct NestedMenu {
    label: String,
    button: String,
    items: Vec<MenuItem>,
    open: bool,
    path: Vec<usize>,
    hovered: Vec<Option<usize>>,
    last_action: Option<Vec<usize>>,
    armed_button: bool,
    armed: Option<(usize, usize)>,
    armed_outside: bool,
    disabled: bool,
    focused: bool,
}

impl View for NestedMenu {
    type V = NestedMenuModel;

    closed spec fn view(&self) -> NestedMenuModel {
        NestedMenuModel {
            label: self.label@,
            button: self.button@,
            items: self.items@,
            open: self.open,
            path: self.path@,
            hovered: self.hovered@,
            last_action: match self.last_action {
                Some(p) => Some(p@),
                None => None,
            },
            armed_button: self.armed_button,
            armed: self.armed,
            armed_outside: self.armed_outside,
            disabled: self.disabled,
            focused: self.focused,
        }
    }
}

impl NestedMenu {
    /// A closed menu with button text `button`.
    pub fn new(button: &str, items: Vec<MenuItem>) -> (m: Self)
        ensures
            m@ == (NestedMenuModel {
                label: Seq::empty(),
                button: button@,
                items: items@,
                open: false,
                path: Seq::empty(),
                hovered: Seq::empty(),
                last_action: None,
                armed_button: false,
                armed: None,
                armed_outside: false,
                disabled: false,
                focused: true,
            }),
    {
        NestedMenu {
            label: String::new(),
            button: owned(button),
            items,
            open: false,
            path: Vec::new(),
            hovered: Vec::new(),
            last_action: None,
            armed_button: false,
            armed: None,
            armed_outside: false,
            disabled: false,
            focused: true,
        }
    }

    /// Optional leading label before the button.
    pub fn label(self, label: &str) -> (m: Self)
        ensures
            m@ == (NestedMenuModel { label: label@, ..self@ }),
    {
        let mut m = self;
        m.label = owned(label);
        m
    }

    pub fn disabled(self, disabled: bool) -> (m: Self)
        ensures
            m@ == (NestedMenuModel { disabled, ..self@ }),
    {
        let mut m = self;
        m.disabled = disabled;
        m
    }

    pub fn set_focused(&mut self, focused: bool)
        ensures
            final(self)@ == (NestedMenuModel { focused, ..old(self)@ }),
    {
        self.focused = focused;
    }

    pub fn set_label(&mut self, label: &str)
        ensures
            final(self)@ == (NestedMenuModel { label: label@, ..old(self)@ }),
    {
        self.label = owned(label);
    }

    pub fn set_button(&mut self, button: &str)
        ensures
            final(self)@ == (NestedMenuModel { button: button@, ..old(self)@ }),
    {
        self.button = owned(button);
    }

    pub fn button_text(&self) -> (t: &str)
        ensures
            t@ == self@.button,
    {
        self.button.as_str()
    }

    pub fn is_open(&self) -> (b: bool)
        ensures
            b == self@.open,
    {
        self.open
    }

    /// Open the root panel (only when enabled and non-empty).
    pub fn open(&mut self)
        ensures
            final(self)@ == nested_opened(old(self)@),
    {
        if !self.disabled && self.items.len() > 0 {
            self.open = true;
        }
    }

    pub fn close(&mut self)
        ensures
            final(self)@ == nested_closed(old(self)@),
    {
        self.open = false;
        self.path = Vec::new();
        self.hovered = Vec::new();
        self.armed_button = false;
        self.armed = None;
        self.armed_outside = false;
    }

    pub fn len(&self) -> (n: usize)
        ensures
            n == self@.items.len(),
    {
        self.items.len()
    }

    pub fn is_empty(&self) -> (b: bool)
        ensures
            b == (self@.items.len() == 0),
    {
        self.items.len() == 0
    }

    /// Index path of the last fired action, if any.
    pub fn last_action(&self) -> (p: Option<&Vec<usize>>)
        ensures
            match p {
                Some(v) => self@.last_action == Some(v@),
                None => self@.last_action is None,
            },
    {
        match &self.last_action {
            Some(v) => Some(v),
            None => None,
        }
    }

    /// Open submenu path: the row opened on each panel level.
    pub fn open_path(&self) -> (p: &Vec<usize>)
        ensures
            p@ == self@.path,
    {
        &self.path
    }

    /// Hovered row per panel level.
    pub fn hovered(&self) -> (h: &Vec<Option<usize>>)
        ensures
            h@ == self@.hovered,
    {
        &self.hovered
    }

    /// Rows of panel `level` (`None` when the path leaves the tree).
    pub fn items_at(&self, level: usize) -> (r: Option<&Vec<MenuItem>>)
        ensures
            match r {
                Some(v) => v@ == rows_at(self@.items, self@.path, level as int),
                None => rows_at(self@.items, self@.path, level as int).len() == 0,
            },
    {
        let n: usize = if level < self.path.len() {
            level
        } else {
            self.path.len()
        };
        let mut cur: &Vec<MenuItem> = &self.items;
        for d in 0..n
            invariant
                n <= self.path@.len(),
                n == (if level < self.path@.len() { level as int } else { self.path@.len() as int }),
                cur@ == rows_along(self.items@, self.path@, d as nat),
        {
            let row = self.path[d];
            if row >= cur.len() {
                proof {
                    lemma_rows_stay_empty(self.items@, self.path@, (d + 1) as nat, n as nat);
                }
                return None;
            }
            match &cur[row] {
                MenuItem::Submenu(_, children) => {
                    cur = children;
                },
                _ => {
                    proof {
                        lemma_rows_stay_empty(self.items@, self.path@, (d + 1) as nat, n as nat);
                    }
                    return None;
                },
            }
        }
        Some(cur)
    }

    /// Item at an index path, descending through submenus.
    pub fn item_at_path(&self, path: &Vec<usize>) -> (r: Option<&MenuItem>)
        ensures
            match r {
                Some(i) => item_at(self@.items, path@) == Some(*i),
                None => item_at(self@.items, path@) is None,
            },
    {
        let n = path.len();
        if n == 0 {
            return None;
        }
        let mut cur: &Vec<MenuItem> = &self.items;
        let mut d: usize = 0;
        proof {
            assert(path@.skip(0) =~= path@);
        }
        while d + 1 < n
            invariant
                n == path@.len(),
                n > 0,
                d < n,
                item_at(self@.items, path@) == item_at(cur@, path@.skip(d as int)),
            decreases n - d,
        {
            let row = path[d];
            proof {
                assert(path@.skip(d as int)[0] == path@[d as int]);
                assert(path@.skip(d as int).drop_first() =~= path@.skip(d + 1));
            }
            if row >= cur.len() {
                return None;
            }
            match &cur[row] {
                MenuItem::Submenu(_, children) => {
                    cur = children;
                },
                _ => {
                    return None;
                },
            }
            d = d + 1;
        }
        let row = path[d];
        proof {
            assert(path@.skip(d as int).len() == 1);
            assert(path@.skip(d as int)[0] == path@[d as int]);
        }
        if row < cur.len() {
            Some(&cur[row])
        } else {
            None
        }
    }

    /// Panels shown while open: the root and one per opened submenu.
    pub fn panel_count(&self) -> (n: usize)
        ensures
            n == panel_count(self@.items, self@.path),
    {
        if self.items.len() == 0 {
            return 0;
        }
        let mut level: usize = 0;
        let mut going = true;
        let mut cur: &Vec<MenuItem> = &self.items;
        while going && level < self.path.len() && level < 8
            invariant
                level <= self.path@.len(),
                level <= 8,
                cur@ == rows_along(self.items@, self.path@, level as nat),
                going ==> open_chain(self.items@, self.path@, 0) == level + open_chain(
                    self.items@,
                    self.path@,
                    level as nat,
                ),
                !going ==> open_chain(self.items@, self.path@, 0) == level,
            decreases self.path@.len() - level + (if going { 1int } else { 0int }),
        {
            let row = self.path[level];
            if row >= cur.len() {
                going = false;
            } else {
                match &cur[row] {
                    MenuItem::Submenu(_, children) => {
                        cur = children;
                        level = level + 1;
                    },
                    _ => {
                        going = false;
                    },
                }
            }
        }
        1 + level
    }

    fn live_row_at(&self, level: usize, item: Option<usize>) -> (r: Option<usize>)
        ensures
            r == live_row(self@, level as int, item),
    {
        match item {
            Some(i) => {
                match self.items_at(level) {
                    Some(rows) => {
                        if i < rows.len() {
                            match &rows[i] {
                                MenuItem::Action(_) => Some(i),
                                MenuItem::Submenu(_, _) => Some(i),
                                _ => None,
                            }
                        } else {
                            None
                        }
                    },
                    None => None,
                }
            },
            None => None,
        }
    }

    /// Whether row `row` of panel `level` is a submenu.
    fn row_is_submenu(&self, level: usize, row: usize) -> (b: bool)
        ensures
            b == (row < rows_at(self@.items, self@.path, level as int).len() && submenu_rows(
                rows_at(self@.items, self@.path, level as int)[row as int],
            ) is Some),
    {
        match self.items_at(level) {
            Some(rows) => {
                if row < rows.len() {
                    match &rows[row] {
                        MenuItem::Submenu(_, _) => true,
                        _ => false,
                    }
                } else {
                    false
                }
            },
            None => false,
        }
    }

    /// Press. `on_button` tells whether the pointer is on the button,
    /// `hit` what it is over inside the open menu.
    pub fn mouse_down(&mut self, on_button: bool, hit: Option<PanelHit>)
        ensures
            final(self)@ == nested_after_press(old(self)@, on_button, hit),
    {
        if self.disabled {
            return;
        }
        if !self.open {
            if on_button {
                self.armed_button = true;
            }
            return;
        }
        self.armed_button = false;
        self.armed = None;
        self.armed_outside = false;
        if let Some(h) = hit {
            let row = self.live_row_at(h.level, h.item);
            if let Some(r) = row {
                self.armed = Some((h.level, r));
                return;
            }
        }
        self.armed_outside = true;
    }

    /// Hover: drops deeper levels, highlights the live row under the
    /// pointer and opens the child panel of a submenu row.
    pub fn mouse_move(&mut self, hit: Option<PanelHit>)
        requires
            !hover_overruns(old(self)@, hit),
        ensures
            final(self)@ == nested_after_move(old(self)@, hit),
    {
        if !self.open || self.disabled {
            return;
        }
        let ghost m0 = self@;
        match hit {
            None => {
                let n = self.hovered.len();
                let mut cleared: Vec<Option<usize>> = Vec::new();
                for i in 0..n
                    invariant
                        cleared@ =~= Seq::new(i as nat, |j: int| None::<usize>),
                {
                    cleared.push(None);
                }
                self.hovered = cleared;
                assert(self@.hovered =~= Seq::new(m0.hovered.len(), |i: int| None::<usize>));
                assert(self@ == nested_after_move(m0, hit));
            },
            Some(h) => {
                let level = h.level;
                let row = self.live_row_at(level, h.item);
                let submenu = match row {
                    Some(r) => self.row_is_submenu(level, r),
                    None => false,
                };
                proof {
                    assert(rows_at(m0.items, m0.path, level as int) == rows_at(
                        self@.items,
                        self@.path,
                        level as int,
                    ));
                }
                let mut path = self.path.clone();
                path.truncate(level);
                if submenu {
                    path.push(row.unwrap());
                }
                let keep: usize = if level < self.hovered.len() {
                    level + 1
                } else {
                    self.hovered.len()
                };
                let mut hov: Vec<Option<usize>> = Vec::new();
                for i in 0..keep
                    invariant
                        keep <= self.hovered@.len(),
                        hov@ =~= self.hovered@.take(i as int),
                {
                    hov.push(self.hovered[i]);
                    assert(self.hovered@.take(i + 1) =~= self.hovered@.take(i as int).push(self.hovered@[i as int]));
                }
                while hov.len() <= level
                    invariant
                        hov@.len() <= level + 1,
                        keep <= hov@.len(),
                        hov@.take(keep as int) =~= m0.hovered.take(keep as int),
                        forall|j: int| keep <= j < hov@.len() ==> hov@[j] is None,
                    decreases level + 1 - hov@.len(),
                {
                    hov.push(None);
                }
                hov.set(level, row);
                self.path = path;
                self.hovered = hov;
                proof {
                    let kept = m0.hovered.take(if level + 1 < m0.hovered.len() {
                        level + 1
                    } else {
                        m0.hovered.len() as int
                    });
                    assert(keep == kept.len());
                    assert(self@.hovered =~= hover_slots(m0.hovered, level as int, row));
                    let base = m0.path.take(if level < m0.path.len() { level as int } else { m0.path.len() as int });
                    assert(self@.path =~= if submenu { base.push(row->0) } else { base });
                    assert(self@.label == m0.label);
                    assert(self@.items == m0.items);
                    assert(self@.last_action == m0.last_action);
                    assert(self@ == nested_after_move(m0, hit));
                }
            },
        }
    }

    /// Release. Returns the index path of the fired action (that is when
    /// `on_action` fires), if any.
    pub fn mouse_up(&mut self, on_button: bool, hit: Option<PanelHit>) -> (fired: Option<Vec<usize>>)
        ensures
            final(self)@ == nested_after_release(old(self)@, on_button, hit),
            match fired {
                Some(p) => nested_release_fires(old(self)@, hit) == Some(p@),
                None => nested_release_fires(old(self)@, hit) is None,
            },
    {
        if self.disabled {
            return None;
        }
        if !self.open {
            if self.armed_button && on_button {
                self.open();
            }
            self.armed_button = false;
            return None;
        }
        let armed = self.armed;
        self.armed = None;
        if let Some((level, row)) = armed {
            if let Some(h) = hit {
                if h.level == level {
                    let live = self.live_row_at(level, h.item);
                    if live == Some(row) {
                        let keep: usize = if level < self.path.len() {
                            level
                        } else {
                            self.path.len()
                        };
                        let mut p: Vec<usize> = Vec::new();
                        for i in 0..keep
                            invariant
                                keep <= self.path@.len(),
                                p@ =~= self.path@.take(i as int),
                        {
                            p.push(self.path[i]);
                            assert(self.path@.take(i + 1) =~= self.path@.take(i as int).push(self.path@[i as int]));
                        }
                        p.push(row);
                        let is_action = match self.item_at_path(&p) {
                            Some(MenuItem::Action(_)) => true,
                            _ => false,
                        };
                        if is_action {
                            let fired = p.clone();
                            self.last_action = Some(p);
                            self.close();
                            return Some(fired);
                        }
                    }
                }
            }
        }
        self.armed_button = false;
        if self.armed_outside {
            self.armed_outside = false;
            self.close();
        }
        None
    }
}

/// A click (press and release) on an action row of an open panel fires
/// that row's index path and closes the menu.
pub proof fn lemma_action_click_fires(m: NestedMenuModel, level: usize, r: usize)
    requires
        !m.disabled,
        m.open,
        live_row(m, level as int, Some(r)) == Some(r),
        item_at(m.items, action_path(m, level as int, r)) matches Some(MenuItem::Action(_)),
    ensures
        ({
            let hit = Some(PanelHit { level, item: Some(r) });
            let pressed = nested_after_press(m, false, hit);
            &&& nested_release_fires(pressed, hit) == Some(action_path(m, level as int, r))
            &&& nested_after_release(pressed, false, hit) == nested_closed(
                NestedMenuModel { last_action: Some(action_path(m, level as int, r)), ..pressed },
            )
        }),
{
}

/// Resting the pointer on a submenu row of panel `level` opens that
/// submenu as the next panel, closing any deeper ones.
pub proof fn lemma_hover_opens_submenu(m: NestedMenuModel, level: usize, r: usize)
    requires
        !m.disabled,
        m.open,
        level <= m.path.len(),
        live_row(m, level as int, Some(r)) == Some(r),
        submenu_rows(rows_at(m.items, m.path, level as int)[r as int]) is Some,
    ensures
        nested_after_move(m, Some(PanelHit { level, item: Some(r) })).path == m.path.take(level as int).push(r),
{
}

/// The button text never changes through pointer events.
pub proof fn lemma_nested_button_text_fixed(m: NestedMenuModel, on_button: bool, hit: Option<PanelHit>)
    ensures
        nested_after_press(m, on_button, hit).button == m.button,
        nested_after_release(m, on_button, hit).button == m.button,
        nested_after_move(m, hit).button == m.button,
{
}

/// Hovering panel `level` anywhere but on a submenu row closes every
/// panel past it: the open path keeps only its first `level` entries.
/// Hovering a submenu row opens that submenu right after them.
pub proof fn lemma_hover_keeps_path_up_to_level(m: NestedMenuModel, level: usize, item: Option<usize>)
    requires
        !m.disabled,
        m.open,
    ensures
        ({
            let after = nested_after_move(m, Some(PanelHit { level, item })).path;
            let kept = m.path.take(if level < m.path.len() { level as int } else { m.path.len() as int });
            &&& after.len() <= level + 1
            &&& after.take(kept.len() as int) == kept
            &&& (live_row(m, level as int, item) matches Some(r) && submenu_rows(
                rows_at(m.items, m.path, level as int)[r as int],
            ) is Some) ==> after == kept.push(live_row(m, level as int, item)->0)
            &&& !(live_row(m, level as int, item) matches Some(r) && submenu_rows(
                rows_at(m.items, m.path, level as int)[r as int],
            ) is Some) ==> after == kept
        }),
{
    let after = nested_after_move(m, Some(PanelHit { level, item })).path;
    let kept = m.path.take(if level < m.path.len() { level as int } else { m.path.len() as int });
    assert(kept.push(0usize).take(kept.len() as int) =~= kept);
    if after.len() > kept.len() {
        assert(after.take(kept.len() as int) =~= kept);
    } else {
        assert(after.take(kept.len() as int) =~= kept);
    }
}

/// A release that fires no action and does not end a press outside the
/// panels keeps the menu open with its panels: only a click on an action
/// closes it, or a press that began outside every row (or the button's
/// toggle while closed).
pub proof fn lemma_release_without_action_stays_open(m: NestedMenuModel, on_button: bool, hit: Option<PanelHit>)
    requires
        !m.disabled,
        m.open,
        !m.armed_outside,
        nested_release_fires(m, hit) is None,
    ensures
        nested_after_release(m, on_button, hit).open,
        nested_after_release(m, on_button, hit).path == m.path,
        nested_after_release(m, on_button, hit).last_action == m.last_action,
{
}

} // verus!
