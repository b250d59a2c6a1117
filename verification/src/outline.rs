//! Outline group: a file tree of folders and files with expandable
//! folders and single-select rows. Nodes are addressed by index paths from
//! the roots (`[0, 1]` is the second child of the first root).

use vstd::prelude::*;

use crate::options::owned;

verus! {

/// Row icon: folders and files resolve to SF Symbols, custom names pass
/// through verbatim (e.g. `"tag"`, `"globe"`).
#[derive(Clone, Debug, PartialEq, Eq)]
pub enum OutlineIcon {
    Folder,
    File,
    Symbol(String),
}

/// An icon as seen in contracts.
pub ghost enum IconModel {
    Folder,
    File,
    Symbol(Seq<char>),
}

/// Icon kind and name.
pub open spec fn icon_model(icon: OutlineIcon) -> IconModel {
    match icon {
        OutlineIcon::Folder => IconModel::Folder,
        OutlineIcon::File => IconModel::File,
        OutlineIcon::Symbol(name) => IconModel::Symbol(name@),
    }
}

/// SF Symbol name of an icon.
pub open spec fn symbol_name(icon: IconModel) -> Seq<char> {
    match icon {
        IconModel::Folder => "folder.fill"@,
        IconModel::File => "doc"@,
        IconModel::Symbol(name) => name,
    }
}

impl OutlineIcon {
    /// SF Symbol name: `folder.fill`, `doc`, or the custom name.
    pub fn symbol(&self) -> (s: &str)
        ensures
            s@ == symbol_name(icon_model(*self)),
    {
        match self {
            OutlineIcon::Folder => "folder.fill",
            OutlineIcon::File => "doc",
            OutlineIcon::Symbol(name) => name.as_str(),
        }
    }
}

/// What a node holds, apart from its children.
pub ghost struct NodeInfo {
    pub label: Seq<char>,
    pub icon: IconModel,
    pub expanded: bool,
    pub start_open: bool,
    pub child_count: nat,
}

/// One tree node: a folder (expandable while it has children) or a file
/// (leaf).
pub struct OutlineNode {
    label: String,
    icon: OutlineIcon,
    children: Vec<OutlineNode>,
    expanded: bool,
    start_open: bool,
}

impl View for OutlineNode {
    type V = NodeInfo;

    closed spec fn view(&self) -> NodeInfo {
        NodeInfo {
            label: self.label@,
            icon: icon_model(self.icon),
            expanded: self.expanded,
            start_open: self.start_open,
            child_count: self.children@.len(),
        }
    }
}

/// Node at `path` below a level of sibling nodes.
pub open spec fn lookup(level: Seq<OutlineNode>, path: Seq<usize>) -> Option<OutlineNode>
    decreases path.len(),
{
    if path.len() == 0 || path[0] >= level.len() {
        None
    } else if path.len() == 1 {
        Some(level[path[0] as int])
    } else {
        lookup(children_of(level[path[0] as int]), path.drop_first())
    }
}

/// What the node at `path` below `level` holds, if it exists.
pub open spec fn info_at(level: Seq<OutlineNode>, path: Seq<usize>) -> Option<NodeInfo> {
    match lookup(level, path) {
        Some(n) => Some(n@),
        None => None,
    }
}

/// Path-addressed view of a forest.
pub open spec fn forest(level: Seq<OutlineNode>) -> Map<Seq<usize>, NodeInfo> {
    Map::new(|p: Seq<usize>| info_at(level, p) is Some, |p: Seq<usize>| info_at(level, p)->0)
}

/// Direct children of a node, in order.
pub closed spec fn children_of(node: OutlineNode) -> Seq<OutlineNode> {
    node.children@
}

impl OutlineNode {
    /// Folder node, collapsed by default.
    pub fn folder(label: &str) -> (n: Self)
        ensures
            n@ == (NodeInfo {
                label: label@,
                icon: IconModel::Folder,
                expanded: false,
                start_open: false,
                child_count: 0,
            }),
            children_of(n) == Seq::<OutlineNode>::empty(),
    {
        let n = OutlineNode {
            label: owned(label),
            icon: OutlineIcon::Folder,
            children: Vec::new(),
            expanded: false,
            start_open: false,
        };
        n
    }

    /// File node (leaf, never expandable).
    pub fn file(label: &str) -> (n: Self)
        ensures
            n@ == (NodeInfo {
                label: label@,
                icon: IconModel::File,
                expanded: false,
                start_open: false,
                child_count: 0,
            }),
            children_of(n) == Seq::<OutlineNode>::empty(),
    {
        let n = OutlineNode {
            label: owned(label),
            icon: OutlineIcon::File,
            children: Vec::new(),
            expanded: false,
            start_open: false,
        };
        n
    }

    /// Custom SF Symbol for this node (e.g. `"tag"`). Custom icons still
    /// expand when the node has children.
    pub fn icon(self, name: &str) -> (n: Self)
        ensures
            n@ == (NodeInfo { icon: IconModel::Symbol(name@), ..self@ }),
            children_of(n) == children_of(self),
    {
        let mut n = self;
        n.icon = OutlineIcon::Symbol(owned(name));
        n
    }

    fn apply_start_open(&mut self)
        ensures
            final(self)@ == (NodeInfo {
                expanded: old(self)@.start_open && old(self)@.child_count > 0,
                ..old(self)@
            }),
            children_of(*final(self)) == children_of(*old(self)),
    {
        self.expanded = self.start_open && self.children.len() > 0;
    }

    /// Initial expanded state (collapsed by default; childless nodes never
    /// expand). Builder order does not matter: children added later still
    /// open the node.
    pub fn expanded(self, expanded: bool) -> (n: Self)
        ensures
            n@ == (NodeInfo {
                start_open: expanded,
                expanded: expanded && self@.child_count > 0,
                ..self@
            }),
            children_of(n) == children_of(self),
    {
        let mut n = self;
        n.start_open = expanded;
        n.apply_start_open();
        n
    }

    /// Append one child (makes the node a folder row).
    pub fn child(self, node: OutlineNode) -> (n: Self)
        ensures
            n@ == (NodeInfo {
                expanded: self@.start_open,
                child_count: self@.child_count + 1,
                ..self@
            }),
            children_of(n) == children_of(self).push(node),
    {
        let mut n = self;
        n.children.push(node);
        n.apply_start_open();
        n
    }

    /// Append several children at once.
    pub fn children(self, nodes: Vec<OutlineNode>) -> (n: Self)
        ensures
            n@ == (NodeInfo {
                expanded: self@.start_open && self@.child_count + nodes@.len() > 0,
                child_count: self@.child_count + nodes@.len(),
                ..self@
            }),
            children_of(n) == children_of(self) + nodes@,
    {
        let mut n = self;
        let mut more = nodes;
        n.children.append(&mut more);
        n.apply_start_open();
        n
    }

    pub fn label(&self) -> (s: &str)
        ensures
            s@ == self@.label,
    {
        self.label.as_str()
    }

    pub fn set_label(&mut self, label: &str)
        ensures
            final(self)@ == (NodeInfo { label: label@, ..old(self)@ }),
            children_of(*final(self)) == children_of(*old(self)),
    {
        self.label = owned(label);
    }

    /// True for folder and custom icons (files never expand).
    pub fn is_folder(&self) -> (b: bool)
        ensures
            b == !(self@.icon is File),
    {
        match self.icon {
            OutlineIcon::File => false,
            _ => true,
        }
    }

    pub fn has_children(&self) -> (b: bool)
        ensures
            b == (self@.child_count > 0),
    {
        self.children.len() > 0
    }

    pub fn is_expanded(&self) -> (b: bool)
        ensures
            b == self@.expanded,
    {
        self.expanded
    }

    /// Icon of the row.
    pub fn icon_kind(&self) -> (i: &OutlineIcon)
        ensures
            icon_model(*i) == self@.icon,
    {
        &self.icon
    }

    /// Number of direct children.
    pub fn child_count(&self) -> (n: usize)
        ensures
            n == self@.child_count,
    {
        self.children.len()
    }

    /// Direct child `index`, if it exists.
    pub fn child_node(&self, index: usize) -> (c: Option<&OutlineNode>)
        ensures
            match c {
                Some(n) => index < children_of(*self).len() && *n == children_of(*self)[index as int],
                None => index >= children_of(*self).len(),
            },
    {
        if index < self.children.len() {
            Some(&self.children[index])
        } else {
            None
        }
    }
}

/// Children count and children agree.
pub proof fn lemma_child_count(node: OutlineNode)
    ensures
        node@.child_count == children_of(node).len(),
{
}

/// Looking a path up below an updated sibling.
proof fn lemma_lookup_update(level: Seq<OutlineNode>, i: int, n: OutlineNode, q: Seq<usize>)
    requires
        0 <= i < level.len(),
    ensures
        lookup(level.update(i, n), q) == if q.len() == 0 || q[0] >= level.len() {
            None
        } else if q[0] != i {
            lookup(level, q)
        } else if q.len() == 1 {
            Some(n)
        } else {
            lookup(n.children@, q.drop_first())
        },
{
    reveal_with_fuel(lookup, 2);
}

/// Node at `path[k..]` below `level`.
fn find<'a>(level: &'a Vec<OutlineNode>, path: &[usize], k: usize) -> (r: Option<&'a OutlineNode>)
    requires
        k <= path@.len(),
    ensures
        match r {
            Some(n) => lookup(level@, path@.skip(k as int)) == Some(*n),
            None => lookup(level@, path@.skip(k as int)) is None,
        },
    decreases path@.len() - k,
{
    if k >= path.len() {
        return None;
    }
    let i = path[k];
    proof {
        assert(path@.skip(k as int)[0] == path@[k as int]);
        assert(path@.skip(k as int).drop_first() =~= path@.skip(k + 1));
    }
    if i >= level.len() {
        None
    } else if k + 1 == path.len() {
        Some(&level[i])
    } else {
        find(&level[i].children, path, k + 1)
    }
}

/// The node at `path` with `expanded` set, when it exists and has children.
pub open spec fn expandable(level: Seq<OutlineNode>, path: Seq<usize>) -> bool {
    info_at(level, path) matches Some(info) && info.child_count > 0
}

/// Sets `expanded` on the node at `path[k..]` when it exists and has
/// children; reports whether it did.
fn set_expanded_in(level: &mut Vec<OutlineNode>, path: &[usize], k: usize, open: bool) -> (done: bool)
    requires
        k <= path@.len(),
    ensures
        done == expandable(old(level)@, path@.skip(k as int)),
        final(level)@.len() == old(level)@.len(),
        forall|q: Seq<usize>| #[trigger] info_at(final(level)@, q) == if done && q == path@.skip(k as int) {
            Some(NodeInfo { expanded: open, ..info_at(old(level)@, q)->0 })
        } else {
            info_at(old(level)@, q)
        },
    decreases path@.len() - k,
{
    let ghost old_level = level@;
    let ghost p = path@.skip(k as int);
    if k >= path.len() {
        proof {
            assert forall|q: Seq<usize>| #[trigger] info_at(level@, q) == info_at(old_level, q) by {}
        }
        return false;
    }
    let i = path[k];
    proof {
        assert(p[0] == path@[k as int]);
        assert(p.drop_first() =~= path@.skip(k + 1));
        reveal_with_fuel(lookup, 2);
    }
    if i >= level.len() {
        return false;
    }
    if k + 1 == path.len() {
        if level[i].children.len() == 0 {
            return false;
        }
        let mut node = level.remove(i);
        node.expanded = open;
        level.insert(i, node);
        proof {
            assert(level@ =~= old_level.update(i as int, node));
            assert forall|q: Seq<usize>| #[trigger] info_at(level@, q) == if q == p {
                Some(NodeInfo { expanded: open, ..info_at(old_level, q)->0 })
            } else {
                info_at(old_level, q)
            } by {
                lemma_lookup_update(old_level, i as int, node, q);
                if q.len() == 1 && q[0] == i {
                    assert(q =~= p);
                }
            }
        }
        true
    } else {
        let mut node = level.remove(i);
        let ghost old_node = node;
        let done = set_expanded_in(&mut node.children, path, k + 1, open);
        level.insert(i, node);
        proof {
            assert(level@ =~= old_level.update(i as int, node));
            assert forall|q: Seq<usize>| #[trigger] info_at(level@, q) == if done && q == p {
                Some(NodeInfo { expanded: open, ..info_at(old_level, q)->0 })
            } else {
                info_at(old_level, q)
            } by {
                lemma_lookup_update(old_level, i as int, node, q);
                lemma_lookup_update(old_level, i as int, old_node, q);
                assert(old_level.update(i as int, old_node) =~= old_level);
                if q.len() > 1 && q[0] == i {
                    assert(info_at(node.children@, q.drop_first()) == if done && q.drop_first() == path@.skip(k + 1) {
                        Some(NodeInfo { expanded: open, ..info_at(old_node.children@, q.drop_first())->0 })
                    } else {
                        info_at(old_node.children@, q.drop_first())
                    });
                    if q.drop_first() == path@.skip(k + 1) {
                        assert(q.drop_first() == p.drop_first());
                        assert(q.len() == p.len());
                        assert forall|j: int| 0 <= j < q.len() implies q[j] == p[j] by {
                            if j > 0 {
                                assert(q[j] == q.drop_first()[j - 1]);
                                assert(p[j] == p.drop_first()[j - 1]);
                            }
                        }
                        assert(q =~= p);
                    }
                    if q == p {
                        assert(q.drop_first() == path@.skip(k + 1));
                    }
                }
                if q.len() == 1 && q[0] == i {
                    assert(q != p);
                }
            }
        }
        done
    }
}

/// A node's info after opening (or closing) everything: only nodes with
/// children open.
pub open spec fn all_set(info: Option<NodeInfo>, open: bool) -> Option<NodeInfo> {
    match info {
        Some(i) => Some(NodeInfo { expanded: open && i.child_count > 0, ..i }),
        None => None,
    }
}

/// Opens (or closes) a node and every node below it.
fn set_all(node: &mut OutlineNode, open: bool)
    ensures
        final(node)@ == all_set(Some(old(node)@), open)->0,
        forall|q: Seq<usize>| #[trigger] info_at(children_of(*final(node)), q) == all_set(
            info_at(children_of(*old(node)), q),
            open,
        ),
    decreases *old(node),
{
    node.expanded = open && node.children.len() > 0;
    assert(decreases_to!(*old(node) => old(node).children));
    set_all_level(&mut node.children, open);
}

/// Opens (or closes) every node of a forest.
fn set_all_level(level: &mut Vec<OutlineNode>, open: bool)
    ensures
        final(level)@.len() == old(level)@.len(),
        forall|q: Seq<usize>| #[trigger] info_at(final(level)@, q) == all_set(info_at(old(level)@, q), open),
    decreases *old(level),
{
    let ghost old_level = level@;
    let n = level.len();
    for i in 0..n
        invariant
            n == old_level.len(),
            old(level)@ == old_level,
            level@.len() == n,
            forall|j: int| i <= j < n ==> level@[j] == old_level[j],
            forall|q: Seq<usize>| #[trigger] info_at(level@, q) == if q.len() > 0 && q[0] < i {
                all_set(info_at(old_level, q), open)
            } else {
                info_at(old_level, q)
            },
    {
        let ghost before = level@;
        let mut c = level.remove(i);
        let ghost old_c = c;
        assert(old_c == old_level[i as int]);
        assert(decreases_to!(*old(level) => old(level)@[i as int]));
        set_all(&mut c, open);
        level.insert(i, c);
        proof {
            assert(level@ =~= before.update(i as int, c));
            assert forall|q: Seq<usize>| #[trigger] info_at(level@, q) == if q.len() > 0 && q[0] < i + 1 {
                all_set(info_at(old_level, q), open)
            } else {
                info_at(old_level, q)
            } by {
                lemma_lookup_update(before, i as int, c, q);
                lemma_lookup_update(before, i as int, old_c, q);
                assert(before.update(i as int, old_c) =~= before);
                lemma_lookup_update(old_level, i as int, old_c, q);
                assert(old_level.update(i as int, old_c) =~= old_level);
                assert(info_at(before, q) == if q.len() > 0 && q[0] < i {
                    all_set(info_at(old_level, q), open)
                } else {
                    info_at(old_level, q)
                });
                if q.len() == 0 || q[0] >= n {
                } else if q[0] != i {
                    assert(lookup(level@, q) == lookup(before, q));
                } else if q.len() == 1 {
                    assert(lookup(level@, q) == Some(c));
                    assert(lookup(old_level, q) == Some(old_c));
                } else {
                    let r = q.drop_first();
                    assert(lookup(level@, q) == lookup(c.children@, r));
                    assert(lookup(old_level, q) == lookup(old_c.children@, r));
                    assert(info_at(children_of(c), r) == all_set(info_at(children_of(old_c), r), open));
                }
            }
        }
    }
}

/// Whether two paths are equal.
fn same_path(a: &Vec<usize>, b: &Vec<usize>) -> (r: bool)
    ensures
        r == (a@ == b@),
{
    if a.len() != b.len() {
        return false;
    }
    let n = a.len();
    for i in 0..n
        invariant
            n == a@.len(),
            n == b@.len(),
            forall|j: int| 0 <= j < i ==> a@[j] == b@[j],
    {
        if a[i] != b[i] {
            return false;
        }
    }
    assert(a@ =~= b@);
    true
}

/// Copy of a path.
fn copy_path(a: &Vec<usize>) -> (r: Vec<usize>)
    ensures
        r@ == a@,
{
    let mut r: Vec<usize> = Vec::new();
    let n = a.len();
    for i in 0..n
        invariant
            n == a@.len(),
            r@ =~= a@.take(i as int),
    {
        r.push(a[i]);
        assert(a@.take(i + 1) =~= a@.take(i as int).push(a@[i as int]));
    }
    assert(a@.take(n as int) =~= a@);
    r
}

/// Paths of a list of path vectors.
pub open spec fn paths_of(v: Seq<Vec<usize>>) -> Seq<Seq<usize>> {
    v.map_values(|p: Vec<usize>| p@)
}

/// Rows shown at rest for the siblings `level[i..]` under `prefix`, top
/// to bottom: each node's row, then, while it is open, its children's
/// rows. (A sibling list is indexed by `usize`, so it never reaches past
/// `usize::MAX`.)
pub closed spec fn rows_from(level: Seq<OutlineNode>, prefix: Seq<usize>, i: nat) -> Seq<Seq<usize>>
    decreases level, level.len() - i,
{
    if i >= level.len() || i > usize::MAX {
        Seq::empty()
    } else {
        let node = level[i as int];
        let p = prefix.push(i as usize);
        let below = if node.expanded {
            proof {
                assert(decreases_to!(level => level[i as int]));
                assert(decreases_to!(level[i as int] => level[i as int].children));
                assert(decreases_to!(level[i as int].children => level[i as int].children@));
            }
            rows_from(node.children@, p, 0)
        } else {
            Seq::empty()
        };
        seq![p] + below + rows_from(level, prefix, i + 1)
    }
}

/// Appends the rows shown at rest for `level[i..]` under `prefix`.
fn collect_rows(level: &Vec<OutlineNode>, prefix: &Vec<usize>, out: &mut Vec<Vec<usize>>)
    ensures
        paths_of(final(out)@) == paths_of(old(out)@) + rows_from(level@, prefix@, 0),
    decreases level@,
{
    let n = level.len();
    let ghost out0 = paths_of(out@);
    let mut i: usize = 0;
    while i < n
        invariant
            n == level@.len(),
            i <= n,
            paths_of(out@) + rows_from(level@, prefix@, i as nat) == out0 + rows_from(level@, prefix@, 0),
        decreases n - i,
    {
        let ghost before = paths_of(out@);
        let mut p = copy_path(prefix);
        p.push(i);
        let ghost pv = p@;
        assert(pv == prefix@.push(i));
        out.push(p);
        assert(paths_of(out@) =~= before.push(pv));
        if level[i].expanded {
            assert(decreases_to!(level@ => level@[i as int]));
            assert(decreases_to!(level@[i as int] => level@[i as int].children));
            assert(decreases_to!(level@[i as int].children => level@[i as int].children@));
            let child_prefix = copy_path(&out[out.len() - 1]);
            collect_rows(&level[i].children, &child_prefix, out);
        }
        proof {
            let node = level@[i as int];
            let below = if node.expanded {
                rows_from(node.children@, pv, 0)
            } else {
                Seq::empty()
            };
            assert(rows_from(level@, prefix@, i as nat) == seq![pv] + below + rows_from(level@, prefix@, (i + 1) as nat));
            assert(paths_of(out@) =~= before.push(pv) + below);
            assert(before.push(pv) + below + rows_from(level@, prefix@, (i + 1) as nat) =~= before + (seq![pv] + below + rows_from(level@, prefix@, (i + 1) as nat)));
        }
        i = i + 1;
    }
}

/// A node that exists and is open.
pub open spec fn is_open_node(info: Option<NodeInfo>) -> bool {
    match info {
        Some(x) => x.expanded,
        None => false,
    }
}

/// Every row listed for `level[i..]` under `prefix` extends `prefix` by
/// the path of a node below `level` whose ancestors below `level` are
/// all open.
proof fn lemma_rows_from_sound(level: Seq<OutlineNode>, prefix: Seq<usize>, i: nat, k: int)
    requires
        0 <= k < rows_from(level, prefix, i).len(),
    ensures
        ({
            let p = rows_from(level, prefix, i)[k];
            let q = p.skip(prefix.len() as int);
            &&& p.len() > prefix.len()
            &&& p.take(prefix.len() as int) == prefix
            &&& p[prefix.len() as int] >= i
            &&& info_at(level, q) is Some
            &&& forall|j: int| 1 <= j < q.len() ==> is_open_node(#[trigger] info_at(level, q.take(j)))
        }),
    decreases level, level.len() - i,
{
    let rows = rows_from(level, prefix, i);
    let node = level[i as int];
    let pi = prefix.push(i as usize);
    let below = if node.expanded {
        rows_from(node.children@, pi, 0)
    } else {
        Seq::<Seq<usize>>::empty()
    };
    let rest = rows_from(level, prefix, i + 1);
    assert(rows == seq![pi] + below + rest);
    let p = rows[k];
    let q = p.skip(prefix.len() as int);
    reveal_with_fuel(lookup, 2);
    if k == 0 {
        assert(p == pi);
        assert(q =~= seq![i as usize]);
        assert(p.take(prefix.len() as int) =~= prefix);
    } else if k < 1 + below.len() {
        assert(decreases_to!(level => level[i as int]));
        assert(decreases_to!(level[i as int] => level[i as int].children));
        assert(decreases_to!(level[i as int].children => level[i as int].children@));
        lemma_rows_from_sound(node.children@, pi, 0, k - 1);
        assert(p == below[k - 1]);
        let q2 = p.skip(pi.len() as int);
        assert(p.take(prefix.len() as int) =~= prefix) by {
            assert(p.take(pi.len() as int) == pi);
            assert forall|j: int| 0 <= j < prefix.len() implies p.take(prefix.len() as int)[j] == prefix[j] by {
                assert(p.take(pi.len() as int)[j] == pi[j]);
            }
        }
        assert(q.len() == q2.len() + 1);
        assert(q[0] == i) by {
            assert(p.take(pi.len() as int)[prefix.len() as int] == pi[prefix.len() as int]);
        }
        assert(q.drop_first() =~= q2);
        assert(lookup(level, q) == lookup(node.children@, q2));
        assert forall|j: int| 1 <= j < q.len() implies is_open_node(#[trigger] info_at(level, q.take(j))) by {
            if j == 1 {
                assert(q.take(1) =~= seq![i as usize]);
                assert(lookup(level, q.take(1)) == Some(node));
            } else {
                assert(q.take(j).drop_first() =~= q2.take(j - 1));
                assert(q.take(j)[0] == i);
                assert(lookup(level, q.take(j)) == lookup(node.children@, q2.take(j - 1)));
                assert(is_open_node(info_at(node.children@, q2.take(j - 1))));
            }
        }
    } else {
        lemma_rows_from_sound(level, prefix, i + 1, k - 1 - below.len());
        assert(p == rest[k - 1 - below.len()]);
    }
}

/// Whether path `a` comes before path `b` top to bottom in the tree:
/// `a` is a proper prefix of `b` (an ancestor), or at the first index
/// where they differ `a` names an earlier sibling.
pub open spec fn path_before(a: Seq<usize>, b: Seq<usize>) -> bool {
    ||| a.len() < b.len() && b.take(a.len() as int) == a
    ||| exists|k: int| 0 <= k < a.len() && k < b.len() && a.take(k) == b.take(k) && a[k] < b[k]
}

/// Paths listed strictly in tree order, top to bottom.
pub open spec fn in_tree_order(rows: Seq<Seq<usize>>) -> bool {
    forall|a: int, b: int| 0 <= a < b < rows.len() ==> path_before(#[trigger] rows[a], #[trigger] rows[b])
}

/// Two paths that agree before index `k` and differ there, smaller
/// first.
proof fn lemma_before_at(a: Seq<usize>, b: Seq<usize>, k: int)
    requires
        0 <= k < a.len(),
        k < b.len(),
        a.take(k) == b.take(k),
        a[k] < b[k],
    ensures
        path_before(a, b),
{
}

/// The rows listed for `level[i..]` under `prefix` come in tree order.
proof fn lemma_rows_from_ordered(level: Seq<OutlineNode>, prefix: Seq<usize>, i: nat)
    ensures
        in_tree_order(rows_from(level, prefix, i)),
    decreases level, level.len() - i,
{
    if i >= level.len() || i > usize::MAX {
        return;
    }
    let node = level[i as int];
    let pi = prefix.push(i as usize);
    let below = if node.expanded {
        rows_from(node.children@, pi, 0)
    } else {
        Seq::<Seq<usize>>::empty()
    };
    let rest = rows_from(level, prefix, i + 1);
    let rows = rows_from(level, prefix, i);
    assert(rows == seq![pi] + below + rest);
    let n = prefix.len() as int;
    if node.expanded {
        assert(decreases_to!(level => level[i as int]));
        assert(decreases_to!(level[i as int] => level[i as int].children));
        assert(decreases_to!(level[i as int].children => level[i as int].children@));
        lemma_rows_from_ordered(node.children@, pi, 0);
    }
    lemma_rows_from_ordered(level, prefix, i + 1);
    assert forall|a: int, b: int| 0 <= a < b < rows.len() implies path_before(#[trigger] rows[a], #[trigger] rows[b]) by {
        let x = rows[a];
        let y = rows[b];
        if b <= below.len() {
            // Both in the node's own block: the node first, then its
            // subtree in order.
            if a == 0 {
                lemma_rows_from_sound(node.children@, pi, 0, b - 1);
                assert(y == below[b - 1]);
                assert(x == pi);
            } else {
                assert(x == below[a - 1] && y == below[b - 1]);
            }
        } else {
            // `y` lies past the node's block: it starts at a later
            // sibling.
            let r = b - 1 - below.len();
            assert(y == rest[r]);
            lemma_rows_from_sound(level, prefix, i + 1, r);
            if a > below.len() {
                assert(x == rest[a - 1 - below.len()]);
            } else {
                // `x` is the node or one of its rows: it extends `pi`.
                assert(x.len() > n && x.take(n) == prefix && x[n] == i) by {
                    if a == 0 {
                        assert(x == pi);
                        assert(pi.take(n) =~= prefix);
                    } else {
                        assert(x == below[a - 1]);
                        lemma_rows_from_sound(node.children@, pi, 0, a - 1);
                        assert(x.take(n) =~= x.take(pi.len() as int).take(n));
                        assert(pi.take(n) =~= prefix);
                        assert(x[n] == x.take(pi.len() as int)[n]);
                    }
                }
                assert(y.take(n) == prefix);
                lemma_before_at(x, y, n);
            }
        }
    }
}

/// Every node below `level[i..]` whose ancestors below `level` are all
/// open is listed among the rows of `level[i..]` under `prefix`.
proof fn lemma_rows_from_complete(level: Seq<OutlineNode>, prefix: Seq<usize>, i: nat, q: Seq<usize>)
    requires
        q.len() >= 1,
        i <= q[0],
        info_at(level, q) is Some,
        forall|j: int| 1 <= j < q.len() ==> is_open_node(#[trigger] info_at(level, q.take(j))),
    ensures
        rows_from(level, prefix, i).contains(prefix + q),
    decreases level, level.len() - i,
{
    reveal_with_fuel(lookup, 2);
    assert(q[0] < level.len());
    let node = level[i as int];
    let pi = prefix.push(i as usize);
    let below = if node.expanded {
        rows_from(node.children@, pi, 0)
    } else {
        Seq::<Seq<usize>>::empty()
    };
    let rest = rows_from(level, prefix, i + 1);
    let rows = rows_from(level, prefix, i);
    assert(rows == seq![pi] + below + rest);
    if q[0] == i {
        if q.len() == 1 {
            assert(prefix + q =~= pi);
            assert(rows[0] == pi);
        } else {
            let q2 = q.drop_first();
            assert(q.take(1) =~= seq![i as usize]);
            assert(is_open_node(info_at(level, q.take(1))));
            assert(lookup(level, q.take(1)) == Some(node));
            assert(node.expanded);
            assert(lookup(level, q) == lookup(node.children@, q2));
            assert forall|j: int| 1 <= j < q2.len() implies is_open_node(#[trigger] info_at(node.children@, q2.take(j))) by {
                assert(q.take(j + 1).drop_first() =~= q2.take(j));
                assert(q.take(j + 1)[0] == i);
                assert(lookup(level, q.take(j + 1)) == lookup(node.children@, q2.take(j)));
                assert(is_open_node(info_at(level, q.take(j + 1))));
            }
            assert(decreases_to!(level => level[i as int]));
            assert(decreases_to!(level[i as int] => level[i as int].children));
            assert(decreases_to!(level[i as int].children => level[i as int].children@));
            lemma_rows_from_complete(node.children@, pi, 0, q2);
            assert(pi + q2 =~= prefix + q);
            let k = choose|k: int| 0 <= k < below.len() && below[k] == pi + q2;
            assert(rows[1 + k] == below[k]);
        }
    } else {
        lemma_rows_from_complete(level, prefix, i + 1, q);
        let k = choose|k: int| 0 <= k < rest.len() && rest[k] == prefix + q;
        assert(rows[1 + below.len() + k] == rest[k]);
    }
}

/// The whole tree with every node opened (or closed); only nodes with
/// children open.
pub open spec fn tree_all_set(tree: Map<Seq<usize>, NodeInfo>, open: bool) -> Map<Seq<usize>, NodeInfo> {
    Map::new(
        |p: Seq<usize>| tree.contains_key(p),
        |p: Seq<usize>| NodeInfo { expanded: open && tree[p].child_count > 0, ..tree[p] },
    )
}

/// The tree with the node at `path` opened or closed.
pub open spec fn tree_with_expanded(tree: Map<Seq<usize>, NodeInfo>, path: Seq<usize>, open: bool) -> Map<
    Seq<usize>,
    NodeInfo,
> {
    tree.insert(path, NodeInfo { expanded: open, ..tree[path] })
}

/// Whether the node at `path` exists and has children.
pub open spec fn tree_expandable(tree: Map<Seq<usize>, NodeInfo>, path: Seq<usize>) -> bool {
    tree.contains_key(path) && tree[path].child_count > 0
}

/// What an outline group holds.
pub ghost struct OutlineGroupModel {
    pub tree: Map<Seq<usize>, NodeInfo>,
    pub selected: Option<Seq<usize>>,
    pub selectable: bool,
    pub disabled: bool,
    pub focused: bool,
}

/// What a row click did: whether the selection changed (`on_select`
/// fires with the new path) and whether a folder toggled (`on_toggle`
/// fires with the path and its new open state).
#[derive(Clone, Copy, Debug, PartialEq, Eq)]
pub struct ClickOutcome {
    pub selection_changed: bool,
    pub toggled: Option<bool>,
}

/// Outline group: a file tree of nodes with chevron folders and
/// single-select rows.
pub struct BasicOutlineGroup {
    roots: Vec<OutlineNode>,
    selected: Option<Vec<usize>>,
    selectable: bool,
    disabled: bool,
    focused: bool,
}

impl View for BasicOutlineGroup {
    type V = OutlineGroupModel;

    closed spec fn view(&self) -> OutlineGroupModel {
        OutlineGroupModel {
            tree: forest(self.roots@),
            selected: match self.selected {
                Some(p) => Some(p@),
                None => None,
            },
            selectable: self.selectable,
            disabled: self.disabled,
            focused: self.focused,
        }
    }
}

impl BasicOutlineGroup {
    pub fn new(roots: Vec<OutlineNode>) -> (g: Self)
        ensures
            g@ == (OutlineGroupModel {
                tree: forest(roots@),
                selected: None,
                selectable: true,
                disabled: false,
                focused: true,
            }),
    {
        BasicOutlineGroup { roots, selected: None, selectable: true, disabled: false, focused: true }
    }

    /// Row clicks select (default `true`). Folders still toggle when
    /// selection is off.
    pub fn selectable(self, selectable: bool) -> (g: Self)
        ensures
            g@ == (OutlineGroupModel {
                selectable,
                selected: if selectable {
                    self@.selected
                } else {
                    None
                },
                ..self@
            }),
    {
        let mut g = self;
        g.selectable = selectable;
        if !selectable {
            g.selected = None;
        }
        g
    }

    pub fn disabled(self, disabled: bool) -> (g: Self)
        ensures
            g@ == (OutlineGroupModel { disabled, ..self@ }),
    {
        let mut g = self;
        g.disabled = disabled;
        g
    }

    pub fn set_focused(&mut self, focused: bool)
        ensures
            final(self)@ == (OutlineGroupModel { focused, ..old(self)@ }),
    {
        self.focused = focused;
    }

    /// Selected path, if any.
    pub fn selected_path(&self) -> (p: Option<Vec<usize>>)
        ensures
            match p {
                Some(v) => self@.selected == Some(v@),
                None => self@.selected is None,
            },
    {
        match &self.selected {
            Some(v) => Some(copy_path(v)),
            None => None,
        }
    }

    /// Select programmatically. Returns `false` for unknown paths; the
    /// selection changed (and `on_select` fires) when the path differs
    /// from the previous selection.
    pub fn select(&mut self, path: Vec<usize>) -> (known: bool)
        ensures
            known == old(self)@.tree.contains_key(path@),
            final(self)@ == if known {
                OutlineGroupModel { selected: Some(path@), ..old(self)@ }
            } else {
                old(self)@
            },
    {
        let found = find(&self.roots, path.as_slice(), 0);
        proof {
            assert(path@.skip(0) =~= path@);
        }
        if found.is_none() {
            return false;
        }
        self.selected = Some(path);
        true
    }

    /// Clear the selection (`on_select` fires with an empty path when
    /// there was one).
    pub fn clear_selection(&mut self)
        ensures
            final(self)@ == (OutlineGroupModel { selected: None, ..old(self)@ }),
    {
        self.selected = None;
    }

    /// Node at `path`, if it exists.
    pub fn node(&self, path: &[usize]) -> (n: Option<&OutlineNode>)
        ensures
            match n {
                Some(node) => self@.tree.contains_key(path@) && self@.tree[path@] == node@,
                None => !self@.tree.contains_key(path@),
            },
    {
        proof {
            assert(path@.skip(0) =~= path@);
        }
        find(&self.roots, path, 0)
    }

    /// Whether the node at `path` exists and is open.
    pub fn is_expanded(&self, path: &[usize]) -> (b: bool)
        ensures
            b == (self@.tree.contains_key(path@) && self@.tree[path@].expanded),
    {
        match self.node(path) {
            Some(n) => n.is_expanded(),
            None => false,
        }
    }

    fn set_expanded_at(&mut self, path: &[usize], open: bool) -> (done: bool)
        ensures
            done == tree_expandable(old(self)@.tree, path@),
            final(self)@ == if done {
                OutlineGroupModel { tree: tree_with_expanded(old(self)@.tree, path@, open), ..old(self)@ }
            } else {
                old(self)@
            },
    {
        let ghost old_roots = self.roots@;
        let done = set_expanded_in(&mut self.roots, path, 0, open);
        proof {
            assert(path@.skip(0) =~= path@);
            let t = forest(self.roots@);
            let t0 = forest(old_roots);
            if done {
                assert(t =~= tree_with_expanded(t0, path@, open)) by {
                    assert forall|q: Seq<usize>| #[trigger] t.contains_key(q) == tree_with_expanded(t0, path@, open).contains_key(q) by {
                        assert(info_at(self.roots@, q) == info_at(self.roots@, q));
                    }
                }
            } else {
                assert(t =~= t0) by {
                    assert forall|q: Seq<usize>| #[trigger] t.contains_key(q) == t0.contains_key(q) by {
                        assert(info_at(self.roots@, q) == info_at(self.roots@, q));
                    }
                }
            }
        }
        done
    }

    /// User toggle at a path: flips the node open or closed. Files,
    /// childless folders and unknown paths do nothing and report `false`;
    /// a `true` report is when `on_toggle` fires.
    pub fn toggle(&mut self, path: Vec<usize>) -> (done: bool)
        ensures
            done == (!old(self)@.disabled && tree_expandable(old(self)@.tree, path@)),
            final(self)@ == if done {
                OutlineGroupModel {
                    tree: tree_with_expanded(old(self)@.tree, path@, !old(self)@.tree[path@].expanded),
                    ..old(self)@
                }
            } else {
                old(self)@
            },
    {
        if self.disabled {
            return false;
        }
        let open = match self.node(path.as_slice()) {
            Some(n) => {
                if !n.has_children() {
                    return false;
                }
                !n.is_expanded()
            },
            None => return false,
        };
        self.set_expanded_at(path.as_slice(), open)
    }

    /// Open or close the node at `path` (no `on_toggle`). Returns `false`
    /// for unknown and childless nodes.
    pub fn set_expanded(&mut self, path: &[usize], expanded: bool) -> (done: bool)
        ensures
            done == tree_expandable(old(self)@.tree, path@),
            final(self)@ == if done {
                OutlineGroupModel { tree: tree_with_expanded(old(self)@.tree, path@, expanded), ..old(self)@ }
            } else {
                old(self)@
            },
    {
        self.set_expanded_at(path, expanded)
    }

    fn set_everything(&mut self, open: bool)
        ensures
            final(self)@ == (OutlineGroupModel { tree: tree_all_set(old(self)@.tree, open), ..old(self)@ }),
    {
        let ghost old_roots = self.roots@;
        set_all_level(&mut self.roots, open);
        proof {
            let t = forest(self.roots@);
            let t0 = forest(old_roots);
            assert(t =~= tree_all_set(t0, open)) by {
                assert forall|q: Seq<usize>| #[trigger] t.contains_key(q) == tree_all_set(t0, open).contains_key(q) by {
                    assert(info_at(self.roots@, q) == all_set(info_at(old_roots, q), open));
                }
                assert forall|q: Seq<usize>| t.contains_key(q) implies #[trigger] t[q] == tree_all_set(t0, open)[q] by {
                    assert(info_at(self.roots@, q) == all_set(info_at(old_roots, q), open));
                }
            }
        }
    }

    /// Open everything (no callbacks).
    pub fn expand_all(&mut self)
        ensures
            final(self)@ == (OutlineGroupModel { tree: tree_all_set(old(self)@.tree, true), ..old(self)@ }),
    {
        self.set_everything(true);
    }

    /// Close everything (no callbacks).
    pub fn collapse_all(&mut self)
        ensures
            final(self)@ == (OutlineGroupModel { tree: tree_all_set(old(self)@.tree, false), ..old(self)@ }),
    {
        self.set_everything(false);
    }

    /// Paths of the rows shown at rest, top to bottom.
    pub closed spec fn rows(&self) -> Seq<Seq<usize>> {
        rows_from(self.roots@, Seq::empty(), 0)
    }

    /// Paths of the rows shown once every open/close animation has come
    /// to rest, top to bottom: each node, then the rows below it while it
    /// is open. The layout stacks these rows to hit-test clicks.
    pub fn visible_rows(&self) -> (rows: Vec<Vec<usize>>)
        ensures
            paths_of(rows@) == self.rows(),
    {
        let mut out: Vec<Vec<usize>> = Vec::new();
        let prefix: Vec<usize> = Vec::new();
        assert(paths_of(out@) =~= Seq::<Seq<usize>>::empty());
        collect_rows(&self.roots, &prefix, &mut out);
        assert(prefix@ =~= Seq::<usize>::empty());
        assert(paths_of(out@) =~= self.rows());
        out
    }

    /// Press on the row at `path` (the visible row under the pointer, if
    /// any): selects it when rows are selectable and toggles folders. A
    /// path that names no node is no row and does nothing.
    pub fn click(&mut self, path: Option<Vec<usize>>) -> (outcome: ClickOutcome)
        ensures
            old(self)@.disabled || path is None || !old(self)@.tree.contains_key(path->0@) ==> final(self)@
                == old(self)@ && outcome == (ClickOutcome { selection_changed: false, toggled: None }),
            !old(self)@.disabled && path is Some && old(self)@.tree.contains_key(path->0@) ==> ({
                let p = path->0@;
                let changes = old(self)@.selectable && old(self)@.selected != Some(p);
                let selected = if changes {
                    Some(p)
                } else {
                    old(self)@.selected
                };
                let toggles = tree_expandable(old(self)@.tree, p);
                &&& outcome.selection_changed == changes
                &&& outcome.toggled == if toggles {
                    Some(!old(self)@.tree[p].expanded)
                } else {
                    None
                }
                &&& final(self)@ == (OutlineGroupModel {
                    selected,
                    tree: if toggles {
                        tree_with_expanded(old(self)@.tree, p, !old(self)@.tree[p].expanded)
                    } else {
                        old(self)@.tree
                    },
                    ..old(self)@
                })
            }),
    {
        let none = ClickOutcome { selection_changed: false, toggled: None };
        if self.disabled {
            return none;
        }
        let path = match path {
            Some(p) => p,
            None => return none,
        };
        if self.node(path.as_slice()).is_none() {
            return none;
        }
        let mut changed = false;
        if self.selectable {
            let same = match &self.selected {
                Some(cur) => same_path(cur, &path),
                None => false,
            };
            if !same {
                self.selected = Some(copy_path(&path));
                changed = true;
            }
        }
        let open = match self.node(path.as_slice()) {
            Some(n) => if n.has_children() {
                Some(!n.is_expanded())
            } else {
                None
            },
            None => None,
        };
        match open {
            Some(o) => {
                self.set_expanded_at(path.as_slice(), o);
                ClickOutcome { selection_changed: changed, toggled: Some(o) }
            },
            None => ClickOutcome { selection_changed: changed, toggled: None },
        }
    }
}

/// Every row shown at rest is a node of the tree, and every node above
/// it is open.
pub proof fn lemma_visible_rows_are_open_nodes(g: BasicOutlineGroup, k: int)
    requires
        0 <= k < g.rows().len(),
    ensures
        g@.tree.contains_key(g.rows()[k]),
        forall|j: int|
            1 <= j < g.rows()[k].len() ==> g@.tree.contains_key(#[trigger] g.rows()[k].take(j)) && g@.tree[g.rows()[k].take(j)].expanded,
{
    let p = g.rows()[k];
    lemma_rows_from_sound(g.roots@, Seq::empty(), 0, k);
    assert(p.skip(0) =~= p);
    assert forall|j: int| 1 <= j < p.len() implies g@.tree.contains_key(#[trigger] p.take(j)) && g@.tree[p.take(j)].expanded by {
        assert(is_open_node(info_at(g.roots@, p.take(j))));
    }
}

/// Toggling a folder twice gives back the tree it started from; the
/// folder stays toggleable in between.
pub proof fn lemma_toggle_twice_restores(tree: Map<Seq<usize>, NodeInfo>, path: Seq<usize>)
    requires
        tree_expandable(tree, path),
    ensures
        ({
            let once = tree_with_expanded(tree, path, !tree[path].expanded);
            &&& tree_expandable(once, path)
            &&& tree_with_expanded(once, path, !once[path].expanded) == tree
        }),
{
    let once = tree_with_expanded(tree, path, !tree[path].expanded);
    assert(tree_with_expanded(once, path, !once[path].expanded) =~= tree);
}

/// Opening (or closing) a node twice is the same as once.
pub proof fn lemma_set_expanded_idempotent(tree: Map<Seq<usize>, NodeInfo>, path: Seq<usize>, open: bool)
    requires
        tree_expandable(tree, path),
    ensures
        tree_expandable(tree_with_expanded(tree, path, open), path),
        tree_with_expanded(tree_with_expanded(tree, path, open), path, open) == tree_with_expanded(tree, path, open),
{
    assert(tree_with_expanded(tree_with_expanded(tree, path, open), path, open) =~= tree_with_expanded(tree, path, open));
}

/// Expanding or collapsing everything forgets every earlier open state:
/// the last of two such calls alone decides the tree. After it every
/// folder with children is open (or closed), and no node is added or
/// removed.
pub proof fn lemma_set_all_overrides(tree: Map<Seq<usize>, NodeInfo>, first: bool, last: bool)
    ensures
        tree_all_set(tree_all_set(tree, first), last) == tree_all_set(tree, last),
        tree_all_set(tree, last).dom() == tree.dom(),
        forall|p: Seq<usize>|
            tree.contains_key(p) ==> (#[trigger] tree_all_set(tree, last)[p]).expanded == (last && tree[p].child_count > 0),
{
    assert(tree_all_set(tree_all_set(tree, first), last) =~= tree_all_set(tree, last));
    assert(tree_all_set(tree, last).dom() =~= tree.dom());
}

/// Every node of the tree whose ancestors are all open is shown as a
/// row at rest.
pub proof fn lemma_open_nodes_are_visible_rows(g: BasicOutlineGroup, p: Seq<usize>)
    requires
        g@.tree.contains_key(p),
        forall|j: int| 1 <= j < p.len() ==> g@.tree.contains_key(#[trigger] p.take(j)) && g@.tree[p.take(j)].expanded,
    ensures
        g.rows().contains(p),
{
    assert(p.len() >= 1);
    assert forall|j: int| 1 <= j < p.len() implies is_open_node(#[trigger] info_at(g.roots@, p.take(j))) by {
        assert(g@.tree.contains_key(p.take(j)));
    }
    lemma_rows_from_complete(g.roots@, Seq::empty(), 0, p);
    assert(Seq::<usize>::empty() + p =~= p);
}

/// The rows shown at rest come in tree order, top to bottom: each node
/// after its ancestors and after its earlier siblings' rows.
pub proof fn lemma_visible_rows_in_tree_order(g: BasicOutlineGroup)
    ensures
        in_tree_order(g.rows()),
{
    lemma_rows_from_ordered(g.roots@, Seq::empty(), 0);
}

} // verus!
