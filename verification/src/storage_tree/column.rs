//! Presentation state for a [StorageTree] shown as a foldable column.
//!
//! [Content] wraps a tree whose every key carries a [NodeState] expansion
//! flag. User interactions arrive as [Action]s; invalid paths are silent
//! no-ops, so a stale click can never corrupt the state.

use vstd::prelude::*;

use crate::storage_tree::{
    maps_keys, seq_maps_keys, view_of, views_of, Path, StorageTree, TreeView,
};
use crate::storage_tree::lemma_replace_get_same;

verus! {

/// GUI state of a node.
#[derive(Debug, Clone, Copy, PartialEq, Eq, Structural)]
pub struct NodeState {
    /// Whether the children of the node are shown.
    pub expanded: bool,
}

impl NodeState {
    /// Creates a new [NodeState], collapsed.
    pub fn new() -> (r: Self)
        ensures
            r == (NodeState { expanded: false }),
    {
        NodeState { expanded: false }
    }
}

impl Default for NodeState {
    fn default() -> (r: Self)
        ensures
            r == (NodeState { expanded: false }),
    {
        NodeState { expanded: false }
    }
}

/// Key with some metadata attached to it.
#[derive(Debug, PartialEq, Eq)]
pub struct MetaKey<K, M> {
    /// The key itself.
    pub key: K,
    /// The metadata attached to the key.
    pub metadata: M,
}

impl<K, M> MetaKey<K, M> {
    /// Creates a new [MetaKey].
    pub fn new(key: K, metadata: M) -> (r: Self)
        ensures
            r == (MetaKey { key, metadata }),
    {
        Self { key, metadata }
    }

    /// Returns a reference to the metadata.
    pub fn get_metadata(&self) -> (r: &M)
        ensures
            *r == self.metadata,
    {
        &self.metadata
    }

    /// Returns a mutable reference to the metadata.
    pub fn get_mut_metadata(&mut self) -> (r: &mut M)
        ensures
            *r == old(self).metadata,
            final(self).metadata == *final(r),
            final(self).key == old(self).key,
    {
        &mut self.metadata
    }

    /// Takes the [MetaKey] and returns both the key and metadata.
    pub fn take(self) -> (r: (K, M))
        ensures
            r == (self.key, self.metadata),
    {
        (self.key, self.metadata)
    }
}

/// An interaction with a displayed tree column.
///
/// Upon receiving one, it must be forwarded to [Content::perform].
#[derive(Debug, Clone)]
pub enum Action {
    /// Expands a node in the tree.
    Expand(Path),
    /// Collapses a node in the tree.
    Collapse(Path),
    /// Indicates that the node at the given path was selected.
    Selected(Path),
}

/// Content and expansion state of a displayed tree.
#[derive(Debug)]
pub struct Content<K, T> {
    /// The tree, with an expansion flag attached to every key.
    pub st: StorageTree<MetaKey<K, NodeState>, T>,
    /// If true, selecting a node always expands it; if false, selecting
    /// toggles it.
    pub just_extend_on_select: bool,
}

/// `st` is `plain` with every key paired with a fresh, collapsed
/// [NodeState], and nothing else changed.
pub open spec fn overlay_of<K, T>(
    plain: TreeView<K, T>,
    st: TreeView<MetaKey<K, NodeState>, T>,
) -> bool
    decreases plain,
{
    match (plain, st) {
        (TreeView::Leaf { value: va }, TreeView::Leaf { value: vb }) => va == vb,
        (TreeView::Node { key: ka, children: ca }, TreeView::Node { key: kb, children: cb }) => {
            &&& kb == (MetaKey { key: ka, metadata: NodeState { expanded: false } })
            &&& ca.len() == cb.len()
            &&& seq_overlay_of(ca, cb)
        },
        _ => false,
    }
}

/// Elementwise [overlay_of].
pub open spec fn seq_overlay_of<K, T>(
    a: Seq<TreeView<K, T>>,
    b: Seq<TreeView<MetaKey<K, NodeState>, T>>,
) -> bool
    decreases a,
{
    if a.len() != b.len() {
        false
    } else if a.len() == 0 {
        true
    } else {
        overlay_of(a[0], b[0]) && seq_overlay_of(a.skip(1), b.skip(1))
    }
}

/// The expansion flag of the node at `path`; `None` when `path` does not
/// point at a node.
pub open spec fn expanded_at<K, T>(
    t: TreeView<MetaKey<K, NodeState>, T>,
    path: Seq<usize>,
) -> Option<bool> {
    match t.get(path) {
        Some(TreeView::Node { key, .. }) => Some(key.metadata.expanded),
        _ => None,
    }
}

/// The tree with the expansion flag of the node at `path` set to `v`; the
/// tree itself when `path` does not point at a node.
pub open spec fn with_expanded<K, T>(
    t: TreeView<MetaKey<K, NodeState>, T>,
    path: Seq<usize>,
    v: bool,
) -> TreeView<MetaKey<K, NodeState>, T> {
    match t.get(path) {
        Some(TreeView::Node { key, children }) => t.replace(
            path,
            TreeView::Node {
                key: MetaKey { key: key.key, metadata: NodeState { expanded: v } },
                children,
            },
        ),
        _ => t,
    }
}

/// The tree with the expansion flag of every node set to `v`.
pub open spec fn with_all_expanded<K, T>(
    t: TreeView<MetaKey<K, NodeState>, T>,
    v: bool,
) -> TreeView<MetaKey<K, NodeState>, T>
    decreases t,
{
    match t {
        TreeView::Leaf { value } => TreeView::Leaf { value },
        TreeView::Node { key, children } => TreeView::Node {
            key: MetaKey { key: key.key, metadata: NodeState { expanded: v } },
            children: seq_with_all_expanded(children, v),
        },
    }
}

/// [with_all_expanded] over a sequence of trees.
pub open spec fn seq_with_all_expanded<K, T>(
    s: Seq<TreeView<MetaKey<K, NodeState>, T>>,
    v: bool,
) -> Seq<TreeView<MetaKey<K, NodeState>, T>>
    decreases s,
{
    if s.len() == 0 {
        Seq::empty()
    } else {
        seq![with_all_expanded(s[0], v)] + seq_with_all_expanded(s.skip(1), v)
    }
}

/// Every node of the tree carries expansion flag `v`.
pub open spec fn all_nodes_set<K, T>(t: TreeView<MetaKey<K, NodeState>, T>, v: bool) -> bool
    decreases t,
{
    match t {
        TreeView::Leaf { .. } => true,
        TreeView::Node { key, children } => key.metadata.expanded == v && seq_all_nodes_set(
            children,
            v,
        ),
    }
}

/// [all_nodes_set] over a sequence of trees.
pub open spec fn seq_all_nodes_set<K, T>(
    s: Seq<TreeView<MetaKey<K, NodeState>, T>>,
    v: bool,
) -> bool
    decreases s,
{
    if s.len() == 0 {
        true
    } else {
        all_nodes_set(s[0], v) && seq_all_nodes_set(s.skip(1), v)
    }
}

} // verus!

verus! {

/// When `f` always returns the key paired with a collapsed [NodeState],
/// a key transform by `f` builds exactly the overlay tree.
pub proof fn lemma_overlay_from_maps<K, T, F: Fn(K) -> MetaKey<K, NodeState>>(
    a: TreeView<K, T>,
    b: TreeView<MetaKey<K, NodeState>, T>,
    f: F,
)
    requires
        maps_keys(a, b, f),
        forall|k: K, r: MetaKey<K, NodeState>|
            call_ensures(f, (k,), r) ==> r == (MetaKey {
                key: k,
                metadata: NodeState { expanded: false },
            }),
    ensures
        overlay_of(a, b),
    decreases a,
{
    match (a, b) {
        (TreeView::Node { key: ka, children: ca }, TreeView::Node { key: kb, children: cb }) => {
            lemma_seq_overlay_from_maps(ca, cb, f);
        },
        _ => {},
    }
}

/// The sequence form of [lemma_overlay_from_maps].
pub proof fn lemma_seq_overlay_from_maps<K, T, F: Fn(K) -> MetaKey<K, NodeState>>(
    a: Seq<TreeView<K, T>>,
    b: Seq<TreeView<MetaKey<K, NodeState>, T>>,
    f: F,
)
    requires
        seq_maps_keys(a, b, f),
        forall|k: K, r: MetaKey<K, NodeState>|
            call_ensures(f, (k,), r) ==> r == (MetaKey {
                key: k,
                metadata: NodeState { expanded: false },
            }),
    ensures
        seq_overlay_of(a, b),
    decreases a,
{
    if a.len() > 0 {
        lemma_overlay_from_maps(a[0], b[0], f);
        lemma_seq_overlay_from_maps(a.skip(1), b.skip(1), f);
    }
}

impl<K, T> Content<K, T> {
    /// Creates a new [Content], with every node collapsed and selection
    /// set to expand only.
    pub fn new(storage_tree: StorageTree<K, T>) -> (r: Self)
        ensures
            overlay_of(storage_tree@, r.st@),
            r.just_extend_on_select,
    {
        let ghost t0 = storage_tree@;
        let attach = |key: K| -> (r: MetaKey<K, NodeState>)
            ensures
                r == (MetaKey { key, metadata: NodeState { expanded: false } }),
            { MetaKey::new(key, NodeState::new()) };
        proof {
            crate::storage_tree::lemma_keys_callable_always(t0, attach);
        }
        let st = storage_tree.map_keys(&attach);
        proof {
            lemma_overlay_from_maps(t0, st@, attach);
        }
        Self { st, just_extend_on_select: true }
    }

    /// Returns whether the node at `path` is expanded; `None` when `path`
    /// does not point at a node.
    pub fn get_expanded(&self, path: &Path) -> (r: Option<bool>)
        ensures
            r == expanded_at(self.st@, path@),
    {
        match self.st.get(path) {
            None => None,
            Some(tree) => match tree {
                StorageTree::Leaf(_) => None,
                StorageTree::Node(node) => Some(node.key.metadata.expanded),
            },
        }
    }

    /// Edits the expansion flag of the node at `path`; a silent no-op when
    /// `path` does not point at a node.
    fn set_expanded(&mut self, path: &Path, expanded: bool)
        ensures
            final(self).st@ =~~= with_expanded(old(self).st@, path@, expanded),
            final(self).just_extend_on_select == old(self).just_extend_on_select,
    {
        let ghost t0 = self.st@;
        match self.st.get_mut(path) {
            None => {},
            Some(tree) => match tree {
                StorageTree::Leaf(_) => {
                    proof {
                        lemma_replace_get_same(t0, path@);
                    }
                },
                StorageTree::Node(node) => {
                    node.key.metadata.expanded = expanded;
                },
            },
        }
    }

    /// Performs an action on the content.
    ///
    /// `Expand` and `Collapse` set the flag of the addressed node; `Selected`
    /// expands it, or toggles it when the selection policy says so. Actions
    /// on paths that do not point at a node change nothing.
    pub fn perform(&mut self, action: Action)
        ensures
            final(self).just_extend_on_select == old(self).just_extend_on_select,
            match action {
                Action::Expand(path) => final(self).st@ =~~= with_expanded(
                    old(self).st@,
                    path@,
                    true,
                ),
                Action::Collapse(path) => final(self).st@ =~~= with_expanded(
                    old(self).st@,
                    path@,
                    false,
                ),
                Action::Selected(path) => final(self).st@ =~~= with_expanded(
                    old(self).st@,
                    path@,
                    if old(self).just_extend_on_select {
                        true
                    } else {
                        !(match expanded_at(old(self).st@, path@) {
                            Some(b) => b,
                            None => true,
                        })
                    },
                ),
            },
    {
        match action {
            Action::Expand(path) => self.set_expanded(&path, true),
            Action::Collapse(path) => self.set_expanded(&path, false),
            Action::Selected(path) => {
                let target = if self.just_extend_on_select {
                    true
                } else {
                    !(match self.get_expanded(&path) {
                        Some(b) => b,
                        None => true,
                    })
                };
                self.set_expanded(&path, target)
            },
        }
    }

    /// Makes it so that nodes both expand and collapse when clicked.
    ///
    /// If this function is not called, they just expand when clicked.
    pub fn retract_on_select(self) -> (r: Self)
        ensures
            r.st == self.st,
            !r.just_extend_on_select,
    {
        Self { just_extend_on_select: false, ..self }
    }
}

} // verus!

verus! {

/// Setting one node's flag makes exactly that node report the new flag.
pub proof fn lemma_with_expanded_at<K, T>(
    t: TreeView<MetaKey<K, NodeState>, T>,
    path: Seq<usize>,
    v: bool,
)
    ensures
        expanded_at(with_expanded(t, path, v), path) == (match expanded_at(t, path) {
            Some(_) => Some(v),
            None => None::<bool>,
        }),
{
    match t.get(path) {
        Some(TreeView::Node { key, children }) => {
            crate::storage_tree::lemma_get_replace(
                t,
                path,
                TreeView::Node {
                    key: MetaKey { key: key.key, metadata: NodeState { expanded: v } },
                    children,
                },
            );
        },
        _ => {},
    }
}

/// Setting one node's flag leaves the flag of every other path alone.
pub proof fn lemma_with_expanded_preserves_others<K, T>(
    t: TreeView<MetaKey<K, NodeState>, T>,
    p: Seq<usize>,
    v: bool,
    q: Seq<usize>,
)
    requires
        p != q,
    ensures
        expanded_at(with_expanded(t, p, v), q) == expanded_at(t, q),
    decreases p.len() + q.len(),
{
    match t.get(p) {
        Some(TreeView::Node { key, children }) => {
            let nn = TreeView::<MetaKey<K, NodeState>, T>::Node {
                key: MetaKey { key: key.key, metadata: NodeState { expanded: v } },
                children,
            };
            if p.len() == 0 {
                assert(t == (TreeView::<MetaKey<K, NodeState>, T>::Node { key, children }));
                if q.len() == 0 {
                    assert(q =~= p);
                    assert(false);
                }
            } else {
                match t {
                    TreeView::Leaf { .. } => {},
                    TreeView::Node { key: rk, children: rc } => {
                        let i = p[0] as int;
                        if q.len() == 0 {
                        } else {
                            let j = q[0] as int;
                            if i == j {
                                if !(p.skip(1) =~= q.skip(1)) {
                                    assert(rc[i].get(p.skip(1)) == t.get(p));
                                    lemma_with_expanded_preserves_others(
                                        rc[i],
                                        p.skip(1),
                                        v,
                                        q.skip(1),
                                    );
                                    assert(with_expanded(rc[i], p.skip(1), v) == rc[i].replace(
                                        p.skip(1),
                                        nn,
                                    ));
                                } else {
                                    assert(p.len() == q.len());
                                    assert(forall|k: int|
                                        1 <= k < p.len() ==> p[k] == p.skip(1)[k - 1] && q[k]
                                            == q.skip(1)[k - 1]);
                                    assert(p =~= q);
                                    assert(false);
                                }
                            }
                        }
                    },
                }
            }
        },
        _ => {},
    }
}

/// After a full sweep, every node reports the swept flag.
pub proof fn lemma_with_all_expanded_sets<K, T>(t: TreeView<MetaKey<K, NodeState>, T>, v: bool)
    ensures
        all_nodes_set(with_all_expanded(t, v), v),
    decreases t,
{
    match t {
        TreeView::Leaf { .. } => {},
        TreeView::Node { key, children } => {
            lemma_seq_with_all_expanded_sets(children, v);
        },
    }
}

/// The sequence form of [lemma_with_all_expanded_sets].
pub proof fn lemma_seq_with_all_expanded_sets<K, T>(
    s: Seq<TreeView<MetaKey<K, NodeState>, T>>,
    v: bool,
)
    ensures
        seq_all_nodes_set(seq_with_all_expanded(s, v), v),
    decreases s,
{
    if s.len() > 0 {
        lemma_with_all_expanded_sets(s[0], v);
        lemma_seq_with_all_expanded_sets(s.skip(1), v);
        assert(seq_with_all_expanded(s, v).skip(1) =~= seq_with_all_expanded(s.skip(1), v));
    }
}

/// Pointwise [with_all_expanded] over equal-length sequences gives
/// [seq_with_all_expanded].
pub proof fn lemma_seq_with_all_expanded_pointwise<K, T>(
    a: Seq<TreeView<MetaKey<K, NodeState>, T>>,
    b: Seq<TreeView<MetaKey<K, NodeState>, T>>,
    v: bool,
)
    requires
        a.len() == b.len(),
        forall|k: int| 0 <= k < a.len() ==> b[k] == with_all_expanded(#[trigger] a[k], v),
    ensures
        b =~= seq_with_all_expanded(a, v),
    decreases a,
{
    if a.len() > 0 {
        assert(forall|k: int|
            0 <= k < a.skip(1).len() ==> a.skip(1)[k] == a[k + 1] && b.skip(1)[k] == b[k + 1]);
        lemma_seq_with_all_expanded_pointwise(a.skip(1), b.skip(1), v);
        assert(b =~= seq_with_all_expanded(a, v));
    }
}

} // verus!

verus! {

/// Sets the expansion flag of every node of a tree to `value`.
fn set_all_tree<K, T>(t: &mut StorageTree<MetaKey<K, NodeState>, T>, value: bool)
    ensures
        final(t)@ =~~= with_all_expanded(old(t)@, value),
    decreases old(t)@.size(), 0nat,
{
    match t {
        StorageTree::Leaf(_) => {},
        StorageTree::Node(node) => {
            node.key.metadata.expanded = value;
            set_all_children(&mut node.children, value);
        },
    }
}

/// Sets the expansion flag of every node under a vector of trees.
fn set_all_children<K, T>(children: &mut Vec<StorageTree<MetaKey<K, NodeState>, T>>, value: bool)
    ensures
        views_of(final(children)@) =~~= seq_with_all_expanded(views_of(old(children)@), value),
    decreases TreeView::seq_size(views_of(old(children)@)), 2nat,
{
    proof {
        assert(children@.skip(0) =~= children@);
    }
    set_all_children_from(children, 0, value);
    proof {
        broadcast use crate::storage_tree::lemma_views_of_len, crate::storage_tree::lemma_views_of_index;

        assert(forall|k: int|
            0 <= k < old(children)@.len() ==> #[trigger] views_of(final(children)@)[k]
                == with_all_expanded(views_of(old(children)@)[k], value));
        lemma_seq_with_all_expanded_pointwise(
            views_of(old(children)@),
            views_of(final(children)@),
            value,
        );
    }
}

/// Sets the expansion flag of every node under the trees from index `j` on.
fn set_all_children_from<K, T>(
    children: &mut Vec<StorageTree<MetaKey<K, NodeState>, T>>,
    j: usize,
    value: bool,
)
    requires
        j <= old(children).len(),
    ensures
        final(children)@.len() == old(children)@.len(),
        forall|k: int| 0 <= k < j ==> final(children)@[k] == old(children)@[k],
        forall|k: int|
            j <= k < old(children)@.len() ==> view_of(#[trigger] final(children)@[k])
                == with_all_expanded(view_of(old(children)@[k]), value),
    decreases TreeView::seq_size(views_of(old(children)@.skip(j as int))), 1nat,
{
    broadcast use crate::storage_tree::lemma_views_of_len, crate::storage_tree::lemma_views_of_index;

    let ghost children0 = children@;
    if j < children.len() {
        proof {
            crate::storage_tree::lemma_views_of_len(children0);
            crate::storage_tree::lemma_views_of_index(children0, j as int);
            lemma_seq_size_skip_step(views_of(children0), j as int);
        }
        let child = crate::storage_tree::child_at_mut(children, j);
        set_all_tree(child, value);
        proof {
            assert(children@.skip(j as int + 1) =~= children0.skip(j as int + 1));
            assert(views_of(children0.skip(j as int)) =~= views_of(children0).skip(j as int));
            assert(views_of(children@.skip(j as int + 1)) =~= views_of(children0).skip(
                j as int + 1,
            ));
        }
        set_all_children_from(children, j + 1, value);
    }
}

/// One unfolding step of [TreeView::seq_size] over a tail.
proof fn lemma_seq_size_skip_step<K, T>(s: Seq<TreeView<MetaKey<K, NodeState>, T>>, j: int)
    requires
        0 <= j < s.len(),
    ensures
        TreeView::seq_size(s.skip(j)) == s[j].size() + TreeView::seq_size(s.skip(j + 1)),
        s[j].size() >= 1,
{
    assert(s.skip(j)[0] == s[j]);
    assert(s.skip(j).skip(1) =~= s.skip(j + 1));
    assert(TreeView::seq_size(s.skip(j)) == s.skip(j)[0].size() + TreeView::seq_size(
        s.skip(j).skip(1),
    ));
}

impl<K, T> Content<K, T> {
    /// Sets the expansion flag of every node in the tree to `value`,
    /// regardless of its current state.
    pub fn expand_all(&mut self, value: bool)
        ensures
            final(self).st@ =~~= with_all_expanded(old(self).st@, value),
            final(self).just_extend_on_select == old(self).just_extend_on_select,
    {
        set_all_tree(&mut self.st, value);
    }
}

} // verus!
