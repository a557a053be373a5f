//! Stores data on the leaves of a tree.
//!
//! Each tree node has a key to make navigating possible, and an ordered list
//! of child trees; each leaf holds one payload value. Subtrees are addressed
//! by a [Path] of zero-based child indices. The mathematical model of a tree
//! is [TreeView], a purely specificational tree whose children form a `Seq`.

use vstd::prelude::*;

verus! {

/// A storage tree with nodes of type `K` (key) and leaves of type `T`.
#[derive(Debug, PartialEq, Eq)]
pub enum StorageTree<K, T> {
    /// A leaf.
    Leaf(T),
    /// A tree node.
    Node(Node<K, T>),
}

/// A tree node that has a key and children [StorageTree]s.
#[derive(Debug, PartialEq, Eq)]
pub struct Node<K, T> {
    /// The key of the node.
    pub key: K,
    /// The subtrees below the node, in order.
    pub children: Vec<StorageTree<K, T>>,
}

/// A path in a tree: child indices followed from the root. The empty path
/// denotes the root itself.
pub type Path = Vec<usize>;

/// The mathematical model of a [StorageTree]: the same tree, with the child
/// vectors abstracted to sequences.
#[verifier::ext_equal]
pub enum TreeView<K, T> {
    /// Model of a leaf.
    Leaf { value: T },
    /// Model of a node.
    Node { key: K, children: Seq<TreeView<K, T>> },
}

/// The model of one tree.
pub open spec fn view_of<K, T>(t: StorageTree<K, T>) -> TreeView<K, T>
    decreases t,
{
    match t {
        StorageTree::Leaf(v) => TreeView::Leaf { value: v },
        StorageTree::Node(node) => TreeView::Node {
            key: node.key,
            children: views_of(node.children@),
        },
    }
}

/// The models of a sequence of trees, elementwise.
pub open spec fn views_of<K, T>(s: Seq<StorageTree<K, T>>) -> Seq<TreeView<K, T>>
    decreases s,
{
    if s.len() == 0 {
        Seq::empty()
    } else {
        seq![view_of(s[0])] + views_of(s.skip(1))
    }
}

impl<K, T> View for StorageTree<K, T> {
    type V = TreeView<K, T>;

    open spec fn view(&self) -> TreeView<K, T> {
        view_of(*self)
    }
}

/// [views_of] preserves the length of the sequence.
pub broadcast proof fn lemma_views_of_len<K, T>(s: Seq<StorageTree<K, T>>)
    ensures
        #[trigger] views_of(s).len() == s.len(),
    decreases s.len(),
{
    if s.len() > 0 {
        lemma_views_of_len(s.skip(1));
    }
}

/// [views_of] commutes with a pointwise update.
pub broadcast proof fn lemma_views_of_update<K, T>(s: Seq<StorageTree<K, T>>, i: int, t: StorageTree<K, T>)
    requires
        0 <= i < s.len(),
    ensures
        #[trigger] views_of(s.update(i, t)) == views_of(s).update(i, view_of(t)),
    decreases s.len(),
{
    lemma_views_of_len(s);
    lemma_views_of_len(s.update(i, t));
    if i == 0 {
        assert(s.update(0, t).skip(1) =~= s.skip(1));
        assert(views_of(s.update(0, t)) =~= views_of(s).update(0, view_of(t)));
    } else {
        assert(s.update(i, t).skip(1) =~= s.skip(1).update(i - 1, t));
        lemma_views_of_update(s.skip(1), i - 1, t);
        assert(views_of(s.update(i, t)) =~= views_of(s).update(i, view_of(t)));
    }
}

/// [views_of] maps each element to its model.
pub broadcast proof fn lemma_views_of_index<K, T>(s: Seq<StorageTree<K, T>>, i: int)
    requires
        0 <= i < s.len(),
    ensures
        #[trigger] views_of(s)[i] == view_of(s[i]),
    decreases s.len(),
{
    lemma_views_of_len(s);
    if i > 0 {
        lemma_views_of_index(s.skip(1), i - 1);
    }
}

impl<K, T> TreeView<K, T> {
    /// The subtree at `path`: `None` when an index is out of bounds or the
    /// path tries to descend through a leaf.
    pub open spec fn get(self, path: Seq<usize>) -> Option<Self>
        decreases path.len(),
    {
        if path.len() == 0 {
            Some(self)
        } else {
            match self {
                TreeView::Leaf { .. } => None,
                TreeView::Node { key, children } => {
                    if (path[0] as int) < children.len() {
                        children[path[0] as int].get(path.skip(1))
                    } else {
                        None
                    }
                },
            }
        }
    }

    /// The tree with the subtree at `path` replaced by `sub`; the tree itself
    /// when `path` does not resolve.
    pub open spec fn replace(self, path: Seq<usize>, sub: Self) -> Self
        decreases path.len(),
    {
        if path.len() == 0 {
            sub
        } else {
            match self {
                TreeView::Leaf { .. } => self,
                TreeView::Node { key, children } => {
                    if (path[0] as int) < children.len() {
                        TreeView::Node {
                            key,
                            children: children.update(
                                path[0] as int,
                                children[path[0] as int].replace(path.skip(1), sub),
                            ),
                        }
                    } else {
                        self
                    }
                },
            }
        }
    }

    /// The payloads of all leaves, in left-to-right order.
    pub open spec fn leaves(self) -> Seq<T>
        decreases self,
    {
        match self {
            TreeView::Leaf { value } => seq![value],
            TreeView::Node { children, .. } => Self::seq_leaves(children),
        }
    }

    /// The concatenated leaves of a sequence of trees.
    pub open spec fn seq_leaves(trees: Seq<Self>) -> Seq<T>
        decreases trees,
    {
        if trees.len() == 0 {
            Seq::empty()
        } else {
            trees[0].leaves() + Self::seq_leaves(trees.skip(1))
        }
    }

    /// The number of `Leaf` variants in the tree.
    pub open spec fn leaf_count(self) -> nat
        decreases self,
    {
        match self {
            TreeView::Leaf { .. } => 1,
            TreeView::Node { children, .. } => Self::seq_leaf_count(children),
        }
    }

    /// The total number of `Leaf` variants in a sequence of trees.
    pub open spec fn seq_leaf_count(trees: Seq<Self>) -> nat
        decreases trees,
    {
        if trees.len() == 0 {
            0
        } else {
            trees[0].leaf_count() + Self::seq_leaf_count(trees.skip(1))
        }
    }

    /// The number of `Leaf` and `Node` variants together; a termination
    /// measure for walks over the tree.
    pub open spec fn size(self) -> nat
        decreases self,
    {
        match self {
            TreeView::Leaf { .. } => 1,
            TreeView::Node { children, .. } => 1 + Self::seq_size(children),
        }
    }

    /// The total [size](Self::size) of a sequence of trees.
    pub open spec fn seq_size(trees: Seq<Self>) -> nat
        decreases trees,
    {
        if trees.len() == 0 {
            0
        } else {
            trees[0].size() + Self::seq_size(trees.skip(1))
        }
    }
}

/// Both trees have the same shape: the same leaf values in the same
/// positions, and the same number of children at every node.
pub open spec fn same_shape<K, L, T>(a: TreeView<K, T>, b: TreeView<L, T>) -> bool
    decreases a,
{
    match (a, b) {
        (TreeView::Leaf { value: va }, TreeView::Leaf { value: vb }) => va == vb,
        (TreeView::Node { children: ca, .. }, TreeView::Node { children: cb, .. }) => ca.len()
            == cb.len() && seq_same_shape(ca, cb),
        _ => false,
    }
}

/// Elementwise [same_shape] over two sequences of trees.
pub open spec fn seq_same_shape<K, L, T>(a: Seq<TreeView<K, T>>, b: Seq<TreeView<L, T>>) -> bool
    decreases a,
{
    if a.len() != b.len() {
        false
    } else if a.len() == 0 {
        true
    } else {
        same_shape(a[0], b[0]) && seq_same_shape(a.skip(1), b.skip(1))
    }
}

/// Every key of the tree may be handed to `f`.
pub open spec fn keys_callable<K, T, L, F: Fn(K) -> L>(t: TreeView<K, T>, f: F) -> bool
    decreases t,
{
    match t {
        TreeView::Leaf { .. } => true,
        TreeView::Node { key, children } => call_requires(f, (key,)) && seq_keys_callable(
            children,
            f,
        ),
    }
}

/// [keys_callable] over a sequence of trees.
pub open spec fn seq_keys_callable<K, T, L, F: Fn(K) -> L>(s: Seq<TreeView<K, T>>, f: F) -> bool
    decreases s,
{
    if s.len() == 0 {
        true
    } else {
        keys_callable(s[0], f) && seq_keys_callable(s.skip(1), f)
    }
}

/// `b` is `a` with every key passed through `f` once: the shapes agree, the
/// leaves agree, and each node key of `b` is a possible result of `f` on the
/// matching node key of `a`.
pub open spec fn maps_keys<K, T, L, F: Fn(K) -> L>(
    a: TreeView<K, T>,
    b: TreeView<L, T>,
    f: F,
) -> bool
    decreases a,
{
    match (a, b) {
        (TreeView::Leaf { value: va }, TreeView::Leaf { value: vb }) => va == vb,
        (TreeView::Node { key: ka, children: ca }, TreeView::Node { key: kb, children: cb }) => {
            &&& call_ensures(f, (ka,), kb)
            &&& ca.len() == cb.len()
            &&& seq_maps_keys(ca, cb, f)
        },
        _ => false,
    }
}

/// Elementwise [maps_keys] over two sequences of trees.
pub open spec fn seq_maps_keys<K, T, L, F: Fn(K) -> L>(
    a: Seq<TreeView<K, T>>,
    b: Seq<TreeView<L, T>>,
    f: F,
) -> bool
    decreases a,
{
    if a.len() != b.len() {
        false
    } else if a.len() == 0 {
        true
    } else {
        maps_keys(a[0], b[0], f) && seq_maps_keys(a.skip(1), b.skip(1), f)
    }
}

/// A key transform leaves the shape of the tree alone: the round-trip law
/// for [StorageTree::map_keys].
pub proof fn lemma_maps_keys_same_shape<K, T, L, F: Fn(K) -> L>(
    a: TreeView<K, T>,
    b: TreeView<L, T>,
    f: F,
)
    requires
        maps_keys(a, b, f),
    ensures
        same_shape(a, b),
        a.leaves() =~= b.leaves(),
        a.leaf_count() == b.leaf_count(),
    decreases a,
{
    match (a, b) {
        (TreeView::Node { key: ka, children: ca }, TreeView::Node { key: kb, children: cb }) => {
            lemma_seq_maps_keys_same_shape(ca, cb, f);
        },
        _ => {},
    }
}

/// The sequence form of [lemma_maps_keys_same_shape].
pub proof fn lemma_seq_maps_keys_same_shape<K, T, L, F: Fn(K) -> L>(
    a: Seq<TreeView<K, T>>,
    b: Seq<TreeView<L, T>>,
    f: F,
)
    requires
        seq_maps_keys(a, b, f),
    ensures
        seq_same_shape(a, b),
        TreeView::seq_leaves(a) =~= TreeView::seq_leaves(b),
        TreeView::seq_leaf_count(a) == TreeView::seq_leaf_count(b),
    decreases a,
{
    if a.len() > 0 {
        lemma_maps_keys_same_shape(a[0], b[0], f);
        lemma_seq_maps_keys_same_shape(a.skip(1), b.skip(1), f);
    }
}

/// A function with no precondition may be applied to every key.
pub proof fn lemma_keys_callable_always<K, T, L, F: Fn(K) -> L>(t: TreeView<K, T>, f: F)
    requires
        forall|k: K| call_requires(f, (k,)),
    ensures
        keys_callable(t, f),
    decreases t,
{
    match t {
        TreeView::Leaf { .. } => {},
        TreeView::Node { key, children } => {
            lemma_seq_keys_callable_always(children, f);
        },
    }
}

/// The sequence form of [lemma_keys_callable_always].
pub proof fn lemma_seq_keys_callable_always<K, T, L, F: Fn(K) -> L>(
    s: Seq<TreeView<K, T>>,
    f: F,
)
    requires
        forall|k: K| call_requires(f, (k,)),
    ensures
        seq_keys_callable(s, f),
    decreases s,
{
    if s.len() > 0 {
        lemma_keys_callable_always(s[0], f);
        lemma_seq_keys_callable_always(s.skip(1), f);
    }
}

/// Pointwise [maps_keys] on equal-length sequences gives [seq_maps_keys].
pub proof fn lemma_seq_maps_keys_pointwise<K, T, L, F: Fn(K) -> L>(
    a: Seq<TreeView<K, T>>,
    b: Seq<TreeView<L, T>>,
    f: F,
)
    requires
        a.len() == b.len(),
        forall|i: int| 0 <= i < a.len() ==> maps_keys(a[i], b[i], f),
    ensures
        seq_maps_keys(a, b, f),
    decreases a,
{
    if a.len() > 0 {
        assert(maps_keys(a[0], b[0], f));
        assert(forall|i: int|
            0 <= i < a.skip(1).len() ==> a.skip(1)[i] == a[i + 1] && b.skip(1)[i] == b[i + 1]);
        lemma_seq_maps_keys_pointwise(a.skip(1), b.skip(1), f);
    }
}

/// A tree is at least as big as any element of its child sequence.
pub proof fn lemma_seq_size_index<K, T>(s: Seq<TreeView<K, T>>, i: int)
    requires
        0 <= i < s.len(),
    ensures
        s[i].size() <= TreeView::seq_size(s),
    decreases s,
{
    if i > 0 {
        lemma_seq_size_index(s.skip(1), i - 1);
    }
}

/// Following a concatenated path is following the two parts in turn.
pub proof fn lemma_get_append<K, T>(t: TreeView<K, T>, p1: Seq<usize>, p2: Seq<usize>)
    ensures
        t.get(p1 + p2) == (match t.get(p1) {
            Some(s) => s.get(p2),
            None => None,
        }),
    decreases p1.len(),
{
    if p1.len() == 0 {
        assert(p1 + p2 =~= p2);
    } else {
        assert((p1 + p2)[0] == p1[0]);
        assert((p1 + p2).len() > 0);
        match t {
            TreeView::Leaf { .. } => {},
            TreeView::Node { key, children } => {
                assert((p1 + p2).skip(1) =~= p1.skip(1) + p2);
                if (p1[0] as int) < children.len() {
                    lemma_get_append(children[p1[0] as int], p1.skip(1), p2);
                }
            },
        }
    }
}

/// Recording one more child index while descending reaches exactly that
/// child: the step form of [lemma_get_append].
pub proof fn lemma_get_push<K, T>(t: TreeView<K, T>, p: Seq<usize>, i: usize)
    ensures
        t.get(p.push(i)) == (match t.get(p) {
            Some(TreeView::Node { children, .. }) => if (i as int) < children.len() {
                Some(children[i as int])
            } else {
                None
            },
            _ => None,
        }),
{
    lemma_get_append(t, p, seq![i]);
    assert(p + seq![i] =~= p.push(i));
    match t.get(p) {
        Some(sub) => {
            assert(seq![i].skip(1) =~= Seq::<usize>::empty());
            match sub {
                TreeView::Node { children, .. } => {
                    if (i as int) < children.len() {
                        assert(children[i as int].get(Seq::<usize>::empty()) == Some(
                            children[i as int],
                        ));
                        assert(sub.get(seq![i]) == Some(children[i as int]));
                    }
                },
                _ => {},
            }
        },
        None => {},
    }
}

/// A tree yields as many leaf payloads as it has `Leaf` variants.
pub proof fn lemma_leaves_len_is_leaf_count<K, T>(t: TreeView<K, T>)
    ensures
        t.leaves().len() == t.leaf_count(),
    decreases t,
{
    match t {
        TreeView::Leaf { .. } => {},
        TreeView::Node { children, .. } => {
            lemma_seq_leaves_len_is_count(children);
        },
    }
}

/// The sequence form of [lemma_leaves_len_is_leaf_count].
pub proof fn lemma_seq_leaves_len_is_count<K, T>(trees: Seq<TreeView<K, T>>)
    ensures
        TreeView::seq_leaves(trees).len() == TreeView::seq_leaf_count(trees),
    decreases trees,
{
    if trees.len() > 0 {
        lemma_leaves_len_is_leaf_count(trees[0]);
        lemma_seq_leaves_len_is_count(trees.skip(1));
    }
}

impl<K, T> StorageTree<K, T> {
    /// Creates a new [StorageTree] leaf.
    pub fn leaf(value: T) -> (r: Self)
        ensures
            r@ == (TreeView::<K, T>::Leaf { value }),
    {
        Self::Leaf(value)
    }

    /// Creates a new [StorageTree] node.
    pub fn node(key: K, children: Vec<Self>) -> (r: Self)
        ensures
            r@ == (TreeView::<K, T>::Node { key, children: views_of(children@) }),
    {
        Self::Node(Node { key, children })
    }

    /// Finds the subtree at the given [Path] if it exists.
    pub fn get(&self, path: &Path) -> (r: Option<&Self>)
        ensures
            match r {
                Some(t) => self@.get(path@) == Some(t@),
                None => self@.get(path@) is None,
            },
    {
        let mut current: &Self = self;
        let mut i: usize = 0;
        assert(path@.skip(0) =~= path@);
        while i < path.len()
            invariant
                i <= path@.len(),
                self@.get(path@) == current@.get(path@.skip(i as int)),
            decreases path@.len() - i,
        {
            let ghost remaining = path@.skip(i as int);
            assert(remaining[0] == path@[i as int]);
            assert(remaining.skip(1) =~= path@.skip(i as int + 1));
            match current {
                StorageTree::Leaf(_) => {
                    assert(current@.get(remaining) is None);
                    return None;
                },
                StorageTree::Node(node) => {
                    let index = path[i];
                    proof {
                        lemma_views_of_len(node.children@);
                    }
                    if index < node.children.len() {
                        proof {
                            lemma_views_of_index(node.children@, index as int);
                            assert(current@.get(remaining) == view_of(
                                node.children@[index as int],
                            ).get(remaining.skip(1)));
                        }
                        current = &node.children[index];
                    } else {
                        assert(current@.get(remaining) is None);
                        return None;
                    }
                },
            }
            i = i + 1;
        }
        assert(path@.skip(i as int) =~= Seq::<usize>::empty());
        Some(current)
    }

    /// Same as [get](Self::get) but returns a mutable reference.
    ///
    /// The final tree is the original with the subtree at `path` replaced by
    /// whatever the caller leaves behind the returned reference.
    pub fn get_mut(&mut self, path: &Path) -> (r: Option<&mut Self>)
        ensures
            match old(self)@.get(path@) {
                Some(t) => r is Some && r.unwrap()@ == t && final(self)@ =~~= old(self)@.replace(
                    path@,
                    final(r.unwrap())@,
                ),
                None => r is None && final(self)@ =~~= old(self)@,
            },
    {
        proof {
            assert(path@.skip(0) =~= path@);
        }
        self.get_mut_from(path, 0)
    }

    /// Descends along `path` from position `i` on.
    #[verifier::rlimit(50)]
    fn get_mut_from(&mut self, path: &Path, i: usize) -> (r: Option<&mut Self>)
        requires
            i <= path@.len(),
        ensures
            match old(self)@.get(path@.skip(i as int)) {
                Some(t) => r is Some && r.unwrap()@ == t && final(self)@ =~~= old(
                    self,
                )@.replace(path@.skip(i as int), final(r.unwrap())@),
                None => r is None && final(self)@ =~~= old(self)@,
            },
        decreases path@.len() - i,
    {
        broadcast use lemma_views_of_len, lemma_views_of_index, lemma_views_of_update;

        if i == path.len() {
            assert(path@.skip(i as int) =~= Seq::<usize>::empty());
            return Some(self);
        }
        let ghost remaining = path@.skip(i as int);
        assert(remaining[0] == path@[i as int]);
        assert(remaining.skip(1) =~= path@.skip(i as int + 1));
        match self {
            StorageTree::Leaf(_) => {
                assert(old(self)@.get(remaining) is None);
                None
            },
            StorageTree::Node(node) => {
                let index = path[i];
                proof {
                    lemma_views_of_len(node.children@);
                }
                if index < node.children.len() {
                    let ghost children0 = node.children@;
                    let ghost key0 = node.key;
                    proof {
                        lemma_views_of_index(children0, index as int);
                        assert(old(self)@.get(remaining) == view_of(
                            children0[index as int],
                        ).get(remaining.skip(1)));
                        assert forall|sub: TreeView<K, T>|
                            views_of(children0)[index as int].replace(remaining.skip(1), sub)
                                == #[trigger] view_of(children0[index as int]).replace(
                                path@.skip(i as int + 1),
                                sub,
                            ) by {}
                        assert forall|sub: TreeView<K, T>|
                            #[trigger] old(self)@.replace(remaining, sub) == (TreeView::Node {
                                key: key0,
                                children: views_of(children0).update(
                                    index as int,
                                    views_of(children0)[index as int].replace(
                                        remaining.skip(1),
                                        sub,
                                    ),
                                ),
                            }) by {}
                        assert(views_of(children0).update(
                            index as int,
                            views_of(children0)[index as int],
                        ) =~= views_of(children0));
                        assert(old(self)@ == (TreeView::Node {
                            key: key0,
                            children: views_of(children0),
                        }));
                    }
                    let child = child_at_mut(&mut node.children, index);
                    child.get_mut_from(path, i + 1)
                } else {
                    assert(old(self)@.get(remaining) is None);
                    None
                }
            },
        }
    }

    /// Adds a subtree as the new last child of the node pointed at by `path`.
    ///
    /// If `path` does not point at a node, nothing is done. If successful,
    /// returns a mutable reference to the inserted tree.
    #[verifier::rlimit(50)]
    pub fn add(&mut self, other: Self, path: &Path) -> (r: Option<&mut Self>)
        ensures
            match old(self)@.get(path@) {
                Some(TreeView::Node { key, children }) => r is Some && r.unwrap()@ == other@
                    && final(self)@ =~~= old(self)@.replace(
                    path@,
                    TreeView::Node { key, children: children.push(final(r.unwrap())@) },
                ),
                Some(TreeView::Leaf { .. }) => r is None && final(self)@ =~~= old(self)@,
                None => r is None && final(self)@ =~~= old(self)@,
            },
    {
        let ghost t0 = self@;
        match self.get_mut(path) {
            None => None,
            Some(tree) => match tree {
                StorageTree::Leaf(_) => {
                    proof {
                        lemma_replace_get_same(t0, path@);
                    }
                    None
                },
                StorageTree::Node(node) => {
                    let ghost children0 = node.children@;
                    let ghost key0 = node.key;
                    let ghost otherv = other@;
                    node.children.push(other);
                    let ghost children1 = node.children@;
                    let index = node.children.len() - 1;
                    proof {
                        lemma_views_of_push(children0, children1[index as int]);
                        lemma_views_of_len(children0);
                        assert(children1 =~= children0.push(children1[index as int]));
                        assert(views_of(children1) =~= views_of(children0).push(otherv));
                        assert forall|u: TreeView<K, T>|
                            #[trigger] views_of(children1).update(index as int, u) =~= views_of(
                                children0,
                            ).push(u) by {}
                    }
                    let last = child_at_mut(&mut node.children, index);
                    Some(last)
                },
            },
        }
    }

    /// Applies a function to all the keys of the [StorageTree].
    ///
    /// The function is called once per key; the result has the same shape,
    /// with the same leaf values in the same positions.
    pub fn map_keys<L, F: Fn(K) -> L>(self, f: &F) -> (r: StorageTree<L, T>)
        requires
            keys_callable(self@, *f),
        ensures
            maps_keys(self@, r@, *f),
        decreases self@.size(), 0nat,
    {
        match self {
            StorageTree::Leaf(value) => StorageTree::Leaf(value),
            StorageTree::Node(node) => {
                let Node { key, children } = node;
                let new_key = f(key);
                let rest = Self::map_children(children, f);
                StorageTree::Node(Node { key: new_key, children: rest })
            },
        }
    }

    /// Applies [map_keys](Self::map_keys) to each tree of a vector, in order.
    fn map_children<L, F: Fn(K) -> L>(children: Vec<Self>, f: &F) -> (r: Vec<StorageTree<L, T>>)
        requires
            seq_keys_callable(views_of(children@), *f),
        ensures
            seq_maps_keys(views_of(children@), views_of(r@), *f),
        decreases TreeView::seq_size(views_of(children@)), 1nat,
    {
        broadcast use lemma_views_of_len, lemma_views_of_index;

        let ghost children0 = children@;
        let mut children = children;
        if children.len() == 0 {
            Vec::new()
        } else {
            let c = children.remove(0);
            proof {
                assert(c == children0[0]);
                assert(children@ =~= children0.skip(1));
                assert(views_of(children0.skip(1)) =~= views_of(children0).skip(1));
                assert(views_of(children0)[0].size() >= 1);
                assert(TreeView::seq_size(views_of(children0)) >= TreeView::seq_size(
                    views_of(children0).skip(1),
                ) + views_of(children0)[0].size());
            }
            let mapped = c.map_keys(f);
            let mut rest = Self::map_children(children, f);
            let ghost restv = rest@;
            let mut out: Vec<StorageTree<L, T>> = Vec::new();
            out.push(mapped);
            out.append(&mut rest);
            proof {
                assert(out@ =~= seq![mapped] + restv);
                assert(views_of(out@).skip(1) =~= views_of(restv));
                assert(views_of(out@)[0] == mapped@);
            }
            out
        }
    }

    /// Iterator on the leaves of a [StorageTree].
    ///
    /// Each call builds a fresh iterator positioned at the first leaf.
    pub fn leaf_iter(&self) -> (it: LeafIterator<'_, K, T>)
        ensures
            it.remaining() =~= self@.leaves(),
    {
        let mut stack: Vec<&Self> = Vec::new();
        stack.push(self);
        let it = LeafIterator { stack };
        proof {
            assert(it.views() =~= seq![self@]);
            assert(seq![self@].drop_last() =~= Seq::<TreeView<K, T>>::empty());
            assert(stack_leaves(Seq::<TreeView<K, T>>::empty()) == Seq::<T>::empty());
            assert(it.remaining() =~= self@.leaves());
        }
        it
    }
}

impl<K, T> Node<K, T> {
    /// Returns a reference to the key of a node.
    pub fn get_key(&self) -> (r: &K)
        ensures
            *r == self.key,
    {
        &self.key
    }

    /// Returns a reference to the children of a node.
    pub fn get_children(&self) -> (r: &Vec<StorageTree<K, T>>)
        ensures
            *r == self.children,
    {
        &self.children
    }

    /// Returns a mutable reference to the key of a node.
    pub fn get_mut_key(&mut self) -> (r: &mut K)
        ensures
            *r == old(self).key,
            final(self).key == *final(r),
            final(self).children == old(self).children,
    {
        &mut self.key
    }

    /// Returns a mutable reference to the children of a node.
    pub fn get_mut_children(&mut self) -> (r: &mut Vec<StorageTree<K, T>>)
        ensures
            *r == old(self).children,
            final(self).children == *final(r),
            final(self).key == old(self).key,
    {
        &mut self.children
    }
}

/// After replacing the subtree at a resolvable path, that path holds the
/// replacement.
pub proof fn lemma_get_replace<K, T>(t: TreeView<K, T>, p: Seq<usize>, s: TreeView<K, T>)
    requires
        t.get(p) is Some,
    ensures
        t.replace(p, s).get(p) == Some(s),
    decreases p.len(),
{
    if p.len() != 0 {
        match t {
            TreeView::Leaf { .. } => {},
            TreeView::Node { key, children } => {
                lemma_get_replace(children[p[0] as int], p.skip(1), s);
            },
        }
    }
}

/// The tree with leaf number `n`, counted left to right from zero, replaced
/// by the payload `v`; the tree itself when `n` is out of range.
pub open spec fn replace_leaf<K, T>(t: TreeView<K, T>, n: int, v: T) -> TreeView<K, T>
    decreases t,
{
    match t {
        TreeView::Leaf { value } => if n == 0 {
            TreeView::Leaf { value: v }
        } else {
            TreeView::Leaf { value }
        },
        TreeView::Node { key, children } => TreeView::Node {
            key,
            children: seq_replace_leaf(children, n, v),
        },
    }
}

/// [replace_leaf] over a sequence of trees: the index is counted across the
/// concatenated leaves of the sequence.
pub open spec fn seq_replace_leaf<K, T>(
    s: Seq<TreeView<K, T>>,
    n: int,
    v: T,
) -> Seq<TreeView<K, T>>
    decreases s,
{
    if s.len() == 0 {
        s
    } else {
        seq![replace_leaf(s[0], n, v)] + seq_replace_leaf(
            s.skip(1),
            n - s[0].leaf_count(),
            v,
        )
    }
}

/// Replacing a leaf that is out of range changes nothing.
pub proof fn lemma_replace_leaf_out_of_range<K, T>(t: TreeView<K, T>, n: int, v: T)
    requires
        n < 0 || n >= t.leaf_count(),
    ensures
        replace_leaf(t, n, v) =~~= t,
    decreases t,
{
    match t {
        TreeView::Leaf { .. } => {},
        TreeView::Node { key, children } => {
            lemma_seq_replace_leaf_out_of_range(children, n, v);
        },
    }
}

/// The sequence form of [lemma_replace_leaf_out_of_range].
pub proof fn lemma_seq_replace_leaf_out_of_range<K, T>(s: Seq<TreeView<K, T>>, n: int, v: T)
    requires
        n < 0 || n >= TreeView::seq_leaf_count(s),
    ensures
        seq_replace_leaf(s, n, v) =~~= s,
    decreases s,
{
    if s.len() > 0 {
        lemma_replace_leaf_out_of_range(s[0], n, v);
        lemma_seq_replace_leaf_out_of_range(s.skip(1), n - s[0].leaf_count(), v);
    }
}

/// Replacing a leaf payload updates exactly that position of the leaf
/// listing and keeps the number of leaves.
pub proof fn lemma_replace_leaf_leaves<K, T>(t: TreeView<K, T>, n: int, v: T)
    requires
        0 <= n < t.leaf_count(),
    ensures
        replace_leaf(t, n, v).leaves() =~= t.leaves().update(n, v),
        replace_leaf(t, n, v).leaf_count() == t.leaf_count(),
    decreases t,
{
    lemma_leaves_len_is_leaf_count(t);
    lemma_leaves_len_is_leaf_count(replace_leaf(t, n, v));
    match t {
        TreeView::Leaf { .. } => {},
        TreeView::Node { key, children } => {
            lemma_seq_replace_leaf_leaves(children, n, v);
        },
    }
}

/// The sequence form of [lemma_replace_leaf_leaves].
pub proof fn lemma_seq_replace_leaf_leaves<K, T>(s: Seq<TreeView<K, T>>, n: int, v: T)
    requires
        0 <= n < TreeView::seq_leaf_count(s),
    ensures
        TreeView::seq_leaves(seq_replace_leaf(s, n, v)) =~= TreeView::seq_leaves(s).update(n, v),
        TreeView::seq_leaf_count(seq_replace_leaf(s, n, v)) == TreeView::seq_leaf_count(s),
    decreases s,
{
    let lc0 = s[0].leaf_count() as int;
    let rl = seq_replace_leaf(s, n, v);
    lemma_leaves_len_is_leaf_count(s[0]);
    lemma_seq_leaves_len_is_count(s);
    lemma_seq_leaves_len_is_count(s.skip(1));
    lemma_seq_leaves_len_is_count(rl);
    assert(rl == seq![replace_leaf(s[0], n, v)] + seq_replace_leaf(s.skip(1), n - lc0, v));
    assert(rl[0] == replace_leaf(s[0], n, v));
    assert(rl.skip(1) =~= seq_replace_leaf(s.skip(1), n - lc0, v));
    assert(TreeView::seq_leaves(rl) == rl[0].leaves() + TreeView::seq_leaves(rl.skip(1)));
    if n < lc0 {
        lemma_replace_leaf_leaves(s[0], n, v);
        lemma_seq_replace_leaf_out_of_range(s.skip(1), n - lc0, v);
        assert(TreeView::seq_leaves(rl) =~= TreeView::seq_leaves(s).update(n, v));
    } else {
        lemma_replace_leaf_out_of_range(s[0], n, v);
        lemma_seq_replace_leaf_leaves(s.skip(1), n - lc0, v);
        assert(TreeView::seq_leaves(rl) =~= TreeView::seq_leaves(s).update(n, v));
    }
    lemma_seq_leaves_len_is_count(seq_replace_leaf(s, n, v));
}

/// One unfolding step of leaf counting and leaf listing over a tail.
pub proof fn lemma_leaves_skip_step<K, T>(s: Seq<TreeView<K, T>>, j: int)
    requires
        0 <= j < s.len(),
    ensures
        TreeView::seq_leaf_count(s.skip(j)) == s[j].leaf_count() + TreeView::seq_leaf_count(
            s.skip(j + 1),
        ),
        TreeView::seq_leaves(s.skip(j)) =~= s[j].leaves() + TreeView::seq_leaves(s.skip(j + 1)),
        TreeView::seq_size(s.skip(j)) == s[j].size() + TreeView::seq_size(s.skip(j + 1)),
        s[j].size() >= 1,
{
    assert(s.skip(j)[0] == s[j]);
    assert(s.skip(j).skip(1) =~= s.skip(j + 1));
    assert(TreeView::seq_leaves(s.skip(j)) == s.skip(j)[0].leaves() + TreeView::seq_leaves(
        s.skip(j).skip(1),
    ));
    assert(TreeView::seq_size(s.skip(j)) == s.skip(j)[0].size() + TreeView::seq_size(
        s.skip(j).skip(1),
    ));
}

/// The leaf payloads still to be yielded by a stack of trees: those of the
/// topmost (last) tree first.
pub open spec fn stack_leaves<K, T>(s: Seq<TreeView<K, T>>) -> Seq<T>
    decreases s,
{
    if s.len() == 0 {
        Seq::empty()
    } else {
        s.last().leaves() + stack_leaves(s.drop_last())
    }
}

/// The total [TreeView::size] of a stack of trees.
pub open spec fn stack_size<K, T>(s: Seq<TreeView<K, T>>) -> nat
    decreases s,
{
    if s.len() == 0 {
        0
    } else {
        s.last().size() + stack_size(s.drop_last())
    }
}

/// Pushing the reversal of a child sequence onto a stack queues up exactly
/// the children's leaves, leftmost child first.
pub proof fn lemma_stack_extend_rev<K, T>(base: Seq<TreeView<K, T>>, cs: Seq<TreeView<K, T>>)
    ensures
        stack_leaves(base + cs.reverse()) =~= TreeView::seq_leaves(cs) + stack_leaves(base),
        stack_size(base + cs.reverse()) == TreeView::seq_size(cs) + stack_size(base),
    decreases cs.len(),
{
    if cs.len() == 0 {
        assert(base + cs.reverse() =~= base);
    } else {
        assert((base + cs.reverse()).last() == cs[0]);
        assert((base + cs.reverse()).drop_last() =~= base + cs.skip(1).reverse());
        lemma_stack_extend_rev(base, cs.skip(1));
        assert(stack_leaves(base + cs.reverse()) =~= TreeView::seq_leaves(cs) + stack_leaves(
            base,
        ));
    }
}

/// Finds the path of leaf number `n` of a tree, counted left to right from
/// zero. On success the second component is unspecified; on failure it is
/// the number of leaves of the tree, all numbered below `n`.
fn find_nth_leaf_path<K, T>(t: &StorageTree<K, T>, n: usize) -> (r: (Option<Path>, usize))
    ensures
        match r.0 {
            Some(p) => {
                &&& n < t@.leaf_count()
                &&& t@.get(p@) == Some(TreeView::<K, T>::Leaf { value: t@.leaves()[n as int] })
                &&& forall|v: T| #[trigger] t@.replace(p@, TreeView::Leaf { value: v })
                    =~~= replace_leaf(t@, n as int, v)
            },
            None => r.1 == t@.leaf_count() && t@.leaf_count() <= n,
        },
    decreases t@.size(), 0nat,
{
    match t {
        StorageTree::Leaf(_) => {
            if n == 0 {
                let p: Path = Vec::new();
                proof {
                    assert(p@ =~= Seq::<usize>::empty());
                }
                (Some(p), 0)
            } else {
                (None, 1)
            }
        },
        StorageTree::Node(node) => {
            proof {
                assert(views_of(node.children@).skip(0) =~= views_of(node.children@));
                lemma_leaves_len_is_leaf_count(t@);
            }
            let (sub, cnt) = find_nth_leaf_in_children(&node.children, 0, n);
            proof {
                let s = views_of(node.children@);
                if sub is Some {
                    let p = sub.unwrap();
                    assert forall|v: T| #[trigger] t@.replace(p@, TreeView::Leaf { value: v })
                        =~~= replace_leaf(t@, n as int, v) by {
                        assert(seq_replace_leaf(s.skip(0), n as int, v) =~~= s.skip(0).update(
                            p@[0] - 0,
                            s[p@[0] as int].replace(p@.skip(1), TreeView::Leaf { value: v }),
                        ));
                        assert(s.skip(0) =~= s);
                        assert(seq_replace_leaf(s, n as int, v) =~~= s.update(
                            p@[0] as int,
                            s[p@[0] as int].replace(p@.skip(1), TreeView::Leaf { value: v }),
                        ));
                        assert(t@.replace(p@, TreeView::Leaf { value: v }) == (TreeView::Node {
                            key: node.key,
                            children: s.update(
                                p@[0] as int,
                                s[p@[0] as int].replace(p@.skip(1), TreeView::Leaf { value: v }),
                            ),
                        }));
                    }
                }
            }
            (sub, cnt)
        },
    }
}

/// Finds, among the concatenated leaves of the trees from index `j` on, the
/// path of leaf number `n`; the path starts with the index of the child
/// that holds the leaf.
#[verifier::rlimit(100)]
fn find_nth_leaf_in_children<K, T>(
    children: &Vec<StorageTree<K, T>>,
    j: usize,
    n: usize,
) -> (r: (Option<Path>, usize))
    requires
        j <= children@.len(),
    ensures
        ({
            let s = views_of(children@);
            match r.0 {
                Some(p) => {
                    &&& n < TreeView::seq_leaf_count(s.skip(j as int))
                    &&& p@.len() >= 1
                    &&& j <= p@[0] < s.len()
                    &&& s[p@[0] as int].get(p@.skip(1)) == Some(
                        TreeView::<K, T>::Leaf {
                            value: TreeView::seq_leaves(s.skip(j as int))[n as int],
                        },
                    )
                    &&& forall|v: T| #[trigger] seq_replace_leaf(s.skip(j as int), n as int, v)
                        =~~= s.skip(j as int).update(
                        p@[0] - j,
                        s[p@[0] as int].replace(p@.skip(1), TreeView::Leaf { value: v }),
                    )
                },
                None => r.1 == TreeView::seq_leaf_count(s.skip(j as int))
                    && TreeView::seq_leaf_count(s.skip(j as int)) <= n,
            }
        }),
    decreases TreeView::seq_size(views_of(children@).skip(j as int)), 1nat,
{
    broadcast use lemma_views_of_len, lemma_views_of_index;

    let ghost s = views_of(children@);
    if j >= children.len() {
        proof {
            assert(s.skip(j as int) =~= Seq::<TreeView<K, T>>::empty());
        }
        (None, 0)
    } else {
        let ghost jj = j as int;
        let ghost nn = n as int;
        let ghost lcj = s[jj].leaf_count() as int;
        proof {
            lemma_views_of_len(children@);
            lemma_views_of_index(children@, jj);
            lemma_leaves_skip_step(s, jj);
            lemma_leaves_len_is_leaf_count(s[jj]);
        }
        let (sub, cnt) = find_nth_leaf_path(&children[j], n);
        match sub {
            Some(child_path) => {
                let mut child_path = child_path;
                let ghost cp = child_path@;
                let mut q: Path = Vec::new();
                q.push(j);
                q.append(&mut child_path);
                proof {
                    assert(q@.skip(1) =~= cp);
                    assert(q@[0] == j);
                    assert(TreeView::seq_leaves(s.skip(jj))[nn] == s[jj].leaves()[nn]);
                    assert forall|v: T| #[trigger] seq_replace_leaf(s.skip(jj), nn, v)
                        =~~= s.skip(jj).update(
                        0,
                        s[jj].replace(cp, TreeView::Leaf { value: v }),
                    ) by {
                        assert(s.skip(jj)[0] == s[jj]);
                        assert(s.skip(jj).skip(1) =~= s.skip(jj + 1));
                        lemma_seq_replace_leaf_out_of_range(s.skip(jj + 1), nn - lcj, v);
                        assert(seq_replace_leaf(s.skip(jj), nn, v) =~~= seq![
                            replace_leaf(s[jj], nn, v),
                        ] + s.skip(jj + 1));
                        assert(s.skip(jj).update(0, replace_leaf(s[jj], nn, v)) =~~= seq![
                            replace_leaf(s[jj], nn, v),
                        ] + s.skip(jj + 1));
                    }
                }
                (Some(q), 0)
            },
            None => {
                let (rest, c2) = find_nth_leaf_in_children(children, j + 1, n - cnt);
                proof {
                    if rest is Some {
                        let p = rest.unwrap();
                        lemma_seq_leaves_len_is_count(s.skip(jj + 1));
                        lemma_seq_leaves_len_is_count(s.skip(jj));
                        assert(TreeView::seq_leaves(s.skip(jj))[nn] == TreeView::seq_leaves(
                            s.skip(jj + 1),
                        )[nn - lcj]);
                        assert forall|v: T| #[trigger] seq_replace_leaf(s.skip(jj), nn, v)
                            =~~= s.skip(jj).update(
                            p@[0] - j,
                            s[p@[0] as int].replace(p@.skip(1), TreeView::Leaf { value: v }),
                        ) by {
                            assert(s.skip(jj)[0] == s[jj]);
                            assert(s.skip(jj).skip(1) =~= s.skip(jj + 1));
                            lemma_replace_leaf_out_of_range(s[jj], nn, v);
                            assert(seq_replace_leaf(s.skip(jj), nn, v) =~~= seq![s[jj]]
                                + seq_replace_leaf(s.skip(jj + 1), nn - lcj, v));
                            assert(s.skip(jj).update(
                                p@[0] - j,
                                s[p@[0] as int].replace(p@.skip(1), TreeView::Leaf { value: v }),
                            ) =~~= seq![s[jj]] + s.skip(jj + 1).update(
                                p@[0] - (j + 1),
                                s[p@[0] as int].replace(p@.skip(1), TreeView::Leaf { value: v }),
                            ));
                        }
                    }
                }
                if rest.is_some() {
                    (rest, 0)
                } else {
                    (rest, cnt + c2)
                }
            },
        }
    }
}

/// Mutably borrows leaf number `n` of a tree, counted left to right from
/// zero.
fn nth_leaf_mut<'x, K, T>(t: &'x mut StorageTree<K, T>, n: usize) -> (r: Option<&'x mut T>)
    ensures
        match r {
            Some(x) => n < old(t)@.leaf_count() && *x == old(t)@.leaves()[n as int]
                && final(t)@ =~~= replace_leaf(old(t)@, n as int, *final(x)),
            None => old(t)@.leaf_count() <= n && *final(t) == *old(t),
        },
{
    let (path, _count) = find_nth_leaf_path(t, n);
    match path {
        None => None,
        Some(p) => match t.get_mut(&p) {
            None => vstd::pervasive::unreached(),
            Some(sub) => match sub {
                StorageTree::Leaf(v) => Some(v),
                StorageTree::Node(_) => vstd::pervasive::unreached(),
            },
        },
    }
}

/// Iterator on leaves of a tree that yields mutable references.
///
/// Each call of [next](MutLeafIterator::next) walks afresh from the root to
/// the next unvisited leaf, so the reference it hands out is exclusive while
/// it lives, and no leaf is handed out twice.
pub struct MutLeafIterator<'a, K, T> {
    /// The tree being walked.
    pub tree: &'a mut StorageTree<K, T>,
    /// How many leaves were yielded already.
    pub visited: usize,
}

impl<'a, K, T> MutLeafIterator<'a, K, T> {
    /// The leaf payloads not yet yielded, from the tree as it now stands.
    pub open spec fn remaining(self) -> Seq<T> {
        (*self.tree)@.leaves().skip(self.visited as int)
    }

    /// Yields a mutable reference to the next leaf payload, or `None` when
    /// every leaf has been visited.
    pub fn next(&mut self) -> (r: Option<&mut T>)
        ensures
            match r {
                None => (*old(self).tree)@.leaf_count() <= old(self).visited
                    && *final(self).tree == *old(self).tree
                    && final(self).visited == old(self).visited,
                Some(x) => {
                    &&& old(self).remaining().len() > 0
                    &&& *x == old(self).remaining()[0]
                    &&& (*final(self).tree)@ =~~= replace_leaf(
                        (*old(self).tree)@,
                        old(self).visited as int,
                        *final(x),
                    )
                    &&& final(self).visited == (if old(self).visited < usize::MAX {
                        (old(self).visited + 1) as usize
                    } else {
                        old(self).visited
                    })
                },
            },
    {
        let n = self.visited;
        let ghost t0 = (*self.tree)@;
        proof {
            lemma_leaves_len_is_leaf_count(t0);
        }
        match nth_leaf_mut(&mut *self.tree, n) {
            None => None,
            Some(x) => {
                if self.visited < usize::MAX {
                    self.visited = self.visited + 1;
                }
                Some(x)
            },
        }
    }
}

impl<K, T> StorageTree<K, T> {
    /// Same as [leaf_iter](Self::leaf_iter) but the iterator yields mutable
    /// references.
    pub fn mut_leaf_iter(&mut self) -> (it: MutLeafIterator<'_, K, T>)
        ensures
            it.visited == 0,
            *it.tree == *old(self),
    {
        MutLeafIterator { tree: self, visited: 0 }
    }
}

/// Iterator on leaves of a tree. It walks depth first, children of a node in
/// left-to-right order, and yields a shared reference to each leaf payload.
pub struct LeafIterator<'a, K, T> {
    /// Trees still to be walked; the last entry is visited next.
    pub stack: Vec<&'a StorageTree<K, T>>,
}

impl<'a, K, T> LeafIterator<'a, K, T> {
    /// The models of the stacked trees.
    pub open spec fn views(self) -> Seq<TreeView<K, T>> {
        Seq::new(self.stack@.len(), |i: int| view_of(*self.stack@[i]))
    }

    /// The leaf payloads not yet yielded, in the order they will come.
    pub open spec fn remaining(self) -> Seq<T> {
        stack_leaves(self.views())
    }

    /// Yields the next leaf payload, or `None` when the iteration is over.
    pub fn next(&mut self) -> (r: Option<&'a T>)
        ensures
            old(self).remaining().len() == 0 ==> r is None && final(self).remaining()
                == Seq::<T>::empty(),
            old(self).remaining().len() > 0 ==> r is Some && *r.unwrap() == old(
                self,
            ).remaining()[0] && final(self).remaining() =~= old(self).remaining().skip(1),
    {
        loop
            invariant
                self.remaining() =~= old(self).remaining(),
            decreases stack_size(self.views()),
        {
            let ghost views0 = self.views();
            match self.stack.pop() {
                None => {
                    return None;
                },
                Some(top) => {
                    proof {
                        assert(self.views() =~= views0.drop_last());
                        assert(views0.last() == top@);
                    }
                    match top {
                        StorageTree::Leaf(v) => {
                            proof {
                                assert(old(self).remaining() =~= seq![*v]
                                    + stack_leaves(views0.drop_last()));
                            }
                            return Some(v);
                        },
                        StorageTree::Node(node) => {
                            let ghost base = self.views();
                            let ghost cv = views_of(node.children@);
                            proof {
                                broadcast use lemma_views_of_len, lemma_views_of_index;

                                lemma_stack_extend_rev(base, cv);
                                assert(cv.skip(cv.len() as int).reverse()
                                    =~= Seq::<TreeView<K, T>>::empty());
                                assert(self.views() =~= base + cv.skip(cv.len() as int).reverse());
                            }
                            let mut j = node.children.len();
                            while j > 0
                                invariant
                                    j <= node.children.len(),
                                    cv == views_of(node.children@),
                                    cv.len() == node.children@.len(),
                                    self.views() =~= base + cv.skip(j as int).reverse(),
                                decreases j,
                            {
                                proof {
                                    broadcast use lemma_views_of_len, lemma_views_of_index;

                                }
                                j = j - 1;
                                let ghost pre = self.views();
                                self.stack.push(&node.children[j]);
                                proof {
                                    assert(self.views() =~= pre.push(view_of(
                                        node.children@[j as int],
                                    )));
                                    assert(cv.skip(j as int).reverse() =~= cv.skip(
                                        j as int + 1,
                                    ).reverse().push(cv[j as int]));
                                    assert(self.views() =~= base + cv.skip(j as int).reverse());
                                }
                            }
                            proof {
                                assert(cv.skip(0) =~= cv);
                                assert(self.remaining() =~= old(self).remaining());
                            }
                        },
                    }
                },
            }
        }
    }
}

/// Replacing a resolved subtree by itself leaves the tree unchanged.
pub proof fn lemma_replace_get_same<K, T>(t: TreeView<K, T>, p: Seq<usize>)
    requires
        t.get(p) is Some,
    ensures
        t.replace(p, t.get(p).unwrap()) =~~= t,
    decreases p.len(),
{
    if p.len() != 0 {
        match t {
            TreeView::Leaf { .. } => {},
            TreeView::Node { key, children } => {
                let idx = p[0] as int;
                lemma_replace_get_same(children[idx], p.skip(1));
                assert(children.update(
                    idx,
                    children[idx].replace(p.skip(1), t.get(p).unwrap()),
                ) =~~= children);
            },
        }
    }
}

/// [views_of] commutes with appending one tree.
pub proof fn lemma_views_of_push<K, T>(s: Seq<StorageTree<K, T>>, t: StorageTree<K, T>)
    ensures
        views_of(s.push(t)) =~= views_of(s).push(view_of(t)),
    decreases s.len(),
{
    lemma_views_of_len(s);
    lemma_views_of_len(s.push(t));
    if s.len() == 0 {
        assert(s.push(t)[0] == t);
        assert(s.push(t).skip(1) =~= Seq::<StorageTree<K, T>>::empty());
    } else {
        assert(s.push(t)[0] == s[0]);
        assert(s.push(t).skip(1) =~= s.skip(1).push(t));
        lemma_views_of_push(s.skip(1), t);
        lemma_views_of_index(s, 0);
    }
}

/// Mutably borrows child `i` of a vector of trees, stating the effect on the
/// models of the elements.
pub(crate) fn child_at_mut<K, T>(children: &mut Vec<StorageTree<K, T>>, i: usize) -> (child: &mut
    StorageTree<K, T>)
    requires
        i < old(children).len(),
    ensures
        *child == old(children)@[i as int],
        final(children)@ == old(children)@.update(i as int, *final(child)),
        views_of(final(children)@) =~~= views_of(old(children)@).update(i as int, final(child)@),
{
    proof {
        lemma_views_of_len(children@);
        assert forall|u: StorageTree<K, T>|
            #[trigger] views_of(old(children)@.update(i as int, u)) == views_of(
                old(children)@,
            ).update(i as int, view_of(u)) by {
            lemma_views_of_update(old(children)@, i as int, u);
        }
    }
    vstd::std_specs::vec::vec_index_mut(children, i)
}

} // verus!

pub mod column;
