use tum_module_picker::storage_tree::{Node, StorageTree};

fn sample_tree() -> StorageTree<&'static str, u32> {
    // root
    // +- a
    // |  +- leaf 1
    // |  +- leaf 2
    // +- leaf 3
    StorageTree::node(
        "root",
        vec![
            StorageTree::node("a", vec![StorageTree::leaf(1), StorageTree::leaf(2)]),
            StorageTree::leaf(3),
        ],
    )
}

#[test]
fn get_empty_path_returns_root() {
    let t = sample_tree();
    let root = t.get(&vec![]).unwrap();
    assert_eq!(root, &t);
}

#[test]
fn get_follows_recorded_indices() {
    let t = sample_tree();
    assert_eq!(t.get(&vec![0, 0]), Some(&StorageTree::leaf(1)));
    assert_eq!(t.get(&vec![0, 1]), Some(&StorageTree::leaf(2)));
    assert_eq!(t.get(&vec![1]), Some(&StorageTree::leaf(3)));
}

#[test]
fn get_through_leaf_fails() {
    let t = sample_tree();
    assert_eq!(t.get(&vec![1, 0]), None);
    assert_eq!(t.get(&vec![0, 0, 0]), None);
}

#[test]
fn get_out_of_bounds_fails() {
    let t = sample_tree();
    assert_eq!(t.get(&vec![2]), None);
    assert_eq!(t.get(&vec![0, 5]), None);
}

#[test]
fn get_mut_lets_the_caller_replace_a_subtree() {
    let mut t = sample_tree();
    {
        let sub = t.get_mut(&vec![0, 1]).unwrap();
        *sub = StorageTree::leaf(20);
    }
    assert_eq!(t.get(&vec![0, 1]), Some(&StorageTree::leaf(20)));
    // Other nodes are untouched.
    assert_eq!(t.get(&vec![0, 0]), Some(&StorageTree::leaf(1)));
    assert_eq!(t.get(&vec![1]), Some(&StorageTree::leaf(3)));
}

#[test]
fn add_appends_as_last_child_and_keeps_siblings() {
    let mut t = sample_tree();
    let inserted = t.add(StorageTree::leaf(4), &vec![0]);
    assert_eq!(inserted, Some(&mut StorageTree::leaf(4)));
    let expected = StorageTree::node(
        "root",
        vec![
            StorageTree::node(
                "a",
                vec![StorageTree::leaf(1), StorageTree::leaf(2), StorageTree::leaf(4)],
            ),
            StorageTree::leaf(3),
        ],
    );
    assert_eq!(t, expected);
}

#[test]
fn add_on_leaf_or_invalid_path_changes_nothing() {
    let mut t = sample_tree();
    assert!(t.add(StorageTree::leaf(9), &vec![1]).is_none());
    assert!(t.add(StorageTree::leaf(9), &vec![7]).is_none());
    assert_eq!(t, sample_tree());
}

#[test]
fn add_returns_reference_to_inserted_subtree() {
    let mut t = sample_tree();
    {
        let inserted = t.add(StorageTree::leaf(4), &vec![]).unwrap();
        *inserted = StorageTree::leaf(40);
    }
    assert_eq!(t.get(&vec![2]), Some(&StorageTree::leaf(40)));
}

#[test]
fn map_keys_keeps_shape_and_leaves() {
    let t = sample_tree();
    let mapped: StorageTree<String, u32> = t.map_keys(&|k: &str| format!("key-{}", k));
    // Same shape, same leaves in the same positions, keys transformed.
    assert_eq!(mapped.get(&vec![0, 0]), Some(&StorageTree::leaf(1)));
    assert_eq!(mapped.get(&vec![0, 1]), Some(&StorageTree::leaf(2)));
    assert_eq!(mapped.get(&vec![1]), Some(&StorageTree::leaf(3)));
    match mapped.get(&vec![0]).unwrap() {
        StorageTree::Node(node) => assert_eq!(node.get_key(), &"key-a".to_string()),
        StorageTree::Leaf(_) => panic!("expected a node"),
    }
    match mapped {
        StorageTree::Node(ref node) => {
            assert_eq!(node.get_key(), &"key-root".to_string());
            assert_eq!(node.get_children().len(), 2);
        }
        StorageTree::Leaf(_) => panic!("expected a node"),
    }
}

#[test]
fn leaf_iter_visits_every_leaf_once() {
    let t = sample_tree();
    let mut it = t.leaf_iter();
    let mut seen: Vec<u32> = Vec::new();
    while let Some(v) = it.next() {
        seen.push(*v);
    }
    assert_eq!(seen.len(), 3);
    let mut sorted = seen.clone();
    sorted.sort();
    assert_eq!(sorted, vec![1, 2, 3]);
}

#[test]
fn leaf_iter_on_single_leaf() {
    let t: StorageTree<u8, &str> = StorageTree::leaf("only");
    let mut it = t.leaf_iter();
    assert_eq!(it.next(), Some(&"only"));
    assert_eq!(it.next(), None);
}

#[test]
fn leaf_iter_on_childless_node_is_empty() {
    let t: StorageTree<u8, u8> = StorageTree::node(0, vec![]);
    let mut it = t.leaf_iter();
    assert_eq!(it.next(), None);
}

#[test]
fn node_getters_reach_key_and_children() {
    let mut node = Node { key: "k", children: vec![StorageTree::<&str, u32>::leaf(5)] };
    assert_eq!(*node.get_key(), "k");
    assert_eq!(node.get_children().len(), 1);
    *node.get_mut_key() = "renamed";
    assert_eq!(*node.get_key(), "renamed");
    node.get_mut_children().push(StorageTree::leaf(6));
    assert_eq!(node.get_children().len(), 2);
}

#[test]
fn mut_leaf_iter_yields_each_leaf_once_for_writing() {
    let mut t = sample_tree();
    let mut it = t.mut_leaf_iter();
    let mut yields = 0;
    while let Some(v) = it.next() {
        *v += 10;
        yields += 1;
    }
    assert_eq!(yields, 3);
    assert_eq!(t.get(&vec![0, 0]), Some(&StorageTree::leaf(11)));
    assert_eq!(t.get(&vec![0, 1]), Some(&StorageTree::leaf(12)));
    assert_eq!(t.get(&vec![1]), Some(&StorageTree::leaf(13)));
}

#[test]
fn mut_leaf_iter_on_childless_node_yields_nothing() {
    let mut t: StorageTree<u8, u8> = StorageTree::node(0, vec![]);
    let mut it = t.mut_leaf_iter();
    assert!(it.next().is_none());
}
