use tum_module_picker::storage_tree::column::{Action, Content};
use tum_module_picker::storage_tree::StorageTree;

fn sample_content() -> Content<&'static str, u32> {
    Content::new(StorageTree::node(
        "root",
        vec![
            StorageTree::node("a", vec![StorageTree::leaf(1), StorageTree::leaf(2)]),
            StorageTree::leaf(3),
        ],
    ))
}

#[test]
fn new_content_starts_collapsed() {
    let content = sample_content();
    assert_eq!(content.get_expanded(&vec![]), Some(false));
    assert_eq!(content.get_expanded(&vec![0]), Some(false));
}

#[test]
fn get_expanded_is_none_for_leaves_and_bad_paths() {
    let content = sample_content();
    assert_eq!(content.get_expanded(&vec![1]), None);
    assert_eq!(content.get_expanded(&vec![5]), None);
    assert_eq!(content.get_expanded(&vec![0, 0]), None);
}

#[test]
fn expand_then_collapse_one_node() {
    let mut content = sample_content();
    content.perform(Action::Expand(vec![0]));
    assert_eq!(content.get_expanded(&vec![0]), Some(true));
    // No other node changed.
    assert_eq!(content.get_expanded(&vec![]), Some(false));
    content.perform(Action::Collapse(vec![0]));
    assert_eq!(content.get_expanded(&vec![0]), Some(false));
}

#[test]
fn invalid_paths_are_silent_no_ops() {
    let mut content = sample_content();
    content.perform(Action::Expand(vec![9, 9]));
    content.perform(Action::Collapse(vec![0, 0, 0]));
    content.perform(Action::Selected(vec![42]));
    assert_eq!(content.get_expanded(&vec![]), Some(false));
    assert_eq!(content.get_expanded(&vec![0]), Some(false));
}

#[test]
fn selected_always_expands_by_default() {
    let mut content = sample_content();
    content.perform(Action::Selected(vec![0]));
    assert_eq!(content.get_expanded(&vec![0]), Some(true));
    content.perform(Action::Selected(vec![0]));
    assert_eq!(content.get_expanded(&vec![0]), Some(true));
}

#[test]
fn selected_toggles_under_retract_on_select() {
    let mut content = sample_content().retract_on_select();
    content.perform(Action::Selected(vec![0]));
    assert_eq!(content.get_expanded(&vec![0]), Some(true));
    content.perform(Action::Selected(vec![0]));
    assert_eq!(content.get_expanded(&vec![0]), Some(false));
    // A stale path under toggle mode is still a no-op.
    content.perform(Action::Selected(vec![9]));
    assert_eq!(content.get_expanded(&vec![0]), Some(false));
    assert_eq!(content.get_expanded(&vec![]), Some(false));
}

#[test]
fn expand_all_sweeps_every_node() {
    let mut content = sample_content();
    content.perform(Action::Expand(vec![0]));
    content.expand_all(true);
    assert_eq!(content.get_expanded(&vec![]), Some(true));
    assert_eq!(content.get_expanded(&vec![0]), Some(true));
    content.expand_all(false);
    assert_eq!(content.get_expanded(&vec![]), Some(false));
    assert_eq!(content.get_expanded(&vec![0]), Some(false));
}
