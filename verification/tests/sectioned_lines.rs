use tum_module_picker::sectioned_lines::{get_sections, KeywordFinder};

#[derive(Debug, Clone, Copy, PartialEq, Eq)]
enum Tag {
    Name,
    Age,
}

fn finder() -> KeywordFinder<Tag> {
    KeywordFinder::new(
        vec!["Name".to_string(), "Age".to_string()],
        vec![Tag::Name, Tag::Age],
    )
}

fn lines(texts: &[&str]) -> Vec<String> {
    texts.iter().map(|t| t.to_string()).collect()
}

#[test]
fn splits_input_into_sections() {
    let f = finder();
    let mut sections = get_sections(lines(&["Name", "Alice", "Bob", "Age", "30"]), &f);
    assert_eq!(sections.next_section(), Some(Tag::Name));
    assert_eq!(sections.next(), Some("Alice".to_string()));
    assert_eq!(sections.next(), Some("Bob".to_string()));
    assert_eq!(sections.next(), None);
    assert_eq!(sections.next_section(), Some(Tag::Age));
    assert_eq!(sections.next(), Some("30".to_string()));
    assert_eq!(sections.next(), None);
    assert_eq!(sections.next_section(), None);
}

#[test]
fn lines_before_the_first_header_are_dropped() {
    let f = finder();
    let mut sections = get_sections(lines(&["garbage", "Name", "Alice"]), &f);
    assert_eq!(sections.next_section(), Some(Tag::Name));
    assert_eq!(sections.next(), Some("Alice".to_string()));
    assert_eq!(sections.next(), None);
    assert_eq!(sections.next_section(), None);
}

#[test]
fn empty_input_has_no_sections() {
    let f = finder();
    let mut sections = get_sections(Vec::new(), &f);
    assert_eq!(sections.next_section(), None);
}

#[test]
fn skipping_an_undrained_section_works() {
    let f = finder();
    let mut sections = get_sections(lines(&["Name", "Alice", "Bob", "Age", "30"]), &f);
    assert_eq!(sections.next_section(), Some(Tag::Name));
    // The caller does not drain the body; the next call skips it.
    assert_eq!(sections.next_section(), Some(Tag::Age));
    assert_eq!(sections.next(), Some("30".to_string()));
    assert_eq!(sections.next(), None);
    assert_eq!(sections.next_section(), None);
}

#[test]
fn text_joins_body_lines_with_newlines() {
    let f = finder();
    let mut sections = get_sections(lines(&["Name", "Alice", "Bob", "Age", "30"]), &f);
    assert_eq!(sections.next_section(), Some(Tag::Name));
    assert_eq!(sections.text(), "Alice\nBob".to_string());
    assert_eq!(sections.next_section(), Some(Tag::Age));
    assert_eq!(sections.text(), "30".to_string());
    assert_eq!(sections.next_section(), None);
}

#[test]
fn text_of_an_empty_section_is_empty() {
    let f = finder();
    let mut sections = get_sections(lines(&["Name", "Age", "30"]), &f);
    assert_eq!(sections.next_section(), Some(Tag::Name));
    assert_eq!(sections.text(), String::new());
    assert_eq!(sections.next_section(), Some(Tag::Age));
}

#[test]
fn a_header_is_never_yielded_as_body() {
    let f = finder();
    let mut sections = get_sections(lines(&["Name", "Age"]), &f);
    assert_eq!(sections.next_section(), Some(Tag::Name));
    assert_eq!(sections.next(), None);
    assert_eq!(sections.next_section(), Some(Tag::Age));
    assert_eq!(sections.next(), None);
    assert_eq!(sections.next_section(), None);
}
