use cargo_sandbox::text::{clone_texts, position, same_text};

fn list(words: &[&str]) -> Vec<String> {
    words.iter().map(|word| word.to_string()).collect()
}

#[test]
fn texts_are_compared_by_their_characters() {
    assert!(same_text("running", "running"));
    assert!(same_text("", ""));
    assert!(!same_text("running", "Running"));
    assert!(!same_text("run", "running"));
    assert!(!same_text("a\u{301}", "\u{e1}"));
}

#[test]
fn copy_of_a_list_equals_the_list() {
    assert_eq!(clone_texts(&list(&["cargo", "build", ""])), list(&["cargo", "build", ""]));
    assert_eq!(clone_texts(&Vec::new()), Vec::<String>::new());
}

#[test]
fn first_position_is_found() {
    assert_eq!(position(&list(&["a", "b", "a", "b"]), "b"), Some(1));
    assert_eq!(position(&list(&["a", "b"]), "a"), Some(0));
}

#[test]
fn missing_text_has_no_position() {
    assert_eq!(position(&list(&["a", "b"]), "c"), None);
    assert_eq!(position(&Vec::new(), ""), None);
}
