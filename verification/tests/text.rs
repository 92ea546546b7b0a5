use term_core::text::{
    char_is_space, chars_of, is_listed, join3, path_lies_within, push_text, same_text, strip_prefix,
    trim,
};

#[test]
fn chars_are_the_characters() {
    assert_eq!(chars_of("aé€"), vec!['a', 'é', '€']);
    assert_eq!(chars_of(""), Vec::<char>::new());
}

#[test]
fn push_text_appends_a_copy() {
    let mut v = vec!["a".to_string()];
    push_text(&mut v, "b");
    assert_eq!(v, vec!["a".to_string(), "b".to_string()]);
}

#[test]
fn listed_means_equal_to_one_of_them() {
    let list = vec!["/a".to_string(), "/b/c".to_string()];
    assert!(is_listed(&list, "/a"));
    assert!(is_listed(&list, "/b/c"));
    assert!(!is_listed(&list, "/b"));
    assert!(!is_listed(&list, ""));
    assert!(!is_listed(&Vec::new(), "/a"));
}

#[test]
fn join3_concatenates() {
    assert_eq!(join3("/home/u", "/", ".ssh"), "/home/u/.ssh");
    assert_eq!(join3("", "", ""), "");
}

#[test]
fn within_goes_by_whole_components() {
    assert!(path_lies_within("/home/u", "/home/u"));
    assert!(path_lies_within("/home/u/p", "/home/u"));
    assert!(path_lies_within("/home/u/p", "/home/u/"));
    assert!(path_lies_within("/anything", "/"));
    assert!(!path_lies_within("/home/user", "/home/u"));
    assert!(!path_lies_within("/home", "/home/u"));
    assert!(!path_lies_within("/work", "/home/u"));
    assert!(!path_lies_within("/home/u", ""));
    assert!(!path_lies_within("", "/home/u"));
}

#[test]
fn white_space_is_unicode_white_space() {
    for code in 0u32..0x3100 {
        if let Some(c) = char::from_u32(code) {
            assert_eq!(char_is_space(c), c.is_whitespace(), "for U+{:04X}", code);
        }
    }
    assert!(!char_is_space('\u{FEFF}'));
    assert!(!char_is_space('\u{200B}'));
}

#[test]
fn trim_agrees_with_std() {
    for text in ["", " ", "a", " a", "a ", "  a b  ", "\n1\n", "\t\r\n x \u{00A0}\u{3000}", "\u{2003}é\u{2003}", "   "] {
        assert_eq!(trim(text), text.trim(), "for {:?}", text);
    }
}

#[test]
fn same_text_is_equality() {
    assert!(same_text("1", "1"));
    assert!(same_text("", ""));
    assert!(!same_text("1", "1 "));
    assert!(!same_text("a", "A"));
}

#[test]
fn strip_prefix_agrees_with_std() {
    for (text, prefix) in [
        ("ref: refs/heads/main", "ref: refs/heads/"),
        ("ref: refs/heads/", "ref: refs/heads/"),
        ("ref: refs/head", "ref: refs/heads/"),
        ("", "x"),
        ("x", ""),
        ("éa", "é"),
        ("abc", "abd"),
    ] {
        assert_eq!(strip_prefix(text, prefix), text.strip_prefix(prefix), "for {:?}", text);
    }
}
