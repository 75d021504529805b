use writing_backend::document::{document_file_name, document_name, is_valid_name, WritingFile};

fn sample() -> WritingFile {
    WritingFile {
        name: "draft1".to_string(),
        text: "hello".to_string(),
        font: "Serif".to_string(),
        font_size: 14,
        theme: "light".to_string(),
    }
}

#[test]
fn file_name_appends_the_suffix() {
    assert_eq!(document_file_name("draft1"), "draft1.json");
    assert_eq!(document_file_name("chapter 2"), "chapter 2.json");
}

#[test]
fn file_name_keeps_dots_in_the_name() {
    assert_eq!(document_file_name("notes.v2"), "notes.v2.json");
    assert_eq!(document_file_name("draft.json"), "draft.json.json");
}

#[test]
fn file_name_of_the_empty_name_is_the_suffix() {
    assert_eq!(document_file_name(""), ".json");
}

#[test]
fn file_name_keeps_characters_outside_ascii() {
    assert_eq!(document_file_name("caf\u{e9} \u{1f4dd}"), "caf\u{e9} \u{1f4dd}.json");
}

#[test]
fn document_name_strips_the_suffix() {
    assert_eq!(document_name("draft1.json"), Some("draft1".to_string()));
    assert_eq!(document_name("notes.v2.json"), Some("notes.v2".to_string()));
}

#[test]
fn document_name_of_the_bare_suffix_is_empty() {
    assert_eq!(document_name(".json"), Some(String::new()));
}

#[test]
fn document_name_skips_other_files() {
    assert_eq!(document_name("notes.txt"), None);
    assert_eq!(document_name("draft1"), None);
    assert_eq!(document_name("json"), None);
    assert_eq!(document_name(""), None);
    assert_eq!(document_name("draft1.json.bak"), None);
    assert_eq!(document_name(".DS_Store"), None);
}

#[test]
fn document_name_is_case_sensitive() {
    assert_eq!(document_name("draft1.JSON"), None);
    assert_eq!(document_name("draft1.Json"), None);
}

#[test]
fn document_name_counts_characters_not_bytes() {
    assert_eq!(document_name("\u{e9}t\u{e9}.json"), Some("\u{e9}t\u{e9}".to_string()));
    assert_eq!(document_name("\u{1f4dd}.json"), Some("\u{1f4dd}".to_string()));
    assert_eq!(document_name("\u{e9}\u{e9}\u{e9}\u{e9}"), None);
    assert_eq!(document_name("\u{1f4dd}json"), None);
}

#[test]
fn document_name_inverts_file_name() {
    for name in ["draft1", "", "a.b", ".json", "x/y", "caf\u{e9}", "two words", "."] {
        assert_eq!(document_name(&document_file_name(name)), Some(name.to_string()));
    }
}

#[test]
fn file_names_of_different_names_differ() {
    let names = ["draft1", "draft2", "", "draft1.json", "Draft1", "draft1 "];
    for a in names {
        for b in names {
            assert_eq!(document_file_name(a) == document_file_name(b), a == b);
        }
    }
}

#[test]
fn names_without_separators_are_valid() {
    assert!(is_valid_name("draft1"));
    assert!(is_valid_name(""));
    assert!(is_valid_name("notes.v2"));
    assert!(is_valid_name(".."));
    assert!(is_valid_name("caf\u{e9}"));
}

#[test]
fn names_with_separators_are_not_valid() {
    assert!(!is_valid_name("a/b"));
    assert!(!is_valid_name("a\\b"));
    assert!(!is_valid_name("../secret"));
    assert!(!is_valid_name("/"));
    assert!(!is_valid_name("trailing\\"));
}

#[test]
fn document_with_valid_name_and_positive_size_is_valid() {
    assert!(sample().is_valid());
    let mut smallest = sample();
    smallest.font_size = 1;
    assert!(smallest.is_valid());
    let mut largest = sample();
    largest.font_size = u32::MAX;
    assert!(largest.is_valid());
}

#[test]
fn document_with_zero_font_size_is_not_valid() {
    let mut file = sample();
    file.font_size = 0;
    assert!(!file.is_valid());
}

#[test]
fn document_with_separator_in_name_is_not_valid() {
    let mut file = sample();
    file.name = "sub/draft1".to_string();
    assert!(!file.is_valid());
}

#[test]
fn clone_keeps_all_five_fields() {
    let file = sample();
    let copy = file.clone();
    assert_eq!(copy.name, "draft1");
    assert_eq!(copy.text, "hello");
    assert_eq!(copy.font, "Serif");
    assert_eq!(copy.font_size, 14);
    assert_eq!(copy.theme, "light");
    assert_eq!(copy, file);
}
