use json_colorizer::layout::{indent, layout_array, layout_object};

fn texts(parts: &[&str]) -> Vec<String> {
    parts.iter().map(|part| part.to_string()).collect()
}

#[test]
fn indent_leaves_a_single_line_alone() {
    assert_eq!(indent("abc"), "abc");
    assert_eq!(indent(""), "");
}

#[test]
fn indent_adds_two_spaces_after_each_line_break() {
    assert_eq!(indent("a\nb"), "a\n  b");
    assert_eq!(indent("\n"), "\n  ");
    assert_eq!(indent("[\n  1,\n  2\n]"), "[\n    1,\n    2\n  ]");
    assert_eq!(indent("\n\n"), "\n  \n  ");
}

#[test]
fn indent_keeps_text_beyond_ascii() {
    assert_eq!(indent("é\nλ→\u{1F600}"), "é\n  λ→\u{1F600}");
}

#[test]
fn empty_array_is_two_brackets_around_an_empty_line() {
    assert_eq!(layout_array(&Vec::new()), "[\n\n]");
}

#[test]
fn empty_object_is_two_braces_around_an_empty_line() {
    assert_eq!(layout_object(&Vec::new()), "{\n\n}");
}

#[test]
fn array_of_one_has_no_comma() {
    assert_eq!(layout_array(&texts(&["1"])), "[\n  1\n]");
}

#[test]
fn array_elements_are_separated_by_comma_and_line_break() {
    assert_eq!(layout_array(&texts(&["1", "two", "3"])), "[\n  1,\n  two,\n  3\n]");
}

#[test]
fn array_indents_the_inner_lines_of_an_element() {
    assert_eq!(
        layout_array(&texts(&["[\n  1\n]", "x"])),
        "[\n  [\n    1\n  ],\n  x\n]"
    );
}

#[test]
fn object_members_are_quoted_key_colon_space_value() {
    let members = vec![("k".to_string(), "v".to_string())];
    assert_eq!(layout_object(&members), "{\n  \"k\": v\n}");
}

#[test]
fn object_members_are_separated_and_indented() {
    let members = vec![
        ("a".to_string(), "{\n  \"x\": 1\n}".to_string()),
        ("b".to_string(), "2".to_string()),
    ];
    assert_eq!(
        layout_object(&members),
        "{\n  \"a\": {\n    \"x\": 1\n  },\n  \"b\": 2\n}"
    );
}

#[test]
fn object_key_is_not_indented_or_escaped() {
    let members = vec![("a\n\"b".to_string(), "v".to_string())];
    assert_eq!(layout_object(&members), "{\n  \"a\n\"b\": v\n}");
}
