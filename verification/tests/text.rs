use bookmark_panel::text::{hash_tag, hash_tag_line, join, tag_entry_line};

fn tags(names: &[&str]) -> Vec<String> {
    names.iter().map(|name| name.to_string()).collect()
}

#[test]
fn tag_line_of_two_tags() {
    assert_eq!(hash_tag_line(&tags(&["rust", "gui"])), "#rust #gui");
}

#[test]
fn tag_line_of_one_tag_has_no_space() {
    assert_eq!(hash_tag_line(&tags(&["rust"])), "#rust");
}

#[test]
fn tag_line_of_no_tags_is_empty() {
    assert_eq!(hash_tag_line(&tags(&[])), "");
}

#[test]
fn tag_line_keeps_the_order_of_the_list() {
    assert_eq!(hash_tag_line(&tags(&["b", "a", "c"])), "#b #a #c");
}

#[test]
fn tag_line_keeps_a_space_inside_a_tag() {
    assert_eq!(hash_tag_line(&tags(&["two words", "x"])), "#two words #x");
}

#[test]
fn tag_line_keeps_an_empty_tag() {
    assert_eq!(hash_tag_line(&tags(&["", "x", ""])), "# #x #");
}

#[test]
fn hash_tag_puts_the_sign_in_front() {
    assert_eq!(hash_tag("rust"), "#rust");
    assert_eq!(hash_tag(""), "#");
    assert_eq!(hash_tag("#rust"), "##rust");
}

#[test]
fn tag_entry_joins_with_spaces() {
    assert_eq!(tag_entry_line(&tags(&["rust", "gui"])), "rust gui");
    assert_eq!(tag_entry_line(&tags(&["rust"])), "rust");
    assert_eq!(tag_entry_line(&tags(&[])), "");
}

#[test]
fn join_puts_the_separator_between_neighbours() {
    assert_eq!(join(&tags(&["a", "b", "c"]), ", "), "a, b, c");
    assert_eq!(join(&tags(&["a"]), ", "), "a");
    assert_eq!(join(&tags(&[]), ", "), "");
    assert_eq!(join(&tags(&["a", "b"]), ""), "ab");
}

#[test]
fn join_agrees_with_the_standard_library() {
    let parts = tags(&["alpha", "", "beta gamma", "ß"]);
    assert_eq!(join(&parts, " "), parts.join(" "));
    assert_eq!(join(&parts, "--"), parts.join("--"));
}
