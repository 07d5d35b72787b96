use deployer_core::strutil::{
    is_blank, join_lines, path_join, replace_all, split_lines, str_eq, usize_to_string,
};

#[test]
fn replace_single_occurrence() {
    assert_eq!(replace_all("echo X", "X", "hello"), "echo hello");
}

#[test]
fn replace_every_occurrence() {
    assert_eq!(replace_all("X and X and X", "X", "y"), "y and y and y");
}

#[test]
fn replace_no_occurrence_keeps_text() {
    assert_eq!(replace_all("echo hello", "Z", "y"), "echo hello");
}

#[test]
fn replace_empty_pattern_keeps_text() {
    assert_eq!(replace_all("abc", "", "y"), "abc");
}

#[test]
fn replace_is_not_recursive() {
    assert_eq!(replace_all("aa", "a", "ab"), "abab");
}

#[test]
fn replace_multichar_pattern() {
    assert_eq!(replace_all("cp <in> <out>", "<in>", "src.txt"), "cp src.txt <out>");
}

#[test]
fn split_plain_lines() {
    assert_eq!(split_lines("a\nb\nc"), vec!["a", "b", "c"]);
}

#[test]
fn split_trailing_newline_gives_empty_final_line() {
    assert_eq!(split_lines("a\n"), vec!["a", ""]);
}

#[test]
fn split_empty_string_is_one_empty_line() {
    assert_eq!(split_lines(""), vec![""]);
}

#[test]
fn join_inverts_split_without_trailing_newline() {
    let lines = split_lines("one\ntwo\nthree");
    assert_eq!(join_lines(&lines), "one\ntwo\nthree");
}

#[test]
fn join_empty_list_is_empty() {
    assert_eq!(join_lines(&vec![]), "");
}

#[test]
fn blank_detection() {
    assert!(is_blank(""));
    assert!(is_blank(" \t\r\n"));
    assert!(!is_blank("  x "));
}

#[test]
fn path_join_inserts_separator() {
    assert_eq!(path_join("/tmp/build", "out/bin"), "/tmp/build/out/bin");
}

#[test]
fn path_join_keeps_existing_separator() {
    assert_eq!(path_join("/tmp/build/", "out"), "/tmp/build/out");
}

#[test]
fn path_join_empty_base_is_relative() {
    assert_eq!(path_join("", "out"), "out");
}

#[test]
fn decimal_rendering() {
    assert_eq!(usize_to_string(0), "0");
    assert_eq!(usize_to_string(7), "7");
    assert_eq!(usize_to_string(10), "10");
    assert_eq!(usize_to_string(90107), "90107");
}

#[test]
fn str_eq_compares_content() {
    assert!(str_eq("abc", "abc"));
    assert!(!str_eq("abc", "abd"));
    assert!(!str_eq("abc", "ab"));
}
