use rocker::text::trim_end_of;
use rocker::text::trim_of;
use rocker::text::trim_start_of;

#[test]
fn trim_end_removes_trailing_whitespace() {
    assert_eq!(trim_end_of("x \t\r\n"), "x");
    assert_eq!(trim_end_of("no-trailing"), "no-trailing");
    assert_eq!(trim_end_of("  inner kept  "), "  inner kept");
}

#[test]
fn trim_start_removes_leading_whitespace() {
    assert_eq!(trim_start_of("\n\t x"), "x");
    assert_eq!(trim_start_of("kept  "), "kept  ");
}

#[test]
fn trim_removes_both_ends() {
    assert_eq!(trim_of("  abc123\n"), "abc123");
    assert_eq!(trim_of("a b"), "a b");
}

#[test]
fn trim_of_all_whitespace_is_empty() {
    assert_eq!(trim_of(" \t\r\n"), "");
    assert_eq!(trim_of(""), "");
    assert_eq!(trim_end_of(""), "");
    assert_eq!(trim_start_of(""), "");
}
