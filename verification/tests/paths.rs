use tofuya::base::path::{path_join, trim_start_matches};

#[test]
fn path_join_cases() {
    assert_eq!(path_join("/a/b", "c"), "/a/b/c");
    assert_eq!(path_join("/a/b/", "c"), "/a/b/c");
    assert_eq!(path_join("", "c"), "c");
    assert_eq!(path_join("/a", "/abs"), "/abs");
    assert_eq!(path_join("a", ""), "a/");
}

#[test]
fn trim_start_matches_cases() {
    assert_eq!(trim_start_matches("file:///tmp/x", "file://"), "/tmp/x");
    assert_eq!(trim_start_matches("file://file://x", "file://"), "x");
    assert_eq!(trim_start_matches("./x", "file://"), "./x");
    assert_eq!(trim_start_matches("abc", ""), "abc");
    assert_eq!(trim_start_matches("ababc", "ab"), "c");
}
