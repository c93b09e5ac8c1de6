use tracing_glog::path::{display_path, format_path, strip_prefix, trim_directory};

#[test]
fn untouched_path_is_path_colon_line() {
    assert_eq!(format_path("src/server/listen.rs", 7, false, None), "src/server/listen.rs:7");
    assert_eq!(format_path("", 0, false, None), ":0");
    assert_eq!(format_path("/abs//odd/", 4294967295, false, None), "/abs//odd/:4294967295");
}

#[test]
fn directory_trim_keeps_the_last_segment() {
    assert_eq!(format_path("a/b/c.rs", 10, true, None), "c.rs:10");
}

#[test]
fn directory_trim_of_a_bare_file_name() {
    assert_eq!(format_path("c.rs", 3, true, None), "c.rs:3");
    assert_eq!(trim_directory("c.rs"), "c.rs");
}

#[test]
fn directory_trim_after_a_trailing_separator_is_empty() {
    assert_eq!(trim_directory("a/b/"), "");
    assert_eq!(trim_directory(""), "");
    assert_eq!(trim_directory("/"), "");
}

#[test]
fn strip_prefix_of_the_leading_segment() {
    assert_eq!(
        format_path("examples/first_module/mod.rs", 12, false, Some("examples")),
        "first_module/mod.rs:12"
    );
}

#[test]
fn strip_prefix_of_a_partial_segment_changes_nothing() {
    assert_eq!(
        format_path("examples/first_module/mod.rs", 12, false, Some("exampl")),
        "examples/first_module/mod.rs:12"
    );
    assert_eq!(strip_prefix("examples/first_module/mod.rs", "exampl"), None);
    assert_eq!(strip_prefix("examples/first_module/mod.rs", "xamples"), None);
    assert_eq!(strip_prefix("examples/first_module/mod.rs", "first"), None);
}

#[test]
fn strip_prefix_that_fails_falls_back_to_directory_trim() {
    assert_eq!(
        format_path("examples/first_module/mod.rs", 12, true, Some("exampl")),
        "mod.rs:12"
    );
}

#[test]
fn strip_prefix_wins_over_directory_trim() {
    assert_eq!(
        format_path("examples/first_module/mod.rs", 12, true, Some("examples")),
        "first_module/mod.rs:12"
    );
}

#[test]
fn strip_prefix_of_an_inner_segment() {
    assert_eq!(strip_prefix("work/examples/first_module/mod.rs", "examples"), Some("first_module/mod.rs"));
    assert_eq!(strip_prefix("work/examples/first_module/mod.rs", "first_module"), Some("mod.rs"));
}

#[test]
fn strip_prefix_takes_the_first_of_two_equal_segments() {
    assert_eq!(strip_prefix("a/src/b/src/c.rs", "src"), Some("b/src/c.rs"));
}

#[test]
fn strip_prefix_of_the_last_segment_leaves_nothing() {
    assert_eq!(strip_prefix("a/b/c.rs", "c.rs"), Some(""));
    assert_eq!(format_path("a/b/c.rs", 5, false, Some("c.rs")), ":5");
}

#[test]
fn strip_prefix_of_the_whole_path() {
    assert_eq!(strip_prefix("examples", "examples"), Some(""));
}

#[test]
fn empty_strip_prefix_matches_nothing() {
    assert_eq!(strip_prefix("a/b/c.rs", ""), None);
    assert_eq!(strip_prefix("/a//b", ""), None);
    assert_eq!(strip_prefix("", ""), None);
    assert_eq!(format_path("a/b/c.rs", 1, false, Some("")), "a/b/c.rs:1");
}

#[test]
fn strip_prefix_with_a_separator_matches_nothing() {
    assert_eq!(strip_prefix("examples/first_module/mod.rs", "examples/first_module"), None);
    assert_eq!(strip_prefix("examples/first_module/mod.rs", "examples/"), None);
}

#[test]
fn strip_prefix_longer_than_the_path() {
    assert_eq!(strip_prefix("ab", "abc"), None);
}

#[test]
fn strip_prefix_with_letters_beyond_ascii() {
    assert_eq!(strip_prefix("größe/übung/mod.rs", "größe"), Some("übung/mod.rs"));
    assert_eq!(strip_prefix("größe/übung/mod.rs", "übung"), Some("mod.rs"));
    assert_eq!(trim_directory("größe/übung/möd.rs"), "möd.rs");
}

#[test]
fn display_path_without_rules_is_the_path() {
    assert_eq!(display_path("a/b/c.rs", false, None), "a/b/c.rs");
    assert_eq!(display_path("a/b/c.rs", true, None), "c.rs");
    assert_eq!(display_path("a/b/c.rs", false, Some("a")), "b/c.rs");
    assert_eq!(display_path("a/b/c.rs", false, Some("z")), "a/b/c.rs");
}
