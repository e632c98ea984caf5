use simulacra::types::path_matches_prefix;

#[test]
fn empty_prefix_matches_anything() {
    assert!(path_matches_prefix("/foo/bar", ""));
    assert!(path_matches_prefix("/", ""));
}

#[test]
fn root_prefix_matches_anything() {
    assert!(path_matches_prefix("/foo/bar", "/"));
    assert!(path_matches_prefix("/anything", "/"));
}

#[test]
fn segment_aware_prefix_accepts_exact_match() {
    assert!(path_matches_prefix("/foo", "/foo"));
}

#[test]
fn segment_aware_prefix_accepts_child_paths() {
    assert!(path_matches_prefix("/foo/bar", "/foo"));
    assert!(path_matches_prefix("/foo/bar/baz", "/foo"));
}

#[test]
fn segment_aware_prefix_rejects_sibling_with_shared_byte_prefix() {
    assert!(!path_matches_prefix("/foobar", "/foo"));
    assert!(!path_matches_prefix("/foobar/baz", "/foo"));
}

#[test]
fn trailing_slash_on_prefix_is_normalized() {
    assert!(path_matches_prefix("/foo", "/foo/"));
    assert!(path_matches_prefix("/foo/bar", "/foo/"));
    assert!(!path_matches_prefix("/foobar", "/foo/"));
}

#[test]
fn unicode_paths_match_segment_aware() {
    assert!(path_matches_prefix(
        "/résumé/draft.md",
        "/résumé"
    ));
    assert!(path_matches_prefix("/résumé", "/résumé"));
    assert!(!path_matches_prefix("/résumés", "/résumé"));
}

#[test]
fn a_prefix_of_slashes_only_matches_anything() {
    assert!(path_matches_prefix("/foo", "//"));
    assert!(path_matches_prefix("/", "///"));
}
