use sidex::request::{relative_path, request_path, trim_leading_slashes};

#[test]
fn request_path_drops_query() {
    assert_eq!(request_path("/a/b?x=1&y=2"), "/a/b");
    assert_eq!(request_path("/a/b"), "/a/b");
    assert_eq!(request_path("?only"), "");
    assert_eq!(request_path("/p?q?r"), "/p");
}

#[test]
fn trims_only_leading_slashes() {
    assert_eq!(trim_leading_slashes("///a/b/"), "a/b/");
    assert_eq!(trim_leading_slashes("a"), "a");
    assert_eq!(trim_leading_slashes("//"), "");
}

#[test]
fn relative_path_decodes_then_trims() {
    assert_eq!(relative_path("/"), "");
    assert_eq!(relative_path("/index.html?v=3"), "index.html");
    assert_eq!(relative_path("/%2Fetc/passwd"), "etc/passwd");
    assert_eq!(relative_path("/My%20Docs/a.txt"), "My Docs/a.txt");
    // The query is cut before decoding, so an encoded '?' stays in the path.
    assert_eq!(relative_path("/a%3Fb?c"), "a?b");
}

#[test]
fn law_relative_path_is_not_absolute_on_samples() {
    for url in ["///%2F%2Fx", "/%2F", "//", "/a/b", "%2F%2Fetc", "?/x"] {
        let r = relative_path(url);
        assert!(!r.starts_with('/'), "{url} -> {r}");
    }
    assert_eq!(relative_path("///%2F%2Fx"), "x");
}
