use sidex::mime::{build_mime_map, cache_control, content_type, is_immutable_asset};

#[test]
fn mime_map_has_the_table() {
    let m = build_mime_map();
    assert_eq!(m.len(), 21);
    assert_eq!(m.get("html"), Some("text/html; charset=utf-8"));
    assert_eq!(m.get("htm"), Some("text/html; charset=utf-8"));
    assert_eq!(m.get("js"), Some("application/javascript; charset=utf-8"));
    assert_eq!(m.get("mjs"), Some("application/javascript; charset=utf-8"));
    assert_eq!(m.get("wasm"), Some("application/wasm"));
    assert_eq!(m.get("svg"), Some("image/svg+xml"));
    assert_eq!(m.get("jpeg"), Some("image/jpeg"));
    assert_eq!(m.get("ico"), Some("image/x-icon"));
    assert_eq!(m.get("woff2"), Some("font/woff2"));
    assert_eq!(m.get("map"), Some("application/json"));
    assert_eq!(m.get("xml"), Some("application/xml; charset=utf-8"));
}

#[test]
fn mime_map_is_case_sensitive_and_exact() {
    let m = build_mime_map();
    assert_eq!(m.get("HTML"), None);
    assert_eq!(m.get("exe"), None);
    assert_eq!(m.get(""), None);
    assert_eq!(m.get("jsx"), None);
}

#[test]
fn law_mime_keys_distinct_on_table() {
    let keys = ["html", "htm", "css", "js", "mjs", "json", "wasm", "svg", "png", "jpg", "jpeg", "gif",
        "ico", "webp", "ttf", "otf", "woff", "woff2", "map", "txt", "xml"];
    let m = build_mime_map();
    for k in keys {
        assert!(m.get(k).is_some(), "{k}");
    }
    let mut sorted = keys.to_vec();
    sorted.sort();
    sorted.dedup();
    assert_eq!(sorted.len(), keys.len());
}

#[test]
fn unknown_extension_is_octet_stream() {
    let m = build_mime_map();
    assert_eq!(content_type(&m, "bin"), "application/octet-stream");
    assert_eq!(content_type(&m, ""), "application/octet-stream");
    assert_eq!(content_type(&m, "css"), "text/css; charset=utf-8");
}

#[test]
fn immutable_assets() {
    assert!(is_immutable_asset("js", "/assets/index-123.js"));
    assert!(is_immutable_asset("", "/assets/"));
    assert!(is_immutable_asset("woff", "/fonts/a.woff"));
    assert!(is_immutable_asset("woff2", "/x"));
    assert!(is_immutable_asset("ttf", "/x"));
    assert!(is_immutable_asset("otf", "/x"));
    assert!(!is_immutable_asset("js", "/assets"));
    assert!(!is_immutable_asset("html", "/index.html"));
    assert!(!is_immutable_asset("js", "/static/assets/a.js"));
    assert!(!is_immutable_asset("WOFF", "/x"));
}

#[test]
fn cache_control_values() {
    assert_eq!(cache_control("js", "/assets/a.js"), "public, max-age=31536000, immutable");
    assert_eq!(cache_control("html", "/"), "no-cache");
}

#[test]
fn law_font_types_are_cached_for_good_concrete() {
    let keys = ["html", "htm", "css", "js", "mjs", "json", "wasm", "svg", "png", "jpg", "jpeg", "gif",
        "ico", "webp", "ttf", "otf", "woff", "woff2", "map", "txt", "xml"];
    let m = build_mime_map();
    for k in keys {
        let font = m.get(k).unwrap().starts_with("font/");
        assert_eq!(font, is_immutable_asset(k, "/"), "{k}");
    }
}
