use sidex::http::reply_headers;
use sidex::mime::build_mime_map;
use sidex::serve::{path_within, Action, Event, Exchange, FileKind, Location, Reply};

fn comps(parts: &[&str]) -> Vec<Vec<u8>> {
    parts.iter().map(|p| p.as_bytes().to_vec()).collect()
}

/// Feeds the events in order and returns every action taken.
fn drive(url: &str, events: Vec<Event>) -> (Exchange, Vec<Action>) {
    let map = build_mime_map();
    let (mut ex, first) = Exchange::begin(url);
    let mut actions = vec![first];
    for e in events {
        assert!(ex.accepts(&e));
        let (next, a) = ex.step(&map, e);
        ex = next;
        actions.push(a);
    }
    (ex, actions)
}

#[test]
fn begin_inspects_requested_path() {
    let (ex, a) = Exchange::begin("/app/main.js?v=2");
    assert_eq!(a, Action::Inspect(Location::Requested));
    assert_eq!(ex.url_path(), "/app/main.js");
    assert_eq!(ex.relative(), "app/main.js");
    assert!(!ex.is_done());
}

#[test]
fn serves_existing_file() {
    let (ex, actions) = drive(
        "/assets/app.js",
        vec![
            Event::Kind(FileKind::File),
            Event::IsFile(true),
            Event::Canonical(Some(comps(&["/", "srv", "assets", "app.js"]))),
            Event::RootCanonical(Some(comps(&["/", "srv"]))),
            Event::Loaded { data: Some(b"x".to_vec()), extension: "js".to_string() },
        ],
    );
    assert_eq!(
        actions,
        vec![
            Action::Inspect(Location::Requested),
            Action::CheckFile(Location::Requested),
            Action::Canonicalize(Location::Requested),
            Action::CanonicalizeRoot,
            Action::Read(Location::Requested),
            Action::Respond(Reply::File {
                data: b"x".to_vec(),
                content_type: "application/javascript; charset=utf-8",
                cache_control: "public, max-age=31536000, immutable",
            }),
        ]
    );
    assert!(ex.is_done());
}

#[test]
fn directory_with_index_serves_it() {
    let (_, actions) = drive(
        "/docs/",
        vec![
            Event::Kind(FileKind::Directory),
            Event::IsFile(true),
            Event::IsFile(true),
            Event::Canonical(Some(comps(&["/", "srv", "docs", "index.html"]))),
            Event::RootCanonical(Some(comps(&["/", "srv"]))),
            Event::Loaded { data: Some(vec![1, 2]), extension: "html".to_string() },
        ],
    );
    assert_eq!(actions[1], Action::CheckFile(Location::RequestedIndex));
    assert_eq!(actions[2], Action::CheckFile(Location::RequestedIndex));
    assert_eq!(actions[5], Action::Read(Location::RequestedIndex));
    assert_eq!(
        actions[6],
        Action::Respond(Reply::File {
            data: vec![1, 2],
            content_type: "text/html; charset=utf-8",
            cache_control: "no-cache",
        })
    );
}

#[test]
fn directory_without_index_falls_back_to_root_index() {
    let (_, actions) = drive("/docs", vec![Event::Kind(FileKind::Directory), Event::IsFile(false)]);
    assert_eq!(actions[2], Action::CheckFile(Location::RootIndex));
}

#[test]
fn missing_path_falls_back_to_root_index() {
    let (_, actions) = drive("/settings/profile", vec![Event::Kind(FileKind::Missing)]);
    assert_eq!(actions[1], Action::CheckFile(Location::RootIndex));
}

#[test]
fn missing_root_index_is_not_found() {
    let (ex, actions) = drive("/x", vec![Event::Kind(FileKind::Missing), Event::IsFile(false)]);
    assert_eq!(actions.last(), Some(&Action::Respond(Reply::NotFound)));
    assert!(ex.is_done());
}

#[test]
fn canonicalize_failure_is_not_found() {
    let (_, actions) = drive(
        "/a.txt",
        vec![Event::Kind(FileKind::File), Event::IsFile(true), Event::Canonical(None)],
    );
    assert_eq!(actions.last(), Some(&Action::Respond(Reply::NotFound)));
}

#[test]
fn outside_root_is_forbidden() {
    let (_, actions) = drive(
        "/..%2F..%2Fetc%2Fpasswd",
        vec![
            Event::Kind(FileKind::File),
            Event::IsFile(true),
            Event::Canonical(Some(comps(&["/", "etc", "passwd"]))),
            Event::RootCanonical(Some(comps(&["/", "srv", "app"]))),
        ],
    );
    assert_eq!(actions.last(), Some(&Action::Respond(Reply::Forbidden)));
}

#[test]
fn sibling_with_common_prefix_is_forbidden() {
    // "/srv/app-secret" is not inside "/srv/app": whole components count.
    let (_, actions) = drive(
        "/x",
        vec![
            Event::Kind(FileKind::File),
            Event::IsFile(true),
            Event::Canonical(Some(comps(&["/", "srv", "app-secret", "x"]))),
            Event::RootCanonical(Some(comps(&["/", "srv", "app"]))),
        ],
    );
    assert_eq!(actions.last(), Some(&Action::Respond(Reply::Forbidden)));
}

#[test]
fn unresolvable_root_skips_the_check() {
    let (_, actions) = drive(
        "/a.txt",
        vec![
            Event::Kind(FileKind::File),
            Event::IsFile(true),
            Event::Canonical(Some(comps(&["/", "elsewhere", "a.txt"]))),
            Event::RootCanonical(None),
        ],
    );
    assert_eq!(actions.last(), Some(&Action::Read(Location::Requested)));
}

#[test]
fn read_failure_is_internal_error() {
    let (_, actions) = drive(
        "/a.txt",
        vec![
            Event::Kind(FileKind::File),
            Event::IsFile(true),
            Event::Canonical(Some(comps(&["/", "srv", "a.txt"]))),
            Event::RootCanonical(Some(comps(&["/", "srv"]))),
            Event::Loaded { data: None, extension: "txt".to_string() },
        ],
    );
    assert_eq!(actions.last(), Some(&Action::Respond(Reply::InternalError)));
}

#[test]
fn unknown_extension_served_as_octet_stream() {
    let (_, actions) = drive(
        "/blob.bin",
        vec![
            Event::Kind(FileKind::File),
            Event::IsFile(true),
            Event::Canonical(Some(comps(&["/", "srv", "blob.bin"]))),
            Event::RootCanonical(Some(comps(&["/", "srv"]))),
            Event::Loaded { data: Some(vec![]), extension: "bin".to_string() },
        ],
    );
    assert_eq!(
        actions.last(),
        Some(&Action::Respond(Reply::File {
            data: vec![],
            content_type: "application/octet-stream",
            cache_control: "no-cache",
        }))
    );
}

#[test]
fn accepts_only_the_expected_answer() {
    let (ex, _) = Exchange::begin("/");
    assert!(ex.accepts(&Event::Kind(FileKind::File)));
    assert!(!ex.accepts(&Event::IsFile(true)));
    assert!(!ex.accepts(&Event::Canonical(None)));
    let (done, _) = drive("/x", vec![Event::Kind(FileKind::Missing), Event::IsFile(false)]);
    assert!(!done.accepts(&Event::IsFile(true)));
    assert!(!done.accepts(&Event::Kind(FileKind::File)));
}

#[test]
fn law_exchange_is_short_on_longest_path() {
    let (ex, actions) = drive(
        "/d",
        vec![
            Event::Kind(FileKind::Directory),
            Event::IsFile(true),
            Event::IsFile(true),
            Event::Canonical(Some(comps(&["/", "r", "d", "index.html"]))),
            Event::RootCanonical(Some(comps(&["/", "r"]))),
            Event::Loaded { data: Some(vec![0]), extension: "html".to_string() },
        ],
    );
    assert_eq!(actions.len(), 7);
    assert!(ex.is_done());
    assert!(matches!(actions.last(), Some(Action::Respond(_))));
}

#[test]
fn segments_of_locations() {
    let (ex, _) = Exchange::begin("/docs/a%20b.txt");
    assert_eq!(ex.segments(Location::Requested), vec!["docs/a b.txt".to_string()]);
    assert_eq!(
        ex.segments(Location::RequestedIndex),
        vec!["docs/a b.txt".to_string(), "index.html".to_string()]
    );
    assert_eq!(ex.segments(Location::RootIndex), vec!["index.html".to_string()]);
    let (root, _) = Exchange::begin("/");
    assert_eq!(root.segments(Location::Requested), vec!["index.html".to_string()]);
    assert_eq!(
        root.segments(Location::RequestedIndex),
        vec!["index.html".to_string(), "index.html".to_string()]
    );
}

#[test]
fn path_within_compares_components() {
    assert!(path_within(&comps(&["/", "a"]), &comps(&["/", "a", "b"])));
    assert!(path_within(&comps(&["/", "a"]), &comps(&["/", "a"])));
    assert!(!path_within(&comps(&["/", "a"]), &comps(&["/", "ab"])));
    assert!(!path_within(&comps(&["/", "a", "b"]), &comps(&["/", "a"])));
    assert!(path_within(&comps(&[]), &comps(&["/"])));
}

#[test]
fn reply_status_message_and_headers() {
    assert_eq!(Reply::NotFound.status(), 404);
    assert_eq!(Reply::Forbidden.status(), 403);
    assert_eq!(Reply::InternalError.status(), 500);
    assert_eq!(Reply::NotFound.message(), Some("Not Found"));
    assert_eq!(Reply::Forbidden.message(), Some("Forbidden"));
    assert_eq!(Reply::InternalError.message(), Some("Internal Server Error"));
    assert!(Reply::NotFound.header_fields().is_empty());
    let f = Reply::File { data: vec![], content_type: "image/png", cache_control: "no-cache" };
    assert_eq!(f.status(), 200);
    assert_eq!(f.message(), None);
    assert_eq!(
        f.header_fields(),
        vec![
            ("Content-Type", "image/png"),
            ("Cache-Control", "no-cache"),
            ("Access-Control-Allow-Origin", "*"),
        ]
    );
}

#[test]
fn tiny_http_headers_for_replies() {
    let f = Reply::File { data: vec![], content_type: "image/png", cache_control: "no-cache" };
    let hs = reply_headers(&f).unwrap();
    assert_eq!(hs.len(), 3);
    assert_eq!(hs[0].field.as_str().as_str(), "Content-Type");
    assert_eq!(hs[0].value.as_str(), "image/png");
    assert_eq!(hs[1].field.as_str().as_str(), "Cache-Control");
    assert_eq!(hs[1].value.as_str(), "no-cache");
    assert_eq!(hs[2].field.as_str().as_str(), "Access-Control-Allow-Origin");
    assert_eq!(hs[2].value.as_str(), "*");
    assert!(reply_headers(&Reply::NotFound).unwrap().is_empty());
}

#[test]
fn non_ascii_header_value_is_refused() {
    let f = Reply::File { data: vec![], content_type: "tëxt/plain", cache_control: "no-cache" };
    assert!(reply_headers(&f).is_err());
}

#[test]
fn law_ascii_headers_for_every_table_entry() {
    let m = build_mime_map();
    for ext in ["html", "css", "js", "svg", "woff2", "map", "unknown", ""] {
        for url in ["/", "/assets/x"] {
            let (_, actions) = drive(
                url,
                vec![
                    Event::Kind(FileKind::File),
                    Event::IsFile(true),
                    Event::Canonical(Some(comps(&["/", "r", "x"]))),
                    Event::RootCanonical(Some(comps(&["/", "r"]))),
                    Event::Loaded { data: Some(vec![]), extension: ext.to_string() },
                ],
            );
            if let Some(Action::Respond(reply)) = actions.last() {
                assert!(reply_headers(reply).is_ok());
            } else {
                panic!("no reply");
            }
        }
    }
    assert_eq!(m.len(), 21);
}
