use sidex::server::StaticFileServer;

#[test]
fn url_and_address() {
    let s = StaticFileServer::new(8080);
    assert_eq!(s.port(), 8080);
    assert_eq!(s.bind_address(), "127.0.0.1:8080");
    assert_eq!(s.url(), "http://127.0.0.1:8080");
}

#[test]
fn url_edge_ports() {
    assert_eq!(StaticFileServer::new(0).url(), "http://127.0.0.1:0");
    assert_eq!(StaticFileServer::new(9).url(), "http://127.0.0.1:9");
    assert_eq!(StaticFileServer::new(10).url(), "http://127.0.0.1:10");
    assert_eq!(StaticFileServer::new(65535).url(), "http://127.0.0.1:65535");
}

#[test]
fn url_matches_format_for_many_ports() {
    for p in (0..=65535u32).step_by(97) {
        let p = p as u16;
        assert_eq!(StaticFileServer::new(p).url(), format!("http://127.0.0.1:{}", p));
    }
}
