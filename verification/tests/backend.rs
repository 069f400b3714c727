use stellarust::api::get_json_file;
use stellarust::file_reader::FileReader;
use stellarust::server::{
    get_default_cors, server_target, url_to_socket_addrs, ParsedUrl, ServerError, SocketTarget, UrlHost,
    DEFAULT_SERVER_URL,
};
use stellarust::watch::{watch_message, FileOp, WatchEvent};

#[test]
fn close_write_broadcasts_the_path() {
    let e = WatchEvent::Notified { op: Ok(FileOp::CloseWrite), path: Some("/tmp/save.sav".to_string()) };
    assert_eq!(watch_message(&e), Some("/tmp/save.sav".to_string()));
}

#[test]
fn other_notifications_are_ignored() {
    let e = WatchEvent::Notified { op: Ok(FileOp::Other), path: Some("/tmp/a".to_string()) };
    assert_eq!(watch_message(&e), None);
    let e = WatchEvent::Notified { op: Err("watch failed".to_string()), path: None };
    assert_eq!(watch_message(&e), None);
    let e = WatchEvent::Notified { op: Ok(FileOp::Other), path: None };
    assert_eq!(watch_message(&e), None);
}

#[test]
fn receive_failures_are_broadcast() {
    let e = WatchEvent::ReceiveFailed("receiving on a closed channel".to_string());
    assert_eq!(watch_message(&e), Some("receiving on a closed channel".to_string()));
}

fn target(text: &str) -> Result<SocketTarget, ServerError> {
    server_target(text)
}

#[test]
fn default_url_listens_on_loopback_8000() {
    assert_eq!(DEFAULT_SERVER_URL, "http://127.0.0.1:8000");
    match target(DEFAULT_SERVER_URL) {
        Ok(SocketTarget::Ipv4 { octets, port }) => {
            assert_eq!(octets, [127, 0, 0, 1]);
            assert_eq!(port, 8000);
        }
        _ => panic!("expected an IPv4 target"),
    }
}

#[test]
fn domain_urls_are_resolved_later_with_default_port() {
    match target("http://example.com/path") {
        Ok(SocketTarget::Resolve { host, port }) => {
            assert_eq!(host, "example.com");
            assert_eq!(port, 80);
        }
        _ => panic!("expected a domain target"),
    }
    match target("https://Example.org:8443") {
        Ok(SocketTarget::Resolve { host, port }) => {
            assert_eq!(host, "example.org");
            assert_eq!(port, 8443);
        }
        _ => panic!("expected a domain target"),
    }
}

#[test]
fn ipv6_urls_give_one_address() {
    match target("http://[::1]:9000") {
        Ok(SocketTarget::Ipv6 { segments, port }) => {
            assert_eq!(segments, [0, 0, 0, 0, 0, 0, 0, 1]);
            assert_eq!(port, 9000);
        }
        _ => panic!("expected an IPv6 target"),
    }
}

#[test]
fn url_errors() {
    match target("foo://example.com") {
        Err(e @ ServerError::NoPort) => assert_eq!(e.message(), "No port in the URL"),
        _ => panic!("expected a missing port"),
    }
    match target("data:text/plain,hello") {
        Err(e @ ServerError::NoHost) => assert_eq!(e.message(), "No host name in the URL"),
        _ => panic!("expected a missing host"),
    }
    match target("not a url") {
        Err(e @ ServerError::InvalidUrl(_)) => assert_eq!(e.message(), "relative URL without a base"),
        _ => panic!("expected a parse error"),
    }
}

#[test]
fn socket_target_from_parts() {
    let url = ParsedUrl { host: Some(UrlHost::Ipv4([10, 0, 0, 2])), port: Some(1) };
    assert!(matches!(url_to_socket_addrs(&url), Ok(SocketTarget::Ipv4 { octets: [10, 0, 0, 2], port: 1 })));
    let url = ParsedUrl { host: None, port: None };
    assert!(matches!(url_to_socket_addrs(&url), Err(ServerError::NoHost)));
    let url = ParsedUrl { host: Some(UrlHost::Domain("h".to_string())), port: None };
    assert!(matches!(url_to_socket_addrs(&url), Err(ServerError::NoPort)));
}

#[test]
fn default_cors_policy() {
    let cors = get_default_cors();
    assert_eq!(cors.allowed_origins, vec!["http://localhost:3000", "http://127.0.0.1:3000"]);
    assert_eq!(cors.allowed_methods, vec!["GET"]);
    assert_eq!(cors.allowed_headers, vec!["authorization", "accept", "access-control-allow-origin"]);
    assert_eq!(cors.max_age_secs, 3600);
}

#[test]
fn json_get_payload() {
    let doc = get_json_file();
    assert_eq!(doc.name, "asdf");
    assert_eq!(doc.number, 3);
}

#[test]
fn file_reader_forwards_what_its_worker_reads() {
    let (paths_tx, paths_rx) = std::sync::mpsc::channel::<String>();
    paths_tx.send("a.txt".to_string()).unwrap();
    paths_tx.send("b.txt".to_string()).unwrap();
    let reader = FileReader::create(paths_rx, |paths, contents| {
        for path in paths.try_iter() {
            contents.send(format!("content of {}", path)).unwrap();
        }
    });
    assert_eq!(reader.rx.recv().unwrap(), "content of a.txt");
    assert_eq!(reader.rx.recv().unwrap(), "content of b.txt");
    assert!(reader.rx.try_recv().is_err());
}

#[test]
fn new_file_reader_is_one_open_channel() {
    let reader = FileReader::new();
    assert!(reader.rx.try_recv().is_err());
    reader.tx.send("x".to_string()).unwrap();
    assert_eq!(reader.rx.try_recv().unwrap(), "x");
}
