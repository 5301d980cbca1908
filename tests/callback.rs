use playlist_migrate::request::parse_callback;
use playlist_migrate::request::Provider;
use playlist_migrate::response::callback_response;
use playlist_migrate::response::render_decimal;
use playlist_migrate::server::Server;
use playlist_migrate::slot::CodeSlot;

fn raw(first_line: &str) -> Vec<u8> {
    format!("{first_line}\r\nHost: localhost:8080\r\nAccept: */*\r\n\r\n").into_bytes()
}

#[test]
fn spotify_code_is_exactly_the_query_value() {
    let mut server = Server::new();
    let step = server.on_request(&raw("GET /Spotify?code=abc123 HTTP/1.1"));
    assert_eq!(server.spotify_code(), Some(b"abc123".to_vec()));
    assert!(server.spotify_received());
    assert!(!server.deezer_received());
    assert_eq!(server.deezer_code(), None);
    assert!(!step.stop);
    assert!(step.reply.is_some());
}

#[test]
fn deezer_callback_fills_only_the_deezer_slot() {
    let mut server = Server::new();
    let step = server.on_request(&raw("GET /Deezer?code=fr-42_x HTTP/1.1"));
    assert_eq!(server.deezer_code(), Some(b"fr-42_x".to_vec()));
    assert!(server.deezer_received());
    assert!(!server.spotify_received());
    assert_eq!(server.spotify_code(), None);
    assert!(!step.stop);
}

#[test]
fn deezer_then_spotify_stops_after_second() {
    let mut server = Server::new();
    let first = server.on_request(&raw("GET /Deezer?code=d1 HTTP/1.1"));
    assert!(!first.stop);
    let second = server.on_request(&raw("GET /Spotify?code=s1 HTTP/1.1"));
    assert!(second.stop);
    assert!(server.is_finished());
    assert_eq!(server.deezer_code(), Some(b"d1".to_vec()));
    assert_eq!(server.spotify_code(), Some(b"s1".to_vec()));
}

#[test]
fn spotify_then_deezer_stops_after_second() {
    let mut server = Server::new();
    let first = server.on_request(&raw("GET /Spotify?code=s1 HTTP/1.1"));
    assert!(!first.stop);
    let second = server.on_request(&raw("GET /Deezer?code=d1 HTTP/1.1"));
    assert!(second.stop);
    assert_eq!(server.deezer_code(), Some(b"d1".to_vec()));
    assert_eq!(server.spotify_code(), Some(b"s1".to_vec()));
}

#[test]
fn one_provider_twice_never_stops() {
    let mut server = Server::new();
    assert!(!server.on_request(&raw("GET /Deezer?code=a HTTP/1.1")).stop);
    assert!(!server.on_request(&raw("GET /Deezer?code=b HTTP/1.1")).stop);
    assert!(!server.is_finished());
}

#[test]
fn duplicate_callback_keeps_first_code() {
    let mut server = Server::new();
    server.on_request(&raw("GET /Spotify?code=first HTTP/1.1"));
    server.on_request(&raw("GET /Spotify?code=second HTTP/1.1"));
    assert_eq!(server.spotify_code(), Some(b"first".to_vec()));
}

#[test]
fn unknown_path_gets_reply_and_changes_nothing() {
    let mut server = Server::new();
    let step = server.on_request(&raw("GET /favicon.ico HTTP/1.1"));
    assert_eq!(step.reply, Some(callback_response()));
    assert!(!step.stop);
    assert!(!server.deezer_received());
    assert!(!server.spotify_received());
}

#[test]
fn empty_read_gets_no_reply() {
    let mut server = Server::new();
    let step = server.on_request(&[]);
    assert!(step.reply.is_none());
    assert!(!step.stop);
    assert!(!server.deezer_received());
}

#[test]
fn reply_declares_its_body_length() {
    let reply = String::from_utf8(callback_response()).unwrap();
    assert!(reply.starts_with("HTTP/1.1 200 OK\r\n"));
    let (head, body) = reply.split_once("\r\n\r\n").unwrap();
    let declared: usize = head
        .lines()
        .find_map(|l| l.strip_prefix("Content-Length: "))
        .unwrap()
        .parse()
        .unwrap();
    assert_eq!(declared, body.len());
    assert_eq!(declared, 45);
    assert_eq!(body, "You're connected, you can close this tab now!");
}

#[test]
fn decimal_rendering() {
    assert_eq!(render_decimal(0), b"0".to_vec());
    assert_eq!(render_decimal(7), b"7".to_vec());
    assert_eq!(render_decimal(45), b"45".to_vec());
    assert_eq!(render_decimal(1002), b"1002".to_vec());
}

#[test]
fn routed_line_need_not_be_first() {
    let req = b"junk line\nGET /Deezer?code=zz HTTP/1.1\r\n\r\n";
    let c = parse_callback(req).unwrap();
    assert_eq!(c.provider, Provider::Deezer);
    assert_eq!(c.code, b"zz".to_vec());
}

#[test]
fn first_routed_line_wins() {
    let req = b"GET /Spotify?code=one HTTP/1.1\r\nGET /Deezer?code=two HTTP/1.1\r\n";
    let c = parse_callback(req).unwrap();
    assert_eq!(c.provider, Provider::Spotify);
    assert_eq!(c.code, b"one".to_vec());
}

#[test]
fn request_without_line_break() {
    let c = parse_callback(b"GET /Spotify?code=q9 HTTP/1.1").unwrap();
    assert_eq!(c.provider, Provider::Spotify);
    assert_eq!(c.code, b"q9".to_vec());
}

#[test]
fn no_callback_in_post_request() {
    assert!(parse_callback(b"POST /Spotify?code=x HTTP/1.1\r\n\r\n").is_none());
    assert!(parse_callback(b"").is_none());
}

#[test]
fn repeated_prefix_and_suffix_are_all_stripped() {
    let c = parse_callback(b"GET /Deezer?code=GET /Deezer?code=k HTTP/1.1 HTTP/1.1\r\n").unwrap();
    assert_eq!(c.code, b"k".to_vec());
}

#[test]
fn path_without_code_keeps_whole_line() {
    let c = parse_callback(b"GET /Spotify HTTP/1.1\r\n").unwrap();
    assert_eq!(c.provider, Provider::Spotify);
    assert_eq!(c.code, b"GET /Spotify".to_vec());
}

#[test]
fn slot_is_single_assignment() {
    let mut slot = CodeSlot::new();
    assert!(!slot.is_set());
    assert_eq!(slot.read(), None);
    assert!(slot.set(b"a".to_vec()));
    assert!(!slot.set(b"b".to_vec()));
    assert_eq!(slot.read(), Some(b"a".to_vec()));
    assert!(slot.is_set());
}
