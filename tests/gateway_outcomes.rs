use tauri_plugin_any_sync::gateway::{settle, CallOutcome};
use tauri_plugin_any_sync::port::{endpoint_address, parse_port};
use tauri_plugin_any_sync::transport::endpoint_for;
use tauri_plugin_any_sync::{Error, GetResponse, PingRequest, PingResponse};

#[test]
fn unanswered_call_is_timeout() {
    let r = settle("Command", CallOutcome::<Vec<u8>>::TimedOut);
    assert_eq!(r, Err(Error::Timeout("Command".to_string())));
}

#[test]
fn remote_failure_keeps_message() {
    let r = settle("Command", CallOutcome::<Vec<u8>>::Rejected("no such space".to_string()));
    assert_eq!(r, Err(Error::RemoteError("no such space".to_string())));
    assert_eq!(r.unwrap_err().message(), "no such space");
}

#[test]
fn lost_transport_and_join_failure() {
    assert_eq!(
        settle("Command", CallOutcome::<Vec<u8>>::Lost("reset".to_string())),
        Err(Error::ConnectionLost("reset".to_string()))
    );
    assert_eq!(
        settle("command", CallOutcome::<Vec<u8>>::JoinFailed("panicked".to_string())),
        Err(Error::TaskJoinFailure("panicked".to_string()))
    );
}

#[test]
fn reply_bytes_pass_unchanged() {
    let one = settle("Command", CallOutcome::Replied(vec![0xff])).unwrap();
    assert_eq!(one, vec![0xff]);
    let empty: Vec<u8> = settle("Command", CallOutcome::Replied(vec![])).unwrap();
    assert!(empty.is_empty());
}

#[test]
fn concurrent_echo_calls_keep_their_payloads() {
    let a = settle("echo", CallOutcome::Replied(b"hello".to_vec()));
    let b = settle("echo", CallOutcome::Replied(b"hello".to_vec()));
    assert_eq!(a.unwrap(), b"hello".to_vec());
    assert_eq!(b.unwrap(), b"hello".to_vec());
}

#[test]
fn port_text_is_read() {
    assert_eq!(parse_port("54321"), Some(54321));
    assert_eq!(parse_port("  8080\n"), Some(8080));
    assert_eq!(parse_port("+443"), Some(443));
    assert_eq!(parse_port("0065535"), Some(65535));
    assert_eq!(parse_port("\u{3000}22\u{a0}"), Some(22));
    assert_eq!(parse_port("65536"), None);
    assert_eq!(parse_port(""), None);
    assert_eq!(parse_port("+"), None);
    assert_eq!(parse_port("-5"), None);
    assert_eq!(parse_port("80 80"), None);
    assert_eq!(parse_port("99999999999999999999"), None);
}

#[test]
fn port_text_matches_std() {
    for text in ["1", " 2 ", "+3", "++4", "x", "1e3", "\t\r\n7\u{2029}", "00", "65535", "65536"] {
        assert_eq!(parse_port(text), text.trim().parse::<u16>().ok());
    }
}

#[test]
fn endpoint_address_is_written() {
    assert_eq!(endpoint_address(54321), "http://localhost:54321");
    assert_eq!(endpoint_address(0), "http://localhost:0");
    assert_eq!(endpoint_address(7), "http://localhost:7");
    assert_eq!(endpoint_address(65535), "http://localhost:65535");
}

#[test]
fn endpoint_for_port_is_accepted() {
    let e = endpoint_for(54321).unwrap();
    assert_eq!(e.uri().port_u16(), Some(54321));
    assert_eq!(e.uri().host(), Some("localhost"));
}

#[test]
fn ping_message_and_native_pong() {
    assert_eq!(PingRequest { value: Some("hi".to_string()) }.message(), "hi");
    assert_eq!(PingRequest { value: None }.message(), "");
    assert_eq!(PingResponse::native().value, Some("pong (mobile)".to_string()));
}

#[test]
fn lookup_without_document() {
    let r = GetResponse::from_lookup(false, "ignored".to_string());
    assert_eq!(r, GetResponse { document_json: None, found: false });
}
