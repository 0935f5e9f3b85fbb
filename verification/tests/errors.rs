use rtpproxy::clock::{current_timestamp, timestamp_from_elapsed, timestamp_from_seconds};
use rtpproxy::error::ProxyError;

#[test]
fn messages_of_all_errors() {
    let text = |s: &str| s.to_string();
    assert_eq!(ProxyError::Io(text("broken")).message(), "IO error: broken");
    assert_eq!(
        ProxyError::AddrParse(text("invalid socket address syntax")).message(),
        "Address parse error: invalid socket address syntax"
    );
    assert_eq!(ProxyError::SessionNotFound(text("a")).message(), "Session not found: a");
    assert_eq!(ProxyError::InvalidProtocol(text("sctp")).message(), "Invalid protocol: sctp");
    assert_eq!(ProxyError::transport("gone").message(), "Transport error: gone");
    assert_eq!(ProxyError::ConnectionTimeout.message(), "Connection timeout");
    assert_eq!(ProxyError::SessionExists(text("a")).message(), "Session already exists: a");
    assert_eq!(ProxyError::InvalidConfig(text("port")).message(), "Invalid configuration: port");
}

#[test]
fn time_stamps_are_whole_seconds() {
    assert_eq!(timestamp_from_seconds(0), 0);
    assert_eq!(timestamp_from_seconds(1234567890), 1234567890);
}

#[test]
fn clock_before_1970_gives_no_time_stamp() {
    assert_eq!(timestamp_from_elapsed(None), None);
    assert_eq!(timestamp_from_elapsed(Some(0)), Some(0));
    assert_eq!(timestamp_from_elapsed(Some(1234567890)), Some(1234567890));
}

#[test]
fn the_clock_stands_after_1970() {
    let now = current_timestamp().unwrap();
    assert!(now > 1_500_000_000);
}
