use socket_ext::{LoadError, OsError, OsErrorKind, SocketError};

#[test]
fn creation_failures_are_told_apart_by_their_kind() {
    let denied = OsError { code: 13, kind: OsErrorKind::PermissionDenied, text: String::new() };
    let other = OsError { code: 23, kind: OsErrorKind::Other, text: String::new() };
    let blocked = OsError { code: 11, kind: OsErrorKind::WouldBlock, text: String::new() };
    assert_eq!(SocketError::creation(&denied), SocketError::PermissionDenied);
    assert_eq!(SocketError::creation(&other), SocketError::Os(23));
    assert_eq!(SocketError::creation(&blocked), SocketError::Os(11));
}

#[test]
fn not_found_names_the_interface() {
    assert_eq!(
        SocketError::not_found("eth9"),
        SocketError::NotFound("interface 'eth9' not found".to_string())
    );
    assert_eq!(SocketError::not_found("eth9").message(), "interface 'eth9' not found");
    assert_eq!(SocketError::not_found("").message(), "interface '' not found");
}

#[test]
fn device_bind_failure_names_interface_and_cause() {
    let cause = OsError {
        code: 1,
        kind: OsErrorKind::PermissionDenied,
        text: "Operation not permitted (os error 1)".to_string(),
    };
    let error = SocketError::device_bind("wlan0", cause.clone());
    assert_eq!(error, SocketError::DeviceBindFailed { ifname: "wlan0".to_string(), cause });
    assert_eq!(
        error.message(),
        "SO_BINDTODEVICE(wlan0) failed: Operation not permitted (os error 1)"
    );
}

#[test]
fn socket_error_messages() {
    assert_eq!(SocketError::PermissionDenied.message(), "permission denied");
    assert_eq!(SocketError::Os(0).message(), "os error 0");
    assert_eq!(SocketError::Os(9).message(), "os error 9");
    assert_eq!(SocketError::Os(10).message(), "os error 10");
    assert_eq!(SocketError::Os(105).message(), "os error 105");
    assert_eq!(SocketError::Os(-5).message(), "os error -5");
    assert_eq!(SocketError::Os(i32::MAX).message(), "os error 2147483647");
    assert_eq!(SocketError::Os(i32::MIN).message(), "os error -2147483648");
}

#[test]
fn load_error_messages() {
    assert_eq!(LoadError::Truncated.message(), "buffer ended inside a record");
    assert_eq!(LoadError::InvalidUtf8.message(), "invalid utf-8 sequence");
    assert_eq!(LoadError::InvalidEndpointType(3).message(), "invalid ip endpoint type: 3");
    assert_eq!(LoadError::InvalidEndpointType(255).message(), "invalid ip endpoint type: 255");
    assert_eq!(LoadError::InvalidVersion(0).message(), "invalid protocol version: 0");
    assert_eq!(LoadError::InvalidVersion(42).message(), "invalid protocol version: 42");
    assert_eq!(LoadError::InvalidPacketType(100).message(), "invalid protocol packet type: 100");
}
