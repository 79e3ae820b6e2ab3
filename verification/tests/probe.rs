use xdwlan_login::{classify_probe, is_online, ConnectivityStatus, ProbeResponse};

#[test]
fn status_204_is_online() {
    assert!(is_online(&ProbeResponse::Status(204)));
    assert_eq!(classify_probe(&ProbeResponse::Status(204)), ConnectivityStatus::Online);
}

#[test]
fn other_statuses_are_offline() {
    for code in [200u16, 201, 301, 302, 403, 404, 500, 503, 0] {
        assert!(!is_online(&ProbeResponse::Status(code)));
        assert_eq!(classify_probe(&ProbeResponse::Status(code)), ConnectivityStatus::Offline);
    }
}

#[test]
fn transport_error_is_offline() {
    assert!(!is_online(&ProbeResponse::TransportError));
    assert_eq!(classify_probe(&ProbeResponse::TransportError), ConnectivityStatus::Offline);
}
