use zju_connect_gui::backend::proxy::readiness::readiness_dial_address;

#[test]
fn readiness_dial_address_localhost_for_wildcard() {
    assert_eq!(readiness_dial_address("0.0.0.0:1080"), "127.0.0.1:1080");
    assert_eq!(readiness_dial_address("127.0.0.1:1080"), "127.0.0.1:1080");
}

#[test]
fn readiness_dial_address_loopback_for_v6_wildcard() {
    assert_eq!(readiness_dial_address("[::]:8888"), "[::1]:8888");
}

#[test]
fn readiness_dial_address_passthrough_for_named_host() {
    assert_eq!(readiness_dial_address("proxy.local:443"), "proxy.local:443");
}

#[test]
fn readiness_dial_address_returns_input_for_malformed() {
    assert_eq!(readiness_dial_address("not_a_bind"), "not_a_bind");
}

#[test]
fn readiness_dial_address_edge_cases() {
    assert_eq!(readiness_dial_address("   "), "");
    assert_eq!(readiness_dial_address(" :8080 "), "127.0.0.1:8080");
    assert_eq!(readiness_dial_address("[fe80::1]:53"), "[fe80::1]:53");
    assert_eq!(readiness_dial_address("::1:53"), "::1:53");
    assert_eq!(readiness_dial_address("[::1]"), "[::1]");
}
