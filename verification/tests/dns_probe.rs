use zju_connect_gui::backend::proxy::dns_probe::{
    answer_count_matches, build_query, probe_action, probe_name, query_id_from_nanos,
    ProbeAction, FALLBACK_PROBE_NAME,
};

#[test]
fn build_query_encodes_labels() {
    let query = build_query("a.bc", 0x1234).expect("query");
    assert_eq!(
        query,
        vec![
            0x12, 0x34, // id
            0x01, 0x00, // flags: RD
            0x00, 0x01, // QDCOUNT
            0x00, 0x00, 0x00, 0x00, 0x00, 0x00, // AN/NS/AR
            0x01, b'a', // "a"
            0x02, b'b', b'c', // "bc"
            0x00, // root
            0x00, 0x01, // QTYPE A
            0x00, 0x01, // QCLASS IN
        ]
    );

    assert!(build_query("", 1).is_none());
    assert!(build_query("a..b", 1).is_none());
    assert!(build_query(&"x".repeat(64), 1).is_none());
}

#[test]
fn build_query_trims_and_drops_trailing_dots() {
    let a = build_query(" example.com.. ", 7).expect("query");
    let b = build_query("example.com", 7).expect("query");
    assert_eq!(a, b);
    assert!(build_query(&"x".repeat(63), 1).is_some());
    assert!(build_query("...", 1).is_none());
}

#[test]
fn probe_name_prefers_a_hostname() {
    assert_eq!(probe_name("sslvpn.scmcc.com.cn", false), "sslvpn.scmcc.com.cn");
    assert_eq!(probe_name(" sslvpn.scmcc.com.cn ", false), "sslvpn.scmcc.com.cn");
    assert_eq!(probe_name("10.0.0.1", true), FALLBACK_PROBE_NAME);
    assert_eq!(probe_name("::1", true), FALLBACK_PROBE_NAME);
    assert_eq!(probe_name("", false), FALLBACK_PROBE_NAME);
}

#[test]
fn answers_need_our_id_the_response_bit_and_a_record() {
    let query = build_query("example.com", 0xabcd).unwrap();
    let mut reply = query.clone();
    reply[2] |= 0x80;
    reply[6] = 0;
    reply[7] = 1;
    assert!(answer_count_matches(&reply, &query[..2]));

    let mut empty = reply.clone();
    empty[7] = 0;
    assert!(!answer_count_matches(&empty, &query[..2]));

    let mut foreign = reply.clone();
    foreign[0] ^= 0xFF;
    assert!(!answer_count_matches(&foreign, &query[..2]));

    let mut not_response = reply.clone();
    not_response[2] &= 0x7f;
    assert!(!answer_count_matches(&not_response, &query[..2]));

    assert!(!answer_count_matches(&reply[..11], &query[..2]));
}

#[test]
fn query_ids_are_odd() {
    assert_eq!(query_id_from_nanos(0), 1);
    assert_eq!(query_id_from_nanos(0x0001_0002), 3);
    assert_eq!(query_id_from_nanos(0xffff), 0xffff);
}

#[test]
fn probe_loop_resends_listens_and_gives_up() {
    assert_eq!(probe_action(0, 2000, 0), ProbeAction::Send { next_send_ms: 500 });
    assert_eq!(probe_action(100, 2000, 500), ProbeAction::Listen);
    assert_eq!(probe_action(2000, 2000, 0), ProbeAction::GiveUp);
    assert_eq!(
        probe_action(u64::MAX - 1, u64::MAX, 0),
        ProbeAction::Send { next_send_ms: u64::MAX }
    );
}
