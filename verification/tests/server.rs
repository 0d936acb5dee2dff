use zju_connect_gui::web::server::{
    bind_order, generate_token, hex_lower, is_authorized, port_from_file, presented_token,
    static_asset, token_from_query, StaticAsset, DEFAULT_PORT,
};

#[test]
fn token_from_query_parses() {
    assert_eq!(token_from_query("token=abc123&x=1"), Some("abc123"));
    assert_eq!(token_from_query("x=1"), None);
    assert_eq!(token_from_query(""), None);
}

#[test]
fn token_from_query_takes_the_first_token_anywhere() {
    assert_eq!(token_from_query("x=1&token=a&token=b"), Some("a"));
    assert_eq!(token_from_query("xtoken=1&token="), Some(""));
}

#[test]
fn generate_token_is_hex() {
    let t = generate_token();
    assert_eq!(t.len(), 32);
    assert!(t.chars().all(|c| c.is_ascii_hexdigit()));
    assert!(t.chars().all(|c| !c.is_ascii_uppercase()));
}

#[test]
fn hex_lower_encodes_each_byte() {
    assert_eq!(hex_lower(&[0x00, 0x0f, 0xa0, 0xff]), "000fa0ff");
}

#[test]
fn is_authorized_requires_host_and_token() {
    let port = 19823;
    let token = "t0k3n";
    assert!(is_authorized(Some("localhost:19823"), Some(token), port, token));
    assert!(is_authorized(Some("127.0.0.1:19823"), Some(token), port, token));
    assert!(is_authorized(Some("LOCALHOST:19823"), Some(token), port, token));
    assert!(!is_authorized(Some("evil.example.com"), Some(token), port, token));
    assert!(!is_authorized(Some("localhost:19823"), Some("wrong"), port, token));
    assert!(!is_authorized(Some("localhost:19823"), None, port, token));
    assert!(!is_authorized(None, Some(token), port, token));
}

#[test]
fn query_token_only_counts_on_the_event_stream() {
    assert_eq!(presented_token(Some("h"), "/api/start", Some("token=q")), Some("h"));
    assert_eq!(presented_token(None, "/api/start", Some("token=q")), None);
    assert_eq!(presented_token(None, "/api/events", Some("token=q")), Some("q"));
    assert_eq!(presented_token(None, "/api/events", None), None);
}

#[test]
fn port_file_and_bind_order() {
    assert_eq!(port_from_file(" 20000\n"), Some(20000));
    assert_eq!(port_from_file("80"), None);
    assert_eq!(port_from_file("junk"), None);
    assert_eq!(bind_order(Some("20000")), vec![20000, DEFAULT_PORT, 0]);
    assert_eq!(bind_order(Some("70000")), vec![DEFAULT_PORT, 0]);
    assert_eq!(bind_order(None), vec![DEFAULT_PORT, 0]);
}

#[test]
fn static_assets_are_routed_by_name() {
    assert_eq!(static_asset("pico.min.css"), Some(StaticAsset::PicoCss));
    assert_eq!(static_asset("alpine.min.js"), Some(StaticAsset::AlpineJs));
    assert_eq!(static_asset("../secret"), None);
    assert_eq!(StaticAsset::PicoCss.content_type(), "text/css");
}
