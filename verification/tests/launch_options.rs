use zju_connect_gui::backend::launch_options::{
    normalize_launch_options, LaunchOptions, ValidationError, DEFAULT_AUTH_TYPE,
    DEFAULT_CLIENT_DATA_FILE, DEFAULT_HTTP_BIND, DEFAULT_LOGIN_DOMAIN, DEFAULT_PORT,
    DEFAULT_PROTOCOL, DEFAULT_SECONDARY_DNS_SERVER, DEFAULT_SERVER, DEFAULT_SOCKS_BIND,
};

fn populated_options() -> LaunchOptions {
    LaunchOptions {
        username: "alice".into(),
        password: "secret".into(),
        ..normalize_launch_options(LaunchOptions::default())
    }
}

#[test]
fn normalize_launch_options_defaults() {
    let normalized = normalize_launch_options(LaunchOptions::default());
    assert_eq!(normalized.protocol, DEFAULT_PROTOCOL);
    assert_eq!(normalized.server, DEFAULT_SERVER);
    assert_eq!(normalized.port, DEFAULT_PORT);
    assert_eq!(normalized.socks_bind, DEFAULT_SOCKS_BIND);
    assert_eq!(normalized.http_bind, DEFAULT_HTTP_BIND);
    assert_eq!(normalized.secondary_dns_server, DEFAULT_SECONDARY_DNS_SERVER);
    assert_eq!(normalized.auth_type, DEFAULT_AUTH_TYPE);
    assert_eq!(normalized.login_domain, DEFAULT_LOGIN_DOMAIN);
    assert_eq!(normalized.client_data_file, DEFAULT_CLIENT_DATA_FILE);
    assert!(!normalized.tun_mode);
    assert!(!normalized.debug_dump);
    assert!(!normalized.eip_auto_open);
    assert_eq!(normalized.eip_browser_program, "");
    assert!(normalized.eip_browser_args.is_empty());
}

#[test]
fn normalize_launch_options_eip_browser_fields() {
    let raw = LaunchOptions {
        eip_browser_program: "  /usr/bin/firefox  ".into(),
        eip_browser_args: vec![
            "--new-window".into(),
            "  ".into(),
            " --kiosk ".into(),
            String::new(),
        ],
        ..LaunchOptions::default()
    };
    let normalized = normalize_launch_options(raw);
    assert_eq!(normalized.eip_browser_program, "/usr/bin/firefox");
    assert_eq!(normalized.eip_browser_args, vec!["--new-window", "--kiosk"]);
}

#[test]
fn normalize_launch_options_is_idempotent_on_an_example() {
    let raw = LaunchOptions {
        protocol: "  EasyConnect ".into(),
        username: " bob ".into(),
        proxybridge_processes: vec![" a ".into(), "".into()],
        ..LaunchOptions::default()
    };
    let once = normalize_launch_options(raw);
    let twice = normalize_launch_options(once.clone());
    assert_eq!(once, twice);
    assert_eq!(once.protocol, "easyconnect");
    assert_eq!(once.username, "bob");
    assert_eq!(once.proxybridge_processes, vec!["a"]);
}

#[test]
fn launch_options_validate() {
    let mut opts = populated_options();
    assert!(opts.validate().is_ok());

    opts.protocol = "ipsec".into();
    assert_eq!(
        opts.validate(),
        Err(ValidationError::UnsupportedProtocol("ipsec".into()))
    );

    let mut opts = populated_options();
    opts.username.clear();
    assert_eq!(opts.validate(), Err(ValidationError::EmptyUsername));

    let mut opts = populated_options();
    opts.password.clear();
    assert_eq!(opts.validate(), Err(ValidationError::EmptyPassword));

    let mut opts = populated_options();
    opts.port = 0;
    assert_eq!(opts.validate(), Err(ValidationError::InvalidPort));

    let mut opts = populated_options();
    opts.socks_bind.clear();
    assert_eq!(opts.validate(), Err(ValidationError::EmptySocksBind));

    let mut opts = populated_options();
    opts.http_bind.clear();
    assert_eq!(opts.validate(), Err(ValidationError::EmptyHttpBind));
}

#[test]
fn validation_messages() {
    assert_eq!(
        ValidationError::UnsupportedProtocol("ipsec".into()).message(),
        "unsupported protocol: ipsec"
    );
    assert_eq!(ValidationError::InvalidPort.message(), "port must be between 1 and 65535");
    assert_eq!(ValidationError::EmptyClientDataFile.message(), "client-data-file cannot be empty");
}

#[test]
fn build_args() {
    let opts = LaunchOptions {
        username: "alice".into(),
        password: "p@ss".into(),
        tun_mode: true,
        debug_dump: true,
        ..normalize_launch_options(LaunchOptions::default())
    };
    let args = opts.build_args("/tmp/captcha.png");

    let head = vec![
        "-protocol",
        "atrust",
        "-server",
        "sslvpn.scmcc.com.cn",
        "-port",
        "443",
        "-username",
        "alice",
        "-password",
        "p@ss",
        "-disable-zju-config",
        "-socks-bind",
        "127.0.0.1:1080",
        "-http-bind",
        "127.0.0.1:8888",
        "-secondary-dns-server",
        "223.5.5.5",
        "-auth-type",
        "auth/psw",
        "-login-domain",
        "AD",
        "-client-data-file",
        "client_data.json",
        "-graph-code-file",
        "/tmp/captcha.png",
        "-tun-mode",
        "-add-route",
        "-dns-hijack",
        "-fake-ip",
        "-debug-dump",
    ];
    assert_eq!(args, head);
}

#[test]
fn build_args_without_tun_debug() {
    let opts = LaunchOptions {
        username: "alice".into(),
        password: "p@ss".into(),
        ..normalize_launch_options(LaunchOptions::default())
    };
    let args = opts.build_args("");
    assert!(!args.iter().any(|a| a == "-tun-mode"));
    assert!(!args.iter().any(|a| a == "-debug-dump"));
    assert!(!args.iter().any(|a| a == "-graph-code-file"));
    assert_eq!(args.first().map(String::as_str), Some("-protocol"));
}
