use zju_connect_gui::backend::launch_options::LaunchOptions;
use zju_connect_gui::backend::platform::TargetOs;
use zju_connect_gui::backend::proxy::proxybridge::{
    bridge_plan, bridge_start_result, extract_host_port, find_proxybridge_library, install_hint,
    is_active, unsupported_reason, RULE_ACTION_PROXY, RULE_PROTOCOL_BOTH, RULE_PROTOCOL_TCP,
    RULE_PROTOCOL_UDP,
};

#[test]
fn extract_host_port_parses_correctly() {
    assert_eq!(extract_host_port("127.0.0.1:1080"), ("127.0.0.1", 1080));
    assert_eq!(extract_host_port("0.0.0.0:8888"), ("0.0.0.0", 8888));
    assert_eq!(extract_host_port("127.0.0.1"), ("127.0.0.1", 1080));
    assert_eq!(extract_host_port(":1080"), ("", 1080));
    assert_eq!(extract_host_port("[::1]:1080"), ("::1", 1080));
}

#[test]
fn extract_host_port_keeps_unparsable_ports_whole() {
    assert_eq!(extract_host_port("host:99999"), ("host:99999", 1080));
    assert_eq!(extract_host_port("host:+80"), ("host", 80));
}

#[test]
fn rule_protocol_covers_udp_and_matches_the_vendored_header() {
    assert_eq!(RULE_PROTOCOL_TCP, 0);
    assert_eq!(RULE_PROTOCOL_UDP, 1);
    assert_eq!(RULE_PROTOCOL_BOTH, 2);
    assert_eq!(RULE_ACTION_PROXY, 0);
}

#[test]
fn is_active_respects_all_conditions() {
    let mut opts = LaunchOptions::default();
    assert!(!is_active(&opts, TargetOs::Linux));

    opts.proxybridge_enabled = true;
    assert!(!is_active(&opts, TargetOs::Linux));

    opts.proxybridge_processes = vec!["chrome.exe".into()];
    opts.tun_mode = true;
    assert!(!is_active(&opts, TargetOs::Linux));

    opts.tun_mode = false;
    assert!(is_active(&opts, TargetOs::Linux));
}

#[test]
fn is_active_never_true_on_macos() {
    let opts = LaunchOptions {
        proxybridge_enabled: true,
        proxybridge_processes: vec!["chrome.exe".into()],
        ..LaunchOptions::default()
    };
    assert!(!is_active(&opts, TargetOs::MacOs));
}

#[test]
fn bridge_plan_has_one_rule_per_process() {
    let opts = LaunchOptions {
        socks_bind: "127.0.0.1:1081".into(),
        proxybridge_processes: vec!["xfreerdp".into(), "ssh".into()],
        ..LaunchOptions::default()
    };
    let plan = bridge_plan(&opts, TargetOs::Linux).unwrap();
    assert_eq!(plan.proxy_host, "127.0.0.1");
    assert_eq!(plan.proxy_port, 1081);
    assert_eq!(plan.rules.len(), 2);
    assert_eq!(plan.rules[1].process, "ssh");
    assert_eq!(plan.rules[1].ports, "*");
    assert!(plan.dns_via_proxy);
    assert!(!plan.localhost_direct);
    let win = bridge_plan(&opts, TargetOs::Windows).unwrap();
    assert!(win.localhost_direct && !win.dns_via_proxy);
}

#[test]
fn bridge_plan_rejects_nul_characters() {
    let opts = LaunchOptions {
        socks_bind: "127.0.0.1:1081".into(),
        proxybridge_processes: vec!["ok".into(), "bad\0name".into()],
        ..LaunchOptions::default()
    };
    assert_eq!(
        bridge_plan(&opts, TargetOs::Linux).unwrap_err(),
        "invalid process name: bad\0name"
    );
    let opts = LaunchOptions {
        socks_bind: "ho\0st:1".into(),
        ..LaunchOptions::default()
    };
    assert_eq!(bridge_plan(&opts, TargetOs::Linux).unwrap_err(), "invalid proxy host");
}

#[test]
fn bridge_helpers() {
    assert!(find_proxybridge_library(Some("/x/lib.so"), "/app").is_none());
    assert_eq!(install_hint(TargetOs::MacOs), "");
    assert!(install_hint(TargetOs::Linux).contains("NFQUEUE"));
    assert_eq!(
        unsupported_reason(TargetOs::MacOs),
        "ProxyBridge is not supported on macOS"
    );
    assert!(bridge_start_result(true).is_ok());
    assert!(bridge_start_result(false).unwrap_err().starts_with("ProxyBridge_Start returned false"));
}

#[test]
fn windows_arm64_has_no_proxybridge_core() {
    let opts = LaunchOptions {
        proxybridge_enabled: true,
        proxybridge_processes: vec!["chrome.exe".into()],
        ..LaunchOptions::default()
    };
    assert!(is_active(&opts, TargetOs::Windows));
    assert!(!is_active(&opts, TargetOs::WindowsArm64));
    let reason = "ProxyBridge is not available on Windows arm64: upstream ships no WinDivert build for it";
    assert_eq!(unsupported_reason(TargetOs::WindowsArm64), reason);
    assert_eq!(install_hint(TargetOs::WindowsArm64), "");
    assert_eq!(bridge_plan(&opts, TargetOs::WindowsArm64).err(), Some(reason.to_string()));
    assert_eq!(
        bridge_plan(&opts, TargetOs::MacOs).err(),
        Some("ProxyBridge is not supported on macOS".to_string())
    );
    assert!(bridge_plan(&opts, TargetOs::Windows).is_ok());
}
