use zju_connect_gui::backend::launch_options::{
    default_proxybridge_processes, LaunchOptions, DEFAULT_AUTH_TYPE, DEFAULT_CLIENT_DATA_FILE,
    DEFAULT_LOGIN_DOMAIN, DEFAULT_PORT, DEFAULT_PROTOCOL, DEFAULT_SECONDARY_DNS_SERVER,
    DEFAULT_SERVER,
};
use zju_connect_gui::backend::pending_connect_store::{new_marker, resume_check, PendingConnectStore, PENDING_CONNECT_MAX_AGE};
use zju_connect_gui::backend::platform::TargetOs;
use zju_connect_gui::backend::settings_store::{
    default_launch_options, finish_loaded_settings, merge_settings, prepare_for_save, SettingsPatch,
    UserSettingsStore,
};

#[test]
fn default_launch_options_fixed_defaults() {
    let defaults = default_launch_options(TargetOs::Linux);
    assert_eq!(defaults.protocol, DEFAULT_PROTOCOL);
    assert_eq!(defaults.server, DEFAULT_SERVER);
    assert_eq!(defaults.port, DEFAULT_PORT);
    assert_eq!(defaults.secondary_dns_server, DEFAULT_SECONDARY_DNS_SERVER);
    assert_eq!(defaults.auth_type, DEFAULT_AUTH_TYPE);
    assert_eq!(defaults.login_domain, DEFAULT_LOGIN_DOMAIN);
    assert_eq!(defaults.client_data_file, DEFAULT_CLIENT_DATA_FILE);
    assert!(defaults.eip_auto_open);
    assert!(defaults.tun_mode);
    assert_eq!(
        defaults.proxybridge_processes,
        default_proxybridge_processes(TargetOs::Linux)
    );
}

#[test]
fn user_settings_store_load_missing_proxybridge_processes_seeds_default() {
    let parsed = LaunchOptions {
        username: "alice".into(),
        password: "p".into(),
        ..LaunchOptions::default()
    };
    let loaded = finish_loaded_settings(parsed, false, false, TargetOs::Linux);
    assert_eq!(
        loaded.proxybridge_processes,
        default_proxybridge_processes(TargetOs::Linux)
    );
}

#[test]
fn user_settings_store_load_preserves_explicitly_empty_proxybridge_processes() {
    let parsed = LaunchOptions {
        username: "alice".into(),
        password: "p".into(),
        proxybridge_processes: Vec::new(),
        ..LaunchOptions::default()
    };
    let loaded = finish_loaded_settings(parsed, false, true, TargetOs::Linux);
    assert!(loaded.proxybridge_processes.is_empty());
}

#[test]
fn user_settings_store_load_forces_fixed_port() {
    let parsed = LaunchOptions {
        protocol: "easyconnect".into(),
        server: "example.com".into(),
        port: 12345,
        username: "alice".into(),
        password: "p".into(),
        socks_bind: "127.0.0.1:1081".into(),
        http_bind: "127.0.0.1:8889".into(),
        secondary_dns_server: "8.8.8.8".into(),
        auth_type: "auth/foo".into(),
        login_domain: "AD2".into(),
        client_data_file: "other.json".into(),
        tun_mode: false,
        ..LaunchOptions::default()
    };
    let loaded = finish_loaded_settings(parsed, false, false, TargetOs::Linux);
    assert_eq!(loaded.protocol, DEFAULT_PROTOCOL);
    assert_eq!(loaded.server, DEFAULT_SERVER);
    assert_eq!(loaded.port, DEFAULT_PORT);
    assert_eq!(loaded.secondary_dns_server, DEFAULT_SECONDARY_DNS_SERVER);
    assert_eq!(loaded.auth_type, DEFAULT_AUTH_TYPE);
    assert_eq!(loaded.login_domain, DEFAULT_LOGIN_DOMAIN);
    assert_eq!(loaded.client_data_file, DEFAULT_CLIENT_DATA_FILE);
    assert_eq!(loaded.socks_bind, "127.0.0.1:1081");
    assert_eq!(loaded.http_bind, "127.0.0.1:8889");
    assert!(!loaded.tun_mode);
    assert!(loaded.eip_auto_open);
}

#[test]
fn user_settings_store_save_roundtrip_reapplies_fixed_defaults() {
    let raw = LaunchOptions {
        server: "elsewhere".into(),
        username: " alice ".into(),
        password: "p".into(),
        eip_auto_open: false,
        eip_browser_program: " /usr/bin/firefox ".into(),
        proxybridge_processes: vec!["ssh".into()],
        ..LaunchOptions::default()
    };
    let saved = prepare_for_save(raw);
    assert_eq!(saved.server, DEFAULT_SERVER);
    assert_eq!(saved.username, "alice");
    let loaded = finish_loaded_settings(saved.clone(), true, true, TargetOs::Linux);
    assert_eq!(loaded, saved);
    assert!(!loaded.eip_auto_open);
    assert_eq!(loaded.eip_browser_program, "/usr/bin/firefox");
}

#[test]
fn stores_live_in_the_application_directory() {
    assert_eq!(UserSettingsStore::new("/opt/app", TargetOs::Linux).path, "/opt/app/gui_settings.json");
    assert_eq!(
        PendingConnectStore::new("/opt/app/", TargetOs::Linux).path,
        "/opt/app/gui_pending_connect.json"
    );
    assert_eq!(
        UserSettingsStore::new(r"C:\app", TargetOs::Windows).path,
        r"C:\app\gui_settings.json"
    );
    assert_eq!(
        PendingConnectStore::new(r"C:\app", TargetOs::WindowsArm64).path,
        r"C:\app\gui_pending_connect.json"
    );
}

#[test]
fn pending_connect_store_has_resume_connect_clears_stale_marker() {
    let now: i64 = 1_700_000_000_000;
    let stale = resume_check(Some((true, now - 10 * 60 * 1000)), now);
    assert!(!stale.resume && stale.remove_stale);
    let fresh = resume_check(Some((true, now - 60 * 1000)), now);
    assert!(fresh.resume && !fresh.remove_stale);
    let missing = resume_check(None, now);
    assert!(!missing.resume && !missing.remove_stale);
    let edge = resume_check(Some((true, now - 5 * 60 * 1000)), now);
    assert!(edge.resume);
}

fn empty_patch() -> SettingsPatch {
    SettingsPatch {
        protocol: None,
        server: None,
        port: None,
        username: None,
        password: None,
        socks_bind: None,
        http_bind: None,
        secondary_dns_server: None,
        auth_type: None,
        login_domain: None,
        client_data_file: None,
        eip_auto_open: None,
        eip_browser_program: None,
        eip_browser_args: None,
        tun_mode: None,
        debug_dump: None,
        proxybridge_enabled: None,
        proxybridge_processes: None,
        proxybridge_path: None,
    }
}

#[test]
fn a_save_replaces_only_the_named_fields() {
    let stored = LaunchOptions {
        username: "alice".into(),
        password: "secret".into(),
        eip_browser_program: "/usr/bin/firefox".into(),
        tun_mode: true,
        proxybridge_processes: vec!["xfreerdp".into()],
        ..LaunchOptions::default()
    };
    assert_eq!(merge_settings(stored.clone(), empty_patch()), stored);
    let patch = SettingsPatch {
        eip_browser_program: Some("/usr/bin/chromium".into()),
        tun_mode: Some(false),
        ..empty_patch()
    };
    let merged = merge_settings(stored.clone(), patch);
    assert_eq!(merged.eip_browser_program, "/usr/bin/chromium");
    assert!(!merged.tun_mode);
    assert_eq!(merged.username, "alice");
    assert_eq!(merged.password, "secret");
    assert_eq!(merged.proxybridge_processes, vec!["xfreerdp".to_string()]);
}

#[test]
fn a_marker_resumes_only_while_fresh_and_not_after_clear() {
    let t = 1_700_000_000_000i64;
    let marker = new_marker(t);
    assert_eq!(marker, (true, t));
    let fresh = resume_check(Some(marker), t + PENDING_CONNECT_MAX_AGE);
    assert!(fresh.resume && !fresh.remove_stale);
    let stale = resume_check(Some(marker), t + PENDING_CONNECT_MAX_AGE + 1);
    assert!(!stale.resume && stale.remove_stale);
    let cleared = resume_check(None, t);
    assert!(!cleared.resume && !cleared.remove_stale);
}
