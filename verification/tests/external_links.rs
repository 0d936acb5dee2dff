use zju_connect_gui::backend::browser_detect::BrowserKind;
use zju_connect_gui::backend::external_links::{ensure_new_window_flag, open_eip, EIP_URL};
use zju_connect_gui::backend::launch_options::LaunchOptions;
use zju_connect_gui::backend::platform::TargetOs;

#[test]
fn eip_url_points_at_the_mclient_portal() {
    assert_eq!(
        EIP_URL,
        "http://eipapp.scmcc.com.cn:82/mclient/portal/#/home/work"
    );
}

#[test]
fn new_window_flag_appended_when_missing() {
    let mut args = vec!["--kiosk".to_string()];
    ensure_new_window_flag(&mut args, BrowserKind::Chrome);
    assert_eq!(args, vec!["--kiosk", "--new-window"]);

    let mut args = Vec::new();
    ensure_new_window_flag(&mut args, BrowserKind::Firefox);
    assert_eq!(args, vec!["-new-window"]);
}

#[test]
fn new_window_flag_not_duplicated() {
    for existing in ["--new-window", "-new-window", "--NEW-WINDOW"] {
        let mut args = vec![existing.to_string()];
        ensure_new_window_flag(&mut args, BrowserKind::Chrome);
        assert_eq!(args.len(), 1, "{existing}");
    }
}

#[test]
fn open_eip_is_mode_independent_and_proxy_free() {
    for tun_mode in [true, false] {
        let options = LaunchOptions {
            tun_mode,
            eip_browser_program: "/tmp/fake-chrome".into(),
            socks_bind: "127.0.0.1:9999".into(),
            ..LaunchOptions::default()
        };
        let cmd = open_eip(&options, TargetOs::Linux);
        assert_eq!(cmd.program, "/tmp/fake-chrome");
        assert_eq!(cmd.args, vec!["--new-window", EIP_URL], "tun_mode={tun_mode}");
    }
}

#[test]
fn open_eip_firefox_family_gets_dash_new_window() {
    let options = LaunchOptions {
        tun_mode: false,
        eip_browser_program: "/tmp/fake-firefox".into(),
        socks_bind: "0.0.0.0:8888".into(),
        ..LaunchOptions::default()
    };
    let cmd = open_eip(&options, TargetOs::Linux);
    assert_eq!(cmd.args, vec!["-new-window", EIP_URL]);
}

#[test]
fn open_eip_user_args_take_precedence_over_new_window_default() {
    let options = LaunchOptions {
        tun_mode: true,
        eip_browser_program: "/tmp/fake-chrome".into(),
        eip_browser_args: vec!["--kiosk".into()],
        ..LaunchOptions::default()
    };
    let cmd = open_eip(&options, TargetOs::Linux);
    assert_eq!(cmd.args, vec!["--kiosk", "--new-window", EIP_URL]);

    let options = LaunchOptions {
        tun_mode: true,
        eip_browser_program: "/tmp/fake-chrome".into(),
        eip_browser_args: vec!["-new-window".into()],
        ..LaunchOptions::default()
    };
    let cmd = open_eip(&options, TargetOs::Linux);
    assert_eq!(cmd.args, vec!["-new-window", EIP_URL]);
}

#[test]
fn open_eip_without_browser_uses_the_system_opener() {
    let options = LaunchOptions::default();
    let cmd = open_eip(&options, TargetOs::Linux);
    assert_eq!(cmd.program, "xdg-open");
    assert_eq!(cmd.args, vec![EIP_URL]);
}
