use zju_connect_gui::backend::launch_options::LaunchOptions;
use zju_connect_gui::backend::platform::TargetOs;
use zju_connect_gui::backend::relaunch_args::{
    build_elevated_relaunch_args, elevation_failed_message, parse_elevated_relaunch_args,
    resume_options, ElevatedRelaunchArgs, RelaunchArgsError,
};

#[test]
fn build_elevated_relaunch_args_includes_marker_and_pid() {
    let args = build_elevated_relaunch_args(4242);
    assert_eq!(
        args,
        vec![
            "--resume-pending-connect".to_string(),
            "--wait-parent-pid=4242".to_string(),
        ]
    );
}

#[test]
fn build_elevated_relaunch_args_omits_zero_pid() {
    let args = build_elevated_relaunch_args(0);
    assert_eq!(args, vec!["--resume-pending-connect".to_string()]);
}

#[test]
fn parse_elevated_relaunch_args_marker_alone() {
    let parsed = parse_elevated_relaunch_args(&["--resume-pending-connect".to_string()]).unwrap();
    assert!(parsed.resume_pending_connect);
    assert_eq!(parsed.wait_parent_pid, 0);
}

#[test]
fn parse_elevated_relaunch_args_pid_implies_resume() {
    let parsed = parse_elevated_relaunch_args(&["--wait-parent-pid=12345".to_string()]).unwrap();
    assert!(parsed.resume_pending_connect);
    assert_eq!(parsed.wait_parent_pid, 12345);
}

#[test]
fn parse_elevated_relaunch_args_invalid_parent_pid() {
    assert_eq!(
        parse_elevated_relaunch_args(&["--wait-parent-pid=abc".to_string()]),
        Err(RelaunchArgsError::InvalidParentPid("abc".into()))
    );
    assert_eq!(
        parse_elevated_relaunch_args(&["--wait-parent-pid=0".to_string()]),
        Err(RelaunchArgsError::InvalidParentPid("0".into()))
    );
    assert_eq!(
        parse_elevated_relaunch_args(&["--wait-parent-pid=-5".to_string()]),
        Err(RelaunchArgsError::InvalidParentPid("-5".into()))
    );
}

#[test]
fn relaunch_args_round_trip() {
    for pid in [0u32, 1, 4242, u32::MAX] {
        let parsed = parse_elevated_relaunch_args(&build_elevated_relaunch_args(pid)).unwrap();
        assert!(parsed.resume_pending_connect);
        assert_eq!(parsed.wait_parent_pid, pid);
    }
    let plain = parse_elevated_relaunch_args(&["--other".to_string()]).unwrap();
    assert_eq!(plain, ElevatedRelaunchArgs::default());
}

#[test]
fn resume_without_elevation_drops_tun_and_proxybridge() {
    let options = LaunchOptions {
        tun_mode: true,
        proxybridge_enabled: true,
        ..LaunchOptions::default()
    };
    let resumed = resume_options(options.clone(), false, TargetOs::Windows);
    assert!(!resumed.tun_mode && !resumed.proxybridge_enabled);
    let kept = resume_options(options, true, TargetOs::Windows);
    assert!(kept.tun_mode && kept.proxybridge_enabled);
    assert_eq!(elevation_failed_message("denied"), "提权失败：denied");
}
