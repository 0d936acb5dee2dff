use zju_connect_gui::backend::launch_options::{LaunchOptions, ValidationError};
use zju_connect_gui::backend::proxy::manager::{StartError, StateSnapshot};
use zju_connect_gui::web::handlers::{
    start_error_status, ElevateRequest, OpenEipRequest, StartRequest, StatusSnapshot, STATUS_BAD_REQUEST,
    STATUS_CONFLICT, STATUS_INTERNAL_SERVER_ERROR, STATUS_PRECONDITION_FAILED,
};

#[test]
fn refused_starts_map_to_http_statuses() {
    assert_eq!(start_error_status(&StartError::AlreadyRunning), STATUS_CONFLICT);
    assert_eq!(start_error_status(&StartError::SessionStopped), STATUS_CONFLICT);
    assert_eq!(
        start_error_status(&StartError::Validation(ValidationError::EmptyServer)),
        STATUS_BAD_REQUEST
    );
    assert_eq!(
        start_error_status(&StartError::NeedsElevation),
        STATUS_PRECONDITION_FAILED
    );
    assert_eq!(
        start_error_status(&StartError::BinaryMissing("/x".into())),
        STATUS_INTERNAL_SERVER_ERROR
    );
}

#[test]
fn status_snapshot_copies_the_public_fields() {
    let snap = StateSnapshot {
        session_active: true,
        ready: false,
        retry_attempt: 2,
        awaiting: Some("sms".into()),
        child_pid: Some(7),
    };
    let s = StatusSnapshot::from_snapshot(&snap);
    assert!(s.session_active && !s.ready);
    assert_eq!(s.awaiting.as_deref(), Some("sms"));
}

#[test]
fn request_options_are_normalized() {
    let req = StartRequest {
        options: Some(LaunchOptions {
            username: " bob ".into(),
            ..LaunchOptions::default()
        }),
    };
    let o = req.requested_options().unwrap();
    assert_eq!(o.username, "bob");
    assert_eq!(o.protocol, "atrust");
    assert!(StartRequest { options: None }.requested_options().is_none());
    let e = ElevateRequest {
        options: LaunchOptions {
            tun_mode: true,
            ..LaunchOptions::default()
        },
    };
    let n = e.normalized_options();
    assert!(n.tun_mode);
    assert_eq!(n.server, "sslvpn.scmcc.com.cn");
}

#[test]
fn open_eip_prefers_the_request_options() {
    let stored = LaunchOptions {
        eip_browser_program: "/usr/bin/stored".into(),
        ..LaunchOptions::default()
    };
    let picked = LaunchOptions {
        eip_browser_program: "  /usr/bin/picked ".into(),
        eip_browser_args: vec!["--kiosk".into()],
        ..LaunchOptions::default()
    };
    let used = OpenEipRequest { options: Some(picked) }.effective_options(stored.clone());
    assert_eq!(used.eip_browser_program, "/usr/bin/picked");
    assert_eq!(used.eip_browser_args, vec!["--kiosk".to_string()]);
    let used = OpenEipRequest { options: None }.effective_options(stored.clone());
    assert_eq!(used, stored);
}
