use zju_connect_gui::backend::external_links::OpenEipError;
use zju_connect_gui::backend::launch_options::{LaunchOptions, ValidationError};
use zju_connect_gui::backend::platform::TargetOs;
use zju_connect_gui::backend::proxy::logs::DetectedPrompt;
use zju_connect_gui::backend::proxy::manager::{
    awaiting_blocked_log, awaiting_blocked_message, binary_path, captcha_path,
    clamp_eip_open_delay, default_eip_auto_open_delay, prepare_start, prompt_request,
    retry_failed_log, retry_failed_message, retry_scheduled_log, retry_scheduled_message,
    ExitAction, InputKind, OpenEipManualError, PromptRequest, ProxyEvent, ProxyManagerConfig,
    ProxyState, SessionState, StartError, StopError, SubmitInputError,
};
use zju_connect_gui::backend::proxy::retry::no_jitter;

fn state_with_session(generation: u64) -> SessionState {
    let mut state = SessionState::new();
    state.session_active = true;
    state.retry_generation = generation;
    state
}

#[test]
fn spawn_guard_rejects_inactive_session() {
    let mut state = state_with_session(1);
    state.session_active = false;
    assert!(state.spawn_guard_violated(1));
}

#[test]
fn spawn_guard_rejects_stale_generation() {
    let state = state_with_session(3);
    assert!(state.spawn_guard_violated(2));
}

#[test]
fn spawn_guard_rejects_occupied_child_slot() {
    let mut state = state_with_session(2);
    state.child_pid = Some(1234);
    assert!(state.spawn_guard_violated(2));
}

#[test]
fn spawn_guard_accepts_clean_session() {
    let state = state_with_session(5);
    assert!(!state.spawn_guard_violated(5));
}

#[test]
fn cleanup_skips_when_winner_registered() {
    let mut state = state_with_session(2);
    state.child_pid = Some(5678);
    assert!(state.cleanup_failed_start_should_skip(2));
}

#[test]
fn cleanup_proceeds_when_no_winner() {
    let state = state_with_session(2);
    assert!(!state.cleanup_failed_start_should_skip(2));
    let state = state_with_session(3);
    assert!(state.cleanup_failed_start_should_skip(2));
}

#[test]
fn exit_action_ignores_stale_generation() {
    let mut state = state_with_session(2);
    let action = state.decide_exit_action(1);
    assert!(matches!(action, ExitAction::Ignore));
    assert!(state.session_active);
    assert_eq!(state.retry_generation, 2);
    assert_eq!(state.retry_attempt, 0);
}

#[test]
fn exit_action_schedules_retry_for_current_generation() {
    let mut state = state_with_session(7);
    let action = state.decide_exit_action(7);
    assert!(matches!(action, ExitAction::ScheduleRetry));
    assert_eq!(state.retry_generation, 8);
    assert!(state.session_active);
}

#[test]
fn exit_action_emits_stopped_when_session_inactive_even_if_stale() {
    let mut state = state_with_session(9);
    state.session_active = false;
    let action = state.decide_exit_action(3);
    assert!(matches!(action, ExitAction::EmitStopped));
}

#[test]
fn exit_action_awaiting_blocked_ends_session() {
    let mut state = state_with_session(1);
    state.awaiting = Some("sms".into());
    let action = state.decide_exit_action(1);
    assert!(matches!(
        action,
        ExitAction::AwaitingBlocked(ref reason) if reason == "sms"
    ));
    assert!(!state.session_active);
    assert!(state.awaiting.is_none());
}

#[test]
fn exit_action_schedule_retry_preserves_eip_opened() {
    let mut state = state_with_session(1);
    state.eip_opened = true;
    assert!(matches!(
        state.decide_exit_action(1),
        ExitAction::ScheduleRetry
    ));
    assert!(state.eip_opened);
}

#[test]
fn exit_action_stopped_resets_eip_opened() {
    let mut state = state_with_session(1);
    state.session_active = false;
    state.eip_opened = true;
    assert!(matches!(
        state.decide_exit_action(1),
        ExitAction::EmitStopped
    ));
    assert!(!state.eip_opened);
}

#[test]
fn submit_input_rejects_kind_mismatch() {
    let mut state = SessionState::new();
    state.session_active = true;
    state.awaiting = Some("captcha".to_string());
    let err = state.check_submission("1234", Some("sms")).unwrap_err();
    assert!(
        matches!(err, SubmitInputError::KindMismatch { .. }),
        "got {err:?}"
    );
    assert_eq!(err.message(), "waiting for captcha, not sms");
}

#[test]
fn submit_input_requires_kind_when_awaiting() {
    let mut state = SessionState::new();
    state.session_active = true;
    state.awaiting = Some("sms".to_string());
    let err = state.check_submission("1234", None).unwrap_err();
    assert!(matches!(err, SubmitInputError::MissingKind), "got {err:?}");
}

#[test]
fn submit_input_rejects_when_nothing_awaiting() {
    let state = SessionState::new();
    let err = state.check_submission("1234", Some("sms")).unwrap_err();
    assert!(matches!(err, SubmitInputError::NotAwaiting), "got {err:?}");
}

#[test]
fn submit_input_rejects_control_characters() {
    let mut state = SessionState::new();
    state.session_active = true;
    state.awaiting = Some("sms".to_string());
    state.stdin_open = true;
    let err = state.check_submission("123\n456", Some("sms")).unwrap_err();
    assert!(matches!(err, SubmitInputError::InvalidValue), "got {err:?}");
}

#[test]
fn submit_input_rejects_unicode_line_separators() {
    let mut state = SessionState::new();
    state.session_active = true;
    state.awaiting = Some("sms".to_string());
    state.stdin_open = true;
    for value in ["12\u{2028}34", "12\u{2029}34"] {
        let err = state.check_submission(value, Some("sms")).unwrap_err();
        assert!(matches!(err, SubmitInputError::InvalidValue), "got {err:?}");
    }
}

#[test]
fn submit_input_rejects_oversized_value() {
    let mut state = SessionState::new();
    state.session_active = true;
    state.awaiting = Some("sms".to_string());
    state.stdin_open = true;
    let big = "x".repeat(5000);
    let err = state.check_submission(&big, Some("sms")).unwrap_err();
    assert!(matches!(err, SubmitInputError::TooLong), "got {err:?}");
}

#[test]
fn submit_input_matching_kind_proceeds_when_running() {
    let mut state = SessionState::new();
    state.session_active = true;
    state.awaiting = Some("sms".to_string());
    let err = state.check_submission("1234", Some("sms")).unwrap_err();
    assert!(matches!(err, SubmitInputError::NotRunning), "got {err:?}");
}

#[test]
fn submit_input_rejects_empty_value() {
    let state = SessionState::new();
    let err = state.check_submission("   ", Some("sms")).unwrap_err();
    assert!(matches!(err, SubmitInputError::Empty), "got {err:?}");
}

#[test]
fn submit_input_returns_not_running_when_idle() {
    let mut state = SessionState::new();
    state.awaiting = Some("sms".to_string());
    let err = state.check_submission("1234", Some("sms")).unwrap_err();
    assert!(matches!(err, SubmitInputError::NotRunning), "got {err:?}");
}

#[test]
fn submit_input_clears_awaiting_and_emits_running() {
    let mut state = SessionState::new();
    state.session_active = true;
    state.awaiting = Some("sms".to_string());
    state.stdin_open = true;
    let line = state.check_submission(" 1234 ", Some("sms")).unwrap();
    assert_eq!(line, "1234");
    state.input_delivered();
    assert!(state.awaiting.is_none());
    let event = state.state_event(ProxyState::Running, None);
    assert!(matches!(
        event,
        ProxyEvent::State {
            state: ProxyState::Running,
            running: true,
            ..
        }
    ));
    let again = state.check_submission("1234", Some("sms")).unwrap_err();
    assert!(matches!(again, SubmitInputError::NotAwaiting));
}

#[test]
fn open_eip_manual_requires_connected_session() {
    let mut state = SessionState::new();
    assert!(matches!(
        state.eip_options_if_connected().unwrap_err(),
        OpenEipManualError::NotConnected
    ));
    state.session_active = true;
    state.ready = false;
    assert!(matches!(
        state.eip_options_if_connected().unwrap_err(),
        OpenEipManualError::NotConnected
    ));
}

#[test]
fn open_eip_manual_uses_live_session_options_and_reports_errors() {
    let mut state = SessionState::new();
    state.session_active = true;
    state.ready = true;
    state.eip_options = LaunchOptions {
        tun_mode: false,
        socks_bind: "127.0.0.1:9999".into(),
        ..LaunchOptions::default()
    };
    let options = state.eip_options_if_connected().expect("connected");
    assert_eq!(options.socks_bind, "127.0.0.1:9999");
    let err = OpenEipManualError::Open(OpenEipError::Spawn(std::io::Error::other("no browser")));
    assert_eq!(err.message(), "failed to spawn browser process: no browser");
    assert_eq!(OpenEipManualError::NotConnected.message(), "尚未连接，无法打开 EIP");
}

#[test]
fn start_and_stop_lifecycle() {
    let mut state = SessionState::new();
    assert!(state.begin_start().is_ok());
    let options = LaunchOptions::default();
    let generation = state.activate_session(&options);
    assert_eq!(generation, 1);
    assert!(state.register_child(generation, Some(42)).is_ok());
    assert!(matches!(state.begin_start(), Err(StartError::AlreadyRunning)));
    assert!(matches!(
        state.register_child(generation, Some(43)),
        Err(StartError::SessionStopped)
    ));
    let plan = state.stop();
    assert!(plan.signal_child && plan.child_present);
    assert!(!state.session_active);
    state.child_exited();
    assert!(matches!(state.decide_exit_action(generation), ExitAction::EmitStopped));
    assert!(state.snapshot().child_pid.is_none());
}

#[test]
fn stop_when_idle_emits_stopped_state() {
    let mut state = SessionState::new();
    let plan = state.stop();
    assert!(!plan.child_present && !plan.signal_child);
    let event = state.state_event(ProxyState::Stopped, None);
    assert!(matches!(
        event,
        ProxyEvent::State {
            state: ProxyState::Stopped,
            running: false,
            ..
        }
    ));
}

#[test]
fn ready_wait_and_retry_flow() {
    let mut state = state_with_session(4);
    let g = state.begin_ready_wait().expect("first wait");
    assert!(state.begin_ready_wait().is_none());
    assert!(state.should_continue_ready_wait(g));
    state.eip_options.eip_auto_open = true;
    assert_eq!(state.mark_ready(g), Some(true));
    assert_eq!(state.mark_ready(g), None);
    assert!(state.eip_open_still_valid(g));
    state.mark_eip_opened(g);
    assert!(state.eip_opened);

    assert!(matches!(state.decide_exit_action(g), ExitAction::ScheduleRetry));
    let config = ProxyManagerConfig::default();
    let (attempt, delay, retry_gen) = state.schedule_retry(&config, no_jitter);
    assert_eq!((attempt, delay, retry_gen), (1, 1000, 5));
    let (attempt, delay, _) = state.schedule_retry(&config, no_jitter);
    assert_eq!((attempt, delay), (2, 2000));
    assert!(state.retry_options(retry_gen).is_some());
    assert!(state.retry_options(retry_gen + 1).is_none());
}

#[test]
fn prompts_are_announced_once() {
    let mut state = state_with_session(1);
    assert!(state.request_input(InputKind::Sms));
    assert!(!state.request_input(InputKind::Sms));
    assert!(state.request_captcha());
    assert!(!state.request_captcha());
    assert_eq!(state.awaiting.as_deref(), Some("captcha"));
    assert!(state.captcha_still_owned());
    assert!(state.captcha_timed_out());
    assert!(state.awaiting.is_none());
    state.captcha_poll_finished();
    assert!(!state.captcha_polling);
}

#[test]
fn log_lines_are_trimmed_classified_and_trigger_readiness() {
    let state = state_with_session(1);
    let r = state.log_line_reaction("  [INFO] VPN client started  ");
    assert_eq!(r.log.as_deref(), Some("[INFO] VPN client started"));
    assert!(r.begin_ready_wait);
    assert!(r.prompt.is_none());
    let r = state.log_line_reaction("   ");
    assert!(r.log.is_none() && !r.begin_ready_wait);
    let r = state.log_line_reaction("Please enter SMS code");
    assert_eq!(r.prompt, Some(DetectedPrompt::Sms));
    let mut tun = state_with_session(1);
    tun.eip_options.tun_mode = true;
    assert!(!tun.log_line_reaction("VPN client started").begin_ready_wait);
    assert!(tun.log_line_reaction("Add route to 10.0.0.0/8").begin_ready_wait);
}

#[test]
fn prompt_requests() {
    assert_eq!(
        prompt_request(DetectedPrompt::Sms),
        PromptRequest::Input(InputKind::Sms, "Please enter the SMS code")
    );
    assert_eq!(
        prompt_request(DetectedPrompt::Callback),
        PromptRequest::Input(InputKind::Callback, "Please enter the callback URL")
    );
    assert_eq!(prompt_request(DetectedPrompt::Captcha), PromptRequest::Captcha);
}

#[test]
fn start_preparation() {
    let options = LaunchOptions {
        username: "alice".into(),
        password: "p".into(),
        ..LaunchOptions::default()
    };
    let prepared = prepare_start(options.clone(), "/opt/app", true, TargetOs::Linux).unwrap();
    assert_eq!(prepared.client_data_file, "/opt/app/client_data.json");
    let absolute = LaunchOptions {
        client_data_file: "/var/lib/cd.json".into(),
        ..options.clone()
    };
    assert_eq!(
        prepare_start(absolute, "/opt/app", true, TargetOs::Linux)
            .unwrap()
            .client_data_file,
        "/var/lib/cd.json"
    );
    let tun = LaunchOptions {
        tun_mode: true,
        ..options.clone()
    };
    assert!(matches!(
        prepare_start(tun, "/opt/app", false, TargetOs::Linux),
        Err(StartError::NeedsElevation)
    ));
    let no_user = LaunchOptions::default();
    assert!(matches!(
        prepare_start(no_user, "/opt/app", true, TargetOs::Linux),
        Err(StartError::Validation(ValidationError::EmptyUsername))
    ));
}

#[test]
fn start_preparation_follows_the_platform() {
    let options = LaunchOptions {
        username: "alice".into(),
        password: "p".into(),
        ..LaunchOptions::default()
    };
    assert_eq!(
        prepare_start(options.clone(), r"C:\app", true, TargetOs::Windows).unwrap().client_data_file,
        r"C:\app\client_data.json"
    );
    let absolute = LaunchOptions {
        client_data_file: r"D:\data\cd.json".into(),
        ..options.clone()
    };
    assert_eq!(
        prepare_start(absolute, r"C:\app", true, TargetOs::Windows).unwrap().client_data_file,
        r"D:\data\cd.json"
    );
    let rooted = LaunchOptions {
        client_data_file: r"\data\cd.json".into(),
        ..options.clone()
    };
    assert_eq!(
        prepare_start(rooted, r"C:\app", true, TargetOs::Windows).unwrap().client_data_file,
        r"C:\data\cd.json"
    );
    let pb = LaunchOptions {
        proxybridge_enabled: true,
        proxybridge_processes: vec!["chrome.exe".into()],
        ..options.clone()
    };
    assert!(matches!(
        prepare_start(pb.clone(), r"C:\app", false, TargetOs::Windows),
        Err(StartError::NeedsElevation)
    ));
    assert!(prepare_start(pb.clone(), r"C:\app", false, TargetOs::WindowsArm64).is_ok());
    let tun = LaunchOptions { tun_mode: true, ..options };
    assert!(matches!(
        prepare_start(tun, r"C:\app", false, TargetOs::WindowsArm64),
        Err(StartError::NeedsElevation)
    ));
}

#[test]
fn a_refused_start_changes_nothing() {
    let options = LaunchOptions {
        username: "alice".into(),
        password: "p".into(),
        ..LaunchOptions::default()
    };
    let mut state = SessionState::new();
    let before = state.snapshot();
    assert!(matches!(
        state.start_session(LaunchOptions::default(), "/opt/app", true, TargetOs::Linux),
        Err(StartError::Validation(ValidationError::EmptyUsername))
    ));
    assert_eq!(state.snapshot(), before);

    let (prepared, generation) = state.start_session(options.clone(), "/opt/app", true, TargetOs::Linux).unwrap();
    assert_eq!(prepared.client_data_file, "/opt/app/client_data.json");
    assert_eq!(generation, 1);
    assert!(state.is_running());
    assert!(state.register_child(generation, Some(42)).is_ok());
    let running = state.snapshot();
    assert!(matches!(
        state.start_session(options, "/opt/app", true, TargetOs::Linux),
        Err(StartError::AlreadyRunning)
    ));
    assert_eq!(state.snapshot(), running);
}

#[test]
fn start_returns_binary_missing_when_path_does_not_exist() {
    let config = ProxyManagerConfig::default();
    assert_eq!(
        binary_path(&config, "/opt/app", TargetOs::Linux),
        "/opt/app/bin/zju-connect"
    );
    assert_eq!(
        binary_path(&config, r"C:\app", TargetOs::Windows),
        r"C:\app\bin\zju-connect.exe"
    );
    let err = StartError::BinaryMissing("/nonexistent/zju-connect".into());
    assert_eq!(err.message(), "zju-connect binary not found: /nonexistent/zju-connect");
    assert_eq!(captcha_path("/opt/app", TargetOs::Linux), "/opt/app/gui_captcha.png");

    // The start steps up to the spawn, then the teardown a missing binary
    // triggers: the session is no longer running and holds nothing.
    let mut state = SessionState::new();
    assert!(state.begin_start().is_ok());
    let generation = state.activate_session(&LaunchOptions::default());
    assert!(state.is_running());
    assert_eq!(state.cleanup_failed_start(generation), Some(false));
    assert!(!state.is_running());
    let snap = state.snapshot();
    assert!(!snap.session_active);
    assert!(snap.child_pid.is_none());
    assert!(snap.awaiting.is_none());
}

#[test]
fn eip_open_delay_is_three_to_five_seconds() {
    assert_eq!(clamp_eip_open_delay(0), 3000);
    assert_eq!(clamp_eip_open_delay(4000), 4000);
    assert_eq!(clamp_eip_open_delay(9000), 5000);
    for _ in 0..20 {
        let d = default_eip_auto_open_delay();
        assert!((3000..=5000).contains(&d) && d % 1000 == 0);
    }
}

#[test]
fn error_and_reconnect_messages() {
    assert_eq!(StartError::NeedsElevation.message(), "tun mode requires elevated application restart");
    assert_eq!(
        StartError::Validation(ValidationError::EmptyServer).message(),
        "invalid options: server cannot be empty"
    );
    assert_eq!(StopError::Timeout.message(), "timeout waiting for process to stop");
    assert_eq!(SubmitInputError::TooLong.message(), "input is too long (max 4096 bytes)");
    assert_eq!(
        awaiting_blocked_log("sms"),
        "[reconnect] process exited while awaiting sms; automatic reconnect paused until manual restart"
    );
    assert_eq!(awaiting_blocked_message("sms"), "连接在等待 sms 时中断，请手动重新连接");
    assert_eq!(
        retry_scheduled_log("exit status: 1", 2000, 2),
        "[reconnect] process exited (exit status: 1), retrying in 2 秒 (attempt 2)"
    );
    assert_eq!(retry_scheduled_message(60000, 7), "连接已断开，将在 1 分钟 后重试（第 7 次）");
    assert_eq!(
        retry_failed_log("boom", 1000, 1),
        "[reconnect] retry start failed: boom; retrying in 1 秒 (attempt 1)"
    );
    assert_eq!(retry_failed_message(125000, 3), "重新连接失败，将在 2 分 5 秒 后重试（第 3 次）");
}
