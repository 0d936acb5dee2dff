use zju_connect_gui::backend::paths::{
    binary_path_under, is_absolute_on, is_absolute_path, join_path, join_path_on, join_under,
    join_windows_path,
};
use zju_connect_gui::backend::platform::TargetOs;
use zju_connect_gui::backend::proxy::readiness::readiness_dial_address;
use zju_connect_gui::backend::proxy::windivert::{
    driver_install, ensure_windivert_driver, first_service_step, missing_driver_message,
    service_wait_step, ServiceStart, ServiceState, SERVICE_WAIT_ATTEMPTS,
};

#[test]
fn unix_joins_like_path_join() {
    assert_eq!(join_path("/a", "b"), "/a/b");
    assert_eq!(join_path("/a/", "b"), "/a/b");
    assert_eq!(join_path("", "b"), "b");
    assert_eq!(join_path("/a", "/etc"), "/etc");
    assert!(is_absolute_path("/x"));
    assert!(!is_absolute_path("x/y"));
    assert_eq!(binary_path_under("/opt/app", TargetOs::Linux), "/opt/app/bin/zju-connect");
}

#[test]
fn windows_joins_with_backslashes() {
    assert_eq!(join_windows_path(r"C:\a", "b"), r"C:\a\b");
    assert_eq!(join_windows_path(r"C:\a\", "b"), r"C:\a\b");
    assert_eq!(join_windows_path("", "b"), "b");
}

#[test]
fn driver_files_and_service_wait() {
    assert!(ensure_windivert_driver("/opt/app").is_ok());
    let install = driver_install(r"C:\app");
    assert_eq!(install.sys_src, r"C:\app\proxybridge\WinDivert64.sys");
    assert_eq!(install.sys_dest, r"C:\Windows\System32\drivers\WinDivert64.sys");
    assert_eq!(install.dll_dest, r"C:\app\WinDivert.dll");
    assert_eq!(
        missing_driver_message("x.sys"),
        "WinDivert driver is not installed and no bundled copy was found at x.sys"
    );
    assert_eq!(first_service_step(ServiceState::Running), ServiceStart::AlreadyRunning);
    assert_eq!(first_service_step(ServiceState::StartPending), ServiceStart::WaitOnly);
    assert_eq!(first_service_step(ServiceState::Stopped), ServiceStart::Start);
    assert_eq!(service_wait_step(ServiceState::Running, 3), Some(Ok(())));
    assert_eq!(service_wait_step(ServiceState::StartPending, 3), None);
    assert_eq!(
        service_wait_step(ServiceState::StartPending, SERVICE_WAIT_ATTEMPTS),
        Some(Err("WinDivert service did not reach RUNNING within 5s".to_string()))
    );
    assert_eq!(
        service_wait_step(ServiceState::Stopped, 1),
        Some(Err("WinDivert service stopped immediately after start".to_string()))
    );
    assert_eq!(readiness_dial_address("0.0.0.0:1"), "127.0.0.1:1");
}

#[test]
fn paths_follow_the_platform() {
    assert!(is_absolute_on(TargetOs::Windows, r"C:\data"));
    assert!(is_absolute_on(TargetOs::WindowsArm64, r"d:/data"));
    assert!(is_absolute_on(TargetOs::Windows, r"\\server\share\x"));
    assert!(!is_absolute_on(TargetOs::Windows, r"\data"));
    assert!(!is_absolute_on(TargetOs::Windows, "C:data"));
    assert!(!is_absolute_on(TargetOs::Windows, "/data"));
    assert!(is_absolute_on(TargetOs::Linux, "/data"));
    assert!(!is_absolute_on(TargetOs::Linux, r"C:\data"));
    assert_eq!(join_path_on(TargetOs::Windows, r"C:\app", "cd.json"), r"C:\app\cd.json");
    assert_eq!(join_path_on(TargetOs::Windows, r"C:\app", r"D:\x\cd.json"), r"D:\x\cd.json");
    assert_eq!(join_path_on(TargetOs::Windows, r"C:\app", r"\x\cd.json"), r"C:\x\cd.json");
    assert_eq!(join_path_on(TargetOs::Windows, r"C:\app", "E:cd.json"), "E:cd.json");
    assert_eq!(join_path_on(TargetOs::Linux, "/opt/app", "cd.json"), "/opt/app/cd.json");
    assert_eq!(join_under(TargetOs::WindowsArm64, r"C:\app", "bin"), r"C:\app\bin");
    assert_eq!(
        binary_path_under(r"C:\app", TargetOs::WindowsArm64),
        r"C:\app\bin\zju-connect.exe"
    );
}
