//! WinDivert kernel driver management.
//!
//! On Windows, ProxyBridge intercepts traffic through the WinDivert kernel
//! driver, which is installed from the copy bundled under `proxybridge/`
//! when missing. The library holds the file layout of that installation
//! and the decisions of the wait for the driver service; the service calls
//! themselves belong to the application. Elsewhere there is nothing to do.

use vstd::prelude::*;

use crate::backend::paths;
use crate::text;

verus! {

/// File name of the kernel driver.
pub const DRIVER_FILE_NAME: &'static str = "WinDivert64.sys";

/// Where kernel drivers are installed.
pub const DRIVER_INSTALL_DIR: &'static str = "C:\\Windows\\System32\\drivers";

/// File name of the user-mode library.
pub const DLL_FILE_NAME: &'static str = "WinDivert.dll";

/// The service's binary path, relative to the system root so it survives
/// a Windows installed on another drive.
pub const DRIVER_BIN_PATH: &'static str = "\\SystemRoot\\System32\\drivers\\WinDivert64.sys";

/// How many times the service state is checked after a start (every
/// `SERVICE_POLL_INTERVAL_MS`), i.e. five seconds in all.
pub const SERVICE_WAIT_ATTEMPTS: u32 = 50;

pub const SERVICE_POLL_INTERVAL_MS: u64 = 100;

/// Ensures the WinDivert driver service runs. Outside Windows there is no
/// driver to manage, and this succeeds at once.
pub fn ensure_windivert_driver(app_dir: &str) -> (r: Result<(), String>)
    ensures
        r is Ok,
{
    Ok(())
}

/// The files of a driver installation from the bundle under `app_dir`.
#[derive(Debug, Clone, PartialEq, Eq)]
pub struct DriverInstall {
    /// The bundled driver (`<app_dir>\proxybridge\WinDivert64.sys`).
    pub sys_src: String,
    /// Where the driver is copied to.
    pub sys_dest: String,
    /// The bundled user-mode library.
    pub dll_src: String,
    /// Where that library is copied to: next to the executable.
    pub dll_dest: String,
}

/// The bundle directory under `app_dir`.
pub open spec fn bundled_dir(app_dir: Seq<char>) -> Seq<char> {
    paths::join_windows(app_dir, "proxybridge"@)
}

/// The files of a driver installation from the bundle under `app_dir`.
pub fn driver_install(app_dir: &str) -> (r: DriverInstall)
    ensures
        r.sys_src@ == paths::join_windows(bundled_dir(app_dir@), DRIVER_FILE_NAME@),
        r.sys_dest@ == paths::join_windows(DRIVER_INSTALL_DIR@, DRIVER_FILE_NAME@),
        r.dll_src@ == paths::join_windows(bundled_dir(app_dir@), DLL_FILE_NAME@),
        r.dll_dest@ == paths::join_windows(app_dir@, DLL_FILE_NAME@),
{
    let bundled = paths::join_windows_path(app_dir, "proxybridge");
    DriverInstall {
        sys_src: paths::join_windows_path(bundled.as_str(), DRIVER_FILE_NAME),
        sys_dest: paths::join_windows_path(DRIVER_INSTALL_DIR, DRIVER_FILE_NAME),
        dll_src: paths::join_windows_path(bundled.as_str(), DLL_FILE_NAME),
        dll_dest: paths::join_windows_path(app_dir, DLL_FILE_NAME),
    }
}

/// The error when the driver is neither installed nor bundled.
pub fn missing_driver_message(sys_src: &str) -> (r: String)
    ensures
        r@ == "WinDivert driver is not installed and no bundled copy was found at "@ + sys_src@,
{
    let mut out = String::new();
    text::append_str(&mut out, "WinDivert driver is not installed and no bundled copy was found at ");
    text::append_str(&mut out, sys_src);
    out
}

/// The state a driver service reports.
#[derive(Debug, Clone, Copy, PartialEq, Eq, Structural)]
pub enum ServiceState {
    Running,
    StartPending,
    Stopped,
    Other,
}

/// What to do after the first status query.
#[derive(Debug, Clone, Copy, PartialEq, Eq, Structural)]
pub enum ServiceStart {
    /// Already running: done.
    AlreadyRunning,
    /// Start the service, then wait for it.
    Start,
    /// A start is under way: only wait.
    WaitOnly,
}

/// The decision after the first status query.
pub fn first_service_step(state: ServiceState) -> (r: ServiceStart)
    ensures
        state == ServiceState::Running ==> r == ServiceStart::AlreadyRunning,
        state == ServiceState::StartPending ==> r == ServiceStart::WaitOnly,
        state == ServiceState::Stopped || state == ServiceState::Other ==> r == ServiceStart::Start,
{
    match state {
        ServiceState::Running => ServiceStart::AlreadyRunning,
        ServiceState::StartPending => ServiceStart::WaitOnly,
        _ => ServiceStart::Start,
    }
}

/// The verdict after the `attempt`-th status query of the wait (counting
/// from 1): running is success, stopped is failure, and after the last
/// attempt the wait has timed out; otherwise `None`, keep waiting.
pub fn service_wait_step(state: ServiceState, attempt: u32) -> (r: Option<Result<(), String>>)
    ensures
        state == ServiceState::Running ==> r matches Some(Ok(())),
        state == ServiceState::Stopped ==> (r matches Some(Err(m)) && m@
            == "WinDivert service stopped immediately after start"@),
        state != ServiceState::Running && state != ServiceState::Stopped && attempt
            >= SERVICE_WAIT_ATTEMPTS ==> (r matches Some(Err(m)) && m@
            == "WinDivert service did not reach RUNNING within 5s"@),
        state != ServiceState::Running && state != ServiceState::Stopped && attempt
            < SERVICE_WAIT_ATTEMPTS ==> r is None,
{
    match state {
        ServiceState::Running => Some(Ok(())),
        ServiceState::Stopped => Some(Err("WinDivert service stopped immediately after start".to_owned())),
        _ => if attempt >= SERVICE_WAIT_ATTEMPTS {
            Some(Err("WinDivert service did not reach RUNNING within 5s".to_owned()))
        } else {
            None
        },
    }
}

} // verus!
