//! Platform facts the library needs, and the errors of the elevation flow.

pub mod unix_impl;
pub mod windows_impl;

use vstd::prelude::*;

verus! {

/// The platform the application was built for. Windows is split by
/// architecture because the ProxyBridge core exists only for x86_64
/// Windows: upstream ships no WinDivert build for arm64.
#[derive(Debug, Clone, Copy, PartialEq, Eq, Structural)]
pub enum TargetOs {
    /// Windows on x86_64.
    Windows,
    /// Windows on any other architecture (arm64).
    WindowsArm64,
    Linux,
    MacOs,
    Other,
}

/// Either Windows build.
pub open spec fn is_windows_spec(os: TargetOs) -> bool {
    os == TargetOs::Windows || os == TargetOs::WindowsArm64
}

impl TargetOs {
    /// Whether this is a Windows build, whatever the architecture.
    pub fn is_windows(&self) -> (r: bool)
        ensures
            r == is_windows_spec(*self),
    {
        match self {
            TargetOs::Windows | TargetOs::WindowsArm64 => true,
            _ => false,
        }
    }
}

/// An I/O error from the standard library, carried through unchanged.
#[verifier::external_type_specification]
#[verifier::external_body]
pub struct ExIoError(std::io::Error);

#[derive(Debug)]
pub enum ElevationError {
    Unsupported,
    UserCancelled,
    Io(String),
    Failed(String),
}

#[derive(Debug)]
pub enum WaitError {
    Io(std::io::Error),
    Timeout,
}

/// The text of an I/O error (its `Display`). What it says depends on the
/// operating system, so nothing is stated of it.
#[verifier::external_body]
pub(crate) fn io_error_text(e: &std::io::Error) -> (r: String) {
    e.to_string()
}

/// `prefix` followed by the text of `e`.
pub fn prefixed_io_error(prefix: &str, e: &std::io::Error) -> (r: String)
    ensures
        crate::text::has_prefix(r@, prefix@),
{
    let mut out = String::new();
    crate::text::append_str(&mut out, prefix);
    let t = io_error_text(e);
    crate::text::append_str(&mut out, t.as_str());
    assert(out@.subrange(0, prefix@.len() as int) =~= prefix@);
    out
}

impl ElevationError {
    /// The user-facing text of the error.
    pub fn message(&self) -> (r: String)
        ensures
            *self is Unsupported ==> r@ == "elevation is not supported on this platform"@,
            *self is UserCancelled ==> r@ == "user declined elevation prompt"@,
            self matches ElevationError::Io(m) ==> r@ == "io error during elevation: "@ + m@,
            self matches ElevationError::Failed(m) ==> r@ == "elevation failed: "@ + m@,
    {
        let mut out = String::new();
        match self {
            ElevationError::Unsupported => crate::text::append_str(&mut out, "elevation is not supported on this platform"),
            ElevationError::UserCancelled => crate::text::append_str(&mut out, "user declined elevation prompt"),
            ElevationError::Io(m) => {
                crate::text::append_str(&mut out, "io error during elevation: ");
                crate::text::append_str(&mut out, m.as_str());
            },
            ElevationError::Failed(m) => {
                crate::text::append_str(&mut out, "elevation failed: ");
                crate::text::append_str(&mut out, m.as_str());
            },
        }
        proof {
            match self {
                ElevationError::Io(m) => assert(out@ =~= "io error during elevation: "@ + m@),
                ElevationError::Failed(m) => assert(out@ =~= "elevation failed: "@ + m@),
                ElevationError::Unsupported => assert(out@ =~= "elevation is not supported on this platform"@),
                ElevationError::UserCancelled => assert(out@ =~= "user declined elevation prompt"@),
            }
        }
        out
    }
}

impl WaitError {
    /// The user-facing text of the error.
    pub fn message(&self) -> (r: String)
        ensures
            *self is Timeout ==> r@ == "timed out waiting for process exit"@,
            *self is Io ==> crate::text::has_prefix(r@, "io error during wait: "@),
    {
        match self {
            WaitError::Io(e) => prefixed_io_error("io error during wait: ", e),
            WaitError::Timeout => "timed out waiting for process exit".to_owned(),
        }
    }
}

} // verus!
