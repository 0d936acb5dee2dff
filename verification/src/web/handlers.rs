//! The shapes of the web API's requests and answers, and how the API
//! answers a refused start.

use vstd::prelude::*;

use crate::backend::launch_options::{self, LaunchOptions};
use crate::backend::proxy::manager::{StartError, StateSnapshot};

verus! {

pub const STATUS_OK: u16 = 200;

pub const STATUS_BAD_REQUEST: u16 = 400;

pub const STATUS_CONFLICT: u16 = 409;

pub const STATUS_PRECONDITION_FAILED: u16 = 412;

pub const STATUS_INTERNAL_SERVER_ERROR: u16 = 500;

/// `POST /api/start`: the options to start with, or none to use the
/// stored settings.
pub struct StartRequest {
    pub options: Option<LaunchOptions>,
}

/// `POST /api/elevate`: the options that need an elevated restart.
pub struct ElevateRequest {
    pub options: LaunchOptions,
}

/// `POST /api/submit-input`: a typed value and the prompt kind it answers
/// (`sms`, `callback` or `captcha`).
pub struct SubmitInputRequest {
    pub value: String,
    pub kind: Option<String>,
}

/// `GET /api/status`.
#[derive(Debug, Clone, PartialEq, Eq)]
pub struct StatusSnapshot {
    pub session_active: bool,
    pub ready: bool,
    pub awaiting: Option<String>,
}

/// The HTTP status of a refused start: a conflict while a session runs or
/// after it ended, a bad request for invalid options, a failed
/// precondition when elevation is needed, a server error otherwise.
pub open spec fn start_error_status_spec(e: StartError) -> u16 {
    match e {
        StartError::AlreadyRunning => STATUS_CONFLICT,
        StartError::SessionStopped => STATUS_CONFLICT,
        StartError::Validation(_) => STATUS_BAD_REQUEST,
        StartError::NeedsElevation => STATUS_PRECONDITION_FAILED,
        _ => STATUS_INTERNAL_SERVER_ERROR,
    }
}

pub fn start_error_status(e: &StartError) -> (r: u16)
    ensures
        r == start_error_status_spec(*e),
{
    match e {
        StartError::AlreadyRunning => STATUS_CONFLICT,
        StartError::SessionStopped => STATUS_CONFLICT,
        StartError::Validation(_) => STATUS_BAD_REQUEST,
        StartError::NeedsElevation => STATUS_PRECONDITION_FAILED,
        _ => STATUS_INTERNAL_SERVER_ERROR,
    }
}

impl StatusSnapshot {
    /// The public part of the supervisor's state.
    pub fn from_snapshot(s: &StateSnapshot) -> (r: StatusSnapshot)
        ensures
            r.session_active == s.session_active,
            r.ready == s.ready,
            launch_options::opt_view(r.awaiting) == launch_options::opt_view(s.awaiting),
    {
        StatusSnapshot {
            session_active: s.session_active,
            ready: s.ready,
            awaiting: match &s.awaiting {
                Some(a) => Some(a.clone()),
                None => None,
            },
        }
    }
}

impl StartRequest {
    /// The request's own options, normalized; `None` when the stored
    /// settings are to be used.
    pub fn requested_options(self) -> (r: Option<LaunchOptions>)
        ensures
            match self.options {
                Some(o) => r matches Some(n) && n@ == launch_options::normalize_spec(o@),
                None => r is None,
            },
    {
        match self.options {
            Some(o) => Some(launch_options::normalize_launch_options(o)),
            None => None,
        }
    }
}

/// `POST /api/open-eip`: the options picked in the UI, or none to use the
/// stored settings.
pub struct OpenEipRequest {
    pub options: Option<LaunchOptions>,
}

impl OpenEipRequest {
    /// The options the EIP portal is opened with: the request's own,
    /// normalized, win over the stored ones.
    pub fn effective_options(self, stored: LaunchOptions) -> (r: LaunchOptions)
        ensures
            match self.options {
                Some(o) => r@ == launch_options::normalize_spec(o@),
                None => r@ == stored@,
            },
    {
        match self.options {
            Some(o) => launch_options::normalize_launch_options(o),
            None => stored,
        }
    }
}

impl ElevateRequest {
    /// The options to store before the elevated restart, normalized.
    pub fn normalized_options(self) -> (r: LaunchOptions)
        ensures
            r@ == launch_options::normalize_spec(self.options@),
    {
        launch_options::normalize_launch_options(self.options)
    }
}

} // verus!
