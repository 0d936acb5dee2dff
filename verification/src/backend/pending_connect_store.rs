//! The marker an elevated restart leaves for itself: "connect again once
//! restarted". It is honoured only while fresh.

use vstd::prelude::*;

use crate::backend::platform::TargetOs;

verus! {

pub const PENDING_CONNECT_FILE_NAME: &'static str = "gui_pending_connect.json";

/// How old a marker may be and still be honoured (ms).
pub const PENDING_CONNECT_MAX_AGE: i64 = 300000;

/// Where the marker lives: in the application directory. Reading, writing
/// and removing the file is the application's part.
#[derive(Debug, Clone, PartialEq, Eq)]
pub struct PendingConnectStore {
    pub path: String,
}

impl PendingConnectStore {
    /// The store of the application directory `app_dir` on `os`.
    pub fn new(app_dir: &str, os: TargetOs) -> (r: Self)
        ensures
            r.path@ == crate::backend::paths::join_for(os, app_dir@, PENDING_CONNECT_FILE_NAME@),
    {
        PendingConnectStore {
            path: crate::backend::paths::join_under(os, app_dir, PENDING_CONNECT_FILE_NAME),
        }
    }
}

/// What reading the marker means.
#[derive(Debug, Clone, Copy, PartialEq, Eq, Structural)]
pub struct ResumeCheck {
    /// Whether to connect again now.
    pub resume: bool,
    /// The marker is stale and must be removed.
    pub remove_stale: bool,
}

/// The verdict on a marker read at `now_ms`: `marker` holds its resume
/// flag and creation time (ms since the epoch), `None` when there is no
/// marker. A marker older than the maximum age is stale: no resume, and it
/// is removed.
pub fn resume_check(marker: Option<(bool, i64)>, now_ms: i64) -> (r: ResumeCheck)
    ensures
        r == resume_check_spec(marker, now_ms),
        marker is None ==> !r.resume && !r.remove_stale,
        marker matches Some((flag, created)) ==> if now_ms - created > PENDING_CONNECT_MAX_AGE {
            !r.resume && r.remove_stale
        } else {
            r.resume == flag && !r.remove_stale
        },
{
    match marker {
        None => ResumeCheck { resume: false, remove_stale: false },
        Some((flag, created)) => {
            let age: i128 = now_ms as i128 - created as i128;
            if age > PENDING_CONNECT_MAX_AGE as i128 {
                ResumeCheck { resume: false, remove_stale: true }
            } else {
                ResumeCheck { resume: flag, remove_stale: false }
            }
        },
    }
}

/// The marker written at `now_ms`: resume once restarted, created now.
pub open spec fn marker_spec(now_ms: i64) -> (bool, i64) {
    (true, now_ms)
}

/// The marker to write when an elevated restart is requested at `now_ms`.
pub fn new_marker(now_ms: i64) -> (r: (bool, i64))
    ensures
        r == marker_spec(now_ms),
{
    (true, now_ms)
}

/// The verdict on a marker (see [`resume_check`]).
pub open spec fn resume_check_spec(marker: Option<(bool, i64)>, now_ms: i64) -> ResumeCheck {
    match marker {
        None => ResumeCheck { resume: false, remove_stale: false },
        Some((flag, created)) => if now_ms - created > PENDING_CONNECT_MAX_AGE {
            ResumeCheck { resume: false, remove_stale: true }
        } else {
            ResumeCheck { resume: flag, remove_stale: false }
        },
    }
}

/// Marking, then reading: a marker written at `t` and read at `now`, no
/// later than the maximum age after it, asks to connect again; read any
/// later, it is stale and removed without a resume; once cleared (no
/// marker), reading asks for nothing.
pub proof fn lemma_mark_read_clear(t: i64, now: i64)
    ensures
        now - t <= PENDING_CONNECT_MAX_AGE ==> resume_check_spec(Some(marker_spec(t)), now)
            == (ResumeCheck { resume: true, remove_stale: false }),
        now - t > PENDING_CONNECT_MAX_AGE ==> resume_check_spec(Some(marker_spec(t)), now)
            == (ResumeCheck { resume: false, remove_stale: true }),
        resume_check_spec(None, now) == (ResumeCheck { resume: false, remove_stale: false }),
{
}

} // verus!
