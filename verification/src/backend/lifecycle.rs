//! Start-up and shut-down decisions of the application: taking the
//! single-instance lock (an elevated restart waits for its parent to let
//! go of it) and waiting for the client process to exit before quitting.
//! The caller performs each step (trying the lock, probing the parent,
//! sleeping) and hands the outcome back.

use vstd::prelude::*;

verus! {

/// How long an elevated restart keeps trying to take the lock, in ms. The
/// parent lets go of it only once the elevation prompt has been answered.
pub const ELEVATED_LOCK_WAIT: u64 = 300_000;

/// The pause between two attempts at the lock, in ms.
pub const LOCK_RETRY_INTERVAL: u64 = 200;

/// How long one probe waits for the parent process to exit, in ms.
pub const PARENT_EXIT_PROBE: u64 = 100;

/// How often the client process is checked for exit at shutdown.
pub const SHUTDOWN_POLLS: u32 = 70;

/// The pause between two of those checks, in ms.
pub const SHUTDOWN_POLL_INTERVAL: u64 = 100;

/// What one attempt at the single-instance lock gave.
#[derive(Debug, Clone, Copy, PartialEq, Eq, Structural)]
pub enum LockOutcome {
    Acquired,
    AlreadyRunning,
    /// The lock could not be checked at all (an I/O error).
    Unavailable,
}

/// Why the application gives up at start-up.
#[derive(Debug, Clone, Copy, PartialEq, Eq, Structural)]
pub enum LockExit {
    /// Another instance runs (a normal launch).
    AlreadyRunning,
    /// The parent has exited, yet the lock is still taken: another instance
    /// owns it.
    HeldElsewhere,
    /// The parent never let go of the lock in time, or it could not be
    /// checked.
    NeverReleased,
}

/// The next step at start-up.
#[derive(Debug, Clone, Copy, PartialEq, Eq, Structural)]
pub enum LockStep {
    /// Try to take the lock.
    Attempt,
    /// Go on starting, holding the lock or (when it could not be checked)
    /// without it.
    Run { locked: bool },
    /// Probe whether the parent process has exited, for
    /// [`PARENT_EXIT_PROBE`] ms.
    CheckParent,
    /// Sleep this many ms, then try again.
    RetryAfter(u64),
    /// Stop the application.
    Exit(LockExit),
}

/// An elevated restart, `elapsed` ms after it began waiting: it tries the
/// lock while the wait lasts and gives up after it.
pub fn elevated_wait_step(elapsed: u64) -> (r: LockStep)
    ensures
        elapsed < ELEVATED_LOCK_WAIT ==> r == LockStep::Attempt,
        elapsed >= ELEVATED_LOCK_WAIT ==> r == LockStep::Exit(LockExit::NeverReleased),
{
    if elapsed < ELEVATED_LOCK_WAIT {
        LockStep::Attempt
    } else {
        LockStep::Exit(LockExit::NeverReleased)
    }
}

/// What follows an attempt at the lock. A normal launch refuses to run
/// beside another instance but runs unlocked when the lock cannot be
/// checked; an elevated restart runs only once it holds the lock, and
/// while the lock is taken it looks at whether its parent is gone.
pub open spec fn lock_outcome_step_spec(elevated: bool, outcome: LockOutcome) -> LockStep {
    match outcome {
        LockOutcome::Acquired => LockStep::Run { locked: true },
        LockOutcome::AlreadyRunning => if elevated {
            LockStep::CheckParent
        } else {
            LockStep::Exit(LockExit::AlreadyRunning)
        },
        LockOutcome::Unavailable => if elevated {
            LockStep::Exit(LockExit::NeverReleased)
        } else {
            LockStep::Run { locked: false }
        },
    }
}

/// The step [`lock_outcome_step_spec`] gives.
pub fn lock_outcome_step(elevated: bool, outcome: LockOutcome) -> (r: LockStep)
    ensures
        r == lock_outcome_step_spec(elevated, outcome),
{
    match outcome {
        LockOutcome::Acquired => LockStep::Run { locked: true },
        LockOutcome::AlreadyRunning => if elevated {
            LockStep::CheckParent
        } else {
            LockStep::Exit(LockExit::AlreadyRunning)
        },
        LockOutcome::Unavailable => if elevated {
            LockStep::Exit(LockExit::NeverReleased)
        } else {
            LockStep::Run { locked: false }
        },
    }
}

/// What follows the probe of the parent while the lock is taken: a parent
/// that is gone leaves nothing to wait for; otherwise try again after the
/// retry interval.
pub fn parent_check_step(parent_gone: bool) -> (r: LockStep)
    ensures
        parent_gone ==> r == LockStep::Exit(LockExit::HeldElsewhere),
        !parent_gone ==> r == LockStep::RetryAfter(LOCK_RETRY_INTERVAL),
{
    if parent_gone {
        LockStep::Exit(LockExit::HeldElsewhere)
    } else {
        LockStep::RetryAfter(LOCK_RETRY_INTERVAL)
    }
}

impl LockExit {
    /// The log line for giving up.
    pub fn message(&self) -> (r: &'static str)
        ensures
            *self == LockExit::AlreadyRunning ==> r@ == "zju-connect-gui is already running; exiting"@,
            *self == LockExit::HeldElsewhere ==> r@
                == "parent instance exited but the lock is held elsewhere; exiting"@,
            *self == LockExit::NeverReleased ==> r@
                == "parent instance never released the instance lock; exiting"@,
    {
        match self {
            LockExit::AlreadyRunning => "zju-connect-gui is already running; exiting",
            LockExit::HeldElsewhere => "parent instance exited but the lock is held elsewhere; exiting",
            LockExit::NeverReleased => "parent instance never released the instance lock; exiting",
        }
    }
}

/// An elevated restart never runs without the lock, and a normal launch
/// stops only beside a running instance.
pub proof fn lemma_start_runs_only_as_the_single_instance(elevated: bool, outcome: LockOutcome)
    ensures
        elevated && lock_outcome_step_spec(elevated, outcome) is Run
            ==> lock_outcome_step_spec(elevated, outcome) == (LockStep::Run { locked: true }),
        !elevated && lock_outcome_step_spec(elevated, outcome) is Exit ==> outcome
            == LockOutcome::AlreadyRunning,
{
}

/// At shutdown, after `polls` checks: keep waiting while the client still
/// runs and fewer than [`SHUTDOWN_POLLS`] checks have been made.
pub fn shutdown_wait_continues(polls: u32, child_running: bool) -> (r: bool)
    ensures
        r == (child_running && polls < SHUTDOWN_POLLS),
{
    child_running && polls < SHUTDOWN_POLLS
}

} // verus!
