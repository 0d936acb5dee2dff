//! The proxy supervisor's session state machine.
//!
//! The supervisor (spawning `zju-connect`, piping its output, timers) runs
//! outside the library; every decision it takes about the session is a
//! transition of [`SessionState`] defined here. Each transition is stated as
//! a spec function over [`SessionView`], and the exec method that performs
//! it is proved to follow it.

use vstd::prelude::*;

use crate::backend::external_links::OpenEipError;
use crate::backend::launch_options::{self, LaunchOptions, LaunchOptionsView, ValidationError};
use crate::backend::paths;
use crate::backend::platform::{self, TargetOs};
use crate::backend::proxy::logs::{self, DetectedPrompt};
use crate::backend::proxy::{proxybridge, retry};
use crate::text;

verus! {

// ── Public vocabulary ─────────────────────────────────────────────────

/// Coarse connection states reported to the UI.
#[derive(Debug, Clone, Copy, PartialEq, Eq)]
pub enum ProxyState {
    Stopped,
    Running,
    Connected,
    Awaiting,
    Retrying,
    Connecting,
}

pub open spec fn proxy_state_name(s: ProxyState) -> Seq<char> {
    match s {
        ProxyState::Stopped => "stopped"@,
        ProxyState::Running => "running"@,
        ProxyState::Connected => "connected"@,
        ProxyState::Awaiting => "awaiting"@,
        ProxyState::Retrying => "retrying"@,
        ProxyState::Connecting => "connecting"@,
    }
}

impl ProxyState {
    pub fn as_str(&self) -> (r: &'static str)
        ensures
            r@ == proxy_state_name(*self),
    {
        match self {
            ProxyState::Stopped => "stopped",
            ProxyState::Running => "running",
            ProxyState::Connected => "connected",
            ProxyState::Awaiting => "awaiting",
            ProxyState::Retrying => "retrying",
            ProxyState::Connecting => "connecting",
        }
    }
}

/// Kinds of typed input the core can ask for.
#[derive(Debug, Clone, Copy, PartialEq, Eq)]
pub enum InputKind {
    Sms,
    Callback,
}

pub open spec fn input_kind_name(k: InputKind) -> Seq<char> {
    match k {
        InputKind::Sms => "sms"@,
        InputKind::Callback => "callback"@,
    }
}

impl InputKind {
    pub fn as_str(&self) -> (r: &'static str)
        ensures
            r@ == input_kind_name(*self),
    {
        match self {
            InputKind::Sms => "sms",
            InputKind::Callback => "callback",
        }
    }
}

/// Events the supervisor emits to the UI.
#[derive(Debug, Clone)]
pub enum ProxyEvent {
    Log(String),
    State {
        state: ProxyState,
        message: Option<String>,
        awaiting: Option<String>,
        running: bool,
        retry_attempt: u32,
        retry_delay_ms: u64,
    },
    NeedInput { kind: InputKind, prompt: String },
    NeedCaptcha { base64: String, updated_at_ms: i64 },
    Error(String),
}

/// Receiver of supervisor events (the web UI, a test harness, ...).
pub trait UiBridge: Send + Sync + 'static {
    fn emit_event(&self, event: ProxyEvent);

    fn show_window(&self);
}

/// Why a connection could not be started.
#[derive(Debug)]
pub enum StartError {
    AlreadyRunning,
    BinaryMissing(String),
    Validation(ValidationError),
    Spawn(std::io::Error),
    NeedsElevation,
    SessionStopped,
}

/// Why stopping failed.
#[derive(Debug)]
pub enum StopError {
    Io(std::io::Error),
    Timeout,
}

/// Why a typed input was not delivered to the core.
#[derive(Debug)]
pub enum SubmitInputError {
    Empty,
    NotRunning,
    KindMismatch { awaiting: String, requested: String },
    MissingKind,
    NotAwaiting,
    InvalidValue,
    TooLong,
    Io(std::io::Error),
}

/// Why the EIP portal could not be opened on request.
#[derive(Debug)]
pub enum OpenEipManualError {
    NotConnected,
    Open(OpenEipError),
}

/// A diagnostic copy of the session state.
#[derive(Debug, Clone, PartialEq, Eq)]
pub struct StateSnapshot {
    pub session_active: bool,
    pub ready: bool,
    pub retry_attempt: u32,
    pub awaiting: Option<String>,
    pub child_pid: Option<u32>,
}

/// What to do after the supervised child exited.
#[derive(Debug, Clone, PartialEq, Eq)]
pub enum ExitAction {
    /// The exit belongs to a previous session; nothing to do.
    Ignore,
    EmitStopped,
    AwaitingBlocked(String),
    ScheduleRetry,
}

pub enum ExitActionView {
    Ignore,
    EmitStopped,
    AwaitingBlocked(Seq<char>),
    ScheduleRetry,
}

impl View for ExitAction {
    type V = ExitActionView;

    open spec fn view(&self) -> ExitActionView {
        match self {
            ExitAction::Ignore => ExitActionView::Ignore,
            ExitAction::EmitStopped => ExitActionView::EmitStopped,
            ExitAction::AwaitingBlocked(r) => ExitActionView::AwaitingBlocked(r@),
            ExitAction::ScheduleRetry => ExitActionView::ScheduleRetry,
        }
    }
}

// ── The session state ─────────────────────────────────────────────────

/// The supervisor's bookkeeping for one connection session.
///
/// `retry_generation` names the current session generation: every start,
/// stop and automatic reconnect moves it on, and every asynchronous step
/// (ready wait, delayed EIP open, retry timer, captcha poll, child exit)
/// carries the generation it was started for and is discarded once the
/// state has moved on.
#[derive(Debug)]
pub struct SessionState {
    pub session_active: bool,
    pub awaiting: Option<String>,
    pub captcha_polling: bool,
    /// Generation that owns the in-flight captcha poll.
    pub captcha_poll_gen: u64,
    pub eip_options: LaunchOptions,
    pub eip_opened: bool,
    pub last_options: LaunchOptions,
    pub ready: bool,
    pub ready_wait_gen: u64,
    pub retry_attempt: u32,
    pub retry_generation: u64,
    pub child_pid: Option<u32>,
    /// The child's stdin forwarder is registered.
    pub stdin_open: bool,
    /// The child's stop channel is registered.
    pub stop_pending: bool,
    pub proxybridge_started: bool,
}

pub struct SessionView {
    pub session_active: bool,
    pub awaiting: Option<Seq<char>>,
    pub captcha_polling: bool,
    pub captcha_poll_gen: u64,
    pub eip_options: LaunchOptionsView,
    pub eip_opened: bool,
    pub last_options: LaunchOptionsView,
    pub ready: bool,
    pub ready_wait_gen: u64,
    pub retry_attempt: u32,
    pub retry_generation: u64,
    pub child_pid: Option<u32>,
    pub stdin_open: bool,
    pub stop_pending: bool,
    pub proxybridge_started: bool,
}

impl View for SessionState {
    type V = SessionView;

    open spec fn view(&self) -> SessionView {
        SessionView {
            session_active: self.session_active,
            awaiting: launch_options::opt_view(self.awaiting),
            captcha_polling: self.captcha_polling,
            captcha_poll_gen: self.captcha_poll_gen,
            eip_options: self.eip_options@,
            eip_opened: self.eip_opened,
            last_options: self.last_options@,
            ready: self.ready,
            ready_wait_gen: self.ready_wait_gen,
            retry_attempt: self.retry_attempt,
            retry_generation: self.retry_generation,
            child_pid: self.child_pid,
            stdin_open: self.stdin_open,
            stop_pending: self.stop_pending,
            proxybridge_started: self.proxybridge_started,
        }
    }
}

// ── Transitions as spec functions ─────────────────────────────────────

/// The generation after `g` (wrapping).
pub open spec fn next_generation(g: u64) -> u64 {
    if g == u64::MAX {
        0
    } else {
        (g + 1) as u64
    }
}

/// The state nobody has started yet.
pub open spec fn initial_session() -> SessionView {
    SessionView {
        session_active: false,
        awaiting: None,
        captcha_polling: false,
        captcha_poll_gen: 0,
        eip_options: launch_options::empty_options(),
        eip_opened: false,
        last_options: launch_options::empty_options(),
        ready: false,
        ready_wait_gen: 0,
        retry_attempt: 0,
        retry_generation: 0,
        child_pid: None,
        stdin_open: false,
        stop_pending: false,
        proxybridge_started: false,
    }
}

/// First half of a start: refused while a child is registered, otherwise
/// the generation moves on.
pub open spec fn begin_start_spec(s: SessionView) -> (SessionView, bool) {
    if s.child_pid is Some {
        (s, false)
    } else {
        (SessionView { retry_generation: next_generation(s.retry_generation), ..s }, true)
    }
}

/// Second half of a start: a fresh session with options `o`.
pub open spec fn activate_spec(s: SessionView, o: LaunchOptionsView) -> SessionView {
    SessionView {
        eip_options: o,
        eip_opened: false,
        last_options: o,
        ready: false,
        ready_wait_gen: 0,
        session_active: true,
        retry_attempt: 0,
        awaiting: None,
        captcha_polling: false,
        ..s
    }
}

/// A failed start must leave the state alone: the session moved on, or a
/// concurrent start registered its child first.
pub open spec fn cleanup_should_skip(s: SessionView, g: u64) -> bool {
    s.retry_generation != g || s.child_pid is Some
}

/// Tearing down after a failed start of generation `g`.
pub open spec fn cleanup_spec(s: SessionView, g: u64) -> SessionView {
    if cleanup_should_skip(s, g) {
        s
    } else {
        SessionView {
            session_active: false,
            awaiting: None,
            captcha_polling: false,
            child_pid: None,
            stdin_open: false,
            stop_pending: false,
            proxybridge_started: false,
            ..s
        }
    }
}

/// A freshly spawned child of generation `g` must be killed: the session
/// ended, moved on, or already owns a child.
pub open spec fn spawn_guard_spec(s: SessionView, g: u64) -> bool {
    !s.session_active || g != s.retry_generation || s.child_pid is Some
}

/// Registering the child of generation `g`.
pub open spec fn register_spec(s: SessionView, g: u64, pid: Option<u32>) -> SessionView {
    if spawn_guard_spec(s, g) {
        s
    } else {
        SessionView { child_pid: pid, stdin_open: true, stop_pending: true, ..s }
    }
}

/// A stop: the session ends and the generation moves on.
pub open spec fn stop_spec(s: SessionView) -> SessionView {
    SessionView {
        retry_generation: next_generation(s.retry_generation),
        session_active: false,
        retry_attempt: 0,
        ready: false,
        ready_wait_gen: 0,
        awaiting: None,
        captcha_polling: false,
        stop_pending: false,
        proxybridge_started: false,
        ..s
    }
}

/// The decision taken when the child of generation `g` exits.
pub open spec fn exit_spec(s: SessionView, g: u64) -> (SessionView, ExitActionView) {
    if s.session_active && g != s.retry_generation {
        (s, ExitActionView::Ignore)
    } else if !s.session_active {
        (
            SessionView {
                captcha_polling: false,
                ready: false,
                eip_opened: false,
                ready_wait_gen: 0,
                retry_attempt: 0,
                ..s
            },
            ExitActionView::EmitStopped,
        )
    } else if let Some(reason) = s.awaiting {
        (
            SessionView {
                captcha_polling: false,
                ready: false,
                session_active: false,
                awaiting: None,
                eip_opened: false,
                ready_wait_gen: 0,
                retry_attempt: 0,
                ..s
            },
            ExitActionView::AwaitingBlocked(reason),
        )
    } else {
        (
            SessionView {
                captcha_polling: false,
                ready: false,
                retry_generation: next_generation(s.retry_generation),
                ..s
            },
            ExitActionView::ScheduleRetry,
        )
    }
}

/// The supervisor released the exited child's handles.
pub open spec fn child_exited_spec(s: SessionView) -> SessionView {
    SessionView { child_pid: None, stdin_open: false, stop_pending: false, ..s }
}

/// The core asked for input of kind `kind`.
pub open spec fn request_input_spec(s: SessionView, kind: Seq<char>) -> (SessionView, bool) {
    if s.awaiting == Some(kind) {
        (s, false)
    } else {
        (SessionView { awaiting: Some(kind), ..s }, true)
    }
}

/// The core asked for a captcha; a poll starts unless one is running.
pub open spec fn request_captcha_spec(s: SessionView) -> (SessionView, bool) {
    let s1 = SessionView { awaiting: Some("captcha"@), ..s };
    if s.captcha_polling {
        (s1, false)
    } else {
        (SessionView { captcha_polling: true, captcha_poll_gen: s.retry_generation, ..s1 }, true)
    }
}

/// The captcha poll still belongs to the live session.
pub open spec fn captcha_owned(s: SessionView) -> bool {
    s.session_active && s.captcha_poll_gen == s.retry_generation
}

/// The captcha poll gave up; an owned poll withdraws the request.
pub open spec fn captcha_timed_out_spec(s: SessionView) -> (SessionView, bool) {
    if captcha_owned(s) {
        (SessionView { awaiting: None, ..s }, true)
    } else {
        (s, false)
    }
}

/// The captcha poll task ended; the flag is cleared only by its owner.
pub open spec fn captcha_poll_finished_spec(s: SessionView) -> SessionView {
    if s.captcha_poll_gen == s.retry_generation {
        SessionView { captcha_polling: false, ..s }
    } else {
        s
    }
}

/// Starting the readiness wait for the current generation, once.
pub open spec fn begin_ready_wait_spec(s: SessionView) -> (SessionView, Option<u64>) {
    if !s.session_active || s.ready || s.ready_wait_gen == s.retry_generation {
        (s, None)
    } else {
        (SessionView { ready_wait_gen: s.retry_generation, ..s }, Some(s.retry_generation))
    }
}

/// The readiness wait of generation `g` should keep polling.
pub open spec fn continue_ready_wait_spec(s: SessionView, g: u64) -> bool {
    s.session_active && !s.ready && s.retry_generation == g && s.ready_wait_gen == g
}

/// The proxy of generation `g` accepted a connection. The flag says
/// whether the EIP portal should be opened automatically.
pub open spec fn mark_ready_spec(s: SessionView, g: u64) -> (SessionView, Option<bool>) {
    if g != s.retry_generation || !s.session_active || s.ready {
        (s, None)
    } else {
        (
            SessionView { ready: true, ready_wait_gen: 0, retry_attempt: 0, ..s },
            Some(s.eip_options.eip_auto_open && !s.eip_opened),
        )
    }
}

/// A delayed EIP open of generation `g` may still go ahead.
pub open spec fn eip_open_valid_spec(s: SessionView, g: u64) -> bool {
    s.retry_generation == g && s.session_active && s.ready
}

/// The browser was launched for generation `g`.
pub open spec fn mark_eip_opened_spec(s: SessionView, g: u64) -> SessionView {
    if eip_open_valid_spec(s, g) {
        SessionView { eip_opened: true, ..s }
    } else {
        s
    }
}

/// A retry is scheduled: one more attempt (saturating).
pub open spec fn bump_retry_spec(s: SessionView) -> SessionView {
    SessionView {
        retry_attempt: if s.retry_attempt == u32::MAX {
            u32::MAX
        } else {
            (s.retry_attempt + 1) as u32
        },
        ..s
    }
}

/// A retry timer of generation `g` may respawn the child.
pub open spec fn retry_guard_spec(s: SessionView, g: u64) -> bool {
    g == s.retry_generation && s.session_active && s.awaiting is None && s.child_pid is None
}

/// ProxyBridge came up; it is kept only while the session is live.
pub open spec fn register_proxybridge_spec(s: SessionView) -> (SessionView, bool) {
    if !s.session_active {
        (s, false)
    } else {
        (SessionView { proxybridge_started: true, ..s }, true)
    }
}

/// A log line that makes the session wait for its proxy: the route message
/// in TUN mode, the VPN-started message otherwise.
pub open spec fn readiness_trigger_spec(s: SessionView, line: Seq<char>) -> bool {
    if s.eip_options.tun_mode {
        logs::is_route_added_spec(line)
    } else {
        logs::is_vpn_started_spec(line)
    }
}

/// The typed value the core receives: `value` trimmed, non-empty, at most
/// 4096 bytes of UTF-8, with no line break, line/paragraph separator or
/// control character.
pub open spec fn input_value_ok(t: Seq<char>) -> bool {
    &&& t.len() > 0
    &&& text::utf8_len(t) <= 4096
    &&& forall|i: int| 0 <= i < t.len() ==> !forbidden_in_input(#[trigger] t[i])
}

/// Characters a typed value may not contain: they would end the line early.
pub open spec fn forbidden_in_input(c: char) -> bool {
    c == '\u{2028}' || c == '\u{2029}' || text::is_control(c)
}

/// Which input error, if any, the value itself causes.
pub enum InputCheck {
    Empty,
    TooLong,
    InvalidValue,
    Fine,
}

pub open spec fn input_check_spec(value: Seq<char>) -> InputCheck {
    let t = text::trim_seq(value);
    if t.len() == 0 {
        InputCheck::Empty
    } else if text::utf8_len(t) > 4096 {
        InputCheck::TooLong
    } else if exists|i: int| 0 <= i < t.len() && forbidden_in_input(#[trigger] t[i]) {
        InputCheck::InvalidValue
    } else {
        InputCheck::Fine
    }
}

/// The outcome of checking a submission against the session, before the
/// line is handed to the child.
pub enum SubmitCheck {
    Deliver(Seq<char>),
    Empty,
    TooLong,
    InvalidValue,
    MissingKind,
    KindMismatch(Seq<char>, Seq<char>),
    NotAwaiting,
    NotRunning,
    /// Writing to the child's stdin failed; checking alone never gives it.
    Io,
}

pub open spec fn submit_check_spec(
    s: SessionView,
    value: Seq<char>,
    kind: Option<Seq<char>>,
) -> SubmitCheck {
    match input_check_spec(value) {
        InputCheck::Empty => SubmitCheck::Empty,
        InputCheck::TooLong => SubmitCheck::TooLong,
        InputCheck::InvalidValue => SubmitCheck::InvalidValue,
        InputCheck::Fine => match s.awaiting {
            None => SubmitCheck::NotAwaiting,
            Some(a) => match kind {
                None => SubmitCheck::MissingKind,
                Some(k) => if a != k {
                    SubmitCheck::KindMismatch(a, k)
                } else if !s.stdin_open {
                    SubmitCheck::NotRunning
                } else {
                    SubmitCheck::Deliver(text::trim_seq(value))
                },
            },
        },
    }
}

/// The view of a submission error.
pub open spec fn submit_error_view(e: SubmitInputError) -> SubmitCheck {
    match e {
        SubmitInputError::Empty => SubmitCheck::Empty,
        SubmitInputError::TooLong => SubmitCheck::TooLong,
        SubmitInputError::InvalidValue => SubmitCheck::InvalidValue,
        SubmitInputError::MissingKind => SubmitCheck::MissingKind,
        SubmitInputError::KindMismatch { awaiting, requested } => SubmitCheck::KindMismatch(
            awaiting@,
            requested@,
        ),
        SubmitInputError::NotAwaiting => SubmitCheck::NotAwaiting,
        SubmitInputError::NotRunning => SubmitCheck::NotRunning,
        SubmitInputError::Io(_) => SubmitCheck::Io,
    }
}

// ── Exec helpers ──────────────────────────────────────────────────────

fn copy_opt(o: &Option<String>) -> (r: Option<String>)
    ensures
        launch_options::opt_view(r) == launch_options::opt_view(*o),
{
    match o {
        Some(s) => Some(s.clone()),
        None => None,
    }
}

fn next_gen(g: u64) -> (r: u64)
    ensures
        r == next_generation(g),
{
    g.wrapping_add(1)
}

/// Checks a typed value on its own and returns it trimmed.
pub fn check_input_value(value: &str) -> (r: Result<String, SubmitInputError>)
    ensures
        match input_check_spec(value@) {
            InputCheck::Fine => r matches Ok(t) && t@ == text::trim_seq(value@),
            InputCheck::Empty => r matches Err(SubmitInputError::Empty),
            InputCheck::TooLong => r matches Err(SubmitInputError::TooLong),
            InputCheck::InvalidValue => r matches Err(SubmitInputError::InvalidValue),
        },
{
    let t = text::trim(value);
    if t.is_empty() {
        return Err(SubmitInputError::Empty);
    }
    let v = text::chars_vec(t);
    if text::utf8_len_exceeds(&v, 4096) {
        return Err(SubmitInputError::TooLong);
    }
    let mut i: usize = 0;
    while i < v.len()
        invariant
            i <= v@.len(),
            v@ == t@,
            t@ == text::trim_seq(value@),
            t@.len() > 0,
            text::utf8_len(t@) <= 4096,
            forall|j: int| 0 <= j < i ==> !forbidden_in_input(#[trigger] v@[j]),
        decreases v.len() - i,
    {
        let c = v[i];
        if c == '\u{2028}' || c == '\u{2029}' || text::is_control_char(c) {
            assert(forbidden_in_input(t@[i as int]));
            return Err(SubmitInputError::InvalidValue);
        }
        i = i + 1;
    }
    Ok(t.to_owned())
}

impl SessionState {
    /// The state before any start.
    pub fn new() -> (r: Self)
        ensures
            r@ == initial_session(),
    {
        SessionState {
            session_active: false,
            awaiting: None,
            captcha_polling: false,
            captcha_poll_gen: 0,
            eip_options: LaunchOptions::default(),
            eip_opened: false,
            last_options: LaunchOptions::default(),
            ready: false,
            ready_wait_gen: 0,
            retry_attempt: 0,
            retry_generation: 0,
            child_pid: None,
            stdin_open: false,
            stop_pending: false,
            proxybridge_started: false,
        }
    }

    /// Whether a session is live (`ProxyManager::is_running`).
    pub fn is_running(&self) -> (r: bool)
        ensures
            r == self.session_active,
    {
        self.session_active
    }

    /// First half of a start: `AlreadyRunning` while a child is registered,
    /// otherwise the generation moves on (so every pending timer of the old
    /// session is void).
    pub fn begin_start(&mut self) -> (r: Result<(), StartError>)
        ensures
            final(self)@ == begin_start_spec(old(self)@).0,
            r is Ok == begin_start_spec(old(self)@).1,
            r matches Err(e) ==> e is AlreadyRunning,
    {
        if self.child_pid.is_some() {
            return Err(StartError::AlreadyRunning);
        }
        self.retry_generation = next_gen(self.retry_generation);
        Ok(())
    }

    /// Second half of a start: a fresh, live session for `options`; returns
    /// the generation the child will be spawned for.
    pub fn activate_session(&mut self, options: &LaunchOptions) -> (r: u64)
        ensures
            final(self)@ == activate_spec(old(self)@, options@),
            r == old(self).retry_generation,
    {
        self.eip_options = options.copy();
        self.eip_opened = false;
        self.last_options = options.copy();
        self.ready = false;
        self.ready_wait_gen = 0;
        self.session_active = true;
        self.retry_attempt = 0;
        self.awaiting = None;
        self.captcha_polling = false;
        self.retry_generation
    }

    /// Whether a failed start of `generation` must leave the state alone.
    pub fn cleanup_failed_start_should_skip(&self, generation: u64) -> (r: bool)
        ensures
            r == cleanup_should_skip(self@, generation),
    {
        self.retry_generation != generation || self.child_pid.is_some()
    }

    /// Tears the session down after a failed start of `generation`.
    /// Returns `None` when the state was left alone, otherwise whether
    /// ProxyBridge had been started (and must be stopped).
    pub fn cleanup_failed_start(&mut self, generation: u64) -> (r: Option<bool>)
        ensures
            final(self)@ == cleanup_spec(old(self)@, generation),
            r is None == cleanup_should_skip(old(self)@, generation),
            r matches Some(pb) ==> pb == old(self).proxybridge_started,
    {
        if self.cleanup_failed_start_should_skip(generation) {
            return None;
        }
        let pb = self.proxybridge_started;
        self.session_active = false;
        self.awaiting = None;
        self.captcha_polling = false;
        self.child_pid = None;
        self.stdin_open = false;
        self.stop_pending = false;
        self.proxybridge_started = false;
        Some(pb)
    }

    /// Whether a child spawned for `generation` must be killed at once.
    pub fn spawn_guard_violated(&self, generation: u64) -> (r: bool)
        ensures
            r == spawn_guard_spec(self@, generation),
    {
        !self.session_active || generation != self.retry_generation || self.child_pid.is_some()
    }

    /// Registers the child spawned for `generation`; the first registration
    /// wins and a loser gets `SessionStopped`.
    pub fn register_child(&mut self, generation: u64, pid: Option<u32>) -> (r: Result<
        (),
        StartError,
    >)
        ensures
            final(self)@ == register_spec(old(self)@, generation, pid),
            r is Ok == !spawn_guard_spec(old(self)@, generation),
            r matches Err(e) ==> e is SessionStopped,
    {
        if self.spawn_guard_violated(generation) {
            return Err(StartError::SessionStopped);
        }
        self.child_pid = pid;
        self.stdin_open = true;
        self.stop_pending = true;
        Ok(())
    }

    /// A stop request. Returns what the supervisor must tear down.
    pub fn stop(&mut self) -> (r: StopPlan)
        ensures
            final(self)@ == stop_spec(old(self)@),
            r.signal_child == old(self).stop_pending,
            r.stop_proxybridge == old(self).proxybridge_started,
            r.child_present == old(self).child_pid is Some,
    {
        let plan = StopPlan {
            signal_child: self.stop_pending,
            stop_proxybridge: self.proxybridge_started,
            child_present: self.child_pid.is_some(),
        };
        self.retry_generation = next_gen(self.retry_generation);
        self.session_active = false;
        self.retry_attempt = 0;
        self.ready = false;
        self.ready_wait_gen = 0;
        self.awaiting = None;
        self.captcha_polling = false;
        self.stop_pending = false;
        self.proxybridge_started = false;
        plan
    }

    /// Checks a submission against the session; on success returns the line
    /// to write to the child's stdin. Nothing changes until
    /// [`SessionState::input_delivered`].
    pub fn check_submission(&self, value: &str, kind: Option<&str>) -> (r: Result<
        String,
        SubmitInputError,
    >)
        ensures
            match submit_check_spec(self@, value@, launch_options::opt_str_view(kind)) {
                SubmitCheck::Deliver(t) => r matches Ok(line) && line@ == t,
                other => r matches Err(e) && submit_error_view(e) == other,
            },
    {
        let line = match check_input_value(value) {
            Ok(t) => t,
            Err(e) => return Err(e),
        };
        match &self.awaiting {
            None => Err(SubmitInputError::NotAwaiting),
            Some(awaiting) => match kind {
                None => Err(SubmitInputError::MissingKind),
                Some(k) => {
                    if !text::str_eq(awaiting.as_str(), k) {
                        Err(
                            SubmitInputError::KindMismatch {
                                awaiting: awaiting.clone(),
                                requested: k.to_owned(),
                            },
                        )
                    } else if !self.stdin_open {
                        Err(SubmitInputError::NotRunning)
                    } else {
                        Ok(line)
                    }
                },
            },
        }
    }

    /// The line reached the child: nothing is awaited any more.
    pub fn input_delivered(&mut self)
        ensures
            final(self)@ == (SessionView { awaiting: None, ..old(self)@ }),
    {
        self.awaiting = None;
    }

    /// A diagnostic copy of the state.
    pub fn snapshot(&self) -> (r: StateSnapshot)
        ensures
            r.session_active == self.session_active,
            r.ready == self.ready,
            r.retry_attempt == self.retry_attempt,
            launch_options::opt_view(r.awaiting) == launch_options::opt_view(self.awaiting),
            r.child_pid == self.child_pid,
    {
        StateSnapshot {
            session_active: self.session_active,
            ready: self.ready,
            retry_attempt: self.retry_attempt,
            awaiting: copy_opt(&self.awaiting),
            child_pid: self.child_pid,
        }
    }

    /// The options of the live, connected session, for a manual EIP open.
    pub fn eip_options_if_connected(&self) -> (r: Result<LaunchOptions, OpenEipManualError>)
        ensures
            r is Ok <==> (self.session_active && self.ready),
            r matches Ok(o) ==> o@ == self.eip_options@,
            r matches Err(e) ==> e is NotConnected,
    {
        if !self.session_active || !self.ready {
            return Err(OpenEipManualError::NotConnected);
        }
        Ok(self.eip_options.copy())
    }

    /// The core asked for input of `kind`; returns whether this is news
    /// (and the UI must be told).
    pub fn request_input(&mut self, kind: InputKind) -> (r: bool)
        ensures
            final(self)@ == request_input_spec(old(self)@, input_kind_name(kind)).0,
            r == request_input_spec(old(self)@, input_kind_name(kind)).1,
    {
        let name = kind.as_str();
        let already = match &self.awaiting {
            Some(a) => text::str_eq(a.as_str(), name),
            None => false,
        };
        if !already {
            self.awaiting = Some(name.to_owned());
        }
        !already
    }

    /// The core asked for a captcha; returns whether a poll must start.
    pub fn request_captcha(&mut self) -> (r: bool)
        ensures
            final(self)@ == request_captcha_spec(old(self)@).0,
            r == request_captcha_spec(old(self)@).1,
    {
        self.awaiting = Some("captcha".to_owned());
        if self.captcha_polling {
            return false;
        }
        self.captcha_polling = true;
        self.captcha_poll_gen = self.retry_generation;
        true
    }

    /// Whether a captcha that just arrived may be shown.
    pub fn captcha_still_owned(&self) -> (r: bool)
        ensures
            r == captcha_owned(self@),
    {
        self.session_active && self.captcha_poll_gen == self.retry_generation
    }

    /// The captcha poll gave up; returns whether the request was withdrawn.
    pub fn captcha_timed_out(&mut self) -> (r: bool)
        ensures
            final(self)@ == captcha_timed_out_spec(old(self)@).0,
            r == captcha_timed_out_spec(old(self)@).1,
    {
        if self.captcha_still_owned() {
            self.awaiting = None;
            true
        } else {
            false
        }
    }

    /// The captcha poll task ended.
    pub fn captcha_poll_finished(&mut self)
        ensures
            final(self)@ == captcha_poll_finished_spec(old(self)@),
    {
        if self.captcha_poll_gen == self.retry_generation {
            self.captcha_polling = false;
        }
    }

    /// Starts the readiness wait of the current generation, at most once.
    pub fn begin_ready_wait(&mut self) -> (r: Option<u64>)
        ensures
            final(self)@ == begin_ready_wait_spec(old(self)@).0,
            r == begin_ready_wait_spec(old(self)@).1,
    {
        if !self.session_active || self.ready || self.ready_wait_gen == self.retry_generation {
            return None;
        }
        self.ready_wait_gen = self.retry_generation;
        Some(self.retry_generation)
    }

    /// Whether the readiness wait of `generation` should keep polling.
    pub fn should_continue_ready_wait(&self, generation: u64) -> (r: bool)
        ensures
            r == continue_ready_wait_spec(self@, generation),
    {
        self.session_active && !self.ready && self.retry_generation == generation
            && self.ready_wait_gen == generation
    }

    /// The proxy of `generation` is reachable. `Some(open_eip)` when the
    /// session just became ready, with whether the EIP portal should be
    /// opened automatically.
    pub fn mark_ready(&mut self, generation: u64) -> (r: Option<bool>)
        ensures
            final(self)@ == mark_ready_spec(old(self)@, generation).0,
            r == mark_ready_spec(old(self)@, generation).1,
    {
        if generation != self.retry_generation || !self.session_active || self.ready {
            return None;
        }
        self.ready = true;
        self.ready_wait_gen = 0;
        self.retry_attempt = 0;
        Some(self.eip_options.eip_auto_open && !self.eip_opened)
    }

    /// Whether a delayed EIP open of `generation` may still go ahead.
    pub fn eip_open_still_valid(&self, generation: u64) -> (r: bool)
        ensures
            r == eip_open_valid_spec(self@, generation),
    {
        self.retry_generation == generation && self.session_active && self.ready
    }

    /// The browser was launched for `generation`.
    pub fn mark_eip_opened(&mut self, generation: u64)
        ensures
            final(self)@ == mark_eip_opened_spec(old(self)@, generation),
    {
        if self.eip_open_still_valid(generation) {
            self.eip_opened = true;
        }
    }

    /// Decides what the exit of the child of `generation` means. A stale
    /// exit (an older generation while a session is live) changes nothing.
    pub fn decide_exit_action(&mut self, generation: u64) -> (r: ExitAction)
        ensures
            final(self)@ == exit_spec(old(self)@, generation).0,
            r@ == exit_spec(old(self)@, generation).1,
    {
        if self.session_active && generation != self.retry_generation {
            return ExitAction::Ignore;
        }
        self.captcha_polling = false;
        self.ready = false;
        if !self.session_active {
            self.eip_opened = false;
            self.ready_wait_gen = 0;
            self.retry_attempt = 0;
            ExitAction::EmitStopped
        } else if self.awaiting.is_some() {
            let reason = match self.awaiting.take() {
                Some(r) => r,
                None => String::new(),
            };
            self.session_active = false;
            self.eip_opened = false;
            self.ready_wait_gen = 0;
            self.retry_attempt = 0;
            ExitAction::AwaitingBlocked(reason)
        } else {
            self.retry_generation = next_gen(self.retry_generation);
            ExitAction::ScheduleRetry
        }
    }

    /// The supervisor released the exited child's handles.
    pub fn child_exited(&mut self)
        ensures
            final(self)@ == child_exited_spec(old(self)@),
    {
        self.child_pid = None;
        self.stdin_open = false;
        self.stop_pending = false;
    }

    /// A retry is scheduled; returns its attempt number and generation.
    pub fn bump_retry_attempt(&mut self) -> (r: (u32, u64))
        ensures
            final(self)@ == bump_retry_spec(old(self)@),
            r.0 == final(self).retry_attempt,
            r.1 == old(self).retry_generation,
    {
        self.retry_attempt = self.retry_attempt.saturating_add(1);
        (self.retry_attempt, self.retry_generation)
    }

    /// Whether the retry timer of `generation` may respawn the child.
    pub fn retry_still_valid(&self, generation: u64) -> (r: bool)
        ensures
            r == retry_guard_spec(self@, generation),
    {
        generation == self.retry_generation && self.session_active && self.awaiting.is_none()
            && self.child_pid.is_none()
    }

    /// The options to respawn with, when the retry of `generation` is
    /// still valid.
    pub fn retry_options(&self, generation: u64) -> (r: Option<LaunchOptions>)
        ensures
            r is Some == retry_guard_spec(self@, generation),
            r matches Some(o) ==> o@ == self.last_options@,
    {
        if !self.retry_still_valid(generation) {
            return None;
        }
        Some(self.last_options.copy())
    }

    /// A retry respawns with `options`; the EIP-opened flag is kept so an
    /// automatic reconnect does not open another browser window.
    pub fn prepare_retry(&mut self, options: LaunchOptions)
        ensures
            final(self)@ == (SessionView { eip_options: options@, ..old(self)@ }),
    {
        self.eip_options = options;
    }

    /// ProxyBridge came up; returns whether it is kept (a stop may have
    /// ended the session meanwhile, and then it must be stopped again).
    pub fn register_proxybridge(&mut self) -> (r: bool)
        ensures
            final(self)@ == register_proxybridge_spec(old(self)@).0,
            r == register_proxybridge_spec(old(self)@).1,
    {
        if !self.session_active {
            return false;
        }
        self.proxybridge_started = true;
        true
    }

    /// Whether `line` starts the wait for the local proxy.
    pub fn readiness_trigger(&self, line: &str) -> (r: bool)
        ensures
            r == readiness_trigger_spec(self@, line@),
    {
        if self.eip_options.tun_mode {
            logs::is_route_added(line)
        } else {
            logs::is_vpn_started(line)
        }
    }

    /// A `State` event carrying the session's awaiting/running flags.
    pub fn state_event(&self, state: ProxyState, message: Option<String>) -> (r: ProxyEvent)
        ensures
            r matches ProxyEvent::State { state: st, message: m, awaiting: a, running, retry_attempt, retry_delay_ms }
                && st == state && m == message && launch_options::opt_view(a)
                == launch_options::opt_view(self.awaiting) && running == self.session_active
                && retry_attempt == 0 && retry_delay_ms == 0,
    {
        self.state_event_with_details(state, message, 0, 0)
    }

    /// A `State` event with retry details.
    pub fn state_event_with_details(
        &self,
        state: ProxyState,
        message: Option<String>,
        retry_attempt: u32,
        retry_delay_ms: u64,
    ) -> (r: ProxyEvent)
        ensures
            r matches ProxyEvent::State { state: st, message: m, awaiting: a, running, retry_attempt: ra, retry_delay_ms: rd }
                && st == state && m == message && launch_options::opt_view(a)
                == launch_options::opt_view(self.awaiting) && running == self.session_active
                && ra == retry_attempt && rd == retry_delay_ms,
    {
        ProxyEvent::State {
            state,
            message,
            awaiting: copy_opt(&self.awaiting),
            running: self.session_active,
            retry_attempt,
            retry_delay_ms,
        }
    }
}

/// What a stop must tear down.
pub struct StopPlan {
    /// Send the graceful-stop signal to the child's supervisor.
    pub signal_child: bool,
    pub stop_proxybridge: bool,
    /// A child was registered; otherwise `Stopped` is reported at once.
    pub child_present: bool,
}

// ── Laws of the session state machine ─────────────────────────────────

/// The generation always moves on: it never comes back to itself.
pub proof fn lemma_next_generation_differs(g: u64)
    ensures
        next_generation(g) != g,
{
}

/// A stale exit — the previous child finishing after a new session already
/// started — leaves the new session exactly as it was.
pub proof fn lemma_stale_exit_changes_nothing(s: SessionView, g: u64)
    requires
        s.session_active,
        g != s.retry_generation,
    ensures
        exit_spec(s, g).0 == s,
        exit_spec(s, g).1 is Ignore,
{
}

/// After a stop, the exit of the stopped child (of any generation) is
/// reported as `Stopped`, and the session stays down.
pub proof fn lemma_exit_after_stop_reports_stopped(s: SessionView, g: u64)
    ensures
        exit_spec(stop_spec(s), g).1 is EmitStopped,
        !exit_spec(stop_spec(s), g).0.session_active,
        !exit_spec(stop_spec(s), g).0.eip_opened,
        !exit_spec(stop_spec(s), g).0.ready,
{
}

/// An unexpected exit of the current child while nothing is awaited keeps
/// the session live, keeps the EIP-opened flag (a reconnect does not open
/// another browser window), moves the generation on, and the retry that is
/// then scheduled is allowed to respawn the child.
pub proof fn lemma_unexpected_exit_retries(s: SessionView)
    requires
        s.session_active,
        s.awaiting is None,
    ensures
        ({
            let s1 = child_exited_spec(s);
            let (s2, a) = exit_spec(s1, s.retry_generation);
            let s3 = bump_retry_spec(s2);
            &&& a is ScheduleRetry
            &&& s2.session_active
            &&& s2.eip_opened == s.eip_opened
            &&& s2.retry_generation == next_generation(s.retry_generation)
            &&& retry_guard_spec(s3, s3.retry_generation)
        }),
{
}

/// An exit while the core waits for typed input ends the session and
/// reports what was awaited; no retry follows.
pub proof fn lemma_exit_while_awaiting_ends_session(s: SessionView, reason: Seq<char>)
    requires
        s.session_active,
        s.awaiting == Some(reason),
    ensures
        exit_spec(s, s.retry_generation).1 == ExitActionView::AwaitingBlocked(reason),
        !exit_spec(s, s.retry_generation).0.session_active,
        exit_spec(s, s.retry_generation).0.awaiting is None,
        !retry_guard_spec(exit_spec(s, s.retry_generation).0, exit_spec(s, s.retry_generation).0.retry_generation),
{
}

/// The first child registered for a session wins: once one is registered,
/// every later registration (of any generation) is refused.
pub proof fn lemma_first_registration_wins(
    s: SessionView,
    g1: u64,
    pid: u32,
    g2: u64,
    pid2: Option<u32>,
)
    requires
        !spawn_guard_spec(s, g1),
    ensures
        spawn_guard_spec(register_spec(s, g1, Some(pid)), g2),
        register_spec(register_spec(s, g1, Some(pid)), g2, pid2) == register_spec(s, g1, Some(pid)),
{
}

/// After a stop nothing that was pending for the stopped session has an
/// effect: its ready wait ends, it cannot become ready, its delayed EIP
/// open and its retry are void, and its captcha poll no longer owns the
/// prompt.
pub proof fn lemma_stop_voids_pending_work(s: SessionView)
    ensures
        ({
            let t = stop_spec(s);
            let g = s.retry_generation;
            &&& !continue_ready_wait_spec(t, g)
            &&& mark_ready_spec(t, g).1 is None
            &&& mark_ready_spec(t, g).0 == t
            &&& !eip_open_valid_spec(t, g)
            &&& !retry_guard_spec(t, g)
            &&& !captcha_owned(t)
            &&& begin_ready_wait_spec(t).1 is None
        }),
{
}

/// A start refuses while a child is registered; otherwise it yields a live
/// session for the new options with nothing pending, under a new
/// generation, so an exit of the previous child is ignored.
pub proof fn lemma_start_gives_fresh_session(s: SessionView, o: LaunchOptionsView)
    ensures
        s.child_pid is Some ==> !begin_start_spec(s).1 && begin_start_spec(s).0 == s,
        s.child_pid is None ==> ({
            let t = activate_spec(begin_start_spec(s).0, o);
            &&& begin_start_spec(s).1
            &&& t.session_active
            &&& !t.ready
            &&& t.awaiting is None
            &&& !t.eip_opened
            &&& t.retry_attempt == 0
            &&& t.eip_options == o
            &&& t.last_options == o
            &&& t.retry_generation != s.retry_generation
            &&& exit_spec(t, s.retry_generation).1 is Ignore
        }),
{
}

/// A delivered submission consumes the prompt: a second submission is
/// never delivered until the core asks again.
pub proof fn lemma_submission_is_single_use(
    s: SessionView,
    v1: Seq<char>,
    k1: Option<Seq<char>>,
    v2: Seq<char>,
    k2: Option<Seq<char>>,
)
    requires
        submit_check_spec(s, v1, k1) is Deliver,
    ensures
        !(submit_check_spec(SessionView { awaiting: None, ..s }, v2, k2) is Deliver),
{
}

/// A submission is delivered only for the kind being awaited.
pub proof fn lemma_delivery_matches_kind(s: SessionView, v: Seq<char>, k: Option<Seq<char>>)
    requires
        submit_check_spec(s, v, k) is Deliver,
    ensures
        s.awaiting is Some,
        k == s.awaiting,
        s.stdin_open,
        input_value_ok(text::trim_seq(v)),
{
}

/// A generation becomes ready at most once, and a ready session starts no
/// further ready wait.
pub proof fn lemma_ready_at_most_once(s: SessionView, g: u64)
    requires
        mark_ready_spec(s, g).1 is Some,
    ensures
        mark_ready_spec(mark_ready_spec(s, g).0, g).1 is None,
        begin_ready_wait_spec(mark_ready_spec(s, g).0).1 is None,
        mark_ready_spec(s, g).0.retry_attempt == 0,
{
}

/// One ready wait per generation.
pub proof fn lemma_one_ready_wait_per_generation(s: SessionView)
    requires
        begin_ready_wait_spec(s).1 is Some,
    ensures
        begin_ready_wait_spec(begin_ready_wait_spec(s).0).1 is None,
        continue_ready_wait_spec(begin_ready_wait_spec(s).0, s.retry_generation),
{
}

/// Repeated prompts of one kind are announced once.
pub proof fn lemma_repeated_prompt_announced_once(s: SessionView, kind: Seq<char>)
    ensures
        !request_input_spec(request_input_spec(s, kind).0, kind).1,
        request_input_spec(s, kind).0.awaiting == Some(kind),
{
}

/// Repeated captcha prompts start one poll.
pub proof fn lemma_one_captcha_poll(s: SessionView)
    ensures
        !request_captcha_spec(request_captcha_spec(s).0).1,
        request_captcha_spec(s).0.awaiting == Some("captcha"@),
{
}

// ── Timing, files and configuration ──────────────────────────────────

/// Interval between two readiness dials (ms).
pub const HTTP_READY_POLL_INTERVAL: u64 = 100;

/// How long one readiness dial may take (ms).
pub const HTTP_READY_DIAL_TIMEOUT: u64 = 200;

/// Bounds of the delay before the EIP portal opens by itself (ms).
pub const MIN_EIP_AUTO_OPEN_DELAY: u64 = 3000;

pub const MAX_EIP_AUTO_OPEN_DELAY: u64 = 5000;

/// How long a stopped child may take to exit before it is killed (ms).
pub const STOP_GRACE_PERIOD: u64 = 5000;

/// The captcha image the core writes, in the application directory.
pub const CAPTCHA_FILE_NAME: &'static str = "gui_captcha.png";

/// The delay before the EIP portal opens by itself, held to its bounds.
pub fn clamp_eip_open_delay(delay: u64) -> (r: u64)
    ensures
        r == if delay < MIN_EIP_AUTO_OPEN_DELAY {
            MIN_EIP_AUTO_OPEN_DELAY
        } else if delay > MAX_EIP_AUTO_OPEN_DELAY {
            MAX_EIP_AUTO_OPEN_DELAY
        } else {
            delay
        },
        MIN_EIP_AUTO_OPEN_DELAY <= r <= MAX_EIP_AUTO_OPEN_DELAY,
{
    if delay < MIN_EIP_AUTO_OPEN_DELAY {
        MIN_EIP_AUTO_OPEN_DELAY
    } else if delay > MAX_EIP_AUTO_OPEN_DELAY {
        MAX_EIP_AUTO_OPEN_DELAY
    } else {
        delay
    }
}

/// A random whole number of seconds from three to five, in ms.
pub fn default_eip_auto_open_delay() -> (r: u64)
    ensures
        MIN_EIP_AUTO_OPEN_DELAY <= r <= MAX_EIP_AUTO_OPEN_DELAY,
        r % 1000 == 0,
{
    let secs = retry::random_in_range(3, 5);
    secs * 1000
}

/// The supervisor's tunables (delays in ms).
#[derive(Debug, Clone, PartialEq, Eq)]
pub struct ProxyManagerConfig {
    pub retry_base_delay: u64,
    pub retry_max_delay: u64,
    /// The core's executable; by default `bin/zju-connect` under the
    /// application directory.
    pub binary_path: Option<String>,
}

impl Default for ProxyManagerConfig {
    fn default() -> (r: Self)
        ensures
            r.retry_base_delay == retry::DEFAULT_RETRY_BASE_DELAY,
            r.retry_max_delay == retry::DEFAULT_RETRY_MAX_DELAY,
            r.binary_path is None,
    {
        ProxyManagerConfig {
            retry_base_delay: retry::DEFAULT_RETRY_BASE_DELAY,
            retry_max_delay: retry::DEFAULT_RETRY_MAX_DELAY,
            binary_path: None,
        }
    }
}

/// The executable to spawn: the configured one, else the default under
/// `app_dir`.
pub fn binary_path(config: &ProxyManagerConfig, app_dir: &str, os: TargetOs) -> (r: String)
    ensures
        config.binary_path matches Some(p) ==> r@ == p@,
        config.binary_path is None ==> r@ == paths::binary_path_spec(app_dir@, os),
{
    match &config.binary_path {
        Some(p) => p.clone(),
        None => paths::binary_path_under(app_dir, os),
    }
}

/// The captcha file under `app_dir` on `os`.
pub fn captcha_path(app_dir: &str, os: TargetOs) -> (r: String)
    ensures
        r@ == paths::join_for(os, app_dir@, CAPTCHA_FILE_NAME@),
{
    paths::join_under(os, app_dir, CAPTCHA_FILE_NAME)
}

// ── Starting ──────────────────────────────────────────────────────────

/// The options a start runs with on `os`: normalized, with a client-data
/// file that is not absolute there joined onto `app_dir`.
pub open spec fn start_options_spec(o: LaunchOptionsView, app_dir: Seq<char>, os: TargetOs) -> LaunchOptionsView {
    let n = launch_options::normalize_spec(o);
    if paths::is_absolute_for(os, n.client_data_file) {
        n
    } else {
        LaunchOptionsView { client_data_file: paths::join_path_for(os, app_dir, n.client_data_file), ..n }
    }
}

/// Whether starting with `o` on `os` needs an elevated process: TUN mode,
/// or active ProxyBridge interception, on Windows and Linux.
pub open spec fn needs_elevation_spec(o: LaunchOptionsView, os: TargetOs) -> bool {
    (crate::backend::platform::is_windows_spec(os) || os == TargetOs::Linux) && (o.tun_mode || (proxybridge::native_spec(
        os,
    ) && o.proxybridge_enabled && o.proxybridge_processes.len() > 0 && !o.tun_mode))
}

/// Prepares a start: the options are normalized and completed, then
/// validated; a start that needs elevation fails without it.
pub fn prepare_start(options: LaunchOptions, app_dir: &str, elevated: bool, os: TargetOs) -> (r:
    Result<LaunchOptions, StartError>)
    ensures
        ({
            let o = start_options_spec(options@, app_dir@, os);
            match launch_options::validate_spec(o) {
                Some(e) => r matches Err(StartError::Validation(v)) && v@ == e,
                None => if needs_elevation_spec(o, os) && !elevated {
                    r matches Err(StartError::NeedsElevation)
                } else {
                    r matches Ok(p) && p@ == o
                },
            }
        }),
{
    let mut o = launch_options::normalize_launch_options(options);
    if !paths::is_absolute_on(os, o.client_data_file.as_str()) {
        o.client_data_file = paths::join_path_on(os, app_dir, o.client_data_file.as_str());
    }
    if let Err(e) = o.validate() {
        return Err(StartError::Validation(e));
    }
    let needs = (os.is_windows() || os == TargetOs::Linux) && (o.tun_mode
        || proxybridge::is_active(&o, os));
    if needs && !elevated {
        return Err(StartError::NeedsElevation);
    }
    Ok(o)
}

impl SessionState {
    /// A whole start up to the spawn: the options are prepared (normalized,
    /// completed, validated, elevation checked), then the session is taken
    /// unless a child is registered, and made fresh for them. Returns the
    /// options and the generation to spawn for. A refused start changes
    /// nothing: a validation error comes first, then the refusal for want
    /// of elevation, then the refusal while a child runs.
    pub fn start_session(
        &mut self,
        options: LaunchOptions,
        app_dir: &str,
        elevated: bool,
        os: TargetOs,
    ) -> (r: Result<(LaunchOptions, u64), StartError>)
        ensures
            ({
                let o = start_options_spec(options@, app_dir@, os);
                match launch_options::validate_spec(o) {
                    Some(e) => r matches Err(StartError::Validation(v)) && v@ == e
                        && *final(self) == *old(self),
                    None => if needs_elevation_spec(o, os) && !elevated {
                        r matches Err(StartError::NeedsElevation) && *final(self) == *old(self)
                    } else if old(self).child_pid is Some {
                        r matches Err(StartError::AlreadyRunning) && *final(self) == *old(self)
                    } else {
                        r matches Ok((p, g)) && p@ == o && g == next_generation(
                            old(self).retry_generation,
                        ) && final(self)@ == activate_spec(begin_start_spec(old(self)@).0, o)
                    },
                }
            }),
    {
        let o = match prepare_start(options, app_dir, elevated, os) {
            Ok(o) => o,
            Err(e) => return Err(e),
        };
        if self.child_pid.is_some() {
            return Err(StartError::AlreadyRunning);
        }
        self.retry_generation = next_gen(self.retry_generation);
        let g = self.activate_session(&o);
        Ok((o, g))
    }
}

// ── Log lines ─────────────────────────────────────────────────────────

/// What the supervisor does with one complete log line of the core.
#[derive(Debug, Clone, PartialEq, Eq)]
pub struct LineReaction {
    /// The trimmed line, for the log view; `None` for a blank line.
    pub log: Option<String>,
    /// The prompt it shows, if any.
    pub prompt: Option<DetectedPrompt>,
    /// Whether it starts the wait for the local proxy.
    pub begin_ready_wait: bool,
}

/// What a prompt asks of the user.
#[derive(Debug, Clone, Copy, PartialEq, Eq)]
pub enum PromptRequest {
    /// Typed input, with the prompt shown to the user.
    Input(InputKind, &'static str),
    /// The captcha image.
    Captcha,
}

pub open spec fn prompt_request_spec(p: DetectedPrompt) -> (Option<InputKind>, Seq<char>) {
    match p {
        DetectedPrompt::Sms => (Some(InputKind::Sms), "Please enter the SMS code"@),
        DetectedPrompt::Callback => (Some(InputKind::Callback), "Please enter the callback URL"@),
        DetectedPrompt::Captcha => (None, Seq::empty()),
    }
}

/// What a detected prompt asks of the user.
pub fn prompt_request(p: DetectedPrompt) -> (r: PromptRequest)
    ensures
        match prompt_request_spec(p) {
            (Some(k), text) => r matches PromptRequest::Input(k2, t) && k2 == k && t@ == text,
            (None, _) => r is Captcha,
        },
{
    match p {
        DetectedPrompt::Sms => PromptRequest::Input(InputKind::Sms, "Please enter the SMS code"),
        DetectedPrompt::Callback => PromptRequest::Input(
            InputKind::Callback,
            "Please enter the callback URL",
        ),
        DetectedPrompt::Captcha => PromptRequest::Captcha,
    }
}

impl SessionState {
    /// The reaction to a complete log line: blank lines are dropped; any
    /// other is logged trimmed, checked for a prompt, and checked for the
    /// message that starts the readiness wait.
    pub fn log_line_reaction(&self, line: &str) -> (r: LineReaction)
        ensures
            text::trim_seq(line@).len() == 0 ==> r.log is None && r.prompt is None
                && !r.begin_ready_wait,
            text::trim_seq(line@).len() > 0 ==> (r.log matches Some(t) && t@ == text::trim_seq(
                line@,
            )) && r.prompt == logs::classify_prompt_spec(text::trim_seq(line@))
                && r.begin_ready_wait == readiness_trigger_spec(self@, text::trim_seq(line@)),
    {
        let t = text::trim(line);
        if t.unicode_len() == 0 {
            return LineReaction { log: None, prompt: None, begin_ready_wait: false };
        }
        LineReaction {
            log: Some(t.to_owned()),
            prompt: logs::classify_prompt(t),
            begin_ready_wait: self.readiness_trigger(t),
        }
    }

    /// A retry is scheduled: one more attempt, with its delay drawn from
    /// `jitter`. Returns the attempt, its delay and the generation the
    /// retry belongs to.
    pub fn schedule_retry<F: Fn(u64, u32) -> u64>(&mut self, config: &ProxyManagerConfig, jitter: F) -> (r: (u32, u64, u64))
        requires
            forall|d: u64, a: u32| jitter.requires((d, a)),
        ensures
            final(self)@ == bump_retry_spec(old(self)@),
            r.0 == final(self).retry_attempt,
            r.2 == old(self).retry_generation,
            exists|j: u64|
                jitter.ensures(
                    (retry::backoff(r.0, config.retry_base_delay, config.retry_max_delay) as u64, r.0),
                    j,
                ) && r.1 == retry::clamp_delay(j as nat, retry::effective_cap(config.retry_max_delay)),
    {
        let (attempt, generation) = self.bump_retry_attempt();
        let delay = retry::next_retry_delay(attempt, config.retry_base_delay, config.retry_max_delay, jitter);
        (attempt, delay, generation)
    }
}

// ── Messages ──────────────────────────────────────────────────────────

impl StartError {
    /// The user-facing text of the error.
    pub fn message(&self) -> (r: String)
        ensures
            *self is AlreadyRunning ==> r@ == "zju-connect is already running"@,
            self matches StartError::BinaryMissing(p) ==> r@ == "zju-connect binary not found: "@ + p@,
            self matches StartError::Validation(v) ==> r@ == "invalid options: "@ + launch_options::validation_message(v@),
            *self is Spawn ==> text::has_prefix(r@, "failed to spawn child: "@),
            *self is NeedsElevation ==> r@ == "tun mode requires elevated application restart"@,
            *self is SessionStopped ==> r@ == "session is no longer active"@,
    {
        match self {
            StartError::AlreadyRunning => "zju-connect is already running".to_owned(),
            StartError::BinaryMissing(p) => {
                let mut out = String::new();
                text::append_str(&mut out, "zju-connect binary not found: ");
                text::append_str(&mut out, p.as_str());
                assert(out@ =~= "zju-connect binary not found: "@ + p@);
                out
            },
            StartError::Validation(v) => {
                let mut out = String::new();
                text::append_str(&mut out, "invalid options: ");
                let m = v.message();
                text::append_str(&mut out, m.as_str());
                assert(out@ =~= "invalid options: "@ + launch_options::validation_message(v@));
                out
            },
            StartError::Spawn(e) => platform::prefixed_io_error("failed to spawn child: ", e),
            StartError::NeedsElevation => "tun mode requires elevated application restart".to_owned(),
            StartError::SessionStopped => "session is no longer active".to_owned(),
        }
    }
}

impl StopError {
    /// The user-facing text of the error.
    pub fn message(&self) -> (r: String)
        ensures
            *self is Io ==> text::has_prefix(r@, "io error during stop: "@),
            *self is Timeout ==> r@ == "timeout waiting for process to stop"@,
    {
        match self {
            StopError::Io(e) => platform::prefixed_io_error("io error during stop: ", e),
            StopError::Timeout => "timeout waiting for process to stop".to_owned(),
        }
    }
}

impl SubmitInputError {
    /// The user-facing text of the error.
    pub fn message(&self) -> (r: String)
        ensures
            *self is Empty ==> r@ == "input cannot be empty"@,
            *self is NotRunning ==> r@ == "process is not running"@,
            self matches SubmitInputError::KindMismatch { awaiting, requested } ==> r@ == "waiting for "@
                + awaiting@ + ", not "@ + requested@,
            *self is MissingKind ==> r@ == "input kind is required (sms/callback/captcha)"@,
            *self is NotAwaiting ==> r@ == "no input is currently requested"@,
            *self is InvalidValue ==> r@ == "input contains newline or control characters"@,
            *self is TooLong ==> r@ == "input is too long (max 4096 bytes)"@,
            *self is Io ==> text::has_prefix(r@, "io error: "@),
    {
        match self {
            SubmitInputError::Empty => "input cannot be empty".to_owned(),
            SubmitInputError::NotRunning => "process is not running".to_owned(),
            SubmitInputError::KindMismatch { awaiting, requested } => {
                let mut out = String::new();
                text::append_str(&mut out, "waiting for ");
                text::append_str(&mut out, awaiting.as_str());
                text::append_str(&mut out, ", not ");
                text::append_str(&mut out, requested.as_str());
                assert(out@ =~= "waiting for "@ + awaiting@ + ", not "@ + requested@);
                out
            },
            SubmitInputError::MissingKind => "input kind is required (sms/callback/captcha)".to_owned(),
            SubmitInputError::NotAwaiting => "no input is currently requested".to_owned(),
            SubmitInputError::InvalidValue => "input contains newline or control characters".to_owned(),
            SubmitInputError::TooLong => "input is too long (max 4096 bytes)".to_owned(),
            SubmitInputError::Io(e) => platform::prefixed_io_error("io error: ", e),
        }
    }
}

impl OpenEipManualError {
    /// The user-facing text of the error.
    pub fn message(&self) -> (r: String)
        ensures
            *self is NotConnected ==> r@ == "尚未连接，无法打开 EIP"@,
            *self is Open ==> text::has_prefix(r@, "failed to spawn browser process: "@),
    {
        match self {
            OpenEipManualError::NotConnected => "尚未连接，无法打开 EIP".to_owned(),
            OpenEipManualError::Open(e) => e.message(),
        }
    }
}

/// `a + b + c`.
fn concat3(a: &str, b: &str, c: &str) -> (r: String)
    ensures
        r@ == a@ + b@ + c@,
{
    let mut out = String::new();
    text::append_str(&mut out, a);
    text::append_str(&mut out, b);
    text::append_str(&mut out, c);
    assert(out@ =~= a@ + b@ + c@);
    out
}

/// The log line when the child exits while input is awaited.
pub fn awaiting_blocked_log(reason: &str) -> (r: String)
    ensures
        r@ == "[reconnect] process exited while awaiting "@ + reason@
            + "; automatic reconnect paused until manual restart"@,
{
    concat3(
        "[reconnect] process exited while awaiting ",
        reason,
        "; automatic reconnect paused until manual restart",
    )
}

/// The status message when the child exits while input is awaited.
pub fn awaiting_blocked_message(reason: &str) -> (r: String)
    ensures
        r@ == "连接在等待 "@ + reason@ + " 时中断，请手动重新连接"@,
{
    concat3("连接在等待 ", reason, " 时中断，请手动重新连接")
}

/// `head + <delay as text> + mid + <attempt> + tail`.
fn retry_text(head: &str, delay: u64, mid: &str, attempt: u32, tail: &str) -> (r: String)
    ensures
        r@ == head@ + retry::format_delay_spec(delay as nat) + mid@ + text::decimal(attempt as nat)
            + tail@,
{
    let mut out = String::new();
    text::append_str(&mut out, head);
    let d = retry::format_retry_delay(delay);
    text::append_str(&mut out, d.as_str());
    text::append_str(&mut out, mid);
    text::push_decimal(&mut out, attempt as u64);
    text::append_str(&mut out, tail);
    assert(out@ =~= head@ + retry::format_delay_spec(delay as nat) + mid@ + text::decimal(
        attempt as nat,
    ) + tail@);
    out
}

/// The log line when a reconnect is scheduled after the child exited
/// (`exit` describes how it exited).
pub fn retry_scheduled_log(exit: &str, delay: u64, attempt: u32) -> (r: String)
    ensures
        r@ == "[reconnect] process exited ("@ + exit@ + "), retrying in "@ + retry::format_delay_spec(
            delay as nat,
        ) + " (attempt "@ + text::decimal(attempt as nat) + ")"@,
{
    let head = concat3("[reconnect] process exited (", exit, "), retrying in ");
    retry_text(head.as_str(), delay, " (attempt ", attempt, ")")
}

/// The status message when a reconnect is scheduled after the child exited.
pub fn retry_scheduled_message(delay: u64, attempt: u32) -> (r: String)
    ensures
        r@ == "连接已断开，将在 "@ + retry::format_delay_spec(delay as nat) + " 后重试（第 "@
            + text::decimal(attempt as nat) + " 次）"@,
{
    retry_text("连接已断开，将在 ", delay, " 后重试（第 ", attempt, " 次）")
}

/// The log line when a reconnect attempt failed to start (`err` is the
/// start error's text).
pub fn retry_failed_log(err: &str, delay: u64, attempt: u32) -> (r: String)
    ensures
        r@ == "[reconnect] retry start failed: "@ + err@ + "; retrying in "@ + retry::format_delay_spec(
            delay as nat,
        ) + " (attempt "@ + text::decimal(attempt as nat) + ")"@,
{
    let head = concat3("[reconnect] retry start failed: ", err, "; retrying in ");
    retry_text(head.as_str(), delay, " (attempt ", attempt, ")")
}

/// The status message when a reconnect attempt failed to start.
pub fn retry_failed_message(delay: u64, attempt: u32) -> (r: String)
    ensures
        r@ == "重新连接失败，将在 "@ + retry::format_delay_spec(delay as nat) + " 后重试（第 "@
            + text::decimal(attempt as nat) + " 次）"@,
{
    retry_text("重新连接失败，将在 ", delay, " 后重试（第 ", attempt, " 次）")
}


/// Becoming ready never asks to open the EIP portal again once it was
/// opened in this session, and asks only when automatic opening is on.
pub proof fn lemma_ready_opens_portal_only_once(s: SessionView, g: u64)
    ensures
        s.eip_opened ==> mark_ready_spec(s, g).1 != Some(true),
        mark_ready_spec(s, g).1 == Some(true) ==> s.eip_options.eip_auto_open && !s.eip_opened,
{
}

/// An automatic reconnect does not open the portal again: after the
/// portal was opened, an unexpected exit, the scheduled retry (with any
/// options), the new child's registration and its readiness answer "do
/// not open".
pub proof fn lemma_reconnect_does_not_reopen_portal(
    s: SessionView,
    o: LaunchOptionsView,
    pid: Option<u32>,
)
    requires
        s.session_active,
        s.awaiting is None,
        s.eip_opened,
    ensures
        ({
            let s1 = child_exited_spec(s);
            let (s2, a) = exit_spec(s1, s.retry_generation);
            let s3 = bump_retry_spec(s2);
            let s4 = SessionView { eip_options: o, ..s3 };
            let g = s4.retry_generation;
            let s5 = register_spec(s4, g, pid);
            &&& a is ScheduleRetry
            &&& mark_ready_spec(s5, g).1 == Some(false)
        }),
{
}

} // verus!
