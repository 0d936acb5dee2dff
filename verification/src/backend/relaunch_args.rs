//! The command line an elevated relaunch is started with, and its parser.

use vstd::prelude::*;

use crate::backend::launch_options::push_str;
use crate::text;

verus! {

pub const RESUME_PENDING_CONNECT_ARG: &'static str = "--resume-pending-connect";

pub const WAIT_PARENT_PID_ARG_PREFIX: &'static str = "--wait-parent-pid=";

/// What an elevated relaunch was asked to do.
#[derive(Debug, Clone, PartialEq, Eq)]
pub struct ElevatedRelaunchArgs {
    pub resume_pending_connect: bool,
    pub wait_parent_pid: u32,
}

impl Default for ElevatedRelaunchArgs {
    fn default() -> (r: Self)
        ensures
            !r.resume_pending_connect,
            r.wait_parent_pid == 0,
    {
        ElevatedRelaunchArgs { resume_pending_connect: false, wait_parent_pid: 0 }
    }
}

#[derive(Debug, PartialEq, Eq)]
pub enum RelaunchArgsError {
    InvalidParentPid(String),
}

/// The relaunch command line for `pid`: the resume marker, then the
/// parent pid when it is non-zero.
pub open spec fn build_spec(pid: u32) -> Seq<Seq<char>> {
    if pid > 0 {
        seq![RESUME_PENDING_CONNECT_ARG@, WAIT_PARENT_PID_ARG_PREFIX@ + text::decimal(pid as nat)]
    } else {
        seq![RESUME_PENDING_CONNECT_ARG@]
    }
}

/// Folding one argument into the parsed `(resume, pid)`: the marker sets
/// `resume`; a parent-pid argument must carry a non-zero `u32` and sets
/// both; anything else is ignored. An invalid pid fails with its text.
pub open spec fn parse_step(acc: (bool, u32), a: Seq<char>) -> Result<(bool, u32), Seq<char>> {
    if a == RESUME_PENDING_CONNECT_ARG@ {
        Ok((true, acc.1))
    } else if text::has_prefix(a, WAIT_PARENT_PID_ARG_PREFIX@) {
        let v = a.skip(WAIT_PARENT_PID_ARG_PREFIX@.len() as int);
        match text::parse_unsigned(v, u32::MAX as nat) {
            Some(n) => if n != 0 {
                Ok((true, n as u32))
            } else {
                Err(v)
            },
            None => Err(v),
        }
    } else {
        Ok(acc)
    }
}

/// The arguments parsed left to right; the first invalid pid stops it.
pub open spec fn parse_spec(args: Seq<Seq<char>>) -> Result<(bool, u32), Seq<char>>
    decreases args.len(),
{
    if args.len() == 0 {
        Ok((false, 0))
    } else {
        match parse_spec(args.drop_last()) {
            Err(e) => Err(e),
            Ok(acc) => parse_step(acc, args.last()),
        }
    }
}

pub open spec fn string_views(args: Seq<String>) -> Seq<Seq<char>> {
    args.map_values(|s: String| s@)
}

/// Arguments for relaunching elevated on behalf of `parent_pid`.
pub fn build_elevated_relaunch_args(parent_pid: u32) -> (r: Vec<String>)
    ensures
        r.deep_view() == build_spec(parent_pid),
{
    let mut args: Vec<String> = Vec::new();
    push_str(&mut args, RESUME_PENDING_CONNECT_ARG);
    if parent_pid > 0 {
        let mut a = WAIT_PARENT_PID_ARG_PREFIX.to_owned();
        let d = text::decimal_string(parent_pid as u64);
        text::append_str(&mut a, d.as_str());
        push_str(&mut args, a.as_str());
    }
    assert(args.deep_view() =~= build_spec(parent_pid));
    args
}

/// Reads the relaunch arguments out of `args` (other arguments are
/// ignored). A parent pid implies resuming.
pub fn parse_elevated_relaunch_args(args: &[String]) -> (r: Result<
    ElevatedRelaunchArgs,
    RelaunchArgsError,
>)
    ensures
        match parse_spec(string_views(args@)) {
            Ok((resume, pid)) => r matches Ok(p) && p.resume_pending_connect == resume
                && p.wait_parent_pid == pid,
            Err(v) => r matches Err(RelaunchArgsError::InvalidParentPid(s)) && s@ == v,
        },
{
    let ghost views = string_views(args@);
    let mut resume = false;
    let mut pid: u32 = 0;
    let mut i: usize = 0;
    while i < args.len()
        invariant
            i <= args@.len(),
            views == string_views(args@),
            parse_spec(views.take(i as int)) == Ok::<(bool, u32), Seq<char>>((resume, pid)),
        decreases args.len() - i,
    {
        let arg = args[i].as_str();
        assert(views.take(i + 1).drop_last() =~= views.take(i as int));
        assert(views.take(i + 1).last() == arg@);
        if text::str_eq(arg, RESUME_PENDING_CONNECT_ARG) {
            resume = true;
        } else {
            match text::strip_prefix_str(arg, WAIT_PARENT_PID_ARG_PREFIX) {
                Some(value) => {
                    assert(value@ =~= arg@.skip(WAIT_PARENT_PID_ARG_PREFIX@.len() as int));
                    match text::parse_unsigned_str(value, u32::MAX as u64) {
                        Some(n) => {
                            if n == 0 {
                                assert(parse_spec(views.take(i + 1)) == Err::<(bool, u32), Seq<char>>(value@));
                                proof {
                                    lemma_parse_error_sticks(views, i + 1);
                                }
                                return Err(RelaunchArgsError::InvalidParentPid(value.to_owned()));
                            }
                            pid = n as u32;
                            resume = true;
                        },
                        None => {
                            assert(parse_spec(views.take(i + 1)) == Err::<(bool, u32), Seq<char>>(value@));
                            proof {
                                lemma_parse_error_sticks(views, i + 1);
                            }
                            return Err(RelaunchArgsError::InvalidParentPid(value.to_owned()));
                        },
                    }
                },
                None => {},
            }
        }
        i = i + 1;
    }
    assert(views.take(args@.len() as int) =~= views);
    Ok(ElevatedRelaunchArgs { resume_pending_connect: resume, wait_parent_pid: pid })
}

/// Once parsing failed, later arguments do not change the outcome.
pub proof fn lemma_parse_error_sticks(args: Seq<Seq<char>>, k: int)
    requires
        0 <= k <= args.len(),
        parse_spec(args.take(k)) is Err,
    ensures
        parse_spec(args) == parse_spec(args.take(k)),
    decreases args.len() - k,
{
    if k < args.len() {
        assert(args.take(k + 1).drop_last() =~= args.take(k));
        lemma_parse_error_sticks(args, k + 1);
    } else {
        assert(args.take(k) =~= args);
    }
}

/// The relaunch arguments read back as what they were built from: an
/// elevated copy started with `build_elevated_relaunch_args(pid)` resumes
/// the pending connection and waits for `pid` (none when `pid` is 0).
pub proof fn lemma_relaunch_args_round_trip(pid: u32)
    ensures
        parse_spec(build_spec(pid)) == Ok::<(bool, u32), Seq<char>>((true, pid)),
{
    reveal_strlit("--resume-pending-connect");
    reveal_strlit("--wait-parent-pid=");
    let first = RESUME_PENDING_CONNECT_ARG@;
    let prefix = WAIT_PARENT_PID_ARG_PREFIX@;
    assert(first.len() == 24);
    assert(prefix.len() == 18);
    assert(!text::has_prefix(first, prefix)) by {
        assert(first[2] != prefix[2]);
        assert(first.subrange(0, 18)[2] == first[2]);
    }
    assert(parse_spec(seq![first]) == Ok::<(bool, u32), Seq<char>>((true, 0))) by {
        assert(seq![first].drop_last() =~= Seq::<Seq<char>>::empty());
        assert(parse_spec(Seq::<Seq<char>>::empty()) == Ok::<(bool, u32), Seq<char>>((false, 0)));
        assert(seq![first].last() == first);
    }
    if pid > 0 {
        let second = prefix + text::decimal(pid as nat);
        let args = seq![first, second];
        assert(args.drop_last() =~= seq![first]);
        assert(second != first) by {
            assert(second[2] == prefix[2]);
        }
        assert(second.subrange(0, 18) =~= prefix);
        assert(second.skip(18) =~= text::decimal(pid as nat));
        text::lemma_parse_decimal(pid as nat, u32::MAX as nat);
        text::lemma_decimal_reads_back(pid as nat);
    }
}

// ── Resuming after the restart ────────────────────────────────────────

/// Reported when the restarted process did not get administrator rights.
pub const ELEVATION_DENIED_MESSAGE: &'static str = "提权失败：系统未授予管理员权限。请启用 UAC 或以管理员身份运行本程序。";

/// The options a resumed connection starts with: unchanged when the
/// process is elevated; otherwise TUN mode and ProxyBridge are switched off
/// when they would need elevation, since they could only fail.
pub open spec fn resume_options_spec(
    o: crate::backend::launch_options::LaunchOptionsView,
    elevated: bool,
    os: crate::backend::platform::TargetOs,
) -> crate::backend::launch_options::LaunchOptionsView {
    let pb_active = crate::backend::proxy::proxybridge::native_spec(os) && o.proxybridge_enabled
        && o.proxybridge_processes.len() > 0 && !o.tun_mode;
    if !elevated && (o.tun_mode || pb_active) {
        crate::backend::launch_options::LaunchOptionsView {
            tun_mode: false,
            proxybridge_enabled: false,
            ..o
        }
    } else {
        o
    }
}

/// Adjusts the stored options for a resumed connection.
pub fn resume_options(
    options: crate::backend::launch_options::LaunchOptions,
    elevated: bool,
    os: crate::backend::platform::TargetOs,
) -> (r: crate::backend::launch_options::LaunchOptions)
    ensures
        r@ == resume_options_spec(options@, elevated, os),
{
    let mut options = options;
    if !elevated && (options.tun_mode || crate::backend::proxy::proxybridge::is_active(&options, os)) {
        options.tun_mode = false;
        options.proxybridge_enabled = false;
    }
    options
}

/// The error event when an elevated restart could not be launched.
pub fn elevation_failed_message(err: &str) -> (r: String)
    ensures
        r@ == "提权失败："@ + err@,
{
    let mut out = String::new();
    text::append_str(&mut out, "提权失败：");
    text::append_str(&mut out, err);
    assert(out@ =~= "提权失败："@ + err@);
    out
}

} // verus!
