//! Launching the EIP portal in a browser.
//!
//! Opening the portal is mode independent: the browser's proxy settings are
//! never touched. A browser configured in the settings is started with the
//! URL, after a new-window flag for its family unless the user already
//! supplied one; with no browser configured the URL goes to the operating
//! system's default handler.

use vstd::prelude::*;

use crate::backend::browser_detect::{self, BrowserKind};
use crate::backend::launch_options::{self, LaunchOptions, LaunchOptionsView};
use crate::backend::platform::TargetOs;
use crate::text;

verus! {

pub const EIP_URL: &'static str = "http://eipapp.scmcc.com.cn:82/mclient/portal/#/home/work";

/// Flags that already mean "open a new window/tab".
pub const NEW_WINDOW_FLAGS: [&'static str; 4] = [
    "--new-window",
    "-new-window",
    "--new-tab",
    "-new-tab",
];

/// Why the EIP portal could not be opened.
#[derive(Debug)]
pub enum OpenEipError {
    Spawn(std::io::Error),
}

impl OpenEipError {
    /// The user-facing text of the error.
    pub fn message(&self) -> (r: String)
        ensures
            text::has_prefix(r@, "failed to spawn browser process: "@),
    {
        match self {
            OpenEipError::Spawn(e) => crate::backend::platform::prefixed_io_error(
                "failed to spawn browser process: ",
                e,
            ),
        }
    }
}

/// A program and its arguments, to be spawned by the caller.
#[derive(Debug, Clone, PartialEq, Eq)]
pub struct EipCommand {
    pub program: String,
    pub args: Vec<String>,
}

/// One of `args`, lower-cased, is a new-window/new-tab flag.
pub open spec fn has_new_window_flag(args: Seq<Seq<char>>) -> bool {
    exists|i: int, j: int|
        0 <= i < args.len() && 0 <= j < 4 && text::lower_case(#[trigger] args[i])
            == #[trigger] NEW_WINDOW_FLAGS@[j]@
}

pub open spec fn ensure_flag_spec(args: Seq<Seq<char>>, kind: BrowserKind) -> Seq<Seq<char>> {
    if has_new_window_flag(args) {
        args
    } else {
        args.push(browser_detect::new_window_flag_spec(kind))
    }
}

/// Appends the family's new-window flag unless the user already supplied
/// a new-window or new-tab flag (in any case).
pub fn ensure_new_window_flag(args: &mut Vec<String>, kind: BrowserKind)
    ensures
        final(args).deep_view() == ensure_flag_spec(old(args).deep_view(), kind),
{
    let ghost a = args.deep_view();
    let mut i: usize = 0;
    while i < args.len()
        invariant
            i <= args@.len(),
            a == args.deep_view(),
            forall|k: int, j: int|
                0 <= k < i && 0 <= j < 4 ==> text::lower_case(#[trigger] a[k])
                    != #[trigger] NEW_WINDOW_FLAGS@[j]@,
        decreases args.len() - i,
    {
        let lower = text::lower_case_string(args[i].as_str());
        let mut j: usize = 0;
        while j < 4
            invariant
                j <= 4,
                i < args@.len(),
                a == args.deep_view(),
                lower@ == text::lower_case(a[i as int]),
                forall|m: int| 0 <= m < j ==> lower@ != #[trigger] NEW_WINDOW_FLAGS@[m]@,
            decreases 4 - j,
        {
            if text::str_eq(lower.as_str(), NEW_WINDOW_FLAGS[j]) {
                assert(text::lower_case(a[i as int]) == NEW_WINDOW_FLAGS@[j as int]@);
                return;
            }
            j = j + 1;
        }
        i = i + 1;
    }
    launch_options::push_str(args, kind.new_window_flag());
}

/// The handler that opens a URL on `os`.
pub open spec fn default_open_spec(os: TargetOs) -> (Seq<char>, Seq<Seq<char>>) {
    match os {
        TargetOs::Windows | TargetOs::WindowsArm64 => ("rundll32"@, seq!["url.dll,FileProtocolHandler"@, EIP_URL@]),
        TargetOs::MacOs => ("open"@, seq![EIP_URL@]),
        _ => ("xdg-open"@, seq![EIP_URL@]),
    }
}

/// The command that opens the EIP portal on `os` for `o`.
pub open spec fn open_eip_spec(o: LaunchOptionsView, os: TargetOs) -> (Seq<char>, Seq<Seq<char>>) {
    let program = text::trim_seq(o.eip_browser_program);
    if program.len() == 0 {
        default_open_spec(os)
    } else {
        let kind = match browser_detect::classify_spec(program) {
            Some(k) => k,
            None => BrowserKind::Chrome,
        };
        (program, ensure_flag_spec(o.eip_browser_args, kind).push(EIP_URL@))
    }
}

/// The command that hands `EIP_URL` to the system's default handler.
pub fn default_open_command(os: TargetOs) -> (r: EipCommand)
    ensures
        (r.program@, r.args.deep_view()) == default_open_spec(os),
{
    let mut args: Vec<String> = Vec::new();
    let program = match os {
        TargetOs::Windows | TargetOs::WindowsArm64 => {
            launch_options::push_str(&mut args, "url.dll,FileProtocolHandler");
            "rundll32"
        },
        TargetOs::MacOs => "open",
        _ => "xdg-open",
    };
    launch_options::push_str(&mut args, EIP_URL);
    let r = EipCommand { program: program.to_owned(), args };
    assert(r.args.deep_view() =~= default_open_spec(os).1);
    r
}

/// The command that opens the EIP portal: the configured browser
/// (trimmed) with the user's arguments, a new-window flag for its family
/// unless present (unknown binaries get Chrome-family flags), and the URL;
/// or, with no browser configured, the system's default handler.
pub fn open_eip(options: &LaunchOptions, os: TargetOs) -> (r: EipCommand)
    ensures
        (r.program@, r.args.deep_view()) == open_eip_spec(options@, os),
{
    let program = text::trim(options.eip_browser_program.as_str());
    if program.is_empty() {
        return default_open_command(os);
    }
    let kind = match browser_detect::classify_browser(program) {
        Some(k) => k,
        None => BrowserKind::Chrome,
    };
    let mut args = launch_options::copy_strings(&options.eip_browser_args);
    ensure_new_window_flag(&mut args, kind);
    launch_options::push_str(&mut args, EIP_URL);
    EipCommand { program: program.to_owned(), args }
}


/// With no browser configured the portal opens with the platform's own
/// handler: `open` on macOS, `rundll32 url.dll,FileProtocolHandler` on
/// Windows, and `xdg-open` on the remaining (Linux and other Unix)
/// systems, always with the portal address as the last argument.
pub proof fn lemma_default_opener_per_platform(o: LaunchOptionsView, os: TargetOs)
    requires
        text::trim_seq(o.eip_browser_program).len() == 0,
    ensures
        os == TargetOs::MacOs ==> open_eip_spec(o, os) == ("open"@, seq![EIP_URL@]),
        crate::backend::platform::is_windows_spec(os) ==> open_eip_spec(o, os) == (
            "rundll32"@,
            seq!["url.dll,FileProtocolHandler"@, EIP_URL@],
        ),
        (os == TargetOs::Linux || os == TargetOs::Other) ==> open_eip_spec(o, os) == (
            "xdg-open"@,
            seq![EIP_URL@],
        ),
        open_eip_spec(o, os).0 == "xdg-open"@ ==> (os == TargetOs::Linux || os == TargetOs::Other),
{
    reveal_strlit("open");
    reveal_strlit("rundll32");
    reveal_strlit("xdg-open");
    assert("open"@ != "xdg-open"@) by {
        assert("open"@.len() != "xdg-open"@.len());
    }
    assert("rundll32"@ != "xdg-open"@) by {
        assert("rundll32"@[0] != "xdg-open"@[0]);
    }
}

/// Whatever is configured, on every platform, the portal's address is the
/// last argument of the command.
pub proof fn lemma_portal_address_comes_last(o: LaunchOptionsView, os: TargetOs)
    ensures
        open_eip_spec(o, os).1.len() > 0,
        open_eip_spec(o, os).1.last() == EIP_URL@,
{
}

} // verus!
