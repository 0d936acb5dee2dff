//! The system tray icon's content: its identity, labels, the address it
//! opens, and the icon image in the pixel order the tray protocol wants.
//! Showing the icon is the application's part.

use vstd::prelude::*;

use crate::text;

verus! {

pub const TRAY_ID: &'static str = "zju-connect-gui";

pub const TRAY_TITLE: &'static str = "ZJU Connect";

/// Context-menu entry that opens the web UI.
pub const MENU_OPEN: &'static str = "打开网页";

/// Context-menu entry that quits the application.
pub const MENU_QUIT: &'static str = "退出";

/// Why the tray icon could not be shown.
#[derive(Debug)]
pub enum TrayError {
    Icon(String),
    Build(String),
}

impl TrayError {
    /// The user-facing text of the error.
    pub fn message(&self) -> (r: String)
        ensures
            self matches TrayError::Icon(m) ==> r@ == "failed to decode tray icon: "@ + m@,
            self matches TrayError::Build(m) ==> r@ == "failed to build tray icon: "@ + m@,
    {
        let mut out = String::new();
        match self {
            TrayError::Icon(m) => {
                text::append_str(&mut out, "failed to decode tray icon: ");
                text::append_str(&mut out, m.as_str());
                assert(out@ =~= "failed to decode tray icon: "@ + m@);
            },
            TrayError::Build(m) => {
                text::append_str(&mut out, "failed to build tray icon: ");
                text::append_str(&mut out, m.as_str());
                assert(out@ =~= "failed to build tray icon: "@ + m@);
            },
        }
        out
    }
}

/// The address of the web UI with the launch token.
pub open spec fn web_ui_url_spec(port: u16, token: Seq<char>) -> Seq<char> {
    "http://localhost:"@ + text::decimal(port as nat) + "/?token="@ + token
}

/// The address the tray and the start-up open in the browser.
pub fn web_ui_url(port: u16, token: &str) -> (r: String)
    ensures
        r@ == web_ui_url_spec(port, token@),
{
    let mut out = String::new();
    text::append_str(&mut out, "http://localhost:");
    text::push_decimal(&mut out, port as u64);
    text::append_str(&mut out, "/?token=");
    text::append_str(&mut out, token);
    assert(out@ =~= web_ui_url_spec(port, token@));
    out
}

/// The tray's tool-tip title; it shows the address without the token.
pub fn tool_tip_title(port: u16) -> (r: String)
    ensures
        r@ == "ZJU Connect - http://localhost:"@ + text::decimal(port as nat),
{
    let mut out = String::new();
    text::append_str(&mut out, "ZJU Connect - http://localhost:");
    text::push_decimal(&mut out, port as u64);
    assert(out@ =~= "ZJU Connect - http://localhost:"@ + text::decimal(port as nat));
    out
}

/// The log line shown when the tray is unavailable (`err` is the error's
/// text).
pub fn tray_unavailable_log(err: &str) -> (r: String)
    ensures
        r@ == "[tray] 系统托盘不可用："@ + err@ + "（退出需通过 Ctrl+C 或任务管理器）"@,
{
    let mut out = String::new();
    text::append_str(&mut out, "[tray] 系统托盘不可用：");
    text::append_str(&mut out, err);
    text::append_str(&mut out, "（退出需通过 Ctrl+C 或任务管理器）");
    assert(out@ =~= "[tray] 系统托盘不可用："@ + err@ + "（退出需通过 Ctrl+C 或任务管理器）"@);
    out
}

/// Width, height and RGBA pixels of the image encoded in `bytes`, as the
/// `image` crate decodes it; `None` when it cannot.
pub uninterp spec fn decoded_rgba(bytes: Seq<u8>) -> Option<(u32, u32, Seq<u8>)>;

/// `image::load_from_memory(bytes)` converted with `to_rgba8`. On failure
/// the error's text is handed back; what it says is not stated.
#[verifier::external_body]
fn decode_rgba(bytes: &[u8]) -> (r: Result<(u32, u32, Vec<u8>), String>)
    ensures
        match r {
            Ok((w, h, d)) => decoded_rgba(bytes@) == Some((w, h, d@)),
            Err(_) => decoded_rgba(bytes@) is None,
        },
{
    match image::load_from_memory(bytes) {
        Ok(img) => {
            let rgba = img.to_rgba8();
            let (w, h) = rgba.dimensions();
            Ok((w, h, rgba.into_raw()))
        },
        Err(e) => Err(e.to_string()),
    }
}

/// RGBA pixels in ARGB order: each whole group of four bytes rotated right
/// by one; trailing bytes stay.
pub open spec fn argb_spec(d: Seq<u8>) -> Seq<u8> {
    Seq::new(
        d.len(),
        |i: int|
            if i - i % 4 + 4 <= d.len() {
                if i % 4 == 0 {
                    d[i + 3]
                } else {
                    d[i - 1]
                }
            } else {
                d[i]
            },
    )
}

/// Rotates every pixel from RGBA to ARGB.
pub fn rgba_to_argb(d: Vec<u8>) -> (r: Vec<u8>)
    ensures
        r@ == argb_spec(d@),
{
    let n = d.len();
    let mut out = d.clone();
    let mut i: usize = 0;
    while n - i >= 4
        invariant
            n == d@.len(),
            out@.len() == n,
            i % 4 == 0,
            i <= n,
            forall|k: int| 0 <= k < i ==> out@[k] == #[trigger] argb_spec(d@)[k],
            forall|k: int| i <= k < n ==> out@[k] == d@[k],
        decreases n - i,
    {
        let (p0, p1, p2, p3) = (d[i], d[i + 1], d[i + 2], d[i + 3]);
        out.set(i, p3);
        out.set(i + 1, p0);
        out.set(i + 2, p1);
        out.set(i + 3, p2);
        assert forall|k: int| i <= k < i + 4 implies out@[k] == #[trigger] argb_spec(d@)[k] by {
            assert(k - k % 4 == i);
        }
        i = i + 4;
    }
    assert forall|k: int| i <= k < n implies out@[k] == #[trigger] argb_spec(d@)[k] by {
        assert(k - k % 4 + 4 > n);
    }
    assert(out@ =~= argb_spec(d@));
    out
}

/// The tray icon: its size and ARGB pixels.
#[derive(Debug, Clone, PartialEq, Eq)]
pub struct TrayIcon {
    pub width: i32,
    pub height: i32,
    pub data: Vec<u8>,
}

/// The tray icon for the encoded image `png`.
pub fn build_icon(png: &[u8]) -> (r: Result<TrayIcon, TrayError>)
    ensures
        match decoded_rgba(png@) {
            Some((w, h, d)) => r matches Ok(icon) && icon.width == w as i32 && icon.height
                == h as i32 && icon.data@ == argb_spec(d),
            None => r matches Err(TrayError::Icon(_)),
        },
{
    match decode_rgba(png) {
        Ok((w, h, d)) => Ok(TrayIcon { width: w as i32, height: h as i32, data: rgba_to_argb(d) }),
        Err(m) => Err(TrayError::Icon(m)),
    }
}

} // verus!
