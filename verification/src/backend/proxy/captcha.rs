//! Captcha images written by the core: waiting until the file is complete,
//! noticing rewrites, and encoding the bytes for the UI.
//!
//! The library holds the decisions; the application drives the timers and
//! reads the file system. All durations are in milliseconds.

use vstd::prelude::*;

use base64::Engine;

verus! {

/// Interval between two looks at the captcha file while waiting for it.
pub const CAPTCHA_POLL_INTERVAL: u64 = 500;

/// Interval between two looks at the captcha file while monitoring it.
pub const CAPTCHA_MONITOR_POLL_INTERVAL: u64 = 500;

/// How long to wait for a complete captcha file.
pub const CAPTCHA_POLL_TIMEOUT: u64 = 60000;

/// The base64 digit for the six-bit value `v`: `A`–`Z`, `a`–`z`, `0`–`9`,
/// `+`, `/` (RFC 4648, table 1).
pub open spec fn base64_digit(v: int) -> char {
    if v < 26 {
        (65 + v) as char
    } else if v < 52 {
        (97 + v - 26) as char
    } else if v < 62 {
        (48 + v - 52) as char
    } else if v == 62 {
        '+'
    } else {
        '/'
    }
}

/// The standard (RFC 4648, padded) base64 text of `data`: each group of
/// three bytes gives four digits of six bits each, most significant first;
/// a last group of one or two bytes is filled with zero bits and padded
/// with `=` to four characters.
pub open spec fn base64_standard(data: Seq<u8>) -> Seq<char>
    decreases data.len(),
{
    if data.len() == 0 {
        Seq::empty()
    } else if data.len() == 1 {
        let a = data[0] as int;
        seq![base64_digit(a / 4), base64_digit((a % 4) * 16), '=', '=']
    } else if data.len() == 2 {
        let a = data[0] as int;
        let b = data[1] as int;
        seq![base64_digit(a / 4), base64_digit((a % 4) * 16 + b / 16), base64_digit((b % 16) * 4), '=']
    } else {
        let a = data[0] as int;
        let b = data[1] as int;
        let c = data[2] as int;
        seq![
            base64_digit(a / 4),
            base64_digit((a % 4) * 16 + b / 16),
            base64_digit((b % 16) * 4 + c / 64),
            base64_digit(c % 64),
        ] + base64_standard(data.skip(3))
    }
}

/// `base64::engine::general_purpose::STANDARD.encode(data)`: the standard
/// alphabet with padding, that is RFC 4648 base64. The crate panics only
/// when the encoded length overflows `usize`, which the bound on the input
/// rules out.
#[verifier::external_body]
fn base64_encode(data: &[u8]) -> (r: String)
    requires
        data@.len() <= usize::MAX / 2,
    ensures
        r@ == base64_standard(data@),
{
    base64::engine::general_purpose::STANDARD.encode(data)
}

/// The captcha bytes as standard base64 text, as the UI shows them.
pub fn encode_captcha(data: &[u8]) -> (r: String)
    requires
        data@.len() <= usize::MAX / 2,
    ensures
        r@ == base64_standard(data@),
{
    base64_encode(data)
}

/// Waiting for a captcha file to be completely written: its size must be
/// non-zero and the same on two consecutive looks.
#[derive(Debug, Clone, Copy, PartialEq, Eq)]
pub struct CaptchaPoll {
    /// Size seen on the previous look (0 before any).
    pub last_size: u64,
    /// Consecutive looks that saw the same non-zero size.
    pub stable_count: u32,
}

/// What a look at the file does to the wait: a missing or empty file
/// changes nothing; a size equal to the last one counts once more (the
/// count saturates), any other size restarts the count.
pub open spec fn observe_spec(p: CaptchaPoll, size: Option<u64>) -> CaptchaPoll {
    match size {
        None => p,
        Some(s) => if s == 0 {
            p
        } else if s == p.last_size {
            CaptchaPoll {
                last_size: s,
                stable_count: if p.stable_count == u32::MAX {
                    u32::MAX
                } else {
                    (p.stable_count + 1) as u32
                },
            }
        } else {
            CaptchaPoll { last_size: s, stable_count: 0 }
        },
    }
}

impl CaptchaPoll {
    /// A wait that has seen nothing yet.
    pub fn new() -> (r: Self)
        ensures
            r.last_size == 0,
            r.stable_count == 0,
    {
        CaptchaPoll { last_size: 0, stable_count: 0 }
    }

    /// Whether a look at `elapsed` ms after the start is still within the
    /// timeout.
    pub fn within_timeout(elapsed: u64) -> (r: bool)
        ensures
            r == (elapsed < CAPTCHA_POLL_TIMEOUT),
    {
        elapsed < CAPTCHA_POLL_TIMEOUT
    }

    /// Records a look at the file (`size`: its length, `None` when it could
    /// not be examined) and tells whether it is now stable and should be
    /// read.
    pub fn observe(&mut self, size: Option<u64>) -> (read: bool)
        ensures
            *final(self) == observe_spec(*old(self), size),
            read == (size matches Some(s) && s != 0 && final(self).stable_count >= 1),
            read == (size matches Some(s) && s != 0 && s == old(self).last_size),
    {
        match size {
            None => false,
            Some(s) => {
                if s == 0 {
                    return false;
                }
                if s == self.last_size {
                    self.stable_count = self.stable_count.saturating_add(1);
                } else {
                    self.stable_count = 0;
                }
                self.last_size = s;
                self.stable_count >= 1
            },
        }
    }
}

/// The bytes read from a stable captcha file, if there are any.
pub fn accept_captcha_bytes(bytes: Vec<u8>) -> (r: Option<Vec<u8>>)
    ensures
        bytes@.len() > 0 ==> (r matches Some(b) && b@ == bytes@),
        bytes@.len() == 0 ==> r is None,
{
    if bytes.len() > 0 {
        Some(bytes)
    } else {
        None
    }
}

/// Watching a captcha file for rewrites: a non-empty file whose size or
/// modification time differs from the last one seen is a fresh captcha.
/// A modification time is `(seconds, nanoseconds)` since the Unix epoch,
/// `None` where the platform gives none.
#[derive(Debug, Clone, Copy, PartialEq, Eq)]
pub struct CaptchaMonitor {
    pub last_mtime: Option<(u64, u32)>,
    pub last_size: u64,
}

impl CaptchaMonitor {
    /// A monitor that has seen nothing yet.
    pub fn new() -> (r: Self)
        ensures
            r.last_mtime is None,
            r.last_size == 0,
    {
        CaptchaMonitor { last_mtime: None, last_size: 0 }
    }

    /// Records a look at the file and tells whether it holds a fresh
    /// captcha; only then is the monitor updated.
    pub fn observe(&mut self, size: u64, mtime: Option<(u64, u32)>) -> (fresh: bool)
        ensures
            fresh == (size != 0 && !(mtime == old(self).last_mtime && size == old(self).last_size)),
            fresh ==> final(self).last_mtime == mtime && final(self).last_size == size,
            !fresh ==> *final(self) == *old(self),
    {
        if size == 0 {
            return false;
        }
        let same_mtime = match (mtime, self.last_mtime) {
            (None, None) => true,
            (Some((a, b)), Some((c, d))) => a == c && b == d,
            _ => false,
        };
        if same_mtime && size == self.last_size {
            return false;
        }
        self.last_mtime = mtime;
        self.last_size = size;
        true
    }
}

} // verus!
