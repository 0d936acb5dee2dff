//! Classification of `zju-connect` log lines.

use vstd::prelude::*;

use crate::text;

verus! {

/// Interactive prompts the core prints while logging in.
#[derive(Debug, Clone, Copy, PartialEq, Eq)]
pub enum DetectedPrompt {
    Sms,
    Callback,
    Captcha,
}

/// The prompt a log line asks for, if any. SMS wording wins over callback
/// wording, which wins over captcha wording; a line mentioning "captcha"
/// together with "sms" is not a captcha prompt.
pub open spec fn classify_prompt_spec(line: Seq<char>) -> Option<DetectedPrompt> {
    let t = text::trim_seq(line);
    let lower = text::lower_case(t);
    if t.len() == 0 {
        None
    } else if text::has_sub(lower, "sms verification code"@) || text::has_sub(lower, "sms code"@)
        || text::has_sub(lower, "sms check code"@) || text::has_sub(t, "短信验证码"@) {
        Some(DetectedPrompt::Sms)
    } else if text::has_sub(lower, "callback url"@) {
        Some(DetectedPrompt::Callback)
    } else if text::has_sub(lower, "graph check code"@) || text::has_sub(lower, "graph code json"@)
        || text::has_sub(lower, "rand code"@) || (text::has_sub(lower, "captcha"@)
        && !text::has_sub(lower, "sms"@)) || text::has_sub(t, "图形验证码"@) {
        Some(DetectedPrompt::Captcha)
    } else {
        None
    }
}

/// Recognizes SMS, callback-URL and captcha prompts in a log line.
pub fn classify_prompt(line: &str) -> (r: Option<DetectedPrompt>)
    ensures
        r == classify_prompt_spec(line@),
{
    let trimmed = text::trim(line);
    if trimmed.is_empty() {
        return None;
    }
    let lower_s = text::lower_case_string(trimmed);
    let lower = lower_s.as_str();
    if text::contains_str(lower, "sms verification code") || text::contains_str(lower, "sms code")
        || text::contains_str(lower, "sms check code") || text::contains_str(trimmed, "短信验证码") {
        return Some(DetectedPrompt::Sms);
    }
    if text::contains_str(lower, "callback url") {
        return Some(DetectedPrompt::Callback);
    }
    if text::contains_str(lower, "graph check code") || text::contains_str(lower, "graph code json")
        || text::contains_str(lower, "rand code") || (text::contains_str(lower, "captcha")
        && !text::contains_str(lower, "sms")) || text::contains_str(trimmed, "图形验证码") {
        return Some(DetectedPrompt::Captcha);
    }
    None
}

/// The core reports that the VPN client is up.
pub open spec fn is_vpn_started_spec(line: Seq<char>) -> bool {
    text::has_sub(text::trim_seq(line), "VPN client started"@)
}

/// The core reports that it added a route (TUN mode is up).
pub open spec fn is_route_added_spec(line: Seq<char>) -> bool {
    text::has_sub(text::trim_seq(line), "Add route to "@)
}

pub fn is_vpn_started(line: &str) -> (r: bool)
    ensures
        r == is_vpn_started_spec(line@),
{
    text::contains_str(text::trim(line), "VPN client started")
}

pub fn is_route_added(line: &str) -> (r: bool)
    ensures
        r == is_route_added_spec(line@),
{
    text::contains_str(text::trim(line), "Add route to ")
}

// ── Splitting the child's output into lines ───────────────────────────

/// Upper bound on buffered partial-line data: once exceeded only the tail
/// is kept (an unterminated line that long is not a prompt anyway).
pub const MAX_PENDING_BYTES: usize = 65536;

/// A line break byte: `\r` or `\n`.
pub open spec fn is_newline(b: u8) -> bool {
    b == 13u8 || b == 10u8
}

/// `i` is the first line break at or after `start`.
pub open spec fn is_first_newline(s: Seq<u8>, start: int, i: int) -> bool {
    start <= i < s.len() && is_newline(s[i]) && forall|k: int| start <= k < i ==> !is_newline(s[k])
}

/// The first line break at or after `start`, if any.
pub open spec fn first_newline_from(s: Seq<u8>, start: int) -> Option<int> {
    if exists|i: int| is_first_newline(s, start, i) {
        Some(choose|i: int| is_first_newline(s, start, i))
    } else {
        None
    }
}

/// The end of the run of line breaks starting at `i`.
pub open spec fn newline_run_end(s: Seq<u8>, i: int) -> int
    decreases s.len() - i,
{
    if 0 <= i < s.len() && is_newline(s[i]) {
        newline_run_end(s, i + 1)
    } else {
        i
    }
}

pub proof fn lemma_newline_run_end_bounds(s: Seq<u8>, i: int)
    requires
        0 <= i <= s.len(),
    ensures
        i <= newline_run_end(s, i) <= s.len(),
        forall|k: int| i <= k < newline_run_end(s, i) ==> is_newline(s[k]),
    decreases s.len() - i,
{
    if i < s.len() && is_newline(s[i]) {
        lemma_newline_run_end_bounds(s, i + 1);
    }
}

/// The complete lines of `s` from `start` on, and what follows the last
/// line break: each line ends at a line break, and a run of line breaks
/// (so `\r\n`, or blank lines) separates two lines.
pub open spec fn lines_from(s: Seq<u8>, start: int) -> (Seq<Seq<u8>>, Seq<u8>)
    decreases s.len() - start,
{
    if 0 <= start <= s.len() {
        match first_newline_from(s, start) {
            Some(i) => {
                proof {
                    let j = choose|j: int| is_first_newline(s, start, j);
                    assert(is_first_newline(s, start, j));
                    lemma_newline_run_end_bounds(s, i + 1);
                }
                let e = newline_run_end(s, i + 1);
                let rest = lines_from(s, e);
                (seq![s.subrange(start, i)] + rest.0, rest.1)
            },
            None => (Seq::empty(), s.subrange(start, s.len() as int)),
        }
    } else {
        (Seq::empty(), Seq::empty())
    }
}

/// At most the last `MAX_PENDING_BYTES` bytes of `s`.
pub open spec fn cap_tail(s: Seq<u8>) -> Seq<u8> {
    if s.len() > MAX_PENDING_BYTES {
        s.skip(s.len() - MAX_PENDING_BYTES)
    } else {
        s
    }
}

/// Byte strings as sequences.
pub open spec fn byte_lines(v: Seq<Vec<u8>>) -> Seq<Seq<u8>> {
    v.map_values(|l: Vec<u8>| l@)
}

/// Output of the child not yet split into lines.
pub struct LineBuffer {
    pub pending: Vec<u8>,
}

/// The text of `bytes` with invalid UTF-8 replaced by U+FFFD, as
/// `String::from_utf8_lossy` produces it.
pub uninterp spec fn utf8_lossy(bytes: Seq<u8>) -> Seq<char>;

/// `String::from_utf8_lossy(bytes).into_owned()`. Its documentation
/// states that valid UTF-8 comes back as the same text; only invalid
/// sequences are replaced.
#[verifier::external_body]
pub(crate) fn lossy_text(bytes: &[u8]) -> (r: String)
    ensures
        r@ == utf8_lossy(bytes@),
        forall|s: Seq<char>| #[trigger] text::utf8_encode(s) == bytes@ ==> r@ == s,
{
    String::from_utf8_lossy(bytes).into_owned()
}

/// The position of the first line break in `v` at or after `from`.
fn find_newline(v: &Vec<u8>, from: usize) -> (r: Option<usize>)
    requires
        from <= v@.len(),
    ensures
        r matches Some(i) ==> is_first_newline(v@, from as int, i as int),
        r is None ==> forall|k: int| from <= k < v@.len() ==> !is_newline(v@[k]),
{
    let mut i = from;
    while i < v.len()
        invariant
            from <= i <= v@.len(),
            forall|k: int| from <= k < i ==> !is_newline(v@[k]),
        decreases v.len() - i,
    {
        if v[i] == 13u8 || v[i] == 10u8 {
            return Some(i);
        }
        i = i + 1;
    }
    None
}

proof fn lemma_first_newline_is(s: Seq<u8>, start: int, i: int)
    requires
        is_first_newline(s, start, i),
    ensures
        first_newline_from(s, start) == Some(i),
{
    assert forall|j: int| is_first_newline(s, start, j) implies j == i by {
        if j < i {
            assert(!is_newline(s[j]));
        } else if j > i {
            assert(!is_newline(s[i]));
        }
    }
}

fn bytes_range(v: &Vec<u8>, lo: usize, hi: usize) -> (r: Vec<u8>)
    requires
        lo <= hi <= v@.len(),
    ensures
        r@ == v@.subrange(lo as int, hi as int),
{
    let mut r: Vec<u8> = Vec::new();
    let mut k = lo;
    while k < hi
        invariant
            lo <= k <= hi <= v@.len(),
            r@ == v@.subrange(lo as int, k as int),
        decreases hi - k,
    {
        r.push(v[k]);
        assert(v@.subrange(lo as int, k + 1) =~= v@.subrange(lo as int, k as int).push(v@[k as int]));
        k = k + 1;
    }
    r
}

impl LineBuffer {
    /// Nothing buffered yet.
    pub fn new() -> (r: Self)
        ensures
            r.pending@ == Seq::<u8>::empty(),
    {
        LineBuffer { pending: Vec::new() }
    }

    /// Appends `chunk` and splits off the complete lines, in order; what
    /// follows the last line break stays buffered, capped to its last
    /// `MAX_PENDING_BYTES` bytes.
    pub fn feed(&mut self, chunk: &[u8]) -> (lines: Vec<Vec<u8>>)
        ensures
            byte_lines(lines@) == lines_from(old(self).pending@ + chunk@, 0).0,
            final(self).pending@ == cap_tail(lines_from(old(self).pending@ + chunk@, 0).1),
    {
        let mut all: Vec<u8> = Vec::new();
        let mut k: usize = 0;
        while k < self.pending.len()
            invariant
                k <= self.pending@.len(),
                all@ == self.pending@.subrange(0, k as int),
            decreases self.pending.len() - k,
        {
            all.push(self.pending[k]);
            assert(self.pending@.subrange(0, k + 1) =~= self.pending@.subrange(0, k as int).push(
                self.pending@[k as int],
            ));
            k = k + 1;
        }
        let mut k: usize = 0;
        let ghost base = all@;
        while k < chunk.len()
            invariant
                k <= chunk@.len(),
                all@ == base + chunk@.subrange(0, k as int),
            decreases chunk.len() - k,
        {
            all.push(chunk[k]);
            assert(chunk@.subrange(0, k + 1) =~= chunk@.subrange(0, k as int).push(chunk@[k as int]));
            k = k + 1;
        }
        assert(self.pending@.subrange(0, self.pending@.len() as int) =~= self.pending@);
        assert(chunk@.subrange(0, chunk@.len() as int) =~= chunk@);
        let ghost whole = all@;
        assert(whole == old(self).pending@ + chunk@);
        let mut lines: Vec<Vec<u8>> = Vec::new();
        let mut start: usize = 0;
        assert(byte_lines(lines@) + lines_from(whole, 0).0 =~= lines_from(whole, 0).0);
        loop
            invariant
                all@ == whole,
                start <= whole.len(),
                lines_from(whole, 0) == (
                    byte_lines(lines@) + lines_from(whole, start as int).0,
                    lines_from(whole, start as int).1,
                ),
            ensures
                all@ == whole,
                start <= whole.len(),
                lines_from(whole, 0) == (
                    byte_lines(lines@) + lines_from(whole, start as int).0,
                    lines_from(whole, start as int).1,
                ),
                first_newline_from(whole, start as int) is None,
            decreases whole.len() - start,
        {
            match find_newline(&all, start) {
                None => {
                    assert forall|j: int| !is_first_newline(whole, start as int, j) by {
                        if start <= j < whole.len() {
                            assert(!is_newline(whole[j]));
                        }
                    }
                    break;
                },
                Some(idx) => {
                    proof {
                        lemma_first_newline_is(whole, start as int, idx as int);
                        lemma_newline_run_end_bounds(whole, idx + 1);
                    }
                    assert(idx < all.len());
                    let line = bytes_range(&all, start, idx);
                    let mut consume: usize = idx + 1;
                    while consume < all.len() && (all[consume] == 13u8 || all[consume] == 10u8)
                        invariant
                            all@ == whole,
                            idx + 1 <= consume <= whole.len(),
                            newline_run_end(whole, idx + 1) == newline_run_end(whole, consume as int),
                        decreases whole.len() - consume,
                    {
                        consume = consume + 1;
                    }
                    let ghost before = lines@;
                    lines.push(line);
                    assert(byte_lines(lines@) =~= byte_lines(before).push(whole.subrange(start as int, idx as int)));
                    let ghost rest = lines_from(whole, consume as int);
                    assert(lines_from(whole, start as int) == (seq![whole.subrange(start as int, idx as int)] + rest.0, rest.1));
                    assert(byte_lines(before) + (seq![whole.subrange(start as int, idx as int)] + rest.0)
                        =~= byte_lines(lines@) + rest.0);
                    start = consume;
                },
            }
        }
        let n = all.len();
        let keep_from: usize = if n - start > MAX_PENDING_BYTES {
            n - MAX_PENDING_BYTES
        } else {
            start
        };
        let rest_bytes = bytes_range(&all, keep_from, n);
        proof {
            let t = whole.subrange(start as int, n as int);
            assert(lines_from(whole, start as int).1 == t);
            if t.len() > MAX_PENDING_BYTES {
                assert(t.skip(t.len() - MAX_PENDING_BYTES) =~= whole.subrange(keep_from as int, n as int));
            }
        }
        assert(byte_lines(lines@) + Seq::<Seq<u8>>::empty() =~= byte_lines(lines@));
        self.pending = rest_bytes;
        lines
    }

    /// The buffered partial line as text, when it is not blank: shown as a
    /// possible prompt while the child waits, and flushed as the last line
    /// at the end of the output.
    pub fn pending_line(&self) -> (r: Option<String>)
        ensures
            r is Some <==> text::trim_seq(utf8_lossy(self.pending@)).len() > 0,
            r matches Some(t) ==> t@ == utf8_lossy(self.pending@),
            forall|s: Seq<char>| #[trigger] text::utf8_encode(s) == self.pending@ ==> (r matches Some(
                t,
            ) ==> t@ == s),
    {
        let t = lossy_text(self.pending.as_slice());
        if text::trim(t.as_str()).unicode_len() > 0 {
            Some(t)
        } else {
            None
        }
    }

    /// A complete line as text.
    pub fn line_text(line: &Vec<u8>) -> (r: String)
        ensures
            r@ == utf8_lossy(line@),
            forall|s: Seq<char>| #[trigger] text::utf8_encode(s) == line@ ==> r@ == s,
    {
        lossy_text(line.as_slice())
    }
}

/// No line handed out holds a line break.
pub proof fn lemma_lines_hold_no_breaks(s: Seq<u8>, start: int)
    requires
        0 <= start <= s.len(),
    ensures
        forall|j: int, k: int|
            0 <= j < lines_from(s, start).0.len() && 0 <= k < lines_from(s, start).0[j].len()
                ==> !is_newline(#[trigger] lines_from(s, start).0[j][k]),
        forall|k: int| 0 <= k < lines_from(s, start).1.len() ==> !is_newline(
            #[trigger] lines_from(s, start).1[k],
        ),
    decreases s.len() - start,
{
    match first_newline_from(s, start) {
        Some(i) => {
            let j0 = choose|j: int| is_first_newline(s, start, j);
            assert(is_first_newline(s, start, j0));
            lemma_newline_run_end_bounds(s, i + 1);
            let e = newline_run_end(s, i + 1);
            lemma_lines_hold_no_breaks(s, e);
            assert(lines_from(s, start).1 == lines_from(s, e).1);
            let ls = lines_from(s, start).0;
            assert forall|j: int, k: int| 0 <= j < ls.len() && 0 <= k < ls[j].len() implies !is_newline(
                #[trigger] ls[j][k],
            ) by {
                if j == 0 {
                    assert(ls[0] == s.subrange(start, i));
                    assert(ls[0][k] == s[start + k]);
                } else {
                    assert(ls[j] == lines_from(s, e).0[j - 1]);
                }
            }
        },
        None => {
            let t = lines_from(s, start).1;
            assert forall|k: int| 0 <= k < t.len() implies !is_newline(#[trigger] t[k]) by {
                assert(t[k] == s[start + k]);
                if is_newline(s[start + k]) {
                    let w = start + k;
                    assert(exists|i: int| is_first_newline(s, start, i)) by {
                        lemma_some_first_newline(s, start, w);
                    }
                }
            }
        },
    }
}

proof fn lemma_some_first_newline(s: Seq<u8>, start: int, w: int)
    requires
        start <= w < s.len(),
        is_newline(s[w]),
    ensures
        exists|i: int| is_first_newline(s, start, i),
    decreases w - start,
{
    if forall|k: int| start <= k < w ==> !is_newline(s[k]) {
        assert(is_first_newline(s, start, w));
    } else {
        let k = choose|k: int| start <= k < w && is_newline(s[k]);
        lemma_some_first_newline(s, start, k);
    }
}

/// The buffer never holds more than `MAX_PENDING_BYTES` bytes, nor a line
/// break, after a chunk was fed.
pub proof fn lemma_pending_bounded(pending: Seq<u8>, chunk: Seq<u8>)
    ensures
        cap_tail(lines_from(pending + chunk, 0).1).len() <= MAX_PENDING_BYTES,
        forall|k: int| 0 <= k < cap_tail(lines_from(pending + chunk, 0).1).len() ==> !is_newline(
            #[trigger] cap_tail(lines_from(pending + chunk, 0).1)[k],
        ),
{
    let s = pending + chunk;
    lemma_lines_hold_no_breaks(s, 0);
    let t = lines_from(s, 0).1;
    let c = cap_tail(t);
    assert forall|k: int| 0 <= k < c.len() implies !is_newline(#[trigger] c[k]) by {
        if t.len() > MAX_PENDING_BYTES {
            assert(c[k] == t[k + (t.len() - MAX_PENDING_BYTES)]);
        } else {
            assert(c[k] == t[k]);
        }
    }
}


/// Every SMS wording makes a line an SMS prompt, whatever else it says:
/// "sms verification code", "sms code" or "sms check code" in any case,
/// or "短信验证码", anywhere in the trimmed line.
pub proof fn lemma_sms_wording_is_an_sms_prompt(line: Seq<char>)
    requires
        text::has_sub(text::lower_case(text::trim_seq(line)), "sms verification code"@)
            || text::has_sub(text::lower_case(text::trim_seq(line)), "sms code"@)
            || text::has_sub(text::lower_case(text::trim_seq(line)), "sms check code"@)
            || text::has_sub(text::trim_seq(line), "短信验证码"@),
    ensures
        classify_prompt_spec(line) == Some(DetectedPrompt::Sms),
{
    let t = text::trim_seq(line);
    if t.len() == 0 {
        let e = Seq::<char>::empty();
        assert(t =~= e);
        text::lemma_lower_case_ascii(e);
        assert(text::lower_case(t).len() == 0);
        reveal_strlit("sms verification code");
        reveal_strlit("sms code");
        reveal_strlit("sms check code");
        reveal_strlit("短信验证码");
        assert(!text::has_sub(text::lower_case(t), "sms verification code"@));
        assert(!text::has_sub(text::lower_case(t), "sms code"@));
        assert(!text::has_sub(text::lower_case(t), "sms check code"@));
        assert(!text::has_sub(t, "短信验证码"@));
    }
}

/// A line asking for the callback URL (in any case) is a callback prompt
/// unless it carries SMS wording, which wins.
pub proof fn lemma_callback_wording_is_a_callback_prompt(line: Seq<char>)
    requires
        text::has_sub(text::lower_case(text::trim_seq(line)), "callback url"@),
        !text::has_sub(text::lower_case(text::trim_seq(line)), "sms verification code"@),
        !text::has_sub(text::lower_case(text::trim_seq(line)), "sms code"@),
        !text::has_sub(text::lower_case(text::trim_seq(line)), "sms check code"@),
        !text::has_sub(text::trim_seq(line), "短信验证码"@),
    ensures
        classify_prompt_spec(line) == Some(DetectedPrompt::Callback),
{
    let t = text::trim_seq(line);
    if t.len() == 0 {
        let e = Seq::<char>::empty();
        assert(t =~= e);
        text::lemma_lower_case_ascii(e);
        reveal_strlit("callback url");
        assert(!text::has_sub(text::lower_case(t), "callback url"@));
    }
}

/// ASCII text holds no "短信验证码" or "图形验证码".
proof fn lemma_ascii_has_no_cjk_wording(t: Seq<char>)
    requires
        text::is_ascii_seq(t),
    ensures
        !text::has_sub(t, "短信验证码"@),
        !text::has_sub(t, "图形验证码"@),
{
    reveal_strlit("短信验证码");
    reveal_strlit("图形验证码");
    assert forall|i: int| !text::occurs_at(t, "短信验证码"@, i) by {
        if text::occurs_at(t, "短信验证码"@, i) {
            assert(t.subrange(i, i + 5)[0] == t[i]);
            assert(("短信验证码"@)[0] as u32 >= 128);
        }
    }
    assert forall|i: int| !text::occurs_at(t, "图形验证码"@, i) by {
        if text::occurs_at(t, "图形验证码"@, i) {
            assert(t.subrange(i, i + 5)[0] == t[i]);
            assert(("图形验证码"@)[0] as u32 >= 128);
        }
    }
}

/// Prompt detection ignores the case of letters: two ASCII lines whose
/// trimmed texts differ only in upper and lower case are the same prompt
/// (or both none).
pub proof fn lemma_prompt_ignores_case(a: Seq<char>, b: Seq<char>)
    requires
        text::is_ascii_seq(text::trim_seq(a)),
        text::is_ascii_seq(text::trim_seq(b)),
        text::ascii_lower_seq(text::trim_seq(a)) == text::ascii_lower_seq(text::trim_seq(b)),
    ensures
        classify_prompt_spec(a) == classify_prompt_spec(b),
{
    let ta = text::trim_seq(a);
    let tb = text::trim_seq(b);
    text::lemma_lower_case_ascii(ta);
    text::lemma_lower_case_ascii(tb);
    lemma_ascii_has_no_cjk_wording(ta);
    lemma_ascii_has_no_cjk_wording(tb);
    assert(ta.len() == text::ascii_lower_seq(ta).len());
    assert(tb.len() == text::ascii_lower_seq(tb).len());
}

} // verus!
