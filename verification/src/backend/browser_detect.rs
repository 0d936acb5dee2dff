//! Browser classification and the list of detected browser installations.
//!
//! Finding candidate executables (registry, install directories, `PATH`)
//! is file-system work done by the caller; this module decides which
//! candidates are browsers, what they are called, and in what order they
//! are offered: deduplicated by path (ignoring case), Chrome family first,
//! then by name, then by path.

use vstd::prelude::*;
use vstd::multiset::Multiset;

use crate::backend::paths;
use crate::text;

verus! {

broadcast use {vstd::seq_lib::group_to_multiset_ensures, vstd::multiset::group_multiset_axioms};

/// Browser engine families we know how to steer from the command line.
#[derive(Debug, Clone, Copy, PartialEq, Eq)]
pub enum BrowserKind {
    Chrome,
    Firefox,
}

pub open spec fn kind_name(k: BrowserKind) -> Seq<char> {
    match k {
        BrowserKind::Chrome => "chrome"@,
        BrowserKind::Firefox => "firefox"@,
    }
}

pub open spec fn new_window_flag_spec(k: BrowserKind) -> Seq<char> {
    match k {
        BrowserKind::Chrome => "--new-window"@,
        BrowserKind::Firefox => "-new-window"@,
    }
}

impl BrowserKind {
    pub fn as_str(&self) -> (r: &'static str)
        ensures
            r@ == kind_name(*self),
    {
        match self {
            BrowserKind::Chrome => "chrome",
            BrowserKind::Firefox => "firefox",
        }
    }

    /// Command-line switch that opens a fresh browser window.
    pub fn new_window_flag(&self) -> (r: &'static str)
        ensures
            r@ == new_window_flag_spec(*self),
    {
        match self {
            BrowserKind::Chrome => "--new-window",
            BrowserKind::Firefox => "-new-window",
        }
    }
}

/// One detected browser installation.
#[derive(Debug, Clone, PartialEq, Eq)]
pub struct DetectedBrowser {
    /// Human-readable name, e.g. "Google Chrome".
    pub name: String,
    /// Absolute executable path.
    pub path: String,
    /// Engine family derived from the executable name.
    pub kind: BrowserKind,
}

pub struct DetectedBrowserView {
    pub name: Seq<char>,
    pub path: Seq<char>,
    pub kind: BrowserKind,
}

impl View for DetectedBrowser {
    type V = DetectedBrowserView;

    open spec fn view(&self) -> DetectedBrowserView {
        DetectedBrowserView { name: self.name@, path: self.path@, kind: self.kind }
    }
}

// ── Classification ────────────────────────────────────────────────────

/// Substring tokens identifying Firefox-family binaries; checked before the
/// Chrome tokens.
pub const FIREFOX_TOKENS: [&'static str; 5] = [
    "firefox",
    "librewolf",
    "waterfox",
    "tor-browser",
    "floorp",
];

/// Short Firefox-family names that must match exactly.
pub const FIREFOX_EXACT_NAMES: [&'static str; 3] = ["zen", "zen-alpha", "zen-browser"];

/// Substring tokens identifying Chrome/Chromium-family binaries.
pub const CHROME_TOKENS: [&'static str; 7] = [
    "chrome",
    "chromium",
    "msedge",
    "microsoft-edge",
    "brave",
    "vivaldi",
    "opera",
];

pub open spec fn is_path_separator(c: char) -> bool {
    c == '/' || c == '\\'
}

/// The part of `s` after its last `/` or `\`.
pub open spec fn last_segment(s: Seq<char>) -> Seq<char>
    decreases s.len(),
{
    if s.len() == 0 {
        s
    } else if is_path_separator(s.last()) {
        Seq::empty()
    } else {
        last_segment(s.drop_last()).push(s.last())
    }
}

/// The file name of a path (either separator), without a `.exe` suffix.
pub open spec fn file_stem_spec(path: Seq<char>) -> Seq<char> {
    let seg = last_segment(path);
    if text::has_suffix(seg, ".exe"@) {
        seg.subrange(0, seg.len() - 4)
    } else {
        seg
    }
}

/// `lower` contains one of the first `n` entries of `tokens`.
pub open spec fn has_any_token<const N: usize>(
    lower: Seq<char>,
    tokens: [&'static str; N],
    n: int,
) -> bool {
    exists|i: int| 0 <= i < n && #[trigger] text::has_sub(lower, tokens@[i]@)
}

/// `lower` is one of the first `n` entries of `names`.
pub open spec fn is_any_name<const N: usize>(
    lower: Seq<char>,
    names: [&'static str; N],
    n: int,
) -> bool {
    exists|i: int| 0 <= i < n && lower == #[trigger] names@[i]@
}

/// The browser family of an executable path or bare binary name.
pub open spec fn classify_spec(path: Seq<char>) -> Option<BrowserKind> {
    let lower = text::lower_case(file_stem_spec(path));
    if is_any_name(lower, FIREFOX_EXACT_NAMES, 3) {
        Some(BrowserKind::Firefox)
    } else if has_any_token(lower, FIREFOX_TOKENS, 5) {
        Some(BrowserKind::Firefox)
    } else if has_any_token(lower, CHROME_TOKENS, 7) {
        Some(BrowserKind::Chrome)
    } else {
        None
    }
}

/// File stem of a path, tolerating both separators and stripping `.exe`.
pub fn file_stem_of(path: &str) -> (r: &str)
    ensures
        r@ == file_stem_spec(path@),
{
    let v = text::chars_vec(path);
    let n = v.len();
    let mut k = n;
    assert(v@.subrange(0, n as int) =~= v@);
    while k > 0 && !(v[k - 1] == '/' || v[k - 1] == '\\')
        invariant
            k <= n == v@.len(),
            last_segment(v@) == last_segment(v@.subrange(0, k as int)) + v@.subrange(
                k as int,
                n as int,
            ),
        decreases k,
    {
        let ghost pre = v@.subrange(0, k as int);
        assert(pre.drop_last() =~= v@.subrange(0, k - 1));
        assert(v@.subrange(k - 1, n as int) =~= seq![pre.last()] + v@.subrange(k as int, n as int));
        assert(last_segment(pre) == last_segment(pre.drop_last()).push(pre.last()));
        assert(last_segment(pre.drop_last()).push(pre.last()) + v@.subrange(k as int, n as int)
            =~= last_segment(pre.drop_last()) + v@.subrange(k - 1, n as int));
        k = k - 1;
    }
    assert(last_segment(v@.subrange(0, k as int)) =~= Seq::<char>::empty());
    assert(last_segment(v@) =~= v@.subrange(k as int, n as int));
    let seg = path.substring_char(k, n);
    proof {
        reveal_strlit(".exe");
    }
    match text::strip_suffix_str(seg, ".exe") {
        Some(stem) => stem,
        None => seg,
    }
}

fn has_token<const N: usize>(lower: &str, tokens: &[&'static str; N]) -> (r: bool)
    ensures
        r == has_any_token(lower@, *tokens, N as int),
{
    let mut i: usize = 0;
    while i < N
        invariant
            i <= N,
            forall|j: int| 0 <= j < i ==> !text::has_sub(lower@, tokens@[j]@),
        decreases N - i,
    {
        if text::contains_str(lower, tokens[i]) {
            assert(text::has_sub(lower@, tokens@[i as int]@));
            return true;
        }
        i = i + 1;
    }
    false
}

fn is_name<const N: usize>(lower: &str, names: &[&'static str; N]) -> (r: bool)
    ensures
        r == is_any_name(lower@, *names, N as int),
{
    let mut i: usize = 0;
    while i < N
        invariant
            i <= N,
            forall|j: int| 0 <= j < i ==> lower@ != names@[j]@,
        decreases N - i,
    {
        if text::str_eq(lower, names[i]) {
            assert(lower@ == names@[i as int]@);
            return true;
        }
        i = i + 1;
    }
    false
}

/// Classify an executable path (or bare binary name) into a browser family:
/// the exact Firefox-family names first, then Firefox tokens, then Chrome
/// tokens, all against the lower-cased file stem. `None` for anything
/// unrecognized.
pub fn classify_browser(path: &str) -> (r: Option<BrowserKind>)
    ensures
        r == classify_spec(path@),
{
    let stem = file_stem_of(path);
    let lower_s = text::lower_case_string(stem);
    let lower = lower_s.as_str();
    if is_name(lower, &FIREFOX_EXACT_NAMES) {
        return Some(BrowserKind::Firefox);
    }
    if has_token(lower, &FIREFOX_TOKENS) {
        return Some(BrowserKind::Firefox);
    }
    if has_token(lower, &CHROME_TOKENS) {
        return Some(BrowserKind::Chrome);
    }
    None
}

/// Display names for known binary-name fragments, checked in order.
pub const DISPLAY_NAMES: [(&'static str, &'static str); 14] = [
    ("google-chrome", "Google Chrome"),
    ("chrome", "Chrome"),
    ("chromium", "Chromium"),
    ("microsoft-edge", "Microsoft Edge"),
    ("msedge", "Microsoft Edge"),
    ("brave", "Brave"),
    ("vivaldi", "Vivaldi"),
    ("opera", "Opera"),
    ("firefox", "Firefox"),
    ("librewolf", "LibreWolf"),
    ("waterfox", "Waterfox"),
    ("zen", "Zen Browser"),
    ("tor-browser", "Tor Browser"),
    ("floorp", "Floorp"),
];

/// The label of the first table entry (from `i` on) whose fragment occurs
/// in `lower`, else the file stem of `path`.
pub open spec fn display_from(lower: Seq<char>, path: Seq<char>, i: int) -> Seq<char>
    decreases 14 - i,
{
    if i >= 14 || i < 0 {
        file_stem_spec(path)
    } else if text::has_sub(lower, DISPLAY_NAMES@[i].0@) {
        DISPLAY_NAMES@[i].1@
    } else {
        display_from(lower, path, i + 1)
    }
}

/// Pretty display name for a known binary name / install path: the label
/// of the first known fragment in the lower-cased path, else the file stem.
pub open spec fn display_name_spec(path: Seq<char>) -> Seq<char> {
    display_from(text::lower_case(path), path, 0)
}

pub fn display_name(path: &str) -> (r: String)
    ensures
        r@ == display_name_spec(path@),
{
    let lower_s = text::lower_case_string(path);
    let lower = lower_s.as_str();
    let mut i: usize = 0;
    while i < 14
        invariant
            i <= 14,
            lower@ == text::lower_case(path@),
            display_from(lower@, path@, 0) == display_from(lower@, path@, i as int),
        decreases 14 - i,
    {
        let (token, label) = DISPLAY_NAMES[i];
        if text::contains_str(lower, token) {
            return label.to_owned();
        }
        i = i + 1;
    }
    file_stem_of(path).to_owned()
}

// ── Windows registry commands ─────────────────────────────────────────

/// `s` up to (not including) its first `"`.
pub open spec fn before_quote(s: Seq<char>) -> Seq<char>
    decreases s.len(),
{
    if s.len() == 0 || s[0] == '"' {
        Seq::empty()
    } else {
        seq![s[0]] + before_quote(s.drop_first())
    }
}

/// `s` up to (not including) its first whitespace character.
pub open spec fn before_white_space(s: Seq<char>) -> Seq<char>
    decreases s.len(),
{
    if s.len() == 0 || text::is_white_space(s[0]) {
        Seq::empty()
    } else {
        seq![s[0]] + before_white_space(s.drop_first())
    }
}

/// The executable of a registry launch command: the quoted path when the
/// command starts with a closed quote, else its first whitespace-separated
/// word; `None` for a blank command.
pub open spec fn first_exe_spec(command: Seq<char>) -> Option<Seq<char>> {
    let t = text::trim_seq(command);
    if t.len() > 0 && t[0] == '"' && t.drop_first().contains('"') {
        Some(before_quote(t.drop_first()))
    } else if t.len() == 0 {
        None
    } else {
        Some(before_white_space(t))
    }
}

/// `v[from..]` up to the first character satisfying `stop`, as an index.
fn scan_until_quote(v: &Vec<char>, from: usize) -> (r: usize)
    requires
        from <= v@.len(),
    ensures
        from <= r <= v@.len(),
        before_quote(v@.subrange(from as int, v@.len() as int)) == v@.subrange(
            from as int,
            r as int,
        ),
        v@.subrange(from as int, v@.len() as int).contains('"') <==> r < v@.len(),
{
    let n = v.len();
    let mut k = from;
    while k < n && v[k] != '"'
        invariant
            from <= k <= n == v@.len(),
            forall|j: int| from <= j < k ==> v@[j] != '"',
            before_quote(v@.subrange(from as int, n as int)) == v@.subrange(from as int, k as int)
                + before_quote(v@.subrange(k as int, n as int)),
        decreases n - k,
    {
        let ghost rest = v@.subrange(k as int, n as int);
        assert(rest.drop_first() =~= v@.subrange(k + 1, n as int));
        assert(v@.subrange(from as int, k + 1) =~= v@.subrange(from as int, k as int) + seq![
            v@[k as int],
        ]);
        k = k + 1;
    }
    let ghost tail = v@.subrange(from as int, n as int);
    if k < n {
        assert(tail[k - from] == '"');
    } else {
        assert forall|j: int| 0 <= j < tail.len() implies tail[j] != '"' by {
            assert(tail[j] == v@[from + j]);
        }
    }
    k
}

fn scan_until_white_space(v: &Vec<char>) -> (r: usize)
    ensures
        r <= v@.len(),
        before_white_space(v@) == v@.subrange(0, r as int),
{
    let n = v.len();
    let mut k: usize = 0;
    assert(v@.subrange(0, n as int) =~= v@);
    while k < n && !text::is_white_space_char(v[k])
        invariant
            k <= n == v@.len(),
            before_white_space(v@) == v@.subrange(0, k as int) + before_white_space(
                v@.subrange(k as int, n as int),
            ),
        decreases n - k,
    {
        let ghost rest = v@.subrange(k as int, n as int);
        assert(rest.drop_first() =~= v@.subrange(k + 1, n as int));
        assert(v@.subrange(0, k + 1) =~= v@.subrange(0, k as int) + seq![v@[k as int]]);
        k = k + 1;
    }
    k
}

/// `"C:\...\firefox.exe" -osint -default-browser` → the quoted exe; bare
/// commands fall back to the first whitespace-separated token.
pub fn first_exe_from_command(command: &str) -> (r: Option<String>)
    ensures
        match first_exe_spec(command@) {
            Some(e) => r matches Some(s) && s@ == e,
            None => r is None,
        },
{
    let t = text::trim(command);
    let v = text::chars_vec(t);
    if v.len() > 0 && v[0] == '"' {
        let end = scan_until_quote(&v, 1);
        assert(v@.subrange(1, v@.len() as int) =~= v@.drop_first());
        if end < v.len() {
            return Some(text::string_from_range(&v, 1, end));
        }
    }
    if v.len() == 0 {
        return None;
    }
    let end = scan_until_white_space(&v);
    Some(text::string_from_range(&v, 0, end))
}

// ── Collecting detected browsers ──────────────────────────────────────

/// Lower-case keys already seen, and the browsers collected so far.
pub open spec fn push_spec(
    out: Seq<DetectedBrowserView>,
    seen: Seq<Seq<char>>,
    path: Seq<char>,
) -> (Seq<DetectedBrowserView>, Seq<Seq<char>>) {
    let key = text::lower_case(path);
    if seen.contains(key) {
        (out, seen)
    } else {
        match classify_spec(path) {
            Some(kind) => (
                out.push(
                    DetectedBrowserView { name: display_name_spec(path), path: path, kind: kind },
                ),
                seen.push(key),
            ),
            None => (out, seen.push(key)),
        }
    }
}

/// Folding `push_spec` over the candidates in order.
pub open spec fn collect_spec(paths: Seq<Seq<char>>) -> (Seq<DetectedBrowserView>, Seq<Seq<char>>)
    decreases paths.len(),
{
    if paths.len() == 0 {
        (Seq::empty(), Seq::empty())
    } else {
        let (out, seen) = collect_spec(paths.drop_last());
        push_spec(out, seen, paths.last())
    }
}

pub open spec fn browser_views(v: Seq<DetectedBrowser>) -> Seq<DetectedBrowserView> {
    v.map_values(|b: DetectedBrowser| b@)
}

fn seen_contains(seen: &Vec<String>, key: &str) -> (r: bool)
    ensures
        r == seen.deep_view().contains(key@),
{
    let mut i: usize = 0;
    while i < seen.len()
        invariant
            i <= seen@.len(),
            forall|j: int| 0 <= j < i ==> seen.deep_view()[j] != key@,
        decreases seen.len() - i,
    {
        if text::str_eq(seen[i].as_str(), key) {
            assert(seen.deep_view()[i as int] == key@);
            return true;
        }
        i = i + 1;
    }
    false
}

/// Records the existing executable `path`: skipped when its lower-cased
/// form was seen before (the key is remembered either way), kept when it
/// classifies as a browser.
pub fn push_browser(out: &mut Vec<DetectedBrowser>, seen: &mut Vec<String>, path: String)
    ensures
        (browser_views(final(out)@), final(seen).deep_view()) == push_spec(
            browser_views(old(out)@),
            old(seen).deep_view(),
            path@,
        ),
{
    let key = text::lower_case_string(path.as_str());
    if seen_contains(seen, key.as_str()) {
        return;
    }
    let ghost seen0 = seen.deep_view();
    let ghost key_view = key@;
    seen.push(key);
    assert(seen.deep_view() =~= seen0.push(key_view));
    match classify_browser(path.as_str()) {
        Some(kind) => {
            let name = display_name(path.as_str());
            let ghost out0 = browser_views(out@);
            let b = DetectedBrowser { name, path, kind };
            let ghost bv = b@;
            out.push(b);
            assert(browser_views(out@) =~= out0.push(bv));
        },
        None => {},
    }
}

// ── Ordering ──────────────────────────────────────────────────────────

/// Lexicographic order on characters by code point (`str`'s `Ord`).
pub open spec fn lex_lt(a: Seq<char>, b: Seq<char>) -> bool
    decreases a.len(),
{
    if a.len() == 0 {
        b.len() > 0
    } else if b.len() == 0 {
        false
    } else if (a[0] as u32) < (b[0] as u32) {
        true
    } else if a[0] == b[0] {
        lex_lt(a.drop_first(), b.drop_first())
    } else {
        false
    }
}

pub open spec fn kind_rank(k: BrowserKind) -> int {
    match k {
        BrowserKind::Chrome => 0,
        BrowserKind::Firefox => 1,
    }
}

/// The presentation order: Chrome family first, then by name, then by path.
pub open spec fn browser_lt(x: DetectedBrowserView, y: DetectedBrowserView) -> bool {
    kind_rank(x.kind) < kind_rank(y.kind) || (kind_rank(x.kind) == kind_rank(y.kind) && (lex_lt(
        x.name,
        y.name,
    ) || (x.name == y.name && lex_lt(x.path, y.path))))
}

/// No entry is ordered before an earlier one.
pub open spec fn is_sorted(v: Seq<DetectedBrowserView>) -> bool {
    forall|i: int, j: int| 0 <= i < j < v.len() ==> !browser_lt(#[trigger] v[j], #[trigger] v[i])
}

pub proof fn lemma_lex_irreflexive(a: Seq<char>)
    ensures
        !lex_lt(a, a),
    decreases a.len(),
{
    if a.len() > 0 {
        lemma_lex_irreflexive(a.drop_first());
    }
}

pub proof fn lemma_lex_asymmetric(a: Seq<char>, b: Seq<char>)
    requires
        lex_lt(a, b),
    ensures
        !lex_lt(b, a),
    decreases a.len(),
{
    if a.len() > 0 && b.len() > 0 && a[0] == b[0] {
        lemma_lex_asymmetric(a.drop_first(), b.drop_first());
    }
}

pub proof fn lemma_lex_transitive(a: Seq<char>, b: Seq<char>, c: Seq<char>)
    requires
        lex_lt(a, b),
        lex_lt(b, c),
    ensures
        lex_lt(a, c),
    decreases a.len(),
{
    if a.len() > 0 && b.len() > 0 && c.len() > 0 && a[0] == b[0] && b[0] == c[0] {
        lemma_lex_transitive(a.drop_first(), b.drop_first(), c.drop_first());
    }
}

pub proof fn lemma_lex_total(a: Seq<char>, b: Seq<char>)
    requires
        a != b,
    ensures
        lex_lt(a, b) || lex_lt(b, a),
    decreases a.len(),
{
    if a.len() > 0 && b.len() > 0 && a[0] == b[0] {
        if a.drop_first() == b.drop_first() {
            assert(a =~= seq![a[0]] + a.drop_first());
            assert(b =~= seq![b[0]] + b.drop_first());
        }
        lemma_lex_total(a.drop_first(), b.drop_first());
    } else if a.len() > 0 && b.len() > 0 {
        vstd::utf8::char_u32_cast(a[0], a[0] as u32);
        vstd::utf8::char_u32_cast(b[0], b[0] as u32);
        assert((a[0] as u32) != (b[0] as u32));
    } else if a.len() == 0 && b.len() == 0 {
        assert(a =~= b);
    }
}

pub proof fn lemma_browser_order(x: DetectedBrowserView, y: DetectedBrowserView, z: DetectedBrowserView)
    ensures
        !browser_lt(x, x),
        browser_lt(x, y) ==> !browser_lt(y, x),
        browser_lt(x, y) && browser_lt(y, z) ==> browser_lt(x, z),
        x != y ==> browser_lt(x, y) || browser_lt(y, x),
{
    lemma_lex_irreflexive(x.name);
    lemma_lex_irreflexive(x.path);
    if lex_lt(x.name, y.name) {
        lemma_lex_asymmetric(x.name, y.name);
    }
    if lex_lt(x.path, y.path) {
        lemma_lex_asymmetric(x.path, y.path);
    }
    if lex_lt(x.name, y.name) && lex_lt(y.name, z.name) {
        lemma_lex_transitive(x.name, y.name, z.name);
    }
    if lex_lt(x.path, y.path) && lex_lt(y.path, z.path) {
        lemma_lex_transitive(x.path, y.path, z.path);
    }
    if x != y {
        if x.name != y.name {
            lemma_lex_total(x.name, y.name);
        }
        if x.path != y.path {
            lemma_lex_total(x.path, y.path);
        }
    }
}

fn lex_less(a: &str, b: &str) -> (r: bool)
    ensures
        r == lex_lt(a@, b@),
{
    let va = text::chars_vec(a);
    let vb = text::chars_vec(b);
    let mut i: usize = 0;
    assert(va@.skip(0) =~= va@);
    assert(vb@.skip(0) =~= vb@);
    while i < va.len() && i < vb.len() && va[i] == vb[i]
        invariant
            i <= va@.len(),
            i <= vb@.len(),
            lex_lt(va@, vb@) == lex_lt(va@.skip(i as int), vb@.skip(i as int)),
        decreases va.len() - i,
    {
        assert(va@.skip(i as int).drop_first() =~= va@.skip(i + 1));
        assert(vb@.skip(i as int).drop_first() =~= vb@.skip(i + 1));
        i = i + 1;
    }
    assert(va@.skip(0) =~= va@);
    assert(vb@.skip(0) =~= vb@);
    assert(va@ == a@ && vb@ == b@);
    if i == va.len() {
        assert(va@.skip(i as int).len() == 0);
        assert(lex_lt(va@.skip(i as int), vb@.skip(i as int)) == (vb@.skip(i as int).len() > 0));
        i < vb.len()
    } else if i == vb.len() {
        assert(vb@.skip(i as int).len() == 0);
        false
    } else {
        let ca = va[i];
        let cb = vb[i];
        assert(va@.skip(i as int)[0] == ca);
        assert(vb@.skip(i as int)[0] == cb);
        assert(ca != cb);
        (ca as u32) < (cb as u32)
    }
}

fn browser_less(x: &DetectedBrowser, y: &DetectedBrowser) -> (r: bool)
    ensures
        r == browser_lt(x@, y@),
{
    let rx: u8 = match x.kind {
        BrowserKind::Chrome => 0,
        BrowserKind::Firefox => 1,
    };
    let ry: u8 = match y.kind {
        BrowserKind::Chrome => 0,
        BrowserKind::Firefox => 1,
    };
    if rx != ry {
        return rx < ry;
    }
    if lex_less(x.name.as_str(), y.name.as_str()) {
        return true;
    }
    text::str_eq(x.name.as_str(), y.name.as_str()) && lex_less(x.path.as_str(), y.path.as_str())
}

/// Sorts into the presentation order, keeping every entry.
pub fn sort_browsers(v: Vec<DetectedBrowser>) -> (r: Vec<DetectedBrowser>)
    ensures
        is_sorted(browser_views(r@)),
        browser_views(r@).to_multiset() == browser_views(v@).to_multiset(),
{
    let ghost all = browser_views(v@).to_multiset();
    let mut rest = v;
    let mut sorted: Vec<DetectedBrowser> = Vec::new();
    assert(browser_views(sorted@) =~= Seq::<DetectedBrowserView>::empty());
    while rest.len() > 0
        invariant
            is_sorted(browser_views(sorted@)),
            browser_views(sorted@).to_multiset().add(browser_views(rest@).to_multiset()) == all,
        decreases rest.len(),
    {
        let ghost rest0 = browser_views(rest@);
        let x = rest.pop().unwrap();
        assert(rest0 =~= browser_views(rest@).push(x@));
        let ghost s0 = browser_views(sorted@);
        let mut p: usize = 0;
        while p < sorted.len() && !browser_less(&x, &sorted[p])
            invariant
                p <= sorted@.len(),
                s0 == browser_views(sorted@),
                forall|i: int| 0 <= i < p ==> !browser_lt(x@, #[trigger] s0[i]),
            decreases sorted.len() - p,
        {
            p = p + 1;
        }
        proof {
            if p < s0.len() {
                assert(browser_lt(x@, s0[p as int]));
                assert forall|j: int| p <= j < s0.len() implies browser_lt(x@, #[trigger] s0[j]) by {
                    if j > p {
                        assert(!browser_lt(s0[j], s0[p as int]));
                        lemma_browser_order(x@, s0[p as int], s0[j]);
                        lemma_browser_order(s0[j], x@, s0[p as int]);
                        lemma_browser_order(s0[p as int], s0[j], x@);
                        lemma_browser_order(s0[j], s0[p as int], x@);
                    }
                }
            }
        }
        let ghost xv = x@;
        sorted.insert(p, x);
        proof {
            let s1 = browser_views(sorted@);
            assert(s1 =~= s0.insert(p as int, xv));
            assert forall|i: int, j: int| 0 <= i < j < s1.len() implies !browser_lt(
                #[trigger] s1[j],
                #[trigger] s1[i],
            ) by {
                if j < p {
                    assert(s1[i] == s0[i] && s1[j] == s0[j]);
                } else if j == p {
                    assert(s1[i] == s0[i]);
                    assert(s1[j] == xv);
                } else if i == p {
                    assert(s1[j] == s0[j - 1]);
                    lemma_browser_order(xv, s0[j - 1], xv);
                } else if i < p {
                    assert(s1[i] == s0[i] && s1[j] == s0[j - 1]);
                } else {
                    assert(s1[i] == s0[i - 1] && s1[j] == s0[j - 1]);
                }
            }
            vstd::seq_lib::to_multiset_insert(s0, p as int, xv);
            vstd::seq_lib::to_multiset_build(browser_views(rest@), xv);
            assert(s1.to_multiset().add(browser_views(rest@).to_multiset()) =~= all);
        }
    }
    assert(browser_views(rest@) =~= Seq::<DetectedBrowserView>::empty());
    assert(browser_views(sorted@).to_multiset().add(Multiset::empty()) =~= browser_views(
        sorted@,
    ).to_multiset());
    sorted
}

/// The browsers among `existing_paths` (executables the caller found on
/// disk, in scan order): deduplicated by lower-cased path, unrecognized
/// binaries dropped, sorted Chrome family first, then by name and path.
pub fn detect_installed_browsers(existing_paths: Vec<String>) -> (r: Vec<DetectedBrowser>)
    ensures
        is_sorted(browser_views(r@)),
        browser_views(r@).to_multiset() == collect_spec(existing_paths.deep_view()).0.to_multiset(),
{
    let ghost paths = existing_paths.deep_view();
    let mut out: Vec<DetectedBrowser> = Vec::new();
    let mut seen: Vec<String> = Vec::new();
    let mut i: usize = 0;
    assert(browser_views(out@) =~= Seq::<DetectedBrowserView>::empty());
    assert(seen.deep_view() =~= Seq::<Seq<char>>::empty());
    while i < existing_paths.len()
        invariant
            i <= existing_paths@.len(),
            paths == existing_paths.deep_view(),
            (browser_views(out@), seen.deep_view()) == collect_spec(paths.take(i as int)),
        decreases existing_paths.len() - i,
    {
        assert(paths.take(i + 1).drop_last() =~= paths.take(i as int));
        assert(paths.take(i + 1).last() == existing_paths@[i as int]@);
        let p = existing_paths[i].clone();
        push_browser(&mut out, &mut seen, p);
        i = i + 1;
    }
    assert(paths.take(existing_paths@.len() as int) =~= paths);
    sort_browsers(out)
}

// ── Where to look ─────────────────────────────────────────────────────

/// Chrome-family binary names searched for on Linux and BSD.
pub const UNIX_CHROME_CANDIDATES: [&'static str; 15] = [
    "google-chrome",
    "google-chrome-stable",
    "google-chrome-beta",
    "google-chrome-unstable",
    "chromium",
    "chromium-browser",
    "microsoft-edge",
    "microsoft-edge-stable",
    "microsoft-edge-beta",
    "brave-browser",
    "brave-browser-stable",
    "brave",
    "vivaldi",
    "vivaldi-stable",
    "opera",
];

/// Firefox-family binary names searched for on Linux and BSD.
pub const UNIX_FIREFOX_CANDIDATES: [&'static str; 9] = [
    "firefox",
    "firefox-esr",
    "firefox-nightly",
    "firefox-developer-edition",
    "librewolf",
    "waterfox",
    "zen-browser",
    "zen",
    "tor-browser",
];

/// Well-known directories searched after `PATH`.
pub const UNIX_EXTRA_DIRS: [&'static str; 6] = [
    "/usr/local/bin",
    "/snap/bin",
    "/opt/google/chrome",
    "/opt/microsoft/msedge",
    "/opt/vivaldi",
    "/opt/BraveSoftware",
];

/// String literals as sequences.
pub open spec fn str_views(v: Seq<&'static str>) -> Seq<Seq<char>> {
    v.map_values(|s: &'static str| s@)
}

/// `~/<rest>` with the home directory put in, when it is known.
pub open spec fn home_path(home: Option<Seq<char>>, rest: Seq<char>) -> Seq<char> {
    match home {
        Some(h) => paths::join_unix(h, rest),
        None => "~/"@ + rest,
    }
}

/// The directories searched on Linux and BSD, in order: those of `PATH`,
/// the well-known ones, then `~/bin`.
pub open spec fn unix_search_dirs_spec(path_dirs: Seq<Seq<char>>, home: Option<Seq<char>>) -> Seq<Seq<char>> {
    path_dirs + str_views(UNIX_EXTRA_DIRS@) + seq![home_path(home, "bin"@)]
}

fn push_strs<const N: usize>(out: &mut Vec<String>, items: &[&'static str; N])
    ensures
        final(out).deep_view() == old(out).deep_view() + str_views(items@),
{
    let mut i: usize = 0;
    while i < N
        invariant
            i <= N,
            items@.len() == N,
            out.deep_view() == old(out).deep_view() + str_views(items@).take(i as int),
        decreases N - i,
    {
        let ghost before = out.deep_view();
        out.push(items[i].to_owned());
        assert(out.deep_view() =~= before.push(items@[i as int]@));
        assert(str_views(items@).take(i + 1) =~= str_views(items@).take(i as int).push(items@[i as int]@));
        i = i + 1;
    }
    assert(str_views(items@).take(N as int) =~= str_views(items@));
}

/// `~/<rest>` expanded with `home`.
pub fn expand_home(home: Option<&str>, rest: &str) -> (r: String)
    ensures
        r@ == home_path(crate::backend::launch_options::opt_str_view(home), rest@),
{
    match home {
        Some(h) => paths::join_path(h, rest),
        None => {
            let mut out = String::new();
            text::append_str(&mut out, "~/");
            text::append_str(&mut out, rest);
            assert(out@ =~= "~/"@ + rest@);
            out
        },
    }
}

/// The directories to search on Linux and BSD: `path_dirs` (the entries of
/// `PATH`), the well-known install directories, then `~/bin`.
pub fn unix_search_dirs(path_dirs: Vec<String>, home: Option<&str>) -> (r: Vec<String>)
    ensures
        r.deep_view() == unix_search_dirs_spec(path_dirs.deep_view(), crate::backend::launch_options::opt_str_view(home)),
{
    let mut out = path_dirs;
    push_strs(&mut out, &UNIX_EXTRA_DIRS);
    let ghost before = out.deep_view();
    out.push(expand_home(home, "bin"));
    assert(out.deep_view() =~= before.push(home_path(crate::backend::launch_options::opt_str_view(home), "bin"@)));
    out
}

/// The binary names searched for, Chrome family first.
pub open spec fn unix_candidate_names() -> Seq<Seq<char>> {
    str_views(UNIX_CHROME_CANDIDATES@) + str_views(UNIX_FIREFOX_CANDIDATES@)
}

/// One group per binary name: the name in each directory, in order. The
/// first executable of each group is a browser found.
pub open spec fn candidate_groups_spec(dirs: Seq<Seq<char>>) -> Seq<Seq<Seq<char>>> {
    unix_candidate_names().map_values(|n: Seq<char>| dirs.map_values(|d: Seq<char>| paths::join_unix(d, n)))
}

fn joined_in_each(dirs: &Vec<String>, name: &str) -> (r: Vec<String>)
    ensures
        r.deep_view() == dirs.deep_view().map_values(|d: Seq<char>| paths::join_unix(d, name@)),
{
    let mut out: Vec<String> = Vec::new();
    let mut i: usize = 0;
    while i < dirs.len()
        invariant
            i <= dirs@.len(),
            out.deep_view() == dirs.deep_view().take(i as int).map_values(|d: Seq<char>| paths::join_unix(d, name@)),
        decreases dirs.len() - i,
    {
        let ghost before = out.deep_view();
        let p = paths::join_path(dirs[i].as_str(), name);
        out.push(p);
        assert(dirs.deep_view()[i as int] == dirs@[i as int]@);
        assert(out.deep_view() =~= before.push(p@));
        assert(dirs.deep_view().take(i + 1).map_values(|d: Seq<char>| paths::join_unix(d, name@)) =~= dirs.deep_view().take(i as int).map_values(|d: Seq<char>| paths::join_unix(d, name@)).push(p@));
        assert(out.deep_view() =~= dirs.deep_view().take(i + 1).map_values(|d: Seq<char>| paths::join_unix(d, name@)));
        i = i + 1;
    }
    assert(dirs.deep_view().take(dirs@.len() as int) =~= dirs.deep_view());
    out
}

/// The candidate paths on Linux and BSD, grouped by binary name (Chrome
/// family first), each group in directory order.
pub fn unix_candidate_groups(dirs: &Vec<String>) -> (r: Vec<Vec<String>>)
    ensures
        r.deep_view() == candidate_groups_spec(dirs.deep_view()),
{
    let mut names: Vec<String> = Vec::new();
    push_strs(&mut names, &UNIX_CHROME_CANDIDATES);
    push_strs(&mut names, &UNIX_FIREFOX_CANDIDATES);
    assert(names.deep_view() =~= unix_candidate_names());
    let mut out: Vec<Vec<String>> = Vec::new();
    let mut i: usize = 0;
    while i < names.len()
        invariant
            i <= names@.len(),
            names.deep_view() == unix_candidate_names(),
            out.deep_view() == candidate_groups_spec(dirs.deep_view()).take(i as int),
        decreases names.len() - i,
    {
        let ghost before = out.deep_view();
        let group = joined_in_each(dirs, names[i].as_str());
        let ghost g = group.deep_view();
        out.push(group);
        assert(names.deep_view()[i as int] == names@[i as int]@);
        assert(out.deep_view() =~= before.push(g));
        assert(candidate_groups_spec(dirs.deep_view())[i as int] == g);
        assert(candidate_groups_spec(dirs.deep_view()).take(i + 1) =~= candidate_groups_spec(dirs.deep_view()).take(i as int).push(g));
        assert(out.deep_view() =~= candidate_groups_spec(dirs.deep_view()).take(i + 1));
        i = i + 1;
    }
    assert(candidate_groups_spec(dirs.deep_view()).take(names@.len() as int) =~= candidate_groups_spec(dirs.deep_view()));
    out
}

/// Install locations checked on Windows, as `(base, relative path)` where
/// the base is 0 for Program Files, 1 for Program Files (x86) and 2 for
/// the local application data directory.
pub const WINDOWS_KNOWN_PATHS: [(u8, &'static str); 15] = [
    (0, "Google\\Chrome\\Application\\chrome.exe"),
    (1, "Google\\Chrome\\Application\\chrome.exe"),
    (2, "Google\\Chrome\\Application\\chrome.exe"),
    (1, "Microsoft\\Edge\\Application\\msedge.exe"),
    (0, "Microsoft\\Edge\\Application\\msedge.exe"),
    (0, "Mozilla Firefox\\firefox.exe"),
    (1, "Mozilla Firefox\\firefox.exe"),
    (2, "Mozilla Firefox\\firefox.exe"),
    (0, "BraveSoftware\\Brave-Browser\\Application\\brave.exe"),
    (2, "BraveSoftware\\Brave-Browser\\Application\\brave.exe"),
    (0, "Vivaldi\\Application\\vivaldi.exe"),
    (2, "Vivaldi\\Application\\vivaldi.exe"),
    (1, "Opera\\opera.exe"),
    (2, "Programs\\Opera\\opera.exe"),
    (0, "Chromium\\Application\\chrome.exe"),
];

/// The base directory named by `which`.
pub open spec fn windows_base(which: u8, pf: Seq<char>, pf86: Seq<char>, local: Seq<char>) -> Seq<char> {
    if which == 0 {
        pf
    } else if which == 1 {
        pf86
    } else {
        local
    }
}

/// The install paths checked on Windows, in order, for the given
/// Program Files, Program Files (x86) and local application data
/// directories.
pub open spec fn windows_known_paths_spec(pf: Seq<char>, pf86: Seq<char>, local: Seq<char>) -> Seq<Seq<char>> {
    WINDOWS_KNOWN_PATHS@.map_values(
        |e: (u8, &'static str)| paths::join_windows(windows_base(e.0, pf, pf86, local), e.1@),
    )
}

/// The install paths checked on Windows. Unset directories take their
/// defaults (`C:\Program Files`, `C:\Program Files (x86)`, empty).
pub fn windows_known_paths(pf: Option<&str>, pf86: Option<&str>, local: Option<&str>) -> (r: Vec<String>)
    ensures
        r.deep_view() == windows_known_paths_spec(
            match crate::backend::launch_options::opt_str_view(pf) { Some(p) => p, None => "C:\\Program Files"@ },
            match crate::backend::launch_options::opt_str_view(pf86) { Some(p) => p, None => "C:\\Program Files (x86)"@ },
            match crate::backend::launch_options::opt_str_view(local) { Some(p) => p, None => ""@ },
        ),
{
    let pf: &str = match pf { Some(p) => p, None => "C:\\Program Files" };
    let pf86: &str = match pf86 { Some(p) => p, None => "C:\\Program Files (x86)" };
    let local: &str = match local { Some(p) => p, None => "" };
    let mut out: Vec<String> = Vec::new();
    let mut i: usize = 0;
    while i < 15
        invariant
            i <= 15,
            WINDOWS_KNOWN_PATHS@.len() == 15,
            out.deep_view() == windows_known_paths_spec(pf@, pf86@, local@).take(i as int),
        decreases 15 - i,
    {
        let (which, rel) = WINDOWS_KNOWN_PATHS[i];
        let base: &str = if which == 0 {
            pf
        } else if which == 1 {
            pf86
        } else {
            local
        };
        let ghost before = out.deep_view();
        let p = paths::join_windows_path(base, rel);
        out.push(p);
        assert(out.deep_view() =~= before.push(p@));
        assert(WINDOWS_KNOWN_PATHS@[i as int] == (which, rel));
        assert(windows_known_paths_spec(pf@, pf86@, local@)[i as int] == p@);
        assert(windows_known_paths_spec(pf@, pf86@, local@).take(i + 1) =~= windows_known_paths_spec(pf@, pf86@, local@).take(i as int).push(p@));
        assert(out.deep_view() =~= windows_known_paths_spec(pf@, pf86@, local@).take(i + 1));
        i = i + 1;
    }
    assert(windows_known_paths_spec(pf@, pf86@, local@).take(15) =~= windows_known_paths_spec(pf@, pf86@, local@));
    out
}

/// Application bundles checked on macOS: the bundle and the executable
/// inside `Contents/MacOS`.
pub const MACOS_APPS: [(&'static str, &'static str); 11] = [
    ("Google Chrome.app", "Google Chrome"),
    ("Microsoft Edge.app", "Microsoft Edge"),
    ("Chromium.app", "Chromium"),
    ("Brave Browser.app", "Brave Browser"),
    ("Vivaldi.app", "Vivaldi"),
    ("Opera.app", "Opera"),
    ("Firefox.app", "firefox"),
    ("Firefox Developer Edition.app", "firefox"),
    ("LibreWolf.app", "librewolf"),
    ("Waterfox.app", "waterfox"),
    ("Zen Browser.app", "zen"),
];

/// The executables of the bundles under `base`.
pub open spec fn macos_paths_under(base: Seq<char>) -> Seq<Seq<char>> {
    MACOS_APPS@.map_values(
        |e: (&'static str, &'static str)| paths::join_unix(
            paths::join_unix(paths::join_unix(base, e.0@), "Contents/MacOS"@),
            e.1@,
        ),
    )
}

/// The paths checked on macOS: every bundle under `/Applications`, then
/// under `~/Applications`.
pub open spec fn macos_known_paths_spec(home: Option<Seq<char>>) -> Seq<Seq<char>> {
    macos_paths_under("/Applications"@) + macos_paths_under(home_path(home, "Applications"@))
}

fn push_macos_paths(out: &mut Vec<String>, base: &str)
    ensures
        final(out).deep_view() == old(out).deep_view() + macos_paths_under(base@),
{
    let mut i: usize = 0;
    while i < 11
        invariant
            i <= 11,
            MACOS_APPS@.len() == 11,
            out.deep_view() == old(out).deep_view() + macos_paths_under(base@).take(i as int),
        decreases 11 - i,
    {
        let (dir, exe) = MACOS_APPS[i];
        let a = paths::join_path(base, dir);
        let b = paths::join_path(a.as_str(), "Contents/MacOS");
        let ghost before = out.deep_view();
        let p = paths::join_path(b.as_str(), exe);
        out.push(p);
        assert(out.deep_view() =~= before.push(p@));
        assert(MACOS_APPS@[i as int] == (dir, exe));
        assert(macos_paths_under(base@)[i as int] == p@);
        assert(macos_paths_under(base@).take(i + 1) =~= macos_paths_under(base@).take(i as int).push(p@));
        assert(out.deep_view() =~= old(out).deep_view() + macos_paths_under(base@).take(i + 1));
        i = i + 1;
    }
    assert(macos_paths_under(base@).take(11) =~= macos_paths_under(base@));
}

/// The paths checked on macOS for the home directory `home`.
pub fn macos_known_paths(home: Option<&str>) -> (r: Vec<String>)
    ensures
        r.deep_view() == macos_known_paths_spec(crate::backend::launch_options::opt_str_view(home)),
{
    let mut out: Vec<String> = Vec::new();
    push_macos_paths(&mut out, "/Applications");
    let user_apps = expand_home(home, "Applications");
    push_macos_paths(&mut out, user_apps.as_str());
    assert(out.deep_view() =~= macos_known_paths_spec(crate::backend::launch_options::opt_str_view(home)));
    out
}

// ── The native file picker ────────────────────────────────────────────

/// Title of the picker dialog.
pub const PICKER_TITLE: &'static str = "选择浏览器可执行文件";

/// The error when no picker program exists.
pub const NO_PICKER_MESSAGE: &'static str = "未找到可用的文件选择工具（zenity/kdialog/yad），请改用下方检测列表或手动填写路径";

/// The picker programs tried on Linux and BSD, in order, with their
/// arguments before the title.
pub const LINUX_PICKERS: [(&'static str, &'static str, &'static str, &'static str); 3] = [
    ("zenity", "--file-selection", "", "--title"),
    ("kdialog", "--getopenfilename", ".", "--title"),
    ("yad", "--file", "", "--title"),
];

/// Outcome of one picker run.
#[derive(Debug, Clone, PartialEq, Eq)]
pub enum PickerOutcome {
    /// The picker program does not exist.
    Missing,
    /// It ran but the user cancelled the dialog.
    Cancelled,
    /// The user picked a file.
    Selected(String),
}

/// The outcome of a picker run: `spawned` tells whether the program could
/// be run at all, `success` its exit status, `stdout` its output. A file
/// was picked when the run succeeded with non-blank output (trimmed).
pub fn picker_outcome(spawned: bool, success: bool, stdout: &[u8]) -> (r: PickerOutcome)
    ensures
        !spawned ==> r is Missing,
        spawned && success && text::trim_seq(crate::backend::proxy::logs::utf8_lossy(stdout@)).len() > 0
            ==> (r matches PickerOutcome::Selected(p) && p@ == text::trim_seq(
            crate::backend::proxy::logs::utf8_lossy(stdout@),
        )),
        spawned && !(success && text::trim_seq(crate::backend::proxy::logs::utf8_lossy(stdout@)).len()
            > 0) ==> r is Cancelled,
{
    if !spawned {
        return PickerOutcome::Missing;
    }
    let out = crate::backend::proxy::logs::lossy_text(stdout);
    let t = text::trim(out.as_str());
    if success && t.unicode_len() > 0 {
        PickerOutcome::Selected(t.to_owned())
    } else {
        PickerOutcome::Cancelled
    }
}

/// The first picked file among `outcomes`, if any.
pub open spec fn first_selected(outcomes: Seq<PickerOutcome>) -> Option<Seq<char>>
    decreases outcomes.len(),
{
    if outcomes.len() == 0 {
        None
    } else {
        match outcomes[0] {
            PickerOutcome::Selected(p) => Some(p@),
            _ => first_selected(outcomes.drop_first()),
        }
    }
}

/// The result of the picker on Linux and BSD, from the outcomes of the
/// programs tried in order and whether none of them exists: the first
/// picked file; else an error when no picker program exists, and a
/// cancellation otherwise.
pub fn linux_picker_result(outcomes: &Vec<PickerOutcome>, all_missing: bool) -> (r: Result<Option<String>, String>)
    ensures
        match first_selected(outcomes@) {
            Some(p) => r matches Ok(Some(q)) && q@ == p,
            None => if all_missing {
                r matches Err(m) && m@ == NO_PICKER_MESSAGE@
            } else {
                r matches Ok(None)
            },
        },
{
    let mut i: usize = 0;
    assert(outcomes@.skip(0) =~= outcomes@);
    while i < outcomes.len()
        invariant
            i <= outcomes@.len(),
            first_selected(outcomes@) == first_selected(outcomes@.skip(i as int)),
        decreases outcomes.len() - i,
    {
        assert(outcomes@.skip(i as int)[0] == outcomes@[i as int]);
        assert(outcomes@.skip(i as int).drop_first() =~= outcomes@.skip(i + 1));
        if let PickerOutcome::Selected(p) = &outcomes[i] {
            return Ok(Some(p.clone()));
        }
        i = i + 1;
    }
    assert(outcomes@.skip(i as int) =~= Seq::<PickerOutcome>::empty());
    if all_missing {
        Err(NO_PICKER_MESSAGE.to_owned())
    } else {
        Ok(None)
    }
}


/// Classification ignores the case of letters: two paths whose file stems
/// (in ASCII) differ only in upper and lower case fall in the same family,
/// so `.../Google Chrome` classifies as `.../google chrome` does.
pub proof fn lemma_classify_ignores_case(p: Seq<char>, q: Seq<char>)
    requires
        text::is_ascii_seq(file_stem_spec(p)),
        text::is_ascii_seq(file_stem_spec(q)),
        text::ascii_lower_seq(file_stem_spec(p)) == text::ascii_lower_seq(file_stem_spec(q)),
    ensures
        classify_spec(p) == classify_spec(q),
{
    text::lemma_lower_case_ascii(file_stem_spec(p));
    text::lemma_lower_case_ascii(file_stem_spec(q));
}

/// The family depends on the file name alone: two paths with the same
/// file stem, in whatever directories, classify alike.
pub proof fn lemma_classify_depends_on_stem_only(p: Seq<char>, q: Seq<char>)
    requires
        file_stem_spec(p) == file_stem_spec(q),
    ensures
        classify_spec(p) == classify_spec(q),
{
}

/// Firefox-family words in the lower-cased file stem make it a Firefox:
/// firefox, librewolf, waterfox, tor-browser or floorp anywhere in it, or
/// exactly zen, zen-alpha or zen-browser.
pub proof fn lemma_firefox_words_mean_firefox(p: Seq<char>)
    requires
        ({
            let l = text::lower_case(file_stem_spec(p));
            ||| text::has_sub(l, "firefox"@)
            ||| text::has_sub(l, "librewolf"@)
            ||| text::has_sub(l, "waterfox"@)
            ||| text::has_sub(l, "tor-browser"@)
            ||| text::has_sub(l, "floorp"@)
            ||| l == "zen"@
            ||| l == "zen-alpha"@
            ||| l == "zen-browser"@
        }),
    ensures
        classify_spec(p) == Some(BrowserKind::Firefox),
{
    let l = text::lower_case(file_stem_spec(p));
    assert(FIREFOX_TOKENS@[0]@ == "firefox"@);
    assert(FIREFOX_TOKENS@[1]@ == "librewolf"@);
    assert(FIREFOX_TOKENS@[2]@ == "waterfox"@);
    assert(FIREFOX_TOKENS@[3]@ == "tor-browser"@);
    assert(FIREFOX_TOKENS@[4]@ == "floorp"@);
    assert(FIREFOX_EXACT_NAMES@[0]@ == "zen"@);
    assert(FIREFOX_EXACT_NAMES@[1]@ == "zen-alpha"@);
    assert(FIREFOX_EXACT_NAMES@[2]@ == "zen-browser"@);
    if text::has_sub(l, "firefox"@) {
        assert(text::has_sub(l, FIREFOX_TOKENS@[0]@));
    } else if text::has_sub(l, "librewolf"@) {
        assert(text::has_sub(l, FIREFOX_TOKENS@[1]@));
    } else if text::has_sub(l, "waterfox"@) {
        assert(text::has_sub(l, FIREFOX_TOKENS@[2]@));
    } else if text::has_sub(l, "tor-browser"@) {
        assert(text::has_sub(l, FIREFOX_TOKENS@[3]@));
    } else if text::has_sub(l, "floorp"@) {
        assert(text::has_sub(l, FIREFOX_TOKENS@[4]@));
    } else if l == "zen"@ {
        assert(l == FIREFOX_EXACT_NAMES@[0]@);
    } else if l == "zen-alpha"@ {
        assert(l == FIREFOX_EXACT_NAMES@[1]@);
    } else {
        assert(l == FIREFOX_EXACT_NAMES@[2]@);
    }
}

/// Chrome-family words in the lower-cased file stem make it a Chrome when
/// it is not a Firefox: chrome, chromium, msedge, microsoft-edge, brave,
/// vivaldi or opera anywhere in it.
pub proof fn lemma_chrome_words_mean_chrome(p: Seq<char>)
    requires
        classify_spec(p) != Some(BrowserKind::Firefox),
        ({
            let l = text::lower_case(file_stem_spec(p));
            ||| text::has_sub(l, "chrome"@)
            ||| text::has_sub(l, "chromium"@)
            ||| text::has_sub(l, "msedge"@)
            ||| text::has_sub(l, "microsoft-edge"@)
            ||| text::has_sub(l, "brave"@)
            ||| text::has_sub(l, "vivaldi"@)
            ||| text::has_sub(l, "opera"@)
        }),
    ensures
        classify_spec(p) == Some(BrowserKind::Chrome),
{
    let l = text::lower_case(file_stem_spec(p));
    assert(CHROME_TOKENS@[0]@ == "chrome"@);
    assert(CHROME_TOKENS@[1]@ == "chromium"@);
    assert(CHROME_TOKENS@[2]@ == "msedge"@);
    assert(CHROME_TOKENS@[3]@ == "microsoft-edge"@);
    assert(CHROME_TOKENS@[4]@ == "brave"@);
    assert(CHROME_TOKENS@[5]@ == "vivaldi"@);
    assert(CHROME_TOKENS@[6]@ == "opera"@);
    if text::has_sub(l, "chrome"@) {
        assert(text::has_sub(l, CHROME_TOKENS@[0]@));
    } else if text::has_sub(l, "chromium"@) {
        assert(text::has_sub(l, CHROME_TOKENS@[1]@));
    } else if text::has_sub(l, "msedge"@) {
        assert(text::has_sub(l, CHROME_TOKENS@[2]@));
    } else if text::has_sub(l, "microsoft-edge"@) {
        assert(text::has_sub(l, CHROME_TOKENS@[3]@));
    } else if text::has_sub(l, "brave"@) {
        assert(text::has_sub(l, CHROME_TOKENS@[4]@));
    } else if text::has_sub(l, "vivaldi"@) {
        assert(text::has_sub(l, CHROME_TOKENS@[5]@));
    } else {
        assert(text::has_sub(l, CHROME_TOKENS@[6]@));
    }
}

} // verus!
