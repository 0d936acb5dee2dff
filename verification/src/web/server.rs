//! The web server's decisions: which port to listen on, the per-launch
//! token, and which requests to the API are authorized.

use vstd::prelude::*;

use rand::Rng;

use crate::backend::launch_options;
use crate::text;

verus! {

/// File (in the application directory) remembering the last port.
pub const PORT_FILE: &'static str = "web_port.txt";

/// Port tried when the remembered one is unusable.
pub const DEFAULT_PORT: u16 = 19823;

/// The only API path that accepts the token in its query string (an
/// `EventSource` cannot set headers).
pub const EVENTS_PATH: &'static str = "/api/events";

/// The port remembered in the port file: its trimmed contents as a port
/// number, if not a privileged one.
pub open spec fn remembered_port(contents: Seq<char>) -> Option<u16> {
    match text::parse_unsigned(text::trim_seq(contents), u16::MAX as nat) {
        Some(p) => if p >= 1024 {
            Some(p as u16)
        } else {
            None
        },
        None => None,
    }
}

/// Reads the port file's contents.
pub fn port_from_file(contents: &str) -> (r: Option<u16>)
    ensures
        r == remembered_port(contents@),
{
    match text::parse_unsigned_str(text::trim(contents), 65535) {
        Some(p) => if p >= 1024 {
            Some(p as u16)
        } else {
            None
        },
        None => None,
    }
}

/// The ports to try to listen on, in order: the remembered one, the
/// default, then any port the system assigns (`0`).
pub open spec fn bind_order_spec(port_file: Option<Seq<char>>) -> Seq<u16> {
    let tail = seq![DEFAULT_PORT, 0u16];
    match port_file {
        Some(c) => match remembered_port(c) {
            Some(p) => seq![p] + tail,
            None => tail,
        },
        None => tail,
    }
}

/// The ports to try, given the port file's contents if it could be read.
pub fn bind_order(port_file: Option<&str>) -> (r: Vec<u16>)
    ensures
        r@ == bind_order_spec(launch_options::opt_str_view(port_file)),
{
    let mut r: Vec<u16> = Vec::new();
    if let Some(c) = port_file {
        if let Some(p) = port_from_file(c) {
            r.push(p);
        }
    }
    r.push(DEFAULT_PORT);
    r.push(0u16);
    proof {
        match port_file {
            Some(c) => match remembered_port(c@) {
                Some(p) => assert(r@ =~= seq![p] + seq![DEFAULT_PORT, 0u16]),
                None => assert(r@ =~= seq![DEFAULT_PORT, 0u16]),
            },
            None => assert(r@ =~= seq![DEFAULT_PORT, 0u16]),
        }
    }
    r
}

/// Lower-case hexadecimal digit of `d < 16`.
pub open spec fn hex_digit(d: nat) -> char {
    if d < 10 {
        (48 + d) as char
    } else {
        (87 + d) as char
    }
}

/// `bytes` as lower-case hexadecimal, two digits per byte.
pub open spec fn hex_spec(bytes: Seq<u8>) -> Seq<char>
    decreases bytes.len(),
{
    if bytes.len() == 0 {
        Seq::empty()
    } else {
        let b = bytes.last();
        hex_spec(bytes.drop_last()) + seq![hex_digit((b / 16) as nat), hex_digit((b % 16) as nat)]
    }
}

/// A character of lower-case hexadecimal.
pub open spec fn is_hex_lower(c: char) -> bool {
    ('0' <= c <= '9') || ('a' <= c <= 'f')
}

fn hex_char(d: u8) -> (c: char)
    requires
        d < 16,
    ensures
        c == hex_digit(d as nat),
        is_hex_lower(c),
{
    if d < 10 {
        (48u8 + d) as char
    } else {
        (87u8 + d) as char
    }
}

pub proof fn lemma_hex_shape(bytes: Seq<u8>)
    ensures
        hex_spec(bytes).len() == 2 * bytes.len(),
        forall|i: int| 0 <= i < hex_spec(bytes).len() ==> is_hex_lower(#[trigger] hex_spec(bytes)[i]),
    decreases bytes.len(),
{
    if bytes.len() > 0 {
        lemma_hex_shape(bytes.drop_last());
        let b = bytes.last();
        assert(is_hex_lower(hex_digit((b / 16) as nat)));
        assert(is_hex_lower(hex_digit((b % 16) as nat)));
    }
}

/// `bytes` as lower-case hexadecimal.
pub fn hex_lower(bytes: &[u8]) -> (r: String)
    ensures
        r@ == hex_spec(bytes@),
{
    let mut r = String::new();
    let mut i: usize = 0;
    while i < bytes.len()
        invariant
            i <= bytes@.len(),
            r@ == hex_spec(bytes@.subrange(0, i as int)),
        decreases bytes.len() - i,
    {
        let b = bytes[i];
        text::push_char(&mut r, hex_char(b / 16));
        text::push_char(&mut r, hex_char(b % 16));
        let ghost next = bytes@.subrange(0, i + 1);
        assert(next.drop_last() =~= bytes@.subrange(0, i as int));
        assert(next.last() == b);
        i = i + 1;
    }
    assert(bytes@.subrange(0, bytes@.len() as int) =~= bytes@);
    r
}

/// Sixteen bytes from the thread-local generator (`rand::Rng::gen`).
#[verifier::external_body]
fn random_token_bytes() -> (r: [u8; 16]) {
    rand::thread_rng().gen()
}

/// A fresh per-launch token: 128 random bits as 32 lower-case hex digits.
pub fn generate_token() -> (r: String)
    ensures
        exists|b: Seq<u8>| b.len() == 16 && r@ == hex_spec(b),
        r@.len() == 32,
        forall|i: int| 0 <= i < r@.len() ==> is_hex_lower(#[trigger] r@[i]),
{
    let bytes = random_token_bytes();
    let r = hex_lower(bytes.as_slice());
    proof {
        lemma_hex_shape(bytes@);
    }
    r
}

/// The `Host` header names this server: `localhost:<port>` or
/// `127.0.0.1:<port>`, ignoring ASCII case.
pub open spec fn host_ok(host: Option<Seq<char>>, port: u16) -> bool {
    match host {
        Some(h) => text::eq_ignore_ascii_case(h, "localhost:"@ + text::decimal(port as nat))
            || text::eq_ignore_ascii_case(h, "127.0.0.1:"@ + text::decimal(port as nat)),
        None => false,
    }
}

/// A request may use the API: its `Host` names this server (which stops
/// DNS rebinding) and it presents exactly the per-launch token.
pub open spec fn authorized_spec(
    host: Option<Seq<char>>,
    presented: Option<Seq<char>>,
    port: u16,
    token: Seq<char>,
) -> bool {
    host_ok(host, port) && presented == Some(token)
}

/// Whether a request with these `Host` header and token may use the API.
pub fn is_authorized(
    host: Option<&str>,
    presented_token: Option<&str>,
    expected_port: u16,
    expected_token: &str,
) -> (r: bool)
    ensures
        r == authorized_spec(
            launch_options::opt_str_view(host),
            launch_options::opt_str_view(presented_token),
            expected_port,
            expected_token@,
        ),
{
    let host_ok = match host {
        Some(h) => {
            let mut local = String::new();
            text::append_str(&mut local, "localhost:");
            text::push_decimal(&mut local, expected_port as u64);
            let mut loopback = String::new();
            text::append_str(&mut loopback, "127.0.0.1:");
            text::push_decimal(&mut loopback, expected_port as u64);
            assert(local@ =~= "localhost:"@ + text::decimal(expected_port as nat));
            assert(loopback@ =~= "127.0.0.1:"@ + text::decimal(expected_port as nat));
            text::eq_ignore_ascii_case_str(h, local.as_str()) || text::eq_ignore_ascii_case_str(
                h,
                loopback.as_str(),
            )
        },
        None => false,
    };
    let token_ok = match presented_token {
        Some(t) => text::str_eq(t, expected_token),
        None => false,
    };
    host_ok && token_ok
}

/// The value of the first `token=` parameter among `pieces`.
pub open spec fn first_token(pieces: Seq<Seq<char>>) -> Option<Seq<char>>
    decreases pieces.len(),
{
    if pieces.len() == 0 {
        None
    } else if text::has_prefix(pieces[0], "token="@) {
        Some(pieces[0].skip(6))
    } else {
        first_token(pieces.drop_first())
    }
}

/// The token in a query string: the first `&`-separated parameter that
/// starts with `token=`, without that prefix.
pub open spec fn token_from_query_spec(query: Seq<char>) -> Option<Seq<char>> {
    first_token(text::split_on(query, '&'))
}

/// The token carried in a query string, if any.
pub fn token_from_query(query: &str) -> (r: Option<&str>)
    ensures
        launch_options::opt_str_view(r) == token_from_query_spec(query@),
{
    let mut rest: &str = query;
    assert("token="@.len() == 6) by {
        reveal_strlit("token=");
    }
    loop
        invariant
            token_from_query_spec(query@) == first_token(text::split_on(rest@, '&')),
            "token="@.len() == 6,
        decreases rest@.len(),
    {
        let n = rest.unicode_len();
        match text::find_char(rest, '&') {
            Some(i) => {
                let piece = rest.substring_char(0, i);
                let ghost tail = text::split_on(rest@.skip(i + 1), '&');
                assert(text::split_on(rest@, '&') == seq![rest@.take(i as int)] + tail);
                assert(piece@ =~= rest@.take(i as int));
                let ghost pieces = seq![piece@] + tail;
                assert(pieces[0] == piece@);
                assert(pieces.drop_first() =~= tail);
                if let Some(v) = text::strip_prefix_str(piece, "token=") {
                    assert(v@ =~= piece@.skip(6));
                    return Some(v);
                }
                let ghost old_rest = rest@;
                rest = rest.substring_char(i + 1, n);
                assert(rest@ =~= old_rest.skip(i + 1));
            },
            None => {
                assert(text::split_on(rest@, '&') == seq![rest@]);
                let ghost pieces = seq![rest@];
                assert(pieces.drop_first() =~= Seq::<Seq<char>>::empty());
                assert(first_token(Seq::<Seq<char>>::empty()) is None);
                match text::strip_prefix_str(rest, "token=") {
                    Some(v) => {
                        assert(v@ =~= rest@.skip(6));
                        return Some(v);
                    },
                    None => {
                        return None;
                    },
                }
            },
        }
    }
}

/// The token a request presents: the `X-Auth-Token` header, or, on the
/// event stream only, the `token` query parameter.
pub open spec fn presented_token_spec(
    header: Option<Seq<char>>,
    path: Seq<char>,
    query: Option<Seq<char>>,
) -> Option<Seq<char>> {
    match header {
        Some(h) => Some(h),
        None => if path == EVENTS_PATH@ {
            match query {
                Some(q) => token_from_query_spec(q),
                None => None,
            }
        } else {
            None
        },
    }
}

/// The token presented with a request to `path`.
pub fn presented_token<'a>(header: Option<&'a str>, path: &str, query: Option<&'a str>) -> (r:
    Option<&'a str>)
    ensures
        launch_options::opt_str_view(r) == presented_token_spec(launch_options::opt_str_view(header), path@, launch_options::opt_str_view(query)),
{
    match header {
        Some(h) => Some(h),
        None => {
            if text::str_eq(path, EVENTS_PATH) {
                match query {
                    Some(q) => token_from_query(q),
                    None => None,
                }
            } else {
                None
            }
        },
    }
}

/// The static files the page loads.
#[derive(Debug, Clone, Copy, PartialEq, Eq, Structural)]
pub enum StaticAsset {
    PicoCss,
    AlpineJs,
}

impl StaticAsset {
    /// The `Content-Type` it is served with.
    pub fn content_type(&self) -> (r: &'static str)
        ensures
            *self == StaticAsset::PicoCss ==> r@ == "text/css"@,
            *self == StaticAsset::AlpineJs ==> r@ == "application/javascript"@,
    {
        match self {
            StaticAsset::PicoCss => "text/css",
            StaticAsset::AlpineJs => "application/javascript",
        }
    }
}

/// The asset served under `/static/<path>`, if any.
pub fn static_asset(path: &str) -> (r: Option<StaticAsset>)
    ensures
        path@ == "pico.min.css"@ ==> r == Some(StaticAsset::PicoCss),
        path@ == "alpine.min.js"@ ==> r == Some(StaticAsset::AlpineJs),
        path@ != "pico.min.css"@ && path@ != "alpine.min.js"@ ==> r is None,
{
    proof {
        reveal_strlit("pico.min.css");
        reveal_strlit("alpine.min.js");
        assert("pico.min.css"@[0] != "alpine.min.js"@[0]);
    }
    if text::str_eq(path, "pico.min.css") {
        Some(StaticAsset::PicoCss)
    } else if text::str_eq(path, "alpine.min.js") {
        Some(StaticAsset::AlpineJs)
    } else {
        None
    }
}

} // verus!
