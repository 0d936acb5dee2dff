//! Where to dial to learn that a local listener is up.

use vstd::prelude::*;

use crate::text;

verus! {

/// `host:port` split at its last colon, or `[host]:port` with the
/// brackets removed. `None` when there is no port separator, or when an
/// unbracketed host still holds a colon.
pub open spec fn split_host_port_spec(s: Seq<char>) -> Option<(Seq<char>, Seq<char>)> {
    if s.len() > 0 && s[0] == '[' {
        let rest = s.drop_first();
        match text::first_index_of(rest, ']') {
            Some(e) => {
                let after = rest.skip(e + 1);
                if after.len() > 0 && after[0] == ':' {
                    Some((rest.take(e), after.drop_first()))
                } else {
                    None
                }
            },
            None => None,
        }
    } else {
        match text::last_index_of(s, ':') {
            Some(i) => if s.take(i).contains(':') {
                None
            } else {
                Some((s.take(i), s.skip(i + 1)))
            },
            None => None,
        }
    }
}

/// The host to dial for a listen host: wildcards become loopback.
pub open spec fn dial_host(h: Seq<char>) -> Seq<char> {
    if h.len() == 0 || h == "0.0.0.0"@ {
        "127.0.0.1"@
    } else if h == "::"@ {
        "::1"@
    } else {
        h
    }
}

/// The address to dial for a bind address: wildcard hosts become
/// loopback, IPv6 hosts are bracketed; a blank bind gives nothing and one
/// without a port is passed on trimmed.
pub open spec fn dial_address_spec(bind: Seq<char>) -> Seq<char> {
    let t = text::trim_seq(bind);
    if t.len() == 0 {
        Seq::empty()
    } else {
        match split_host_port_spec(t) {
            Some((h, p)) => {
                let d = dial_host(h);
                if d.contains(':') {
                    "["@ + d + "]:"@ + p
                } else {
                    d + ":"@ + p
                }
            },
            None => t,
        }
    }
}

fn split_host_port(s: &str) -> (r: Option<(&str, &str)>)
    ensures
        match split_host_port_spec(s@) {
            Some((h, p)) => r matches Some((rh, rp)) && rh@ == h && rp@ == p,
            None => r is None,
        },
{
    let n = s.unicode_len();
    if n > 0 && s.get_char(0) == '[' {
        let rest = s.substring_char(1, n);
        assert(rest@ =~= s@.drop_first());
        match text::find_char(rest, ']') {
            None => None,
            Some(e) => {
                let host = rest.substring_char(0, e);
                let rl = n - 1;
                assert(rest@.skip(e + 1) =~= rest@.subrange(e + 1, rl as int));
                if e + 1 < rl && rest.get_char(e + 1) == ':' {
                    let port = rest.substring_char(e + 2, rl);
                    assert(rest@.skip(e + 1).drop_first() =~= port@);
                    Some((host, port))
                } else {
                    None
                }
            },
        }
    } else {
        match text::rfind_char(s, ':') {
            None => None,
            Some(i) => {
                let host = s.substring_char(0, i);
                if text::contains_char(host, ':') {
                    None
                } else {
                    let port = s.substring_char(i + 1, n);
                    Some((host, port))
                }
            },
        }
    }
}

/// The address to dial to check that a listener bound at `bind` is up.
pub fn readiness_dial_address(bind: &str) -> (r: String)
    ensures
        r@ == dial_address_spec(bind@),
{
    let trimmed = text::trim(bind);
    if trimmed.unicode_len() == 0 {
        return String::new();
    }
    match split_host_port(trimmed) {
        Some((host, port)) => {
            let dial: &str = if host.unicode_len() == 0 || text::str_eq(host, "0.0.0.0") {
                "127.0.0.1"
            } else if text::str_eq(host, "::") {
                "::1"
            } else {
                host
            };
            assert(dial@ == dial_host(host@));
            let mut out = String::new();
            if text::contains_char(dial, ':') {
                text::append_str(&mut out, "[");
                text::append_str(&mut out, dial);
                text::append_str(&mut out, "]:");
                text::append_str(&mut out, port);
            } else {
                text::append_str(&mut out, dial);
                text::append_str(&mut out, ":");
                text::append_str(&mut out, port);
            }
            out
        },
        None => trimmed.to_owned(),
    }
}

} // verus!
