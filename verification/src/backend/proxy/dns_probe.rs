//! Readiness probe for the core's tunnel-backed DNS server.
//!
//! The core starts a UDP DNS server that resolves through the tunnel even
//! in proxy-only mode. Until the tunnel works it answers NOERROR with an
//! empty answer section, so a process is only redirected to it once a
//! probe query has come back with at least one record.
//!
//! The library builds the query, recognises a usable reply and decides,
//! tick by tick, whether to resend, keep listening or give up; the socket
//! itself is driven by the application.

use vstd::prelude::*;

use crate::text;

verus! {

/// Resend interval while waiting for the DNS server to become usable (ms).
pub const RESEND_INTERVAL_MS: u64 = 500;

/// How long a single receive may block before the deadline is checked (ms).
pub const READ_TIMEOUT_MS: u64 = 200;

/// Fallback probe name for a bare-IP server address.
///
/// The probe needs a name that resolves through the tunnel; the ZJU
/// public site is a reasonable stand-in. A probe that does not resolve
/// only costs the redirect, never correctness.
pub const FALLBACK_PROBE_NAME: &'static str = "www.zju.edu.cn";

/// The name the readiness probe asks for: the configured VPN server
/// (trimmed), unless that is empty or a bare IP address.
pub open spec fn probe_name_spec(server: Seq<char>, server_is_ip: bool) -> Seq<char> {
    let t = text::trim_seq(server);
    if t.len() == 0 || server_is_ip {
        FALLBACK_PROBE_NAME@
    } else {
        t
    }
}

/// The probe name for `server`; `server_is_ip` tells whether the trimmed
/// server parses as an IP address.
pub fn probe_name<'a>(server: &'a str, server_is_ip: bool) -> (r: &'a str)
    ensures
        r@ == probe_name_spec(server@, server_is_ip),
{
    let t = text::trim(server);
    if t.unicode_len() == 0 || server_is_ip {
        FALLBACK_PROBE_NAME
    } else {
        t
    }
}

/// A query id from the sub-second part of the clock: its low 16 bits
/// with the lowest bit set, so never zero.
pub fn query_id_from_nanos(nanos: u32) -> (r: u16)
    ensures
        r == (nanos as u16) | 1u16,
        r % 2 == 1,
{
    let r = (nanos as u16) | 1u16;
    assert(r % 2 == 1) by (bit_vector)
        requires
            r == (nanos as u16) | 1u16,
    ;
    r
}

/// The fixed header of the query: `id`, recursion desired, one question.
pub open spec fn query_header(id: u16) -> Seq<u8> {
    seq![(id / 256) as u8, (id % 256) as u8, 1u8, 0u8, 0u8, 1u8, 0u8, 0u8, 0u8, 0u8, 0u8, 0u8]
}

/// The end of the question: the root label, then type `A`, class `IN`.
pub open spec fn query_tail() -> Seq<u8> {
    seq![0u8, 0u8, 1u8, 0u8, 1u8]
}

/// Labels in wire form: each a length byte and its UTF-8 bytes. `None`
/// when a label is empty or longer than 63 bytes.
pub open spec fn encode_labels(labels: Seq<Seq<char>>) -> Option<Seq<u8>>
    decreases labels.len(),
{
    if labels.len() == 0 {
        Some(Seq::empty())
    } else {
        let l = labels[0];
        let b = vstd::utf8::encode_utf8(l);
        if l.len() == 0 || b.len() > 63 {
            None
        } else {
            match encode_labels(labels.drop_first()) {
                Some(rest) => Some(seq![b.len() as u8] + b + rest),
                None => None,
            }
        }
    }
}

/// The name a query is built for: trimmed, trailing dots removed.
pub open spec fn query_name(name: Seq<char>) -> Seq<char> {
    text::trim_trailing(text::trim_seq(name), '.')
}

/// A minimal `A`/`IN` query for `name` with id `id`, or `None` when the
/// name is empty or has an empty or over-long label.
pub open spec fn query_spec(name: Seq<char>, id: u16) -> Option<Seq<u8>> {
    let n = query_name(name);
    if n.len() == 0 {
        None
    } else {
        match encode_labels(text::split_on(n, '.')) {
            Some(q) => Some(query_header(id) + q + query_tail()),
            None => None,
        }
    }
}

/// `acc` put in front of an encoded rest, if there is one.
pub open spec fn prefixed(acc: Seq<u8>, o: Option<Seq<u8>>) -> Option<Seq<u8>> {
    match o {
        Some(q) => Some(acc + q),
        None => None,
    }
}

fn push_bytes(out: &mut Vec<u8>, b: &[u8])
    ensures
        final(out)@ == old(out)@ + b@,
{
    let mut i: usize = 0;
    while i < b.len()
        invariant
            i <= b@.len(),
            out@ == old(out)@ + b@.subrange(0, i as int),
        decreases b.len() - i,
    {
        out.push(b[i]);
        assert(b@.subrange(0, i + 1) =~= b@.subrange(0, i as int).push(b@[i as int]));
        i = i + 1;
    }
    assert(b@.subrange(0, b@.len() as int) =~= b@);
}

/// Minimal DNS query: recursion desired, one `A`/`IN` question.
pub fn build_query(name: &str, id: u16) -> (r: Option<Vec<u8>>)
    ensures
        match query_spec(name@, id) {
            Some(q) => r matches Some(v) && v@ == q,
            None => r is None,
        },
{
    let mut query: Vec<u8> = Vec::new();
    query.push((id / 256) as u8);
    query.push((id % 256) as u8);
    query.push(1u8);
    query.push(0u8);
    query.push(0u8);
    query.push(1u8);
    query.push(0u8);
    query.push(0u8);
    query.push(0u8);
    query.push(0u8);
    query.push(0u8);
    query.push(0u8);
    assert(query@ =~= query_header(id));
    let n = text::trim_end_char(text::trim(name), '.');
    assert(n@ == query_name(name@));
    if n.unicode_len() == 0 {
        return None;
    }
    let ghost whole = encode_labels(text::split_on(n@, '.'));
    assert(query@.subrange(12, query@.len() as int) =~= Seq::<u8>::empty());
    assert(prefixed(Seq::<u8>::empty(), whole) == whole) by {
        if let Some(q) = whole {
            assert(Seq::<u8>::empty() + q =~= q);
        }
    }
    let mut rest: &str = n;
    loop
        invariant
            query@.len() >= 12,
            query@.subrange(0, 12) == query_header(id),
            n@.len() > 0,
            whole == encode_labels(text::split_on(n@, '.')),
            whole == prefixed(
                query@.subrange(12, query@.len() as int),
                encode_labels(text::split_on(rest@, '.')),
            ),
            query_spec(name@, id) == match whole {
                Some(q) => Some(query_header(id) + q + query_tail()),
                None => None,
            },
        decreases rest@.len(),
    {
        let ghost body = query@.subrange(12, query@.len() as int);
        let rl = rest.unicode_len();
        match text::find_char(rest, '.') {
            Some(i) => {
                let label = rest.substring_char(0, i);
                let ghost tail_labels = text::split_on(rest@.skip(i + 1), '.');
                assert(text::split_on(rest@, '.') == seq![rest@.take(i as int)] + tail_labels);
                assert(label@ =~= rest@.take(i as int));
                let ghost labels = seq![label@] + tail_labels;
                assert(labels[0] == label@);
                assert(labels.drop_first() =~= tail_labels);
                let b = label.as_bytes();
                if i == 0 || b.len() > 63 {
                    return None;
                }
                let ghost before = query@;
                query.push(b.len() as u8);
                push_bytes(&mut query, b);
                let ghost piece = seq![b@.len() as u8] + b@;
                assert(query@ =~= before + piece);
                assert(query@.subrange(0, 12) =~= before.subrange(0, 12));
                assert(query@.subrange(12, query@.len() as int) =~= body + piece);
                proof {
                    if let Some(t) = encode_labels(tail_labels) {
                        assert(body + (piece + t) =~= (body + piece) + t);
                    }
                }
                let ghost old_rest = rest@;
                rest = rest.substring_char(i + 1, rl);
                assert(rest@ =~= old_rest.skip(i + 1));
            },
            None => {
                assert(text::split_on(rest@, '.') == seq![rest@]);
                let ghost labels = seq![rest@];
                assert(labels.drop_first() =~= Seq::<Seq<char>>::empty());
                assert(encode_labels(Seq::<Seq<char>>::empty()) == Some(Seq::<u8>::empty()));
                let b = rest.as_bytes();
                if rl == 0 || b.len() > 63 {
                    return None;
                }
                let ghost before = query@;
                query.push(b.len() as u8);
                push_bytes(&mut query, b);
                let ghost piece = seq![b@.len() as u8] + b@;
                assert(piece + Seq::<u8>::empty() =~= piece);
                assert(encode_labels(labels) == Some(piece));
                assert(whole == Some(body + piece));
                assert(query@ =~= before + piece);
                assert(query@.subrange(12, query@.len() as int) =~= body + piece);
                assert(before =~= query_header(id) + body);
                query.push(0u8);
                query.push(0u8);
                query.push(1u8);
                query.push(0u8);
                query.push(1u8);
                assert(query@ =~= query_header(id) + (body + piece) + query_tail());
                return Some(query);
            },
        }
    }
}

/// `response` answers the query whose id bytes are `query_id`, and carries
/// at least one answer record.
pub open spec fn answers_query(response: Seq<u8>, query_id: Seq<u8>) -> bool {
    &&& response.len() >= 12
    &&& response.subrange(0, 2) == query_id
    &&& response[2] & 0x80u8 != 0
    &&& (response[6] as int) * 256 + (response[7] as int) > 0
}

/// True when this packet is a response to our query and carries at least
/// one answer record.
pub fn answer_count_matches(response: &[u8], query_id: &[u8]) -> (r: bool)
    ensures
        r == answers_query(response@, query_id@),
{
    if response.len() < 12 || query_id.len() != 2 || response[0] != query_id[0] || response[1]
        != query_id[1] {
        proof {
            if response@.len() >= 12 && response@.subrange(0, 2) == query_id@ {
                assert(response@.subrange(0, 2)[0] == response@[0]);
                assert(response@.subrange(0, 2)[1] == response@[1]);
            }
        }
        return false;
    }
    assert(response@.subrange(0, 2) =~= query_id@);
    let is_response = response[2] & 0x80u8 != 0;
    let answer_count: u16 = (response[6] as u16) * 256 + (response[7] as u16);
    is_response && answer_count > 0
}

/// What the probe loop does next.
#[derive(Debug, Clone, Copy, PartialEq, Eq)]
pub enum ProbeAction {
    /// The budget is spent: the probe failed.
    GiveUp,
    /// Send the query again, then listen; the next resend is due at the time given.
    Send { next_send_ms: u64 },
    /// Listen for a reply.
    Listen,
}

/// The probe loop's decision at `now_ms` (all times in ms since the probe
/// began): give up at the deadline, resend when a resend is due, else
/// listen.
pub fn probe_action(now_ms: u64, deadline_ms: u64, next_send_ms: u64) -> (r: ProbeAction)
    ensures
        now_ms >= deadline_ms ==> r == ProbeAction::GiveUp,
        now_ms < deadline_ms && now_ms >= next_send_ms ==> r == (ProbeAction::Send {
            next_send_ms: if now_ms + RESEND_INTERVAL_MS > u64::MAX {
                u64::MAX
            } else {
                (now_ms + RESEND_INTERVAL_MS) as u64
            },
        }),
        now_ms < deadline_ms && now_ms < next_send_ms ==> r == ProbeAction::Listen,
{
    if now_ms >= deadline_ms {
        ProbeAction::GiveUp
    } else if now_ms >= next_send_ms {
        ProbeAction::Send { next_send_ms: now_ms.saturating_add(RESEND_INTERVAL_MS) }
    } else {
        ProbeAction::Listen
    }
}

} // verus!
