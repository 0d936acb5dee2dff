//! Windows command-line quoting and wide strings for the elevation flow.

use vstd::prelude::*;

use crate::text;

verus! {

/// `n` backslashes.
pub open spec fn backslashes(n: nat) -> Seq<char> {
    Seq::new(n, |i: int| '\\')
}

/// Characters that force an argument into quotes.
pub open spec fn needs_quoting(c: char) -> bool {
    c == ' ' || c == '\t' || c == '"' || c == '\\'
}

/// The inside of a quoted argument, with `pending` backslashes seen but not
/// yet written: a run of backslashes is doubled (plus one) in front of a
/// quote, which is escaped, doubled before the closing quote, and written
/// as is before any other character.
pub open spec fn escape_body(s: Seq<char>, pending: nat) -> Seq<char>
    decreases s.len(),
{
    if s.len() == 0 {
        backslashes(2 * pending)
    } else if s[0] == '\\' {
        escape_body(s.drop_first(), pending + 1)
    } else if s[0] == '"' {
        backslashes(2 * pending + 1) + seq!['"'] + escape_body(s.drop_first(), 0)
    } else {
        backslashes(pending) + seq![s[0]] + escape_body(s.drop_first(), 0)
    }
}

/// Go's `syscall.EscapeArg`: `""` for the empty string, the string itself
/// when it holds no space, tab, quote or backslash, and otherwise the
/// quoted form.
pub open spec fn escape_arg_spec(s: Seq<char>) -> Seq<char> {
    if s.len() == 0 {
        seq!['"', '"']
    } else if !(exists|i: int| 0 <= i < s.len() && needs_quoting(#[trigger] s[i])) {
        s
    } else {
        seq!['"'] + escape_body(s, 0) + seq!['"']
    }
}

fn push_backslashes(out: &mut String, n: usize)
    ensures
        final(out)@ == old(out)@ + backslashes(n as nat),
{
    let mut k: usize = 0;
    while k < n
        invariant
            k <= n,
            out@ == old(out)@ + backslashes(k as nat),
        decreases n - k,
    {
        text::push_char(out, '\\');
        assert(backslashes((k + 1) as nat) =~= backslashes(k as nat).push('\\'));
        k = k + 1;
    }
}

/// Quotes one argument for a Windows command line (Go's
/// `syscall.EscapeArg`).
pub fn escape_arg(s: &str) -> (r: String)
    ensures
        r@ == escape_arg_spec(s@),
{
    let v = text::chars_vec(s);
    if v.len() == 0 {
        let mut e = String::new();
        text::push_char(&mut e, '"');
        text::push_char(&mut e, '"');
        assert(e@ =~= seq!['"', '"']);
        return e;
    }
    let mut needs = false;
    let mut j: usize = 0;
    while j < v.len()
        invariant
            j <= v@.len(),
            needs == (exists|i: int| 0 <= i < j && needs_quoting(#[trigger] v@[i])),
        decreases v.len() - j,
    {
        if v[j] == ' ' || v[j] == '\t' || v[j] == '"' || v[j] == '\\' {
            needs = true;
        }
        j = j + 1;
    }
    if !needs {
        return s.to_owned();
    }
    let n = v.len();
    let mut out = String::new();
    text::push_char(&mut out, '"');
    let mut pending: usize = 0;
    let mut i: usize = 0;
    assert(v@.subrange(0, n as int) =~= v@);
    while i < n
        invariant
            i <= n == v@.len(),
            pending <= i,
            out@ + escape_body(v@.subrange(i as int, n as int), pending as nat) == seq!['"']
                + escape_body(v@, 0),
        decreases n - i,
    {
        let c = v[i];
        let ghost rest = v@.subrange(i as int, n as int);
        assert(rest[0] == c);
        assert(rest.drop_first() =~= v@.subrange(i + 1, n as int));
        if c == '\\' {
            pending = pending + 1;
        } else if c == '"' {
            let ghost before = out@;
            push_backslashes(&mut out, pending);
            push_backslashes(&mut out, pending);
            text::push_char(&mut out, '\\');
            text::push_char(&mut out, '"');
            assert(backslashes(2 * (pending as nat) + 1) =~= backslashes(pending as nat)
                + backslashes(pending as nat) + seq!['\\']);
            assert(out@ =~= before + backslashes(2 * (pending as nat) + 1) + seq!['"']);
            pending = 0;
        } else {
            let ghost before = out@;
            push_backslashes(&mut out, pending);
            text::push_char(&mut out, c);
            assert(out@ =~= before + backslashes(pending as nat) + seq![c]);
            pending = 0;
        }
        i = i + 1;
    }
    assert(v@.subrange(n as int, n as int) =~= Seq::<char>::empty());
    push_backslashes(&mut out, pending);
    push_backslashes(&mut out, pending);
    assert(backslashes(2 * (pending as nat)) =~= backslashes(pending as nat) + backslashes(
        pending as nat,
    ));
    text::push_char(&mut out, '"');
    out
}

/// One character in UTF-16.
pub open spec fn utf16_units(c: char) -> Seq<u16> {
    let u = c as u32;
    if u < 0x10000 {
        seq![u as u16]
    } else {
        let v = (u - 0x10000) as nat;
        seq![(0xD800 + v / 1024) as u16, (0xDC00 + v % 1024) as u16]
    }
}

/// `s` in UTF-16.
pub open spec fn utf16_encode(s: Seq<char>) -> Seq<u16>
    decreases s.len(),
{
    if s.len() == 0 {
        Seq::empty()
    } else {
        utf16_encode(s.drop_last()) + utf16_units(s.last())
    }
}

/// `s` as a NUL-terminated wide string for the Win32 API.
pub fn to_wide_str(s: &str) -> (r: Vec<u16>)
    ensures
        r@ == utf16_encode(s@).push(0),
{
    let v = text::chars_vec(s);
    let mut out: Vec<u16> = Vec::new();
    let mut i: usize = 0;
    while i < v.len()
        invariant
            i <= v@.len(),
            out@ == utf16_encode(v@.take(i as int)),
        decreases v.len() - i,
    {
        let u = v[i] as u32;
        assert(v@.take(i + 1).drop_last() =~= v@.take(i as int));
        if u < 0x10000 {
            out.push(u as u16);
        } else {
            let w = u - 0x10000;
            out.push((0xD800 + w / 1024) as u16);
            out.push((0xDC00 + w % 1024) as u16);
        }
        assert(out@ =~= utf16_encode(v@.take(i + 1)));
        i = i + 1;
    }
    assert(v@.take(v@.len() as int) =~= v@);
    out.push(0);
    out
}

/// Words joined by single spaces.
pub open spec fn join_spaces(words: Seq<Seq<char>>) -> Seq<char>
    decreases words.len(),
{
    if words.len() == 0 {
        Seq::empty()
    } else if words.len() == 1 {
        words[0]
    } else {
        join_spaces(words.drop_last()) + seq![' '] + words.last()
    }
}

/// The elevated relaunch's parameter string: each argument quoted with
/// `escape_arg`, joined by spaces.
pub fn relaunch_parameters(args: &Vec<String>) -> (r: String)
    ensures
        r@ == join_spaces(args.deep_view().map_values(|a: Seq<char>| escape_arg_spec(a))),
{
    let ghost q = args.deep_view().map_values(|a: Seq<char>| escape_arg_spec(a));
    let mut out = String::new();
    let mut i: usize = 0;
    while i < args.len()
        invariant
            i <= args@.len(),
            q == args.deep_view().map_values(|a: Seq<char>| escape_arg_spec(a)),
            out@ == join_spaces(q.take(i as int)),
        decreases args.len() - i,
    {
        let e = escape_arg(args[i].as_str());
        assert(q.take(i + 1).drop_last() =~= q.take(i as int));
        assert(q[i as int] == e@);
        if i > 0 {
            text::push_char(&mut out, ' ');
        } else {
            assert(out@ =~= Seq::<char>::empty());
        }
        text::append_str(&mut out, e.as_str());
        assert(out@ =~= join_spaces(q.take(i + 1)));
        i = i + 1;
    }
    assert(q.take(args@.len() as int) =~= q);
    out
}


/// How the C runtime of the started process splits its command line into
/// arguments, from the point where it is `in_quotes` (or not), has seen
/// `bs` backslashes that it has not yet placed, has built `cur` of the
/// current argument and has (`started`) or has not begun one: a run of
/// backslashes is literal unless a quote follows it; before a quote each
/// pair of backslashes gives one, and an odd one left over makes the quote
/// literal, while an even run lets the quote open or close a quoted part
/// (inside quotes, `""` stands for one literal quote); a space or tab
/// outside quotes ends the argument.
pub open spec fn argv_from(
    t: Seq<char>,
    in_quotes: bool,
    bs: nat,
    cur: Seq<char>,
    started: bool,
) -> Seq<Seq<char>>
    decreases t.len(),
{
    if t.len() == 0 {
        if started {
            seq![cur + backslashes(bs)]
        } else {
            Seq::empty()
        }
    } else {
        let c = t[0];
        let r = t.drop_first();
        if c == '\\' {
            argv_from(r, in_quotes, bs + 1, cur, true)
        } else if c == '"' {
            if bs % 2 == 1 {
                argv_from(r, in_quotes, 0, cur + backslashes(bs / 2) + seq!['"'], true)
            } else if in_quotes && r.len() > 0 && r[0] == '"' {
                argv_from(r.drop_first(), true, 0, cur + backslashes(bs / 2) + seq!['"'], true)
            } else {
                argv_from(r, !in_quotes, 0, cur + backslashes(bs / 2), true)
            }
        } else if !in_quotes && (c == ' ' || c == '\t') {
            if started {
                seq![cur + backslashes(bs)] + argv_from(r, false, 0, Seq::empty(), false)
            } else {
                argv_from(r, false, 0, Seq::empty(), false)
            }
        } else {
            argv_from(r, in_quotes, 0, cur + backslashes(bs) + seq![c], true)
        }
    }
}

/// The arguments that the C runtime reads from a parameter string.
pub open spec fn parse_parameters(t: Seq<char>) -> Seq<Seq<char>> {
    argv_from(t, false, 0, Seq::empty(), false)
}

/// Reading `k` backslashes only adds them to the run not yet placed.
proof fn lemma_argv_backslashes(
    k: nat,
    t: Seq<char>,
    q: bool,
    b: nat,
    cur: Seq<char>,
    st: bool,
)
    ensures
        argv_from(backslashes(k) + t, q, b, cur, st) == argv_from(t, q, b + k, cur, st || k > 0),
    decreases k,
{
    if k > 0 {
        let u = backslashes(k) + t;
        assert(u[0] == '\\');
        assert(u.drop_first() =~= backslashes((k - 1) as nat) + t);
        lemma_argv_backslashes((k - 1) as nat, t, q, b + 1, cur, true);
    } else {
        assert(backslashes(k) + t =~= t);
    }
}

/// Inside quotes, the escaped rest of an argument with `p` backslashes held
/// back, then the closing quote, give that argument whole, and the parser
/// leaves the quotes.
proof fn lemma_argv_escape_body(
    s: Seq<char>,
    p: nat,
    cur: Seq<char>,
    rest: Seq<char>,
)
    requires
        rest.len() == 0 || rest[0] != '"',
    ensures
        argv_from(escape_body(s, p) + seq!['"'] + rest, true, 0, cur, true) == argv_from(
            rest,
            false,
            0,
            cur + backslashes(p) + s,
            true,
        ),
    decreases s.len(),
{
    if s.len() == 0 {
        let tail = seq!['"'] + rest;
        assert(escape_body(s, p) + seq!['"'] + rest =~= backslashes(2 * p) + tail);
        lemma_argv_backslashes(2 * p, tail, true, 0, cur, true);
        assert(tail[0] == '"');
        assert(tail.drop_first() =~= rest);
        assert((2 * p) % 2 == 0 && (2 * p) / 2 == p) by (nonlinear_arith);
        assert(cur + backslashes(p) + s =~= cur + backslashes(p));
    } else {
        let c = s[0];
        let s2 = s.drop_first();
        if c == '\\' {
            lemma_argv_escape_body(s2, p + 1, cur, rest);
            assert(backslashes(p) + s =~= backslashes(p + 1) + s2);
            assert(cur + backslashes(p) + s =~= cur + backslashes(p + 1) + s2);
        } else if c == '"' {
            let cur2 = cur + backslashes(p) + seq!['"'];
            let tail = seq!['"'] + (escape_body(s2, 0) + seq!['"'] + rest);
            assert(escape_body(s, p) + seq!['"'] + rest =~= backslashes(2 * p + 1) + tail);
            lemma_argv_backslashes(2 * p + 1, tail, true, 0, cur, true);
            assert(tail[0] == '"');
            assert(tail.drop_first() =~= escape_body(s2, 0) + seq!['"'] + rest);
            assert((2 * p + 1) % 2 == 1 && (2 * p + 1) / 2 == p) by (nonlinear_arith);
            lemma_argv_escape_body(s2, 0, cur2, rest);
            assert(cur2 + backslashes(0) + s2 =~= cur + backslashes(p) + s);
        } else {
            let cur2 = cur + backslashes(p) + seq![c];
            let tail = seq![c] + (escape_body(s2, 0) + seq!['"'] + rest);
            assert(escape_body(s, p) + seq!['"'] + rest =~= backslashes(p) + tail);
            lemma_argv_backslashes(p, tail, true, 0, cur, true);
            assert(tail[0] == c);
            assert(tail.drop_first() =~= escape_body(s2, 0) + seq!['"'] + rest);
            lemma_argv_escape_body(s2, 0, cur2, rest);
            assert(cur2 + backslashes(0) + s2 =~= cur + backslashes(p) + s);
        }
    }
}

/// Characters with no special meaning outside quotes pass straight into the
/// current argument.
proof fn lemma_argv_plain(u: Seq<char>, t: Seq<char>, cur: Seq<char>, st: bool)
    requires
        forall|i: int| 0 <= i < u.len() ==> !needs_quoting(#[trigger] u[i]),
    ensures
        argv_from(u + t, false, 0, cur, st) == argv_from(t, false, 0, cur + u, st || u.len() > 0),
    decreases u.len(),
{
    if u.len() == 0 {
        assert(u + t =~= t);
        assert(cur + u =~= cur);
    } else {
        let w = u + t;
        assert(w[0] == u[0]);
        assert(!needs_quoting(u[0]));
        assert(w.drop_first() =~= u.drop_first() + t);
        assert(cur + backslashes(0) + seq![u[0]] =~= cur + seq![u[0]]);
        lemma_argv_plain(u.drop_first(), t, cur + seq![u[0]], true);
        assert(cur + seq![u[0]] + u.drop_first() =~= cur + u);
    }
}

/// One escaped argument, followed by nothing or by a space, is read back as
/// that argument.
proof fn lemma_argv_escaped_word(s: Seq<char>, t: Seq<char>)
    requires
        t.len() == 0 || t[0] == ' ',
    ensures
        argv_from(escape_arg_spec(s) + t, false, 0, Seq::empty(), false) == argv_from(
            t,
            false,
            0,
            s,
            true,
        ),
{
    if s.len() == 0 {
        let w = escape_arg_spec(s) + t;
        let e = Seq::<char>::empty();
        assert(w[0] == '"');
        let w1 = w.drop_first();
        assert(w1[0] == '"');
        assert(w1.drop_first() =~= t);
        assert(e + backslashes(0) =~= e);
        assert(argv_from(w, false, 0, e, false) == argv_from(w1, true, 0, e, true));
        assert(argv_from(w1, true, 0, e, true) == argv_from(t, false, 0, e, true));
        assert(e =~= s);
    } else if !(exists|i: int| 0 <= i < s.len() && needs_quoting(#[trigger] s[i])) {
        lemma_argv_plain(s, t, Seq::empty(), false);
        assert(Seq::<char>::empty() + s =~= s);
    } else {
        let w = escape_arg_spec(s) + t;
        let e = Seq::<char>::empty();
        assert(w[0] == '"');
        assert(w.drop_first() =~= escape_body(s, 0) + seq!['"'] + t);
        assert(e + backslashes(0) =~= e);
        assert(argv_from(w, false, 0, e, false) == argv_from(w.drop_first(), true, 0, e, true));
        lemma_argv_escape_body(s, 0, e, t);
        assert(e + backslashes(0) + s =~= s);
    }
}

/// Joining at least two words puts the first in front of the rest.
proof fn lemma_join_spaces_front(words: Seq<Seq<char>>)
    requires
        words.len() >= 2,
    ensures
        join_spaces(words) == words[0] + seq![' '] + join_spaces(words.drop_first()),
    decreases words.len(),
{
    let dl = words.drop_last();
    let df = words.drop_first();
    if words.len() > 2 {
        lemma_join_spaces_front(dl);
        assert(dl.drop_first() =~= df.drop_last());
        assert(df.last() == words.last());
        assert(dl[0] == words[0]);
        assert(join_spaces(df) == join_spaces(df.drop_last()) + seq![' '] + df.last());
        assert(join_spaces(words) == join_spaces(dl) + seq![' '] + words.last());
        assert(join_spaces(words) =~= words[0] + seq![' '] + join_spaces(df));
    } else {
        assert(dl.len() == 1);
        assert(df.len() == 1);
        assert(join_spaces(dl) == dl[0]);
        assert(join_spaces(df) == df[0]);
        assert(join_spaces(words) == join_spaces(dl) + seq![' '] + words.last());
        assert(join_spaces(words) =~= words[0] + seq![' '] + join_spaces(df));
    }
}

/// The escaped arguments, joined by spaces, are read back by the started
/// process as exactly the original arguments.
pub proof fn lemma_parameters_parse_back(args: Seq<Seq<char>>)
    ensures
        parse_parameters(join_spaces(args.map_values(|a: Seq<char>| escape_arg_spec(a)))) == args,
    decreases args.len(),
{
    let ws = args.map_values(|a: Seq<char>| escape_arg_spec(a));
    if args.len() == 0 {
        assert(join_spaces(ws) =~= Seq::<char>::empty());
        assert(parse_parameters(join_spaces(ws)) =~= args);
    } else if args.len() == 1 {
        assert(join_spaces(ws) == ws[0]);
        lemma_argv_escaped_word(args[0], Seq::empty());
        assert(escape_arg_spec(args[0]) + Seq::<char>::empty() =~= ws[0]);
        assert(args[0] + backslashes(0) =~= args[0]);
        assert(parse_parameters(join_spaces(ws)) =~= args);
    } else {
        let rest = args.drop_first();
        let wr = rest.map_values(|a: Seq<char>| escape_arg_spec(a));
        assert(ws.drop_first() =~= wr);
        lemma_join_spaces_front(ws);
        let t = seq![' '] + join_spaces(wr);
        assert(join_spaces(ws) =~= escape_arg_spec(args[0]) + t);
        lemma_argv_escaped_word(args[0], t);
        assert(t.drop_first() =~= join_spaces(wr));
        lemma_parameters_parse_back(rest);
        assert(args[0] + backslashes(0) =~= args[0]);
        assert(args =~= seq![args[0]] + rest);
    }
}

} // verus!
