//! Pacing of automatic reconnects: exponential back-off held between a
//! floor and a cap, with a random spread of a fifth either way.
//!
//! All delays are in milliseconds.

use vstd::prelude::*;

use rand::Rng;

use crate::text;

verus! {

/// First reconnect delay when none is configured.
pub const DEFAULT_RETRY_BASE_DELAY: u64 = 1000;

/// Longest reconnect delay when none is configured.
pub const DEFAULT_RETRY_MAX_DELAY: u64 = 60000;

/// No reconnect waits less than this (unless the cap is lower).
pub const RETRY_FLOOR: u64 = 1000;

/// The delay that doubling starts from: the base, or the floor for a zero base.
pub open spec fn start_delay(base: u64) -> nat {
    if base == 0 {
        RETRY_FLOOR as nat
    } else {
        base as nat
    }
}

/// The cap in force: `max`, or the default for a zero `max`.
pub open spec fn effective_cap(max: u64) -> nat {
    if max == 0 {
        DEFAULT_RETRY_MAX_DELAY as nat
    } else {
        max as nat
    }
}

/// `steps` doublings of `delay`, each held to `cap`; doubling stops once
/// the delay has reached the cap.
pub open spec fn grow(delay: nat, cap: nat, steps: nat) -> nat
    decreases steps,
{
    if steps == 0 || delay >= cap {
        delay
    } else {
        grow(if 2 * delay > cap { cap } else { 2 * delay }, cap, (steps - 1) as nat)
    }
}

/// The un-jittered delay before attempt `attempt` (attempts count from 1).
pub open spec fn backoff(attempt: u32, base: u64, max: u64) -> nat {
    grow(
        start_delay(base),
        effective_cap(max),
        if attempt >= 1 {
            (attempt - 1) as nat
        } else {
            0
        },
    )
}

/// A jittered delay raised to the floor, then held to the cap.
pub open spec fn clamp_delay(d: nat, cap: nat) -> nat {
    let r = if d < RETRY_FLOOR { RETRY_FLOOR as nat } else { d };
    if r > cap {
        cap
    } else {
        r
    }
}

/// Doubling never goes past the larger of the start and the cap.
pub proof fn lemma_grow_bounded(delay: nat, cap: nat, steps: nat)
    ensures
        grow(delay, cap, steps) <= if delay >= cap { delay } else { cap },
        delay <= grow(delay, cap, steps),
    decreases steps,
{
    if steps > 0 && delay < cap {
        let next = if 2 * delay > cap { cap } else { 2 * delay };
        lemma_grow_bounded(next, cap, (steps - 1) as nat);
    }
}

/// One more doubling step never shortens the delay.
pub proof fn lemma_grow_step_monotone(delay: nat, cap: nat, steps: nat)
    ensures
        grow(delay, cap, steps) <= grow(delay, cap, steps + 1),
    decreases steps,
{
    if delay < cap {
        let next = if 2 * delay > cap { cap } else { 2 * delay };
        if steps == 0 {
            lemma_grow_bounded(next, cap, 0);
        } else {
            lemma_grow_step_monotone(next, cap, (steps - 1) as nat);
        }
    }
}

/// A later attempt never waits less than an earlier one (before jitter).
pub proof fn lemma_backoff_monotone(a1: u32, a2: u32, base: u64, max: u64)
    requires
        a1 <= a2,
    ensures
        backoff(a1, base, max) <= backoff(a2, base, max),
    decreases a2 - a1,
{
    if a1 < a2 {
        lemma_backoff_monotone(a1, (a2 - 1) as u32, base, max);
        let s = start_delay(base);
        let c = effective_cap(max);
        if a2 >= 2 {
            lemma_grow_step_monotone(s, c, (a2 - 2) as nat);
        }
    }
}

/// Before the cap is reached, each attempt doubles the delay: attempt `n`
/// waits `start * 2^(n-1)`, held to the cap.
pub proof fn lemma_backoff_doubles(attempt: u32, base: u64, max: u64)
    requires
        attempt >= 1,
        start_delay(base) <= effective_cap(max),
    ensures
        backoff(attempt, base, max) == {
            let d = start_delay(base) * vstd::arithmetic::power2::pow2((attempt - 1) as nat);
            if d > effective_cap(max) {
                effective_cap(max)
            } else {
                d
            }
        },
{
    lemma_grow_closed_form(start_delay(base), effective_cap(max), (attempt - 1) as nat);
}

proof fn lemma_grow_closed_form(delay: nat, cap: nat, steps: nat)
    requires
        delay <= cap,
    ensures
        grow(delay, cap, steps) == {
            let d = delay * vstd::arithmetic::power2::pow2(steps);
            if d > cap {
                cap
            } else {
                d
            }
        },
    decreases steps,
{
    vstd::arithmetic::power2::lemma_pow2_pos(steps);
    if steps == 0 {
        vstd::arithmetic::power2::lemma_pow2(0);
        vstd::arithmetic::power::lemma_pow0(2);
    } else {
        let p = vstd::arithmetic::power2::pow2((steps - 1) as nat);
        vstd::arithmetic::power2::lemma_pow2_unfold(steps);
        vstd::arithmetic::power2::lemma_pow2_pos((steps - 1) as nat);
        assert(delay * vstd::arithmetic::power2::pow2(steps) == (2 * delay) * p) by (nonlinear_arith)
            requires
                vstd::arithmetic::power2::pow2(steps) == 2 * p,
        ;
        if delay >= cap {
            assert(delay * vstd::arithmetic::power2::pow2(steps) >= delay) by (nonlinear_arith)
                requires
                    vstd::arithmetic::power2::pow2(steps) >= 1,
            ;
        } else if 2 * delay > cap {
            lemma_grow_closed_form(cap, cap, (steps - 1) as nat);
            assert(cap * p >= cap) by (nonlinear_arith)
                requires
                    p >= 1,
            ;
            assert((2 * delay) * p >= 2 * delay) by (nonlinear_arith)
                requires
                    p >= 1,
            ;
        } else {
            lemma_grow_closed_form(2 * delay, cap, (steps - 1) as nat);
        }
    }
}

/// The delay before reconnect attempt `attempt`.
///
/// Starting from `base` (the floor when zero), the delay doubles once per
/// earlier attempt, held to `max` (the default cap when zero); `jitter`
/// then perturbs it, and the result is raised to the floor and held to
/// the cap.
pub fn next_retry_delay<F: Fn(u64, u32) -> u64>(attempt: u32, base: u64, max: u64, jitter: F) -> (r: u64)
    requires
        forall|d: u64, a: u32| jitter.requires((d, a)),
    ensures
        exists|j: u64|
            jitter.ensures((backoff(attempt, base, max) as u64, attempt), j) && r == clamp_delay(
                j as nat,
                effective_cap(max),
            ),
        r <= effective_cap(max),
        r >= RETRY_FLOOR || r == effective_cap(max),
{
    let mut delay: u64 = if base == 0 {
        RETRY_FLOOR
    } else {
        base
    };
    let cap: u64 = if max == 0 {
        DEFAULT_RETRY_MAX_DELAY
    } else {
        max
    };
    let mut i: u32 = 1;
    while i < attempt
        invariant
            1 <= i,
            attempt >= 1 ==> i <= attempt,
            cap == effective_cap(max),
            grow(
                delay as nat,
                cap as nat,
                if attempt >= i {
                    (attempt - i) as nat
                } else {
                    0
                },
            ) == backoff(attempt, base, max),
        ensures
            delay == backoff(attempt, base, max),
        decreases attempt - i,
    {
        if delay >= cap {
            break;
        }
        let doubled: u64 = if delay > u64::MAX / 2 {
            u64::MAX
        } else {
            delay * 2
        };
        delay = if doubled > cap {
            cap
        } else {
            doubled
        };
        i = i + 1;
    }
    let j = jitter(delay, attempt);
    let mut r: u64 = j;
    if r < RETRY_FLOOR {
        r = RETRY_FLOOR;
    }
    if r > cap {
        r = cap;
    }
    assert(r == clamp_delay(j as nat, effective_cap(max)));
    assert(jitter.ensures((backoff(attempt, base, max) as u64, attempt), j) && r == clamp_delay(
        j as nat,
        effective_cap(max),
    ));
    r
}

/// The identity jitter: the delay unchanged.
pub fn no_jitter(delay: u64, attempt: u32) -> (r: u64)
    ensures
        r == delay,
{
    delay
}

/// A number drawn uniformly from `lo..=hi` (`rand::Rng::gen_range` on the
/// thread-local generator).
#[verifier::external_body]
pub(crate) fn random_in_range(lo: u64, hi: u64) -> (r: u64)
    requires
        lo <= hi,
    ensures
        lo <= r <= hi,
{
    rand::thread_rng().gen_range(lo..=hi)
}

/// What the default jitter does with `delay`: a fixed result, or a draw
/// from an inclusive range.
#[derive(Debug, Clone, Copy, PartialEq, Eq, Structural)]
pub enum JitterDraw {
    Fixed(u64),
    Range(u64, u64),
}

/// A zero delay becomes the floor; a delay too short to spread stays as
/// it is; otherwise the draw covers a fifth of it either way (capped at
/// the largest `u64`).
pub open spec fn jitter_draw_spec(delay: u64) -> JitterDraw {
    let spread = delay / 5;
    if delay == 0 {
        JitterDraw::Fixed(RETRY_FLOOR)
    } else if spread == 0 {
        JitterDraw::Fixed(delay)
    } else {
        JitterDraw::Range(
            (delay - spread) as u64,
            if delay + spread > u64::MAX { u64::MAX } else { (delay + spread) as u64 },
        )
    }
}

/// The draw the default jitter makes for `delay`.
pub fn jitter_draw(delay: u64) -> (r: JitterDraw)
    ensures
        r == jitter_draw_spec(delay),
{
    if delay == 0 {
        return JitterDraw::Fixed(RETRY_FLOOR);
    }
    let spread: u64 = delay / 5;
    if spread == 0 {
        return JitterDraw::Fixed(delay);
    }
    let hi: u64 = if delay > u64::MAX - spread {
        u64::MAX
    } else {
        delay + spread
    };
    JitterDraw::Range(delay - spread, hi)
}

/// Spreads `delay` at random by up to a fifth either way; a zero delay
/// becomes the floor. Which value inside the range comes out is chance.
pub fn default_jitter(delay: u64, attempt: u32) -> (r: u64)
    ensures
        match jitter_draw_spec(delay) {
            JitterDraw::Fixed(v) => r == v,
            JitterDraw::Range(lo, hi) => lo <= r <= hi,
        },
        delay == 0 ==> r == RETRY_FLOOR,
        delay > 0 ==> delay - delay / 5 <= r <= delay + delay / 5,
{
    match jitter_draw(delay) {
        JitterDraw::Fixed(v) => v,
        JitterDraw::Range(lo, hi) => random_in_range(lo, hi),
    }
}

/// Whole seconds of `ms`, rounded half up.
pub open spec fn rounded_seconds(ms: nat) -> nat {
    (ms + 500) / 1000
}

/// How a delay is shown to the user: under half a second as the raw
/// duration (`0ns`, `250ms`), under a minute in seconds, else in minutes
/// and seconds.
pub open spec fn format_delay_spec(ms: nat) -> Seq<char> {
    let secs = rounded_seconds(ms);
    if secs == 0 {
        if ms == 0 {
            "0ns"@
        } else {
            text::decimal(ms) + "ms"@
        }
    } else if secs < 60 {
        text::decimal(secs) + " 秒"@
    } else if secs % 60 == 0 {
        text::decimal(secs / 60) + " 分钟"@
    } else {
        text::decimal(secs / 60) + " 分 "@ + text::decimal(secs % 60) + " 秒"@
    }
}

/// The user-facing text for a reconnect delay.
pub fn format_retry_delay(delay: u64) -> (r: String)
    ensures
        r@ == format_delay_spec(delay as nat),
{
    let secs: u64 = delay / 1000 + if delay % 1000 >= 500 {
        1
    } else {
        0
    };
    assert(secs == rounded_seconds(delay as nat));
    let mut out = String::new();
    if secs == 0 {
        if delay == 0 {
            text::append_str(&mut out, "0ns");
        } else {
            text::push_decimal(&mut out, delay);
            text::append_str(&mut out, "ms");
        }
    } else if secs < 60 {
        text::push_decimal(&mut out, secs);
        text::append_str(&mut out, " 秒");
    } else if secs % 60 == 0 {
        text::push_decimal(&mut out, secs / 60);
        text::append_str(&mut out, " 分钟");
    } else {
        text::push_decimal(&mut out, secs / 60);
        text::append_str(&mut out, " 分 ");
        text::push_decimal(&mut out, secs % 60);
        text::append_str(&mut out, " 秒");
    }
    out
}

} // verus!
