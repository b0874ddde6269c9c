//! Randomised waiting intervals: a configured interval is stretched to a
//! random value between 80% and 110% of itself, so that workers sharing a
//! trigger time do not hit the gateway in lockstep.

use vstd::prelude::*;

verus! {

/// The lower end of the jitter window of `base`: four fifths of it,
/// rounded down at the fifth.
pub open spec fn jitter_low(base: u64) -> int {
    (base as int / 5) * 4
}

/// The (exclusive) upper end of the jitter window of `base`: `base` plus a
/// tenth of it.
pub open spec fn jitter_high(base: u64) -> int {
    base as int + base as int / 10
}

/// Relies on rand's `Rng::gen_range` over `thread_rng`: a uniformly drawn
/// value of the half-open range `lo..hi`, which must not be empty.
#[verifier::external_body]
fn draw_in_range(lo: u64, hi: u64) -> (r: u64)
    requires
        lo < hi,
    ensures
        lo <= r < hi,
{
    rand::Rng::gen_range(&mut rand::thread_rng(), lo..hi)
}

/// A random wait derived from `base` milliseconds, drawn from
/// `[jitter_low(base), jitter_high(base))`. Where that window is empty
/// (`base` below 2) the wait is its lower end; where its upper end does not
/// fit in a `u64`, the window is cut at `u64::MAX`.
pub fn jittered_ms(base: u64) -> (r: u64)
    ensures
        jitter_low(base) <= r,
        r <= jitter_high(base),
        jitter_low(base) < jitter_high(base) && jitter_high(base) <= u64::MAX ==> r
            < jitter_high(base),
        jitter_low(base) >= jitter_high(base) ==> r == jitter_low(base),
{
    let fifth = base / 5;
    assert(fifth * 4 <= base) by (nonlinear_arith)
        requires
            fifth == base / 5,
    ;
    let lo = fifth * 4;
    let tenth = base / 10;
    let hi = if base <= u64::MAX - tenth {
        base + tenth
    } else {
        u64::MAX
    };
    if lo < hi {
        draw_in_range(lo, hi)
    } else {
        lo
    }
}

} // verus!
