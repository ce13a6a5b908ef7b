use vstd::prelude::*;

verus! {

/// Score points per step of speed-up.
pub const SCORE_PER_STEP: u64 = 100;

/// The longest wait between two ticks, in microseconds.
pub const SLOWEST_WAIT: u64 = 5000;

/// How much shorter the wait is in speed mode.
pub const SPEEDY_DIVISOR: u64 = 1000;

/// The wait before the next tick, in microseconds: it shrinks by one for every
/// hundred points until it bottoms out at one, and speed mode divides it by a
/// thousand.
pub open spec fn wait_micros(score: u64, speedy: bool) -> int {
    let base = score / SCORE_PER_STEP;
    let raw: int = if base >= SLOWEST_WAIT { 1 } else { SLOWEST_WAIT - base };
    if speedy { raw / (SPEEDY_DIVISOR as int) } else { raw }
}

/// Relies on num's `ToPrimitive::to_u64`, which on a `u64` always succeeds and
/// gives the value back.
#[verifier::external_body]
fn as_u64(v: u64) -> (r: Option<u64>)
    ensures
        r == Some(v),
{
    num::ToPrimitive::to_u64(&v)
}

/// The upper bound on how long the loop waits for input before the next tick.
pub fn compute_wait(score: u64, speedy: bool) -> (r: u64)
    ensures
        r == wait_micros(score, speedy),
{
    let base = as_u64(score / SCORE_PER_STEP).unwrap();
    let raw: u64 = if base >= SLOWEST_WAIT { 1 } else { SLOWEST_WAIT - base };
    if speedy {
        raw / SPEEDY_DIVISOR
    } else {
        raw
    }
}

} // verus!
