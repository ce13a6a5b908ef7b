use vstd::prelude::*;

verus! {

/// Rolls are integers in `[0, CHANCE_SCALE)`: parts per million.
pub const CHANCE_SCALE: i64 = 1000000;

/// Relies on rand's `Rng::gen_range` on the thread-local generator: it returns
/// a value of `[lo, hi)`, and panics only when that range is empty.
#[verifier::external_body]
pub(crate) fn random_in(lo: i64, hi: i64) -> (r: i64)
    requires
        lo < hi,
    ensures
        lo <= r < hi,
{
    rand::Rng::gen_range(&mut rand::thread_rng(), lo..hi)
}

/// A uniform roll in parts per million.
pub fn roll() -> (r: i64)
    ensures
        0 <= r < CHANCE_SCALE,
{
    random_in(0, CHANCE_SCALE)
}

} // verus!
