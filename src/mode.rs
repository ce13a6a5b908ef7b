use vstd::prelude::*;

verus! {

/// Below this score the colors never switch.
pub const SWITCH_FROM_SCORE: u64 = 2000;

/// Dark mode may turn light on multiples of this score.
pub const LIGHT_EVERY: u64 = 1000;

/// Light mode may turn dark on multiples of this score.
pub const DARK_EVERY: u64 = 500;

/// Chance, out of a million, that dark turns light when it may.
pub const LIGHT_CHANCE: i64 = 300000;

/// Chance, out of a million, that the mode turns dark when it may.
pub const DARK_CHANCE: i64 = 700000;

/// Whether switching is in play at all for this score and setting.
pub open spec fn switch_active(score: u64, enabled: bool) -> bool {
    score >= SWITCH_FROM_SCORE && enabled
}

/// Dark mode after the color rule has seen this roll.
pub open spec fn next_dark_mode(score: u64, enabled: bool, dark: bool, roll: i64) -> bool {
    if !switch_active(score, enabled) {
        dark
    } else if dark && score % LIGHT_EVERY == 0 && roll < LIGHT_CHANCE {
        false
    } else if score % DARK_EVERY == 0 && roll < DARK_CHANCE {
        true
    } else {
        dark
    }
}

/// Applies the color rule for one roll.
pub fn mode_after(score: u64, enabled: bool, dark: bool, roll: i64) -> (r: bool)
    ensures
        r == next_dark_mode(score, enabled, dark, roll),
{
    if score < SWITCH_FROM_SCORE || !enabled {
        dark
    } else if dark && score % LIGHT_EVERY == 0 && roll < LIGHT_CHANCE {
        false
    } else if score % DARK_EVERY == 0 && roll < DARK_CHANCE {
        true
    } else {
        dark
    }
}

} // verus!
