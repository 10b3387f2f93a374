//! Combat simulation core for a top-down action game.
//!
//! The crate turns per-tick elapsed time and debounced input signals into
//! projectile spawns, ammunition bookkeeping, reload cycles, heat-based
//! overheating and a dodge-roll state that suppresses firing and reloading.
//! All quantities are integers: times are milliseconds, distances and speeds
//! are milli-units, damage multipliers are percentages.

use vstd::prelude::*;

pub mod archetypes;
pub mod bullets;
pub mod collision;
pub mod inventory;
pub mod items;
pub mod laws;
pub mod num;
pub mod profile;
pub mod random;
pub mod reload;
pub mod roll;
pub mod shoot;
pub mod stats;
pub mod tick;

verus! {

/// Largest per-tick time step the simulation accepts, in milliseconds.
pub const MAX_TICK_MS: i64 = 1_000_000;

/// Cap on accumulated timers and heat, in milliseconds.  Comparisons against
/// the tunable thresholds are unaffected once a timer passes this value.
pub const TIME_CAP_MS: i64 = 1_000_000_000_000_000;

/// Saturating addition of a time quantum onto an accumulator, capped at
/// [`TIME_CAP_MS`].
pub fn accumulate_ms(acc: i64, dt: i64) -> (r: i64)
    requires
        0 <= acc <= TIME_CAP_MS,
        0 <= dt <= TIME_CAP_MS,
    ensures
        r == accumulate_ms_spec(acc, dt),
{
    if acc + dt > TIME_CAP_MS {
        TIME_CAP_MS
    } else {
        acc + dt
    }
}

/// What [`accumulate_ms`] returns: `acc + dt`, saturated at [`TIME_CAP_MS`].
pub open spec fn accumulate_ms_spec(acc: i64, dt: i64) -> i64 {
    if acc + dt > TIME_CAP_MS {
        TIME_CAP_MS
    } else {
        (acc + dt) as i64
    }
}

} // verus!
