//! Combat statistics of one combatant.

use vstd::prelude::*;

use crate::num::VALUE_CAP;
use crate::profile::TUNABLE_CAP;

verus! {

/// Combat statistics of one combatant.
///
/// Speeds are milli-units per second, durations milliseconds; the damage
/// multiplier is a percentage, with `100` meaning unchanged damage.
#[derive(Clone, Copy, PartialEq, Eq, Structural, Debug)]
pub struct PlayerStats {
    /// Walking speed.
    pub speed: i64,
    /// Health left; the combatant dies when it reaches zero.
    pub current_health: i64,
    /// Health ceiling.
    pub max_health: i64,
    /// Percentage applied to incoming damage.
    pub damages_multiplier: i64,
    /// Flat amount added to incoming damage.
    pub damages_added: i64,
    /// How long a dodge roll lasts.
    pub roll_duration: i64,
    /// Movement speed during a dodge roll.
    pub roll_speed: i64,
}

impl PlayerStats {
    /// Well-formedness: health inside its ceiling, every tunable capped.
    pub open spec fn wf(self) -> bool {
        &&& 0 <= self.speed <= TUNABLE_CAP
        &&& 0 <= self.max_health <= TUNABLE_CAP
        &&& -VALUE_CAP <= self.current_health <= self.max_health
        &&& 0 <= self.damages_multiplier <= TUNABLE_CAP
        &&& 0 <= self.damages_added <= TUNABLE_CAP
        &&& 1 <= self.roll_duration <= TUNABLE_CAP
        &&& 0 <= self.roll_speed <= TUNABLE_CAP
    }

    /// The value [`PlayerStats::default`] returns.
    pub open spec fn default_spec() -> PlayerStats {
        PlayerStats {
            speed: 50_000,
            current_health: 100,
            max_health: 100,
            damages_multiplier: 100,
            damages_added: 0,
            roll_duration: 500,
            roll_speed: 75_000,
        }
    }

    /// A combatant is dead once its health is exhausted.
    pub open spec fn dead_spec(self) -> bool {
        self.current_health <= 0
    }
}

impl Default for PlayerStats {
    /// The baseline combatant.
    fn default() -> (r: PlayerStats)
        ensures
            r == PlayerStats::default_spec(),
            r.wf(),
    {
        PlayerStats {
            speed: 50_000,
            current_health: 100,
            max_health: 100,
            damages_multiplier: 100,
            damages_added: 0,
            roll_duration: 500,
            roll_speed: 75_000,
        }
    }
}

/// Whether the despawn pass removes this combatant.
pub fn player_death(stats: &PlayerStats) -> (r: bool)
    ensures
        r == stats.dead_spec(),
{
    stats.current_health <= 0
}

} // verus!
