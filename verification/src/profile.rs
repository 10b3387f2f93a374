//! The per-weapon record: tunable constants and mutable runtime counters.

use vstd::prelude::*;

use crate::MAX_TICK_MS;
use crate::TIME_CAP_MS;
use crate::accumulate_ms;
use crate::accumulate_ms_spec;

verus! {

/// Cap on every tunable constant of a weapon archetype.
pub const TUNABLE_CAP: i64 = 1_000_000_000;

/// How a weapon decides to start and flush bursts.
#[derive(Clone, Copy, PartialEq, Eq, Structural, Debug)]
pub enum ShootStrategy {
    /// Bursts start on the trigger's rising edge only.
    Manual,
    /// Bursts start whenever the trigger is held.
    Auto,
    /// Heat builds while held; the burst fires on release, scaled by heat.
    Charging,
    /// Fires while held and warm; breaks when heat passes the limit.
    Overheat,
}

/// How a weapon moves ammunition from the reserve into the magazine.
#[derive(Clone, Copy, PartialEq, Eq, Structural, Debug)]
pub enum ReloadStrategy {
    /// One transfer fills the magazine after `reload_time` has elapsed.
    Basic,
    /// Each elapsed `reload_time` moves a single round; must be re-triggered.
    PerRound,
    /// Reloading ends at once and transfers nothing; heat decay stands in.
    NoReload,
}

/// Debounced state of one input action for the current tick.
#[derive(Clone, Copy, PartialEq, Eq, Structural, Debug)]
pub struct TriggerSignal {
    /// The action is held down during this tick.
    pub pressed: bool,
    /// The action went down this very tick.
    pub just_pressed: bool,
    /// The action went up this very tick.
    pub just_released: bool,
}

impl TriggerSignal {
    /// Edge and level reports agree with each other.
    pub open spec fn wf(self) -> bool {
        (self.just_pressed ==> self.pressed) && (self.just_released ==> !self.pressed)
    }

    /// A signal that is neither held nor changing.
    pub fn idle() -> (r: TriggerSignal)
        ensures
            r == (TriggerSignal { pressed: false, just_pressed: false, just_released: false }),
    {
        TriggerSignal { pressed: false, just_pressed: false, just_released: false }
    }

    /// A held signal, rising this tick iff `rising`.
    pub fn held(rising: bool) -> (r: TriggerSignal)
        ensures
            r == (TriggerSignal { pressed: true, just_pressed: rising, just_released: false }),
    {
        TriggerSignal { pressed: true, just_pressed: rising, just_released: false }
    }

    /// A signal released this very tick.
    pub fn released() -> (r: TriggerSignal)
        ensures
            r == (TriggerSignal { pressed: false, just_pressed: false, just_released: true }),
    {
        TriggerSignal { pressed: false, just_pressed: false, just_released: true }
    }
}

/// A quarter turn, in milliradians.
pub const QUARTER_TURN_MRAD: i64 = 1_570;

/// Whether the weapon sprite is mirrored: the aim points into the left
/// half-plane once its angle leaves the quarter turn on either side.  The
/// rendering collaborator consumes this flag; nothing in the simulation
/// reads it back.
pub fn update_gun_angle(aim_mrad: i64) -> (flip: bool)
    requires
        -TUNABLE_CAP <= aim_mrad <= TUNABLE_CAP,
    ensures
        flip == (aim_mrad > QUARTER_TURN_MRAD || aim_mrad < -QUARTER_TURN_MRAD),
{
    aim_mrad > QUARTER_TURN_MRAD || aim_mrad < -QUARTER_TURN_MRAD
}

/// Tunable constants plus mutable runtime counters of one weapon.
///
/// Times are milliseconds, lengths and speeds are milli-units, angles are
/// milliradians.  `heat`, `min_heat` and `max_heat` share the millisecond
/// scale of the timers that feed them.
#[derive(Clone, Copy, PartialEq, Eq, Structural, Debug)]
pub struct WeaponProfile {
    /// Half-width of the random angle offset given to each bullet.
    pub spread: i64,
    /// Base bullet speed.
    pub speed: i64,
    /// Half-width of the random speed offset given to each bullet.
    pub speed_spread: i64,
    /// Travel distance budget given to each bullet.
    pub distance: i64,
    /// Bullets spawned by one shot.
    pub salve: i64,
    /// Shots per full burst.
    pub min_shot: i64,
    /// Shots remaining in the active burst; zero when idle.
    pub left_to_fire: i64,
    /// Size of the active burst when it started; zero when idle.
    pub burst_len: i64,
    /// Damage carried by each spawned bullet.
    pub damage: i64,
    /// Reserve ammunition.
    pub ammo: i64,
    /// Reserve capacity.
    pub max_ammo: i64,
    /// The reserve never empties.
    pub infinite: bool,
    /// Rounds in the magazine.
    pub mag_ammo: i64,
    /// Magazine capacity.
    pub mag_size: i64,
    /// Time a reload takes, or one round of a per-round reload.
    pub reload_time: i64,
    /// Burst-start gate, in milli-bursts per second: a burst may start once
    /// `1_000_000 / fire_rate` milliseconds have passed.
    pub fire_rate: i64,
    /// Intra-burst gate, in milli-shots per second.
    pub sub_fire_rate: i64,
    /// Accumulated sustained-fire buildup.
    pub heat: i64,
    /// Heat needed before a charging or overheating weapon fires.
    pub min_heat: i64,
    /// Heat beyond which the weapon breaks.
    pub max_heat: i64,
    /// Disabled by overheating until heat decays to exactly zero.
    pub broken: bool,
    /// Time since the last burst start or shot, fed each tick.
    pub timer: i64,
    /// Burst decision logic of this archetype.
    pub shoot: ShootStrategy,
    /// Ammunition transfer logic of this archetype.
    pub reload: ReloadStrategy,
}

impl WeaponProfile {
    /// Well-formedness: counters sit inside their capacities and every
    /// tunable inside [`TUNABLE_CAP`].
    pub open spec fn wf(self) -> bool {
        &&& 0 <= self.spread <= TUNABLE_CAP
        &&& 0 <= self.speed_spread <= self.speed <= TUNABLE_CAP
        &&& 0 <= self.distance <= TUNABLE_CAP
        &&& 1 <= self.salve <= TUNABLE_CAP
        &&& 1 <= self.min_shot <= TUNABLE_CAP
        &&& 0 <= self.left_to_fire <= self.burst_len <= self.min_shot
        &&& 0 <= self.damage <= TUNABLE_CAP
        &&& 0 <= self.ammo <= self.max_ammo <= TUNABLE_CAP
        &&& 0 <= self.mag_ammo <= self.mag_size <= TUNABLE_CAP
        &&& 1 <= self.reload_time <= TUNABLE_CAP
        &&& 1 <= self.fire_rate <= TUNABLE_CAP
        &&& 1 <= self.sub_fire_rate <= TUNABLE_CAP
        &&& 0 <= self.heat <= TIME_CAP_MS
        &&& 0 <= self.min_heat <= TUNABLE_CAP
        &&& 0 <= self.max_heat
        &&& (self.broken ==> self.heat > 0)
        &&& (self.broken ==> self.left_to_fire == 0)
        &&& 0 <= self.timer <= TIME_CAP_MS
    }

    /// Milliseconds that must pass before a new burst may start.
    pub open spec fn fire_gate_ms(self) -> int
        recommends
            self.fire_rate >= 1,
    {
        1_000_000 as int / self.fire_rate as int
    }

    /// Milliseconds that must pass between two shots of one burst.
    pub open spec fn sub_fire_gate_ms(self) -> int
        recommends
            self.sub_fire_rate >= 1,
    {
        1_000_000 as int / self.sub_fire_rate as int
    }

    /// Executable form of [`WeaponProfile::fire_gate_ms`].
    pub fn fire_gate(&self) -> (r: i64)
        requires
            self.fire_rate >= 1,
        ensures
            r == self.fire_gate_ms(),
    {
        1_000_000 / self.fire_rate
    }

    /// Executable form of [`WeaponProfile::sub_fire_gate_ms`].
    pub fn sub_fire_gate(&self) -> (r: i64)
        requires
            self.sub_fire_rate >= 1,
        ensures
            r == self.sub_fire_gate_ms(),
    {
        1_000_000 / self.sub_fire_rate
    }

    /// Advances the elapsed-time counter by one tick.
    pub fn tick(&mut self, dt: i64)
        requires
            old(self).wf(),
            0 <= dt <= MAX_TICK_MS,
        ensures
            *final(self) == WeaponProfile::tick_spec(*old(self), dt),
            final(self).wf(),
    {
        self.timer = accumulate_ms(self.timer, dt);
    }

    /// What [`WeaponProfile::tick`] produces.
    pub open spec fn tick_spec(from: WeaponProfile, dt: i64) -> WeaponProfile {
        WeaponProfile { timer: accumulate_ms_spec(from.timer, dt), ..from }
    }
}

impl Default for WeaponProfile {
    /// The baseline archetype every named archetype starts from.
    fn default() -> (r: WeaponProfile)
        ensures
            r.wf(),
            r == WeaponProfile::default_spec(),
    {
        WeaponProfile {
            spread: 0,
            speed: 90_000,
            speed_spread: 0,
            distance: 80_000,
            salve: 1,
            min_shot: 1,
            left_to_fire: 0,
            burst_len: 0,
            damage: 10,
            ammo: 100,
            max_ammo: 100,
            infinite: false,
            mag_ammo: 10,
            mag_size: 10,
            reload_time: 2_500,
            fire_rate: 1_500,
            sub_fire_rate: 10_000,
            heat: 0,
            min_heat: 0,
            max_heat: 20_000,
            broken: false,
            timer: 0,
            shoot: ShootStrategy::Auto,
            reload: ReloadStrategy::Basic,
        }
    }
}

impl WeaponProfile {
    /// The value [`WeaponProfile::default`] returns.
    pub open spec fn default_spec() -> WeaponProfile {
        WeaponProfile {
            spread: 0,
            speed: 90_000,
            speed_spread: 0,
            distance: 80_000,
            salve: 1,
            min_shot: 1,
            left_to_fire: 0,
            burst_len: 0,
            damage: 10,
            ammo: 100,
            max_ammo: 100,
            infinite: false,
            mag_ammo: 10,
            mag_size: 10,
            reload_time: 2_500,
            fire_rate: 1_500,
            sub_fire_rate: 10_000,
            heat: 0,
            min_heat: 0,
            max_heat: 20_000,
            broken: false,
            timer: 0,
            shoot: ShootStrategy::Auto,
            reload: ReloadStrategy::Basic,
        }
    }
}

} // verus!
