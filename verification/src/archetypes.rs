//! The weapon archetypes: static configuration records, one per weapon
//! type, consumed when a weapon entity is equipped or picked up.
//!
//! Angles are milliradians, speeds and distances milli-units, times
//! milliseconds; heat thresholds share the millisecond scale of the timers.

use vstd::prelude::*;

use crate::profile::ReloadStrategy;
use crate::profile::ShootStrategy;
use crate::profile::WeaponProfile;

verus! {

/// The value [`revolver_stats`] returns.
pub open spec fn revolver_stats_spec() -> WeaponProfile {
    WeaponProfile {
        spread: 87,
        speed: 90_000,
        speed_spread: 1_000,
        distance: 80_000,
        salve: 1,
        min_shot: 1,
        left_to_fire: 0,
        burst_len: 0,
        damage: 10,
        ammo: 0,
        max_ammo: 0,
        infinite: true,
        mag_ammo: 6,
        mag_size: 6,
        reload_time: 2_500,
        fire_rate: 1_500,
        sub_fire_rate: 10_000,
        heat: 0,
        min_heat: 0,
        max_heat: 20_000,
        broken: false,
        timer: 0,
        shoot: ShootStrategy::Auto,
        reload: ReloadStrategy::Basic,
    }
}

/// A six-round revolver with an endless reserve.
pub fn revolver_stats() -> (r: WeaponProfile)
    ensures
        r == revolver_stats_spec(),
        r.wf(),
{
    WeaponProfile {
        spread: 87,
        speed: 90_000,
        speed_spread: 1_000,
        distance: 80_000,
        salve: 1,
        min_shot: 1,
        left_to_fire: 0,
        burst_len: 0,
        damage: 10,
        ammo: 0,
        max_ammo: 0,
        infinite: true,
        mag_ammo: 6,
        mag_size: 6,
        reload_time: 2_500,
        fire_rate: 1_500,
        sub_fire_rate: 10_000,
        heat: 0,
        min_heat: 0,
        max_heat: 20_000,
        broken: false,
        timer: 0,
        shoot: ShootStrategy::Auto,
        reload: ReloadStrategy::Basic,
    }
}

/// The value [`sniper_stats`] returns.
pub open spec fn sniper_stats_spec() -> WeaponProfile {
    WeaponProfile {
        spread: 0,
        speed: 1_000_000,
        speed_spread: 0,
        distance: 1_000_000,
        salve: 1,
        min_shot: 1,
        left_to_fire: 0,
        burst_len: 0,
        damage: 100,
        ammo: 4,
        max_ammo: 4,
        infinite: false,
        mag_ammo: 2,
        mag_size: 2,
        reload_time: 5_000,
        fire_rate: 2_000,
        sub_fire_rate: 10_000,
        heat: 0,
        min_heat: 0,
        max_heat: 20_000,
        broken: false,
        timer: 0,
        shoot: ShootStrategy::Manual,
        reload: ReloadStrategy::Basic,
    }
}

/// A slow, precise two-round rifle with long reach.
pub fn sniper_stats() -> (r: WeaponProfile)
    ensures
        r == sniper_stats_spec(),
        r.wf(),
{
    WeaponProfile {
        spread: 0,
        speed: 1_000_000,
        speed_spread: 0,
        distance: 1_000_000,
        salve: 1,
        min_shot: 1,
        left_to_fire: 0,
        burst_len: 0,
        damage: 100,
        ammo: 4,
        max_ammo: 4,
        infinite: false,
        mag_ammo: 2,
        mag_size: 2,
        reload_time: 5_000,
        fire_rate: 2_000,
        sub_fire_rate: 10_000,
        heat: 0,
        min_heat: 0,
        max_heat: 20_000,
        broken: false,
        timer: 0,
        shoot: ShootStrategy::Manual,
        reload: ReloadStrategy::Basic,
    }
}

/// The value [`automatic_stats`] returns.
pub open spec fn automatic_stats_spec() -> WeaponProfile {
    WeaponProfile {
        spread: 175,
        speed: 90_000,
        speed_spread: 5_000,
        distance: 80_000,
        salve: 1,
        min_shot: 1,
        left_to_fire: 0,
        burst_len: 0,
        damage: 15,
        ammo: 200,
        max_ammo: 200,
        infinite: false,
        mag_ammo: 20,
        mag_size: 20,
        reload_time: 2_000,
        fire_rate: 5_000,
        sub_fire_rate: 10_000,
        heat: 0,
        min_heat: 0,
        max_heat: 20_000,
        broken: false,
        timer: 0,
        shoot: ShootStrategy::Auto,
        reload: ReloadStrategy::Basic,
    }
}

/// A held-trigger automatic rifle.
pub fn automatic_stats() -> (r: WeaponProfile)
    ensures
        r == automatic_stats_spec(),
        r.wf(),
{
    WeaponProfile {
        spread: 175,
        speed: 90_000,
        speed_spread: 5_000,
        distance: 80_000,
        salve: 1,
        min_shot: 1,
        left_to_fire: 0,
        burst_len: 0,
        damage: 15,
        ammo: 200,
        max_ammo: 200,
        infinite: false,
        mag_ammo: 20,
        mag_size: 20,
        reload_time: 2_000,
        fire_rate: 5_000,
        sub_fire_rate: 10_000,
        heat: 0,
        min_heat: 0,
        max_heat: 20_000,
        broken: false,
        timer: 0,
        shoot: ShootStrategy::Auto,
        reload: ReloadStrategy::Basic,
    }
}

/// The value [`semi_automatic_stats`] returns.
pub open spec fn semi_automatic_stats_spec() -> WeaponProfile {
    WeaponProfile {
        spread: 175,
        speed: 90_000,
        speed_spread: 5_000,
        distance: 80_000,
        salve: 1,
        min_shot: 3,
        left_to_fire: 0,
        burst_len: 0,
        damage: 15,
        ammo: 200,
        max_ammo: 200,
        infinite: false,
        mag_ammo: 20,
        mag_size: 20,
        reload_time: 2_000,
        fire_rate: 2_000,
        sub_fire_rate: 10_000,
        heat: 0,
        min_heat: 0,
        max_heat: 20_000,
        broken: false,
        timer: 0,
        shoot: ShootStrategy::Manual,
        reload: ReloadStrategy::Basic,
    }
}

/// A three-shot-burst rifle fired per trigger pull.
pub fn semi_automatic_stats() -> (r: WeaponProfile)
    ensures
        r == semi_automatic_stats_spec(),
        r.wf(),
{
    WeaponProfile {
        spread: 175,
        speed: 90_000,
        speed_spread: 5_000,
        distance: 80_000,
        salve: 1,
        min_shot: 3,
        left_to_fire: 0,
        burst_len: 0,
        damage: 15,
        ammo: 200,
        max_ammo: 200,
        infinite: false,
        mag_ammo: 20,
        mag_size: 20,
        reload_time: 2_000,
        fire_rate: 2_000,
        sub_fire_rate: 10_000,
        heat: 0,
        min_heat: 0,
        max_heat: 20_000,
        broken: false,
        timer: 0,
        shoot: ShootStrategy::Manual,
        reload: ReloadStrategy::Basic,
    }
}

/// The value [`shotgun_stats`] returns.
pub open spec fn shotgun_stats_spec() -> WeaponProfile {
    WeaponProfile {
        spread: 349,
        speed: 190_000,
        speed_spread: 10_000,
        distance: 50_000,
        salve: 8,
        min_shot: 1,
        left_to_fire: 0,
        burst_len: 0,
        damage: 6,
        ammo: 18,
        max_ammo: 30,
        infinite: false,
        mag_ammo: 6,
        mag_size: 6,
        reload_time: 500,
        fire_rate: 1_000,
        sub_fire_rate: 10_000,
        heat: 0,
        min_heat: 0,
        max_heat: 20_000,
        broken: false,
        timer: 0,
        shoot: ShootStrategy::Manual,
        reload: ReloadStrategy::PerRound,
    }
}

/// An eight-pellet shotgun reloaded one shell at a time.
pub fn shotgun_stats() -> (r: WeaponProfile)
    ensures
        r == shotgun_stats_spec(),
        r.wf(),
{
    WeaponProfile {
        spread: 349,
        speed: 190_000,
        speed_spread: 10_000,
        distance: 50_000,
        salve: 8,
        min_shot: 1,
        left_to_fire: 0,
        burst_len: 0,
        damage: 6,
        ammo: 18,
        max_ammo: 30,
        infinite: false,
        mag_ammo: 6,
        mag_size: 6,
        reload_time: 500,
        fire_rate: 1_000,
        sub_fire_rate: 10_000,
        heat: 0,
        min_heat: 0,
        max_heat: 20_000,
        broken: false,
        timer: 0,
        shoot: ShootStrategy::Manual,
        reload: ReloadStrategy::PerRound,
    }
}

/// The value [`charged_stats`] returns.
pub open spec fn charged_stats_spec() -> WeaponProfile {
    WeaponProfile {
        spread: 524,
        speed: 200_000,
        speed_spread: 10_000,
        distance: 100_000,
        salve: 1,
        min_shot: 1,
        left_to_fire: 0,
        burst_len: 0,
        damage: 20,
        ammo: 50,
        max_ammo: 50,
        infinite: false,
        mag_ammo: 5,
        mag_size: 5,
        reload_time: 5_000,
        fire_rate: 500,
        sub_fire_rate: 10_000,
        heat: 0,
        min_heat: 500,
        max_heat: 9_223_372_036_854_775_807,
        broken: false,
        timer: 0,
        shoot: ShootStrategy::Charging,
        reload: ReloadStrategy::Basic,
    }
}

/// A charge-and-release cannon scaled by stored heat.
pub fn charged_stats() -> (r: WeaponProfile)
    ensures
        r == charged_stats_spec(),
        r.wf(),
{
    WeaponProfile {
        spread: 524,
        speed: 200_000,
        speed_spread: 10_000,
        distance: 100_000,
        salve: 1,
        min_shot: 1,
        left_to_fire: 0,
        burst_len: 0,
        damage: 20,
        ammo: 50,
        max_ammo: 50,
        infinite: false,
        mag_ammo: 5,
        mag_size: 5,
        reload_time: 5_000,
        fire_rate: 500,
        sub_fire_rate: 10_000,
        heat: 0,
        min_heat: 500,
        max_heat: 9_223_372_036_854_775_807,
        broken: false,
        timer: 0,
        shoot: ShootStrategy::Charging,
        reload: ReloadStrategy::Basic,
    }
}

/// The value [`flamethrower_stats`] returns.
pub open spec fn flamethrower_stats_spec() -> WeaponProfile {
    WeaponProfile {
        spread: 175,
        speed: 60_000,
        speed_spread: 40_000,
        distance: 40_000,
        salve: 3,
        min_shot: 1,
        left_to_fire: 0,
        burst_len: 0,
        damage: 5,
        ammo: 900,
        max_ammo: 900,
        infinite: false,
        mag_ammo: 900,
        mag_size: 900,
        reload_time: 5_000,
        fire_rate: 30_000,
        sub_fire_rate: 10_000,
        heat: 0,
        min_heat: 0,
        max_heat: 20_000,
        broken: false,
        timer: 0,
        shoot: ShootStrategy::Overheat,
        reload: ReloadStrategy::NoReload,
    }
}

/// A three-jet flamethrower that overheats under sustained fire.
pub fn flamethrower_stats() -> (r: WeaponProfile)
    ensures
        r == flamethrower_stats_spec(),
        r.wf(),
{
    WeaponProfile {
        spread: 175,
        speed: 60_000,
        speed_spread: 40_000,
        distance: 40_000,
        salve: 3,
        min_shot: 1,
        left_to_fire: 0,
        burst_len: 0,
        damage: 5,
        ammo: 900,
        max_ammo: 900,
        infinite: false,
        mag_ammo: 900,
        mag_size: 900,
        reload_time: 5_000,
        fire_rate: 30_000,
        sub_fire_rate: 10_000,
        heat: 0,
        min_heat: 0,
        max_heat: 20_000,
        broken: false,
        timer: 0,
        shoot: ShootStrategy::Overheat,
        reload: ReloadStrategy::NoReload,
    }
}

/// The value [`laser_stats`] returns.
pub open spec fn laser_stats_spec() -> WeaponProfile {
    WeaponProfile {
        spread: 0,
        speed: 1_000_000,
        speed_spread: 0,
        distance: 1_000_000,
        salve: 1,
        min_shot: 1,
        left_to_fire: 0,
        burst_len: 0,
        damage: 1,
        ammo: 0,
        max_ammo: 0,
        infinite: true,
        mag_ammo: 1_000,
        mag_size: 1_000,
        reload_time: 5_000,
        fire_rate: 30_000,
        sub_fire_rate: 10_000,
        heat: 0,
        min_heat: 0,
        max_heat: 20_000,
        broken: false,
        timer: 0,
        shoot: ShootStrategy::Overheat,
        reload: ReloadStrategy::NoReload,
    }
}

/// A pinpoint beam with an endless reserve that overheats.
pub fn laser_stats() -> (r: WeaponProfile)
    ensures
        r == laser_stats_spec(),
        r.wf(),
{
    WeaponProfile {
        spread: 0,
        speed: 1_000_000,
        speed_spread: 0,
        distance: 1_000_000,
        salve: 1,
        min_shot: 1,
        left_to_fire: 0,
        burst_len: 0,
        damage: 1,
        ammo: 0,
        max_ammo: 0,
        infinite: true,
        mag_ammo: 1_000,
        mag_size: 1_000,
        reload_time: 5_000,
        fire_rate: 30_000,
        sub_fire_rate: 10_000,
        heat: 0,
        min_heat: 0,
        max_heat: 20_000,
        broken: false,
        timer: 0,
        shoot: ShootStrategy::Overheat,
        reload: ReloadStrategy::NoReload,
    }
}

} // verus!
