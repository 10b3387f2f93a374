//! Shoot-strategy, reload and roll behaviour on concrete values.

use combat_core::archetypes::{charged_stats, flamethrower_stats, semi_automatic_stats};
use combat_core::inventory::Inventory;
use combat_core::profile::{ReloadStrategy, ShootStrategy, TriggerSignal, WeaponProfile};
use combat_core::profile::update_gun_angle;
use combat_core::reload::{
    basic_reload_fn, no_reload, reload, shotgun_reload_fn, start_reload, ReloadStats,
};
use combat_core::shoot::shooting_system;

fn idle() -> TriggerSignal {
    TriggerSignal::idle()
}

fn held(rising: bool) -> TriggerSignal {
    TriggerSignal::held(rising)
}

fn base_profile() -> WeaponProfile {
    WeaponProfile::default()
}

#[test]
fn manual_fires_one_burst_per_press() {
    let mut p = base_profile();
    p.shoot = ShootStrategy::Manual;
    p.min_shot = 1;
    p.timer = 2_000;
    let inv = Inventory::new();
    let spawns = shooting_system(&mut p, &held(true), false, false, 16, 0, 7, &inv);
    assert_eq!(spawns.len(), 1);
    assert_eq!(p.mag_ammo, 9);
    assert_eq!(p.left_to_fire, 0);
    assert_eq!(p.timer, 0);
    // Held but no new rising edge: nothing more fires.
    for _ in 0..100 {
        let spawns = shooting_system(&mut p, &held(false), false, false, 16, 0, 7, &inv);
        assert_eq!(spawns.len(), 0);
    }
    assert_eq!(p.mag_ammo, 9);
}

#[test]
fn manual_rate_limited_under_edge_spam() {
    // Rising edge every tick: bursts still spaced by 1/fire_rate.
    let mut p = base_profile();
    p.shoot = ShootStrategy::Manual;
    p.fire_rate = 2_000; // gate of 500 ms
    let inv = Inventory::new();
    let mut bursts = 0;
    // 100 ticks of 10 ms: one full second.
    for _ in 0..100 {
        let spawns = shooting_system(&mut p, &held(true), false, false, 10, 0, 7, &inv);
        if !spawns.is_empty() {
            bursts += 1;
        }
    }
    assert_eq!(bursts, 2);
}

#[test]
fn auto_repress_does_not_bypass_cooldown() {
    let mut p = base_profile();
    p.shoot = ShootStrategy::Auto;
    p.fire_rate = 1_000; // gate of 1000 ms
    p.timer = 1_000;
    let inv = Inventory::new();
    let spawns = shooting_system(&mut p, &held(true), false, false, 0, 0, 7, &inv);
    assert_eq!(spawns.len(), 1);
    // Release for 300 ms, re-press, hold 300 ms more: gate not yet elapsed.
    let spawns = shooting_system(&mut p, &idle(), false, false, 300, 0, 7, &inv);
    assert!(spawns.is_empty());
    let spawns = shooting_system(&mut p, &held(true), false, false, 300, 0, 7, &inv);
    assert!(spawns.is_empty());
    let spawns = shooting_system(&mut p, &held(false), false, false, 300, 0, 7, &inv);
    assert!(spawns.is_empty());
    // 1000 ms reached: the next held tick fires.
    let spawns = shooting_system(&mut p, &held(false), false, false, 100, 0, 7, &inv);
    assert_eq!(spawns.len(), 1);
}

#[test]
fn empty_magazine_never_spawns() {
    let mut p = base_profile();
    p.shoot = ShootStrategy::Auto;
    p.mag_ammo = 0;
    p.timer = 100_000;
    let inv = Inventory::new();
    for _ in 0..50 {
        let spawns = shooting_system(&mut p, &held(true), false, false, 100, 0, 7, &inv);
        assert!(spawns.is_empty());
        assert_eq!(p.mag_ammo, 0);
        assert!(p.left_to_fire >= 0);
    }
}

#[test]
fn burst_flushes_at_sub_fire_rate() {
    let mut p = semi_automatic_stats(); // three-shot burst, sub gate 100 ms
    p.timer = 10_000;
    let inv = Inventory::new();
    let spawns = shooting_system(&mut p, &held(true), false, false, 0, 0, 7, &inv);
    assert_eq!(spawns.len(), 1); // first shot of the burst flushes at once
    assert_eq!(p.left_to_fire, 2);
    // 50 ms: below the sub-fire gate, nothing flushes.
    let spawns = shooting_system(&mut p, &held(false), false, false, 50, 0, 7, &inv);
    assert!(spawns.is_empty());
    // Another 50 ms: second shot.
    let spawns = shooting_system(&mut p, &held(false), false, false, 50, 0, 7, &inv);
    assert_eq!(spawns.len(), 1);
    // And the third.
    let spawns = shooting_system(&mut p, &held(false), false, false, 100, 0, 7, &inv);
    assert_eq!(spawns.len(), 1);
    assert_eq!(p.left_to_fire, 0);
    assert_eq!(p.mag_ammo, 17);
}

#[test]
fn roll_interrupt_cancels_burst_and_spawns_nothing() {
    let mut p = semi_automatic_stats();
    p.left_to_fire = 3;
    p.burst_len = 3;
    p.mag_ammo = 20;
    let inv = Inventory::new();
    let spawns = shooting_system(&mut p, &held(false), true, false, 16, 0, 7, &inv);
    assert!(spawns.is_empty());
    assert_eq!(p.left_to_fire, 0);
    // The discarded burst does not resume once the roll ends.
    let spawns = shooting_system(&mut p, &idle(), false, false, 16, 0, 7, &inv);
    assert!(spawns.is_empty());
    assert_eq!(p.mag_ammo, 20);
}

#[test]
fn reload_suppresses_firing() {
    let mut p = base_profile();
    p.shoot = ShootStrategy::Auto;
    p.timer = 100_000;
    let inv = Inventory::new();
    let spawns = shooting_system(&mut p, &held(true), false, true, 16, 0, 7, &inv);
    assert!(spawns.is_empty());
    assert_eq!(p.left_to_fire, 0);
}

#[test]
fn basic_reload_three_records() {
    // ammo=50, mag 2/6: the completion tick yields mag 6, ammo 46.
    let mut p = base_profile();
    p.ammo = 50;
    p.max_ammo = 100;
    p.mag_ammo = 2;
    p.mag_size = 6;
    p.reload_time = 2_500;
    let mut rs = ReloadStats::new(11);
    let out = basic_reload_fn(&mut p, &mut rs, false, 1_000);
    assert!(!out.finished);
    assert_eq!(p.mag_ammo, 2);
    let out = basic_reload_fn(&mut p, &mut rs, false, 1_500);
    assert!(out.finished);
    assert_eq!(p.mag_ammo, 6);
    assert_eq!(p.ammo, 46);
}

#[test]
fn basic_reload_small_reserve_drains_it() {
    let mut p = base_profile();
    p.ammo = 3;
    p.mag_ammo = 0;
    p.mag_size = 10;
    p.reload_time = 1_000;
    let mut rs = ReloadStats::new(11);
    let out = basic_reload_fn(&mut p, &mut rs, false, 1_000);
    assert!(out.finished);
    assert_eq!(p.mag_ammo, 3);
    assert_eq!(p.ammo, 0);
}

#[test]
fn basic_reload_infinite_fills_magazine() {
    let mut p = base_profile();
    p.infinite = true;
    p.ammo = 0;
    p.max_ammo = 0;
    p.mag_ammo = 1;
    p.mag_size = 6;
    p.reload_time = 1_000;
    let mut rs = ReloadStats::new(11);
    let out = basic_reload_fn(&mut p, &mut rs, false, 1_000);
    assert!(out.finished);
    assert_eq!(p.mag_ammo, 6);
    assert_eq!(p.ammo, 0);
}

#[test]
fn per_round_reload_one_round_then_removed() {
    // ammo=18, mag 0/6: one reload_time interval gives mag 1, ammo 17.
    let mut p = base_profile();
    p.reload = ReloadStrategy::PerRound;
    p.ammo = 18;
    p.max_ammo = 30;
    p.mag_ammo = 0;
    p.mag_size = 6;
    p.reload_time = 500;
    let mut rs = ReloadStats::new(11);
    let out = shotgun_reload_fn(&mut p, &mut rs, false, 500);
    assert!(out.finished); // the state is removed; reloading must be reissued
    assert_eq!(p.mag_ammo, 1);
    assert_eq!(p.ammo, 17);
}

#[test]
fn reload_sway_grows_with_elapsed_time() {
    let mut p = base_profile();
    p.reload_time = 2_000;
    let mut rs = ReloadStats::new(11);
    let out = basic_reload_fn(&mut p, &mut rs, false, 500);
    assert_eq!(out.sway, 500 * 12_000 / 2_000);
    let out = basic_reload_fn(&mut p, &mut rs, false, 500);
    assert_eq!(out.sway, 1_000 * 12_000 / 2_000);
}

#[test]
fn roll_pauses_reload_clock() {
    let mut p = base_profile();
    p.reload_time = 1_000;
    let mut rs = ReloadStats::new(11);
    basic_reload_fn(&mut p, &mut rs, false, 400);
    assert_eq!(rs.since, 400);
    // Rolling: the clock pauses, already-accumulated progress is kept.
    for _ in 0..10 {
        let out = basic_reload_fn(&mut p, &mut rs, true, 400);
        assert!(!out.finished);
    }
    assert_eq!(rs.since, 400);
    // Roll over: the reload resumes where it stood.
    let out = basic_reload_fn(&mut p, &mut rs, false, 600);
    assert!(out.finished);
}

#[test]
fn no_reload_removes_state_immediately() {
    let mut p = flamethrower_stats();
    p.heat = 300;
    let mut rs = ReloadStats::new(11);
    let before = p;
    let out = no_reload(&mut p, &mut rs, false, 16);
    assert!(out.finished);
    assert_eq!(out.sway, 300 * 100);
    assert_eq!(p, before);
}

#[test]
fn start_reload_on_press_and_on_dry_fire() {
    let mut p = base_profile();
    p.mag_ammo = 3;
    assert!(start_reload(&p, true, false, false));
    assert!(!start_reload(&p, false, true, false)); // magazine not empty
    p.mag_ammo = 0;
    assert!(start_reload(&p, false, true, false)); // dry fire starts a reload
    assert!(!start_reload(&p, true, false, true)); // one already runs
    p.mag_ammo = p.mag_size;
    assert!(!start_reload(&p, true, false, false)); // magazine full
    p.mag_ammo = 0;
    p.ammo = 0;
    assert!(!start_reload(&p, true, false, false)); // nothing in reserve
    p.infinite = true;
    assert!(start_reload(&p, true, false, false));
}

#[test]
fn overheat_breaks_above_max_heat_and_mends_at_zero() {
    let mut p = base_profile();
    p.shoot = ShootStrategy::Overheat;
    p.fire_rate = 1_000; // gate of 1000 ms
    p.min_heat = 0;
    p.max_heat = 2_500;
    p.mag_ammo = 1_000;
    p.mag_size = 1_000;
    p.salve = 1;
    let inv = Inventory::new();
    // Each full gate adds its quantum of heat and fires while warm.
    let mut broke_at_heat = 0;
    for _ in 0..10 {
        shooting_system(&mut p, &held(false), false, false, 1_000, 0, 7, &inv);
        if p.broken {
            broke_at_heat = p.heat;
            break;
        }
    }
    assert!(p.broken);
    assert!(broke_at_heat > p.max_heat);
    assert_eq!(p.left_to_fire, 0);
    // Still held: a broken weapon no longer fires, whatever the ammunition.
    let spawns = shooting_system(&mut p, &held(false), false, false, 1_000, 0, 7, &inv);
    assert!(spawns.is_empty());
    // Broken stays true until the heat decays to exactly zero.
    while p.broken {
        assert!(p.heat > 0);
        let spawns = shooting_system(&mut p, &held(false), false, false, 500, 0, 7, &inv);
        assert!(spawns.is_empty());
    }
    assert_eq!(p.heat, 0);
}

#[test]
fn overheat_fires_between_thresholds() {
    let mut p = base_profile();
    p.shoot = ShootStrategy::Overheat;
    p.fire_rate = 1_000;
    p.min_heat = 500;
    p.max_heat = 1_000_000;
    p.mag_ammo = 100;
    p.mag_size = 100;
    let inv = Inventory::new();
    // First gate: heat 1000 >= min_heat, a burst starts and flushes.
    let spawns = shooting_system(&mut p, &held(false), false, false, 1_000, 0, 7, &inv);
    assert_eq!(spawns.len(), 1);
    assert_eq!(p.mag_ammo, 99);
    assert!(p.heat >= 500);
}

#[test]
fn overheat_heat_decays_when_released() {
    let mut p = base_profile();
    p.shoot = ShootStrategy::Overheat;
    p.heat = 700;
    let inv = Inventory::new();
    shooting_system(&mut p, &idle(), false, false, 300, 0, 7, &inv);
    assert_eq!(p.heat, 400);
    shooting_system(&mut p, &idle(), false, false, 300, 0, 7, &inv);
    assert_eq!(p.heat, 100);
    shooting_system(&mut p, &idle(), false, false, 300, 0, 7, &inv);
    assert_eq!(p.heat, 0);
}

#[test]
fn charging_accumulates_and_fires_on_release() {
    let mut p = charged_stats();
    p.spread = 0;
    p.speed_spread = 0;
    let inv = Inventory::new();
    // Hold for 1000 ms in four ticks: heat accumulates dt by dt.
    for _ in 0..4 {
        let spawns = shooting_system(&mut p, &held(false), false, false, 250, 0, 7, &inv);
        assert!(spawns.is_empty());
    }
    assert_eq!(p.heat, 1_000);
    // Release: a burst of min_shot starts and its first shot flushes,
    // scaled by the heat: factor log2(1000) = 9.
    let spawns = shooting_system(&mut p, &TriggerSignal::released(), false, false, 0, 0, 7, &inv);
    assert_eq!(spawns.len(), 1);
    assert_eq!(spawns[0].damages, 20 * 9);
    assert_eq!(spawns[0].distance, 100_000 * 1_000 / 1_000);
    assert_eq!(spawns[0].speed, 200_000 * 9);
    assert_eq!(p.mag_ammo, 4);
    // Burst of one: completed, heat resets to zero.
    assert_eq!(p.left_to_fire, 0);
    assert_eq!(p.heat, 0);
}

#[test]
fn charging_below_min_heat_holds_fire() {
    let mut p = charged_stats(); // min_heat 500
    let inv = Inventory::new();
    shooting_system(&mut p, &held(false), false, false, 300, 0, 7, &inv);
    assert_eq!(p.heat, 300);
    let spawns = shooting_system(&mut p, &idle(), false, false, 0, 0, 7, &inv);
    assert!(spawns.is_empty());
    assert_eq!(p.left_to_fire, 0);
}

#[test]
fn charging_never_breaks_with_unbounded_max_heat() {
    let mut p = charged_stats();
    let inv = Inventory::new();
    for _ in 0..1_000 {
        shooting_system(&mut p, &held(false), false, false, 1_000_000, 0, 7, &inv);
        assert!(!p.broken);
    }
}

#[test]
fn counters_stay_in_bounds_across_mixed_run() {
    // An arbitrary mixed run of ticks: the ammunition invariants hold at
    // every observation point.
    let profiles = [
        semi_automatic_stats(),
        charged_stats(),
        flamethrower_stats(),
    ];
    let inv = Inventory::new();
    for start in profiles {
        let mut p = start;
        let mut rs = ReloadStats::new(3);
        for k in 0..400u64 {
            let t = match k % 5 {
                0 => held(true),
                1 => held(false),
                2 => idle(),
                3 => TriggerSignal::released(),
                _ => held(false),
            };
            let roll = k % 7 == 0;
            let reload_present = k % 11 == 0;
            shooting_system(&mut p, &t, roll, reload_present, 130, 0, 7, &inv);
            assert!(0 <= p.mag_ammo && p.mag_ammo <= p.mag_size);
            assert!(0 <= p.ammo && p.ammo <= p.max_ammo);
            assert!(p.left_to_fire >= 0);
            if k % 13 == 0 {
                basic_reload_fn(&mut p, &mut rs, roll, 130);
                assert!(0 <= p.mag_ammo && p.mag_ammo <= p.mag_size);
                assert!(0 <= p.ammo && p.ammo <= p.max_ammo);
            }
        }
    }
}

#[test]
fn reload_dispatch_follows_the_archetype() {
    let mut p = flamethrower_stats(); // no-reload archetype
    p.heat = 40;
    let mut rs = ReloadStats::new(11);
    let out = reload(&mut p, &mut rs, false, 16);
    assert!(out.finished);
    assert_eq!(out.sway, 40 * 100);
    let mut p = semi_automatic_stats(); // basic archetype
    p.mag_ammo = 0;
    let mut rs = ReloadStats::new(11);
    let out = reload(&mut p, &mut rs, false, 2_000);
    assert!(out.finished);
    assert_eq!(p.mag_ammo, 20);
    assert_eq!(p.ammo, 180);
}

#[test]
fn gun_flips_past_a_quarter_turn() {
    assert!(!update_gun_angle(0));
    assert!(!update_gun_angle(1_570));
    assert!(update_gun_angle(1_571));
    assert!(!update_gun_angle(-1_570));
    assert!(update_gun_angle(-1_571));
    assert!(update_gun_angle(3_000));
}
