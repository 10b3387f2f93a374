//! Bullets, collisions, rolls, inventories and archetypes on concrete
//! values, and the ordering of one combatant tick.

use combat_core::archetypes::{
    automatic_stats, laser_stats, revolver_stats, shotgun_stats, sniper_stats,
};
use combat_core::bullets::{
    bullet_exhausted, bullet_tick, despawn_exhausted, marine_bullet, move_bullets, BulletStats,
};
use combat_core::collision::{
    damage_dealt, detect_collision_bullets, BodyRef, Combatant, ContactEvent,
};
use combat_core::inventory::{
    drop_events, drop_weapon, pickup_events, pickup_weapon, switch_weapon, Armory, Inventory,
    Items, SwitchRequest,
};
use combat_core::items::{DmgUpStruct, Null};
use combat_core::profile::{ReloadStrategy, ShootStrategy, TriggerSignal, WeaponProfile};
use combat_core::roll::{
    dodge_state, movement_state, move_players, rolling, start_roll, MoveDirection, PlayerState,
    RollStats,
};
use combat_core::shoot::shooting_system;
use combat_core::stats::{player_death, PlayerStats};
use combat_core::tick::{combatant_tick, CombatantState, TickInput};

fn bullet(owner: u64, damage: i64) -> BulletStats {
    marine_bullet(0, 100_000, 50_000, damage, 0, owner)
}

fn combatant(id: u64) -> Combatant {
    Combatant { id, stats: PlayerStats::default(), rolling: false }
}

#[test]
fn marine_bullet_mercury_slows_spawn() {
    let b = marine_bullet(7, 90_000, 80_000, 10, 0, 1);
    assert_eq!(b.speed, 90_000);
    let slowed = marine_bullet(7, 90_000, 80_000, 10, 2, 1);
    assert_eq!(slowed.speed, 90_000 / 7);
    assert_eq!(slowed.mercury_amount, 2);
    assert!(b.alive);
    assert_eq!(b.distance_traveled, 0);
}

#[test]
fn bullet_motion_accumulates_and_expires() {
    let mut b = bullet(1, 10);
    // 100 units/s for 250 ms: a quarter of the 50-unit budget.
    bullet_tick(&mut b, 250);
    assert_eq!(b.distance_traveled, 100_000 * 250);
    assert!(!bullet_exhausted(&b));
    bullet_tick(&mut b, 250);
    assert!(!bullet_exhausted(&b)); // exactly at the budget: not yet over
    bullet_tick(&mut b, 1);
    assert!(bullet_exhausted(&b));
}

#[test]
fn mercury_accelerates_in_flight() {
    let mut b = marine_bullet(0, 70_000, 80_000, 10, 1, 1);
    let spawn_speed = b.speed; // 70_000 / 4
    bullet_tick(&mut b, 1_000);
    assert_eq!(b.speed, spawn_speed + 70 * 1 * 1_000);
}

#[test]
fn despawn_marks_exhausted_bullets_once() {
    let mut bullets = vec![bullet(1, 10), bullet(1, 10)];
    bullets[0].distance_traveled = bullets[0].distance * 1000 + 1;
    bullets[1].alive = false;
    bullets[1].distance_traveled = bullets[1].distance * 1000 + 1;
    despawn_exhausted(&mut bullets);
    assert!(!bullets[0].alive);
    assert!(!bullets[1].alive);
    // Live bullets inside their budget stay.
    let mut keep = vec![bullet(1, 10)];
    despawn_exhausted(&mut keep);
    assert!(keep[0].alive);
}

#[test]
fn move_bullets_skips_despawned_slots() {
    let mut bullets = vec![bullet(1, 10), bullet(1, 10)];
    bullets[1].alive = false;
    move_bullets(&mut bullets, 100);
    assert_eq!(bullets[0].distance_traveled, 100_000 * 100);
    assert_eq!(bullets[1].distance_traveled, 0);
}

#[test]
fn collision_damages_other_combatant() {
    let mut bullets = vec![bullet(1, 10)];
    let mut fighters = vec![combatant(1), combatant(2)];
    fighters[1].stats.damages_added = 5;
    fighters[1].stats.damages_multiplier = 200;
    let events = vec![ContactEvent {
        a: BodyRef::BulletBody(0),
        b: BodyRef::CombatantBody(1),
    }];
    detect_collision_bullets(&mut bullets, &mut fighters, &events);
    // (10 + 5) * 200% = 30 off the victim's 100 health.
    assert_eq!(fighters[1].stats.current_health, 70);
    assert!(!bullets[0].alive);
    assert_eq!(fighters[0].stats.current_health, 100);
}

#[test]
fn collision_with_owner_is_a_pass_through() {
    let mut bullets = vec![bullet(1, 10)];
    let mut fighters = vec![combatant(1)];
    let events = vec![ContactEvent {
        a: BodyRef::CombatantBody(0),
        b: BodyRef::BulletBody(0),
    }];
    detect_collision_bullets(&mut bullets, &mut fighters, &events);
    assert_eq!(fighters[0].stats.current_health, 100);
    assert!(bullets[0].alive); // not removed by that contact
}

#[test]
fn collision_wall_despawns_without_damage() {
    let mut bullets = vec![bullet(1, 10)];
    let mut fighters = vec![combatant(2)];
    let events = vec![ContactEvent { a: BodyRef::WallBody, b: BodyRef::BulletBody(0) }];
    detect_collision_bullets(&mut bullets, &mut fighters, &events);
    assert!(!bullets[0].alive);
    assert_eq!(fighters[0].stats.current_health, 100);
}

#[test]
fn collision_stale_bullet_in_batch_is_ignored() {
    // Two events name the same bullet: the second finds it already
    // removed and must be ignored, so the victim is hit exactly once.
    let mut bullets = vec![bullet(1, 10)];
    let mut fighters = vec![combatant(2)];
    let hit = ContactEvent { a: BodyRef::BulletBody(0), b: BodyRef::CombatantBody(0) };
    let events = vec![hit, hit];
    detect_collision_bullets(&mut bullets, &mut fighters, &events);
    assert_eq!(fighters[0].stats.current_health, 90);
}

#[test]
fn collision_rolling_combatant_untouched() {
    let mut bullets = vec![bullet(1, 10)];
    let mut fighters = vec![combatant(2)];
    fighters[0].rolling = true;
    let events = vec![ContactEvent {
        a: BodyRef::BulletBody(0),
        b: BodyRef::CombatantBody(0),
    }];
    detect_collision_bullets(&mut bullets, &mut fighters, &events);
    assert_eq!(fighters[0].stats.current_health, 100);
    assert!(bullets[0].alive);
}

#[test]
fn collision_other_pairings_are_noops() {
    let mut bullets = vec![bullet(1, 10), bullet(2, 10)];
    let mut fighters = vec![combatant(3)];
    let events = vec![
        ContactEvent { a: BodyRef::BulletBody(0), b: BodyRef::BulletBody(1) },
        ContactEvent { a: BodyRef::WallBody, b: BodyRef::CombatantBody(0) },
        ContactEvent { a: BodyRef::OtherBody, b: BodyRef::BulletBody(0) },
        ContactEvent { a: BodyRef::BulletBody(9), b: BodyRef::CombatantBody(0) },
        ContactEvent { a: BodyRef::BulletBody(0), b: BodyRef::CombatantBody(9) },
    ];
    detect_collision_bullets(&mut bullets, &mut fighters, &events);
    assert!(bullets[0].alive && bullets[1].alive);
    assert_eq!(fighters[0].stats.current_health, 100);
}

#[test]
fn collision_before_exhaustion_cleanup() {
    // A bullet that both exited range and collided this tick resolves as
    // a collision; the exhaustion pass then skips it.
    let mut bullets = vec![bullet(1, 10)];
    let mut fighters = vec![combatant(2)];
    move_bullets(&mut bullets, 2_000); // far past the 50-unit budget
    assert!(bullet_exhausted(&bullets[0]));
    let events = vec![ContactEvent {
        a: BodyRef::BulletBody(0),
        b: BodyRef::CombatantBody(0),
    }];
    detect_collision_bullets(&mut bullets, &mut fighters, &events);
    assert_eq!(fighters[0].stats.current_health, 90);
    assert!(!bullets[0].alive);
    despawn_exhausted(&mut bullets);
    assert!(!bullets[0].alive);
}

#[test]
fn damage_formula_is_exact() {
    let mut c = combatant(2);
    c.stats.damages_added = 3;
    c.stats.damages_multiplier = 150;
    assert_eq!(damage_dealt(7, &c), (7 + 3) * 150 / 100);
}

#[test]
fn spawned_angles_stay_inside_spread() {
    let mut p = automatic_stats(); // spread 175 mrad, speed spread 5000
    p.timer = 10_000;
    p.salve = 100;
    let inv = Inventory::new();
    let aim = 500;
    let spawns = shooting_system(
        &mut p,
        &TriggerSignal { pressed: true, just_pressed: true, just_released: false },
        false,
        false,
        16,
        aim,
        7,
        &inv,
    );
    assert_eq!(spawns.len(), 100);
    for b in &spawns {
        assert!(aim - 175 <= b.angle && b.angle <= aim + 175);
        assert!(90_000 - 5_000 <= b.speed && b.speed <= 90_000 + 5_000);
        assert_eq!(b.damages, 15);
        assert_eq!(b.distance, 80_000);
        assert_eq!(b.owner, 7);
    }
}

#[test]
fn zero_spread_pins_the_angle() {
    let mut p = sniper_stats();
    p.timer = 10_000;
    let inv = Inventory::new();
    let spawns = shooting_system(
        &mut p,
        &TriggerSignal { pressed: true, just_pressed: true, just_released: false },
        false,
        false,
        16,
        1234,
        7,
        &inv,
    );
    assert_eq!(spawns.len(), 1);
    assert_eq!(spawns[0].angle, 1234);
    assert_eq!(spawns[0].speed, 1_000_000);
}

#[test]
fn mercury_in_inventory_slows_spawns() {
    let mut p = sniper_stats();
    p.timer = 10_000;
    let mut inv = Inventory::new();
    inv.add(Items::Mercury);
    inv.add(Items::HealthApple);
    inv.add(Items::Mercury);
    let spawns = shooting_system(
        &mut p,
        &TriggerSignal { pressed: true, just_pressed: true, just_released: false },
        false,
        false,
        16,
        0,
        7,
        &inv,
    );
    assert_eq!(spawns.len(), 1);
    assert_eq!(spawns[0].speed, 1_000_000 / 7);
    assert_eq!(spawns[0].mercury_amount, 2);
}

#[test]
fn inventory_counts_items() {
    let mut inv = Inventory::new();
    assert_eq!(inv.amount(Items::Mercury), 0);
    inv.add(Items::Mercury);
    inv.add(Items::HealthApple);
    inv.add(Items::Mercury);
    assert_eq!(inv.amount(Items::Mercury), 2);
    assert_eq!(inv.amount(Items::HealthApple), 1);
}

#[test]
fn health_apple_raises_and_drop_reverts() {
    let mut stats = PlayerStats::default();
    pickup_events(&mut stats, Items::HealthApple);
    assert_eq!(stats.max_health, 150);
    assert_eq!(stats.current_health, 150);
    pickup_events(&mut stats, Items::Mercury);
    assert_eq!(stats.max_health, 150);
    drop_events(&mut stats, Items::HealthApple);
    assert_eq!(stats.max_health, 100);
    assert_eq!(stats.current_health, 100);
}

#[test]
fn player_death_at_zero_health() {
    let mut stats = PlayerStats::default();
    assert!(!player_death(&stats));
    stats.current_health = 0;
    assert!(player_death(&stats));
    stats.current_health = -5;
    assert!(player_death(&stats));
}

#[test]
fn armory_cycles_and_drops() {
    let mut a = Armory::new();
    a.add(10);
    a.add(11);
    a.add(12);
    assert_eq!(switch_weapon(&mut a, SwitchRequest::NextWeapon), Some(11));
    assert_eq!(switch_weapon(&mut a, SwitchRequest::NextWeapon), Some(12));
    assert_eq!(switch_weapon(&mut a, SwitchRequest::NextWeapon), Some(10));
    assert_eq!(switch_weapon(&mut a, SwitchRequest::LastWeapon), Some(12));
    let dropped = drop_weapon(&mut a).unwrap();
    assert_eq!(dropped.0, 12);
    assert_eq!(dropped.1, Some(10));
    assert_eq!(a.content, vec![10, 11]);
    // A lone weapon cannot be switched away from.
    let mut lone = Armory::new();
    lone.add(42);
    assert_eq!(switch_weapon(&mut lone, SwitchRequest::NextWeapon), None);
}

#[test]
fn armory_next_wraps_past_the_end() {
    let mut a = Armory::new();
    a.add(10);
    assert_eq!(a.next(), 1);
    assert_eq!(a.next(), 0);
}

#[test]
fn item_hooks_contribute_nothing() {
    assert!(Null {}.get_shoot_function().is_none());
    assert!(DmgUpStruct {}.get_shoot_function().is_none());
}

#[test]
fn movement_sectors_match_the_compass() {
    assert_eq!(movement_state(0), PlayerState::Front);
    assert_eq!(movement_state(29_999), PlayerState::Front);
    assert_eq!(movement_state(90_000), PlayerState::LeftFront);
    assert_eq!(movement_state(149_999), PlayerState::LeftBack);
    assert_eq!(movement_state(180_000), PlayerState::Back);
    assert_eq!(movement_state(260_000), PlayerState::RightBack);
    assert_eq!(movement_state(330_000), PlayerState::RightFront);
    assert_eq!(movement_state(359_999), PlayerState::Front);
    assert_eq!(dodge_state(180_000), PlayerState::DodgeBack);
    assert_eq!(dodge_state(330_000), PlayerState::DodgeFront);
}

#[test]
fn move_players_scales_direction_by_speed() {
    let stats = PlayerStats::default(); // speed 50 units/s
    let dir = MoveDirection { x: 1_000, y: 0 };
    let (vx, vy, state) = move_players(&dir, 90_000, &stats);
    assert_eq!(vx, 50_000);
    assert_eq!(vy, 0);
    assert_eq!(state, PlayerState::LeftFront);
    let still = MoveDirection { x: 0, y: 0 };
    let (vx, vy, state) = move_players(&still, 0, &stats);
    assert_eq!((vx, vy), (0, 0));
    assert_eq!(state, PlayerState::Idle);
}

#[test]
fn start_roll_captures_direction_or_default() {
    let dir = MoveDirection { x: 0, y: 0 };
    let (roll, state) = start_roll(true, false, &dir, 0).unwrap();
    assert_eq!(roll.start_direction, MoveDirection { x: 0, y: -1000 });
    assert_eq!(state, PlayerState::DodgeFront);
    let moving = MoveDirection { x: -1_000, y: 0 };
    let (roll, state) = start_roll(true, false, &moving, 90_000).unwrap();
    assert_eq!(roll.start_direction, moving);
    assert_eq!(state, PlayerState::DodgeLeftFront);
    assert!(start_roll(true, true, &moving, 90_000).is_none());
    assert!(start_roll(false, false, &moving, 90_000).is_none());
}

#[test]
fn rolling_advances_nine_frames_and_finishes() {
    let stats = PlayerStats::default(); // roll_duration 500 ms, speed 75
    let mut roll = RollStats::new(MoveDirection { x: 0, y: -1_000 });
    let mut frames = 0;
    let mut done = false;
    for _ in 0..10 {
        let out = rolling(&mut roll, &stats, 55);
        assert_eq!(out.vel_x, 0);
        assert_eq!(out.vel_y, -75_000);
        if out.advance_frame {
            frames += 1;
        }
        if out.finished {
            done = true;
            break;
        }
    }
    assert!(done);
    assert_eq!(frames, 9);
}

#[test]
fn combatant_tick_roll_suppresses_and_moves() {
    let mut p = revolver_stats();
    p.timer = 10_000;
    p.left_to_fire = 1;
    p.burst_len = 1;
    let mut state = CombatantState::idle();
    let stats = PlayerStats::default();
    let inv = Inventory::new();
    let input = TickInput {
        dt: 16,
        shoot: TriggerSignal { pressed: true, just_pressed: false, just_released: false },
        reload_pressed: false,
        roll_pressed: true,
        move_dir: MoveDirection { x: 1_000, y: 0 },
        move_angle_mdeg: 90_000,
        aim: 0,
    };
    let out = combatant_tick(&mut p, &mut state, &stats, 3, 7, &inv, input);
    // The roll begins this tick and suppresses the mid-burst weapon now.
    assert!(out.spawned.is_empty());
    assert_eq!(p.left_to_fire, 0);
    assert!(state.roll.is_some());
    assert!(out.manual_animation);
    assert_eq!(out.dodge_animation, Some(PlayerState::DodgeLeftFront));
    assert_eq!(out.vel_x, 75_000);
}

#[test]
fn combatant_tick_dry_fire_starts_reload() {
    let mut p = revolver_stats();
    p.infinite = true;
    p.mag_ammo = 0;
    let mut state = CombatantState::idle();
    let stats = PlayerStats::default();
    let inv = Inventory::new();
    let input = TickInput {
        dt: 16,
        shoot: TriggerSignal { pressed: true, just_pressed: true, just_released: false },
        reload_pressed: false,
        roll_pressed: false,
        move_dir: MoveDirection { x: 0, y: 0 },
        move_angle_mdeg: 0,
        aim: 0,
    };
    let out = combatant_tick(&mut p, &mut state, &stats, 3, 7, &inv, input);
    assert!(out.spawned.is_empty());
    let rs = state.reload.expect("a reload should have started");
    assert_eq!(rs.since, 0);
    assert_eq!(rs.gun, 3);
    // The running reload then completes after reload_time of ticking.
    let quiet = TickInput {
        dt: 2_500,
        shoot: TriggerSignal { pressed: false, just_pressed: false, just_released: false },
        reload_pressed: false,
        roll_pressed: false,
        move_dir: MoveDirection { x: 0, y: 0 },
        move_angle_mdeg: 0,
        aim: 0,
    };
    let out = combatant_tick(&mut p, &mut state, &stats, 3, 7, &inv, quiet);
    assert!(out.spawned.is_empty());
    assert!(state.reload.is_none());
    assert_eq!(p.mag_ammo, p.mag_size);
}

#[test]
fn archetypes_are_well_formed_records() {
    let r = revolver_stats();
    assert!(r.infinite);
    assert_eq!(r.mag_size, 6);
    assert_eq!(r.shoot, ShootStrategy::Auto);
    assert_eq!(r.reload, ReloadStrategy::Basic);
    let s = sniper_stats();
    assert_eq!(s.mag_size, 2);
    assert_eq!(s.damage, 100);
    assert_eq!(s.shoot, ShootStrategy::Manual);
    let sh = shotgun_stats();
    assert_eq!(sh.salve, 8);
    assert_eq!(sh.reload, ReloadStrategy::PerRound);
    assert_eq!(sh.ammo, 18);
    assert_eq!(sh.max_ammo, 30);
    let l = laser_stats();
    assert_eq!(l.shoot, ShootStrategy::Overheat);
    assert_eq!(l.reload, ReloadStrategy::NoReload);
    assert!(l.infinite);
    let a = automatic_stats();
    assert_eq!(a.fire_rate, 5_000);
    assert_eq!(a.mag_size, 20);
}

#[test]
fn pickup_wields_the_new_weapon() {
    let mut a = Armory::new();
    assert_eq!(pickup_weapon(&mut a, 10), None);
    assert_eq!(a.current_weapon_index, 0);
    assert_eq!(pickup_weapon(&mut a, 11), Some(10));
    assert_eq!(a.current_weapon_index, 1);
    assert_eq!(a.content, vec![10, 11]);
}

#[test]
fn stock_items_contribute_no_shot_upgrades() {
    let mut inv = Inventory::new();
    inv.add(Items::Mercury);
    inv.add(Items::HealthApple);
    assert!(inv.get_all_shooting_function().is_empty());
    assert!(Items::Mercury.get_shoot_function().is_none());
}
