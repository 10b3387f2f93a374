//! Burst decision logic: the four shoot strategies.
//!
//! Each strategy inspects the weapon profile, the trigger signal and the
//! suppressive states (rolling, reloading), then mutates the profile and
//! reports the bullets spawned this tick.  The profile transition itself is
//! deterministic and each executable strategy returns exactly the state its
//! spec-level step function describes; only the angle and speed offsets of
//! the spawned bullets come from chance, and those are pinned to the
//! `[-spread, +spread]` envelopes.

use vstd::prelude::*;

use crate::MAX_TICK_MS;
use crate::accumulate_ms_spec;
use crate::bullets::BulletStats;
use crate::bullets::MERCURY_CAP;
use crate::bullets::marine_bullet;
use crate::inventory::Inventory;
use crate::inventory::Items;
use crate::inventory::count_items;
use crate::inventory::lemma_count_items_le_len;
use crate::num::VALUE_CAP;
use crate::profile::TUNABLE_CAP;
use crate::profile::TriggerSignal;
use crate::profile::WeaponProfile;
use crate::random::sample_offset;

verus! {

// ---------------------------------------------------------------------------
// Shared pieces of every strategy's step
// ---------------------------------------------------------------------------

/// Discards any active burst: the hard interrupt.
pub open spec fn cancel_burst_spec(p: WeaponProfile) -> WeaponProfile {
    WeaponProfile { left_to_fire: 0, burst_len: 0, ..p }
}

/// A rolling or reloading owner, or a broken weapon, suppresses firing.
pub open spec fn suppressed_spec(p: WeaponProfile, roll: bool, reload: bool) -> bool {
    roll || reload || p.broken
}

/// First stage of most strategies: suppression cancels the active burst.
pub open spec fn interrupt_spec(p: WeaponProfile, roll: bool, reload: bool) -> WeaponProfile {
    if suppressed_spec(p, roll, reload) {
        cancel_burst_spec(p)
    } else {
        p
    }
}

/// Size of a burst started now: a full burst, bounded by the magazine.
pub open spec fn burst_size_spec(p: WeaponProfile) -> int {
    if p.min_shot < p.mag_ammo {
        p.min_shot as int
    } else {
        p.mag_ammo as int
    }
}

/// Conditions every burst start shares: idle, unsuppressed, ammunition in
/// the magazine, and the burst-start gate fully elapsed.
pub open spec fn start_gate_ok_spec(p: WeaponProfile, roll: bool, reload: bool) -> bool {
    &&& !roll
    &&& !reload
    &&& p.left_to_fire == 0
    &&& !p.broken
    &&& p.mag_ammo > 0
    &&& p.timer >= p.fire_gate_ms()
}

/// Starts a burst sized by the magazine and rearms the cooldown timer.
pub open spec fn start_burst_spec(p: WeaponProfile) -> WeaponProfile {
    WeaponProfile {
        timer: 0,
        left_to_fire: burst_size_spec(p) as i64,
        burst_len: burst_size_spec(p) as i64,
        ..p
    }
}

/// A burst is active but the magazine is empty: the burst dies without a
/// shot, and the magazine counter is never driven below zero.
pub open spec fn flush_starved_spec(p: WeaponProfile) -> bool {
    p.left_to_fire > 0 && p.mag_ammo == 0
}

/// The next shot of the active burst is due: the first shot of a burst
/// flushes at once, later ones once the intra-burst gate has elapsed.
pub open spec fn flush_fires_spec(p: WeaponProfile) -> bool {
    &&& p.left_to_fire > 0
    &&& p.mag_ammo > 0
    &&& (p.left_to_fire == p.burst_len || p.timer >= p.sub_fire_gate_ms())
}

/// One flushed shot: a round leaves the magazine, the burst shortens, the
/// shot timer rearms; a finished burst returns the weapon to idle.
pub open spec fn flush_shot_spec(p: WeaponProfile) -> WeaponProfile {
    let q = WeaponProfile {
        timer: 0,
        mag_ammo: (p.mag_ammo - 1) as i64,
        left_to_fire: (p.left_to_fire - 1) as i64,
        ..p
    };
    if q.left_to_fire == 0 {
        WeaponProfile { burst_len: 0, ..q }
    } else {
        q
    }
}

/// Last stage of every strategy: starve, flush one shot, or do nothing.
pub open spec fn flush_stage_spec(p: WeaponProfile) -> WeaponProfile {
    if flush_starved_spec(p) {
        cancel_burst_spec(p)
    } else if flush_fires_spec(p) {
        flush_shot_spec(p)
    } else {
        p
    }
}

// ---------------------------------------------------------------------------
// The bullet envelope
// ---------------------------------------------------------------------------

/// What is known of one spawned bullet: the angle sits within `spread` of
/// the aim, the speed within the spawn envelope that `speed_spread` and the
/// mercury slow-down allow, and everything else is pinned.
pub open spec fn spawn_ok(
    b: BulletStats,
    aim: int,
    spread: int,
    speed: int,
    speed_spread: int,
    distance: int,
    damage: int,
    mercury: int,
    owner: u64,
) -> bool {
    &&& aim - spread <= b.angle <= aim + spread
    &&& (speed - speed_spread) / (mercury * 3 + 1) <= b.speed <= (speed + speed_spread) / (mercury
        * 3 + 1)
    &&& b.damages == damage
    &&& b.distance == distance
    &&& b.distance_traveled == 0
    &&& b.mercury_amount == mercury
    &&& b.owner == owner
    &&& b.alive
}

/// Spawns one salve: `salve` bullets, each with an independent random angle
/// offset in `[-spread, +spread]` and an independent random speed offset in
/// `[-speed_spread, +speed_spread]`.
fn spawn_salve(
    salve: i64,
    aim: i64,
    spread: i64,
    speed: i64,
    speed_spread: i64,
    distance: i64,
    damage: i64,
    inv: &Inventory,
    owner: u64,
) -> (spawns: Vec<BulletStats>)
    requires
        1 <= salve <= TUNABLE_CAP,
        -TUNABLE_CAP <= aim <= TUNABLE_CAP,
        0 <= spread <= TUNABLE_CAP,
        0 <= speed_spread <= speed <= VALUE_CAP,
        speed_spread <= TUNABLE_CAP,
        0 <= distance <= VALUE_CAP,
        0 <= damage <= VALUE_CAP,
        inv.wf(),
    ensures
        spawns@.len() == salve,
        forall|i: int|
            0 <= i < spawns@.len() ==> #[trigger] spawn_ok(
                spawns@[i],
                aim as int,
                spread as int,
                speed as int,
                speed_spread as int,
                distance as int,
                damage as int,
                count_items(inv.content@, Items::Mercury),
                owner,
            ),
        forall|i: int| 0 <= i < spawns@.len() ==> (#[trigger] spawns@[i]).wf() && spawns@[i].alive,
{
    proof {
        lemma_count_items_le_len(inv.content@, Items::Mercury);
    }
    let mercury: i64 = inv.amount(Items::Mercury) as i64;
    let mut spawns: Vec<BulletStats> = Vec::new();
    let mut i: i64 = 0;
    while i < salve
        invariant
            0 <= i <= salve,
            1 <= salve <= TUNABLE_CAP,
            -TUNABLE_CAP <= aim <= TUNABLE_CAP,
            0 <= spread <= TUNABLE_CAP,
            0 <= speed_spread <= speed <= VALUE_CAP,
            speed_spread <= TUNABLE_CAP,
            0 <= distance <= VALUE_CAP,
            0 <= damage <= VALUE_CAP,
            0 <= mercury <= MERCURY_CAP,
            mercury == count_items(inv.content@, Items::Mercury),
            spawns@.len() == i,
            forall|j: int|
                0 <= j < spawns@.len() ==> #[trigger] spawn_ok(
                    spawns@[j],
                    aim as int,
                    spread as int,
                    speed as int,
                    speed_spread as int,
                    distance as int,
                    damage as int,
                    mercury as int,
                    owner,
                ),
            forall|j: int|
                0 <= j < spawns@.len() ==> (#[trigger] spawns@[j]).wf() && spawns@[j].alive,
        decreases salve - i,
    {
        let da = sample_offset(spread);
        let dv = sample_offset(speed_spread);
        let b = marine_bullet(aim + da, speed + dv, distance, damage, mercury, owner);
        proof {
            vstd::arithmetic::div_mod::lemma_div_is_ordered(
                speed - speed_spread,
                speed + dv,
                mercury * 3 + 1,
            );
            vstd::arithmetic::div_mod::lemma_div_is_ordered(
                speed + dv,
                speed + speed_spread,
                mercury * 3 + 1,
            );
            assert(spawn_ok(
                b,
                aim as int,
                spread as int,
                speed as int,
                speed_spread as int,
                distance as int,
                damage as int,
                mercury as int,
                owner,
            ));
        }
        spawns.push(b);
        i = i + 1;
    }
    spawns
}

// ---------------------------------------------------------------------------
// Manual
// ---------------------------------------------------------------------------

/// The manual strategy starts a burst only on the trigger's rising edge.
pub open spec fn manual_starts_spec(
    p: WeaponProfile,
    t: TriggerSignal,
    roll: bool,
    reload: bool,
) -> bool {
    t.just_pressed && start_gate_ok_spec(p, roll, reload)
}

/// The manual profile just before the flush stage.
pub open spec fn manual_pre_flush_spec(
    p: WeaponProfile,
    t: TriggerSignal,
    roll: bool,
    reload: bool,
) -> WeaponProfile {
    let p1 = interrupt_spec(p, roll, reload);
    if manual_starts_spec(p1, t, roll, reload) {
        start_burst_spec(p1)
    } else {
        p1
    }
}

/// The full manual step.
pub open spec fn manual_step_spec(
    p: WeaponProfile,
    t: TriggerSignal,
    roll: bool,
    reload: bool,
) -> WeaponProfile {
    flush_stage_spec(manual_pre_flush_spec(p, t, roll, reload))
}

/// Whether the manual step flushes a shot.
pub open spec fn manual_fires_spec(
    p: WeaponProfile,
    t: TriggerSignal,
    roll: bool,
    reload: bool,
) -> bool {
    let q = manual_pre_flush_spec(p, t, roll, reload);
    !flush_starved_spec(q) && flush_fires_spec(q)
}

/// Manual firing: burst starts gated on the trigger's rising edge, then the
/// shared flush of the active burst.
pub fn manual_shoot_fn(
    p: &mut WeaponProfile,
    t: &TriggerSignal,
    roll: bool,
    reload: bool,
    aim: i64,
    owner: u64,
    inv: &Inventory,
) -> (spawns: Vec<BulletStats>)
    requires
        old(p).wf(),
        t.wf(),
        -TUNABLE_CAP <= aim <= TUNABLE_CAP,
        inv.wf(),
    ensures
        *final(p) == manual_step_spec(*old(p), *t, roll, reload),
        final(p).wf(),
        spawns@.len() == (if manual_fires_spec(*old(p), *t, roll, reload) {
            old(p).salve as int
        } else {
            0
        }),
        forall|i: int|
            0 <= i < spawns@.len() ==> #[trigger] spawn_ok(
                spawns@[i],
                aim as int,
                old(p).spread as int,
                old(p).speed as int,
                old(p).speed_spread as int,
                old(p).distance as int,
                old(p).damage as int,
                count_items(inv.content@, Items::Mercury),
                owner,
            ),
        forall|i: int| 0 <= i < spawns@.len() ==> (#[trigger] spawns@[i]).wf() && spawns@[i].alive,
        old(p).mag_ammo == 0 ==> spawns@.len() == 0 && final(p).mag_ammo == 0 && final(p).left_to_fire == 0,
{
    if roll || reload || p.broken {
        p.left_to_fire = 0;
        p.burst_len = 0;
    }
    if t.just_pressed && !roll && !reload && p.left_to_fire == 0 && !p.broken && p.mag_ammo > 0
        && p.timer >= p.fire_gate() {
        p.timer = 0;
        let bs: i64 = if p.min_shot < p.mag_ammo {
            p.min_shot
        } else {
            p.mag_ammo
        };
        p.left_to_fire = bs;
        p.burst_len = bs;
    }
    flush_burst(p, aim, owner, inv)
}

// ---------------------------------------------------------------------------
// Auto
// ---------------------------------------------------------------------------

/// The auto strategy starts a burst whenever the trigger is held.
pub open spec fn auto_starts_spec(
    p: WeaponProfile,
    t: TriggerSignal,
    roll: bool,
    reload: bool,
) -> bool {
    t.pressed && start_gate_ok_spec(p, roll, reload)
}

/// The auto profile just before the flush stage.
pub open spec fn auto_pre_flush_spec(
    p: WeaponProfile,
    t: TriggerSignal,
    roll: bool,
    reload: bool,
) -> WeaponProfile {
    let p1 = interrupt_spec(p, roll, reload);
    if auto_starts_spec(p1, t, roll, reload) {
        start_burst_spec(p1)
    } else {
        p1
    }
}

/// The full auto step.
pub open spec fn auto_step_spec(
    p: WeaponProfile,
    t: TriggerSignal,
    roll: bool,
    reload: bool,
) -> WeaponProfile {
    flush_stage_spec(auto_pre_flush_spec(p, t, roll, reload))
}

/// Whether the auto step flushes a shot.
pub open spec fn auto_fires_spec(
    p: WeaponProfile,
    t: TriggerSignal,
    roll: bool,
    reload: bool,
) -> bool {
    let q = auto_pre_flush_spec(p, t, roll, reload);
    !flush_starved_spec(q) && flush_fires_spec(q)
}

/// Automatic firing: like manual, but level-triggered rather than
/// edge-triggered.
pub fn auto_shoot_fn(
    p: &mut WeaponProfile,
    t: &TriggerSignal,
    roll: bool,
    reload: bool,
    aim: i64,
    owner: u64,
    inv: &Inventory,
) -> (spawns: Vec<BulletStats>)
    requires
        old(p).wf(),
        t.wf(),
        -TUNABLE_CAP <= aim <= TUNABLE_CAP,
        inv.wf(),
    ensures
        *final(p) == auto_step_spec(*old(p), *t, roll, reload),
        final(p).wf(),
        spawns@.len() == (if auto_fires_spec(*old(p), *t, roll, reload) {
            old(p).salve as int
        } else {
            0
        }),
        forall|i: int|
            0 <= i < spawns@.len() ==> #[trigger] spawn_ok(
                spawns@[i],
                aim as int,
                old(p).spread as int,
                old(p).speed as int,
                old(p).speed_spread as int,
                old(p).distance as int,
                old(p).damage as int,
                count_items(inv.content@, Items::Mercury),
                owner,
            ),
        forall|i: int| 0 <= i < spawns@.len() ==> (#[trigger] spawns@[i]).wf() && spawns@[i].alive,
        old(p).mag_ammo == 0 ==> spawns@.len() == 0 && final(p).mag_ammo == 0 && final(p).left_to_fire == 0,
{
    if roll || reload || p.broken {
        p.left_to_fire = 0;
        p.burst_len = 0;
    }
    if t.pressed && !roll && !reload && p.left_to_fire == 0 && !p.broken && p.mag_ammo > 0
        && p.timer >= p.fire_gate() {
        p.timer = 0;
        let bs: i64 = if p.min_shot < p.mag_ammo {
            p.min_shot
        } else {
            p.mag_ammo
        };
        p.left_to_fire = bs;
        p.burst_len = bs;
    }
    flush_burst(p, aim, owner, inv)
}

// ---------------------------------------------------------------------------
// The shared executable flush
// ---------------------------------------------------------------------------

/// Runs the flush stage on the profile as it stands: starves an empty
/// burst, or flushes one unscaled shot of `salve` bullets.
fn flush_burst(p: &mut WeaponProfile, aim: i64, owner: u64, inv: &Inventory) -> (spawns: Vec<
    BulletStats,
>)
    requires
        old(p).wf(),
        -TUNABLE_CAP <= aim <= TUNABLE_CAP,
        inv.wf(),
    ensures
        *final(p) == flush_stage_spec(*old(p)),
        final(p).wf(),
        spawns@.len() == (if !flush_starved_spec(*old(p)) && flush_fires_spec(*old(p)) {
            old(p).salve as int
        } else {
            0
        }),
        forall|i: int|
            0 <= i < spawns@.len() ==> #[trigger] spawn_ok(
                spawns@[i],
                aim as int,
                old(p).spread as int,
                old(p).speed as int,
                old(p).speed_spread as int,
                old(p).distance as int,
                old(p).damage as int,
                count_items(inv.content@, Items::Mercury),
                owner,
            ),
        forall|i: int| 0 <= i < spawns@.len() ==> (#[trigger] spawns@[i]).wf() && spawns@[i].alive,
{
    let mut spawns: Vec<BulletStats> = Vec::new();
    if p.left_to_fire > 0 {
        if p.mag_ammo == 0 {
            p.left_to_fire = 0;
            p.burst_len = 0;
        } else if p.left_to_fire == p.burst_len || p.timer >= p.sub_fire_gate() {
            p.timer = 0;
            spawns = spawn_salve(
                p.salve,
                aim,
                p.spread,
                p.speed,
                p.speed_spread,
                p.distance,
                p.damage,
                inv,
                owner,
            );
            p.mag_ammo = p.mag_ammo - 1;
            p.left_to_fire = p.left_to_fire - 1;
            if p.left_to_fire == 0 {
                p.burst_len = 0;
            }
        }
    }
    spawns
}


// ---------------------------------------------------------------------------
// Charging
// ---------------------------------------------------------------------------

/// Heat decay: subtraction with a floor of zero.
pub open spec fn decay_spec(h: i64, q: i64) -> i64 {
    if h - q < 0 {
        0
    } else {
        (h - q) as i64
    }
}

/// Executable form of [`decay_spec`].
fn decay(h: i64, q: i64) -> (r: i64)
    requires
        0 <= h,
        0 <= q,
    ensures
        r == decay_spec(h, q),
{
    if h < q {
        0
    } else {
        h - q
    }
}

/// How strongly accumulated heat scales a charged shot: the floor base-two
/// logarithm of the heat, and at least one.
pub open spec fn charge_factor_spec(h: i64) -> int {
    if crate::num::log2_floor_spec(h as int) < 1 {
        1
    } else {
        crate::num::log2_floor_spec(h as int)
    }
}

/// Executable form of [`charge_factor_spec`].
fn charge_factor(h: i64) -> (r: i64)
    requires
        0 <= h,
    ensures
        r == charge_factor_spec(h),
        1 <= r <= 62,
{
    let l = crate::num::log2_floor(h);
    if l < 1 {
        1
    } else {
        l
    }
}

/// Spread of a charged shot: tighter the longer the charge.
pub open spec fn charge_spread_spec(q: WeaponProfile) -> int {
    q.spread as int / charge_factor_spec(q.heat)
}

/// Speed of a charged shot: scaled up by the charge factor.
pub open spec fn charge_speed_spec(q: WeaponProfile) -> int {
    crate::num::mul_capped_spec(q.speed as int, charge_factor_spec(q.heat))
}

/// Damage of a charged shot: scaled up by the charge factor.
pub open spec fn charge_damage_spec(q: WeaponProfile) -> int {
    crate::num::mul_capped_spec(q.damage as int, charge_factor_spec(q.heat))
}

/// Range of a charged shot: scaled by the accumulated heat itself.
pub open spec fn charge_distance_spec(q: WeaponProfile) -> int {
    crate::num::scale_by_ms_spec(q.distance as int, q.heat as int)
}

/// The charge scalings are monotone in the accumulated heat: charging
/// longer never lowers a shot's speed, damage or range, and never widens
/// its spread.
pub proof fn lemma_charge_scaling_monotone(q1: WeaponProfile, q2: WeaponProfile)
    requires
        q1.wf(),
        q2.wf(),
        q1.heat <= q2.heat,
        q1.spread == q2.spread,
        q1.speed == q2.speed,
        q1.damage == q2.damage,
        q1.distance == q2.distance,
    ensures
        charge_factor_spec(q1.heat) <= charge_factor_spec(q2.heat),
        charge_speed_spec(q1) <= charge_speed_spec(q2),
        charge_damage_spec(q1) <= charge_damage_spec(q2),
        charge_distance_spec(q1) <= charge_distance_spec(q2),
        charge_spread_spec(q1) >= charge_spread_spec(q2),
{
    crate::num::lemma_log2_floor_monotone(q1.heat as int, q2.heat as int);
    let f1 = charge_factor_spec(q1.heat);
    let f2 = charge_factor_spec(q2.heat);
    assert(q1.speed * f1 <= q1.speed * f2 && q1.damage * f1 <= q1.damage * f2)
        by (nonlinear_arith)
        requires
            0 <= q1.speed,
            0 <= q1.damage,
            f1 <= f2,
    ;
    assert(q1.distance * q1.heat <= q1.distance * q2.heat) by (nonlinear_arith)
        requires
            0 <= q1.distance,
            q1.heat <= q2.heat,
    ;
    vstd::arithmetic::div_mod::lemma_div_is_ordered(
        q1.distance * q1.heat,
        q1.distance * q2.heat,
        1000,
    );
    vstd::arithmetic::div_mod::lemma_div_is_ordered_by_denominator(q1.spread as int, f1, f2);
}

/// While the weapon is broken its heat only decays; it mends the moment
/// the heat reaches exactly zero.
pub open spec fn broken_cool_spec(p: WeaponProfile, q: i64) -> WeaponProfile {
    if p.broken {
        let h = decay_spec(p.heat, q);
        WeaponProfile { heat: h, broken: h > 0, ..p }
    } else {
        p
    }
}

/// Whether the charging strategy accumulates heat this tick: trigger held,
/// weapon idle, unsuppressed, and ammunition left to charge for.
pub open spec fn charging_charges_spec(
    p: WeaponProfile,
    t: TriggerSignal,
    roll: bool,
    reload: bool,
) -> bool {
    &&& t.pressed
    &&& !roll
    &&& !reload
    &&& p.left_to_fire == 0
    &&& !p.broken
    &&& p.mag_ammo > 0
}

/// Whether the charging strategy releases its burst this tick: the trigger
/// is up, some heat is stored and it reaches the threshold, and nothing
/// suppresses the shot.
pub open spec fn charging_releases_spec(
    p: WeaponProfile,
    t: TriggerSignal,
    roll: bool,
    reload: bool,
) -> bool {
    &&& !t.pressed
    &&& p.heat > 0
    &&& p.heat >= p.min_heat
    &&& !roll
    &&& !reload
    &&& !p.broken
    &&& p.left_to_fire == 0
    &&& p.mag_ammo > 0
}

/// The charging profile just before the flush stage.
pub open spec fn charging_pre_flush_spec(
    p: WeaponProfile,
    t: TriggerSignal,
    roll: bool,
    reload: bool,
    dt: i64,
) -> WeaponProfile {
    let p1 = broken_cool_spec(p, dt);
    let p2 = if roll || reload {
        cancel_burst_spec(p1)
    } else {
        p1
    };
    let p3 = if charging_charges_spec(p2, t, roll, reload) {
        let h = accumulate_ms_spec(p2.heat, dt);
        WeaponProfile { heat: h, broken: h > p2.max_heat, ..p2 }
    } else {
        p2
    };
    if charging_releases_spec(p3, t, roll, reload) {
        WeaponProfile { left_to_fire: p3.min_shot, burst_len: p3.min_shot, ..p3 }
    } else {
        p3
    }
}

/// Whether the charging step flushes a shot.
pub open spec fn charging_fires_spec(
    p: WeaponProfile,
    t: TriggerSignal,
    roll: bool,
    reload: bool,
    dt: i64,
) -> bool {
    let q = charging_pre_flush_spec(p, t, roll, reload, dt);
    !flush_starved_spec(q) && flush_fires_spec(q)
}

/// The full charging step: heat resets once the burst completes.
pub open spec fn charging_step_spec(
    p: WeaponProfile,
    t: TriggerSignal,
    roll: bool,
    reload: bool,
    dt: i64,
) -> WeaponProfile {
    let q = charging_pre_flush_spec(p, t, roll, reload, dt);
    let r = flush_stage_spec(q);
    if charging_fires_spec(p, t, roll, reload, dt) && r.left_to_fire == 0 {
        WeaponProfile { heat: 0, ..r }
    } else {
        r
    }
}

/// Charged firing: heat builds while the trigger is held, the burst fires
/// on release with spread, speed, range and damage scaled by the heat, and
/// overcharging breaks the weapon until its heat decays to zero.
pub fn charging_shoot_fn(
    p: &mut WeaponProfile,
    t: &TriggerSignal,
    roll: bool,
    reload: bool,
    dt: i64,
    aim: i64,
    owner: u64,
    inv: &Inventory,
) -> (spawns: Vec<BulletStats>)
    requires
        old(p).wf(),
        t.wf(),
        0 <= dt <= MAX_TICK_MS,
        -TUNABLE_CAP <= aim <= TUNABLE_CAP,
        inv.wf(),
    ensures
        *final(p) == charging_step_spec(*old(p), *t, roll, reload, dt),
        final(p).wf(),
        spawns@.len() == (if charging_fires_spec(*old(p), *t, roll, reload, dt) {
            old(p).salve as int
        } else {
            0
        }),
        forall|i: int|
            0 <= i < spawns@.len() ==> #[trigger] spawn_ok(
                spawns@[i],
                aim as int,
                charge_spread_spec(charging_pre_flush_spec(*old(p), *t, roll, reload, dt)),
                charge_speed_spec(charging_pre_flush_spec(*old(p), *t, roll, reload, dt)),
                old(p).speed_spread as int,
                charge_distance_spec(charging_pre_flush_spec(*old(p), *t, roll, reload, dt)),
                charge_damage_spec(charging_pre_flush_spec(*old(p), *t, roll, reload, dt)),
                count_items(inv.content@, Items::Mercury),
                owner,
            ),
        forall|i: int| 0 <= i < spawns@.len() ==> (#[trigger] spawns@[i]).wf() && spawns@[i].alive,
        old(p).mag_ammo == 0 ==> spawns@.len() == 0 && final(p).mag_ammo == 0 && final(p).left_to_fire == 0,
{
    if p.broken {
        let h = decay(p.heat, dt);
        p.heat = h;
        p.broken = h > 0;
    }
    if roll || reload {
        p.left_to_fire = 0;
        p.burst_len = 0;
    }
    if t.pressed && !roll && !reload && p.left_to_fire == 0 && !p.broken && p.mag_ammo > 0 {
        let h = crate::accumulate_ms(p.heat, dt);
        p.heat = h;
        p.broken = h > p.max_heat;
    }
    if !t.pressed && p.heat > 0 && p.heat >= p.min_heat && !roll && !reload && !p.broken
        && p.left_to_fire == 0 && p.mag_ammo > 0 {
        p.left_to_fire = p.min_shot;
        p.burst_len = p.min_shot;
    }
    let mut spawns: Vec<BulletStats> = Vec::new();
    if p.left_to_fire > 0 {
        if p.mag_ammo == 0 {
            p.left_to_fire = 0;
            p.burst_len = 0;
        } else if p.left_to_fire == p.burst_len || p.timer >= p.sub_fire_gate() {
            p.timer = 0;
            let f = charge_factor(p.heat);
            let spread_c = p.spread / f;
            let speed_c = crate::num::mul_capped(p.speed, f);
            let damage_c = crate::num::mul_capped(p.damage, f);
            let distance_c = crate::num::scale_by_ms(p.distance, p.heat);
            proof {
                assert(p.speed as int * charge_factor_spec(p.heat) >= p.speed)
                    by (nonlinear_arith)
                    requires
                        0 <= p.speed,
                        charge_factor_spec(p.heat) >= 1,
                ;
            }
            spawns = spawn_salve(
                p.salve,
                aim,
                spread_c,
                speed_c,
                p.speed_spread,
                distance_c,
                damage_c,
                inv,
                owner,
            );
            p.mag_ammo = p.mag_ammo - 1;
            p.left_to_fire = p.left_to_fire - 1;
            if p.left_to_fire == 0 {
                p.burst_len = 0;
                p.heat = 0;
            }
        }
    }
    spawns
}

// ---------------------------------------------------------------------------
// Overheat
// ---------------------------------------------------------------------------

/// Whether the overheat strategy passes its heat pump this tick: trigger
/// held, weapon idle and unsuppressed, magazine loaded, gate elapsed.
pub open spec fn overheat_pumps_spec(
    p: WeaponProfile,
    t: TriggerSignal,
    roll: bool,
    reload: bool,
) -> bool {
    &&& t.pressed
    &&& !roll
    &&& !reload
    &&& p.left_to_fire == 0
    &&& !p.broken
    &&& p.mag_ammo > 0
    &&& p.timer >= p.fire_gate_ms()
}

/// The overheat profile just before the flush stage.
pub open spec fn overheat_pre_flush_spec(
    p: WeaponProfile,
    t: TriggerSignal,
    roll: bool,
    reload: bool,
) -> WeaponProfile {
    let p1 = interrupt_spec(p, roll, reload);
    let p2 = if p1.broken {
        let h = decay_spec(p1.heat, p1.timer);
        WeaponProfile { heat: h, timer: 0, broken: h > 0, ..p1 }
    } else {
        p1
    };
    let p3 = if overheat_pumps_spec(p2, t, roll, reload) {
        let h = accumulate_ms_spec(p2.heat, p2.timer);
        let started = p2.min_heat <= h < p2.max_heat;
        WeaponProfile {
            heat: h,
            timer: 0,
            broken: h > p2.max_heat,
            left_to_fire: if started {
                burst_size_spec(p2) as i64
            } else {
                p2.left_to_fire
            },
            burst_len: if started {
                burst_size_spec(p2) as i64
            } else {
                p2.burst_len
            },
            ..p2
        }
    } else {
        p2
    };
    if !t.pressed && p3.heat > 0 {
        WeaponProfile { heat: decay_spec(p3.heat, p3.timer), timer: 0, ..p3 }
    } else {
        p3
    }
}

/// Whether the overheat step flushes a shot.
pub open spec fn overheat_fires_spec(
    p: WeaponProfile,
    t: TriggerSignal,
    roll: bool,
    reload: bool,
) -> bool {
    let q = overheat_pre_flush_spec(p, t, roll, reload);
    !flush_starved_spec(q) && flush_fires_spec(q)
}

/// The full overheat step.
pub open spec fn overheat_step_spec(
    p: WeaponProfile,
    t: TriggerSignal,
    roll: bool,
    reload: bool,
) -> WeaponProfile {
    flush_stage_spec(overheat_pre_flush_spec(p, t, roll, reload))
}

/// Overheating fire: heat pumps up in gate-sized quanta while the trigger
/// is held and bursts fire while the heat sits between its two thresholds;
/// passing the upper threshold breaks the weapon until the heat has fully
/// decayed, and releasing the trigger bleeds heat off.
pub fn overheat_shoot_fn(
    p: &mut WeaponProfile,
    t: &TriggerSignal,
    roll: bool,
    reload: bool,
    aim: i64,
    owner: u64,
    inv: &Inventory,
) -> (spawns: Vec<BulletStats>)
    requires
        old(p).wf(),
        t.wf(),
        -TUNABLE_CAP <= aim <= TUNABLE_CAP,
        inv.wf(),
    ensures
        *final(p) == overheat_step_spec(*old(p), *t, roll, reload),
        final(p).wf(),
        spawns@.len() == (if overheat_fires_spec(*old(p), *t, roll, reload) {
            old(p).salve as int
        } else {
            0
        }),
        forall|i: int|
            0 <= i < spawns@.len() ==> #[trigger] spawn_ok(
                spawns@[i],
                aim as int,
                old(p).spread as int,
                old(p).speed as int,
                old(p).speed_spread as int,
                old(p).distance as int,
                old(p).damage as int,
                count_items(inv.content@, Items::Mercury),
                owner,
            ),
        forall|i: int| 0 <= i < spawns@.len() ==> (#[trigger] spawns@[i]).wf() && spawns@[i].alive,
        old(p).mag_ammo == 0 ==> spawns@.len() == 0 && final(p).mag_ammo == 0 && final(p).left_to_fire == 0,
{
    if roll || reload || p.broken {
        p.left_to_fire = 0;
        p.burst_len = 0;
    }
    if p.broken {
        let h = decay(p.heat, p.timer);
        p.heat = h;
        p.timer = 0;
        p.broken = h > 0;
    }
    if t.pressed && !roll && !reload && p.left_to_fire == 0 && !p.broken && p.mag_ammo > 0
        && p.timer >= p.fire_gate() {
        let h = crate::accumulate_ms(p.heat, p.timer);
        p.heat = h;
        p.timer = 0;
        if p.min_heat <= h && h < p.max_heat {
            let bs: i64 = if p.min_shot < p.mag_ammo {
                p.min_shot
            } else {
                p.mag_ammo
            };
            p.left_to_fire = bs;
            p.burst_len = bs;
        }
        if h > p.max_heat {
            p.broken = true;
        }
    }
    if !t.pressed && p.heat > 0 {
        let h = decay(p.heat, p.timer);
        p.heat = h;
        p.timer = 0;
    }
    flush_burst(p, aim, owner, inv)
}

// ---------------------------------------------------------------------------
// Dispatch
// ---------------------------------------------------------------------------

/// The full per-tick weapon transition: the timer accumulates the elapsed
/// time, then the archetype's strategy runs.
pub open spec fn shoot_step_spec(
    p: WeaponProfile,
    t: TriggerSignal,
    roll: bool,
    reload: bool,
    dt: i64,
) -> WeaponProfile {
    let q = WeaponProfile::tick_spec(p, dt);
    match p.shoot {
        crate::profile::ShootStrategy::Manual => manual_step_spec(q, t, roll, reload),
        crate::profile::ShootStrategy::Auto => auto_step_spec(q, t, roll, reload),
        crate::profile::ShootStrategy::Charging => charging_step_spec(q, t, roll, reload, dt),
        crate::profile::ShootStrategy::Overheat => overheat_step_spec(q, t, roll, reload),
    }
}

/// Whether the per-tick weapon transition flushes a shot.
pub open spec fn shoot_fires_spec(
    p: WeaponProfile,
    t: TriggerSignal,
    roll: bool,
    reload: bool,
    dt: i64,
) -> bool {
    let q = WeaponProfile::tick_spec(p, dt);
    match p.shoot {
        crate::profile::ShootStrategy::Manual => manual_fires_spec(q, t, roll, reload),
        crate::profile::ShootStrategy::Auto => auto_fires_spec(q, t, roll, reload),
        crate::profile::ShootStrategy::Charging => charging_fires_spec(q, t, roll, reload, dt),
        crate::profile::ShootStrategy::Overheat => overheat_fires_spec(q, t, roll, reload),
    }
}

/// The bullet envelope of the per-tick weapon transition: charged shots are
/// scaled by the heat at flush time, every other strategy spawns with the
/// profile's unscaled tunables.
pub open spec fn shoot_spawn_ok(
    p: WeaponProfile,
    t: TriggerSignal,
    roll: bool,
    reload: bool,
    dt: i64,
    b: BulletStats,
    aim: int,
    mercury: int,
    owner: u64,
) -> bool {
    let q = WeaponProfile::tick_spec(p, dt);
    match p.shoot {
        crate::profile::ShootStrategy::Charging => {
            let c = charging_pre_flush_spec(q, t, roll, reload, dt);
            spawn_ok(
                b,
                aim,
                charge_spread_spec(c),
                charge_speed_spec(c),
                p.speed_spread as int,
                charge_distance_spec(c),
                charge_damage_spec(c),
                mercury,
                owner,
            )
        },
        _ => spawn_ok(
            b,
            aim,
            p.spread as int,
            p.speed as int,
            p.speed_spread as int,
            p.distance as int,
            p.damage as int,
            mercury,
            owner,
        ),
    }
}

/// One weapon tick: accumulates the elapsed time into the cooldown timer
/// and runs the archetype's strategy.
pub fn shooting_system(
    p: &mut WeaponProfile,
    t: &TriggerSignal,
    roll: bool,
    reload: bool,
    dt: i64,
    aim: i64,
    owner: u64,
    inv: &Inventory,
) -> (spawns: Vec<BulletStats>)
    requires
        old(p).wf(),
        t.wf(),
        0 <= dt <= MAX_TICK_MS,
        -TUNABLE_CAP <= aim <= TUNABLE_CAP,
        inv.wf(),
    ensures
        *final(p) == shoot_step_spec(*old(p), *t, roll, reload, dt),
        final(p).wf(),
        spawns@.len() == (if shoot_fires_spec(*old(p), *t, roll, reload, dt) {
            old(p).salve as int
        } else {
            0
        }),
        forall|i: int|
            0 <= i < spawns@.len() ==> #[trigger] shoot_spawn_ok(
                *old(p),
                *t,
                roll,
                reload,
                dt,
                spawns@[i],
                aim as int,
                count_items(inv.content@, Items::Mercury),
                owner,
            ),
        forall|i: int| 0 <= i < spawns@.len() ==> (#[trigger] spawns@[i]).wf() && spawns@[i].alive,
        old(p).mag_ammo == 0 ==> spawns@.len() == 0 && final(p).mag_ammo == 0 && final(p).left_to_fire == 0,
{
    p.tick(dt);
    match p.shoot {
        crate::profile::ShootStrategy::Manual => manual_shoot_fn(p, t, roll, reload, aim, owner, inv),
        crate::profile::ShootStrategy::Auto => auto_shoot_fn(p, t, roll, reload, aim, owner, inv),
        crate::profile::ShootStrategy::Charging => charging_shoot_fn(
            p,
            t,
            roll,
            reload,
            dt,
            aim,
            owner,
            inv,
        ),
        crate::profile::ShootStrategy::Overheat => overheat_shoot_fn(
            p,
            t,
            roll,
            reload,
            aim,
            owner,
            inv,
        ),
    }
}

} // verus!
