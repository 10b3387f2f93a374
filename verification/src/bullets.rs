//! Spawned projectiles: kinematics and distance-bounded lifetime.

use vstd::prelude::*;

use crate::MAX_TICK_MS;
use crate::num::VALUE_CAP;

verus! {

/// Cap on a bullet's in-flight speed, in milli-units per second.
pub const BULLET_SPEED_CAP: i64 = 2_000_000_000_000_000;

/// Cap on the distance accumulator, in milli-unit-milliseconds.
pub const TRAVEL_CAP: i64 = 2_000_000_000_000_000_000;

/// Cap on the magnitude of a bullet's angle, in milliradians.
pub const ANGLE_CAP: i64 = 2_000_000_000;

/// Largest number of mercury charges a bullet can carry.
pub const MERCURY_CAP: i64 = 1_000;

/// A projectile in flight.
///
/// `distance` is the travel budget in milli-units; `distance_traveled`
/// accumulates `speed * dt` and is therefore measured in
/// milli-unit-milliseconds, a thousand of which make one milli-unit of
/// distance.
#[derive(Clone, Copy, PartialEq, Eq, Structural, Debug)]
pub struct BulletStats {
    /// Flight direction, in milliradians.
    pub angle: i64,
    /// Damage dealt on impact, captured at spawn time.
    pub damages: i64,
    /// Travel distance budget, in milli-units.
    pub distance: i64,
    /// Distance accumulator, in milli-unit-milliseconds.
    pub distance_traveled: i64,
    /// Current speed, in milli-units per second.
    pub speed: i64,
    /// Mercury charges carried: they slowed the spawn and now accelerate
    /// the flight.
    pub mercury_amount: i64,
    /// Handle of the combatant that fired this bullet.
    pub owner: u64,
    /// Cleared when the bullet despawns; a despawned bullet ignores every
    /// further event.
    pub alive: bool,
}

impl BulletStats {
    /// Well-formedness: every quantity inside its cap.
    pub open spec fn wf(self) -> bool {
        &&& -ANGLE_CAP <= self.angle <= ANGLE_CAP
        &&& 0 <= self.damages <= VALUE_CAP
        &&& 0 <= self.distance <= VALUE_CAP
        &&& 0 <= self.distance_traveled <= TRAVEL_CAP
        &&& 0 <= self.speed <= BULLET_SPEED_CAP
        &&& 0 <= self.mercury_amount <= MERCURY_CAP
    }

    /// The travel budget has been used up.
    pub open spec fn exhausted_spec(self) -> bool {
        self.distance_traveled > self.distance * 1000
    }
}

/// What [`marine_bullet`] returns.
pub open spec fn marine_bullet_spec(
    angle: i64,
    spd: i64,
    distance: i64,
    damage: i64,
    mercury: i64,
    owner: u64,
) -> BulletStats {
    BulletStats {
        angle,
        damages: damage,
        distance,
        distance_traveled: 0,
        speed: (spd / (mercury * 3 + 1) as i64) as i64,
        mercury_amount: mercury,
        owner,
        alive: true,
    }
}

/// Builds one bullet at the barrel end: each mercury charge slows the spawn
/// by an extra factor of three.
pub fn marine_bullet(angle: i64, spd: i64, distance: i64, damage: i64, mercury: i64, owner: u64)
    -> (r: BulletStats)
    requires
        -ANGLE_CAP <= angle <= ANGLE_CAP,
        0 <= spd <= BULLET_SPEED_CAP,
        0 <= distance <= VALUE_CAP,
        0 <= damage <= VALUE_CAP,
        0 <= mercury <= MERCURY_CAP,
    ensures
        r == marine_bullet_spec(angle, spd, distance, damage, mercury, owner),
        r.wf(),
        r.alive,
{
    let divisor: i64 = mercury * 3 + 1;
    let speed: i64 = spd / divisor;
    BulletStats {
        angle,
        damages: damage,
        distance,
        distance_traveled: 0,
        speed,
        mercury_amount: mercury,
        owner,
        alive: true,
    }
}

/// What one motion step does to a bullet: mercury charges add speed, then
/// the new speed advances the distance accumulator.
pub open spec fn bullet_tick_spec(b: BulletStats, dt: i64) -> BulletStats {
    let spd = if b.speed + 70 * b.mercury_amount * dt > BULLET_SPEED_CAP {
        BULLET_SPEED_CAP as int
    } else {
        b.speed + 70 * b.mercury_amount * dt
    };
    let traveled = if b.distance_traveled + spd * dt > TRAVEL_CAP {
        TRAVEL_CAP as int
    } else {
        b.distance_traveled + spd * dt
    };
    BulletStats { speed: spd as i64, distance_traveled: traveled as i64, ..b }
}

/// Advances one bullet by one tick.
pub fn bullet_tick(b: &mut BulletStats, dt: i64)
    requires
        old(b).wf(),
        0 <= dt <= MAX_TICK_MS,
    ensures
        *final(b) == bullet_tick_spec(*old(b), dt),
        final(b).wf(),
        final(b).distance_traveled >= old(b).distance_traveled,
{
    proof {
        assert(0 <= 70 * (b.mercury_amount as int) * (dt as int) <= 70_000_000_000int)
            by (nonlinear_arith)
            requires
                0 <= b.mercury_amount <= 1_000int,
                0 <= dt <= 1_000_000int,
        ;
    }
    let boost: i64 = 70 * b.mercury_amount * dt;
    if b.speed + boost > BULLET_SPEED_CAP {
        b.speed = BULLET_SPEED_CAP;
    } else {
        b.speed = b.speed + boost;
    }
    proof {
        assert(0 <= (b.speed as int) * (dt as int) <= 2_000_000_000_000_000int * 1_000_000int)
            by (nonlinear_arith)
            requires
                0 <= b.speed <= 2_000_000_000_000_000int,
                0 <= dt <= 1_000_000int,
        ;
    }
    let advanced: i128 = (b.distance_traveled as i128) + (b.speed as i128) * (dt as i128);
    if advanced > TRAVEL_CAP as i128 {
        b.distance_traveled = TRAVEL_CAP;
    } else {
        b.distance_traveled = advanced as i64;
    }
}

/// Whether the despawn pass removes this bullet for distance exhaustion.
pub fn bullet_exhausted(b: &BulletStats) -> (r: bool)
    requires
        b.wf(),
    ensures
        r == b.exhausted_spec(),
{
    proof {
        assert((b.distance as int) * 1000 <= 1_000_000_000_000_000int * 1000) by (nonlinear_arith)
            requires
                0 <= b.distance <= 1_000_000_000_000_000int,
        ;
        assert((b.distance as int) * 1000 >= 0) by (nonlinear_arith)
            requires
                b.distance >= 0,
        ;
    }
    b.distance_traveled > b.distance * 1000
}

/// Advances every live bullet by one tick; despawned slots are untouched.
pub fn move_bullets(bullets: &mut Vec<BulletStats>, dt: i64)
    requires
        forall|i: int| 0 <= i < old(bullets)@.len() ==> #[trigger] old(bullets)@[i].wf(),
        0 <= dt <= MAX_TICK_MS,
    ensures
        final(bullets)@.len() == old(bullets)@.len(),
        forall|i: int|
            0 <= i < old(bullets)@.len() ==> #[trigger] final(bullets)@[i] == (if old(
                bullets,
            )@[i].alive {
                bullet_tick_spec(old(bullets)@[i], dt)
            } else {
                old(bullets)@[i]
            }),
        forall|i: int| 0 <= i < final(bullets)@.len() ==> #[trigger] final(bullets)@[i].wf(),
{
    let mut i: usize = 0;
    while i < bullets.len()
        invariant
            i <= bullets@.len(),
            bullets@.len() == old(bullets)@.len(),
            forall|j: int| 0 <= j < old(bullets)@.len() ==> #[trigger] old(bullets)@[j].wf(),
            0 <= dt <= MAX_TICK_MS,
            forall|j: int|
                i <= j < bullets@.len() ==> #[trigger] bullets@[j] == old(bullets)@[j],
            forall|j: int|
                0 <= j < i ==> #[trigger] bullets@[j] == (if old(bullets)@[j].alive {
                    bullet_tick_spec(old(bullets)@[j], dt)
                } else {
                    old(bullets)@[j]
                }),
            forall|j: int| 0 <= j < i ==> #[trigger] bullets@[j].wf(),
        decreases bullets@.len() - i,
    {
        if bullets[i].alive {
            let mut b = bullets[i];
            bullet_tick(&mut b, dt);
            bullets.set(i, b);
        }
        i = i + 1;
    }
}

/// Marks every live, distance-exhausted bullet as despawned.  Bullets the
/// collision pass already despawned are skipped, so no bullet sees two
/// removal events.
pub fn despawn_exhausted(bullets: &mut Vec<BulletStats>)
    requires
        forall|i: int| 0 <= i < old(bullets)@.len() ==> #[trigger] old(bullets)@[i].wf(),
    ensures
        final(bullets)@.len() == old(bullets)@.len(),
        forall|i: int|
            0 <= i < old(bullets)@.len() ==> #[trigger] final(bullets)@[i] == (if old(
                bullets,
            )@[i].alive && old(bullets)@[i].exhausted_spec() {
                BulletStats { alive: false, ..old(bullets)@[i] }
            } else {
                old(bullets)@[i]
            }),
        forall|i: int| 0 <= i < final(bullets)@.len() ==> #[trigger] final(bullets)@[i].wf(),
{
    let mut i: usize = 0;
    while i < bullets.len()
        invariant
            i <= bullets@.len(),
            bullets@.len() == old(bullets)@.len(),
            forall|j: int| 0 <= j < old(bullets)@.len() ==> #[trigger] old(bullets)@[j].wf(),
            forall|j: int|
                i <= j < bullets@.len() ==> #[trigger] bullets@[j] == old(bullets)@[j],
            forall|j: int|
                0 <= j < i ==> #[trigger] bullets@[j] == (if old(bullets)@[j].alive && old(
                    bullets,
                )@[j].exhausted_spec() {
                    BulletStats { alive: false, ..old(bullets)@[j] }
                } else {
                    old(bullets)@[j]
                }),
            forall|j: int| 0 <= j < i ==> #[trigger] bullets@[j].wf(),
        decreases bullets@.len() - i,
    {
        if bullets[i].alive && bullet_exhausted(&bullets[i]) {
            let mut b = bullets[i];
            b.alive = false;
            bullets.set(i, b);
            proof {
                assert(old(bullets)@[i as int].wf());
                assert(bullets@[i as int] == BulletStats { alive: false, ..old(bullets)@[i as int] });
                assert(bullets@[i as int].wf());
            }
        }
        i = i + 1;
    }
}

} // verus!
