//! Classifies contact events and applies damage and despawns.

use vstd::prelude::*;

use crate::bullets::BulletStats;
use crate::num::VALUE_CAP;
use crate::stats::PlayerStats;

verus! {

/// A combatant as the collision pass sees it: its handle, its combat
/// statistics, and whether it is mid-roll (and therefore untouchable).
#[derive(Clone, Copy, PartialEq, Eq, Structural, Debug)]
pub struct Combatant {
    /// Entity handle, matched against bullet owners.
    pub id: u64,
    /// The combat statistics damage is applied to.
    pub stats: PlayerStats,
    /// A rolling combatant is skipped by the collision rules.
    pub rolling: bool,
}

impl Combatant {
    /// Well-formedness of the carried statistics.
    pub open spec fn wf(self) -> bool {
        self.stats.wf()
    }
}

/// One side of a contact event, already classified by the collision layer.
#[derive(Clone, Copy, PartialEq, Eq, Structural, Debug)]
pub enum BodyRef {
    /// A bullet, by its slot in the bullet table.
    BulletBody(usize),
    /// A wall.
    WallBody,
    /// A combatant, by its slot in the combatant table.
    CombatantBody(usize),
    /// Anything else; such contacts are ignored.
    OtherBody,
}

/// A "contact started" event naming two bodies.
#[derive(Clone, Copy, PartialEq, Eq, Structural, Debug)]
pub struct ContactEvent {
    /// One body of the contact.
    pub a: BodyRef,
    /// The other body of the contact.
    pub b: BodyRef,
}

/// The damage a combatant takes from a bullet:
/// `(damage + damages_added) * damages_multiplier`, with the multiplier a
/// percentage, saturated at [`VALUE_CAP`].
pub open spec fn damage_dealt_spec(damage: int, c: Combatant) -> int {
    let raw = (damage + c.stats.damages_added) * c.stats.damages_multiplier / 100;
    if raw > VALUE_CAP {
        VALUE_CAP as int
    } else {
        raw
    }
}

/// Executable form of [`damage_dealt_spec`].
pub fn damage_dealt(damage: i64, c: &Combatant) -> (r: i64)
    requires
        0 <= damage <= VALUE_CAP,
        c.wf(),
    ensures
        r == damage_dealt_spec(damage as int, *c),
        0 <= r <= VALUE_CAP,
{
    proof {
        let s = damage + c.stats.damages_added;
        let m = c.stats.damages_multiplier as int;
        assert(0 <= s * m <= 2_000_000_000_000_000int * 1_000_000_000int) by (nonlinear_arith)
            requires
                0 <= s <= 2_000_000_000_000_000int,
                0 <= m <= 1_000_000_000int,
        ;
    }
    let raw: i128 = ((damage as i128) + (c.stats.damages_added as i128))
        * (c.stats.damages_multiplier as i128) / 100;
    if raw > VALUE_CAP as i128 {
        VALUE_CAP
    } else {
        raw as i64
    }
}

/// The health a combatant is left with after taking a bullet's damage,
/// saturated at the health floor.
pub open spec fn health_after_spec(c: Combatant, damage: int) -> int {
    let dealt = damage_dealt_spec(damage, c);
    if c.stats.current_health - dealt < -VALUE_CAP {
        -VALUE_CAP as int
    } else {
        c.stats.current_health - dealt
    }
}

/// The side of the event that is a live bullet, checked in the event's
/// order, together with the opposing side.
pub open spec fn event_bullet_spec(bullets: Seq<BulletStats>, ev: ContactEvent) -> Option<
    (int, BodyRef),
> {
    if ev.a matches BodyRef::BulletBody(i) && i < bullets.len() && bullets[i as int].alive {
        Some((ev.a->BulletBody_0 as int, ev.b))
    } else if ev.b matches BodyRef::BulletBody(i) && i < bullets.len() && bullets[
        i as int
    ].alive {
        Some((ev.b->BulletBody_0 as int, ev.a))
    } else {
        None
    }
}

/// What one contact event does to the bullet and combatant tables:
/// a bullet on a wall despawns; a bullet on a combatant other than its
/// owner (and not mid-roll) deals its damage and despawns; a bullet on its
/// owner, a rolling combatant, a stale slot, or any other pairing changes
/// nothing.  Events without a live bullet side are ignored.
pub open spec fn resolve_contact_spec(
    bullets: Seq<BulletStats>,
    combatants: Seq<Combatant>,
    ev: ContactEvent,
) -> (Seq<BulletStats>, Seq<Combatant>) {
    match event_bullet_spec(bullets, ev) {
        Some((i, other)) => match other {
            BodyRef::WallBody => (
                bullets.update(i, BulletStats { alive: false, ..bullets[i] }),
                combatants,
            ),
            BodyRef::CombatantBody(j) => {
                if j < combatants.len() && !combatants[j as int].rolling && combatants[
                    j as int
                ].id != bullets[i].owner {
                    let c = combatants[j as int];
                    let hurt = Combatant {
                        stats: PlayerStats {
                            current_health: health_after_spec(c, bullets[i].damages as int) as i64,
                            ..c.stats
                        },
                        ..c
                    };
                    (
                        bullets.update(i, BulletStats { alive: false, ..bullets[i] }),
                        combatants.update(j as int, hurt),
                    )
                } else {
                    (bullets, combatants)
                }
            },
            _ => (bullets, combatants),
        },
        None => (bullets, combatants),
    }
}

/// What a whole batch of contact events does, applied in order.
pub open spec fn resolve_batch_spec(
    bullets: Seq<BulletStats>,
    combatants: Seq<Combatant>,
    events: Seq<ContactEvent>,
) -> (Seq<BulletStats>, Seq<Combatant>)
    decreases events.len(),
{
    if events.len() == 0 {
        (bullets, combatants)
    } else {
        let prior = resolve_batch_spec(bullets, combatants, events.drop_last());
        resolve_contact_spec(prior.0, prior.1, events.last())
    }
}

/// Applies one contact event to the tables.
fn resolve_contact(
    bullets: &mut Vec<BulletStats>,
    combatants: &mut Vec<Combatant>,
    ev: &ContactEvent,
)
    requires
        forall|i: int| 0 <= i < old(bullets)@.len() ==> (#[trigger] old(bullets)@[i]).wf(),
        forall|i: int| 0 <= i < old(combatants)@.len() ==> (#[trigger] old(combatants)@[i]).wf(),
    ensures
        final(bullets)@ == resolve_contact_spec(old(bullets)@, old(combatants)@, *ev).0,
        final(combatants)@ == resolve_contact_spec(old(bullets)@, old(combatants)@, *ev).1,
        final(bullets)@.len() == old(bullets)@.len(),
        final(combatants)@.len() == old(combatants)@.len(),
        forall|i: int| 0 <= i < final(bullets)@.len() ==> (#[trigger] final(bullets)@[i]).wf(),
        forall|i: int|
            0 <= i < final(combatants)@.len() ==> (#[trigger] final(combatants)@[i]).wf(),
{
    let bullet_side: Option<(usize, BodyRef)> = match ev.a {
        BodyRef::BulletBody(i) => {
            if i < bullets.len() && bullets[i].alive {
                Some((i, ev.b))
            } else {
                match ev.b {
                    BodyRef::BulletBody(j) => {
                        if j < bullets.len() && bullets[j].alive {
                            Some((j, ev.a))
                        } else {
                            None
                        }
                    },
                    _ => None,
                }
            }
        },
        _ => {
            match ev.b {
                BodyRef::BulletBody(j) => {
                    if j < bullets.len() && bullets[j].alive {
                        Some((j, ev.a))
                    } else {
                        None
                    }
                },
                _ => None,
            }
        },
    };
    if let Some((i, other)) = bullet_side {
        match other {
            BodyRef::WallBody => {
                let mut b = bullets[i];
                b.alive = false;
                bullets.set(i, b);
            },
            BodyRef::CombatantBody(j) => {
                if j < combatants.len() && !combatants[j].rolling && combatants[j].id
                    != bullets[i].owner {
                    let dealt = damage_dealt(bullets[i].damages, &combatants[j]);
                    let mut c = combatants[j];
                    if c.stats.current_health - dealt < -VALUE_CAP {
                        c.stats.current_health = -VALUE_CAP;
                    } else {
                        c.stats.current_health = c.stats.current_health - dealt;
                    }
                    combatants.set(j, c);
                    let mut b = bullets[i];
                    b.alive = false;
                    bullets.set(i, b);
                }
            },
            _ => {},
        }
    }
}

/// Consumes one batch of contact events in order.  Each event is processed
/// exactly once, and an event naming a bullet already despawned earlier in
/// the batch is ignored rather than treated as an error.
pub fn detect_collision_bullets(
    bullets: &mut Vec<BulletStats>,
    combatants: &mut Vec<Combatant>,
    events: &Vec<ContactEvent>,
)
    requires
        forall|i: int| 0 <= i < old(bullets)@.len() ==> (#[trigger] old(bullets)@[i]).wf(),
        forall|i: int| 0 <= i < old(combatants)@.len() ==> (#[trigger] old(combatants)@[i]).wf(),
    ensures
        final(bullets)@ == resolve_batch_spec(old(bullets)@, old(combatants)@, events@).0,
        final(combatants)@ == resolve_batch_spec(old(bullets)@, old(combatants)@, events@).1,
        final(bullets)@.len() == old(bullets)@.len(),
        final(combatants)@.len() == old(combatants)@.len(),
        forall|i: int| 0 <= i < final(bullets)@.len() ==> (#[trigger] final(bullets)@[i]).wf(),
        forall|i: int|
            0 <= i < final(combatants)@.len() ==> (#[trigger] final(combatants)@[i]).wf(),
{
    let mut k: usize = 0;
    while k < events.len()
        invariant
            k <= events@.len(),
            bullets@ == resolve_batch_spec(old(bullets)@, old(combatants)@, events@.take(k as int)).0,
            combatants@ == resolve_batch_spec(
                old(bullets)@,
                old(combatants)@,
                events@.take(k as int),
            ).1,
            bullets@.len() == old(bullets)@.len(),
            combatants@.len() == old(combatants)@.len(),
            forall|i: int| 0 <= i < bullets@.len() ==> (#[trigger] bullets@[i]).wf(),
            forall|i: int| 0 <= i < combatants@.len() ==> (#[trigger] combatants@[i]).wf(),
        decreases events@.len() - k,
    {
        let ev = events[k];
        resolve_contact(bullets, combatants, &ev);
        proof {
            assert(events@.take(k + 1).drop_last() =~= events@.take(k as int));
            assert(events@.take(k + 1).last() == events@[k as int]);
        }
        k = k + 1;
    }
    proof {
        assert(events@.take(events@.len() as int) =~= events@);
    }
}

} // verus!
