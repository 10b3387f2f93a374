//! The library-wide laws: invariants over arbitrary tick sequences, the
//! fire-rate cooldown, and the suppression and overheat guarantees, stated
//! over the spec-level step functions that every executable function is
//! proved equal to.

use vstd::prelude::*;

use crate::MAX_TICK_MS;
use crate::accumulate_ms_spec;
use crate::profile::ShootStrategy;
use crate::profile::TriggerSignal;
use crate::profile::WeaponProfile;
use crate::reload::ReloadStats;
use crate::reload::reload_step_spec;
use crate::shoot::auto_starts_spec;
use crate::shoot::interrupt_spec;
use crate::shoot::manual_starts_spec;
use crate::shoot::shoot_fires_spec;
use crate::shoot::shoot_step_spec;

verus! {

/// One event of a combatant's life, as the per-tick systems apply them.
pub enum TickEvent {
    /// One shoot-strategy tick.
    Shot {
        /// The fire trigger this tick.
        t: TriggerSignal,
        /// A roll is present.
        roll: bool,
        /// A reload is present.
        reload: bool,
        /// Elapsed time, in milliseconds.
        dt: i64,
    },
    /// One reload-strategy tick.
    Reload {
        /// The running reload state.
        rs: ReloadStats,
        /// A roll is present, pausing the reload clock.
        roll: bool,
        /// Elapsed time, in milliseconds.
        dt: i64,
    },
}

/// Well-formedness of one event's payload.
pub open spec fn event_wf(e: TickEvent) -> bool {
    match e {
        TickEvent::Shot { t, roll, reload, dt } => t.wf() && 0 <= dt <= MAX_TICK_MS,
        TickEvent::Reload { rs, roll, dt } => rs.wf() && 0 <= dt <= MAX_TICK_MS,
    }
}

/// What one event does to the weapon profile.
pub open spec fn apply_event_spec(p: WeaponProfile, e: TickEvent) -> WeaponProfile {
    match e {
        TickEvent::Shot { t, roll, reload, dt } => shoot_step_spec(p, t, roll, reload, dt),
        TickEvent::Reload { rs, roll, dt } => reload_step_spec(p, rs, roll, dt),
    }
}

/// The profile after a whole sequence of events, applied in order.
pub open spec fn run_spec(p: WeaponProfile, events: Seq<TickEvent>) -> WeaponProfile
    decreases events.len(),
{
    if events.len() == 0 {
        p
    } else {
        apply_event_spec(run_spec(p, events.drop_last()), events.last())
    }
}

/// One shoot-strategy tick preserves the profile invariant.
pub proof fn lemma_shoot_step_preserves_wf(
    p: WeaponProfile,
    t: TriggerSignal,
    roll: bool,
    reload: bool,
    dt: i64,
)
    requires
        p.wf(),
        t.wf(),
        0 <= dt <= MAX_TICK_MS,
    ensures
        shoot_step_spec(p, t, roll, reload, dt).wf(),
{
}

/// One reload-strategy tick preserves the profile invariant.
pub proof fn lemma_reload_step_preserves_wf(p: WeaponProfile, rs: ReloadStats, roll: bool, dt: i64)
    requires
        p.wf(),
        rs.wf(),
        0 <= dt <= MAX_TICK_MS,
    ensures
        reload_step_spec(p, rs, roll, dt).wf(),
{
}

/// For every weapon profile and any sequence of ticks, the ammunition
/// counters stay inside their capacities: `0 <= mag_ammo <= mag_size` and
/// `0 <= ammo <= max_ammo` hold at every observation point, as does the
/// whole profile invariant.
pub proof fn lemma_run_preserves_invariants(p: WeaponProfile, events: Seq<TickEvent>)
    requires
        p.wf(),
        forall|i: int| 0 <= i < events.len() ==> #[trigger] event_wf(events[i]),
    ensures
        run_spec(p, events).wf(),
        0 <= run_spec(p, events).mag_ammo <= run_spec(p, events).mag_size,
        0 <= run_spec(p, events).ammo <= run_spec(p, events).max_ammo,
    decreases events.len(),
{
    if events.len() > 0 {
        lemma_run_preserves_invariants(p, events.drop_last());
        let prior = run_spec(p, events.drop_last());
        assert(event_wf(events[events.len() - 1]));
        match events.last() {
            TickEvent::Shot { t, roll, reload, dt } => {
                lemma_shoot_step_preserves_wf(prior, t, roll, reload, dt);
            },
            TickEvent::Reload { rs, roll, dt } => {
                lemma_reload_step_preserves_wf(prior, rs, roll, dt);
            },
        }
    }
}

/// Firing with an empty magazine never spawns a bullet, never consumes a
/// round, and never drives `left_to_fire` below zero: the burst simply dies.
pub proof fn lemma_empty_mag_never_fires(
    p: WeaponProfile,
    t: TriggerSignal,
    roll: bool,
    reload: bool,
    dt: i64,
)
    requires
        p.wf(),
        t.wf(),
        0 <= dt <= MAX_TICK_MS,
        p.mag_ammo == 0,
    ensures
        !shoot_fires_spec(p, t, roll, reload, dt),
        shoot_step_spec(p, t, roll, reload, dt).mag_ammo == 0,
        shoot_step_spec(p, t, roll, reload, dt).left_to_fire == 0,
{
}

/// While the owner rolls or reloads, any in-progress burst is cancelled
/// outright this very tick and no bullet is spawned, whatever the strategy.
pub proof fn lemma_suppression_cancels_burst(
    p: WeaponProfile,
    t: TriggerSignal,
    roll: bool,
    reload: bool,
    dt: i64,
)
    requires
        p.wf(),
        t.wf(),
        0 <= dt <= MAX_TICK_MS,
        roll || reload,
    ensures
        shoot_step_spec(p, t, roll, reload, dt).left_to_fire == 0,
        !shoot_fires_spec(p, t, roll, reload, dt),
{
}

/// Whether this tick's step starts a new burst, for the cooldown-based
/// strategies.
pub open spec fn step_starts_burst_spec(
    p: WeaponProfile,
    t: TriggerSignal,
    roll: bool,
    reload: bool,
    dt: i64,
) -> bool {
    let q = WeaponProfile::tick_spec(p, dt);
    match p.shoot {
        ShootStrategy::Manual => manual_starts_spec(interrupt_spec(q, roll, reload), t, roll, reload),
        ShootStrategy::Auto => auto_starts_spec(interrupt_spec(q, roll, reload), t, roll, reload),
        _ => false,
    }
}

/// A burst start of the manual or auto strategy demands that the full
/// burst-start gate, `1_000_000 / fire_rate` milliseconds, has accumulated
/// on the timer; starting rearms the timer to zero.
pub proof fn lemma_burst_start_needs_gate(
    p: WeaponProfile,
    t: TriggerSignal,
    roll: bool,
    reload: bool,
    dt: i64,
)
    requires
        p.wf(),
        t.wf(),
        0 <= dt <= MAX_TICK_MS,
        step_starts_burst_spec(p, t, roll, reload, dt),
    ensures
        accumulate_ms_spec(p.timer, dt) >= p.fire_gate_ms(),
        shoot_step_spec(p, t, roll, reload, dt).timer == 0,
{
}

/// No step raises the timer above its ticked value, and no step changes
/// the archetype's tunables or strategy.
pub proof fn lemma_step_timer_bound(
    p: WeaponProfile,
    t: TriggerSignal,
    roll: bool,
    reload: bool,
    dt: i64,
)
    requires
        p.wf(),
        t.wf(),
        0 <= dt <= MAX_TICK_MS,
    ensures
        shoot_step_spec(p, t, roll, reload, dt).timer <= accumulate_ms_spec(p.timer, dt),
        shoot_step_spec(p, t, roll, reload, dt).timer <= p.timer + dt,
        shoot_step_spec(p, t, roll, reload, dt).fire_rate == p.fire_rate,
        shoot_step_spec(p, t, roll, reload, dt).shoot == p.shoot,
{
}

/// The elapsed time carried by a sequence of shot events.
pub open spec fn sum_dt_spec(events: Seq<TickEvent>) -> int
    decreases events.len(),
{
    if events.len() == 0 {
        0
    } else {
        sum_dt_spec(events.drop_last()) + match events.last() {
            TickEvent::Shot { t, roll, reload, dt } => dt as int,
            TickEvent::Reload { rs, roll, dt } => 0int,
        }
    }
}

/// All events of a run are shot events.
pub open spec fn all_shots_spec(events: Seq<TickEvent>) -> bool {
    forall|i: int|
        0 <= i < events.len() ==> (#[trigger] events[i]) matches TickEvent::Shot { .. }
}

/// Along a run of shot events, the timer never exceeds its starting value
/// plus the elapsed time, and the tunables stay put.
pub proof fn lemma_run_timer_bound(p: WeaponProfile, events: Seq<TickEvent>)
    requires
        p.wf(),
        forall|i: int| 0 <= i < events.len() ==> #[trigger] event_wf(events[i]),
        all_shots_spec(events),
    ensures
        run_spec(p, events).timer <= p.timer + sum_dt_spec(events),
        run_spec(p, events).fire_rate == p.fire_rate,
        run_spec(p, events).shoot == p.shoot,
    decreases events.len(),
{
    lemma_run_preserves_invariants(p, events);
    if events.len() > 0 {
        assert(all_shots_spec(events.drop_last())) by {
            assert(forall|i: int|
                0 <= i < events.len() - 1 ==> events.drop_last()[i] == #[trigger] events[i]);
        }
        lemma_run_timer_bound(p, events.drop_last());
        lemma_run_preserves_invariants(p, events.drop_last());
        let prior = run_spec(p, events.drop_last());
        assert(event_wf(events[events.len() - 1]));
        assert(events[events.len() - 1] matches TickEvent::Shot { .. });
        match events.last() {
            TickEvent::Shot { t, roll, reload, dt } => {
                lemma_step_timer_bound(prior, t, roll, reload, dt);
            },
            TickEvent::Reload { rs, roll, dt } => {},
        }
    }
}

/// The fire-rate cooldown, for manual and auto alike: starting from a
/// freshly rearmed timer, no burst can start at any point of a run of
/// ticks whose total elapsed time stays below `1_000_000 / fire_rate`
/// milliseconds — releasing and re-pressing the trigger, or spamming its
/// rising edge, cannot bypass the cooldown.
pub proof fn lemma_cooldown_between_bursts(p: WeaponProfile, events: Seq<TickEvent>, k: int)
    requires
        p.wf(),
        p.timer == 0,
        forall|i: int| 0 <= i < events.len() ==> #[trigger] event_wf(events[i]),
        all_shots_spec(events),
        sum_dt_spec(events) < p.fire_gate_ms(),
        0 <= k < events.len(),
    ensures
        !(events[k] matches TickEvent::Shot { t, roll, reload, dt } && step_starts_burst_spec(
            run_spec(p, events.take(k)),
            t,
            roll,
            reload,
            dt,
        )),
{
    let prefix = events.take(k);
    assert(forall|i: int| 0 <= i < prefix.len() ==> #[trigger] event_wf(prefix[i]) && prefix[i]
        == events[i]);
    assert(all_shots_spec(prefix)) by {
        assert(forall|i: int| 0 <= i < prefix.len() ==> prefix[i] == #[trigger] events[i]);
    }
    lemma_run_timer_bound(p, prefix);
    lemma_run_preserves_invariants(p, prefix);
    lemma_sum_dt_prefix_bound(events, k);
    let prior = run_spec(p, prefix);
    match events[k] {
        TickEvent::Shot { t, roll, reload, dt } => {
            if step_starts_burst_spec(prior, t, roll, reload, dt) {
                lemma_burst_start_needs_gate(prior, t, roll, reload, dt);
                assert(event_wf(events[k]));
                assert(accumulate_ms_spec(prior.timer, dt) <= prior.timer + dt);
                assert(prior.timer + dt <= sum_dt_spec(prefix) + dt);
                assert(false);
            }
        },
        TickEvent::Reload { .. } => {},
    }
}

/// The elapsed time of a prefix, extended by one event, never exceeds the
/// elapsed time of the whole run.
proof fn lemma_sum_dt_prefix_bound(events: Seq<TickEvent>, k: int)
    requires
        0 <= k < events.len(),
        forall|i: int| 0 <= i < events.len() ==> #[trigger] event_wf(events[i]),
    ensures
        sum_dt_spec(events.take(k)) + (match events[k] {
            TickEvent::Shot { t, roll, reload, dt } => dt as int,
            TickEvent::Reload { rs, roll, dt } => 0int,
        }) <= sum_dt_spec(events),
    decreases events.len(),
{
    if k == events.len() - 1 {
        assert(events.take(k + 1).drop_last() =~= events.take(k));
        assert(events.take(k + 1) =~= events);
    } else {
        assert(events.drop_last().take(k) =~= events.take(k));
        assert(forall|i: int|
            0 <= i < events.len() - 1 ==> events.drop_last()[i] == #[trigger] events[i]);
        lemma_sum_dt_prefix_bound(events.drop_last(), k);
        assert(event_wf(events[events.len() - 1]));
    }
}

/// Crossing the overheat limit breaks the weapon and forces
/// `left_to_fire` to zero at once, regardless of remaining ammunition; a
/// broken weapon stays broken exactly until its heat decays to zero.
pub proof fn lemma_overheat_breaks_and_mends(
    p: WeaponProfile,
    t: TriggerSignal,
    roll: bool,
    reload: bool,
    dt: i64,
)
    requires
        p.wf(),
        t.wf(),
        0 <= dt <= MAX_TICK_MS,
        p.shoot == ShootStrategy::Overheat,
    ensures
        shoot_step_spec(p, t, roll, reload, dt).broken ==> shoot_step_spec(
            p,
            t,
            roll,
            reload,
            dt,
        ).left_to_fire == 0,
        p.broken ==> (shoot_step_spec(p, t, roll, reload, dt).broken <==> crate::shoot::decay_spec(
            p.heat,
            accumulate_ms_spec(p.timer, dt),
        ) > 0),
{
}

/// A weapon that is broken and has not yet mended — its heat has not
/// decayed to exactly zero within this tick — never fires.
pub proof fn lemma_broken_never_fires(
    p: WeaponProfile,
    t: TriggerSignal,
    roll: bool,
    reload: bool,
    dt: i64,
)
    requires
        p.wf(),
        t.wf(),
        0 <= dt <= MAX_TICK_MS,
        p.broken,
        shoot_step_spec(p, t, roll, reload, dt).broken,
    ensures
        !shoot_fires_spec(p, t, roll, reload, dt),
{
}

/// The positive half of the fire-rate law: a rising trigger edge on an
/// idle, unsuppressed, unbroken manual weapon with a loaded magazine and a
/// fully elapsed gate starts a burst, and its first shot flushes at once.
pub proof fn lemma_ready_manual_fires(
    p: WeaponProfile,
    t: TriggerSignal,
    roll: bool,
    reload: bool,
    dt: i64,
)
    requires
        p.wf(),
        t.wf(),
        0 <= dt <= MAX_TICK_MS,
        p.shoot == ShootStrategy::Manual,
        t.just_pressed,
        !roll,
        !reload,
        !p.broken,
        p.left_to_fire == 0,
        p.mag_ammo > 0,
        accumulate_ms_spec(p.timer, dt) >= p.fire_gate_ms(),
    ensures
        step_starts_burst_spec(p, t, roll, reload, dt),
        shoot_fires_spec(p, t, roll, reload, dt),
        shoot_step_spec(p, t, roll, reload, dt).mag_ammo == p.mag_ammo - 1,
{
}

/// The collision law: a bullet contacting a combatant other than its owner
/// (and not mid-roll) reduces that combatant's health by exactly
/// `(damage + damages_added) * damages_multiplier` and despawns the bullet;
/// the same bullet contacting its owner changes nothing and survives.
pub proof fn lemma_bullet_hits_combatant(
    bullets: Seq<crate::bullets::BulletStats>,
    combatants: Seq<crate::collision::Combatant>,
    i: int,
    j: int,
)
    requires
        bullets.len() <= usize::MAX,
        combatants.len() <= usize::MAX,
        0 <= i < bullets.len(),
        0 <= j < combatants.len(),
        bullets[i].alive,
        bullets[i].wf(),
        combatants[j].wf(),
        !combatants[j].rolling,
    ensures
        ({
            let ev = crate::collision::ContactEvent {
                a: crate::collision::BodyRef::BulletBody(i as usize),
                b: crate::collision::BodyRef::CombatantBody(j as usize),
            };
            let r = crate::collision::resolve_contact_spec(bullets, combatants, ev);
            if combatants[j].id != bullets[i].owner {
                &&& r.1[j].stats.current_health == crate::collision::health_after_spec(
                    combatants[j],
                    bullets[i].damages as int,
                )
                &&& !r.0[i].alive
            } else {
                r == (bullets, combatants)
            }
        }),
{
}

} // verus!
