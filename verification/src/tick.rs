//! The per-combatant simulation tick: orders the transient states so that
//! suppression is observed in the tick it begins, the roll cancels bursts
//! outright, and the roll only pauses a running reload.

use vstd::prelude::*;

use crate::MAX_TICK_MS;
use crate::bullets::BulletStats;
use crate::inventory::Inventory;
use crate::inventory::Items;
use crate::inventory::count_items;
use crate::profile::TUNABLE_CAP;
use crate::profile::TriggerSignal;
use crate::profile::WeaponProfile;
use crate::reload::ReloadStats;
use crate::reload::reload;
use crate::reload::reload_finishes_spec;
use crate::reload::reload_since_spec;
use crate::reload::reload_step_spec;
use crate::reload::start_reload;
use crate::roll::MoveDirection;
use crate::roll::PlayerState;
use crate::roll::RollStats;
use crate::roll::roll_direction_spec;
use crate::roll::roll_step_spec;
use crate::roll::rolling;
use crate::roll::start_roll;
use crate::roll::vel_component_spec;
use crate::roll::dodge_or_default_spec;
use crate::roll::roll_advances_spec;
use crate::shoot::shoot_fires_spec;
use crate::shoot::shoot_spawn_ok;
use crate::shoot::shoot_step_spec;
use crate::shoot::shooting_system;
use crate::stats::PlayerStats;

verus! {

/// The transient per-combatant states, at most one of each.
#[derive(Clone, Copy, PartialEq, Eq, Structural, Debug)]
pub struct CombatantState {
    /// The dodge roll in progress, if any.
    pub roll: Option<RollStats>,
    /// The reload in progress, if any.
    pub reload: Option<ReloadStats>,
}

impl CombatantState {
    /// Well-formedness of whatever transient states exist.
    pub open spec fn wf(self) -> bool {
        &&& (self.roll matches Some(r) ==> r.wf())
        &&& (self.reload matches Some(r) ==> r.wf())
    }

    /// A combatant with no transient state.
    pub fn idle() -> (r: CombatantState)
        ensures
            r.roll is None,
            r.reload is None,
            r.wf(),
    {
        CombatantState { roll: None, reload: None }
    }
}

/// The per-tick inputs of one combatant, resolved by the input layer.
#[derive(Clone, Copy, PartialEq, Eq, Structural, Debug)]
pub struct TickInput {
    /// Elapsed time this tick, in milliseconds.
    pub dt: i64,
    /// The fire action.
    pub shoot: TriggerSignal,
    /// The reload action is held.
    pub reload_pressed: bool,
    /// The roll action is held.
    pub roll_pressed: bool,
    /// The current move direction.
    pub move_dir: MoveDirection,
    /// Angle of `move_dir` from straight down, counterclockwise, in
    /// millidegrees; ignored while stationary.
    pub move_angle_mdeg: i64,
    /// The weapon's aim angle, in milliradians.
    pub aim: i64,
}

impl TickInput {
    /// Well-formedness: the tick and the angles sit in their ranges.
    pub open spec fn wf(self) -> bool {
        &&& 0 <= self.dt <= MAX_TICK_MS
        &&& self.shoot.wf()
        &&& self.move_dir.wf()
        &&& 0 <= self.move_angle_mdeg < 360_000
        &&& -TUNABLE_CAP <= self.aim <= TUNABLE_CAP
    }
}

/// What one combatant tick reports back to the world around it.
pub struct TickOutcome {
    /// Bullets spawned this tick.
    pub spawned: Vec<BulletStats>,
    /// Horizontal roll velocity, meaningful while a roll is in progress.
    pub vel_x: i64,
    /// Vertical roll velocity, meaningful while a roll is in progress.
    pub vel_y: i64,
    /// Aim-angle perturbation from the reload sway, in milliradians.
    pub sway: i64,
    /// The dodge animation to show, set the tick a roll starts.
    pub dodge_animation: Option<PlayerState>,
    /// The roll advanced the manually driven animation one frame.
    pub advance_frame: bool,
    /// Whether the animation machine is under manual advance after this
    /// tick: switched on while a roll runs, off when it completes.
    pub manual_animation: bool,
}

/// Whether a roll runs during this tick (it may have started this tick).
pub open spec fn roll_present_spec(state: CombatantState, input: TickInput) -> bool {
    state.roll is Some || input.roll_pressed
}

/// Whether a reload runs or begins during this tick.
pub open spec fn reload_present_spec(
    p: WeaponProfile,
    state: CombatantState,
    input: TickInput,
) -> bool {
    state.reload is Some || crate::reload::start_reload_spec(
        p,
        input.reload_pressed,
        input.shoot.just_pressed,
        state.reload is Some,
    )
}

/// The roll state as it stands during this tick: the one already running,
/// or the one captured this tick.
pub open spec fn roll_in_tick_spec(state: CombatantState, input: TickInput) -> RollStats {
    match state.roll {
        Some(r) => r,
        None => RollStats {
            since: 0,
            current_frame: 1,
            start_direction: roll_direction_spec(input.move_dir),
        },
    }
}

/// One full combatant tick, in the load-bearing order: roll and reload
/// start-detection first, so their suppression is observed this very tick;
/// then the shoot strategy, then the reload strategy; a roll that finished
/// is removed at the end of the tick.
pub fn combatant_tick(
    p: &mut WeaponProfile,
    state: &mut CombatantState,
    stats: &PlayerStats,
    gun: u64,
    owner: u64,
    inv: &Inventory,
    input: TickInput,
) -> (outcome: TickOutcome)
    requires
        old(p).wf(),
        old(state).wf(),
        stats.wf(),
        inv.wf(),
        input.wf(),
    ensures
        final(p).wf(),
        final(state).wf(),
        // The weapon profile passes through the shoot step and then, if a
        // reload was already running, through the reload step.
        ({
            let roll_now = roll_present_spec(*old(state), input);
            let reload_now = reload_present_spec(*old(p), *old(state), input);
            let p1 = shoot_step_spec(*old(p), input.shoot, roll_now, reload_now, input.dt);
            match old(state).reload {
                Some(rs) => *final(p) == reload_step_spec(p1, rs, roll_now, input.dt),
                None => *final(p) == p1,
            }
        }),
        // Bullets spawned: exactly one salve when the strategy flushes.
        ({
            let roll_now = roll_present_spec(*old(state), input);
            let reload_now = reload_present_spec(*old(p), *old(state), input);
            &&& outcome.spawned@.len() == (if shoot_fires_spec(
                *old(p),
                input.shoot,
                roll_now,
                reload_now,
                input.dt,
            ) {
                old(p).salve as int
            } else {
                0
            })
            &&& forall|i: int|
                0 <= i < outcome.spawned@.len() ==> #[trigger] shoot_spawn_ok(
                    *old(p),
                    input.shoot,
                    roll_now,
                    reload_now,
                    input.dt,
                    outcome.spawned@[i],
                    input.aim as int,
                    count_items(inv.content@, Items::Mercury),
                    owner,
                )
        }),
        // The roll state: present during the tick, it progresses by dt and
        // is removed once the roll duration has elapsed.
        ({
            let roll_now = roll_present_spec(*old(state), input);
            if roll_now {
                let r1 = roll_step_spec(roll_in_tick_spec(*old(state), input), *stats, input.dt);
                &&& final(state).roll == (if r1.since >= stats.roll_duration {
                    Option::<RollStats>::None
                } else {
                    Some(r1)
                })
                &&& outcome.vel_x == vel_component_spec(
                    roll_in_tick_spec(*old(state), input).start_direction.x,
                    stats.roll_speed,
                )
                &&& outcome.vel_y == vel_component_spec(
                    roll_in_tick_spec(*old(state), input).start_direction.y,
                    stats.roll_speed,
                )
                &&& outcome.advance_frame == roll_advances_spec(
                    roll_in_tick_spec(*old(state), input),
                    *stats,
                    input.dt,
                )
                &&& outcome.manual_animation == (final(state).roll is Some)
            } else {
                &&& final(state).roll is None
                &&& outcome.vel_x == 0
                &&& outcome.vel_y == 0
                &&& !outcome.advance_frame
                &&& !outcome.manual_animation
            }
        }),
        // The dodge animation is picked the tick a roll starts.
        outcome.dodge_animation == (if old(state).roll is None && input.roll_pressed {
            Some(dodge_or_default_spec(input.move_dir, input.move_angle_mdeg as int))
        } else {
            Option::<PlayerState>::None
        }),
        // The reload sway output: only a reload that was already running
        // sways the aim this tick.
        outcome.sway == (match old(state).reload {
            Some(rs) => crate::reload::reload_sway_out_spec(
                shoot_step_spec(
                    *old(p),
                    input.shoot,
                    roll_present_spec(*old(state), input),
                    reload_present_spec(*old(p), *old(state), input),
                    input.dt,
                ),
                rs,
                roll_present_spec(*old(state), input),
                input.dt,
            ),
            None => 0int,
        }),
        // The reload state: one already running is ticked (paused under a
        // roll) and removed on completion; one starting this tick is
        // created fresh and first ticks next tick.
        ({
            let roll_now = roll_present_spec(*old(state), input);
            match old(state).reload {
                Some(rs) => final(state).reload == (if reload_finishes_spec(
                    *old(p),
                    rs,
                    roll_now,
                    input.dt,
                ) {
                    Option::<ReloadStats>::None
                } else {
                    Some(
                        ReloadStats {
                            since: reload_since_spec(rs, roll_now, input.dt),
                            gun: rs.gun,
                        },
                    )
                }),
                None => final(state).reload == (if crate::reload::start_reload_spec(
                    *old(p),
                    input.reload_pressed,
                    input.shoot.just_pressed,
                    false,
                ) {
                    Some(ReloadStats { since: 0, gun })
                } else {
                    Option::<ReloadStats>::None
                }),
            }
        }),
{
    // Start detection: a roll first, then a reload, both visible to the
    // strategies below in this same tick.
    let mut dodge_animation: Option<PlayerState> = None;
    if let Some((roll, dodge)) = start_roll(
        input.roll_pressed,
        state.roll.is_some(),
        &input.move_dir,
        input.move_angle_mdeg,
    ) {
        state.roll = Some(roll);
        dodge_animation = Some(dodge);
    }
    let reload_started = start_reload(
        p,
        input.reload_pressed,
        input.shoot.just_pressed,
        state.reload.is_some(),
    );
    let roll_now = state.roll.is_some();
    let reload_now = state.reload.is_some() || reload_started;

    // The shoot strategy, suppressed by whatever state is present now.
    let spawned = shooting_system(
        p,
        &input.shoot,
        roll_now,
        reload_now,
        input.dt,
        input.aim,
        owner,
        inv,
    );

    // A reload that was already running progresses; the roll pauses its
    // clock without resetting it.  One that started this very tick first
    // ticks next tick.
    let mut sway: i64 = 0;
    if state.reload.is_some() {
        let mut rs = state.reload.unwrap();
        let out = reload(p, &mut rs, roll_now, input.dt);
        sway = out.sway;
        if out.finished {
            state.reload = None;
        } else {
            state.reload = Some(rs);
        }
    } else if reload_started {
        state.reload = Some(ReloadStats::new(gun));
    }

    // The roll drives movement and its animation; it is removed at the end
    // of the tick it completes in.
    let mut vel_x: i64 = 0;
    let mut vel_y: i64 = 0;
    let mut advance_frame = false;
    let mut manual_animation = false;
    if state.roll.is_some() {
        let mut roll = state.roll.unwrap();
        let out = rolling(&mut roll, stats, input.dt);
        vel_x = out.vel_x;
        vel_y = out.vel_y;
        advance_frame = out.advance_frame;
        manual_animation = !out.finished;
        if out.finished {
            state.roll = None;
        } else {
            state.roll = Some(roll);
        }
    }

    TickOutcome {
        spawned,
        vel_x,
        vel_y,
        sway,
        dodge_animation,
        advance_frame,
        manual_animation,
    }
}

} // verus!
