//! Reload cycles: moving ammunition from the reserve into the magazine.

use vstd::prelude::*;

use crate::MAX_TICK_MS;
use crate::TIME_CAP_MS;
use crate::accumulate_ms;
use crate::accumulate_ms_spec;
use crate::profile::ReloadStrategy;
use crate::profile::WeaponProfile;

verus! {

/// Transient state of a reload in progress, attached to the owner.
#[derive(Clone, Copy, PartialEq, Eq, Structural, Debug)]
pub struct ReloadStats {
    /// Time the reload has been running, paused while the owner rolls.
    pub since: i64,
    /// Handle of the weapon entity being reloaded.
    pub gun: u64,
}

impl ReloadStats {
    /// Well-formedness: the clock stays inside its cap.
    pub open spec fn wf(self) -> bool {
        0 <= self.since <= TIME_CAP_MS
    }

    /// A reload that starts now.
    pub fn new(gun: u64) -> (r: ReloadStats)
        ensures
            r == (ReloadStats { since: 0, gun }),
            r.wf(),
    {
        ReloadStats { since: 0, gun }
    }
}

/// What one tick leaves on the reload clock: a roll pauses it, preserving
/// the accumulated time; otherwise it accumulates the elapsed time.
pub open spec fn reload_since_spec(rs: ReloadStats, roll: bool, dt: i64) -> i64 {
    if roll {
        rs.since
    } else {
        accumulate_ms_spec(rs.since, dt)
    }
}

/// The one-step ammunition transfer of a basic reload: fills the magazine,
/// bounded by the reserve unless the reserve is infinite.
pub open spec fn basic_transfer_spec(p: WeaponProfile) -> WeaponProfile {
    if p.infinite {
        WeaponProfile { mag_ammo: p.mag_size, broken: false, ..p }
    } else if p.ammo < p.mag_size - p.mag_ammo {
        WeaponProfile {
            mag_ammo: (p.mag_ammo + p.ammo) as i64,
            ammo: 0,
            broken: false,
            ..p
        }
    } else {
        WeaponProfile {
            ammo: (p.ammo - (p.mag_size - p.mag_ammo)) as i64,
            mag_ammo: p.mag_size,
            broken: false,
            ..p
        }
    }
}

/// The one-round transfer of a per-round reload: moves a single round,
/// provided there is room and reserve; an infinite reserve never drains.
pub open spec fn per_round_transfer_spec(p: WeaponProfile) -> WeaponProfile {
    if p.mag_ammo < p.mag_size && (p.infinite || p.ammo > 0) {
        if p.infinite {
            WeaponProfile { mag_ammo: (p.mag_ammo + 1) as i64, broken: false, ..p }
        } else {
            WeaponProfile {
                mag_ammo: (p.mag_ammo + 1) as i64,
                ammo: (p.ammo - 1) as i64,
                broken: false,
                ..p
            }
        }
    } else {
        WeaponProfile { broken: false, ..p }
    }
}

/// The reload sway shown while a timed reload is still running.
pub open spec fn reload_sway_spec(since: i64, reload_time: i64) -> int {
    since as int * 12_000 / (reload_time as int)
}

/// What one reload tick reports back to the caller.
#[derive(Clone, Copy, PartialEq, Eq, Structural, Debug)]
pub struct ReloadOutcome {
    /// The reload is over and the owner's reload state must be removed.
    pub finished: bool,
    /// Perturbation of the weapon's aim angle this tick, in milliradians:
    /// a purely observable output, never an input to the simulation.
    pub sway: i64,
}

/// Basic reload: after `reload_time` has elapsed on the (roll-pausable)
/// clock, one transfer fills the magazine from the reserve.
pub fn basic_reload_fn(p: &mut WeaponProfile, rs: &mut ReloadStats, roll: bool, dt: i64) -> (r:
    ReloadOutcome)
    requires
        old(p).wf(),
        old(rs).wf(),
        0 <= dt <= MAX_TICK_MS,
    ensures
        final(rs).gun == old(rs).gun,
        final(rs).since == reload_since_spec(*old(rs), roll, dt),
        final(rs).wf(),
        final(p).wf(),
        r.finished <==> final(rs).since >= old(p).reload_time,
        r.finished ==> *final(p) == basic_transfer_spec(*old(p)) && r.sway == 0,
        !r.finished ==> *final(p) == *old(p) && r.sway == reload_sway_spec(
            final(rs).since,
            old(p).reload_time,
        ),
{
    if !roll {
        rs.since = accumulate_ms(rs.since, dt);
    }
    if rs.since >= p.reload_time {
        if p.infinite {
            p.mag_ammo = p.mag_size;
        } else if p.ammo < p.mag_size - p.mag_ammo {
            p.mag_ammo = p.mag_ammo + p.ammo;
            p.ammo = 0;
        } else {
            p.ammo = p.ammo - (p.mag_size - p.mag_ammo);
            p.mag_ammo = p.mag_size;
        }
        p.broken = false;
        ReloadOutcome { finished: true, sway: 0 }
    } else {
        let sway: i64 = rs.since * 12_000 / p.reload_time;
        ReloadOutcome { finished: false, sway }
    }
}

/// Per-round reload: each full `reload_time` on the clock moves exactly one
/// round; the caller removes the reload state after every round, so the
/// reload must be re-triggered to continue.
pub fn shotgun_reload_fn(p: &mut WeaponProfile, rs: &mut ReloadStats, roll: bool, dt: i64) -> (r:
    ReloadOutcome)
    requires
        old(p).wf(),
        old(rs).wf(),
        0 <= dt <= MAX_TICK_MS,
    ensures
        final(rs).gun == old(rs).gun,
        final(rs).since == reload_since_spec(*old(rs), roll, dt),
        final(rs).wf(),
        final(p).wf(),
        r.finished <==> final(rs).since >= old(p).reload_time,
        r.finished ==> *final(p) == per_round_transfer_spec(*old(p)) && r.sway == 0,
        !r.finished ==> *final(p) == *old(p) && r.sway == reload_sway_spec(
            final(rs).since,
            old(p).reload_time,
        ),
{
    if !roll {
        rs.since = accumulate_ms(rs.since, dt);
    }
    if rs.since >= p.reload_time {
        if p.mag_ammo < p.mag_size && (p.infinite || p.ammo > 0) {
            if p.infinite {
                p.mag_ammo = p.mag_ammo + 1;
            } else {
                p.ammo = p.ammo - 1;
                p.mag_ammo = p.mag_ammo + 1;
            }
        }
        p.broken = false;
        ReloadOutcome { finished: true, sway: 0 }
    } else {
        let sway: i64 = rs.since * 12_000 / p.reload_time;
        ReloadOutcome { finished: false, sway }
    }
}

/// No reload: the state is removed at once and nothing is transferred;
/// heat decay stands in for reload time, and the accumulated heat shows as
/// sway.
pub fn no_reload(p: &mut WeaponProfile, rs: &mut ReloadStats, roll: bool, dt: i64) -> (r:
    ReloadOutcome)
    requires
        old(p).wf(),
        old(rs).wf(),
        0 <= dt <= MAX_TICK_MS,
    ensures
        *final(p) == *old(p),
        *final(rs) == *old(rs),
        final(p).wf(),
        r.finished,
        r.sway == old(p).heat * 100,
{
    ReloadOutcome { finished: true, sway: p.heat * 100 }
}

/// Whether a reload should begin this tick: the reload action is held, or
/// the fire action just landed on an empty magazine; there must be room in
/// the magazine, something (or an infinity) in reserve, and no reload
/// already running.
pub open spec fn start_reload_spec(
    p: WeaponProfile,
    reload_pressed: bool,
    shoot_just_pressed: bool,
    has_reload: bool,
) -> bool {
    &&& !has_reload
    &&& (reload_pressed || (shoot_just_pressed && p.mag_ammo == 0))
    &&& p.mag_ammo < p.mag_size
    &&& (p.ammo > 0 || p.infinite)
}

/// The reload start-detection decision, owned by the caller of the
/// strategies.
pub fn start_reload(
    p: &WeaponProfile,
    reload_pressed: bool,
    shoot_just_pressed: bool,
    has_reload: bool,
) -> (r: bool)
    ensures
        r == start_reload_spec(*p, reload_pressed, shoot_just_pressed, has_reload),
{
    !has_reload && (reload_pressed || (shoot_just_pressed && p.mag_ammo == 0)) && p.mag_ammo
        < p.mag_size && (p.ammo > 0 || p.infinite)
}

/// What the profile looks like after one reload tick of the archetype's
/// strategy.
pub open spec fn reload_step_spec(
    p: WeaponProfile,
    rs: ReloadStats,
    roll: bool,
    dt: i64,
) -> WeaponProfile {
    match p.reload {
        ReloadStrategy::Basic => if reload_since_spec(rs, roll, dt) >= p.reload_time {
            basic_transfer_spec(p)
        } else {
            p
        },
        ReloadStrategy::PerRound => if reload_since_spec(rs, roll, dt) >= p.reload_time {
            per_round_transfer_spec(p)
        } else {
            p
        },
        ReloadStrategy::NoReload => p,
    }
}

/// Whether one reload tick of the archetype's strategy finishes the reload.
pub open spec fn reload_finishes_spec(
    p: WeaponProfile,
    rs: ReloadStats,
    roll: bool,
    dt: i64,
) -> bool {
    match p.reload {
        ReloadStrategy::NoReload => true,
        _ => reload_since_spec(rs, roll, dt) >= p.reload_time,
    }
}

/// The sway one reload tick of the archetype's strategy reports: the
/// timed strategies sway while still running, the strategy without a
/// reload shows its accumulated heat instead.
pub open spec fn reload_sway_out_spec(
    p: WeaponProfile,
    rs: ReloadStats,
    roll: bool,
    dt: i64,
) -> int {
    match p.reload {
        ReloadStrategy::NoReload => p.heat * 100,
        _ => if reload_since_spec(rs, roll, dt) >= p.reload_time {
            0
        } else {
            reload_sway_spec(reload_since_spec(rs, roll, dt), p.reload_time)
        },
    }
}

/// One reload tick: dispatches to the archetype's reload strategy.
pub fn reload(p: &mut WeaponProfile, rs: &mut ReloadStats, roll: bool, dt: i64) -> (r:
    ReloadOutcome)
    requires
        old(p).wf(),
        old(rs).wf(),
        0 <= dt <= MAX_TICK_MS,
    ensures
        final(rs).gun == old(rs).gun,
        final(p).wf(),
        final(rs).wf(),
        *final(p) == reload_step_spec(*old(p), *old(rs), roll, dt),
        r.finished == reload_finishes_spec(*old(p), *old(rs), roll, dt),
        r.sway == reload_sway_out_spec(*old(p), *old(rs), roll, dt),
        old(p).reload != ReloadStrategy::NoReload ==> final(rs).since == reload_since_spec(
            *old(rs),
            roll,
            dt,
        ),
{
    match p.reload {
        ReloadStrategy::Basic => basic_reload_fn(p, rs, roll, dt),
        ReloadStrategy::PerRound => shotgun_reload_fn(p, rs, roll, dt),
        ReloadStrategy::NoReload => no_reload(p, rs, roll, dt),
    }
}

} // verus!
