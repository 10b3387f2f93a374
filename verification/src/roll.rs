//! The dodge roll: a timed movement state that hard-interrupts firing and
//! pauses reloading, plus the shared animation-sector selection.

use vstd::prelude::*;

use crate::MAX_TICK_MS;
use crate::TIME_CAP_MS;
use crate::accumulate_ms;
use crate::accumulate_ms_spec;
use crate::stats::PlayerStats;

verus! {

/// Animation states of a combatant, fed to the rendering collaborator.
#[derive(Clone, Copy, PartialEq, Eq, Structural, Debug)]
pub enum PlayerState {
    /// Standing still.
    Idle,
    /// Walking, by sector of the move direction.
    LeftFront,
    /// Walking up-left.
    LeftBack,
    /// Walking down-right.
    RightFront,
    /// Walking up-right.
    RightBack,
    /// Walking down.
    Front,
    /// Walking up.
    Back,
    /// Dodging down-left.
    DodgeLeftFront,
    /// Dodging up-left.
    DodgeLeftBack,
    /// Dodging down-right.
    DodgeRightFront,
    /// Dodging up-right.
    DodgeRightBack,
    /// Dodging down.
    DodgeFront,
    /// Dodging up.
    DodgeBack,
}

/// A movement direction as a milli-unit vector; `(0, 0)` means stationary.
/// A unit-length direction has coordinates within `[-1000, 1000]`.
#[derive(Clone, Copy, PartialEq, Eq, Structural, Debug)]
pub struct MoveDirection {
    /// Horizontal milli-component.
    pub x: i64,
    /// Vertical milli-component.
    pub y: i64,
}

impl MoveDirection {
    /// Well-formedness: each coordinate within one milli-unit.
    pub open spec fn wf(self) -> bool {
        -1000 <= self.x <= 1000 && -1000 <= self.y <= 1000
    }

    /// The combatant is not moving.
    pub open spec fn is_zero_spec(self) -> bool {
        self.x == 0 && self.y == 0
    }

    /// The default dodge direction: straight down.
    pub open spec fn down_spec() -> MoveDirection {
        MoveDirection { x: 0i64, y: -1000i64 }
    }

    /// The default dodge direction: straight down.
    pub fn down() -> (r: MoveDirection)
        ensures
            r == MoveDirection::down_spec(),
            r.wf(),
    {
        MoveDirection { x: 0, y: -1000 }
    }
}

/// The walking animation sector for a move direction given as the angle
/// from straight down, counterclockwise, in millidegrees.
pub open spec fn movement_state_spec(angle_mdeg: int) -> PlayerState {
    if angle_mdeg < 30_000 {
        PlayerState::Front
    } else if angle_mdeg <= 90_000 {
        PlayerState::LeftFront
    } else if angle_mdeg < 150_000 {
        PlayerState::LeftBack
    } else if angle_mdeg < 210_000 {
        PlayerState::Back
    } else if angle_mdeg < 270_000 {
        PlayerState::RightBack
    } else if angle_mdeg <= 330_000 {
        PlayerState::RightFront
    } else {
        PlayerState::Front
    }
}

/// Executable form of [`movement_state_spec`].
pub fn movement_state(angle_mdeg: i64) -> (r: PlayerState)
    requires
        0 <= angle_mdeg < 360_000,
    ensures
        r == movement_state_spec(angle_mdeg as int),
{
    if angle_mdeg < 30_000 {
        PlayerState::Front
    } else if angle_mdeg <= 90_000 {
        PlayerState::LeftFront
    } else if angle_mdeg < 150_000 {
        PlayerState::LeftBack
    } else if angle_mdeg < 210_000 {
        PlayerState::Back
    } else if angle_mdeg < 270_000 {
        PlayerState::RightBack
    } else if angle_mdeg <= 330_000 {
        PlayerState::RightFront
    } else {
        PlayerState::Front
    }
}

/// The dodge animation sector for the captured roll direction, by the same
/// millidegree angle from straight down.
pub open spec fn dodge_state_spec(angle_mdeg: int) -> PlayerState {
    if angle_mdeg < 30_000 {
        PlayerState::DodgeFront
    } else if angle_mdeg <= 90_000 {
        PlayerState::DodgeLeftFront
    } else if angle_mdeg < 150_000 {
        PlayerState::DodgeLeftBack
    } else if angle_mdeg < 210_000 {
        PlayerState::DodgeBack
    } else if angle_mdeg < 270_000 {
        PlayerState::DodgeRightBack
    } else if angle_mdeg < 330_000 {
        PlayerState::DodgeRightFront
    } else {
        PlayerState::DodgeFront
    }
}

/// Executable form of [`dodge_state_spec`].
pub fn dodge_state(angle_mdeg: i64) -> (r: PlayerState)
    requires
        0 <= angle_mdeg < 360_000,
    ensures
        r == dodge_state_spec(angle_mdeg as int),
{
    if angle_mdeg < 30_000 {
        PlayerState::DodgeFront
    } else if angle_mdeg <= 90_000 {
        PlayerState::DodgeLeftFront
    } else if angle_mdeg < 150_000 {
        PlayerState::DodgeLeftBack
    } else if angle_mdeg < 210_000 {
        PlayerState::DodgeBack
    } else if angle_mdeg < 270_000 {
        PlayerState::DodgeRightBack
    } else if angle_mdeg < 330_000 {
        PlayerState::DodgeRightFront
    } else {
        PlayerState::DodgeFront
    }
}

/// Walking movement of one combatant not mid-roll: picks the animation
/// sector for the move direction (given as its millidegree angle from
/// straight down) and scales the direction by the walking speed.
pub fn move_players(dir: &MoveDirection, angle_mdeg: i64, stats: &PlayerStats) -> (r: (
    i64,
    i64,
    PlayerState,
))
    requires
        dir.wf(),
        stats.wf(),
        0 <= angle_mdeg < 360_000,
    ensures
        r.0 == vel_component_spec(dir.x, stats.speed),
        r.1 == vel_component_spec(dir.y, stats.speed),
        r.2 == (if dir.is_zero_spec() {
            PlayerState::Idle
        } else {
            movement_state_spec(angle_mdeg as int)
        }),
{
    let state = if dir.x == 0 && dir.y == 0 {
        PlayerState::Idle
    } else {
        movement_state(angle_mdeg)
    };
    let vel_x = vel_component(dir.x, stats.speed);
    let vel_y = vel_component(dir.y, stats.speed);
    (vel_x, vel_y, state)
}

/// Number of uniformly spaced animation frames across one roll.
pub const ROLL_FRAMES: i64 = 9;

/// Transient state of a dodge roll in progress.
#[derive(Clone, Copy, PartialEq, Eq, Structural, Debug)]
pub struct RollStats {
    /// Time since the roll began.
    pub since: i64,
    /// Animation frame counter, advancing through [`ROLL_FRAMES`] steps.
    pub current_frame: i64,
    /// The move direction captured when the roll began.
    pub start_direction: MoveDirection,
}

impl RollStats {
    /// Well-formedness: frame counter within its nine steps, clock capped.
    pub open spec fn wf(self) -> bool {
        &&& 0 <= self.since <= TIME_CAP_MS
        &&& 1 <= self.current_frame <= ROLL_FRAMES + 1
        &&& self.start_direction.wf()
    }

    /// A roll that starts now in the given direction.
    pub fn new(start_direction: MoveDirection) -> (r: RollStats)
        requires
            start_direction.wf(),
        ensures
            r == (RollStats { since: 0, current_frame: 1, start_direction }),
            r.wf(),
    {
        RollStats { since: 0, current_frame: 1, start_direction }
    }
}

/// What [`start_roll`] captures: the current move direction, or straight
/// down when stationary.
pub open spec fn roll_direction_spec(dir: MoveDirection) -> MoveDirection {
    if dir.is_zero_spec() {
        MoveDirection::down_spec()
    } else {
        dir
    }
}

/// The dodge animation a starting roll picks: the sector of the move
/// direction, or the default downward dodge when stationary.
pub open spec fn dodge_or_default_spec(dir: MoveDirection, angle_mdeg: int) -> PlayerState {
    if dir.is_zero_spec() {
        PlayerState::DodgeFront
    } else {
        dodge_state_spec(angle_mdeg)
    }
}

/// Begins a dodge roll if the roll action is pressed and none is running:
/// captures the move direction (straight down when stationary) and picks
/// the dodge animation sector.  `angle_mdeg` is the direction's angle from
/// straight down in millidegrees, ignored for a stationary combatant.
pub fn start_roll(
    roll_pressed: bool,
    has_roll: bool,
    dir: &MoveDirection,
    angle_mdeg: i64,
) -> (r: Option<(RollStats, PlayerState)>)
    requires
        dir.wf(),
        0 <= angle_mdeg < 360_000,
    ensures
        r is Some <==> roll_pressed && !has_roll,
        r matches Some((roll, state)) ==> {
            &&& roll == (RollStats {
                since: 0,
                current_frame: 1,
                start_direction: roll_direction_spec(*dir),
            })
            &&& roll.wf()
            &&& state == (if dir.is_zero_spec() {
                PlayerState::DodgeFront
            } else {
                dodge_state_spec(angle_mdeg as int)
            })
        },
{
    if roll_pressed && !has_roll {
        if dir.x == 0 && dir.y == 0 {
            Some((RollStats::new(MoveDirection::down()), PlayerState::DodgeFront))
        } else {
            Some((RollStats::new(*dir), dodge_state(angle_mdeg)))
        }
    } else {
        None
    }
}

/// What one rolling tick reports back to the caller.
#[derive(Clone, Copy, PartialEq, Eq, Structural, Debug)]
pub struct RollOutcome {
    /// Horizontal velocity this tick, in milli-units per second.
    pub vel_x: i64,
    /// Vertical velocity this tick, in milli-units per second.
    pub vel_y: i64,
    /// The animation must advance one frame this tick.
    pub advance_frame: bool,
    /// The roll is over and the owner's roll state must be removed.
    pub finished: bool,
}

/// One velocity component of the roll: the milli-unit direction component
/// scaled by the roll speed.
pub open spec fn vel_component_spec(d: i64, sp: i64) -> int {
    if d >= 0 {
        d * sp / 1000
    } else {
        -((-d) * sp / 1000)
    }
}

/// Executable form of [`vel_component_spec`].
fn vel_component(d: i64, sp: i64) -> (r: i64)
    requires
        -1000 <= d <= 1000,
        0 <= sp <= 1_000_000_000,
    ensures
        r == vel_component_spec(d, sp),
{
    proof {
        let di = d as int;
        let si = sp as int;
        assert(-1000 * 1_000_000_000int <= di * si <= 1000 * 1_000_000_000int
            && -1000 * 1_000_000_000int <= (-di) * si <= 1000 * 1_000_000_000int)
            by (nonlinear_arith)
            requires
                -1000 <= di <= 1000,
                0 <= si <= 1_000_000_000int,
        ;
    }
    if d >= 0 {
        d * sp / 1000
    } else {
        -((-d) * sp / 1000)
    }
}

/// The frame threshold: the roll clock value at which `frame` is due.
pub open spec fn frame_due_spec(duration: i64, frame: i64) -> int {
    (duration as int / ROLL_FRAMES as int) * frame
}

/// Whether this tick advances the animation frame.
pub open spec fn roll_advances_spec(roll: RollStats, stats: PlayerStats, dt: i64) -> bool {
    let since = accumulate_ms_spec(roll.since, dt);
    roll.current_frame <= ROLL_FRAMES && since >= frame_due_spec(
        stats.roll_duration,
        roll.current_frame,
    )
}

/// What one rolling tick leaves in the roll state.
pub open spec fn roll_step_spec(roll: RollStats, stats: PlayerStats, dt: i64) -> RollStats {
    let since = accumulate_ms_spec(roll.since, dt);
    RollStats {
        since,
        current_frame: if roll_advances_spec(roll, stats, dt) {
            (roll.current_frame + 1) as i64
        } else {
            roll.current_frame
        },
        ..roll
    }
}

/// One rolling tick: drives constant-velocity movement along the captured
/// direction at `roll_speed`, advances the frame counter at its nine
/// uniformly spaced points, and finishes once `roll_duration` has elapsed.
pub fn rolling(roll: &mut RollStats, stats: &PlayerStats, dt: i64) -> (r: RollOutcome)
    requires
        old(roll).wf(),
        stats.wf(),
        0 <= dt <= MAX_TICK_MS,
    ensures
        *final(roll) == roll_step_spec(*old(roll), *stats, dt),
        final(roll).wf(),
        r.vel_x == vel_component_spec(old(roll).start_direction.x, stats.roll_speed),
        r.vel_y == vel_component_spec(old(roll).start_direction.y, stats.roll_speed),
        r.advance_frame == roll_advances_spec(*old(roll), *stats, dt),
        r.finished <==> final(roll).since >= stats.roll_duration,
{
    roll.since = accumulate_ms(roll.since, dt);
    let vel_x: i64 = vel_component(roll.start_direction.x, stats.roll_speed);
    let vel_y: i64 = vel_component(roll.start_direction.y, stats.roll_speed);
    proof {
        let step = stats.roll_duration as int / ROLL_FRAMES as int;
        let fr = roll.current_frame as int;
        assert(0 <= step * fr <= 1_000_000_000int * 10) by (nonlinear_arith)
            requires
                0 <= step <= 1_000_000_000int,
                0 <= fr <= 10,
        ;
    }
    let mut advance_frame = false;
    if roll.current_frame <= ROLL_FRAMES && roll.since >= (stats.roll_duration / ROLL_FRAMES)
        * roll.current_frame {
        roll.current_frame = roll.current_frame + 1;
        advance_frame = true;
    }
    let finished = roll.since >= stats.roll_duration;
    RollOutcome { vel_x, vel_y, advance_frame, finished }
}

} // verus!
