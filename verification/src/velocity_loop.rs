//! The state machine of a closed position loop over a speed-only actuator:
//! which state the loop moves to and what it reports on each cycle. The speed
//! profile and the timing, which work in floating point and wall-clock time,
//! are measured by the caller and handed in as facts.
use vstd::prelude::*;

verus! {

/// What the loop is currently doing.
#[derive(Debug, Clone, Copy, PartialEq, Eq, Structural)]
pub enum LoopState {
    /// No target, or the last move was abandoned. Commands zero.
    Idle,
    /// Running the profile towards the target.
    Moving,
    /// Arrived and latched. Commands zero and does not correct until the
    /// position drifts past `re_engage`.
    Holding,
}

/// What happened on a cycle; at most one fires. The residual is
/// `target - position`.
#[derive(Debug, Clone, Copy, PartialEq, Eq, Structural)]
pub enum LoopStepEvent {
    Nothing,
    /// Settled inside the tolerance for the dwell time and coasted to a stop.
    Arrived { residual: i64 },
    /// Travelled further than the runaway guard allows; the loop went idle.
    Runaway,
    /// The move timed out without arriving; the loop went idle.
    TimedOut { residual: i64 },
    /// Drifted past `re_engage` while holding; the loop moves again towards
    /// the same target.
    Drifted { residual: i64 },
}

/// What the caller does with the time at which the position entered the
/// arrival band.
#[derive(Debug, Clone, Copy, PartialEq, Eq, Structural)]
pub enum WindowAction {
    /// Leave it as it is.
    Keep,
    /// Record the current time unless one is recorded already.
    Enter,
    /// Forget it.
    Clear,
}

/// The outcome of one cycle of the loop.
#[derive(Debug, Clone, Copy, PartialEq, Eq, Structural)]
pub struct LoopDecision {
    pub state: LoopState,
    pub event: LoopStepEvent,
    pub window: WindowAction,
    /// A new move starts from the current position (after a drift).
    pub restart_move: bool,
}

/// The facts about the cycle that the caller measures: whether the travel
/// since the move started exceeds the runaway limit, whether the position
/// has been in the band for the dwell time with the profile stopped, and
/// whether the move has run longer than its timeout.
#[derive(Debug, Clone, Copy, PartialEq, Eq, Structural)]
pub struct LoopMeasurements {
    pub runaway: bool,
    pub settled: bool,
    pub timed_out: bool,
}

/// The magnitude of an integer.
pub open spec fn spec_abs(x: int) -> int {
    if x < 0 { -x } else { x }
}

/// One cycle of the loop. Moving: a runaway goes idle; inside the tolerance
/// the band is entered and, once settled, the loop holds and reports the
/// arrival; outside it the band is left and a timeout goes idle. Holding:
/// with holding enabled, a drift past `re_engage` restarts the move. Idle:
/// nothing happens.
pub open spec fn spec_loop_step(
    state: LoopState,
    hold_enabled: bool,
    error: int,
    tolerance: int,
    re_engage: int,
    m: LoopMeasurements,
) -> LoopDecision {
    let nothing = LoopDecision {
        state,
        event: LoopStepEvent::Nothing,
        window: WindowAction::Keep,
        restart_move: false,
    };
    match state {
        LoopState::Moving => if m.runaway {
            LoopDecision { state: LoopState::Idle, event: LoopStepEvent::Runaway, ..nothing }
        } else if spec_abs(error) <= tolerance {
            if m.settled {
                LoopDecision {
                    state: LoopState::Holding,
                    event: LoopStepEvent::Arrived { residual: error as i64 },
                    window: WindowAction::Enter,
                    restart_move: false,
                }
            } else {
                LoopDecision { window: WindowAction::Enter, ..nothing }
            }
        } else if m.timed_out {
            LoopDecision {
                state: LoopState::Idle,
                event: LoopStepEvent::TimedOut { residual: error as i64 },
                window: WindowAction::Clear,
                restart_move: false,
            }
        } else {
            LoopDecision { window: WindowAction::Clear, ..nothing }
        },
        LoopState::Holding => if hold_enabled && spec_abs(error) > re_engage {
            LoopDecision {
                state: LoopState::Moving,
                event: LoopStepEvent::Drifted { residual: error as i64 },
                window: WindowAction::Clear,
                restart_move: true,
            }
        } else {
            nothing
        },
        LoopState::Idle => nothing,
    }
}

/// Decides one cycle of the loop from the target, the position and the
/// measured facts.
pub fn loop_step(
    state: LoopState,
    hold_enabled: bool,
    target: i64,
    position: i64,
    tolerance: i64,
    re_engage: i64,
    measurements: LoopMeasurements,
) -> (r: LoopDecision)
    requires
        i64::MIN < target - position <= i64::MAX,
    ensures
        r == spec_loop_step(state, hold_enabled, target - position, tolerance as int, re_engage as int, measurements),
{
    let error = target - position;
    let magnitude = if error < 0 { -error } else { error };
    let nothing = LoopDecision {
        state,
        event: LoopStepEvent::Nothing,
        window: WindowAction::Keep,
        restart_move: false,
    };
    match state {
        LoopState::Moving => {
            if measurements.runaway {
                LoopDecision { state: LoopState::Idle, event: LoopStepEvent::Runaway, ..nothing }
            } else if magnitude <= tolerance {
                if measurements.settled {
                    LoopDecision {
                        state: LoopState::Holding,
                        event: LoopStepEvent::Arrived { residual: error },
                        window: WindowAction::Enter,
                        restart_move: false,
                    }
                } else {
                    LoopDecision { window: WindowAction::Enter, ..nothing }
                }
            } else if measurements.timed_out {
                LoopDecision {
                    state: LoopState::Idle,
                    event: LoopStepEvent::TimedOut { residual: error },
                    window: WindowAction::Clear,
                    restart_move: false,
                }
            } else {
                LoopDecision { window: WindowAction::Clear, ..nothing }
            }
        },
        LoopState::Holding => {
            if hold_enabled && magnitude > re_engage {
                LoopDecision {
                    state: LoopState::Moving,
                    event: LoopStepEvent::Drifted { residual: error },
                    window: WindowAction::Clear,
                    restart_move: true,
                }
            } else {
                nothing
            }
        },
        LoopState::Idle => nothing,
    }
}

/// Resetting the target to zero, for a caller that has just zeroed its own
/// position feedback: refused (`None`) while a move runs, else the loop goes
/// idle at target zero.
pub fn home(state: LoopState) -> (r: Option<(LoopState, i64)>)
    ensures
        state == LoopState::Moving ==> r is None,
        state != LoopState::Moving ==> r == Some((LoopState::Idle, 0i64)),
{
    if state == LoopState::Moving {
        None
    } else {
        Some((LoopState::Idle, 0))
    }
}

/// A loop that is idle stays idle, whatever the cycle brings.
pub proof fn lemma_idle_is_quiet(hold_enabled: bool, error: int, tolerance: int, re_engage: int, m: LoopMeasurements)
    ensures
        spec_loop_step(LoopState::Idle, hold_enabled, error, tolerance, re_engage, m).state == LoopState::Idle,
        spec_loop_step(LoopState::Idle, hold_enabled, error, tolerance, re_engage, m).event == LoopStepEvent::Nothing,
{
}

/// A loop that holds with holding disabled never moves again by itself.
pub proof fn lemma_hold_disabled_stays(error: int, tolerance: int, re_engage: int, m: LoopMeasurements)
    ensures
        spec_loop_step(LoopState::Holding, false, error, tolerance, re_engage, m).state == LoopState::Holding,
{
}

/// An arrival is only reported from inside the tolerance band.
pub proof fn lemma_arrival_within_tolerance(
    state: LoopState,
    hold_enabled: bool,
    error: int,
    tolerance: int,
    re_engage: int,
    m: LoopMeasurements,
)
    ensures
        spec_loop_step(state, hold_enabled, error, tolerance, re_engage, m).event is Arrived ==> spec_abs(error) <= tolerance,
{
}

/// A held axis with holding enabled re-engages exactly when it has drifted
/// more than `re_engage` from its target, on either side: the move restarts
/// and the drift is reported with its sign; otherwise nothing happens. The
/// decision is the same for a drift of `error` and of `-error`.
pub proof fn lemma_hold_re_engages_on_drift_either_way(
    error: int,
    tolerance: int,
    re_engage: int,
    m: LoopMeasurements,
)
    ensures
        ({
            let d = spec_loop_step(LoopState::Holding, true, error, tolerance, re_engage, m);
            let drifted = error > re_engage || -error > re_engage;
            &&& (d.state == LoopState::Moving) == drifted
            &&& d.restart_move == drifted
            &&& drifted ==> d.event == LoopStepEvent::Drifted { residual: error as i64 }
            &&& !drifted ==> d.state == LoopState::Holding && d.event == LoopStepEvent::Nothing
        }),
        spec_loop_step(LoopState::Holding, true, error, tolerance, re_engage, m).state
            == spec_loop_step(LoopState::Holding, true, -error, tolerance, re_engage, m).state,
{
}

/// A moving axis: a runaway always stops the loop; otherwise the tolerance
/// band is entered exactly when the position is within `tolerance` of the
/// target on either side, the loop holds only once settled in the band, and
/// a timeout stops it only outside the band.
pub proof fn lemma_moving_band_either_way(
    hold_enabled: bool,
    error: int,
    tolerance: int,
    re_engage: int,
    m: LoopMeasurements,
)
    ensures
        ({
            let d = spec_loop_step(LoopState::Moving, hold_enabled, error, tolerance, re_engage, m);
            let inside = error <= tolerance && -error <= tolerance;
            &&& m.runaway ==> d.state == LoopState::Idle && d.event == LoopStepEvent::Runaway
            &&& !m.runaway ==> (d.window == WindowAction::Enter) == inside
            &&& !m.runaway ==> (d.state == LoopState::Holding) == (inside && m.settled)
            &&& !m.runaway ==> (d.event == LoopStepEvent::TimedOut { residual: error as i64 }) == (!inside && m.timed_out)
            &&& !d.restart_move
        }),
{
}

} // verus!
