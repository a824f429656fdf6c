use ethercat_hal::velocity_loop::{
    home, loop_step, LoopMeasurements, LoopState, LoopStepEvent, WindowAction,
};

fn quiet() -> LoopMeasurements {
    LoopMeasurements {
        runaway: false,
        settled: false,
        timed_out: false,
    }
}

#[test]
fn moving_into_the_band_waits_for_the_dwell() {
    let d = loop_step(LoopState::Moving, true, 1000, 997, 5, 60, quiet());
    assert_eq!(d.state, LoopState::Moving);
    assert_eq!(d.event, LoopStepEvent::Nothing);
    assert_eq!(d.window, WindowAction::Enter);

    let settled = LoopMeasurements { settled: true, ..quiet() };
    let d = loop_step(LoopState::Moving, true, 1000, 997, 5, 60, settled);
    assert_eq!(d.state, LoopState::Holding);
    assert_eq!(d.event, LoopStepEvent::Arrived { residual: 3 });
}

#[test]
fn runaway_and_timeout_go_idle() {
    let runaway = LoopMeasurements { runaway: true, ..quiet() };
    let d = loop_step(LoopState::Moving, true, 1000, 0, 5, 60, runaway);
    assert_eq!(d.state, LoopState::Idle);
    assert_eq!(d.event, LoopStepEvent::Runaway);

    let late = LoopMeasurements { timed_out: true, ..quiet() };
    let d = loop_step(LoopState::Moving, true, 1000, 0, 5, 60, late);
    assert_eq!(d.state, LoopState::Idle);
    assert_eq!(d.event, LoopStepEvent::TimedOut { residual: 1000 });
    assert_eq!(d.window, WindowAction::Clear);

    // outside the band without timeout: keep moving, forget the band
    let d = loop_step(LoopState::Moving, true, 1000, 0, 5, 60, quiet());
    assert_eq!(d.state, LoopState::Moving);
    assert_eq!(d.window, WindowAction::Clear);
}

#[test]
fn holding_re_engages_only_past_the_threshold() {
    let d = loop_step(LoopState::Holding, true, 1000, 950, 5, 60, quiet());
    assert_eq!(d.state, LoopState::Holding);
    let d = loop_step(LoopState::Holding, true, 1000, 900, 5, 60, quiet());
    assert_eq!(d.state, LoopState::Moving);
    assert_eq!(d.event, LoopStepEvent::Drifted { residual: 100 });
    assert!(d.restart_move);
    let d = loop_step(LoopState::Holding, false, 1000, 900, 5, 60, quiet());
    assert_eq!(d.state, LoopState::Holding);
}

#[test]
fn idle_stays_idle() {
    let d = loop_step(LoopState::Idle, true, 1000, 0, 5, 60, LoopMeasurements {
        runaway: true,
        settled: true,
        timed_out: true,
    });
    assert_eq!(d.state, LoopState::Idle);
    assert_eq!(d.event, LoopStepEvent::Nothing);
}

#[test]
fn homing_is_refused_while_moving() {
    assert_eq!(home(LoopState::Moving), None);
    assert_eq!(home(LoopState::Holding), Some((LoopState::Idle, 0)));
}
