use ethercat_hal::controller_logic::{
    corrected_cycle_ns, dc_phase, decode_dc_time_difference, fitting_inputs, init_action,
    next_cycle_count, no_interface_step, op_ramp_step, pdi_ranges, preop_action, InitAction,
    OpRamp, PdiRange, PreOpAction, RequestKind,
};
use ethercat_hal::ethercat_state::EtherCATState;

#[test]
fn preop_requests_are_dispatched() {
    assert_eq!(
        preop_action(RequestKind::ChangeState(EtherCATState::Op)),
        PreOpAction::LeavePreOp
    );
    assert_eq!(preop_action(RequestKind::Shutdown), PreOpAction::LeavePreOp);
    assert_eq!(
        preop_action(RequestKind::ChangeState(EtherCATState::NoInterface)),
        PreOpAction::AcknowledgeStateChange
    );
    assert_eq!(
        preop_action(RequestKind::ChangeState(EtherCATState::Init)),
        PreOpAction::Ignore
    );
    assert_eq!(preop_action(RequestKind::SdoWrite), PreOpAction::Perform);
}

#[test]
fn init_only_starts_preop_or_shuts_down() {
    assert_eq!(
        init_action(RequestKind::ChangeState(EtherCATState::PreOp)),
        InitAction::StartPreOp
    );
    assert_eq!(init_action(RequestKind::Shutdown), InitAction::Shutdown);
    assert_eq!(init_action(RequestKind::SdoRead), InitAction::Ignore);
}

#[test]
fn an_interface_leaves_the_no_interface_state() {
    assert_eq!(
        no_interface_step(EtherCATState::NoInterface, true),
        EtherCATState::Init
    );
    assert_eq!(
        no_interface_step(EtherCATState::NoInterface, false),
        EtherCATState::NoInterface
    );
    assert_eq!(no_interface_step(EtherCATState::Op, true), EtherCATState::Op);
}

#[test]
fn cycle_counter_wraps() {
    assert_eq!(next_cycle_count(7), 8);
    assert_eq!(next_cycle_count(u64::MAX), 0);
}

/// Once every subdevice reported OP the ramp is over for good; until then a
/// failure is reported after the grace cycles.
#[test]
fn op_ramp_reports_after_grace() {
    let start = OpRamp { is_all_op: false, not_all_op_cycles: 0 };
    let (r1, f1) = op_ramp_step(start, false, 2);
    assert_eq!(r1.not_all_op_cycles, 1);
    assert!(!f1);
    let (r2, f2) = op_ramp_step(r1, false, 2);
    assert!(f2);
    let (r3, f3) = op_ramp_step(r2, true, 2);
    assert!(r3.is_all_op && !f3);
    let (r4, f4) = op_ramp_step(r3, false, 2);
    assert_eq!(r4, r3);
    assert!(!f4);
}

#[test]
fn dc_phase_is_centred() {
    assert_eq!(dc_phase(1_000_250, 0, 1000), 250);
    assert_eq!(dc_phase(1_000_750, 0, 1000), -250);
    assert_eq!(dc_phase(1_000_500, 500, 1000), 0);
}

#[test]
fn cycle_correction_is_clamped() {
    assert_eq!(corrected_cycle_ns(1000, 10), 1010);
    assert_eq!(corrected_cycle_ns(1000, -5000), 0);
    assert_eq!(corrected_cycle_ns(1000, 5000), 2000);
}

#[test]
fn dc_time_difference_is_sign_magnitude() {
    assert_eq!(decode_dc_time_difference(0x8000_0010), -16);
    assert_eq!(decode_dc_time_difference(0x0000_0010), 16);
}

#[test]
fn pdi_ranges_tile_the_image() {
    let ranges = pdi_ranges(&[2, 0, 5]);
    assert_eq!(
        ranges,
        vec![
            PdiRange { start: 0, end: 2 },
            PdiRange { start: 2, end: 2 },
            PdiRange { start: 2, end: 7 },
        ]
    );
}

#[test]
fn only_inputs_that_fit_are_copied() {
    assert_eq!(fitting_inputs(&[4, 4, 4], 10), 2);
    assert_eq!(fitting_inputs(&[4, 4, 4], 12), 3);
    assert_eq!(fitting_inputs(&[20, 1], 10), 0);
}
