use ethercat_hal::minas_a6::{
    cmd, encoder_resolution_of, elapsed_at_least, interpret_error_code, motion_command,
    EncoderResolution, HomingDirection, MinasA6BMotor, MinasA6BTxPdo, PositionTransitionSpec,
    Reg, State, MotorMode,
};

#[test]
fn input_bytes_decode_little_endian() {
    let tx = MinasA6BTxPdo::from_bytes(&[0x37, 0x02, 1, 0x28, 0xFF, 0xFF, 0xFF, 0xFF, 0xFF]);
    assert_eq!(tx.status_word, 0x0237);
    assert_eq!(tx.mode_display, 1);
    assert_eq!(tx.error_code, 0xFF28);
    assert_eq!(tx.position_actual, -1);
}

#[test]
fn output_bytes_encode_little_endian() {
    let c = motion_command(-2, 0x0102_0304, 5, 6, false, None);
    assert_eq!(c.control_word, 0x004F);
    assert_eq!(c.mode, MotorMode::PP);
    let b = c.to_bytes();
    assert_eq!(
        b,
        [0x4F, 0, 1, 0xFE, 0xFF, 0xFF, 0xFF, 4, 3, 2, 1, 5, 0, 0, 0, 6, 0, 0, 0]
    );
    let overlap = Some(PositionTransitionSpec { overlap: true, delay_ms: 0 });
    assert_eq!(motion_command(0, 0, 0, 0, true, overlap).control_word, 0x002F);
    assert_eq!(cmd(7, 6).to_bytes()[0..3], [7, 0, 6]);
}

#[test]
fn error_codes_are_rendered() {
    assert_eq!(interpret_error_code(0xFF28), "Encoder multi-turn data error");
    assert_eq!(interpret_error_code(0xFF0B), "Error 0x0B (11)");
    assert_eq!(interpret_error_code(0x1234), "Error 0x1234 (4660)");
}

#[test]
fn encoder_resolution_needs_revolutions() {
    assert_eq!(encoder_resolution_of(8_388_608, 0), None);
    assert_eq!(
        encoder_resolution_of(8_388_608, 1),
        Some(EncoderResolution { increments: 8_388_608, revolutions: 1 })
    );
}

#[test]
fn timers_measure_elapsed_milliseconds() {
    assert!(!elapsed_at_least(None, 0, 100));
    assert!(elapsed_at_least(Some(100), 50, 150));
    assert!(!elapsed_at_least(Some(100), 51, 150));
    assert!(!elapsed_at_least(Some(200), 0, 150));
}

#[test]
fn homing_directions_have_their_modes() {
    assert_eq!(HomingDirection::Ccw.mode_code(), 21);
    assert_eq!(HomingDirection::Cw.mode_code(), 19);
}

/// The status word classifies a fresh drive, and enabling starts the CiA 402
/// ladder with "ready to switch on".
#[test]
fn enabling_starts_the_ladder() {
    let mut m = MinasA6BMotor::new();
    m.input(&[0x40, 0, 0, 0, 0, 0, 0, 0, 0], 0, false);
    assert_eq!(m.state, State::PreOpSwitchOnDisabled);
    assert!(m.is_shut_down());
    m.enable(0, false);
    assert_eq!(m.rxpdo.control_word, Reg::CONTROL_WORD_READY_TO_SWITCH_ON);
    let mut image = [0u8; 19];
    m.output(&mut image);
    assert_eq!(image[0], 0x06);
}

#[test]
fn a_fault_bit_means_error() {
    let mut m = MinasA6BMotor::new();
    m.input(&[0x08, 0, 0, 0, 0, 0, 0, 0, 0], 0, false);
    assert!(m.has_error());
    assert!(!m.is_enabled());
}

#[test]
fn motion_needs_the_encoder_resolution() {
    let mut m = MinasA6BMotor::new();
    m.move_position(motion_command(100, 1, 1, 1, true, None), None);
    assert!(m.motion_out_deque.is_empty());
    assert_eq!(m.get_position_increments(), None);
    m.set_encoder_resolution(EncoderResolution { increments: 10, revolutions: 1 });
    m.move_position(motion_command(100, 1, 1, 1, true, None), None);
    assert_eq!(m.motion_out_deque.len(), 1);
    assert_eq!(m.get_position_increments(), Some(0));
}

#[test]
fn quick_stop_only_from_run() {
    let mut m = MinasA6BMotor::new();
    m.quick_stop();
    assert_eq!(m.state, State::Unknown);
}

use ethercat_hal::minas_a6_coe::{
    clear_alarm_plan, configure_plan, encoder_multi_turn_reset_done, homing_plan,
    input_pin_functions_plan, start_encoder_multi_turn_reset_plan,
};
use ethercat_hal::sdo::{SdoValue, SdoWrite};

#[test]
fn configuration_maps_assigns_then_sets_windows() {
    let plan = configure_plan();
    // two mapping lists (6 and 4 entries), two assignments of one PDO, seven settings
    assert_eq!(plan.len(), (6 + 2) + (4 + 2) + 3 + 3 + 7);
    assert_eq!(plan[0], SdoWrite { index: 0x1600, sub_index: 0, value: SdoValue::U8(0) });
    assert_eq!(plan[1].value, SdoValue::U32(0x6040_0010));
    assert_eq!(plan[7], SdoWrite { index: 0x1600, sub_index: 0, value: SdoValue::U8(6) });
    assert_eq!(plan[14], SdoWrite { index: 0x1C12, sub_index: 0, value: SdoValue::U8(0) });
    assert_eq!(plan[15], SdoWrite { index: 0x1C12, sub_index: 1, value: SdoValue::U16(0x1600) });
    assert_eq!(
        *plan.last().unwrap(),
        SdoWrite { index: Reg::MAX_TORQUE, sub_index: 0, value: SdoValue::U16(500) }
    );
}

#[test]
fn input_pins_are_assigned_and_saved() {
    let plan = input_pin_functions_plan();
    assert_eq!(plan.len(), 9);
    assert_eq!(plan[0], SdoWrite { index: 0x3400, sub_index: 0, value: SdoValue::I32(0x0032_3232) });
    assert_eq!(plan[7], SdoWrite { index: 0x3407, sub_index: 0, value: SdoValue::I32(0x0031_3131) });
    assert_eq!(plan[8], SdoWrite { index: 0x1010, sub_index: 1, value: SdoValue::U32(0x6576_6173) });
}

#[test]
fn homing_and_encoder_reset_plans() {
    let plan = homing_plan(HomingDirection::Cw, 1000, 100, 5000);
    assert_eq!(plan[0].value, SdoValue::U8(19));
    assert_eq!(plan[1], SdoWrite { index: 0x6099, sub_index: 1, value: SdoValue::U32(1000) });
    assert_eq!(plan[4].value, SdoValue::I32(0));
    let reset = start_encoder_multi_turn_reset_plan();
    assert_eq!(reset[1].value, SdoValue::U32(1 << 9));
    assert!(encoder_multi_turn_reset_done(0));
    assert!(!encoder_multi_turn_reset_done(0x31));
    assert_eq!(clear_alarm_plan().index, 0x2280);
}

use ethercat_hal::minas_a6::MinasPdoError;

#[test]
fn images_of_the_wrong_size_are_refused() {
    let mut m = MinasA6BMotor::new();
    assert_eq!(
        m.input_checked(&[0x40; 8], 0, false),
        Err(MinasPdoError::LengthMismatch { actual_bytes: 8, expected_bytes: 9 })
    );
    assert_eq!(m.state, State::Unknown);
    assert_eq!(m.input_checked(&[0x40, 0, 0, 0, 0, 0, 0, 0, 0], 0, false), Ok(()));
    assert_eq!(m.state, State::PreOpSwitchOnDisabled);
    let mut out = [0xAAu8; 19];
    assert_eq!(m.output_checked(&mut out), Ok(()));
    assert_eq!(out, m.rxpdo.to_bytes());
    let mut short = [0u8; 3];
    assert!(m.output_checked(&mut short).is_err());
    assert_eq!(short, [0, 0, 0]);
}

/// The drive reads its nine input bytes at its input offset of a larger
/// process image, and writes its nineteen output bytes at its output offset,
/// leaving the rest of the image alone.
#[test]
fn the_drive_uses_its_slice_of_the_process_image() {
    let mut m = MinasA6BMotor::new();
    m.tx_bit_offset = 12;
    let mut input = vec![0u8; 14];
    // status word 0x0040 starting at bit 12: 0x40 << 4 spans bytes 1 and 2.
    input[1] = 0x00;
    input[2] = 0x04;
    m.input(&input, 0, false);
    assert_eq!(m.txpdo.status_word, 0x0040);
    assert_eq!(m.state, State::PreOpSwitchOnDisabled);
    let tx = MinasA6BTxPdo::from_image(&[0xFF, 0x37, 0x02, 1, 0x28, 0xFF, 0xFF, 0xFF, 0xFF, 0xFF], 8);
    assert_eq!(tx.status_word, 0x0237);
    assert_eq!(tx.position_actual, -1);

    m.rx_bit_offset = 4;
    m.rxpdo = cmd(0x0006, 8);
    let mut out = [0xFFu8; 22];
    m.output(&mut out);
    // control word 0x0006 at bit 4: low nibble of byte 0 kept.
    assert_eq!(out[0], 0x6F);
    assert_eq!(out[1], 0x00);
    assert_eq!(out[2], 0x80);
    assert_eq!(out[19], 0xF0);
    assert_eq!(out[21], 0xFF);
}
