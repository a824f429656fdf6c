use ethercat_hal::el7062::{
    describe_status_word, CiA402ChannelState, El7062Error, El7062Object, PositionWrapperU32I128, EL7062,
    CONTROL_WORD_DISABLE_VOLTAGE, CONTROL_WORD_ENABLE_OPERATION, CONTROL_WORD_FAULT_RESET,
    CONTROL_WORD_SHUTDOWN, CONTROL_WORD_SWITCH_ON,
};
use ethercat_hal::el7062_diagnostics::{
    diag_read_step, diag_scan_window, increments_per_revolution, DiagReadStep, DEFAULT_SINGLETURN_BITS,
};
use ethercat_hal::el7062_pdo::{DrvInfoData, DrvModeOfOperationDisplay, DrvStatusWord, CSP_MODE};

#[test]
fn status_word_decoding() {
    assert_eq!(
        CiA402ChannelState::from_status_word(0x0000),
        CiA402ChannelState::SwitchOnDisabled
    );
    assert_eq!(
        CiA402ChannelState::from_status_word(0x0040),
        CiA402ChannelState::SwitchOnDisabled
    );
    assert_eq!(
        CiA402ChannelState::from_status_word(0x0021),
        CiA402ChannelState::ReadyToSwitchOn
    );
    assert_eq!(
        CiA402ChannelState::from_status_word(0x0023),
        CiA402ChannelState::SwitchedOn
    );
    assert_eq!(
        CiA402ChannelState::from_status_word(0x0027),
        CiA402ChannelState::OperationEnabled
    );
    assert_eq!(
        CiA402ChannelState::from_status_word(0x0008),
        CiA402ChannelState::Fault
    );
    assert_eq!(
        CiA402ChannelState::from_status_word(0x0028),
        CiA402ChannelState::Fault
    );
}

#[test]
fn describe_status_word_decodes_bits() {
    assert_eq!(
        describe_status_word(0x00A1),
        "0x00A1 [ready_to_switch_on | WARNING]"
    );
    assert_eq!(describe_status_word(0x0021), "0x0021 [ready_to_switch_on]");
    assert_eq!(
        describe_status_word(0x0027),
        "0x0027 [operation_enabled | switched_on | ready_to_switch_on]"
    );
    assert_eq!(describe_status_word(0x0040), "0x0040 [switch_on_disabled]");
    assert_eq!(
        describe_status_word(0x0000),
        "0x0000 [(no bits set: switch-on-disabled)]"
    );
    assert_eq!(
        describe_status_word(0x10A7),
        "0x10A7 [operation_enabled | switched_on | ready_to_switch_on | WARNING | drive_follows]"
    );
}

#[test]
fn enable_diagnostic_flags_low_dc_link() {
    let mut device = EL7062::new();
    device.set_enabled(0, true).unwrap();
    device.txpdo.status_word_ch1 = Some(DrvStatusWord { status_word: 0x00A1 });
    device.txpdo.info_data_ch1 = Some(DrvInfoData { info_data: 94 });
    device.txpdo.mode_of_operation_display_ch1 = Some(DrvModeOfOperationDisplay {
        mode_display: CSP_MODE,
    });
    device.process_channel(0).unwrap();

    let diagnostic = device.enable_diagnostic(0).unwrap();
    assert!(diagnostic.contains("DC link only 94 mV"), "{diagnostic}");
    assert!(diagnostic.contains("MOTOR supply"), "{diagnostic}");
    assert!(diagnostic.contains("warning bit SET"), "{diagnostic}");
}

#[test]
fn enable_diagnostic_reports_operation_enabled() {
    let mut device = EL7062::new();
    device.set_enabled(0, true).unwrap();
    device.txpdo.status_word_ch1 = Some(DrvStatusWord { status_word: 0x1027 });
    device.txpdo.info_data_ch1 = Some(DrvInfoData { info_data: 24222 });
    device.process_channel(0).unwrap();

    let diagnostic = device.enable_diagnostic(0).unwrap();
    assert!(diagnostic.starts_with("operation enabled"), "{diagnostic}");
}

#[test]
fn enable_sequence_advances_states() {
    let mut device = EL7062::new();
    device.set_enabled(0, true).unwrap();

    device.txpdo.status_word_ch1 = Some(DrvStatusWord { status_word: 0x0040 });
    device.process_channel(0).unwrap();
    assert_eq!(
        device.rxpdo.control_word_ch1.unwrap().control_word,
        CONTROL_WORD_SHUTDOWN
    );

    device.txpdo.status_word_ch1 = Some(DrvStatusWord { status_word: 0x0021 });
    device.process_channel(0).unwrap();
    assert_eq!(
        device.rxpdo.control_word_ch1.unwrap().control_word,
        CONTROL_WORD_SWITCH_ON
    );

    device.txpdo.status_word_ch1 = Some(DrvStatusWord { status_word: 0x0023 });
    device.process_channel(0).unwrap();
    assert_eq!(
        device.rxpdo.control_word_ch1.unwrap().control_word,
        CONTROL_WORD_ENABLE_OPERATION
    );

    device.txpdo.status_word_ch1 = Some(DrvStatusWord { status_word: 0x0027 });
    device.process_channel(0).unwrap();
    assert_eq!(
        device.rxpdo.control_word_ch1.unwrap().control_word,
        CONTROL_WORD_ENABLE_OPERATION
    );
    assert!(device.is_enabled(0).unwrap());
    assert!(!device.is_in_fault(0).unwrap());
}

#[test]
fn disable_sequence_retreats_states() {
    let mut device = EL7062::new();
    device.set_enabled(0, true).unwrap();
    device.txpdo.status_word_ch1 = Some(DrvStatusWord { status_word: 0x0027 });
    device.process_channel(0).unwrap();
    assert!(device.is_enabled(0).unwrap());

    device.set_enabled(0, false).unwrap();
    device.process_channel(0).unwrap();
    assert_eq!(
        device.rxpdo.control_word_ch1.unwrap().control_word,
        CONTROL_WORD_SWITCH_ON
    );

    device.txpdo.status_word_ch1 = Some(DrvStatusWord { status_word: 0x0023 });
    device.process_channel(0).unwrap();
    assert_eq!(
        device.rxpdo.control_word_ch1.unwrap().control_word,
        CONTROL_WORD_SHUTDOWN
    );

    device.txpdo.status_word_ch1 = Some(DrvStatusWord { status_word: 0x0021 });
    device.process_channel(0).unwrap();
    assert_eq!(
        device.rxpdo.control_word_ch1.unwrap().control_word,
        CONTROL_WORD_DISABLE_VOLTAGE
    );

    device.txpdo.status_word_ch1 = Some(DrvStatusWord { status_word: 0x0040 });
    device.process_channel(0).unwrap();
    assert!(!device.is_enabled(0).unwrap());
}

#[test]
fn fault_reset_is_edge_driven() {
    let mut device = EL7062::new();
    device.txpdo.status_word_ch1 = Some(DrvStatusWord { status_word: 0x0008 });

    device.process_channel(0).unwrap();
    assert_eq!(
        device.rxpdo.control_word_ch1.unwrap().control_word,
        CONTROL_WORD_DISABLE_VOLTAGE
    );
    assert!(device.is_in_fault(0).unwrap());

    device.reset_fault(0).unwrap();
    device.process_channel(0).unwrap();
    assert_eq!(
        device.rxpdo.control_word_ch1.unwrap().control_word,
        CONTROL_WORD_FAULT_RESET
    );

    device.txpdo.status_word_ch1 = Some(DrvStatusWord { status_word: 0x0040 });
    device.process_channel(0).unwrap();
    assert!(!device.fault_reset_pending[0]);
}

#[test]
fn set_enabled_does_not_cancel_pending_fault_reset() {
    let mut device = EL7062::new();
    device.txpdo.status_word_ch1 = Some(DrvStatusWord { status_word: 0x0008 });
    device.reset_fault(0).unwrap();
    device.set_enabled(0, false).unwrap();
    assert!(device.fault_reset_pending[0]);
    device.process_channel(0).unwrap();
    assert_eq!(
        device.rxpdo.control_word_ch1.unwrap().control_word,
        CONTROL_WORD_FAULT_RESET
    );
}

#[test]
fn target_position_writes_and_wraps() {
    let mut device = EL7062::new();
    device.set_target_position(0, -1).unwrap();
    device.process_channel(0).unwrap();
    assert_eq!(
        device.rxpdo.target_position_ch1.unwrap().target_position,
        0xFFFF_FFFF
    );

    device.set_target_position(0, (1i128 << 32) + 12345).unwrap();
    device.process_channel(0).unwrap();
    assert_eq!(
        device.rxpdo.target_position_ch1.unwrap().target_position,
        12345
    );
}

#[test]
fn position_wrapper_unwraps() {
    let mut wrapper = PositionWrapperU32I128::new();
    wrapper.update(0);
    wrapper.update(1000);
    assert_eq!(wrapper.current(), 1000);

    wrapper.update(900);
    assert_eq!(wrapper.current(), 900);

    wrapper.update(0xFFFF_FFF0);
    assert_eq!(wrapper.current(), -16);
}

#[test]
fn position_wrapper_detects_wrap() {
    let mut wrapper = PositionWrapperU32I128::new();
    wrapper.update(0xFFFF_FFF0);
    wrapper.update(5);
    assert_eq!(wrapper.current(), 0xFFFF_FFF0i128 + 21);

    let mut wrapper = PositionWrapperU32I128::new();
    wrapper.update(5);
    wrapper.update(0xFFFF_FFF0);
    assert_eq!(wrapper.current(), -16);

    let mut wrapper = PositionWrapperU32I128::new();
    wrapper.update(1_000_000_000);
    wrapper.update(1_100_000_000);
    assert_eq!(wrapper.current(), 1_100_000_000);
}

#[test]
fn invalid_port_is_rejected() {
    let device = EL7062::new();
    assert!(device.is_enabled(2).is_err());
    assert!(device.get_actual_position(2).is_err());
}

#[test]
fn io_snapshot_reflects_state() {
    let mut device = EL7062::new();
    device.set_enabled(0, true).unwrap();
    device.set_target_position(1, 4242).unwrap();

    device.txpdo.status_word_ch1 = Some(DrvStatusWord { status_word: 0x0027 });
    device.txpdo.status_word_ch2 = Some(DrvStatusWord { status_word: 0x0040 });
    device.txpdo.mode_of_operation_display_ch1 = Some(DrvModeOfOperationDisplay {
        mode_display: CSP_MODE,
    });
    device.process_channel(0).unwrap();
    device.process_channel(1).unwrap();

    let input1 = device.get_input(0).unwrap();
    assert!(input1.is_enabled);
    assert_eq!(input1.state, CiA402ChannelState::OperationEnabled);
    assert_eq!(input1.mode_display, Some(CSP_MODE));

    let input2 = device.get_input(1).unwrap();
    assert!(!input2.is_enabled);
    assert_eq!(input2.state, CiA402ChannelState::SwitchOnDisabled);

    let output = device.get_output(1).unwrap();
    assert_eq!(output.target_position, 4242);
    assert_eq!(output.mode, CSP_MODE);

    assert_eq!(device.get_port_count(), 2);
}

#[test]
fn default_scale_is_one_million_increments_per_revolution() {
    assert_eq!(increments_per_revolution(DEFAULT_SINGLETURN_BITS), 1_048_576);
}

/// The EL7062 only emits a full step once the setpoint crosses
/// 2^singleturn_bits/steps_per_rev increments; a few hundred increments are
/// well below that.
#[test]
fn a_few_hundred_increments_is_well_under_one_full_step() {
    let full_steps_per_rev = 200;
    let per_step =
        increments_per_revolution(DEFAULT_SINGLETURN_BITS) as f64 / full_steps_per_rev as f64;
    assert!((per_step - 5242.88).abs() < 0.01, "per_step = {per_step}");
    assert!(
        500.0 < per_step / 10.0,
        "500 increments must be under a tenth of a full step"
    );
}

#[test]
fn invalid_port_errors_name_the_port() {
    let mut device = EL7062::new();
    assert_eq!(device.set_enabled(5, true), Err(El7062Error::InvalidPort(5)));
    assert_eq!(device.reset_fault(2), Err(El7062Error::InvalidPort(2)));
}

#[test]
fn unmapped_status_word_is_a_missing_object() {
    let mut device = EL7062::new();
    device.txpdo.status_word_ch1 = None;
    assert!(device.process_channel(0).is_err());
}

use ethercat_hal::el7062_diagnostics::{diag_message_type, diag_name, diag_scan_end, parse_diag_record};

#[test]
fn diagnosis_records_are_decoded() {
    assert_eq!(parse_diag_record(&[0u8; 28]), None);
    let mut rec = [0u8; 28];
    rec[0..4].copy_from_slice(&0x0000_E411u32.to_le_bytes());
    rec[4..6].copy_from_slice(&2u16.to_le_bytes());
    rec[6..8].copy_from_slice(&0x4411u16.to_le_bytes());
    rec[8..16].copy_from_slice(&0x0102_0304_0506_0708u64.to_le_bytes());
    let r = parse_diag_record(&rec).unwrap();
    assert_eq!(r.diag_code, 0xE411);
    assert_eq!(diag_message_type(r.flags), "Error");
    assert_eq!(diag_name(r.text_id), Some("DC-Link undervoltage"));
    assert_eq!(r.timestamp, 0x0102_0304_0506_0708);
    // a short record reads the missing fields as zero
    let short = parse_diag_record(&[1, 0, 0, 0, 1]).unwrap();
    assert_eq!((short.diag_code, short.flags, short.text_id), (1, 0, 0));
    assert_eq!(diag_message_type(7), "Unknown");
}

#[test]
fn diagnosis_scan_window() {
    assert_eq!(diag_scan_end(0x08), 0x06 + 3);
    assert_eq!(diag_scan_end(0x40), 0x06 + 15);
    assert_eq!(diag_scan_end(0x02), 0x06 + 8);
}

use ethercat_hal::el7062_pdo::{DrvControlWord, DrvTargetPosition, DrvVelocityActual, FbPosition};

#[test]
fn pdo_objects_move_through_the_image() {
    let mut image = [0xFFu8, 0xFF, 0xFF, 0xFF, 0xFF, 0xFF];
    DrvControlWord { control_word: 0x0006 }.write(&mut image, 8);
    // bits 0..4 and 7 of the word come from the control word, the rest stay
    assert_eq!(image[1], 0b0111_0110);
    assert_eq!(image[2], 0xFF);
    DrvTargetPosition { target_position: 0x0102_0304 }.write(&mut image, 16);
    assert_eq!(image[2..6], [4, 3, 2, 1]);
    let mut fb = FbPosition { position: 0 };
    fb.read(&image, 16);
    assert_eq!(fb.position, 0x0102_0304);
    let mut v = DrvVelocityActual { velocity_actual: 0 };
    v.read(&[0xFE, 0xFF, 0xFF, 0xFF], 0);
    assert_eq!(v.velocity_actual, -2);
    let mut sw = ethercat_hal::el7062_pdo::DrvStatusWord { status_word: 0 };
    sw.read(&[0xFF, 0xFF], 0);
    assert_eq!(sw.status_word, 0x7CCF);
}

#[test]
fn a_cycle_stops_at_the_first_unmapped_object() {
    let mut device = EL7062::new();
    device.txpdo.fb_position_ch2 = None;
    assert_eq!(
        device.output_pre_process(),
        Err(El7062Error::MissingObject(1, El7062Object::FbPosition))
    );
    let mut device = EL7062::new();
    device.rxpdo.control_word_ch1 = None;
    assert_eq!(
        device.output_pre_process(),
        Err(El7062Error::MissingObject(0, El7062Object::ControlWord))
    );
    let mut device = EL7062::new();
    assert_eq!(device.output_pre_process(), Ok(()));
}

#[test]
fn history_reads_are_retried_and_an_empty_history_is_not_scanned() {
    assert_eq!(diag_read_step::<()>(0, Ok(5)), DiagReadStep::Value(5));
    assert_eq!(diag_read_step(0, Err::<u8, ()>(())), DiagReadStep::Retry);
    assert_eq!(diag_read_step(1, Err::<u8, ()>(())), DiagReadStep::Retry);
    assert_eq!(diag_read_step(2, Err::<u8, ()>(())), DiagReadStep::GiveUp);
    assert_eq!(diag_scan_window(0, 10), None);
    assert_eq!(diag_scan_window(3, 10), Some((6, 11)));
    assert_eq!(diag_scan_window(3, 0), Some((6, 14)));
}
