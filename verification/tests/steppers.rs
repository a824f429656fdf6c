use ethercat_hal::el7031::EL7031;
use ethercat_hal::el70x1::{
    EL70x1OperationMode, El70x1Object, EncControlCompact, EncStatusCompact, StepperError,
    StepperVelocityEL70x1Output, StmStatus, StmVelocity,
};

fn velocity_mode() -> EL7031 {
    let mut t = EL7031::new();
    t.configuration.operation_mode = EL70x1OperationMode::DirectVelocity;
    t
}

fn status() -> StmStatus {
    StmStatus {
        ready_to_enable: true,
        ready: true,
        warning: false,
        error: false,
        moving_positive: false,
        moving_negative: false,
        torque_reduced: false,
        digital_input_1: true,
        digital_input_2: false,
    }
}

#[test]
fn outputs_need_direct_velocity_mode() {
    let t = EL7031::new();
    assert_eq!(
        t.get_input(0),
        Err(StepperError::NotVelocityMode(EL70x1OperationMode::Automatic))
    );
}

#[test]
fn velocity_and_enable_reach_the_process_data() {
    let mut t = velocity_mode();
    let out = StepperVelocityEL70x1Output {
        velocity: 1200,
        enable: true,
        reduce_torque: false,
        reset: false,
        set_counter: None,
    };
    assert_eq!(t.set_output(0, out), Ok(()));
    assert_eq!(t.rxpdo.stm_velocity, Some(StmVelocity { velocity: 1200 }));
    assert!(t.is_enabled(0));
    assert_eq!(t.set_output(1, out), Err(StepperError::InvalidPort(1)));
    t.set_enabled(0, false);
    assert!(!t.is_enabled(0));
}

#[test]
fn encoder_counts_are_widened() {
    let mut t = velocity_mode();
    t.txpdo.stm_status = Some(status());
    t.txpdo.enc_status_compact = Some(EncStatusCompact {
        counter_underflow: false,
        counter_overflow: false,
        counter_value: 300,
    });
    t.input_post_process().unwrap();
    assert_eq!(t.get_position(0), 300);
    assert_eq!(t.get_digital_input(0), Ok(true));
    t.txpdo.enc_status_compact = None;
    assert_eq!(
        t.input_post_process(),
        Err(StepperError::MissingObject(El70x1Object::EncStatusCompact))
    );
}

/// A position set through the outputs is handed to the encoder on the next
/// output cycle.
#[test]
fn position_override_goes_out_with_the_next_outputs() {
    let mut t = velocity_mode();
    t.txpdo.stm_status = Some(status());
    t.txpdo.enc_status_compact = Some(EncStatusCompact {
        counter_underflow: false,
        counter_overflow: false,
        counter_value: 0,
    });
    t.set_position(0, -1);
    t.output_pre_process().unwrap();
    assert_eq!(
        t.rxpdo.enc_control_compact,
        Some(EncControlCompact { set_counter: true, set_counter_value: 0xFFFF })
    );
    assert_eq!(t.get_position(0), -1);
}

/// Without an override, an overflow is cleared by setting the counter to
/// its current value.
#[test]
fn an_overflow_is_cleared_with_the_current_value() {
    let mut t = velocity_mode();
    t.txpdo.stm_status = Some(status());
    t.txpdo.enc_status_compact = Some(EncStatusCompact {
        counter_underflow: false,
        counter_overflow: true,
        counter_value: 1234,
    });
    t.output_pre_process().unwrap();
    assert_eq!(
        t.rxpdo.enc_control_compact,
        Some(EncControlCompact { set_counter: true, set_counter_value: 1234 })
    );
    t.txpdo.enc_status_compact = Some(EncStatusCompact {
        counter_underflow: false,
        counter_overflow: false,
        counter_value: 1234,
    });
    t.output_pre_process().unwrap();
    assert_eq!(
        t.rxpdo.enc_control_compact,
        Some(EncControlCompact { set_counter: false, set_counter_value: 0 })
    );
}
