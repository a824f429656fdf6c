//! Process data objects of the EL70x1 stepper terminals, and the stepper
//! logic they share: the encoder counter is widened by a
//! [`CounterWrapperU16U128`], drive errors are reset, and counter overrides are
//! handed to the terminal.
use vstd::prelude::*;
use crate::counter_wrapper::{CounterWrapperU16U128, CounterState, spec_update, spec_update_fits, spec_wrap_u16, spec_override_timeout};

verus! {

/// ENC status compact (`0x6000`): the 16-bit encoder counter and its wrap flags.
#[derive(Debug, Clone, Copy, PartialEq, Eq, Structural)]
pub struct EncStatusCompact {
    pub counter_underflow: bool,
    pub counter_overflow: bool,
    pub counter_value: u16,
}

/// ENC status (`0x6000`, 32-bit counter).
#[derive(Debug, Clone, Copy, PartialEq, Eq, Structural)]
pub struct EncStatus {}

/// ENC timestamp compact.
#[derive(Debug, Clone, Copy, PartialEq, Eq, Structural)]
pub struct EncTimestampCompact {}

/// STM status (`0x6010`).
#[derive(Debug, Clone, Copy, PartialEq, Eq, Structural)]
pub struct StmStatus {
    pub ready_to_enable: bool,
    pub ready: bool,
    pub warning: bool,
    pub error: bool,
    pub moving_positive: bool,
    pub moving_negative: bool,
    pub torque_reduced: bool,
    pub digital_input_1: bool,
    pub digital_input_2: bool,
}

/// STM synchron info data.
#[derive(Debug, Clone, Copy, PartialEq, Eq, Structural)]
pub struct StmSynchronInfoData {}

/// POS status compact.
#[derive(Debug, Clone, Copy, PartialEq, Eq, Structural)]
pub struct PosStatusCompact {}

/// POS status.
#[derive(Debug, Clone, Copy, PartialEq, Eq, Structural)]
pub struct PosStatus {}

/// STM internal position.
#[derive(Debug, Clone, Copy, PartialEq, Eq, Structural)]
pub struct StmInternalPosition {}

/// STM external position.
#[derive(Debug, Clone, Copy, PartialEq, Eq, Structural)]
pub struct StmExternalPosition {}

/// POS actual position lag.
#[derive(Debug, Clone, Copy, PartialEq, Eq, Structural)]
pub struct PosActualPositionLag {}

/// AI standard: a raw value with its error bit.
#[derive(Debug, Clone, Copy, PartialEq, Eq, Structural)]
pub struct AiStandard {
    pub error: bool,
    pub value: u16,
}

/// AI compact: the raw value alone.
#[derive(Debug, Clone, Copy, PartialEq, Eq, Structural)]
pub struct AiCompact {
    pub value: u16,
}

/// ENC control compact (`0x7000`): sets the encoder counter.
#[derive(Debug, Clone, Copy, PartialEq, Eq, Structural)]
pub struct EncControlCompact {
    pub set_counter: bool,
    pub set_counter_value: u16,
}

/// ENC control (32-bit counter value).
#[derive(Debug, Clone, Copy, PartialEq, Eq, Structural)]
pub struct EncControl {}

/// STM control (`0x7010`).
#[derive(Debug, Clone, Copy, PartialEq, Eq, Structural)]
pub struct StmControl {
    pub enable: bool,
    pub reset: bool,
    pub reduce_torque: bool,
}

/// STM position.
#[derive(Debug, Clone, Copy, PartialEq, Eq, Structural)]
pub struct StmPosition {}

/// STM velocity (`0x7010:21`): the velocity set value.
#[derive(Debug, Clone, Copy, PartialEq, Eq, Structural)]
pub struct StmVelocity {
    pub velocity: i16,
}

/// POS control compact.
#[derive(Debug, Clone, Copy, PartialEq, Eq, Structural)]
pub struct PosControlCompact {}

/// POS control.
#[derive(Debug, Clone, Copy, PartialEq, Eq, Structural)]
pub struct PosControl {}

/// POS control 2.
#[derive(Debug, Clone, Copy, PartialEq, Eq, Structural)]
pub struct PosControl2 {}

/// Bit lengths of the objects in the process data.
pub const ENC_STATUS_COMPACT_BITS: usize = 48;
pub const ENC_STATUS_BITS: usize = 80;
pub const ENC_TIMESTAMP_COMPACT_BITS: usize = 32;
pub const STM_STATUS_BITS: usize = 16;
pub const STM_SYNCHRON_INFO_DATA_BITS: usize = 32;
pub const POS_STATUS_COMPACT_BITS: usize = 16;
pub const POS_STATUS_BITS: usize = 96;
pub const STM_INTERNAL_POSITION_BITS: usize = 32;
pub const STM_EXTERNAL_POSITION_BITS: usize = 32;
pub const POS_ACTUAL_POSITION_LAG_BITS: usize = 32;
pub const AI_STANDARD_BITS: usize = 32;
pub const AI_COMPACT_BITS: usize = 16;
pub const ENC_CONTROL_COMPACT_BITS: usize = 32;
pub const ENC_CONTROL_BITS: usize = 48;
pub const STM_CONTROL_BITS: usize = 16;
pub const STM_POSITION_BITS: usize = 32;
pub const STM_VELOCITY_BITS: usize = 16;
pub const POS_CONTROL_COMPACT_BITS: usize = 48;
pub const POS_CONTROL_BITS: usize = 112;
pub const POS_CONTROL_2_BITS: usize = 112;

/// The default values of the interpreted objects.
pub open spec fn spec_default_enc_status_compact() -> EncStatusCompact {
    EncStatusCompact { counter_underflow: false, counter_overflow: false, counter_value: 0 }
}

pub open spec fn spec_default_stm_status() -> StmStatus {
    StmStatus {
        ready_to_enable: false,
        ready: false,
        warning: false,
        error: false,
        moving_positive: false,
        moving_negative: false,
        torque_reduced: false,
        digital_input_1: false,
        digital_input_2: false,
    }
}

impl Default for EncStatusCompact {
    fn default() -> (r: Self)
        ensures
            r == spec_default_enc_status_compact(),
    {
        EncStatusCompact { counter_underflow: false, counter_overflow: false, counter_value: 0 }
    }
}

impl Default for StmStatus {
    fn default() -> (r: Self)
        ensures
            r == spec_default_stm_status(),
    {
        StmStatus {
            ready_to_enable: false,
            ready: false,
            warning: false,
            error: false,
            moving_positive: false,
            moving_negative: false,
            torque_reduced: false,
            digital_input_1: false,
            digital_input_2: false,
        }
    }
}

impl Default for AiStandard {
    fn default() -> (r: Self)
        ensures
            r == (AiStandard { error: false, value: 0 }),
    {
        AiStandard { error: false, value: 0 }
    }
}

impl Default for EncControlCompact {
    fn default() -> (r: Self)
        ensures
            r == (EncControlCompact { set_counter: false, set_counter_value: 0 }),
    {
        EncControlCompact { set_counter: false, set_counter_value: 0 }
    }
}

impl Default for StmControl {
    fn default() -> (r: Self)
        ensures
            r == (StmControl { enable: false, reset: false, reduce_torque: false }),
    {
        StmControl { enable: false, reset: false, reduce_torque: false }
    }
}

impl Default for StmVelocity {
    fn default() -> (r: Self)
        ensures
            r == (StmVelocity { velocity: 0 }),
    {
        StmVelocity { velocity: 0 }
    }
}

/// Operation mode of the stepper (`0x8012:01`).
#[derive(Debug, Clone, Copy, PartialEq, Eq, Structural)]
pub enum EL70x1OperationMode {
    Automatic,
    DirectVelocity,
    VelocityController,
    PositionController,
}

/// The object a stepper operation needs.
#[derive(Debug, Clone, Copy, PartialEq, Eq, Structural)]
pub enum El70x1Object {
    EncStatusCompact,
    EncControlCompact,
    StmStatus,
    StmControl,
    StmVelocity,
}

/// Errors of the stepper operations.
#[derive(Debug, Clone, Copy, PartialEq, Eq, Structural)]
pub enum StepperError {
    /// The object is not in the current PDO assignment.
    MissingObject(El70x1Object),
    /// The terminal is not in direct velocity mode.
    NotVelocityMode(EL70x1OperationMode),
    /// The terminal has no such port.
    InvalidPort(usize),
    /// Neither kind of analog input object is assigned for the port.
    InvalidPdoAssignment,
}

/// What the stepper reports.
#[derive(Debug, Clone, Copy, PartialEq, Eq, Structural)]
pub struct StepperVelocityEL70x1Input {
    pub counter_value: i128,
    pub ready_to_enable: bool,
    pub ready: bool,
    pub warning: bool,
    pub error: bool,
    pub moving_positive: bool,
    pub moving_negative: bool,
    pub torque_reduced: bool,
}

/// What the stepper is told.
#[derive(Debug, Clone, Copy, PartialEq, Eq, Structural)]
pub struct StepperVelocityEL70x1Output {
    pub velocity: i16,
    pub enable: bool,
    pub reduce_torque: bool,
    pub reset: bool,
    /// A new counter value to set the encoder to.
    pub set_counter: Option<i128>,
}

/// The widened counter can take one more sample from this object.
pub open spec fn spec_can_update(w: CounterState, enc: Option<EncStatusCompact>) -> bool {
    match enc {
        Some(e) => w.pending_cycles < spec_override_timeout()
            && spec_update_fits(w, e.counter_value, e.counter_underflow, e.counter_overflow),
        None => true,
    }
}

/// Feeds the encoder sample into the counter wrapper.
pub fn stepper_input_post_process(
    enc: &Option<EncStatusCompact>,
    wrapper: &mut CounterWrapperU16U128,
) -> (r: Result<(), StepperError>)
    requires
        spec_can_update(old(wrapper)@, *enc),
    ensures
        match *enc {
            Some(e) => r is Ok && final(wrapper)@ == spec_update(
                old(wrapper)@,
                e.counter_value,
                e.counter_underflow,
                e.counter_overflow,
            ),
            None => r == Err::<(), StepperError>(StepperError::MissingObject(El70x1Object::EncStatusCompact))
                && final(wrapper)@ == old(wrapper)@,
        },
{
    match enc {
        Some(e) => {
            wrapper.update(e.counter_value, e.counter_underflow, e.counter_overflow);
            Ok(())
        },
        None => Err(StepperError::MissingObject(El70x1Object::EncStatusCompact)),
    }
}

/// Which object is missing first, in the order the output step looks for them.
pub open spec fn spec_output_missing(
    enc: Option<EncStatusCompact>,
    ecc: Option<EncControlCompact>,
    status: Option<StmStatus>,
    control: Option<StmControl>,
) -> Option<El70x1Object> {
    if enc is None {
        Some(El70x1Object::EncStatusCompact)
    } else if ecc is None {
        Some(El70x1Object::EncControlCompact)
    } else if status is None {
        Some(El70x1Object::StmStatus)
    } else if control is None {
        Some(El70x1Object::StmControl)
    } else {
        None
    }
}

/// The counter control of a cycle without an override: an overflow or
/// underflow is cleared by setting the counter to its current value; else the
/// counter is left alone.
pub open spec fn spec_idle_counter_control(enc: EncStatusCompact) -> EncControlCompact {
    if enc.counter_overflow || enc.counter_underflow {
        EncControlCompact { set_counter: true, set_counter_value: enc.counter_value }
    } else {
        EncControlCompact { set_counter: false, set_counter_value: 0 }
    }
}

/// Prepares the outputs of a cycle: a drive error is answered with a reset,
/// and the counter control carries the scheduled override, if any; without
/// one, a counter overflow or underflow is cleared by setting the counter to
/// its current value, and otherwise the counter is left alone.
pub fn stepper_output_pre_process(
    enc: &Option<EncStatusCompact>,
    ecc: &mut Option<EncControlCompact>,
    status: &Option<StmStatus>,
    control: &mut Option<StmControl>,
    wrapper: &mut CounterWrapperU16U128,
) -> (r: Result<(), StepperError>)
    ensures
        match spec_output_missing(*enc, *old(ecc), *status, *old(control)) {
            Some(o) => {
                &&& r == Err::<(), StepperError>(StepperError::MissingObject(o))
                &&& *final(ecc) == *old(ecc)
                &&& *final(control) == *old(control)
                &&& final(wrapper)@ == old(wrapper)@
            },
            None => {
                &&& r is Ok
                &&& *final(control) == Some(StmControl {
                    reset: old(control).unwrap().reset || status.unwrap().error,
                    ..old(control).unwrap()
                })
                &&& match old(wrapper)@.set_counter {
                    Some(c) => {
                        &&& *final(ecc) == Some(EncControlCompact {
                            set_counter: true,
                            set_counter_value: spec_wrap_u16(c as int) as u16,
                        })
                        &&& final(wrapper)@ == (CounterState {
                            counter: c as int,
                            set_counter: None,
                            pending_override: Some(spec_wrap_u16(c as int) as u16),
                            pending_cycles: 0,
                            ..old(wrapper)@
                        })
                    },
                    None => {
                        &&& *final(ecc) == Some(spec_idle_counter_control(enc.unwrap()))
                        &&& final(wrapper)@ == old(wrapper)@
                    },
                }
            },
        },
{
    let e = match enc {
        Some(e) => *e,
        None => { return Err(StepperError::MissingObject(El70x1Object::EncStatusCompact)); },
    };
    let mut c = match *ecc {
        Some(c) => c,
        None => { return Err(StepperError::MissingObject(El70x1Object::EncControlCompact)); },
    };
    let s = match status {
        Some(s) => *s,
        None => { return Err(StepperError::MissingObject(El70x1Object::StmStatus)); },
    };
    let mut k = match *control {
        Some(k) => k,
        None => { return Err(StepperError::MissingObject(El70x1Object::StmControl)); },
    };
    if s.error {
        k.reset = true;
    }
    match wrapper.pop_override() {
        Some(new_counter) => {
            c.set_counter = true;
            c.set_counter_value = new_counter;
        },
        None => {
            if e.counter_overflow || e.counter_underflow {
                c.set_counter = true;
                c.set_counter_value = e.counter_value;
            } else {
                c.set_counter = false;
                c.set_counter_value = 0;
            }
        },
    }
    *ecc = Some(c);
    *control = Some(k);
    Ok(())
}

/// The stepper's report: the widened counter and the status bits.
pub open spec fn spec_stepper_input(counter: int, s: StmStatus) -> StepperVelocityEL70x1Input {
    StepperVelocityEL70x1Input {
        counter_value: counter as i128,
        ready_to_enable: s.ready_to_enable,
        ready: s.ready,
        warning: s.warning,
        error: s.error,
        moving_positive: s.moving_positive,
        moving_negative: s.moving_negative,
        torque_reduced: s.torque_reduced,
    }
}

/// The stepper's report on `port`: only in direct velocity mode, only on port
/// 0, and only where the STM status is assigned.
pub open spec fn spec_get_input(
    mode: EL70x1OperationMode,
    port: usize,
    status: Option<StmStatus>,
    counter: int,
) -> Result<StepperVelocityEL70x1Input, StepperError> {
    if mode != EL70x1OperationMode::DirectVelocity {
        Err(StepperError::NotVelocityMode(mode))
    } else if port != 0 {
        Err(StepperError::InvalidPort(port))
    } else {
        match status {
            Some(s) => Ok(spec_stepper_input(counter, s)),
            None => Err(StepperError::MissingObject(El70x1Object::StmStatus)),
        }
    }
}

/// What the stepper on `port` is told: only in direct velocity mode, only on
/// port 0, and only where the STM control and velocity are assigned.
pub open spec fn spec_get_output(
    mode: EL70x1OperationMode,
    port: usize,
    control: Option<StmControl>,
    velocity: Option<StmVelocity>,
    set_counter: Option<i128>,
) -> Result<StepperVelocityEL70x1Output, StepperError> {
    if mode != EL70x1OperationMode::DirectVelocity {
        Err(StepperError::NotVelocityMode(mode))
    } else if port != 0 {
        Err(StepperError::InvalidPort(port))
    } else {
        match (control, velocity) {
            (Some(k), Some(v)) => Ok(StepperVelocityEL70x1Output {
                velocity: v.velocity,
                enable: k.enable,
                reduce_torque: k.reduce_torque,
                reset: k.reset,
                set_counter,
            }),
            (None, _) => Err(StepperError::MissingObject(El70x1Object::StmControl)),
            (Some(_), None) => Err(StepperError::MissingObject(El70x1Object::StmVelocity)),
        }
    }
}

/// Reads the stepper's report on `port` (only port 0 exists).
pub fn stepper_get_input(
    mode: EL70x1OperationMode,
    port: usize,
    status: &Option<StmStatus>,
    wrapper: &CounterWrapperU16U128,
) -> (r: Result<StepperVelocityEL70x1Input, StepperError>)
    ensures
        r == spec_get_input(mode, port, *status, wrapper@.counter),
{
    if mode != EL70x1OperationMode::DirectVelocity {
        return Err(StepperError::NotVelocityMode(mode));
    }
    if port != 0 {
        return Err(StepperError::InvalidPort(port));
    }
    match status {
        Some(s) => Ok(StepperVelocityEL70x1Input {
            counter_value: wrapper.current(),
            ready_to_enable: s.ready_to_enable,
            ready: s.ready,
            warning: s.warning,
            error: s.error,
            moving_positive: s.moving_positive,
            moving_negative: s.moving_negative,
            torque_reduced: s.torque_reduced,
        }),
        None => Err(StepperError::MissingObject(El70x1Object::StmStatus)),
    }
}

/// What the stepper is currently told on `port` (only port 0 exists).
pub fn stepper_get_output(
    mode: EL70x1OperationMode,
    port: usize,
    control: &Option<StmControl>,
    velocity: &Option<StmVelocity>,
    wrapper: &CounterWrapperU16U128,
) -> (r: Result<StepperVelocityEL70x1Output, StepperError>)
    ensures
        r == spec_get_output(mode, port, *control, *velocity, wrapper@.set_counter),
{
    if mode != EL70x1OperationMode::DirectVelocity {
        return Err(StepperError::NotVelocityMode(mode));
    }
    if port != 0 {
        return Err(StepperError::InvalidPort(port));
    }
    let k = match control {
        Some(k) => *k,
        None => { return Err(StepperError::MissingObject(El70x1Object::StmControl)); },
    };
    let v = match velocity {
        Some(v) => *v,
        None => { return Err(StepperError::MissingObject(El70x1Object::StmVelocity)); },
    };
    Ok(StepperVelocityEL70x1Output {
        velocity: v.velocity,
        enable: k.enable,
        reduce_torque: k.reduce_torque,
        reset: k.reset,
        set_counter: wrapper.get_override(),
    })
}

/// Tells the stepper on `port` (only port 0 exists) what to do. A counter
/// override in the value is scheduled first; then the control bits and the
/// velocity are written, each where its object is assigned.
pub fn stepper_set_output(
    port: usize,
    value: StepperVelocityEL70x1Output,
    control: &mut Option<StmControl>,
    velocity: &mut Option<StmVelocity>,
    wrapper: &mut CounterWrapperU16U128,
) -> (r: Result<(), StepperError>)
    ensures
        port != 0 ==> {
            &&& r == Err::<(), StepperError>(StepperError::InvalidPort(port))
            &&& *final(control) == *old(control)
            &&& *final(velocity) == *old(velocity)
            &&& final(wrapper)@ == old(wrapper)@
        },
        port == 0 ==> {
            &&& final(wrapper)@ == (match value.set_counter {
                Some(c) => CounterState { set_counter: Some(c), ..old(wrapper)@ },
                None => old(wrapper)@,
            })
            &&& match *old(control) {
                None => {
                    &&& r == Err::<(), StepperError>(StepperError::MissingObject(El70x1Object::StmControl))
                    &&& *final(control) == *old(control)
                    &&& *final(velocity) == *old(velocity)
                },
                Some(k) => {
                    &&& *final(control) == Some(StmControl {
                        enable: value.enable,
                        reduce_torque: value.reduce_torque,
                        reset: value.reset,
                    })
                    &&& match *old(velocity) {
                        None => r == Err::<(), StepperError>(StepperError::MissingObject(El70x1Object::StmVelocity))
                            && *final(velocity) == *old(velocity),
                        Some(_) => r is Ok && *final(velocity) == Some(StmVelocity { velocity: value.velocity }),
                    }
                },
            }
        },
{
    if port != 0 {
        return Err(StepperError::InvalidPort(port));
    }
    match value.set_counter {
        Some(c) => wrapper.push_override(c),
        None => {},
    }
    match *control {
        Some(_) => {
            *control = Some(StmControl {
                enable: value.enable,
                reduce_torque: value.reduce_torque,
                reset: value.reset,
            });
        },
        None => { return Err(StepperError::MissingObject(El70x1Object::StmControl)); },
    }
    match *velocity {
        Some(_) => {
            *velocity = Some(StmVelocity { velocity: value.velocity });
            Ok(())
        },
        None => Err(StepperError::MissingObject(El70x1Object::StmVelocity)),
    }
}

/// The state of digital input `port` (0 or 1) from the STM status.
pub fn stepper_get_digital_input(port: usize, status: &Option<StmStatus>) -> (r: Result<bool, StepperError>)
    ensures
        port >= 2 ==> r == Err::<bool, StepperError>(StepperError::InvalidPort(port)),
        port < 2 ==> match *status {
            Some(s) => r == Ok::<bool, StepperError>(if port == 0 { s.digital_input_1 } else { s.digital_input_2 }),
            None => r == Err::<bool, StepperError>(StepperError::MissingObject(El70x1Object::StmStatus)),
        },
{
    if port >= 2 {
        return Err(StepperError::InvalidPort(port));
    }
    match status {
        Some(s) => Ok(if port == 0 { s.digital_input_1 } else { s.digital_input_2 }),
        None => Err(StepperError::MissingObject(El70x1Object::StmStatus)),
    }
}

} // verus!
