//! The EL7031-0030 stepper terminal: its predefined PDO assignments and the
//! size of each, and its stepper, digital and analog inputs.
use vstd::prelude::*;
use crate::el70x1::{spec_idle_counter_control, 
    EncStatusCompact, EncStatus, EncTimestampCompact, StmStatus, StmSynchronInfoData, PosStatusCompact,
    PosStatus, StmInternalPosition, StmExternalPosition, PosActualPositionLag, AiStandard, AiCompact,
    EncControlCompact, EncControl, StmControl, StmPosition, StmVelocity, PosControlCompact, PosControl,
    PosControl2, ENC_STATUS_COMPACT_BITS, ENC_STATUS_BITS, ENC_TIMESTAMP_COMPACT_BITS, STM_STATUS_BITS,
    STM_SYNCHRON_INFO_DATA_BITS, POS_STATUS_COMPACT_BITS, POS_STATUS_BITS, STM_INTERNAL_POSITION_BITS,
    STM_EXTERNAL_POSITION_BITS, POS_ACTUAL_POSITION_LAG_BITS, AI_STANDARD_BITS, AI_COMPACT_BITS,
    ENC_CONTROL_COMPACT_BITS, ENC_CONTROL_BITS, STM_CONTROL_BITS, STM_POSITION_BITS, STM_VELOCITY_BITS,
    POS_CONTROL_COMPACT_BITS, POS_CONTROL_BITS, POS_CONTROL_2_BITS, EL70x1OperationMode, El70x1Object,
    StepperError, StepperVelocityEL70x1Input, StepperVelocityEL70x1Output, spec_can_update,
    spec_output_missing, spec_get_input, spec_get_output, stepper_input_post_process,
    stepper_output_pre_process, stepper_set_output, stepper_get_input, stepper_get_output,
    stepper_get_digital_input,
};
use crate::counter_wrapper::{CounterWrapperU16U128, CounterState, spec_update, spec_wrap_u16};
use crate::signing_converter::{U16SigningConverter, spec_twos_complement};

verus! {

/// The bits an object takes in the process data: its length where it is assigned, else none.
#[verifier::opaque]
pub open spec fn spec_present_bits(present: bool, bits: usize) -> int {
    if present { bits as int } else { 0 }
}

/// The bits an object takes in the process data.
fn present_bits(present: bool, bits: usize) -> (r: usize)
    requires
        bits <= 112,
    ensures
        r == spec_present_bits(present, bits),
        r <= 112,
{
    proof {
        reveal(spec_present_bits);
    }
    if present { bits } else { 0 }
}

/// Input process data of the EL7031-0030.
#[derive(Debug, Clone, Copy, PartialEq, Eq, Structural)]
pub struct EL7031_0030TxPdo {
    /// PDO `0x1A00`.
    pub enc_status_compact: Option<EncStatusCompact>,
    /// PDO `0x1A01`.
    pub enc_status: Option<EncStatus>,
    /// PDO `0x1A02`.
    pub enc_timestamp_compact: Option<EncTimestampCompact>,
    /// PDO `0x1A03`.
    pub stm_status: Option<StmStatus>,
    /// PDO `0x1A04`.
    pub stm_synchron_info_data: Option<StmSynchronInfoData>,
    /// PDO `0x1A05`.
    pub pos_status_compact: Option<PosStatusCompact>,
    /// PDO `0x1A06`.
    pub pos_status: Option<PosStatus>,
    /// PDO `0x1A07`.
    pub stm_internal_position: Option<StmInternalPosition>,
    /// PDO `0x1A08`.
    pub stm_external_position: Option<StmExternalPosition>,
    /// PDO `0x1A09`.
    pub pos_actual_position_lag: Option<PosActualPositionLag>,
    /// PDO `0x1A0A`.
    pub ai_standard_channel_1: Option<AiStandard>,
    /// PDO `0x1A0B`.
    pub ai_compact_channel_1: Option<AiCompact>,
    /// PDO `0x1A0C`.
    pub ai_standard_channel_2: Option<AiStandard>,
    /// PDO `0x1A0D`.
    pub ai_compact_channel_2: Option<AiCompact>,
}
/// Output process data of the EL7031-0030.
#[derive(Debug, Clone, Copy, PartialEq, Eq, Structural)]
pub struct EL7031_0030RxPdo {
    /// PDO `0x1600`.
    pub enc_control_compact: Option<EncControlCompact>,
    /// PDO `0x1601`.
    pub enc_control: Option<EncControl>,
    /// PDO `0x1602`.
    pub stm_control: Option<StmControl>,
    /// PDO `0x1603`.
    pub stm_position: Option<StmPosition>,
    /// PDO `0x1604`.
    pub stm_velocity: Option<StmVelocity>,
    /// PDO `0x1605`.
    pub pos_control_compact: Option<PosControlCompact>,
    /// PDO `0x1606`.
    pub pos_control: Option<PosControl>,
    /// PDO `0x1607`.
    pub pos_control_2: Option<PosControl2>,
}
/// Bits of the encoder, drive and position status objects that are assigned.
pub open spec fn spec_tx_encoder_and_drive_bits(p: EL7031_0030TxPdo) -> int {
    spec_present_bits(p.enc_status_compact is Some, ENC_STATUS_COMPACT_BITS)
        + spec_present_bits(p.enc_status is Some, ENC_STATUS_BITS)
        + spec_present_bits(p.enc_timestamp_compact is Some, ENC_TIMESTAMP_COMPACT_BITS)
        + spec_present_bits(p.stm_status is Some, STM_STATUS_BITS)
        + spec_present_bits(p.stm_synchron_info_data is Some, STM_SYNCHRON_INFO_DATA_BITS)
        + spec_present_bits(p.pos_status_compact is Some, POS_STATUS_COMPACT_BITS)
        + spec_present_bits(p.pos_status is Some, POS_STATUS_BITS)
}

/// Bits of the position objects that are assigned.
pub open spec fn spec_tx_position_bits(p: EL7031_0030TxPdo) -> int {
    spec_present_bits(p.stm_internal_position is Some, STM_INTERNAL_POSITION_BITS)
        + spec_present_bits(p.stm_external_position is Some, STM_EXTERNAL_POSITION_BITS)
        + spec_present_bits(p.pos_actual_position_lag is Some, POS_ACTUAL_POSITION_LAG_BITS)
}

/// Bits of the analog input objects that are assigned.
pub open spec fn spec_tx_analog_bits(p: EL7031_0030TxPdo) -> int {
    spec_present_bits(p.ai_standard_channel_1 is Some, AI_STANDARD_BITS)
        + spec_present_bits(p.ai_compact_channel_1 is Some, AI_COMPACT_BITS)
        + spec_present_bits(p.ai_standard_channel_2 is Some, AI_STANDARD_BITS)
        + spec_present_bits(p.ai_compact_channel_2 is Some, AI_COMPACT_BITS)
}

/// Bits of the process data: the sum over the assigned objects.
pub open spec fn spec_el7031_0030txpdo_bits(p: EL7031_0030TxPdo) -> int {
    spec_tx_encoder_and_drive_bits(p) + spec_tx_position_bits(p) + spec_tx_analog_bits(p)
}

impl EL7031_0030TxPdo {
    fn encoder_and_drive_bits(&self) -> (r: usize)
        ensures
            r == spec_tx_encoder_and_drive_bits(*self),
            r <= 784,
    {
        let mut total: usize = 0;
        total = total + present_bits(self.enc_status_compact.is_some(), ENC_STATUS_COMPACT_BITS);
        total = total + present_bits(self.enc_status.is_some(), ENC_STATUS_BITS);
        total = total + present_bits(self.enc_timestamp_compact.is_some(), ENC_TIMESTAMP_COMPACT_BITS);
        total = total + present_bits(self.stm_status.is_some(), STM_STATUS_BITS);
        total = total + present_bits(self.stm_synchron_info_data.is_some(), STM_SYNCHRON_INFO_DATA_BITS);
        total = total + present_bits(self.pos_status_compact.is_some(), POS_STATUS_COMPACT_BITS);
        total = total + present_bits(self.pos_status.is_some(), POS_STATUS_BITS);
        total
    }

    fn position_bits(&self) -> (r: usize)
        ensures
            r == spec_tx_position_bits(*self),
            r <= 784,
    {
        let a = present_bits(self.stm_internal_position.is_some(), STM_INTERNAL_POSITION_BITS);
        let b = present_bits(self.stm_external_position.is_some(), STM_EXTERNAL_POSITION_BITS);
        let c = present_bits(self.pos_actual_position_lag.is_some(), POS_ACTUAL_POSITION_LAG_BITS);
        a + b + c
    }

    fn analog_bits(&self) -> (r: usize)
        ensures
            r == spec_tx_analog_bits(*self),
            r <= 784,
    {
        let a = present_bits(self.ai_standard_channel_1.is_some(), AI_STANDARD_BITS);
        let b = present_bits(self.ai_compact_channel_1.is_some(), AI_COMPACT_BITS);
        let c = present_bits(self.ai_standard_channel_2.is_some(), AI_STANDARD_BITS);
        let d = present_bits(self.ai_compact_channel_2.is_some(), AI_COMPACT_BITS);
        a + b + c + d
    }

    /// Bits of the process data.
    pub fn size(&self) -> (r: usize)
        ensures
            r == spec_el7031_0030txpdo_bits(*self),
    {
        self.encoder_and_drive_bits() + self.position_bits() + self.analog_bits()
    }
}
/// Bits of the process data: the sum over the assigned objects.
pub open spec fn spec_el7031_0030rxpdo_bits(p: EL7031_0030RxPdo) -> int {
    spec_present_bits(p.enc_control_compact is Some, ENC_CONTROL_COMPACT_BITS)
        + spec_present_bits(p.enc_control is Some, ENC_CONTROL_BITS)
        + spec_present_bits(p.stm_control is Some, STM_CONTROL_BITS)
        + spec_present_bits(p.stm_position is Some, STM_POSITION_BITS)
        + spec_present_bits(p.stm_velocity is Some, STM_VELOCITY_BITS)
        + spec_present_bits(p.pos_control_compact is Some, POS_CONTROL_COMPACT_BITS)
        + spec_present_bits(p.pos_control is Some, POS_CONTROL_BITS)
        + spec_present_bits(p.pos_control_2 is Some, POS_CONTROL_2_BITS)
}

impl EL7031_0030RxPdo {
    /// Bits of the process data.
    #[verifier::spinoff_prover]
    #[verifier::rlimit(50)]
    pub fn size(&self) -> (r: usize)
        ensures
            r == spec_el7031_0030rxpdo_bits(*self),
    {
        let mut total: usize = 0;
        let b0: usize = present_bits(self.enc_control_compact.is_some(), ENC_CONTROL_COMPACT_BITS);
        total = total + b0;
        let b1: usize = present_bits(self.enc_control.is_some(), ENC_CONTROL_BITS);
        total = total + b1;
        let b2: usize = present_bits(self.stm_control.is_some(), STM_CONTROL_BITS);
        total = total + b2;
        let b3: usize = present_bits(self.stm_position.is_some(), STM_POSITION_BITS);
        total = total + b3;
        let b4: usize = present_bits(self.stm_velocity.is_some(), STM_VELOCITY_BITS);
        total = total + b4;
        let b5: usize = present_bits(self.pos_control_compact.is_some(), POS_CONTROL_COMPACT_BITS);
        total = total + b5;
        let b6: usize = present_bits(self.pos_control.is_some(), POS_CONTROL_BITS);
        total = total + b6;
        let b7: usize = present_bits(self.pos_control_2.is_some(), POS_CONTROL_2_BITS);
        total = total + b7;
        total
    }
}
/// The predefined PDO assignments of the EL7031-0030.
#[derive(Debug, Clone, Copy, PartialEq, Eq, Structural)]
pub enum EL7031_0030PredefinedPdoAssignment {
    VelocityControlCompact,
    VelocityControlCompactWithInfoData,
    VelocityControl,
    PositionControl,
    PositionInterfaceCompact,
    PositionInterface,
    PositionInterfaceWithInfoData,
    PositionInterfaceAutoStart,
    PositionInterfaceAutoStartWithInfoData,
}

impl Default for EL7031_0030PredefinedPdoAssignment {
    fn default() -> (r: Self)
        ensures
            r == EL7031_0030PredefinedPdoAssignment::PositionControl,
    {
        EL7031_0030PredefinedPdoAssignment::PositionControl
    }
}

/// The objects of the assignment, in the order of the struct's fields.
pub open spec fn spec_el7031_0030_txpdo(a: EL7031_0030PredefinedPdoAssignment) -> EL7031_0030TxPdo {
    match a {
        EL7031_0030PredefinedPdoAssignment::VelocityControlCompact => EL7031_0030TxPdo {
            enc_status_compact: Some(EncStatusCompact { counter_underflow: false, counter_overflow: false, counter_value: 0 }),
            enc_status: None,
            enc_timestamp_compact: None,
            stm_status: Some(StmStatus { ready_to_enable: false, ready: false, warning: false, error: false, moving_positive: false, moving_negative: false, torque_reduced: false, digital_input_1: false, digital_input_2: false }),
            stm_synchron_info_data: None,
            pos_status_compact: None,
            pos_status: None,
            stm_internal_position: None,
            stm_external_position: None,
            pos_actual_position_lag: None,
            ai_standard_channel_1: Some(AiStandard { error: false, value: 0 }),
            ai_compact_channel_1: None,
            ai_standard_channel_2: Some(AiStandard { error: false, value: 0 }),
            ai_compact_channel_2: None,
        },
        EL7031_0030PredefinedPdoAssignment::VelocityControlCompactWithInfoData => EL7031_0030TxPdo {
            enc_status_compact: Some(EncStatusCompact { counter_underflow: false, counter_overflow: false, counter_value: 0 }),
            enc_status: None,
            enc_timestamp_compact: None,
            stm_status: Some(StmStatus { ready_to_enable: false, ready: false, warning: false, error: false, moving_positive: false, moving_negative: false, torque_reduced: false, digital_input_1: false, digital_input_2: false }),
            stm_synchron_info_data: Some(StmSynchronInfoData {}),
            pos_status_compact: None,
            pos_status: None,
            stm_internal_position: None,
            stm_external_position: None,
            pos_actual_position_lag: None,
            ai_standard_channel_1: Some(AiStandard { error: false, value: 0 }),
            ai_compact_channel_1: None,
            ai_standard_channel_2: Some(AiStandard { error: false, value: 0 }),
            ai_compact_channel_2: None,
        },
        EL7031_0030PredefinedPdoAssignment::VelocityControl => EL7031_0030TxPdo {
            enc_status_compact: None,
            enc_status: Some(EncStatus {}),
            enc_timestamp_compact: None,
            stm_status: Some(StmStatus { ready_to_enable: false, ready: false, warning: false, error: false, moving_positive: false, moving_negative: false, torque_reduced: false, digital_input_1: false, digital_input_2: false }),
            stm_synchron_info_data: None,
            pos_status_compact: None,
            pos_status: None,
            stm_internal_position: None,
            stm_external_position: None,
            pos_actual_position_lag: None,
            ai_standard_channel_1: Some(AiStandard { error: false, value: 0 }),
            ai_compact_channel_1: None,
            ai_standard_channel_2: Some(AiStandard { error: false, value: 0 }),
            ai_compact_channel_2: None,
        },
        EL7031_0030PredefinedPdoAssignment::PositionControl => EL7031_0030TxPdo {
            enc_status_compact: None,
            enc_status: Some(EncStatus {}),
            enc_timestamp_compact: None,
            stm_status: Some(StmStatus { ready_to_enable: false, ready: false, warning: false, error: false, moving_positive: false, moving_negative: false, torque_reduced: false, digital_input_1: false, digital_input_2: false }),
            stm_synchron_info_data: None,
            pos_status_compact: None,
            pos_status: None,
            stm_internal_position: None,
            stm_external_position: None,
            pos_actual_position_lag: None,
            ai_standard_channel_1: Some(AiStandard { error: false, value: 0 }),
            ai_compact_channel_1: None,
            ai_standard_channel_2: Some(AiStandard { error: false, value: 0 }),
            ai_compact_channel_2: None,
        },
        EL7031_0030PredefinedPdoAssignment::PositionInterfaceCompact => EL7031_0030TxPdo {
            enc_status_compact: None,
            enc_status: Some(EncStatus {}),
            enc_timestamp_compact: None,
            stm_status: Some(StmStatus { ready_to_enable: false, ready: false, warning: false, error: false, moving_positive: false, moving_negative: false, torque_reduced: false, digital_input_1: false, digital_input_2: false }),
            stm_synchron_info_data: None,
            pos_status_compact: Some(PosStatusCompact {}),
            pos_status: None,
            stm_internal_position: None,
            stm_external_position: None,
            pos_actual_position_lag: None,
            ai_standard_channel_1: Some(AiStandard { error: false, value: 0 }),
            ai_compact_channel_1: None,
            ai_standard_channel_2: Some(AiStandard { error: false, value: 0 }),
            ai_compact_channel_2: None,
        },
        EL7031_0030PredefinedPdoAssignment::PositionInterface => EL7031_0030TxPdo {
            enc_status_compact: None,
            enc_status: Some(EncStatus {}),
            enc_timestamp_compact: None,
            stm_status: Some(StmStatus { ready_to_enable: false, ready: false, warning: false, error: false, moving_positive: false, moving_negative: false, torque_reduced: false, digital_input_1: false, digital_input_2: false }),
            stm_synchron_info_data: None,
            pos_status_compact: None,
            pos_status: Some(PosStatus {}),
            stm_internal_position: None,
            stm_external_position: None,
            pos_actual_position_lag: None,
            ai_standard_channel_1: Some(AiStandard { error: false, value: 0 }),
            ai_compact_channel_1: None,
            ai_standard_channel_2: Some(AiStandard { error: false, value: 0 }),
            ai_compact_channel_2: None,
        },
        EL7031_0030PredefinedPdoAssignment::PositionInterfaceWithInfoData => EL7031_0030TxPdo {
            enc_status_compact: None,
            enc_status: Some(EncStatus {}),
            enc_timestamp_compact: None,
            stm_status: Some(StmStatus { ready_to_enable: false, ready: false, warning: false, error: false, moving_positive: false, moving_negative: false, torque_reduced: false, digital_input_1: false, digital_input_2: false }),
            stm_synchron_info_data: Some(StmSynchronInfoData {}),
            pos_status_compact: None,
            pos_status: Some(PosStatus {}),
            stm_internal_position: None,
            stm_external_position: None,
            pos_actual_position_lag: None,
            ai_standard_channel_1: Some(AiStandard { error: false, value: 0 }),
            ai_compact_channel_1: None,
            ai_standard_channel_2: Some(AiStandard { error: false, value: 0 }),
            ai_compact_channel_2: None,
        },
        EL7031_0030PredefinedPdoAssignment::PositionInterfaceAutoStart => EL7031_0030TxPdo {
            enc_status_compact: None,
            enc_status: Some(EncStatus {}),
            enc_timestamp_compact: None,
            stm_status: Some(StmStatus { ready_to_enable: false, ready: false, warning: false, error: false, moving_positive: false, moving_negative: false, torque_reduced: false, digital_input_1: false, digital_input_2: false }),
            stm_synchron_info_data: None,
            pos_status_compact: None,
            pos_status: Some(PosStatus {}),
            stm_internal_position: None,
            stm_external_position: None,
            pos_actual_position_lag: None,
            ai_standard_channel_1: Some(AiStandard { error: false, value: 0 }),
            ai_compact_channel_1: None,
            ai_standard_channel_2: Some(AiStandard { error: false, value: 0 }),
            ai_compact_channel_2: None,
        },
        EL7031_0030PredefinedPdoAssignment::PositionInterfaceAutoStartWithInfoData => EL7031_0030TxPdo {
            enc_status_compact: None,
            enc_status: Some(EncStatus {}),
            enc_timestamp_compact: None,
            stm_status: Some(StmStatus { ready_to_enable: false, ready: false, warning: false, error: false, moving_positive: false, moving_negative: false, torque_reduced: false, digital_input_1: false, digital_input_2: false }),
            stm_synchron_info_data: Some(StmSynchronInfoData {}),
            pos_status_compact: None,
            pos_status: Some(PosStatus {}),
            stm_internal_position: None,
            stm_external_position: None,
            pos_actual_position_lag: None,
            ai_standard_channel_1: Some(AiStandard { error: false, value: 0 }),
            ai_compact_channel_1: None,
            ai_standard_channel_2: Some(AiStandard { error: false, value: 0 }),
            ai_compact_channel_2: None,
        },
    }
}
/// The objects of the assignment, in the order of the struct's fields.
pub open spec fn spec_el7031_0030_rxpdo(a: EL7031_0030PredefinedPdoAssignment) -> EL7031_0030RxPdo {
    match a {
        EL7031_0030PredefinedPdoAssignment::VelocityControlCompact => EL7031_0030RxPdo {
            enc_control_compact: Some(EncControlCompact { set_counter: false, set_counter_value: 0 }),
            enc_control: None,
            stm_control: Some(StmControl { enable: false, reset: false, reduce_torque: false }),
            stm_position: None,
            stm_velocity: Some(StmVelocity { velocity: 0 }),
            pos_control_compact: None,
            pos_control: None,
            pos_control_2: None,
        },
        EL7031_0030PredefinedPdoAssignment::VelocityControlCompactWithInfoData => EL7031_0030RxPdo {
            enc_control_compact: Some(EncControlCompact { set_counter: false, set_counter_value: 0 }),
            enc_control: None,
            stm_control: Some(StmControl { enable: false, reset: false, reduce_torque: false }),
            stm_position: None,
            stm_velocity: Some(StmVelocity { velocity: 0 }),
            pos_control_compact: None,
            pos_control: None,
            pos_control_2: None,
        },
        EL7031_0030PredefinedPdoAssignment::VelocityControl => EL7031_0030RxPdo {
            enc_control_compact: None,
            enc_control: Some(EncControl {}),
            stm_control: Some(StmControl { enable: false, reset: false, reduce_torque: false }),
            stm_position: None,
            stm_velocity: Some(StmVelocity { velocity: 0 }),
            pos_control_compact: None,
            pos_control: None,
            pos_control_2: None,
        },
        EL7031_0030PredefinedPdoAssignment::PositionControl => EL7031_0030RxPdo {
            enc_control_compact: None,
            enc_control: Some(EncControl {}),
            stm_control: Some(StmControl { enable: false, reset: false, reduce_torque: false }),
            stm_position: Some(StmPosition {}),
            stm_velocity: None,
            pos_control_compact: None,
            pos_control: None,
            pos_control_2: None,
        },
        EL7031_0030PredefinedPdoAssignment::PositionInterfaceCompact => EL7031_0030RxPdo {
            enc_control_compact: None,
            enc_control: Some(EncControl {}),
            stm_control: Some(StmControl { enable: false, reset: false, reduce_torque: false }),
            stm_position: None,
            stm_velocity: None,
            pos_control_compact: Some(PosControlCompact {}),
            pos_control: None,
            pos_control_2: None,
        },
        EL7031_0030PredefinedPdoAssignment::PositionInterface => EL7031_0030RxPdo {
            enc_control_compact: None,
            enc_control: Some(EncControl {}),
            stm_control: Some(StmControl { enable: false, reset: false, reduce_torque: false }),
            stm_position: None,
            stm_velocity: None,
            pos_control_compact: None,
            pos_control: Some(PosControl {}),
            pos_control_2: None,
        },
        EL7031_0030PredefinedPdoAssignment::PositionInterfaceWithInfoData => EL7031_0030RxPdo {
            enc_control_compact: None,
            enc_control: Some(EncControl {}),
            stm_control: Some(StmControl { enable: false, reset: false, reduce_torque: false }),
            stm_position: None,
            stm_velocity: None,
            pos_control_compact: None,
            pos_control: Some(PosControl {}),
            pos_control_2: None,
        },
        EL7031_0030PredefinedPdoAssignment::PositionInterfaceAutoStart => EL7031_0030RxPdo {
            enc_control_compact: None,
            enc_control: Some(EncControl {}),
            stm_control: Some(StmControl { enable: false, reset: false, reduce_torque: false }),
            stm_position: None,
            stm_velocity: None,
            pos_control_compact: None,
            pos_control: Some(PosControl {}),
            pos_control_2: Some(PosControl2 {}),
        },
        EL7031_0030PredefinedPdoAssignment::PositionInterfaceAutoStartWithInfoData => EL7031_0030RxPdo {
            enc_control_compact: None,
            enc_control: Some(EncControl {}),
            stm_control: Some(StmControl { enable: false, reset: false, reduce_torque: false }),
            stm_position: None,
            stm_velocity: None,
            pos_control_compact: None,
            pos_control: Some(PosControl {}),
            pos_control_2: Some(PosControl2 {}),
        },
    }
}
impl EL7031_0030PredefinedPdoAssignment {
    /// The input objects of the assignment.
    pub fn txpdo_assignment(&self) -> (r: EL7031_0030TxPdo)
        ensures
            r == spec_el7031_0030_txpdo(*self),
    {
        match self {
            EL7031_0030PredefinedPdoAssignment::VelocityControlCompact => EL7031_0030TxPdo {
                enc_status_compact: Some(EncStatusCompact { counter_underflow: false, counter_overflow: false, counter_value: 0 }),
                enc_status: None,
                enc_timestamp_compact: None,
                stm_status: Some(StmStatus { ready_to_enable: false, ready: false, warning: false, error: false, moving_positive: false, moving_negative: false, torque_reduced: false, digital_input_1: false, digital_input_2: false }),
                stm_synchron_info_data: None,
                pos_status_compact: None,
                pos_status: None,
                stm_internal_position: None,
                stm_external_position: None,
                pos_actual_position_lag: None,
                ai_standard_channel_1: Some(AiStandard { error: false, value: 0 }),
                ai_compact_channel_1: None,
                ai_standard_channel_2: Some(AiStandard { error: false, value: 0 }),
                ai_compact_channel_2: None,
            },
            EL7031_0030PredefinedPdoAssignment::VelocityControlCompactWithInfoData => EL7031_0030TxPdo {
                enc_status_compact: Some(EncStatusCompact { counter_underflow: false, counter_overflow: false, counter_value: 0 }),
                enc_status: None,
                enc_timestamp_compact: None,
                stm_status: Some(StmStatus { ready_to_enable: false, ready: false, warning: false, error: false, moving_positive: false, moving_negative: false, torque_reduced: false, digital_input_1: false, digital_input_2: false }),
                stm_synchron_info_data: Some(StmSynchronInfoData {}),
                pos_status_compact: None,
                pos_status: None,
                stm_internal_position: None,
                stm_external_position: None,
                pos_actual_position_lag: None,
                ai_standard_channel_1: Some(AiStandard { error: false, value: 0 }),
                ai_compact_channel_1: None,
                ai_standard_channel_2: Some(AiStandard { error: false, value: 0 }),
                ai_compact_channel_2: None,
            },
            EL7031_0030PredefinedPdoAssignment::VelocityControl => EL7031_0030TxPdo {
                enc_status_compact: None,
                enc_status: Some(EncStatus {}),
                enc_timestamp_compact: None,
                stm_status: Some(StmStatus { ready_to_enable: false, ready: false, warning: false, error: false, moving_positive: false, moving_negative: false, torque_reduced: false, digital_input_1: false, digital_input_2: false }),
                stm_synchron_info_data: None,
                pos_status_compact: None,
                pos_status: None,
                stm_internal_position: None,
                stm_external_position: None,
                pos_actual_position_lag: None,
                ai_standard_channel_1: Some(AiStandard { error: false, value: 0 }),
                ai_compact_channel_1: None,
                ai_standard_channel_2: Some(AiStandard { error: false, value: 0 }),
                ai_compact_channel_2: None,
            },
            EL7031_0030PredefinedPdoAssignment::PositionControl => EL7031_0030TxPdo {
                enc_status_compact: None,
                enc_status: Some(EncStatus {}),
                enc_timestamp_compact: None,
                stm_status: Some(StmStatus { ready_to_enable: false, ready: false, warning: false, error: false, moving_positive: false, moving_negative: false, torque_reduced: false, digital_input_1: false, digital_input_2: false }),
                stm_synchron_info_data: None,
                pos_status_compact: None,
                pos_status: None,
                stm_internal_position: None,
                stm_external_position: None,
                pos_actual_position_lag: None,
                ai_standard_channel_1: Some(AiStandard { error: false, value: 0 }),
                ai_compact_channel_1: None,
                ai_standard_channel_2: Some(AiStandard { error: false, value: 0 }),
                ai_compact_channel_2: None,
            },
            EL7031_0030PredefinedPdoAssignment::PositionInterfaceCompact => EL7031_0030TxPdo {
                enc_status_compact: None,
                enc_status: Some(EncStatus {}),
                enc_timestamp_compact: None,
                stm_status: Some(StmStatus { ready_to_enable: false, ready: false, warning: false, error: false, moving_positive: false, moving_negative: false, torque_reduced: false, digital_input_1: false, digital_input_2: false }),
                stm_synchron_info_data: None,
                pos_status_compact: Some(PosStatusCompact {}),
                pos_status: None,
                stm_internal_position: None,
                stm_external_position: None,
                pos_actual_position_lag: None,
                ai_standard_channel_1: Some(AiStandard { error: false, value: 0 }),
                ai_compact_channel_1: None,
                ai_standard_channel_2: Some(AiStandard { error: false, value: 0 }),
                ai_compact_channel_2: None,
            },
            EL7031_0030PredefinedPdoAssignment::PositionInterface => EL7031_0030TxPdo {
                enc_status_compact: None,
                enc_status: Some(EncStatus {}),
                enc_timestamp_compact: None,
                stm_status: Some(StmStatus { ready_to_enable: false, ready: false, warning: false, error: false, moving_positive: false, moving_negative: false, torque_reduced: false, digital_input_1: false, digital_input_2: false }),
                stm_synchron_info_data: None,
                pos_status_compact: None,
                pos_status: Some(PosStatus {}),
                stm_internal_position: None,
                stm_external_position: None,
                pos_actual_position_lag: None,
                ai_standard_channel_1: Some(AiStandard { error: false, value: 0 }),
                ai_compact_channel_1: None,
                ai_standard_channel_2: Some(AiStandard { error: false, value: 0 }),
                ai_compact_channel_2: None,
            },
            EL7031_0030PredefinedPdoAssignment::PositionInterfaceWithInfoData => EL7031_0030TxPdo {
                enc_status_compact: None,
                enc_status: Some(EncStatus {}),
                enc_timestamp_compact: None,
                stm_status: Some(StmStatus { ready_to_enable: false, ready: false, warning: false, error: false, moving_positive: false, moving_negative: false, torque_reduced: false, digital_input_1: false, digital_input_2: false }),
                stm_synchron_info_data: Some(StmSynchronInfoData {}),
                pos_status_compact: None,
                pos_status: Some(PosStatus {}),
                stm_internal_position: None,
                stm_external_position: None,
                pos_actual_position_lag: None,
                ai_standard_channel_1: Some(AiStandard { error: false, value: 0 }),
                ai_compact_channel_1: None,
                ai_standard_channel_2: Some(AiStandard { error: false, value: 0 }),
                ai_compact_channel_2: None,
            },
            EL7031_0030PredefinedPdoAssignment::PositionInterfaceAutoStart => EL7031_0030TxPdo {
                enc_status_compact: None,
                enc_status: Some(EncStatus {}),
                enc_timestamp_compact: None,
                stm_status: Some(StmStatus { ready_to_enable: false, ready: false, warning: false, error: false, moving_positive: false, moving_negative: false, torque_reduced: false, digital_input_1: false, digital_input_2: false }),
                stm_synchron_info_data: None,
                pos_status_compact: None,
                pos_status: Some(PosStatus {}),
                stm_internal_position: None,
                stm_external_position: None,
                pos_actual_position_lag: None,
                ai_standard_channel_1: Some(AiStandard { error: false, value: 0 }),
                ai_compact_channel_1: None,
                ai_standard_channel_2: Some(AiStandard { error: false, value: 0 }),
                ai_compact_channel_2: None,
            },
            EL7031_0030PredefinedPdoAssignment::PositionInterfaceAutoStartWithInfoData => EL7031_0030TxPdo {
                enc_status_compact: None,
                enc_status: Some(EncStatus {}),
                enc_timestamp_compact: None,
                stm_status: Some(StmStatus { ready_to_enable: false, ready: false, warning: false, error: false, moving_positive: false, moving_negative: false, torque_reduced: false, digital_input_1: false, digital_input_2: false }),
                stm_synchron_info_data: Some(StmSynchronInfoData {}),
                pos_status_compact: None,
                pos_status: Some(PosStatus {}),
                stm_internal_position: None,
                stm_external_position: None,
                pos_actual_position_lag: None,
                ai_standard_channel_1: Some(AiStandard { error: false, value: 0 }),
                ai_compact_channel_1: None,
                ai_standard_channel_2: Some(AiStandard { error: false, value: 0 }),
                ai_compact_channel_2: None,
            },
        }
    }
    /// The output objects of the assignment.
    pub fn rxpdo_assignment(&self) -> (r: EL7031_0030RxPdo)
        ensures
            r == spec_el7031_0030_rxpdo(*self),
    {
        match self {
            EL7031_0030PredefinedPdoAssignment::VelocityControlCompact => EL7031_0030RxPdo {
                enc_control_compact: Some(EncControlCompact { set_counter: false, set_counter_value: 0 }),
                enc_control: None,
                stm_control: Some(StmControl { enable: false, reset: false, reduce_torque: false }),
                stm_position: None,
                stm_velocity: Some(StmVelocity { velocity: 0 }),
                pos_control_compact: None,
                pos_control: None,
                pos_control_2: None,
            },
            EL7031_0030PredefinedPdoAssignment::VelocityControlCompactWithInfoData => EL7031_0030RxPdo {
                enc_control_compact: Some(EncControlCompact { set_counter: false, set_counter_value: 0 }),
                enc_control: None,
                stm_control: Some(StmControl { enable: false, reset: false, reduce_torque: false }),
                stm_position: None,
                stm_velocity: Some(StmVelocity { velocity: 0 }),
                pos_control_compact: None,
                pos_control: None,
                pos_control_2: None,
            },
            EL7031_0030PredefinedPdoAssignment::VelocityControl => EL7031_0030RxPdo {
                enc_control_compact: None,
                enc_control: Some(EncControl {}),
                stm_control: Some(StmControl { enable: false, reset: false, reduce_torque: false }),
                stm_position: None,
                stm_velocity: Some(StmVelocity { velocity: 0 }),
                pos_control_compact: None,
                pos_control: None,
                pos_control_2: None,
            },
            EL7031_0030PredefinedPdoAssignment::PositionControl => EL7031_0030RxPdo {
                enc_control_compact: None,
                enc_control: Some(EncControl {}),
                stm_control: Some(StmControl { enable: false, reset: false, reduce_torque: false }),
                stm_position: Some(StmPosition {}),
                stm_velocity: None,
                pos_control_compact: None,
                pos_control: None,
                pos_control_2: None,
            },
            EL7031_0030PredefinedPdoAssignment::PositionInterfaceCompact => EL7031_0030RxPdo {
                enc_control_compact: None,
                enc_control: Some(EncControl {}),
                stm_control: Some(StmControl { enable: false, reset: false, reduce_torque: false }),
                stm_position: None,
                stm_velocity: None,
                pos_control_compact: Some(PosControlCompact {}),
                pos_control: None,
                pos_control_2: None,
            },
            EL7031_0030PredefinedPdoAssignment::PositionInterface => EL7031_0030RxPdo {
                enc_control_compact: None,
                enc_control: Some(EncControl {}),
                stm_control: Some(StmControl { enable: false, reset: false, reduce_torque: false }),
                stm_position: None,
                stm_velocity: None,
                pos_control_compact: None,
                pos_control: Some(PosControl {}),
                pos_control_2: None,
            },
            EL7031_0030PredefinedPdoAssignment::PositionInterfaceWithInfoData => EL7031_0030RxPdo {
                enc_control_compact: None,
                enc_control: Some(EncControl {}),
                stm_control: Some(StmControl { enable: false, reset: false, reduce_torque: false }),
                stm_position: None,
                stm_velocity: None,
                pos_control_compact: None,
                pos_control: Some(PosControl {}),
                pos_control_2: None,
            },
            EL7031_0030PredefinedPdoAssignment::PositionInterfaceAutoStart => EL7031_0030RxPdo {
                enc_control_compact: None,
                enc_control: Some(EncControl {}),
                stm_control: Some(StmControl { enable: false, reset: false, reduce_torque: false }),
                stm_position: None,
                stm_velocity: None,
                pos_control_compact: None,
                pos_control: Some(PosControl {}),
                pos_control_2: Some(PosControl2 {}),
            },
            EL7031_0030PredefinedPdoAssignment::PositionInterfaceAutoStartWithInfoData => EL7031_0030RxPdo {
                enc_control_compact: None,
                enc_control: Some(EncControl {}),
                stm_control: Some(StmControl { enable: false, reset: false, reduce_torque: false }),
                stm_position: None,
                stm_velocity: None,
                pos_control_compact: None,
                pos_control: Some(PosControl {}),
                pos_control_2: Some(PosControl2 {}),
            },
        }
    }
}

/// Configuration of the EL7031-0030 that the device logic reads.
#[derive(Debug, Clone, Copy, PartialEq, Eq, Structural)]
pub struct EL7031_0030Configuration {
    /// Operation mode of the stepper (`0x8012:01`).
    pub operation_mode: EL70x1OperationMode,
    pub pdo_assignment: EL7031_0030PredefinedPdoAssignment,
}

impl Default for EL7031_0030Configuration {
    /// Automatic operation mode (the datasheet default), position control PDOs.
    fn default() -> (r: Self)
        ensures
            r.operation_mode == EL70x1OperationMode::Automatic,
            r.pdo_assignment == EL7031_0030PredefinedPdoAssignment::PositionControl,
    {
        EL7031_0030Configuration {
            operation_mode: EL70x1OperationMode::Automatic,
            pdo_assignment: EL7031_0030PredefinedPdoAssignment::PositionControl,
        }
    }
}

/// Stepper outputs of the EL7031-0030.
#[derive(Debug, Clone, Copy, PartialEq, Eq, Structural)]
pub enum EL7031_0030StepperPort {
    STM1,
}

/// Digital inputs of the EL7031-0030.
#[derive(Debug, Clone, Copy, PartialEq, Eq, Structural)]
pub enum EL7031_0030DigitalInputPort {
    DI1,
    DI2,
}

/// Analog inputs of the EL7031-0030.
#[derive(Debug, Clone, Copy, PartialEq, Eq, Structural)]
pub enum EL7031_0030AnalogInputPort {
    AI1,
    AI2,
}

/// An analog reading: the signed raw value (full scale `i16::MAX`) and the
/// channel's error bit.
#[derive(Debug, Clone, Copy, PartialEq, Eq, Structural)]
pub struct AnalogInputReading {
    pub value: i16,
    pub wiring_error: bool,
}

/// The raw word and error bit of analog input `port`: the standard object
/// where it is assigned, else the compact one (which has no error bit).
pub open spec fn spec_analog_source(tx: EL7031_0030TxPdo, port: usize) -> Option<(u16, bool)> {
    if port == 0 {
        match (tx.ai_standard_channel_1, tx.ai_compact_channel_1) {
            (Some(s), _) => Some((s.value, s.error)),
            (None, Some(c)) => Some((c.value, false)),
            (None, None) => None,
        }
    } else {
        match (tx.ai_standard_channel_2, tx.ai_compact_channel_2) {
            (Some(s), _) => Some((s.value, s.error)),
            (None, Some(c)) => Some((c.value, false)),
            (None, None) => None,
        }
    }
}

/// EL7031-0030 1-channel stepper terminal with incremental encoder, two
/// digital and two analog inputs.
#[derive(Debug)]
pub struct EL7031_0030 {
    pub txpdo: EL7031_0030TxPdo,
    pub rxpdo: EL7031_0030RxPdo,
    pub is_used: bool,
    pub configuration: EL7031_0030Configuration,
    pub counter_wrapper: CounterWrapperU16U128,
}

impl EL7031_0030 {
    /// A terminal with the default configuration and its PDO assignment.
    pub fn new() -> (r: Self)
        ensures
            r.configuration.operation_mode == EL70x1OperationMode::Automatic,
            r.configuration.pdo_assignment == EL7031_0030PredefinedPdoAssignment::PositionControl,
            r.txpdo == spec_el7031_0030_txpdo(EL7031_0030PredefinedPdoAssignment::PositionControl),
            r.rxpdo == spec_el7031_0030_rxpdo(EL7031_0030PredefinedPdoAssignment::PositionControl),
            r.counter_wrapper@.counter == 0,
            r.counter_wrapper@.pending_cycles == 0,
            r.counter_wrapper@.set_counter is None,
            !r.is_used,
    {
        let configuration = EL7031_0030Configuration::default();
        EL7031_0030 {
            txpdo: configuration.pdo_assignment.txpdo_assignment(),
            rxpdo: configuration.pdo_assignment.rxpdo_assignment(),
            is_used: false,
            configuration,
            counter_wrapper: CounterWrapperU16U128::new(),
        }
    }

    /// Widens the encoder counter with this cycle's sample.
    pub fn input_post_process(&mut self) -> (r: Result<(), StepperError>)
        requires
            spec_can_update(old(self).counter_wrapper@, old(self).txpdo.enc_status_compact),
        ensures
            match old(self).txpdo.enc_status_compact {
                Some(e) => r is Ok && final(self).counter_wrapper@ == spec_update(
                    old(self).counter_wrapper@,
                    e.counter_value,
                    e.counter_underflow,
                    e.counter_overflow,
                ),
                None => r == Err::<(), StepperError>(StepperError::MissingObject(El70x1Object::EncStatusCompact))
                    && final(self).counter_wrapper@ == old(self).counter_wrapper@,
            },
            final(self).txpdo == old(self).txpdo,
            final(self).rxpdo == old(self).rxpdo,
            final(self).configuration == old(self).configuration,
    {
        stepper_input_post_process(&self.txpdo.enc_status_compact, &mut self.counter_wrapper)
    }

    /// Prepares this cycle's outputs, as [`stepper_output_pre_process`] says.
    pub fn output_pre_process(&mut self) -> (r: Result<(), StepperError>)
        ensures
            match spec_output_missing(
                old(self).txpdo.enc_status_compact,
                old(self).rxpdo.enc_control_compact,
                old(self).txpdo.stm_status,
                old(self).rxpdo.stm_control,
            ) {
                Some(o) => r == Err::<(), StepperError>(StepperError::MissingObject(o))
                    && final(self).rxpdo == old(self).rxpdo
                    && final(self).counter_wrapper@ == old(self).counter_wrapper@,
                None => {
                    &&& r is Ok
                    &&& final(self).rxpdo.stm_control == Some(StmControl {
                        reset: old(self).rxpdo.stm_control.unwrap().reset || old(self).txpdo.stm_status.unwrap().error,
                        ..old(self).rxpdo.stm_control.unwrap()
                    })
                    &&& match old(self).counter_wrapper@.set_counter {
                        Some(c) => final(self).rxpdo.enc_control_compact == Some(EncControlCompact {
                            set_counter: true,
                            set_counter_value: spec_wrap_u16(c as int) as u16,
                        }) && final(self).counter_wrapper@ == (CounterState {
                            counter: c as int,
                            set_counter: None,
                            pending_override: Some(spec_wrap_u16(c as int) as u16),
                            pending_cycles: 0,
                            ..old(self).counter_wrapper@
                        }),
                        None => final(self).rxpdo.enc_control_compact == Some(
                            spec_idle_counter_control(old(self).txpdo.enc_status_compact.unwrap()),
                        ) && final(self).counter_wrapper@ == old(self).counter_wrapper@,
                    }
                },
            },
            final(self).txpdo == old(self).txpdo,
            final(self).configuration == old(self).configuration,
            final(self).rxpdo.stm_velocity == old(self).rxpdo.stm_velocity,
    {
        stepper_output_pre_process(
            &self.txpdo.enc_status_compact,
            &mut self.rxpdo.enc_control_compact,
            &self.txpdo.stm_status,
            &mut self.rxpdo.stm_control,
            &mut self.counter_wrapper,
        )
    }

    /// Tells the stepper what to do; only in direct velocity mode.
    pub fn set_output(&mut self, port: usize, value: StepperVelocityEL70x1Output) -> (r: Result<(), StepperError>)
        requires
            old(self).configuration.operation_mode == EL70x1OperationMode::DirectVelocity,
        ensures
            port != 0 ==> r == Err::<(), StepperError>(StepperError::InvalidPort(port))
                && final(self).rxpdo == old(self).rxpdo
                && final(self).counter_wrapper@ == old(self).counter_wrapper@,
            port == 0 ==> {
                &&& final(self).counter_wrapper@ == (match value.set_counter {
                    Some(c) => CounterState { set_counter: Some(c), ..old(self).counter_wrapper@ },
                    None => old(self).counter_wrapper@,
                })
                &&& match (old(self).rxpdo.stm_control, old(self).rxpdo.stm_velocity) {
                    (None, _) => r == Err::<(), StepperError>(StepperError::MissingObject(El70x1Object::StmControl))
                        && final(self).rxpdo == old(self).rxpdo,
                    (Some(_), None) => r == Err::<(), StepperError>(StepperError::MissingObject(El70x1Object::StmVelocity))
                        && final(self).rxpdo == (EL7031_0030RxPdo {
                            stm_control: Some(StmControl { enable: value.enable, reduce_torque: value.reduce_torque, reset: value.reset }),
                            ..old(self).rxpdo
                        }),
                    (Some(_), Some(_)) => r is Ok && final(self).rxpdo == (EL7031_0030RxPdo {
                        stm_control: Some(StmControl { enable: value.enable, reduce_torque: value.reduce_torque, reset: value.reset }),
                        stm_velocity: Some(StmVelocity { velocity: value.velocity }),
                        ..old(self).rxpdo
                    }),
                }
            },
            final(self).txpdo == old(self).txpdo,
            final(self).configuration == old(self).configuration,
    {
        stepper_set_output(port, value, &mut self.rxpdo.stm_control, &mut self.rxpdo.stm_velocity, &mut self.counter_wrapper)
    }

    /// What the stepper reports.
    pub fn get_input(&self, port: usize) -> (r: Result<StepperVelocityEL70x1Input, StepperError>)
        ensures
            r == spec_get_input(self.configuration.operation_mode, port, self.txpdo.stm_status, self.counter_wrapper@.counter),
    {
        stepper_get_input(self.configuration.operation_mode, port, &self.txpdo.stm_status, &self.counter_wrapper)
    }

    /// What the stepper is told.
    pub fn get_output(&self, port: usize) -> (r: Result<StepperVelocityEL70x1Output, StepperError>)
        ensures
            r == spec_get_output(
                self.configuration.operation_mode,
                port,
                self.rxpdo.stm_control,
                self.rxpdo.stm_velocity,
                self.counter_wrapper@.set_counter,
            ),
    {
        stepper_get_output(
            self.configuration.operation_mode,
            port,
            &self.rxpdo.stm_control,
            &self.rxpdo.stm_velocity,
            &self.counter_wrapper,
        )
    }

    /// Number of steppers.
    pub fn get_port_count(&self) -> (r: usize)
        ensures
            r == 1,
    {
        1
    }

    /// Analog input `port` (0 or 1) as a signed value with its error bit.
    pub fn get_analog_input(&self, port: usize) -> (r: Result<AnalogInputReading, StepperError>)
        ensures
            port >= 2 ==> r == Err::<AnalogInputReading, StepperError>(StepperError::InvalidPort(port)),
            port < 2 ==> match spec_analog_source(self.txpdo, port) {
                Some((raw, err)) => r == Ok::<AnalogInputReading, StepperError>(AnalogInputReading {
                    value: spec_twos_complement(raw) as i16,
                    wiring_error: err,
                }),
                None => r == Err::<AnalogInputReading, StepperError>(StepperError::InvalidPdoAssignment),
            },
    {
        let source = if port == 0 {
            match (self.txpdo.ai_standard_channel_1, self.txpdo.ai_compact_channel_1) {
                (Some(s), _) => (s.value, s.error),
                (None, Some(c)) => (c.value, false),
                (None, None) => { return Err(StepperError::InvalidPdoAssignment); },
            }
        } else if port == 1 {
            match (self.txpdo.ai_standard_channel_2, self.txpdo.ai_compact_channel_2) {
                (Some(s), _) => (s.value, s.error),
                (None, Some(c)) => (c.value, false),
                (None, None) => { return Err(StepperError::InvalidPdoAssignment); },
            }
        } else {
            return Err(StepperError::InvalidPort(port));
        };
        let value = U16SigningConverter::load_raw(source.0).as_signed();
        Ok(AnalogInputReading { value, wiring_error: source.1 })
    }

    /// Number of analog inputs.
    pub fn get_analog_port_count(&self) -> (r: usize)
        ensures
            r == 2,
    {
        2
    }

    /// Digital input `port` (0 or 1).
    pub fn get_digital_input(&self, port: usize) -> (r: Result<bool, StepperError>)
        ensures
            port >= 2 ==> r == Err::<bool, StepperError>(StepperError::InvalidPort(port)),
            port < 2 ==> match self.txpdo.stm_status {
                Some(s) => r == Ok::<bool, StepperError>(if port == 0 { s.digital_input_1 } else { s.digital_input_2 }),
                None => r == Err::<bool, StepperError>(StepperError::MissingObject(El70x1Object::StmStatus)),
            },
    {
        stepper_get_digital_input(port, &self.txpdo.stm_status)
    }

    /// Number of digital inputs.
    pub fn get_digital_in_port_count(&self) -> (r: usize)
        ensures
            r == 2,
    {
        2
    }

    /// Whether the stepper is told to be enabled; false where that cannot be read.
    pub fn is_enabled(&self, port: usize) -> (r: bool)
        ensures
            r == match spec_get_output(
                self.configuration.operation_mode,
                port,
                self.rxpdo.stm_control,
                self.rxpdo.stm_velocity,
                self.counter_wrapper@.set_counter,
            ) {
                Ok(o) => o.enable,
                Err(_) => false,
            },
    {
        match self.get_output(port) {
            Ok(output) => output.enable,
            Err(_) => false,
        }
    }

    /// The widened encoder counter.
    pub fn get_position(&self, port: usize) -> (r: i128)
        requires
            spec_get_input(self.configuration.operation_mode, port, self.txpdo.stm_status, self.counter_wrapper@.counter) is Ok,
        ensures
            r == self.counter_wrapper@.counter,
    {
        proof {
            self.counter_wrapper.lemma_counter_fits();
        }
        match self.get_input(port) {
            Ok(input) => input.counter_value,
            Err(_) => 0,
        }
    }

    /// Schedules the encoder counter to be set to `position`, keeping the other outputs.
    pub fn set_position(&mut self, port: usize, position: i128)
        requires
            old(self).configuration.operation_mode == EL70x1OperationMode::DirectVelocity,
            spec_get_output(
                old(self).configuration.operation_mode,
                port,
                old(self).rxpdo.stm_control,
                old(self).rxpdo.stm_velocity,
                old(self).counter_wrapper@.set_counter,
            ) is Ok,
        ensures
            final(self).counter_wrapper@ == (CounterState { set_counter: Some(position), ..old(self).counter_wrapper@ }),
            final(self).rxpdo == old(self).rxpdo,
    {
        match self.get_output(port) {
            Ok(output) => {
                let o = StepperVelocityEL70x1Output { set_counter: Some(position), ..output };
                let _ = self.set_output(port, o);
            },
            Err(_) => {},
        }
    }

    /// Enables or disables the stepper, keeping the other outputs; does
    /// nothing where the outputs cannot be read.
    pub fn set_enabled(&mut self, port: usize, enabled: bool)
        requires
            old(self).configuration.operation_mode == EL70x1OperationMode::DirectVelocity,
        ensures
            match spec_get_output(
                old(self).configuration.operation_mode,
                port,
                old(self).rxpdo.stm_control,
                old(self).rxpdo.stm_velocity,
                old(self).counter_wrapper@.set_counter,
            ) {
                Ok(o) => final(self).rxpdo == (EL7031_0030RxPdo {
                    stm_control: Some(StmControl { enable: enabled, reduce_torque: o.reduce_torque, reset: o.reset }),
                    stm_velocity: Some(StmVelocity { velocity: o.velocity }),
                    ..old(self).rxpdo
                }) && final(self).counter_wrapper@ == old(self).counter_wrapper@,
                Err(_) => final(self).rxpdo == old(self).rxpdo && final(self).counter_wrapper@ == old(self).counter_wrapper@,
            },
    {
        match self.get_output(port) {
            Ok(output) => {
                let o = StepperVelocityEL70x1Output { enable: enabled, ..output };
                let _ = self.set_output(port, o);
            },
            Err(_) => {},
        }
    }
}

pub const EL7031_0030_VENDOR_ID: u32 = 0x2;
pub const EL7031_0030_PRODUCT_ID: u32 = 0x1b773052;
pub const EL7031_0030_REVISION_A: u32 = 0x10001E;

} // verus!
