//! CoE configuration of the EL7062, expressed as the plan of SDO writes that
//! puts it on the terminal.
use vstd::prelude::*;
use crate::sdo::{SdoValue, SdoWrite, spec_list_plan, assign_pdos, TX_PDO_ASSIGNMENT_REG, RX_PDO_ASSIGNMENT_REG};
use crate::coe::Configuration;
use crate::thread_channel::{spec_plan_run, spec_plan_sent, ChannelError, EtherCATThreadChannel};
use crate::el7062_pdo::{EL7062PredefinedPdoAssignment, spec_mode_of_operation, spec_txpdo_indices, spec_rxpdo_indices};

verus! {

/// A write of `value` to `index:sub_index`.
pub open spec fn w(index: u16, sub_index: u8, value: SdoValue) -> SdoWrite {
    SdoWrite { index, sub_index, value }
}

/// Feedback settings for one channel (`0x8000` / `0x8100` and `0x8008` / `0x8108`).
#[derive(Debug, Clone, Copy, PartialEq, Eq, Structural)]
pub struct El7062FeedbackConfiguration {
    /// `8000:11` device type (default `5`, stepper).
    pub device_type: u32,
    /// `8000:12` single-turn bits of the position (default `20`).
    pub singleturn_bits: u8,
    /// `8000:13` multi-turn bits of the position (default `12`).
    pub multiturn_bits: u8,
    /// `8000:14` speed observer bandwidth in Hz (default `200`).
    pub observer_bandwidth_hz: u16,
    /// `8000:15` observer feed-forward in % (default `100`).
    pub observer_feed_forward: u8,
    /// `8008:01` invert the feedback direction (default `false`).
    pub invert_feedback_direction: bool,
    /// `8008:12` encoder type (default `0`, disabled).
    pub encoder_type: u16,
    /// `8008:13` encoder increments per revolution (default `4096`).
    pub encoder_increments_per_revolution: u32,
}

/// The writes of a feedback configuration below `base_index`.
pub open spec fn spec_feedback_plan(c: El7062FeedbackConfiguration, base_index: u16) -> Seq<SdoWrite> {
    let enc = (base_index + 8) as u16;
    seq![
        w(base_index, 0x11, SdoValue::U32(c.device_type)),
        w(base_index, 0x12, SdoValue::U8(c.singleturn_bits)),
        w(base_index, 0x13, SdoValue::U8(c.multiturn_bits)),
        w(base_index, 0x14, SdoValue::U16(c.observer_bandwidth_hz)),
        w(base_index, 0x15, SdoValue::U8(c.observer_feed_forward)),
        w(enc, 0x01, SdoValue::Bool(c.invert_feedback_direction)),
        w(enc, 0x12, SdoValue::U16(c.encoder_type)),
        w(enc, 0x13, SdoValue::U32(c.encoder_increments_per_revolution)),
    ]
}

/// Datasheet defaults of the feedback settings.
pub open spec fn spec_default_feedback() -> El7062FeedbackConfiguration {
    El7062FeedbackConfiguration {
        device_type: 5,
        singleturn_bits: 20,
        multiturn_bits: 12,
        observer_bandwidth_hz: 200,
        observer_feed_forward: 100,
        invert_feedback_direction: false,
        encoder_type: 0,
        encoder_increments_per_revolution: 4096,
    }
}

impl Default for El7062FeedbackConfiguration {
    /// Defaults according to the datasheet.
    fn default() -> (r: Self)
        ensures
            r == spec_default_feedback(),
    {
        Self {
            device_type: 0x00000005,
            singleturn_bits: 0x14,
            multiturn_bits: 0x0C,
            observer_bandwidth_hz: 0x00C8,
            observer_feed_forward: 0x64,
            invert_feedback_direction: false,
            encoder_type: 0x0000,
            encoder_increments_per_revolution: 0x00001000,
        }
    }
}

impl El7062FeedbackConfiguration {
    /// The SDO writes that store this configuration below `base_index`.
    pub fn config_plan(&self, base_index: u16) -> (r: Vec<SdoWrite>)
        requires
            base_index + 8 <= u16::MAX,
        ensures
            r@ == spec_feedback_plan(*self, base_index),
    {
        let enc = base_index + 0x0008;
        let r = vec![
            SdoWrite { index: base_index, sub_index: 0x11, value: SdoValue::U32(self.device_type) },
            SdoWrite { index: base_index, sub_index: 0x12, value: SdoValue::U8(self.singleturn_bits) },
            SdoWrite { index: base_index, sub_index: 0x13, value: SdoValue::U8(self.multiturn_bits) },
            SdoWrite { index: base_index, sub_index: 0x14, value: SdoValue::U16(self.observer_bandwidth_hz) },
            SdoWrite { index: base_index, sub_index: 0x15, value: SdoValue::U8(self.observer_feed_forward) },
            SdoWrite { index: enc, sub_index: 0x01, value: SdoValue::Bool(self.invert_feedback_direction) },
            SdoWrite { index: enc, sub_index: 0x12, value: SdoValue::U16(self.encoder_type) },
            SdoWrite { index: enc, sub_index: 0x13, value: SdoValue::U32(self.encoder_increments_per_revolution) },
        ];
        assert(r@ =~= spec_feedback_plan(*self, base_index));
        r
    }
}

/// DRV amplifier settings for one channel (`0x8010` / `0x8110`).
#[derive(Debug, Clone, Copy, PartialEq, Eq, Structural)]
pub struct El7062AmplifierConfiguration {
    /// `8010:01` show the TxPDO toggle in the status word (default `false`).
    pub enable_txpdo_toggle: bool,
    /// `8010:02` enable the input cycle counter (default `false`).
    pub enable_input_cycle_counter: bool,
    /// `8010:31` velocity limitation in 1/min (default `100000`).
    pub velocity_limitation: u32,
    /// `8010:50` following error window (default `0xFFFFFFFF`, no monitoring).
    pub following_error_window: u32,
    /// `8010:51` following error timeout in ms (default `0`).
    pub following_error_timeout: u16,
    /// `8010:64` commutation type (default `16`, stepper with internal counter).
    pub commutation_type: u8,
    /// `8010:73` acceleration limitation in 0.1 rad/s² (default `62832`).
    pub acceleration_limitation: u32,
}

/// The writes of an amplifier configuration at `base_index`.
pub open spec fn spec_amplifier_plan(c: El7062AmplifierConfiguration, base_index: u16) -> Seq<SdoWrite> {
    seq![
        w(base_index, 0x01, SdoValue::Bool(c.enable_txpdo_toggle)),
        w(base_index, 0x02, SdoValue::Bool(c.enable_input_cycle_counter)),
        w(base_index, 0x31, SdoValue::U32(c.velocity_limitation)),
        w(base_index, 0x50, SdoValue::U32(c.following_error_window)),
        w(base_index, 0x51, SdoValue::U16(c.following_error_timeout)),
        w(base_index, 0x64, SdoValue::U8(c.commutation_type)),
        w(base_index, 0x73, SdoValue::U32(c.acceleration_limitation)),
    ]
}

/// Datasheet defaults of the amplifier settings.
pub open spec fn spec_default_amplifier() -> El7062AmplifierConfiguration {
    El7062AmplifierConfiguration {
        enable_txpdo_toggle: false,
        enable_input_cycle_counter: false,
        velocity_limitation: 100000,
        following_error_window: 0xFFFF_FFFF,
        following_error_timeout: 0,
        commutation_type: 16,
        acceleration_limitation: 62832,
    }
}

impl Default for El7062AmplifierConfiguration {
    /// Defaults according to the datasheet.
    fn default() -> (r: Self)
        ensures
            r == spec_default_amplifier(),
    {
        Self {
            enable_txpdo_toggle: false,
            enable_input_cycle_counter: false,
            velocity_limitation: 0x000186A0,
            following_error_window: u32::MAX,
            following_error_timeout: 0x0000,
            commutation_type: 0x10,
            acceleration_limitation: 0x0000F570,
        }
    }
}

impl El7062AmplifierConfiguration {
    /// The SDO writes that store this configuration at `base_index`.
    pub fn config_plan(&self, base_index: u16) -> (r: Vec<SdoWrite>)
        ensures
            r@ == spec_amplifier_plan(*self, base_index),
    {
        let r = vec![
            SdoWrite { index: base_index, sub_index: 0x01, value: SdoValue::Bool(self.enable_txpdo_toggle) },
            SdoWrite { index: base_index, sub_index: 0x02, value: SdoValue::Bool(self.enable_input_cycle_counter) },
            SdoWrite { index: base_index, sub_index: 0x31, value: SdoValue::U32(self.velocity_limitation) },
            SdoWrite { index: base_index, sub_index: 0x50, value: SdoValue::U32(self.following_error_window) },
            SdoWrite { index: base_index, sub_index: 0x51, value: SdoValue::U16(self.following_error_timeout) },
            SdoWrite { index: base_index, sub_index: 0x64, value: SdoValue::U8(self.commutation_type) },
            SdoWrite { index: base_index, sub_index: 0x73, value: SdoValue::U32(self.acceleration_limitation) },
        ];
        assert(r@ =~= spec_amplifier_plan(*self, base_index));
        r
    }
}

/// Motor settings for one channel (`0x8011` / `0x8111`).
#[derive(Debug, Clone, Copy, PartialEq, Eq, Structural)]
pub struct El7062MotorConfiguration {
    /// `8011:12` rated current in mA (default `3000`).
    pub rated_current: u32,
    /// `8011:33` motor full steps per revolution (default `200`).
    pub motor_full_steps_per_revolution: u32,
    /// `8011:34` configured motor current in mA (default `3000`).
    pub configured_motor_current: u32,
}

/// The writes of a motor configuration at `base_index`.
pub open spec fn spec_motor_plan(c: El7062MotorConfiguration, base_index: u16) -> Seq<SdoWrite> {
    seq![
        w(base_index, 0x12, SdoValue::U32(c.rated_current)),
        w(base_index, 0x33, SdoValue::U32(c.motor_full_steps_per_revolution)),
        w(base_index, 0x34, SdoValue::U32(c.configured_motor_current)),
    ]
}

/// Datasheet defaults of the motor settings.
pub open spec fn spec_default_motor() -> El7062MotorConfiguration {
    El7062MotorConfiguration {
        rated_current: 3000,
        motor_full_steps_per_revolution: 200,
        configured_motor_current: 3000,
    }
}

impl Default for El7062MotorConfiguration {
    /// Defaults according to the datasheet.
    fn default() -> (r: Self)
        ensures
            r == spec_default_motor(),
    {
        Self {
            rated_current: 0x00000BB8,
            motor_full_steps_per_revolution: 0x000000C8,
            configured_motor_current: 0x00000BB8,
        }
    }
}

impl El7062MotorConfiguration {
    /// The SDO writes that store this configuration at `base_index`.
    pub fn config_plan(&self, base_index: u16) -> (r: Vec<SdoWrite>)
        ensures
            r@ == spec_motor_plan(*self, base_index),
    {
        let r = vec![
            SdoWrite { index: base_index, sub_index: 0x12, value: SdoValue::U32(self.rated_current) },
            SdoWrite {
                index: base_index,
                sub_index: 0x33,
                value: SdoValue::U32(self.motor_full_steps_per_revolution),
            },
            SdoWrite {
                index: base_index,
                sub_index: 0x34,
                value: SdoValue::U32(self.configured_motor_current),
            },
        ];
        assert(r@ =~= spec_motor_plan(*self, base_index));
        r
    }
}

/// Configuration of one channel of the EL7062.
#[derive(Debug, Clone, Copy, PartialEq, Eq, Structural)]
pub struct El7062ChannelConfiguration {
    /// Feedback settings (`0x8000` / `0x8100` and `0x8008` / `0x8108`).
    pub feedback: El7062FeedbackConfiguration,
    /// DRV amplifier settings (`0x8010` / `0x8110`).
    pub amplifier: El7062AmplifierConfiguration,
    /// Motor settings (`0x8011` / `0x8111`).
    pub motor: El7062MotorConfiguration,
}

/// The writes of a channel configuration below `base_index`: feedback at the
/// base, the amplifier at `+0x10` and the motor at `+0x11`.
pub open spec fn spec_channel_plan(c: El7062ChannelConfiguration, base_index: u16) -> Seq<SdoWrite> {
    spec_feedback_plan(c.feedback, base_index) + spec_amplifier_plan(
        c.amplifier,
        (base_index + 0x10) as u16,
    ) + spec_motor_plan(c.motor, (base_index + 0x11) as u16)
}

/// Datasheet defaults of a channel.
pub open spec fn spec_default_channel() -> El7062ChannelConfiguration {
    El7062ChannelConfiguration {
        feedback: spec_default_feedback(),
        amplifier: spec_default_amplifier(),
        motor: spec_default_motor(),
    }
}

impl Default for El7062ChannelConfiguration {
    fn default() -> (r: Self)
        ensures
            r == spec_default_channel(),
    {
        Self {
            feedback: El7062FeedbackConfiguration::default(),
            amplifier: El7062AmplifierConfiguration::default(),
            motor: El7062MotorConfiguration::default(),
        }
    }
}

impl El7062ChannelConfiguration {
    /// The SDO writes that store this channel configuration below `base_index`.
    pub fn config_plan(&self, base_index: u16) -> (r: Vec<SdoWrite>)
        requires
            base_index + 0x11 <= u16::MAX,
        ensures
            r@ == spec_channel_plan(*self, base_index),
    {
        let mut r = self.feedback.config_plan(base_index);
        let mut amplifier = self.amplifier.config_plan(base_index + 0x10);
        let mut motor = self.motor.config_plan(base_index + 0x11);
        r.append(&mut amplifier);
        r.append(&mut motor);
        r
    }
}

/// Configuration of the EL7062 two-channel stepper terminal.
#[derive(Debug, Clone, Copy, PartialEq, Eq, Structural)]
pub struct EL7062Configuration {
    /// Configuration of channel 1.
    pub channel_1: El7062ChannelConfiguration,
    /// Configuration of channel 2.
    pub channel_2: El7062ChannelConfiguration,
    pub pdo_assignment: EL7062PredefinedPdoAssignment,
}

/// The writes of a whole configuration: channel 1 below `0x8000`, its mode of
/// operation, channel 2 below `0x8100`, its mode of operation, then the
/// input and output PDO assignments.
pub open spec fn spec_el7062_plan(c: EL7062Configuration) -> Seq<SdoWrite> {
    let mode = SdoValue::U8(spec_mode_of_operation(c.pdo_assignment));
    spec_channel_plan(c.channel_1, 0x8000) + seq![w(0x7010, 0x03, mode)] + spec_channel_plan(
        c.channel_2,
        0x8100,
    ) + seq![w(0x7110, 0x03, mode)] + spec_list_plan(
        TX_PDO_ASSIGNMENT_REG,
        spec_txpdo_indices(c.pdo_assignment).map_values(|p: u16| SdoValue::U16(p)),
    ) + spec_list_plan(
        RX_PDO_ASSIGNMENT_REG,
        spec_rxpdo_indices(c.pdo_assignment).map_values(|p: u16| SdoValue::U16(p)),
    )
}

/// Datasheet defaults of both channels, in CSP.
pub open spec fn spec_default_el7062_configuration() -> EL7062Configuration {
    EL7062Configuration {
        channel_1: spec_default_channel(),
        channel_2: spec_default_channel(),
        pdo_assignment: EL7062PredefinedPdoAssignment::CyclicSynchronousPosition,
    }
}

impl Default for EL7062Configuration {
    /// Defaults according to the datasheet, in CSP.
    fn default() -> (r: Self)
        ensures
            r == spec_default_el7062_configuration(),
    {
        Self {
            channel_1: El7062ChannelConfiguration::default(),
            channel_2: El7062ChannelConfiguration::default(),
            pdo_assignment: EL7062PredefinedPdoAssignment::default(),
        }
    }
}

impl Configuration for EL7062Configuration {
    open spec fn spec_plan(&self) -> Seq<SdoWrite> {
        spec_el7062_plan(*self)
    }

    /// The SDO writes that store this configuration on the terminal.
    fn config_plan(&self) -> (r: Vec<SdoWrite>)
        ensures
            r@ == spec_el7062_plan(*self),
    {
        let mode = self.pdo_assignment.mode_of_operation();
        let mut r = self.channel_1.config_plan(0x8000);
        r.push(SdoWrite { index: 0x7010, sub_index: 0x03, value: SdoValue::U8(mode) });
        let mut ch2 = self.channel_2.config_plan(0x8100);
        r.append(&mut ch2);
        r.push(SdoWrite { index: 0x7110, sub_index: 0x03, value: SdoValue::U8(mode) });
        let tx_indices = self.pdo_assignment.txpdo_indices();
        let mut tx = assign_pdos(TX_PDO_ASSIGNMENT_REG, tx_indices.as_slice());
        r.append(&mut tx);
        let rx_indices = self.pdo_assignment.rxpdo_indices();
        let mut rx = assign_pdos(RX_PDO_ASSIGNMENT_REG, rx_indices.as_slice());
        r.append(&mut rx);
        assert(r@ =~= spec_el7062_plan(*self));
        r
    }
}

impl El7062FeedbackConfiguration {
    /// Stores this configuration on the terminal at `device_address`: the
    /// writes of `config_plan(base_index)` in order, up to the first that
    /// fails.
    pub fn write_config(&self, ecat_channel: &mut EtherCATThreadChannel, device_address: u16, base_index: u16) -> (r: Result<(), ChannelError>)
        requires
            base_index + 8 <= u16::MAX,
        ensures
            spec_plan_run(spec_feedback_plan(*self, base_index).len(), r),
            spec_plan_sent(device_address, spec_feedback_plan(*self, base_index), old(ecat_channel).requests(), final(ecat_channel).requests(), r),
    {
        let plan = self.config_plan(base_index);
        ecat_channel.sdo_write_all(device_address, plan.as_slice())
    }
}

impl El7062AmplifierConfiguration {
    /// Stores this configuration on the terminal at `device_address`: the
    /// writes of `config_plan(base_index)` in order, up to the first that
    /// fails.
    pub fn write_config(&self, ecat_channel: &mut EtherCATThreadChannel, device_address: u16, base_index: u16) -> (r: Result<(), ChannelError>)
        ensures
            spec_plan_run(spec_amplifier_plan(*self, base_index).len(), r),
            spec_plan_sent(device_address, spec_amplifier_plan(*self, base_index), old(ecat_channel).requests(), final(ecat_channel).requests(), r),
    {
        let plan = self.config_plan(base_index);
        ecat_channel.sdo_write_all(device_address, plan.as_slice())
    }
}

impl El7062MotorConfiguration {
    /// Stores this configuration on the terminal at `device_address`: the
    /// writes of `config_plan(base_index)` in order, up to the first that
    /// fails.
    pub fn write_config(&self, ecat_channel: &mut EtherCATThreadChannel, device_address: u16, base_index: u16) -> (r: Result<(), ChannelError>)
        ensures
            spec_plan_run(spec_motor_plan(*self, base_index).len(), r),
            spec_plan_sent(device_address, spec_motor_plan(*self, base_index), old(ecat_channel).requests(), final(ecat_channel).requests(), r),
    {
        let plan = self.config_plan(base_index);
        ecat_channel.sdo_write_all(device_address, plan.as_slice())
    }
}

impl El7062ChannelConfiguration {
    /// Stores this configuration on the terminal at `device_address`: the
    /// writes of `config_plan(base_index)` in order, up to the first that
    /// fails.
    pub fn write_config(&self, ecat_channel: &mut EtherCATThreadChannel, device_address: u16, base_index: u16) -> (r: Result<(), ChannelError>)
        requires
            base_index + 0x11 <= u16::MAX,
        ensures
            spec_plan_run(spec_channel_plan(*self, base_index).len(), r),
            spec_plan_sent(device_address, spec_channel_plan(*self, base_index), old(ecat_channel).requests(), final(ecat_channel).requests(), r),
    {
        let plan = self.config_plan(base_index);
        ecat_channel.sdo_write_all(device_address, plan.as_slice())
    }
}

} // verus!
