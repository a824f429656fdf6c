//! The Panasonic MINAS A6B servo drive in profile position mode: its process
//! data, the CiA 402 state machine that enables it, the queue of motion
//! commands handed to it one set point at a time, homing, quick stop and
//! fault recovery.
//!
//! Time enters as `now_ms`, a monotonic millisecond clock reading that the
//! caller supplies with each call; the timers keep such readings.
use vstd::prelude::*;
use std::collections::VecDeque;
use crate::sdo::PdoMapping;
use crate::bits::{load_image_bytes, spec_image_bytes, spec_image_fits, spec_same_outside, store_image_bytes};
use crate::text::{hex_digit_str, push_hex4, push_decimal_u128, spec_hex_digit, spec_hex4, spec_decimal_nat};

verus! {

/// Object dictionary entries of the drive.
pub struct Reg;

impl Reg {
    pub const EEPROM: u16 = 0x1010;
    pub const ENCODER_SETTING: u16 = 0x3015;
    pub const CONTROL_INPUT_SI_FUNCTION_ASSIGNMENT: u16 = 0x3400;
    pub const ENCODER_MULTI_TURN_DATA_CLEAR_TRIGGER: u16 = 0x4D00;
    pub const ENCODER_MULTI_TURN_DATA_CLEAR: u16 = 0x4D01;
    pub const SET_MODE_OF_OPERATION: u16 = 0x6060;
    pub const GET_MODE_OF_OPERATION: u16 = 0x6061;
    pub const POSITION_TARGET: u16 = 0x607A;
    pub const POSITION_ACTUAL: u16 = 0x6064;
    pub const TARGET_VELOCITY: u16 = 0x6081;
    pub const MAX_VELOCITY: u16 = 0x607F;
    pub const MAX_SPEED: u16 = 0x6080;
    pub const TARGET_ACCELERATION: u16 = 0x6083;
    pub const TARGET_DECELERATION: u16 = 0x6084;
    pub const ENCODER_RESOLUTION: u16 = 0x608F;
    pub const MAX_ACCELERATION: u16 = 0x60C5;
    pub const ERROR_CODE: u16 = 0x603F;
    pub const MAX_TORQUE: u16 = 0x6072;
    pub const HOMING_MODE: u16 = 0x6098;
    pub const HOMING_SPEED: u16 = 0x6099;
    pub const HOMING_ACC: u16 = 0x609A;
    pub const HOMING_OFFSET: u16 = 0x607C;
    pub const FOLLOWING_WINDOW: u16 = 0x6065;
    pub const FOLLOWING_WINDOW_TIME: u16 = 0x6066;
    pub const POSITION_WINDOW: u16 = 0x6067;
    pub const POSITION_WINDOW_TIME: u16 = 0x6068;
    pub const POSITIONING_OPTION: u16 = 0x60F2;
    pub const CONTROL_WORD: u16 = 0x6040;
    pub const STATUS_WORD: u16 = 0x6041;
    pub const RX_PDO: u16 = 0x1600;
    pub const TX_PDO: u16 = 0x1A00;
    pub const RX_PDO_ASSIGN_ADDRESS: u16 = 0x1C12;
    pub const TX_PDO_ASSIGN_ADDRESS: u16 = 0x1C13;
    pub const CONTROL_WORD_DISABLE: u16 = 0x0000;
    pub const CONTROL_WORD_READY_TO_SWITCH_ON: u16 = 0x0006;
    pub const CONTROL_WORD_SWITCH_ON: u16 = 0x0007;
    pub const CONTROL_WORD_ENABLE: u16 = 0x000F;
    pub const CW_FAULT_RESET: u16 = 0x0080;
    pub const CW_QUICK_STOP: u16 = 0x0002;
}

/// Modes of operation.
pub struct MotorMode;

impl MotorMode {
    /// Profile position.
    pub const PP: u8 = 1;
    pub const HOMING: u8 = 6;
}

/// Bytes of the drive's input data.
pub const TX_PDO_BYTES: usize = 9;

/// Bytes of the drive's output data.
pub const RX_PDO_BYTES: usize = 19;

/// The drive's error code for a corrupt multi-turn encoder.
pub const ENCODER_ERROR_CODE: u16 = 0xFF28;

/// What the drive reports each cycle.
#[derive(Debug, Clone, Copy, PartialEq, Eq, Structural)]
pub struct MinasA6BTxPdo {
    pub status_word: u16,
    pub mode_display: u8,
    pub error_code: u16,
    pub position_actual: i32,
}

/// What the drive is sent each cycle.
#[derive(Debug, Clone, Copy, PartialEq, Eq, Structural)]
pub struct MinasA6BRxPdo {
    pub control_word: u16,
    pub mode: u8,
    pub target_position: i32,
    pub target_velocity: u32,
    pub target_accel: u32,
    pub target_decel: u32,
}

/// Output data with the given control word and mode and zero motion fields.
pub open spec fn spec_cmd(control_word: u16, mode: u8) -> MinasA6BRxPdo {
    MinasA6BRxPdo {
        control_word,
        mode,
        target_position: 0,
        target_velocity: 0,
        target_accel: 0,
        target_decel: 0,
    }
}

/// Output data with the given control word and mode and zero motion fields.
pub fn cmd(control_word: u16, mode: u8) -> (r: MinasA6BRxPdo)
    ensures
        r == spec_cmd(control_word, mode),
{
    MinasA6BRxPdo {
        control_word,
        mode,
        target_position: 0,
        target_velocity: 0,
        target_accel: 0,
        target_decel: 0,
    }
}

/// The little-endian value of bytes `b[i..i + n]`.
pub open spec fn spec_le(b: Seq<u8>, i: int, n: nat) -> nat
    decreases n,
{
    if n == 0 {
        0
    } else {
        b[i] as nat + 256 * spec_le(b, i + 1, (n - 1) as nat)
    }
}

/// The input data in its nine bytes: status word, mode display, error code
/// and actual position, each little-endian.
pub open spec fn spec_txpdo_of_bytes(b: Seq<u8>) -> MinasA6BTxPdo {
    MinasA6BTxPdo {
        status_word: spec_le(b, 0, 2) as u16,
        mode_display: b[2],
        error_code: spec_le(b, 3, 2) as u16,
        position_actual: spec_le(b, 5, 4) as u32 as i32,
    }
}

impl MinasA6BTxPdo {
    /// Decodes the nine input bytes.
    pub fn from_bytes(b: &[u8; 9]) -> (r: Self)
        ensures
            r == spec_txpdo_of_bytes(b@),
    {
        let status_word: u16 = b[0] as u16 + 256 * (b[1] as u16);
        let error_code: u16 = b[3] as u16 + 256 * (b[4] as u16);
        let p: u32 = b[5] as u32 + 256 * (b[6] as u32 + 256 * (b[7] as u32 + 256 * (b[8] as u32)));
        proof {
            assert(spec_le(b@, 0, 2) == b[0] as nat + 256 * (b[1] as nat)) by {
                reveal_with_fuel(spec_le, 3);
            }
            assert(spec_le(b@, 3, 2) == b[3] as nat + 256 * (b[4] as nat)) by {
                reveal_with_fuel(spec_le, 3);
            }
            assert(spec_le(b@, 5, 4) == b[5] as nat + 256 * (b[6] as nat + 256 * (b[7] as nat + 256 * (b[8] as nat)))) by {
                reveal_with_fuel(spec_le, 5);
            }
        }
        MinasA6BTxPdo {
            status_word,
            mode_display: b[2],
            error_code,
            position_actual: p as i32,
        }
    }

    /// Decodes the nine input bytes that start at bit `bit_offset` of the
    /// process image.
    pub fn from_image(input: &[u8], bit_offset: usize) -> (r: Self)
        requires
            bit_offset + 72 <= input.len() * 8,
            spec_image_fits(input.len() as nat),
        ensures
            r == spec_txpdo_of_bytes(spec_image_bytes(input@, bit_offset as int, 9)),
    {
        let v = load_image_bytes(input, bit_offset, TX_PDO_BYTES);
        let b: [u8; 9] = [v[0], v[1], v[2], v[3], v[4], v[5], v[6], v[7], v[8]];
        assert(b@ =~= v@);
        Self::from_bytes(&b)
    }
}

/// The output data in its nineteen bytes: control word, mode, target
/// position, velocity, acceleration and deceleration, each little-endian.
pub open spec fn spec_rxpdo_bytes(p: MinasA6BRxPdo) -> Seq<u8> {
    let tp = p.target_position as u32;
    seq![
        (p.control_word % 256) as u8, (p.control_word / 256) as u8, p.mode,
        (tp % 256) as u8, ((tp / 256) % 256) as u8, ((tp / 65536) % 256) as u8, (tp / 16777216) as u8,
        (p.target_velocity % 256) as u8, ((p.target_velocity / 256) % 256) as u8,
        ((p.target_velocity / 65536) % 256) as u8, (p.target_velocity / 16777216) as u8,
        (p.target_accel % 256) as u8, ((p.target_accel / 256) % 256) as u8,
        ((p.target_accel / 65536) % 256) as u8, (p.target_accel / 16777216) as u8,
        (p.target_decel % 256) as u8, ((p.target_decel / 256) % 256) as u8,
        ((p.target_decel / 65536) % 256) as u8, (p.target_decel / 16777216) as u8,
    ]
}

impl MinasA6BRxPdo {
    /// The nineteen output bytes.
    pub fn to_bytes(&self) -> (r: [u8; 19])
        ensures
            r@ == spec_rxpdo_bytes(*self),
    {
        let tp = self.target_position as u32;
        let v = self.target_velocity;
        let a = self.target_accel;
        let d = self.target_decel;
        let r = [
            (self.control_word % 256) as u8, (self.control_word / 256) as u8, self.mode,
            (tp % 256) as u8, ((tp / 256) % 256) as u8, ((tp / 65536) % 256) as u8, (tp / 16777216) as u8,
            (v % 256) as u8, ((v / 256) % 256) as u8, ((v / 65536) % 256) as u8, (v / 16777216) as u8,
            (a % 256) as u8, ((a / 256) % 256) as u8, ((a / 65536) % 256) as u8, (a / 16777216) as u8,
            (d % 256) as u8, ((d / 256) % 256) as u8, ((d / 65536) % 256) as u8, (d / 16777216) as u8,
        ];
        assert(r@ =~= spec_rxpdo_bytes(*self));
        r
    }

    /// Writes the nineteen output bytes from bit `bit_offset` of the process
    /// image on; the image's other bits keep their values.
    pub fn to_image(&self, output: &mut [u8], bit_offset: usize)
        requires
            bit_offset + 152 <= old(output).len() * 8,
            spec_image_fits(old(output).len() as nat),
        ensures
            final(output)@.len() == old(output)@.len(),
            spec_image_bytes(final(output)@, bit_offset as int, 19) == spec_rxpdo_bytes(*self),
            spec_same_outside(final(output)@, old(output)@, bit_offset as int, 152),
    {
        let bytes = self.to_bytes();
        store_image_bytes(output, bit_offset, &bytes);
    }
}

/// The output PDO mapping: control word, mode of operation, target position,
/// velocity, acceleration and deceleration.
pub open spec fn spec_set_data_mapping() -> Seq<PdoMapping> {
    seq![
        PdoMapping { object_index: Reg::CONTROL_WORD, sub_index: 0, bit_length: 16 },
        PdoMapping { object_index: Reg::SET_MODE_OF_OPERATION, sub_index: 0, bit_length: 8 },
        PdoMapping { object_index: Reg::POSITION_TARGET, sub_index: 0, bit_length: 32 },
        PdoMapping { object_index: Reg::TARGET_VELOCITY, sub_index: 0, bit_length: 32 },
        PdoMapping { object_index: Reg::TARGET_ACCELERATION, sub_index: 0, bit_length: 32 },
        PdoMapping { object_index: Reg::TARGET_DECELERATION, sub_index: 0, bit_length: 32 },
    ]
}

/// The output PDO mapping: control word, mode of operation, target position,
/// velocity, acceleration and deceleration.
pub fn set_data_mapping() -> (r: [PdoMapping; 6])
    ensures
        r@ == spec_set_data_mapping(),
{
    let r = [
        PdoMapping { object_index: Reg::CONTROL_WORD, sub_index: 0, bit_length: 16 },
        PdoMapping { object_index: Reg::SET_MODE_OF_OPERATION, sub_index: 0, bit_length: 8 },
        PdoMapping { object_index: Reg::POSITION_TARGET, sub_index: 0, bit_length: 32 },
        PdoMapping { object_index: Reg::TARGET_VELOCITY, sub_index: 0, bit_length: 32 },
        PdoMapping { object_index: Reg::TARGET_ACCELERATION, sub_index: 0, bit_length: 32 },
        PdoMapping { object_index: Reg::TARGET_DECELERATION, sub_index: 0, bit_length: 32 },
    ];
    assert(r@ =~= seq![
        PdoMapping { object_index: Reg::CONTROL_WORD, sub_index: 0, bit_length: 16 },
        PdoMapping { object_index: Reg::SET_MODE_OF_OPERATION, sub_index: 0, bit_length: 8 },
        PdoMapping { object_index: Reg::POSITION_TARGET, sub_index: 0, bit_length: 32 },
        PdoMapping { object_index: Reg::TARGET_VELOCITY, sub_index: 0, bit_length: 32 },
        PdoMapping { object_index: Reg::TARGET_ACCELERATION, sub_index: 0, bit_length: 32 },
        PdoMapping { object_index: Reg::TARGET_DECELERATION, sub_index: 0, bit_length: 32 },
    ]);
    r
}

/// The input PDO mapping: status word, mode display, error code, actual position.
pub open spec fn spec_get_data_mapping() -> Seq<PdoMapping> {
    seq![
        PdoMapping { object_index: Reg::STATUS_WORD, sub_index: 0, bit_length: 16 },
        PdoMapping { object_index: Reg::GET_MODE_OF_OPERATION, sub_index: 0, bit_length: 8 },
        PdoMapping { object_index: Reg::ERROR_CODE, sub_index: 0, bit_length: 16 },
        PdoMapping { object_index: Reg::POSITION_ACTUAL, sub_index: 0, bit_length: 32 },
    ]
}

/// The input PDO mapping: status word, mode display, error code, actual position.
pub fn get_data_mapping() -> (r: [PdoMapping; 4])
    ensures
        r@ == spec_get_data_mapping(),
{
    let r = [
        PdoMapping { object_index: Reg::STATUS_WORD, sub_index: 0, bit_length: 16 },
        PdoMapping { object_index: Reg::GET_MODE_OF_OPERATION, sub_index: 0, bit_length: 8 },
        PdoMapping { object_index: Reg::ERROR_CODE, sub_index: 0, bit_length: 16 },
        PdoMapping { object_index: Reg::POSITION_ACTUAL, sub_index: 0, bit_length: 32 },
    ];
    assert(r@ =~= seq![
        PdoMapping { object_index: Reg::STATUS_WORD, sub_index: 0, bit_length: 16 },
        PdoMapping { object_index: Reg::GET_MODE_OF_OPERATION, sub_index: 0, bit_length: 8 },
        PdoMapping { object_index: Reg::ERROR_CODE, sub_index: 0, bit_length: 16 },
        PdoMapping { object_index: Reg::POSITION_ACTUAL, sub_index: 0, bit_length: 32 },
    ]);
    r
}

/// States of the drive as the state machine tracks it.
#[derive(Debug, Clone, Copy, PartialEq, Eq, Structural)]
pub enum State {
    Unknown,
    PreOpNotRdyToSwitchOn,
    PreOpSwitchOnDisabled,
    PreOpReadyToSwitchOn,
    Ready,
    RunIdle,
    RunSentMotionCommand,
    RunSentSetPointAck,
    RunWaitForSendingNextCommand,
    RunSentSetPointNack,
    RunExecuting,
    HomingIdle,
    HomingSendingHomeCommand,
    HomingWaitForFinish,
    HomingWaitForModeChange,
    QuickStopWaiting,
    QuickStopReached,
    ErrorAny,
    ErrorEncoder,
    ErrorGeneric,
    ErrorResetToggled,
}

/// The error states.
pub open spec fn spec_is_error(s: State) -> bool {
    s == State::ErrorAny || s == State::ErrorEncoder || s == State::ErrorGeneric || s == State::ErrorResetToggled
}

/// The states in which the drive is operation-enabled.
pub open spec fn spec_is_run(s: State) -> bool {
    s == State::RunIdle || s == State::RunSentMotionCommand || s == State::RunSentSetPointAck
        || s == State::RunWaitForSendingNextCommand || s == State::RunSentSetPointNack
        || s == State::RunExecuting
}

impl State {
    pub fn is_error(self) -> (r: bool)
        ensures
            r == spec_is_error(self),
    {
        match self {
            State::ErrorAny | State::ErrorEncoder | State::ErrorGeneric | State::ErrorResetToggled => true,
            _ => false,
        }
    }

    pub fn is_run(self) -> (r: bool)
        ensures
            r == spec_is_run(self),
    {
        match self {
            State::RunIdle | State::RunSentMotionCommand | State::RunSentSetPointAck
            | State::RunWaitForSendingNextCommand | State::RunSentSetPointNack | State::RunExecuting => true,
            _ => false,
        }
    }
}

/// Direction of the homing run.
#[derive(Debug, Clone, Copy, PartialEq, Eq, Structural)]
pub enum HomingDirection {
    /// Counter-clockwise: homing mode 21.
    Ccw,
    /// Clockwise: homing mode 19.
    Cw,
}

impl HomingDirection {
    /// The drive's homing mode for the direction.
    pub fn mode_code(self) -> (r: u8)
        ensures
            r == (match self {
                HomingDirection::Ccw => 21u8,
                HomingDirection::Cw => 19u8,
            }),
    {
        match self {
            HomingDirection::Ccw => 21,
            HomingDirection::Cw => 19,
        }
    }
}

/// Encoder increments per number of revolutions.
#[derive(Debug, Clone, Copy, PartialEq, Eq, Structural)]
pub struct EncoderResolution {
    pub increments: u32,
    pub revolutions: u32,
}

/// The encoder resolution read from [`Reg::ENCODER_RESOLUTION`]; a zero
/// revolution count is refused, as no ratio can be formed from it.
pub fn encoder_resolution_of(increments: u32, revolutions: u32) -> (r: Option<EncoderResolution>)
    ensures
        revolutions == 0 ==> r is None,
        revolutions != 0 ==> r == Some(EncoderResolution { increments, revolutions }),
{
    if revolutions == 0 {
        None
    } else {
        Some(EncoderResolution { increments, revolutions })
    }
}

/// How one set point hands over to the next.
#[derive(Debug, Clone, Copy, PartialEq, Eq, Structural)]
pub struct PositionTransitionSpec {
    /// Blend into the next set point instead of stopping.
    pub overlap: bool,
    /// Without overlap: how long to wait, in ms, once close to the target.
    pub delay_ms: u64,
}

/// Control word of a motion command: enable, plus relative positioning (bit
/// 6) unless absolute, plus change-set-immediately (bit 5) when the
/// transition overlaps.
pub open spec fn spec_motion_control_word(is_absolute: bool, overlap: bool) -> u16 {
    (Reg::CONTROL_WORD_ENABLE + (if is_absolute { 0u16 } else { 0x40u16 }) + (if overlap { 0x20u16 } else { 0u16 })) as u16
}

/// The output data of a motion command to `target_position` with the given
/// velocity, acceleration and deceleration in increments.
pub fn motion_command(
    target_position: i32,
    target_velocity: u32,
    target_accel: u32,
    target_decel: u32,
    is_absolute: bool,
    transition: Option<PositionTransitionSpec>,
) -> (r: MinasA6BRxPdo)
    ensures
        r == (MinasA6BRxPdo {
            control_word: spec_motion_control_word(
                is_absolute,
                transition matches Some(t) && t.overlap,
            ),
            mode: MotorMode::PP,
            target_position,
            target_velocity,
            target_accel,
            target_decel,
        }),
{
    let mut control_word: u16 = Reg::CONTROL_WORD_ENABLE;
    if !is_absolute {
        control_word = control_word + 0x40;
    }
    let overlap = match transition {
        Some(t) => t.overlap,
        None => false,
    };
    if overlap {
        control_word = control_word + 0x20;
    }
    MinasA6BRxPdo {
        control_word,
        mode: MotorMode::PP,
        target_position,
        target_velocity,
        target_accel,
        target_decel,
    }
}

/// The text of a drive error code: the encoder error by name; a code of the
/// form `0xFFnn` by its low byte, in two hex digits and in decimal; any other
/// code in four hex digits and in decimal.
pub open spec fn spec_error_text(code: u16) -> Seq<char> {
    if code == ENCODER_ERROR_CODE {
        "Encoder multi-turn data error"@
    } else if code & 0xFF00u16 == 0xFF00u16 {
        let low = code & 0x00FFu16;
        "Error 0x"@ + seq![spec_hex_digit((low / 16) as int), spec_hex_digit((low % 16) as int)] + " ("@
            + spec_decimal_nat(low as nat) + ")"@
    } else {
        "Error 0x"@ + spec_hex4(code) + " ("@ + spec_decimal_nat(code as nat) + ")"@
    }
}

/// Renders a drive error code for the log.
pub fn interpret_error_code(code: u16) -> (r: String)
    ensures
        r@ == spec_error_text(code),
{
    if code == ENCODER_ERROR_CODE {
        return String::from_str("Encoder multi-turn data error");
    }
    let mut s = String::from_str("Error 0x");
    let value: u16 = if code & 0xFF00u16 == 0xFF00u16 {
        let low = code & 0x00FFu16;
        assert(low < 256) by (bit_vector)
            requires
                low == code & 0x00FFu16,
        ;
        s.append(hex_digit_str(low / 16));
        s.append(hex_digit_str(low % 16));
        low
    } else {
        push_hex4(&mut s, code);
        code
    };
    s.append(" (");
    push_decimal_u128(&mut s, value as u128);
    s.append(")");
    proof {
        reveal_strlit("Error 0x");
        reveal_strlit(" (");
        reveal_strlit(")");
        reveal_strlit("Encoder multi-turn data error");
    }
    assert(s@ =~= spec_error_text(code));
    s
}


/// Whether at least `ms` milliseconds have passed since the timer was set;
/// false for a timer that is not set.
pub open spec fn spec_elapsed(t: Option<u64>, ms: u64, now_ms: u64) -> bool {
    t matches Some(i) && now_ms >= i && now_ms - i >= ms
}

/// Whether at least `ms` milliseconds have passed since the timer was set.
pub fn elapsed_at_least(t: Option<u64>, ms: u64, now_ms: u64) -> (r: bool)
    ensures
        r == spec_elapsed(t, ms, now_ms),
{
    match t {
        Some(i) => now_ms >= i && now_ms - i >= ms,
        None => false,
    }
}

/// CiA 402 status word predicates of the drive.
pub open spec fn sw_fault(sw: u16) -> bool { sw & 0x4F == 0x08 }
pub open spec fn sw_not_ready_to_switch_on(sw: u16) -> bool { sw & 0x4F == 0x00 }
pub open spec fn sw_switch_on_disabled(sw: u16) -> bool { sw & 0x4F == 0x40 }
pub open spec fn sw_ready_to_switch_on(sw: u16) -> bool { sw & 0x6F == 0x21 }
pub open spec fn sw_ready(sw: u16) -> bool { sw & 0x6F == 0x23 }
pub open spec fn sw_run(sw: u16) -> bool { sw & 0x6F == 0x27 }
pub open spec fn sw_quick_stop(sw: u16) -> bool { sw & 0x6F == 0x07 }
pub open spec fn sw_homing_finished(sw: u16) -> bool { sw & 0x1000 == 0x1000 }
pub open spec fn sw_homing_failed(sw: u16) -> bool { sw & 0x2000 == 0x2000 }
pub open spec fn sw_set_point_nack(sw: u16) -> bool { sw & 0x1000 == 0x0000 }
pub open spec fn sw_target_reached(sw: u16) -> bool { sw & 0x0400 != 0 }

/// The state of a drive and of its command queue.
pub struct MinasView {
    pub txpdo: MinasA6BTxPdo,
    pub rxpdo: MinasA6BRxPdo,
    pub state: State,
    pub encoder_resolution: Option<EncoderResolution>,
    pub queue: Seq<MinasA6BRxPdo>,
    pub motion_transition: Option<PositionTransitionSpec>,
    pub current_motion_command: Option<MinasA6BRxPdo>,
    pub previous_motion_command: Option<MinasA6BRxPdo>,
    pub movement_delay: Option<u64>,
    pub current_motor_mode: u8,
    pub single_enable_flag: bool,
    pub single_disable_flag: bool,
    pub last_fault_reset_toggle: Option<u64>,
    pub mode_change_issued: Option<u64>,
    pub homing_issued: Option<u64>,
    pub needs_homing: bool,
    pub homed: bool,
    pub is_used: bool,
    pub tx_bit_offset: usize,
    pub rx_bit_offset: usize,
    pub homing_direction: HomingDirection,
    pub initialized: bool,
}

/// Sends the control word that moves the drive one step up the enable ladder
/// from the state it is in, with the current mode; outside the ladder nothing.
#[verifier::opaque]
pub open spec fn spec_send_enable(v: MinasView) -> MinasView {
    let cw: Option<u16> = if v.state == State::PreOpSwitchOnDisabled || v.state == State::PreOpNotRdyToSwitchOn {
        Some(Reg::CONTROL_WORD_READY_TO_SWITCH_ON)
    } else if v.state == State::PreOpReadyToSwitchOn {
        Some(Reg::CONTROL_WORD_SWITCH_ON)
    } else if v.state == State::Ready {
        Some(Reg::CONTROL_WORD_ENABLE)
    } else {
        None
    };
    match cw {
        Some(c) => MinasView { rxpdo: MinasA6BRxPdo { control_word: c, mode: v.current_motor_mode, ..v.rxpdo }, ..v },
        None => v,
    }
}

/// Sends the control word that moves the drive one step down the ladder:
/// from ready to ready-to-switch-on, from ready-to-switch-on to disabled, and
/// ready-to-switch-on from anywhere else.
#[verifier::opaque]
pub open spec fn spec_send_disable(v: MinasView) -> MinasView {
    let c = if v.state == State::PreOpReadyToSwitchOn {
        Reg::CONTROL_WORD_DISABLE
    } else {
        Reg::CONTROL_WORD_READY_TO_SWITCH_ON
    };
    MinasView { rxpdo: MinasA6BRxPdo { control_word: c, mode: v.current_motor_mode, ..v.rxpdo }, ..v }
}

/// Enters the error state on a fault, unless a fault reset is under way or
/// the error state is already entered.
#[verifier::opaque]
pub open spec fn spec_check_fault(v: MinasView) -> MinasView {
    if v.last_fault_reset_toggle is None && sw_fault(v.txpdo.status_word) && v.state != State::ErrorAny {
        MinasView { state: State::ErrorAny, ..v }
    } else {
        v
    }
}

/// The state the status word shows; unchanged where it shows none of them.
#[verifier::opaque]
pub open spec fn spec_classify(v: MinasView) -> MinasView {
    let sw = v.txpdo.status_word;
    if sw_fault(sw) {
        MinasView { state: State::ErrorAny, ..v }
    } else if sw_not_ready_to_switch_on(sw) {
        MinasView { state: State::PreOpNotRdyToSwitchOn, ..v }
    } else if sw_switch_on_disabled(sw) {
        MinasView { state: State::PreOpSwitchOnDisabled, ..v }
    } else if sw_ready_to_switch_on(sw) {
        MinasView { state: State::PreOpReadyToSwitchOn, ..v }
    } else if sw_ready(sw) {
        MinasView { state: State::Ready, ..v }
    } else if sw_run(sw) {
        MinasView { state: State::RunIdle, ..v }
    } else {
        v
    }
}

/// Output data that keeps the drive enabled in the current mode, without motion.
#[verifier::opaque]
pub open spec fn spec_keepalive(v: MinasView) -> MinasView {
    MinasView { rxpdo: spec_cmd(Reg::CONTROL_WORD_ENABLE, v.current_motor_mode), ..v }
}

/// The current command becomes the previous one, and the oldest queued
/// command, if any, is sent and becomes current.
#[verifier::opaque]
pub open spec fn spec_send_motion(v: MinasView) -> MinasView {
    let v1 = MinasView { previous_motion_command: v.current_motion_command, current_motion_command: None, ..v };
    if v.queue.len() > 0 {
        MinasView {
            rxpdo: v.queue[0],
            current_motion_command: Some(v.queue[0]),
            queue: v.queue.drop_first(),
            ..v1
        }
    } else {
        v1
    }
}

/// Sends the current command with the new-set-point bit.
#[verifier::opaque]
pub open spec fn spec_set_point_ack(v: MinasView) -> MinasView {
    match v.current_motion_command {
        Some(c) => MinasView { rxpdo: MinasA6BRxPdo { control_word: c.control_word | 0x0010, ..c }, ..v },
        None => v,
    }
}

/// Clears the new-set-point bit.
#[verifier::opaque]
pub open spec fn spec_set_point_nack(v: MinasView) -> MinasView {
    MinasView { rxpdo: spec_cmd(Reg::CONTROL_WORD_ENABLE, v.current_motor_mode), ..v }
}

/// Leaves homing: back to profile position mode, waiting for the drive to
/// show it.
#[verifier::opaque]
pub open spec fn spec_finish_homing(v: MinasView, now_ms: u64) -> MinasView {
    let v1 = MinasView {
        homing_issued: None,
        current_motor_mode: MotorMode::PP,
        mode_change_issued: Some(now_ms),
        ..v
    };
    MinasView { state: State::HomingWaitForModeChange, ..spec_keepalive(v1) }
}

/// The distance between two positions, in increments.
pub open spec fn spec_distance(a: i32, b: i32) -> int {
    if a >= b { a - b } else { b - a }
}

/// Whether the next command may go out, and the view after asking: without a
/// previous command at once; without a transition once the target is
/// reached; with an overlapping transition as `overlap_ok` says (the
/// remaining motion time is within the delay); otherwise once the delay has
/// passed since the drive came within 1000 increments of the previous target,
/// which starts the delay.
#[verifier::opaque]
pub open spec fn spec_granted(v: MinasView, now_ms: u64, overlap_ok: bool) -> (bool, MinasView) {
    match v.previous_motion_command {
        None => (true, v),
        Some(prev) => match v.motion_transition {
            None => (sw_target_reached(v.txpdo.status_word), v),
            Some(t) => if t.overlap {
                (overlap_ok, v)
            } else {
                match v.movement_delay {
                    Some(_) => (spec_elapsed(v.movement_delay, t.delay_ms, now_ms), v),
                    None => if spec_distance(v.txpdo.position_actual, prev.target_position) <= 1000 {
                        (false, MinasView { movement_delay: Some(now_ms), ..v })
                    } else {
                        (false, v)
                    },
                }
            },
        },
    }
}

/// The step in state `Unknown | ErrorResetToggled`.
pub open spec fn spec_step_unknown(v: MinasView, now_ms: u64, overlap_ok: bool) -> MinasView {
    let sw = v.txpdo.status_word;
    spec_classify(v)
}

/// The step in state `PreOpNotRdyToSwitchOn`.
pub open spec fn spec_step_pre_op_not_rdy_to_switch_on(v: MinasView, now_ms: u64, overlap_ok: bool) -> MinasView {
    let sw = v.txpdo.status_word;
    let v1 = if v.single_enable_flag { spec_send_enable(v) } else { v };
    if sw_switch_on_disabled(sw) { MinasView { state: State::PreOpSwitchOnDisabled, ..v1 } } else { v1 }
}

/// The step in state `PreOpSwitchOnDisabled`.
pub open spec fn spec_step_pre_op_switch_on_disabled(v: MinasView, now_ms: u64, overlap_ok: bool) -> MinasView {
    let sw = v.txpdo.status_word;
    let v0 = MinasView { single_disable_flag: false, ..v };
    let v1 = if v0.single_enable_flag { spec_send_enable(v0) } else { v0 };
    if sw_ready_to_switch_on(sw) { MinasView { state: State::PreOpReadyToSwitchOn, ..v1 } } else { v1 }
}

/// The step in state `PreOpReadyToSwitchOn`.
pub open spec fn spec_step_pre_op_ready_to_switch_on(v: MinasView, now_ms: u64, overlap_ok: bool) -> MinasView {
    let sw = v.txpdo.status_word;
    let v1 = if v.single_enable_flag { spec_send_enable(v) } else { v };
    let v2 = if v1.single_disable_flag { spec_send_disable(v1) } else { v1 };
    if sw_ready(sw) {
        MinasView { state: State::Ready, ..v2 }
    } else if sw_switch_on_disabled(sw) {
        MinasView { state: State::PreOpSwitchOnDisabled, ..v2 }
    } else {
        v2
    }
}

/// The step in state `Ready`.
pub open spec fn spec_step_ready(v: MinasView, now_ms: u64, overlap_ok: bool) -> MinasView {
    let sw = v.txpdo.status_word;
    let v1 = if v.single_enable_flag { spec_send_enable(v) } else { v };
    let v2 = if v1.single_disable_flag { spec_send_disable(v1) } else { v1 };
    if sw_run(sw) {
        MinasView { single_enable_flag: false, state: State::RunIdle, ..v2 }
    } else if sw_ready_to_switch_on(sw) {
        MinasView { state: State::PreOpReadyToSwitchOn, ..v2 }
    } else {
        v2
    }
}

/// The step in state `RunIdle`.
pub open spec fn spec_step_run_idle(v: MinasView, now_ms: u64, overlap_ok: bool) -> MinasView {
    let sw = v.txpdo.status_word;
    let v1 = spec_check_fault(MinasView { single_enable_flag: false, ..v });
    if v1.needs_homing {
        let v2 = MinasView { current_motor_mode: MotorMode::HOMING, mode_change_issued: Some(now_ms), ..v1 };
        MinasView { state: State::HomingIdle, ..spec_keepalive(v2) }
    } else {
        let v2 = if v1.single_disable_flag { spec_send_disable(v1) } else { v1 };
        if sw_ready(sw) {
            MinasView { state: State::Ready, ..v2 }
        } else if v2.queue.len() > 0 {
            MinasView { state: State::RunSentMotionCommand, ..spec_send_motion(v2) }
        } else {
            v2
        }
    }
}

/// The step in state `RunSentMotionCommand`.
pub open spec fn spec_step_run_sent_motion_command(v: MinasView, now_ms: u64, overlap_ok: bool) -> MinasView {
    let sw = v.txpdo.status_word;
    let v1 = spec_check_fault(MinasView { single_enable_flag: false, ..v });
    if v1.previous_motion_command is None {
        MinasView { movement_delay: None, state: State::RunSentSetPointAck, ..spec_set_point_ack(v1) }
    } else {
        MinasView { state: State::RunWaitForSendingNextCommand, ..v1 }
    }
}

/// The step in state `RunWaitForSendingNextCommand`.
pub open spec fn spec_step_run_wait_for_sending_next_command(v: MinasView, now_ms: u64, overlap_ok: bool) -> MinasView {
    let sw = v.txpdo.status_word;
    let v1 = spec_check_fault(MinasView { single_enable_flag: false, ..v });
    let (granted, v2) = spec_granted(v1, now_ms, overlap_ok);
    if granted {
        MinasView { movement_delay: None, state: State::RunSentSetPointAck, ..spec_set_point_ack(v2) }
    } else {
        v2
    }
}

/// The step in state `RunSentSetPointAck`.
pub open spec fn spec_step_run_sent_set_point_ack(v: MinasView, now_ms: u64, overlap_ok: bool) -> MinasView {
    let sw = v.txpdo.status_word;
    let v1 = spec_check_fault(MinasView { single_enable_flag: false, ..v });
    MinasView { state: State::RunSentSetPointNack, ..spec_set_point_nack(v1) }
}

/// The step in state `RunSentSetPointNack`.
pub open spec fn spec_step_run_sent_set_point_nack(v: MinasView, now_ms: u64, overlap_ok: bool) -> MinasView {
    let sw = v.txpdo.status_word;
    let v1 = spec_check_fault(MinasView { single_enable_flag: false, ..v });
    if sw_set_point_nack(sw) { MinasView { state: State::RunExecuting, ..v1 } } else { v1 }
}

/// The step in state `RunExecuting`.
pub open spec fn spec_step_run_executing(v: MinasView, now_ms: u64, overlap_ok: bool) -> MinasView {
    let sw = v.txpdo.status_word;
    let v1 = spec_check_fault(MinasView { single_enable_flag: false, ..v });
    if sw_target_reached(sw) && v1.queue.len() == 0 {
        MinasView {
            previous_motion_command: None,
            current_motion_command: None,
            motion_transition: None,
            state: State::RunIdle,
            ..v1
        }
    } else if v1.queue.len() > 0 {
        MinasView { state: State::RunSentMotionCommand, ..spec_send_motion(v1) }
    } else {
        v1
    }
}

/// The step in state `HomingIdle`.
pub open spec fn spec_step_homing_idle(v: MinasView, now_ms: u64, overlap_ok: bool) -> MinasView {
    let sw = v.txpdo.status_word;
    let mode_ok = v.txpdo.mode_display == MotorMode::HOMING;
    if !mode_ok || !spec_elapsed(v.mode_change_issued, 3, now_ms) {
        spec_keepalive(v)
    } else {
        MinasView {
            rxpdo: spec_cmd(Reg::CONTROL_WORD_ENABLE | 0x0010, MotorMode::HOMING),
            homing_issued: Some(now_ms),
            state: State::HomingSendingHomeCommand,
            ..v
        }
    }
}

/// The step in state `HomingSendingHomeCommand`.
pub open spec fn spec_step_homing_sending_home_command(v: MinasView, now_ms: u64, overlap_ok: bool) -> MinasView {
    let sw = v.txpdo.status_word;
    if spec_elapsed(v.homing_issued, 100, now_ms) {
        MinasView {
            rxpdo: spec_cmd(Reg::CONTROL_WORD_ENABLE, MotorMode::HOMING),
            state: State::HomingWaitForFinish,
            ..v
        }
    } else {
        v
    }
}

/// The step in state `HomingWaitForFinish`.
pub open spec fn spec_step_homing_wait_for_finish(v: MinasView, now_ms: u64, overlap_ok: bool) -> MinasView {
    let sw = v.txpdo.status_word;
    if sw_homing_finished(sw) {
        spec_finish_homing(MinasView { homed: true, ..v }, now_ms)
    } else if sw_homing_failed(sw) {
        spec_finish_homing(MinasView { homed: false, ..v }, now_ms)
    } else {
        v
    }
}

/// The step in state `HomingWaitForModeChange`.
pub open spec fn spec_step_homing_wait_for_mode_change(v: MinasView, now_ms: u64, overlap_ok: bool) -> MinasView {
    let sw = v.txpdo.status_word;
    if v.txpdo.mode_display == MotorMode::PP && spec_elapsed(v.mode_change_issued, 3, now_ms) {
        MinasView { needs_homing: false, state: State::RunIdle, ..v }
    } else {
        v
    }
}

/// The step in state `QuickStopWaiting`.
pub open spec fn spec_step_quick_stop_waiting(v: MinasView, now_ms: u64, overlap_ok: bool) -> MinasView {
    let sw = v.txpdo.status_word;
    if sw_quick_stop(sw) { MinasView { state: State::QuickStopReached, ..v } } else { v }
}

/// The step in state `QuickStopReached`.
pub open spec fn spec_step_quick_stop_reached(v: MinasView, now_ms: u64, overlap_ok: bool) -> MinasView {
    let sw = v.txpdo.status_word;
    v
}

/// The step in state `ErrorAny`.
pub open spec fn spec_step_error_any(v: MinasView, now_ms: u64, overlap_ok: bool) -> MinasView {
    let sw = v.txpdo.status_word;
    if v.txpdo.error_code == ENCODER_ERROR_CODE {
        MinasView { state: State::ErrorEncoder, ..v }
    } else {
        MinasView {
            rxpdo: spec_cmd(Reg::CW_FAULT_RESET, v.current_motor_mode),
            last_fault_reset_toggle: if v.last_fault_reset_toggle is None {
                Some(now_ms)
            } else {
                v.last_fault_reset_toggle
            },
            state: State::ErrorGeneric,
            ..v
        }
    }
}

/// The step in state `ErrorEncoder`.
pub open spec fn spec_step_error_encoder(v: MinasView, now_ms: u64, overlap_ok: bool) -> MinasView {
    let sw = v.txpdo.status_word;
    v
}

/// The step in state `ErrorGeneric`.
pub open spec fn spec_step_error_generic(v: MinasView, now_ms: u64, overlap_ok: bool) -> MinasView {
    let sw = v.txpdo.status_word;
    let t = if v.last_fault_reset_toggle is None { Some(now_ms) } else { v.last_fault_reset_toggle };
    if spec_elapsed(t, 300, now_ms) {
        MinasView {
            rxpdo: spec_cmd(Reg::CONTROL_WORD_DISABLE, v.current_motor_mode),
            last_fault_reset_toggle: None,
            state: State::ErrorResetToggled,
            ..v
        }
    } else {
        MinasView { last_fault_reset_toggle: t, ..v }
    }
}

/// One step of the state machine, from the drive's latest input data.
pub open spec fn spec_poll(v: MinasView, now_ms: u64, overlap_ok: bool) -> MinasView {
    match v.state {
        State::Unknown | State::ErrorResetToggled => spec_step_unknown(v, now_ms, overlap_ok),
        State::PreOpNotRdyToSwitchOn => spec_step_pre_op_not_rdy_to_switch_on(v, now_ms, overlap_ok),
        State::PreOpSwitchOnDisabled => spec_step_pre_op_switch_on_disabled(v, now_ms, overlap_ok),
        State::PreOpReadyToSwitchOn => spec_step_pre_op_ready_to_switch_on(v, now_ms, overlap_ok),
        State::Ready => spec_step_ready(v, now_ms, overlap_ok),
        State::RunIdle => spec_step_run_idle(v, now_ms, overlap_ok),
        State::RunSentMotionCommand => spec_step_run_sent_motion_command(v, now_ms, overlap_ok),
        State::RunWaitForSendingNextCommand => spec_step_run_wait_for_sending_next_command(v, now_ms, overlap_ok),
        State::RunSentSetPointAck => spec_step_run_sent_set_point_ack(v, now_ms, overlap_ok),
        State::RunSentSetPointNack => spec_step_run_sent_set_point_nack(v, now_ms, overlap_ok),
        State::RunExecuting => spec_step_run_executing(v, now_ms, overlap_ok),
        State::HomingIdle => spec_step_homing_idle(v, now_ms, overlap_ok),
        State::HomingSendingHomeCommand => spec_step_homing_sending_home_command(v, now_ms, overlap_ok),
        State::HomingWaitForFinish => spec_step_homing_wait_for_finish(v, now_ms, overlap_ok),
        State::HomingWaitForModeChange => spec_step_homing_wait_for_mode_change(v, now_ms, overlap_ok),
        State::QuickStopWaiting => spec_step_quick_stop_waiting(v, now_ms, overlap_ok),
        State::QuickStopReached => spec_step_quick_stop_reached(v, now_ms, overlap_ok),
        State::ErrorAny => spec_step_error_any(v, now_ms, overlap_ok),
        State::ErrorEncoder => spec_step_error_encoder(v, now_ms, overlap_ok),
        State::ErrorGeneric => spec_step_error_generic(v, now_ms, overlap_ok),
    }
}

/// Rank on the CiA 402 enable ladder: not ready to switch on (0), switch-on
/// disabled (1), ready to switch on (2), switched on (3), operation enabled
/// (4); off the ladder -1.
pub open spec fn spec_ladder_rank(s: State) -> int {
    match s {
        State::PreOpNotRdyToSwitchOn => 0,
        State::PreOpSwitchOnDisabled => 1,
        State::PreOpReadyToSwitchOn => 2,
        State::Ready => 3,
        State::RunIdle => 4,
        _ => -1,
    }
}

/// Where a drive on the enable ladder goes on control word `cw` by the
/// CiA 402 device control commands that climb it: "not ready to switch on"
/// is left by the drive itself; "shutdown" (bits 7, 2, 1, 0 = 0110) takes
/// switch-on disabled to ready to switch on; "switch on" (bits 7, 3, 2, 1,
/// 0 = 00111) takes ready to switch on to switched on; "enable operation"
/// (01111) takes ready to switch on or switched on to operation enabled.
/// Any other command climbs no rung.
pub open spec fn spec_cia402_climb(s: State, cw: u16) -> State {
    match s {
        State::PreOpNotRdyToSwitchOn => State::PreOpSwitchOnDisabled,
        State::PreOpSwitchOnDisabled => if cw & 0x87 == 0x06 { State::PreOpReadyToSwitchOn } else { s },
        State::PreOpReadyToSwitchOn => if cw & 0x8F == 0x0F {
            State::RunIdle
        } else if cw & 0x8F == 0x07 {
            State::Ready
        } else {
            s
        },
        State::Ready => if cw & 0x8F == 0x0F { State::RunIdle } else { s },
        _ => s,
    }
}

/// The enable command sent from each rung below operation enabled is the
/// CiA 402 command that takes the drive exactly one rung up, in the current
/// mode; off the ladder, and once operation is enabled, nothing is sent.
pub proof fn lemma_enable_climbs_one_rung(v: MinasView)
    ensures
        0 <= spec_ladder_rank(v.state) < 4 ==> {
            let sent = spec_send_enable(v).rxpdo;
            &&& spec_ladder_rank(spec_cia402_climb(v.state, sent.control_word)) == spec_ladder_rank(v.state) + 1
            &&& sent.mode == v.current_motor_mode
        },
        !(0 <= spec_ladder_rank(v.state) < 4) ==> spec_send_enable(v) == v,
{
    reveal(spec_send_enable);
    assert(0x0006u16 & 0x87u16 == 0x06u16) by (bit_vector);
    assert(0x0007u16 & 0x8Fu16 == 0x07u16) by (bit_vector);
    assert(0x000Fu16 & 0x8Fu16 == 0x0Fu16) by (bit_vector);
}

/// Where a drive on the enable ladder goes on control word `cw` by the
/// CiA 402 device control commands that descend it: "disable voltage" (bit 1
/// clear) takes any rung from ready to switch on up to switch-on disabled;
/// "shutdown" (bits 7, 2, 1, 0 = 0110) takes switched on or operation
/// enabled to ready to switch on. Any other command descends no rung.
pub open spec fn spec_cia402_descend(s: State, cw: u16) -> State {
    if spec_ladder_rank(s) >= 2 && cw & 0x82 == 0x00 {
        State::PreOpSwitchOnDisabled
    } else if spec_ladder_rank(s) >= 3 && cw & 0x87 == 0x06 {
        State::PreOpReadyToSwitchOn
    } else {
        s
    }
}

/// The disable command sent from ready to switch on or switched on is the
/// CiA 402 command that takes the drive exactly one rung down, in the
/// current mode; from operation enabled it goes to ready to switch on.
pub proof fn lemma_disable_descends(v: MinasView)
    ensures
        ({
            let sent = spec_send_disable(v).rxpdo;
            let to = spec_cia402_descend(v.state, sent.control_word);
            &&& (v.state == State::PreOpReadyToSwitchOn || v.state == State::Ready)
                ==> spec_ladder_rank(to) == spec_ladder_rank(v.state) - 1
            &&& v.state == State::RunIdle ==> to == State::PreOpReadyToSwitchOn
            &&& sent.mode == v.current_motor_mode
        }),
{
    reveal(spec_send_disable);
    assert(0x0000u16 & 0x82u16 == 0x00u16) by (bit_vector);
    assert(0x0006u16 & 0x82u16 != 0x00u16) by (bit_vector);
    assert(0x0006u16 & 0x87u16 == 0x06u16) by (bit_vector);
}

/// A homing run that reports its error without the finished bit never
/// counts as homed: in the wait for the homing result, the error leaves
/// the drive unhomed and returns to profile position mode. More generally a
/// poll only ever sets `homed` when the status word shows homing finished.
#[verifier::rlimit(40)]
pub proof fn lemma_only_finished_homing_homes(v: MinasView, now_ms: u64, overlap_ok: bool)
    ensures
        spec_poll(v, now_ms, overlap_ok).homed ==> v.homed || sw_homing_finished(v.txpdo.status_word),
        v.state == State::HomingWaitForFinish && sw_homing_failed(v.txpdo.status_word)
            && !sw_homing_finished(v.txpdo.status_word) ==> {
            let w = spec_poll(v, now_ms, overlap_ok);
            &&& !w.homed
            &&& w.state == State::HomingWaitForModeChange
            &&& w.current_motor_mode == MotorMode::PP
        },
{
    reveal(spec_send_enable);
    reveal(spec_send_disable);
    reveal(spec_check_fault);
    reveal(spec_classify);
    reveal(spec_keepalive);
    reveal(spec_send_motion);
    reveal(spec_set_point_ack);
    reveal(spec_set_point_nack);
    reveal(spec_finish_homing);
    reveal(spec_granted);
}

/// A process data image of the wrong size for the drive.
#[derive(Debug, Clone, Copy, PartialEq, Eq, Structural)]
pub enum MinasPdoError {
    LengthMismatch { actual_bytes: usize, expected_bytes: usize },
}

/// A MINAS A6B servo drive in profile position mode.
#[derive(Debug)]
pub struct MinasA6BMotor {
    pub is_used: bool,
    pub tx_bit_offset: usize,
    pub rx_bit_offset: usize,
    pub txpdo: MinasA6BTxPdo,
    pub rxpdo: MinasA6BRxPdo,
    pub state: State,
    pub encoder_resolution: Option<EncoderResolution>,
    /// Motion commands waiting to be sent, oldest first.
    pub motion_out_deque: VecDeque<MinasA6BRxPdo>,
    pub motion_transition: Option<PositionTransitionSpec>,
    pub current_motion_command: Option<MinasA6BRxPdo>,
    pub previous_motion_command: Option<MinasA6BRxPdo>,
    /// When the drive came close enough to the previous target to start the delay.
    pub movement_delay: Option<u64>,
    pub current_motor_mode: u8,
    pub single_enable_flag: bool,
    pub single_disable_flag: bool,
    pub last_fault_reset_toggle: Option<u64>,
    pub mode_change_issued: Option<u64>,
    pub homing_issued: Option<u64>,
    pub needs_homing: bool,
    pub homing_direction: HomingDirection,
    pub initialized: bool,
    pub homed: bool,
}

impl View for MinasA6BMotor {
    type V = MinasView;

    open spec fn view(&self) -> MinasView {
        MinasView {
            txpdo: self.txpdo,
            rxpdo: self.rxpdo,
            state: self.state,
            encoder_resolution: self.encoder_resolution,
            queue: self.motion_out_deque@,
            motion_transition: self.motion_transition,
            current_motion_command: self.current_motion_command,
            previous_motion_command: self.previous_motion_command,
            movement_delay: self.movement_delay,
            current_motor_mode: self.current_motor_mode,
            single_enable_flag: self.single_enable_flag,
            single_disable_flag: self.single_disable_flag,
            last_fault_reset_toggle: self.last_fault_reset_toggle,
            mode_change_issued: self.mode_change_issued,
            homing_issued: self.homing_issued,
            needs_homing: self.needs_homing,
            homed: self.homed,
            is_used: self.is_used,
            tx_bit_offset: self.tx_bit_offset,
            rx_bit_offset: self.rx_bit_offset,
            homing_direction: self.homing_direction,
            initialized: self.initialized,
        }
    }
}

/// A fresh drive: unknown state, profile position mode, nothing queued.
pub open spec fn spec_new_motor() -> MinasView {
    MinasView {
        txpdo: MinasA6BTxPdo { status_word: 0, mode_display: 0, error_code: 0, position_actual: 0 },
        rxpdo: spec_cmd(0, 0),
        state: State::Unknown,
        encoder_resolution: None,
        queue: Seq::empty(),
        motion_transition: None,
        current_motion_command: None,
        previous_motion_command: None,
        movement_delay: None,
        current_motor_mode: MotorMode::PP,
        single_enable_flag: false,
        single_disable_flag: false,
        last_fault_reset_toggle: None,
        mode_change_issued: None,
        homing_issued: None,
        needs_homing: false,
        homed: false,
        is_used: false,
        tx_bit_offset: 0,
        rx_bit_offset: 0,
        homing_direction: HomingDirection::Ccw,
        initialized: false,
    }
}

impl MinasA6BMotor {
    /// A fresh drive.
    pub fn new() -> (r: Self)
        ensures
            r@ == spec_new_motor(),
    {
        let r = MinasA6BMotor {
            is_used: false,
            tx_bit_offset: 0,
            rx_bit_offset: 0,
            txpdo: MinasA6BTxPdo { status_word: 0, mode_display: 0, error_code: 0, position_actual: 0 },
            rxpdo: cmd(0, 0),
            state: State::Unknown,
            encoder_resolution: None,
            motion_out_deque: VecDeque::new(),
            motion_transition: None,
            current_motion_command: None,
            previous_motion_command: None,
            movement_delay: None,
            current_motor_mode: MotorMode::PP,
            single_enable_flag: false,
            single_disable_flag: false,
            last_fault_reset_toggle: None,
            mode_change_issued: None,
            homing_issued: None,
            needs_homing: false,
            homing_direction: HomingDirection::Ccw,
            initialized: false,
            homed: false,
        };
        assert(r@ =~= spec_new_motor());
        r
    }

    fn send_matching_enable_command(&mut self)
        ensures
            final(self)@ == spec_send_enable(old(self)@),
    {
        proof {
            reveal(spec_send_enable);
        }
        let cw = match self.state {
            State::PreOpSwitchOnDisabled | State::PreOpNotRdyToSwitchOn => Reg::CONTROL_WORD_READY_TO_SWITCH_ON,
            State::PreOpReadyToSwitchOn => Reg::CONTROL_WORD_SWITCH_ON,
            State::Ready => Reg::CONTROL_WORD_ENABLE,
            _ => {
                return;
            },
        };
        self.rxpdo.control_word = cw;
        self.rxpdo.mode = self.current_motor_mode;
    }

    fn send_matching_disable_command(&mut self)
        ensures
            final(self)@ == spec_send_disable(old(self)@),
    {
        proof {
            reveal(spec_send_disable);
        }
        let cw = match self.state {
            State::Ready => Reg::CONTROL_WORD_READY_TO_SWITCH_ON,
            State::PreOpReadyToSwitchOn => Reg::CONTROL_WORD_DISABLE,
            _ => Reg::CONTROL_WORD_READY_TO_SWITCH_ON,
        };
        self.rxpdo.control_word = cw;
        self.rxpdo.mode = self.current_motor_mode;
    }

    fn check_fault(&mut self)
        ensures
            final(self)@ == spec_check_fault(old(self)@),
            final(self)@ == (MinasView { state: final(self).state, ..old(self)@ }),
    {
        proof {
            reveal(spec_check_fault);
        }
        if self.last_fault_reset_toggle.is_none() && self.txpdo.status_word & 0x4F == 0x08
            && self.state != State::ErrorAny {
            self.state = State::ErrorAny;
        }
    }

    fn classify_state(&mut self)
        ensures
            final(self)@ == spec_classify(old(self)@),
    {
        proof {
            reveal(spec_classify);
        }
        let sw = self.txpdo.status_word;
        if sw & 0x4F == 0x08 {
            self.state = State::ErrorAny;
        } else if sw & 0x4F == 0x00 {
            self.state = State::PreOpNotRdyToSwitchOn;
        } else if sw & 0x4F == 0x40 {
            self.state = State::PreOpSwitchOnDisabled;
        } else if sw & 0x6F == 0x21 {
            self.state = State::PreOpReadyToSwitchOn;
        } else if sw & 0x6F == 0x23 {
            self.state = State::Ready;
        } else if sw & 0x6F == 0x27 {
            self.state = State::RunIdle;
        }
    }

    fn write_keepalive_pdo(&mut self)
        ensures
            final(self)@ == spec_keepalive(old(self)@),
    {
        proof {
            reveal(spec_keepalive);
        }
        self.rxpdo = cmd(Reg::CONTROL_WORD_ENABLE, self.current_motor_mode);
    }

    fn send_motion_command(&mut self)
        ensures
            final(self)@ == spec_send_motion(old(self)@),
    {
        proof {
            reveal(spec_send_motion);
        }
        self.previous_motion_command = self.current_motion_command.take();
        if let Some(c) = self.motion_out_deque.pop_front() {
            self.rxpdo = c;
            self.current_motion_command = Some(c);
            assert(self.motion_out_deque@ =~= old(self).motion_out_deque@.drop_first());
        }
    }

    fn make_set_point_ack(&mut self)
        ensures
            final(self)@ == spec_set_point_ack(old(self)@),
    {
        proof {
            reveal(spec_set_point_ack);
        }
        match self.current_motion_command {
            Some(c) => {
                self.rxpdo = MinasA6BRxPdo { control_word: c.control_word | 0x0010, ..c };
            },
            None => {},
        }
    }

    fn make_set_point_nack(&mut self)
        ensures
            final(self)@ == spec_set_point_nack(old(self)@),
    {
        proof {
            reveal(spec_set_point_nack);
        }
        self.rxpdo = cmd(Reg::CONTROL_WORD_ENABLE, self.current_motor_mode);
    }

    fn finish_homing(&mut self, now_ms: u64)
        ensures
            final(self)@ == spec_finish_homing(old(self)@, now_ms),
    {
        proof {
            reveal(spec_finish_homing);
        }
        self.homing_issued = None;
        self.current_motor_mode = MotorMode::PP;
        self.mode_change_issued = Some(now_ms);
        self.write_keepalive_pdo();
        self.state = State::HomingWaitForModeChange;
    }

    fn sending_next_command_granted(&mut self, now_ms: u64, overlap_ok: bool) -> (r: bool)
        ensures
            (r, final(self)@) == spec_granted(old(self)@, now_ms, overlap_ok),
    {
        proof {
            reveal(spec_granted);
        }
        let prev = match self.previous_motion_command {
            Some(p) => p,
            None => {
                return true;
            },
        };
        let t = match self.motion_transition {
            Some(t) => t,
            None => {
                return self.txpdo.status_word & 0x0400 != 0;
            },
        };
        if t.overlap {
            return overlap_ok;
        }
        match self.movement_delay {
            Some(_) => elapsed_at_least(self.movement_delay, t.delay_ms, now_ms),
            None => {
                let a = self.txpdo.position_actual as i64;
                let b = prev.target_position as i64;
                let d = if a >= b { a - b } else { b - a };
                if d <= 1000 {
                    self.movement_delay = Some(now_ms);
                }
                false
            },
        }
    }

    /// The step in the unknown state and on the enable ladder.
    fn poll_ladder(&mut self, now_ms: u64, overlap_ok: bool)
        requires
            old(self).state == State::Unknown || old(self).state == State::ErrorResetToggled || old(self).state == State::PreOpNotRdyToSwitchOn || old(self).state == State::PreOpSwitchOnDisabled || old(self).state == State::PreOpReadyToSwitchOn || old(self).state == State::Ready,
        ensures
            final(self)@ == spec_poll(old(self)@, now_ms, overlap_ok),
    {
        let sw = self.txpdo.status_word;
        match self.state {
            State::Unknown | State::ErrorResetToggled => {
                self.classify_state();
            },
            State::PreOpNotRdyToSwitchOn => {
                if self.single_enable_flag {
                    self.send_matching_enable_command();
                }
                if sw & 0x4F == 0x40 {
                    self.state = State::PreOpSwitchOnDisabled;
                }
            },
            State::PreOpSwitchOnDisabled => {
                self.single_disable_flag = false;
                if self.single_enable_flag {
                    self.send_matching_enable_command();
                }
                if sw & 0x6F == 0x21 {
                    self.state = State::PreOpReadyToSwitchOn;
                }
            },
            State::PreOpReadyToSwitchOn => {
                if self.single_enable_flag {
                    self.send_matching_enable_command();
                }
                if self.single_disable_flag {
                    self.send_matching_disable_command();
                }
                if sw & 0x6F == 0x23 {
                    self.state = State::Ready;
                } else if sw & 0x4F == 0x40 {
                    self.state = State::PreOpSwitchOnDisabled;
                }
            },
            State::Ready => {
                if self.single_enable_flag {
                    self.send_matching_enable_command();
                }
                if self.single_disable_flag {
                    self.send_matching_disable_command();
                }
                if sw & 0x6F == 0x27 {
                    self.single_enable_flag = false;
                    self.state = State::RunIdle;
                } else if sw & 0x6F == 0x21 {
                    self.state = State::PreOpReadyToSwitchOn;
                }
            },
            _ => {},
        }
    }

    /// The step when enabled without a command in progress.
    fn poll_run_idle(&mut self, now_ms: u64, overlap_ok: bool)
        requires
            old(self).state == State::RunIdle,
        ensures
            final(self)@ == spec_step_run_idle(old(self)@, now_ms, overlap_ok),
    {
        self.single_enable_flag = false;
        self.check_fault();
        if self.needs_homing {
            self.enter_homing(now_ms);
        } else {
            self.run_idle_rest();
        }
    }

    /// Switches to homing mode and waits for the drive to show it.
    fn enter_homing(&mut self, now_ms: u64)
        ensures
            final(self)@ == (MinasView {
                state: State::HomingIdle,
                ..spec_keepalive(MinasView {
                    current_motor_mode: MotorMode::HOMING,
                    mode_change_issued: Some(now_ms),
                    ..old(self)@
                })
            }),
    {
        self.current_motor_mode = MotorMode::HOMING;
        self.mode_change_issued = Some(now_ms);
        self.write_keepalive_pdo();
        self.state = State::HomingIdle;
    }

    /// The rest of the enabled idle step, when no homing is pending.
    fn run_idle_rest(&mut self)
        ensures
            final(self)@ == ({
                let v1 = old(self)@;
                let v2 = if v1.single_disable_flag { spec_send_disable(v1) } else { v1 };
                if sw_ready(v1.txpdo.status_word) {
                    MinasView { state: State::Ready, ..v2 }
                } else if v2.queue.len() > 0 {
                    MinasView { state: State::RunSentMotionCommand, ..spec_send_motion(v2) }
                } else {
                    v2
                }
            }),
    {
        let sw = self.txpdo.status_word;
        if self.single_disable_flag {
            self.send_matching_disable_command();
        }
        if sw & 0x6F == 0x23 {
            self.state = State::Ready;
            return;
        }
        if self.motion_out_deque.len() > 0 {
            self.send_motion_command();
            self.state = State::RunSentMotionCommand;
        }
    }

    /// The step while waiting to send the next command.
    fn poll_run_wait(&mut self, now_ms: u64, overlap_ok: bool)
        requires
            old(self).state == State::RunWaitForSendingNextCommand,
        ensures
            final(self)@ == spec_poll(old(self)@, now_ms, overlap_ok),
    {
        let sw = self.txpdo.status_word;
        match self.state {
            State::RunWaitForSendingNextCommand => {
                self.single_enable_flag = false;
                self.check_fault();
                if self.sending_next_command_granted(now_ms, overlap_ok) {
                    self.make_set_point_ack();
                    self.movement_delay = None;
                    self.state = State::RunSentSetPointAck;
                }
            },
            _ => {},
        }
    }

    /// The step while a command executes.
    fn poll_run_executing(&mut self, now_ms: u64, overlap_ok: bool)
        requires
            old(self).state == State::RunExecuting,
        ensures
            final(self)@ == spec_poll(old(self)@, now_ms, overlap_ok),
    {
        let sw = self.txpdo.status_word;
        match self.state {
            State::RunExecuting => {
                self.single_enable_flag = false;
                self.check_fault();
                if sw & 0x0400 != 0 && self.motion_out_deque.len() == 0 {
                    self.previous_motion_command = None;
                    self.current_motion_command = None;
                    self.motion_transition = None;
                    self.state = State::RunIdle;
                } else if self.motion_out_deque.len() > 0 {
                    self.send_motion_command();
                    self.state = State::RunSentMotionCommand;
                }
            },
            _ => {},
        }
    }

    /// The steps of the set-point handshake.
    fn poll_run_handshake(&mut self, now_ms: u64, overlap_ok: bool)
        requires
            old(self).state == State::RunSentMotionCommand || old(self).state == State::RunSentSetPointAck || old(self).state == State::RunSentSetPointNack,
        ensures
            final(self)@ == spec_poll(old(self)@, now_ms, overlap_ok),
    {
        let sw = self.txpdo.status_word;
        match self.state {
            State::RunSentMotionCommand => {
                self.single_enable_flag = false;
                self.check_fault();
                if self.previous_motion_command.is_none() {
                    self.make_set_point_ack();
                    self.movement_delay = None;
                    self.state = State::RunSentSetPointAck;
                } else {
                    self.state = State::RunWaitForSendingNextCommand;
                }
            },
            State::RunSentSetPointAck => {
                self.single_enable_flag = false;
                self.check_fault();
                self.make_set_point_nack();
                self.state = State::RunSentSetPointNack;
            },
            State::RunSentSetPointNack => {
                self.single_enable_flag = false;
                self.check_fault();
                if sw & 0x1000 == 0x0000 {
                    self.state = State::RunExecuting;
                }
            },
            _ => {},
        }
    }

    /// The step in the operation-enabled states.
    fn poll_run(&mut self, now_ms: u64, overlap_ok: bool)
        requires
            spec_is_run(old(self).state),
        ensures
            final(self)@ == spec_poll(old(self)@, now_ms, overlap_ok),
    {
        match self.state {
            State::RunIdle => self.poll_run_idle(now_ms, overlap_ok),
            State::RunWaitForSendingNextCommand => self.poll_run_wait(now_ms, overlap_ok),
            State::RunExecuting => self.poll_run_executing(now_ms, overlap_ok),
            _ => self.poll_run_handshake(now_ms, overlap_ok),
        }
    }

    /// The step while homing.
    fn poll_homing(&mut self, now_ms: u64, overlap_ok: bool)
        requires
            old(self).state == State::HomingIdle || old(self).state == State::HomingSendingHomeCommand || old(self).state == State::HomingWaitForFinish || old(self).state == State::HomingWaitForModeChange,
        ensures
            final(self)@ == spec_poll(old(self)@, now_ms, overlap_ok),
    {
        let sw = self.txpdo.status_word;
        match self.state {
            State::HomingIdle => {
                let mode_ok = self.txpdo.mode_display == MotorMode::HOMING;
                let settled = elapsed_at_least(self.mode_change_issued, 3, now_ms);
                if !mode_ok || !settled {
                    self.write_keepalive_pdo();
                } else {
                    self.rxpdo = cmd(Reg::CONTROL_WORD_ENABLE | 0x0010, MotorMode::HOMING);
                    self.homing_issued = Some(now_ms);
                    self.state = State::HomingSendingHomeCommand;
                }
            },
            State::HomingSendingHomeCommand => {
                if elapsed_at_least(self.homing_issued, 100, now_ms) {
                    self.rxpdo = cmd(Reg::CONTROL_WORD_ENABLE, MotorMode::HOMING);
                    self.state = State::HomingWaitForFinish;
                }
            },
            State::HomingWaitForFinish => {
                if sw & 0x1000 == 0x1000 {
                    self.homed = true;
                    self.finish_homing(now_ms);
                } else if sw & 0x2000 == 0x2000 {
                    self.homed = false;
                    self.finish_homing(now_ms);
                }
            },
            State::HomingWaitForModeChange => {
                let mode_ok = self.txpdo.mode_display == MotorMode::PP;
                if mode_ok && elapsed_at_least(self.mode_change_issued, 3, now_ms) {
                    self.needs_homing = false;
                    self.state = State::RunIdle;
                }
            },
            _ => {},
        }
    }

    /// The step in quick stop and in fault recovery.
    fn poll_stop_and_error(&mut self, now_ms: u64, overlap_ok: bool)
        requires
            old(self).state == State::QuickStopWaiting || old(self).state == State::QuickStopReached || old(self).state == State::ErrorAny || old(self).state == State::ErrorEncoder || old(self).state == State::ErrorGeneric,
        ensures
            final(self)@ == spec_poll(old(self)@, now_ms, overlap_ok),
    {
        let sw = self.txpdo.status_word;
        match self.state {
            State::QuickStopWaiting => {
                if sw & 0x6F == 0x07 {
                    self.state = State::QuickStopReached;
                }
            },
            State::QuickStopReached => {},
            State::ErrorAny => {
                if self.txpdo.error_code == ENCODER_ERROR_CODE {
                    self.state = State::ErrorEncoder;
                } else {
                    self.rxpdo = cmd(Reg::CW_FAULT_RESET, self.current_motor_mode);
                    if self.last_fault_reset_toggle.is_none() {
                        self.last_fault_reset_toggle = Some(now_ms);
                    }
                    self.state = State::ErrorGeneric;
                }
            },
            State::ErrorEncoder => {},
            State::ErrorGeneric => {
                if self.last_fault_reset_toggle.is_none() {
                    self.last_fault_reset_toggle = Some(now_ms);
                }
                if elapsed_at_least(self.last_fault_reset_toggle, 300, now_ms) {
                    self.rxpdo = cmd(Reg::CONTROL_WORD_DISABLE, self.current_motor_mode);
                    self.last_fault_reset_toggle = None;
                    self.state = State::ErrorResetToggled;
                }
            },
            _ => {},
        }
    }

    /// Advances the state machine by one step from the latest input data, as
    /// [`spec_poll`] says. `overlap_ok` answers, for an overlapping
    /// transition, whether the remaining motion time of the previous command
    /// is within the transition's delay.
    pub fn poll(&mut self, now_ms: u64, overlap_ok: bool)
        ensures
            final(self)@ == spec_poll(old(self)@, now_ms, overlap_ok),
    {
        match self.state {
            State::Unknown | State::ErrorResetToggled | State::PreOpNotRdyToSwitchOn
            | State::PreOpSwitchOnDisabled | State::PreOpReadyToSwitchOn | State::Ready => {
                self.poll_ladder(now_ms, overlap_ok);
            },
            State::RunIdle | State::RunSentMotionCommand | State::RunWaitForSendingNextCommand
            | State::RunSentSetPointAck | State::RunSentSetPointNack | State::RunExecuting => {
                self.poll_run(now_ms, overlap_ok);
            },
            State::HomingIdle | State::HomingSendingHomeCommand | State::HomingWaitForFinish
            | State::HomingWaitForModeChange => {
                self.poll_homing(now_ms, overlap_ok);
            },
            _ => {
                self.poll_stop_and_error(now_ms, overlap_ok);
            },
        }
    }

    /// Whether the drive is operation-enabled.
    pub fn is_enabled(&self) -> (r: bool)
        ensures
            r == spec_is_run(self.state),
    {
        self.state.is_run()
    }

    /// Whether the last homing run finished successfully.
    pub fn is_homed(&self) -> (r: bool)
        ensures
            r == self.homed,
    {
        self.homed
    }

    /// Whether the drive is enabled with no motion in progress.
    pub fn is_motion_done(&self) -> (r: bool)
        ensures
            r == (self.state == State::RunIdle),
    {
        self.state == State::RunIdle
    }

    /// Whether the drive is switched off (switch-on disabled).
    pub fn is_shut_down(&self) -> (r: bool)
        ensures
            r == (self.state == State::PreOpSwitchOnDisabled),
    {
        self.state == State::PreOpSwitchOnDisabled
    }

    /// Whether the drive is in fault recovery.
    pub fn has_error(&self) -> (r: bool)
        ensures
            r == spec_is_error(self.state),
    {
        self.state.is_error()
    }

    /// The actual position in encoder increments, once the encoder resolution
    /// is known.
    pub fn get_position_increments(&self) -> (r: Option<i32>)
        ensures
            r == (if self.encoder_resolution is Some { Some(self.txpdo.position_actual) } else { None::<i32> }),
    {
        match self.encoder_resolution {
            Some(_) => Some(self.txpdo.position_actual),
            None => None,
        }
    }

    /// Asks the drive up the enable ladder: the first call sends the next
    /// command at once, later calls step the state machine.
    pub fn enable(&mut self, now_ms: u64, overlap_ok: bool)
        ensures
            old(self).single_enable_flag ==> final(self)@ == spec_poll(old(self)@, now_ms, overlap_ok),
            !old(self).single_enable_flag ==> final(self)@ == spec_send_enable(
                MinasView { single_enable_flag: true, ..old(self)@ },
            ),
    {
        if self.single_enable_flag {
            self.poll(now_ms, overlap_ok);
        } else {
            self.single_enable_flag = true;
            self.send_matching_enable_command();
        }
    }

    /// Asks the drive down the ladder: the first call sends the next command
    /// at once, later calls step the state machine.
    pub fn disable(&mut self, now_ms: u64, overlap_ok: bool)
        ensures
            old(self).single_disable_flag ==> final(self)@ == spec_poll(old(self)@, now_ms, overlap_ok),
            !old(self).single_disable_flag ==> final(self)@ == spec_send_disable(
                MinasView { single_disable_flag: true, ..old(self)@ },
            ),
    {
        if self.single_disable_flag {
            self.poll(now_ms, overlap_ok);
        } else {
            self.single_disable_flag = true;
            self.send_matching_disable_command();
        }
    }

    /// Switches the drive off: the same as [`MinasA6BMotor::disable`].
    pub fn shut_down(&mut self, now_ms: u64, overlap_ok: bool)
        ensures
            old(self).single_disable_flag ==> final(self)@ == spec_poll(old(self)@, now_ms, overlap_ok),
            !old(self).single_disable_flag ==> final(self)@ == spec_send_disable(
                MinasView { single_disable_flag: true, ..old(self)@ },
            ),
    {
        self.disable(now_ms, overlap_ok);
    }

    /// Stops an enabled drive with a quick stop; otherwise nothing.
    pub fn quick_stop(&mut self)
        ensures
            spec_is_run(old(self).state) ==> final(self)@ == (MinasView {
                rxpdo: spec_cmd(Reg::CW_QUICK_STOP, old(self).current_motor_mode),
                state: State::QuickStopWaiting,
                ..old(self)@
            }),
            !spec_is_run(old(self).state) ==> final(self)@ == old(self)@,
    {
        if self.state.is_run() {
            self.rxpdo = cmd(Reg::CW_QUICK_STOP, self.current_motor_mode);
            self.state = State::QuickStopWaiting;
        }
    }

    /// Leaves a reached quick stop: the drive is told to enable again, and
    /// the state returns to enabled idle once the drive shows it runs.
    pub fn leave_quick_stop(&mut self)
        ensures
            old(self).state != State::QuickStopReached ==> final(self)@ == old(self)@,
            old(self).state == State::QuickStopReached ==> final(self)@ == (MinasView {
                rxpdo: spec_cmd(0b1111, old(self).current_motor_mode),
                state: if sw_run(old(self).txpdo.status_word) { State::RunIdle } else { State::QuickStopReached },
                ..old(self)@
            }),
    {
        if self.state != State::QuickStopReached {
            return;
        }
        self.rxpdo = cmd(0b1111, self.current_motor_mode);
        if self.txpdo.status_word & 0x6F == 0x27 {
            self.state = State::RunIdle;
        }
    }

    /// Queues a motion command (see [`motion_command`]) with its transition;
    /// nothing before the encoder resolution is known.
    pub fn move_position(&mut self, command: MinasA6BRxPdo, transition: Option<PositionTransitionSpec>)
        ensures
            old(self).encoder_resolution is None ==> final(self)@ == old(self)@,
            old(self).encoder_resolution is Some ==> final(self)@ == (MinasView {
                queue: old(self)@.queue.push(command),
                motion_transition: transition,
                ..old(self)@
            }),
    {
        if self.encoder_resolution.is_none() {
            return;
        }
        self.motion_out_deque.push_back(command);
        self.motion_transition = transition;
    }

    /// Queues motion commands in order, all with the same transition; nothing
    /// before the encoder resolution is known.
    pub fn move_positions(&mut self, commands: &[MinasA6BRxPdo], transition: Option<PositionTransitionSpec>)
        ensures
            old(self).encoder_resolution is None ==> final(self)@ == old(self)@,
            old(self).encoder_resolution is Some ==> final(self)@ == (MinasView {
                queue: old(self)@.queue + commands@,
                motion_transition: transition,
                ..old(self)@
            }),
    {
        if self.encoder_resolution.is_none() {
            return;
        }
        let mut i: usize = 0;
        while i < commands.len()
            invariant
                i <= commands.len(),
                self@ == (MinasView { queue: old(self)@.queue + commands@.subrange(0, i as int), ..old(self)@ }),
            decreases commands.len() - i,
        {
            self.motion_out_deque.push_back(commands[i]);
            i += 1;
            assert(self.motion_out_deque@ =~= old(self)@.queue + commands@.subrange(0, i as int));
        }
        assert(commands@.subrange(0, commands@.len() as int) =~= commands@);
        self.motion_transition = transition;
    }

    /// Drops every queued and ongoing command and queues `stop`, a command to
    /// the current position; nothing before the encoder resolution is known.
    pub fn abort_motion(&mut self, stop: MinasA6BRxPdo)
        ensures
            old(self).encoder_resolution is None ==> final(self)@ == old(self)@,
            old(self).encoder_resolution is Some ==> final(self)@ == (MinasView {
                queue: seq![stop],
                motion_transition: None,
                previous_motion_command: None,
                current_motion_command: None,
                ..old(self)@
            }),
    {
        if self.encoder_resolution.is_none() {
            return;
        }
        self.motion_out_deque.clear();
        self.move_position(stop, None);
        self.previous_motion_command = None;
        self.current_motion_command = None;
        self.motion_transition = None;
        assert(self.motion_out_deque@ =~= seq![stop]);
    }

    /// Starts homing: from ready or enabled idle at once; while homing, the
    /// state machine steps; otherwise the drive is enabled first and homing
    /// is queued.
    pub fn home(&mut self, now_ms: u64, overlap_ok: bool)
        ensures
            old(self).homing_issued is Some ==> final(self)@ == spec_poll(old(self)@, now_ms, overlap_ok),
            old(self).homing_issued is None && (old(self).state == State::Ready || old(self).state == State::RunIdle)
                ==> final(self)@ == (MinasView {
                    state: State::HomingIdle,
                    ..spec_keepalive(MinasView {
                        current_motor_mode: MotorMode::HOMING,
                        mode_change_issued: Some(now_ms),
                        ..old(self)@
                    })
                }),
    {
        if self.homing_issued.is_some() {
            self.poll(now_ms, overlap_ok);
        } else if self.state == State::Ready || self.state == State::RunIdle {
            self.enter_homing(now_ms);
        } else {
            self.enable(now_ms, overlap_ok);
            self.needs_homing = true;
        }
    }

    /// After the encoder's multi-turn data was cleared: homing is required
    /// again, and a fault reset starts now.
    pub fn notify_encoder_reset_complete(&mut self, now_ms: u64)
        ensures
            final(self)@ == (MinasView {
                needs_homing: true,
                homed: false,
                rxpdo: spec_cmd(Reg::CW_FAULT_RESET, old(self).current_motor_mode),
                last_fault_reset_toggle: Some(now_ms),
                state: State::ErrorGeneric,
                ..old(self)@
            }),
    {
        self.needs_homing = true;
        self.homed = false;
        self.rxpdo = cmd(Reg::CW_FAULT_RESET, self.current_motor_mode);
        self.last_fault_reset_toggle = Some(now_ms);
        self.state = State::ErrorGeneric;
    }

    /// Arms the fault reset timer when the encoder reset starts, unless armed.
    pub fn start_encoder_multi_turn_reset(&mut self, now_ms: u64)
        ensures
            final(self)@ == (MinasView {
                last_fault_reset_toggle: if old(self).last_fault_reset_toggle is None {
                    Some(now_ms)
                } else {
                    old(self).last_fault_reset_toggle
                },
                ..old(self)@
            }),
    {
        if self.last_fault_reset_toggle.is_none() {
            self.last_fault_reset_toggle = Some(now_ms);
        }
    }

    /// Disarms the fault reset timer once the encoder reset is cleared.
    pub fn finish_encoder_multi_turn_reset(&mut self)
        ensures
            final(self)@ == (MinasView { last_fault_reset_toggle: None, ..old(self)@ }),
    {
        self.last_fault_reset_toggle = None;
    }

    /// Adopts the encoder resolution read from the drive.
    pub fn set_encoder_resolution(&mut self, resolution: EncoderResolution)
        ensures
            final(self)@ == (MinasView { encoder_resolution: Some(resolution), ..old(self)@ }),
    {
        self.encoder_resolution = Some(resolution);
    }

    /// Takes this cycle's input data, the nine bytes at the drive's input
    /// offset of the process image, and steps the state machine.
    pub fn input(&mut self, image: &[u8], now_ms: u64, overlap_ok: bool)
        requires
            old(self).tx_bit_offset + 72 <= image.len() * 8,
            spec_image_fits(image.len() as nat),
        ensures
            final(self)@ == spec_poll(
                MinasView {
                    txpdo: spec_txpdo_of_bytes(spec_image_bytes(image@, old(self).tx_bit_offset as int, 9)),
                    ..old(self)@
                },
                now_ms,
                overlap_ok,
            ),
    {
        self.txpdo = MinasA6BTxPdo::from_image(image, self.tx_bit_offset);
        self.poll(now_ms, overlap_ok);
    }

    /// Takes this cycle's input data after checking its size: anything but
    /// the nine bytes of the drive's inputs is refused and changes nothing.
    /// Such a slice holds the drive's inputs alone, so its input offset is
    /// then zero.
    pub fn input_checked(&mut self, bytes: &[u8], now_ms: u64, overlap_ok: bool) -> (r: Result<(), MinasPdoError>)
        requires
            bytes.len() == TX_PDO_BYTES ==> old(self).tx_bit_offset == 0,
        ensures
            bytes.len() == TX_PDO_BYTES ==> r is Ok && final(self)@ == spec_poll(
                MinasView { txpdo: spec_txpdo_of_bytes(bytes@), ..old(self)@ },
                now_ms,
                overlap_ok,
            ),
            bytes.len() != TX_PDO_BYTES ==> r == Err::<(), MinasPdoError>(
                MinasPdoError::LengthMismatch { actual_bytes: bytes.len(), expected_bytes: TX_PDO_BYTES },
            ) && final(self)@ == old(self)@,
    {
        if bytes.len() != TX_PDO_BYTES {
            return Err(MinasPdoError::LengthMismatch { actual_bytes: bytes.len(), expected_bytes: TX_PDO_BYTES });
        }
        let b: [u8; 9] = [bytes[0], bytes[1], bytes[2], bytes[3], bytes[4], bytes[5], bytes[6], bytes[7], bytes[8]];
        assert(b@ =~= bytes@);
        self.txpdo = MinasA6BTxPdo::from_bytes(&b);
        self.poll(now_ms, overlap_ok);
        Ok(())
    }

    /// Writes this cycle's output data after checking the image's size:
    /// anything but nineteen bytes is refused and left as it is. Such a
    /// slice holds the drive's outputs alone, so its output offset is then
    /// zero.
    pub fn output_checked(&self, out: &mut [u8]) -> (r: Result<(), MinasPdoError>)
        requires
            old(out).len() == RX_PDO_BYTES ==> self.rx_bit_offset == 0,
        ensures
            old(out).len() == RX_PDO_BYTES ==> r is Ok && final(out)@ == spec_rxpdo_bytes(self.rxpdo),
            old(out).len() != RX_PDO_BYTES ==> r == Err::<(), MinasPdoError>(
                MinasPdoError::LengthMismatch { actual_bytes: old(out).len(), expected_bytes: RX_PDO_BYTES },
            ) && final(out)@ == old(out)@,
    {
        if out.len() != RX_PDO_BYTES {
            return Err(MinasPdoError::LengthMismatch { actual_bytes: out.len(), expected_bytes: RX_PDO_BYTES });
        }
        let bytes = self.rxpdo.to_bytes();
        let mut i: usize = 0;
        while i < RX_PDO_BYTES
            invariant
                i <= RX_PDO_BYTES,
                out.len() == RX_PDO_BYTES,
                bytes@ == spec_rxpdo_bytes(self.rxpdo),
                forall|k: int| 0 <= k < i ==> out@[k] == bytes@[k],
            decreases RX_PDO_BYTES - i,
        {
            out[i] = bytes[i];
            i += 1;
        }
        assert(out@ =~= bytes@);
        Ok(())
    }

    /// Writes this cycle's output data at the drive's output offset of the
    /// process image; the image's other bits keep their values.
    pub fn output(&self, image: &mut [u8])
        requires
            self.rx_bit_offset + 152 <= old(image).len() * 8,
            spec_image_fits(old(image).len() as nat),
        ensures
            final(image)@.len() == old(image)@.len(),
            spec_image_bytes(final(image)@, self.rx_bit_offset as int, 19) == spec_rxpdo_bytes(self.rxpdo),
            spec_same_outside(final(image)@, old(image)@, self.rx_bit_offset as int, 152),
    {
        self.rxpdo.to_image(image, self.rx_bit_offset);
    }
}

pub const MINAS_A6_VENDOR_ID: u32 = 0x66f;
pub const MINAS_A6_PRODUCT_ID_A: u32 = 0x613c0006;
pub const MINAS_A6_REVISION_A: u32 = 0x10000;

} // verus!
