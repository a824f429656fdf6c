//! Process data objects of the EL7062 two-channel stepper terminal.
use vstd::prelude::*;
use crate::bits::{load_u16_le, load_u32_bits, spec_field, spec_image_fits, spec_same_outside, store_u16_le, store_u32_bits};

verus! {

/// Modes-of-operation value of cyclic synchronous position mode.
pub const CSP_MODE: u8 = 8;

/// CiA 402 control word (`0x7010:01` / `0x7110:01`).
#[derive(Debug, Clone, Copy, PartialEq, Eq, Structural, Default)]
pub struct DrvControlWord {
    pub control_word: u16,
}

/// Bits of the control word that the EL7062 interprets: switch on, enable
/// voltage, quick stop, enable operation and fault reset.
pub const CONTROL_WORD_BITS: u16 = 0x008F;

impl DrvControlWord {
    /// The control word that keeps only the bits the terminal interprets.
    pub fn from_raw(raw: u16) -> (r: Self)
        ensures
            r.control_word == raw & CONTROL_WORD_BITS,
    {
        Self { control_word: raw & CONTROL_WORD_BITS }
    }
}

/// CSP target position (`0x7010:05` / `0x7110:05`), in increments modulo `2^32`.
#[derive(Debug, Clone, Copy, PartialEq, Eq, Structural, Default)]
pub struct DrvTargetPosition {
    pub target_position: u32,
}

/// Modes of operation (`0x7010:03` / `0x7110:03`).
#[derive(Debug, Clone, Copy, PartialEq, Eq, Structural, Default)]
pub struct DrvModesOfOperation {
    pub mode: u8,
}

/// CiA 402 status word (`0x6010:01` / `0x6110:01`).
#[derive(Debug, Clone, Copy, PartialEq, Eq, Structural, Default)]
pub struct DrvStatusWord {
    pub status_word: u16,
}

/// Bits of the status word that the EL7062 documents: ready to switch on,
/// switched on, operation enabled, fault, switch on disabled, warning, TxPDO
/// toggle, internal limit, drive follows command and the input cycle counter.
pub const STATUS_WORD_BITS: u16 = 0x7CCF;

impl DrvStatusWord {
    /// The status word restricted to its documented bits.
    pub fn as_raw(&self) -> (r: u16)
        ensures
            r == self.status_word & STATUS_WORD_BITS,
    {
        self.status_word & STATUS_WORD_BITS
    }
}

/// Feedback position (`0x6000:11` / `0x6100:11`), raw increments modulo `2^32`.
#[derive(Debug, Clone, Copy, PartialEq, Eq, Structural, Default)]
pub struct FbPosition {
    pub position: u32,
}

/// DRV info data 1 (`0x6010:18` / `0x6110:18`), by default the DC link voltage in mV.
#[derive(Debug, Clone, Copy, PartialEq, Eq, Structural, Default)]
pub struct DrvInfoData {
    pub info_data: u16,
}

/// Modes of operation display (`0x6010:03` / `0x6110:03`).
#[derive(Debug, Clone, Copy, PartialEq, Eq, Structural, Default)]
pub struct DrvModeOfOperationDisplay {
    pub mode_display: u8,
}


impl DrvControlWord {
    /// Writes the interpreted bits (0..4 and 7) of the control word into the
    /// output image at bit `off`; every other bit keeps its value.
    pub fn write(&self, bytes: &mut [u8], off: usize)
        requires
            off + 16 <= old(bytes).len() * 8,
            spec_image_fits(old(bytes).len() as nat),
        ensures
            spec_field(final(bytes)@, off as int, 16)
                == ((spec_field(old(bytes)@, off as int, 16) as u16 & !CONTROL_WORD_BITS) | (self.control_word & CONTROL_WORD_BITS)) as nat,
            spec_same_outside(final(bytes)@, old(bytes)@, off as int, 16),
    {
        let current = load_u16_le(bytes, off);
        let word = (current & !CONTROL_WORD_BITS) | (self.control_word & CONTROL_WORD_BITS);
        store_u16_le(bytes, off, word);
    }
}

impl DrvTargetPosition {
    /// Writes the target position into 32 bits of the output image at `off`.
    pub fn write(&self, bytes: &mut [u8], off: usize)
        requires
            off + 32 <= old(bytes).len() * 8,
            spec_image_fits(old(bytes).len() as nat),
        ensures
            spec_field(final(bytes)@, off as int, 32) == self.target_position as nat,
            spec_same_outside(final(bytes)@, old(bytes)@, off as int, 32),
    {
        store_u32_bits(bytes, off, 32, self.target_position);
        proof {
            vstd::arithmetic::power2::lemma2_to64();
        }
    }
}

impl FbPosition {
    /// Reads the feedback position from 32 bits of the input image at `off`.
    pub fn read(&mut self, bytes: &[u8], off: usize)
        requires
            off + 32 <= bytes.len() * 8,
            spec_image_fits(bytes.len() as nat),
        ensures
            final(self).position as nat == spec_field(bytes@, off as int, 32),
    {
        self.position = load_u32_bits(bytes, off, 32);
    }
}

impl DrvStatusWord {
    /// Reads the status word from 16 bits of the input image at `off`,
    /// keeping the documented bits.
    pub fn read(&mut self, bytes: &[u8], off: usize)
        requires
            off + 16 <= bytes.len() * 8,
            spec_image_fits(bytes.len() as nat),
        ensures
            final(self).status_word == (spec_field(bytes@, off as int, 16) as u16) & STATUS_WORD_BITS,
    {
        let raw = load_u16_le(bytes, off);
        self.status_word = raw & STATUS_WORD_BITS;
    }
}

/// CiA 402 target velocity (`0x7010:06` / `0x7110:06`), in increments per second.
#[derive(Debug, Clone, Copy, PartialEq, Eq, Structural, Default)]
pub struct DrvTargetVelocity {
    pub target_velocity: i32,
}

impl DrvTargetVelocity {
    /// Writes the velocity as a 32-bit two's complement word at `off`.
    pub fn write(&self, bytes: &mut [u8], off: usize)
        requires
            off + 32 <= old(bytes).len() * 8,
            spec_image_fits(old(bytes).len() as nat),
        ensures
            spec_field(final(bytes)@, off as int, 32) == self.target_velocity as u32 as nat,
            spec_same_outside(final(bytes)@, old(bytes)@, off as int, 32),
    {
        store_u32_bits(bytes, off, 32, self.target_velocity as u32);
        proof {
            vstd::arithmetic::power2::lemma2_to64();
        }
    }
}

/// CiA 402 target torque (`0x7010:09` / `0x7110:09`), in thousandths of the nominal current.
#[derive(Debug, Clone, Copy, PartialEq, Eq, Structural, Default)]
pub struct DrvTargetTorque {
    pub target_torque: i16,
}

impl DrvTargetTorque {
    /// Writes the torque as a 16-bit two's complement word at `off`.
    pub fn write(&self, bytes: &mut [u8], off: usize)
        requires
            off + 16 <= old(bytes).len() * 8,
            spec_image_fits(old(bytes).len() as nat),
        ensures
            spec_field(final(bytes)@, off as int, 16) == self.target_torque as u16 as nat,
            spec_same_outside(final(bytes)@, old(bytes)@, off as int, 16),
    {
        store_u16_le(bytes, off, self.target_torque as u16);
    }
}

/// Commutation angle for CSTCA mode (`0x7010:0E` / `0x7110:0E`), in electrical degrees.
#[derive(Debug, Clone, Copy, PartialEq, Eq, Structural, Default)]
pub struct DrvCommutationAngle {
    pub commutation_angle: u16,
}

impl DrvCommutationAngle {
    /// Writes the angle as a 16-bit word at `off`.
    pub fn write(&self, bytes: &mut [u8], off: usize)
        requires
            off + 16 <= old(bytes).len() * 8,
            spec_image_fits(old(bytes).len() as nat),
        ensures
            spec_field(final(bytes)@, off as int, 16) == self.commutation_angle as nat,
            spec_same_outside(final(bytes)@, old(bytes)@, off as int, 16),
    {
        store_u16_le(bytes, off, self.commutation_angle);
    }
}

/// Following error actual value (`0x6010:06` / `0x6110:06`), in increments.
#[derive(Debug, Clone, Copy, PartialEq, Eq, Structural, Default)]
pub struct DrvFollowingError {
    pub following_error: i32,
}

impl DrvFollowingError {
    /// Reads the following error as a 32-bit two's complement word at `off`.
    pub fn read(&mut self, bytes: &[u8], off: usize)
        requires
            off + 32 <= bytes.len() * 8,
            spec_image_fits(bytes.len() as nat),
        ensures
            final(self).following_error == spec_field(bytes@, off as int, 32) as u32 as i32,
    {
        let raw = load_u32_bits(bytes, off, 32);
        self.following_error = raw as i32;
    }
}

/// Velocity actual value (`0x6010:07` / `0x6110:07`), in increments per second.
#[derive(Debug, Clone, Copy, PartialEq, Eq, Structural, Default)]
pub struct DrvVelocityActual {
    pub velocity_actual: i32,
}

impl DrvVelocityActual {
    /// Reads the actual velocity as a 32-bit two's complement word at `off`.
    pub fn read(&mut self, bytes: &[u8], off: usize)
        requires
            off + 32 <= bytes.len() * 8,
            spec_image_fits(bytes.len() as nat),
        ensures
            final(self).velocity_actual == spec_field(bytes@, off as int, 32) as u32 as i32,
    {
        let raw = load_u32_bits(bytes, off, 32);
        self.velocity_actual = raw as i32;
    }
}

/// Inputs of the EL7062; a `None` object is not mapped.
#[derive(Debug, Clone, Copy, PartialEq, Eq, Structural)]
pub struct EL7062TxPdo {
    pub fb_position_ch1: Option<FbPosition>,
    pub status_word_ch1: Option<DrvStatusWord>,
    pub info_data_ch1: Option<DrvInfoData>,
    pub mode_of_operation_display_ch1: Option<DrvModeOfOperationDisplay>,
    pub fb_position_ch2: Option<FbPosition>,
    pub status_word_ch2: Option<DrvStatusWord>,
    pub info_data_ch2: Option<DrvInfoData>,
    pub mode_of_operation_display_ch2: Option<DrvModeOfOperationDisplay>,
}

/// Outputs of the EL7062; a `None` object is not mapped.
#[derive(Debug, Clone, Copy, PartialEq, Eq, Structural)]
pub struct EL7062RxPdo {
    pub control_word_ch1: Option<DrvControlWord>,
    pub target_position_ch1: Option<DrvTargetPosition>,
    pub modes_of_operation_ch1: Option<DrvModesOfOperation>,
    pub control_word_ch2: Option<DrvControlWord>,
    pub target_position_ch2: Option<DrvTargetPosition>,
    pub modes_of_operation_ch2: Option<DrvModesOfOperation>,
}

/// Predefined PDO assignments of the EL7062; the default is CSP.
#[derive(Debug, Clone, Copy, PartialEq, Eq, Structural)]
pub enum EL7062PredefinedPdoAssignment {
    /// Cyclic synchronous position mode (CSP), mode of operation `8`.
    CyclicSynchronousPosition,
    /// Cyclic synchronous velocity mode (CSV), mode of operation `9`.
    CyclicSynchronousVelocity,
    /// Cyclic synchronous torque mode (CST), mode of operation `10`.
    CyclicSynchronousTorque,
    /// CST with commutation angle (CSTCA), mode of operation `11`.
    CyclicSynchronousTorqueWithCommutationAngle,
}

impl Default for EL7062PredefinedPdoAssignment {
    fn default() -> (r: Self)
        ensures
            r == EL7062PredefinedPdoAssignment::CyclicSynchronousPosition,
    {
        EL7062PredefinedPdoAssignment::CyclicSynchronousPosition
    }
}

/// Modes-of-operation value of a PDO assignment.
pub open spec fn spec_mode_of_operation(a: EL7062PredefinedPdoAssignment) -> u8 {
    match a {
        EL7062PredefinedPdoAssignment::CyclicSynchronousPosition => 8,
        EL7062PredefinedPdoAssignment::CyclicSynchronousVelocity => 9,
        EL7062PredefinedPdoAssignment::CyclicSynchronousTorque => 10,
        EL7062PredefinedPdoAssignment::CyclicSynchronousTorqueWithCommutationAngle => 11,
    }
}

/// Inputs mapped by a PDO assignment: position and status word on both
/// channels in every mode; nothing else is mapped.
pub open spec fn spec_txpdo_assignment(a: EL7062PredefinedPdoAssignment) -> EL7062TxPdo {
    EL7062TxPdo {
        fb_position_ch1: Some(FbPosition { position: 0 }),
        status_word_ch1: Some(DrvStatusWord { status_word: 0 }),
        info_data_ch1: None,
        mode_of_operation_display_ch1: None,
        fb_position_ch2: Some(FbPosition { position: 0 }),
        status_word_ch2: Some(DrvStatusWord { status_word: 0 }),
        info_data_ch2: None,
        mode_of_operation_display_ch2: None,
    }
}

/// Outputs mapped by a PDO assignment: the control word on both channels, and
/// the target position only in CSP.
pub open spec fn spec_rxpdo_assignment(a: EL7062PredefinedPdoAssignment) -> EL7062RxPdo {
    let target = if a == EL7062PredefinedPdoAssignment::CyclicSynchronousPosition {
        Some(DrvTargetPosition { target_position: 0 })
    } else {
        None
    };
    EL7062RxPdo {
        control_word_ch1: Some(DrvControlWord { control_word: 0 }),
        target_position_ch1: target,
        modes_of_operation_ch1: None,
        control_word_ch2: Some(DrvControlWord { control_word: 0 }),
        target_position_ch2: target,
        modes_of_operation_ch2: None,
    }
}

/// Input PDO objects assigned to sync manager 3 by a PDO assignment.
pub open spec fn spec_txpdo_indices(a: EL7062PredefinedPdoAssignment) -> Seq<u16> {
    if a == EL7062PredefinedPdoAssignment::CyclicSynchronousPosition {
        seq![0x1A00u16, 0x1A01u16, 0x1A06u16, 0x1A80u16, 0x1A81u16, 0x1A86u16]
    } else {
        seq![0x1A00u16, 0x1A01u16, 0x1A80u16, 0x1A81u16]
    }
}

/// Output PDO objects assigned to sync manager 2 by a PDO assignment.
pub open spec fn spec_rxpdo_indices(a: EL7062PredefinedPdoAssignment) -> Seq<u16> {
    match a {
        EL7062PredefinedPdoAssignment::CyclicSynchronousPosition => seq![
            0x1600u16,
            0x1606u16,
            0x1680u16,
            0x1686u16,
        ],
        EL7062PredefinedPdoAssignment::CyclicSynchronousVelocity => seq![
            0x1600u16,
            0x1601u16,
            0x1680u16,
            0x1681u16,
        ],
        EL7062PredefinedPdoAssignment::CyclicSynchronousTorque => seq![
            0x1600u16,
            0x1602u16,
            0x1680u16,
            0x1682u16,
        ],
        EL7062PredefinedPdoAssignment::CyclicSynchronousTorqueWithCommutationAngle => seq![
            0x1600u16,
            0x1602u16,
            0x1603u16,
            0x1680u16,
            0x1682u16,
            0x1683u16,
        ],
    }
}

impl EL7062PredefinedPdoAssignment {
    /// The value of `0x7010:03` / `0x7110:03` that belongs to this assignment.
    pub fn mode_of_operation(&self) -> (r: u8)
        ensures
            r == spec_mode_of_operation(*self),
    {
        match self {
            Self::CyclicSynchronousPosition => 8,
            Self::CyclicSynchronousVelocity => 9,
            Self::CyclicSynchronousTorque => 10,
            Self::CyclicSynchronousTorqueWithCommutationAngle => 11,
        }
    }

    /// The inputs this assignment maps.
    pub fn txpdo_assignment(&self) -> (r: EL7062TxPdo)
        ensures
            r == spec_txpdo_assignment(*self),
    {
        EL7062TxPdo {
            fb_position_ch1: Some(FbPosition { position: 0 }),
            status_word_ch1: Some(DrvStatusWord { status_word: 0 }),
            info_data_ch1: None,
            mode_of_operation_display_ch1: None,
            fb_position_ch2: Some(FbPosition { position: 0 }),
            status_word_ch2: Some(DrvStatusWord { status_word: 0 }),
            info_data_ch2: None,
            mode_of_operation_display_ch2: None,
        }
    }

    /// The outputs this assignment maps.
    pub fn rxpdo_assignment(&self) -> (r: EL7062RxPdo)
        ensures
            r == spec_rxpdo_assignment(*self),
    {
        let target = match self {
            Self::CyclicSynchronousPosition => Some(DrvTargetPosition { target_position: 0 }),
            _ => None,
        };
        EL7062RxPdo {
            control_word_ch1: Some(DrvControlWord { control_word: 0 }),
            target_position_ch1: target,
            modes_of_operation_ch1: None,
            control_word_ch2: Some(DrvControlWord { control_word: 0 }),
            target_position_ch2: target,
            modes_of_operation_ch2: None,
        }
    }

    /// Input PDO objects assigned to sync manager 3.
    pub fn txpdo_indices(&self) -> (r: Vec<u16>)
        ensures
            r@ == spec_txpdo_indices(*self),
    {
        match self {
            Self::CyclicSynchronousPosition => vec![0x1A00, 0x1A01, 0x1A06, 0x1A80, 0x1A81, 0x1A86],
            _ => vec![0x1A00, 0x1A01, 0x1A80, 0x1A81],
        }
    }

    /// Output PDO objects assigned to sync manager 2.
    pub fn rxpdo_indices(&self) -> (r: Vec<u16>)
        ensures
            r@ == spec_rxpdo_indices(*self),
    {
        match self {
            Self::CyclicSynchronousPosition => vec![0x1600, 0x1606, 0x1680, 0x1686],
            Self::CyclicSynchronousVelocity => vec![0x1600, 0x1601, 0x1680, 0x1681],
            Self::CyclicSynchronousTorque => vec![0x1600, 0x1602, 0x1680, 0x1682],
            Self::CyclicSynchronousTorqueWithCommutationAngle => vec![
                0x1600,
                0x1602,
                0x1603,
                0x1680,
                0x1682,
                0x1683,
            ],
        }
    }
}

} // verus!
