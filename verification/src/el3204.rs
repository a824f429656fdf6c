//! The EL3204 four-channel RTD temperature input terminal.
use vstd::prelude::*;
use crate::pdo_objects::{IoError, RtdInput, TemperatureInputInput, spec_default_rtd_input, spec_temperature_input, temperature_input_of};

verus! {

/// Input process data of the EL3204: one RTD reading per channel.
#[derive(Debug, Clone, Copy, PartialEq, Eq, Structural)]
pub struct EL3204TxPdo {
    /// PDO `0x1A00`.
    pub channel1: Option<RtdInput>,
    /// PDO `0x1A01`.
    pub channel2: Option<RtdInput>,
    /// PDO `0x1A02`.
    pub channel3: Option<RtdInput>,
    /// PDO `0x1A03`.
    pub channel4: Option<RtdInput>,
}

impl EL3204TxPdo {
    /// The channels in port order.
    pub open spec fn spec_channels(self) -> Seq<Option<RtdInput>> {
        seq![self.channel1, self.channel2, self.channel3, self.channel4]
    }

    /// Every channel is mapped.
    pub open spec fn all_mapped(self) -> bool {
        forall|i: int| 0 <= i < 4 ==> (#[trigger] self.spec_channels()[i]) is Some
    }
}

impl Default for EL3204TxPdo {
    /// Every channel mapped, at its default value.
    fn default() -> (r: Self)
        ensures
            r.spec_channels() == Seq::new(4, |i: int| Some(spec_default_rtd_input())),
    {
        let r = EL3204TxPdo {
            channel1: Some(RtdInput::default()),
            channel2: Some(RtdInput::default()),
            channel3: Some(RtdInput::default()),
            channel4: Some(RtdInput::default()),
        };
        assert(r.spec_channels() =~= Seq::new(4, |i: int| Some(spec_default_rtd_input())));
        r
    }
}

/// Temperature inputs of the EL3204.
#[derive(Debug, Clone, Copy, PartialEq, Eq, Structural)]
pub enum EL3204Port {
    T1,
    T2,
    T3,
    T4,
}

impl EL3204Port {
    /// Byte offset of the port's reading in the input process data.
    pub fn to_byte_offset(&self) -> (r: usize)
        ensures
            r == 4 * match self {
                EL3204Port::T1 => 0int,
                EL3204Port::T2 => 1,
                EL3204Port::T3 => 2,
                EL3204Port::T4 => 3,
            },
    {
        match self {
            EL3204Port::T1 => 0,
            EL3204Port::T2 => 4,
            EL3204Port::T3 => 8,
            EL3204Port::T4 => 12,
        }
    }
}

/// EL3204 4-channel temperature input device, PT100 / Ni100 (RTD), 2 wire.
#[derive(Debug, Clone, Copy)]
pub struct EL3204 {
    pub txpdo: EL3204TxPdo,
    pub is_used: bool,
}

impl EL3204 {
    /// A fresh terminal: every channel mapped and zero, not yet claimed.
    pub fn new() -> (r: Self)
        ensures
            r.txpdo.spec_channels() == Seq::new(4, |i: int| Some(spec_default_rtd_input())),
            r.txpdo.all_mapped(),
            !r.is_used,
    {
        let txpdo = EL3204TxPdo::default();
        assert(txpdo.all_mapped()) by {
            assert forall|i: int| 0 <= i < 4 implies (#[trigger] txpdo.spec_channels()[i]) is Some by {}
        }
        EL3204 { txpdo, is_used: false }
    }

    /// Reads input `port`.
    pub fn get_input(&self, port: usize) -> (r: Result<TemperatureInputInput, IoError>)
        ensures
            port >= 4 ==> r == Err::<TemperatureInputInput, IoError>(IoError::PortOutOfRange { port, port_count: 4 }),
            port < 4 ==> match self.txpdo.spec_channels()[port as int] {
                Some(c) => r == Ok::<TemperatureInputInput, IoError>(spec_temperature_input(c)),
                None => r == Err::<TemperatureInputInput, IoError>(IoError::ChannelNotMapped { port }),
            },
    {
        let channel = match port {
            0 => &self.txpdo.channel1,
            1 => &self.txpdo.channel2,
            2 => &self.txpdo.channel3,
            3 => &self.txpdo.channel4,
            _ => { return Err(IoError::PortOutOfRange { port, port_count: 4 }); }
        };
        match channel {
            Some(c) => Ok(temperature_input_of(c)),
            None => Err(IoError::ChannelNotMapped { port }),
        }
    }

    /// Number of temperature inputs.
    pub fn get_port_count(&self) -> (r: usize)
        ensures
            r == 4,
    {
        4
    }
}

pub const EL3204_VENDOR_ID: u32 = 0x2;
pub const EL3204_PRODUCT_ID: u32 = 0xc843052;
pub const EL3204_REVISION_A: u32 = 0x160000;
pub const EL3204_REVISION_B: u32 = 0x150000;

} // verus!
