//! Process data objects shared by several terminals, and the errors of their
//! channel accessors.
use vstd::prelude::*;

verus! {

/// A single boolean process data entry (one digital channel).
#[derive(Debug, Clone, Copy, PartialEq, Eq, Structural)]
pub struct BoolPdoObject {
    pub value: bool,
}

impl Default for BoolPdoObject {
    fn default() -> (r: Self)
        ensures
            r == (BoolPdoObject { value: false }),
    {
        BoolPdoObject { value: false }
    }
}

/// One RTD input channel: the raw temperature in tenths of a degree and the
/// status bits that travel with it.
#[derive(Debug, Clone, Copy, PartialEq, Eq, Structural)]
pub struct RtdInput {
    pub temperature: i16,
    pub undervoltage: bool,
    pub overvoltage: bool,
    pub limit1: u8,
    pub limit2: u8,
    pub error: bool,
    pub txpdo_state: bool,
    pub txpdo_toggle: bool,
}

/// The all-zero RTD channel.
pub open spec fn spec_default_rtd_input() -> RtdInput {
    RtdInput {
        temperature: 0,
        undervoltage: false,
        overvoltage: false,
        limit1: 0,
        limit2: 0,
        error: false,
        txpdo_state: false,
        txpdo_toggle: false,
    }
}

impl Default for RtdInput {
    fn default() -> (r: Self)
        ensures
            r == spec_default_rtd_input(),
    {
        RtdInput {
            temperature: 0,
            undervoltage: false,
            overvoltage: false,
            limit1: 0,
            limit2: 0,
            error: false,
            txpdo_state: false,
            txpdo_toggle: false,
        }
    }
}

/// One analog output channel: the raw 16-bit set value.
#[derive(Debug, Clone, Copy, PartialEq, Eq, Structural)]
pub struct AnalogOutput {
    pub value: i16,
}

impl Default for AnalogOutput {
    fn default() -> (r: Self)
        ensures
            r == (AnalogOutput { value: 0 }),
    {
        AnalogOutput { value: 0 }
    }
}

/// Errors of the channel accessors of the terminals.
#[derive(Debug, Clone, Copy, PartialEq, Eq, Structural)]
pub enum IoError {
    /// The port index is not below the terminal's port count.
    PortOutOfRange { port: usize, port_count: usize },
    /// The channel of this port is not mapped into the process data.
    ChannelNotMapped { port: usize },
}

/// A temperature reading of an RTD channel, with its status bits.
#[derive(Debug, Clone, Copy, PartialEq, Eq, Structural)]
pub struct TemperatureInputInput {
    /// Tenths of a degree Celsius.
    pub temperature: i16,
    pub undervoltage: bool,
    pub overvoltage: bool,
    pub limit1: u8,
    pub limit2: u8,
    pub error: bool,
    pub txpdo_state: bool,
    pub txpdo_toggle: bool,
}

/// The reading that an RTD channel reports.
pub open spec fn spec_temperature_input(c: RtdInput) -> TemperatureInputInput {
    TemperatureInputInput {
        temperature: c.temperature,
        undervoltage: c.undervoltage,
        overvoltage: c.overvoltage,
        limit1: c.limit1,
        limit2: c.limit2,
        error: c.error,
        txpdo_state: c.txpdo_state,
        txpdo_toggle: c.txpdo_toggle,
    }
}

/// Copies an RTD channel into a temperature reading.
pub fn temperature_input_of(c: &RtdInput) -> (r: TemperatureInputInput)
    ensures
        r == spec_temperature_input(*c),
{
    TemperatureInputInput {
        temperature: c.temperature,
        undervoltage: c.undervoltage,
        overvoltage: c.overvoltage,
        limit1: c.limit1,
        limit2: c.limit2,
        error: c.error,
        txpdo_state: c.txpdo_state,
        txpdo_toggle: c.txpdo_toggle,
    }
}

} // verus!
