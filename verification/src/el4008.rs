//! The EL4008 eight-channel 0-10 V analog output terminal.
use vstd::prelude::*;
use crate::pdo_objects::AnalogOutput;

verus! {

/// Output process data of the EL4008: one analog set value per channel.
#[derive(Debug, Clone, Copy, PartialEq, Eq, Structural)]
pub struct EL4008RxPdo {
    /// PDO `0x1600`.
    pub channel1: Option<AnalogOutput>,
    /// PDO `0x1601`.
    pub channel2: Option<AnalogOutput>,
    /// PDO `0x1602`.
    pub channel3: Option<AnalogOutput>,
    /// PDO `0x1603`.
    pub channel4: Option<AnalogOutput>,
    /// PDO `0x1604`.
    pub channel5: Option<AnalogOutput>,
    /// PDO `0x1605`.
    pub channel6: Option<AnalogOutput>,
    /// PDO `0x1606`.
    pub channel7: Option<AnalogOutput>,
    /// PDO `0x1607`.
    pub channel8: Option<AnalogOutput>,
}

impl EL4008RxPdo {
    /// The channels in port order.
    pub open spec fn spec_channels(self) -> Seq<Option<AnalogOutput>> {
        seq![self.channel1, self.channel2, self.channel3, self.channel4, self.channel5, self.channel6, self.channel7, self.channel8]
    }

    /// Every channel is mapped.
    pub open spec fn all_mapped(self) -> bool {
        forall|i: int| 0 <= i < 8 ==> (#[trigger] self.spec_channels()[i]) is Some
    }
}

impl Default for EL4008RxPdo {
    /// Every channel mapped, at its default value.
    fn default() -> (r: Self)
        ensures
            r.spec_channels() == Seq::new(8, |i: int| Some(AnalogOutput { value: 0 })),
    {
        let r = EL4008RxPdo {
            channel1: Some(AnalogOutput { value: 0 }),
            channel2: Some(AnalogOutput { value: 0 }),
            channel3: Some(AnalogOutput { value: 0 }),
            channel4: Some(AnalogOutput { value: 0 }),
            channel5: Some(AnalogOutput { value: 0 }),
            channel6: Some(AnalogOutput { value: 0 }),
            channel7: Some(AnalogOutput { value: 0 }),
            channel8: Some(AnalogOutput { value: 0 }),
        };
        assert(r.spec_channels() =~= Seq::new(8, |i: int| Some(AnalogOutput { value: 0 })));
        r
    }
}

/// EL4008 8-channel analog output device, 12-bit resolution, 0-10 V, load above 5 kOhm.
#[derive(Debug, Clone, Copy)]
pub struct EL4008 {
    pub rxpdo: EL4008RxPdo,
    pub is_used: bool,
}

impl EL4008 {
    /// A fresh terminal: every channel mapped and at zero, not yet claimed.
    pub fn new() -> (r: Self)
        ensures
            r.rxpdo.spec_channels() == Seq::new(8, |i: int| Some(AnalogOutput { value: 0 })),
            r.rxpdo.all_mapped(),
            !r.is_used,
    {
        let rxpdo = EL4008RxPdo::default();
        assert(rxpdo.all_mapped()) by {
            assert forall|i: int| 0 <= i < 8 implies (#[trigger] rxpdo.spec_channels()[i]) is Some by {}
        }
        EL4008 { rxpdo, is_used: false }
    }

    /// Number of analog outputs.
    pub fn get_port_count(&self) -> (r: usize)
        ensures
            r == 8,
    {
        8
    }

    /// Lowest output voltage, in volts.
    pub fn get_minimum_output_volts(&self) -> (r: u32)
        ensures
            r == 0,
    {
        0
    }

    /// Highest output voltage, in volts.
    pub fn get_maximum_output_volts(&self) -> (r: u32)
        ensures
            r == 10,
    {
        10
    }

    /// Writes the raw set value of output `port`.
    pub fn set_output_raw(&mut self, port: usize, value: i16)
        requires
            old(self).rxpdo.all_mapped(),
            port < 8,
        ensures
            final(self).rxpdo.spec_channels()
                == old(self).rxpdo.spec_channels().update(port as int, Some(AnalogOutput { value })),
            final(self).rxpdo.all_mapped(),
            final(self).is_used == old(self).is_used,
    {
        match port {
            0 => { self.rxpdo.channel1 = Some(AnalogOutput { value }); }
            1 => { self.rxpdo.channel2 = Some(AnalogOutput { value }); }
            2 => { self.rxpdo.channel3 = Some(AnalogOutput { value }); }
            3 => { self.rxpdo.channel4 = Some(AnalogOutput { value }); }
            4 => { self.rxpdo.channel5 = Some(AnalogOutput { value }); }
            5 => { self.rxpdo.channel6 = Some(AnalogOutput { value }); }
            6 => { self.rxpdo.channel7 = Some(AnalogOutput { value }); }
            7 => { self.rxpdo.channel8 = Some(AnalogOutput { value }); }
            _ => {}
        }
        assert(self.rxpdo.spec_channels() =~= old(self).rxpdo.spec_channels().update(port as int, Some(AnalogOutput { value })));
    }
}

pub const EL4008_VENDOR_ID: u32 = 0x2;
pub const EL4008_PRODUCT_ID: u32 = 0x0fa83052;
pub const EL4008_REVISION_A: u32 = 0x00140000;

} // verus!
