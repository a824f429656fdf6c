//! The EL2024 four-channel digital output terminal (24 V DC, 0.5 A per channel).
use vstd::prelude::*;
use crate::pdo_objects::{BoolPdoObject, IoError};

verus! {

/// Output process data of the EL2024: one boolean per channel.
#[derive(Debug, Clone, Copy, PartialEq, Eq, Structural)]
pub struct EL2024RxPdo {
    /// PDO `0x1600`.
    pub channel1: Option<BoolPdoObject>,
    /// PDO `0x1601`.
    pub channel2: Option<BoolPdoObject>,
    /// PDO `0x1602`.
    pub channel3: Option<BoolPdoObject>,
    /// PDO `0x1603`.
    pub channel4: Option<BoolPdoObject>,
}

impl EL2024RxPdo {
    /// The channels in port order.
    pub open spec fn spec_channels(self) -> Seq<Option<BoolPdoObject>> {
        seq![self.channel1, self.channel2, self.channel3, self.channel4]
    }

    /// Every channel is mapped.
    pub open spec fn all_mapped(self) -> bool {
        forall|i: int| 0 <= i < 4 ==> (#[trigger] self.spec_channels()[i]) is Some
    }
}

impl Default for EL2024RxPdo {
    /// Every channel mapped, at its default value.
    fn default() -> (r: Self)
        ensures
            r.spec_channels() == Seq::new(4, |i: int| Some(BoolPdoObject { value: false })),
    {
        let r = EL2024RxPdo {
            channel1: Some(BoolPdoObject { value: false }),
            channel2: Some(BoolPdoObject { value: false }),
            channel3: Some(BoolPdoObject { value: false }),
            channel4: Some(BoolPdoObject { value: false }),
        };
        assert(r.spec_channels() =~= Seq::new(4, |i: int| Some(BoolPdoObject { value: false })));
        r
    }
}

/// Digital outputs of the EL2024.
#[derive(Debug, Clone, Copy, PartialEq, Eq, Structural)]
pub enum EL2024Port {
    DO1,
    DO2,
    DO3,
    DO4,
}

/// EL2024 4-channel digital output device, 24 V DC, 0.5 A per channel.
#[derive(Debug, Clone, Copy)]
pub struct EL2024 {
    pub rxpdo: EL2024RxPdo,
    pub is_used: bool,
}

impl EL2024 {
    /// A fresh terminal: every output mapped and off, not yet claimed.
    pub fn new() -> (r: Self)
        ensures
            r.rxpdo.spec_channels() == Seq::new(4, |i: int| Some(BoolPdoObject { value: false })),
            r.rxpdo.all_mapped(),
            !r.is_used,
    {
        let rxpdo = EL2024RxPdo::default();
        assert(rxpdo.all_mapped()) by {
            assert forall|i: int| 0 <= i < 4 implies (#[trigger] rxpdo.spec_channels()[i]) is Some by {}
        }
        EL2024 { rxpdo, is_used: false }
    }

    /// Sets digital output `port`; ports from 4 on are ignored.
    pub fn set_output(&mut self, port: usize, value: bool)
        requires
            old(self).rxpdo.all_mapped(),
        ensures
            port < 4 ==> final(self).rxpdo.spec_channels()
                == old(self).rxpdo.spec_channels().update(port as int, Some(BoolPdoObject { value })),
            port >= 4 ==> final(self).rxpdo == old(self).rxpdo,
            final(self).rxpdo.all_mapped(),
            final(self).is_used == old(self).is_used,
    {
        proof { assert(self.rxpdo.spec_channels()[port as int] is Some || port >= 4); }
        match port {
            0 => { self.rxpdo.channel1 = Some(BoolPdoObject { value }); }
            1 => { self.rxpdo.channel2 = Some(BoolPdoObject { value }); }
            2 => { self.rxpdo.channel3 = Some(BoolPdoObject { value }); }
            3 => { self.rxpdo.channel4 = Some(BoolPdoObject { value }); }
            _ => {}
        }
        assert(port < 4 ==> self.rxpdo.spec_channels() =~= old(self).rxpdo.spec_channels().update(port as int, Some(BoolPdoObject { value })));
    }

    /// Number of digital outputs.
    pub fn get_port_count(&self) -> (r: usize)
        ensures
            r == 4,
    {
        4
    }
}


} // verus!
