//! The EL2809 sixteen-channel digital output terminal (24 V DC, 0.5 A per channel).
use vstd::prelude::*;
use crate::pdo_objects::{BoolPdoObject, IoError};

verus! {

/// Output process data of the EL2809: one boolean per channel.
#[derive(Debug, Clone, Copy, PartialEq, Eq, Structural)]
pub struct EL2809RxPdo {
    /// PDO `0x1600`.
    pub channel1: Option<BoolPdoObject>,
    /// PDO `0x1601`.
    pub channel2: Option<BoolPdoObject>,
    /// PDO `0x1602`.
    pub channel3: Option<BoolPdoObject>,
    /// PDO `0x1603`.
    pub channel4: Option<BoolPdoObject>,
    /// PDO `0x1604`.
    pub channel5: Option<BoolPdoObject>,
    /// PDO `0x1605`.
    pub channel6: Option<BoolPdoObject>,
    /// PDO `0x1606`.
    pub channel7: Option<BoolPdoObject>,
    /// PDO `0x1607`.
    pub channel8: Option<BoolPdoObject>,
    /// PDO `0x1608`.
    pub channel9: Option<BoolPdoObject>,
    /// PDO `0x1609`.
    pub channel10: Option<BoolPdoObject>,
    /// PDO `0x160A`.
    pub channel11: Option<BoolPdoObject>,
    /// PDO `0x160B`.
    pub channel12: Option<BoolPdoObject>,
    /// PDO `0x160C`.
    pub channel13: Option<BoolPdoObject>,
    /// PDO `0x160D`.
    pub channel14: Option<BoolPdoObject>,
    /// PDO `0x160E`.
    pub channel15: Option<BoolPdoObject>,
    /// PDO `0x160F`.
    pub channel16: Option<BoolPdoObject>,
}

impl EL2809RxPdo {
    /// The channels in port order.
    pub open spec fn spec_channels(self) -> Seq<Option<BoolPdoObject>> {
        seq![self.channel1, self.channel2, self.channel3, self.channel4, self.channel5, self.channel6, self.channel7, self.channel8, self.channel9, self.channel10, self.channel11, self.channel12, self.channel13, self.channel14, self.channel15, self.channel16]
    }

    /// Every channel is mapped.
    pub open spec fn all_mapped(self) -> bool {
        forall|i: int| 0 <= i < 16 ==> (#[trigger] self.spec_channels()[i]) is Some
    }
}

impl Default for EL2809RxPdo {
    /// Every channel mapped, at its default value.
    fn default() -> (r: Self)
        ensures
            r.spec_channels() == Seq::new(16, |i: int| Some(BoolPdoObject { value: false })),
    {
        let r = EL2809RxPdo {
            channel1: Some(BoolPdoObject { value: false }),
            channel2: Some(BoolPdoObject { value: false }),
            channel3: Some(BoolPdoObject { value: false }),
            channel4: Some(BoolPdoObject { value: false }),
            channel5: Some(BoolPdoObject { value: false }),
            channel6: Some(BoolPdoObject { value: false }),
            channel7: Some(BoolPdoObject { value: false }),
            channel8: Some(BoolPdoObject { value: false }),
            channel9: Some(BoolPdoObject { value: false }),
            channel10: Some(BoolPdoObject { value: false }),
            channel11: Some(BoolPdoObject { value: false }),
            channel12: Some(BoolPdoObject { value: false }),
            channel13: Some(BoolPdoObject { value: false }),
            channel14: Some(BoolPdoObject { value: false }),
            channel15: Some(BoolPdoObject { value: false }),
            channel16: Some(BoolPdoObject { value: false }),
        };
        assert(r.spec_channels() =~= Seq::new(16, |i: int| Some(BoolPdoObject { value: false })));
        r
    }
}

/// Digital outputs of the EL2809.
#[derive(Debug, Clone, Copy, PartialEq, Eq, Structural)]
pub enum EL2809Port {
    DO1,
    DO2,
    DO3,
    DO4,
    DO5,
    DO6,
    DO7,
    DO8,
    DO9,
    DO10,
    DO11,
    DO12,
    DO13,
    DO14,
    DO15,
    DO16,
}

/// EL2809 16-channel digital output device, 24 V DC, 0.5 A per channel.
#[derive(Debug, Clone, Copy)]
pub struct EL2809 {
    pub rxpdo: EL2809RxPdo,
    pub is_used: bool,
}

impl EL2809 {
    /// A fresh terminal: every output mapped and off, not yet claimed.
    pub fn new() -> (r: Self)
        ensures
            r.rxpdo.spec_channels() == Seq::new(16, |i: int| Some(BoolPdoObject { value: false })),
            r.rxpdo.all_mapped(),
            !r.is_used,
    {
        let rxpdo = EL2809RxPdo::default();
        assert(rxpdo.all_mapped()) by {
            assert forall|i: int| 0 <= i < 16 implies (#[trigger] rxpdo.spec_channels()[i]) is Some by {}
        }
        EL2809 { rxpdo, is_used: false }
    }

    /// Sets digital output `port`; ports from 16 on are ignored.
    pub fn set_output(&mut self, port: usize, value: bool)
        requires
            old(self).rxpdo.all_mapped(),
        ensures
            port < 16 ==> final(self).rxpdo.spec_channels()
                == old(self).rxpdo.spec_channels().update(port as int, Some(BoolPdoObject { value })),
            port >= 16 ==> final(self).rxpdo == old(self).rxpdo,
            final(self).rxpdo.all_mapped(),
            final(self).is_used == old(self).is_used,
    {
        proof { assert(self.rxpdo.spec_channels()[port as int] is Some || port >= 16); }
        match port {
            0 => { self.rxpdo.channel1 = Some(BoolPdoObject { value }); }
            1 => { self.rxpdo.channel2 = Some(BoolPdoObject { value }); }
            2 => { self.rxpdo.channel3 = Some(BoolPdoObject { value }); }
            3 => { self.rxpdo.channel4 = Some(BoolPdoObject { value }); }
            4 => { self.rxpdo.channel5 = Some(BoolPdoObject { value }); }
            5 => { self.rxpdo.channel6 = Some(BoolPdoObject { value }); }
            6 => { self.rxpdo.channel7 = Some(BoolPdoObject { value }); }
            7 => { self.rxpdo.channel8 = Some(BoolPdoObject { value }); }
            8 => { self.rxpdo.channel9 = Some(BoolPdoObject { value }); }
            9 => { self.rxpdo.channel10 = Some(BoolPdoObject { value }); }
            10 => { self.rxpdo.channel11 = Some(BoolPdoObject { value }); }
            11 => { self.rxpdo.channel12 = Some(BoolPdoObject { value }); }
            12 => { self.rxpdo.channel13 = Some(BoolPdoObject { value }); }
            13 => { self.rxpdo.channel14 = Some(BoolPdoObject { value }); }
            14 => { self.rxpdo.channel15 = Some(BoolPdoObject { value }); }
            15 => { self.rxpdo.channel16 = Some(BoolPdoObject { value }); }
            _ => {}
        }
        assert(port < 16 ==> self.rxpdo.spec_channels() =~= old(self).rxpdo.spec_channels().update(port as int, Some(BoolPdoObject { value })));
    }

    /// Number of digital outputs.
    pub fn get_port_count(&self) -> (r: usize)
        ensures
            r == 16,
    {
        16
    }
}


} // verus!
