//! The EP2339-0021 sixteen-channel digital input/output box.
use vstd::prelude::*;
use crate::pdo_objects::{BoolPdoObject, IoError};

verus! {

/// Output process data of the EP2339-0021: one boolean per output.
#[derive(Debug, Clone, Copy, PartialEq, Eq, Structural)]
pub struct EP2339_0021RxPdo {
    /// PDO `0x1600`.
    pub channel1: Option<BoolPdoObject>,
    /// PDO `0x1601`.
    pub channel2: Option<BoolPdoObject>,
    /// PDO `0x1602`.
    pub channel3: Option<BoolPdoObject>,
    /// PDO `0x1603`.
    pub channel4: Option<BoolPdoObject>,
    /// PDO `0x1604`.
    pub channel5: Option<BoolPdoObject>,
    /// PDO `0x1605`.
    pub channel6: Option<BoolPdoObject>,
    /// PDO `0x1606`.
    pub channel7: Option<BoolPdoObject>,
    /// PDO `0x1607`.
    pub channel8: Option<BoolPdoObject>,
    /// PDO `0x1608`.
    pub channel9: Option<BoolPdoObject>,
    /// PDO `0x1609`.
    pub channel10: Option<BoolPdoObject>,
    /// PDO `0x160A`.
    pub channel11: Option<BoolPdoObject>,
    /// PDO `0x160B`.
    pub channel12: Option<BoolPdoObject>,
    /// PDO `0x160C`.
    pub channel13: Option<BoolPdoObject>,
    /// PDO `0x160D`.
    pub channel14: Option<BoolPdoObject>,
    /// PDO `0x160E`.
    pub channel15: Option<BoolPdoObject>,
    /// PDO `0x160F`.
    pub channel16: Option<BoolPdoObject>,
}

impl EP2339_0021RxPdo {
    /// The channels in port order.
    pub open spec fn spec_channels(self) -> Seq<Option<BoolPdoObject>> {
        seq![self.channel1, self.channel2, self.channel3, self.channel4, self.channel5, self.channel6, self.channel7, self.channel8, self.channel9, self.channel10, self.channel11, self.channel12, self.channel13, self.channel14, self.channel15, self.channel16]
    }

    /// Every channel is mapped.
    pub open spec fn all_mapped(self) -> bool {
        forall|i: int| 0 <= i < 16 ==> (#[trigger] self.spec_channels()[i]) is Some
    }
}

impl Default for EP2339_0021RxPdo {
    /// Every channel mapped, at its default value.
    fn default() -> (r: Self)
        ensures
            r.spec_channels() == Seq::new(16, |i: int| Some(BoolPdoObject { value: false })),
    {
        let r = EP2339_0021RxPdo {
            channel1: Some(BoolPdoObject { value: false }),
            channel2: Some(BoolPdoObject { value: false }),
            channel3: Some(BoolPdoObject { value: false }),
            channel4: Some(BoolPdoObject { value: false }),
            channel5: Some(BoolPdoObject { value: false }),
            channel6: Some(BoolPdoObject { value: false }),
            channel7: Some(BoolPdoObject { value: false }),
            channel8: Some(BoolPdoObject { value: false }),
            channel9: Some(BoolPdoObject { value: false }),
            channel10: Some(BoolPdoObject { value: false }),
            channel11: Some(BoolPdoObject { value: false }),
            channel12: Some(BoolPdoObject { value: false }),
            channel13: Some(BoolPdoObject { value: false }),
            channel14: Some(BoolPdoObject { value: false }),
            channel15: Some(BoolPdoObject { value: false }),
            channel16: Some(BoolPdoObject { value: false }),
        };
        assert(r.spec_channels() =~= Seq::new(16, |i: int| Some(BoolPdoObject { value: false })));
        r
    }
}

/// Input process data of the EP2339-0021: one boolean per input.
#[derive(Debug, Clone, Copy, PartialEq, Eq, Structural)]
pub struct EP2339_0021TxPdo {
    /// PDO `0x1A00`.
    pub channel1: Option<BoolPdoObject>,
    /// PDO `0x1A01`.
    pub channel2: Option<BoolPdoObject>,
    /// PDO `0x1A02`.
    pub channel3: Option<BoolPdoObject>,
    /// PDO `0x1A03`.
    pub channel4: Option<BoolPdoObject>,
    /// PDO `0x1A04`.
    pub channel5: Option<BoolPdoObject>,
    /// PDO `0x1A05`.
    pub channel6: Option<BoolPdoObject>,
    /// PDO `0x1A06`.
    pub channel7: Option<BoolPdoObject>,
    /// PDO `0x1A07`.
    pub channel8: Option<BoolPdoObject>,
    /// PDO `0x1A08`.
    pub channel9: Option<BoolPdoObject>,
    /// PDO `0x1A09`.
    pub channel10: Option<BoolPdoObject>,
    /// PDO `0x1A0A`.
    pub channel11: Option<BoolPdoObject>,
    /// PDO `0x1A0B`.
    pub channel12: Option<BoolPdoObject>,
    /// PDO `0x1A0C`.
    pub channel13: Option<BoolPdoObject>,
    /// PDO `0x1A0D`.
    pub channel14: Option<BoolPdoObject>,
    /// PDO `0x1A0E`.
    pub channel15: Option<BoolPdoObject>,
    /// PDO `0x1A0F`.
    pub channel16: Option<BoolPdoObject>,
}

impl EP2339_0021TxPdo {
    /// The channels in port order.
    pub open spec fn spec_channels(self) -> Seq<Option<BoolPdoObject>> {
        seq![self.channel1, self.channel2, self.channel3, self.channel4, self.channel5, self.channel6, self.channel7, self.channel8, self.channel9, self.channel10, self.channel11, self.channel12, self.channel13, self.channel14, self.channel15, self.channel16]
    }

    /// Every channel is mapped.
    pub open spec fn all_mapped(self) -> bool {
        forall|i: int| 0 <= i < 16 ==> (#[trigger] self.spec_channels()[i]) is Some
    }
}

impl Default for EP2339_0021TxPdo {
    /// Every channel mapped, at its default value.
    fn default() -> (r: Self)
        ensures
            r.spec_channels() == Seq::new(16, |i: int| Some(BoolPdoObject { value: false })),
    {
        let r = EP2339_0021TxPdo {
            channel1: Some(BoolPdoObject { value: false }),
            channel2: Some(BoolPdoObject { value: false }),
            channel3: Some(BoolPdoObject { value: false }),
            channel4: Some(BoolPdoObject { value: false }),
            channel5: Some(BoolPdoObject { value: false }),
            channel6: Some(BoolPdoObject { value: false }),
            channel7: Some(BoolPdoObject { value: false }),
            channel8: Some(BoolPdoObject { value: false }),
            channel9: Some(BoolPdoObject { value: false }),
            channel10: Some(BoolPdoObject { value: false }),
            channel11: Some(BoolPdoObject { value: false }),
            channel12: Some(BoolPdoObject { value: false }),
            channel13: Some(BoolPdoObject { value: false }),
            channel14: Some(BoolPdoObject { value: false }),
            channel15: Some(BoolPdoObject { value: false }),
            channel16: Some(BoolPdoObject { value: false }),
        };
        assert(r.spec_channels() =~= Seq::new(16, |i: int| Some(BoolPdoObject { value: false })));
        r
    }
}

/// Digital outputs of the EP2339-0021.
#[derive(Debug, Clone, Copy, PartialEq, Eq, Structural)]
pub enum EP2339_0021OutputPort {
    DO1,
    DO2,
    DO3,
    DO4,
    DO5,
    DO6,
    DO7,
    DO8,
    DO9,
    DO10,
    DO11,
    DO12,
    DO13,
    DO14,
    DO15,
    DO16,
}
/// Digital inputs of the EP2339-0021.
#[derive(Debug, Clone, Copy, PartialEq, Eq, Structural)]
pub enum EP2339_0021InputPort {
    DI1,
    DI2,
    DI3,
    DI4,
    DI5,
    DI6,
    DI7,
    DI8,
    DI9,
    DI10,
    DI11,
    DI12,
    DI13,
    DI14,
    DI15,
    DI16,
}

/// EP2339-0021 16-channel digital input/output box.
#[derive(Debug, Clone, Copy)]
pub struct EP2339_0021 {
    pub rxpdo: EP2339_0021RxPdo,
    pub txpdo: EP2339_0021TxPdo,
    pub is_used: bool,
}

impl EP2339_0021 {
    /// A fresh box: every channel mapped and off, not yet claimed.
    pub fn new() -> (r: Self)
        ensures
            r.rxpdo.spec_channels() == Seq::new(16, |i: int| Some(BoolPdoObject { value: false })),
            r.txpdo.spec_channels() == Seq::new(16, |i: int| Some(BoolPdoObject { value: false })),
            r.rxpdo.all_mapped(),
            !r.is_used,
    {
        let rxpdo = EP2339_0021RxPdo::default();
        let txpdo = EP2339_0021TxPdo::default();
        assert(rxpdo.all_mapped()) by {
            assert forall|i: int| 0 <= i < 16 implies (#[trigger] rxpdo.spec_channels()[i]) is Some by {}
        }
        EP2339_0021 { rxpdo, txpdo, is_used: false }
    }

    /// Sets digital output `port`; ports from 16 on are ignored.
    pub fn set_output(&mut self, port: usize, value: bool)
        requires
            old(self).rxpdo.all_mapped(),
        ensures
            port < 16 ==> final(self).rxpdo.spec_channels()
                == old(self).rxpdo.spec_channels().update(port as int, Some(BoolPdoObject { value })),
            port >= 16 ==> final(self).rxpdo == old(self).rxpdo,
            final(self).rxpdo.all_mapped(),
            final(self).is_used == old(self).is_used,
            final(self).txpdo == old(self).txpdo,
    {
        proof { assert(self.rxpdo.spec_channels()[port as int] is Some || port >= 16); }
        match port {
            0 => { self.rxpdo.channel1 = Some(BoolPdoObject { value }); }
            1 => { self.rxpdo.channel2 = Some(BoolPdoObject { value }); }
            2 => { self.rxpdo.channel3 = Some(BoolPdoObject { value }); }
            3 => { self.rxpdo.channel4 = Some(BoolPdoObject { value }); }
            4 => { self.rxpdo.channel5 = Some(BoolPdoObject { value }); }
            5 => { self.rxpdo.channel6 = Some(BoolPdoObject { value }); }
            6 => { self.rxpdo.channel7 = Some(BoolPdoObject { value }); }
            7 => { self.rxpdo.channel8 = Some(BoolPdoObject { value }); }
            8 => { self.rxpdo.channel9 = Some(BoolPdoObject { value }); }
            9 => { self.rxpdo.channel10 = Some(BoolPdoObject { value }); }
            10 => { self.rxpdo.channel11 = Some(BoolPdoObject { value }); }
            11 => { self.rxpdo.channel12 = Some(BoolPdoObject { value }); }
            12 => { self.rxpdo.channel13 = Some(BoolPdoObject { value }); }
            13 => { self.rxpdo.channel14 = Some(BoolPdoObject { value }); }
            14 => { self.rxpdo.channel15 = Some(BoolPdoObject { value }); }
            15 => { self.rxpdo.channel16 = Some(BoolPdoObject { value }); }
            _ => {}
        }
        assert(port < 16 ==> self.rxpdo.spec_channels() =~= old(self).rxpdo.spec_channels().update(port as int, Some(BoolPdoObject { value })));
    }

    /// Reads input `port`.
    pub fn get_input(&self, port: usize) -> (r: Result<bool, IoError>)
        ensures
            port >= 16 ==> r == Err::<bool, IoError>(IoError::PortOutOfRange { port, port_count: 16 }),
            port < 16 ==> match self.txpdo.spec_channels()[port as int] {
                Some(c) => r == Ok::<bool, IoError>(c.value),
                None => r == Err::<bool, IoError>(IoError::ChannelNotMapped { port }),
            },
    {
        let channel = match port {
            0 => &self.txpdo.channel1,
            1 => &self.txpdo.channel2,
            2 => &self.txpdo.channel3,
            3 => &self.txpdo.channel4,
            4 => &self.txpdo.channel5,
            5 => &self.txpdo.channel6,
            6 => &self.txpdo.channel7,
            7 => &self.txpdo.channel8,
            8 => &self.txpdo.channel9,
            9 => &self.txpdo.channel10,
            10 => &self.txpdo.channel11,
            11 => &self.txpdo.channel12,
            12 => &self.txpdo.channel13,
            13 => &self.txpdo.channel14,
            14 => &self.txpdo.channel15,
            15 => &self.txpdo.channel16,
            _ => { return Err(IoError::PortOutOfRange { port, port_count: 16 }); }
        };
        match channel {
            Some(c) => Ok(c.value),
            None => Err(IoError::ChannelNotMapped { port }),
        }
    }

    /// Number of channels in each direction.
    pub fn get_port_count(&self) -> (r: usize)
        ensures
            r == 16,
    {
        16
    }
}

} // verus!
