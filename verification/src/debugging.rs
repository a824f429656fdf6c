//! Diagnostic reads of a subdevice's distributed-clock registers.
use vstd::prelude::*;
use crate::thread_channel::{
    spec_possible_answer, spec_register_read_outcome, ChannelError, ChannelRequests, ChannelResponse,
    EtherCATThreadChannel,
};

verus! {

/// The distributed-clock registers worth a look while a subdevice ramps
/// through the OP transition, with their names.
pub open spec fn spec_dc_registers() -> Seq<(u16, Seq<char>)> {
    seq![
        (0x0980u16, "AssignActivate(classic)"@),
        (0x0981u16, "DcSyncActive(module)"@),
        (0x0984u16, "StartTime-classic-lo"@),
        (0x0985u16, "StartTime-classic-hi"@),
        (0x0988u16, "Sync0Cycle-classic-lo"@),
        (0x0989u16, "Sync0Cycle-classic-hi"@),
        (0x098Cu16, "Sync1Cycle-classic-lo"@),
        (0x098Du16, "Sync1Cycle-classic-hi"@),
        (0x0990u16, "StartTime-module-lo"@),
        (0x09A0u16, "Sync0Cycle-module-lo"@),
        (0x09A4u16, "Sync1Cycle-module-lo"@),
    ]
}

/// Entry `i` of [`spec_dc_registers`].
fn dc_register(i: usize) -> (r: (u16, &'static str))
    requires
        i < 11,
    ensures
        r.0 == spec_dc_registers()[i as int].0,
        r.1@ == spec_dc_registers()[i as int].1,
{
    match i {
        0 => (0x0980, "AssignActivate(classic)"),
        1 => (0x0981, "DcSyncActive(module)"),
        2 => (0x0984, "StartTime-classic-lo"),
        3 => (0x0985, "StartTime-classic-hi"),
        4 => (0x0988, "Sync0Cycle-classic-lo"),
        5 => (0x0989, "Sync0Cycle-classic-hi"),
        6 => (0x098C, "Sync1Cycle-classic-lo"),
        7 => (0x098D, "Sync1Cycle-classic-hi"),
        8 => (0x0990, "StartTime-module-lo"),
        9 => (0x09A0, "Sync0Cycle-module-lo"),
        _ => (0x09A4, "Sync1Cycle-module-lo"),
    }
}

/// One register read of a dump: the register, its name and what the read gave.
#[derive(Debug)]
pub struct DcRegisterReading {
    pub register: u16,
    pub label: String,
    pub value: Result<u16, ChannelError>,
}

/// The register reads of a dump, in order.
pub open spec fn spec_dc_dump_requests(addr: u16) -> Seq<ChannelRequests> {
    spec_dc_registers().map_values(|e: (u16, Seq<char>)| ChannelRequests::RegisterRead { device_address: addr, register: e.0 })
}

/// Reads the distributed-clock registers of [`spec_dc_registers`] of the
/// subdevice at `addr`, in order, and sends no other request. Best effort: a
/// failed read stands in the dump as its error.
pub fn dump_dc_registers(channel: &mut EtherCATThreadChannel, addr: u16) -> (r: Vec<DcRegisterReading>)
    ensures
        final(channel).requests() == old(channel).requests() + spec_dc_dump_requests(addr),
        r.len() == spec_dc_registers().len(),
        forall|i: int| 0 <= i < r.len() ==> {
            &&& (#[trigger] r@[i]).register == spec_dc_registers()[i].0
            &&& r@[i].label@ == spec_dc_registers()[i].1
            &&& exists|answer: Result<ChannelResponse, ChannelError>|
                spec_possible_answer(answer) && r@[i].value == #[trigger] spec_register_read_outcome(answer)
        },
{
    let mut out: Vec<DcRegisterReading> = Vec::new();
    let ghost before = channel.requests();
    let mut i: usize = 0;
    while i < 11
        invariant
            i <= 11,
            out.len() == i,
            before == old(channel).requests(),
            channel.requests() == before + spec_dc_dump_requests(addr).take(i as int),
            forall|k: int| 0 <= k < i ==> {
                &&& (#[trigger] out@[k]).register == spec_dc_registers()[k].0
                &&& out@[k].label@ == spec_dc_registers()[k].1
                &&& exists|answer: Result<ChannelResponse, ChannelError>|
                    spec_possible_answer(answer) && out@[k].value == #[trigger] spec_register_read_outcome(answer)
            },
        decreases 11 - i,
    {
        let (register, label) = dc_register(i);
        let value = channel.register_read(addr, register);
        proof {
            assert(spec_dc_dump_requests(addr).take(i + 1) =~= spec_dc_dump_requests(addr).take(i as int).push(
                ChannelRequests::RegisterRead { device_address: addr, register },
            ));
        }
        out.push(DcRegisterReading { register, label: String::from_str(label), value });
        i += 1;
    }
    proof {
        assert(spec_dc_dump_requests(addr).take(11) =~= spec_dc_dump_requests(addr));
    }
    out
}

} // verus!
