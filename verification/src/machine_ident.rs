//! The machine identification that subdevices keep in their EEPROM: which
//! machine a terminal belongs to and what role it plays there.
use vstd::prelude::*;

verus! {

/// The identification words of one subdevice, with its configured address.
#[derive(Debug, Clone, Copy, PartialEq, Eq, Structural)]
pub struct MachineDeviceInfo {
    pub role: u16,
    pub machine_vendor: u16,
    pub machine_serial: u16,
    pub machine_id: u16,
    pub device_address: u16,
}

/// The position of the first identification meant for `device_address`, or
/// the length of `infos` when there is none.
pub open spec fn spec_first_for(infos: Seq<MachineDeviceInfo>, device_address: u16) -> int
    decreases infos.len(),
{
    if infos.len() == 0 {
        0
    } else if infos[0].device_address == device_address {
        0
    } else {
        1 + spec_first_for(infos.drop_first(), device_address)
    }
}

proof fn lemma_first_for_is_first(infos: Seq<MachineDeviceInfo>, device_address: u16, k: int)
    requires
        0 <= k <= infos.len(),
        forall|j: int| 0 <= j < k ==> (#[trigger] infos[j]).device_address != device_address,
        k < infos.len() ==> infos[k].device_address == device_address,
    ensures
        spec_first_for(infos, device_address) == k,
    decreases infos.len(),
{
    if infos.len() > 0 && k > 0 {
        assert forall|j: int| 0 <= j < k - 1 implies (#[trigger] infos.drop_first()[j]).device_address != device_address by {
            assert(infos.drop_first()[j] == infos[j + 1]);
        }
        lemma_first_for_is_first(infos.drop_first(), device_address, k - 1);
    }
}

/// The identification to write to the subdevice at `device_address`: the
/// first one meant for it. A subdevice without one is skipped.
pub fn identification_for(identifications: &[MachineDeviceInfo], device_address: u16) -> (r: Option<MachineDeviceInfo>)
    ensures
        ({
            let k = spec_first_for(identifications@, device_address);
            if k < identifications@.len() {
                r == Some(identifications@[k])
            } else {
                r is None
            }
        }),
        r is None <==> forall|j: int| 0 <= j < identifications@.len() ==> (#[trigger] identifications@[j]).device_address != device_address,
{
    let mut i: usize = 0;
    while i < identifications.len()
        invariant
            i <= identifications.len(),
            forall|j: int| 0 <= j < i ==> (#[trigger] identifications@[j]).device_address != device_address,
        decreases identifications.len() - i,
    {
        if identifications[i].device_address == device_address {
            proof {
                lemma_first_for_is_first(identifications@, device_address, i as int);
            }
            return Some(identifications[i]);
        }
        i += 1;
    }
    proof {
        lemma_first_for_is_first(identifications@, device_address, i as int);
    }
    None
}

} // verus!
