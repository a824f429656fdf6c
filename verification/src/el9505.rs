//! The EL9505 5 V power supply terminal.
use vstd::prelude::*;

verus! {

/// EL9505 power supply terminal, 5 V DC output voltage. It has no process
/// data: it is on the bus only to supply 5 V to field devices.
#[derive(Debug, Clone, Copy)]
pub struct EL9505 {
    pub is_used: bool,
}

impl EL9505 {
    /// A terminal not yet claimed.
    pub fn new() -> (r: Self)
        ensures
            !r.is_used,
    {
        EL9505 { is_used: false }
    }
}

pub const EL9505_VENDOR_ID: u32 = 0x2;
pub const EL9505_PRODUCT_ID: u32 = 0x25213052;
pub const EL9505_REVISION_A: u32 = 0x00120000;

} // verus!
