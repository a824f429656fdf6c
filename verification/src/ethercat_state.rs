//! The master-level state of the EtherCAT bus, as the state machine reports it.
use vstd::prelude::*;

verus! {

/// Where the master's state machine stands.
#[derive(Clone, Copy, Debug, PartialEq, Eq, Structural)]
pub enum EtherCATState {
    /// No network interface has been bound yet.
    NoInterface,
    Init,
    PreOp,
    /// PreOp with the process data image mapped.
    PreopPdi,
    Boot,
    Op,
}

} // verus!
