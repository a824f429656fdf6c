//! Configurations that a terminal stores through CoE: the plan of SDO writes
//! that stores each, and sending that plan to the EtherCAT thread.
use vstd::prelude::*;
use crate::sdo::SdoWrite;
use crate::thread_channel::{spec_plan_run, spec_plan_sent, ChannelError, EtherCATThreadChannel};

verus! {

/// A configuration that can be stored on a terminal.
pub trait Configuration {
    /// The SDO writes that store the configuration, in order.
    spec fn spec_plan(&self) -> Seq<SdoWrite>;

    /// The SDO writes that store the configuration, in the order in which
    /// they are to be sent.
    fn config_plan(&self) -> (r: Vec<SdoWrite>)
        ensures
            r@ == self.spec_plan(),
    ;

    /// Stores the configuration on the terminal at `device_address`: sends
    /// the writes of [`Configuration::config_plan`] in order and stops at the
    /// first that fails, whose error it returns.
    fn write_config(&self, ecat_channel: &mut EtherCATThreadChannel, device_address: u16) -> (r: Result<(), ChannelError>)
        ensures
            spec_plan_run(self.spec_plan().len(), r),
            spec_plan_sent(device_address, self.spec_plan(), old(ecat_channel).requests(), final(ecat_channel).requests(), r),
    {
        let plan = self.config_plan();
        ecat_channel.sdo_write_all(device_address, plan.as_slice())
    }
}

/// A terminal that keeps the configuration it was last given.
pub trait ConfigurableDevice<C: Configuration + Clone> {
    /// Stores `config` on the terminal at `device_address` and, once it is
    /// stored, adopts it.
    fn write_config(&mut self, ecat_channel: &mut EtherCATThreadChannel, device_address: u16, config: &C) -> Result<(), ChannelError>;

    /// The configuration the terminal was last given.
    fn get_config(&self) -> C;
}

/// Errors of configuration constructors that check their arguments.
#[derive(Debug, Clone, Copy, PartialEq, Eq, Structural)]
pub enum ConfigurationError {
    /// The oversampling factor is not one the terminal supports.
    InvalidOversampleFactor(usize),
}

} // verus!
