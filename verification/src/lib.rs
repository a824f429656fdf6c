//! Verified building blocks of an EtherCAT hardware abstraction layer: counter
//! widening, signed-word conversions, CiA 402 drive logic, CoE configuration
//! plans and terminal process-data handling.
use vstd::prelude::*;

pub mod signing_converter;
pub mod counter_wrapper;
pub mod text;
pub mod sdo;
pub mod el7062_pdo;
pub mod el7062_coe;
pub mod el7062;
pub mod el7062_diagnostics;
pub mod ethercat_state;
pub mod al_diagnostics;
pub mod pdo_objects;
pub mod el2024;
pub mod el2809;
pub mod ep2339_0021;
pub mod el3204;
pub mod el4008;
pub mod el9505;
pub mod coe;
pub mod el4732;
pub mod el1259;
pub mod bits;
pub mod wago;
pub mod wago_750_354;
pub mod wago_stepper;
pub mod el70x1;
pub mod el7031_0030;
pub mod el7031;
pub mod el7041_0052;
pub mod minas_a6;
pub mod minas_a6_coe;
pub mod controller_logic;
pub mod irq;
pub mod interface_discovery;
pub mod velocity_loop;
pub mod thread_channel;
pub mod debugging;
pub mod machine_ident;

verus! {

} // verus!
