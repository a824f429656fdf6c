//! The EL7041-0052 stepper terminal in direct velocity mode.
use vstd::prelude::*;
use crate::el70x1::{spec_idle_counter_control, 
    EncStatusCompact, StmStatus, EncControlCompact, StmControl, StmVelocity, EL70x1OperationMode,
    El70x1Object, StepperError, StepperVelocityEL70x1Input, StepperVelocityEL70x1Output, spec_can_update,
    spec_output_missing, spec_get_input, spec_get_output, stepper_input_post_process,
    stepper_output_pre_process, stepper_set_output, stepper_get_input, stepper_get_output,
    stepper_get_digital_input, spec_default_enc_status_compact, spec_default_stm_status,
};
use crate::counter_wrapper::{CounterWrapperU16U128, CounterState, spec_update, spec_wrap_u16};

verus! {

/// Input process data of the EL7041-0052: the objects the stepper logic reads.
#[derive(Debug, Clone, Copy, PartialEq, Eq, Structural)]
pub struct EL7041_0052TxPdo {
    pub enc_status_compact: Option<EncStatusCompact>,
    pub stm_status: Option<StmStatus>,
}

/// Output process data of the EL7041-0052: the objects the stepper logic writes.
#[derive(Debug, Clone, Copy, PartialEq, Eq, Structural)]
pub struct EL7041_0052RxPdo {
    pub enc_control_compact: Option<EncControlCompact>,
    pub stm_control: Option<StmControl>,
    pub stm_velocity: Option<StmVelocity>,
}

/// The velocity control objects, at their defaults.
pub open spec fn spec_default_el7041_0052_txpdo() -> EL7041_0052TxPdo {
    EL7041_0052TxPdo {
        enc_status_compact: Some(spec_default_enc_status_compact()),
        stm_status: Some(spec_default_stm_status()),
    }
}

/// The velocity control objects, at their defaults.
pub open spec fn spec_default_el7041_0052_rxpdo() -> EL7041_0052RxPdo {
    EL7041_0052RxPdo {
        enc_control_compact: Some(EncControlCompact { set_counter: false, set_counter_value: 0 }),
        stm_control: Some(StmControl { enable: false, reset: false, reduce_torque: false }),
        stm_velocity: Some(StmVelocity { velocity: 0 }),
    }
}

impl Default for EL7041_0052TxPdo {
    fn default() -> (r: Self)
        ensures
            r == spec_default_el7041_0052_txpdo(),
    {
        EL7041_0052TxPdo { enc_status_compact: Some(EncStatusCompact::default()), stm_status: Some(StmStatus::default()) }
    }
}

impl Default for EL7041_0052RxPdo {
    fn default() -> (r: Self)
        ensures
            r == spec_default_el7041_0052_rxpdo(),
    {
        EL7041_0052RxPdo {
            enc_control_compact: Some(EncControlCompact::default()),
            stm_control: Some(StmControl::default()),
            stm_velocity: Some(StmVelocity::default()),
        }
    }
}


/// Configuration of the EL7041-0052 that the device logic reads.
#[derive(Debug, Clone, Copy, PartialEq, Eq, Structural)]
pub struct EL7041_0052Configuration {
    /// Operation mode of the stepper (`0x8012:01`).
    pub operation_mode: EL70x1OperationMode,
}

impl Default for EL7041_0052Configuration {
    /// Automatic operation mode (the datasheet default).
    fn default() -> (r: Self)
        ensures
            r.operation_mode == EL70x1OperationMode::Automatic,
    {
        EL7041_0052Configuration {
            operation_mode: EL70x1OperationMode::Automatic,
        }
    }
}

/// Ports of the EL7041-0052.
#[derive(Debug, Clone, Copy, PartialEq, Eq, Structural)]
pub enum EL7041_0052Port {
    STM1,
    DI1,
    DI2,
}

/// EL7041-0052 1-channel stepper terminal with incremental encoder and two digital inputs.
#[derive(Debug)]
pub struct EL7041_0052 {
    pub txpdo: EL7041_0052TxPdo,
    pub rxpdo: EL7041_0052RxPdo,
    pub is_used: bool,
    pub configuration: EL7041_0052Configuration,
    pub counter_wrapper: CounterWrapperU16U128,
}

impl EL7041_0052 {
    /// A terminal with the default configuration and its PDO assignment.
    pub fn new() -> (r: Self)
        ensures
            r.configuration.operation_mode == EL70x1OperationMode::Automatic,
            r.txpdo == spec_default_el7041_0052_txpdo(),
            r.rxpdo == spec_default_el7041_0052_rxpdo(),
            r.counter_wrapper@.counter == 0,
            r.counter_wrapper@.pending_cycles == 0,
            r.counter_wrapper@.set_counter is None,
            !r.is_used,
    {
        let configuration = EL7041_0052Configuration::default();
        EL7041_0052 {
            txpdo: EL7041_0052TxPdo::default(),
            rxpdo: EL7041_0052RxPdo::default(),
            is_used: false,
            configuration,
            counter_wrapper: CounterWrapperU16U128::new(),
        }
    }

    /// Widens the encoder counter with this cycle's sample.
    pub fn input_post_process(&mut self) -> (r: Result<(), StepperError>)
        requires
            spec_can_update(old(self).counter_wrapper@, old(self).txpdo.enc_status_compact),
        ensures
            match old(self).txpdo.enc_status_compact {
                Some(e) => r is Ok && final(self).counter_wrapper@ == spec_update(
                    old(self).counter_wrapper@,
                    e.counter_value,
                    e.counter_underflow,
                    e.counter_overflow,
                ),
                None => r == Err::<(), StepperError>(StepperError::MissingObject(El70x1Object::EncStatusCompact))
                    && final(self).counter_wrapper@ == old(self).counter_wrapper@,
            },
            final(self).txpdo == old(self).txpdo,
            final(self).rxpdo == old(self).rxpdo,
            final(self).configuration == old(self).configuration,
    {
        stepper_input_post_process(&self.txpdo.enc_status_compact, &mut self.counter_wrapper)
    }

    /// Prepares this cycle's outputs, as [`stepper_output_pre_process`] says.
    pub fn output_pre_process(&mut self) -> (r: Result<(), StepperError>)
        ensures
            match spec_output_missing(
                old(self).txpdo.enc_status_compact,
                old(self).rxpdo.enc_control_compact,
                old(self).txpdo.stm_status,
                old(self).rxpdo.stm_control,
            ) {
                Some(o) => r == Err::<(), StepperError>(StepperError::MissingObject(o))
                    && final(self).rxpdo == old(self).rxpdo
                    && final(self).counter_wrapper@ == old(self).counter_wrapper@,
                None => {
                    &&& r is Ok
                    &&& final(self).rxpdo.stm_control == Some(StmControl {
                        reset: old(self).rxpdo.stm_control.unwrap().reset || old(self).txpdo.stm_status.unwrap().error,
                        ..old(self).rxpdo.stm_control.unwrap()
                    })
                    &&& match old(self).counter_wrapper@.set_counter {
                        Some(c) => final(self).rxpdo.enc_control_compact == Some(EncControlCompact {
                            set_counter: true,
                            set_counter_value: spec_wrap_u16(c as int) as u16,
                        }) && final(self).counter_wrapper@ == (CounterState {
                            counter: c as int,
                            set_counter: None,
                            pending_override: Some(spec_wrap_u16(c as int) as u16),
                            pending_cycles: 0,
                            ..old(self).counter_wrapper@
                        }),
                        None => final(self).rxpdo.enc_control_compact == Some(
                            spec_idle_counter_control(old(self).txpdo.enc_status_compact.unwrap()),
                        ) && final(self).counter_wrapper@ == old(self).counter_wrapper@,
                    }
                },
            },
            final(self).txpdo == old(self).txpdo,
            final(self).configuration == old(self).configuration,
            final(self).rxpdo.stm_velocity == old(self).rxpdo.stm_velocity,
    {
        stepper_output_pre_process(
            &self.txpdo.enc_status_compact,
            &mut self.rxpdo.enc_control_compact,
            &self.txpdo.stm_status,
            &mut self.rxpdo.stm_control,
            &mut self.counter_wrapper,
        )
    }

    /// Tells the stepper what to do; only in direct velocity mode.
    pub fn set_output(&mut self, port: usize, value: StepperVelocityEL70x1Output) -> (r: Result<(), StepperError>)
        requires
            old(self).configuration.operation_mode == EL70x1OperationMode::DirectVelocity,
        ensures
            port != 0 ==> r == Err::<(), StepperError>(StepperError::InvalidPort(port))
                && final(self).rxpdo == old(self).rxpdo
                && final(self).counter_wrapper@ == old(self).counter_wrapper@,
            port == 0 ==> {
                &&& final(self).counter_wrapper@ == (match value.set_counter {
                    Some(c) => CounterState { set_counter: Some(c), ..old(self).counter_wrapper@ },
                    None => old(self).counter_wrapper@,
                })
                &&& match (old(self).rxpdo.stm_control, old(self).rxpdo.stm_velocity) {
                    (None, _) => r == Err::<(), StepperError>(StepperError::MissingObject(El70x1Object::StmControl))
                        && final(self).rxpdo == old(self).rxpdo,
                    (Some(_), None) => r == Err::<(), StepperError>(StepperError::MissingObject(El70x1Object::StmVelocity))
                        && final(self).rxpdo == (EL7041_0052RxPdo {
                            stm_control: Some(StmControl { enable: value.enable, reduce_torque: value.reduce_torque, reset: value.reset }),
                            ..old(self).rxpdo
                        }),
                    (Some(_), Some(_)) => r is Ok && final(self).rxpdo == (EL7041_0052RxPdo {
                        stm_control: Some(StmControl { enable: value.enable, reduce_torque: value.reduce_torque, reset: value.reset }),
                        stm_velocity: Some(StmVelocity { velocity: value.velocity }),
                        ..old(self).rxpdo
                    }),
                }
            },
            final(self).txpdo == old(self).txpdo,
            final(self).configuration == old(self).configuration,
    {
        stepper_set_output(port, value, &mut self.rxpdo.stm_control, &mut self.rxpdo.stm_velocity, &mut self.counter_wrapper)
    }

    /// What the stepper reports.
    pub fn get_input(&self, port: usize) -> (r: Result<StepperVelocityEL70x1Input, StepperError>)
        ensures
            r == spec_get_input(self.configuration.operation_mode, port, self.txpdo.stm_status, self.counter_wrapper@.counter),
    {
        stepper_get_input(self.configuration.operation_mode, port, &self.txpdo.stm_status, &self.counter_wrapper)
    }

    /// What the stepper is told.
    pub fn get_output(&self, port: usize) -> (r: Result<StepperVelocityEL70x1Output, StepperError>)
        ensures
            r == spec_get_output(
                self.configuration.operation_mode,
                port,
                self.rxpdo.stm_control,
                self.rxpdo.stm_velocity,
                self.counter_wrapper@.set_counter,
            ),
    {
        stepper_get_output(
            self.configuration.operation_mode,
            port,
            &self.rxpdo.stm_control,
            &self.rxpdo.stm_velocity,
            &self.counter_wrapper,
        )
    }

    /// Number of steppers.
    pub fn get_port_count(&self) -> (r: usize)
        ensures
            r == 1,
    {
        1
    }

    /// Digital input `port` (0 or 1).
    pub fn get_digital_input(&self, port: usize) -> (r: Result<bool, StepperError>)
        ensures
            port >= 2 ==> r == Err::<bool, StepperError>(StepperError::InvalidPort(port)),
            port < 2 ==> match self.txpdo.stm_status {
                Some(s) => r == Ok::<bool, StepperError>(if port == 0 { s.digital_input_1 } else { s.digital_input_2 }),
                None => r == Err::<bool, StepperError>(StepperError::MissingObject(El70x1Object::StmStatus)),
            },
    {
        stepper_get_digital_input(port, &self.txpdo.stm_status)
    }

    /// Number of digital inputs.
    pub fn get_digital_in_port_count(&self) -> (r: usize)
        ensures
            r == 2,
    {
        2
    }

    /// Whether the stepper is told to be enabled; false where that cannot be read.
    pub fn is_enabled(&self, port: usize) -> (r: bool)
        ensures
            r == match spec_get_output(
                self.configuration.operation_mode,
                port,
                self.rxpdo.stm_control,
                self.rxpdo.stm_velocity,
                self.counter_wrapper@.set_counter,
            ) {
                Ok(o) => o.enable,
                Err(_) => false,
            },
    {
        match self.get_output(port) {
            Ok(output) => output.enable,
            Err(_) => false,
        }
    }

    /// The widened encoder counter.
    pub fn get_position(&self, port: usize) -> (r: i128)
        requires
            spec_get_input(self.configuration.operation_mode, port, self.txpdo.stm_status, self.counter_wrapper@.counter) is Ok,
        ensures
            r == self.counter_wrapper@.counter,
    {
        proof {
            self.counter_wrapper.lemma_counter_fits();
        }
        match self.get_input(port) {
            Ok(input) => input.counter_value,
            Err(_) => 0,
        }
    }

    /// Schedules the encoder counter to be set to `position`, keeping the other outputs.
    pub fn set_position(&mut self, port: usize, position: i128)
        requires
            old(self).configuration.operation_mode == EL70x1OperationMode::DirectVelocity,
            spec_get_output(
                old(self).configuration.operation_mode,
                port,
                old(self).rxpdo.stm_control,
                old(self).rxpdo.stm_velocity,
                old(self).counter_wrapper@.set_counter,
            ) is Ok,
        ensures
            final(self).counter_wrapper@ == (CounterState { set_counter: Some(position), ..old(self).counter_wrapper@ }),
            final(self).rxpdo == old(self).rxpdo,
    {
        match self.get_output(port) {
            Ok(output) => {
                let o = StepperVelocityEL70x1Output { set_counter: Some(position), ..output };
                let _ = self.set_output(port, o);
            },
            Err(_) => {},
        }
    }

    /// Enables or disables the stepper, keeping the other outputs; does
    /// nothing where the outputs cannot be read.
    pub fn set_enabled(&mut self, port: usize, enabled: bool)
        requires
            old(self).configuration.operation_mode == EL70x1OperationMode::DirectVelocity,
        ensures
            match spec_get_output(
                old(self).configuration.operation_mode,
                port,
                old(self).rxpdo.stm_control,
                old(self).rxpdo.stm_velocity,
                old(self).counter_wrapper@.set_counter,
            ) {
                Ok(o) => final(self).rxpdo == (EL7041_0052RxPdo {
                    stm_control: Some(StmControl { enable: enabled, reduce_torque: o.reduce_torque, reset: o.reset }),
                    stm_velocity: Some(StmVelocity { velocity: o.velocity }),
                    ..old(self).rxpdo
                }) && final(self).counter_wrapper@ == old(self).counter_wrapper@,
                Err(_) => final(self).rxpdo == old(self).rxpdo && final(self).counter_wrapper@ == old(self).counter_wrapper@,
            },
    {
        match self.get_output(port) {
            Ok(output) => {
                let o = StepperVelocityEL70x1Output { enable: enabled, ..output };
                let _ = self.set_output(port, o);
            },
            Err(_) => {},
        }
    }
}

pub const EL7041_0052_VENDOR_ID: u32 = 0x2;
pub const EL7041_0052_PRODUCT_ID: u32 = 461451346;
pub const EL7041_0052_REVISION_A: u32 = 1048628;

} // verus!
