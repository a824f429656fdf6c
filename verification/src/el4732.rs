//! The EL4732 two-channel ±10 V analog output terminal with oversampling.
use vstd::prelude::*;
use crate::coe::{ConfigurableDevice, Configuration, ConfigurationError};
use crate::thread_channel::{spec_plan_run, spec_plan_sent, ChannelError, EtherCATThreadChannel};
use crate::sdo::{SdoValue, SdoWrite};

verus! {

/// The counter that tells the terminal a new cycle's samples are ready.
#[derive(Debug, Clone, Copy, PartialEq, Eq, Structural)]
pub struct CycleCount {
    pub value: u16,
}

impl CycleCount {
    /// Advances the counter, wrapping at 16 bits.
    pub fn increment(&mut self)
        ensures
            final(self).value == old(self).value.wrapping_add(1),
    {
        self.value = self.value.wrapping_add(1);
    }
}

impl Default for CycleCount {
    fn default() -> (r: Self)
        ensures
            r.value == 0,
    {
        CycleCount { value: 0 }
    }
}

/// The raw samples of one channel for one cycle, one per oversampling slot.
#[derive(Debug, Clone)]
pub struct AnalogOutputOversample {
    pub samples: Vec<i16>,
}

impl AnalogOutputOversample {
    /// `factor` zero samples.
    pub fn new(factor: usize) -> (r: Self)
        ensures
            r.samples@ == Seq::new(factor as nat, |i: int| 0i16),
    {
        let mut samples: Vec<i16> = Vec::new();
        let mut i: usize = 0;
        while i < factor
            invariant
                i <= factor,
                samples@ == Seq::new(i as nat, |k: int| 0i16),
            decreases factor - i,
        {
            samples.push(0);
            i += 1;
            assert(samples@ =~= Seq::new(i as nat, |k: int| 0i16));
        }
        AnalogOutputOversample { samples }
    }

    /// The number of oversampling slots.
    pub fn oversample_factor(&self) -> (r: usize)
        ensures
            r == self.samples.len(),
    {
        self.samples.len()
    }

    /// Sets every slot to `value`.
    pub fn fill(&mut self, value: i16)
        ensures
            final(self).samples@ == Seq::new(old(self).samples.len() as nat, |i: int| value),
    {
        let n = self.samples.len();
        let mut i: usize = 0;
        while i < n
            invariant
                i <= n,
                self.samples.len() == n,
                forall|k: int| 0 <= k < i ==> self.samples@[k] == value,
            decreases n - i,
        {
            self.samples.set(i, value);
            i += 1;
        }
        assert(self.samples@ =~= Seq::new(n as nat, |i: int| value));
    }

    /// Copies one sample per slot.
    pub fn copy_from(&mut self, values: &[i16])
        requires
            values.len() == old(self).samples.len(),
        ensures
            final(self).samples@ == values@,
    {
        let n = self.samples.len();
        let mut i: usize = 0;
        while i < n
            invariant
                i <= n,
                n == values.len(),
                self.samples.len() == n,
                forall|k: int| 0 <= k < i ==> self.samples@[k] == values@[k],
            decreases n - i,
        {
            self.samples.set(i, values[i]);
            i += 1;
        }
        assert(self.samples@ =~= values@);
    }
}

/// Output process data of the EL4732: per channel a cycle counter and the samples.
#[derive(Debug, Clone)]
pub struct EL4732RxPdo {
    /// PDO `0x1680`.
    pub ch1_cycle_count: Option<CycleCount>,
    /// PDO `0x1600`.
    pub ch1_samples: Option<AnalogOutputOversample>,
    /// PDO `0x1780`.
    pub ch2_cycle_count: Option<CycleCount>,
    /// PDO `0x1700`.
    pub ch2_samples: Option<AnalogOutputOversample>,
}

/// Both channels mapped, counters at zero, `factor` zero samples each.
pub open spec fn spec_fresh_rxpdo(p: EL4732RxPdo, factor: usize) -> bool {
    &&& p.ch1_cycle_count == Some(CycleCount { value: 0 })
    &&& p.ch2_cycle_count == Some(CycleCount { value: 0 })
    &&& p.ch1_samples matches Some(s) && s.samples@ == Seq::new(factor as nat, |i: int| 0i16)
    &&& p.ch2_samples matches Some(s) && s.samples@ == Seq::new(factor as nat, |i: int| 0i16)
}

impl EL4732RxPdo {
    /// Process data for `oversample_factor` slots per channel.
    pub fn new(oversample_factor: usize) -> (r: Self)
        ensures
            spec_fresh_rxpdo(r, oversample_factor),
    {
        EL4732RxPdo {
            ch1_cycle_count: Some(CycleCount::default()),
            ch1_samples: Some(AnalogOutputOversample::new(oversample_factor)),
            ch2_cycle_count: Some(CycleCount::default()),
            ch2_samples: Some(AnalogOutputOversample::new(oversample_factor)),
        }
    }
}

impl Default for EL4732RxPdo {
    /// Without oversampling: one slot per channel.
    fn default() -> (r: Self)
        ensures
            spec_fresh_rxpdo(r, 1),
    {
        EL4732RxPdo::new(1)
    }
}

/// Input process data of the EL4732: the terminal sends none.
#[derive(Debug, Clone, Copy, PartialEq, Eq, Structural)]
pub struct EL4732TxPdo {}

impl Default for EL4732TxPdo {
    fn default() -> (r: Self) {
        EL4732TxPdo {}
    }
}

/// Analog outputs of the EL4732.
#[derive(Debug, Clone, Copy, PartialEq, Eq, Structural)]
pub enum EL4732Port {
    AO1,
    AO2,
}

/// The oversampling factors the terminal supports (its DC operation modes).
pub open spec fn spec_valid_oversample_factor(factor: usize) -> bool {
    factor == 1 || factor == 2 || factor == 3 || factor == 4 || factor == 5 || factor == 8
        || factor == 10 || factor == 16 || factor == 20 || factor == 25 || factor == 32
        || factor == 40 || factor == 50 || factor == 100
}

/// Configuration of the EL4732.
#[derive(Debug, Clone, Copy, PartialEq, Eq, Structural)]
pub struct EL4732Configuration {
    /// Oversampling factor of both channels; one of 1, 2, 3, 4, 5, 8, 10, 16,
    /// 20, 25, 32, 40, 50, 100.
    pub oversample_factor: usize,
}

impl Default for EL4732Configuration {
    fn default() -> (r: Self)
        ensures
            r.oversample_factor == 1,
    {
        EL4732Configuration { oversample_factor: 1 }
    }
}

impl EL4732Configuration {
    /// A configuration with the given factor, if the terminal supports it.
    pub fn new(oversample_factor: usize) -> (r: Result<Self, ConfigurationError>)
        ensures
            spec_valid_oversample_factor(oversample_factor) ==> r == Ok::<Self, ConfigurationError>(
                EL4732Configuration { oversample_factor },
            ),
            !spec_valid_oversample_factor(oversample_factor) ==> r == Err::<Self, ConfigurationError>(
                ConfigurationError::InvalidOversampleFactor(oversample_factor),
            ),
    {
        let valid = oversample_factor == 1 || oversample_factor == 2 || oversample_factor == 3
            || oversample_factor == 4 || oversample_factor == 5 || oversample_factor == 8
            || oversample_factor == 10 || oversample_factor == 16 || oversample_factor == 20
            || oversample_factor == 25 || oversample_factor == 32 || oversample_factor == 40
            || oversample_factor == 50 || oversample_factor == 100;
        if !valid {
            return Err(ConfigurationError::InvalidOversampleFactor(oversample_factor));
        }
        Ok(EL4732Configuration { oversample_factor })
    }
}

/// The writes that store a configuration: the entry count (the factor) of the
/// output PDO mappings `0x1600` and `0x1700`.
pub open spec fn spec_el4732_plan(c: EL4732Configuration) -> Seq<SdoWrite> {
    let factor = SdoValue::U8(c.oversample_factor as u8);
    seq![
        SdoWrite { index: 0x1600, sub_index: 0x00, value: factor },
        SdoWrite { index: 0x1700, sub_index: 0x00, value: factor },
    ]
}

impl Configuration for EL4732Configuration {
    open spec fn spec_plan(&self) -> Seq<SdoWrite> {
        spec_el4732_plan(*self)
    }

    fn config_plan(&self) -> (r: Vec<SdoWrite>)
        ensures
            r@ == spec_el4732_plan(*self),
    {
        #[verifier::truncate]
        let factor = self.oversample_factor as u8;
        let mut r = Vec::new();
        r.push(SdoWrite { index: 0x1600, sub_index: 0x00, value: SdoValue::U8(factor) });
        r.push(SdoWrite { index: 0x1700, sub_index: 0x00, value: SdoValue::U8(factor) });
        assert(r@ =~= spec_el4732_plan(*self));
        r
    }
}

/// EL4732 2-channel analog output device with oversampling, 16-bit, -10 V to +10 V.
#[derive(Debug, Clone)]
pub struct EL4732 {
    pub rxpdo: EL4732RxPdo,
    pub txpdo: EL4732TxPdo,
    pub is_used: bool,
    pub configuration: EL4732Configuration,
}

/// Advances a channel's cycle counter where it is mapped.
fn bump(count: &mut Option<CycleCount>)
    ensures
        match *old(count) {
            Some(c) => *final(count) == Some(CycleCount { value: c.value.wrapping_add(1) }),
            None => *final(count) is None,
        },
{
    match count.take() {
        Some(mut c) => {
            c.increment();
            *count = Some(c);
        },
        None => {},
    }
}

/// The counter after a cycle's samples were written.
pub open spec fn spec_bumped(count: Option<CycleCount>) -> Option<CycleCount> {
    match count {
        Some(c) => Some(CycleCount { value: c.value.wrapping_add(1) }),
        None => None,
    }
}

/// The samples of a channel after every slot was set to `value`.
pub open spec fn spec_filled(s: Option<AnalogOutputOversample>, value: i16) -> Option<Seq<i16>> {
    match s {
        Some(ch) => Some(Seq::new(ch.samples.len() as nat, |i: int| value)),
        None => None,
    }
}

/// The sample values of a channel, where it is mapped.
pub open spec fn spec_samples(s: Option<AnalogOutputOversample>) -> Option<Seq<i16>> {
    match s {
        Some(ch) => Some(ch.samples@),
        None => None,
    }
}

impl EL4732 {
    /// A terminal with the given oversampling factor and a default configuration.
    pub fn new_with_oversample(oversample_factor: usize) -> (r: Self)
        ensures
            spec_fresh_rxpdo(r.rxpdo, oversample_factor),
            r.configuration.oversample_factor == 1,
            !r.is_used,
    {
        EL4732 {
            rxpdo: EL4732RxPdo::new(oversample_factor),
            txpdo: EL4732TxPdo::default(),
            is_used: false,
            configuration: EL4732Configuration::default(),
        }
    }

    /// A terminal without oversampling.
    pub fn new() -> (r: Self)
        ensures
            spec_fresh_rxpdo(r.rxpdo, 1),
            r.configuration.oversample_factor == 1,
            !r.is_used,
    {
        EL4732::new_with_oversample(1)
    }

    /// Number of analog outputs.
    pub fn get_port_count(&self) -> (r: usize)
        ensures
            r == 2,
    {
        2
    }

    /// Sets every slot of output `port` to the raw value and advances its cycle
    /// counter; ports from 2 on are ignored.
    pub fn set_output(&mut self, port: usize, raw: i16)
        ensures
            port == 0 ==> {
                &&& spec_samples(final(self).rxpdo.ch1_samples) == spec_filled(old(self).rxpdo.ch1_samples, raw)
                &&& final(self).rxpdo.ch1_cycle_count == spec_bumped(old(self).rxpdo.ch1_cycle_count)
                &&& spec_samples(final(self).rxpdo.ch2_samples) == spec_samples(old(self).rxpdo.ch2_samples)
                &&& final(self).rxpdo.ch2_cycle_count == old(self).rxpdo.ch2_cycle_count
            },
            port == 1 ==> {
                &&& spec_samples(final(self).rxpdo.ch2_samples) == spec_filled(old(self).rxpdo.ch2_samples, raw)
                &&& final(self).rxpdo.ch2_cycle_count == spec_bumped(old(self).rxpdo.ch2_cycle_count)
                &&& spec_samples(final(self).rxpdo.ch1_samples) == spec_samples(old(self).rxpdo.ch1_samples)
                &&& final(self).rxpdo.ch1_cycle_count == old(self).rxpdo.ch1_cycle_count
            },
            port >= 2 ==> {
                &&& spec_samples(final(self).rxpdo.ch1_samples) == spec_samples(old(self).rxpdo.ch1_samples)
                &&& spec_samples(final(self).rxpdo.ch2_samples) == spec_samples(old(self).rxpdo.ch2_samples)
                &&& final(self).rxpdo.ch1_cycle_count == old(self).rxpdo.ch1_cycle_count
                &&& final(self).rxpdo.ch2_cycle_count == old(self).rxpdo.ch2_cycle_count
            },
            final(self).configuration == old(self).configuration,
    {
        if port == 0 {
            match self.rxpdo.ch1_samples.take() {
                Some(mut ch) => {
                    ch.fill(raw);
                    self.rxpdo.ch1_samples = Some(ch);
                },
                None => {},
            }
            bump(&mut self.rxpdo.ch1_cycle_count);
        } else if port == 1 {
            match self.rxpdo.ch2_samples.take() {
                Some(mut ch) => {
                    ch.fill(raw);
                    self.rxpdo.ch2_samples = Some(ch);
                },
                None => {},
            }
            bump(&mut self.rxpdo.ch2_cycle_count);
        }
    }

    /// Writes one raw value per oversampling slot of output `port` and advances
    /// its cycle counter; ports from 2 on are ignored.
    pub fn set_output_samples(&mut self, port: usize, samples: &[i16])
        requires
            port == 0 ==> (old(self).rxpdo.ch1_samples matches Some(ch) ==> ch.samples.len() == samples.len()),
            port == 1 ==> (old(self).rxpdo.ch2_samples matches Some(ch) ==> ch.samples.len() == samples.len()),
        ensures
            port == 0 ==> {
                &&& spec_samples(final(self).rxpdo.ch1_samples) == (if old(self).rxpdo.ch1_samples is Some {
                    Some(samples@)
                } else {
                    None
                })
                &&& final(self).rxpdo.ch1_cycle_count == spec_bumped(old(self).rxpdo.ch1_cycle_count)
                &&& spec_samples(final(self).rxpdo.ch2_samples) == spec_samples(old(self).rxpdo.ch2_samples)
                &&& final(self).rxpdo.ch2_cycle_count == old(self).rxpdo.ch2_cycle_count
            },
            port == 1 ==> {
                &&& spec_samples(final(self).rxpdo.ch2_samples) == (if old(self).rxpdo.ch2_samples is Some {
                    Some(samples@)
                } else {
                    None
                })
                &&& final(self).rxpdo.ch2_cycle_count == spec_bumped(old(self).rxpdo.ch2_cycle_count)
                &&& spec_samples(final(self).rxpdo.ch1_samples) == spec_samples(old(self).rxpdo.ch1_samples)
                &&& final(self).rxpdo.ch1_cycle_count == old(self).rxpdo.ch1_cycle_count
            },
            port >= 2 ==> {
                &&& spec_samples(final(self).rxpdo.ch1_samples) == spec_samples(old(self).rxpdo.ch1_samples)
                &&& spec_samples(final(self).rxpdo.ch2_samples) == spec_samples(old(self).rxpdo.ch2_samples)
                &&& final(self).rxpdo.ch1_cycle_count == old(self).rxpdo.ch1_cycle_count
                &&& final(self).rxpdo.ch2_cycle_count == old(self).rxpdo.ch2_cycle_count
            },
            final(self).configuration == old(self).configuration,
    {
        if port == 0 {
            match self.rxpdo.ch1_samples.take() {
                Some(mut ch) => {
                    ch.copy_from(samples);
                    self.rxpdo.ch1_samples = Some(ch);
                },
                None => {},
            }
            bump(&mut self.rxpdo.ch1_cycle_count);
        } else if port == 1 {
            match self.rxpdo.ch2_samples.take() {
                Some(mut ch) => {
                    ch.copy_from(samples);
                    self.rxpdo.ch2_samples = Some(ch);
                },
                None => {},
            }
            bump(&mut self.rxpdo.ch2_cycle_count);
        }
    }
}

impl ConfigurableDevice<EL4732Configuration> for EL4732 {
    /// Stores the configuration and, once it is stored, adopts it and
    /// rebuilds the output process data for its oversampling factor, so the
    /// in-memory layout matches the terminal's.
    fn write_config(&mut self, ecat_channel: &mut EtherCATThreadChannel, device_address: u16, config: &EL4732Configuration) -> (r: Result<(), ChannelError>)
        ensures
            spec_plan_run(config.spec_plan().len(), r),
            spec_plan_sent(device_address, config.spec_plan(), old(ecat_channel).requests(), final(ecat_channel).requests(), r),
            r is Ok ==> final(self).configuration == *config && spec_fresh_rxpdo(final(self).rxpdo, config.oversample_factor),
            r is Err ==> *final(self) == *old(self),
    {
        let stored = config.write_config(ecat_channel, device_address);
        if stored.is_err() {
            return stored;
        }
        self.rxpdo = EL4732RxPdo::new(config.oversample_factor);
        self.configuration = *config;
        stored
    }

    fn get_config(&self) -> (r: EL4732Configuration)
        ensures
            r == self.configuration,
    {
        self.configuration
    }
}

pub const EL4732_VENDOR_ID: u32 = 0x2;
pub const EL4732_PRODUCT_ID: u32 = 0x127C3052;
pub const EL4732_REVISION_A: u32 = 0x00020000;
pub const EL4732_REVISION_B: u32 = 0x00030000;
pub const EL4732_REVISION_C: u32 = 0x00040000;

} // verus!
