//! WAGO 750 I/O modules behind a 750-354 EtherCAT coupler. Each module sits
//! at a bit offset of the coupler's process data, found when the coupler's
//! PDO mapping is read.
use vstd::prelude::*;
use crate::bits::{
    lemma_field_unchanged, load_u16_le, set_bit, spec_bit, spec_field, spec_image_fits, spec_same_outside, store_u16_le, store_u32_bits,
};
use crate::pdo_objects::TemperatureInputInput;

verus! {

/// Vendor ID of WAGO.
pub const WAGO_VENDOR_ID: u32 = 0x00000021;

/// One module found on a coupler's local bus.
#[derive(Debug, Clone, PartialEq, Eq)]
pub struct Module {
    /// Position on the local bus, from 0.
    pub slot: u16,
    /// Station address of the coupler.
    pub belongs_to_addr: u16,
    pub vendor_id: u32,
    pub product_id: u32,
    pub has_tx: bool,
    pub has_rx: bool,
    /// Bit offset of the module's inputs in the coupler's input data.
    pub tx_offset: usize,
    /// Bit offset of the module's outputs in the coupler's output data.
    pub rx_offset: usize,
    pub name: String,
}

/// Where a module's process data sits, and the module it came from.
#[derive(Debug, Clone)]
pub struct ModuleSlot {
    pub tx_bit_offset: usize,
    pub rx_bit_offset: usize,
    pub module: Option<Module>,
}

impl ModuleSlot {
    /// Not yet placed.
    pub fn new() -> (r: Self)
        ensures
            r.tx_bit_offset == 0,
            r.rx_bit_offset == 0,
            r.module is None,
    {
        ModuleSlot { tx_bit_offset: 0, rx_bit_offset: 0, module: None }
    }

    /// Places the data at the module's offsets and keeps the module.
    pub fn set_module(&mut self, module: Module)
        ensures
            final(self).tx_bit_offset == module.tx_offset,
            final(self).rx_bit_offset == module.rx_offset,
            final(self).module == Some(module),
    {
        self.tx_bit_offset = module.tx_offset;
        self.rx_bit_offset = module.rx_offset;
        self.module = Some(module);
    }
}

/// A module type without process data handling of its own yet: only its
/// placement on the coupler.
#[derive(Debug, Clone)]
pub struct Wago750_XXX {
    pub is_used: bool,
    pub slot: ModuleSlot,
}

impl Wago750_XXX {
    pub fn new() -> (r: Self)
        ensures
            !r.is_used,
            r.slot.module is None,
            r.slot.tx_bit_offset == 0 && r.slot.rx_bit_offset == 0,
    {
        Wago750_XXX { is_used: false, slot: ModuleSlot::new() }
    }

    pub fn set_module(&mut self, module: Module)
        ensures
            final(self).slot.tx_bit_offset == module.tx_offset,
            final(self).slot.rx_bit_offset == module.rx_offset,
            final(self).slot.module == Some(module),
            final(self).is_used == old(self).is_used,
    {
        self.slot.set_module(module);
    }
}

// ---------------------------------------------------------------------------
// 750-460: four Pt1000 / RTD inputs
// ---------------------------------------------------------------------------

/// Temperature inputs of the 750-460.
#[derive(Debug, Clone, Copy, PartialEq, Eq, Structural)]
pub enum Wago750_460Port {
    T1,
    T2,
    T3,
    T4,
}

/// Input data of the 750-460: one 16-bit word per channel, 0.1 °C per digit,
/// without status bits.
#[derive(Debug, Clone, Copy, PartialEq, Eq, Structural)]
pub struct Wago750_460TxPdo {
    pub t1: u16,
    pub t2: u16,
    pub t3: u16,
    pub t4: u16,
}

/// The measurement limit that an open circuit saturates to (+850.0 °C).
pub const WAGO_750_460_OVERRANGE: i16 = 8500;

/// The measurement limit that a short circuit saturates to (-200.0 °C).
pub const WAGO_750_460_UNDERRANGE: i16 = -2000;

/// The word of a port.
pub open spec fn spec_460_raw(pdo: Wago750_460TxPdo, port: Wago750_460Port) -> u16 {
    match port {
        Wago750_460Port::T1 => pdo.t1,
        Wago750_460Port::T2 => pdo.t2,
        Wago750_460Port::T3 => pdo.t3,
        Wago750_460Port::T4 => pdo.t4,
    }
}

/// The reading of a word: the signed value in tenths of a degree; at or past
/// a limit it counts as over- or under-range, and either is an error.
pub open spec fn spec_460_reading(raw: u16) -> TemperatureInputInput {
    let t = raw as i16;
    TemperatureInputInput {
        temperature: t,
        undervoltage: t <= WAGO_750_460_UNDERRANGE,
        overvoltage: t >= WAGO_750_460_OVERRANGE,
        limit1: 0,
        limit2: 0,
        error: t >= WAGO_750_460_OVERRANGE || t <= WAGO_750_460_UNDERRANGE,
        txpdo_state: false,
        txpdo_toggle: false,
    }
}

/// WAGO 750-460, 4-channel analog input for Pt1000 / RTD sensors.
#[derive(Debug, Clone)]
pub struct Wago750_460 {
    pub is_used: bool,
    pub slot: ModuleSlot,
    pub tx_pdo: Wago750_460TxPdo,
}

impl Wago750_460 {
    pub fn new() -> (r: Self)
        ensures
            !r.is_used,
            r.slot.module is None,
            r.slot.tx_bit_offset == 0 && r.slot.rx_bit_offset == 0,
            r.tx_pdo == (Wago750_460TxPdo { t1: 0, t2: 0, t3: 0, t4: 0 }),
    {
        Wago750_460 {
            is_used: false,
            slot: ModuleSlot::new(),
            tx_pdo: Wago750_460TxPdo { t1: 0, t2: 0, t3: 0, t4: 0 },
        }
    }

    /// Bits of input data.
    pub fn input_len(&self) -> (r: usize)
        ensures
            r == 64,
    {
        64
    }

    /// Reads the four words at the module's input offset.
    pub fn input(&mut self, input: &[u8])
        requires
            old(self).slot.tx_bit_offset + 64 <= input.len() * 8,
            spec_image_fits(input.len() as nat),
        ensures
            final(self).tx_pdo.t1 as nat == spec_field(input@, old(self).slot.tx_bit_offset as int, 16),
            final(self).tx_pdo.t2 as nat == spec_field(input@, old(self).slot.tx_bit_offset + 16, 16),
            final(self).tx_pdo.t3 as nat == spec_field(input@, old(self).slot.tx_bit_offset + 32, 16),
            final(self).tx_pdo.t4 as nat == spec_field(input@, old(self).slot.tx_bit_offset + 48, 16),
            final(self).slot.tx_bit_offset == old(self).slot.tx_bit_offset,
            final(self).slot.rx_bit_offset == old(self).slot.rx_bit_offset,
    {
        let base = self.slot.tx_bit_offset;
        self.tx_pdo.t1 = load_u16_le(input, base);
        self.tx_pdo.t2 = load_u16_le(input, base + 16);
        self.tx_pdo.t3 = load_u16_le(input, base + 32);
        self.tx_pdo.t4 = load_u16_le(input, base + 48);
    }

    /// The reading of a temperature input.
    pub fn get_input(&self, port: Wago750_460Port) -> (r: TemperatureInputInput)
        ensures
            r == spec_460_reading(spec_460_raw(self.tx_pdo, port)),
    {
        let raw = match port {
            Wago750_460Port::T1 => self.tx_pdo.t1,
            Wago750_460Port::T2 => self.tx_pdo.t2,
            Wago750_460Port::T3 => self.tx_pdo.t3,
            Wago750_460Port::T4 => self.tx_pdo.t4,
        };
        let t = raw as i16;
        let overrange = t >= WAGO_750_460_OVERRANGE;
        let underrange = t <= WAGO_750_460_UNDERRANGE;
        TemperatureInputInput {
            temperature: t,
            undervoltage: underrange,
            overvoltage: overrange,
            limit1: 0,
            limit2: 0,
            error: overrange || underrange,
            txpdo_state: false,
            txpdo_toggle: false,
        }
    }

    pub fn set_module(&mut self, module: Module)
        ensures
            final(self).slot.tx_bit_offset == module.tx_offset,
            final(self).slot.rx_bit_offset == module.rx_offset,
            final(self).slot.module == Some(module),
            final(self).tx_pdo == old(self).tx_pdo,
    {
        self.slot.set_module(module);
    }
}

pub const WAGO_750_460_PRODUCT_ID: u32 = 0x046041b3;

// ---------------------------------------------------------------------------
// 750-531: four digital outputs
// ---------------------------------------------------------------------------

/// Digital outputs of the 750-531.
#[derive(Debug, Clone, Copy, PartialEq, Eq, Structural)]
pub enum Wago750_531OutputPort {
    DO1,
    DO2,
    DO3,
    DO4,
}

impl Wago750_531OutputPort {
    /// Bit of the port within the module's output data.
    pub fn index(&self) -> (r: usize)
        ensures
            r == spec_531_index(*self),
    {
        match self {
            Wago750_531OutputPort::DO1 => 0,
            Wago750_531OutputPort::DO2 => 1,
            Wago750_531OutputPort::DO3 => 2,
            Wago750_531OutputPort::DO4 => 3,
        }
    }
}

/// Bit of the port within the module's output data.
pub open spec fn spec_531_index(port: Wago750_531OutputPort) -> int {
    match port {
        Wago750_531OutputPort::DO1 => 0,
        Wago750_531OutputPort::DO2 => 1,
        Wago750_531OutputPort::DO3 => 2,
        Wago750_531OutputPort::DO4 => 3,
    }
}

/// Output data of the 750-531.
#[derive(Debug, Clone, Copy, PartialEq, Eq, Structural)]
pub struct Wago750_531RxPdo {
    pub port1: bool,
    pub port2: bool,
    pub port3: bool,
    pub port4: bool,
}

/// The value of a port.
pub open spec fn spec_531_value(pdo: Wago750_531RxPdo, port: Wago750_531OutputPort) -> bool {
    match port {
        Wago750_531OutputPort::DO1 => pdo.port1,
        Wago750_531OutputPort::DO2 => pdo.port2,
        Wago750_531OutputPort::DO3 => pdo.port3,
        Wago750_531OutputPort::DO4 => pdo.port4,
    }
}

/// WAGO 750-531, 4-channel digital output.
#[derive(Debug, Clone)]
pub struct Wago750_531 {
    pub is_used: bool,
    pub slot: ModuleSlot,
    pub rx_pdo: Wago750_531RxPdo,
}

impl Wago750_531 {
    pub fn new() -> (r: Self)
        ensures
            !r.is_used,
            r.slot.module is None,
            r.slot.tx_bit_offset == 0 && r.slot.rx_bit_offset == 0,
            r.rx_pdo == (Wago750_531RxPdo { port1: false, port2: false, port3: false, port4: false }),
    {
        Wago750_531 {
            is_used: false,
            slot: ModuleSlot::new(),
            rx_pdo: Wago750_531RxPdo { port1: false, port2: false, port3: false, port4: false },
        }
    }

    /// Sets a digital output.
    pub fn set_output(&mut self, port: Wago750_531OutputPort, value: bool)
        ensures
            spec_531_value(final(self).rx_pdo, port) == value,
            forall|p: Wago750_531OutputPort| p != port ==> #[trigger] spec_531_value(final(self).rx_pdo, p)
                == spec_531_value(old(self).rx_pdo, p),
            final(self).slot.rx_bit_offset == old(self).slot.rx_bit_offset,
    {
        match port {
            Wago750_531OutputPort::DO1 => self.rx_pdo.port1 = value,
            Wago750_531OutputPort::DO2 => self.rx_pdo.port2 = value,
            Wago750_531OutputPort::DO3 => self.rx_pdo.port3 = value,
            Wago750_531OutputPort::DO4 => self.rx_pdo.port4 = value,
        }
    }

    /// The value a digital output is set to.
    pub fn get_output(&self, port: Wago750_531OutputPort) -> (r: bool)
        ensures
            r == spec_531_value(self.rx_pdo, port),
    {
        match port {
            Wago750_531OutputPort::DO1 => self.rx_pdo.port1,
            Wago750_531OutputPort::DO2 => self.rx_pdo.port2,
            Wago750_531OutputPort::DO3 => self.rx_pdo.port3,
            Wago750_531OutputPort::DO4 => self.rx_pdo.port4,
        }
    }

    /// Bits of output data.
    pub fn output_len(&self) -> (r: usize)
        ensures
            r == 4,
    {
        4
    }

    /// Writes the four outputs to consecutive bits at the module's output offset.
    pub fn output(&self, output: &mut [u8])
        requires
            self.slot.rx_bit_offset + 4 <= old(output).len() * 8,
            spec_image_fits(old(output).len() as nat),
        ensures
            spec_same_outside(final(output)@, old(output)@, self.slot.rx_bit_offset as int, 4),
            forall|p: Wago750_531OutputPort| #[trigger] spec_bit(final(output)@, self.slot.rx_bit_offset + spec_531_index(p))
                == spec_531_value(self.rx_pdo, p),
    {
        let base = self.slot.rx_bit_offset;
        let ghost o0 = output@;
        set_bit(output, base, self.rx_pdo.port1);
        let ghost o1 = output@;
        set_bit(output, base + 1, self.rx_pdo.port2);
        let ghost o2 = output@;
        set_bit(output, base + 2, self.rx_pdo.port3);
        let ghost o3 = output@;
        set_bit(output, base + 3, self.rx_pdo.port4);
        proof {
            assert(spec_bit(output@, base as int) == self.rx_pdo.port1) by {
                assert(spec_bit(o2, base as int) == spec_bit(o1, base as int));
                assert(spec_bit(o3, base as int) == spec_bit(o2, base as int));
                assert(spec_bit(output@, base as int) == spec_bit(o3, base as int));
            }
            assert(spec_bit(output@, base + 1) == self.rx_pdo.port2) by {
                assert(spec_bit(o3, base + 1) == spec_bit(o2, base + 1));
                assert(spec_bit(output@, base + 1) == spec_bit(o3, base + 1));
            }
            assert(spec_bit(output@, base + 2) == self.rx_pdo.port3) by {
                assert(spec_bit(output@, base + 2) == spec_bit(o3, base + 2));
            }
            assert forall|k: int| 0 <= k < output@.len() * 8 && !(base <= k < base + 4) implies
                #[trigger] spec_bit(output@, k) == spec_bit(o0, k) by {
                assert(spec_bit(o1, k) == spec_bit(o0, k));
                assert(spec_bit(o2, k) == spec_bit(o1, k));
                assert(spec_bit(o3, k) == spec_bit(o2, k));
                assert(spec_bit(output@, k) == spec_bit(o3, k));
            }
        }
    }

    pub fn set_module(&mut self, module: Module)
        ensures
            final(self).slot.tx_bit_offset == module.tx_offset,
            final(self).slot.rx_bit_offset == module.rx_offset,
            final(self).slot.module == Some(module),
            final(self).rx_pdo == old(self).rx_pdo,
    {
        self.slot.set_module(module);
    }
}

pub const WAGO_750_531_PRODUCT_ID: u32 = 2147483714;

// ---------------------------------------------------------------------------
// 750-554: two 4-20 mA analog outputs
// ---------------------------------------------------------------------------

/// Full scale: `0x0000` is 4 mA, `0x7FFF` is 20 mA.
pub const WAGO_750_554_MAX_RAW: u16 = 0x7FFF;

/// The 12 significant bits of an output word (B3..B14); the module ignores the rest.
pub const WAGO_750_554_VALUE_MASK: u16 = 0x7FF8;

/// Output data of the 750-554: one word per channel.
#[derive(Debug, Clone, Copy, PartialEq, Eq, Structural)]
pub struct Wago750_554RxPdo {
    pub channel1: u16,
    pub channel2: u16,
}

/// WAGO 750-554, 2-channel analog current output, 12-bit, 4-20 mA.
#[derive(Debug, Clone)]
pub struct Wago750_554 {
    pub is_used: bool,
    pub slot: ModuleSlot,
    pub rx_pdo: Wago750_554RxPdo,
}

impl Wago750_554 {
    pub fn new() -> (r: Self)
        ensures
            !r.is_used,
            r.slot.module is None,
            r.slot.tx_bit_offset == 0 && r.slot.rx_bit_offset == 0,
            r.rx_pdo == (Wago750_554RxPdo { channel1: 0, channel2: 0 }),
    {
        Wago750_554 {
            is_used: false,
            slot: ModuleSlot::new(),
            rx_pdo: Wago750_554RxPdo { channel1: 0, channel2: 0 },
        }
    }

    /// Number of outputs.
    pub fn get_port_count(&self) -> (r: usize)
        ensures
            r == 2,
    {
        2
    }

    /// Lowest output current, in mA.
    pub fn get_minimum_output_milliamps(&self) -> (r: u32)
        ensures
            r == 4,
    {
        4
    }

    /// Highest output current, in mA.
    pub fn get_maximum_output_milliamps(&self) -> (r: u32)
        ensures
            r == 20,
    {
        20
    }

    /// Sets output `port` to a raw word, keeping only its significant bits;
    /// ports from 2 on are ignored.
    pub fn set_output_raw(&mut self, port: usize, raw: u16)
        ensures
            port == 0 ==> final(self).rx_pdo == (Wago750_554RxPdo {
                channel1: raw & WAGO_750_554_VALUE_MASK,
                ..old(self).rx_pdo
            }),
            port == 1 ==> final(self).rx_pdo == (Wago750_554RxPdo {
                channel2: raw & WAGO_750_554_VALUE_MASK,
                ..old(self).rx_pdo
            }),
            port >= 2 ==> final(self).rx_pdo == old(self).rx_pdo,
            final(self).slot.rx_bit_offset == old(self).slot.rx_bit_offset,
    {
        let value = raw & WAGO_750_554_VALUE_MASK;
        if port == 0 {
            self.rx_pdo.channel1 = value;
        } else if port == 1 {
            self.rx_pdo.channel2 = value;
        }
    }

    /// Bits of output data.
    pub fn output_len(&self) -> (r: usize)
        ensures
            r == 32,
    {
        32
    }

    /// Writes both words, channel 1 first, at the module's output offset.
    pub fn output(&self, output: &mut [u8])
        requires
            self.slot.rx_bit_offset + 32 <= old(output).len() * 8,
            spec_image_fits(old(output).len() as nat),
        ensures
            spec_field(final(output)@, self.slot.rx_bit_offset as int, 16) == self.rx_pdo.channel1 as nat,
            spec_field(final(output)@, self.slot.rx_bit_offset + 16, 16) == self.rx_pdo.channel2 as nat,
            final(output)@.len() == old(output)@.len(),
    {
        let base = self.slot.rx_bit_offset;
        store_u16_le(output, base, self.rx_pdo.channel1);
        let ghost mid = output@;
        store_u16_le(output, base + 16, self.rx_pdo.channel2);
        proof {
            lemma_field_unchanged(output@, mid, base as int, 16, base + 16, 16);
        }
    }

    pub fn set_module(&mut self, module: Module)
        ensures
            final(self).slot.tx_bit_offset == module.tx_offset,
            final(self).slot.rx_bit_offset == module.rx_offset,
            final(self).slot.module == Some(module),
            final(self).rx_pdo == old(self).rx_pdo,
    {
        self.slot.set_module(module);
    }
}

pub const WAGO_750_554_PRODUCT_ID: u32 = 0x055442cd;

// ---------------------------------------------------------------------------
// 750-671 and 750-672 stepper controllers (speed control process image)
// ---------------------------------------------------------------------------

/// A 24-bit two's complement value from its low, middle and high byte.
pub open spec fn spec_i24(l: u8, m: u8, h: u8) -> int {
    let raw = l as int + 256 * (m as int) + 65536 * (h as int);
    if h >= 128 { raw - 0x0100_0000 } else { raw }
}

/// Decodes a 24-bit two's complement position.
pub fn decode_i24(l: u8, m: u8, h: u8) -> (r: i32)
    ensures
        r as int == spec_i24(l, m, h),
{
    let raw: i32 = l as i32 + 256 * (m as i32) + 65536 * (h as i32);
    if h >= 128 {
        raw - 0x0100_0000
    } else {
        raw
    }
}

/// A signed 16-bit word from its little-endian bytes.
pub open spec fn spec_le_i16(lo: u8, hi: u8) -> i16 {
    (lo as u16 + 256 * (hi as u16)) as u16 as i16
}

/// A signed 16-bit word from its little-endian bytes.
pub fn le_i16(lo: u8, hi: u8) -> (r: i16)
    ensures
        r == spec_le_i16(lo, hi),
{
    let w: u16 = lo as u16 + 256 * (hi as u16);
    w as i16
}

/// Where a stepper controller stands in its enable and error-recovery sequence.
#[derive(Debug, Clone, Copy, PartialEq, Eq, Structural)]
pub enum InitState {
    Off,
    Enable,
    SetMode,
    StartPulseStart,
    StartPulseEnd,
    Running,
    ErrorQuit,
    ResetQuit,
}

/// Masks of the control and status bits that a stepper controller's enable
/// sequence writes and reads. The controller's manual gives their positions;
/// each flag is one bit, and the speed control bits are or-ed into control
/// byte C1 beside the flags and acknowledged by the same bits of S1.
#[derive(Debug, Clone, Copy)]
pub struct StepperBits {
    pub c1_enable: u8,
    pub c1_stop2_n: u8,
    pub c1_start: u8,
    pub c1_speed_control: u8,
    pub c2_error_quit: u8,
    pub c3_reset_quit: u8,
    pub s1_ready: u8,
    pub s1_start_ack: u8,
    pub s2_error: u8,
    pub s3_reset: u8,
    pub s3_inputs: [u8; 6],
}

/// Writes the twelve bytes of a stepper controller's output data one after
/// the other from bit `base` on.
fn store_stepper_bytes(output: &mut [u8], base: usize, bytes: [u8; 12])
    requires
        base + 96 <= old(output).len() * 8,
        spec_image_fits(old(output).len() as nat),
    ensures
        final(output)@.len() == old(output)@.len(),
        forall|i: int| 0 <= i < 12 ==> spec_field(final(output)@, base + 8 * i, 8) == (#[trigger] bytes[i]) as nat,
{
    let mut i: usize = 0;
    while i < 12
        invariant
            i <= 12,
            base + 96 <= output@.len() * 8,
            output@.len() == old(output)@.len(),
            spec_image_fits(output@.len() as nat),
            forall|k: int| 0 <= k < i ==> spec_field(output@, base + 8 * k, 8) == (#[trigger] bytes[k]) as nat,
        decreases 12 - i,
    {
        let ghost before = output@;
        store_u32_bits(output, base + 8 * i, 8, bytes[i] as u32);
        proof {
            vstd::arithmetic::power2::lemma2_to64();
            assert(bytes[i as int] as nat % vstd::arithmetic::power2::pow2(8) == bytes[i as int] as nat);
            assert forall|k: int| 0 <= k < i implies spec_field(output@, base + 8 * k, 8) == (#[trigger] bytes[k]) as nat by {
                lemma_field_unchanged(output@, before, base + 8 * k, 8, base + 8 * i, 8);
            }
        }
        i += 1;
    }
}

/// Output data of the 750-671 in speed control.
#[derive(Debug, Clone, Copy, PartialEq, Eq, Structural)]
pub struct Wago750_671RxPdo {
    pub control_byte0: u8,
    pub velocity: i16,
    pub acceleration: u16,
    pub target_position_l: u8,
    pub target_position_m: u8,
    pub target_position_h: u8,
    pub control_byte3: u8,
    pub control_byte2: u8,
    pub control_byte1: u8,
}

/// Input data of the 750-671 and the 750-672 in speed control.
#[derive(Debug, Clone, Copy, PartialEq, Eq, Structural)]
pub struct Wago750_671TxPdo {
    pub status_byte0: u8,
    pub actual_velocity: i16,
    pub position_l: u8,
    pub position_m: u8,
    pub position_h: u8,
    pub status_byte3: u8,
    pub status_byte2: u8,
    pub status_byte1: u8,
}

/// The input data in the controller's twelve input bytes: S0, the velocity in
/// bytes 2 and 3, the position in bytes 6 to 8, then S3, S2, S1.
pub open spec fn spec_stepper_txpdo(b: Seq<u8>) -> Wago750_671TxPdo {
    Wago750_671TxPdo {
        status_byte0: b[0],
        actual_velocity: spec_le_i16(b[2], b[3]),
        position_l: b[6],
        position_m: b[7],
        position_h: b[8],
        status_byte3: b[9],
        status_byte2: b[10],
        status_byte1: b[11],
    }
}

/// Decodes the twelve input bytes of a stepper controller.
pub fn stepper_txpdo_from_bytes(b: &[u8; 12]) -> (r: Wago750_671TxPdo)
    ensures
        r == spec_stepper_txpdo(b@),
{
    Wago750_671TxPdo {
        status_byte0: b[0],
        actual_velocity: le_i16(b[2], b[3]),
        position_l: b[6],
        position_m: b[7],
        position_h: b[8],
        status_byte3: b[9],
        status_byte2: b[10],
        status_byte1: b[11],
    }
}

/// Digital inputs of the 750-671.
#[derive(Debug, Clone, Copy, PartialEq, Eq, Structural)]
pub enum Wago750_671InputPort {
    DI1,
    DI2,
}

/// Mailbox bit (C0.5) of control byte 0.
pub const WAGO_STEPPER_MAILBOX_BIT: u8 = 0b0010_0000;

/// WAGO 750-671 stepper controller, 24 V DC / 1.5 A, in speed control.
#[derive(Debug, Clone)]
pub struct Wago750_671 {
    pub is_used: bool,
    pub slot: ModuleSlot,
    pub rxpdo: Wago750_671RxPdo,
    pub txpdo: Wago750_671TxPdo,
    pub bits: StepperBits,
    pub state: InitState,
    pub initialized: bool,
    pub desired_mode: u8,
    pub desired_stop2_n: bool,
    pub desired_control_byte3: u8,
    pub start_requested: bool,
    pub mailbox_active: bool,
    pub mailbox_toggle: bool,
    pub mailbox_pending: Option<[u8; 6]>,
    pub mailbox_in_flight: bool,
    pub mailbox_return_to_speed_mode: bool,
    pub mailbox_last_status_toggle: bool,
    pub mailbox_logged_dispatch: bool,
}

impl Wago750_671 {
    /// A controller that is off, with no mailbox command, set for speed
    /// control.
    pub fn new(bits: StepperBits) -> (r: Self)
        ensures
            r.bits == bits,
            r.desired_mode == bits.c1_speed_control,
            r.desired_control_byte3 == 0,
            !r.start_requested,
            r.state == InitState::Off,
            !r.initialized,
            r.desired_stop2_n,
            r.mailbox_pending is None,
            !r.mailbox_active && !r.mailbox_toggle && !r.mailbox_in_flight,
            !r.is_used,
    {
        Wago750_671 {
            is_used: false,
            slot: ModuleSlot::new(),
            rxpdo: Wago750_671RxPdo {
                control_byte0: 0,
                velocity: 0,
                acceleration: 0,
                target_position_l: 0,
                target_position_m: 0,
                target_position_h: 0,
                control_byte3: 0,
                control_byte2: 0,
                control_byte1: 0,
            },
            txpdo: Wago750_671TxPdo {
                status_byte0: 0,
                actual_velocity: 0,
                position_l: 0,
                position_m: 0,
                position_h: 0,
                status_byte3: 0,
                status_byte2: 0,
                status_byte1: 0,
            },
            bits,
            state: InitState::Off,
            initialized: false,
            desired_mode: bits.c1_speed_control,
            desired_stop2_n: true,
            desired_control_byte3: 0,
            start_requested: false,
            mailbox_active: false,
            mailbox_toggle: false,
            mailbox_pending: None,
            mailbox_in_flight: false,
            mailbox_return_to_speed_mode: false,
            mailbox_last_status_toggle: false,
            mailbox_logged_dispatch: false,
        }
    }

    /// Queues a mailbox command. The toggle bit flips, so the controller sees
    /// a new command; its state (bit 7 of the second byte) travels with it.
    pub fn queue_mailbox_command(
        &mut self,
        opcode: u8,
        p1: u8,
        p2: u8,
        p3: u8,
        p4: u8,
        return_to_speed_mode: bool,
    )
        ensures
            final(self).mailbox_toggle == !old(self).mailbox_toggle,
            final(self).mailbox_pending == Some([
                opcode,
                if final(self).mailbox_toggle { 0x80u8 } else { 0x00u8 },
                p1,
                p2,
                p3,
                p4,
            ]),
            final(self).mailbox_active,
            !final(self).mailbox_in_flight,
            final(self).mailbox_return_to_speed_mode == return_to_speed_mode,
            !final(self).mailbox_logged_dispatch,
            final(self).rxpdo == old(self).rxpdo,
            final(self).state == old(self).state,
    {
        self.mailbox_toggle = !self.mailbox_toggle;
        let control_mbx: u8 = if self.mailbox_toggle { 0x80 } else { 0x00 };
        self.mailbox_pending = Some([opcode, control_mbx, p1, p2, p3, p4]);
        self.mailbox_active = true;
        self.mailbox_in_flight = false;
        self.mailbox_return_to_speed_mode = return_to_speed_mode;
        self.mailbox_logged_dispatch = false;
    }

    /// Places a mailbox command into the output data: the first four bytes in
    /// the velocity and acceleration words, the last two in the position bytes.
    pub fn apply_mailbox_bytes(&mut self, bytes: [u8; 6])
        ensures
            final(self).rxpdo.velocity == spec_le_i16(bytes[0], bytes[1]),
            final(self).rxpdo.acceleration == (bytes[2] as u16 + 256 * (bytes[3] as u16)) as u16,
            final(self).rxpdo.target_position_l == bytes[4],
            final(self).rxpdo.target_position_m == bytes[5],
            final(self).rxpdo.target_position_h == 0,
            final(self).rxpdo.control_byte0 == old(self).rxpdo.control_byte0,
            final(self).rxpdo.control_byte1 == old(self).rxpdo.control_byte1,
            final(self).rxpdo.control_byte2 == old(self).rxpdo.control_byte2,
            final(self).rxpdo.control_byte3 == old(self).rxpdo.control_byte3,
    {
        self.rxpdo.velocity = le_i16(bytes[0], bytes[1]);
        self.rxpdo.acceleration = bytes[2] as u16 + 256 * (bytes[3] as u16);
        self.rxpdo.target_position_l = bytes[4];
        self.rxpdo.target_position_m = bytes[5];
        self.rxpdo.target_position_h = 0;
    }

    /// Sets or clears the mailbox bit of control byte 0.
    pub fn set_mailbox_bit(&mut self, active: bool)
        ensures
            active ==> final(self).rxpdo.control_byte0 == old(self).rxpdo.control_byte0 | WAGO_STEPPER_MAILBOX_BIT,
            !active ==> final(self).rxpdo.control_byte0 == old(self).rxpdo.control_byte0 & !WAGO_STEPPER_MAILBOX_BIT,
            final(self).rxpdo == (Wago750_671RxPdo { control_byte0: final(self).rxpdo.control_byte0, ..old(self).rxpdo }),
    {
        if active {
            self.rxpdo.control_byte0 = self.rxpdo.control_byte0 | WAGO_STEPPER_MAILBOX_BIT;
        } else {
            self.rxpdo.control_byte0 = self.rxpdo.control_byte0 & !WAGO_STEPPER_MAILBOX_BIT;
        }
    }

    /// Bits of input data.
    pub fn input_len(&self) -> (r: usize)
        ensures
            r == 96,
    {
        96
    }

    /// Bits of output data.
    pub fn output_len(&self) -> (r: usize)
        ensures
            r == 96,
    {
        96
    }

    /// Writes the output data at the module's output offset, in the order
    /// of [`spec_671_output_bytes`].
    pub fn output(&self, output: &mut [u8])
        requires
            self.slot.rx_bit_offset + 96 <= old(output).len() * 8,
            spec_image_fits(old(output).len() as nat),
        ensures
            final(output)@.len() == old(output)@.len(),
            forall|i: int| 0 <= i < 12 ==> spec_field(final(output)@, self.slot.rx_bit_offset + 8 * i, 8)
                == (#[trigger] spec_671_output_bytes(self.rxpdo)[i]) as nat,
    {
        let bytes = self.rxpdo.to_bytes();
        store_stepper_bytes(output, self.slot.rx_bit_offset, bytes);
    }

    pub fn set_module(&mut self, module: Module)
        ensures
            final(self).slot.tx_bit_offset == module.tx_offset,
            final(self).slot.rx_bit_offset == module.rx_offset,
            final(self).slot.module == Some(module),
            final(self).rxpdo == old(self).rxpdo,
            final(self).state == old(self).state,
    {
        self.slot.set_module(module);
    }
}

/// The twelve output bytes of the 750-671: C0, a reserved zero, the velocity
/// and acceleration words little-endian, the three position bytes, then C3, C2, C1.
pub open spec fn spec_671_output_bytes(p: Wago750_671RxPdo) -> Seq<u8> {
    let v = p.velocity as u16;
    seq![
        p.control_byte0, 0u8, (v % 256) as u8, (v / 256) as u8,
        (p.acceleration % 256) as u8, (p.acceleration / 256) as u8,
        p.target_position_l, p.target_position_m, p.target_position_h,
        p.control_byte3, p.control_byte2, p.control_byte1,
    ]
}

impl Wago750_671RxPdo {
    /// The twelve output bytes, in the order they go on the wire.
    pub fn to_bytes(&self) -> (r: [u8; 12])
        ensures
            r@ == spec_671_output_bytes(*self),
    {
        let v = self.velocity as u16;
        let r = [
            self.control_byte0, 0, (v % 256) as u8, (v / 256) as u8,
            (self.acceleration % 256) as u8, (self.acceleration / 256) as u8,
            self.target_position_l, self.target_position_m, self.target_position_h,
            self.control_byte3, self.control_byte2, self.control_byte1,
        ];
        assert(r@ =~= spec_671_output_bytes(*self));
        r
    }
}

/// Output data of the 750-672 in speed control.
#[derive(Debug, Clone, Copy, PartialEq, Eq, Structural)]
pub struct Wago750_672RxPdo {
    pub control_byte: u8,
    pub velocity: i16,
    pub acceleration: u16,
    pub control_byte3: u8,
    pub control_byte2: u8,
    pub control_byte1: u8,
}

/// Input data of the 750-672: the same layout as the 750-671's.
pub type Wago750_672TxPdo = Wago750_671TxPdo;

/// The twelve output bytes of the 750-672: C0, a reserved zero, the velocity
/// and acceleration words little-endian, three zero bytes, then C3, C2, C1.
pub open spec fn spec_672_output_bytes(p: Wago750_672RxPdo) -> Seq<u8> {
    let v = p.velocity as u16;
    seq![
        p.control_byte, 0u8, (v % 256) as u8, (v / 256) as u8,
        (p.acceleration % 256) as u8, (p.acceleration / 256) as u8,
        0u8, 0u8, 0u8,
        p.control_byte3, p.control_byte2, p.control_byte1,
    ]
}

impl Wago750_672RxPdo {
    /// The twelve output bytes, in the order they go on the wire.
    pub fn to_bytes(&self) -> (r: [u8; 12])
        ensures
            r@ == spec_672_output_bytes(*self),
    {
        let v = self.velocity as u16;
        let r = [
            self.control_byte, 0, (v % 256) as u8, (v / 256) as u8,
            (self.acceleration % 256) as u8, (self.acceleration / 256) as u8,
            0, 0, 0,
            self.control_byte3, self.control_byte2, self.control_byte1,
        ];
        assert(r@ =~= spec_672_output_bytes(*self));
        r
    }
}

/// Digital inputs of the 750-672.
#[derive(Debug, Clone, Copy, PartialEq, Eq, Structural)]
pub enum Wago750_672InputPort {
    DI1,
    DI2,
    DI3,
    DI4,
    DI5,
    DI6,
}

/// WAGO 750-672 stepper controller, 70 V DC / 7.5 A, in speed control.
#[derive(Debug, Clone)]
pub struct Wago750_672 {
    pub is_used: bool,
    pub slot: ModuleSlot,
    pub rxpdo: Wago750_672RxPdo,
    pub txpdo: Wago750_672TxPdo,
    pub bits: StepperBits,
    pub state: InitState,
    pub initialized: bool,
}

impl Wago750_672 {
    /// A controller that is off, with all process data zero.
    pub fn new(bits: StepperBits) -> (r: Self)
        ensures
            r.bits == bits,
            r.state == InitState::Off,
            !r.initialized,
            !r.is_used,
            r.slot.module is None,
            r.slot.tx_bit_offset == 0 && r.slot.rx_bit_offset == 0,
            r.rxpdo == (Wago750_672RxPdo {
                control_byte: 0, velocity: 0, acceleration: 0, control_byte3: 0, control_byte2: 0, control_byte1: 0,
            }),
            r.txpdo == (Wago750_671TxPdo {
                status_byte0: 0, actual_velocity: 0, position_l: 0, position_m: 0, position_h: 0,
                status_byte3: 0, status_byte2: 0, status_byte1: 0,
            }),
    {
        Wago750_672 {
            is_used: false,
            slot: ModuleSlot::new(),
            rxpdo: Wago750_672RxPdo {
                control_byte: 0,
                velocity: 0,
                acceleration: 0,
                control_byte3: 0,
                control_byte2: 0,
                control_byte1: 0,
            },
            txpdo: Wago750_671TxPdo {
                status_byte0: 0,
                actual_velocity: 0,
                position_l: 0,
                position_m: 0,
                position_h: 0,
                status_byte3: 0,
                status_byte2: 0,
                status_byte1: 0,
            },
            bits,
            state: InitState::Off,
            initialized: false,
        }
    }

    /// Number of digital inputs.
    pub fn get_port_count(&self) -> (r: usize)
        ensures
            r == 6,
    {
        6
    }

    /// Bits of input data.
    pub fn input_len(&self) -> (r: usize)
        ensures
            r == 96,
    {
        96
    }

    /// Bits of output data.
    pub fn output_len(&self) -> (r: usize)
        ensures
            r == 96,
    {
        96
    }

    /// Writes the output data at the module's output offset, in the order
    /// of [`spec_672_output_bytes`].
    pub fn output(&self, output: &mut [u8])
        requires
            self.slot.rx_bit_offset + 96 <= old(output).len() * 8,
            spec_image_fits(old(output).len() as nat),
        ensures
            final(output)@.len() == old(output)@.len(),
            forall|i: int| 0 <= i < 12 ==> spec_field(final(output)@, self.slot.rx_bit_offset + 8 * i, 8)
                == (#[trigger] spec_672_output_bytes(self.rxpdo)[i]) as nat,
    {
        let bytes = self.rxpdo.to_bytes();
        store_stepper_bytes(output, self.slot.rx_bit_offset, bytes);
    }

    pub fn set_module(&mut self, module: Module)
        ensures
            final(self).slot.tx_bit_offset == module.tx_offset,
            final(self).slot.rx_bit_offset == module.rx_offset,
            final(self).slot.module == Some(module),
            final(self).rxpdo == old(self).rxpdo,
            final(self).state == old(self).state,
    {
        self.slot.set_module(module);
    }
}

pub const WAGO_750_671_PRODUCT_ID: u32 = 108074216;
pub const WAGO_750_672_PRODUCT_ID: u32 = 108139752;

} // verus!
