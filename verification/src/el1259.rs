//! The EL1259 terminal: eight multi-timestamp inputs and eight multi-timestamp
//! outputs. Input events are collected into per-channel queues; output events
//! are queued by the caller and handed to the terminal at most ten per cycle,
//! as its buffer has room.
use vstd::prelude::*;
use crate::coe::{ConfigurableDevice, Configuration};
use crate::thread_channel::{spec_plan_run, spec_plan_sent, ChannelError, EtherCATThreadChannel};
use crate::sdo::{SdoWrite, spec_list_plan, assign_pdos, TX_PDO_ASSIGNMENT_REG, RX_PDO_ASSIGNMENT_REG, SdoValue};
use crate::bits::{
    get_bit, lemma_field_bound, lemma_field_unchanged, load_u32_bits, set_bit, spec_bit, spec_field, spec_image_fits,
    spec_same_outside, store_u32_bits,
};

verus! {

/// Number of input channels and of output channels.
pub const EL1259_CHANNELS: usize = 8;

/// Events that one process data object carries.
pub const EL1259_EVENTS_PER_PDO: usize = 10;

/// Capacity of a channel's output event buffer on the terminal.
pub const EL1259_OUTPUT_BUFFER_SLOTS: usize = 32;

/// One timestamped edge: the value the channel takes at a distributed-clock time.
#[derive(Debug, Clone, Copy, PartialEq, Eq, Structural)]
pub struct MultiTimestampEvent {
    pub value: bool,
    pub dc_timestamp_ns: u32,
}

impl Default for MultiTimestampEvent {
    fn default() -> (r: Self)
        ensures
            r == (MultiTimestampEvent { value: false, dc_timestamp_ns: 0 }),
    {
        MultiTimestampEvent { value: false, dc_timestamp_ns: 0 }
    }
}

/// Output data of one multi-timestamp output channel: up to ten events to buffer.
#[derive(Debug, Clone, Copy)]
pub struct EL1259MtoRxChannel {
    /// If set, clear the event buffer.
    pub output_buffer_reset: bool,
    /// The value output while manual operation is enabled.
    pub manual_output_state: bool,
    /// If set, all buffered events are applied in sequence, even those in the past.
    pub force_order: bool,
    /// If set, output `manual_output_state` regardless of the buffer.
    pub enable_manual_operation: bool,
    /// Incremented to tell the channel that new events are to be read.
    pub output_order_count: u8,
    /// Number of valid entries in `output_events`.
    pub number_of_output_events: u8,
    pub output_events: [MultiTimestampEvent; 10],
}

/// Output data of one multi-timestamp input channel.
#[derive(Debug, Clone, Copy, PartialEq, Eq, Structural)]
pub struct EL1259MtiRxChannel {
    /// If set, clear the event buffer.
    pub input_buffer_reset: bool,
    /// Incremented to allow the channel to send new input events.
    pub input_order_counter: u8,
}

/// Input data of one multi-timestamp output channel: its status.
#[derive(Debug, Clone, Copy, PartialEq, Eq, Structural)]
pub struct EL1259MtoTxChannel {
    pub output_short_circuit: bool,
    pub output_buffer_overflow: bool,
    /// The channel's value in the current cycle.
    pub output_state: bool,
    /// Two-bit counter of process cycles.
    pub input_cycle_counter: u8,
    /// Mirrors `output_order_count` once the channel has stored the events sent.
    pub output_order_feedback: u8,
    /// Events currently in the channel's buffer (at most 32).
    pub events_in_output_buffer: u8,
}

/// Input data of one multi-timestamp input channel: its events and status.
#[derive(Debug, Clone, Copy)]
pub struct EL1259MtiTxChannel {
    /// Number of valid entries in `input_events`.
    pub number_of_input_events: u8,
    /// The channel's value in the current cycle.
    pub input_state: bool,
    pub input_buffer_overflow: bool,
    /// Two-bit counter of process cycles.
    pub input_cycle_counter: u8,
    pub events_in_input_buffer: u8,
    /// Mirrors `input_order_counter`; when the two agree, events can be read.
    pub input_order_feedback: u8,
    pub input_events: [MultiTimestampEvent; 10],
}

/// The valid input events of a channel's input data.
pub open spec fn spec_input_events(c: EL1259MtiTxChannel) -> Seq<MultiTimestampEvent> {
    c.input_events@.subrange(0, c.number_of_input_events as int)
}

impl EL1259MtiTxChannel {
    /// The valid input events.
    pub fn get_events(&self) -> (r: &[MultiTimestampEvent])
        requires
            self.number_of_input_events <= 10,
        ensures
            r@ == spec_input_events(*self),
    {
        let n = self.number_of_input_events as usize;
        let events = self.input_events.as_slice();
        slice_prefix(events, n)
    }
}

/// The first `n` entries of a slice.
fn slice_prefix(s: &[MultiTimestampEvent], n: usize) -> (r: &[MultiTimestampEvent])
    requires
        n <= s.len(),
    ensures
        r@ == s@.subrange(0, n as int),
{
    vstd::slice::slice_subrange(s, 0, n)
}

impl EL1259MtoRxChannel {
    /// Places the events into the object and sets their count.
    pub fn set_events(&mut self, events: &[MultiTimestampEvent])
        requires
            events.len() <= 10,
        ensures
            final(self).number_of_output_events == events.len(),
            final(self).output_events@.subrange(0, events.len() as int) == events@,
            final(self).output_events@.subrange(events.len() as int, 10)
                == old(self).output_events@.subrange(events.len() as int, 10),
            final(self).output_buffer_reset == old(self).output_buffer_reset,
            final(self).manual_output_state == old(self).manual_output_state,
            final(self).force_order == old(self).force_order,
            final(self).enable_manual_operation == old(self).enable_manual_operation,
            final(self).output_order_count == old(self).output_order_count,
    {
        let len = events.len();
        self.number_of_output_events = len as u8;
        let mut i: usize = 0;
        while i < len
            invariant
                i <= len,
                len == events.len(),
                len <= 10,
                self.number_of_output_events == len,
                forall|k: int| 0 <= k < i ==> self.output_events@[k] == events@[k],
                forall|k: int| len <= k < 10 ==> self.output_events@[k] == old(self).output_events@[k],
                self.output_buffer_reset == old(self).output_buffer_reset,
                self.manual_output_state == old(self).manual_output_state,
                self.force_order == old(self).force_order,
                self.enable_manual_operation == old(self).enable_manual_operation,
                self.output_order_count == old(self).output_order_count,
            decreases len - i,
        {
            self.output_events[i] = events[i];
            i += 1;
        }
        assert(self.output_events@.subrange(0, len as int) =~= events@);
        assert(self.output_events@.subrange(len as int, 10) =~= old(self).output_events@.subrange(len as int, 10));
    }
}


/// Bit length of a multi-timestamp output or input event object.
pub const EL1259_EVENT_OBJECT_BITS: usize = 384;

/// Bit length of a channel's status or order object.
pub const EL1259_STATUS_OBJECT_BITS: usize = 32;

/// The output object of a channel as it lies in the output image from bit
/// `off`: the four flags in bits 0..4, the order count in 8..16, the event
/// count in 16..24, the value of event `i` in bit `32 + i` and its timestamp
/// in bits `64 + 32 i .. 96 + 32 i`, for the events that count.
pub open spec fn spec_mto_written(c: EL1259MtoRxChannel, b: Seq<u8>, off: int) -> bool {
    &&& spec_bit(b, off) == c.output_buffer_reset
    &&& spec_bit(b, off + 1) == c.manual_output_state
    &&& spec_bit(b, off + 2) == c.force_order
    &&& spec_bit(b, off + 3) == c.enable_manual_operation
    &&& spec_field(b, off + 8, 8) == c.output_order_count as nat
    &&& spec_field(b, off + 16, 8) == c.number_of_output_events as nat
    &&& forall|i: int| 0 <= i < c.number_of_output_events ==> #[trigger] spec_mto_event_written(c, b, off, i)
}

/// Event `i` of the output object lies at its place.
pub open spec fn spec_mto_event_written(c: EL1259MtoRxChannel, b: Seq<u8>, off: int, i: int) -> bool {
    &&& spec_bit(b, off + 32 + i) == c.output_events[i].value
    &&& spec_field(b, off + 64 + 32 * i, 32) == c.output_events[i].dc_timestamp_ns as nat
}

impl EL1259MtoRxChannel {
    /// Writes the object into the output image at bit `off`; bits outside the
    /// object keep their values.
    pub fn write(&self, bytes: &mut [u8], off: usize)
        requires
            self.number_of_output_events <= 10,
            off + EL1259_EVENT_OBJECT_BITS <= old(bytes).len() * 8,
            spec_image_fits(old(bytes).len() as nat),
        ensures
            spec_mto_written(*self, final(bytes)@, off as int),
            spec_same_outside(final(bytes)@, old(bytes)@, off as int, EL1259_EVENT_OBJECT_BITS as int),
    {
        let ghost b0 = bytes@;
        set_bit(bytes, off, self.output_buffer_reset);
        set_bit(bytes, off + 1, self.manual_output_state);
        set_bit(bytes, off + 2, self.force_order);
        set_bit(bytes, off + 3, self.enable_manual_operation);
        let ghost b4 = bytes@;
        store_u32_bits(bytes, off + 8, 8, self.output_order_count as u32);
        let ghost b5 = bytes@;
        store_u32_bits(bytes, off + 16, 8, self.number_of_output_events as u32);
        proof {
            vstd::arithmetic::power2::lemma2_to64();
            lemma_field_unchanged(bytes@, b5, off + 8, 8, off + 16, 8);
            assert(spec_bit(bytes@, off as int) == self.output_buffer_reset) by {
                assert(spec_bit(b5, off as int) == spec_bit(b4, off as int));
            }
            assert(spec_bit(bytes@, off + 1) == self.manual_output_state) by {
                assert(spec_bit(b5, off + 1) == spec_bit(b4, off + 1));
            }
            assert(spec_bit(bytes@, off + 2) == self.force_order) by {
                assert(spec_bit(b5, off + 2) == spec_bit(b4, off + 2));
            }
            assert(spec_bit(bytes@, off + 3) == self.enable_manual_operation) by {
                assert(spec_bit(b5, off + 3) == spec_bit(b4, off + 3));
            }
            assert forall|k: int| 0 <= k < bytes@.len() * 8 && !(off <= k < off + 384) implies
                #[trigger] spec_bit(bytes@, k) == spec_bit(b0, k) by {
                assert(spec_bit(b5, k) == spec_bit(b4, k));
            }
        }
        let n = self.number_of_output_events as usize;
        let mut i: usize = 0;
        while i < n
            invariant
                i <= n,
                n == self.number_of_output_events,
                n <= 10,
                off + 384 <= bytes@.len() * 8,
                spec_image_fits(bytes@.len() as nat),
                bytes@.len() == b0.len(),
                spec_bit(bytes@, off as int) == self.output_buffer_reset,
                spec_bit(bytes@, off + 1) == self.manual_output_state,
                spec_bit(bytes@, off + 2) == self.force_order,
                spec_bit(bytes@, off + 3) == self.enable_manual_operation,
                spec_field(bytes@, off + 8, 8) == self.output_order_count as nat,
                spec_field(bytes@, off + 16, 8) == self.number_of_output_events as nat,
                forall|k: int| 0 <= k < i ==> #[trigger] spec_mto_event_written(*self, bytes@, off as int, k),
                spec_same_outside(bytes@, b0, off as int, 384),
            decreases n - i,
        {
            let ghost before = bytes@;
            set_bit(bytes, off + 32 + i, self.output_events[i].value);
            let ghost mid = bytes@;
            store_u32_bits(bytes, off + 64 + 32 * i, 32, self.output_events[i].dc_timestamp_ns);
            proof {
                vstd::arithmetic::power2::lemma2_to64();
                let w = off + 64 + 32 * i;
                assert(spec_bit(bytes@, off + 32 + i) == self.output_events[i as int].value) by {
                    assert(spec_bit(bytes@, off + 32 + i) == spec_bit(mid, off + 32 + i));
                }
                assert(spec_bit(bytes@, off as int) == self.output_buffer_reset) by {
                    assert(spec_bit(mid, off as int) == spec_bit(before, off as int));
                    assert(spec_bit(bytes@, off as int) == spec_bit(mid, off as int));
                }
                assert(spec_bit(bytes@, off + 1) == self.manual_output_state) by {
                    assert(spec_bit(mid, off + 1) == spec_bit(before, off + 1));
                    assert(spec_bit(bytes@, off + 1) == spec_bit(mid, off + 1));
                }
                assert(spec_bit(bytes@, off + 2) == self.force_order) by {
                    assert(spec_bit(mid, off + 2) == spec_bit(before, off + 2));
                    assert(spec_bit(bytes@, off + 2) == spec_bit(mid, off + 2));
                }
                assert(spec_bit(bytes@, off + 3) == self.enable_manual_operation) by {
                    assert(spec_bit(mid, off + 3) == spec_bit(before, off + 3));
                    assert(spec_bit(bytes@, off + 3) == spec_bit(mid, off + 3));
                }
                lemma_field_unchanged(mid, before, off + 8, 8, off + 32 + i, 1);
                lemma_field_unchanged(bytes@, mid, off + 8, 8, w, 32);
                lemma_field_unchanged(mid, before, off + 16, 8, off + 32 + i, 1);
                lemma_field_unchanged(bytes@, mid, off + 16, 8, w, 32);
                assert forall|k: int| 0 <= k < i + 1 implies #[trigger] spec_mto_event_written(*self, bytes@, off as int, k) by {
                    if k < i {
                        assert(spec_mto_event_written(*self, before, off as int, k));
                        assert(spec_bit(mid, off + 32 + k) == spec_bit(before, off + 32 + k));
                        assert(spec_bit(bytes@, off + 32 + k) == spec_bit(mid, off + 32 + k));
                        lemma_field_unchanged(mid, before, off + 64 + 32 * k, 32, off + 32 + i, 1);
                        lemma_field_unchanged(bytes@, mid, off + 64 + 32 * k, 32, w, 32);
                    } else {
                        assert((self.output_events[i as int].dc_timestamp_ns as nat) < vstd::arithmetic::power2::pow2(32));
                    }
                }
                assert forall|k: int| 0 <= k < bytes@.len() * 8 && !(off <= k < off + 384) implies
                    #[trigger] spec_bit(bytes@, k) == spec_bit(b0, k) by {
                    assert(spec_bit(mid, k) == spec_bit(before, k));
                    assert(spec_bit(bytes@, k) == spec_bit(mid, k));
                }
            }
            i += 1;
        }
    }
}

impl EL1259MtiRxChannel {
    /// Writes the object into the output image at bit `off`: the buffer reset
    /// in bit 0, the order counter in bits 16..24; bits outside the object
    /// keep their values.
    pub fn write(&self, bytes: &mut [u8], off: usize)
        requires
            off + EL1259_STATUS_OBJECT_BITS <= old(bytes).len() * 8,
            spec_image_fits(old(bytes).len() as nat),
        ensures
            spec_bit(final(bytes)@, off as int) == self.input_buffer_reset,
            spec_field(final(bytes)@, off + 16, 8) == self.input_order_counter as nat,
            spec_same_outside(final(bytes)@, old(bytes)@, off as int, EL1259_STATUS_OBJECT_BITS as int),
    {
        let ghost b0 = bytes@;
        set_bit(bytes, off, self.input_buffer_reset);
        let ghost b1 = bytes@;
        store_u32_bits(bytes, off + 16, 8, self.input_order_counter as u32);
        proof {
            vstd::arithmetic::power2::lemma2_to64();
            assert(spec_bit(bytes@, off as int) == spec_bit(b1, off as int));
            assert forall|k: int| 0 <= k < bytes@.len() * 8 && !(off <= k < off + 32) implies
                #[trigger] spec_bit(bytes@, k) == spec_bit(b0, k) by {
                assert(spec_bit(b1, k) == spec_bit(b0, k));
                assert(spec_bit(bytes@, k) == spec_bit(b1, k));
            }
        }
    }
}

impl EL1259MtoTxChannel {
    /// Reads the status object from the input image at bit `off`: the short
    /// circuit, overflow and output state in bits 0..3, the cycle counter in
    /// 14..16, the order feedback in 16..24 and the buffer level in 24..32.
    pub fn read(&mut self, bytes: &[u8], off: usize)
        requires
            off + EL1259_STATUS_OBJECT_BITS <= bytes.len() * 8,
            spec_image_fits(bytes.len() as nat),
        ensures
            final(self).output_short_circuit == spec_bit(bytes@, off as int),
            final(self).output_buffer_overflow == spec_bit(bytes@, off + 1),
            final(self).output_state == spec_bit(bytes@, off + 2),
            final(self).input_cycle_counter as nat == spec_field(bytes@, off + 14, 2),
            final(self).output_order_feedback as nat == spec_field(bytes@, off + 16, 8),
            final(self).events_in_output_buffer as nat == spec_field(bytes@, off + 24, 8),
    {
        self.output_short_circuit = get_bit(bytes, off);
        self.output_buffer_overflow = get_bit(bytes, off + 1);
        self.output_state = get_bit(bytes, off + 2);
        let c = load_u32_bits(bytes, off + 14, 2);
        let f = load_u32_bits(bytes, off + 16, 8);
        let e = load_u32_bits(bytes, off + 24, 8);
        proof {
            lemma_field_bound(bytes@, off + 14, 2);
            lemma_field_bound(bytes@, off + 16, 8);
            lemma_field_bound(bytes@, off + 24, 8);
            vstd::arithmetic::power2::lemma2_to64();
        }
        self.input_cycle_counter = c as u8;
        self.output_order_feedback = f as u8;
        self.events_in_output_buffer = e as u8;
    }
}

impl EL1259MtiTxChannel {
    /// Reads the event object from the input image at bit `off`: the event
    /// count in bits 0..8, the input state and buffer overflow in bits 8 and
    /// 9, the cycle counter in 14..16, the buffer level in 16..24, the order
    /// feedback in 24..32, and for each counted event `i` its value in bit
    /// `32 + i` and its timestamp in bits `64 + 32 i .. 96 + 32 i`; the other
    /// event slots keep their contents.
    pub fn read(&mut self, bytes: &[u8], off: usize)
        requires
            off + EL1259_EVENT_OBJECT_BITS <= bytes.len() * 8,
            spec_image_fits(bytes.len() as nat),
            spec_field(bytes@, off as int, 8) <= 10,
        ensures
            final(self).number_of_input_events as nat == spec_field(bytes@, off as int, 8),
            final(self).input_state == spec_bit(bytes@, off + 8),
            final(self).input_buffer_overflow == spec_bit(bytes@, off + 9),
            final(self).input_cycle_counter as nat == spec_field(bytes@, off + 14, 2),
            final(self).events_in_input_buffer as nat == spec_field(bytes@, off + 16, 8),
            final(self).input_order_feedback as nat == spec_field(bytes@, off + 24, 8),
            forall|i: int| 0 <= i < final(self).number_of_input_events ==> {
                &&& (#[trigger] final(self).input_events[i]).value == spec_bit(bytes@, off + 32 + i)
                &&& final(self).input_events[i].dc_timestamp_ns as nat == spec_field(bytes@, off + 64 + 32 * i, 32)
            },
            forall|i: int| final(self).number_of_input_events <= i < 10 ==> #[trigger] final(self).input_events[i]
                == old(self).input_events[i],
    {
        proof {
            lemma_field_bound(bytes@, off as int, 8);
            lemma_field_bound(bytes@, off + 14, 2);
            lemma_field_bound(bytes@, off + 16, 8);
            lemma_field_bound(bytes@, off + 24, 8);
            vstd::arithmetic::power2::lemma2_to64();
        }
        let n = load_u32_bits(bytes, off, 8) as u8;
        self.number_of_input_events = n;
        self.input_state = get_bit(bytes, off + 8);
        self.input_buffer_overflow = get_bit(bytes, off + 9);
        self.input_cycle_counter = load_u32_bits(bytes, off + 14, 2) as u8;
        self.events_in_input_buffer = load_u32_bits(bytes, off + 16, 8) as u8;
        self.input_order_feedback = load_u32_bits(bytes, off + 24, 8) as u8;
        let ghost old_events = self.input_events;
        let mut i: usize = 0;
        while i < n as usize
            invariant
                i <= n <= 10,
                n as nat == spec_field(bytes@, off as int, 8),
                self.number_of_input_events == n,
                off + 384 <= bytes.len() * 8,
                spec_image_fits(bytes.len() as nat),
                self.input_state == spec_bit(bytes@, off + 8),
                self.input_buffer_overflow == spec_bit(bytes@, off + 9),
                self.input_cycle_counter as nat == spec_field(bytes@, off + 14, 2),
                self.events_in_input_buffer as nat == spec_field(bytes@, off + 16, 8),
                self.input_order_feedback as nat == spec_field(bytes@, off + 24, 8),
                old_events == old(self).input_events,
                forall|k: int| 0 <= k < i ==> {
                    &&& (#[trigger] self.input_events[k]).value == spec_bit(bytes@, off + 32 + k)
                    &&& self.input_events[k].dc_timestamp_ns as nat == spec_field(bytes@, off + 64 + 32 * k, 32)
                },
                forall|k: int| i <= k < 10 ==> #[trigger] self.input_events[k] == old_events[k],
            decreases n - i,
        {
            let value = get_bit(bytes, off + 32 + i);
            let ts = load_u32_bits(bytes, off + 64 + 32 * i, 32);
            self.input_events[i] = MultiTimestampEvent { value, dc_timestamp_ns: ts };
            i += 1;
        }
    }
}

/// Output process data of the EL1259.
#[derive(Debug, Clone, Copy)]
pub struct EL1259RxPdo {
    /// PDOs `0x1600`, `0x1604`, .. `0x161C`.
    pub mto: [EL1259MtoRxChannel; 8],
    /// PDOs `0x1620` .. `0x1627`.
    pub mti: [EL1259MtiRxChannel; 8],
}

/// Input process data of the EL1259.
#[derive(Debug, Clone, Copy)]
pub struct EL1259TxPdo {
    /// PDOs `0x1A00` .. `0x1A07`.
    pub mto: [EL1259MtoTxChannel; 8],
    /// PDOs `0x1A08`, `0x1A0C`, .. `0x1A24`.
    pub mti: [EL1259MtiTxChannel; 8],
}

impl Default for EL1259RxPdo {
    fn default() -> (r: Self) {
        let e = MultiTimestampEvent { value: false, dc_timestamp_ns: 0 };
        let mto = EL1259MtoRxChannel {
            output_buffer_reset: false,
            manual_output_state: false,
            force_order: false,
            enable_manual_operation: false,
            output_order_count: 0,
            number_of_output_events: 0,
            output_events: [e; 10],
        };
        let mti = EL1259MtiRxChannel { input_buffer_reset: false, input_order_counter: 0 };
        EL1259RxPdo { mto: [mto; 8], mti: [mti; 8] }
    }
}

impl Default for EL1259TxPdo {
    fn default() -> (r: Self) {
        let e = MultiTimestampEvent { value: false, dc_timestamp_ns: 0 };
        let mto = EL1259MtoTxChannel {
            output_short_circuit: false,
            output_buffer_overflow: false,
            output_state: false,
            input_cycle_counter: 0,
            output_order_feedback: 0,
            events_in_output_buffer: 0,
        };
        let mti = EL1259MtiTxChannel {
            number_of_input_events: 0,
            input_state: false,
            input_buffer_overflow: false,
            input_cycle_counter: 0,
            events_in_input_buffer: 0,
            input_order_feedback: 0,
            input_events: [e; 10],
        };
        EL1259TxPdo { mto: [mto; 8], mti: [mti; 8] }
    }
}

impl EL1259RxPdo {
    /// The multi-timestamp input object of `channel` (0 to 7).
    pub fn get_mti(&self, channel: usize) -> (r: &EL1259MtiRxChannel)
        requires
            channel < 8,
        ensures
            *r == self.mti[channel as int],
    {
        &self.mti[channel]
    }

    /// The multi-timestamp input object of `channel` (0 to 7), for writing.
    pub fn get_mti_mut(&mut self, channel: usize) -> (r: &mut EL1259MtiRxChannel)
        requires
            channel < 8,
        ensures
            *r == old(self).mti[channel as int],
            final(self).mti@ == old(self).mti@.update(channel as int, *final(r)),
            final(self).mto == old(self).mto,
    {
        &mut self.mti[channel]
    }

    /// The multi-timestamp output object of `channel` (0 to 7).
    pub fn get_mto(&self, channel: usize) -> (r: &EL1259MtoRxChannel)
        requires
            channel < 8,
        ensures
            *r == self.mto[channel as int],
    {
        &self.mto[channel]
    }

    /// The multi-timestamp output object of `channel` (0 to 7), for writing.
    pub fn get_mto_mut(&mut self, channel: usize) -> (r: &mut EL1259MtoRxChannel)
        requires
            channel < 8,
        ensures
            *r == old(self).mto[channel as int],
            final(self).mto@ == old(self).mto@.update(channel as int, *final(r)),
            final(self).mti == old(self).mti,
    {
        &mut self.mto[channel]
    }
}

impl EL1259TxPdo {
    /// The multi-timestamp input status of `channel` (0 to 7).
    pub fn get_mti(&self, channel: usize) -> (r: &EL1259MtiTxChannel)
        requires
            channel < 8,
        ensures
            *r == self.mti[channel as int],
    {
        &self.mti[channel]
    }

    /// The multi-timestamp input status of `channel` (0 to 7), for updating.
    pub fn get_mti_mut(&mut self, channel: usize) -> (r: &mut EL1259MtiTxChannel)
        requires
            channel < 8,
        ensures
            *r == old(self).mti[channel as int],
            final(self).mti@ == old(self).mti@.update(channel as int, *final(r)),
            final(self).mto == old(self).mto,
    {
        &mut self.mti[channel]
    }

    /// The multi-timestamp output status of `channel` (0 to 7).
    pub fn get_mto(&self, channel: usize) -> (r: &EL1259MtoTxChannel)
        requires
            channel < 8,
        ensures
            *r == self.mto[channel as int],
    {
        &self.mto[channel]
    }

    /// The multi-timestamp output status of `channel` (0 to 7), for updating.
    pub fn get_mto_mut(&mut self, channel: usize) -> (r: &mut EL1259MtoTxChannel)
        requires
            channel < 8,
        ensures
            *r == old(self).mto[channel as int],
            final(self).mto@ == old(self).mto@.update(channel as int, *final(r)),
            final(self).mti == old(self).mti,
    {
        &mut self.mto[channel]
    }
}

/// Where the terminal stands in its start-up: the output buffers are reset for
/// one cycle, released for one cycle, and then the terminal runs.
#[derive(Debug, Clone, Copy, PartialEq, Eq, Structural)]
pub enum EL1259State {
    ResetOn,
    ResetOff,
    Initialized,
}

/// A fault that a channel reports in its input data (channels numbered from 1).
#[derive(Debug, Clone, Copy, PartialEq, Eq, Structural)]
pub enum EL1259Error {
    ShortCircuit(usize),
    OutputBufferOverflow(usize),
    InputBufferOverflow(usize),
}

/// The first fault reported by channel `ch` or a later one, channel by channel,
/// in the order short circuit, output overflow, input overflow.
pub open spec fn spec_fault_from(tx: EL1259TxPdo, ch: int) -> Option<EL1259Error>
    decreases 8 - ch,
{
    if ch < 0 || ch >= 8 {
        None
    } else if tx.mto[ch].output_short_circuit {
        Some(EL1259Error::ShortCircuit((ch + 1) as usize))
    } else if tx.mto[ch].output_buffer_overflow {
        Some(EL1259Error::OutputBufferOverflow((ch + 1) as usize))
    } else if tx.mti[ch].input_buffer_overflow {
        Some(EL1259Error::InputBufferOverflow((ch + 1) as usize))
    } else {
        spec_fault_from(tx, ch + 1)
    }
}

/// One input channel's step: when its feedback mirrors its counter (judged on
/// the data before the step), its valid events are appended to its queue and
/// its counter is set one past the feedback; otherwise nothing changes.
pub open spec fn spec_collected(
    rx_before: EL1259MtiRxChannel,
    tx: EL1259MtiTxChannel,
    queue_before: Seq<MultiTimestampEvent>,
    rx_after: EL1259MtiRxChannel,
    queue_after: Seq<MultiTimestampEvent>,
) -> bool {
    if rx_before.input_order_counter == tx.input_order_feedback {
        &&& queue_after == queue_before + spec_input_events(tx)
        &&& rx_after.input_order_counter == tx.input_order_feedback.wrapping_add(1)
        &&& rx_after.input_buffer_reset == rx_before.input_buffer_reset
    } else {
        &&& queue_after == queue_before
        &&& rx_after == rx_before
    }
}

/// One output channel's step in operation: when events can go out
/// ([`spec_send_count`] is positive) and the terminal has stored the last
/// batch, the oldest ones leave the queue into the object, with the count set
/// one past the feedback and forced ordering off; otherwise the channel sends
/// no events.
pub open spec fn spec_sent(
    queue_before: Seq<MultiTimestampEvent>,
    tx: EL1259MtoTxChannel,
    rx_before: EL1259MtoRxChannel,
    queue_after: Seq<MultiTimestampEvent>,
    rx_after: EL1259MtoRxChannel,
) -> bool {
    let n = spec_send_count(queue_before.len(), tx.events_in_output_buffer);
    if n > 0 && rx_before.output_order_count == tx.output_order_feedback {
        &&& queue_after == queue_before.subrange(n as int, queue_before.len() as int)
        &&& rx_after.number_of_output_events == n
        &&& rx_after.output_events@.subrange(0, n as int) == queue_before.subrange(0, n as int)
        &&& rx_after.output_order_count == tx.output_order_feedback.wrapping_add(1)
        &&& !rx_after.force_order
        &&& rx_after.output_buffer_reset == rx_before.output_buffer_reset
        &&& rx_after.manual_output_state == rx_before.manual_output_state
        &&& rx_after.enable_manual_operation == rx_before.enable_manual_operation
    } else {
        &&& queue_after == queue_before
        &&& rx_after == (EL1259MtoRxChannel { number_of_output_events: 0, ..rx_before })
    }
}

/// How many queued output events go out in one cycle: no more than are queued,
/// than the terminal's buffer has room for, or than one PDO carries.
pub open spec fn spec_send_count(queued: nat, in_buffer: u8) -> nat {
    let room = (EL1259_OUTPUT_BUFFER_SLOTS - in_buffer) as nat;
    let a = if queued < room { queued } else { room };
    if a < EL1259_EVENTS_PER_PDO { a } else { EL1259_EVENTS_PER_PDO as nat }
}

/// A cycle never hands the terminal more than one PDO's worth of events, more
/// than are queued, or more than its buffer has room for; and when events are
/// queued and there is room, at least one goes out.
pub proof fn lemma_send_count_bounds(queued: nat, in_buffer: u8)
    requires
        in_buffer <= EL1259_OUTPUT_BUFFER_SLOTS,
    ensures
        spec_send_count(queued, in_buffer) <= EL1259_EVENTS_PER_PDO,
        spec_send_count(queued, in_buffer) <= queued,
        spec_send_count(queued, in_buffer) + in_buffer <= EL1259_OUTPUT_BUFFER_SLOTS,
        queued > 0 && in_buffer < EL1259_OUTPUT_BUFFER_SLOTS ==> spec_send_count(queued, in_buffer) > 0,
{
}

/// EL1259 8-channel multi-timestamp input / 8-channel multi-timestamp output, 24 V DC.
#[derive(Debug, Clone)]
pub struct EL1259 {
    pub rxpdo: EL1259RxPdo,
    pub txpdo: EL1259TxPdo,
    pub is_used: bool,
    /// Input events received, oldest first, per channel.
    pub input_queues: Vec<Vec<MultiTimestampEvent>>,
    /// Output events waiting to be handed to the terminal, per channel.
    pub output_queues: Vec<Vec<MultiTimestampEvent>>,
    pub state: EL1259State,
}

/// `new` is `old` with queue `ch` replaced by one holding `q`.
pub open spec fn spec_queue_replaced(
    new: Seq<Vec<MultiTimestampEvent>>,
    old: Seq<Vec<MultiTimestampEvent>>,
    ch: int,
    q: Seq<MultiTimestampEvent>,
) -> bool {
    &&& new.len() == old.len()
    &&& new[ch]@ == q
    &&& forall|c: int| 0 <= c < old.len() && c != ch ==> #[trigger] new[c] == old[c]
}

/// One empty queue per channel.
fn empty_queues() -> (r: Vec<Vec<MultiTimestampEvent>>)
    ensures
        r.len() == 8,
        forall|i: int| 0 <= i < 8 ==> (#[trigger] r@[i])@ == Seq::<MultiTimestampEvent>::empty(),
{
    let mut r: Vec<Vec<MultiTimestampEvent>> = Vec::new();
    let mut i: usize = 0;
    while i < EL1259_CHANNELS
        invariant
            i <= 8,
            r.len() == i,
            forall|k: int| 0 <= k < i ==> (#[trigger] r@[k])@ == Seq::<MultiTimestampEvent>::empty(),
        decreases 8 - i,
    {
        let fresh: Vec<MultiTimestampEvent> = Vec::new();
        r.push(fresh);
        i += 1;
    }
    r
}

impl EL1259 {
    /// Eight queues in each direction.
    pub open spec fn wf(&self) -> bool {
        &&& self.input_queues.len() == 8
        &&& self.output_queues.len() == 8
    }

    /// A fresh terminal: empty queues, about to reset the output buffers.
    pub fn new() -> (r: Self)
        ensures
            r.wf(),
            forall|i: int| 0 <= i < 8 ==> (#[trigger] r.input_queues@[i])@ == Seq::<MultiTimestampEvent>::empty(),
            forall|i: int| 0 <= i < 8 ==> (#[trigger] r.output_queues@[i])@ == Seq::<MultiTimestampEvent>::empty(),
            r.state == EL1259State::ResetOn,
            !r.is_used,
    {
        EL1259 {
            rxpdo: EL1259RxPdo::default(),
            txpdo: EL1259TxPdo::default(),
            is_used: false,
            input_queues: empty_queues(),
            output_queues: empty_queues(),
            state: EL1259State::ResetOn,
        }
    }

    /// Checks the channels for faults and collects the input events that are ready.
    ///
    /// The first fault, channel by channel, fails the call and changes nothing.
    /// Otherwise, each input channel whose feedback mirrors its counter has its
    /// valid events appended to its queue, and its counter set one past the
    /// feedback, which asks the terminal for the next batch.
    pub fn input_post_process(&mut self) -> (r: Result<(), EL1259Error>)
        requires
            old(self).wf(),
            forall|ch: int| 0 <= ch < 8 ==> old(self).txpdo.mti[ch].number_of_input_events <= 10,
        ensures
            final(self).wf(),
            final(self).txpdo == old(self).txpdo,
            final(self).output_queues == old(self).output_queues,
            final(self).state == old(self).state,
            final(self).rxpdo.mto == old(self).rxpdo.mto,
            match spec_fault_from(old(self).txpdo, 0) {
                Some(e) => {
                    &&& r == Err::<(), EL1259Error>(e)
                    &&& final(self).rxpdo == old(self).rxpdo
                    &&& final(self).input_queues == old(self).input_queues
                },
                None => {
                    &&& r is Ok
                    &&& forall|ch: int| 0 <= ch < 8 ==> #[trigger] spec_collected(
                        old(self).rxpdo.mti[ch], old(self).txpdo.mti[ch], old(self).input_queues@[ch]@,
                        final(self).rxpdo.mti[ch], final(self).input_queues@[ch]@)
                },
            },
    {
        let mut ch: usize = 0;
        while ch < EL1259_CHANNELS
            invariant
                ch <= 8,
                *self == *old(self),
                old(self).wf(),
                spec_fault_from(self.txpdo, 0) == spec_fault_from(self.txpdo, ch as int),
            decreases 8 - ch,
        {
            let mto = self.txpdo.mto[ch];
            let mti = self.txpdo.mti[ch];
            if mto.output_short_circuit {
                return Err(EL1259Error::ShortCircuit(ch + 1));
            }
            if mto.output_buffer_overflow {
                return Err(EL1259Error::OutputBufferOverflow(ch + 1));
            }
            if mti.input_buffer_overflow {
                return Err(EL1259Error::InputBufferOverflow(ch + 1));
            }
            ch += 1;
        }
        let mut ch: usize = 0;
        while ch < EL1259_CHANNELS
            invariant
                ch <= 8,
                self.wf(),
                old(self).wf(),
                spec_fault_from(old(self).txpdo, 0) is None,
                forall|c: int| 0 <= c < 8 ==> old(self).txpdo.mti[c].number_of_input_events <= 10,
                self.txpdo == old(self).txpdo,
                self.output_queues == old(self).output_queues,
                self.state == old(self).state,
                self.rxpdo.mto == old(self).rxpdo.mto,
                forall|c: int| ch <= c < 8 ==> #[trigger] self.input_queues@[c]@ == old(self).input_queues@[c]@,
                forall|c: int| ch <= c < 8 ==> #[trigger] self.rxpdo.mti[c] == old(self).rxpdo.mti[c],
                forall|c: int| 0 <= c < ch ==> #[trigger] spec_collected(
                    old(self).rxpdo.mti[c], old(self).txpdo.mti[c], old(self).input_queues@[c]@,
                    self.rxpdo.mti[c], self.input_queues@[c]@),
            decreases 8 - ch,
        {
            let feedback = self.txpdo.mti[ch].input_order_feedback;
            if self.rxpdo.mti[ch].input_order_counter == feedback {
                let events = self.txpdo.mti[ch].get_events();
                let ghost before = self.input_queues@;
                let ghost before_mti = self.rxpdo.mti;
                append_events(&mut self.input_queues, ch, events);
                let mut mti = self.rxpdo.mti[ch];
                mti.input_order_counter = feedback.wrapping_add(1);
                self.rxpdo.mti[ch] = mti;
                proof {
                    assert forall|c: int| 0 <= c < 8 && c != ch implies
                        #[trigger] self.input_queues@[c] == before[c] && self.rxpdo.mti[c] == before_mti[c] by {}
                    assert forall|c: int| ch < c < 8 implies
                        #[trigger] self.input_queues@[c]@ == old(self).input_queues@[c]@ by {
                        assert(self.input_queues@[c] == before[c]);
                    }
                    assert forall|c: int| 0 <= c < ch + 1 implies #[trigger] spec_collected(
                        old(self).rxpdo.mti[c], old(self).txpdo.mti[c], old(self).input_queues@[c]@,
                        self.rxpdo.mti[c], self.input_queues@[c]@) by {
                        if c < ch {
                            assert(self.input_queues@[c] == before[c]);
                            assert(self.rxpdo.mti[c] == before_mti[c]);
                        } else {
                            assert(before[c]@ == old(self).input_queues@[c]@);
                        }
                    }
                }
            } else {
                proof {
                    assert(spec_collected(
                        old(self).rxpdo.mti[ch as int], old(self).txpdo.mti[ch as int], old(self).input_queues@[ch as int]@,
                        self.rxpdo.mti[ch as int], self.input_queues@[ch as int]@));
                }
            }
            ch += 1;
        }
        Ok(())
    }

    /// Advances the start-up sequence, or hands queued output events to the terminal.
    ///
    /// In the two start-up cycles every output buffer is first reset, then
    /// released. Afterwards, per channel: when the terminal has stored the last
    /// batch (its feedback mirrors the count) and events are waiting, the
    /// oldest ones go out, as many as [`spec_send_count`] allows, with the
    /// count set one past the feedback and forced ordering off; otherwise the
    /// channel sends no events.
    pub fn output_pre_process(&mut self)
        requires
            old(self).wf(),
            old(self).state == EL1259State::Initialized ==> forall|ch: int| 0 <= ch < 8
                ==> old(self).txpdo.mto[ch].events_in_output_buffer <= EL1259_OUTPUT_BUFFER_SLOTS,
        ensures
            final(self).wf(),
            final(self).txpdo == old(self).txpdo,
            final(self).input_queues == old(self).input_queues,
            final(self).rxpdo.mti == old(self).rxpdo.mti,
            old(self).state == EL1259State::ResetOn ==> {
                &&& final(self).state == EL1259State::ResetOff
                &&& forall|ch: int| 0 <= ch < 8 ==> #[trigger] final(self).rxpdo.mto[ch]
                    == (EL1259MtoRxChannel { output_buffer_reset: true, ..old(self).rxpdo.mto[ch] })
                &&& final(self).output_queues == old(self).output_queues
            },
            old(self).state == EL1259State::ResetOff ==> {
                &&& final(self).state == EL1259State::Initialized
                &&& forall|ch: int| 0 <= ch < 8 ==> #[trigger] final(self).rxpdo.mto[ch]
                    == (EL1259MtoRxChannel { output_buffer_reset: false, ..old(self).rxpdo.mto[ch] })
                &&& final(self).output_queues == old(self).output_queues
            },
            old(self).state == EL1259State::Initialized ==> {
                &&& final(self).state == EL1259State::Initialized
                &&& forall|ch: int| 0 <= ch < 8 ==> #[trigger] spec_sent(
                    old(self).output_queues@[ch]@, old(self).txpdo.mto[ch], old(self).rxpdo.mto[ch],
                    final(self).output_queues@[ch]@, final(self).rxpdo.mto[ch])
            },
    {
        match self.state {
            EL1259State::ResetOn => {
                let mut ch: usize = 0;
                while ch < EL1259_CHANNELS
                    invariant
                        ch <= 8,
                        self.wf(),
                        self.txpdo == old(self).txpdo,
                        self.input_queues == old(self).input_queues,
                        self.output_queues == old(self).output_queues,
                        self.rxpdo.mti == old(self).rxpdo.mti,
                        self.state == old(self).state,
                        forall|c: int| 0 <= c < ch ==> #[trigger] self.rxpdo.mto[c]
                            == (EL1259MtoRxChannel { output_buffer_reset: true, ..old(self).rxpdo.mto[c] }),
                        forall|c: int| ch <= c < 8 ==> #[trigger] self.rxpdo.mto[c] == old(self).rxpdo.mto[c],
                    decreases 8 - ch,
                {
                    let mut m = self.rxpdo.mto[ch];
                    m.output_buffer_reset = true;
                    self.rxpdo.mto[ch] = m;
                    ch += 1;
                }
                self.state = EL1259State::ResetOff;
            },
            EL1259State::ResetOff => {
                let mut ch: usize = 0;
                while ch < EL1259_CHANNELS
                    invariant
                        ch <= 8,
                        self.wf(),
                        self.txpdo == old(self).txpdo,
                        self.input_queues == old(self).input_queues,
                        self.output_queues == old(self).output_queues,
                        self.rxpdo.mti == old(self).rxpdo.mti,
                        self.state == old(self).state,
                        forall|c: int| 0 <= c < ch ==> #[trigger] self.rxpdo.mto[c]
                            == (EL1259MtoRxChannel { output_buffer_reset: false, ..old(self).rxpdo.mto[c] }),
                        forall|c: int| ch <= c < 8 ==> #[trigger] self.rxpdo.mto[c] == old(self).rxpdo.mto[c],
                    decreases 8 - ch,
                {
                    let mut m = self.rxpdo.mto[ch];
                    m.output_buffer_reset = false;
                    self.rxpdo.mto[ch] = m;
                    ch += 1;
                }
                self.state = EL1259State::Initialized;
            },
            EL1259State::Initialized => {
                let mut ch: usize = 0;
                while ch < EL1259_CHANNELS
                    invariant
                        ch <= 8,
                        self.wf(),
                        old(self).wf(),
                        old(self).state == EL1259State::Initialized,
                        forall|c: int| 0 <= c < 8 ==> old(self).txpdo.mto[c].events_in_output_buffer <= EL1259_OUTPUT_BUFFER_SLOTS,
                        self.txpdo == old(self).txpdo,
                        self.input_queues == old(self).input_queues,
                        self.rxpdo.mti == old(self).rxpdo.mti,
                        self.state == old(self).state,
                        forall|c: int| ch <= c < 8 ==> #[trigger] self.rxpdo.mto[c] == old(self).rxpdo.mto[c],
                        forall|c: int| ch <= c < 8 ==> #[trigger] self.output_queues@[c]@ == old(self).output_queues@[c]@,
                        forall|c: int| 0 <= c < ch ==> #[trigger] spec_sent(
                            old(self).output_queues@[c]@, old(self).txpdo.mto[c], old(self).rxpdo.mto[c],
                            self.output_queues@[c]@, self.rxpdo.mto[c]),
                    decreases 8 - ch,
                {
                    let tx = self.txpdo.mto[ch];
                    let mut rx = self.rxpdo.mto[ch];
                    let queued = self.output_queues[ch].len();
                    let room = EL1259_OUTPUT_BUFFER_SLOTS - tx.events_in_output_buffer as usize;
                    let a = if queued < room { queued } else { room };
                    let n = if a < EL1259_EVENTS_PER_PDO { a } else { EL1259_EVENTS_PER_PDO };
                    let ghost before = self.output_queues@;
                    if n > 0 && rx.output_order_count == tx.output_order_feedback {
                        let sent = take_front(&mut self.output_queues, ch, n);
                        rx.set_events(sent.as_slice());
                        rx.output_order_count = tx.output_order_feedback.wrapping_add(1);
                        rx.force_order = false;
                    } else {
                        rx.number_of_output_events = 0;
                    }
                    self.rxpdo.mto[ch] = rx;
                    proof {
                        assert forall|c: int| 0 <= c < ch + 1 implies #[trigger] spec_sent(
                            old(self).output_queues@[c]@, old(self).txpdo.mto[c], old(self).rxpdo.mto[c],
                            self.output_queues@[c]@, self.rxpdo.mto[c]) by {
                            if c < ch {
                                assert(self.output_queues@[c] == before[c]);
                            } else {
                                assert(before[c]@ == old(self).output_queues@[c]@);
                            }
                        }
                    }
                    ch += 1;
                }
            },
        }
    }

    /// The state of digital input `port`.
    pub fn get_input(&self, port: usize) -> (r: bool)
        requires
            port < 8,
        ensures
            r == self.txpdo.mti[port as int].input_state,
    {
        self.txpdo.mti[port].input_state
    }

    /// Number of channels in each direction.
    pub fn get_port_count(&self) -> (r: usize)
        ensures
            r == 8,
    {
        EL1259_CHANNELS
    }

    /// The oldest input event of `port` not yet taken.
    pub fn peek(&self, port: usize) -> (r: Option<&MultiTimestampEvent>)
        requires
            self.wf(),
            port < 8,
        ensures
            self.input_queues@[port as int]@.len() == 0 ==> r is None,
            self.input_queues@[port as int]@.len() > 0 ==> (r matches Some(e)
                && *e == self.input_queues@[port as int]@[0]),
    {
        if self.input_queues[port].len() == 0 {
            None
        } else {
            Some(&self.input_queues[port][0])
        }
    }

    /// Takes the oldest input event of `port`.
    pub fn pop(&mut self, port: usize) -> (r: Option<MultiTimestampEvent>)
        requires
            old(self).wf(),
            port < 8,
        ensures
            final(self).wf(),
            final(self).output_queues == old(self).output_queues,
            final(self).rxpdo == old(self).rxpdo,
            final(self).txpdo == old(self).txpdo,
            final(self).state == old(self).state,
            old(self).input_queues@[port as int]@.len() == 0 ==> {
                &&& r is None
                &&& final(self).input_queues == old(self).input_queues
            },
            old(self).input_queues@[port as int]@.len() > 0 ==> {
                &&& r == Some(old(self).input_queues@[port as int]@[0])
                &&& spec_queue_replaced(
                    final(self).input_queues@,
                    old(self).input_queues@,
                    port as int,
                    old(self).input_queues@[port as int]@.drop_first(),
                )
            },
    {
        if self.input_queues[port].len() == 0 {
            return None;
        }
        let taken = take_front(&mut self.input_queues, port, 1);
        proof {
            assert(old(self).input_queues@[port as int]@.subrange(1, old(self).input_queues@[port as int]@.len() as int)
                =~= old(self).input_queues@[port as int]@.drop_first());
        }
        Some(taken[0])
    }

    /// All input events of `port` not yet taken, oldest first.
    pub fn peek_all(&self, port: usize) -> (r: &[MultiTimestampEvent])
        requires
            self.wf(),
            port < 8,
        ensures
            r@ == self.input_queues@[port as int]@,
    {
        self.input_queues[port].as_slice()
    }

    /// Takes all input events of `port`, oldest first.
    pub fn pop_all(&mut self, port: usize) -> (r: Vec<MultiTimestampEvent>)
        requires
            old(self).wf(),
            port < 8,
        ensures
            final(self).wf(),
            r@ == old(self).input_queues@[port as int]@,
            spec_queue_replaced(
                final(self).input_queues@,
                old(self).input_queues@,
                port as int,
                Seq::empty(),
            ),
            final(self).output_queues == old(self).output_queues,
            final(self).rxpdo == old(self).rxpdo,
            final(self).txpdo == old(self).txpdo,
            final(self).state == old(self).state,
    {
        let n = self.input_queues[port].len();
        let r = take_front(&mut self.input_queues, port, n);
        proof {
            assert(old(self).input_queues@[port as int]@.subrange(0, n as int)
                =~= old(self).input_queues@[port as int]@);
            assert(old(self).input_queues@[port as int]@.subrange(n as int, n as int)
                =~= Seq::<MultiTimestampEvent>::empty());
        }
        r
    }

    /// Queues an output event for `port`.
    pub fn push(&mut self, port: usize, event: MultiTimestampEvent)
        requires
            old(self).wf(),
            port < 8,
        ensures
            final(self).wf(),
            spec_queue_replaced(
                final(self).output_queues@,
                old(self).output_queues@,
                port as int,
                old(self).output_queues@[port as int]@.push(event),
            ),
            final(self).input_queues == old(self).input_queues,
            final(self).rxpdo == old(self).rxpdo,
            final(self).txpdo == old(self).txpdo,
            final(self).state == old(self).state,
    {
        let events = [event];
        append_events(&mut self.output_queues, port, events.as_slice());
        proof {
            assert(events@ =~= seq![event]);
            assert(old(self).output_queues@[port as int]@ + events@ =~= old(self).output_queues@[port as int]@.push(event));
        }
    }

    /// Queues output events for `port`, in order.
    pub fn push_all(&mut self, port: usize, events: &[MultiTimestampEvent])
        requires
            old(self).wf(),
            port < 8,
        ensures
            final(self).wf(),
            spec_queue_replaced(
                final(self).output_queues@,
                old(self).output_queues@,
                port as int,
                old(self).output_queues@[port as int]@ + events@,
            ),
            final(self).input_queues == old(self).input_queues,
            final(self).rxpdo == old(self).rxpdo,
            final(self).txpdo == old(self).txpdo,
            final(self).state == old(self).state,
    {
        append_events(&mut self.output_queues, port, events);
    }
}

/// Appends events to queue `ch`.
fn append_events(queues: &mut Vec<Vec<MultiTimestampEvent>>, ch: usize, events: &[MultiTimestampEvent])
    requires
        ch < old(queues).len(),
    ensures
        final(queues).len() == old(queues).len(),
        spec_queue_replaced(
            (*final(queues))@,
            (*old(queues))@,
            ch as int,
            (*old(queues))@[ch as int]@ + events@,
        ),
{
    let mut q: Vec<MultiTimestampEvent> = Vec::new();
    std::mem::swap(&mut q, &mut queues[ch]);
    let mut i: usize = 0;
    while i < events.len()
        invariant
            i <= events.len(),
            q@ == (*old(queues))@[ch as int]@ + events@.subrange(0, i as int),
        decreases events.len() - i,
    {
        q.push(events[i]);
        i += 1;
        assert(q@ =~= (*old(queues))@[ch as int]@ + events@.subrange(0, i as int));
    }
    assert(events@.subrange(0, events.len() as int) =~= events@);
    queues.set(ch, q);
}

/// Removes and returns the oldest `n` events of queue `ch`.
fn take_front(queues: &mut Vec<Vec<MultiTimestampEvent>>, ch: usize, n: usize) -> (r: Vec<MultiTimestampEvent>)
    requires
        ch < old(queues).len(),
        n <= old(queues)@[ch as int].len(),
    ensures
        final(queues).len() == old(queues).len(),
        r@ == (*old(queues))@[ch as int]@.subrange(0, n as int),
        spec_queue_replaced(
            (*final(queues))@,
            (*old(queues))@,
            ch as int,
            (*old(queues))@[ch as int]@.subrange(n as int, old(queues)@[ch as int].len() as int),
        ),
{
    let mut q: Vec<MultiTimestampEvent> = Vec::new();
    std::mem::swap(&mut q, &mut queues[ch]);
    let ghost whole = q@;
    let mut taken: Vec<MultiTimestampEvent> = Vec::new();
    let mut rest: Vec<MultiTimestampEvent> = Vec::new();
    let mut i: usize = 0;
    while i < q.len()
        invariant
            i <= q.len(),
            q@ == whole,
            n <= whole.len(),
            i <= n ==> taken@ == whole.subrange(0, i as int) && rest@.len() == 0,
            i > n ==> taken@ == whole.subrange(0, n as int) && rest@ == whole.subrange(n as int, i as int),
        decreases q.len() - i,
    {
        if i < n {
            taken.push(q[i]);
        } else {
            rest.push(q[i]);
        }
        i += 1;
        assert(i <= n ==> taken@ =~= whole.subrange(0, i as int));
        assert(i > n ==> taken@ =~= whole.subrange(0, n as int) && rest@ =~= whole.subrange(n as int, i as int));
    }
    assert(rest@ =~= whole.subrange(n as int, whole.len() as int));
    assert(taken@ =~= whole.subrange(0, n as int));
    queues.set(ch, rest);
    taken
}

/// Configuration of the EL1259: the predefined PDO assignment.
#[derive(Debug, Clone, Copy, PartialEq, Eq, Structural, Default)]
pub struct EL1259Configuration {}

/// The input PDOs: the eight output-channel status objects, then the eight input-channel objects.
pub open spec fn spec_el1259_txpdo_indices() -> Seq<u16> {
    seq![0x1A00u16, 0x1A01, 0x1A02, 0x1A03, 0x1A04, 0x1A05, 0x1A06, 0x1A07,
        0x1A08, 0x1A0C, 0x1A10, 0x1A14, 0x1A18, 0x1A1C, 0x1A20, 0x1A24]
}

/// The output PDOs: the eight output-channel objects, then the eight input-channel controls.
pub open spec fn spec_el1259_rxpdo_indices() -> Seq<u16> {
    seq![0x1600u16, 0x1604, 0x1608, 0x160C, 0x1610, 0x1614, 0x1618, 0x161C,
        0x1620, 0x1621, 0x1622, 0x1623, 0x1624, 0x1625, 0x1626, 0x1627]
}

/// The writes that assign the PDOs: the input assignment, then the output assignment.
pub open spec fn spec_el1259_plan() -> Seq<SdoWrite> {
    spec_list_plan(TX_PDO_ASSIGNMENT_REG, spec_el1259_txpdo_indices().map_values(|p: u16| SdoValue::U16(p)))
        + spec_list_plan(RX_PDO_ASSIGNMENT_REG, spec_el1259_rxpdo_indices().map_values(|p: u16| SdoValue::U16(p)))
}

impl Configuration for EL1259Configuration {
    open spec fn spec_plan(&self) -> Seq<SdoWrite> {
        spec_el1259_plan()
    }

    fn config_plan(&self) -> (r: Vec<SdoWrite>)
        ensures
            r@ == spec_el1259_plan(),
    {
        let tx: [u16; 16] = [0x1A00, 0x1A01, 0x1A02, 0x1A03, 0x1A04, 0x1A05, 0x1A06, 0x1A07,
            0x1A08, 0x1A0C, 0x1A10, 0x1A14, 0x1A18, 0x1A1C, 0x1A20, 0x1A24];
        let rx: [u16; 16] = [0x1600, 0x1604, 0x1608, 0x160C, 0x1610, 0x1614, 0x1618, 0x161C,
            0x1620, 0x1621, 0x1622, 0x1623, 0x1624, 0x1625, 0x1626, 0x1627];
        assert(tx@ =~= spec_el1259_txpdo_indices());
        assert(rx@ =~= spec_el1259_rxpdo_indices());
        let mut r = assign_pdos(TX_PDO_ASSIGNMENT_REG, tx.as_slice());
        let mut rest = assign_pdos(RX_PDO_ASSIGNMENT_REG, rx.as_slice());
        r.append(&mut rest);
        r
    }
}

impl ConfigurableDevice<EL1259Configuration> for EL1259 {
    fn write_config(&mut self, ecat_channel: &mut EtherCATThreadChannel, device_address: u16, config: &EL1259Configuration) -> (r: Result<(), ChannelError>)
        ensures
            spec_plan_run(config.spec_plan().len(), r),
            spec_plan_sent(device_address, config.spec_plan(), old(ecat_channel).requests(), final(ecat_channel).requests(), r),
            *final(self) == *old(self),
    {
        config.write_config(ecat_channel, device_address)
    }

    fn get_config(&self) -> (r: EL1259Configuration) {
        EL1259Configuration {}
    }
}

pub const EL1259_VENDOR_ID: u32 = 0x2;
pub const EL1259_PRODUCT_ID: u32 = 82522194;
pub const EL1259_REVISION_A: u32 = 0;

} // verus!
