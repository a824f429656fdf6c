//! Widening of a frequently wrapping 16-bit hardware counter into an `i128`.
//!
//! The raw counter of an encoder terminal wraps around at `2^16`. The device
//! reports the wrap with an overflow or underflow flag; every rising edge of
//! such a flag adds or removes one full period of `2^16` counts.
use vstd::prelude::*;

verus! {

/// Number of values a 16-bit counter can take.
pub const U16_PERIOD: i32 = 65536;

/// Distance travelled from `last_counter` to `counter`, given the rising-edge
/// overflow and underflow flags of this sample.
pub open spec fn spec_counter_change(
    last_counter: u16,
    counter: u16,
    counter_underflow: bool,
    counter_overflow: bool,
) -> int {
    let base = counter as int - last_counter as int;
    if counter_overflow {
        if counter < last_counter {
            base + 65536
        } else {
            base
        }
    } else if counter_underflow {
        if counter > last_counter {
            base - 65536
        } else {
            base
        }
    } else {
        base
    }
}

/// The representative of `value` modulo `2^16` in `0..2^16`.
pub open spec fn spec_wrap_u16(value: int) -> int {
    value % 65536
}

/// Abstract state of a [`CounterWrapperU16U128`].
pub struct CounterState {
    pub counter: int,
    pub last_counter: u16,
    pub last_underflow: bool,
    pub last_overflow: bool,
    pub set_counter: Option<i128>,
    pub pending_override: Option<u16>,
    pub pending_cycles: u16,
}

/// Cycles to wait for a device to adopt an override before resynchronising.
pub open spec fn spec_override_timeout() -> int {
    200
}

/// The state after one `update` with a raw sample and its two flags.
pub open spec fn spec_update(s: CounterState, counter: u16, underflow: bool, overflow: bool) -> CounterState {
    match s.pending_override {
        Some(pending) => {
            let cycles = s.pending_cycles + 1;
            let done = counter == pending || cycles >= spec_override_timeout();
            CounterState {
                counter: s.counter,
                last_counter: counter,
                last_underflow: underflow,
                last_overflow: overflow,
                set_counter: s.set_counter,
                pending_override: if done { None } else { Some(pending) },
                pending_cycles: if done { 0 } else { cycles as u16 },
            }
        },
        None => {
            let change = spec_counter_change(
                s.last_counter,
                counter,
                underflow && !s.last_underflow,
                overflow && !s.last_overflow,
            );
            CounterState {
                counter: s.counter + change,
                last_counter: counter,
                last_underflow: underflow,
                last_overflow: overflow,
                set_counter: s.set_counter,
                pending_override: None,
                pending_cycles: s.pending_cycles,
            }
        },
    }
}

/// Whether `update` with these arguments keeps the widened counter inside `i128`.
pub open spec fn spec_update_fits(s: CounterState, counter: u16, underflow: bool, overflow: bool) -> bool {
    let n = spec_update(s, counter, underflow, overflow).counter;
    i128::MIN <= n && n <= i128::MAX
}

/// Wraps a 16-bit counter that frequently overflows or underflows into an `i128`.
///
/// An override of the counter is not applied at once: it is scheduled with
/// [`CounterWrapperU16U128::push_override`] and handed to the device with
/// [`CounterWrapperU16U128::pop_override`].
#[derive(Debug, Clone)]
pub struct CounterWrapperU16U128 {
    counter: i128,
    last_counter: u16,
    last_counter_underflow: bool,
    last_counter_overflow: bool,
    set_counter: Option<i128>,
    /// Raw value a popped override is waiting for the device to adopt.
    pending_override: Option<u16>,
    /// Cycles spent waiting, so a device that never reports the value exactly
    /// cannot freeze the counter forever.
    pending_cycles: u16,
}

impl View for CounterWrapperU16U128 {
    type V = CounterState;

    closed spec fn view(&self) -> CounterState {
        CounterState {
            counter: self.counter as int,
            last_counter: self.last_counter,
            last_underflow: self.last_counter_underflow,
            last_overflow: self.last_counter_overflow,
            set_counter: self.set_counter,
            pending_override: self.pending_override,
            pending_cycles: self.pending_cycles,
        }
    }
}

impl CounterWrapperU16U128 {
    /// How many cycles to wait for a device to adopt an override before giving
    /// up and resynchronising to whatever it is reporting.
    pub const OVERRIDE_TIMEOUT_CYCLES: u16 = 200;

    /// A wrapper at zero with no override scheduled or pending.
    pub fn new() -> (r: Self)
        ensures
            r@ == (CounterState {
                counter: 0,
                last_counter: 0,
                last_underflow: false,
                last_overflow: false,
                set_counter: None,
                pending_override: None,
                pending_cycles: 0,
            }),
    {
        Self {
            counter: 0,
            last_counter: 0,
            last_counter_underflow: false,
            last_counter_overflow: false,
            set_counter: None,
            pending_override: None,
            pending_cycles: 0,
        }
    }

    /// Feeds one raw sample with its underflow and overflow flags.
    ///
    /// While a popped override is in flight the raw value is about to jump to
    /// the requested value; that jump is not motion, so the raw counter is
    /// tracked without being accumulated.
    pub fn update(&mut self, counter: u16, counter_underflow: bool, counter_overflow: bool)
        requires
            old(self)@.pending_cycles < spec_override_timeout(),
            spec_update_fits(old(self)@, counter, counter_underflow, counter_overflow),
        ensures
            final(self)@ == spec_update(old(self)@, counter, counter_underflow, counter_overflow),
            final(self)@.pending_cycles < spec_override_timeout(),
    {
        match self.pending_override {
            Some(pending) => {
                self.last_counter = counter;
                self.last_counter_underflow = counter_underflow;
                self.last_counter_overflow = counter_overflow;
                let cycles = self.pending_cycles + 1;
                if counter == pending || cycles >= Self::OVERRIDE_TIMEOUT_CYCLES {
                    self.pending_override = None;
                    self.pending_cycles = 0;
                } else {
                    self.pending_cycles = cycles;
                }
                return;
            },
            None => {},
        }

        // Only rising edges of the underflow and overflow flags count.
        let counter_underflow_rising = counter_underflow && !self.last_counter_underflow;
        let counter_overflow_rising = counter_overflow && !self.last_counter_overflow;

        let change = counter_change(
            self.last_counter,
            counter,
            counter_underflow_rising,
            counter_overflow_rising,
        );
        self.counter = self.counter + change as i128;
        self.last_counter = counter;
        self.last_counter_underflow = counter_underflow;
        self.last_counter_overflow = counter_overflow;
    }

    /// The widened counter.
    pub fn current(&self) -> (r: i128)
        ensures
            r == self@.counter,
    {
        self.counter
    }

    /// Schedules a counter override; it takes effect on the next `pop_override`.
    pub fn push_override(&mut self, new_counter: i128)
        ensures
            final(self)@ == (CounterState { set_counter: Some(new_counter), ..old(self)@ }),
    {
        self.set_counter = Some(new_counter);
    }

    /// Applies a scheduled override to the widened counter and returns the raw
    /// 16-bit value that the device must be set to.
    pub fn pop_override(&mut self) -> (r: Option<u16>)
        ensures
            match old(self)@.set_counter {
                Some(c) => {
                    &&& r == Some(spec_wrap_u16(c as int) as u16)
                    &&& final(self)@ == (CounterState {
                        counter: c as int,
                        set_counter: None,
                        pending_override: Some(spec_wrap_u16(c as int) as u16),
                        pending_cycles: 0,
                        ..old(self)@
                    })
                },
                None => r is None && final(self)@ == old(self)@,
            },
    {
        match self.set_counter {
            Some(counter) => {
                self.counter = counter;
                let u16_counter = set_counter_u16_to_i128(counter);
                self.set_counter = None;
                self.pending_override = Some(u16_counter);
                self.pending_cycles = 0;
                Some(u16_counter)
            },
            None => None,
        }
    }

    /// The widened counter is held in an `i128`.
    pub proof fn lemma_counter_fits(&self)
        ensures
            i128::MIN <= self@.counter <= i128::MAX,
    {
    }

    /// The scheduled override, if any.
    pub fn get_override(&self) -> (r: Option<i128>)
        ensures
            r == self@.set_counter,
    {
        self.set_counter
    }
}

impl Default for CounterWrapperU16U128 {
    fn default() -> (r: Self)
        ensures
            r@ == (CounterState {
                counter: 0,
                last_counter: 0,
                last_underflow: false,
                last_overflow: false,
                set_counter: None,
                pending_override: None,
                pending_cycles: 0,
            }),
    {
        Self::new()
    }
}

/// Distance travelled between two raw samples; a set overflow (underflow) flag
/// adds (removes) one full period when the raw value actually wrapped.
pub fn counter_change(
    last_counter: u16,
    counter: u16,
    counter_underflow: bool,
    counter_overflow: bool,
) -> (r: i32)
    ensures
        r == spec_counter_change(last_counter, counter, counter_underflow, counter_overflow),
{
    let base_change = (counter as i32) - (last_counter as i32);
    if counter_overflow {
        if counter < last_counter || (last_counter == counter && base_change != 0) {
            base_change + U16_PERIOD
        } else {
            base_change
        }
    } else if counter_underflow {
        if counter > last_counter || (last_counter == counter && base_change != 0) {
            base_change - U16_PERIOD
        } else {
            base_change
        }
    } else {
        base_change
    }
}

/// The raw 16-bit counter value that corresponds to a widened counter, i.e.
/// the widened value modulo `2^16`, negative values wrapping from the top.
pub fn set_counter_u16_to_i128(new_counter: i128) -> (r: u16)
    ensures
        r as int == spec_wrap_u16(new_counter as int),
{
    if new_counter >= 0 {
        let m = (new_counter as u128) % 65536;
        m as u16
    } else {
        // -(x + 1) >= 0, and x mod m == m - 1 - ((-(x + 1)) mod m)
        let flipped = (-(new_counter + 1)) as u128;
        let m = flipped % 65536;
        assert((new_counter as int) % 65536 == 65535 - (flipped as int) % 65536) by {
            let x = new_counter as int;
            let f = flipped as int;
            assert(f == -x - 1);
            let q = f / 65536;
            let rr = f % 65536;
            assert(f == 65536 * q + rr && 0 <= rr < 65536);
            assert(x == 65536 * (-q - 1) + (65535 - rr));
            vstd::arithmetic::div_mod::lemma_fundamental_div_mod_converse(
                x,
                65536,
                -q - 1,
                65535 - rr,
            );
        }
        (65535 - m) as u16
    }
}

/// An update while an override is pending never moves the widened counter: the
/// jump of the raw value to the override is not counted as travel.
pub proof fn lemma_pending_update_is_not_travel(s: CounterState, counter: u16, underflow: bool, overflow: bool)
    requires
        s.pending_override is Some,
    ensures
        spec_update(s, counter, underflow, overflow).counter == s.counter,
{
}

/// Every counted change agrees with the raw counter modulo `2^16`.
pub proof fn lemma_change_matches_raw_modulo(
    last_counter: u16,
    counter: u16,
    underflow: bool,
    overflow: bool,
)
    ensures
        spec_counter_change(last_counter, counter, underflow, overflow) % 65536
            == (counter as int - last_counter as int) % 65536,
{
    let base = counter as int - last_counter as int;
    vstd::arithmetic::div_mod::lemma_mod_add_multiples_vanish(base, 65536);
    vstd::arithmetic::div_mod::lemma_mod_sub_multiples_vanish(base, 65536);
}

/// The widened counter stays congruent to the raw counter: if it is before an
/// update without a pending override, it is afterwards.
pub proof fn lemma_update_keeps_raw_congruence(s: CounterState, counter: u16, underflow: bool, overflow: bool)
    requires
        s.pending_override is None,
        s.counter % 65536 == s.last_counter as int,
    ensures
        spec_update(s, counter, underflow, overflow).counter % 65536 == counter as int,
{
    let change = spec_counter_change(
        s.last_counter,
        counter,
        underflow && !s.last_underflow,
        overflow && !s.last_overflow,
    );
    lemma_change_matches_raw_modulo(
        s.last_counter,
        counter,
        underflow && !s.last_underflow,
        overflow && !s.last_overflow,
    );
    vstd::arithmetic::div_mod::lemma_add_mod_noop(s.counter, change, 65536);
    vstd::arithmetic::div_mod::lemma_add_mod_noop(s.counter, counter as int - s.last_counter as int, 65536);
    vstd::arithmetic::div_mod::lemma_small_mod(counter as nat, 65536);
}

/// Only the rising edge of a wrap flag counts. A flag that was already set
/// on the previous sample changes nothing, and without a rising edge (and no
/// pending override) the widened counter moves by exactly the raw
/// difference, less than one period either way.
pub proof fn lemma_only_rising_edges_wrap(s: CounterState, counter: u16, underflow: bool, overflow: bool)
    ensures
        s.last_underflow ==> spec_update(s, counter, true, overflow).counter
            == spec_update(s, counter, false, overflow).counter,
        s.last_overflow ==> spec_update(s, counter, underflow, true).counter
            == spec_update(s, counter, underflow, false).counter,
        s.pending_override is None && (underflow ==> s.last_underflow) && (overflow ==> s.last_overflow)
            ==> spec_update(s, counter, underflow, overflow).counter == s.counter + (counter as int - s.last_counter as int),
        s.pending_override is None && (underflow ==> s.last_underflow) && (overflow ==> s.last_overflow)
            ==> -65536 < spec_update(s, counter, underflow, overflow).counter - s.counter < 65536,
{
}

/// The state after feeding a whole sequence of samples, oldest first.
pub open spec fn spec_update_all(s: CounterState, samples: Seq<(u16, bool, bool)>) -> CounterState
    decreases samples.len(),
{
    if samples.len() == 0 {
        s
    } else {
        let last = samples.last();
        spec_update(spec_update_all(s, samples.drop_last()), last.0, last.1, last.2)
    }
}

/// The wait for a device to adopt an override is bounded: whatever the device
/// reports, once as many samples as the timeout leaves have been fed, the
/// override is no longer pending and counting resumes.
pub proof fn lemma_override_wait_is_bounded(s: CounterState, samples: Seq<(u16, bool, bool)>)
    requires
        s.pending_override is Some,
        s.pending_cycles < spec_override_timeout(),
        samples.len() == spec_override_timeout() - s.pending_cycles,
    ensures
        spec_update_all(s, samples).pending_override is None,
{
    lemma_pending_progress(s, samples);
}

/// After `k` samples an override is either adopted or has waited `k` more cycles.
proof fn lemma_pending_progress(s: CounterState, samples: Seq<(u16, bool, bool)>)
    requires
        s.pending_override is Some,
        s.pending_cycles < spec_override_timeout(),
        s.pending_cycles + samples.len() <= spec_override_timeout(),
    ensures
        spec_update_all(s, samples).pending_override is None || (
            spec_update_all(s, samples).pending_cycles == s.pending_cycles + samples.len()
            && spec_update_all(s, samples).pending_cycles < spec_override_timeout()),
    decreases samples.len(),
{
    if samples.len() > 0 {
        lemma_pending_progress(s, samples.drop_last());
        let mid = spec_update_all(s, samples.drop_last());
        if mid.pending_override is Some {
            assert(mid.pending_cycles + 1 <= spec_override_timeout());
        } else {
            lemma_none_stays_none(mid, samples.last().0, samples.last().1, samples.last().2);
        }
    }
}

proof fn lemma_none_stays_none(s: CounterState, counter: u16, underflow: bool, overflow: bool)
    requires
        s.pending_override is None,
    ensures
        spec_update(s, counter, underflow, overflow).pending_override is None,
{
}

} // verus!
