//! The decisions of the EtherCAT master's state machine, apart from the bus
//! work they steer: which requests a state acts on, how the OP ramp and the
//! cycle counter advance, the distributed-clock phase error, and where each
//! subdevice's data sits in the process data image.
use vstd::prelude::*;
use crate::ethercat_state::EtherCATState;

verus! {

/// The kind of a request sent to the EtherCAT thread.
#[derive(Debug, Clone, Copy, PartialEq, Eq, Structural)]
pub enum RequestKind {
    ChangeState(EtherCATState),
    Shutdown,
    SdoWrite,
    SdoRead,
    ReadMachineIdent,
    WriteMachineIdent,
    EnableDcSync0,
    EnableDcSync01,
    ConfigureOversampling,
}

/// What the thread does with a request received in PreOp.
#[derive(Debug, Clone, Copy, PartialEq, Eq, Structural)]
pub enum PreOpAction {
    /// Answer the state change as done and stay in PreOp.
    AcknowledgeStateChange,
    /// Leave PreOp: go on towards OP, or shut down.
    LeavePreOp,
    /// Carry out the bus operation, answer with its result, stay in PreOp.
    Perform,
    /// Stay in PreOp without an answer.
    Ignore,
}

/// The action in PreOp: a change to `NoInterface` is acknowledged, a change
/// to OP and a shutdown leave PreOp, other state changes are ignored, and
/// every other request is performed.
pub open spec fn spec_preop_action(r: RequestKind) -> PreOpAction {
    match r {
        RequestKind::ChangeState(EtherCATState::NoInterface) => PreOpAction::AcknowledgeStateChange,
        RequestKind::ChangeState(EtherCATState::Op) => PreOpAction::LeavePreOp,
        RequestKind::ChangeState(_) => PreOpAction::Ignore,
        RequestKind::Shutdown => PreOpAction::LeavePreOp,
        _ => PreOpAction::Perform,
    }
}

/// The action in PreOp for a request.
pub fn preop_action(r: RequestKind) -> (a: PreOpAction)
    ensures
        a == spec_preop_action(r),
{
    match r {
        RequestKind::ChangeState(EtherCATState::NoInterface) => PreOpAction::AcknowledgeStateChange,
        RequestKind::ChangeState(EtherCATState::Op) => PreOpAction::LeavePreOp,
        RequestKind::ChangeState(_) => PreOpAction::Ignore,
        RequestKind::Shutdown => PreOpAction::LeavePreOp,
        _ => PreOpAction::Perform,
    }
}

/// What the thread does with a request received in Init.
#[derive(Debug, Clone, Copy, PartialEq, Eq, Structural)]
pub enum InitAction {
    /// Bring the bus up into PreOp.
    StartPreOp,
    /// End the thread: shutting down is safe in Init.
    Shutdown,
    /// Ignore the request.
    Ignore,
}

/// The action in Init: only a change to PreOp and a shutdown are acted on.
pub fn init_action(r: RequestKind) -> (a: InitAction)
    ensures
        a == (match r {
            RequestKind::ChangeState(EtherCATState::PreOp) => InitAction::StartPreOp,
            RequestKind::Shutdown => InitAction::Shutdown,
            _ => InitAction::Ignore,
        }),
{
    match r {
        RequestKind::ChangeState(EtherCATState::PreOp) => InitAction::StartPreOp,
        RequestKind::Shutdown => InitAction::Shutdown,
        _ => InitAction::Ignore,
    }
}

/// Leaving `NoInterface` for Init once an interface is set; every other state
/// is kept (the others are left by the work they do).
pub fn no_interface_step(state: EtherCATState, has_interface: bool) -> (r: EtherCATState)
    ensures
        r == (if state == EtherCATState::NoInterface && has_interface { EtherCATState::Init } else { state }),
{
    if state == EtherCATState::NoInterface && has_interface {
        EtherCATState::Init
    } else {
        state
    }
}

/// The cycle counter after one more cycle: it wraps to zero after `u64::MAX`.
pub fn next_cycle_count(cycle: u64) -> (r: u64)
    ensures
        r == (if cycle == u64::MAX { 0 } else { cycle + 1 }),
{
    if cycle == u64::MAX {
        0
    } else {
        cycle + 1
    }
}

/// Progress of the ramp into OP.
#[derive(Debug, Clone, Copy, PartialEq, Eq, Structural)]
pub struct OpRamp {
    /// Every subdevice has confirmed OP.
    pub is_all_op: bool,
    /// Cycles without every subdevice in OP.
    pub not_all_op_cycles: u32,
}

/// The ramp after a cycle in which `all_op` says whether every subdevice
/// reported OP: once all are in OP the ramp is over; until then the cycles
/// are counted, and from `grace_cycles` on each further cycle is reported as
/// a ramp failure.
pub open spec fn spec_op_ramp_step(r: OpRamp, all_op: bool, grace_cycles: u32) -> (OpRamp, bool) {
    if r.is_all_op {
        (r, false)
    } else if all_op {
        (OpRamp { is_all_op: true, not_all_op_cycles: 0 }, false)
    } else {
        let n = if r.not_all_op_cycles == u32::MAX { u32::MAX } else { (r.not_all_op_cycles + 1) as u32 };
        (OpRamp { is_all_op: false, not_all_op_cycles: n }, n >= grace_cycles)
    }
}

/// One cycle of the OP ramp; the flag says whether to report a ramp failure.
pub fn op_ramp_step(r: OpRamp, all_op: bool, grace_cycles: u32) -> (out: (OpRamp, bool))
    ensures
        out == spec_op_ramp_step(r, all_op, grace_cycles),
{
    if r.is_all_op {
        (r, false)
    } else if all_op {
        (OpRamp { is_all_op: true, not_all_op_cycles: 0 }, false)
    } else {
        let n = if r.not_all_op_cycles == u32::MAX { u32::MAX } else { r.not_all_op_cycles + 1 };
        (OpRamp { is_all_op: false, not_all_op_cycles: n }, n >= grace_cycles)
    }
}

/// Once every subdevice is in OP, the ramp stays over and never reports.
pub proof fn lemma_op_ramp_is_over_for_good(r: OpRamp, all_op: bool, grace_cycles: u32)
    requires
        r.is_all_op,
    ensures
        spec_op_ramp_step(r, all_op, grace_cycles) == (r, false),
{
}

/// The phase error of the bus clock against the wanted sync point, in
/// `-(cycle/2)..=cycle/2`: the distance of the system time, shifted by the
/// sync offset, from the nearest cycle boundary.
pub open spec fn spec_dc_phase(dc_system_time: u64, sync_offset_ns: u64, cycle_time_ns: u64) -> int {
    let d = (dc_system_time - sync_offset_ns) % (cycle_time_ns as int);
    if d > cycle_time_ns / 2 { d - cycle_time_ns } else { d }
}

/// The phase error of the bus clock against the wanted sync point.
pub fn dc_phase(dc_system_time: u64, sync_offset_ns: u64, cycle_time_ns: u64) -> (r: i64)
    requires
        dc_system_time >= sync_offset_ns,
        0 < cycle_time_ns <= i64::MAX,
    ensures
        r == spec_dc_phase(dc_system_time, sync_offset_ns, cycle_time_ns),
        -(cycle_time_ns as int) < r <= cycle_time_ns / 2,
{
    let d = (dc_system_time - sync_offset_ns) % cycle_time_ns;
    if d > cycle_time_ns / 2 {
        (d as i64) - (cycle_time_ns as i64)
    } else {
        d as i64
    }
}

/// The length of the next cycle: the nominal cycle time corrected by the
/// controller's offset, clamped to at most one cycle either way.
pub fn corrected_cycle_ns(cycle_time_ns: i64, offset_ns: i64) -> (r: u64)
    requires
        0 < cycle_time_ns <= i64::MAX / 2,
    ensures
        r == cycle_time_ns + (if offset_ns < -cycle_time_ns {
            -cycle_time_ns
        } else if offset_ns > cycle_time_ns {
            cycle_time_ns as int
        } else {
            offset_ns as int
        }),
{
    let c = if offset_ns < -cycle_time_ns {
        -cycle_time_ns
    } else if offset_ns > cycle_time_ns {
        cycle_time_ns
    } else {
        offset_ns
    };
    (cycle_time_ns + c) as u64
}

/// The signed time difference register (`0x092C`): bit 31 is the sign, the
/// rest the magnitude.
pub fn decode_dc_time_difference(value: u32) -> (r: i32)
    ensures
        value >= 0x8000_0000 ==> r == -((value - 0x8000_0000) as int),
        value < 0x8000_0000 ==> r == value,
{
    if value >= 0x8000_0000 {
        let m = value - 0x8000_0000;
        -(m as i32)
    } else {
        value as i32
    }
}

/// Where one subdevice's data sits in the process data image.
#[derive(Debug, Clone, Copy, PartialEq, Eq, Structural)]
pub struct PdiRange {
    pub start: usize,
    pub end: usize,
}

/// The ranges of consecutive blocks of the given lengths, from offset 0.
pub open spec fn spec_ranges(lengths: Seq<usize>) -> Seq<PdiRange>
    decreases lengths.len(),
{
    if lengths.len() == 0 {
        Seq::empty()
    } else {
        let prev = spec_ranges(lengths.drop_last());
        let start: int = if prev.len() == 0 { 0 } else { prev.last().end as int };
        prev.push(PdiRange { start: start as usize, end: (start + lengths.last()) as usize })
    }
}

/// The total of the lengths.
pub open spec fn spec_total(lengths: Seq<usize>) -> int
    decreases lengths.len(),
{
    if lengths.len() == 0 { 0 } else { spec_total(lengths.drop_last()) + lengths.last() }
}

/// The range of each subdevice's data when the data of all subdevices are
/// laid out one after the other, in bus order.
pub fn pdi_ranges(lengths: &[usize]) -> (r: Vec<PdiRange>)
    requires
        spec_total(lengths@) <= usize::MAX,
    ensures
        r@ == spec_ranges(lengths@),
{
    let mut r: Vec<PdiRange> = Vec::new();
    let mut offset: usize = 0;
    let mut i: usize = 0;
    while i < lengths.len()
        invariant
            i <= lengths.len(),
            spec_total(lengths@) <= usize::MAX,
            r@ == spec_ranges(lengths@.subrange(0, i as int)),
            offset == spec_total(lengths@.subrange(0, i as int)),
            i > 0 ==> r@.len() > 0 && r@.last().end == offset,
            r@.len() == i,
        decreases lengths.len() - i,
    {
        proof {
            lemma_total_prefix_bound(lengths@, i as int + 1);
            let next = lengths@.subrange(0, i + 1);
            assert(next.drop_last() =~= lengths@.subrange(0, i as int));
            assert(next.last() == lengths@[i as int]);
        }
        let end = offset + lengths[i];
        r.push(PdiRange { start: offset, end });
        offset = end;
        i += 1;
    }
    assert(lengths@.subrange(0, lengths@.len() as int) =~= lengths@);
    r
}

/// A prefix never totals more than the whole.
pub proof fn lemma_total_prefix_bound(lengths: Seq<usize>, k: int)
    requires
        0 <= k <= lengths.len(),
    ensures
        spec_total(lengths.subrange(0, k)) <= spec_total(lengths),
    decreases lengths.len(),
{
    if k < lengths.len() {
        assert(lengths.drop_last() =~= lengths.subrange(0, lengths.len() - 1));
        assert(lengths.subrange(0, k) =~= lengths.drop_last().subrange(0, k));
        lemma_total_prefix_bound(lengths.drop_last(), k);
    } else {
        assert(lengths.subrange(0, k) =~= lengths);
    }
}

/// The ranges tile the image: each starts where the previous one ends, the
/// first at 0, and each is as long as its subdevice's data.
pub proof fn lemma_ranges_tile(lengths: Seq<usize>)
    requires
        spec_total(lengths) <= usize::MAX,
    ensures
        spec_ranges(lengths).len() == lengths.len(),
        forall|i: int| 0 <= i < lengths.len() ==> #[trigger] spec_ranges(lengths)[i].end
            == spec_ranges(lengths)[i].start + lengths[i],
        lengths.len() > 0 ==> spec_ranges(lengths)[0].start == 0,
        forall|i: int| 0 < i < lengths.len() ==> #[trigger] spec_ranges(lengths)[i].start
            == spec_ranges(lengths)[i - 1].end,
        lengths.len() > 0 ==> spec_ranges(lengths).last().end == spec_total(lengths),
    decreases lengths.len(),
{
    if lengths.len() > 0 {
        let prev = lengths.drop_last();
        assert(spec_total(prev) <= spec_total(lengths));
        lemma_ranges_tile(prev);
    }
}

/// How many subdevices' inputs fit into the image of `capacity` bytes when
/// copied one after the other: copying stops at the first that would overflow.
pub open spec fn spec_fitting(lengths: Seq<usize>, capacity: usize) -> nat
    decreases lengths.len(),
{
    if lengths.len() == 0 {
        0
    } else {
        let k = spec_fitting(lengths.drop_last(), capacity);
        if k == lengths.len() - 1 && spec_total(lengths) <= capacity { lengths.len() } else { k }
    }
}

/// How many subdevices' inputs are copied into the image.
pub fn fitting_inputs(lengths: &[usize], capacity: usize) -> (r: usize)
    ensures
        r == spec_fitting(lengths@, capacity),
        r <= lengths.len(),
{
    let mut offset: usize = 0;
    let mut i: usize = 0;
    while i < lengths.len()
        invariant
            i <= lengths.len(),
            offset <= capacity,
            offset == spec_total(lengths@.subrange(0, i as int)),
            spec_fitting(lengths@.subrange(0, i as int), capacity) == i,
        decreases lengths.len() - i,
    {
        proof {
            let next = lengths@.subrange(0, i + 1);
            assert(next.drop_last() =~= lengths@.subrange(0, i as int));
            assert(next.last() == lengths@[i as int]);
        }
        if lengths[i] > capacity - offset {
            proof {
                lemma_fitting_stops(lengths@, capacity, i as int);
            }
            return i;
        }
        offset = offset + lengths[i];
        i += 1;
    }
    assert(lengths@.subrange(0, lengths@.len() as int) =~= lengths@);
    i
}

/// Once a subdevice does not fit, none after it is copied.
pub proof fn lemma_fitting_stops(lengths: Seq<usize>, capacity: usize, i: int)
    requires
        0 <= i < lengths.len(),
        spec_fitting(lengths.subrange(0, i), capacity) == i,
        spec_total(lengths.subrange(0, i)) + lengths[i] > capacity,
    ensures
        spec_fitting(lengths, capacity) == i,
    decreases lengths.len(),
{
    let n = lengths.len();
    if n == i + 1 {
        assert(lengths.drop_last() =~= lengths.subrange(0, i));
        assert(lengths.subrange(0, i + 1) =~= lengths);
    } else {
        assert(lengths.drop_last().subrange(0, i) =~= lengths.subrange(0, i));
        lemma_fitting_stops(lengths.drop_last(), capacity, i);
    }
}

/// In PreOp every bus operation (an SDO write or read, reading or writing
/// the machine identification, enabling SYNC0 or SYNC0/SYNC1, configuring
/// oversampling) is performed and answered; only state changes and a
/// shutdown are handled otherwise. Leaving PreOp happens exactly for a
/// change to OP and for a shutdown.
pub proof fn lemma_preop_performs_every_bus_operation(r: RequestKind)
    ensures
        !(r is ChangeState) && !(r is Shutdown) ==> spec_preop_action(r) == PreOpAction::Perform,
        spec_preop_action(r) == PreOpAction::LeavePreOp
            <==> (r == RequestKind::Shutdown || r == RequestKind::ChangeState(EtherCATState::Op)),
        spec_preop_action(r) == PreOpAction::AcknowledgeStateChange
            <==> r == RequestKind::ChangeState(EtherCATState::NoInterface),
{
}

} // verus!
