//! The WAGO 750-354 EtherCAT fieldbus coupler: the modules on its local bus,
//! and where each module's data sits in the coupler's process data.
use vstd::prelude::*;
use crate::wago::{Module, WAGO_VENDOR_ID, WAGO_750_671_PRODUCT_ID, WAGO_750_672_PRODUCT_ID};
use crate::thread_channel::{
    spec_possible_answer, spec_sdo_read_outcome, spec_sdo_read_request, ChannelError, ChannelRequests, ChannelResponse,
    EtherCATThreadChannel,
};

verus! {

/// Object holding the number of modules on the local bus.
pub const MODULE_COUNT_INDEX: u16 = 0xF050;

/// Sync-manager input PDO assignment of the coupler.
pub const TX_MAPPING_INDEX: u16 = 0x1C13;

/// Sync-manager output PDO assignment of the coupler.
pub const RX_MAPPING_INDEX: u16 = 0x1C12;

/// The module objects start here, one every `0x10` indices.
pub const MODULES_START_ADDR: u16 = 0x9000;

/// Sub-index of a module object holding the module's identification.
pub const MODULE_IDENT_SUBINDEX: u8 = 0x0A;

/// Most modules a coupler handles.
pub const MAX_MODULES: usize = 64;

pub const WAGO_750_354_VENDOR_ID: u32 = 0x00000021;
pub const WAGO_750_354_PRODUCT_ID: u32 = 0x07500354;
pub const WAGO_750_354_REVISION_A: u32 = 0x2;

/// The start of a module's data in the coupler's process data.
#[derive(Debug, Clone, Copy, PartialEq, Eq, Structural)]
pub struct ModulePdoMapping {
    /// Bit offset.
    pub offset: usize,
    /// Slot of the module.
    pub module_i: u32,
}

/// First index of the process data objects of the inputs (`0x6000`) or of the outputs (`0x7000`).
pub open spec fn spec_start_index(is_tx: bool) -> u32 {
    if is_tx { 0x6000 } else { 0x7000 }
}

/// The slot a PDO mapping entry belongs to: modules get sixteen object
/// indices each from the start index on, and the first sixteen belong to slot 0.
pub open spec fn spec_module_index(pdo_mapping: u32, is_tx: bool) -> u32 {
    let index_in_hex = ((pdo_mapping & 0xFFFF0000u32) >> 16u32) - spec_start_index(is_tx);
    if index_in_hex < 16 { 0 } else { (index_in_hex / 16) as u32 }
}

/// The mapped object index is at or above the start index of its direction.
pub open spec fn spec_mapping_in_range(pdo_mapping: u32, is_tx: bool) -> bool {
    (pdo_mapping & 0xFFFF0000u32) >> 16u32 >= spec_start_index(is_tx)
}

/// The process data of a coupler and its modules.
#[derive(Debug, Clone)]
pub struct Wago750_354 {
    pub is_used: bool,
    /// The modules on the local bus, by slot.
    pub slots: Vec<Module>,
    pub dev_count: usize,
    pub module_count: usize,
    pub rx_pdo_mappings: Vec<ModulePdoMapping>,
    pub tx_pdo_mappings: Vec<ModulePdoMapping>,
    pub tx_size: usize,
    pub rx_size: usize,
}

/// The writes-free description of a known module type: whether it has
/// inputs, outputs, and its name.
pub open spec fn spec_module_kind(product_id: u32) -> Option<(bool, bool, Seq<char>)> {
    if product_id == WAGO_750_671_PRODUCT_ID {
        Some((true, true, "750-671"@))
    } else if product_id == WAGO_750_672_PRODUCT_ID {
        Some((true, true, "750-672"@))
    } else {
        None
    }
}

/// A module as it is found in slot `slot`; a product not known here has
/// neither inputs nor outputs and no name.
pub fn describe_module(slot: u16, device_address: u16, product_id: u32) -> (m: Module)
    ensures
        m.slot == slot,
        m.belongs_to_addr == device_address,
        m.vendor_id == WAGO_750_354_VENDOR_ID,
        m.product_id == product_id,
        m.tx_offset == 0,
        m.rx_offset == 0,
        match spec_module_kind(product_id) {
            Some((tx, rx, name)) => m.has_tx == tx && m.has_rx == rx && m.name@ == name,
            None => !m.has_tx && !m.has_rx && m.name@ == Seq::<char>::empty(),
        },
{
    let (has_tx, has_rx, name) = if product_id == WAGO_750_671_PRODUCT_ID {
        (true, true, String::from_str("750-671"))
    } else if product_id == WAGO_750_672_PRODUCT_ID {
        (true, true, String::from_str("750-672"))
    } else {
        (false, false, String::new())
    };
    Module {
        slot,
        belongs_to_addr: device_address,
        vendor_id: WAGO_750_354_VENDOR_ID,
        product_id,
        has_tx,
        has_rx,
        tx_offset: 0,
        rx_offset: 0,
        name,
    }
}

/// Object index of the module object of slot `slot`: sixteen indices per
/// slot from [`MODULES_START_ADDR`] on, the slot offset taken modulo `2^16`.
pub open spec fn spec_module_address(slot: u16) -> u16 {
    (MODULES_START_ADDR + (slot as int * 0x10) % 0x1_0000) as u16
}

/// Object index of the module object of slot `slot`.
pub fn module_address(slot: u16) -> (r: u16)
    requires
        MODULES_START_ADDR + (slot as int * 0x10) % 0x1_0000 <= u16::MAX,
    ensures
        r == MODULES_START_ADDR + (slot as int * 0x10) % 0x1_0000,
{
    let offset = ((slot as u32 * 0x10) % 0x1_0000) as u16;
    MODULES_START_ADDR + offset
}

/// The module count read from [`MODULE_COUNT_INDEX`], or the read's error.
pub fn module_count_from_read<E>(read: Result<u8, E>) -> (r: Result<usize, E>)
    ensures
        match read {
            Ok(v) => r == Ok::<usize, E>(v as usize),
            Err(e) => r == Err::<usize, E>(e),
        },
{
    match read {
        Ok(v) => Ok(v as usize),
        Err(e) => Err(e),
    }
}


/// The modules of a coupler from the identifications read from the module
/// objects of slots `0..`, one per slot.
pub fn modules_from_idents(device_address: u16, idents: &[u32]) -> (r: Vec<Module>)
    requires
        idents.len() <= 0x1_0000,
    ensures
        r.len() == idents.len(),
        forall|i: int| 0 <= i < idents.len() ==> spec_is_module(#[trigger] r@[i], i as u16, device_address, idents@[i]),
{
    let mut modules: Vec<Module> = Vec::new();
    let mut i: usize = 0;
    while i < idents.len()
        invariant
            i <= idents.len() <= 0x1_0000,
            modules.len() == i,
            forall|k: int| 0 <= k < i ==> spec_is_module(#[trigger] modules@[k], k as u16, device_address, idents@[k]),
        decreases idents.len() - i,
    {
        let m = describe_module(i as u16, device_address, idents[i]);
        modules.push(m);
        i += 1;
    }
    modules
}

/// What [`describe_module`] gives for slot `slot` of the coupler at
/// `device_address` whose module identifies as `product_id`.
pub open spec fn spec_is_module(m: Module, slot: u16, device_address: u16, product_id: u32) -> bool {
    &&& m.slot == slot
    &&& m.belongs_to_addr == device_address
    &&& m.vendor_id == WAGO_750_354_VENDOR_ID
    &&& m.product_id == product_id
    &&& m.tx_offset == 0
    &&& m.rx_offset == 0
    &&& match spec_module_kind(product_id) {
        Some((tx, rx, name)) => m.has_tx == tx && m.has_rx == rx && m.name@ == name,
        None => !m.has_tx && !m.has_rx && m.name@ == Seq::<char>::empty(),
    }
}

/// The modules of a coupler from the reads that discover them: the module
/// count, then the identification of every slot. A failed read is passed on;
/// a coupler without modules has none, whatever else was read.
pub fn modules_from_reads<E>(
    device_address: u16,
    module_count: Result<usize, E>,
    idents: Result<Vec<u32>, E>,
) -> (r: Result<Vec<Module>, E>)
    requires
        idents matches Ok(v) ==> v.len() <= 0x1_0000,
    ensures
        match module_count {
            Err(e) => r == Err::<Vec<Module>, E>(e),
            Ok(count) => if count == 0 {
                r matches Ok(v) && v.len() == 0
            } else {
                match idents {
                    Err(e) => r == Err::<Vec<Module>, E>(e),
                    Ok(ids) => r matches Ok(v) && v.len() == ids.len()
                        && forall|i: int| 0 <= i < ids.len() ==> spec_is_module(#[trigger] v@[i], i as u16, device_address, ids@[i]),
                }
            },
        },
{
    let count = match module_count {
        Ok(count) => count,
        Err(e) => return Err(e),
    };
    if count == 0 {
        return Ok(Vec::new());
    }
    match idents {
        Ok(ids) => Ok(modules_from_idents(device_address, ids.as_slice())),
        Err(e) => Err(e),
    }
}


/// The total bit length (low byte of each entry) of PDO mapping entries.
pub open spec fn spec_mapped_bits(ms: Seq<u32>) -> int
    decreases ms.len(),
{
    if ms.len() == 0 { 0 } else { spec_mapped_bits(ms.drop_last()) + (ms.last() & 0xFFu32) }
}

/// The number of bits that the coupler's own PDO entries take up, where the
/// data of the first module starts.
pub fn mapped_bits(mappings: &[u32]) -> (r: usize)
    requires
        255 * mappings.len() <= usize::MAX,
    ensures
        r == spec_mapped_bits(mappings@),
        r <= 255 * mappings.len(),
{
    let mut total: usize = 0;
    let mut i: usize = 0;
    while i < mappings.len()
        invariant
            i <= mappings.len(),
            255 * mappings.len() <= usize::MAX,
            total == spec_mapped_bits(mappings@.subrange(0, i as int)),
            total <= 255 * i,
        decreases mappings.len() - i,
    {
        let m = mappings[i];
        proof {
            assert((m & 0xFFu32) <= 255u32) by (bit_vector);
            assert(mappings@.subrange(0, i + 1).drop_last() =~= mappings@.subrange(0, i as int));
        }
        total = total + (m & 0xFF) as usize;
        i += 1;
    }
    assert(mappings@.subrange(0, mappings@.len() as int) =~= mappings@);
    total
}

/// `std`'s `slice::sort` on `u32`s: its documentation gives an ascending
/// order of the same elements.
#[verifier::external_body]
fn sort_u32s(v: &mut Vec<u32>)
    ensures
        final(v)@.to_multiset() == old(v)@.to_multiset(),
        forall|i: int, j: int| 0 <= i <= j < final(v)@.len() ==> final(v)@[i] <= final(v)@[j],
{
    v.sort();
}

/// Scans the mappings in order from bit `offset` on: each entry takes its
/// bit length (low byte) of room, and the first entry of each slot below
/// [`MAX_MODULES`] records where that slot's data starts.
pub open spec fn spec_scan(ms: Seq<u32>, is_tx: bool, offset: int, out: Seq<ModulePdoMapping>) -> Seq<ModulePdoMapping>
    decreases ms.len(),
{
    if ms.len() == 0 {
        out
    } else {
        let m = ms[0];
        let mi = spec_module_index(m, is_tx);
        let out2 = if mi < MAX_MODULES && (out.len() == 0 || out.last().module_i != mi) {
            out.push(ModulePdoMapping { offset: offset as usize, module_i: mi })
        } else {
            out
        };
        spec_scan(ms.subrange(1, ms.len() as int), is_tx, offset + (m & 0xFFu32), out2)
    }
}


/// Each slot appears at most once in a list of slot starts, in increasing
/// slot order.
pub open spec fn spec_one_per_slot(out: Seq<ModulePdoMapping>) -> bool {
    forall|i: int, j: int| 0 <= i < j < out.len() ==> out[i].module_i < out[j].module_i
}

proof fn lemma_module_index_monotone(a: u32, b: u32, is_tx: bool)
    requires
        a <= b,
        spec_mapping_in_range(a, is_tx),
        spec_mapping_in_range(b, is_tx),
    ensures
        spec_module_index(a, is_tx) <= spec_module_index(b, is_tx),
{
    assert(a <= b ==> (a & 0xFFFF0000u32) >> 16u32 <= (b & 0xFFFF0000u32) >> 16u32) by (bit_vector);
}

proof fn lemma_scan_one_per_slot(ms: Seq<u32>, is_tx: bool, offset: int, out: Seq<ModulePdoMapping>)
    requires
        forall|i: int, j: int| 0 <= i <= j < ms.len() ==> ms[i] <= ms[j],
        forall|i: int| 0 <= i < ms.len() ==> spec_mapping_in_range(#[trigger] ms[i], is_tx),
        spec_one_per_slot(out),
        out.len() > 0 && ms.len() > 0 ==> out.last().module_i <= spec_module_index(ms[0], is_tx),
    ensures
        spec_one_per_slot(spec_scan(ms, is_tx, offset, out)),
    decreases ms.len(),
{
    if ms.len() > 0 {
        let m = ms[0];
        let mi = spec_module_index(m, is_tx);
        let out2 = if mi < MAX_MODULES && (out.len() == 0 || out.last().module_i != mi) {
            out.push(ModulePdoMapping { offset: offset as usize, module_i: mi })
        } else {
            out
        };
        let rest = ms.subrange(1, ms.len() as int);
        assert(spec_one_per_slot(out2)) by {
            if out2.len() == out.len() + 1 {
                assert forall|i: int, j: int| 0 <= i < j < out2.len() implies out2[i].module_i < out2[j].module_i by {
                    if j == out.len() as int && i < j {
                        assert(out[i].module_i <= out.last().module_i);
                    }
                }
            }
        }
        if rest.len() > 0 {
            assert(rest[0] == ms[1]);
            lemma_module_index_monotone(ms[0], ms[1], is_tx);
        }
        lemma_scan_one_per_slot(rest, is_tx, offset + (m & 0xFFu32), out2);
    }
}

/// The slot starts that a scan of sorted mapping entries records name each
/// slot at most once, in increasing slot order: the first entry of a slot
/// gives its start, later entries of the same slot are skipped.
pub proof fn lemma_pdo_offsets_one_per_slot(ms: Seq<u32>, is_tx: bool, offset: int)
    requires
        forall|i: int, j: int| 0 <= i <= j < ms.len() ==> ms[i] <= ms[j],
        forall|i: int| 0 <= i < ms.len() ==> spec_mapping_in_range(#[trigger] ms[i], is_tx),
    ensures
        spec_one_per_slot(spec_scan(ms, is_tx, offset, Seq::empty())),
{
    lemma_scan_one_per_slot(ms, is_tx, offset, Seq::empty());
}

/// Slot starts lie in the order of their slots, none before `start`: each
/// module's data starts no earlier than the previous module's.
pub open spec fn spec_starts_ordered(out: Seq<ModulePdoMapping>, start: int) -> bool {
    &&& forall|i: int| 0 <= i < out.len() ==> start <= (#[trigger] out[i]).offset
    &&& forall|i: int, j: int| 0 <= i < j < out.len() ==> (#[trigger] out[i]).offset <= (#[trigger] out[j]).offset
}

proof fn lemma_scan_starts_ordered(ms: Seq<u32>, is_tx: bool, offset: int, out: Seq<ModulePdoMapping>, start: int)
    requires
        0 <= start <= offset,
        offset + 255 * ms.len() <= usize::MAX,
        spec_starts_ordered(out, start),
        forall|i: int| 0 <= i < out.len() ==> (#[trigger] out[i]).offset <= offset,
    ensures
        spec_starts_ordered(spec_scan(ms, is_tx, offset, out), start),
    decreases ms.len(),
{
    if ms.len() > 0 {
        let m = ms[0];
        let mi = spec_module_index(m, is_tx);
        let out2 = if mi < MAX_MODULES && (out.len() == 0 || out.last().module_i != mi) {
            out.push(ModulePdoMapping { offset: offset as usize, module_i: mi })
        } else {
            out
        };
        assert((m & 0xFFu32) <= 255u32) by (bit_vector);
        let next = offset + (m & 0xFFu32);
        assert((offset as usize) as int == offset);
        assert(spec_starts_ordered(out2, start));
        assert forall|i: int| 0 <= i < out2.len() implies (#[trigger] out2[i]).offset <= next by {
            if i < out.len() {
                assert(out2[i] == out[i]);
            }
        }
        lemma_scan_starts_ordered(ms.subrange(1, ms.len() as int), is_tx, next, out2, start);
    }
}

/// The slot starts of a scan lie in slot order, none before the offset the
/// scan starts at: the data of the modules follows the coupler's own, each
/// module's after the previous one's.
pub proof fn lemma_pdo_offsets_ordered(ms: Seq<u32>, is_tx: bool, offset: int)
    requires
        0 <= offset,
        offset + 255 * ms.len() <= usize::MAX,
    ensures
        spec_starts_ordered(spec_scan(ms, is_tx, offset, Seq::empty()), offset),
{
    lemma_scan_starts_ordered(ms, is_tx, offset, Seq::empty(), offset);
}

impl Wago750_354 {
    /// A coupler without modules.
    pub fn new() -> (r: Self)
        ensures
            r.slots@.len() == 0,
            r.module_count == 0,
            r.dev_count == 0,
            r.tx_size == 0 && r.rx_size == 0,
            r.rx_pdo_mappings@.len() == 0 && r.tx_pdo_mappings@.len() == 0,
            !r.is_used,
    {
        Wago750_354 {
            is_used: false,
            slots: Vec::new(),
            dev_count: 0,
            module_count: 0,
            rx_pdo_mappings: Vec::new(),
            tx_pdo_mappings: Vec::new(),
            tx_size: 0,
            rx_size: 0,
        }
    }

    /// Adds the module of the next slot; its data widens the coupler's by its offsets.
    pub fn set_module(&mut self, module: Module)
        requires
            old(self).module_count < MAX_MODULES,
            old(self).tx_size + module.tx_offset <= usize::MAX,
            old(self).rx_size + module.rx_offset <= usize::MAX,
        ensures
            final(self).slots@ == old(self).slots@.push(module),
            final(self).module_count == old(self).module_count + 1,
            final(self).tx_size == old(self).tx_size + module.tx_offset,
            final(self).rx_size == old(self).rx_size + module.rx_offset,
    {
        self.tx_size = self.tx_size + module.tx_offset;
        self.rx_size = self.rx_size + module.rx_offset;
        self.slots.push(module);
        self.module_count = self.module_count + 1;
    }

    /// The slot that a PDO mapping entry belongs to.
    pub fn calculate_module_index(pdo_mapping: u32, is_tx: bool) -> (r: u32)
        requires
            spec_mapping_in_range(pdo_mapping, is_tx),
        ensures
            r == spec_module_index(pdo_mapping, is_tx),
    {
        let start_index: u32 = if is_tx { 0x6000 } else { 0x7000 };
        let index_in_hex = ((pdo_mapping & 0xFFFF0000u32) >> 16u32) - start_index;
        if index_in_hex < 16 {
            0
        } else {
            index_in_hex / 16
        }
    }

    /// Where each slot's data starts, from the coupler's own PDO entries'
    /// total bit length and the mapping entries of the modules' PDOs: the
    /// entries are taken in ascending order and scanned as [`spec_scan`] says.
    pub fn compute_pdo_offsets(coupler_bits: usize, mappings: Vec<u32>, is_tx: bool) -> (r: Vec<ModulePdoMapping>)
        requires
            forall|i: int| 0 <= i < mappings@.len() ==> spec_mapping_in_range(#[trigger] mappings@[i], is_tx),
            coupler_bits + 255 * mappings@.len() <= usize::MAX,
        ensures
            exists|sorted: Seq<u32>| {
                &&& sorted.to_multiset() == mappings@.to_multiset()
                &&& (forall|i: int, j: int| 0 <= i <= j < sorted.len() ==> sorted[i] <= sorted[j])
                &&& r@ == spec_scan(sorted, is_tx, coupler_bits as int, Seq::empty())
            },
            spec_one_per_slot(r@),
            spec_starts_ordered(r@, coupler_bits as int),
    {
        let mut sorted = mappings;
        let ghost unsorted = sorted@;
        sort_u32s(&mut sorted);
        proof {
            sorted@.to_multiset_ensures();
            unsorted.to_multiset_ensures();
            assert forall|i: int| 0 <= i < sorted@.len() implies spec_mapping_in_range(#[trigger] sorted@[i], is_tx) by {
                let x = sorted@[i];
                assert(sorted@.contains(x));
                assert(sorted@.to_multiset().count(x) > 0);
                assert(unsorted.to_multiset().count(x) > 0);
                assert(unsorted.contains(x));
                let k = choose|k: int| 0 <= k < unsorted.len() && unsorted[k] == x;
                assert(spec_mapping_in_range(unsorted[k], is_tx));
            }
        }
        let mut out: Vec<ModulePdoMapping> = Vec::new();
        let mut offset: usize = coupler_bits;
        let mut i: usize = 0;
        let n = sorted.len();
        assert(sorted@.subrange(0, n as int) =~= sorted@);
        assert(out@ =~= Seq::<ModulePdoMapping>::empty());
        while i < n
            invariant
                n == sorted@.len(),
                n == unsorted.len(),
                i <= n,
                offset <= coupler_bits + 255 * i,
                coupler_bits + 255 * n <= usize::MAX,
                forall|k: int| 0 <= k < n ==> spec_mapping_in_range(#[trigger] sorted@[k], is_tx),
                spec_scan(sorted@, is_tx, coupler_bits as int, Seq::empty())
                    == spec_scan(sorted@.subrange(i as int, n as int), is_tx, offset as int, out@),
            decreases n - i,
        {
            let m = sorted[i];
            let mi = Wago750_354::calculate_module_index(m, is_tx);
            let ghost before = out@;
            if mi < 64 && (out.len() == 0 || out[out.len() - 1].module_i != mi) {
                out.push(ModulePdoMapping { offset, module_i: mi });
            }
            proof {
                let rest = sorted@.subrange(i as int, n as int);
                assert(rest[0] == m);
                assert(rest.subrange(1, rest.len() as int) =~= sorted@.subrange(i + 1, n as int));
                assert((m & 0xFFu32) <= 255u32) by (bit_vector);
            }
            offset = offset + (m & 0xFF) as usize;
            i += 1;
        }
        proof {
            assert(sorted@.subrange(n as int, n as int) =~= Seq::<u32>::empty());
            lemma_pdo_offsets_one_per_slot(sorted@, is_tx, coupler_bits as int);
            lemma_pdo_offsets_ordered(sorted@, is_tx, coupler_bits as int);
        }
        out
    }

    /// Gives each module with inputs (outputs) the start of its slot's input
    /// (output) data, or 0 where the mapping has no entry for the slot.
    pub fn assign_module_offsets(&mut self)
        ensures
            final(self).slots@.len() == old(self).slots@.len(),
            forall|k: int| 0 <= k < old(self).slots@.len() ==> {
                let m = old(self).slots@[k];
                let n = #[trigger] final(self).slots@[k];
                &&& n.tx_offset == (if m.has_tx { spec_offset_of(old(self).tx_pdo_mappings@, m.slot as u32) } else { m.tx_offset })
                &&& n.rx_offset == (if m.has_rx { spec_offset_of(old(self).rx_pdo_mappings@, m.slot as u32) } else { m.rx_offset })
                &&& n.slot == m.slot && n.has_tx == m.has_tx && n.has_rx == m.has_rx
                &&& n.product_id == m.product_id && n.vendor_id == m.vendor_id
                &&& n.belongs_to_addr == m.belongs_to_addr && n.name == m.name
            },
            final(self).tx_pdo_mappings == old(self).tx_pdo_mappings,
            final(self).rx_pdo_mappings == old(self).rx_pdo_mappings,
            final(self).tx_size == old(self).tx_size,
            final(self).rx_size == old(self).rx_size,
            final(self).module_count == old(self).module_count,
            final(self).dev_count == old(self).dev_count,
            final(self).is_used == old(self).is_used,
    {
        let mut slots: Vec<Module> = Vec::new();
        std::mem::swap(&mut slots, &mut self.slots);
        let ghost old_slots = slots@;
        let mut out: Vec<Module> = Vec::new();
        let mut i: usize = 0;
        while i < slots.len()
            invariant
                i <= slots.len(),
                slots@ == old_slots,
                old_slots == old(self).slots@,
                self.tx_pdo_mappings == old(self).tx_pdo_mappings,
                self.rx_pdo_mappings == old(self).rx_pdo_mappings,
                out@.len() == i,
                forall|k: int| 0 <= k < i ==> {
                    let m = old_slots[k];
                    let n = #[trigger] out@[k];
                    &&& n.tx_offset == (if m.has_tx { spec_offset_of(old(self).tx_pdo_mappings@, m.slot as u32) } else { m.tx_offset })
                    &&& n.rx_offset == (if m.has_rx { spec_offset_of(old(self).rx_pdo_mappings@, m.slot as u32) } else { m.rx_offset })
                    &&& n.slot == m.slot && n.has_tx == m.has_tx && n.has_rx == m.has_rx
                    &&& n.product_id == m.product_id && n.vendor_id == m.vendor_id
                    &&& n.belongs_to_addr == m.belongs_to_addr && n.name == m.name
                },
            decreases slots.len() - i,
        {
            let m = &slots[i];
            let tx_offset = if m.has_tx { offset_of(&self.tx_pdo_mappings, m.slot as u32) } else { m.tx_offset };
            let rx_offset = if m.has_rx { offset_of(&self.rx_pdo_mappings, m.slot as u32) } else { m.rx_offset };
            let name = m.name.clone();
            out.push(Module {
                slot: m.slot,
                belongs_to_addr: m.belongs_to_addr,
                vendor_id: m.vendor_id,
                product_id: m.product_id,
                has_tx: m.has_tx,
                has_rx: m.has_rx,
                tx_offset,
                rx_offset,
                name,
            });
            i += 1;
        }
        self.slots = out;
    }
}

/// The offset of the first mapping entry of a slot, or 0 where there is none.
pub open spec fn spec_offset_of(maps: Seq<ModulePdoMapping>, slot: u32) -> usize
    decreases maps.len(),
{
    if maps.len() == 0 {
        0
    } else if maps[0].module_i == slot {
        maps[0].offset
    } else {
        spec_offset_of(maps.subrange(1, maps.len() as int), slot)
    }
}

/// The offset of the first mapping entry of a slot, or 0 where there is none.
fn offset_of(maps: &Vec<ModulePdoMapping>, slot: u32) -> (r: usize)
    ensures
        r == spec_offset_of(maps@, slot),
{
    let mut i: usize = 0;
    assert(maps@.subrange(0, maps@.len() as int) =~= maps@);
    while i < maps.len()
        invariant
            i <= maps.len(),
            spec_offset_of(maps@, slot) == spec_offset_of(maps@.subrange(i as int, maps@.len() as int), slot),
        decreases maps.len() - i,
    {
        proof {
            let rest = maps@.subrange(i as int, maps@.len() as int);
            assert(rest.subrange(1, rest.len() as int) =~= maps@.subrange(i + 1, maps@.len() as int));
        }
        if maps[i].module_i == slot {
            return maps[i].offset;
        }
        i += 1;
    }
    0
}

/// Why the coupler's PDO layout could not be worked out.
#[derive(Debug, Clone, Copy, PartialEq, Eq, Structural)]
pub enum CouplerError {
    /// A read over the channel failed.
    Channel(ChannelError),
    /// A module's mapping entry names an object below the first module object
    /// of its direction (`0x6000` for inputs, `0x7000` for outputs).
    MappingOutOfRange,
}

/// What a read's failure means to the coupler.
fn channel_failure<T>(r: Result<T, ChannelError>) -> (out: Result<T, CouplerError>)
    ensures
        match r {
            Ok(v) => out == Ok::<T, CouplerError>(v),
            Err(e) => out == Err::<T, CouplerError>(CouplerError::Channel(e)),
        },
{
    match r {
        Ok(v) => Ok(v),
        Err(e) => Err(CouplerError::Channel(e)),
    }
}

/// Whether every mapping entry lies in its direction's module object range.
fn all_in_range(mappings: &Vec<u32>, is_tx: bool) -> (r: bool)
    ensures
        r == forall|i: int| 0 <= i < mappings@.len() ==> spec_mapping_in_range(#[trigger] mappings@[i], is_tx),
{
    let start: u32 = if is_tx { 0x6000 } else { 0x7000 };
    let mut i: usize = 0;
    while i < mappings.len()
        invariant
            i <= mappings.len(),
            start == spec_start_index(is_tx),
            forall|k: int| 0 <= k < i ==> spec_mapping_in_range(#[trigger] mappings@[k], is_tx),
        decreases mappings.len() - i,
    {
        if (mappings[i] & 0xFFFF0000u32) >> 16u32 < start {
            return false;
        }
        i += 1;
    }
    true
}

/// The module count that a read of [`MODULE_COUNT_INDEX`] gives for `answer`.
pub open spec fn spec_count_outcome(answer: Result<ChannelResponse, ChannelError>) -> Result<usize, ChannelError> {
    match spec_sdo_read_outcome::<u8>(answer) {
        Ok(v) => Ok(v as usize),
        Err(e) => Err(e),
    }
}

/// The identification reads of slots `0..k`, in order.
pub open spec fn spec_ident_reads(device_address: u16, k: nat) -> Seq<ChannelRequests> {
    Seq::new(k, |i: int| ChannelRequests::SdoReadRequest(
        spec_sdo_read_request::<u32>(device_address, spec_module_address(i as u16), MODULE_IDENT_SUBINDEX),
    ))
}

/// The read of the module count.
pub open spec fn spec_count_read(device_address: u16) -> ChannelRequests {
    ChannelRequests::SdoReadRequest(spec_sdo_read_request::<u8>(device_address, MODULE_COUNT_INDEX, 0))
}

/// Reading the identifications of `n` slots whose reads got `answers`, in
/// slot order: each a possible answer; every read but the last one made
/// succeeded; fewer than `n` were made only because the last one failed. A
/// success reads all `n` and describes slot `i` from the identification its
/// own read gave; an error is that of the last read.
pub open spec fn spec_ident_reads_answered(
    n: nat,
    device_address: u16,
    answers: Seq<Result<ChannelResponse, ChannelError>>,
    r: Result<Vec<Module>, ChannelError>,
) -> bool {
    &&& answers.len() <= n
    &&& forall|i: int| 0 <= i < answers.len() ==> spec_possible_answer(#[trigger] answers[i])
    &&& forall|i: int| 0 <= i < answers.len() - 1 ==> spec_sdo_read_outcome::<u32>(#[trigger] answers[i]) is Ok
    &&& answers.len() < n ==> (answers.len() > 0 && spec_sdo_read_outcome::<u32>(answers.last()) is Err)
    &&& match r {
        Ok(v) => {
            &&& answers.len() == n
            &&& v.len() == n
            &&& forall|i: int| 0 <= i < n ==> {
                &&& spec_sdo_read_outcome::<u32>(#[trigger] answers[i]) is Ok
                &&& spec_is_module(v@[i], i as u16, device_address, spec_sdo_read_outcome::<u32>(answers[i])->Ok_0)
            }
        },
        Err(e) => answers.len() > 0 && spec_sdo_read_outcome::<u32>(answers.last()) == Err::<u32, ChannelError>(e),
    }
}

/// What reading the identifications of `n` slots sends and gives: the reads
/// of the slots in order, as many as [`spec_ident_reads_answered`] has
/// answers, and the result it gives.
pub open spec fn spec_modules_read(
    n: nat,
    device_address: u16,
    before: Seq<ChannelRequests>,
    after: Seq<ChannelRequests>,
    r: Result<Vec<Module>, ChannelError>,
) -> bool {
    exists|answers: Seq<Result<ChannelResponse, ChannelError>>|
        #[trigger] spec_ident_reads_answered(n, device_address, answers, r)
            && after == before + spec_ident_reads(device_address, answers.len())
}

/// What reading the identifications of `n` slots can give: no slots need
/// no read and give none; a success describes each slot from its own
/// identification; an error is the error of a failed identification read.
pub open spec fn spec_modules_result(n: nat, device_address: u16, r: Result<Vec<Module>, ChannelError>) -> bool {
    &&& n == 0 ==> (r matches Ok(v) && v.len() == 0)
    &&& r matches Ok(v) ==> v.len() == n
        && forall|i: int| 0 <= i < n ==> spec_is_module(#[trigger] v@[i], i as u16, device_address, v@[i].product_id)
    &&& r matches Err(e) ==> exists|answer: Result<ChannelResponse, ChannelError>|
        spec_possible_answer(answer) && #[trigger] spec_sdo_read_outcome::<u32>(answer) == Err::<u32, ChannelError>(e)
}

/// What the modules are once the count has been read: a failed count read is
/// passed on, a count of 0 gives no modules, and any other count is
/// [`spec_modules_result`] of that many slots.
pub open spec fn spec_modules_for_count(
    count: Result<usize, ChannelError>,
    device_address: u16,
    r: Result<Vec<Module>, ChannelError>,
) -> bool {
    match count {
        Err(e) => r == Err::<Vec<Module>, ChannelError>(e),
        Ok(n) => spec_modules_result(n as nat, device_address, r),
    }
}

impl Wago750_354 {
    /// Reads the number of modules on the local bus from
    /// [`MODULE_COUNT_INDEX`].
    pub fn get_module_count(ecat_channel: &mut EtherCATThreadChannel, device_address: u16) -> (r: Result<usize, ChannelError>)
        ensures
            final(ecat_channel).requests() == old(ecat_channel).requests().push(spec_count_read(device_address)),
            r matches Ok(n) ==> n <= 255,
            exists|answer: Result<ChannelResponse, ChannelError>|
                spec_possible_answer(answer) && r == #[trigger] spec_count_outcome(answer),
    {
        let read = ecat_channel.sdo_read::<u8>(device_address, MODULE_COUNT_INDEX, 0);
        let r = module_count_from_read(read);
        proof {
            let a = choose|a: Result<ChannelResponse, ChannelError>|
                spec_possible_answer(a) && read == #[trigger] spec_sdo_read_outcome::<u8>(a);
            assert(r == spec_count_outcome(a));
        }
        r
    }

    /// Reads the identification of the modules in slots `0..module_count`,
    /// in order, and hands them to [`modules_from_idents`], which describes
    /// each slot from its own identification; the first failed read is
    /// passed on.
    pub fn get_modules(ecat_channel: &mut EtherCATThreadChannel, device_address: u16, module_count: usize) -> (r: Result<Vec<Module>, ChannelError>)
        requires
            module_count <= 0x700,
        ensures
            spec_modules_result(module_count as nat, device_address, r),
            spec_modules_read(module_count as nat, device_address, old(ecat_channel).requests(), final(ecat_channel).requests(), r),
    {
        let mut idents: Vec<u32> = Vec::new();
        let ghost mut answers: Seq<Result<ChannelResponse, ChannelError>> = Seq::empty();
        let ghost before = ecat_channel.requests();
        let mut i: usize = 0;
        while i < module_count
            invariant
                i <= module_count <= 0x700,
                before == old(ecat_channel).requests(),
                ecat_channel.requests() == before + spec_ident_reads(device_address, i as nat),
                idents.len() == i,
                answers.len() == i,
                forall|k: int| 0 <= k < i ==> spec_possible_answer(#[trigger] answers[k])
                    && spec_sdo_read_outcome::<u32>(answers[k]) == Ok::<u32, ChannelError>(idents@[k]),
            decreases module_count - i,
        {
            let ident = ecat_channel.sdo_read::<u32>(device_address, module_address(i as u16), MODULE_IDENT_SUBINDEX);
            let ghost a = choose|a: Result<ChannelResponse, ChannelError>|
                spec_possible_answer(a) && ident == #[trigger] spec_sdo_read_outcome::<u32>(a);
            proof {
                assert(spec_ident_reads(device_address, (i + 1) as nat) =~= spec_ident_reads(device_address, i as nat).push(
                    ChannelRequests::SdoReadRequest(
                        spec_sdo_read_request::<u32>(device_address, spec_module_address(i as u16), MODULE_IDENT_SUBINDEX),
                    ),
                ));
            }
            let ident = match ident {
                Ok(v) => v,
                Err(e) => {
                    proof {
                        let sent = answers.push(a);
                        assert(sent.last() == a);
                        assert forall|k: int| 0 <= k < sent.len() implies spec_possible_answer(#[trigger] sent[k]) by {
                            if k < i { assert(sent[k] == answers[k]); }
                        }
                        assert forall|k: int| 0 <= k < sent.len() - 1 implies spec_sdo_read_outcome::<u32>(#[trigger] sent[k]) is Ok by {
                            assert(sent[k] == answers[k]);
                        }
                        assert(spec_ident_reads_answered(module_count as nat, device_address, sent, Err(e)));
                        assert(ecat_channel.requests() == before + spec_ident_reads(device_address, sent.len()));
                        assert(spec_sdo_read_outcome::<u32>(a) == Err::<u32, ChannelError>(e));
                    }
                    return Err(e);
                },
            };
            idents.push(ident);
            proof {
                answers = answers.push(a);
            }
            i += 1;
        }
        let modules = modules_from_idents(device_address, idents.as_slice());
        proof {
            assert forall|k: int| 0 <= k < module_count implies spec_is_module(#[trigger] modules@[k], k as u16, device_address, modules@[k].product_id) by {
                assert(spec_is_module(modules@[k], k as u16, device_address, idents@[k]));
            }
            assert forall|k: int| 0 <= k < module_count implies {
                &&& spec_sdo_read_outcome::<u32>(#[trigger] answers[k]) is Ok
                &&& spec_is_module(modules@[k], k as u16, device_address, spec_sdo_read_outcome::<u32>(answers[k])->Ok_0)
            } by {
                assert(spec_is_module(modules@[k], k as u16, device_address, idents@[k]));
            }
            assert(spec_ident_reads_answered(module_count as nat, device_address, answers, Ok(modules)));
        }
        Ok(modules)
    }

    /// The modules once the count has been read: a failed count read is
    /// passed on; a count of 0 gives no modules without a further read; any
    /// other count reads that many slots with [`Wago750_354::get_modules`].
    pub fn modules_for_count(
        ecat_channel: &mut EtherCATThreadChannel,
        device_address: u16,
        count: Result<usize, ChannelError>,
    ) -> (r: Result<Vec<Module>, ChannelError>)
        requires
            count matches Ok(n) ==> n <= 0x700,
        ensures
            spec_modules_for_count(count, device_address, r),
            match count {
                Err(_) => final(ecat_channel).requests() == old(ecat_channel).requests(),
                Ok(n) => spec_modules_read(n as nat, device_address, old(ecat_channel).requests(), final(ecat_channel).requests(), r),
            },
    {
        let count = match count {
            Ok(count) => count,
            Err(e) => return Err(e),
        };
        if count == 0 {
            let none: Vec<Module> = Vec::new();
            proof {
                let answers = Seq::<Result<ChannelResponse, ChannelError>>::empty();
                assert(old(ecat_channel).requests() =~= old(ecat_channel).requests() + spec_ident_reads(device_address, 0));
                assert(spec_ident_reads_answered(0, device_address, answers, Ok::<Vec<Module>, ChannelError>(none)));
            }
            return Ok(none);
        }
        Wago750_354::get_modules(ecat_channel, device_address, count)
    }

    /// Discovers the modules on the local bus: the count, then each slot's
    /// identification, as [`Wago750_354::modules_for_count`] makes of the
    /// count read.
    pub fn initialize_modules(ecat_channel: &mut EtherCATThreadChannel, device_address: u16) -> (r: Result<Vec<Module>, ChannelError>)
        ensures
            r matches Ok(v) ==> v.len() <= 255,
            exists|answer: Result<ChannelResponse, ChannelError>|
                spec_possible_answer(answer) && spec_modules_for_count(#[trigger] spec_count_outcome(answer), device_address, r)
                    && match spec_count_outcome(answer) {
                        Err(_) => final(ecat_channel).requests() == old(ecat_channel).requests().push(spec_count_read(device_address)),
                        Ok(n) => spec_modules_read(
                            n as nat,
                            device_address,
                            old(ecat_channel).requests().push(spec_count_read(device_address)),
                            final(ecat_channel).requests(),
                            r,
                        ),
                    },
    {
        let count = Wago750_354::get_module_count(ecat_channel, device_address);
        let ghost after_count = ecat_channel.requests();
        let r = Wago750_354::modules_for_count(ecat_channel, device_address, count);
        proof {
            let a = choose|a: Result<ChannelResponse, ChannelError>|
                spec_possible_answer(a) && count == #[trigger] spec_count_outcome(a);
            assert(spec_modules_for_count(spec_count_outcome(a), device_address, r));
        }
        r
    }

    /// Reads the PDO assignment of one direction (inputs where `get_tx`) and
    /// the mapping entries of its PDOs, and stores where each slot's data
    /// starts, as [`Wago750_354::compute_pdo_offsets`] works it out. The
    /// first PDO of the assignment is the coupler's own. On a failed read, or
    /// a module entry outside its direction's object range, nothing changes.
    pub fn get_pdo_offsets(&mut self, device_address: u16, mut ecat_channel: EtherCATThreadChannel, get_tx: bool) -> (r: Result<(), CouplerError>)
        ensures
            r is Err ==> *final(self) == *old(self),
            r is Ok ==> {
                &&& get_tx ==> spec_one_per_slot(final(self).tx_pdo_mappings@) && final(self).rx_pdo_mappings == old(self).rx_pdo_mappings
                &&& !get_tx ==> spec_one_per_slot(final(self).rx_pdo_mappings@) && final(self).tx_pdo_mappings == old(self).tx_pdo_mappings
                &&& final(self).slots == old(self).slots
                &&& final(self).is_used == old(self).is_used
                &&& final(self).dev_count == old(self).dev_count
                &&& final(self).module_count == old(self).module_count
                &&& final(self).tx_size == old(self).tx_size
                &&& final(self).rx_size == old(self).rx_size
            },
    {
        let index: u16 = if get_tx { TX_MAPPING_INDEX } else { RX_MAPPING_INDEX };
        let count_mappings = channel_failure(ecat_channel.sdo_read::<u8>(device_address, index, 0))?;
        let pdo_index = channel_failure(ecat_channel.sdo_read::<u16>(device_address, index, 1))?;
        let pdo_map_count = channel_failure(ecat_channel.sdo_read::<u8>(device_address, pdo_index, 0))?;
        let mut coupler: Vec<u32> = Vec::new();
        let mut i: u8 = 0;
        while i < pdo_map_count
            invariant
                coupler.len() == i,
                i <= pdo_map_count <= 255,
            decreases pdo_map_count - i,
        {
            let entry = channel_failure(ecat_channel.sdo_read::<u32>(device_address, pdo_index, 1 + i))?;
            coupler.push(entry);
            i += 1;
        }
        let mut modules: Vec<u32> = Vec::new();
        let mut k: u8 = 2;
        while k < count_mappings
            invariant
                modules.len() <= 255 * k,
                k <= 255,
            decreases 255 - k,
        {
            let module_pdo = channel_failure(ecat_channel.sdo_read::<u16>(device_address, index, k))?;
            let map_count = channel_failure(ecat_channel.sdo_read::<u8>(device_address, module_pdo, 0))?;
            let mut j: u8 = 0;
            let ghost before = modules.len();
            while j < map_count
                invariant
                    modules.len() == before + j,
                    j <= map_count,
                decreases map_count - j,
            {
                let entry = channel_failure(ecat_channel.sdo_read::<u32>(device_address, module_pdo, 1 + j))?;
                modules.push(entry);
                j += 1;
            }
            k += 1;
        }
        if !all_in_range(&modules, get_tx) {
            return Err(CouplerError::MappingOutOfRange);
        }
        let coupler_bits = mapped_bits(coupler.as_slice());
        assert(coupler_bits + 255 * modules@.len() <= 255 * 255 + 255 * 255 * 255);
        let offsets = Wago750_354::compute_pdo_offsets(coupler_bits, modules, get_tx);
        if get_tx {
            self.tx_pdo_mappings = offsets;
        } else {
            self.rx_pdo_mappings = offsets;
        }
        Ok(())
    }

    /// Works out, once the modules have been added, where each module's
    /// inputs and outputs start: reads the layout of both directions and
    /// hands each module its slot's start. A direction whose layout cannot
    /// be read keeps the layout it had. A coupler whose module devices are
    /// already set up is left alone.
    pub fn init_slot_modules(&mut self, ecat_channel: EtherCATThreadChannel, device_address: u16)
        ensures
            old(self).dev_count != 0 ==> *final(self) == *old(self),
            final(self).slots@.len() == old(self).slots@.len(),
            final(self).module_count == old(self).module_count,
            old(self).dev_count == 0 ==> {
                &&& (final(self).tx_pdo_mappings == old(self).tx_pdo_mappings
                    || spec_one_per_slot(final(self).tx_pdo_mappings@))
                &&& (final(self).rx_pdo_mappings == old(self).rx_pdo_mappings
                    || spec_one_per_slot(final(self).rx_pdo_mappings@))
                &&& final(self).dev_count == 0
                &&& final(self).is_used == old(self).is_used
                &&& final(self).tx_size == old(self).tx_size
                &&& final(self).rx_size == old(self).rx_size
                &&& forall|k: int| 0 <= k < old(self).slots@.len() ==> {
                    let m = old(self).slots@[k];
                    let n = #[trigger] final(self).slots@[k];
                    &&& n.tx_offset == (if m.has_tx { spec_offset_of(final(self).tx_pdo_mappings@, m.slot as u32) } else { m.tx_offset })
                    &&& n.rx_offset == (if m.has_rx { spec_offset_of(final(self).rx_pdo_mappings@, m.slot as u32) } else { m.rx_offset })
                    &&& n.slot == m.slot && n.has_tx == m.has_tx && n.has_rx == m.has_rx
                    &&& n.product_id == m.product_id && n.vendor_id == m.vendor_id
                    &&& n.belongs_to_addr == m.belongs_to_addr && n.name == m.name
                }
            },
    {
        if self.dev_count != 0 {
            return;
        }
        let _ = self.get_pdo_offsets(device_address, ecat_channel.clone(), true);
        let _ = self.get_pdo_offsets(device_address, ecat_channel, false);
        self.assign_module_offsets();
    }
}

} // verus!
