//! Pinning a network interface's interrupt to a CPU: finding the interrupt
//! number of the interface in `/proc/interrupts`, and the write that sets
//! its affinity.
use vstd::prelude::*;
use crate::text::{push_decimal_u128, spec_decimal_nat};

verus! {

/// An ASCII whitespace byte (space, tab, line feed, vertical tab, form feed,
/// carriage return).
pub open spec fn spec_is_space(b: u8) -> bool {
    b == 0x20 || b == 0x09 || b == 0x0A || b == 0x0B || b == 0x0C || b == 0x0D
}

fn is_space(b: u8) -> (r: bool)
    ensures
        r == spec_is_space(b),
{
    b == 0x20 || b == 0x09 || b == 0x0A || b == 0x0B || b == 0x0C || b == 0x0D
}

/// The bytes without leading whitespace.
pub open spec fn spec_trim_start(s: Seq<u8>) -> Seq<u8>
    decreases s.len(),
{
    if s.len() > 0 && spec_is_space(s[0]) {
        spec_trim_start(s.drop_first())
    } else {
        s
    }
}

/// The bytes without trailing whitespace.
pub open spec fn spec_trim_end(s: Seq<u8>) -> Seq<u8>
    decreases s.len(),
{
    if s.len() > 0 && spec_is_space(s.last()) {
        spec_trim_end(s.drop_last())
    } else {
        s
    }
}

/// The bytes without leading and trailing whitespace.
pub open spec fn spec_trim(s: Seq<u8>) -> Seq<u8> {
    spec_trim_end(spec_trim_start(s))
}

/// The bounds of `s[lo..hi]` trimmed of whitespace.
fn trim_bounds(s: &[u8], lo: usize, hi: usize) -> (r: (usize, usize))
    requires
        lo <= hi <= s.len(),
    ensures
        lo <= r.0 <= r.1 <= hi,
        s@.subrange(r.0 as int, r.1 as int) == spec_trim(s@.subrange(lo as int, hi as int)),
{
    let mut i: usize = lo;
    while i < hi && is_space(s[i])
        invariant
            lo <= i <= hi <= s.len(),
            spec_trim_start(s@.subrange(lo as int, hi as int)) == spec_trim_start(s@.subrange(i as int, hi as int)),
        decreases hi - i,
    {
        assert(s@.subrange(i as int, hi as int).drop_first() =~= s@.subrange(i + 1, hi as int));
        i += 1;
    }
    let ghost t = s@.subrange(i as int, hi as int);
    assert(spec_trim_start(t) == t);
    let mut j: usize = hi;
    while j > i && is_space(s[j - 1])
        invariant
            lo <= i <= j <= hi <= s.len(),
            t == s@.subrange(i as int, hi as int),
            spec_trim_end(t) == spec_trim_end(s@.subrange(i as int, j as int)),
        decreases j - i,
    {
        assert(s@.subrange(i as int, j as int).drop_last() =~= s@.subrange(i as int, j - 1));
        j -= 1;
    }
    let ghost u = s@.subrange(i as int, j as int);
    assert(spec_trim_end(u) == u);
    (i, j)
}

/// The index of the first `b` in `s`, or the length of `s` when there is none.
pub open spec fn spec_find(s: Seq<u8>, b: u8) -> int
    decreases s.len(),
{
    if s.len() == 0 {
        0
    } else if s[0] == b {
        0
    } else {
        1 + spec_find(s.drop_first(), b)
    }
}

/// `spec_find` is the position before which no `b` occurs and at which `b`
/// stands or the bytes end.
proof fn lemma_find_is_first(s: Seq<u8>, b: u8, c: int)
    requires
        0 <= c <= s.len(),
        forall|k: int| 0 <= k < c ==> s[k] != b,
        c < s.len() ==> s[c] == b,
    ensures
        spec_find(s, b) == c,
    decreases s.len(),
{
    if s.len() > 0 && c > 0 {
        assert forall|k: int| 0 <= k < c - 1 implies s.drop_first()[k] != b by {
            assert(s.drop_first()[k] == s[k + 1]);
        }
        lemma_find_is_first(s.drop_first(), b, c - 1);
    }
}

/// The first index at or after `from` where `b` stands in `s`, or `hi`.
fn find_byte(s: &[u8], from: usize, hi: usize, b: u8) -> (r: usize)
    requires
        from <= hi <= s.len(),
    ensures
        from <= r <= hi,
        forall|k: int| from <= k < r ==> s@[k] != b,
        r < hi ==> s@[r as int] == b,
{
    let mut i: usize = from;
    while i < hi && s[i] != b
        invariant
            from <= i <= hi <= s.len(),
            forall|k: int| from <= k < i ==> s@[k] != b,
        decreases hi - i,
    {
        i += 1;
    }
    i
}

/// The value of a run of decimal digits.
pub open spec fn spec_digits_value(s: Seq<u8>) -> nat
    decreases s.len(),
{
    if s.len() == 0 { 0 } else { spec_digits_value(s.drop_last()) * 10 + (s.last() - 0x30) as nat }
}

/// Every byte is a decimal digit.
pub open spec fn spec_all_digits(s: Seq<u8>) -> bool {
    forall|i: int| 0 <= i < s.len() ==> 0x30 <= #[trigger] s[i] <= 0x39
}

/// `str::parse::<u32>` on ASCII text: an optional `+`, at least one digit and
/// nothing else, with a value that fits.
pub open spec fn spec_parse_u32(s: Seq<u8>) -> Option<u32> {
    let d = if s.len() > 0 && s[0] == 0x2B { s.drop_first() } else { s };
    if d.len() > 0 && spec_all_digits(d) && spec_digits_value(d) <= u32::MAX {
        Some(spec_digits_value(d) as u32)
    } else {
        None
    }
}

/// Parses a decimal `u32` as `str::parse::<u32>` does on ASCII text.
pub fn parse_u32(s: &[u8]) -> (r: Option<u32>)
    ensures
        r == spec_parse_u32(s@),
{
    let start: usize = if s.len() > 0 && s[0] == 0x2B { 1 } else { 0 };
    let ghost d = if s@.len() > 0 && s@[0] == 0x2B { s@.drop_first() } else { s@ };
    assert(d =~= s@.subrange(start as int, s@.len() as int));
    if start >= s.len() {
        return None;
    }
    let mut value: u64 = 0;
    let mut i: usize = start;
    while i < s.len()
        invariant
            start <= i <= s.len(),
            d == (if s@.len() > 0 && s@[0] == 0x2B { s@.drop_first() } else { s@ }),
            d =~= s@.subrange(start as int, s@.len() as int),
            spec_all_digits(s@.subrange(start as int, i as int)),
            value == spec_digits_value(s@.subrange(start as int, i as int)),
            value <= u32::MAX,
        decreases s.len() - i,
    {
        let b = s[i];
        proof {
            let pre = s@.subrange(start as int, i as int);
            let next = s@.subrange(start as int, i + 1);
            assert(next.drop_last() =~= pre);
            assert(next.last() == b);
        }
        if b < 0x30 || b > 0x39 {
            proof {
                assert(d[i - start] == b);
                assert(!(0x30 <= d[i - start] <= 0x39));
            }
            return None;
        }
        let v = value * 10 + (b - 0x30) as u64;
        if v > 0xFFFF_FFFF {
            proof {
                if spec_all_digits(d) {
                    lemma_digits_grow(d, (i + 1 - start) as int);
                    assert(d.subrange(0, (i + 1 - start) as int) =~= s@.subrange(start as int, i + 1));
                }
            }
            return None;
        }
        value = v;
        i += 1;
    }
    assert(s@.subrange(start as int, s@.len() as int) =~= d);
    Some(value as u32)
}

/// A longer run of digits is worth at least as much as its prefix.
proof fn lemma_digits_grow(s: Seq<u8>, k: int)
    requires
        0 <= k <= s.len(),
        spec_all_digits(s),
    ensures
        spec_digits_value(s.subrange(0, k)) <= spec_digits_value(s),
    decreases s.len(),
{
    if k < s.len() {
        assert(s.drop_last().subrange(0, k) =~= s.subrange(0, k));
        assert(spec_all_digits(s.drop_last())) by {
            assert forall|i: int| 0 <= i < s.drop_last().len() implies 0x30 <= #[trigger] s.drop_last()[i] <= 0x39 by {
                assert(s.drop_last()[i] == s[i]);
            }
        }
        lemma_digits_grow(s.drop_last(), k);
    } else {
        assert(s.subrange(0, k) =~= s);
    }
}

/// Whether `needle` occurs in `hay` starting at `i`.
pub open spec fn spec_occurs_at(hay: Seq<u8>, needle: Seq<u8>, i: int) -> bool {
    0 <= i && i + needle.len() <= hay.len() && hay.subrange(i, i + needle.len()) == needle
}

/// Whether `needle` occurs in `hay`.
pub open spec fn spec_contains(hay: Seq<u8>, needle: Seq<u8>) -> bool {
    exists|i: int| spec_occurs_at(hay, needle, i)
}

fn occurs_at(hay: &[u8], needle: &[u8], i: usize) -> (r: bool)
    requires
        i + needle.len() <= hay.len(),
    ensures
        r == spec_occurs_at(hay@, needle@, i as int),
{
    let mut k: usize = 0;
    while k < needle.len()
        invariant
            k <= needle.len(),
            i + needle.len() <= hay.len(),
            forall|j: int| 0 <= j < k ==> hay@[i + j] == needle@[j],
        decreases needle.len() - k,
    {
        if hay[i + k] != needle[k] {
            proof {
                assert(hay@.subrange(i as int, i + needle.len())[k as int] != needle@[k as int]);
            }
            return false;
        }
        k += 1;
    }
    assert(hay@.subrange(i as int, i + needle.len()) =~= needle@);
    true
}

/// Whether `needle` occurs in `hay`.
pub fn contains(hay: &[u8], needle: &[u8]) -> (r: bool)
    ensures
        r == spec_contains(hay@, needle@),
{
    if needle.len() > hay.len() {
        return false;
    }
    let last = hay.len() - needle.len();
    let mut i: usize = 0;
    loop
        invariant
            needle.len() <= hay.len(),
            last == hay.len() - needle.len(),
            i <= last,
            forall|j: int| 0 <= j < i ==> !spec_occurs_at(hay@, needle@, j),
        decreases last - i,
    {
        if occurs_at(hay, needle, i) {
            return true;
        }
        if i == last {
            return false;
        }
        i += 1;
    }
}

/// The interrupt number on one line of `/proc/interrupts` that names the
/// interface: the text before the first colon, trimmed, read as a number.
pub open spec fn spec_line_irq(line: Seq<u8>, name: Seq<u8>) -> Option<u32> {
    let c = spec_find(line, 0x3A);
    if spec_contains(line, name) && c < line.len() {
        spec_parse_u32(spec_trim(line.subrange(0, c)))
    } else {
        None
    }
}

/// The line that starts at the beginning of `content`, without its line
/// ending (`\n`, or `\r\n`).
pub open spec fn spec_first_line(content: Seq<u8>) -> Seq<u8> {
    let e = spec_find(content, 0x0A);
    if e < content.len() && e > 0 && content[e - 1] == 0x0D {
        content.subrange(0, e - 1)
    } else {
        content.subrange(0, e)
    }
}

/// The interrupt number of the first line of `content` that names the
/// interface and carries a number before its first colon, as
/// `str::lines` splits the text.
pub open spec fn spec_interface_irq(content: Seq<u8>, name: Seq<u8>) -> Option<u32>
    decreases content.len(),
{
    if content.len() == 0 {
        None
    } else {
        let e = spec_find(content, 0x0A);
        match spec_line_irq(spec_first_line(content), name) {
            Some(irq) => Some(irq),
            None => if e < content.len() {
                proof {
                    lemma_find_bounds(content, 0x0A);
                }
                spec_interface_irq(content.subrange(e + 1, content.len() as int), name)
            } else {
                None
            },
        }
    }
}

/// `spec_find` lies within the bytes.
pub proof fn lemma_find_bounds(s: Seq<u8>, b: u8)
    ensures
        0 <= spec_find(s, b) <= s.len(),
    decreases s.len(),
{
    if s.len() > 0 && s[0] != b {
        lemma_find_bounds(s.drop_first(), b);
    }
}

/// The interrupt number that one line of `/proc/interrupts` gives for the
/// interface.
fn line_irq(line: &[u8], name: &[u8]) -> (r: Option<u32>)
    ensures
        r == spec_line_irq(line@, name@),
{
    let c = find_byte(line, 0, line.len(), 0x3A);
    proof {
        lemma_find_is_first(line@, 0x3A, c as int);
    }
    if !contains(line, name) || c == line.len() {
        return None;
    }
    let (a, b) = trim_bounds(line, 0, c);
    parse_u32(vstd::slice::slice_subrange(line, a, b))
}

/// The interrupt number of the network interface `interface_name`, read from
/// the text of `/proc/interrupts`: on the first line that names the interface,
/// the number before the first colon. `None` when no line gives one.
pub fn get_interface_irq(proc_content: &[u8], interface_name: &[u8]) -> (r: Option<u32>)
    ensures
        r == spec_interface_irq(proc_content@, interface_name@),
{
    let mut p: usize = 0;
    assert(proc_content@.subrange(0, proc_content@.len() as int) =~= proc_content@);
    while p < proc_content.len()
        invariant
            p <= proc_content.len(),
            spec_interface_irq(proc_content@, interface_name@)
                == spec_interface_irq(proc_content@.subrange(p as int, proc_content@.len() as int), interface_name@),
        decreases proc_content.len() - p,
    {
        let ghost rest = proc_content@.subrange(p as int, proc_content@.len() as int);
        let e = find_byte(proc_content, p, proc_content.len(), 0x0A);
        proof {
            assert forall|k: int| 0 <= k < e - p implies rest[k] != 0x0A by {
                assert(rest[k] == proc_content@[p + k]);
            }
            if e < proc_content.len() {
                assert(rest[e - p] == proc_content@[e as int]);
            }
            lemma_find_is_first(rest, 0x0A, e - p);
        }
        let end = if e < proc_content.len() && e > p && proc_content[e - 1] == 0x0D { e - 1 } else { e };
        proof {
            if e < proc_content.len() && e > p {
                assert(rest[e - p - 1] == proc_content@[e - 1]);
            }
            assert(spec_first_line(rest) =~= proc_content@.subrange(p as int, end as int));
        }
        let line = vstd::slice::slice_subrange(proc_content, p, end);
        let found = line_irq(line, interface_name);
        if found.is_some() {
            return found;
        }
        if e == proc_content.len() {
            return None;
        }
        proof {
            assert(rest.subrange(e - p + 1, rest.len() as int)
                =~= proc_content@.subrange(e + 1, proc_content@.len() as int));
        }
        p = e + 1;
    }
    proof {
        assert(proc_content@.subrange(p as int, proc_content@.len() as int).len() == 0);
    }
    None
}

/// The write that pins an interrupt to CPUs: the file and the text to put in
/// it.
pub struct IrqAffinityWrite {
    /// `/proc/irq/<irq>/smp_affinity_list`.
    pub path: String,
    /// The decimal CPU number.
    pub cpu_list: String,
}

/// Why an interrupt could not be pinned.
#[derive(Debug, Clone, Copy, PartialEq, Eq, Structural)]
pub enum IrqError {
    /// No line of `/proc/interrupts` gives an interrupt number for the
    /// interface.
    IrqNotFound,
}

/// The path of the affinity list of interrupt `irq`.
pub open spec fn spec_affinity_path(irq: u32) -> Seq<char> {
    "/proc/irq/"@ + spec_decimal_nat(irq as nat) + "/smp_affinity_list"@
}

/// Pins the interrupt of interface `irq_name` to CPU `cpu` (example:
/// `irq_name` "eno1", `cpu` 2): finds its number in the text of
/// `/proc/interrupts` and gives the write that sets its affinity list.
pub fn set_irq_affinity(proc_interrupts: &[u8], irq_name: &[u8], cpu: u32) -> (r: Result<IrqAffinityWrite, IrqError>)
    ensures
        match spec_interface_irq(proc_interrupts@, irq_name@) {
            Some(irq) => r matches Ok(w) && w.path@ == spec_affinity_path(irq)
                && w.cpu_list@ == spec_decimal_nat(cpu as nat),
            None => r == Err::<IrqAffinityWrite, IrqError>(IrqError::IrqNotFound),
        },
{
    match get_interface_irq(proc_interrupts, irq_name) {
        None => Err(IrqError::IrqNotFound),
        Some(irq) => {
            let mut path = String::new();
            path.append("/proc/irq/");
            push_decimal_u128(&mut path, irq as u128);
            path.append("/smp_affinity_list");
            assert(path@ =~= spec_affinity_path(irq));
            let mut cpu_list = String::new();
            push_decimal_u128(&mut cpu_list, cpu as u128);
            assert(cpu_list@ =~= spec_decimal_nat(cpu as nat));
            Ok(IrqAffinityWrite { path, cpu_list })
        },
    }
}

} // verus!
