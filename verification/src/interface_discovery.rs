//! Network interfaces that can carry EtherCAT: which names are wired
//! Ethernet devices, the order in which interfaces are offered, and whether
//! a probe got an EtherCAT frame back.
use vstd::prelude::*;
use vstd::multiset::Multiset;

verus! {

/// The kind of address an interface entry was listed with.
#[derive(Debug, Clone, Copy, PartialEq, Eq, Structural)]
pub enum LinkType {
    Link,
    Unknown,
    Ipv4,
    Ipv6,
}

/// A network interface of the host.
#[derive(Debug, Clone)]
pub struct Interface {
    pub link_type: LinkType,
    pub name: String,
}

/// An ASCII letter folded to lower case; any other byte unchanged.
pub open spec fn spec_lower(b: u8) -> u8 {
    if 0x41 <= b <= 0x5A { (b + 32) as u8 } else { b }
}

/// Whether `s`, folded to lower case, starts with `prefix`.
pub open spec fn spec_starts_with_folded(s: Seq<u8>, prefix: Seq<u8>) -> bool {
    prefix.len() <= s.len() && forall|i: int| 0 <= i < prefix.len() ==> spec_lower(#[trigger] s[i]) == prefix[i]
}

fn starts_with_folded(s: &[u8], prefix: &[u8]) -> (r: bool)
    ensures
        r == spec_starts_with_folded(s@, prefix@),
{
    if prefix.len() > s.len() {
        return false;
    }
    let mut i: usize = 0;
    while i < prefix.len()
        invariant
            i <= prefix.len() <= s.len(),
            forall|k: int| 0 <= k < i ==> spec_lower(#[trigger] s@[k]) == prefix@[k],
        decreases prefix.len() - i,
    {
        let b = s[i];
        let lower = if 0x41 <= b && b <= 0x5A { b + 32 } else { b };
        if lower != prefix[i] {
            return false;
        }
        i += 1;
    }
    true
}

/// `gif`, `bridge`, `veth`, `docker`, `br-`, `vlan`, `lo`, `sit`, `gre`,
/// `virbr` and `vmnet`: the name prefixes of virtual devices.
pub open spec fn spec_virtual_prefixes() -> Seq<Seq<u8>> {
    seq![
        seq![0x67u8, 0x69, 0x66],
        seq![0x62u8, 0x72, 0x69, 0x64, 0x67, 0x65],
        seq![0x76u8, 0x65, 0x74, 0x68],
        seq![0x64u8, 0x6f, 0x63, 0x6b, 0x65, 0x72],
        seq![0x62u8, 0x72, 0x2d],
        seq![0x76u8, 0x6c, 0x61, 0x6e],
        seq![0x6cu8, 0x6f],
        seq![0x73u8, 0x69, 0x74],
        seq![0x67u8, 0x72, 0x65],
        seq![0x76u8, 0x69, 0x72, 0x62, 0x72],
        seq![0x76u8, 0x6d, 0x6e, 0x65, 0x74],
    ]
}

/// `en`, `eth` and `bond`: the name prefixes of wired physical devices.
pub open spec fn spec_physical_prefixes() -> Seq<Seq<u8>> {
    seq![seq![0x65u8, 0x6e], seq![0x65u8, 0x74, 0x68], seq![0x62u8, 0x6f, 0x6e, 0x64]]
}

/// Whether the name, folded to lower case, starts with one of `prefixes`.
pub open spec fn spec_has_prefix(name: Seq<u8>, prefixes: Seq<Seq<u8>>) -> bool {
    exists|i: int| 0 <= i < prefixes.len() && spec_starts_with_folded(name, #[trigger] prefixes[i])
}

/// A wired Ethernet device: its name (in ASCII lower case) starts like a
/// physical device's and not like a virtual one's.
pub open spec fn spec_is_wired(name: Seq<u8>) -> bool {
    spec_has_prefix(name, spec_physical_prefixes()) && !spec_has_prefix(name, spec_virtual_prefixes())
}

fn has_prefix(name: &[u8], prefixes: &Vec<Vec<u8>>) -> (r: bool)
    ensures
        r == spec_has_prefix(name@, prefixes@.map_values(|p: Vec<u8>| p@)),
{
    let ghost ps = prefixes@.map_values(|p: Vec<u8>| p@);
    let mut i: usize = 0;
    while i < prefixes.len()
        invariant
            i <= prefixes.len(),
            ps == prefixes@.map_values(|p: Vec<u8>| p@),
            forall|k: int| 0 <= k < i ==> !spec_starts_with_folded(name@, #[trigger] ps[k]),
        decreases prefixes.len() - i,
    {
        if starts_with_folded(name, prefixes[i].as_slice()) {
            assert(ps[i as int] == prefixes@[i as int]@);
            return true;
        }
        i += 1;
    }
    false
}

fn virtual_prefixes() -> (r: Vec<Vec<u8>>)
    ensures
        r@.map_values(|p: Vec<u8>| p@) == spec_virtual_prefixes(),
{
    let r = vec![
        vec![0x67u8, 0x69, 0x66],
        vec![0x62u8, 0x72, 0x69, 0x64, 0x67, 0x65],
        vec![0x76u8, 0x65, 0x74, 0x68],
        vec![0x64u8, 0x6f, 0x63, 0x6b, 0x65, 0x72],
        vec![0x62u8, 0x72, 0x2d],
        vec![0x76u8, 0x6c, 0x61, 0x6e],
        vec![0x6cu8, 0x6f],
        vec![0x73u8, 0x69, 0x74],
        vec![0x67u8, 0x72, 0x65],
        vec![0x76u8, 0x69, 0x72, 0x62, 0x72],
        vec![0x76u8, 0x6d, 0x6e, 0x65, 0x74],
    ];
    assert(r@.map_values(|p: Vec<u8>| p@) =~= spec_virtual_prefixes());
    r
}

fn physical_prefixes() -> (r: Vec<Vec<u8>>)
    ensures
        r@.map_values(|p: Vec<u8>| p@) == spec_physical_prefixes(),
{
    let r = vec![vec![0x65u8, 0x6e], vec![0x65u8, 0x74, 0x68], vec![0x62u8, 0x6f, 0x6e, 0x64]];
    assert(r@.map_values(|p: Vec<u8>| p@) =~= spec_physical_prefixes());
    r
}

/// Whether the interface name belongs to a wired Ethernet device (`en*`,
/// `eth*`, `bond*`) and not to a virtual one (bridges, veth, docker, VLANs,
/// loopback, tunnels, VM networks), letters compared without case.
pub fn is_wired_ethernet_device(name: &[u8]) -> (r: bool)
    ensures
        r == spec_is_wired(name@),
{
    let physical = has_prefix(name, &physical_prefixes());
    let virt = has_prefix(name, &virtual_prefixes());
    physical && !virt
}


/// The bytes of an interface's name.
pub open spec fn spec_name_bytes(i: Interface) -> Seq<u8> {
    vstd::utf8::encode_utf8(i.name@)
}

fn name_bytes(i: &Interface) -> (r: &[u8])
    ensures
        r@ == spec_name_bytes(*i),
{
    i.name.as_str().as_bytes()
}

/// The position of the first interface called `name`, or the length of
/// `list` when there is none.
pub open spec fn spec_find_name(list: Seq<Interface>, name: Seq<char>) -> int
    decreases list.len(),
{
    if list.len() == 0 {
        0
    } else if list[0].name@ == name {
        0
    } else {
        1 + spec_find_name(list.drop_first(), name)
    }
}

proof fn lemma_find_name_is_first(list: Seq<Interface>, name: Seq<char>, c: int)
    requires
        0 <= c <= list.len(),
        forall|k: int| 0 <= k < c ==> (#[trigger] list[k]).name@ != name,
        c < list.len() ==> list[c].name@ == name,
    ensures
        spec_find_name(list, name) == c,
    decreases list.len(),
{
    if list.len() > 0 && c > 0 {
        assert forall|k: int| 0 <= k < c - 1 implies (#[trigger] list.drop_first()[k]).name@ != name by {
            assert(list.drop_first()[k] == list[k + 1]);
        }
        lemma_find_name_is_first(list.drop_first(), name, c - 1);
    }
}

fn find_name(list: &Vec<Interface>, name: &String) -> (r: usize)
    ensures
        r == spec_find_name(list@, name@),
{
    let mut k: usize = 0;
    while k < list.len()
        invariant
            k <= list.len(),
            forall|j: int| 0 <= j < k ==> (#[trigger] list@[j]).name@ != name@,
        decreases list.len() - k,
    {
        if list[k].name == *name {
            proof {
                lemma_find_name_is_first(list@, name@, k as int);
            }
            return k;
        }
        k += 1;
    }
    proof {
        lemma_find_name_is_first(list@, name@, k as int);
    }
    k
}

/// Adds one listed interface: a name seen before keeps its first place, and
/// takes the new entry only when that is a link-layer one and the kept one
/// is not.
pub open spec fn spec_dedup_step(acc: Seq<Interface>, x: Interface) -> Seq<Interface> {
    let k = spec_find_name(acc, x.name@);
    if k < acc.len() {
        if x.link_type == LinkType::Link && acc[k].link_type != LinkType::Link {
            acc.update(k, x)
        } else {
            acc
        }
    } else {
        acc.push(x)
    }
}

/// The listed interfaces with each name once, in the order of first
/// appearance, preferring link-layer entries.
pub open spec fn spec_dedup(s: Seq<Interface>) -> Seq<Interface>
    decreases s.len(),
{
    if s.len() == 0 {
        Seq::empty()
    } else {
        spec_dedup_step(spec_dedup(s.drop_last()), s.last())
    }
}

proof fn lemma_find_name_bound(list: Seq<Interface>, name: Seq<char>)
    ensures
        0 <= spec_find_name(list, name) <= list.len(),
    decreases list.len(),
{
    if list.len() > 0 && list[0].name@ != name {
        lemma_find_name_bound(list.drop_first(), name);
    }
}


proof fn lemma_find_name_hit(list: Seq<Interface>, name: Seq<char>)
    ensures
        spec_find_name(list, name) < list.len() ==> list[spec_find_name(list, name)].name@ == name,
        spec_find_name(list, name) == list.len() ==> forall|k: int| 0 <= k < list.len() ==> (#[trigger] list[k]).name@ != name,
    decreases list.len(),
{
    lemma_find_name_bound(list, name);
    if list.len() > 0 && list[0].name@ != name {
        let rest = list.drop_first();
        lemma_find_name_hit(rest, name);
        lemma_find_name_bound(rest, name);
        let f = spec_find_name(rest, name);
        assert(spec_find_name(list, name) == 1 + f);
        if f < rest.len() {
            assert(list[1 + f] == rest[f]);
        }
        if spec_find_name(list, name) == list.len() {
            assert forall|k: int| 0 <= k < list.len() implies (#[trigger] list[k]).name@ != name by {
                if k > 0 {
                    assert(list[k] == list.drop_first()[k - 1]);
                }
            }
        }
    }
}

/// No two kept interfaces share a name.
pub open spec fn spec_names_distinct(d: Seq<Interface>) -> bool {
    forall|i: int, j: int| 0 <= i < j < d.len() ==> (#[trigger] d[i]).name@ != (#[trigger] d[j]).name@
}

/// Every name listed keeps exactly one entry, and where a name was listed
/// with a link-layer entry the kept entry is a link-layer one.
pub proof fn lemma_dedup_one_entry_per_name(s: Seq<Interface>)
    ensures
        spec_names_distinct(spec_dedup(s)),
        forall|i: int| 0 <= i < s.len() ==> exists|k: int| 0 <= k < spec_dedup(s).len()
            && (#[trigger] spec_dedup(s)[k]).name@ == (#[trigger] s[i]).name@
            && (s[i].link_type == LinkType::Link ==> spec_dedup(s)[k].link_type == LinkType::Link),
    decreases s.len(),
{
    if s.len() > 0 {
        let prev = s.drop_last();
        let x = s.last();
        let d = spec_dedup(prev);
        lemma_dedup_one_entry_per_name(prev);
        lemma_find_name_hit(d, x.name@);
        lemma_find_name_bound(d, x.name@);
        let k0 = spec_find_name(d, x.name@);
        let d2 = spec_dedup(s);
        assert(d2 == spec_dedup_step(d, x));
        // the names of the kept entries are the names before, plus a new one
        assert forall|k: int| 0 <= k < d.len() implies (#[trigger] d2[k]).name@ == d[k].name@
            && (d[k].link_type == LinkType::Link ==> d2[k].link_type == LinkType::Link) by {}
        assert(spec_names_distinct(d2));
        assert forall|i: int| 0 <= i < s.len() implies exists|k: int| 0 <= k < d2.len()
            && (#[trigger] d2[k]).name@ == (#[trigger] s[i]).name@
            && (s[i].link_type == LinkType::Link ==> d2[k].link_type == LinkType::Link) by {
            if i < s.len() - 1 {
                assert(s[i] == prev[i]);
                let k = choose|k: int| 0 <= k < d.len() && (#[trigger] d[k]).name@ == prev[i].name@
                    && (prev[i].link_type == LinkType::Link ==> d[k].link_type == LinkType::Link);
                assert(d2[k].name@ == s[i].name@);
            } else {
                if k0 < d.len() {
                    assert(d2[k0].name@ == s[i].name@);
                } else {
                    assert(d2[d.len() as int] == x);
                }
            }
        }
    }
}

/// The listed interfaces with each name once, keeping the link-layer entry
/// of a name where there is one.
pub fn dedup_interfaces(found: Vec<Interface>) -> (r: Vec<Interface>)
    ensures
        r@ == spec_dedup(found@),
{
    let ghost orig = found@;
    let ghost n = found@.len();
    let mut rest = found;
    let mut deduped: Vec<Interface> = Vec::new();
    let ghost mut i: int = 0;
    assert(orig.subrange(0, 0) =~= Seq::<Interface>::empty());
    assert(orig.subrange(0, n as int) =~= orig);
    while rest.len() > 0
        invariant
            0 <= i <= n,
            n == orig.len(),
            rest@ == orig.subrange(i, n as int),
            deduped@ == spec_dedup(orig.subrange(0, i)),
        decreases rest.len(),
    {
        let iface = rest.remove(0);
        let ghost before = deduped@;
        let k = find_name(&deduped, &iface.name);
        proof {
            lemma_find_name_bound(before, iface.name@);
        }
        if k < deduped.len() {
            if iface.link_type == LinkType::Link && deduped[k].link_type != LinkType::Link {
                deduped.set(k, iface);
            }
        } else {
            deduped.push(iface);
        }
        proof {
            let next = orig.subrange(0, i + 1);
            assert(next.drop_last() =~= orig.subrange(0, i));
            assert(next.last() == orig[i]);
            assert(rest@ =~= orig.subrange(i + 1, n as int));
            i = i + 1;
        }
    }
    deduped
}

/// Whether `a` comes before `b` in byte-wise lexicographic order.
pub open spec fn spec_bytes_lt(a: Seq<u8>, b: Seq<u8>) -> bool
    decreases a.len(),
{
    if a.len() == 0 {
        b.len() > 0
    } else if b.len() == 0 {
        false
    } else if a[0] != b[0] {
        a[0] < b[0]
    } else {
        spec_bytes_lt(a.drop_first(), b.drop_first())
    }
}

proof fn lemma_bytes_lt_asym(a: Seq<u8>, b: Seq<u8>)
    ensures
        !(spec_bytes_lt(a, b) && spec_bytes_lt(b, a)),
    decreases a.len(),
{
    if a.len() > 0 && b.len() > 0 && a[0] == b[0] {
        lemma_bytes_lt_asym(a.drop_first(), b.drop_first());
    }
}

proof fn lemma_bytes_lt_trans(a: Seq<u8>, b: Seq<u8>, c: Seq<u8>)
    requires
        spec_bytes_lt(a, b),
        spec_bytes_lt(b, c),
    ensures
        spec_bytes_lt(a, c),
    decreases a.len(),
{
    if a.len() > 0 && b.len() > 0 && c.len() > 0 && a[0] == b[0] && b[0] == c[0] {
        lemma_bytes_lt_trans(a.drop_first(), b.drop_first(), c.drop_first());
    }
}

fn bytes_lt(a: &[u8], b: &[u8]) -> (r: bool)
    ensures
        r == spec_bytes_lt(a@, b@),
{
    let mut i: usize = 0;
    assert(a@.subrange(0, a@.len() as int) =~= a@);
    assert(b@.subrange(0, b@.len() as int) =~= b@);
    while i < a.len() && i < b.len() && a[i] == b[i]
        invariant
            i <= a.len(),
            i <= b.len(),
            spec_bytes_lt(a@, b@) == spec_bytes_lt(a@.subrange(i as int, a@.len() as int), b@.subrange(i as int, b@.len() as int)),
        decreases a.len() - i,
    {
        proof {
            let sa = a@.subrange(i as int, a@.len() as int);
            let sb = b@.subrange(i as int, b@.len() as int);
            assert(sa.drop_first() =~= a@.subrange(i + 1, a@.len() as int));
            assert(sb.drop_first() =~= b@.subrange(i + 1, b@.len() as int));
        }
        i += 1;
    }
    proof {
        assert(a@.subrange(0, a@.len() as int) =~= a@);
        assert(b@.subrange(0, b@.len() as int) =~= b@);
    }
    if i == a.len() {
        i < b.len()
    } else if i == b.len() {
        false
    } else {
        a[i] < b[i]
    }
}

/// The order in which interfaces are offered: wired Ethernet devices first,
/// then by name in reverse (so `en9` before `en1`).
pub open spec fn spec_before(x: Interface, y: Interface) -> bool {
    let wx = spec_is_wired(spec_name_bytes(x));
    let wy = spec_is_wired(spec_name_bytes(y));
    (wx && !wy) || (wx == wy && spec_bytes_lt(spec_name_bytes(y), spec_name_bytes(x)))
}

/// No interface comes before one listed earlier.
pub open spec fn spec_ordered(s: Seq<Interface>) -> bool {
    forall|i: int, j: int| 0 <= i < j < s.len() ==> !spec_before(#[trigger] s[j], #[trigger] s[i])
}

/// `spec_before` is a strict order.
pub proof fn lemma_before_strict(x: Interface, y: Interface, z: Interface)
    ensures
        !(spec_before(x, y) && spec_before(y, x)),
        spec_before(x, y) && spec_before(y, z) ==> spec_before(x, z),
{
    lemma_bytes_lt_asym(spec_name_bytes(x), spec_name_bytes(y));
    if spec_before(x, y) && spec_before(y, z) {
        if spec_bytes_lt(spec_name_bytes(y), spec_name_bytes(x)) && spec_bytes_lt(spec_name_bytes(z), spec_name_bytes(y)) {
            lemma_bytes_lt_trans(spec_name_bytes(z), spec_name_bytes(y), spec_name_bytes(x));
        }
    }
}

fn before(x: &Interface, y: &Interface) -> (r: bool)
    ensures
        r == spec_before(*x, *y),
{
    let xb = name_bytes(x);
    let yb = name_bytes(y);
    let wx = is_wired_ethernet_device(xb);
    let wy = is_wired_ethernet_device(yb);
    (wx && !wy) || (wx == wy && bytes_lt(yb, xb))
}

proof fn lemma_insert_multiset(s: Seq<Interface>, p: int, x: Interface)
    requires
        0 <= p <= s.len(),
    ensures
        s.insert(p, x).to_multiset() == s.to_multiset().insert(x),
{
    let a = s.subrange(0, p);
    let b = s.subrange(p, s.len() as int);
    assert(s.insert(p, x) =~= a + (seq![x] + b));
    assert(s =~= a + b);
    vstd::seq_lib::lemma_multiset_commutative(a, seq![x] + b);
    vstd::seq_lib::lemma_multiset_commutative(seq![x], b);
    vstd::seq_lib::lemma_multiset_commutative(a, b);
    assert(seq![x].to_multiset() =~= Multiset::empty().insert(x)) by {
        Seq::<Interface>::empty().to_multiset_ensures();
        assert(seq![x] =~= Seq::<Interface>::empty().push(x));
    }
}

/// The interfaces in the order in which they are offered: wired Ethernet
/// devices first, names in reverse order; interfaces that neither goes
/// before keep their order.
pub fn sort_interfaces(list: Vec<Interface>) -> (r: Vec<Interface>)
    ensures
        r@.to_multiset() == list@.to_multiset(),
        spec_ordered(r@),
{
    let ghost orig = list@;
    let mut rest = list;
    let mut out: Vec<Interface> = Vec::new();
    proof {
        Seq::<Interface>::empty().to_multiset_ensures();
    }
    assert(out@.to_multiset() =~= Multiset::<Interface>::empty());
    while rest.len() > 0
        invariant
            spec_ordered(out@),
            out@.to_multiset().add(rest@.to_multiset()) == orig.to_multiset(),
        decreases rest.len(),
    {
        let ghost rest_before = rest@;
        let x = rest.remove(0);
        proof {
            assert(rest_before =~= seq![x] + rest@);
            vstd::seq_lib::lemma_multiset_commutative(seq![x], rest@);
            Seq::<Interface>::empty().to_multiset_ensures();
            assert(seq![x] =~= Seq::<Interface>::empty().push(x));
        }
        let mut p: usize = 0;
        while p < out.len() && !before(&x, &out[p])
            invariant
                p <= out.len(),
                forall|k: int| 0 <= k < p ==> !spec_before(x, #[trigger] out@[k]),
            decreases out.len() - p,
        {
            p += 1;
        }
        let ghost out_before = out@;
        out.insert(p, x);
        proof {
            lemma_insert_multiset(out_before, p as int, x);
            assert forall|i: int, j: int| 0 <= i < j < out@.len() implies !spec_before(#[trigger] out@[j], #[trigger] out@[i]) by {
                if j < p {
                    assert(out@[i] == out_before[i] && out@[j] == out_before[j]);
                } else if j == p {
                    assert(out@[i] == out_before[i]);
                } else if i < p {
                    assert(out@[i] == out_before[i] && out@[j] == out_before[j - 1]);
                    lemma_before_strict(out_before[j - 1], out_before[i], x);
                    if p < out_before.len() {
                        lemma_before_strict(out_before[j - 1], x, out_before[p as int]);
                        if j - 1 > p {
                            lemma_before_strict(out_before[j - 1], out_before[p as int], x);
                        }
                    }
                    // i < p < j: x goes before out_before[p], which out_before[j - 1] does not precede
                    if spec_before(out_before[j - 1], out_before[i]) {
                        if j - 1 == p as int {
                        } else {
                            lemma_before_strict(out_before[j - 1], out_before[p as int], out_before[i]);
                        }
                    }
                } else if i == p {
                    assert(out@[j] == out_before[j - 1]);
                    lemma_before_strict(x, out_before[p as int], x);
                    if j - 1 > p {
                        lemma_before_strict(out_before[j - 1], x, out_before[p as int]);
                    }
                } else {
                    assert(out@[i] == out_before[i - 1] && out@[j] == out_before[j - 1]);
                }
            }
            assert(out@.to_multiset().add(rest@.to_multiset()) =~= orig.to_multiset());
        }
    }
    proof {
        assert(rest@ =~= Seq::<Interface>::empty());
        Seq::<Interface>::empty().to_multiset_ensures();
        assert(rest@.to_multiset() =~= Multiset::<Interface>::empty());
        assert(out@.to_multiset().add(rest@.to_multiset()) =~= out@.to_multiset());
    }
    assert(out@.to_multiset() =~= orig.to_multiset());
    out
}

/// The interfaces of the host as they are offered for EtherCAT: each name
/// once (its link-layer entry where there is one), wired Ethernet devices
/// first, names in reverse order.
pub fn order_interfaces(found: Vec<Interface>) -> (r: Vec<Interface>)
    ensures
        r@.to_multiset() == spec_dedup(found@).to_multiset(),
        spec_ordered(r@),
{
    sort_interfaces(dedup_interfaces(found))
}


/// The EtherType of EtherCAT, `0x88A4`, in bytes 12 and 13 of an Ethernet frame.
pub open spec fn spec_is_ethercat_frame(frame: Seq<u8>) -> bool {
    frame.len() >= 14 && frame[12] == 0x88 && frame[13] == 0xa4
}

/// Whether an Ethernet frame carries EtherCAT.
pub fn is_ethercat_frame(frame: &[u8]) -> (r: bool)
    ensures
        r == spec_is_ethercat_frame(frame@),
{
    frame.len() >= 14 && frame[12] == 0x88 && frame[13] == 0xa4
}

/// The probe sent to find out whether EtherCAT subdevices answer on an
/// interface: a broadcast Ethernet frame of EtherType `0x88A4` carrying one
/// broadcast read of register `0x0000`.
pub open spec fn spec_discovery_frame() -> Seq<u8> {
    seq![
        0xffu8, 0xff, 0xff, 0xff, 0xff, 0xff, 0x1, 0x1, 0x1, 0x1, 0x1, 0x1, 0x88, 0xa4, 0xd, 0x10,
        0x8, 0x1, 0x0, 0x0, 0x3, 0x1, 0x1, 0x0, 0x0, 0x0, 0x0, 0x0, 0x0,
    ]
}

/// The probe frame that [`test_interface`] judges the reply to.
pub fn ethercat_discovery_frame() -> (r: Vec<u8>)
    ensures
        r@ == spec_discovery_frame(),
{
    let r = vec![
        0xffu8, 0xff, 0xff, 0xff, 0xff, 0xff, 0x1, 0x1, 0x1, 0x1, 0x1, 0x1, 0x88, 0xa4, 0xd, 0x10,
        0x8, 0x1, 0x0, 0x0, 0x3, 0x1, 0x1, 0x0, 0x0, 0x0, 0x0, 0x0, 0x0,
    ];
    assert(r@ =~= spec_discovery_frame());
    r
}

/// Why an interface was found not to carry EtherCAT.
#[derive(Debug, Clone, Copy, PartialEq, Eq, Structural)]
pub enum DiscoveryError {
    /// Nothing that came back after the probe was an EtherCAT frame.
    NotEtherCat,
}

/// Judges an interface by what it received after the discovery probe was
/// sent: it carries EtherCAT exactly when the reply is an EtherCAT frame
/// (an empty reply stands for nothing received).
pub fn test_interface(reply: &[u8]) -> (r: Result<(), DiscoveryError>)
    ensures
        r == (if spec_is_ethercat_frame(reply@) {
            Ok::<(), DiscoveryError>(())
        } else {
            Err(DiscoveryError::NotEtherCat)
        }),
{
    if is_ethercat_frame(reply) {
        Ok(())
    } else {
        Err(DiscoveryError::NotEtherCat)
    }
}

/// A 16-bit little-endian word at `at`.
pub open spec fn spec_le16_at(data: Seq<u8>, at: int) -> int {
    data[at] as int + 256 * data[at + 1] as int
}

/// A 32-bit little-endian word at `at`.
pub open spec fn spec_le32_at(data: Seq<u8>, at: int) -> int {
    data[at] as int + 256 * data[at + 1] as int + 65536 * data[at + 2] as int + 16777216 * data[at + 3] as int
}

/// `x` rounded up to a multiple of four.
pub open spec fn spec_word_align(x: int) -> int {
    (x + 3) / 4 * 4
}

/// Rounding up to a multiple of four adds at most three.
pub proof fn lemma_word_align(x: int)
    requires
        x >= 0,
    ensures
        x <= spec_word_align(x) <= x + 3,
{
    assert(x <= (x + 3) / 4 * 4 <= x + 3) by (nonlinear_arith)
        requires
            x >= 0,
    ;
}

/// Whether the BPF records of `data` from byte `pos` on hold an EtherCAT
/// frame. Each record has an 18-byte or longer header, whose bytes 12..16
/// give the captured length and 16..18 the header length; the frame follows
/// the header, and the next record starts at the next multiple of four. A
/// record that does not fit ends the scan.
pub open spec fn spec_bpf_scan(data: Seq<u8>, pos: int) -> bool
    decreases data.len() + 4 - pos,
{
    if pos < 0 || pos + 18 > data.len() {
        false
    } else {
        let hdrlen = spec_le16_at(data, pos + 16);
        let caplen = spec_le32_at(data, pos + 12);
        if hdrlen < 18 || pos + hdrlen + caplen > data.len() {
            false
        } else if spec_is_ethercat_frame(data.subrange(pos + hdrlen, pos + hdrlen + caplen)) {
            true
        } else {
            proof {
                lemma_word_align(hdrlen + caplen);
            }
            spec_bpf_scan(data, pos + spec_word_align(hdrlen + caplen))
        }
    }
}

/// Whether a buffer read from a BPF device holds an EtherCAT frame.
pub fn contains_ethercat_frame(data: &[u8]) -> (r: bool)
    requires
        data.len() <= isize::MAX,
    ensures
        r == spec_bpf_scan(data@, 0),
{
    let mut pos: usize = 0;
    while pos + 18 <= data.len()
        invariant
            pos <= data.len() + 3,
            data.len() <= isize::MAX,
            spec_bpf_scan(data@, 0) == spec_bpf_scan(data@, pos as int),
        decreases data.len() + 4 - pos,
    {
        let hdrlen: usize = data[pos + 16] as usize + 256 * (data[pos + 17] as usize);
        let caplen: usize = data[pos + 12] as usize + 256 * (data[pos + 13] as usize)
            + 65536 * (data[pos + 14] as usize) + 16777216 * (data[pos + 15] as usize);
        if hdrlen < 18 || hdrlen > data.len() - pos || caplen > data.len() - pos - hdrlen {
            return false;
        }
        let start = pos + hdrlen;
        let frame = vstd::slice::slice_subrange(data, start, start + caplen);
        if is_ethercat_frame(frame) {
            return true;
        }
        let total = hdrlen + caplen;
        proof {
            lemma_word_align(total as int);
        }
        pos = pos + (total + 3) / 4 * 4;
    }
    false
}

} // verus!
