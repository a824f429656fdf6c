//! Bit-level access to a process data image, in `Lsb0` order: bit `k` of the
//! image is bit `k % 8` of byte `k / 8`, and a multi-bit field is read
//! little-endian, its first bit the least significant.
use vstd::prelude::*;
use bitvec::field::BitField;
use bitvec::order::Lsb0;
use bitvec::view::BitView;

verus! {

/// Bit `k` of the image.
pub open spec fn spec_bit(bytes: Seq<u8>, k: int) -> bool {
    (bytes[k / 8] >> ((k % 8) as u8)) & 1u8 == 1u8
}

/// The unsigned value of the `width` bits from bit `off` on, the first one
/// the least significant.
pub open spec fn spec_field(bytes: Seq<u8>, off: int, width: nat) -> nat
    decreases width,
{
    if width == 0 {
        0
    } else {
        (if spec_bit(bytes, off) { 1nat } else { 0nat }) + 2 * spec_field(bytes, off + 1, (width - 1) as nat)
    }
}

/// The image is short enough for `bitvec` to view as bits (at most
/// `usize::MAX >> 3` bits).
pub open spec fn spec_image_fits(len: nat) -> bool {
    len * 8 <= (usize::MAX >> 3) as nat
}

/// Every bit outside `off..off + width` is the same in both images.
pub open spec fn spec_same_outside(a: Seq<u8>, b: Seq<u8>, off: int, width: int) -> bool {
    &&& a.len() == b.len()
    &&& forall|k: int| 0 <= k < a.len() * 8 && !(off <= k < off + width) ==> #[trigger] spec_bit(a, k) == spec_bit(b, k)
}

/// Reads one bit with `bitvec`'s `Lsb0` view (`view_bits::<Lsb0>()[k]`), which
/// indexes bit `k % 8` of byte `k / 8`.
#[verifier::external_body]
pub(crate) fn get_bit(bytes: &[u8], k: usize) -> (r: bool)
    requires
        k < bytes.len() * 8,
        spec_image_fits(bytes.len() as nat),
    ensures
        r == spec_bit(bytes@, k as int),
{
    bytes.view_bits::<Lsb0>()[k]
}

/// Writes one bit with `bitvec`'s `BitSlice::set` on the `Lsb0` view; the
/// other bits keep their values.
#[verifier::external_body]
pub(crate) fn set_bit(bytes: &mut [u8], k: usize, value: bool)
    requires
        k < old(bytes).len() * 8,
        spec_image_fits(old(bytes).len() as nat),
    ensures
        spec_bit(final(bytes)@, k as int) == value,
        spec_same_outside(final(bytes)@, old(bytes)@, k as int, 1),
{
    bytes.view_bits_mut::<Lsb0>().set(k, value);
}

/// `bitvec`'s `BitField::load_le::<u16>` on bits `off..off + 16` of the `Lsb0`
/// view: its documentation gives the little-endian reading, the slice index
/// increasing with numerical significance.
#[verifier::external_body]
pub(crate) fn load_u16_le(bytes: &[u8], off: usize) -> (r: u16)
    requires
        off + 16 <= bytes.len() * 8,
        spec_image_fits(bytes.len() as nat),
    ensures
        r as nat == spec_field(bytes@, off as int, 16),
{
    bytes.view_bits::<Lsb0>()[off..off + 16].load_le::<u16>()
}

/// `bitvec`'s `BitField::store_le::<u16>` on bits `off..off + 16` of the
/// `Lsb0` view: the field then reads back as `value`, and the bits outside it
/// keep their values.
#[verifier::external_body]
pub(crate) fn store_u16_le(bytes: &mut [u8], off: usize, value: u16)
    requires
        off + 16 <= old(bytes).len() * 8,
        spec_image_fits(old(bytes).len() as nat),
    ensures
        spec_field(final(bytes)@, off as int, 16) == value as nat,
        spec_same_outside(final(bytes)@, old(bytes)@, off as int, 16),
{
    bytes.view_bits_mut::<Lsb0>()[off..off + 16].store_le::<u16>(value);
}


/// `bitvec`'s `BitField::load_le::<u32>` on bits `off..off + width` of the
/// `Lsb0` view, `width` in `1..=32` (it panics on other widths): an unsigned
/// load zero-extends, so the result is the field's little-endian reading.
#[verifier::external_body]
pub(crate) fn load_u32_bits(bytes: &[u8], off: usize, width: usize) -> (r: u32)
    requires
        1 <= width <= 32,
        off + width <= bytes.len() * 8,
        spec_image_fits(bytes.len() as nat),
    ensures
        r as nat == spec_field(bytes@, off as int, width as nat),
{
    bytes.view_bits::<Lsb0>()[off..off + width].load_le::<u32>()
}

/// `bitvec`'s `BitField::store_le::<u32>` on bits `off..off + width` of the
/// `Lsb0` view, `width` in `1..=32` (it panics on other widths): the `width`
/// least significant bits of `value` are stored, the higher ones ignored,
/// and the bits outside the field keep their values.
#[verifier::external_body]
pub(crate) fn store_u32_bits(bytes: &mut [u8], off: usize, width: usize, value: u32)
    requires
        1 <= width <= 32,
        off + width <= old(bytes).len() * 8,
        spec_image_fits(old(bytes).len() as nat),
    ensures
        spec_field(final(bytes)@, off as int, width as nat) == value as nat % vstd::arithmetic::power2::pow2(width as nat),
        spec_same_outside(final(bytes)@, old(bytes)@, off as int, width as int),
{
    bytes.view_bits_mut::<Lsb0>()[off..off + width].store_le::<u32>(value);
}

/// A field that lies outside a written range reads the same before and after.
pub proof fn lemma_field_unchanged(a: Seq<u8>, b: Seq<u8>, off: int, width: nat, w_off: int, w_width: int)
    requires
        spec_same_outside(a, b, w_off, w_width),
        0 <= off,
        off + width <= a.len() * 8,
        off + width <= w_off || w_off + w_width <= off,
    ensures
        spec_field(a, off, width) == spec_field(b, off, width),
    decreases width,
{
    if width > 0 {
        assert(spec_bit(a, off) == spec_bit(b, off));
        lemma_field_unchanged(a, b, off + 1, (width - 1) as nat, w_off, w_width);
    }
}

/// The `n` bytes of an image from bit `off` on, each read as a field of eight bits.
pub open spec fn spec_image_bytes(img: Seq<u8>, off: int, n: nat) -> Seq<u8> {
    Seq::new(n, |i: int| spec_field(img, off + 8 * i, 8) as u8)
}

/// A field of `width` bits is below `2^width`.
pub proof fn lemma_field_bound(b: Seq<u8>, off: int, width: nat)
    ensures
        spec_field(b, off, width) < vstd::arithmetic::power2::pow2(width),
    decreases width,
{
    vstd::arithmetic::power2::lemma_pow2_pos(width);
    if width > 0 {
        lemma_field_bound(b, off + 1, (width - 1) as nat);
        vstd::arithmetic::power2::lemma_pow2_unfold(width);
    }
}

/// One byte of the image from bit `off` on.
pub(crate) fn load_byte(input: &[u8], off: usize) -> (r: u8)
    requires
        off + 8 <= input.len() * 8,
        spec_image_fits(input.len() as nat),
    ensures
        r == spec_field(input@, off as int, 8) as u8,
{
    proof {
        lemma_field_bound(input@, off as int, 8);
        vstd::arithmetic::power2::lemma2_to64();
    }
    load_u32_bits(input, off, 8) as u8
}

/// The `n` bytes of the image from bit `base` on.
pub(crate) fn load_image_bytes(input: &[u8], base: usize, n: usize) -> (r: Vec<u8>)
    requires
        base + 8 * n <= input.len() * 8,
        spec_image_fits(input.len() as nat),
    ensures
        r@ == spec_image_bytes(input@, base as int, n as nat),
{
    let mut r: Vec<u8> = Vec::new();
    let mut i: usize = 0;
    while i < n
        invariant
            i <= n,
            base + 8 * n <= input.len() * 8,
            spec_image_fits(input.len() as nat),
            r@ == spec_image_bytes(input@, base as int, i as nat),
        decreases n - i,
    {
        let v = load_byte(input, base + 8 * i);
        r.push(v);
        i += 1;
        assert(r@ =~= spec_image_bytes(input@, base as int, i as nat));
    }
    r
}

/// Writes `bytes` one after the other from bit `base` on; the image's other
/// bits keep their values.
pub(crate) fn store_image_bytes(output: &mut [u8], base: usize, bytes: &[u8])
    requires
        base + 8 * bytes.len() <= old(output).len() * 8,
        spec_image_fits(old(output).len() as nat),
    ensures
        final(output)@.len() == old(output)@.len(),
        spec_image_bytes(final(output)@, base as int, bytes.len() as nat) == bytes@,
        spec_same_outside(final(output)@, old(output)@, base as int, 8 * bytes.len()),
{
    let ghost start = output@;
    let mut i: usize = 0;
    while i < bytes.len()
        invariant
            i <= bytes.len(),
            base + 8 * bytes.len() <= output@.len() * 8,
            output@.len() == start.len(),
            start == old(output)@,
            spec_image_fits(output@.len() as nat),
            forall|k: int| 0 <= k < i ==> spec_field(output@, base + 8 * k, 8) == (#[trigger] bytes@[k]) as nat,
            spec_same_outside(output@, start, base as int, 8 * i),
        decreases bytes.len() - i,
    {
        let ghost before = output@;
        store_u32_bits(output, base + 8 * i, 8, bytes[i] as u32);
        proof {
            vstd::arithmetic::power2::lemma2_to64();
            assert(bytes@[i as int] as nat % vstd::arithmetic::power2::pow2(8) == bytes@[i as int] as nat);
            assert forall|k: int| 0 <= k < i + 1 implies spec_field(output@, base + 8 * k, 8) == (#[trigger] bytes@[k]) as nat by {
                if k < i {
                    lemma_field_unchanged(output@, before, base + 8 * k, 8, base + 8 * i, 8);
                }
            }
            assert forall|k: int| 0 <= k < output@.len() * 8 && !(base <= k < base + 8 * (i + 1))
                implies #[trigger] spec_bit(output@, k) == spec_bit(start, k) by {
                assert(spec_bit(output@, k) == spec_bit(before, k));
                assert(spec_bit(before, k) == spec_bit(start, k));
            }
        }
        i += 1;
    }
    proof {
        assert forall|k: int| 0 <= k < bytes.len() implies #[trigger] spec_image_bytes(output@, base as int, bytes.len() as nat)[k] == bytes@[k] by {
            assert(spec_field(output@, base + 8 * k, 8) == bytes@[k] as nat);
        }
        assert(spec_image_bytes(output@, base as int, bytes.len() as nat) =~= bytes@);
    }
}

} // verus!
