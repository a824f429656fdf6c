//! Views of a raw 16-bit word as unsigned, two's complement and sign-magnitude.
use vstd::prelude::*;
use crate::text::{push_decimal_i128, push_decimal_u128, push_hex4, spec_decimal_int, spec_decimal_nat, spec_hex4};

verus! {

/// Two's complement reading of a 16-bit word.
pub open spec fn spec_twos_complement(raw: u16) -> int {
    if raw < 0x8000 {
        raw as int
    } else {
        raw as int - 0x10000
    }
}

/// Sign-magnitude reading of a 16-bit word: bit 15 is the sign, bits 0..15 the magnitude.
pub open spec fn spec_sign_magnitude(raw: u16) -> int {
    if raw >= 0x8000 {
        -(raw as int - 0x8000)
    } else {
        raw as int
    }
}

/// A 16-bit integer wrapper providing different integer interpretations of one raw word.
#[derive(Debug, Clone, Copy, PartialEq, Eq, Structural)]
pub struct U16SigningConverter {
    pub raw: u16,
}

impl U16SigningConverter {
    /// Wraps a raw 16-bit value.
    pub fn load_raw(value: u16) -> (r: Self)
        ensures
            r.raw == value,
    {
        Self { raw: value }
    }

    /// The value as an unsigned 16-bit integer.
    pub fn as_unsigned(self) -> (r: u16)
        ensures
            r == self.raw,
    {
        self.raw
    }

    /// The value as a two's complement signed 16-bit integer.
    pub fn as_signed(self) -> (r: i16)
        ensures
            r == spec_twos_complement(self.raw),
    {
        let raw = self.raw;
        let r = raw as i16;
        assert(r == (if raw < 0x8000 { raw as int } else { raw as int - 0x10000 })) by (bit_vector)
            requires
                r == raw as i16,
        ;
        r
    }

    /// The value in sign-magnitude representation: the top bit is the sign, the
    /// remaining fifteen bits are the magnitude.
    pub fn as_signed_magnitude(self) -> (r: i16)
        ensures
            r == spec_sign_magnitude(self.raw),
    {
        let raw = self.raw;
        if raw & 0x8000 != 0 {
            let magnitude = raw & 0x7FFF;
            assert(raw & 0x8000 != 0 ==> raw >= 0x8000 && (raw & 0x7FFF) == raw - 0x8000)
                by (bit_vector);
            -(magnitude as i16)
        } else {
            assert(raw & 0x8000 == 0 ==> raw < 0x8000) by (bit_vector);
            raw as i16
        }
    }

    /// The absolute value of the two's complement reading.
    ///
    /// The word `0x8000` has no 16-bit absolute value and is left out.
    pub fn as_absolute(self) -> (r: i16)
        requires
            self.raw != 0x8000,
        ensures
            r as int == if spec_twos_complement(self.raw) < 0 {
                -spec_twos_complement(self.raw)
            } else {
                spec_twos_complement(self.raw)
            },
    {
        let s = self.as_signed();
        if s < 0 {
            -s
        } else {
            s
        }
    }
}

impl From<u16> for U16SigningConverter {
    fn from(value: u16) -> (r: Self) {
        U16SigningConverter::load_raw(value)
    }
}

impl vstd::std_specs::convert::FromSpecImpl<u16> for U16SigningConverter {
    open spec fn obeys_from_spec() -> bool {
        true
    }

    open spec fn from_spec(v: u16) -> Self {
        U16SigningConverter { raw: v }
    }
}

impl From<U16SigningConverter> for u16 {
    fn from(value: U16SigningConverter) -> (r: Self) {
        value.as_unsigned()
    }
}

impl vstd::std_specs::convert::FromSpecImpl<U16SigningConverter> for u16 {
    open spec fn obeys_from_spec() -> bool {
        true
    }

    open spec fn from_spec(v: U16SigningConverter) -> Self {
        v.raw
    }
}

/// The word in all three readings, each with its raw hexadecimal form.
pub open spec fn spec_converter_text(raw: u16) -> Seq<char> {
    "U16SigningConverter { unsigned: "@ + spec_decimal_nat(raw as nat) + " (0x"@ + spec_hex4(raw)
        + "), signed: "@ + spec_decimal_int(spec_twos_complement(raw)) + " (0x"@ + spec_hex4(raw)
        + "), sign-magnitude: "@ + spec_decimal_int(spec_sign_magnitude(raw)) + " (0x"@ + spec_hex4(raw)
        + ") }"@
}

impl U16SigningConverter {
    /// The word in all three readings, each with its raw hexadecimal form.
    pub fn text(&self) -> (r: String)
        ensures
            r@ == spec_converter_text(self.raw),
    {
        let mut r = String::from_str("U16SigningConverter { unsigned: ");
        push_decimal_u128(&mut r, self.raw as u128);
        r.append(" (0x");
        push_hex4(&mut r, self.raw);
        r.append("), signed: ");
        push_decimal_i128(&mut r, self.as_signed() as i128);
        r.append(" (0x");
        push_hex4(&mut r, self.raw);
        r.append("), sign-magnitude: ");
        push_decimal_i128(&mut r, self.as_signed_magnitude() as i128);
        r.append(" (0x");
        push_hex4(&mut r, self.raw);
        r.append(") }");
        r
    }
}

} // verus!
