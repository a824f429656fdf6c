//! Rendering of numbers into text, as the diagnostics of this crate print them.
use vstd::prelude::*;

verus! {

/// The upper-case hexadecimal digit for `d` in `0..16`.
pub open spec fn spec_hex_digit(d: int) -> char {
    if d == 0 { '0' } else if d == 1 { '1' } else if d == 2 { '2' } else if d == 3 { '3' }
    else if d == 4 { '4' } else if d == 5 { '5' } else if d == 6 { '6' } else if d == 7 { '7' }
    else if d == 8 { '8' } else if d == 9 { '9' } else if d == 10 { 'A' } else if d == 11 { 'B' }
    else if d == 12 { 'C' } else if d == 13 { 'D' } else if d == 14 { 'E' } else { 'F' }
}

/// The decimal digit for `d` in `0..10`.
pub open spec fn spec_decimal_digit(d: int) -> char {
    spec_hex_digit(d)
}

/// Four upper-case hexadecimal digits of a 16-bit value, most significant first
/// (what `{:04X}` prints).
pub open spec fn spec_hex4(v: u16) -> Seq<char> {
    seq![
        spec_hex_digit((v / 4096) as int % 16),
        spec_hex_digit((v / 256) as int % 16),
        spec_hex_digit((v / 16) as int % 16),
        spec_hex_digit(v as int % 16),
    ]
}

/// Decimal digits of a natural number, without leading zeros (what `{}` prints).
pub open spec fn spec_decimal_nat(n: nat) -> Seq<char>
    decreases n,
{
    if n < 10 {
        seq![spec_decimal_digit(n as int)]
    } else {
        spec_decimal_nat(n / 10) + seq![spec_decimal_digit((n % 10) as int)]
    }
}

/// Decimal rendering of an integer with a leading `-` when negative.
pub open spec fn spec_decimal_int(n: int) -> Seq<char> {
    if n < 0 {
        seq!['-'] + spec_decimal_nat((-n) as nat)
    } else {
        spec_decimal_nat(n as nat)
    }
}

/// The one-character string of a hexadecimal digit.
pub fn hex_digit_str(d: u16) -> (s: &'static str)
    requires
        d < 16,
    ensures
        s@ == seq![spec_hex_digit(d as int)],
{
    match d {
        0 => { proof { reveal_strlit("0"); } "0" },
        1 => { proof { reveal_strlit("1"); } "1" },
        2 => { proof { reveal_strlit("2"); } "2" },
        3 => { proof { reveal_strlit("3"); } "3" },
        4 => { proof { reveal_strlit("4"); } "4" },
        5 => { proof { reveal_strlit("5"); } "5" },
        6 => { proof { reveal_strlit("6"); } "6" },
        7 => { proof { reveal_strlit("7"); } "7" },
        8 => { proof { reveal_strlit("8"); } "8" },
        9 => { proof { reveal_strlit("9"); } "9" },
        10 => { proof { reveal_strlit("A"); } "A" },
        11 => { proof { reveal_strlit("B"); } "B" },
        12 => { proof { reveal_strlit("C"); } "C" },
        13 => { proof { reveal_strlit("D"); } "D" },
        14 => { proof { reveal_strlit("E"); } "E" },
        _ => { proof { reveal_strlit("F"); } "F" },
    }
}

/// Appends four upper-case hexadecimal digits of `v`.
pub fn push_hex4(s: &mut String, v: u16)
    ensures
        final(s)@ == old(s)@ + spec_hex4(v),
{
    s.append(hex_digit_str((v / 4096) % 16));
    s.append(hex_digit_str((v / 256) % 16));
    s.append(hex_digit_str((v / 16) % 16));
    s.append(hex_digit_str(v % 16));
    assert(s@ =~= old(s)@ + spec_hex4(v));
}

/// Appends the decimal digits of `n`.
pub fn push_decimal_u128(s: &mut String, n: u128)
    ensures
        final(s)@ == old(s)@ + spec_decimal_nat(n as nat),
    decreases n,
{
    if n >= 10 {
        push_decimal_u128(s, n / 10);
    }
    let d = (n % 10) as u16;
    s.append(hex_digit_str(d));
    if n >= 10 {
        assert(s@ =~= old(s)@ + spec_decimal_nat(n as nat));
    } else {
        assert(s@ =~= old(s)@ + spec_decimal_nat(n as nat));
    }
}

/// Appends the decimal rendering of `n`, with a leading `-` when negative.
pub fn push_decimal_i128(s: &mut String, n: i128)
    ensures
        final(s)@ == old(s)@ + spec_decimal_int(n as int),
{
    if n < 0 {
        proof {
            reveal_strlit("-");
        }
        s.append("-");
        let magnitude = ((-(n + 1)) as u128) + 1;
        push_decimal_u128(s, magnitude);
        assert(s@ =~= old(s)@ + spec_decimal_int(n as int));
    } else {
        push_decimal_u128(s, n as u128);
    }
}

/// The decimal rendering of `n`.
pub fn decimal_string(n: u128) -> (r: String)
    ensures
        r@ == spec_decimal_nat(n as nat),
{
    let mut s = String::new();
    push_decimal_u128(&mut s, n);
    assert(s@ =~= spec_decimal_nat(n as nat));
    s
}

/// Parts joined by a separator, as `[..].join(sep)` renders them.
pub open spec fn spec_join(parts: Seq<Seq<char>>, sep: Seq<char>) -> Seq<char>
    decreases parts.len(),
{
    if parts.len() == 0 {
        seq![]
    } else if parts.len() == 1 {
        parts[0]
    } else {
        spec_join(parts.drop_last(), sep) + sep + parts.last()
    }
}

/// The character sequences of a list of strings.
pub open spec fn spec_views(parts: Seq<String>) -> Seq<Seq<char>> {
    parts.map_values(|p: String| p@)
}

/// Joins `parts` with `sep` between consecutive parts.
pub fn join_strings(parts: &Vec<String>, sep: &str) -> (r: String)
    ensures
        r@ == spec_join(spec_views(parts@), sep@),
{
    let mut r = String::new();
    let n = parts.len();
    let mut i: usize = 0;
    while i < n
        invariant
            n == parts@.len(),
            i <= n,
            r@ == spec_join(spec_views(parts@).take(i as int), sep@),
        decreases n - i,
    {
        let ghost before = spec_views(parts@).take(i as int);
        if i > 0 {
            r.append(sep);
        }
        r.append(parts[i].as_str());
        assert(spec_views(parts@).take(i + 1).drop_last() =~= before);
        assert(spec_views(parts@).take(i + 1).last() == parts@[i as int]@);
        if i == 0 {
            assert(r@ =~= spec_join(spec_views(parts@).take(i + 1), sep@));
        }
        i = i + 1;
    }
    assert(spec_views(parts@).take(n as int) =~= spec_views(parts@));
    r
}

/// `"true"` or `"false"`, as `{}` renders a boolean.
pub open spec fn spec_bool_text(b: bool) -> Seq<char> {
    if b { "true"@ } else { "false"@ }
}

/// Appends `"true"` or `"false"`.
pub fn push_bool(s: &mut String, b: bool)
    ensures
        final(s)@ == old(s)@ + spec_bool_text(b),
{
    if b {
        s.append("true");
    } else {
        s.append("false");
    }
}


/// The lower-case hexadecimal digit for `d` in `0..16`.
pub open spec fn spec_hex_digit_lower(d: int) -> char {
    if d < 10 { spec_hex_digit(d) } else if d == 10 { 'a' } else if d == 11 { 'b' } else if d == 12 { 'c' }
    else if d == 13 { 'd' } else if d == 14 { 'e' } else { 'f' }
}

/// The one-character string of a lower-case hexadecimal digit.
pub fn hex_digit_str_lower(d: u16) -> (s: &'static str)
    requires
        d < 16,
    ensures
        s@ == seq![spec_hex_digit_lower(d as int)],
{
    match d {
        10 => { proof { reveal_strlit("a"); } "a" },
        11 => { proof { reveal_strlit("b"); } "b" },
        12 => { proof { reveal_strlit("c"); } "c" },
        13 => { proof { reveal_strlit("d"); } "d" },
        14 => { proof { reveal_strlit("e"); } "e" },
        15 => { proof { reveal_strlit("f"); } "f" },
        _ => hex_digit_str(d),
    }
}

/// Four lower-case hexadecimal digits of a 16-bit value, most significant
/// first.
pub open spec fn spec_hex4_lower(v: u16) -> Seq<char> {
    seq![
        spec_hex_digit_lower((v / 4096) as int % 16),
        spec_hex_digit_lower((v / 256) as int % 16),
        spec_hex_digit_lower((v / 16) as int % 16),
        spec_hex_digit_lower(v as int % 16),
    ]
}

/// Appends four lower-case hexadecimal digits of `v`.
pub fn push_hex4_lower(s: &mut String, v: u16)
    ensures
        final(s)@ == old(s)@ + spec_hex4_lower(v),
{
    s.append(hex_digit_str_lower((v / 4096) % 16));
    s.append(hex_digit_str_lower((v / 256) % 16));
    s.append(hex_digit_str_lower((v / 16) % 16));
    s.append(hex_digit_str_lower(v % 16));
    assert(s@ =~= old(s)@ + spec_hex4_lower(v));
}

/// The lower-case hexadecimal digits of a byte without leading zeros (what
/// `{:x}` prints).
pub open spec fn spec_hex_u8_lower(v: u8) -> Seq<char> {
    if v < 16 {
        seq![spec_hex_digit_lower(v as int)]
    } else {
        seq![spec_hex_digit_lower((v / 16) as int), spec_hex_digit_lower((v % 16) as int)]
    }
}

/// Appends the lower-case hexadecimal digits of a byte.
pub fn push_hex_u8_lower(s: &mut String, v: u8)
    ensures
        final(s)@ == old(s)@ + spec_hex_u8_lower(v),
{
    if v >= 16 {
        s.append(hex_digit_str_lower((v / 16) as u16));
    }
    s.append(hex_digit_str_lower((v % 16) as u16));
    assert(s@ =~= old(s)@ + spec_hex_u8_lower(v));
}

} // verus!
