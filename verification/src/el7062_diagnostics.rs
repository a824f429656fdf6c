//! Text of the EL7062 diagnosis messages and the position scale of its process data.
use vstd::prelude::*;

verus! {

/// Default `0x8000:12` / `0x8100:12` single-turn bits of the EL7062.
pub const DEFAULT_SINGLETURN_BITS: u8 = 0x14;

/// Increments per motor revolution for a given single-turn bit count: every
/// process-data position is scaled to `2^singleturn_bits` increments per
/// revolution, whatever the encoder.
pub fn increments_per_revolution(singleturn_bits: u8) -> (r: u32)
    requires
        singleturn_bits < 32,
    ensures
        r as nat == vstd::arithmetic::power2::pow2(singleturn_bits as nat),
{
    let shift = singleturn_bits as u32;
    proof {
        vstd::bits::lemma_u32_pow2_no_overflow(shift as nat);
        vstd::bits::lemma_u32_shl_is_mul(1, shift);
    }
    1u32 << shift
}

/// Name of an EL7062 diagnosis message by its text id, if known.
pub open spec fn spec_diag_name(text_id: u16) -> Option<Seq<char>> {
    match text_id {
        0x4101 => Some("Amplifier-Overtemperature"@),
        0x4102 => Some("PDO-configuration is incompatible to the selected mode of operation"@),
        0x4103 => Some("Undervoltage Us"@),
        0x4104 => Some("Overvoltage Us"@),
        0x4400 => Some("Calibration data corrupted or missing"@),
        0x4411 => Some("DC-Link undervoltage"@),
        0x4412 => Some("DC-Link overvoltage"@),
        0x8103 => Some("Undervoltage Us"@),
        0x8104 => Some("Amplifier-Overtemperature"@),
        0x8105 => Some("PD-Watchdog"@),
        0x8144 => Some("Hardware fault"@),
        0x817F => Some("Error"@),
        0x8404 => Some("Overcurrent"@),
        0x8406 => Some("Undervoltage DC-Link"@),
        0x8407 => Some("Overvoltage DC-Link"@),
        0x840A => Some("Overall current threshold exceeded"@),
        0x840B => Some("Commutation error"@),
        0x840C => Some("Motor not connected"@),
        0x840F => Some("Commutation Type requires an encoder, but feedback is disabled"@),
        0x8415 => Some("Invalid modulo range"@),
        0x8417 => Some("Maximum rotating field velocity exceeded"@),
        0x841F => Some("Torque limitation too low"@),
        0x8422 => Some("Drive configuration missing"@),
        0x8423 => Some("Invalid process data format (singleturn+multiturn bits != 32)"@),
        0x8441 => Some("Maximum following error distance exceeded"@),
        0x8442 => Some("Encoder-Resolution insufficient"@),
        0x8443 => Some("Combination of Mode of Operation and Commutation Type is invalid"@),
        0x8452 => Some("Drive error during positioning"@),
        0x8457 => Some("Invalid value for Target velocity"@),
        0x8458 => Some("Invalid value for Target position"@),
        0x8459 => Some("Emergency stop active"@),
        _ => None,
    }
}

/// Name of an EL7062 diagnosis message by its text id, if known.
pub fn diag_name(text_id: u16) -> (r: Option<&'static str>)
    ensures
        match r {
            Some(s) => spec_diag_name(text_id) == Some(s@),
            None => spec_diag_name(text_id) is None,
        },
{
    match text_id {
        0x4101 => Some("Amplifier-Overtemperature"),
        0x4102 => Some("PDO-configuration is incompatible to the selected mode of operation"),
        0x4103 => Some("Undervoltage Us"),
        0x4104 => Some("Overvoltage Us"),
        0x4400 => Some("Calibration data corrupted or missing"),
        0x4411 => Some("DC-Link undervoltage"),
        0x4412 => Some("DC-Link overvoltage"),
        0x8103 => Some("Undervoltage Us"),
        0x8104 => Some("Amplifier-Overtemperature"),
        0x8105 => Some("PD-Watchdog"),
        0x8144 => Some("Hardware fault"),
        0x817F => Some("Error"),
        0x8404 => Some("Overcurrent"),
        0x8406 => Some("Undervoltage DC-Link"),
        0x8407 => Some("Overvoltage DC-Link"),
        0x840A => Some("Overall current threshold exceeded"),
        0x840B => Some("Commutation error"),
        0x840C => Some("Motor not connected"),
        0x840F => Some("Commutation Type requires an encoder, but feedback is disabled"),
        0x8415 => Some("Invalid modulo range"),
        0x8417 => Some("Maximum rotating field velocity exceeded"),
        0x841F => Some("Torque limitation too low"),
        0x8422 => Some("Drive configuration missing"),
        0x8423 => Some("Invalid process data format (singleturn+multiturn bits != 32)"),
        0x8441 => Some("Maximum following error distance exceeded"),
        0x8442 => Some("Encoder-Resolution insufficient"),
        0x8443 => Some("Combination of Mode of Operation and Commutation Type is invalid"),
        0x8452 => Some("Drive error during positioning"),
        0x8457 => Some("Invalid value for Target velocity"),
        0x8458 => Some("Invalid value for Target position"),
        0x8459 => Some("Emergency stop active"),
        _ => None,
    }
}


/// One record of the diagnosis history (`0x10F3`): bytes 0..4 the diagnosis
/// code, 4..6 the flags, 6..8 the text id, 8..16 the timestamp; a field that
/// the record is too short for reads as zero.
#[derive(Debug, Clone, Copy, PartialEq, Eq, Structural)]
pub struct DiagRecord {
    pub diag_code: u32,
    pub flags: u16,
    pub text_id: u16,
    pub timestamp: u64,
}

/// The little-endian value of `n` bytes of `b` from `at`, or zero when `b`
/// is shorter than `at + n`.
pub open spec fn spec_le_field(b: Seq<u8>, at: int, n: nat) -> nat
    decreases n,
{
    if at + n > b.len() {
        0
    } else if n == 0 {
        0
    } else {
        b[at] as nat + 256 * spec_le_field(b, at + 1, (n - 1) as nat)
    }
}

fn le_field(b: &[u8], at: usize, n: usize) -> (r: u64)
    requires
        n <= 8,
        at + n <= usize::MAX,
    ensures
        r as nat == spec_le_field(b@, at as int, n as nat),
    decreases n,
{
    if at + n > b.len() {
        return 0;
    }
    if n == 0 {
        return 0;
    }
    let rest = le_field(b, at + 1, n - 1);
    proof {
        lemma_le_field_bound(b@, at as int + 1, (n - 1) as nat);
        vstd::arithmetic::power2::lemma2_to64();
        vstd::arithmetic::power2::lemma2_to64_rest();
        assert(rest < 0x100_0000_0000_0000) by {
            if 8 * (n - 1) < 56 {
                vstd::arithmetic::power2::lemma_pow2_strictly_increases((8 * (n - 1)) as nat, 56);
            }
        }
    }
    b[at] as u64 + 256 * rest
}

proof fn lemma_le_field_bound(b: Seq<u8>, at: int, n: nat)
    ensures
        spec_le_field(b, at, n) < vstd::arithmetic::power2::pow2(8 * n),
    decreases n,
{
    vstd::arithmetic::power2::lemma_pow2_pos(8 * n);
    if at + n <= b.len() && n > 0 {
        lemma_le_field_bound(b, at + 1, (n - 1) as nat);
        vstd::arithmetic::power2::lemma_pow2_adds(8, 8 * (n - 1) as nat);
        vstd::arithmetic::power2::lemma2_to64();
        assert(8 + 8 * (n - 1) == 8 * n);
    }
}

/// The record that a history entry holds, or `None` for an empty (all-zero)
/// slot.
pub open spec fn spec_diag_record(b: Seq<u8>) -> Option<DiagRecord> {
    if forall|i: int| 0 <= i < b.len() ==> b[i] == 0 {
        None
    } else {
        Some(DiagRecord {
            diag_code: spec_le_field(b, 0, 4) as u32,
            flags: spec_le_field(b, 4, 2) as u16,
            text_id: spec_le_field(b, 6, 2) as u16,
            timestamp: spec_le_field(b, 8, 8) as u64,
        })
    }
}

/// Decodes one entry of the diagnosis history.
pub fn parse_diag_record(bytes: &[u8]) -> (r: Option<DiagRecord>)
    ensures
        r == spec_diag_record(bytes@),
{
    let mut i: usize = 0;
    while i < bytes.len()
        invariant
            i <= bytes.len(),
            forall|k: int| 0 <= k < i ==> bytes@[k] == 0,
        ensures
            i <= bytes.len(),
            forall|k: int| 0 <= k < i ==> bytes@[k] == 0,
            i < bytes.len() ==> bytes@[i as int] != 0,
        decreases bytes.len() - i,
    {
        if bytes[i] != 0 {
            break;
        }
        i += 1;
    }
    if i == bytes.len() {
        return None;
    }
    proof {
        lemma_le_field_bound(bytes@, 0, 4);
        lemma_le_field_bound(bytes@, 4, 2);
        lemma_le_field_bound(bytes@, 6, 2);
        vstd::arithmetic::power2::lemma2_to64();
    }
    let diag_code = le_field(bytes, 0, 4);
    let flags = le_field(bytes, 4, 2);
    let text_id = le_field(bytes, 6, 2);
    let timestamp = le_field(bytes, 8, 8);
    Some(DiagRecord {
        diag_code: diag_code as u32,
        flags: flags as u16,
        text_id: text_id as u16,
        timestamp,
    })
}

/// The kind of a diagnosis message by its flags.
pub open spec fn spec_message_type(flags: u16) -> Seq<char> {
    if flags == 0 {
        "Info"@
    } else if flags == 1 {
        "Warning"@
    } else if flags == 2 {
        "Error"@
    } else {
        "Unknown"@
    }
}

/// The kind of a diagnosis message by its flags.
pub fn diag_message_type(flags: u16) -> (r: &'static str)
    ensures
        r@ == spec_message_type(flags),
{
    match flags {
        0x0000 => "Info",
        0x0001 => "Warning",
        0x0002 => "Error",
        _ => "Unknown",
    }
}

/// The sub-indices of the history to scan, `0x06` up to the returned end
/// (exclusive): the window up to the newest message, at most fifteen, or
/// eight when the newest index does not point into the messages.
pub fn diag_scan_end(newest: u8) -> (r: u8)
    ensures
        r == 6 + (if newest >= 6 {
            if newest - 5 < 15 { newest - 5 } else { 15 }
        } else {
            8
        }),
{
    let window: u8 = if newest >= 0x06 { newest - 0x05 } else { 8 };
    let window = if window < 15 { window } else { 15 };
    0x06 + window
}

/// How often one byte of the history is read before it is given up: mailbox
/// reads can race the cyclic frames in OP.
pub const DIAG_READ_ATTEMPTS: u8 = 3;

/// What to do after a read of a history byte.
#[derive(Debug, Clone, Copy, PartialEq, Eq, Structural)]
pub enum DiagReadStep {
    /// The read gave the byte.
    Value(u8),
    /// The read failed; wait briefly and read again.
    Retry,
    /// The read failed for the last allowed time.
    GiveUp,
}

/// The step after read number `attempt` (from 0) of a history byte gave
/// `read`: a value ends the reading, a failure is retried until
/// [`DIAG_READ_ATTEMPTS`] reads have been made.
pub fn diag_read_step<E>(attempt: u8, read: Result<u8, E>) -> (r: DiagReadStep)
    ensures
        match read {
            Ok(v) => r == DiagReadStep::Value(v),
            Err(_) => if attempt + 1 < DIAG_READ_ATTEMPTS { r == DiagReadStep::Retry } else { r == DiagReadStep::GiveUp },
        },
{
    match read {
        Ok(v) => DiagReadStep::Value(v),
        Err(_) => if attempt < DIAG_READ_ATTEMPTS - 1 { DiagReadStep::Retry } else { DiagReadStep::GiveUp },
    }
}

/// The sub-indices of the history to scan, from `.0` up to `.1`
/// (exclusive): none when the history has no message slots, else `0x06` up
/// to [`diag_scan_end`] of the newest index.
pub fn diag_scan_window(count: u8, newest: u8) -> (r: Option<(u8, u8)>)
    ensures
        count == 0 ==> r is None,
        count != 0 ==> r == Some((6u8, (6 + (if newest >= 6 {
            if newest - 5 < 15 { newest - 5 } else { 15 }
        } else {
            8
        })) as u8)),
{
    if count == 0 {
        None
    } else {
        Some((0x06, diag_scan_end(newest)))
    }
}

} // verus!
