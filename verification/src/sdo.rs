//! CoE service data objects: typed values, their four-byte wire encoding, and
//! the plans of SDO writes that configure a subdevice.
use vstd::prelude::*;

verus! {

/// Index of the sync-manager 3 (inputs) PDO assignment.
pub const TX_PDO_ASSIGNMENT_REG: u16 = 0x1C13;

/// Index of the sync-manager 2 (outputs) PDO assignment.
pub const RX_PDO_ASSIGNMENT_REG: u16 = 0x1C12;

/// The type tag that travels with an SDO request.
#[derive(Debug, Clone, Copy, PartialEq, Eq, Structural)]
pub enum SdoType {
    BOOL,
    U8,
    U16,
    U32,
    I16,
    I32,
}

/// A typed value of a CoE object.
#[derive(Debug, Clone, Copy, PartialEq, Eq, Structural)]
pub enum SdoValue {
    Bool(bool),
    U8(u8),
    U16(u16),
    U32(u32),
    I16(i16),
    I32(i32),
}

/// One write of a value to `index:sub_index` of a subdevice's object dictionary.
#[derive(Debug, Clone, Copy, PartialEq, Eq, Structural)]
pub struct SdoWrite {
    pub index: u16,
    pub sub_index: u8,
    pub value: SdoValue,
}

/// A write request as it is handed to the EtherCAT thread: the value's
/// little-endian bytes, zero padded to four, and its type tag.
#[derive(Debug, Clone, Copy, PartialEq, Eq)]
pub struct SdoRequest {
    pub device_address: u16,
    pub index: u16,
    pub sub_index: u16,
    pub data: [u8; 4],
    pub type_flag: SdoType,
}

/// A read request as it is handed to the EtherCAT thread.
#[derive(Debug, Clone, Copy, PartialEq, Eq, Structural)]
pub struct SdoReadRequest {
    pub device_address: u16,
    pub index: u16,
    pub sub_index: u16,
    pub type_flag: SdoType,
}

/// Errors of the SDO helpers.
#[derive(Debug, Clone, Copy, PartialEq, Eq, Structural)]
pub enum SdoError {
    /// The response carried a value of another type than the one asked for.
    ConversionNotSupported,
    /// The EtherCAT thread reported a failed transfer.
    TransferFailed,
}

/// An SDO read response as the EtherCAT thread sends it back.
#[derive(Debug, Clone, Copy, PartialEq, Eq)]
pub enum SdoResponse {
    Bool(Result<bool, SdoError>),
    U8(Result<u8, SdoError>),
    U16(Result<u16, SdoError>),
    U32(Result<u32, SdoError>),
    I16(Result<i16, SdoError>),
    I32(Result<i32, SdoError>),
}

/// Little-endian bytes of a 16-bit word, zero padded to four.
pub open spec fn spec_le2(v: u16) -> [u8; 4] {
    [(v % 256) as u8, (v / 256) as u8, 0, 0]
}

/// Little-endian bytes of a 32-bit word.
pub open spec fn spec_le4(v: u32) -> [u8; 4] {
    [(v % 256) as u8, ((v / 256) % 256) as u8, ((v / 65536) % 256) as u8, (v / 16777216) as u8]
}

/// The 16-bit word of two little-endian bytes.
pub open spec fn spec_from_le2(b: [u8; 4]) -> u16 {
    (b[0] as int + 256 * b[1] as int) as u16
}

/// The 32-bit word of four little-endian bytes.
pub open spec fn spec_from_le4(b: [u8; 4]) -> u32 {
    (b[0] as int + 256 * b[1] as int + 65536 * b[2] as int + 16777216 * b[3] as int) as u32
}

/// Two's complement reading of a 16-bit word.
pub open spec fn spec_i16_of(v: u16) -> i16 {
    (if v < 0x8000 { v as int } else { v as int - 0x10000 }) as i16
}

/// Two's complement reading of a 32-bit word.
pub open spec fn spec_i32_of(v: u32) -> i32 {
    (if v < 0x8000_0000 { v as int } else { v as int - 0x1_0000_0000 }) as i32
}

/// The 16-bit word that holds a signed value in two's complement.
pub open spec fn spec_u16_of(v: i16) -> u16 {
    (if v >= 0 { v as int } else { v as int + 0x10000 }) as u16
}

/// The 32-bit word that holds a signed value in two's complement.
pub open spec fn spec_u32_of(v: i32) -> u32 {
    (if v >= 0 { v as int } else { v as int + 0x1_0000_0000 }) as u32
}

fn le2(v: u16) -> (r: [u8; 4])
    ensures
        r == spec_le2(v),
{
    [(v % 256) as u8, (v / 256) as u8, 0, 0]
}

fn le4(v: u32) -> (r: [u8; 4])
    ensures
        r == spec_le4(v),
{
    [(v % 256) as u8, ((v / 256) % 256) as u8, ((v / 65536) % 256) as u8, (v / 16777216) as u8]
}

fn from_le2(b: [u8; 4]) -> (r: u16)
    ensures
        r == spec_from_le2(b),
{
    b[0] as u16 + 256 * (b[1] as u16)
}

fn from_le4(b: [u8; 4]) -> (r: u32)
    ensures
        r == spec_from_le4(b),
{
    b[0] as u32 + 256 * (b[1] as u32) + 65536 * (b[2] as u32) + 16777216 * (b[3] as u32)
}

fn i16_to_u16(v: i16) -> (r: u16)
    ensures
        r == spec_u16_of(v),
{
    let r = v as u16;
    assert(r == (if v >= 0 { v as int } else { v as int + 0x10000 })) by (bit_vector)
        requires
            r == v as u16,
    ;
    r
}

fn u16_to_i16(v: u16) -> (r: i16)
    ensures
        r == spec_i16_of(v),
{
    let r = v as i16;
    assert(r == (if v < 0x8000 { v as int } else { v as int - 0x10000 })) by (bit_vector)
        requires
            r == v as i16,
    ;
    r
}

fn i32_to_u32(v: i32) -> (r: u32)
    ensures
        r == spec_u32_of(v),
{
    let r = v as u32;
    assert(r == (if v >= 0 { v as int } else { v as int + 0x1_0000_0000 })) by (bit_vector)
        requires
            r == v as u32,
    ;
    r
}

fn u32_to_i32(v: u32) -> (r: i32)
    ensures
        r == spec_i32_of(v),
{
    let r = v as i32;
    assert(r == (if v < 0x8000_0000 { v as int } else { v as int - 0x1_0000_0000 }))
        by (bit_vector)
        requires
            r == v as i32,
    ;
    r
}

/// Decoding the encoding of a 16-bit word gives the word back.
pub proof fn lemma_le2_roundtrip(v: u16)
    ensures
        spec_from_le2(spec_le2(v)) == v,
{
}

/// Decoding the encoding of a 32-bit word gives the word back.
pub proof fn lemma_le4_roundtrip(v: u32)
    ensures
        spec_from_le4(spec_le4(v)) == v,
{
    let b0 = v % 256;
    let b1 = (v / 256) % 256;
    let b2 = (v / 65536) % 256;
    let b3 = v / 16777216;
    assert(b0 + 256 * b1 + 65536 * b2 + 16777216 * b3 == v) by (nonlinear_arith)
        requires
            b0 == v % 256,
            b1 == (v / 256) % 256,
            b2 == (v / 65536) % 256,
            b3 == v / 16777216,
            0 <= v,
    {
        assert(v == 256 * (v / 256) + v % 256);
        assert(v / 256 == 256 * ((v / 256) / 256) + (v / 256) % 256);
        assert((v / 256) / 256 == v / 65536);
        assert(v / 65536 == 256 * ((v / 65536) / 256) + (v / 65536) % 256);
        assert((v / 65536) / 256 == v / 16777216);
    }
}

/// Conversion between a value and its CoE wire bytes.
pub trait EthercatSdoBytes: Sized {
    /// The number of bytes that the value occupies on the wire.
    spec fn spec_size() -> nat;

    /// The value's little-endian bytes, zero padded to four.
    spec fn spec_to_bytes(&self) -> [u8; 4];

    /// The value that four wire bytes stand for.
    spec fn spec_from_bytes(bytes: [u8; 4]) -> Self;

    /// The type tag of the value.
    spec fn spec_sdo_type() -> SdoType;

    fn size(&self) -> (r: usize)
        ensures
            r == Self::spec_size(),
    ;

    fn to_bytes(&self) -> (r: [u8; 4])
        ensures
            r == self.spec_to_bytes(),
    ;

    fn from_bytes(bytes: [u8; 4]) -> (r: Self)
        ensures
            r == Self::spec_from_bytes(bytes),
    ;

    fn sdo_type() -> (r: SdoType)
        ensures
            r == Self::spec_sdo_type(),
    ;
}

impl EthercatSdoBytes for u8 {
    open spec fn spec_size() -> nat {
        1
    }

    open spec fn spec_to_bytes(&self) -> [u8; 4] {
        [*self, 0, 0, 0]
    }

    open spec fn spec_from_bytes(bytes: [u8; 4]) -> u8 {
        bytes[0]
    }

    open spec fn spec_sdo_type() -> SdoType {
        SdoType::U8
    }

    fn size(&self) -> (r: usize) {
        1
    }

    fn to_bytes(&self) -> (r: [u8; 4]) {
        [*self, 0, 0, 0]
    }

    fn from_bytes(bytes: [u8; 4]) -> (r: u8) {
        bytes[0]
    }

    fn sdo_type() -> (r: SdoType) {
        SdoType::U8
    }
}

impl EthercatSdoBytes for u16 {
    open spec fn spec_size() -> nat {
        2
    }

    open spec fn spec_to_bytes(&self) -> [u8; 4] {
        spec_le2(*self)
    }

    open spec fn spec_from_bytes(bytes: [u8; 4]) -> u16 {
        spec_from_le2(bytes)
    }

    open spec fn spec_sdo_type() -> SdoType {
        SdoType::U16
    }

    fn size(&self) -> (r: usize) {
        2
    }

    fn to_bytes(&self) -> (r: [u8; 4]) {
        le2(*self)
    }

    fn from_bytes(bytes: [u8; 4]) -> (r: u16) {
        from_le2(bytes)
    }

    fn sdo_type() -> (r: SdoType) {
        SdoType::U16
    }
}

impl EthercatSdoBytes for i16 {
    open spec fn spec_size() -> nat {
        2
    }

    open spec fn spec_to_bytes(&self) -> [u8; 4] {
        spec_le2(spec_u16_of(*self))
    }

    open spec fn spec_from_bytes(bytes: [u8; 4]) -> i16 {
        spec_i16_of(spec_from_le2(bytes))
    }

    open spec fn spec_sdo_type() -> SdoType {
        SdoType::I16
    }

    fn size(&self) -> (r: usize) {
        2
    }

    fn to_bytes(&self) -> (r: [u8; 4]) {
        le2(i16_to_u16(*self))
    }

    fn from_bytes(bytes: [u8; 4]) -> (r: i16) {
        u16_to_i16(from_le2(bytes))
    }

    fn sdo_type() -> (r: SdoType) {
        SdoType::I16
    }
}

impl EthercatSdoBytes for u32 {
    open spec fn spec_size() -> nat {
        4
    }

    open spec fn spec_to_bytes(&self) -> [u8; 4] {
        spec_le4(*self)
    }

    open spec fn spec_from_bytes(bytes: [u8; 4]) -> u32 {
        spec_from_le4(bytes)
    }

    open spec fn spec_sdo_type() -> SdoType {
        SdoType::U32
    }

    fn size(&self) -> (r: usize) {
        4
    }

    fn to_bytes(&self) -> (r: [u8; 4]) {
        le4(*self)
    }

    fn from_bytes(bytes: [u8; 4]) -> (r: u32) {
        from_le4(bytes)
    }

    fn sdo_type() -> (r: SdoType) {
        SdoType::U32
    }
}

impl EthercatSdoBytes for i32 {
    open spec fn spec_size() -> nat {
        4
    }

    open spec fn spec_to_bytes(&self) -> [u8; 4] {
        spec_le4(spec_u32_of(*self))
    }

    open spec fn spec_from_bytes(bytes: [u8; 4]) -> i32 {
        spec_i32_of(spec_from_le4(bytes))
    }

    open spec fn spec_sdo_type() -> SdoType {
        SdoType::I32
    }

    fn size(&self) -> (r: usize) {
        4
    }

    fn to_bytes(&self) -> (r: [u8; 4]) {
        le4(i32_to_u32(*self))
    }

    fn from_bytes(bytes: [u8; 4]) -> (r: i32) {
        u32_to_i32(from_le4(bytes))
    }

    fn sdo_type() -> (r: SdoType) {
        SdoType::I32
    }
}

impl EthercatSdoBytes for bool {
    open spec fn spec_size() -> nat {
        1
    }

    open spec fn spec_to_bytes(&self) -> [u8; 4] {
        [if *self { 1 } else { 0 }, 0, 0, 0]
    }

    open spec fn spec_from_bytes(bytes: [u8; 4]) -> bool {
        bytes[0] != 0
    }

    open spec fn spec_sdo_type() -> SdoType {
        SdoType::BOOL
    }

    fn size(&self) -> (r: usize) {
        1
    }

    fn to_bytes(&self) -> (r: [u8; 4]) {
        [if *self { 1 } else { 0 }, 0, 0, 0]
    }

    fn from_bytes(bytes: [u8; 4]) -> (r: bool) {
        bytes[0] != 0
    }

    fn sdo_type() -> (r: SdoType) {
        SdoType::BOOL
    }
}

/// The type tag that an SDO request for values of type `T` carries.
pub fn type_id_to_sdo_type<T: EthercatSdoBytes>() -> (r: Result<SdoType, SdoError>)
    ensures
        r == Ok::<SdoType, SdoError>(T::spec_sdo_type()),
{
    Ok(T::sdo_type())
}

/// Decoding the wire bytes of any value gives the value back.
pub proof fn lemma_sdo_bytes_roundtrip_u16(v: u16)
    ensures
        <u16 as EthercatSdoBytes>::spec_from_bytes(v.spec_to_bytes()) == v,
{
}

/// Decoding the wire bytes of any value gives the value back.
pub proof fn lemma_sdo_bytes_roundtrip_u32(v: u32)
    ensures
        <u32 as EthercatSdoBytes>::spec_from_bytes(v.spec_to_bytes()) == v,
{
    lemma_le4_roundtrip(v);
}

/// Decoding the wire bytes of any value gives the value back.
pub proof fn lemma_sdo_bytes_roundtrip_i16(v: i16)
    ensures
        <i16 as EthercatSdoBytes>::spec_from_bytes(v.spec_to_bytes()) == v,
{
    lemma_le2_roundtrip(spec_u16_of(v));
}

/// Decoding the wire bytes of any value gives the value back.
pub proof fn lemma_sdo_bytes_roundtrip_i32(v: i32)
    ensures
        <i32 as EthercatSdoBytes>::spec_from_bytes(v.spec_to_bytes()) == v,
{
    lemma_le4_roundtrip(spec_u32_of(v));
}

/// Decoding the wire bytes of any value gives the value back.
pub proof fn lemma_sdo_bytes_roundtrip_small(v: u8, b: bool)
    ensures
        <u8 as EthercatSdoBytes>::spec_from_bytes(v.spec_to_bytes()) == v,
        <bool as EthercatSdoBytes>::spec_from_bytes(b.spec_to_bytes()) == b,
{
}

/// The type tag of a value.
pub open spec fn spec_value_type(v: SdoValue) -> SdoType {
    match v {
        SdoValue::Bool(_) => SdoType::BOOL,
        SdoValue::U8(_) => SdoType::U8,
        SdoValue::U16(_) => SdoType::U16,
        SdoValue::U32(_) => SdoType::U32,
        SdoValue::I16(_) => SdoType::I16,
        SdoValue::I32(_) => SdoType::I32,
    }
}

/// The wire bytes of a value.
pub open spec fn spec_value_bytes(v: SdoValue) -> [u8; 4] {
    match v {
        SdoValue::Bool(b) => b.spec_to_bytes(),
        SdoValue::U8(x) => x.spec_to_bytes(),
        SdoValue::U16(x) => x.spec_to_bytes(),
        SdoValue::U32(x) => x.spec_to_bytes(),
        SdoValue::I16(x) => x.spec_to_bytes(),
        SdoValue::I32(x) => x.spec_to_bytes(),
    }
}

/// The value that a write request stands for, read back from its bytes by its
/// type tag. A boolean is true exactly when its byte is `1`.
pub open spec fn spec_decode_request(data: [u8; 4], type_flag: SdoType) -> SdoValue {
    match type_flag {
        SdoType::U8 => SdoValue::U8(data[0]),
        SdoType::U16 => SdoValue::U16(spec_from_le2(data)),
        SdoType::U32 => SdoValue::U32(spec_from_le4(data)),
        SdoType::I16 => SdoValue::I16(spec_i16_of(spec_from_le2(data))),
        SdoType::I32 => SdoValue::I32(spec_i32_of(spec_from_le4(data))),
        SdoType::BOOL => SdoValue::Bool(data[0] == 1),
    }
}

impl SdoValue {
    /// The wire bytes of the value.
    pub fn to_bytes(&self) -> (r: [u8; 4])
        ensures
            r == spec_value_bytes(*self),
    {
        match self {
            SdoValue::Bool(b) => b.to_bytes(),
            SdoValue::U8(x) => x.to_bytes(),
            SdoValue::U16(x) => x.to_bytes(),
            SdoValue::U32(x) => x.to_bytes(),
            SdoValue::I16(x) => x.to_bytes(),
            SdoValue::I32(x) => x.to_bytes(),
        }
    }

    /// The type tag of the value.
    pub fn sdo_type(&self) -> (r: SdoType)
        ensures
            r == spec_value_type(*self),
    {
        match self {
            SdoValue::Bool(_) => SdoType::BOOL,
            SdoValue::U8(_) => SdoType::U8,
            SdoValue::U16(_) => SdoType::U16,
            SdoValue::U32(_) => SdoType::U32,
            SdoValue::I16(_) => SdoType::I16,
            SdoValue::I32(_) => SdoType::I32,
        }
    }
}

/// The request that asks the EtherCAT thread to perform one write on the
/// subdevice at `device_address`.
pub fn sdo_write_request(device_address: u16, write: SdoWrite) -> (r: SdoRequest)
    ensures
        r.device_address == device_address,
        r.index == write.index,
        r.sub_index == write.sub_index as u16,
        r.data == spec_value_bytes(write.value),
        r.type_flag == spec_value_type(write.value),
{
    SdoRequest {
        device_address,
        index: write.index,
        sub_index: write.sub_index as u16,
        data: write.value.to_bytes(),
        type_flag: write.value.sdo_type(),
    }
}

/// The typed value that the EtherCAT thread writes for a request.
pub fn decode_sdo_request(request: &SdoRequest) -> (r: SdoValue)
    ensures
        r == spec_decode_request(request.data, request.type_flag),
{
    let data = request.data;
    match request.type_flag {
        SdoType::U8 => SdoValue::U8(data[0]),
        SdoType::U16 => SdoValue::U16(from_le2(data)),
        SdoType::U32 => SdoValue::U32(from_le4(data)),
        SdoType::I16 => SdoValue::I16(u16_to_i16(from_le2(data))),
        SdoType::I32 => SdoValue::I32(u32_to_i32(from_le4(data))),
        SdoType::BOOL => SdoValue::Bool(data[0] == 1),
    }
}

/// Whatever value is written, the EtherCAT thread decodes exactly that value
/// from the request.
pub proof fn lemma_request_roundtrip(v: SdoValue)
    ensures
        spec_decode_request(spec_value_bytes(v), spec_value_type(v)) == v,
{
    match v {
        SdoValue::U32(x) => lemma_le4_roundtrip(x),
        SdoValue::I16(x) => lemma_le2_roundtrip(spec_u16_of(x)),
        SdoValue::I32(x) => lemma_le4_roundtrip(spec_u32_of(x)),
        _ => {},
    }
}

/// Code word that, written to [`BECKHOFF_CODEWORD_INDEX`], stops SDO writes
/// from being persisted to a Beckhoff terminal's EEPROM.
pub const BECKHOFF_EEPROM_LOCK_CODEWORD: u32 = 0x12345678;

/// Object index that Beckhoff terminals accept code words at.
pub const BECKHOFF_CODEWORD_INDEX: u16 = 0xF008;

/// The write that activates the EEPROM lock.
pub open spec fn spec_eeprom_lock_write() -> SdoWrite {
    SdoWrite {
        index: BECKHOFF_CODEWORD_INDEX,
        sub_index: 0,
        value: SdoValue::U32(BECKHOFF_EEPROM_LOCK_CODEWORD),
    }
}

/// Decides, from the result of reading the code word, what write activates the
/// EEPROM lock of a Beckhoff terminal.
///
/// A failed read means the subdevice has no mailbox and hence no EEPROM to
/// protect, so nothing is written; a lock already in place is left alone.
pub fn eeprom_lock_write(code_word: Result<u32, SdoError>) -> (r: Option<SdoWrite>)
    ensures
        r == match code_word {
            Ok(c) => if c == BECKHOFF_EEPROM_LOCK_CODEWORD {
                None
            } else {
                Some(spec_eeprom_lock_write())
            },
            Err(_) => None,
        },
{
    let code_word = match code_word {
        Ok(code_word) => code_word,
        Err(_) => return None,
    };
    if code_word != BECKHOFF_EEPROM_LOCK_CODEWORD {
        Some(SdoWrite {
            index: BECKHOFF_CODEWORD_INDEX,
            sub_index: 0,
            value: SdoValue::U32(BECKHOFF_EEPROM_LOCK_CODEWORD),
        })
    } else {
        None
    }
}

/// One entry of a PDO mapping object.
#[derive(Debug, Clone, Copy, PartialEq, Eq, Structural)]
pub struct PdoMapping {
    pub object_index: u16,
    pub sub_index: u8,
    pub bit_length: u8,
}

/// The packed mapping entry: object index, sub-index and bit length from the
/// most to the least significant bytes.
pub open spec fn spec_mapping_word(object_index: u16, sub_index: u8, bit_length: u8) -> u32 {
    (object_index as int * 65536 + sub_index as int * 256 + bit_length as int) as u32
}

impl PdoMapping {
    /// The packed mapping entry as written to the mapping object.
    pub fn to_u32(self) -> (r: u32)
        ensures
            r == spec_mapping_word(self.object_index, self.sub_index, self.bit_length),
    {
        (self.object_index as u32) * 65536 + (self.sub_index as u32) * 256 + (self.bit_length as u32)
    }
}

/// Writes that replace the list at `index`: the entry count is cleared, the
/// entries are written to sub-indices `1..`, then the count is set.
pub open spec fn spec_list_plan(index: u16, entries: Seq<SdoValue>) -> Seq<SdoWrite> {
    seq![SdoWrite { index, sub_index: 0, value: SdoValue::U8(0) }]
        + Seq::new(
        entries.len(),
        |i: int| SdoWrite { index, sub_index: (i + 1) as u8, value: entries[i] },
    ) + seq![SdoWrite { index, sub_index: 0, value: SdoValue::U8(entries.len() as u8) }]
}

fn list_plan(index: u16, entries: &Vec<SdoValue>) -> (r: Vec<SdoWrite>)
    ensures
        r@ == spec_list_plan(index, entries@),
{
    let mut plan: Vec<SdoWrite> = Vec::new();
    plan.push(SdoWrite { index, sub_index: 0, value: SdoValue::U8(0) });
    let n = entries.len();
    let mut i: usize = 0;
    while i < n
        invariant
            n == entries@.len(),
            i <= n,
            plan@ == seq![SdoWrite { index, sub_index: 0, value: SdoValue::U8(0) }] + Seq::new(
                i as nat,
                |k: int| SdoWrite { index, sub_index: (k + 1) as u8, value: entries@[k] },
            ),
        decreases n - i,
    {
        plan.push(SdoWrite { index, sub_index: ((i + 1) % 256) as u8, value: entries[i] });
        proof {
            assert(((i + 1) % 256) as u8 == (i + 1) as u8) by (bit_vector);
        }
        i = i + 1;
        assert(plan@ =~= seq![SdoWrite { index, sub_index: 0, value: SdoValue::U8(0) }] + Seq::new(
            i as nat,
            |k: int| SdoWrite { index, sub_index: (k + 1) as u8, value: entries@[k] },
        ));
    }
    plan.push(SdoWrite { index, sub_index: 0, value: SdoValue::U8((n % 256) as u8) });
    proof {
        assert((n % 256) as u8 == n as u8) by (bit_vector);
    }
    assert(plan@ =~= spec_list_plan(index, entries@));
    plan
}

/// The writes that configure the PDO mapping object `pdo_index` with `entries`.
pub fn write_pdo_mapping(pdo_index: u16, entries: &[PdoMapping]) -> (r: Vec<SdoWrite>)
    ensures
        r@ == spec_list_plan(
            pdo_index,
            entries@.map_values(
                |m: PdoMapping| SdoValue::U32(spec_mapping_word(m.object_index, m.sub_index, m.bit_length)),
            ),
        ),
{
    let mut values: Vec<SdoValue> = Vec::new();
    let n = entries.len();
    let mut i: usize = 0;
    while i < n
        invariant
            n == entries@.len(),
            i <= n,
            values@ =~= entries@.take(i as int).map_values(
                |m: PdoMapping| SdoValue::U32(spec_mapping_word(m.object_index, m.sub_index, m.bit_length)),
            ),
        decreases n - i,
    {
        values.push(SdoValue::U32(entries[i].to_u32()));
        i = i + 1;
        assert(values@ =~= entries@.take(i as int).map_values(
            |m: PdoMapping| SdoValue::U32(spec_mapping_word(m.object_index, m.sub_index, m.bit_length)),
        ));
    }
    assert(entries@.take(n as int) =~= entries@);
    list_plan(pdo_index, &values)
}

/// The writes that assign the PDO objects `pdo_indices` to the sync manager
/// whose assignment object is `assign_index`.
pub fn assign_pdos(assign_index: u16, pdo_indices: &[u16]) -> (r: Vec<SdoWrite>)
    ensures
        r@ == spec_list_plan(assign_index, pdo_indices@.map_values(|p: u16| SdoValue::U16(p))),
{
    let mut values: Vec<SdoValue> = Vec::new();
    let n = pdo_indices.len();
    let mut i: usize = 0;
    while i < n
        invariant
            n == pdo_indices@.len(),
            i <= n,
            values@ =~= pdo_indices@.take(i as int).map_values(|p: u16| SdoValue::U16(p)),
        decreases n - i,
    {
        values.push(SdoValue::U16(pdo_indices[i]));
        i = i + 1;
        assert(values@ =~= pdo_indices@.take(i as int).map_values(|p: u16| SdoValue::U16(p)));
    }
    assert(pdo_indices@.take(n as int) =~= pdo_indices@);
    list_plan(assign_index, &values)
}


/// How a reply value of each SDO type becomes a value of the type asked for.
///
/// Each integer type and `bool` takes the reply of its own type and refuses
/// every other one.
pub trait EthercatResponseTypedResult: Sized {
    /// The value that a typed reply stands for, or `None` when it is of
    /// another type.
    spec fn spec_from_value(v: SdoValue) -> Option<Self>;

    fn from_bool(v: bool) -> (r: Result<Self, SdoError>)
        ensures
            r == spec_typed(Self::spec_from_value(SdoValue::Bool(v))),
    ;

    fn from_u8(v: u8) -> (r: Result<Self, SdoError>)
        ensures
            r == spec_typed(Self::spec_from_value(SdoValue::U8(v))),
    ;

    fn from_u16(v: u16) -> (r: Result<Self, SdoError>)
        ensures
            r == spec_typed(Self::spec_from_value(SdoValue::U16(v))),
    ;

    fn from_i16(v: i16) -> (r: Result<Self, SdoError>)
        ensures
            r == spec_typed(Self::spec_from_value(SdoValue::I16(v))),
    ;

    fn from_u32(v: u32) -> (r: Result<Self, SdoError>)
        ensures
            r == spec_typed(Self::spec_from_value(SdoValue::U32(v))),
    ;

    fn from_i32(v: i32) -> (r: Result<Self, SdoError>)
        ensures
            r == spec_typed(Self::spec_from_value(SdoValue::I32(v))),
    ;
}

/// A converted value, or the refusal of a reply of another type.
pub open spec fn spec_typed<T>(v: Option<T>) -> Result<T, SdoError> {
    match v {
        Some(x) => Ok(x),
        None => Err(SdoError::ConversionNotSupported),
    }
}

impl EthercatResponseTypedResult for bool {
    open spec fn spec_from_value(v: SdoValue) -> Option<bool> {
        match v {
            SdoValue::Bool(b) => Some(b),
            _ => None,
        }
    }

    fn from_bool(v: bool) -> (r: Result<bool, SdoError>) {
        Ok(v)
    }

    fn from_u8(v: u8) -> (r: Result<bool, SdoError>) {
        Err(SdoError::ConversionNotSupported)
    }

    fn from_u16(v: u16) -> (r: Result<bool, SdoError>) {
        Err(SdoError::ConversionNotSupported)
    }

    fn from_i16(v: i16) -> (r: Result<bool, SdoError>) {
        Err(SdoError::ConversionNotSupported)
    }

    fn from_u32(v: u32) -> (r: Result<bool, SdoError>) {
        Err(SdoError::ConversionNotSupported)
    }

    fn from_i32(v: i32) -> (r: Result<bool, SdoError>) {
        Err(SdoError::ConversionNotSupported)
    }
}

impl EthercatResponseTypedResult for u8 {
    open spec fn spec_from_value(v: SdoValue) -> Option<u8> {
        match v {
            SdoValue::U8(x) => Some(x),
            _ => None,
        }
    }

    fn from_bool(v: bool) -> (r: Result<u8, SdoError>) {
        Err(SdoError::ConversionNotSupported)
    }

    fn from_u8(v: u8) -> (r: Result<u8, SdoError>) {
        Ok(v)
    }

    fn from_u16(v: u16) -> (r: Result<u8, SdoError>) {
        Err(SdoError::ConversionNotSupported)
    }

    fn from_i16(v: i16) -> (r: Result<u8, SdoError>) {
        Err(SdoError::ConversionNotSupported)
    }

    fn from_u32(v: u32) -> (r: Result<u8, SdoError>) {
        Err(SdoError::ConversionNotSupported)
    }

    fn from_i32(v: i32) -> (r: Result<u8, SdoError>) {
        Err(SdoError::ConversionNotSupported)
    }
}

impl EthercatResponseTypedResult for u16 {
    open spec fn spec_from_value(v: SdoValue) -> Option<u16> {
        match v {
            SdoValue::U16(x) => Some(x),
            _ => None,
        }
    }

    fn from_bool(v: bool) -> (r: Result<u16, SdoError>) {
        Err(SdoError::ConversionNotSupported)
    }

    fn from_u8(v: u8) -> (r: Result<u16, SdoError>) {
        Err(SdoError::ConversionNotSupported)
    }

    fn from_u16(v: u16) -> (r: Result<u16, SdoError>) {
        Ok(v)
    }

    fn from_i16(v: i16) -> (r: Result<u16, SdoError>) {
        Err(SdoError::ConversionNotSupported)
    }

    fn from_u32(v: u32) -> (r: Result<u16, SdoError>) {
        Err(SdoError::ConversionNotSupported)
    }

    fn from_i32(v: i32) -> (r: Result<u16, SdoError>) {
        Err(SdoError::ConversionNotSupported)
    }
}

impl EthercatResponseTypedResult for i16 {
    open spec fn spec_from_value(v: SdoValue) -> Option<i16> {
        match v {
            SdoValue::I16(x) => Some(x),
            _ => None,
        }
    }

    fn from_bool(v: bool) -> (r: Result<i16, SdoError>) {
        Err(SdoError::ConversionNotSupported)
    }

    fn from_u8(v: u8) -> (r: Result<i16, SdoError>) {
        Err(SdoError::ConversionNotSupported)
    }

    fn from_u16(v: u16) -> (r: Result<i16, SdoError>) {
        Err(SdoError::ConversionNotSupported)
    }

    fn from_i16(v: i16) -> (r: Result<i16, SdoError>) {
        Ok(v)
    }

    fn from_u32(v: u32) -> (r: Result<i16, SdoError>) {
        Err(SdoError::ConversionNotSupported)
    }

    fn from_i32(v: i32) -> (r: Result<i16, SdoError>) {
        Err(SdoError::ConversionNotSupported)
    }
}

impl EthercatResponseTypedResult for u32 {
    open spec fn spec_from_value(v: SdoValue) -> Option<u32> {
        match v {
            SdoValue::U32(x) => Some(x),
            _ => None,
        }
    }

    fn from_bool(v: bool) -> (r: Result<u32, SdoError>) {
        Err(SdoError::ConversionNotSupported)
    }

    fn from_u8(v: u8) -> (r: Result<u32, SdoError>) {
        Err(SdoError::ConversionNotSupported)
    }

    fn from_u16(v: u16) -> (r: Result<u32, SdoError>) {
        Err(SdoError::ConversionNotSupported)
    }

    fn from_i16(v: i16) -> (r: Result<u32, SdoError>) {
        Err(SdoError::ConversionNotSupported)
    }

    fn from_u32(v: u32) -> (r: Result<u32, SdoError>) {
        Ok(v)
    }

    fn from_i32(v: i32) -> (r: Result<u32, SdoError>) {
        Err(SdoError::ConversionNotSupported)
    }
}

impl EthercatResponseTypedResult for i32 {
    open spec fn spec_from_value(v: SdoValue) -> Option<i32> {
        match v {
            SdoValue::I32(x) => Some(x),
            _ => None,
        }
    }

    fn from_bool(v: bool) -> (r: Result<i32, SdoError>) {
        Err(SdoError::ConversionNotSupported)
    }

    fn from_u8(v: u8) -> (r: Result<i32, SdoError>) {
        Err(SdoError::ConversionNotSupported)
    }

    fn from_u16(v: u16) -> (r: Result<i32, SdoError>) {
        Err(SdoError::ConversionNotSupported)
    }

    fn from_i16(v: i16) -> (r: Result<i32, SdoError>) {
        Err(SdoError::ConversionNotSupported)
    }

    fn from_u32(v: u32) -> (r: Result<i32, SdoError>) {
        Err(SdoError::ConversionNotSupported)
    }

    fn from_i32(v: i32) -> (r: Result<i32, SdoError>) {
        Ok(v)
    }
}

/// The value of type `T` that an SDO read reply gives: a failed transfer
/// passes its error on, and a reply of another type than `T` is refused.
pub open spec fn spec_typed_response<T: EthercatResponseTypedResult>(response: SdoResponse) -> Result<T, SdoError> {
    match response {
        SdoResponse::Bool(r) => match r { Ok(v) => spec_typed(T::spec_from_value(SdoValue::Bool(v))), Err(e) => Err(e) },
        SdoResponse::U8(r) => match r { Ok(v) => spec_typed(T::spec_from_value(SdoValue::U8(v))), Err(e) => Err(e) },
        SdoResponse::U16(r) => match r { Ok(v) => spec_typed(T::spec_from_value(SdoValue::U16(v))), Err(e) => Err(e) },
        SdoResponse::U32(r) => match r { Ok(v) => spec_typed(T::spec_from_value(SdoValue::U32(v))), Err(e) => Err(e) },
        SdoResponse::I16(r) => match r { Ok(v) => spec_typed(T::spec_from_value(SdoValue::I16(v))), Err(e) => Err(e) },
        SdoResponse::I32(r) => match r { Ok(v) => spec_typed(T::spec_from_value(SdoValue::I32(v))), Err(e) => Err(e) },
    }
}

/// The reply to a read that found the value `v`.
pub open spec fn spec_reply(v: SdoValue) -> SdoResponse {
    match v {
        SdoValue::Bool(b) => SdoResponse::Bool(Ok(b)),
        SdoValue::U8(x) => SdoResponse::U8(Ok(x)),
        SdoValue::U16(x) => SdoResponse::U16(Ok(x)),
        SdoValue::U32(x) => SdoResponse::U32(Ok(x)),
        SdoValue::I16(x) => SdoResponse::I16(Ok(x)),
        SdoValue::I32(x) => SdoResponse::I32(Ok(x)),
    }
}

/// A typed read takes a reply of its own type and gives the value found;
/// a reply of any other type is refused as an unsupported conversion.
pub proof fn lemma_typed_read_takes_its_own_type(v: SdoValue)
    ensures
        spec_typed_response::<bool>(spec_reply(v)) == (match v {
            SdoValue::Bool(b) => Ok(b),
            _ => Err(SdoError::ConversionNotSupported),
        }),
        spec_typed_response::<u8>(spec_reply(v)) == (match v {
            SdoValue::U8(x) => Ok(x),
            _ => Err(SdoError::ConversionNotSupported),
        }),
        spec_typed_response::<u16>(spec_reply(v)) == (match v {
            SdoValue::U16(x) => Ok(x),
            _ => Err(SdoError::ConversionNotSupported),
        }),
        spec_typed_response::<u32>(spec_reply(v)) == (match v {
            SdoValue::U32(x) => Ok(x),
            _ => Err(SdoError::ConversionNotSupported),
        }),
        spec_typed_response::<i16>(spec_reply(v)) == (match v {
            SdoValue::I16(x) => Ok(x),
            _ => Err(SdoError::ConversionNotSupported),
        }),
        spec_typed_response::<i32>(spec_reply(v)) == (match v {
            SdoValue::I32(x) => Ok(x),
            _ => Err(SdoError::ConversionNotSupported),
        }),
{
}

/// The value of type `T` that an SDO read reply gives.
pub fn typed_sdo_response<T: EthercatResponseTypedResult>(response: SdoResponse) -> (r: Result<T, SdoError>)
    ensures
        r == spec_typed_response::<T>(response),
{
    match response {
        SdoResponse::Bool(r) => match r { Ok(v) => T::from_bool(v), Err(e) => Err(e) },
        SdoResponse::U8(r) => match r { Ok(v) => T::from_u8(v), Err(e) => Err(e) },
        SdoResponse::U16(r) => match r { Ok(v) => T::from_u16(v), Err(e) => Err(e) },
        SdoResponse::U32(r) => match r { Ok(v) => T::from_u32(v), Err(e) => Err(e) },
        SdoResponse::I16(r) => match r { Ok(v) => T::from_i16(v), Err(e) => Err(e) },
        SdoResponse::I32(r) => match r { Ok(v) => T::from_i32(v), Err(e) => Err(e) },
    }
}

/// Whether the status word at `offset` of an input image shows the expected
/// bits under `mask`; an image too short to hold it never does.
pub open spec fn spec_status_reached(raw: Seq<u8>, offset: int, expected: u16, mask: u16) -> bool {
    offset + 2 <= raw.len() && ((raw[offset] as int + 256 * raw[offset + 1] as int) as u16 & mask) == expected
}

/// Whether the status word at byte `offset` of `raw`, little-endian, shows
/// `expected` under `mask`.
pub fn status_reached(raw: &[u8], offset: usize, expected: u16, mask: u16) -> (r: bool)
    ensures
        r == spec_status_reached(raw@, offset as int, expected, mask),
{
    if offset > raw.len() || raw.len() - offset < 2 {
        return false;
    }
    let status: u16 = raw[offset] as u16 + 256 * (raw[offset + 1] as u16);
    (status & mask) == expected
}

} // verus!
