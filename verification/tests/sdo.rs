use ethercat_hal::sdo::{
    assign_pdos, decode_sdo_request, sdo_write_request, eeprom_lock_write,
    status_reached, typed_sdo_response, type_id_to_sdo_type, write_pdo_mapping, EthercatSdoBytes,
    PdoMapping, SdoError, SdoResponse, SdoType, SdoValue, SdoWrite, BECKHOFF_CODEWORD_INDEX,
    BECKHOFF_EEPROM_LOCK_CODEWORD,
};

#[test]
fn replies_convert_only_to_their_own_type() {
    assert_eq!(typed_sdo_response::<u16>(SdoResponse::U16(Ok(0xBEEF))), Ok(0xBEEF));
    assert_eq!(
        typed_sdo_response::<u16>(SdoResponse::U32(Ok(1))),
        Err(SdoError::ConversionNotSupported)
    );
    assert_eq!(typed_sdo_response::<bool>(SdoResponse::Bool(Ok(true))), Ok(true));
    assert_eq!(typed_sdo_response::<i32>(SdoResponse::I32(Ok(-5))), Ok(-5));
    assert_eq!(
        typed_sdo_response::<u8>(SdoResponse::U8(Err(SdoError::TransferFailed))),
        Err(SdoError::TransferFailed)
    );
}

#[test]
fn wire_bytes_are_little_endian() {
    assert_eq!(0x1234u16.to_bytes(), [0x34, 0x12, 0, 0]);
    assert_eq!((-2i16).to_bytes(), [0xFE, 0xFF, 0, 0]);
    assert_eq!(0x1122_3344u32.to_bytes(), [0x44, 0x33, 0x22, 0x11]);
    assert_eq!(<i32 as EthercatSdoBytes>::from_bytes([0xFF, 0xFF, 0xFF, 0xFF]), -1);
    assert_eq!(true.size(), 1);
    assert_eq!(5u32.size(), 4);
    assert_eq!(type_id_to_sdo_type::<i16>(), Ok(SdoType::I16));
}

#[test]
fn write_requests_decode_to_the_written_value() {
    let write = SdoWrite {
        index: 0x8010,
        sub_index: 1,
        value: SdoValue::I16(-300),
    };
    let request = sdo_write_request(0x1001, write);
    assert_eq!(request.device_address, 0x1001);
    assert_eq!(request.sub_index, 1);
    assert_eq!(request.type_flag, SdoType::I16);
    assert_eq!(decode_sdo_request(&request), SdoValue::I16(-300));
}

#[test]
fn pdo_assignment_plan_clears_then_counts() {
    let plan = assign_pdos(0x1C12, &[0x1600, 0x1601]);
    assert_eq!(plan.len(), 4);
    assert_eq!(plan[0], SdoWrite { index: 0x1C12, sub_index: 0, value: SdoValue::U8(0) });
    assert_eq!(plan[1], SdoWrite { index: 0x1C12, sub_index: 1, value: SdoValue::U16(0x1600) });
    assert_eq!(plan[2], SdoWrite { index: 0x1C12, sub_index: 2, value: SdoValue::U16(0x1601) });
    assert_eq!(plan[3], SdoWrite { index: 0x1C12, sub_index: 0, value: SdoValue::U8(2) });
}

#[test]
fn mapping_entries_are_packed() {
    let entry = PdoMapping { object_index: 0x6041, sub_index: 0, bit_length: 16 };
    assert_eq!(entry.to_u32(), 0x6041_0010);
    let plan = write_pdo_mapping(0x1A00, &[entry]);
    assert_eq!(plan[1].value, SdoValue::U32(0x6041_0010));
    assert_eq!(plan[2].value, SdoValue::U8(1));
}

#[test]
fn eeprom_lock_is_written_only_when_missing() {
    assert_eq!(eeprom_lock_write(Ok(BECKHOFF_EEPROM_LOCK_CODEWORD)), None);
    assert_eq!(eeprom_lock_write(Err(SdoError::TransferFailed)), None);
    assert_eq!(
        eeprom_lock_write(Ok(0)),
        Some(SdoWrite {
            index: BECKHOFF_CODEWORD_INDEX,
            sub_index: 0,
            value: SdoValue::U32(BECKHOFF_EEPROM_LOCK_CODEWORD),
        })
    );
}

#[test]
fn status_word_is_read_under_its_mask() {
    let image = [0x00, 0x37, 0x02];
    assert!(status_reached(&image, 1, 0x0237 & 0x006F, 0x006F));
    assert!(!status_reached(&image, 1, 0x0008, 0x0008));
    assert!(!status_reached(&image, 2, 0, 0));
}
