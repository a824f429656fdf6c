use ethercat_hal::signing_converter::U16SigningConverter;

#[test]
fn test_as_signed() {
    let value = U16SigningConverter::load_raw(0x7FFF);
    assert_eq!(value.as_signed(), 32767i16);

    let value = U16SigningConverter::load_raw(0x3FFF);
    assert_eq!(value.as_signed(), 16383i16);

    let value = U16SigningConverter::load_raw(0x0001);
    assert_eq!(value.as_signed(), 1i16);

    let value = U16SigningConverter::load_raw(0x0000);
    assert_eq!(value.as_signed(), 0i16);

    let value = U16SigningConverter::load_raw(0xFFFF);
    assert_eq!(value.as_signed(), -1i16);

    let value = U16SigningConverter::load_raw(0xC001);
    assert_eq!(value.as_signed(), -16383i16);

    let value = U16SigningConverter::load_raw(0x8000);
    assert_eq!(value.as_signed(), -32768i16);
}

#[test]
fn test_as_signed_magnitude() {
    let value = U16SigningConverter::load_raw(0x7FFF);
    assert_eq!(value.as_signed_magnitude(), 32767i16);

    let value = U16SigningConverter::load_raw(0x3FFF);
    assert_eq!(value.as_signed_magnitude(), 16383i16);

    let value = U16SigningConverter::load_raw(0x0001);
    assert_eq!(value.as_signed_magnitude(), 1i16);

    let value = U16SigningConverter::load_raw(0x0000);
    assert_eq!(value.as_signed_magnitude(), 0i16);

    let value = U16SigningConverter::load_raw(0x8001);
    assert_eq!(value.as_signed_magnitude(), -1i16);

    let value = U16SigningConverter::load_raw(0xBFFF);
    assert_eq!(value.as_signed_magnitude(), -16383i16);

    let value = U16SigningConverter::load_raw(0xFFFF);
    assert_eq!(value.as_signed_magnitude(), -32767i16);
}

#[test]
fn test_as_unsigned() {
    let value = U16SigningConverter::load_raw(0x7FFF);
    assert_eq!(value.as_unsigned(), 32767u16);

    let value = U16SigningConverter::load_raw(0x3FFF);
    assert_eq!(value.as_unsigned(), 16383u16);

    let value = U16SigningConverter::load_raw(0x0001);
    assert_eq!(value.as_unsigned(), 1u16);

    let value = U16SigningConverter::load_raw(0x0000);
    assert_eq!(value.as_unsigned(), 0u16);

    let value = U16SigningConverter::load_raw(0x0001);
    assert_eq!(value.as_unsigned(), 1u16);

    let value = U16SigningConverter::load_raw(0x3FFF);
    assert_eq!(value.as_unsigned(), 16383u16);

    let value = U16SigningConverter::load_raw(0x7FFF);
    assert_eq!(value.as_unsigned(), 32767u16);
}

/// The sign-magnitude reading of 0x8000 is a negative zero.
#[test]
fn signed_magnitude_negative_zero() {
    assert_eq!(U16SigningConverter::load_raw(0x8000).as_signed_magnitude(), 0i16);
}

#[test]
fn absolute_value_of_raw_words() {
    assert_eq!(U16SigningConverter::load_raw(0xFFFF).as_absolute(), 1i16);
    assert_eq!(U16SigningConverter::load_raw(0x0005).as_absolute(), 5i16);
}

#[test]
fn conversions_from_and_into_the_raw_word() {
    let c = U16SigningConverter::from(0xFFFEu16);
    assert_eq!(c.raw, 0xFFFE);
    let back: u16 = c.into();
    assert_eq!(back, 0xFFFE);
}

#[test]
fn text_shows_all_three_readings() {
    assert_eq!(
        U16SigningConverter::load_raw(0xFFFE).text(),
        "U16SigningConverter { unsigned: 65534 (0xFFFE), signed: -2 (0xFFFE), sign-magnitude: -32766 (0xFFFE) }"
    );
    assert_eq!(
        U16SigningConverter::load_raw(5).text(),
        "U16SigningConverter { unsigned: 5 (0x0005), signed: 5 (0x0005), sign-magnitude: 5 (0x0005) }"
    );
}
