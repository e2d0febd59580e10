use can_telemetry::codec::bytes_be_to_i16;
use can_telemetry::codec::bytes_be_to_i32;
use can_telemetry::codec::bytes_be_to_u32;
use can_telemetry::codec::bytes_le_to_i16;
use can_telemetry::codec::bytes_le_to_u16;
use can_telemetry::codec::bytes_le_to_u32;

#[test]
fn little_endian_words() {
    assert_eq!(bytes_le_to_u16(&[0x36, 0x10]), Some(0x1036));
    assert_eq!(bytes_le_to_u16(&[0xFF, 0xFF]), Some(0xFFFF));
    assert_eq!(bytes_le_to_u16(&[0x36]), None);
    assert_eq!(bytes_le_to_u16(&[0x36, 0x10, 0x00]), None);

    assert_eq!(bytes_le_to_u32(&[0x6C, 0xB0, 0x22, 0x3B]), Some(992129132));
    assert_eq!(bytes_le_to_u32(&[0x6C, 0xB0, 0x22]), None);

    assert_eq!(bytes_le_to_i16(&[0xFF, 0xFF]), Some(-1));
    assert_eq!(bytes_le_to_i16(&[0x00, 0x80]), Some(i16::MIN));
    assert_eq!(bytes_le_to_i16(&[0xF4, 0xFF]), Some(-12));
    assert_eq!(bytes_le_to_i16(&[]), None);
}

#[test]
fn big_endian_words() {
    assert_eq!(bytes_be_to_i16(&[0x10, 0x36]), Some(0x1036));
    assert_eq!(bytes_be_to_i16(&[0xFF, 0x68]), Some(-152));
    assert_eq!(bytes_be_to_i16(&[0x80, 0x00]), Some(i16::MIN));
    assert_eq!(bytes_be_to_i16(&[0x7F, 0xFF]), Some(i16::MAX));
    assert_eq!(bytes_be_to_i16(&[0x10]), None);

    assert_eq!(bytes_be_to_u32(&[0x00, 0x01, 0xE2, 0x40]), Some(123456));
    assert_eq!(bytes_be_to_u32(&[0xFF, 0xFF, 0xFF, 0xFF]), Some(u32::MAX));
    assert_eq!(bytes_be_to_u32(&[0x00, 0x01, 0xE2, 0x40, 0x00]), None);

    assert_eq!(bytes_be_to_i32(&[0xFF, 0xFF, 0xFF, 0xFF]), Some(-1));
    assert_eq!(bytes_be_to_i32(&[0x80, 0x00, 0x00, 0x00]), Some(i32::MIN));
    assert_eq!(bytes_be_to_i32(&[0x00, 0x00, 0x04, 0xD2]), Some(1234));
    assert_eq!(bytes_be_to_i32(&[0x00, 0x00, 0x04]), None);
}
