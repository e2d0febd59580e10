use can_telemetry::can_frame::CanFrame;
use can_telemetry::can_frame::CanId;

fn ext(id: u32, data: &[u8]) -> CanFrame {
    CanFrame::from_encoded(CanId::extended(id).unwrap(), data)
}

fn std_frame(id: u16, data: &[u8]) -> CanFrame {
    CanFrame::from_encoded(CanId::standard(id).unwrap(), data)
}

#[test]
fn debug_formats_nicely() {
    let debug = ext(0x2A, &[]).debug_string();
    assert_eq!(debug, "CanFrame { id: 0x0000002A, data: [] }");

    let debug = std_frame(0x2A, &[]).debug_string();
    assert_eq!(debug, "CanFrame { id: 0x002A, data: [] }");

    let debug = std_frame(0x2A, &[1, 2, 3, 4, 15, 16, 255]).debug_string();
    assert_eq!(
        debug,
        "CanFrame { id: 0x002A, data: [0x01, 0x02, 0x03, 0x04, 0x0F, 0x10, 0xFF] }"
    );
}

#[test]
fn can_frame_debug_formats_nicely() {
    let debug = ext(0x2A, &[]).debug_string();
    assert_eq!(debug, "CanFrame { id: 0x0000002A, data: [] }");

    let debug = std_frame(0x2A, &[]).debug_string();
    assert_eq!(debug, "CanFrame { id: 0x002A, data: [] }");

    let debug = std_frame(0x2A, &[1, 2, 3, 4, 15, 16, 255]).debug_string();
    assert_eq!(
        debug,
        "CanFrame { id: 0x002A, data: [0x01, 0x02, 0x03, 0x04, 0x0F, 0x10, 0xFF] }"
    );
}

#[test]
fn identifier_constructors_enforce_width() {
    assert_eq!(CanId::standard(0x7FF), Some(CanId::Standard(0x7FF)));
    assert_eq!(CanId::standard(0x800), None);
    assert_eq!(CanId::extended(0x1FFF_FFFF), Some(CanId::Extended(0x1FFF_FFFF)));
    assert_eq!(CanId::extended(0x2000_0000), None);

    assert_eq!(CanId::from_raw(0x2A), Some(CanId::Standard(0x2A)));
    assert_eq!(CanId::from_raw(0x7FF), Some(CanId::Standard(0x7FF)));
    assert_eq!(CanId::from_raw(0x800), Some(CanId::Extended(0x800)));
    assert_eq!(CanId::from_raw(0x1FFF_FFFF), Some(CanId::Extended(0x1FFF_FFFF)));
    assert_eq!(CanId::from_raw(0x2000_0000), None);

    assert_eq!(CanId::Standard(0x2A).raw(), 0x2A);
    assert_eq!(CanId::Extended(0x12345).raw(), 0x12345);
}

#[test]
fn from_encoded_keeps_id_and_payload() {
    let frame = std_frame(0x102, &[1, 2, 3]);
    assert_eq!(frame.id, CanId::Standard(0x102));
    assert_eq!(frame.data, vec![1, 2, 3]);

    let empty = ext(0x1FFF_FFFF, &[]);
    assert!(empty.data.is_empty());
}
