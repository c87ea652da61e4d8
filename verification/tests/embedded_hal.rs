use canlib::embedded_hal::{frame_id, frame_new, frame_new_remote, ErrorKind};
use canlib::{decode_error_frame, CanError, EmbeddedCanError, ExtendedId, Id, MessageFlags, StandardId};

#[test]
fn lib_errors_map_to_other_kind() {
    let e = EmbeddedCanError::Lib(CanError::Hardware);
    assert_eq!(e.kind(), ErrorKind::Other);

    let e = EmbeddedCanError::Lib(CanError::Timeout);
    assert_eq!(e.kind(), ErrorKind::Other);
}

#[test]
fn bus_errors_pass_through_kind() {
    for k in [
        ErrorKind::Overrun,
        ErrorKind::Bit,
        ErrorKind::Stuff,
        ErrorKind::Crc,
        ErrorKind::Form,
        ErrorKind::Acknowledge,
        ErrorKind::Other,
    ] {
        assert_eq!(EmbeddedCanError::Bus(k).kind(), k);
    }
}

#[test]
fn from_can_error_lifts_into_lib_variant() {
    let e: EmbeddedCanError = CanError::Driver.into();
    assert_eq!(e, EmbeddedCanError::Lib(CanError::Driver));
}

#[test]
fn decode_recognises_each_bus_error() {
    assert_eq!(decode_error_frame(MessageFlags::ERR_HW_OVERRUN()), ErrorKind::Overrun);
    assert_eq!(decode_error_frame(MessageFlags::ERR_SW_OVERRUN()), ErrorKind::Overrun);
    assert_eq!(decode_error_frame(MessageFlags::ERR_STUFF()), ErrorKind::Stuff);
    assert_eq!(decode_error_frame(MessageFlags::ERR_FORM()), ErrorKind::Form);
    assert_eq!(decode_error_frame(MessageFlags::ERR_CRC()), ErrorKind::Crc);
    assert_eq!(decode_error_frame(MessageFlags::ERR_BIT0()), ErrorKind::Bit);
    assert_eq!(decode_error_frame(MessageFlags::ERR_BIT1()), ErrorKind::Bit);
}

#[test]
fn decode_falls_back_to_other_when_no_specific_bit() {
    // ERROR_FRAME bit alone, no specific protocol bits
    assert_eq!(decode_error_frame(MessageFlags::ERROR_FRAME()), ErrorKind::Other);
    assert_eq!(decode_error_frame(MessageFlags::empty()), ErrorKind::Other);
}

#[test]
fn decode_overrun_takes_precedence() {
    // If overrun is set alongside a protocol-error bit, overrun wins
    // because buffer loss is a more actionable signal.
    let flags = MessageFlags::ERR_SW_OVERRUN() | MessageFlags::ERR_STUFF();
    assert_eq!(decode_error_frame(flags), ErrorKind::Overrun);
}

#[test]
fn frame_new_with_standard_id() {
    let id = StandardId::new(0x123).unwrap();
    let f = frame_new(Id::from(id), &[1, 2, 3]).unwrap();
    assert!(!f.is_extended());
    assert!(!f.is_rtr());
    assert!(!f.is_rtr() && !f.is_error_frame());
    assert_eq!(f.dlc() as usize, 3);
    assert_eq!(f.data(), &[1, 2, 3]);
    match frame_id(&f) {
        Id::Standard(s) => assert_eq!(s.as_raw(), 0x123),
        Id::Extended(_) => panic!("expected standard id"),
    }
}

#[test]
fn frame_new_with_extended_id() {
    let id = ExtendedId::new(0x1FFF_FFFF).unwrap();
    let f = frame_new(Id::from(id), &[0xAA]).unwrap();
    assert!(f.is_extended());
    match frame_id(&f) {
        Id::Extended(e) => assert_eq!(e.as_raw(), 0x1FFF_FFFF),
        Id::Standard(_) => panic!("expected extended id"),
    }
}

#[test]
fn frame_new_rejects_oversized_data() {
    let id = StandardId::new(0x1).unwrap();
    // CAN 2.0: > 8 bytes is invalid
    let r = frame_new(Id::from(id), &[0u8; 9]);
    assert!(r.is_none());
}

#[test]
fn frame_new_remote_standard_and_extended() {
    let std_id = StandardId::new(0x100).unwrap();
    let f = frame_new_remote(Id::from(std_id), 4).unwrap();
    assert!(f.is_rtr());
    assert!(!f.is_extended());
    assert_eq!(f.dlc() as usize, 4);
    assert_eq!(f.data(), &[]);

    let ext_id = ExtendedId::new(0x1234).unwrap();
    let f = frame_new_remote(Id::from(ext_id), 8).unwrap();
    assert!(f.is_rtr());
    assert!(f.is_extended());
    assert_eq!(f.dlc() as usize, 8);
}

#[test]
fn frame_new_remote_rejects_oversized_dlc() {
    let id = StandardId::new(0x1).unwrap();
    assert!(frame_new_remote(Id::from(id), 9).is_none());
}

#[test]
fn frame_id_of_out_of_range_raw_ids() {
    // An extended flag with a raw id beyond 29 bits reads as the zero id.
    let m = canlib::CanMessage::from_raw(0x2000_0000, vec![], 0, MessageFlags::EXT(), 0);
    assert_eq!(frame_id(&m), Id::Extended(ExtendedId::ZERO()));
    // A standard id takes the low 16 bits of the raw value.
    let m = canlib::CanMessage::from_raw(0x1_0123, vec![], 0, MessageFlags::STD(), 0);
    assert_eq!(frame_id(&m), Id::Standard(StandardId::new(0x123).unwrap()));
    let m = canlib::CanMessage::from_raw(0x800, vec![], 0, MessageFlags::STD(), 0);
    assert_eq!(frame_id(&m), Id::Standard(StandardId::ZERO()));
}

#[test]
fn id_constructors_check_ranges() {
    assert!(StandardId::new(0x7FF).is_some());
    assert!(StandardId::new(0x800).is_none());
    assert!(ExtendedId::new(0x1FFF_FFFF).is_some());
    assert!(ExtendedId::new(0x2000_0000).is_none());
    assert_eq!(StandardId::MAX().as_raw(), 0x7FF);
    assert_eq!(ExtendedId::MAX().as_raw(), 0x1FFF_FFFF);
}
