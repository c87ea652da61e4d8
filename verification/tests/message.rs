use canlib::{Brs, CanMessage, ExtendedId, Id, MessageFlags, StandardId};

fn std_id(id: u16) -> StandardId {
    StandardId::new(id).expect("test id in range")
}

fn ext(id: u32) -> ExtendedId {
    ExtendedId::new(id).expect("test id in range")
}

#[test]
fn new_sets_std_flag_and_correct_dlc() {
    let msg = CanMessage::new(std_id(0x123), &[1, 2, 3, 4]).unwrap();
    assert_eq!(msg.id(), 0x123);
    assert_eq!(msg.data(), &[1, 2, 3, 4]);
    assert_eq!(msg.dlc(), 4);
    assert!(msg.flags().contains(MessageFlags::STD()));
    assert!(!msg.is_extended());
    assert!(!msg.is_fd());
    assert!(msg.timestamp().is_none());
}

#[test]
fn new_with_extended_id_sets_ext_flag() {
    let msg = CanMessage::new(ext(0x1FFFFFFF), &[0xAA, 0xBB]).unwrap();
    assert_eq!(msg.id(), 0x1FFFFFFF);
    assert!(msg.is_extended());
    assert!(msg.flags().contains(MessageFlags::EXT()));
    assert!(!msg.flags().contains(MessageFlags::STD()));
    assert_eq!(msg.dlc(), 2);
    assert!(msg.timestamp().is_none());
}

#[test]
fn new_fd_sets_fd_flag_and_brs_when_requested() {
    let msg_no_brs = CanMessage::new_fd(std_id(0x100), &[1; 64], Brs::Off).unwrap();
    assert!(msg_no_brs.is_fd());
    assert!(msg_no_brs.flags().contains(MessageFlags::FD()));
    assert!(msg_no_brs.flags().contains(MessageFlags::STD()));
    assert!(!msg_no_brs.flags().contains(MessageFlags::BRS()));
    assert!(!msg_no_brs.is_extended());
    assert_eq!(msg_no_brs.dlc(), 64);

    let msg_brs = CanMessage::new_fd(std_id(0x100), &[2; 32], Brs::On).unwrap();
    assert!(msg_brs.is_fd());
    assert!(msg_brs.flags().contains(MessageFlags::FD()));
    assert!(msg_brs.flags().contains(MessageFlags::STD()));
    assert!(msg_brs.flags().contains(MessageFlags::BRS()));
    assert!(!msg_brs.is_extended());
    assert_eq!(msg_brs.dlc(), 32);
}

#[test]
fn new_fd_with_extended_id_sets_ext_flag() {
    let msg = CanMessage::new_fd(ext(0x1FFF_FFFF), &[0xAA; 16], Brs::On).unwrap();
    assert!(msg.is_fd());
    assert!(msg.is_extended());
    assert!(msg.flags().contains(MessageFlags::EXT()));
    assert!(!msg.flags().contains(MessageFlags::STD()));
    assert_eq!(msg.id(), 0x1FFF_FFFF);
}

#[test]
fn fd_dlc_rounds_up_to_valid_sizes() {
    // Exact valid sizes stay as-is
    for &exact_size in &[0, 1, 2, 3, 4, 5, 6, 7, 8, 12, 16, 20, 24, 32, 48, 64] {
        let msg = CanMessage::new_fd(std_id(0x100), &vec![0xAA; exact_size], Brs::Off).unwrap();
        assert_eq!(msg.dlc() as usize, exact_size, "exact size {} should not change", exact_size);
        assert_eq!(msg.data().len(), exact_size);
    }

    // In-between sizes round up and zero-pad
    let cases: &[(usize, usize)] = &[
        (9, 12), (10, 12), (11, 12),
        (13, 16), (15, 16),
        (17, 20), (19, 20),
        (21, 24), (23, 24),
        (25, 32), (30, 32), (31, 32),
        (33, 48), (40, 48), (47, 48),
        (49, 64), (60, 64), (63, 64),
    ];
    for &(input_len, expected_dlc) in cases {
        let data: Vec<u8> = (0..input_len as u8).collect();
        let msg = CanMessage::new_fd(std_id(0x100), &data, Brs::Off).unwrap();
        assert_eq!(
            msg.dlc() as usize, expected_dlc,
            "input len {} should round up to {}", input_len, expected_dlc
        );
        assert_eq!(msg.data().len(), expected_dlc);
        // Input data preserved
        assert_eq!(&msg.data()[..input_len], &data[..]);
        // Padding is zero
        for &b in &msg.data()[input_len..] {
            assert_eq!(b, 0, "padding should be zero for input len {}", input_len);
        }
    }
}

#[test]
fn from_raw_with_rtr_creates_remote() {
    let msg = CanMessage::from_raw(0x1, vec![0xAA], 1, MessageFlags::STD() | MessageFlags::RTR(), 100);
    assert!(msg.is_rtr());
    assert!(!msg.is_error_frame());
    assert_eq!(msg.data(), &[]);
    assert_eq!(msg.dlc(), 1);
    assert_eq!(msg.timestamp(), Some(100));
}

#[test]
fn from_raw_with_error_creates_error() {
    let msg = CanMessage::from_raw(0x1, vec![0xFF], 1, MessageFlags::ERROR_FRAME(), 200);
    assert!(msg.is_error_frame());
    assert!(!msg.is_rtr());
    assert_eq!(msg.data(), &[0xFF]);
    assert_eq!(msg.timestamp(), Some(200));
}

#[test]
fn from_raw_data_creates_data() {
    let msg = CanMessage::from_raw(0x100, vec![1, 2, 3], 3, MessageFlags::STD(), 300);
    assert!(!msg.is_rtr());
    assert!(!msg.is_error_frame());
    assert_eq!(msg.id(), 0x100);
    assert_eq!(msg.data(), &[1, 2, 3]);
    assert_eq!(msg.timestamp(), Some(300));
}

#[test]
fn from_raw_error_takes_priority_over_rtr() {
    // If both ERROR_FRAME and RTR are set, ERROR_FRAME wins
    let msg = CanMessage::from_raw(0x1, vec![], 0, MessageFlags::ERROR_FRAME() | MessageFlags::RTR(), 0);
    assert!(msg.is_error_frame());
    assert!(!msg.is_rtr());
}

#[test]
fn new_remote_standard() {
    let msg = CanMessage::new_remote(std_id(0x100), 4).unwrap();
    assert!(msg.is_rtr());
    assert!(!msg.is_extended());
    assert_eq!(msg.id(), 0x100);
    assert_eq!(msg.dlc(), 4);
    assert_eq!(msg.data(), &[]);
    assert!(msg.flags().contains(MessageFlags::RTR()));
    assert!(msg.flags().contains(MessageFlags::STD()));
    // Rejects invalid DLC
    assert!(CanMessage::new_remote(std_id(0x100), 9).is_err());
}

#[test]
fn new_remote_extended() {
    let msg = CanMessage::new_remote(ext(0x1FFF_FFFF), 8).unwrap();
    assert!(msg.is_rtr());
    assert!(msg.is_extended());
    assert_eq!(msg.id(), 0x1FFF_FFFF);
    assert_eq!(msg.dlc(), 8);
    assert_eq!(msg.data(), &[]);
    assert!(msg.flags().contains(MessageFlags::RTR()));
    assert!(msg.flags().contains(MessageFlags::EXT()));
    // Rejects invalid DLC
    assert!(CanMessage::new_remote(ext(0x1FFF_FFFF), 9).is_err());
}

#[test]
fn pattern_match_variants() {
    let data_msg = CanMessage::new(std_id(0x100), &[1, 2]).unwrap();
    let rtr_msg = CanMessage::new_remote(std_id(0x200), 4).unwrap();
    let error_msg = CanMessage::from_raw(0x0, vec![0xFF], 1, MessageFlags::ERROR_FRAME(), 0);

    assert!(matches!(data_msg, CanMessage::Data(_)));
    assert!(matches!(rtr_msg, CanMessage::Remote(_)));
    assert!(matches!(error_msg, CanMessage::Error(_)));

    // Demonstrate destructuring
    if let CanMessage::Data(frame) = &data_msg {
        assert_eq!(frame.id(), 0x100);
    } else {
        panic!("expected Data variant");
    }
}

#[test]
fn message_flags_default_is_empty() {
    let flags = MessageFlags::default();
    assert!(flags.is_empty());
    assert!(!flags.contains(MessageFlags::STD()));
    assert!(!flags.contains(MessageFlags::EXT()));
}

#[test]
fn empty_data_message() {
    let msg = CanMessage::new(std_id(0x0), &[]).unwrap();
    assert_eq!(msg.dlc(), 0);
    assert!(msg.data().is_empty());
}

#[test]
fn new_rejects_data_over_8_bytes() {
    assert!(CanMessage::new(std_id(0x100), &[0; 9]).is_err());
    assert!(CanMessage::new(ext(0x100), &[0; 9]).is_err());
}

#[test]
fn new_fd_rejects_data_over_64_bytes() {
    assert!(CanMessage::new_fd(std_id(0x100), &[0; 65], Brs::Off).is_err());
}

#[test]
fn from_raw_bypasses_validation() {
    let msg = CanMessage::from_raw(0xFFFF_FFFF, vec![0; 100], 100, MessageFlags::STD(), 12345);
    assert_eq!(msg.id(), 0xFFFF_FFFF);
    assert_eq!(msg.data().len(), 100);
    assert_eq!(msg.timestamp(), Some(12345));
}

#[test]
fn id_enum_input_works_directly() {
    // Id::Standard / Id::Extended can be passed without unwrapping
    let msg = CanMessage::new(Id::Standard(std_id(0x123)), &[1]).unwrap();
    assert!(!msg.is_extended());
    let msg = CanMessage::new(Id::Extended(ext(0x1F00_0001)), &[1]).unwrap();
    assert!(msg.is_extended());
}

#[test]
fn id_taking_constructors_follow_the_variant() {
    let msg = CanMessage::new_with_id(Id::Standard(std_id(0x123)), &[1, 2]).unwrap();
    assert_eq!(msg.id(), 0x123);
    assert_eq!(msg.flags(), MessageFlags::STD());
    assert_eq!(msg.data(), &[1, 2]);
    assert_eq!(msg.dlc(), 2);
    assert!(!msg.is_extended() && !msg.is_fd() && !msg.is_rtr() && msg.timestamp().is_none());
    assert!(CanMessage::new_with_id(Id::Standard(std_id(1)), &[0; 9]).is_err());

    let fd = CanMessage::new_fd_with_id(Id::Extended(ext(0x1F00_0001)), &[7; 9], Brs::On).unwrap();
    assert_eq!(fd.id(), 0x1F00_0001);
    assert_eq!(fd.flags(), MessageFlags::EXT() | MessageFlags::FD() | MessageFlags::BRS());
    assert_eq!(fd.dlc(), 12);
    assert_eq!(fd.data(), &[7, 7, 7, 7, 7, 7, 7, 7, 7, 0, 0, 0]);
    assert!(CanMessage::new_fd_with_id(Id::Extended(ext(1)), &[0; 65], Brs::Off).is_err());

    let rtr = CanMessage::new_remote_with_id(Id::Extended(ext(0x55)), 3).unwrap();
    assert_eq!(rtr.id(), 0x55);
    assert_eq!(rtr.flags(), MessageFlags::EXT() | MessageFlags::RTR());
    assert_eq!(rtr.dlc(), 3);
    assert!(rtr.data().is_empty() && rtr.is_rtr());
    assert!(CanMessage::new_remote_with_id(Id::Standard(std_id(1)), 9).is_err());
}

#[test]
fn generic_constructors_agree_with_id_taking_ones() {
    let a = CanMessage::new(Id::Extended(ext(0x99)), &[4]).unwrap();
    let b = CanMessage::new(ext(0x99), &[4]).unwrap();
    assert_eq!(a.id(), b.id());
    assert_eq!(a.flags(), b.flags());
    assert!(a.is_extended());
}
