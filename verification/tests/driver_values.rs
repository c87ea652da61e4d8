use canlib::message::fd_dlc_for_len;
use canlib::{c_str_len, version_from_raw, Brs, CanMessage, ExtendedId, MessageFlags, StandardId};

#[test]
fn written_message_reads_back_unchanged() {
    let sent = CanMessage::new_fd(ExtendedId::new(0x1ABC_DEF0).unwrap(), &[1, 2, 3, 4, 5, 6, 7, 8, 9], Brs::On).unwrap();
    let buf = sent.tx_payload();
    assert_eq!(buf.len(), 64);
    let got = CanMessage::from_driver(sent.id() as i64, &buf, sent.dlc() as u32, sent.flags().bits(), 77);
    assert_eq!(got.id(), sent.id());
    assert_eq!(got.data(), sent.data());
    assert_eq!(got.dlc(), 12);
    assert_eq!(got.flags(), sent.flags());
    assert_eq!(got.timestamp(), Some(77));
    assert!(got.is_fd() && got.is_extended() && !got.is_rtr());

    let remote = CanMessage::new_remote(StandardId::new(0x10).unwrap(), 6).unwrap();
    let buf = remote.tx_payload();
    assert!(buf.iter().all(|&b| b == 0));
    let got = CanMessage::from_driver(remote.id() as i64, &buf, remote.dlc() as u32, remote.flags().bits(), 1);
    assert!(got.is_rtr());
    assert_eq!(got.dlc(), 6);
    assert!(got.data().is_empty());
}

#[test]
fn from_driver_clamps_and_truncates() {
    let buf: Vec<u8> = (0..64u8).collect();
    // A DLC above 64 keeps the whole buffer; the DLC itself is truncated to a byte.
    let m = CanMessage::from_driver(0x1_0000_0123, &buf, 300, 0xFFFF_FFFF, 5);
    assert_eq!(m.data().len(), 64);
    assert_eq!(m.dlc(), 300u32 as u8);
    assert_eq!(m.id(), 0x0000_0123);
    // Unnamed flag bits are dropped; ERROR_FRAME among them makes an error frame.
    assert_eq!(m.flags().bits(), 0x07FFFF);
    assert!(m.is_error_frame());
    let m = CanMessage::from_driver(7, &buf, 3, MessageFlags::STD().bits(), 5);
    assert_eq!(m.data(), &[0, 1, 2]);
}

#[test]
fn fd_dlc_is_least_valid_size() {
    let valid = [0usize, 1, 2, 3, 4, 5, 6, 7, 8, 12, 16, 20, 24, 32, 48, 64];
    for len in 0..=64usize {
        let dlc = fd_dlc_for_len(len);
        assert!(valid.contains(&dlc));
        assert!(dlc >= len);
        assert!(valid.iter().all(|&v| v < len || v >= dlc));
    }
    assert_eq!(fd_dlc_for_len(65), 64);
    assert_eq!(fd_dlc_for_len(1000), 64);
}

#[test]
fn version_word_splits_into_major_and_minor() {
    assert_eq!(version_from_raw(0x0512), (5, 0x12));
    assert_eq!(version_from_raw(0), (0, 0));
    assert_eq!(version_from_raw(0xFFFF), (255, 255));
}

#[test]
fn c_string_length_stops_at_first_nul() {
    assert_eq!(c_str_len(b"Kvaser\0junk"), 6);
    assert_eq!(c_str_len(b"\0"), 0);
    assert_eq!(c_str_len(b"no terminator"), 13);
    assert_eq!(c_str_len(b""), 0);
}

#[test]
fn channel_info_cuts_names_at_nul() {
    let mut name = [0u8; 16];
    name[..5].copy_from_slice(b"Kvas0");
    let desc = b"Virtual\0junk";
    let info = canlib::channel_info(2, &name, desc, 12345);
    assert_eq!(info.index, 2);
    assert_eq!(info.name, "Kvas0");
    assert_eq!(info.device_description, "Virtual");
    assert_eq!(info.serial_number, 12345);
    let full = canlib::channel_info(0, b"abc", b"", 0);
    assert_eq!(full.name, "abc");
    assert_eq!(full.device_description, "");
}

#[test]
fn c_str_text_replaces_invalid_utf8() {
    assert_eq!(canlib::c_str_text(&[0xFF, b'a', 0, b'b']), "\u{FFFD}a");
}

#[test]
fn error_text_uses_driver_text_only_on_success() {
    assert_eq!(canlib::error_text(-1, 0, b"Invalid parameter\0\0"), "Invalid parameter");
    assert_eq!(canlib::error_text(-1, -3, b"garbage\0"), "Unknown error (-1)");
}

#[test]
fn channel_list_has_one_entry_per_channel() {
    let list = canlib::collect_channel_list(3, |i| Ok(canlib::channel_info(i, b"ch\0", b"dev\0", 100 + i as u64))).unwrap();
    assert_eq!(list.len(), 3);
    for (k, info) in list.iter().enumerate() {
        assert_eq!(info.index, k as i32);
        assert_eq!(info.serial_number, 100 + k as u64);
        assert_eq!(info.name, "ch");
    }
    assert!(canlib::collect_channel_list(0, |_| Err(canlib::CanError::Param)).unwrap().is_empty());
    assert!(canlib::collect_channel_list(-2, |_| Err(canlib::CanError::Param)).unwrap().is_empty());
}

#[test]
fn channel_list_stops_at_first_failure() {
    let asked = std::cell::RefCell::new(Vec::new());
    let r = canlib::collect_channel_list(5, |i| {
        asked.borrow_mut().push(i);
        if i == 2 {
            Err(canlib::CanError::NotFound)
        } else if i == 3 {
            Err(canlib::CanError::Hardware)
        } else {
            Ok(canlib::channel_info(i, b"x\0", b"y\0", 0))
        }
    });
    assert_eq!(r.err(), Some(canlib::CanError::NotFound));
    assert_eq!(*asked.borrow(), vec![0, 1, 2]);
}
