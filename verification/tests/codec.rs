use async_can::{usr_canet, socketcan, CanFrameError, Message};

#[test]
fn gateway_encodes_known_vector() {
    let msg = Message::new_data(0xABCDEF, true, &[1, 2, 3, 4]).unwrap();
    let buf = usr_canet::encode_frame(&msg);
    assert_eq!(
        buf,
        vec![0x84, 0x00, 0xAB, 0xCD, 0xEF, 1, 2, 3, 4, 0, 0, 0, 0]
    );
    let back = usr_canet::decode_frame(&buf).unwrap();
    assert_eq!(back, msg);
}

#[test]
fn gateway_remote_round_trip() {
    let msg = Message::new_remote(0x123456, true, 3).unwrap();
    let buf = usr_canet::encode_frame(&msg);
    assert_eq!(buf.len(), 13);
    assert_eq!(buf[0], 0x80 | 0x40 | 3);
    assert_eq!(&buf[1..5], &[0x00, 0x12, 0x34, 0x56]);
    let back = usr_canet::decode_frame(&buf).unwrap();
    assert_eq!(back, msg);
}

#[test]
fn gateway_standard_frames_round_trip() {
    let msg = Message::new_data(0x7FF, false, &[9, 8, 7, 6, 5, 4, 3, 2]).unwrap();
    let back = usr_canet::decode_frame(&usr_canet::encode_frame(&msg)).unwrap();
    assert_eq!(back, msg);
    let msg = Message::new_remote(0x001, false, 0).unwrap();
    let back = usr_canet::decode_frame(&usr_canet::encode_frame(&msg)).unwrap();
    assert_eq!(back, msg);
}

#[test]
fn gateway_decode_rejects_bad_records() {
    // extended flag clear but identifier beyond the standard range
    let buf = [0x02u8, 0x00, 0x00, 0x08, 0x00, 0, 0, 0, 0, 0, 0, 0, 0];
    assert!(matches!(
        usr_canet::decode_frame(&buf),
        Err(CanFrameError::IdTooLong)
    ));
    // declared length beyond 8
    let buf = [0x89u8, 0x00, 0x00, 0x00, 0x01, 0, 0, 0, 0, 0, 0, 0, 0];
    assert!(matches!(
        usr_canet::decode_frame(&buf),
        Err(CanFrameError::DataTooLong)
    ));
    // identifier is checked before the length
    let buf = [0x09u8, 0xFF, 0xFF, 0xFF, 0xFF, 0, 0, 0, 0, 0, 0, 0, 0];
    assert!(matches!(
        usr_canet::decode_frame(&buf),
        Err(CanFrameError::IdTooLong)
    ));
}

#[test]
fn socket_data_frame_layout() {
    let msg = Message::new_data(0xABCDEF, true, &[1, 2, 3, 4]).unwrap();
    let buf = socketcan::encode_frame(&msg);
    assert_eq!(buf.len(), 16);
    // identifier word, least significant byte first, with bit 31 set
    assert_eq!(&buf[0..4], &[0xEF, 0xCD, 0xAB, 0x80]);
    assert_eq!(buf[4], 4);
    assert_eq!(&buf[5..8], &[0, 0, 0]);
    assert_eq!(&buf[8..16], &[1, 2, 3, 4, 0, 0, 0, 0]);
    let back = socketcan::decode_frame(&buf).unwrap();
    assert_eq!(back, msg);
}

#[test]
fn socket_remote_frame_round_trip() {
    let msg = Message::new_remote(0x456, false, 5).unwrap();
    let buf = socketcan::encode_frame(&msg);
    assert_eq!(&buf[0..4], &[0x56, 0x04, 0x00, 0x40]);
    assert_eq!(buf[4], 5);
    let back = socketcan::decode_frame(&buf).unwrap();
    assert_eq!(back, msg);
}

#[test]
fn socket_all_variants_round_trip() {
    let messages = vec![
        Message::new_data(0x1FFF_FFFF, true, &[]).unwrap(),
        Message::new_data(0x7FF, false, &[0xFF; 8]).unwrap(),
        Message::new_remote(0x1234_5678 & 0x1FFF_FFFF, true, 8).unwrap(),
        Message::new_remote(0, false, 0).unwrap(),
    ];
    for msg in messages {
        let back = socketcan::decode_frame(&socketcan::encode_frame(&msg)).unwrap();
        assert_eq!(back, msg);
    }
}

#[test]
fn socket_decode_tolerates_error_flag() {
    let msg = Message::new_data(0x100, true, &[7]).unwrap();
    let mut buf = socketcan::encode_frame(&msg);
    // set the reserved error-indicator bit (bit 29 of the identifier word)
    buf[3] |= 0x20;
    let back = socketcan::decode_frame(&buf).unwrap();
    assert_eq!(back, msg);
}

#[test]
fn socket_decode_masks_standard_id() {
    // standard frame whose identifier word carries stray high bits below the flags
    let buf = [0xFFu8, 0xFF, 0xFF, 0x00, 0, 0, 0, 0, 0, 0, 0, 0, 0, 0, 0, 0];
    let back = socketcan::decode_frame(&buf).unwrap();
    assert_eq!(back.id(), 0x7FF);
    assert!(!back.ext_id());
}

#[test]
fn socket_decode_rejects_long_dlc() {
    let buf = [0u8, 0, 0, 0, 9, 0, 0, 0, 0, 0, 0, 0, 0, 0, 0, 0];
    assert!(matches!(
        socketcan::decode_frame(&buf),
        Err(CanFrameError::DataTooLong)
    ));
}
