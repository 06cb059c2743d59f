use async_can::{CanFrameError, DataFrame, Message, RemoteFrame};

#[test]
fn validate_id() {
    assert!(CanFrameError::validate_id(1 << 28, true).is_ok());
    assert!(matches!(
        CanFrameError::validate_id(1 << 29, true),
        Err(CanFrameError::IdTooLong)
    ));
    assert!(CanFrameError::validate_id(1 << 10, false).is_ok());
    assert!(matches!(
        CanFrameError::validate_id(1 << 11, false),
        Err(CanFrameError::IdTooLong)
    ));
}

#[test]
fn new_data_accessors_return_inputs() {
    let msg = Message::new_data(0x100, true, &[0xDE, 0xAD, 0xBE, 0xEF]).unwrap();
    assert_eq!(msg.id(), 0x100);
    assert!(msg.ext_id());
    assert_eq!(msg.dlc(), 4);
    match &msg {
        Message::Data(frame) => {
            assert_eq!(frame.data(), &[0xDE, 0xAD, 0xBE, 0xEF]);
            assert_eq!(frame.dlc(), 4);
        }
        Message::Remote(_) => panic!("expected a data frame"),
    }
}

#[test]
fn new_data_boundary_ids() {
    assert!(Message::new_data(0x1FFF_FFFF, true, &[]).is_ok());
    assert!(Message::new_data(0x7FF, false, &[]).is_ok());
    assert!(matches!(
        Message::new_data(0x2000_0000, true, &[]),
        Err(CanFrameError::IdTooLong)
    ));
    assert!(matches!(
        Message::new_data(0x800, false, &[]),
        Err(CanFrameError::IdTooLong)
    ));
}

#[test]
fn new_data_rejects_long_payload() {
    assert!(Message::new_data(1, false, &[0; 8]).is_ok());
    assert!(matches!(
        Message::new_data(1, false, &[0; 9]),
        Err(CanFrameError::DataTooLong)
    ));
}

#[test]
fn new_remote_validates() {
    let msg = Message::new_remote(0x123, false, 3).unwrap();
    assert_eq!(msg.id(), 0x123);
    assert!(!msg.ext_id());
    assert_eq!(msg.dlc(), 3);
    assert!(matches!(msg, Message::Remote(_)));
    assert!(matches!(
        Message::new_remote(0x800, false, 3),
        Err(CanFrameError::IdTooLong)
    ));
    assert!(matches!(
        Message::new_remote(0x123, false, 9),
        Err(CanFrameError::DataTooLong)
    ));
}

#[test]
fn data_frame_direct_construction() {
    let frame = DataFrame::new(42, false, vec![1, 2]).unwrap();
    assert_eq!(frame.id(), 42);
    assert!(!frame.ext_id());
    assert_eq!(frame.dlc(), 2);
    assert_eq!(frame.take_data(), vec![1, 2]);
    assert!(matches!(
        DataFrame::new(42, false, vec![0; 9]),
        Err(CanFrameError::DataTooLong)
    ));
    assert!(matches!(
        DataFrame::new(0x1000, false, vec![]),
        Err(CanFrameError::IdTooLong)
    ));
}

#[test]
fn remote_frame_direct_construction() {
    let frame = RemoteFrame::new(7, true, 8).unwrap();
    assert_eq!(frame.id(), 7);
    assert!(frame.ext_id());
    assert_eq!(frame.dlc(), 8);
    assert!(matches!(
        RemoteFrame::new(7, true, 9),
        Err(CanFrameError::DataTooLong)
    ));
}

#[test]
fn frame_error_converts_losslessly() {
    let e: async_can::Error = async_can::Error::from(CanFrameError::IdTooLong);
    assert!(matches!(e, async_can::Error::IdTooLong));
    let e: async_can::Error = async_can::Error::from(CanFrameError::DataTooLong);
    assert!(matches!(e, async_can::Error::DataTooLong));
}
