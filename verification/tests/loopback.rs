use async_can::{loopback, DeviceInfo, Error, Message};

#[test]
fn messages_arrive_unchanged_and_in_order() {
    let (mut tx, mut rx) = loopback::connect();
    let first = Message::new_data(0x100, true, &[0xDE, 0xAD]).unwrap();
    let second = Message::new_remote(0x200, true, 4).unwrap();
    tx.send(first.clone()).unwrap();
    tx.send(second.clone()).unwrap();
    assert_eq!(rx.recv().unwrap(), first);
    assert_eq!(rx.recv().unwrap(), second);
}

#[test]
fn send_after_receiver_dropped_is_terminal_error() {
    let (mut tx, rx) = loopback::connect();
    drop(rx);
    let msg = Message::new_data(1, false, &[]).unwrap();
    match tx.send(msg) {
        Err(Error::Other(s)) => assert_eq!(s, "Disconnected"),
        other => panic!("expected a terminal error, got {:?}", other),
    }
}

#[test]
fn recv_after_sender_dropped_is_terminal_error() {
    let (mut tx, mut rx) = loopback::connect();
    tx.send(Message::new_data(2, false, &[3]).unwrap()).unwrap();
    drop(tx);
    // what was queued is still delivered, then the stream ends
    assert_eq!(rx.recv().unwrap().id(), 2);
    match rx.recv() {
        Err(Error::Other(s)) => assert_eq!(s, "Disconnected"),
        other => panic!("expected a terminal error, got {:?}", other),
    }
}

#[test]
fn cloned_sender_feeds_same_receiver() {
    let (tx, mut rx) = loopback::connect();
    let mut tx2 = tx.clone();
    drop(tx);
    tx2.send(Message::new_data(5, false, &[]).unwrap()).unwrap();
    assert_eq!(rx.recv().unwrap().id(), 5);
}

#[test]
fn device_search_returns_first_match() {
    let devices = vec![
        DeviceInfo { interface_name: "can0".to_string(), is_ready: true, index: 10 },
        DeviceInfo { interface_name: "vcan0".to_string(), is_ready: false, index: 20 },
        DeviceInfo { interface_name: "vcan0".to_string(), is_ready: true, index: 30 },
    ];
    let name = "vcan0".to_string();
    assert_eq!(async_can::socketcan::find_device_index(&devices, &name), Some(20));
    let missing = "eth0".to_string();
    assert_eq!(async_can::socketcan::find_device_index(&devices, &missing), None);
    assert_eq!(async_can::socketcan::find_device_index(&vec![], &name), None);
}
