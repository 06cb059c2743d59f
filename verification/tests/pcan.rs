use async_can::pcan::{self, api, ReceiveStep, WaitStep};
use async_can::{BusError, Error, Message, Timestamp};

#[test]
fn baud_codes_match_driver_table() {
    let table: Vec<(u32, u16)> = vec![
        (5000, 0x7F7F),
        (10000, 0x672F),
        (20000, 0x532F),
        (33000, 0x8B2F),
        (47000, 0x1414),
        (50000, 0x472F),
        (83000, 0x852B),
        (95000, 0xC34E),
        (100000, 0x432F),
        (125000, 0x031C),
        (250000, 0x011C),
        (500000, 0x001C),
        (800000, 0x0016),
        (1000000, 0x0014),
    ];
    for (bitrate, code) in table {
        assert_eq!(api::get_baud(bitrate).unwrap(), code);
    }
}

#[test]
fn unsupported_bitrates_rejected() {
    for bitrate in [0u32, 1, 4999, 60000, 124999, 125001, 2_000_000] {
        assert!(matches!(api::get_baud(bitrate), Err(Error::InvalidBitRate)));
    }
}

#[test]
fn ifname_resolves_to_handles() {
    assert_eq!(pcan::parse_ifname("usb1").unwrap(), 0x51);
    assert_eq!(pcan::parse_ifname("usb8").unwrap(), 0x58);
    assert_eq!(pcan::parse_ifname("pci1").unwrap(), 0x41);
    assert_eq!(pcan::parse_ifname("pci8").unwrap(), 0x48);
    // names are matched case-insensitively, numbers as std parses them
    assert_eq!(pcan::parse_ifname("USB3").unwrap(), 0x53);
    assert_eq!(pcan::parse_ifname("Pci2").unwrap(), 0x42);
    assert_eq!(pcan::parse_ifname("usb007").unwrap(), 0x57);
    assert_eq!(pcan::parse_ifname("usb+4").unwrap(), 0x54);
}

#[test]
fn bad_ifnames_rejected() {
    for name in [
        "", "usb", "usb0", "usb9", "pci0", "pci9", "can0", "usbx", "usb-1", "usb1x", "usb99999",
        "usb999999999999999999", "usb++1", "xusb1",
    ] {
        assert!(
            matches!(
                pcan::parse_ifname(name),
                Err(Error::InvalidInterfaceAddress)
            ),
            "{} was accepted",
            name
        );
    }
}

#[test]
fn connect_plan_checks_bitrate_first() {
    // P7: an unsupported bitrate is rejected before anything else happens
    assert!(matches!(
        pcan::connect_plan("usb1", 123),
        Err(Error::InvalidBitRate)
    ));
    assert!(matches!(
        pcan::connect_plan("nonsense", 123),
        Err(Error::InvalidBitRate)
    ));
    assert!(matches!(
        pcan::connect_plan("nonsense", 125000),
        Err(Error::InvalidInterfaceAddress)
    ));
    assert_eq!(pcan::connect_plan("usb2", 125000).unwrap(), (0x52, 0x031C));
}

#[test]
fn record_round_trip() {
    let msg = Message::new_data(0xABCDEF, true, &[1, 2, 3]).unwrap();
    let rec = api::PCanMessage::from_message(msg.clone()).unwrap();
    assert_eq!(rec.id, 0xABCDEF);
    assert_eq!(rec.tp, 0x02);
    assert_eq!(rec.len, 3);
    assert_eq!(rec.data, vec![1, 2, 3, 0, 0, 0, 0, 0]);
    assert_eq!(rec.into_message().unwrap(), msg);

    let msg = Message::new_remote(0x222, false, 6).unwrap();
    let rec = api::PCanMessage::from_message(msg.clone()).unwrap();
    assert_eq!(rec.tp, 0x01);
    assert_eq!(rec.len, 6);
    assert_eq!(rec.data, vec![0; 8]);
    assert_eq!(rec.into_message().unwrap(), msg);
}

#[test]
fn record_decode_validates() {
    let rec = api::PCanMessage { id: 0x800, tp: 0x00, len: 0, data: vec![0; 8] };
    assert!(matches!(rec.into_message(), Err(Error::IdTooLong)));
    let rec = api::PCanMessage { id: 0x1, tp: 0x00, len: 9, data: vec![0; 8] };
    assert!(matches!(rec.into_message(), Err(Error::DataTooLong)));
    let rec = api::PCanMessage { id: 0x1, tp: 0x01, len: 9, data: vec![0; 8] };
    assert!(matches!(rec.into_message(), Err(Error::DataTooLong)));
}

#[test]
fn record_filter_accepts_plain_frames() {
    assert!(api::accept_read_record(0x00));
    assert!(api::accept_read_record(0x01));
    assert!(api::accept_read_record(0x02));
    assert!(api::accept_read_record(0x03));
    assert!(!api::accept_read_record(0x80));
    assert!(!api::accept_read_record(0x04));
}

#[test]
fn timestamp_collapses_to_micros() {
    let ts = api::Timestamp { millis: 1, millis_overflow: 0, micros: 234 };
    assert_eq!(Timestamp::from(ts), Timestamp { micros: 1234 });
    let ts = api::Timestamp { millis: 0xFFFF_FFFF, millis_overflow: 0, micros: 999 };
    assert_eq!(
        Timestamp::from(ts),
        Timestamp { micros: 0xFFFF_FFFFu64 * 1000 + 999 }
    );
}

#[test]
fn status_bits_classified() {
    let e = api::Error { code: api::PCAN_ERROR_QRCVEMPTY };
    assert!(e.rx_empty());
    assert!(!e.rx_overflow());
    assert_eq!(e.other_error(), 0);
    assert_eq!(e.bus_error(), 0);

    let e = api::Error { code: api::PCAN_ERROR_OVERRUN | api::PCAN_ERROR_BUSLIGHT };
    assert!(e.rx_overflow());
    assert_eq!(e.bus_error(), api::PCAN_ERROR_BUSLIGHT);
    assert_eq!(e.other_error(), 0);

    let e = api::Error { code: api::PCAN_ERROR_INITIALIZE | api::PCAN_ERROR_XMTFULL };
    assert!(e.tx_overflow());
    assert_eq!(e.other_error(), api::PCAN_ERROR_INITIALIZE);

    assert!(api::Error::new(0).is_none());
    assert_eq!(api::Error::new(5).unwrap().code, 5);
    assert!(api::Error::result(0).is_ok());
    assert_eq!(api::Error::result(7).unwrap_err().code, 7);
}

#[test]
fn bus_error_severity_order() {
    assert!(matches!(
        api::parse_bus_error(api::PCAN_ERROR_BUSLIGHT),
        BusError::LightWarning
    ));
    assert!(matches!(
        api::parse_bus_error(api::PCAN_ERROR_BUSHEAVY),
        BusError::HeavyWarning
    ));
    assert!(matches!(
        api::parse_bus_error(api::PCAN_ERROR_BUSPASSIVE),
        BusError::Passive
    ));
    assert!(matches!(
        api::parse_bus_error(api::PCAN_ERROR_BUSOFF),
        BusError::Off
    ));
    // the most severe condition wins
    assert!(matches!(
        api::parse_bus_error(api::PCAN_ERROR_BUSOFF | api::PCAN_ERROR_BUSLIGHT),
        BusError::Off
    ));
}

fn sample_record() -> (api::PCanMessage, api::Timestamp) {
    let rec = api::PCanMessage { id: 0x77, tp: 0x00, len: 2, data: vec![5, 6, 0, 0, 0, 0, 0, 0] };
    let ts = api::Timestamp { millis: 2, millis_overflow: 0, micros: 1 };
    (rec, ts)
}

#[test]
fn receive_step_delivers_on_success() {
    match pcan::receive_step(0, Some(sample_record()), String::new()) {
        ReceiveStep::Report { error, message } => {
            assert!(error.is_none());
            let (msg, ts) = message.unwrap();
            assert_eq!(msg, Message::new_data(0x77, false, &[5, 6]).unwrap());
            assert_eq!(ts, Timestamp { micros: 2001 });
        }
        ReceiveStep::WaitForEvent => panic!("expected a report"),
    }
}

#[test]
fn receive_step_waits_when_queue_empty() {
    let r = pcan::receive_step(api::PCAN_ERROR_QRCVEMPTY, None, String::new());
    assert!(matches!(r, ReceiveStep::WaitForEvent));
    let r = pcan::receive_step(api::PCAN_ERROR_OVERRUN, None, String::new());
    assert!(matches!(r, ReceiveStep::WaitForEvent));
}

#[test]
fn receive_step_reports_driver_failure() {
    // a condition beyond the individually handled bits
    let status = api::PCAN_ERROR_INITIALIZE;
    match pcan::receive_step(status, None, "boom".to_string()) {
        ReceiveStep::Report { error, message } => {
            assert!(message.is_none());
            match error.unwrap() {
                Error::PCanReadFailed(code, desc) => {
                    assert_eq!(code, status);
                    assert_eq!(desc, "boom");
                }
                other => panic!("unexpected error {:?}", other),
            }
        }
        ReceiveStep::WaitForEvent => panic!("expected a report"),
    }
}

#[test]
fn receive_step_reports_bus_error_as_read_failure_and_still_delivers() {
    // a pure bus condition falls to the catch-all report, and a decodable
    // record read in the same call is still delivered after it
    match pcan::receive_step(api::PCAN_ERROR_BUSHEAVY, Some(sample_record()), "bus".to_string()) {
        ReceiveStep::Report { error, message } => {
            assert!(matches!(
                error.unwrap(),
                Error::PCanReadFailed(code, _) if code == api::PCAN_ERROR_BUSHEAVY
            ));
            assert!(message.is_some());
        }
        ReceiveStep::WaitForEvent => panic!("expected a report"),
    }
}

#[test]
fn receive_step_drops_undecodable_record() {
    let rec = api::PCanMessage { id: 0xFFFF_FFFF, tp: 0x00, len: 2, data: vec![0; 8] };
    let ts = api::Timestamp { millis: 0, millis_overflow: 0, micros: 0 };
    match pcan::receive_step(0, Some((rec, ts)), String::new()) {
        ReceiveStep::Report { error, message } => {
            assert!(error.is_none());
            assert!(message.is_none());
        }
        ReceiveStep::WaitForEvent => panic!("expected a report"),
    }
}

#[test]
fn wait_step_decisions() {
    assert!(matches!(pcan::wait_step(Ok(false)), WaitStep::Retry));
    // a wake-up that reports cancellation always ends the receive loop
    assert!(matches!(pcan::wait_step(Ok(true)), WaitStep::Exit));
    assert!(matches!(
        pcan::wait_step(Err(Error::Other("gone".to_string()))),
        WaitStep::FailAndExit(Error::Other(_))
    ));
}

#[test]
fn write_errors_mapped() {
    assert!(matches!(
        pcan::map_write_error(api::PCAN_ERROR_XMTFULL, String::new()),
        Error::TransmitQueueFull
    ));
    assert!(matches!(
        pcan::map_write_error(api::PCAN_ERROR_BUSOFF, String::new()),
        Error::BusError(BusError::Off)
    ));
    match pcan::map_write_error(api::PCAN_ERROR_INITIALIZE, "init".to_string()) {
        Error::PCanWriteFailed(code, desc) => {
            assert_eq!(code, api::PCAN_ERROR_INITIALIZE);
            assert_eq!(desc, "init");
        }
        other => panic!("unexpected error {:?}", other),
    }
    match pcan::map_write_error(api::PCAN_ERROR_OVERRUN, String::new()) {
        Error::PCanWriteFailed(code, desc) => {
            assert_eq!(code, 0);
            assert_eq!(desc, "Unknown Error");
        }
        other => panic!("unexpected error {:?}", other),
    }
}

#[test]
fn initialization_statuses() {
    assert!(pcan::initialize_result(0, String::new()).is_ok());
    // an already-initialized channel counts as success
    assert!(pcan::initialize_result(api::PCAN_ERROR_INITIALIZE, String::new()).is_ok());
    assert!(matches!(
        pcan::initialize_result(0x200, "no driver".to_string()),
        Err(Error::PCanInitFailed(0x200, _))
    ));
    assert!(pcan::needs_reinitialize(0, 125000, 500000));
    assert!(!pcan::needs_reinitialize(0, 125000, 125000));
    assert!(!pcan::needs_reinitialize(api::PCAN_ERROR_INITIALIZE, 0, 125000));
}

#[test]
fn channel_handles_name_back() {
    assert_eq!(pcan::DeviceInfo::new(0x51).interface_name().unwrap(), "usb1");
    assert_eq!(pcan::DeviceInfo::new(0x58).interface_name().unwrap(), "usb8");
    assert_eq!(pcan::DeviceInfo::new(0x41).interface_name().unwrap(), "pci1");
    assert_eq!(pcan::DeviceInfo::new(0x48).interface_name().unwrap(), "pci8");
    assert!(matches!(
        pcan::DeviceInfo::new(0x99).interface_name(),
        Err(Error::PCanUnknownInterfaceType(0x99))
    ));
}

#[test]
fn names_round_trip_through_parser() {
    for h in (0x41u16..=0x48).chain(0x51..=0x58) {
        let name = pcan::DeviceInfo::new(h).interface_name().unwrap();
        assert_eq!(pcan::parse_ifname(&name).unwrap(), h, "{}", name);
    }
}
