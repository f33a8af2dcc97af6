use ftd2xx::text::store_text;
use ftd2xx::{scan_devices, scan_start, DeviceInfo, FTError, ScanStep, FT_OK};

fn scan_node(flags: u32, id: u32, serial: &str, description: &str, handle: usize) -> DeviceInfo {
    DeviceInfo {
        flags,
        device_type: 8,
        id,
        loc_id: 0x132,
        serial_number: store_text::<16>(serial.as_bytes()),
        description: store_text::<64>(description.as_bytes()),
        handle,
    }
}

#[test]
fn scan_start_with_no_device_is_an_empty_success() {
    match scan_start(FT_OK, 0) {
        ScanStep::Done(Ok(devices)) => assert!(devices.is_empty()),
        other => panic!("unexpected step: {:?}", other),
    }
}

#[test]
fn scan_start_hands_on_a_failure() {
    match scan_start(4, 0) {
        ScanStep::Done(Err(e)) => assert_eq!(e, FTError { status: 4 }),
        other => panic!("unexpected step: {:?}", other),
    }
    match scan_start(19, 7) {
        ScanStep::Done(Err(e)) => assert_eq!(e.raw(), 19),
        other => panic!("unexpected step: {:?}", other),
    }
}

#[test]
fn scan_start_asks_for_as_many_records_as_devices() {
    match scan_start(FT_OK, 1) {
        ScanStep::Fetch(n) => assert_eq!(n, 1),
        other => panic!("unexpected step: {:?}", other),
    }
    match scan_start(FT_OK, 5) {
        ScanStep::Fetch(n) => assert_eq!(n, 5),
        other => panic!("unexpected step: {:?}", other),
    }
    match scan_start(FT_OK, u32::MAX) {
        ScanStep::Fetch(n) => assert_eq!(n, u32::MAX),
        other => panic!("unexpected step: {:?}", other),
    }
}

#[test]
fn scan_devices_of_no_record_is_empty() {
    let devices = scan_devices(FT_OK, &[]).unwrap();
    assert_eq!(devices.len(), 0);
}

#[test]
fn scan_devices_hands_on_a_failure() {
    let nodes = [scan_node(0, 1, "A", "first", 0)];
    assert_eq!(scan_devices(2, &nodes).unwrap_err(), FTError { status: 2 });
    assert_eq!(scan_devices(18, &[]).unwrap_err(), FTError { status: 18 });
}

#[test]
fn scan_devices_makes_one_session_for_each_record() {
    for n in 0..12usize {
        let nodes: Vec<DeviceInfo> = (0..n)
            .map(|i| scan_node(0, i as u32, "S", "D", 0))
            .collect();
        let devices = scan_devices(FT_OK, &nodes).unwrap();
        assert_eq!(devices.len(), n);
    }
}

#[test]
fn scan_devices_numbers_the_sessions_in_the_order_of_the_list() {
    let nodes = [
        scan_node(2, 0x0403_6001, "FT0001", "first", 0),
        scan_node(0, 0x0403_6010, "FT0002", "second", 0),
        scan_node(3, 0x0403_6014, "FT0003", "third", 0),
    ];
    let devices = scan_devices(FT_OK, &nodes).unwrap();
    assert_eq!(devices.len(), 3);
    for (i, device) in devices.iter().enumerate() {
        assert_eq!(device.open_request(), Ok(i as i32));
        assert_eq!(device.get_flags(), nodes[i].flags);
        assert_eq!(device.get_id(), nodes[i].id);
    }
    assert_eq!(devices[0].get_serial_number(), Some("FT0001"));
    assert_eq!(devices[1].get_serial_number(), Some("FT0002"));
    assert_eq!(devices[2].get_serial_number(), Some("FT0003"));
    assert_eq!(devices[0].get_description(), Some("first"));
    assert_eq!(devices[1].get_description(), Some("second"));
    assert_eq!(devices[2].get_description(), Some("third"));
}

#[test]
fn scan_devices_gives_distinct_positions() {
    let nodes: Vec<DeviceInfo> = (0..6).map(|_| scan_node(0, 7, "same", "same", 0)).collect();
    let devices = scan_devices(FT_OK, &nodes).unwrap();
    let mut numbers: Vec<i32> = devices
        .iter()
        .map(|d| d.open_request().unwrap())
        .collect();
    assert_eq!(numbers, vec![0, 1, 2, 3, 4, 5]);
    numbers.dedup();
    assert_eq!(numbers.len(), 6);
}

#[test]
fn scan_devices_keeps_the_handle_of_a_record() {
    let nodes = [
        scan_node(1, 1, "open", "held by this process", 0x7f00),
        scan_node(0, 2, "closed", "free", 0),
    ];
    let devices = scan_devices(FT_OK, &nodes).unwrap();
    assert_eq!(devices[0].get_handle(), 0x7f00);
    assert_eq!(devices[1].get_handle(), 0);
    assert_eq!(devices[0].close_request(), Ok(0x7f00));
    assert_eq!(devices[1].open_request(), Ok(1));
}
