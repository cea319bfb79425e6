use ble_scanner::{
    AttributeReply, AttributeStep, BDAddr, ConnectReply, ConnectStep, Device, DeviceEvent,
    DeviceProperties, ScanConfig, Scanner, StartError, StartReply, StartStep, EVENT_CAPACITY,
};
use futures::executor::block_on;
use futures::{stream, StreamExt};
use stream_cancel::Valved;
use uuid::Uuid;

fn device() -> Device {
    Device::new(3, BDAddr::from([6, 5, 4, 3, 2, 1]))
}

#[test]
fn running_scanner_is_not_started_again() {
    let mut scanner = Scanner::new();
    let config = ScanConfig::default();
    assert!(matches!(
        scanner.start::<u8>(&config, StartReply::Session(true)),
        StartStep::Finish(Ok(()))
    ));
}

#[test]
fn start_uses_the_chosen_adapter() {
    let mut scanner = Scanner::new();
    let config = ScanConfig::default().adapter_index(2);
    assert!(matches!(
        scanner.start::<u8>(&config, StartReply::Adapters(Ok(3))),
        StartStep::Spawn(2)
    ));
    assert!(matches!(
        scanner.start::<u8>(&config, StartReply::Adapters(Ok(2))),
        StartStep::Finish(Err(StartError::DeviceNotFound))
    ));
}

#[test]
fn start_passes_errors_of_the_platform_on() {
    let mut scanner = Scanner::new();
    let config = ScanConfig::default();
    assert!(matches!(
        scanner.start(&config, StartReply::Manager(Err(7))),
        StartStep::Finish(Err(StartError::Platform(7)))
    ));
    assert!(matches!(
        scanner.start(&config, StartReply::Adapters(Err(8))),
        StartStep::Finish(Err(StartError::Platform(8)))
    ));
}

#[test]
fn stop_ends_the_streams_that_were_handed_out() {
    let mut scanner = Scanner::new();
    let (events, mut first) = Valved::new(stream::repeat(1u8));
    let (devices, mut second) = Valved::new(stream::repeat(2u8));
    scanner.device_event_stream(events);
    scanner.device_stream(devices);
    assert!(!scanner.stop_requested());
    assert_eq!(block_on(first.next()), Some(1));
    assert_eq!(block_on(second.next()), Some(2));
    scanner.stop();
    assert!(scanner.stop_requested());
    assert_eq!(block_on(first.next()), None);
    assert_eq!(block_on(second.next()), None);
}

#[test]
fn request_to_stop_outlives_new_streams() {
    let mut scanner = Scanner::default();
    scanner.stop();
    let (trigger, mut stream) = Valved::new(stream::repeat(1u8));
    scanner.device_stream(trigger);
    assert!(scanner.stop_requested());
    assert_eq!(block_on(stream.next()), Some(1));
}

#[test]
fn request_to_stop_is_void_once_a_scan_starts() {
    let mut scanner = Scanner::default();
    let config = ScanConfig::default();
    scanner.stop();
    let (trigger, mut stream) = Valved::new(stream::repeat(1u8));
    scanner.device_stream(trigger);
    scanner.start::<u8>(&config, StartReply::Session(true));
    scanner.start::<u8>(&config, StartReply::Manager(Ok(())));
    scanner.start::<u8>(&config, StartReply::Adapters(Ok(0)));
    assert!(scanner.stop_requested());
    scanner.start::<u8>(&config, StartReply::Adapters(Ok(1)));
    assert!(!scanner.stop_requested());
    assert_eq!(block_on(stream.next()), Some(1));
}

#[test]
fn stream_of_devices_is_the_discoveries_of_the_stream_of_events() {
    let other = Device::new(4, device().address());
    let received = [
        Ok(DeviceEvent::Discovered(device())),
        Err(2),
        Ok(DeviceEvent::Updated(device())),
        Ok(DeviceEvent::Discovered(other)),
        Ok(DeviceEvent::Disconnected(other)),
    ];
    let devices: Vec<Device> = received.iter().filter_map(|r| Scanner::forward_device(*r)).collect();
    let discoveries: Vec<Device> = received
        .iter()
        .filter_map(|r| Scanner::forward_event(*r))
        .filter_map(|event| match event {
            DeviceEvent::Discovered(device) => Some(device),
            _ => None,
        })
        .collect();
    assert_eq!(devices, vec![device(), other]);
    assert_eq!(devices, discoveries);
}

#[test]
fn streams_forward_what_they_are_for() {
    let updated = DeviceEvent::Updated(device());
    let discovered = DeviceEvent::Discovered(device());
    assert_eq!(Scanner::forward_event(Ok(updated)), Some(updated));
    assert_eq!(Scanner::forward_event(Err(4)), None);
    assert_eq!(Scanner::forward_device(Ok(discovered)), Some(device()));
    assert_eq!(Scanner::forward_device(Ok(updated)), None);
    assert_eq!(Scanner::forward_device(Err(4)), None);
    assert_eq!(EVENT_CAPACITY, 32);
}

#[test]
fn address_is_its_bytes() {
    let bytes = [0xE3, 0x9E, 0x2A, 0x4D, 0xAA, 0x97];
    assert_eq!(BDAddr::from(bytes).into_inner(), bytes);
    assert_eq!(BDAddr::from(bytes), BDAddr::from(bytes));
    for i in 0..6 {
        let mut other = bytes;
        other[i] ^= 1;
        assert_ne!(BDAddr::from(bytes), BDAddr::from(other));
    }
}

fn properties() -> DeviceProperties {
    DeviceProperties {
        address: device().address(),
        local_name: Some("lamp".into()),
        rssi: Some(-55),
        services: Vec::new(),
    }
}

#[test]
fn device_reads_its_properties() {
    assert_eq!(device().rssi::<u8>(Ok(Some(properties()))), Some(-55));
    assert_eq!(device().rssi::<u8>(Ok(None)), None);
    assert_eq!(device().rssi::<u8>(Err(1)), None);
    assert_eq!(device().local_name::<u8>(Ok(Some(properties()))), Some("lamp".into()));
    assert_eq!(device().local_name::<u8>(Ok(None)), None);
    assert_eq!(device().local_name::<u8>(Err(1)), None);
}

#[test]
fn device_is_connected_only_where_it_is_not() {
    let step = |reply| device().connect(reply);
    assert!(matches!(step(ConnectReply::State(Ok(true))), ConnectStep::Finish(Ok(()))));
    assert!(matches!(step(ConnectReply::State(Ok(false))), ConnectStep::Connect));
    assert!(matches!(step(ConnectReply::State(Err(2))), ConnectStep::Finish(Err(2))));
    assert!(matches!(step(ConnectReply::Attempt(Ok(()))), ConnectStep::Finish(Ok(()))));
    assert!(matches!(step(ConnectReply::Attempt(Err(3))), ConnectStep::Finish(Err(3))));
}

#[test]
fn services_are_enumerated_only_where_none_is_known() {
    assert!(matches!(
        device().services::<u8, u8>(AttributeReply::Known(vec![])),
        AttributeStep::Discover
    ));
    match device().services::<u8, u8>(AttributeReply::Known(vec![1, 2])) {
        AttributeStep::Finish(Ok(list)) => assert_eq!(list, vec![1, 2]),
        _ => unreachable!(),
    }
    match device().original_characteristics::<u8, u8>(AttributeReply::Discovered(Ok(vec![]))) {
        AttributeStep::Finish(Ok(list)) => assert!(list.is_empty()),
        _ => unreachable!(),
    }
    assert!(matches!(
        device().services::<u8, u8>(AttributeReply::Discovered(Err(9))),
        AttributeStep::Finish(Err(9))
    ));
    assert_eq!(device().service_count::<u8, u8>(Ok(vec![4, 5, 6])), Ok(3));
    assert_eq!(device().service_count::<u8, u8>(Err(1)), Err(1));
}

#[test]
fn characteristic_is_the_first_with_its_identifier() {
    let uuids = vec![Uuid::from_u128(1), Uuid::from_u128(2), Uuid::from_u128(2)];
    let listed = device().characteristics::<u8>(Ok(uuids.clone())).unwrap();
    assert_eq!(listed.len(), 3);
    assert_eq!(listed[2].position, 2);
    let found = device().characteristic::<u8>(Ok(uuids.clone()), Uuid::from_u128(2));
    assert_eq!(found, Ok(Some(listed[1])));
    assert_eq!(device().characteristic::<u8>(Ok(uuids), Uuid::from_u128(3)), Ok(None));
    assert_eq!(device().characteristic(Err(5), Uuid::from_u128(3)), Err(5));
    assert_eq!(device().characteristics(Err(5)), Err(5));
}
