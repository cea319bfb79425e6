use std::collections::BTreeMap;

use ble_scanner::{
    Answers, BDAddr, CentralEvent, Device, DeviceEvent, DeviceProperties, Filter, Reply, Request,
    ScanConfig, Scanner, ScannerWorker, StartReply, StartStep,
};
use uuid::Uuid;

/// A device as the simulated adapter has it.
#[derive(Clone)]
struct Simulated {
    address: [u8; 6],
    name: Option<&'static str>,
    rssi: Option<i16>,
    services: Vec<Uuid>,
    readable: bool,
    connected: Option<bool>,
    connects: bool,
    known: Vec<Uuid>,
    discovers: bool,
    fresh: Vec<Uuid>,
}

fn simulated(address: [u8; 6]) -> Simulated {
    Simulated {
        address,
        name: None,
        rssi: None,
        services: Vec::new(),
        readable: true,
        connected: Some(false),
        connects: true,
        known: Vec::new(),
        discovers: true,
        fresh: Vec::new(),
    }
}

/// An adapter with a few devices that goes through a list of events.
struct Adapter {
    devices: BTreeMap<u64, Simulated>,
    events: Vec<CentralEvent>,
    taken: usize,
    now: u128,
    tick: u128,
    stop_requested: bool,
    requests: Vec<Request>,
}

fn adapter(devices: Vec<(u64, Simulated)>, events: Vec<CentralEvent>) -> Adapter {
    Adapter {
        devices: devices.into_iter().collect(),
        events,
        taken: 0,
        now: 0,
        tick: 1,
        stop_requested: false,
        requests: Vec::new(),
    }
}

impl Adapter {
    fn perform(&mut self, request: Request) -> Reply {
        self.requests.push(request);
        match request {
            Request::StartScan => Reply::Started(Some(self.now)),
            Request::OpenEvents => Reply::Opened(self.taken < self.events.len()),
            Request::NextEvent => {
                let event = self.events.get(self.taken).copied();
                self.taken += 1;
                self.now += self.tick;
                Reply::Event { event, now: self.now, stop_requested: self.stop_requested }
            }
            Request::FindPeripheral(id) => {
                Reply::Peripheral(self.devices.get(&id).map(|d| BDAddr::from(d.address)))
            }
            Request::ReadProperties(id) => {
                let d = &self.devices[&id];
                Reply::Properties(if d.readable {
                    Some(DeviceProperties {
                        address: BDAddr::from(d.address),
                        local_name: d.name.map(String::from),
                        rssi: d.rssi,
                        services: d.services.clone(),
                    })
                } else {
                    None
                })
            }
            Request::CheckConnection(id) => Reply::Connection(self.devices[&id].connected),
            Request::Connect(id) => Reply::Connected(self.devices[&id].connects),
            Request::ReadCharacteristics(id) => {
                Reply::Characteristics(self.devices[&id].known.clone())
            }
            Request::Disconnect(_) => Reply::Disconnected(true),
            Request::DiscoverServices(id) => {
                let d = self.devices.get_mut(&id).unwrap();
                d.known = d.fresh.clone();
                Reply::ServicesDiscovered(d.discovers)
            }
            Request::CheckStop => {
                Reply::Clock { now: self.now, stop_requested: self.stop_requested }
            }
            Request::Finish => unreachable!(),
        }
    }

    fn scan(&mut self, config: ScanConfig) -> Vec<DeviceEvent> {
        let mut worker = ScannerWorker::new(config);
        let mut reports = Vec::new();
        loop {
            let request = worker.request();
            if request == Request::Finish {
                return reports;
            }
            let reply = self.perform(request);
            if let Some(event) = worker.scan(reply) {
                reports.push(event);
            }
        }
    }
}

fn discovered(id: u64, address: [u8; 6]) -> DeviceEvent {
    DeviceEvent::Discovered(Device::new(id, BDAddr::from(address)))
}

fn see(ids: &[u64]) -> Vec<CentralEvent> {
    ids.iter().map(|id| CentralEvent::DeviceDiscovered(*id)).collect()
}

const A: [u8; 6] = [1, 2, 3, 4, 5, 6];
const B: [u8; 6] = [1, 2, 3, 4, 5, 7];

/// Starts a scanner the way a client does, and scans.
fn start_and_scan(adapter: &mut Adapter, config: ScanConfig) -> Vec<Device> {
    let mut scanner = Scanner::default();
    assert!(matches!(
        scanner.start::<u8>(&config, StartReply::Session(false)),
        StartStep::OpenManager
    ));
    assert!(matches!(
        scanner.start::<u8>(&config, StartReply::Manager(Ok(()))),
        StartStep::ListAdapters
    ));
    assert!(matches!(
        scanner.start::<u8>(&config, StartReply::Adapters(Ok(1))),
        StartStep::Spawn(0)
    ));
    adapter
        .scan(config)
        .into_iter()
        .filter_map(|event| Scanner::forward_device(Ok(event)))
        .collect()
}

#[test]
fn test_filter_by_address() {
    let mac_addr = [0xE3, 0x9E, 0x2A, 0x4D, 0xAA, 0x97];
    let filters = vec![Filter::Address(BDAddr::from(mac_addr))];
    let cfg = ScanConfig::default().with_filters(&filters).stop_after_first_match();
    let mut a = adapter(vec![(1, simulated(A)), (2, simulated(mac_addr))], see(&[1, 2, 1]));
    let devices = start_and_scan(&mut a, cfg);
    assert_eq!(devices.len(), 1);
    assert_eq!(devices[0].address(), BDAddr::from(mac_addr));
    assert_eq!(a.taken, 2);
}

#[test]
fn test_filter_by_character() {
    let uuid = Uuid::from_u128(0x6e400001_b5a3_f393_e0a9_e50e24dcca9e);
    let filters = vec![Filter::Characteristic(uuid)];
    let cfg = ScanConfig::default().with_filters(&filters).stop_after_first_match();
    let other = Simulated { fresh: vec![Uuid::from_u128(7)], ..simulated(A) };
    let wanted = Simulated { fresh: vec![Uuid::from_u128(7), uuid], ..simulated(B) };
    let mut a = adapter(vec![(1, other), (2, wanted)], see(&[1, 2]));
    let devices = start_and_scan(&mut a, cfg);
    assert_eq!(devices, vec![Device::new(2, BDAddr::from(B))]);
}

#[test]
fn test_filter_by_name() {
    let name = "73429485";
    let filters = vec![Filter::Name(name.into())];
    let cfg = ScanConfig::default().with_filters(&filters).stop_after_first_match();
    let other = Simulated { name: Some("7342948"), ..simulated(A) };
    let wanted = Simulated { name: Some(name), ..simulated(B) };
    let mut a = adapter(vec![(1, other), (2, wanted), (3, simulated(A))], see(&[1, 3, 2]));
    let devices = start_and_scan(&mut a, cfg);
    assert_eq!(devices.len(), 1);
    let read = a.perform(Request::ReadProperties(devices[0].id));
    if let Reply::Properties(properties) = read {
        assert_eq!(devices[0].local_name::<()>(Ok(properties)), Some(name.into()));
    } else {
        unreachable!();
    }
}

#[test]
fn test_filter_by_rssi() {
    let filters = vec![Filter::Rssi(-70)];
    let cfg = ScanConfig::default().with_filters(&filters).stop_after_first_match();
    let weak = Simulated { rssi: Some(-71), ..simulated(A) };
    let least = Simulated { rssi: Some(-70), ..simulated(B) };
    let mut a = adapter(vec![(1, weak), (2, least)], see(&[1, 2]));
    assert_eq!(start_and_scan(&mut a, cfg), vec![Device::new(2, BDAddr::from(B))]);
}

#[test]
fn signal_has_to_be_known_and_strong_enough() {
    let cfg = ScanConfig::default().with_filters(&[Filter::Rssi(-70)]);
    let weak = Simulated { rssi: Some(-71), ..simulated(A) };
    let least = Simulated { rssi: Some(-70), ..simulated(B) };
    let strong = Simulated { rssi: Some(-3), ..simulated(A) };
    let unknown = simulated(B);
    let mut a = adapter(
        vec![(1, weak), (2, least), (3, strong), (4, unknown)],
        see(&[1, 2, 3, 4]),
    );
    let devices = start_and_scan(&mut a, cfg);
    assert_eq!(devices.iter().map(|d| d.id).collect::<Vec<_>>(), vec![2, 3]);
}

#[test]
fn test_filter_by_service() {
    let service = Uuid::from_u128(0x6e400001_b5a3_f393_e0a9_e50e24dcca9e);
    let filters = vec![Filter::Service(service)];
    let cfg = ScanConfig::default().with_filters(&filters).stop_after_first_match();
    let other = Simulated { services: vec![Uuid::from_u128(1)], ..simulated(A) };
    let wanted = Simulated { services: vec![Uuid::from_u128(1), service], ..simulated(B) };
    let mut a = adapter(vec![(1, other), (2, wanted)], see(&[1, 2]));
    assert_eq!(start_and_scan(&mut a, cfg), vec![Device::new(2, BDAddr::from(B))]);
}

#[test]
fn default_configuration_reports_every_readable_device() {
    let unreadable = Simulated { readable: false, ..simulated(A) };
    let mut a = adapter(vec![(1, simulated(A)), (2, unreadable), (3, simulated(B))], see(&[1, 2, 3]));
    assert_eq!(a.scan(ScanConfig::default()), vec![discovered(1, A), discovered(3, B)]);
}

#[test]
fn name_predicate_sees_the_name_of_the_device() {
    let long = Simulated { name: Some("sensor-12"), ..simulated(A) };
    let short = Simulated { name: Some("tag"), ..simulated(B) };
    let mut a = adapter(vec![(1, long), (2, short), (3, simulated(A))], see(&[1, 2, 3]));
    let config = ScanConfig::default().filter_by_name(|name| name.starts_with("sensor"));
    assert_eq!(a.scan(config), vec![discovered(1, A)]);
}

#[test]
fn name_predicate_decides_in_place_of_listed_names() {
    let device = Simulated { name: Some("sensor-12"), ..simulated(A) };
    let listed = vec![Filter::Name("tag".into())];
    let accept = ScanConfig::default().with_filters(&listed).filter_by_name(|n| n.len() == 9);
    let reject = ScanConfig::default().with_filters(&listed).filter_by_name(|n| n == "tag");
    assert_eq!(
        adapter(vec![(1, device.clone())], see(&[1])).scan(accept),
        vec![discovered(1, A)]
    );
    assert_eq!(adapter(vec![(1, device)], see(&[1])).scan(reject), vec![]);
}

#[test]
fn required_name_has_to_be_there_and_not_empty() {
    let named = Simulated { name: Some("x"), ..simulated(A) };
    let empty = Simulated { name: Some(""), ..simulated(B) };
    let mut a = adapter(vec![(1, named), (2, empty), (3, simulated(B))], see(&[1, 2, 3]));
    assert_eq!(a.scan(ScanConfig::default().require_name()), vec![discovered(1, A)]);
}

#[test]
fn required_name_keeps_an_earlier_predicate() {
    let named = Simulated { name: Some("x"), ..simulated(A) };
    let empty = Simulated { name: Some(""), ..simulated(B) };
    let mut a = adapter(vec![(1, named), (2, empty), (3, simulated(B))], see(&[1, 2, 3]));
    let config = ScanConfig::default().filter_by_name(|n| n.is_empty()).require_name();
    assert_eq!(a.scan(config), vec![discovered(2, B)]);
}

#[test]
fn predicates_on_address_rssi_and_service() {
    let one = Uuid::from_u128(1);
    let two = Uuid::from_u128(2);
    let device = |address, rssi, services: &[Uuid]| Simulated {
        rssi,
        services: services.to_vec(),
        ..simulated(address)
    };
    let devices = || {
        vec![
            (1, device(A, Some(-10), &[one, two])),
            (2, device(B, Some(-90), &[one])),
            (3, device(B, None, &[])),
        ]
    };
    let b = BDAddr::from(B);
    let by_address = ScanConfig::default().filter_by_address(move |address| address == b);
    let by_rssi = ScanConfig::default().filter_by_rssi(|rssi| rssi < -50);
    let by_service = ScanConfig::default().filter_by_service(move |uuid| *uuid == two);
    let events = see(&[1, 2, 3]);
    assert_eq!(
        adapter(devices(), events.clone()).scan(by_address),
        vec![discovered(2, B), discovered(3, B)]
    );
    assert_eq!(adapter(devices(), events.clone()).scan(by_rssi), vec![discovered(2, B)]);
    assert_eq!(adapter(devices(), events).scan(by_service), vec![discovered(1, A)]);
}

#[test]
fn filters_are_joined_and_their_order_is_free() {
    let device = Simulated { name: Some("n"), rssi: Some(-40), ..simulated(A) };
    let name = || Filter::Name("n".into());
    let orders = vec![
        vec![name(), Filter::Rssi(-50), Filter::Address(BDAddr::from(A))],
        vec![Filter::Address(BDAddr::from(A)), name(), Filter::Rssi(-50)],
    ];
    let mut repeated = orders[0].clone();
    repeated.extend_from_slice(&orders[1]);
    for filters in orders.into_iter().chain([repeated]) {
        let config = ScanConfig::default().with_filters(&filters);
        let mut a = adapter(vec![(1, device.clone())], see(&[1]));
        assert_eq!(a.scan(config), vec![discovered(1, A)]);
        let narrowed = ScanConfig::default().with_filters(&filters).with_filters(&[Filter::Rssi(0)]);
        let mut a = adapter(vec![(1, device.clone())], see(&[1]));
        assert_eq!(a.scan(narrowed), vec![]);
    }
}

#[test]
fn device_is_discovered_once_and_then_updated() {
    let mut a = adapter(
        vec![(1, simulated(A))],
        vec![
            CentralEvent::DeviceUpdated(1),
            CentralEvent::DeviceDiscovered(1),
            CentralEvent::DeviceUpdated(1),
            CentralEvent::DeviceConnected(1),
            CentralEvent::DeviceDisconnected(1),
            CentralEvent::Other,
        ],
    );
    let device = Device::new(1, BDAddr::from(A));
    assert_eq!(
        a.scan(ScanConfig::default()),
        vec![
            DeviceEvent::Discovered(device),
            DeviceEvent::Updated(device),
            DeviceEvent::Connected(device),
            DeviceEvent::Disconnected(device),
        ]
    );
}

#[test]
fn rejected_device_is_never_looked_at_again() {
    let mut a = adapter(
        vec![(1, simulated(A))],
        vec![
            CentralEvent::DeviceDiscovered(1),
            CentralEvent::DeviceUpdated(1),
            CentralEvent::DeviceConnected(1),
            CentralEvent::DeviceDisconnected(1),
        ],
    );
    let config = ScanConfig::default().with_filters(&[Filter::Rssi(-1)]);
    assert_eq!(a.scan(config), vec![]);
    let reads = a.requests.iter().filter(|r| **r == Request::ReadProperties(1)).count();
    assert_eq!(reads, 1);
}

#[test]
fn device_that_the_adapter_lost_is_skipped_and_may_come_back() {
    let mut a = adapter(vec![(1, simulated(A))], see(&[9, 1]));
    assert_eq!(a.scan(ScanConfig::default()), vec![discovered(1, A)]);
    assert!(!a.requests.contains(&Request::ReadProperties(9)));
}

#[test]
fn scan_stops_at_the_limit() {
    let devices: Vec<(u64, Simulated)> = (1..6).map(|id| (id, simulated(A))).collect();
    let mut a = adapter(devices.clone(), see(&[1, 2, 3, 4, 5]));
    assert_eq!(a.scan(ScanConfig::default().stop_after_matches(2)).len(), 2);
    assert_eq!(a.taken, 2);
    let mut a = adapter(devices, see(&[1, 2, 3, 4, 5]));
    assert_eq!(a.scan(ScanConfig::default().stop_after_matches(0)), vec![]);
    assert_eq!(a.taken, 0);
}

#[test]
fn scan_stops_when_its_time_is_up() {
    let devices: Vec<(u64, Simulated)> = (1..6).map(|id| (id, simulated(A))).collect();
    let mut a = adapter(devices, see(&[1, 2, 3, 4, 5]));
    a.now = 1000;
    a.tick = 10;
    let reports = a.scan(ScanConfig::default().stop_after_timeout(30));
    assert_eq!(reports.len(), 2);
    assert_eq!(a.now, 1030);
}

#[test]
fn scan_stops_before_any_event_on_request() {
    let mut a = adapter(vec![(1, simulated(A)), (2, simulated(B))], see(&[1, 2]));
    a.stop_requested = true;
    assert_eq!(a.scan(ScanConfig::default()), vec![]);
    assert_eq!(a.taken, 0);
}

fn listening(config: ScanConfig) -> ScannerWorker {
    let mut worker = ScannerWorker::new(config);
    worker.scan(Reply::Started(Some(100)));
    worker.scan(Reply::Opened(true));
    worker.scan(Reply::Clock { now: 100, stop_requested: false });
    assert_eq!(worker.request(), Request::NextEvent);
    worker
}

#[test]
fn event_that_comes_after_the_request_to_stop_is_not_taken_up() {
    let mut worker = listening(ScanConfig::default());
    let event = Some(CentralEvent::DeviceDiscovered(1));
    assert_eq!(worker.scan(Reply::Event { event, now: 101, stop_requested: true }), None);
    assert_eq!(worker.request(), Request::Finish);
}

#[test]
fn request_to_stop_ends_a_scan_that_waits() {
    let mut worker = listening(ScanConfig::default());
    worker.scan(Reply::Clock { now: 101, stop_requested: false });
    assert_eq!(worker.request(), Request::NextEvent);
    worker.scan(Reply::Clock { now: 102, stop_requested: true });
    assert_eq!(worker.request(), Request::Finish);
}

#[test]
fn timeout_ends_a_scan_that_waits() {
    let mut worker = listening(ScanConfig::default().stop_after_timeout(30));
    assert_eq!(worker.deadline(), Some(130));
    worker.scan(Reply::Clock { now: 129, stop_requested: false });
    assert_eq!(worker.request(), Request::NextEvent);
    worker.scan(Reply::Clock { now: 130, stop_requested: false });
    assert_eq!(worker.request(), Request::Finish);
}

#[test]
fn timeout_ends_a_scan_that_waits_for_a_device() {
    let mut worker = listening(ScanConfig::default().stop_after_timeout(30));
    let event = Some(CentralEvent::DeviceDiscovered(1));
    worker.scan(Reply::Event { event, now: 101, stop_requested: false });
    assert_eq!(worker.request(), Request::FindPeripheral(1));
    assert_eq!(worker.scan(Reply::Clock { now: 131, stop_requested: false }), None);
    assert_eq!(worker.request(), Request::Finish);
}

#[test]
fn stream_that_is_opened_anew_does_not_restart_the_time() {
    let mut worker = listening(ScanConfig::default().stop_after_timeout(30));
    worker.scan(Reply::Event { event: None, now: 120, stop_requested: false });
    assert_eq!(worker.request(), Request::OpenEvents);
    worker.scan(Reply::Opened(true));
    assert_eq!(worker.deadline(), Some(130));
    worker.scan(Reply::Clock { now: 130, stop_requested: false });
    assert_eq!(worker.request(), Request::Finish);
}

#[test]
fn deadline_is_there_once_the_scan_has_begun() {
    let mut worker = ScannerWorker::new(ScanConfig::default().stop_after_timeout(u128::MAX));
    assert_eq!(worker.deadline(), None);
    worker.scan(Reply::Started(Some(0)));
    assert_eq!(worker.deadline(), Some(u128::MAX));
    let mut worker = ScannerWorker::new(ScanConfig::default().stop_after_timeout(u128::MAX));
    worker.scan(Reply::Started(Some(1)));
    assert_eq!(worker.deadline(), None);
    assert_eq!(listening(ScanConfig::default()).deadline(), None);
}

#[test]
fn scan_that_does_not_start_is_over() {
    let mut worker = ScannerWorker::new(ScanConfig::default());
    assert_eq!(worker.request(), Request::StartScan);
    assert_eq!(worker.scan(Reply::Started(None)), None);
    assert_eq!(worker.request(), Request::Finish);
    let event = Some(CentralEvent::DeviceDiscovered(1));
    assert_eq!(worker.scan(Reply::Event { event, now: 0, stop_requested: false }), None);
    assert_eq!(worker.request(), Request::Finish);
}

#[test]
fn stream_that_ends_is_opened_anew() {
    let mut worker = listening(ScanConfig::default());
    worker.scan(Reply::Event { event: None, now: 101, stop_requested: false });
    assert_eq!(worker.request(), Request::OpenEvents);
    worker.scan(Reply::Opened(false));
    assert_eq!(worker.request(), Request::Finish);
}

#[test]
fn reply_to_something_else_changes_nothing() {
    let mut worker = ScannerWorker::new(ScanConfig::default());
    worker.scan(Reply::Opened(true));
    assert_eq!(worker.request(), Request::StartScan);
    assert_eq!(worker.result_count(), 0);
}

#[test]
fn known_characteristics_are_looked_up() {
    let uuid = Uuid::from_u128(5);
    let other = Uuid::from_u128(6);
    let lacking = Simulated { known: vec![other], connected: Some(true), ..simulated(A) };
    let having = Simulated { known: vec![other, uuid], connected: Some(true), ..simulated(B) };
    let config = ScanConfig::default().with_filters(&[Filter::Characteristic(uuid)]);
    let mut a = adapter(vec![(1, lacking), (2, having)], see(&[1, 2]));
    assert_eq!(a.scan(config), vec![discovered(2, B)]);
    assert!(!a.requests.contains(&Request::DiscoverServices(1)));
    assert!(!a.requests.contains(&Request::DiscoverServices(2)));
}

#[test]
fn characteristics_predicate_sees_known_and_enumerated_ones() {
    let five = Uuid::from_u128(5);
    let known = Simulated { known: vec![five], ..simulated(A) };
    let other = Simulated { known: vec![Uuid::from_u128(6)], ..simulated(B) };
    let fresh = Simulated { fresh: vec![Uuid::from_u128(6), five], ..simulated(A) };
    let none = simulated(B);
    let mut a = adapter(
        vec![(1, known), (2, other), (3, fresh), (4, none)],
        see(&[1, 2, 3, 4]),
    );
    let config =
        ScanConfig::default().filter_by_characteristics(move |uuids| uuids.contains(&five));
    assert_eq!(a.scan(config), vec![discovered(1, A), discovered(3, A)]);
}

#[test]
fn failed_connection_rejects_and_is_attempted_anew() {
    let uuid = Uuid::from_u128(5);
    let device = Simulated { connects: false, ..simulated(A) };
    let filters = [Filter::Characteristic(uuid), Filter::Characteristic(uuid)];
    let mut a = adapter(vec![(1, device)], see(&[1]));
    assert_eq!(a.scan(ScanConfig::default().with_filters(&filters)), vec![]);
    let attempts = a.requests.iter().filter(|r| **r == Request::Connect(1)).count();
    assert_eq!(attempts, 2);
}

#[test]
fn connection_under_way_is_not_attempted_again() {
    let uuid = Uuid::from_u128(5);
    let device = Simulated { fresh: vec![uuid], connected: None, ..simulated(A) };
    let filters = [Filter::Characteristic(uuid), Filter::Characteristic(uuid)];
    let mut a = adapter(vec![(1, device)], see(&[1]));
    assert_eq!(a.scan(ScanConfig::default().with_filters(&filters)), vec![discovered(1, A)]);
    let attempts = a.requests.iter().filter(|r| **r == Request::Connect(1)).count();
    assert_eq!(attempts, 1);
}

#[test]
fn failed_enumeration_rejects() {
    let uuid = Uuid::from_u128(5);
    let device = Simulated { connected: Some(true), discovers: false, ..simulated(A) };
    let config = ScanConfig::default().with_filters(&[Filter::Characteristic(uuid)]);
    let mut a = adapter(vec![(1, device)], see(&[1]));
    assert_eq!(a.scan(config), vec![]);
    assert!(!a.requests.contains(&Request::Connect(1)));
}

#[test]
fn forced_disconnection_comes_before_enumeration() {
    let uuid = Uuid::from_u128(5);
    let device = Simulated { connected: Some(true), fresh: vec![uuid], ..simulated(A) };
    let config = ScanConfig::default()
        .with_filters(&[Filter::Characteristic(uuid)])
        .force_disconnect(true);
    let mut a = adapter(vec![(1, device)], see(&[1]));
    assert_eq!(a.scan(config), vec![discovered(1, A)]);
    let probing: Vec<Request> = a
        .requests
        .iter()
        .copied()
        .skip_while(|r| *r != Request::CheckConnection(1))
        .take_while(|r| *r != Request::CheckStop)
        .collect();
    assert_eq!(
        probing,
        vec![
            Request::CheckConnection(1),
            Request::ReadCharacteristics(1),
            Request::Disconnect(1),
            Request::DiscoverServices(1),
            Request::ReadCharacteristics(1),
        ]
    );
}

#[test]
fn answers_can_be_given_from_outside() {
    let mut worker = ScannerWorker::new(ScanConfig::default());
    let none = Answers::none();
    worker.resume(Reply::Started(Some(0)), none);
    worker.resume(Reply::Opened(true), none);
    worker.resume(Reply::Clock { now: 0, stop_requested: false }, none);
    let event = Some(CentralEvent::DeviceDiscovered(4));
    worker.resume(Reply::Event { event, now: 1, stop_requested: false }, none);
    worker.resume(Reply::Peripheral(Some(BDAddr::from(A))), none);
    worker.resume(Reply::Peripheral(Some(BDAddr::from(A))), none);
    assert_eq!(worker.request(), Request::ReadProperties(4));
    let properties = DeviceProperties {
        address: BDAddr::from(A),
        local_name: None,
        rssi: None,
        services: Vec::new(),
    };
    let rejected = Answers { rssi: Some(false), ..none };
    assert_eq!(worker.resume(Reply::Properties(Some(properties)), rejected), None);
    assert_eq!(worker.request(), Request::CheckStop);
    assert_eq!(worker.result_count(), 0);
}

#[test]
fn filters_can_be_listed_in_parts() {
    let device = Simulated { name: Some("n"), rssi: Some(-40), ..simulated(A) };
    let other = Simulated { name: Some("n"), rssi: Some(-90), ..simulated(B) };
    let devices = vec![(1, device), (2, other)];
    let parts = ScanConfig::default()
        .with_filters(&[Filter::Name("n".into())])
        .with_filters(&[Filter::Rssi(-50)]);
    let whole = ScanConfig::default().with_filters(&[Filter::Name("n".into()), Filter::Rssi(-50)]);
    let reports = adapter(devices.clone(), see(&[1, 2])).scan(parts);
    assert_eq!(reports, vec![discovered(1, A)]);
    assert_eq!(reports, adapter(devices, see(&[1, 2])).scan(whole));
}

#[test]
fn event_is_dealt_with_in_a_bounded_number_of_requests() {
    let uuid = Uuid::from_u128(5);
    let device = simulated(A);
    let filters = [Filter::Characteristic(uuid), Filter::Characteristic(uuid)];
    let config = ScanConfig::default().with_filters(&filters).force_disconnect(true);
    let mut a = adapter(vec![(1, device)], see(&[1]));
    assert_eq!(a.scan(config), vec![]);
    let requests = a
        .requests
        .iter()
        .skip_while(|r| **r != Request::FindPeripheral(1))
        .take_while(|r| **r != Request::CheckStop)
        .count();
    assert!(requests <= 6 * filters.len() + 3);
    assert_eq!(requests, 14);
}

#[test]
fn clock_that_runs_backwards_shows_no_elapsed_time() {
    let mut worker = listening(ScanConfig::default().stop_after_timeout(1));
    worker.scan(Reply::Clock { now: 3, stop_requested: false });
    assert_eq!(worker.request(), Request::NextEvent);
    worker.scan(Reply::Clock { now: 101, stop_requested: false });
    assert_eq!(worker.request(), Request::Finish);
}

#[test]
fn connected_device_is_filtered_and_then_followed() {
    let uuid = Uuid::from_u128(5);
    let device = Simulated { fresh: vec![uuid], ..simulated(A) };
    let mut a = adapter(
        vec![(1, device)],
        vec![CentralEvent::DeviceConnected(1), CentralEvent::DeviceDisconnected(1)],
    );
    let config = ScanConfig::default().with_filters(&[Filter::Characteristic(uuid)]);
    let device = Device::new(1, BDAddr::from(A));
    assert_eq!(
        a.scan(config),
        vec![DeviceEvent::Discovered(device), DeviceEvent::Disconnected(device)]
    );
}

#[test]
fn configuration_says_when_it_stops() {
    let config = ScanConfig::default().stop_after_matches(2).stop_after_timeout(100);
    assert!(!config.stops(99, 1, false));
    assert!(config.stops(100, 1, false));
    assert!(config.stops(0, 2, false));
    assert!(config.stops(0, 0, true));
    assert!(!ScanConfig::default().stops(u128::MAX, usize::MAX, false));
}
