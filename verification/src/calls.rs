//! What each call does, said of its arguments and its results.

use stream_cancel::Trigger;
use uuid::Uuid;
use vstd::prelude::*;

use crate::address::BDAddr;
use crate::config::{ConfigView, ScanConfig};
use crate::device::{
    AttributeReply, AttributeStep, Characteristic, ConnectReply, ConnectStep, Device, DeviceEvent,
};
use crate::filter::{
    list_probe_rounds, match_advertisement, Answers, DeviceProperties, Filter, FilterView,
    PropertiesView,
};
use crate::model::WorkerView;
use crate::protocol::{Candidate, Notice, Phase, Reply, Request, Stage};
use crate::scanner::{Scanner, StartError, StartReply, StartStep};
use crate::worker::ScannerWorker;

verus! {

/// Each setting of a configuration sets what it is given and leaves the rest as it was.
pub proof fn law_settings(
    config: ScanConfig,
    made: ScanConfig,
    number: usize,
    duration: u128,
    forced: bool,
    filters: &[Filter],
)
    ensures
        call_ensures(ScanConfig::adapter_index, (config, number), made) ==> {
            &&& made@.adapter_index == number
            &&& made@ == (ConfigView { adapter_index: made@.adapter_index, ..config@ })
        },
        call_ensures(ScanConfig::stop_after_matches, (config, number), made) ==> {
            &&& made@.max_results == Some(number)
            &&& made@ == (ConfigView { max_results: made@.max_results, ..config@ })
        },
        call_ensures(ScanConfig::stop_after_first_match, (config,), made) ==> {
            &&& made@.max_results == Some(1usize)
            &&& made@ == (ConfigView { max_results: made@.max_results, ..config@ })
        },
        call_ensures(ScanConfig::stop_after_timeout, (config, duration), made) ==> {
            &&& made@.timeout == Some(duration)
            &&& made@ == (ConfigView { timeout: made@.timeout, ..config@ })
        },
        call_ensures(ScanConfig::force_disconnect, (config, forced), made) ==> {
            &&& made@.force_disconnect == forced
            &&& made@ == (ConfigView { force_disconnect: made@.force_disconnect, ..config@ })
        },
        call_ensures(ScanConfig::with_filters, (config, filters), made) ==> {
            &&& made@.filters.len() == config@.filters.len() + filters@.len()
            &&& forall|i: int|
                0 <= i < config@.filters.len() ==> made@.filters[i] == config@.filters[i]
            &&& forall|i: int|
                0 <= i < filters@.len() ==> made@.filters[config@.filters.len() + i]
                    == (#[trigger] filters@[i])@
            &&& made@ == (ConfigView { filters: made@.filters, ..config@ })
        },
{
}

/// A filter admits the devices that show what it wants, where no predicate on the same property was
/// asked, and otherwise those that the predicate accepts. A filter on a characteristic admits all.
pub proof fn law_filter_admits(
    filter: Filter,
    properties: DeviceProperties,
    answers: Answers,
    admitted: bool,
)
    requires
        call_ensures(Filter::admits, (&filter, &properties, &answers), admitted),
    ensures
        filter matches Filter::Address(wanted) ==> admitted == match answers.address {
            Some(answer) => answer,
            None => properties.address == wanted,
        },
        filter matches Filter::Name(wanted) ==> admitted == match answers.name {
            Some(answer) => answer,
            None => properties.local_name matches Some(name) && name@ == wanted@,
        },
        filter matches Filter::Rssi(least) ==> admitted == match answers.rssi {
            Some(answer) => answer,
            None => properties.rssi matches Some(rssi) && least <= rssi,
        },
        filter matches Filter::Service(wanted) ==> admitted == match answers.service {
            Some(answer) => answer,
            None => exists|i: int|
                0 <= i < properties.services@.len() && #[trigger] properties.services@[i] == wanted,
        },
        filter is Characteristic ==> admitted,
{
}

/// A list of filters admits a device, where no predicate was asked, exactly when the device shows
/// every value that is listed: its address, its name, a signal that is strong enough, and each
/// service at any place.
pub proof fn law_list_admits(filters: &[Filter], properties: DeviceProperties, passed: bool)
    requires
        call_ensures(
            match_advertisement,
            (
                filters,
                &properties,
                &Answers {
                    address: None,
                    name: None,
                    rssi: None,
                    service: None,
                    characteristics: None,
                },
            ),
            passed,
        ),
    ensures
        passed <==> forall|i: int|
            0 <= i < filters@.len() ==> match #[trigger] filters@[i] {
                Filter::Address(wanted) => properties.address == wanted,
                Filter::Name(wanted) => properties.local_name matches Some(name) && name@
                    == wanted@,
                Filter::Rssi(least) => properties.rssi matches Some(rssi) && least <= rssi,
                Filter::Service(wanted) => exists|j: int|
                    0 <= j < properties.services@.len() && #[trigger] properties.services@[j]
                        == wanted,
                Filter::Characteristic(_) => true,
            },
{
    let views = FilterView::each(filters@);
    assert forall|i: int| 0 <= i < filters@.len() implies views[i] == (#[trigger] filters@[i])@ by {
    }
    if !passed {
        let answers = Answers {
            address: None,
            name: None,
            rssi: None,
            service: None,
            characteristics: None,
        };
        let i = choose|i: int|
            0 <= i < views.len() && !(#[trigger] views[i]).passes(properties@, answers);
        assert(views[i] == filters@[i]@);
    }
}

/// A configuration admits, probes for and stops at what was set in it.
pub proof fn law_configuration_calls(
    config: ScanConfig,
    properties: DeviceProperties,
    answers: Answers,
    elapsed: u128,
    count: usize,
    stop_requested: bool,
    outcome: bool,
    rounds: Vec<Option<Uuid>>,
    uuids: &[Uuid],
)
    ensures
        call_ensures(ScanConfig::admits, (&config, &properties, &answers), outcome) ==> outcome
            == properties@.satisfy(config@.filters, answers),
        call_ensures(ScanConfig::probe_rounds, (&config,), rounds) ==> rounds@
            == config@.probe_rounds(),
        call_ensures(ScanConfig::stops, (&config, elapsed, count, stop_requested), outcome) ==> (
        outcome <==> {
            ||| stop_requested
            ||| config@.max_results is Some && config@.max_results->0 <= count
            ||| config@.timeout is Some && config@.timeout->0 <= elapsed
        }),
        call_ensures(ScanConfig::ask_about, (&config, &properties), answers) ==> config@.may_say_of(
            properties@,
            answers,
        ),
        call_ensures(ScanConfig::ask_about_characteristics, (&config, uuids), answers)
            ==> config@.may_say_of_characteristics(uuids@, answers),
{
}

/// A device without a name, or with an empty one, has no chance with a configuration that requires
/// a name, and where nothing else was asked of names every other device has.
pub proof fn law_name_is_required(
    config: ScanConfig,
    made: ScanConfig,
    properties: PropertiesView,
    answers: Answers,
)
    requires
        config@.name_filter is None,
        call_ensures(ScanConfig::require_name, (config,), made),
        made@.may_say_of(properties, answers),
    ensures
        answers.name == Some(
            properties.local_name is Some && properties.local_name->0.len() > 0,
        ),
        made@ == (ConfigView { name_filter: made@.name_filter, ..config@ }),
{
}

/// A new scan is one that has yet to begin, and what it asks for, counts and waits until follows
/// from its state.
pub proof fn law_scan_shows_its_state(
    worker: ScannerWorker,
    config: ScanConfig,
    request: Request,
    count: usize,
    deadline: Option<u128>,
)
    ensures
        call_ensures(ScannerWorker::new, (config,), worker) ==> worker@ == WorkerView::initial(
            config@,
        ) && worker@.sound(),
        call_ensures(ScannerWorker::request, (&worker,), request) ==> request
            == worker@.phase.request(),
        call_ensures(ScannerWorker::result_count, (&worker,), count) ==> count
            == worker@.result_count,
        call_ensures(ScannerWorker::deadline, (&worker,), deadline) && worker@.started_at is Some
            && worker@.config.timeout is Some ==> {
            let end = worker@.started_at->0 + worker@.config.timeout->0;
            &&& end <= u128::MAX ==> deadline is Some && deadline->0 == end
            &&& end > u128::MAX ==> deadline is None
        },
        call_ensures(ScannerWorker::deadline, (&worker,), deadline) && (worker@.started_at is None
            || worker@.config.timeout is None) ==> deadline is None,
{
}

/// A scan that is given a reply, with what the predicates said about it, takes the step that its
/// state and the reply call for.
pub proof fn law_scan_takes_the_step(
    worker: &mut ScannerWorker,
    reply: Reply,
    answers: Answers,
    report: Option<DeviceEvent>,
)
    requires
        call_ensures(ScannerWorker::resume, (worker, reply, answers), report),
    ensures
        (final(worker)@, report) == old(worker)@.next(reply, answers),
        final(worker)@.sound(),
{
}

/// A scan that asks the predicates itself takes the step for what they may say.
pub proof fn law_scan_asks_the_predicates(
    worker: &mut ScannerWorker,
    reply: Reply,
    report: Option<DeviceEvent>,
)
    requires
        call_ensures(ScannerWorker::scan, (worker, reply), report),
    ensures
        exists|answers: Answers| #[trigger]
            old(worker)@.may_say_of(reply, answers) && (final(worker)@, report)
                == old(worker)@.next(reply, answers),
        final(worker)@.sound(),
{
}

/// A scan in the last round for a characteristic that reads what was enumerated reports the device
/// exactly when the identifier stands at any place in the list and the device had passed before.
pub proof fn law_scan_reports_the_wanted(
    worker: &mut ScannerWorker,
    candidate: Candidate,
    wanted: Uuid,
    uuids: Vec<Uuid>,
    report: Option<DeviceEvent>,
)
    requires
        old(worker)@.phase == Phase::Probing(candidate),
        candidate.stage == Stage::Fresh,
        candidate.round + 1 == old(worker)@.config.probe_rounds().len(),
        old(worker)@.config.probe_rounds()[candidate.round as int] == Some(wanted),
        old(worker)@.config.characteristics_filter is None,
        call_ensures(ScannerWorker::scan, (worker, Reply::Characteristics(uuids)), report),
    ensures
        candidate.passed && (exists|i: int|
            0 <= i < uuids@.len() && #[trigger] uuids@[i] == wanted) ==> {
            &&& report == Some(
                DeviceEvent::Discovered(Device { id: candidate.id, address: candidate.address }),
            )
            &&& final(worker)@.matched.contains(candidate.id)
            &&& final(worker)@.result_count == old(worker)@.result_count + 1
        },
        !(candidate.passed && exists|i: int|
            0 <= i < uuids@.len() && #[trigger] uuids@[i] == wanted) ==> {
            &&& report is None
            &&& final(worker)@.filtered.contains(candidate.id)
            &&& final(worker)@.matched == old(worker)@.matched
            &&& final(worker)@.result_count == old(worker)@.result_count
        },
{
}

/// A scan that waits for the device of an update, a connection or a disconnection reports it where
/// the device is a match and the adapter has it, however many matches there are.
pub proof fn law_scan_follows_its_matches(
    worker: &mut ScannerWorker,
    id: u64,
    notice: Notice,
    address: BDAddr,
    report: Option<DeviceEvent>,
)
    requires
        old(worker)@.phase == (Phase::Locating { id, notice }),
        old(worker)@.matched.contains(id),
        call_ensures(ScannerWorker::scan, (worker, Reply::Peripheral(Some(address))), report),
    ensures
        notice == Notice::Updated ==> report == Some(DeviceEvent::Updated(Device { id, address })),
        notice == Notice::Connected ==> report == Some(
            DeviceEvent::Connected(Device { id, address }),
        ),
        notice == Notice::Disconnected ==> report == Some(
            DeviceEvent::Disconnected(Device { id, address }),
        ),
        final(worker)@.matched == old(worker)@.matched,
        final(worker)@.result_count == old(worker)@.result_count,
{
}

/// A scan that began at some time with a timeout, that is neither at its number of matches nor
/// asked to stop, and that is told the time, is over exactly if at least the timeout has passed
/// since.
pub proof fn law_scan_ends_in_time(
    worker: &mut ScannerWorker,
    started_at: nat,
    timeout: u128,
    now: u128,
    report: Option<DeviceEvent>,
)
    requires
        old(worker)@.phase != Phase::Finished,
        old(worker)@.started_at == Some(started_at),
        old(worker)@.config.timeout == Some(timeout),
        old(worker)@.config.max_results matches Some(max_results) ==> old(worker)@.result_count
            < max_results,
        now >= started_at,
        call_ensures(
            ScannerWorker::scan,
            (worker, Reply::Clock { now, stop_requested: false }),
            report,
        ),
    ensures
        final(worker)@.phase == Phase::Finished <==> now - started_at >= timeout,
        report is None,
{
}

/// A start goes step by step from the scan that may be running to the adapters, starts the scan
/// with the chosen adapter exactly when that is among those listed, and ends well without a scan
/// exactly when one is running already. A scan that starts is not asked to stop, and the streams
/// stay.
pub proof fn law_scanner_starts<E>(
    scanner: &mut Scanner,
    config: ScanConfig,
    reply: StartReply<E>,
    step: StartStep<E>,
    error: E,
)
    requires
        call_ensures(Scanner::start::<E>, (scanner, &config, reply), step),
    ensures
        step is Spawn <==> (reply matches StartReply::Adapters(Ok(count)) && config@.adapter_index
            < count),
        step is Spawn ==> step == StartStep::<E>::Spawn(config@.adapter_index)
            && !final(scanner)@.scan_stopper,
        step == StartStep::<E>::Finish(Ok(())) <==> reply == StartReply::<E>::Session(true),
        step == StartStep::<E>::OpenManager <==> reply == StartReply::<E>::Session(false),
        step is ListAdapters <==> reply matches StartReply::Manager(Ok(_)),
        step == StartStep::<E>::Finish(Err(StartError::DeviceNotFound)) <==> (
        reply matches StartReply::Adapters(Ok(count)) && config@.adapter_index >= count),
        step == StartStep::<E>::Finish(Err(StartError::Platform(error))) <==> reply
            == StartReply::<E>::Manager(Err(error)) || reply == StartReply::<E>::Adapters(
            Err(error),
        ),
        !(step is Spawn) ==> final(scanner)@.scan_stopper == old(scanner)@.scan_stopper,
        final(scanner)@.stoppers == old(scanner)@.stoppers,
{
}

/// A stop asks the scan to stop and ends the streams that were handed out.
pub proof fn law_scanner_stops(scanner: &mut Scanner)
    requires
        call_ensures(Scanner::stop, (scanner,), ()),
    ensures
        final(scanner)@.scan_stopper,
        final(scanner)@.stoppers.len() == 0,
{
}

/// A stream that is handed out is kept besides those handed out before, and asks nothing of the
/// scan.
pub proof fn law_scanner_hands_out(scanner: &mut Scanner, stopper: Trigger)
    requires
        call_ensures(Scanner::device_event_stream, (scanner, stopper), ()) || call_ensures(
            Scanner::device_stream,
            (scanner, stopper),
            (),
        ),
    ensures
        final(scanner)@.scan_stopper == old(scanner)@.scan_stopper,
        final(scanner)@.stoppers == old(scanner)@.stoppers.push(stopper),
{
}

/// A scanner tells whether it was asked to stop, which at first it was not, and its streams hand on
/// what they received: every event, and the device of every discovery.
pub proof fn law_scanner_tells(
    scanner: Scanner,
    requested: bool,
    received: Result<DeviceEvent, u64>,
    event: Option<DeviceEvent>,
    device: Option<Device>,
)
    ensures
        call_ensures(Scanner::new, (), scanner) ==> !scanner@.scan_stopper
            && scanner@.stoppers.len() == 0,
        call_ensures(Scanner::stop_requested, (&scanner,), requested) ==> requested
            == scanner@.scan_stopper,
        call_ensures(Scanner::forward_event, (received,), event) ==> (event is Some <==> received
            is Ok) && (event is Some ==> event->0 == received->Ok_0),
        call_ensures(Scanner::forward_device, (received,), device) ==> (device is Some <==> (
        received matches Ok(DeviceEvent::Discovered(_)))) && (device matches Some(found)
            ==> received == Ok::<DeviceEvent, u64>(DeviceEvent::Discovered(found))),
{
}

/// What a device says about itself is what was read of it, and nothing where nothing was read.
pub proof fn law_device_tells<E>(
    device: Device,
    properties: DeviceProperties,
    read: Result<Option<DeviceProperties>, E>,
    address: BDAddr,
    rssi: Option<i16>,
    name: Option<String>,
)
    ensures
        call_ensures(Device::address, (&device,), address) ==> address == device.address,
        call_ensures(Device::rssi::<E>, (&device, Ok(Some(properties))), rssi) ==> rssi
            == properties.rssi,
        call_ensures(Device::rssi::<E>, (&device, read), rssi) && !(read matches Ok(Some(_)))
            ==> rssi is None,
        call_ensures(Device::local_name::<E>, (&device, Ok(Some(properties))), name) ==> name
            == properties.local_name,
        call_ensures(Device::local_name::<E>, (&device, read), name) && !(read matches Ok(Some(_)))
            ==> name is None,
{
}

/// A device is connected, and its services and characteristics are enumerated, by the steps that
/// the replies call for.
pub proof fn law_device_takes_steps<T, E>(
    device: Device,
    connection: ConnectReply<E>,
    connecting: ConnectStep<E>,
    known: AttributeReply<T, E>,
    step: AttributeStep<T, E>,
)
    ensures
        call_ensures(Device::connect::<E>, (&device, connection), connecting) ==> connecting
            == connection.step(),
        call_ensures(Device::services::<T, E>, (&device, known), step) ==> step == known.step(),
        call_ensures(Device::original_characteristics::<T, E>, (&device, known), step) ==> step
            == known.step(),
{
}

/// The services of a device are counted, all of them.
pub proof fn law_services_are_counted<T, E>(
    device: Device,
    services: Vec<T>,
    error: E,
    count: Result<usize, E>,
)
    ensures
        call_ensures(Device::service_count::<T, E>, (&device, Ok(services)), count) ==> (
        count matches Ok(number) && number == services@.len()),
        call_ensures(Device::service_count::<T, E>, (&device, Err(error)), count) ==> count
            == Err::<usize, E>(error),
{
}

/// The characteristics of a device are those that were listed, in the same order, each with the
/// device, its place and its identifier.
pub proof fn law_characteristics_are_listed<E>(
    device: Device,
    uuids: Vec<Uuid>,
    error: E,
    listed: Result<Vec<Characteristic>, E>,
)
    ensures
        call_ensures(Device::characteristics::<E>, (&device, Ok(uuids)), listed) ==> (
        listed matches Ok(list) && list@.len() == uuids@.len() && forall|i: int|
            0 <= i < uuids@.len() ==> (#[trigger] list@[i]).device == device && list@[i].uuid
                == uuids@[i] && list@[i].position == i as usize),
        call_ensures(Device::characteristics::<E>, (&device, Err(error)), listed) ==> listed
            == Err::<Vec<Characteristic>, E>(error),
{
}

/// A characteristic is found exactly when its identifier was listed, at any place, and it is then
/// the first that has the identifier.
pub proof fn law_characteristic_is_found<E>(
    device: Device,
    uuids: Vec<Uuid>,
    uuid: Uuid,
    error: E,
    found: Result<Option<Characteristic>, E>,
)
    ensures
        call_ensures(Device::characteristic::<E>, (&device, Ok(uuids), uuid), found) ==> {
            &&& found is Ok
            &&& found->Ok_0 is Some <==> exists|i: int|
                0 <= i < uuids@.len() && #[trigger] uuids@[i] == uuid
            &&& found->Ok_0 matches Some(characteristic) ==> {
                &&& characteristic.device == device
                &&& characteristic.uuid == uuid
                &&& characteristic.position < uuids@.len()
                &&& uuids@[characteristic.position as int] == uuid
                &&& forall|i: int|
                    0 <= i < characteristic.position ==> #[trigger] uuids@[i] != uuid
            }
        },
        call_ensures(Device::characteristic::<E>, (&device, Err(error), uuid), found) ==> found
            == Err::<Option<Characteristic>, E>(error),
{
    if call_ensures(Device::characteristic::<E>, (&device, Ok(uuids), uuid), found) {
        if let Ok(Some(characteristic)) = found {
            let before = uuids@.take(characteristic.position as int);
            assert forall|i: int| 0 <= i < characteristic.position implies #[trigger] uuids@[i]
                != uuid by {
                assert(before[i] == uuids@[i]);
            }
        }
    }
}

/// The bytes of an address are those that it was made of.
pub proof fn law_address_keeps_its_bytes(bytes: [u8; 6], address: BDAddr, read: [u8; 6])
    requires
        call_ensures(BDAddr::from, (bytes,), address),
        call_ensures(BDAddr::into_inner, (address,), read),
    ensures
        read@ == bytes@,
{
}

/// A new configuration selects and stops at nothing and uses the first adapter, a new scanner was
/// not asked to stop, and a copy of a filter is of the same value.
pub proof fn law_fresh_values(config: ScanConfig, scanner: Scanner, filter: Filter, copy: Filter)
    ensures
        call_ensures(<ScanConfig as Default>::default, (), config) ==> {
            &&& config@.adapter_index == 0
            &&& config@.filters.len() == 0
            &&& config@.address_filter is None && config@.name_filter is None
            &&& config@.rssi_filter is None && config@.service_filter is None
            &&& config@.characteristics_filter is None
            &&& config@.max_results is None && config@.timeout is None
            &&& !config@.force_disconnect
        },
        call_ensures(<Scanner as Default>::default, (), scanner) ==> {
            &&& !scanner@.scan_stopper
            &&& scanner@.stoppers.len() == 0
        },
        call_ensures(<Filter as Clone>::clone, (&filter,), copy) ==> copy@ == filter@,
{
}

/// A device is probed for each characteristic in a list of filters, in order, or once for the
/// predicate where none is listed, and a scan asks its predicates about what a reply calls for.
pub proof fn law_rounds_and_questions(
    filters: &[Filter],
    has_predicate: bool,
    rounds: Vec<Option<Uuid>>,
    worker: ScannerWorker,
    reply: Reply,
    answers: Answers,
)
    ensures
        call_ensures(list_probe_rounds, (filters, has_predicate), rounds) ==> rounds@
            == FilterView::probe_rounds(FilterView::each(filters@), has_predicate),
        call_ensures(ScannerWorker::consult, (&worker, &reply), answers)
            ==> worker@.may_say_of(reply, answers),
{
}

/// Requiring a name changes nothing where a filter on names is there already.
pub proof fn law_name_filter_stays(config: ScanConfig, made: ScanConfig)
    requires
        config@.name_filter is Some,
        call_ensures(ScanConfig::require_name, (config,), made),
    ensures
        made@ == config@,
{
}

} // verus!
