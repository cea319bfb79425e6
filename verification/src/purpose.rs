//! What the values of the library mean, said of what they are made of.

use stream_cancel::Trigger;
use uuid::Uuid;
use vstd::prelude::*;
use vstd::std_specs::cmp::PartialEqSpec;

use crate::address::BDAddr;
use crate::config::ConfigView;
use crate::device::{
    AttributeReply, AttributeStep, Characteristic, ConnectReply, ConnectStep, Device, DeviceEvent,
};
use crate::filter::{Answers, DeviceProperties, Filter, FilterView, PropertiesView};
use crate::predicate::{Predicate, RefPredicate};
use crate::scanner::{Scanner, ScannerView, StartError, StartReply, StartStep};

verus! {

/// Two addresses compare equal exactly when all their bytes agree.
pub proof fn law_addresses_are_compared_by_bytes(left: BDAddr, right: BDAddr)
    ensures
        left.eq_spec(&right) <==> left@ =~= right@,
{
    if left@ =~= right@ {
        left.lemma_equal_bytes(right);
    }
}

/// The value of a filter is of its kind and holds what the filter holds.
pub proof fn law_filter_value(
    address: BDAddr,
    characteristic: Uuid,
    name: String,
    rssi: i16,
    service: Uuid,
)
    ensures
        Filter::Address(address)@ == FilterView::Address(address),
        Filter::Characteristic(characteristic)@ == FilterView::Characteristic(characteristic),
        Filter::Name(name)@ == FilterView::Name(name@),
        Filter::Rssi(rssi)@ == FilterView::Rssi(rssi),
        Filter::Service(service)@ == FilterView::Service(service),
{
}

/// The values of a list of filters are those of its filters, place by place.
pub proof fn law_filter_list_value(filters: Seq<Filter>)
    ensures
        FilterView::each(filters).len() == filters.len(),
        forall|i: int| 0 <= i < filters.len() ==> FilterView::each(filters)[i] == filters[i]@,
{
}

/// The value of what a device advertises leaves nothing out.
pub proof fn law_properties_value(properties: DeviceProperties)
    ensures
        properties@.address == properties.address,
        properties@.local_name is Some <==> properties.local_name is Some,
        properties.local_name matches Some(name) ==> properties@.local_name == Some(name@),
        properties@.rssi == properties.rssi,
        properties@.services == properties.services@,
{
}

/// Where no predicate is asked there is no answer.
pub proof fn law_no_answers()
    ensures
        Answers::unasked().address is None,
        Answers::unasked().name is None,
        Answers::unasked().rssi is None,
        Answers::unasked().service is None,
        Answers::unasked().characteristics is None,
{
}

// What a device advertises.

/// With no filter listed, a device is admitted exactly when no predicate said no.
pub proof fn law_no_filter(properties: PropertiesView, answers: Answers)
    ensures
        properties.satisfy(Seq::empty(), answers) <==> !(answers.address == Some(false)
            || answers.name == Some(false) || answers.rssi == Some(false) || answers.service
            == Some(false)),
{
}

/// A filter on the address lets a device through exactly when the device has the wanted address, or
/// where a predicate on the same was asked, when that accepts the device. A list of nothing else
/// admits the device if besides no predicate objects to it.
pub proof fn law_address_filter(properties: PropertiesView, wanted: BDAddr, answers: Answers)
    ensures
        answers.address is None ==> (FilterView::Address(wanted).passes(properties, answers)
            <==> properties.address == wanted),
        answers.address is Some ==> (FilterView::Address(wanted).passes(properties, answers)
            <==> answers.address->0),
        properties.satisfy(seq![FilterView::Address(wanted)], answers) <==> {
            &&& answers.address != Some(false)
            &&& answers.name != Some(false)
            &&& answers.rssi != Some(false)
            &&& answers.service != Some(false)
            &&& answers.address is Some || properties.address == wanted
        },
{
    let filters = seq![FilterView::Address(wanted)];
    assert(filters[0] == FilterView::Address(wanted));
}

/// A filter on the name lets a device through exactly when the device has a name and it is the
/// wanted one, or where a predicate on the same was asked, when that accepts the device. A list of
/// nothing else admits the device if besides no predicate objects to it.
pub proof fn law_name_filter(properties: PropertiesView, wanted: Seq<char>, answers: Answers)
    ensures
        answers.name is None ==> (FilterView::Name(wanted).passes(properties, answers)
            <==> properties.local_name is Some && properties.local_name->0 =~= wanted),
        answers.name is Some ==> (FilterView::Name(wanted).passes(properties, answers)
            <==> answers.name->0),
        properties.satisfy(seq![FilterView::Name(wanted)], answers) <==> {
            &&& answers.address != Some(false)
            &&& answers.name != Some(false)
            &&& answers.rssi != Some(false)
            &&& answers.service != Some(false)
            &&& answers.name is Some || (properties.local_name is Some
                && properties.local_name->0 =~= wanted)
        },
{
    let filters = seq![FilterView::Name(wanted)];
    assert(filters[0] == FilterView::Name(wanted));
    if properties.local_name is Some && properties.local_name->0 =~= wanted {
        assert(properties.local_name == Some(wanted));
    }
}

/// A filter on the signal strength lets a device through exactly when the signal of the device is
/// known and no weaker than wanted, or where a predicate on the same was asked, when that accepts
/// the device. A list of nothing else admits the device if besides no predicate objects to it.
pub proof fn law_rssi_filter(properties: PropertiesView, wanted: i16, answers: Answers)
    ensures
        answers.rssi is None ==> (FilterView::Rssi(wanted).passes(properties, answers)
            <==> properties.rssi is Some && wanted <= properties.rssi->0),
        answers.rssi is Some ==> (FilterView::Rssi(wanted).passes(properties, answers)
            <==> answers.rssi->0),
        properties.satisfy(seq![FilterView::Rssi(wanted)], answers) <==> {
            &&& answers.address != Some(false)
            &&& answers.name != Some(false)
            &&& answers.rssi != Some(false)
            &&& answers.service != Some(false)
            &&& answers.rssi is Some || (properties.rssi is Some && wanted <= properties.rssi->0)
        },
{
    let filters = seq![FilterView::Rssi(wanted)];
    assert(filters[0] == FilterView::Rssi(wanted));
}

/// A filter on a service lets a device through exactly when the device advertises the wanted
/// service at any place, or where a predicate on the same was asked, when that accepts the device.
/// A list of nothing else admits the device if besides no predicate objects to it.
pub proof fn law_service_filter(properties: PropertiesView, wanted: Uuid, answers: Answers)
    ensures
        answers.service is None ==> (FilterView::Service(wanted).passes(properties, answers)
            <==> exists|i: int|
                0 <= i < properties.services.len() && #[trigger] properties.services[i] == wanted),
        answers.service is Some ==> (FilterView::Service(wanted).passes(properties, answers)
            <==> answers.service->0),
        properties.satisfy(seq![FilterView::Service(wanted)], answers) <==> {
            &&& answers.address != Some(false)
            &&& answers.name != Some(false)
            &&& answers.rssi != Some(false)
            &&& answers.service != Some(false)
            &&& answers.service is Some || (exists|i: int|
                0 <= i < properties.services.len() && #[trigger] properties.services[i] == wanted)
        },
{
    let filters = seq![FilterView::Service(wanted)];
    assert(filters[0] == FilterView::Service(wanted));
}

/// A filter on a characteristic says nothing about the advertisement.
pub proof fn law_characteristic_filter_is_silent(
    properties: PropertiesView,
    wanted: Uuid,
    answers: Answers,
)
    ensures
        FilterView::Characteristic(wanted).passes(properties, answers),
        properties.satisfy(seq![FilterView::Characteristic(wanted)], answers)
            <==> properties.satisfy(Seq::empty(), answers),
{
    let filters = seq![FilterView::Characteristic(wanted)];
    assert(filters[0] == FilterView::Characteristic(wanted));
}

/// A list of filters admits a device exactly when each of its filters does by itself, and an empty
/// list when no predicate objects.
pub proof fn law_every_filter_counts(
    properties: PropertiesView,
    filters: Seq<FilterView>,
    answers: Answers,
)
    requires
        filters.len() > 0,
    ensures
        properties.satisfy(filters, answers) <==> forall|i: int|
            0 <= i < filters.len() ==> properties.satisfy(seq![#[trigger] filters[i]], answers),
{
    assert forall|i: int| 0 <= i < filters.len() implies (properties.satisfy(
        seq![#[trigger] filters[i]],
        answers,
    ) <==> properties.satisfy(Seq::empty(), answers) && filters[i].passes(properties, answers)) by {
        let single = seq![filters[i]];
        assert(single[0] == filters[i]);
    }
    if forall|i: int|
        0 <= i < filters.len() ==> properties.satisfy(seq![#[trigger] filters[i]], answers) {
        assert(properties.satisfy(seq![filters[0]], answers));
    }
}

// Rounds of probing.

/// The identifiers of two lists of filters joined are those of the first and then the second.
proof fn lemma_characteristics_join(first: Seq<FilterView>, second: Seq<FilterView>)
    ensures
        FilterView::characteristics(first + second) =~= FilterView::characteristics(first)
            + FilterView::characteristics(second),
    decreases second.len(),
{
    if second.len() == 0 {
        assert(first + second =~= first);
    } else {
        lemma_characteristics_join(first, second.drop_last());
        assert((first + second).drop_last() =~= first + second.drop_last());
        assert((first + second).last() == second.last());
    }
}

/// A device is probed in one round for each filter on a characteristic, in the order in which they
/// are listed, and for no other filter.
pub proof fn law_rounds_follow_the_list(
    first: Seq<FilterView>,
    second: Seq<FilterView>,
    filter: FilterView,
)
    ensures
        FilterView::probe_rounds(Seq::empty(), false).len() == 0,
        filter matches FilterView::Characteristic(uuid) ==> FilterView::probe_rounds(
            seq![filter],
            false,
        ) == seq![Some(uuid)],
        !(filter is Characteristic) ==> FilterView::probe_rounds(seq![filter], false).len() == 0,
        FilterView::probe_rounds(first + second, false) == FilterView::probe_rounds(first, false)
            + FilterView::probe_rounds(second, false),
{
    lemma_characteristics_join(first, second);
    assert(FilterView::probe_rounds(first + second, false) =~= FilterView::probe_rounds(
        first,
        false,
    ) + FilterView::probe_rounds(second, false));
    let single = seq![filter];
    assert(single.drop_last() =~= Seq::empty());
    assert(single.last() == filter);
    assert(FilterView::characteristics(single.drop_last()) =~= Seq::<Uuid>::empty());
    if let FilterView::Characteristic(uuid) = filter {
        assert(FilterView::probe_rounds(single, false) =~= seq![Some(uuid)]);
    }
}

/// A predicate on characteristics adds a round only where there would be none.
pub proof fn law_predicate_gets_a_round(config: ConfigView)
    ensures
        FilterView::probe_rounds(config.filters, false).len() > 0 ==> FilterView::probe_rounds(
            config.filters,
            true,
        ) == FilterView::probe_rounds(config.filters, false),
        FilterView::probe_rounds(config.filters, false).len() == 0 ==> FilterView::probe_rounds(
            config.filters,
            true,
        ) == seq![None::<Uuid>],
        config.characteristics_filter is None ==> config.probe_rounds()
            == FilterView::probe_rounds(config.filters, false),
        config.characteristics_filter is Some && FilterView::probe_rounds(
            config.filters,
            false,
        ).len() > 0 ==> config.probe_rounds() == FilterView::probe_rounds(config.filters, false),
        config.characteristics_filter is Some && FilterView::probe_rounds(
            config.filters,
            false,
        ).len() == 0 ==> config.probe_rounds() == seq![None::<Uuid>],
{
}

// Configurations.

/// A configuration starts out with the first adapter, nothing to select by and nothing to stop at.
pub proof fn law_default_configuration()
    ensures
        ConfigView::unrestricted().adapter_index == 0,
        ConfigView::unrestricted().filters.len() == 0,
        ConfigView::unrestricted().address_filter is None,
        ConfigView::unrestricted().name_filter is None,
        ConfigView::unrestricted().rssi_filter is None,
        ConfigView::unrestricted().service_filter is None,
        ConfigView::unrestricted().characteristics_filter is None,
        ConfigView::unrestricted().max_results is None,
        ConfigView::unrestricted().timeout is None,
        !ConfigView::unrestricted().force_disconnect,
{
}

/// A configuration ends a scan that was asked to stop, that has reached its number of matches, or
/// that has lasted as long as it may, and no other.
pub proof fn law_configuration_stops(
    config: ConfigView,
    elapsed: nat,
    result_count: nat,
    stop_requested: bool,
)
    ensures
        config.stops(elapsed, result_count, stop_requested) <==> {
            ||| stop_requested
            ||| config.max_results is Some && config.max_results->0 <= result_count
            ||| config.timeout is Some && config.timeout->0 <= elapsed
        },
{
}

/// Where a configuration has no predicate on a property, nothing is said about it.
pub proof fn law_no_predicate_no_answer(
    config: ConfigView,
    properties: PropertiesView,
    answers: Answers,
)
    requires
        config.may_say_of(properties, answers),
    ensures
        answers.address is Some <==> config.address_filter is Some,
        answers.name is Some <==> config.name_filter is Some,
        answers.rssi is Some <==> config.rssi_filter is Some,
        answers.service is Some <==> config.service_filter is Some,
        answers.characteristics is None,
{
}

/// A predicate that accepts certain addresses answers by the address of the device.
pub proof fn law_address_predicate(
    config: ConfigView,
    properties: PropertiesView,
    answers: Answers,
    accepts: spec_fn(BDAddr) -> bool,
)
    requires
        config.may_say_of(properties, answers),
        config.address_filter matches Some(filter) && forall|address: BDAddr, answer: bool|
            filter.may_answer(address, answer) ==> answer == accepts(address),
    ensures
        answers.address == Some(accepts(properties.address)),
{
}

/// A predicate that accepts certain names answers by the name of the device, and rejects a device
/// that has none.
pub proof fn law_name_predicate(
    config: ConfigView,
    properties: PropertiesView,
    answers: Answers,
    accepts: spec_fn(Seq<char>) -> bool,
)
    requires
        config.may_say_of(properties, answers),
        config.name_filter matches Some(filter) && forall|name: &str, answer: bool|
            filter.may_answer(name, answer) ==> answer == accepts(name@),
    ensures
        answers.name == Some(
            properties.local_name is Some && accepts(properties.local_name->0),
        ),
{
}

/// A predicate that accepts certain signals answers by the signal of the device, and rejects a
/// device whose signal is not known.
pub proof fn law_rssi_predicate(
    config: ConfigView,
    properties: PropertiesView,
    answers: Answers,
    accepts: spec_fn(i16) -> bool,
)
    requires
        config.may_say_of(properties, answers),
        config.rssi_filter matches Some(filter) && forall|rssi: i16, answer: bool|
            filter.may_answer(rssi, answer) ==> answer == accepts(rssi),
    ensures
        answers.rssi == Some(properties.rssi is Some && accepts(properties.rssi->0)),
{
}

/// A predicate that accepts certain services accepts a device that advertises one of them, at any
/// place, and rejects every other.
pub proof fn law_service_predicate(
    config: ConfigView,
    properties: PropertiesView,
    answers: Answers,
    accepts: spec_fn(Uuid) -> bool,
)
    requires
        config.may_say_of(properties, answers),
        config.service_filter matches Some(filter) && forall|uuid: &Uuid, answer: bool|
            filter.may_answer(uuid, answer) ==> answer == accepts(*uuid),
    ensures
        answers.service matches Some(answer) && (answer <==> exists|i: int|
            0 <= i < properties.services.len() && accepts(#[trigger] properties.services[i])),
{
    let filter = config.service_filter->0;
    let services = properties.services;
    if answers.service->0 {
        let i = choose|i: int|
            0 <= i < services.len() && #[trigger] filter.may_answer(&services[i], true);
        assert(accepts(services[i]));
    } else {
        assert forall|i: int| 0 <= i < services.len() implies !accepts(#[trigger] services[i]) by {
            assert(filter.may_answer(&services[i], false));
        }
    }
}

/// A predicate that accepts certain lists of characteristics answers by the list of the device.
pub proof fn law_characteristics_predicate(
    config: ConfigView,
    uuids: Seq<Uuid>,
    answers: Answers,
    accepts: spec_fn(Seq<Uuid>) -> bool,
)
    requires
        config.may_say_of_characteristics(uuids, answers),
        config.characteristics_filter matches Some(filter) && forall|list: &[Uuid], answer: bool|
            filter.may_answer(list, answer) ==> answer == accepts(list@),
    ensures
        answers.characteristics == Some(accepts(uuids)),
{
}

/// Where there is no predicate on characteristics, nothing is said about them, and they are asked
/// about by themselves.
pub proof fn law_no_characteristics_predicate(
    config: ConfigView,
    uuids: Seq<Uuid>,
    answers: Answers,
)
    requires
        config.may_say_of_characteristics(uuids, answers),
    ensures
        answers.characteristics is Some <==> config.characteristics_filter is Some,
        answers.address is None && answers.name is None && answers.rssi is None && answers.service
            is None,
{
}

/// What is said about an advertisement is what the predicates may say of the values in it: of each
/// service one by one, and of no name or signal where there is none.
pub proof fn law_answers_come_from_the_predicates(
    config: ConfigView,
    properties: PropertiesView,
    answers: Answers,
)
    requires
        config.may_say_of(properties, answers),
    ensures
        config.address_filter matches Some(filter) ==> filter.may_answer(
            properties.address,
            answers.address->0,
        ),
        config.name_filter is Some && properties.local_name is None ==> answers.name
            == Some(false),
        config.name_filter is Some && properties.local_name is Some ==> exists|text: &str|
            #[trigger] text@ == properties.local_name->0 && config.name_filter->0.may_answer(
                text,
                answers.name->0,
            ),
        config.rssi_filter is Some && properties.rssi is None ==> answers.rssi == Some(false),
        config.rssi_filter is Some && properties.rssi is Some ==> config.rssi_filter->0.may_answer(
            properties.rssi->0,
            answers.rssi->0,
        ),
        config.service_filter is Some && answers.service == Some(true) ==> exists|i: int|
            0 <= i < properties.services.len() && #[trigger] config.service_filter->0.may_answer(
                &properties.services[i],
                true,
            ),
        config.service_filter is Some && answers.service == Some(false) ==> forall|i: int|
            0 <= i < properties.services.len() ==> #[trigger] config.service_filter->0.may_answer(
                &properties.services[i],
                false,
            ),
{
}

/// A closure is asked as it is: what it may answer is what it may return.
pub proof fn law_closure_by_value<A, F: Fn(A) -> bool + Send + Sync>(
    func: F,
    subject: A,
    answer: bool,
)
    ensures
        Predicate::may_answer(&func, subject, answer) <==> call_ensures(func, (subject,), answer),
        Predicate::askable(&func, subject) <==> call_requires(func, (subject,)),
{
}

/// A closure that takes a reference is asked as it is: what it may answer is what it may return.
pub proof fn law_closure_by_reference<A: ?Sized, F: Fn(&A) -> bool + Send + Sync>(
    func: F,
    subject: &A,
    answer: bool,
)
    ensures
        RefPredicate::may_answer(&func, subject, answer) <==> call_ensures(
            func,
            (subject,),
            answer,
        ),
        RefPredicate::askable(&func, subject) <==> call_requires(func, (subject,)),
{
}

// Scanners.

/// A new scanner was not asked to stop and has handed out no stream. A stop is a request to stop
/// and ends every stream, and a new stream is kept after the others.
pub proof fn law_scanner(scanner: ScannerView, stopper: Trigger)
    ensures
        !ScannerView::fresh().scan_stopper,
        ScannerView::fresh().stoppers.len() == 0,
        scanner.stopped().scan_stopper,
        scanner.stopped().stoppers.len() == 0,
        scanner.with_stream(stopper).scan_stopper == scanner.scan_stopper,
        scanner.with_stream(stopper).stoppers == scanner.stoppers + seq![stopper],
{
    assert(scanner.with_stream(stopper).stoppers =~= scanner.stoppers + seq![stopper]);
}

/// A scan that starts is not asked to stop any more and keeps the streams. No other step on the way
/// changes the scanner.
pub proof fn law_start_voids_the_stop<E>(scanner: ScannerView, step: StartStep<E>)
    ensures
        step is Spawn ==> !scanner.after(step).scan_stopper && scanner.after(step).stoppers
            == scanner.stoppers,
        !(step is Spawn) ==> scanner.after(step) == scanner,
{
}

/// A scan is started exactly when the adapters were listed and the chosen one is among them, and it
/// is that one.
pub proof fn law_scan_starts<E>(reply: StartReply<E>, adapter_index: usize, count: usize)
    ensures
        reply == StartReply::<E>::Adapters(Ok(count)) && adapter_index < count ==> reply.step(
            adapter_index,
        ) == StartStep::<E>::Spawn(adapter_index),
        reply == StartReply::<E>::Adapters(Ok(count)) && adapter_index >= count ==> reply.step(
            adapter_index,
        ) == StartStep::<E>::Finish(Err(StartError::DeviceNotFound)),
        reply.step(adapter_index) is Spawn ==> (reply matches StartReply::Adapters(Ok(number))
            && adapter_index < number),
{
}

/// A start ends without an error and without a scan exactly when a scan is running already, and
/// with an error of the platform exactly when the platform reported it. Until then Bluetooth is
/// reached for and the adapters are listed, in that order.
pub proof fn law_way_to_a_scan<E>(reply: StartReply<E>, adapter_index: usize, error: E)
    ensures
        reply.step(adapter_index) == StartStep::<E>::Finish(Ok(())) <==> reply
            == StartReply::<E>::Session(true),
        reply.step(adapter_index) == StartStep::<E>::Finish(Err(StartError::Platform(error)))
            <==> reply == StartReply::<E>::Manager(Err(error)) || reply
            == StartReply::<E>::Adapters(Err(error)),
        reply.step(adapter_index) == StartStep::<E>::OpenManager <==> reply
            == StartReply::<E>::Session(false),
        reply.step(adapter_index) == StartStep::<E>::ListAdapters <==> reply
            == StartReply::<E>::Manager(Ok(())),
{
    if let StartReply::Manager(Ok(nothing)) = reply {
        assert(nothing == ());
    }
}

/// A stream of events hands out every event, and a stream of devices the device of every discovery.
/// Neither hands out anything for events that were missed, nor the second for any other event.
pub proof fn law_streams_hand_out(device: Device, missed: u64)
    ensures
        Scanner::event_in(Ok(DeviceEvent::Discovered(device))) == Some(
            DeviceEvent::Discovered(device),
        ),
        Scanner::event_in(Ok(DeviceEvent::Connected(device))) == Some(
            DeviceEvent::Connected(device),
        ),
        Scanner::event_in(Ok(DeviceEvent::Disconnected(device))) == Some(
            DeviceEvent::Disconnected(device),
        ),
        Scanner::event_in(Ok(DeviceEvent::Updated(device))) == Some(DeviceEvent::Updated(device)),
        Scanner::event_in(Err(missed)) is None,
        Scanner::device_in(Ok(DeviceEvent::Discovered(device))) == Some(device),
        Scanner::device_in(Ok(DeviceEvent::Connected(device))) is None,
        Scanner::device_in(Ok(DeviceEvent::Disconnected(device))) is None,
        Scanner::device_in(Ok(DeviceEvent::Updated(device))) is None,
        Scanner::device_in(Err(missed)) is None,
{
}

// Devices.

/// An event is about the device that it holds.
pub proof fn law_event_subject(device: Device)
    ensures
        DeviceEvent::Discovered(device).subject() == device,
        DeviceEvent::Connected(device).subject() == device,
        DeviceEvent::Disconnected(device).subject() == device,
        DeviceEvent::Updated(device).subject() == device,
{
}

/// A device is connected exactly when it is known not to be. Otherwise, and after the attempt, the
/// outcome is returned: success where the device is connected, and each error as it came.
pub proof fn law_way_to_a_connection<E>(reply: ConnectReply<E>, error: E)
    ensures
        reply.step() == ConnectStep::<E>::Connect <==> reply == ConnectReply::<E>::State(Ok(false)),
        reply.step() == ConnectStep::<E>::Finish(Ok(())) <==> reply == ConnectReply::<E>::State(
            Ok(true),
        ) || reply == ConnectReply::<E>::Attempt(Ok(())),
        reply.step() == ConnectStep::<E>::Finish(Err(error)) <==> reply == ConnectReply::<
            E,
        >::State(Err(error)) || reply == ConnectReply::<E>::Attempt(Err(error)),
{
}

/// The services are enumerated exactly when nothing is known. What is known, and what came out of
/// the enumeration, is returned as it is, an empty list and an error too.
pub proof fn law_way_to_attributes<T, E>(known: Vec<T>, outcome: Result<Vec<T>, E>)
    ensures
        known@.len() == 0 ==> AttributeReply::<T, E>::Known(known).step() == AttributeStep::<
            T,
            E,
        >::Discover,
        known@.len() > 0 ==> AttributeReply::<T, E>::Known(known).step() == AttributeStep::<
            T,
            E,
        >::Finish(Ok(known)),
        AttributeReply::<T, E>::Discovered(outcome).step() == AttributeStep::<T, E>::Finish(
            outcome,
        ),
{
}

/// The characteristics of a device are those that were listed, in the same order, each with the
/// device, its place and its identifier.
pub proof fn law_characteristics_of_a_device(device: Device, uuids: Seq<Uuid>)
    ensures
        device.with_characteristics(uuids).len() == uuids.len(),
        forall|i: int|
            0 <= i < uuids.len() ==> (#[trigger] device.with_characteristics(uuids)[i]) == (
            Characteristic { device, position: i as usize, uuid: uuids[i] }),
{
}

} // verus!
