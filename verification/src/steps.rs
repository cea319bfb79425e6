//! What each step of a scan does, said of its state and of the reply that it was given.

use uuid::Uuid;
use vstd::prelude::*;

use crate::address::BDAddr;
use crate::config::ConfigView;
use crate::device::{Device, DeviceEvent};
use crate::filter::{Answers, DeviceProperties, FilterView};
use crate::model::WorkerView;
use crate::protocol::{Candidate, CentralEvent, Notice, Phase, Reply, Request, Stage};

verus! {

/// A scan asks for what it waits for, and about the device that it waits for.
pub proof fn law_requests(
    id: u64,
    address: BDAddr,
    notice: Notice,
    passed: bool,
    round: usize,
    verdict: Option<bool>,
)
    ensures
        Phase::Starting.request() == Request::StartScan,
        Phase::Opening.request() == Request::OpenEvents,
        Phase::Listening.request() == Request::NextEvent,
        (Phase::Locating { id, notice }).request() == Request::FindPeripheral(id),
        (Phase::Selecting { id }).request() == Request::FindPeripheral(id),
        (Phase::Inspecting { id, address }).request() == Request::ReadProperties(id),
        Phase::Probing(
            Candidate { id, address, passed, round, stage: Stage::Connection },
        ).request() == Request::CheckConnection(id),
        Phase::Probing(
            Candidate { id, address, passed, round, stage: Stage::Connecting },
        ).request() == Request::Connect(id),
        Phase::Probing(Candidate { id, address, passed, round, stage: Stage::Known }).request()
            == Request::ReadCharacteristics(id),
        Phase::Probing(
            Candidate { id, address, passed, round, stage: Stage::Releasing { verdict } },
        ).request() == Request::Disconnect(id),
        Phase::Probing(
            Candidate { id, address, passed, round, stage: Stage::Discovering },
        ).request() == Request::DiscoverServices(id),
        Phase::Probing(Candidate { id, address, passed, round, stage: Stage::Fresh }).request()
            == Request::ReadCharacteristics(id),
        Phase::Pausing.request() == Request::CheckStop,
        Phase::Finished.request() == Request::Finish,
{
}

/// A scan begins with nothing found, nothing rejected and nobody being connected, by having the
/// adapter scan.
pub proof fn law_scan_begins(config: ConfigView)
    ensures
        WorkerView::initial(config).config == config,
        WorkerView::initial(config).phase == Phase::Starting,
        WorkerView::initial(config).started_at is None,
        WorkerView::initial(config).result_count == 0,
        forall|id: u64|
            !WorkerView::initial(config).filtered.contains(id) && !WorkerView::initial(
                config,
            ).connecting.contains(id) && !WorkerView::initial(config).matched.contains(id),
{
}

/// A scan is sound exactly when it has counted its matches, looks at none of them again, applies
/// the configuration only to a device that it has not looked at, and probes in a round that there
/// is.
pub proof fn law_soundness(state: WorkerView)
    ensures
        state.sound() <==> {
            &&& state.matched.finite() && state.matched.len() == state.result_count
            &&& forall|id: u64| state.matched.contains(id) ==> state.filtered.contains(id)
            &&& state.phase matches Phase::Selecting { id } ==> !state.filtered.contains(id)
            &&& state.phase matches Phase::Inspecting { id, address: _ }
                ==> !state.filtered.contains(id)
            &&& state.phase matches Phase::Probing(candidate) ==> {
                &&& !state.filtered.contains(candidate.id)
                &&& candidate.round < state.config.probe_rounds().len()
            }
        },
{
}

/// A scan begins at the time at which the adapter began to scan, and is over if it did not.
pub proof fn law_adapter_scans(state: WorkerView, started: Option<u128>, answers: Answers)
    requires
        state.phase == Phase::Starting,
    ensures
        state.next(Reply::Started(started), answers) == (
            match started {
                Some(now) => WorkerView {
                    phase: Phase::Opening,
                    started_at: Some(now as nat),
                    ..state
                },
                None => WorkerView { phase: Phase::Finished, ..state },
            },
            None::<DeviceEvent>,
        ),
{
}

/// A stream that was opened is used, once the scan has looked at the clock. Where none can be
/// opened the scan is over.
pub proof fn law_stream_opens(state: WorkerView, opened: bool, answers: Answers)
    requires
        state.phase == Phase::Opening,
    ensures
        state.next(Reply::Opened(opened), answers) == (
            WorkerView {
                phase: if opened {
                    Phase::Pausing
                } else {
                    Phase::Finished
                },
                ..state
            },
            None::<DeviceEvent>,
        ),
{
}

/// A scan that is neither asked to stop nor at its number of matches ends, when it is told the time
/// or given an event, exactly if the time since it began is at least its timeout. The time at which
/// that is so is the time at which it began and the timeout added.
pub proof fn law_timeout(
    state: WorkerView,
    started_at: nat,
    timeout: u128,
    now: u128,
    event: Option<CentralEvent>,
    answers: Answers,
)
    requires
        state.phase != Phase::Finished,
        state.started_at == Some(started_at),
        state.config.timeout == Some(timeout),
        now >= started_at,
        state.config.max_results matches Some(max_results) ==> state.result_count < max_results,
    ensures
        state.next(Reply::Clock { now, stop_requested: false }, answers).0.phase == Phase::Finished
            <==> now - started_at >= timeout,
        state.phase == Phase::Listening ==> (state.next(
            Reply::Event { event, now, stop_requested: false },
            answers,
        ).0.phase == Phase::Finished <==> now - started_at >= timeout),
        state.deadline() == Some((started_at + timeout) as nat),
{
}

/// A scan without a timeout, and one that has not begun, has no time at which it ends. Without a
/// timeout a scan that is neither asked to stop nor at its number of matches goes on at any time.
pub proof fn law_no_timeout(state: WorkerView, now: u128, answers: Answers)
    ensures
        state.config.timeout is None || state.started_at is None ==> state.deadline() is None,
        state.phase != Phase::Finished && state.config.timeout is None && (
        state.config.max_results matches Some(max_results) ==> state.result_count < max_results)
            ==> state.next(Reply::Clock { now, stop_requested: false }, answers).0.phase
            != Phase::Finished,
{
}

/// A scan that is told the time ends if it was asked to stop, if it has as many matches as it may,
/// or if its time is up. If none of that is so it goes on to listen where it had paused, and
/// otherwise waits as before. Nothing is reported, and nothing else changes.
pub proof fn law_clock(state: WorkerView, now: u128, stop_requested: bool, answers: Answers)
    requires
        state.phase != Phase::Finished,
    ensures
        ({
            let ends = {
                ||| stop_requested
                ||| state.config.max_results matches Some(most) && state.result_count >= most
                ||| state.config.timeout matches Some(timeout) && (timeout == 0 || (
                state.started_at matches Some(started_at) && now - started_at >= timeout))
            };
            state.next(Reply::Clock { now, stop_requested }, answers) == (
                WorkerView {
                    phase: if ends {
                        Phase::Finished
                    } else if state.phase == Phase::Pausing {
                        Phase::Listening
                    } else {
                        state.phase
                    },
                    ..state
                },
                None::<DeviceEvent>,
            )
        }),
{
}

/// An event is taken up unless the scan is to end: the device that it is about is looked up for
/// what it says, one that was connected is no longer being connected, anything else is passed over,
/// and a stream that ended is opened anew. Nothing else changes.
pub proof fn law_event_is_taken_up(
    state: WorkerView,
    event: Option<CentralEvent>,
    now: u128,
    stop_requested: bool,
    answers: Answers,
)
    requires
        state.phase == Phase::Listening,
    ensures
        ({
            let ends = {
                ||| stop_requested
                ||| state.config.max_results matches Some(most) && state.result_count >= most
                ||| state.config.timeout matches Some(timeout) && (timeout == 0 || (
                state.started_at matches Some(started_at) && now - started_at >= timeout))
            };
            let (next, report) = state.next(Reply::Event { event, now, stop_requested }, answers);
            &&& report is None
            &&& next.phase == if ends {
                Phase::Finished
            } else {
                match event {
                    Some(CentralEvent::DeviceDiscovered(id)) => Phase::Locating {
                        id,
                        notice: Notice::Discovered,
                    },
                    Some(CentralEvent::DeviceUpdated(id)) => Phase::Locating {
                        id,
                        notice: Notice::Updated,
                    },
                    Some(CentralEvent::DeviceConnected(id)) => Phase::Locating {
                        id,
                        notice: Notice::Connected,
                    },
                    Some(CentralEvent::DeviceDisconnected(id)) => Phase::Locating {
                        id,
                        notice: Notice::Disconnected,
                    },
                    Some(CentralEvent::Other) => Phase::Pausing,
                    None => Phase::Opening,
                }
            }
            &&& forall|other: u64|
                next.connecting.contains(other) <==> state.connecting.contains(other) && (ends
                    || event != Some(CentralEvent::DeviceConnected(other)))
            &&& next == (WorkerView {
                phase: next.phase,
                connecting: next.connecting,
                ..state
            })
        }),
{
}

/// An update of a match that the adapter has is reported, with the number and the address of the
/// device, however many matches there are and whatever else the scan has seen. Nothing else
/// changes.
pub proof fn law_update_of_a_match(state: WorkerView, id: u64, address: BDAddr, answers: Answers)
    requires
        state.phase == (Phase::Locating { id, notice: Notice::Updated }),
        state.matched.contains(id),
    ensures
        state.next(Reply::Peripheral(Some(address)), answers) == (
            WorkerView { phase: Phase::Pausing, ..state },
            Some(DeviceEvent::Updated(Device { id, address })),
        ),
{
}

/// A connection of a match that the adapter has is reported, with the number and the address of the
/// device, however many matches there are and whatever else the scan has seen. Nothing else
/// changes.
pub proof fn law_connection_of_a_match(
    state: WorkerView,
    id: u64,
    address: BDAddr,
    answers: Answers,
)
    requires
        state.phase == (Phase::Locating { id, notice: Notice::Connected }),
        state.matched.contains(id),
    ensures
        state.next(Reply::Peripheral(Some(address)), answers) == (
            WorkerView { phase: Phase::Pausing, ..state },
            Some(DeviceEvent::Connected(Device { id, address })),
        ),
{
}

/// A disconnection is reported exactly where the device is a match and the adapter has it, with the
/// number and the address of the device. In any case the device is no longer being connected.
/// Nothing else changes.
pub proof fn law_disconnection(
    state: WorkerView,
    id: u64,
    found: Option<BDAddr>,
    answers: Answers,
)
    requires
        state.phase == (Phase::Locating { id, notice: Notice::Disconnected }),
    ensures
        ({
            let (next, report) = state.next(Reply::Peripheral(found), answers);
            &&& forall|address: BDAddr|
                found == Some(address) && state.matched.contains(id) ==> report == Some(
                    DeviceEvent::Disconnected(Device { id, address }),
                )
            &&& found is None || !state.matched.contains(id) ==> report is None
            &&& forall|other: u64|
                next.connecting.contains(other) <==> state.connecting.contains(other) && other != id
            &&& next == (WorkerView {
                phase: Phase::Pausing,
                connecting: next.connecting,
                ..state
            })
        }),
{
}

/// A device that is discovered, or that is updated or connected without being a match, is looked at
/// where the adapter has it and it was not looked at before, and is passed over otherwise. Nothing
/// else changes.
pub proof fn law_new_device_is_looked_at(
    state: WorkerView,
    id: u64,
    notice: Notice,
    found: Option<BDAddr>,
    answers: Answers,
)
    requires
        state.phase == (Phase::Locating { id, notice }),
        notice == Notice::Discovered || ((notice == Notice::Updated || notice == Notice::Connected)
            && (found is None || !state.matched.contains(id))),
    ensures
        found is Some && !state.filtered.contains(id) ==> state.next(
            Reply::Peripheral(found),
            answers,
        ) == (WorkerView { phase: Phase::Selecting { id }, ..state }, None::<DeviceEvent>),
        found is None || state.filtered.contains(id) ==> state.next(
            Reply::Peripheral(found),
            answers,
        ) == (WorkerView { phase: Phase::Pausing, ..state }, None::<DeviceEvent>),
{
}

/// What a device advertises is read where the adapter has the device. Where it has not, the device
/// is passed over and may be looked at another time.
pub proof fn law_device_is_selected(
    state: WorkerView,
    id: u64,
    found: Option<BDAddr>,
    answers: Answers,
)
    requires
        state.phase == (Phase::Selecting { id }),
    ensures
        forall|address: BDAddr|
            found == Some(address) ==> #[trigger] state.next(
                Reply::Peripheral(Some(address)),
                answers,
            ) == (
                WorkerView { phase: Phase::Inspecting { id, address }, ..state },
                None::<DeviceEvent>,
            ),
        found is None ==> state.next(Reply::Peripheral(found), answers) == (
            WorkerView { phase: Phase::Pausing, ..state },
            None::<DeviceEvent>,
        ),
{
}

/// A device whose advertisement cannot be read is passed over for good, without a report. Nothing
/// else changes.
pub proof fn law_unreadable_device(
    state: WorkerView,
    id: u64,
    address: BDAddr,
    answers: Answers,
)
    requires
        state.phase == (Phase::Inspecting { id, address }),
    ensures
        state.next(Reply::Properties(None), answers) == (
            WorkerView {
                phase: Phase::Pausing,
                filtered: state.filtered.insert(id),
                ..state
            },
            None::<DeviceEvent>,
        ),
{
}

/// Where a configuration does not speak of characteristics, the advertisement decides: a device
/// that satisfies the configuration is reported, counted and kept as a match, and one that does not
/// is passed over for good. Nothing else changes.
pub proof fn law_advertisement_decides(
    state: WorkerView,
    id: u64,
    address: BDAddr,
    properties: DeviceProperties,
    answers: Answers,
)
    requires
        state.phase == (Phase::Inspecting { id, address }),
        state.config.probe_rounds().len() == 0,
    ensures
        ({
            let fit = properties@.satisfy(state.config.filters, answers);
            state.next(Reply::Properties(Some(properties)), answers) == (
                WorkerView {
                    phase: Phase::Pausing,
                    filtered: state.filtered.insert(id),
                    matched: if fit {
                        state.matched.insert(id)
                    } else {
                        state.matched
                    },
                    result_count: if fit {
                        state.result_count + 1
                    } else {
                        state.result_count
                    },
                    ..state
                },
                if fit {
                    Some(DeviceEvent::Discovered(Device { id, address }))
                } else {
                    None
                },
            )
        }),
{
}

/// Where a configuration speaks of characteristics, the device is probed from the first round on,
/// and it is kept in mind whether its advertisement satisfied the configuration.
pub proof fn law_probing_begins(
    state: WorkerView,
    id: u64,
    address: BDAddr,
    properties: DeviceProperties,
    answers: Answers,
)
    requires
        state.phase == (Phase::Inspecting { id, address }),
        state.config.probe_rounds().len() > 0,
    ensures
        state.next(Reply::Properties(Some(properties)), answers) == (
            WorkerView {
                phase: Phase::Probing(
                    Candidate {
                        id,
                        address,
                        passed: properties@.satisfy(state.config.filters, answers),
                        round: 0,
                        stage: Stage::Connection,
                    },
                ),
                ..state
            },
            None::<DeviceEvent>,
        ),
{
}

/// A device is connected for a round of probing unless it is connected already or is being
/// connected; then its known characteristics are read. Nothing else changes.
pub proof fn law_probe_connects(
    state: WorkerView,
    candidate: Candidate,
    connected: Option<bool>,
    answers: Answers,
)
    requires
        state.phase == Phase::Probing(candidate),
        candidate.stage == Stage::Connection,
    ensures
        connected == Some(true) || state.connecting.contains(candidate.id) ==> state.next(
            Reply::Connection(connected),
            answers,
        ) == (
            WorkerView {
                phase: Phase::Probing(Candidate { stage: Stage::Known, ..candidate }),
                ..state
            },
            None::<DeviceEvent>,
        ),
        connected != Some(true) && !state.connecting.contains(candidate.id) ==> state.next(
            Reply::Connection(connected),
            answers,
        ) == (
            WorkerView {
                phase: Phase::Probing(Candidate { stage: Stage::Connecting, ..candidate }),
                connecting: state.connecting.insert(candidate.id),
                ..state
            },
            None::<DeviceEvent>,
        ),
{
}

/// Once a device is connected, its known characteristics are read. Nothing else changes.
pub proof fn law_probe_is_connected(state: WorkerView, candidate: Candidate, answers: Answers)
    requires
        state.phase == Phase::Probing(candidate),
        candidate.stage == Stage::Connecting,
    ensures
        state.next(Reply::Connected(true), answers) == (
            WorkerView {
                phase: Phase::Probing(Candidate { stage: Stage::Known, ..candidate }),
                ..state
            },
            None::<DeviceEvent>,
        ),
{
}

/// Where no characteristics are known, the services are enumerated, after a disconnection where
/// that is forced. Nothing else changes.
pub proof fn law_probe_knows_nothing(
    state: WorkerView,
    candidate: Candidate,
    uuids: Vec<Uuid>,
    answers: Answers,
)
    requires
        state.phase == Phase::Probing(candidate),
        candidate.stage == Stage::Known,
        uuids@.len() == 0,
    ensures
        state.next(Reply::Characteristics(uuids), answers) == (
            WorkerView {
                phase: Phase::Probing(
                    Candidate {
                        stage: if state.config.force_disconnect {
                            Stage::Releasing { verdict: None }
                        } else {
                            Stage::Discovering
                        },
                        ..candidate
                    },
                ),
                ..state
            },
            None::<DeviceEvent>,
        ),
{
}

/// Where a disconnection is forced, the device is disconnected before what its known
/// characteristics say about it is put to use: the answer of the predicate, or without one whether
/// the wanted identifier stands at any place among them. Nothing else changes.
pub proof fn law_probe_disconnects(
    state: WorkerView,
    candidate: Candidate,
    uuids: Vec<Uuid>,
    answers: Answers,
)
    requires
        state.phase == Phase::Probing(candidate),
        candidate.stage == Stage::Known,
        uuids@.len() > 0,
        state.config.force_disconnect,
    ensures
        ({
            let good = match answers.characteristics {
                Some(answer) => answer,
                None => match state.config.probe_rounds()[candidate.round as int] {
                    Some(wanted) => exists|i: int|
                        0 <= i < uuids@.len() && #[trigger] uuids@[i] == wanted,
                    None => true,
                },
            };
            state.next(Reply::Characteristics(uuids), answers) == (
                WorkerView {
                    phase: Phase::Probing(
                        Candidate { stage: Stage::Releasing { verdict: Some(good) }, ..candidate },
                    ),
                    ..state
                },
                None::<DeviceEvent>,
            )
        }),
{
}

/// Whether or not a disconnection succeeds, where no characteristics were known the services are
/// enumerated next. Nothing else changes.
pub proof fn law_probe_is_disconnected(
    state: WorkerView,
    candidate: Candidate,
    ended: bool,
    answers: Answers,
)
    requires
        state.phase == Phase::Probing(candidate),
        candidate.stage == (Stage::Releasing { verdict: None }),
    ensures
        state.next(Reply::Disconnected(ended), answers) == (
            WorkerView {
                phase: Phase::Probing(Candidate { stage: Stage::Discovering, ..candidate }),
                ..state
            },
            None::<DeviceEvent>,
        ),
{
}

/// Once the services are enumerated, the characteristics are read again. Nothing else changes.
pub proof fn law_probe_enumerates(state: WorkerView, candidate: Candidate, answers: Answers)
    requires
        state.phase == Phase::Probing(candidate),
        candidate.stage == Stage::Discovering,
    ensures
        state.next(Reply::ServicesDiscovered(true), answers) == (
            WorkerView {
                phase: Phase::Probing(Candidate { stage: Stage::Fresh, ..candidate }),
                ..state
            },
            None::<DeviceEvent>,
        ),
{
}

/// A device that cannot be connected fails the round, and so everything, and is no longer being
/// connected: after the last round it is passed over for good, before that the next round begins.
pub proof fn law_failed_connection(state: WorkerView, candidate: Candidate, answers: Answers)
    requires
        state.phase == Phase::Probing(candidate),
        candidate.round < state.config.probe_rounds().len(),
        state.config.probe_rounds().len() <= usize::MAX,
        candidate.stage == Stage::Connecting,
    ensures
        ({
            let last = candidate.round == state.config.probe_rounds().len() - 1;
            let step = state.next(Reply::Connected(false), answers);
            &&& !last ==> step == (
                WorkerView {
                    phase: Phase::Probing(
                        Candidate {
                            passed: false,
                            round: (candidate.round + 1) as usize,
                            stage: Stage::Connection,
                            ..candidate
                        },
                    ),
                    connecting: state.connecting.remove(candidate.id),
                    ..state
                },
                None::<DeviceEvent>,
            )
            &&& last ==> step == (
                WorkerView {
                    phase: Phase::Pausing,
                    filtered: state.filtered.insert(candidate.id),
                    connecting: state.connecting.remove(candidate.id),
                    ..state
                },
                None::<DeviceEvent>,
            )
        }),
{
}

/// A device whose services cannot be enumerated fails the round, and so everything: after the last
/// round it is passed over for good, before that the next round begins.
pub proof fn law_failed_enumeration(state: WorkerView, candidate: Candidate, answers: Answers)
    requires
        state.phase == Phase::Probing(candidate),
        candidate.round < state.config.probe_rounds().len(),
        state.config.probe_rounds().len() <= usize::MAX,
        candidate.stage == Stage::Discovering,
    ensures
        ({
            let last = candidate.round == state.config.probe_rounds().len() - 1;
            let step = state.next(Reply::ServicesDiscovered(false), answers);
            &&& !last ==> step == (
                WorkerView {
                    phase: Phase::Probing(
                        Candidate {
                            passed: false,
                            round: (candidate.round + 1) as usize,
                            stage: Stage::Connection,
                            ..candidate
                        },
                    ),
                    ..state
                },
                None::<DeviceEvent>,
            )
            &&& last ==> step == (
                WorkerView {
                    phase: Phase::Pausing,
                    filtered: state.filtered.insert(candidate.id),
                    ..state
                },
                None::<DeviceEvent>,
            )
        }),
{
}

/// A device passes a round with its enumerated characteristics exactly when the predicate accepts
/// them, or without a predicate, when the identifier that the round is for, if it is for one,
/// stands at any place among them. After the last round a device that passed everything is
/// reported, counted and kept as a match, and any other is passed over for good; before that the
/// next round begins.
pub proof fn law_enumerated_characteristics(
    state: WorkerView,
    candidate: Candidate,
    uuids: Vec<Uuid>,
    answers: Answers,
)
    requires
        state.phase == Phase::Probing(candidate),
        candidate.round < state.config.probe_rounds().len(),
        state.config.probe_rounds().len() <= usize::MAX,
        candidate.stage == Stage::Fresh,
    ensures
        ({
            let passed = candidate.passed && match answers.characteristics {
                Some(answer) => answer,
                None => match state.config.probe_rounds()[candidate.round as int] {
                    Some(wanted) => exists|i: int|
                        0 <= i < uuids@.len() && #[trigger] uuids@[i] == wanted,
                    None => true,
                },
            };
            let last = candidate.round == state.config.probe_rounds().len() - 1;
            let step = state.next(Reply::Characteristics(uuids), answers);
            &&& !last ==> step == (
                WorkerView {
                    phase: Phase::Probing(
                        Candidate {
                            passed,
                            round: (candidate.round + 1) as usize,
                            stage: Stage::Connection,
                            ..candidate
                        },
                    ),
                    ..state
                },
                None::<DeviceEvent>,
            )
            &&& last && passed ==> step == (
                WorkerView {
                    phase: Phase::Pausing,
                    filtered: state.filtered.insert(candidate.id),
                    matched: state.matched.insert(candidate.id),
                    result_count: state.result_count + 1,
                    ..state
                },
                Some(
                    DeviceEvent::Discovered(
                        Device { id: candidate.id, address: candidate.address },
                    ),
                ),
            )
            &&& last && !passed ==> step == (
                WorkerView {
                    phase: Phase::Pausing,
                    filtered: state.filtered.insert(candidate.id),
                    ..state
                },
                None::<DeviceEvent>,
            )
        }),
{
}

/// A device passes a round with the characteristics that are known of it, where there are any,
/// exactly when the predicate accepts them, or without a predicate, when the identifier that the
/// round is for, if it is for one, stands at any place among them. After the last round a device
/// that passed everything is reported, counted and kept as a match, and any other is passed over
/// for good; before that the next round begins.
pub proof fn law_known_characteristics(
    state: WorkerView,
    candidate: Candidate,
    uuids: Vec<Uuid>,
    answers: Answers,
)
    requires
        state.phase == Phase::Probing(candidate),
        candidate.round < state.config.probe_rounds().len(),
        state.config.probe_rounds().len() <= usize::MAX,
        candidate.stage == Stage::Known,
        uuids@.len() > 0,
        !state.config.force_disconnect,
    ensures
        ({
            let passed = candidate.passed && match answers.characteristics {
                Some(answer) => answer,
                None => match state.config.probe_rounds()[candidate.round as int] {
                    Some(wanted) => exists|i: int|
                        0 <= i < uuids@.len() && #[trigger] uuids@[i] == wanted,
                    None => true,
                },
            };
            let last = candidate.round == state.config.probe_rounds().len() - 1;
            let step = state.next(Reply::Characteristics(uuids), answers);
            &&& !last ==> step == (
                WorkerView {
                    phase: Phase::Probing(
                        Candidate {
                            passed,
                            round: (candidate.round + 1) as usize,
                            stage: Stage::Connection,
                            ..candidate
                        },
                    ),
                    ..state
                },
                None::<DeviceEvent>,
            )
            &&& last && passed ==> step == (
                WorkerView {
                    phase: Phase::Pausing,
                    filtered: state.filtered.insert(candidate.id),
                    matched: state.matched.insert(candidate.id),
                    result_count: state.result_count + 1,
                    ..state
                },
                Some(
                    DeviceEvent::Discovered(
                        Device { id: candidate.id, address: candidate.address },
                    ),
                ),
            )
            &&& last && !passed ==> step == (
                WorkerView {
                    phase: Phase::Pausing,
                    filtered: state.filtered.insert(candidate.id),
                    ..state
                },
                None::<DeviceEvent>,
            )
        }),
{
}

/// Whether or not a disconnection succeeds, what the known characteristics said about the device is
/// then put to use. After the last round a device that passed everything is reported, counted and
/// kept as a match, and any other is passed over for good; before that the next round begins.
pub proof fn law_released_device(
    state: WorkerView,
    candidate: Candidate,
    verdict: bool,
    ended: bool,
    answers: Answers,
)
    requires
        state.phase == Phase::Probing(candidate),
        candidate.round < state.config.probe_rounds().len(),
        state.config.probe_rounds().len() <= usize::MAX,
        candidate.stage == (Stage::Releasing { verdict: Some(verdict) }),
    ensures
        ({
            let passed = candidate.passed && verdict;
            let last = candidate.round == state.config.probe_rounds().len() - 1;
            let step = state.next(Reply::Disconnected(ended), answers);
            &&& !last ==> step == (
                WorkerView {
                    phase: Phase::Probing(
                        Candidate {
                            passed,
                            round: (candidate.round + 1) as usize,
                            stage: Stage::Connection,
                            ..candidate
                        },
                    ),
                    ..state
                },
                None::<DeviceEvent>,
            )
            &&& last && passed ==> step == (
                WorkerView {
                    phase: Phase::Pausing,
                    filtered: state.filtered.insert(candidate.id),
                    matched: state.matched.insert(candidate.id),
                    result_count: state.result_count + 1,
                    ..state
                },
                Some(
                    DeviceEvent::Discovered(
                        Device { id: candidate.id, address: candidate.address },
                    ),
                ),
            )
            &&& last && !passed ==> step == (
                WorkerView {
                    phase: Phase::Pausing,
                    filtered: state.filtered.insert(candidate.id),
                    ..state
                },
                None::<DeviceEvent>,
            )
        }),
{
}

/// The predicates are asked about what a device advertises when it is read, about characteristics
/// when they were enumerated or are known to be some, and about nothing else.
pub proof fn law_when_predicates_are_asked(state: WorkerView, reply: Reply, answers: Answers)
    requires
        state.may_say_of(reply, answers),
    ensures
        ({
            let advertised = state.phase is Inspecting && (reply matches Reply::Properties(read)
                && read is Some);
            let listed = state.phase matches Phase::Probing(candidate) && (
            reply matches Reply::Characteristics(uuids) && (candidate.stage == Stage::Fresh || (
            candidate.stage == Stage::Known && uuids@.len() > 0)));
            &&& advertised ==> state.config.may_say_of(reply->Properties_0->0@, answers)
            &&& listed ==> state.config.may_say_of_characteristics(
                reply->Characteristics_0@,
                answers,
            )
            &&& !advertised && !listed ==> answers.address is None && answers.name is None
                && answers.rssi is None && answers.service is None && answers.characteristics
                is None
        }),
{
}

// Whole stories.

/// The state and the reports after one more reply.
proof fn lemma_run_step(state: WorkerView, inputs: Seq<(Reply, Answers)>, input: (Reply, Answers))
    ensures
        ({
            let (before, earlier) = state.run(inputs);
            let (after, report) = before.next(input.0, input.1);
            state.run(inputs.push(input)) == (
                after,
                match report {
                    Some(event) => earlier.push(event),
                    None => earlier,
                },
            )
        }),
{
    assert(inputs.push(input).drop_last() =~= inputs);
    assert(inputs.push(input).last() == input);
}

/// A device that is seen for the first time while a scan without limits listens, whose
/// advertisement is read and satisfies the configuration, is reported as discovered, and one that
/// does not satisfy it is not, where the configuration does not speak of characteristics.
pub proof fn law_story_of_a_discovery(
    state: WorkerView,
    id: u64,
    first: BDAddr,
    address: BDAddr,
    properties: DeviceProperties,
    now: u128,
    answers: Answers,
)
    requires
        state.phase == Phase::Listening,
        state.config.timeout is None,
        state.config.max_results is None,
        !state.filtered.contains(id),
        state.config.probe_rounds().len() == 0,
    ensures
        ({
            let event = Some(CentralEvent::DeviceDiscovered(id));
            let reports = state.run(
                Seq::empty().push(
                    (Reply::Event { event, now, stop_requested: false }, answers),
                ).push((Reply::Peripheral(Some(first)), answers)).push(
                    (Reply::Peripheral(Some(address)), answers),
                ).push((Reply::Properties(Some(properties)), answers)),
            ).1;
            if properties@.satisfy(state.config.filters, answers) {
                reports == seq![DeviceEvent::Discovered(Device { id, address })]
            } else {
                reports == Seq::<DeviceEvent>::empty()
            }
        }),
{
    let event = Some(CentralEvent::DeviceDiscovered(id));
    let a = (Reply::Event { event, now, stop_requested: false }, answers);
    let b = (Reply::Peripheral(Some(first)), answers);
    let c = (Reply::Peripheral(Some(address)), answers);
    let d = (Reply::Properties(Some(properties)), answers);
    let none: Seq<(Reply, Answers)> = Seq::empty();
    lemma_run_step(state, none, a);
    lemma_run_step(state, none.push(a), b);
    lemma_run_step(state, none.push(a).push(b), c);
    lemma_run_step(state, none.push(a).push(b).push(c), d);
    assert(Seq::<DeviceEvent>::empty().push(DeviceEvent::Discovered(Device { id, address }))
        =~= seq![DeviceEvent::Discovered(Device { id, address })]);
}

/// A device that is probed for a single wanted characteristic, that connects, of which nothing is
/// known at first and whose services are then enumerated, is reported as discovered exactly when
/// the wanted identifier stands at any place in what was enumerated, and it had passed before.
/// Otherwise it is passed over for good.
pub proof fn law_story_of_a_wanted_characteristic(
    state: WorkerView,
    candidate: Candidate,
    wanted: Uuid,
    nothing: Vec<Uuid>,
    uuids: Vec<Uuid>,
    connected: Option<bool>,
)
    requires
        state.phase == Phase::Probing(candidate),
        candidate.stage == Stage::Connection,
        candidate.round == 0,
        state.config.filters == seq![FilterView::Characteristic(wanted)],
        state.config.characteristics_filter is None,
        !state.config.force_disconnect,
        connected != Some(true),
        !state.connecting.contains(candidate.id),
        nothing@.len() == 0,
    ensures
        ({
            let none = Answers {
                address: None,
                name: None,
                rssi: None,
                service: None,
                characteristics: None,
            };
            let (end, reports) = state.run(
                Seq::empty().push((Reply::Connection(connected), none)).push(
                    (Reply::Connected(true), none),
                ).push((Reply::Characteristics(nothing), none)).push(
                    (Reply::ServicesDiscovered(true), none),
                ).push((Reply::Characteristics(uuids), none)),
            );
            if candidate.passed && exists|i: int|
                0 <= i < uuids@.len() && #[trigger] uuids@[i] == wanted {
                &&& reports == seq![
                    DeviceEvent::Discovered(
                        Device { id: candidate.id, address: candidate.address },
                    ),
                ]
                &&& end.matched.contains(candidate.id)
            } else {
                &&& reports == Seq::<DeviceEvent>::empty()
                &&& end.filtered.contains(candidate.id)
                &&& end.matched == state.matched
            }
        }),
{
    let none = Answers {
        address: None,
        name: None,
        rssi: None,
        service: None,
        characteristics: None,
    };
    let a = (Reply::Connection(connected), none);
    let b = (Reply::Connected(true), none);
    let c = (Reply::Characteristics(nothing), none);
    let d = (Reply::ServicesDiscovered(true), none);
    let e = (Reply::Characteristics(uuids), none);
    let start: Seq<(Reply, Answers)> = Seq::empty();
    crate::purpose::law_rounds_follow_the_list(
        Seq::empty(),
        Seq::empty(),
        FilterView::Characteristic(wanted),
    );
    crate::purpose::law_predicate_gets_a_round(state.config);
    assert(state.config.probe_rounds() == seq![Some(wanted)]);
    lemma_run_step(state, start, a);
    let one = state.run(start.push(a)).0;
    law_probe_connects(state, candidate, connected, none);
    lemma_run_step(state, start.push(a), b);
    let two = state.run(start.push(a).push(b)).0;
    law_probe_is_connected(one, Candidate { stage: Stage::Connecting, ..candidate }, none);
    lemma_run_step(state, start.push(a).push(b), c);
    let three = state.run(start.push(a).push(b).push(c)).0;
    law_probe_knows_nothing(two, Candidate { stage: Stage::Known, ..candidate }, nothing, none);
    lemma_run_step(state, start.push(a).push(b).push(c), d);
    let four = state.run(start.push(a).push(b).push(c).push(d)).0;
    law_probe_enumerates(three, Candidate { stage: Stage::Discovering, ..candidate }, none);
    lemma_run_step(state, start.push(a).push(b).push(c).push(d), e);
    law_enumerated_characteristics(
        four,
        Candidate { stage: Stage::Fresh, ..candidate },
        uuids,
        none,
    );
    assert(Seq::<DeviceEvent>::empty().push(
        DeviceEvent::Discovered(Device { id: candidate.id, address: candidate.address }),
    ) =~= seq![DeviceEvent::Discovered(Device { id: candidate.id, address: candidate.address })]);
}

} // verus!
