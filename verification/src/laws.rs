//! What holds of every scan, whatever the adapter reports and the predicates say.

use stream_cancel::Trigger;
use vstd::prelude::*;

use crate::config::ConfigView;
use crate::device::{Device, DeviceEvent};
use crate::filter::{Answers, Filter, FilterView, PropertiesView};
use crate::model::{Step, WorkerView};
use crate::protocol::{Candidate, CentralEvent, Phase, Reply, Request, Stage};
use crate::scanner::{Scanner, ScannerView, StartError, StartReply, StartStep};

verus! {

impl WorkerView {
    /// The state after a sequence of replies, and everything reported on the way. Each reply
    /// comes with what the predicates said about it.
    pub open spec fn run(self, inputs: Seq<(Reply, Answers)>) -> (WorkerView, Seq<DeviceEvent>)
        decreases inputs.len(),
    {
        if inputs.len() == 0 {
            (self, Seq::empty())
        } else {
            let (state, reports) = self.run(inputs.drop_last());
            let (reply, answers) = inputs.last();
            let (next, report) = state.next(reply, answers);
            (
                next,
                match report {
                    Some(event) => reports.push(event),
                    None => reports,
                },
            )
        }
    }

    /// The device failed the configuration, or has failed a part of it and is still being probed,
    /// or did not match while there was time.
    pub open spec fn rejects(self, id: u64) -> bool {
        &&& !self.matched.contains(id)
        &&& {
            ||| self.filtered.contains(id)
            ||| self.phase matches Phase::Probing(candidate) && candidate.id == id
                && !candidate.passed
            ||| self.phase == Phase::Finished
        }
    }

    /// The verdict of a round of probing, where the reply ends the round.
    pub open spec fn round_verdict(
        self,
        candidate: Candidate,
        reply: Reply,
        answers: Answers,
    ) -> Option<bool> {
        let wanted = self.config.probe_rounds()[candidate.round as int];
        match (candidate.stage, reply) {
            (Stage::Connecting, Reply::Connected(false)) => Some(false),
            (
                Stage::Known,
                Reply::Characteristics(uuids),
            ) if !self.config.force_disconnect => WorkerView::known_verdict(
                wanted,
                uuids@,
                answers,
            ),
            (Stage::Releasing { verdict }, Reply::Disconnected(_)) => verdict,
            (Stage::Discovering, Reply::ServicesDiscovered(false)) => Some(false),
            (Stage::Fresh, Reply::Characteristics(uuids)) => Some(
                WorkerView::verdict(wanted, uuids@, answers),
            ),
            _ => None,
        }
    }

    /// The reply is one to what the scan asked for, or tells the time while the scan goes on.
    pub open spec fn awaits(self, reply: Reply) -> bool {
        match self.phase.request() {
            Request::Finish => false,
            _ if reply is Clock => true,
            Request::StartScan => reply is Started,
            Request::OpenEvents => reply is Opened,
            Request::NextEvent => reply is Event,
            Request::FindPeripheral(_) => reply is Peripheral,
            Request::ReadProperties(_) => reply is Properties,
            Request::CheckConnection(_) => reply is Connection,
            Request::Connect(_) => reply is Connected,
            Request::ReadCharacteristics(_) => reply is Characteristics,
            Request::Disconnect(_) => reply is Disconnected,
            Request::DiscoverServices(_) => reply is ServicesDiscovered,
            Request::CheckStop => false,
        }
    }

    /// An upper bound on the replies that it takes to deal with the event at hand.
    pub open spec fn effort(self) -> int {
        let rounds: int = self.config.probe_rounds().len() as int;
        match self.phase {
            Phase::Locating { id: _, notice: _ } => 6 * rounds + 3,
            Phase::Selecting { id: _ } => 6 * rounds + 2,
            Phase::Inspecting { id: _, address: _ } => 6 * rounds + 1,
            Phase::Probing(candidate) => 6 * (rounds - 1 - candidate.round) + match candidate.stage {
                Stage::Connection => 6,
                Stage::Connecting => 5,
                Stage::Known => 4int,
                Stage::Releasing { verdict: _ } => 3,
                Stage::Discovering => 2,
                Stage::Fresh => 1,
            },
            _ => 0,
        }
    }

    /// The step keeps the scan sound, its configuration, its beginning, and the devices that it has
    /// looked at. It reports a discovery exactly when it adds a new match, and anything else only
    /// about a match.
    pub open spec fn orderly(self, step: Step) -> bool {
        let (next, report) = step;
        &&& next.sound()
        &&& next.config == self.config
        &&& self.phase != Phase::Starting ==> next.phase != Phase::Starting && next.started_at
            == self.started_at
        &&& self.filtered.subset_of(next.filtered)
        &&& match report {
            Some(DeviceEvent::Discovered(device)) => {
                &&& !self.filtered.contains(device.id)
                &&& next.filtered == self.filtered.insert(device.id)
                &&& next.matched == self.matched.insert(device.id)
                &&& next.result_count == self.result_count + 1
            },
            Some(event) => {
                &&& self.matched.contains(event.subject().id)
                &&& next.matched == self.matched
                &&& next.result_count == self.result_count
            },
            None => {
                &&& next.matched == self.matched
                &&& next.result_count == self.result_count
            },
        }
    }

    /// The number of matches has not gone past the limit, and there is room for one more while an
    /// event is awaited or dealt with.
    pub open spec fn within_limit(self) -> bool {
        self.config.max_results matches Some(max_results) ==> {
            &&& self.result_count <= max_results
            &&& match self.phase {
                Phase::Starting | Phase::Opening | Phase::Pausing | Phase::Finished => true,
                _ => self.result_count < max_results,
            }
        }
    }
}

/// Concluding a round of probing is an orderly step.
proof fn lemma_conclude_round(state: WorkerView, current: Candidate, candidate: Candidate)
    requires
        state.sound(),
        state.phase == Phase::Probing(current),
        current.id == candidate.id,
        current.round == candidate.round,
    ensures
        state.orderly(state.conclude_round(candidate)),
{
}

/// A step in probing a device is an orderly step.
proof fn lemma_probe(state: WorkerView, candidate: Candidate, reply: Reply, answers: Answers)
    requires
        state.sound(),
        state.phase == Phase::Probing(candidate),
    ensures
        state.orderly(state.probe(candidate, reply, answers)),
{
    let wanted = state.config.probe_rounds()[candidate.round as int];
    let rejected = Candidate { passed: false, ..candidate };
    let released = state.no_longer_connecting(candidate.id);
    match (candidate.stage, reply) {
        (Stage::Connecting, Reply::Connected(made)) => {
            lemma_conclude_round(released, candidate, rejected);
        },
        (Stage::Known, Reply::Characteristics(uuids)) => {
            let verdict = WorkerView::verdict(wanted, uuids@, answers);
            lemma_conclude_round(
                state,
                candidate,
                Candidate { passed: candidate.passed && verdict, ..candidate },
            );
        },
        (Stage::Releasing { verdict }, Reply::Disconnected(_)) => {
            if let Some(verdict) = verdict {
                lemma_conclude_round(
                    state,
                    candidate,
                    Candidate { passed: candidate.passed && verdict, ..candidate },
                );
            }
        },
        (Stage::Discovering, Reply::ServicesDiscovered(done)) => {
            lemma_conclude_round(state, candidate, rejected);
        },
        (Stage::Fresh, Reply::Characteristics(uuids)) => {
            let verdict = WorkerView::verdict(wanted, uuids@, answers);
            lemma_conclude_round(
                state,
                candidate,
                Candidate { passed: candidate.passed && verdict, ..candidate },
            );
        },
        _ => {},
    }
}

/// A step keeps a scan sound, and forgets neither its beginning nor a device. It reports a
/// discovery exactly when it adds a new match, and anything else only about a match.
pub proof fn law_step(state: WorkerView, reply: Reply, answers: Answers)
    requires
        state.sound(),
    ensures
        state.orderly(state.next(reply, answers)),
{
    if let Phase::Probing(candidate) = state.phase {
        if !(reply is Clock) {
            lemma_probe(state, candidate, reply, answers);
        }
    }
}

/// A scan goes by what it asked for: any other reply changes nothing.
pub proof fn law_unasked_reply_is_ignored(state: WorkerView, reply: Reply, answers: Answers)
    requires
        !state.awaits(reply),
    ensures
        state.next(reply, answers) == (state, None::<DeviceEvent>),
{
}

/// Each event is dealt with in a bounded number of replies: each reply to what was asked for brings
/// the scan closer to looking at the clock again.
pub proof fn law_event_is_dealt_with(state: WorkerView, reply: Reply, answers: Answers)
    requires
        state.sound(),
        state.config.probe_rounds().len() <= usize::MAX,
        state.awaits(reply),
        !(reply is Clock),
        state.phase != Phase::Starting,
        state.phase != Phase::Opening,
        state.phase != Phase::Listening,
        state.phase != Phase::Pausing,
    ensures
        ({
            let next = state.next(reply, answers).0;
            &&& 0 <= next.effort() < state.effort()
            &&& next.effort() == 0 ==> next.phase == Phase::Pausing
        }),
{
}

/// However a scan goes on, it stays sound and keeps its configuration, the devices that it has
/// looked at and its matches.
pub proof fn law_run_keeps(state: WorkerView, inputs: Seq<(Reply, Answers)>)
    requires
        state.sound(),
    ensures
        state.run(inputs).0.sound(),
        state.run(inputs).0.config == state.config,
        state.filtered.subset_of(state.run(inputs).0.filtered),
        state.matched.subset_of(state.run(inputs).0.matched),
    decreases inputs.len(),
{
    if inputs.len() > 0 {
        let before = state.run(inputs.drop_last()).0;
        law_run_keeps(state, inputs.drop_last());
        law_step(before, inputs.last().0, inputs.last().1);
    }
}

/// The reports of a scan from its beginning tell its matches: each match was reported as a
/// discovery, and each discovery was of a match.
pub proof fn law_matches_were_reported(config: ConfigView, inputs: Seq<(Reply, Answers)>)
    ensures
        ({
            let (state, reports) = WorkerView::initial(config).run(inputs);
            &&& forall|id: u64|
                state.matched.contains(id) <==> exists|i: int|
                    0 <= i < reports.len() && #[trigger] reports[i] is Discovered
                        && reports[i].subject().id == id
        }),
    decreases inputs.len(),
{
    let start = WorkerView::initial(config);
    let (state, reports) = start.run(inputs);
    if inputs.len() > 0 {
        let (before, earlier) = start.run(inputs.drop_last());
        law_matches_were_reported(config, inputs.drop_last());
        law_run_keeps(start, inputs.drop_last());
        law_step(before, inputs.last().0, inputs.last().1);
        assert forall|i: int| 0 <= i < earlier.len() implies #[trigger] reports[i]
            == earlier[i] by {}
        assert forall|id: u64| state.matched.contains(id) implies exists|i: int|
            0 <= i < reports.len() && #[trigger] reports[i] is Discovered
                && reports[i].subject().id == id by {
            if before.matched.contains(id) {
                let i = choose|i: int|
                    0 <= i < earlier.len() && #[trigger] earlier[i] is Discovered
                        && earlier[i].subject().id == id;
                assert(reports[i] is Discovered);
            } else {
                assert(reports.last() is Discovered);
            }
        }
        assert forall|i: int|
            0 <= i < reports.len() && #[trigger] reports[i] is Discovered implies
            state.matched.contains(reports[i].subject().id) by {
            if i < earlier.len() {
                assert(earlier[i] is Discovered);
            }
        }
    }
}

/// No device is discovered twice.
pub proof fn law_discovered_once(
    config: ConfigView,
    inputs: Seq<(Reply, Answers)>,
    i: int,
    j: int,
)
    requires
        0 <= i < j < WorkerView::initial(config).run(inputs).1.len(),
        WorkerView::initial(config).run(inputs).1[i] is Discovered,
        WorkerView::initial(config).run(inputs).1[j] is Discovered,
    ensures
        WorkerView::initial(config).run(inputs).1[i].subject().id != WorkerView::initial(
            config,
        ).run(inputs).1[j].subject().id,
    decreases inputs.len(),
{
    let start = WorkerView::initial(config);
    if inputs.len() > 0 {
        let (before, earlier) = start.run(inputs.drop_last());
        law_run_keeps(start, inputs.drop_last());
        law_matches_were_reported(config, inputs.drop_last());
        law_step(before, inputs.last().0, inputs.last().1);
        if j < earlier.len() {
            law_discovered_once(config, inputs.drop_last(), i, j);
        } else {
            assert(earlier[i] is Discovered);
            assert(before.matched.contains(earlier[i].subject().id));
        }
    }
}

/// Connections, disconnections and updates are reported only of devices that were discovered
/// before.
pub proof fn law_discovered_first(config: ConfigView, inputs: Seq<(Reply, Answers)>, j: int)
    requires
        0 <= j < WorkerView::initial(config).run(inputs).1.len(),
        !(WorkerView::initial(config).run(inputs).1[j] is Discovered),
    ensures
        ({
            let reports = WorkerView::initial(config).run(inputs).1;
            exists|i: int|
                0 <= i < j && #[trigger] reports[i] is Discovered && reports[i].subject().id
                    == reports[j].subject().id
        }),
    decreases inputs.len(),
{
    let start = WorkerView::initial(config);
    if inputs.len() > 0 {
        let (before, earlier) = start.run(inputs.drop_last());
        let reports = start.run(inputs).1;
        law_run_keeps(start, inputs.drop_last());
        law_matches_were_reported(config, inputs.drop_last());
        law_step(before, inputs.last().0, inputs.last().1);
        if j < earlier.len() {
            law_discovered_first(config, inputs.drop_last(), j);
        }
        let i = choose|i: int|
            0 <= i < j && #[trigger] earlier[i] is Discovered && earlier[i].subject().id
                == reports[j].subject().id;
        assert(reports[i] == earlier[i]);
    }
}

/// The number of results is the number of discoveries that were reported.
pub proof fn law_results_are_counted(config: ConfigView, inputs: Seq<(Reply, Answers)>)
    ensures
        ({
            let (state, reports) = WorkerView::initial(config).run(inputs);
            state.result_count == reports.filter(|event: DeviceEvent| event is Discovered).len()
        }),
    decreases inputs.len(),
{
    reveal(Seq::filter);
    let start = WorkerView::initial(config);
    if inputs.len() > 0 {
        let (before, earlier) = start.run(inputs.drop_last());
        let reports = start.run(inputs).1;
        law_run_keeps(start, inputs.drop_last());
        law_results_are_counted(config, inputs.drop_last());
        law_step(before, inputs.last().0, inputs.last().1);
        if reports.len() > earlier.len() {
            assert(reports.drop_last() =~= earlier);
        }
    }
}

/// A step does not go past the limit on matches.
proof fn lemma_step_within_limit(state: WorkerView, reply: Reply, answers: Answers)
    requires
        state.sound(),
        state.within_limit(),
    ensures
        state.next(reply, answers).0.within_limit(),
{
    law_step(state, reply, answers);
}

/// A scan that stops after a number of matches never has more of them.
pub proof fn law_limit_is_kept(config: ConfigView, inputs: Seq<(Reply, Answers)>)
    ensures
        WorkerView::initial(config).run(inputs).0.within_limit(),
        config.max_results matches Some(max_results) ==> WorkerView::initial(config).run(
            inputs,
        ).0.result_count <= max_results,
    decreases inputs.len(),
{
    let start = WorkerView::initial(config);
    if inputs.len() > 0 {
        law_run_keeps(start, inputs.drop_last());
        law_limit_is_kept(config, inputs.drop_last());
        lemma_step_within_limit(
            start.run(inputs.drop_last()).0,
            inputs.last().0,
            inputs.last().1,
        );
    }
}

/// A scan that is over stays as it is and reports nothing more.
pub proof fn law_over_is_over(state: WorkerView, inputs: Seq<(Reply, Answers)>)
    requires
        state.phase == Phase::Finished,
    ensures
        state.run(inputs) == (state, Seq::<DeviceEvent>::empty()),
    decreases inputs.len(),
{
    if inputs.len() > 0 {
        law_over_is_over(state, inputs.drop_last());
    }
}

/// Whatever a scan waits for, when it is told the time it is over exactly if its duration is up, it
/// has all its matches, or somebody asked it to stop.
pub proof fn law_stop(state: WorkerView, now: u128, stop_requested: bool, answers: Answers)
    requires
        state.phase != Phase::Finished,
    ensures
        ({
            let (next, report) = state.next(Reply::Clock { now, stop_requested }, answers);
            &&& report is None
            &&& next.phase == Phase::Finished <==> {
                ||| stop_requested
                ||| state.config.timeout matches Some(timeout) && state.elapsed(now as nat)
                    >= timeout
                ||| state.config.max_results matches Some(max_results) && state.result_count
                    >= max_results
            }
        }),
{
}

/// A scan is over once it is told a time at which its duration is up, and no earlier time is one
/// at which it is.
pub proof fn law_deadline(
    state: WorkerView,
    deadline: nat,
    now: u128,
    stop_requested: bool,
    answers: Answers,
)
    requires
        state.phase != Phase::Finished,
        state.deadline() == Some(deadline),
    ensures
        now >= deadline ==> state.next(Reply::Clock { now, stop_requested }, answers).0.phase
            == Phase::Finished,
        state.started_at matches Some(started_at) && (started_at <= now < deadline
            ==> state.elapsed(now as nat) < state.config.timeout->0),
{
}

/// The duration of a scan runs from its beginning: once the scan has begun, nothing that happens
/// moves the time at which it is up.
pub proof fn law_deadline_stands(state: WorkerView, inputs: Seq<(Reply, Answers)>)
    requires
        state.sound(),
        state.phase != Phase::Starting,
    ensures
        state.run(inputs).0.phase != Phase::Starting,
        state.run(inputs).0.started_at == state.started_at,
        state.run(inputs).0.deadline() == state.deadline(),
    decreases inputs.len(),
{
    if inputs.len() > 0 {
        law_deadline_stands(state, inputs.drop_last());
        law_run_keeps(state, inputs.drop_last());
        law_run_keeps(state, inputs);
        law_step(state.run(inputs.drop_last()).0, inputs.last().0, inputs.last().1);
    }
}

/// No event is taken up that comes after the request to stop: the scan is over, and nothing is
/// reported.
pub proof fn law_event_after_stop(
    state: WorkerView,
    event: Option<CentralEvent>,
    now: u128,
    answers: Answers,
)
    requires
        state.phase == Phase::Listening,
    ensures
        state.next(Reply::Event { event, now, stop_requested: true }, answers) == (
            state.at(Phase::Finished),
            None::<DeviceEvent>,
        ),
{
}

/// No event is taken up before the conditions to stop were held against the scan: a scan that is to
/// stop from the beginning takes up none.
pub proof fn law_stopped_from_the_beginning(
    config: ConfigView,
    now: u128,
    later: u128,
    stop_requested: bool,
    inputs: Seq<(Reply, Answers)>,
    answers: Answers,
)
    requires
        stop_requested || config.max_results == Some(0usize) || config.timeout == Some(0u128),
    ensures
        ({
            let begun = WorkerView::initial(config).next(Reply::Started(Some(now)), answers).0;
            let opened = begun.next(Reply::Opened(true), answers).0;
            let told = opened.next(Reply::Clock { now: later, stop_requested }, answers).0;
            told.phase == Phase::Finished && told.run(inputs).1 == Seq::<DeviceEvent>::empty()
        }),
{
    let begun = WorkerView::initial(config).next(Reply::Started(Some(now)), answers).0;
    let opened = begun.next(Reply::Opened(true), answers).0;
    let told = opened.next(Reply::Clock { now: later, stop_requested }, answers).0;
    law_over_is_over(told, inputs);
}

/// No device is looked at a second time: once the configuration was applied to it, it never is
/// again.
pub proof fn law_looked_at_once(state: WorkerView, inputs: Seq<(Reply, Answers)>, id: u64)
    requires
        state.sound(),
        state.filtered.contains(id),
    ensures
        state.run(inputs).0.phase.candidate_id() != Some(id),
{
    law_run_keeps(state, inputs);
}

/// Nothing is ever reported about a device that failed the configuration.
pub proof fn law_rejected_for_good(state: WorkerView, inputs: Seq<(Reply, Answers)>, id: u64)
    requires
        state.sound(),
        state.rejects(id),
    ensures
        ({
            let (later, reports) = state.run(inputs);
            &&& later.rejects(id)
            &&& forall|i: int| 0 <= i < reports.len() ==> (#[trigger] reports[i]).subject().id != id
        }),
    decreases inputs.len(),
{
    if inputs.len() > 0 {
        let before = state.run(inputs.drop_last()).0;
        law_rejected_for_good(state, inputs.drop_last(), id);
        law_run_keeps(state, inputs.drop_last());
        law_step(before, inputs.last().0, inputs.last().1);
    }
}

/// A device fails the configuration when its advertisement cannot be read or does not satisfy the
/// filters and predicates.
pub proof fn law_unfit_advertisement_is_rejected(
    state: WorkerView,
    id: u64,
    reply: Reply,
    answers: Answers,
)
    requires
        state.sound(),
        state.phase matches Phase::Inspecting { id: current, address: _ } && current == id,
        reply matches Reply::Properties(read) && (read matches Some(properties)
            ==> !properties@.satisfy(state.config.filters, answers)),
    ensures
        state.next(reply, answers).0.rejects(id),
        state.next(reply, answers).1 is None,
{
}

/// A device whose advertisement satisfies the filters and predicates is discovered at once, where
/// the configuration does not speak of characteristics.
pub proof fn law_fit_advertisement_is_discovered(
    state: WorkerView,
    id: u64,
    reply: Reply,
    answers: Answers,
)
    requires
        state.phase matches Phase::Inspecting { id: current, address: _ } && current == id,
        reply matches Reply::Properties(Some(properties)) && properties@.satisfy(
            state.config.filters,
            answers,
        ),
        state.config.probe_rounds().len() == 0,
    ensures
        state.next(reply, answers).1 matches Some(DeviceEvent::Discovered(device)) && device.id
            == id,
        state.next(reply, answers).0.matched.contains(id),
{
}

/// However the last round of probing ends, whether on known characteristics, on enumerated ones, on
/// a failed connection or on a failed enumeration, the device is then discovered exactly when it
/// passed everything before and that round.
pub proof fn law_last_round_decides(
    state: WorkerView,
    candidate: Candidate,
    reply: Reply,
    answers: Answers,
    verdict: bool,
)
    requires
        state.sound(),
        state.phase == Phase::Probing(candidate),
        candidate.round + 1 == state.config.probe_rounds().len(),
        state.round_verdict(candidate, reply, answers) == Some(verdict),
    ensures
        ({
            let (next, report) = state.next(reply, answers);
            if candidate.passed && verdict {
                report == Some(
                    DeviceEvent::Discovered(
                        Device { id: candidate.id, address: candidate.address },
                    ),
                )
            } else {
                report is None && next.rejects(candidate.id)
            }
        }),
{
}

/// However an earlier round of probing ends, the next one begins, and the device has passed what it
/// had passed before exactly where it passed that round too.
pub proof fn law_earlier_rounds_add_up(
    state: WorkerView,
    candidate: Candidate,
    reply: Reply,
    answers: Answers,
    verdict: bool,
)
    requires
        state.sound(),
        state.phase == Phase::Probing(candidate),
        candidate.round + 1 < state.config.probe_rounds().len(),
        state.round_verdict(candidate, reply, answers) == Some(verdict),
    ensures
        state.next(reply, answers).1 is None,
        state.next(reply, answers).0.phase == Phase::Probing(
            Candidate {
                passed: candidate.passed && verdict,
                round: (candidate.round + 1) as usize,
                stage: Stage::Connection,
                ..candidate
            },
        ),
{
}

/// A reply that does not end a round of probing neither reports anything nor changes what the
/// device has passed, unless the scan ends with it.
pub proof fn law_within_a_round(
    state: WorkerView,
    candidate: Candidate,
    reply: Reply,
    answers: Answers,
)
    requires
        state.phase == Phase::Probing(candidate),
        state.round_verdict(candidate, reply, answers) is None,
    ensures
        ({
            let (next, report) = state.next(reply, answers);
            &&& report is None
            &&& next.phase == Phase::Finished || (next.phase matches Phase::Probing(later) && later
                == candidate.at(later.stage))
        }),
{
}

/// A device is not discovered without a connection: where none can be made, the device is rejected.
pub proof fn law_connection_is_required(
    state: WorkerView,
    candidate: Candidate,
    inputs: Seq<(Reply, Answers)>,
    answers: Answers,
)
    requires
        state.sound(),
        state.phase == Phase::Probing(candidate),
        candidate.stage == Stage::Connecting,
    ensures
        ({
            let (next, report) = state.next(Reply::Connected(false), answers);
            let reports = next.run(inputs).1;
            &&& report is None
            &&& forall|i: int|
                0 <= i < reports.len() ==> (#[trigger] reports[i]).subject().id != candidate.id
        }),
{
    let next = state.next(Reply::Connected(false), answers).0;
    law_step(state, Reply::Connected(false), answers);
    law_rejected_for_good(next, inputs, candidate.id);
}

/// An attempt to connect that fails leaves no trace among the devices that are being connected.
pub proof fn law_failed_connection_is_forgotten(
    state: WorkerView,
    candidate: Candidate,
    connected: Option<bool>,
    first: Answers,
    second: Answers,
)
    requires
        state.phase == Phase::Probing(candidate),
        candidate.stage == Stage::Connection,
        connected != Some(true),
        !state.connecting.contains(candidate.id),
    ensures
        ({
            let attempt = state.next(Reply::Connection(connected), first).0;
            let failure = attempt.next(Reply::Connected(false), second).0;
            &&& attempt.phase.request() == Request::Connect(candidate.id)
            &&& failure.connecting == state.connecting
        }),
{
    assert(state.connecting.insert(candidate.id).remove(candidate.id) =~= state.connecting);
}

/// A connection to a device is not attempted while another one is under way.
pub proof fn law_one_attempt_at_a_time(
    state: WorkerView,
    candidate: Candidate,
    connected: Option<bool>,
    answers: Answers,
)
    requires
        state.phase == Phase::Probing(candidate),
        candidate.stage == Stage::Connection,
        state.connecting.contains(candidate.id),
    ensures
        state.next(Reply::Connection(connected), answers).0.phase.request()
            == Request::ReadCharacteristics(candidate.id),
        state.next(Reply::Connection(connected), answers).0.connecting == state.connecting,
{
}

/// A list of filters is satisfied exactly when both of its parts are: each further filter can only
/// narrow the selection.
pub proof fn law_filters_narrow(
    properties: PropertiesView,
    some: Seq<FilterView>,
    more: Seq<FilterView>,
    answers: Answers,
)
    ensures
        properties.satisfy(some + more, answers) <==> properties.satisfy(some, answers)
            && properties.satisfy(more, answers),
{
    let all = some + more;
    if properties.satisfy(all, answers) {
        assert forall|i: int| 0 <= i < some.len() implies (#[trigger] some[i]).passes(
            properties,
            answers,
        ) by {
            assert(all[i] == some[i]);
        }
        assert forall|i: int| 0 <= i < more.len() implies (#[trigger] more[i]).passes(
            properties,
            answers,
        ) by {
            assert(all[some.len() + i] == more[i]);
        }
    }
}

/// Neither the order in which filters are listed nor their repetition matters to the advertisement:
/// two lists that hold the same filters are satisfied by the same devices.
pub proof fn law_order_and_repetition_are_free(
    properties: PropertiesView,
    filters: Seq<FilterView>,
    others: Seq<FilterView>,
    answers: Answers,
)
    requires
        forall|filter: FilterView| filters.contains(filter) <==> others.contains(filter),
    ensures
        properties.satisfy(filters, answers) <==> properties.satisfy(others, answers),
{
    assert forall|i: int| 0 <= i < others.len() implies filters.contains(#[trigger] others[i]) by {
        assert(others.contains(others[i]));
    }
    assert forall|i: int| 0 <= i < filters.len() implies others.contains(#[trigger] filters[i]) by {
        assert(filters.contains(filters[i]));
    }
}

/// Filters that are listed in two parts are those that are listed at once.
pub proof fn law_listing_in_parts(config: ConfigView, first: Seq<Filter>, second: Seq<Filter>)
    ensures
        config.filters + FilterView::each(first) + FilterView::each(second) == config.filters
            + FilterView::each(first + second),
{
    assert(FilterView::each(first) + FilterView::each(second) =~= FilterView::each(first + second));
    assert(config.filters + FilterView::each(first) + FilterView::each(second) =~= config.filters
        + FilterView::each(first + second));
}

/// A configuration without filters and predicates admits every device.
pub proof fn law_unrestricted_admits_all(properties: PropertiesView, answers: Answers)
    requires
        ConfigView::unrestricted().may_say_of(properties, answers),
    ensures
        properties.satisfy(ConfigView::unrestricted().filters, answers),
        ConfigView::unrestricted().probe_rounds().len() == 0,
{
}

/// Without predicates there is nothing that a scan leaves to them: each reply has a single outcome.
pub proof fn law_without_predicates_one_outcome(
    state: WorkerView,
    reply: Reply,
    answers: Answers,
)
    requires
        state.config.address_filter is None,
        state.config.name_filter is None,
        state.config.rssi_filter is None,
        state.config.service_filter is None,
        state.config.characteristics_filter is None,
        state.may_say_of(reply, answers),
    ensures
        answers == Answers::unasked(),
{
}

/// A device without a name does not satisfy a configuration with a predicate on names, and so
/// none that requires a name.
pub proof fn law_nameless_is_rejected(
    config: ConfigView,
    properties: PropertiesView,
    answers: Answers,
)
    requires
        config.name_filter is Some,
        properties.local_name is None,
        config.may_say_of(properties, answers),
    ensures
        !properties.satisfy(config.filters, answers),
{
}

/// Where the predicate on names is the one that requires a name, each device that satisfies the
/// configuration has one that is not empty.
pub proof fn law_required_name_is_there(
    config: ConfigView,
    properties: PropertiesView,
    answers: Answers,
)
    requires
        config.name_filter matches Some(filter) && forall|name: &str, answer: bool|
            filter.may_answer(name, answer) ==> answer == (name@.len() > 0),
        config.may_say_of(properties, answers),
        properties.satisfy(config.filters, answers),
    ensures
        properties.local_name matches Some(name) && name.len() > 0,
{
}

/// Where a predicate on a property was asked, it decides in place of the values listed for that
/// property: a device that it rejects does not satisfy the configuration, and one that it accepts
/// is not held to those values.
pub proof fn law_predicate_decides(
    properties: PropertiesView,
    filters: Seq<FilterView>,
    filter: FilterView,
    answers: Answers,
    answer: bool,
)
    requires
        filter.overruled_by(answers) == Some(answer),
    ensures
        !answer ==> !properties.satisfy(filters, answers),
        answer ==> (properties.satisfy(filters.push(filter), answers) <==> properties.satisfy(
            filters,
            answers,
        )),
{
    if answer {
        law_filters_narrow(properties, filters, seq![filter], answers);
        assert(filters.push(filter) =~= filters + seq![filter]);
    }
}

/// The request to stop stands until a scan starts, and no longer: neither a new stream nor an
/// attempt that starts no scan takes it back, and a scan that starts is not ended by it.
pub proof fn law_stop_stands_until_a_start<E>(
    scanner: ScannerView,
    stopper: Trigger,
    step: StartStep<E>,
)
    ensures
        scanner.stopped().with_stream(stopper).scan_stopper,
        scanner.with_stream(stopper).stopped() == scanner.stopped(),
        scanner.stopped().after(step).scan_stopper <==> !(step is Spawn),
{
}

impl Scanner {
    /// What a stream of events hands out of a sequence that it received.
    pub open spec fn events_in(received: Seq<Result<DeviceEvent, u64>>) -> Seq<DeviceEvent>
        decreases received.len(),
    {
        if received.len() == 0 {
            Seq::empty()
        } else {
            let before = Scanner::events_in(received.drop_last());
            match Scanner::event_in(received.last()) {
                Some(event) => before.push(event),
                None => before,
            }
        }
    }

    /// What a stream of devices hands out of a sequence that it received.
    pub open spec fn devices_in(received: Seq<Result<DeviceEvent, u64>>) -> Seq<Device>
        decreases received.len(),
    {
        if received.len() == 0 {
            Seq::empty()
        } else {
            let before = Scanner::devices_in(received.drop_last());
            match Scanner::device_in(received.last()) {
                Some(device) => before.push(device),
                None => before,
            }
        }
    }
}

/// The two streams tell the same story: of what both receive, the stream of devices hands out the
/// devices of the discoveries that the stream of events hands out, in the same order, none missing
/// and none twice.
pub proof fn law_streams_agree(received: Seq<Result<DeviceEvent, u64>>)
    ensures
        Scanner::devices_in(received) == Scanner::events_in(received).filter(
            |event: DeviceEvent| event is Discovered,
        ).map_values(|event: DeviceEvent| event.subject()),
    decreases received.len(),
{
    reveal(Seq::filter);
    if received.len() > 0 {
        let earlier = Scanner::events_in(received.drop_last());
        let events = Scanner::events_in(received);
        law_streams_agree(received.drop_last());
        if received.last() is Ok {
            assert(events.drop_last() =~= earlier);
        }
    }
    assert(Scanner::devices_in(received) =~= Scanner::events_in(received).filter(
        |event: DeviceEvent| event is Discovered,
    ).map_values(|event: DeviceEvent| event.subject()));
}

/// A scanner is started only where no scan is running, and only with an adapter that is there.
pub proof fn law_start<E>(reply: StartReply<E>, adapter_index: usize)
    ensures
        reply == StartReply::<E>::Session(true) ==> reply.step(adapter_index)
            == StartStep::<E>::Finish(Ok(())),
        reply.step(adapter_index) matches StartStep::Spawn(index) ==> index == adapter_index && (
        reply matches StartReply::Adapters(Ok(count)) && index < count),
        reply.step(adapter_index) matches StartStep::Finish(Err(StartError::DeviceNotFound)) ==> (
        reply matches StartReply::Adapters(Ok(count)) && adapter_index >= count),
{
}

} // verus!
