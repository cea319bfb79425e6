//! The scan itself, one reply at a time.

use std::collections::HashSet;

use uuid::Uuid;
use vstd::prelude::*;

use crate::address::BDAddr;
use crate::config::ScanConfig;
use crate::device::{Device, DeviceEvent};
use crate::filter::{Answers, DeviceProperties};
use crate::identifier::position_of;
use crate::model::WorkerView;
use crate::protocol::{Candidate, CentralEvent, Notice, Phase, Reply, Request, Stage};

verus! {

broadcast use vstd::std_specs::hash::group_hash_axioms;

/// A scan: what it looks for, what it found and what it waits for.
pub struct ScannerWorker {
    /// Configurations for the scan, such as filters and stop conditions
    config: ScanConfig,
    /// What the scan is waiting for
    phase: Phase,
    /// When the scan began, in nanoseconds, once it has
    started_at: Option<u128>,
    /// Number of matching devices found so far
    result_count: usize,
    /// Set of devices that have been filtered and will be ignored
    filtered: HashSet<u64>,
    /// Set of devices that we are currently connecting to
    connecting: HashSet<u64>,
    /// Set of devices that matched the filters
    matched: HashSet<u64>,
}

impl View for ScannerWorker {
    type V = WorkerView;

    closed spec fn view(&self) -> WorkerView {
        WorkerView {
            config: self.config@,
            phase: self.phase,
            started_at: match self.started_at {
                Some(started_at) => Some(started_at as nat),
                None => None,
            },
            result_count: self.result_count as nat,
            filtered: self.filtered@,
            connecting: self.connecting@,
            matched: self.matched@,
        }
    }
}

impl ScannerWorker {
    /// A scan that has yet to begin.
    pub fn new(config: ScanConfig) -> (worker: ScannerWorker)
        ensures
            worker@ == WorkerView::initial(config@),
            worker@.sound(),
    {
        ScannerWorker {
            config,
            phase: Phase::Starting,
            started_at: None,
            result_count: 0,
            filtered: HashSet::new(),
            connecting: HashSet::new(),
            matched: HashSet::new(),
        }
    }

    /// What the scan needs to have done next.
    pub fn request(&self) -> (request: Request)
        ensures
            request == self@.phase.request(),
    {
        match self.phase {
            Phase::Starting => Request::StartScan,
            Phase::Opening => Request::OpenEvents,
            Phase::Listening => Request::NextEvent,
            Phase::Locating { id, notice: _ } => Request::FindPeripheral(id),
            Phase::Selecting { id } => Request::FindPeripheral(id),
            Phase::Inspecting { id, address: _ } => Request::ReadProperties(id),
            Phase::Probing(candidate) => match candidate.stage {
                Stage::Connection => Request::CheckConnection(candidate.id),
                Stage::Connecting => Request::Connect(candidate.id),
                Stage::Known => Request::ReadCharacteristics(candidate.id),
                Stage::Releasing { verdict: _ } => Request::Disconnect(candidate.id),
                Stage::Discovering => Request::DiscoverServices(candidate.id),
                Stage::Fresh => Request::ReadCharacteristics(candidate.id),
            },
            Phase::Pausing => Request::CheckStop,
            Phase::Finished => Request::Finish,
        }
    }

    /// The time in nanoseconds at which the duration of the scan is up. Nothing that the scan asks
    /// for is to be waited for past that time: it is told the time then.
    pub fn deadline(&self) -> (deadline: Option<u128>)
        ensures
            deadline == match self@.deadline() {
                Some(time) if time <= u128::MAX => Some(time as u128),
                _ => None,
            },
    {
        match (self.started_at, self.config.duration()) {
            (Some(started_at), Some(timeout)) => started_at.checked_add(timeout),
            _ => None,
        }
    }

    /// Number of matching devices found so far
    pub fn result_count(&self) -> (count: usize)
        ensures
            count == self@.result_count,
    {
        self.result_count
    }

    /// Takes the reply to what the scan asked for, asks the predicates about it, and goes on.
    pub fn scan(&mut self, reply: Reply) -> (report: Option<DeviceEvent>)
        requires
            old(self)@.sound(),
        ensures
            final(self)@.sound(),
            exists|answers: Answers| #[trigger]
                old(self)@.may_say_of(reply, answers) && (final(self)@, report) == old(self)@.next(
                    reply,
                    answers,
                ),
    {
        let answers = self.consult(&reply);
        self.resume(reply, answers)
    }

    /// Asks the predicates about a reply.
    pub fn consult(&self, reply: &Reply) -> (answers: Answers)
        ensures
            self@.may_say_of(*reply, answers),
    {
        match (self.phase, reply) {
            (
                Phase::Inspecting { id: _, address: _ },
                Reply::Properties(Some(properties)),
            ) => self.config.ask_about(properties),
            (Phase::Probing(candidate), Reply::Characteristics(uuids)) => if candidate.stage
                == Stage::Fresh || (candidate.stage == Stage::Known && uuids.len() > 0) {
                self.config.ask_about_characteristics(uuids.as_slice())
            } else {
                Answers::none()
            },
            _ => Answers::none(),
        }
    }

    /// Takes the reply to what the scan asked for and what the predicates said about it, and goes
    /// on.
    pub fn resume(&mut self, reply: Reply, answers: Answers) -> (report: Option<DeviceEvent>)
        requires
            old(self)@.sound(),
        ensures
            final(self)@.sound(),
            (final(self)@, report) == old(self)@.next(reply, answers),
    {
        match (self.phase, reply) {
            (Phase::Finished, _) => None,
            (phase, Reply::Clock { now, stop_requested }) => {
                if self.stops(now, stop_requested) {
                    self.phase = Phase::Finished;
                } else if matches!(phase, Phase::Pausing) {
                    self.phase = Phase::Listening;
                }
                None
            },
            (Phase::Starting, Reply::Started(started)) => {
                match started {
                    Some(now) => {
                        self.started_at = Some(now);
                        self.phase = Phase::Opening;
                    },
                    None => {
                        self.phase = Phase::Finished;
                    },
                }
                None
            },
            (Phase::Opening, Reply::Opened(opened)) => {
                self.phase = if opened {
                    Phase::Pausing
                } else {
                    Phase::Finished
                };
                None
            },
            (Phase::Listening, Reply::Event { event, now, stop_requested }) => {
                if self.stops(now, stop_requested) {
                    self.phase = Phase::Finished;
                } else {
                    match event {
                        Some(event) => self.take_up(event),
                        None => {
                            self.phase = Phase::Opening;
                        },
                    }
                }
                None
            },
            (Phase::Locating { id, notice }, Reply::Peripheral(found)) => match notice {
                Notice::Discovered => self.on_device_discovered(id, found),
                Notice::Updated => self.on_device_updated(id, found),
                Notice::Connected => self.on_device_connected(id, found),
                Notice::Disconnected => self.on_device_disconnected(id, found),
            },
            (Phase::Selecting { id }, Reply::Peripheral(found)) => {
                self.phase = match found {
                    Some(address) => Phase::Inspecting { id, address },
                    None => Phase::Pausing,
                };
                None
            },
            (Phase::Inspecting { id, address }, Reply::Properties(properties)) => self.inspect(
                id,
                address,
                properties,
                answers,
            ),
            (Phase::Probing(candidate), reply) => self.apply_character_filter(
                candidate,
                reply,
                answers,
            ),
            _ => None,
        }
    }

    /// Whether the scan is to stop.
    fn stops(&self, now: u128, stop_requested: bool) -> (stops: bool)
        ensures
            stops == self@.stops(now as nat, stop_requested),
    {
        let elapsed: u128 = match self.started_at {
            Some(started_at) => if now >= started_at {
                now - started_at
            } else {
                0
            },
            None => 0,
        };
        self.config.stops(elapsed, self.result_count, stop_requested)
    }

    /// Takes up an event of the adapter.
    fn take_up(&mut self, event: CentralEvent)
        ensures
            final(self)@ == old(self)@.take_up(event),
    {
        match event {
            CentralEvent::DeviceDiscovered(id) => {
                self.phase = Phase::Locating { id, notice: Notice::Discovered };
            },
            CentralEvent::DeviceUpdated(id) => {
                self.phase = Phase::Locating { id, notice: Notice::Updated };
            },
            CentralEvent::DeviceConnected(id) => {
                self.connecting.remove(&id);
                self.phase = Phase::Locating { id, notice: Notice::Connected };
            },
            CentralEvent::DeviceDisconnected(id) => {
                self.phase = Phase::Locating { id, notice: Notice::Disconnected };
            },
            CentralEvent::Other => {
                self.phase = Phase::Pausing;
            },
        }
    }

    /// A device was seen for the first time.
    fn on_device_discovered(&mut self, id: u64, found: Option<BDAddr>) -> (report: Option<
        DeviceEvent,
    >)
        ensures
            (final(self)@, report) == old(self)@.located(id, Notice::Discovered, found),
    {
        match found {
            Some(_) => self.apply_filter(id),
            None => {
                self.phase = Phase::Pausing;
            },
        }
        None
    }

    /// A device advertised anew.
    fn on_device_updated(&mut self, id: u64, found: Option<BDAddr>) -> (report: Option<DeviceEvent>)
        ensures
            (final(self)@, report) == old(self)@.located(id, Notice::Updated, found),
    {
        match found {
            Some(address) => if self.matched.contains(&id) {
                self.phase = Phase::Pausing;
                Some(DeviceEvent::Updated(Device { id, address }))
            } else {
                self.apply_filter(id);
                None
            },
            None => {
                self.phase = Phase::Pausing;
                None
            },
        }
    }

    /// A device was connected.
    fn on_device_connected(&mut self, id: u64, found: Option<BDAddr>) -> (report: Option<
        DeviceEvent,
    >)
        ensures
            (final(self)@, report) == old(self)@.located(id, Notice::Connected, found),
    {
        match found {
            Some(address) => if self.matched.contains(&id) {
                self.phase = Phase::Pausing;
                Some(DeviceEvent::Connected(Device { id, address }))
            } else {
                self.apply_filter(id);
                None
            },
            None => {
                self.phase = Phase::Pausing;
                None
            },
        }
    }

    /// A device was disconnected.
    fn on_device_disconnected(&mut self, id: u64, found: Option<BDAddr>) -> (report: Option<
        DeviceEvent,
    >)
        ensures
            (final(self)@, report) == old(self)@.located(id, Notice::Disconnected, found),
    {
        let report: Option<DeviceEvent> = match found {
            Some(address) => if self.matched.contains(&id) {
                Some(DeviceEvent::Disconnected(Device { id, address }))
            } else {
                None
            },
            None => None,
        };
        self.connecting.remove(&id);
        self.phase = Phase::Pausing;
        report
    }

    /// Applies the configuration to a device, unless that was done before.
    fn apply_filter(&mut self, id: u64)
        ensures
            final(self)@ == old(self)@.apply_filter(id),
    {
        self.phase = if self.filtered.contains(&id) {
            Phase::Pausing
        } else {
            Phase::Selecting { id }
        };
    }

    /// Holds what a device advertises against the configuration.
    fn inspect(
        &mut self,
        id: u64,
        address: BDAddr,
        properties: Option<DeviceProperties>,
        answers: Answers,
    ) -> (report: Option<DeviceEvent>)
        requires
            old(self)@.sound(),
            old(self)@.phase == (Phase::Inspecting { id, address }),
        ensures
            final(self)@.sound(),
            (final(self)@, report) == old(self)@.next(Reply::Properties(properties), answers),
    {
        match properties {
            Some(properties) => {
                let passed: bool = self.config.admits(&properties, &answers);
                if self.config.probe_rounds().len() == 0 {
                    self.settle(id, address, passed)
                } else {
                    self.phase = Phase::Probing(
                        Candidate { id, address, passed, round: 0, stage: Stage::Connection },
                    );
                    None
                }
            },
            None => self.settle(id, address, false),
        }
    }

    /// Takes a step in probing a device for characteristics.
    fn apply_character_filter(
        &mut self,
        candidate: Candidate,
        reply: Reply,
        answers: Answers,
    ) -> (report: Option<DeviceEvent>)
        requires
            old(self)@.sound(),
            old(self)@.phase == Phase::Probing(candidate),
        ensures
            final(self)@.sound(),
            (final(self)@, report) == old(self)@.probe(candidate, reply, answers),
    {
        match (candidate.stage, reply) {
            (Stage::Connection, Reply::Connection(connected)) => {
                let is_connected: bool = match connected {
                    Some(is_connected) => is_connected,
                    None => false,
                };
                let stage = if !is_connected && self.connecting.insert(candidate.id) {
                    Stage::Connecting
                } else {
                    Stage::Known
                };
                self.phase = Phase::Probing(Candidate { stage, ..candidate });
                None
            },
            (Stage::Connecting, Reply::Connected(made)) => if made {
                self.phase = Phase::Probing(Candidate { stage: Stage::Known, ..candidate });
                None
            } else {
                self.connecting.remove(&candidate.id);
                self.conclude_round(Candidate { passed: false, ..candidate })
            },
            (Stage::Known, Reply::Characteristics(uuids)) => {
                let verdict: Option<bool> = if uuids.len() == 0 {
                    None
                } else {
                    Some(self.judge(candidate.round, uuids.as_slice(), answers))
                };
                if self.config.disconnects() {
                    self.phase = Phase::Probing(
                        Candidate { stage: Stage::Releasing { verdict }, ..candidate },
                    );
                    None
                } else {
                    self.weigh(candidate, verdict)
                }
            },
            (Stage::Releasing { verdict }, Reply::Disconnected(_)) => self.weigh(
                candidate,
                verdict,
            ),
            (Stage::Discovering, Reply::ServicesDiscovered(done)) => if done {
                self.phase = Phase::Probing(Candidate { stage: Stage::Fresh, ..candidate });
                None
            } else {
                self.conclude_round(Candidate { passed: false, ..candidate })
            },
            (Stage::Fresh, Reply::Characteristics(uuids)) => {
                let verdict: bool = self.judge(candidate.round, uuids.as_slice(), answers);
                self.conclude_round(Candidate { passed: candidate.passed && verdict, ..candidate })
            },
            _ => None,
        }
    }

    /// What the characteristics of a device say about it in a round of probing.
    fn judge(&self, round: usize, uuids: &[Uuid], answers: Answers) -> (verdict: bool)
        requires
            round < self@.config.probe_rounds().len(),
        ensures
            verdict == WorkerView::verdict(
                self@.config.probe_rounds()[round as int],
                uuids@,
                answers,
            ),
    {
        let rounds: Vec<Option<Uuid>> = self.config.probe_rounds();
        match answers.characteristics {
            Some(answer) => answer,
            None => match &rounds[round] {
                Some(uuid) => position_of(uuids, uuid).is_some(),
                None => true,
            },
        }
    }

    /// Goes on once the known characteristics were weighed.
    fn weigh(&mut self, candidate: Candidate, verdict: Option<bool>) -> (report: Option<
        DeviceEvent,
    >)
        requires
            old(self)@.sound(),
            old(self)@.phase matches Phase::Probing(current) && current.id == candidate.id
                && current.round == candidate.round,
        ensures
            final(self)@.sound(),
            (final(self)@, report) == old(self)@.weigh(candidate, verdict),
    {
        match verdict {
            Some(verdict) => self.conclude_round(
                Candidate { passed: candidate.passed && verdict, ..candidate },
            ),
            None => {
                self.phase = Phase::Probing(Candidate { stage: Stage::Discovering, ..candidate });
                None
            },
        }
    }

    /// Begins the next round of probing, or settles the device after the last.
    fn conclude_round(&mut self, candidate: Candidate) -> (report: Option<DeviceEvent>)
        requires
            old(self)@.sound(),
            old(self)@.phase matches Phase::Probing(current) && current.id == candidate.id
                && current.round == candidate.round,
        ensures
            final(self)@.sound(),
            (final(self)@, report) == old(self)@.conclude_round(candidate),
    {
        let rounds: Vec<Option<Uuid>> = self.config.probe_rounds();
        if candidate.round < rounds.len() - 1 {
            self.phase = Phase::Probing(
                Candidate { round: candidate.round + 1, stage: Stage::Connection, ..candidate },
            );
            None
        } else {
            self.settle(candidate.id, candidate.address, candidate.passed)
        }
    }

    /// Records the outcome for a device, and reports the device if it passed.
    fn settle(&mut self, id: u64, address: BDAddr, passed: bool) -> (report: Option<DeviceEvent>)
        requires
            old(self)@.sound(),
            !old(self)@.filtered.contains(id),
        ensures
            final(self)@.sound(),
            (final(self)@, report) == old(self)@.settle(id, address, passed),
    {
        let mut report: Option<DeviceEvent> = None;
        if passed {
            self.matched.insert(id);
            assert(self.matched.len() == self.result_count + 1);
            self.result_count = self.result_count + 1;
            report = Some(DeviceEvent::Discovered(Device { id, address }));
        }
        self.filtered.insert(id);
        self.phase = Phase::Pausing;
        report
    }
}

} // verus!
