//! The mathematical model of a scan.

use uuid::Uuid;
use vstd::prelude::*;

use crate::address::BDAddr;
use crate::config::ConfigView;
use crate::device::{Device, DeviceEvent};
use crate::filter::Answers;
use crate::protocol::{Candidate, CentralEvent, Notice, Phase, Reply, Stage};

verus! {

/// The state of a scan.
#[verifier::ext_equal]
pub struct WorkerView {
    /// What the scan looks for.
    pub config: ConfigView,
    /// What the scan is waiting for.
    pub phase: Phase,
    /// When the scan began, once it has.
    pub started_at: Option<nat>,
    /// The number of matching devices found so far.
    pub result_count: nat,
    /// The devices that the configuration was applied to, which are not looked at again.
    pub filtered: Set<u64>,
    /// The devices that are being connected.
    pub connecting: Set<u64>,
    /// The devices that satisfied the configuration.
    pub matched: Set<u64>,
}

/// The state after a step, and what the step reports.
pub type Step = (WorkerView, Option<DeviceEvent>);

impl WorkerView {
    /// A scan that has yet to begin.
    pub open spec fn initial(config: ConfigView) -> WorkerView {
        WorkerView {
            config,
            phase: Phase::Starting,
            started_at: None,
            result_count: 0,
            filtered: Set::empty(),
            connecting: Set::empty(),
            matched: Set::empty(),
        }
    }

    /// What holds of every scan: each match was counted once and is not looked at again, and the
    /// device that the configuration is being applied to is a new one.
    pub open spec fn sound(self) -> bool {
        &&& self.matched.finite()
        &&& self.matched.subset_of(self.filtered)
        &&& self.result_count == self.matched.len()
        &&& self.phase.candidate_id() matches Some(id) ==> !self.filtered.contains(id)
        &&& self.phase matches Phase::Probing(candidate) ==> candidate.round
            < self.config.probe_rounds().len()
    }

    /// The same scan in another phase.
    pub open spec fn at(self, phase: Phase) -> WorkerView {
        WorkerView { phase, ..self }
    }

    /// The scan goes on to another phase and reports nothing.
    pub open spec fn wait(self, phase: Phase) -> Step {
        (self.at(phase), None)
    }

    /// The devices that are being connected no longer hold `id`.
    pub open spec fn no_longer_connecting(self, id: u64) -> WorkerView {
        WorkerView { connecting: self.connecting.remove(id), ..self }
    }

    /// The time since the scan began.
    pub open spec fn elapsed(self, now: nat) -> nat {
        match self.started_at {
            Some(started_at) if now >= started_at => (now - started_at) as nat,
            _ => 0,
        }
    }

    /// The time at which the duration of the scan is up, if it has one.
    pub open spec fn deadline(self) -> Option<nat> {
        match (self.started_at, self.config.timeout) {
            (Some(started_at), Some(timeout)) => Some(started_at + timeout as nat),
            _ => None,
        }
    }

    /// The scan is to stop.
    pub open spec fn stops(self, now: nat, stop_requested: bool) -> bool {
        self.config.stops(self.elapsed(now), self.result_count, stop_requested)
    }

    /// The scan takes up an event of the adapter.
    pub open spec fn take_up(self, event: CentralEvent) -> WorkerView {
        match event {
            CentralEvent::DeviceDiscovered(id) => self.at(
                Phase::Locating { id, notice: Notice::Discovered },
            ),
            CentralEvent::DeviceUpdated(id) => self.at(
                Phase::Locating { id, notice: Notice::Updated },
            ),
            CentralEvent::DeviceConnected(id) => self.no_longer_connecting(id).at(
                Phase::Locating { id, notice: Notice::Connected },
            ),
            CentralEvent::DeviceDisconnected(id) => self.at(
                Phase::Locating { id, notice: Notice::Disconnected },
            ),
            CentralEvent::Other => self.at(Phase::Pausing),
        }
    }

    /// The configuration is applied to a device, unless it was before.
    pub open spec fn apply_filter(self, id: u64) -> WorkerView {
        if self.filtered.contains(id) {
            self.at(Phase::Pausing)
        } else {
            self.at(Phase::Selecting { id })
        }
    }

    /// The event is reported if the device is a match. If it is not, the configuration is applied
    /// to it.
    pub open spec fn report_or_filter(self, id: u64, event: DeviceEvent) -> Step {
        if self.matched.contains(id) {
            (self.at(Phase::Pausing), Some(event))
        } else {
            (self.apply_filter(id), None)
        }
    }

    /// The device of an event was looked up.
    pub open spec fn located(self, id: u64, notice: Notice, found: Option<BDAddr>) -> Step {
        match notice {
            Notice::Discovered => match found {
                Some(_) => (self.apply_filter(id), None),
                None => self.wait(Phase::Pausing),
            },
            Notice::Updated => match found {
                Some(address) => self.report_or_filter(
                    id,
                    DeviceEvent::Updated(Device { id, address }),
                ),
                None => self.wait(Phase::Pausing),
            },
            Notice::Connected => match found {
                Some(address) => self.report_or_filter(
                    id,
                    DeviceEvent::Connected(Device { id, address }),
                ),
                None => self.wait(Phase::Pausing),
            },
            Notice::Disconnected => (
                self.no_longer_connecting(id).at(Phase::Pausing),
                match found {
                    Some(address) if self.matched.contains(id) => Some(
                        DeviceEvent::Disconnected(Device { id, address }),
                    ),
                    _ => None,
                },
            ),
        }
    }

    /// The configuration was applied to a device. A device that passed is reported and counted,
    /// and no device is looked at again.
    pub open spec fn settle(self, id: u64, address: BDAddr, passed: bool) -> Step {
        let done = WorkerView { filtered: self.filtered.insert(id), ..self.at(Phase::Pausing) };
        if passed {
            (
                WorkerView {
                    matched: self.matched.insert(id),
                    result_count: self.result_count + 1,
                    ..done
                },
                Some(DeviceEvent::Discovered(Device { id, address })),
            )
        } else {
            (done, None)
        }
    }

    /// The round of probing is over: the next one begins, or the device is settled.
    pub open spec fn conclude_round(self, candidate: Candidate) -> Step {
        if candidate.round + 1 < self.config.probe_rounds().len() {
            self.wait(
                Phase::Probing(
                    Candidate {
                        round: (candidate.round + 1) as usize,
                        stage: Stage::Connection,
                        ..candidate
                    },
                ),
            )
        } else {
            self.settle(candidate.id, candidate.address, candidate.passed)
        }
    }

    /// The known characteristics were weighed. Where there are none, the services are enumerated.
    pub open spec fn weigh(self, candidate: Candidate, verdict: Option<bool>) -> Step {
        match verdict {
            Some(verdict) => self.conclude_round(
                Candidate { passed: candidate.passed && verdict, ..candidate },
            ),
            None => self.wait(Phase::Probing(candidate.at(Stage::Discovering))),
        }
    }

    /// What the characteristics that are known already say about a device, if there are any.
    pub open spec fn known_verdict(
        wanted: Option<Uuid>,
        uuids: Seq<Uuid>,
        answers: Answers,
    ) -> Option<bool> {
        if uuids.len() == 0 {
            None
        } else {
            Some(WorkerView::verdict(wanted, uuids, answers))
        }
    }

    /// What characteristics say about a device: what the predicate says, or where there is none,
    /// whether the wanted one is among them.
    pub open spec fn verdict(
        wanted: Option<Uuid>,
        uuids: Seq<Uuid>,
        answers: Answers,
    ) -> bool {
        match answers.characteristics {
            Some(answer) => answer,
            None => wanted matches Some(uuid) ==> uuids.contains(uuid),
        }
    }

    /// A step in probing a device. A device that cannot be connected, or whose services cannot be
    /// enumerated, is rejected.
    pub open spec fn probe(self, candidate: Candidate, reply: Reply, answers: Answers) -> Step {
        let wanted = self.config.probe_rounds()[candidate.round as int];
        match (candidate.stage, reply) {
            (Stage::Connection, Reply::Connection(connected)) => if connected == Some(true)
                || self.connecting.contains(candidate.id) {
                self.wait(Phase::Probing(candidate.at(Stage::Known)))
            } else {
                WorkerView { connecting: self.connecting.insert(candidate.id), ..self }.wait(
                    Phase::Probing(candidate.at(Stage::Connecting)),
                )
            },
            (Stage::Connecting, Reply::Connected(made)) => if made {
                self.wait(Phase::Probing(candidate.at(Stage::Known)))
            } else {
                self.no_longer_connecting(candidate.id).conclude_round(
                    Candidate { passed: false, ..candidate },
                )
            },
            (Stage::Known, Reply::Characteristics(uuids)) => {
                let verdict = WorkerView::known_verdict(wanted, uuids@, answers);
                if self.config.force_disconnect {
                    self.wait(Phase::Probing(candidate.at(Stage::Releasing { verdict })))
                } else {
                    self.weigh(candidate, verdict)
                }
            },
            (Stage::Releasing { verdict }, Reply::Disconnected(_)) => self.weigh(
                candidate,
                verdict,
            ),
            (Stage::Discovering, Reply::ServicesDiscovered(done)) => if done {
                self.wait(Phase::Probing(candidate.at(Stage::Fresh)))
            } else {
                self.conclude_round(Candidate { passed: false, ..candidate })
            },
            (Stage::Fresh, Reply::Characteristics(uuids)) => {
                let verdict = WorkerView::verdict(wanted, uuids@, answers);
                self.conclude_round(Candidate { passed: candidate.passed && verdict, ..candidate })
            },
            _ => (self, None),
        }
    }

    /// The scan is told the time, and whether somebody asked it to stop.
    pub open spec fn told_the_time(self, now: nat, stop_requested: bool) -> WorkerView {
        if self.stops(now, stop_requested) {
            self.at(Phase::Finished)
        } else if self.phase == Phase::Pausing {
            self.at(Phase::Listening)
        } else {
            self
        }
    }

    /// A step of the scan, given the reply to what it asked for and what the predicates say about
    /// that reply. The time may be told at any moment. A reply to anything else changes nothing.
    pub open spec fn next(self, reply: Reply, answers: Answers) -> Step {
        match (self.phase, reply) {
            (Phase::Finished, _) => (self, None),
            (_, Reply::Clock { now, stop_requested }) => (
                self.told_the_time(now as nat, stop_requested),
                None,
            ),
            (Phase::Starting, Reply::Started(started)) => match started {
                Some(now) => WorkerView { started_at: Some(now as nat), ..self }.wait(
                    Phase::Opening,
                ),
                None => self.wait(Phase::Finished),
            },
            (Phase::Opening, Reply::Opened(opened)) => if opened {
                self.wait(Phase::Pausing)
            } else {
                self.wait(Phase::Finished)
            },
            (Phase::Listening, Reply::Event { event, now, stop_requested }) => if self.stops(
                now as nat,
                stop_requested,
            ) {
                self.wait(Phase::Finished)
            } else {
                match event {
                    Some(event) => (self.take_up(event), None),
                    None => self.wait(Phase::Opening),
                }
            },
            (Phase::Locating { id, notice }, Reply::Peripheral(found)) => self.located(
                id,
                notice,
                found,
            ),
            (Phase::Selecting { id }, Reply::Peripheral(found)) => match found {
                Some(address) => self.wait(Phase::Inspecting { id, address }),
                None => self.wait(Phase::Pausing),
            },
            (Phase::Inspecting { id, address }, Reply::Properties(properties)) => match properties {
                Some(properties) => {
                    let passed = properties@.satisfy(self.config.filters, answers);
                    if self.config.probe_rounds().len() == 0 {
                        self.settle(id, address, passed)
                    } else {
                        self.wait(
                            Phase::Probing(
                                Candidate {
                                    id,
                                    address,
                                    passed,
                                    round: 0,
                                    stage: Stage::Connection,
                                },
                            ),
                        )
                    }
                },
                None => self.settle(id, address, false),
            },
            (Phase::Probing(candidate), reply) => self.probe(candidate, reply, answers),
            _ => (self, None),
        }
    }

    /// `answers` is what the predicates may say about a reply. They are asked about what a device
    /// advertises, and about characteristics: those known already where there are any, and those
    /// that were enumerated.
    pub open spec fn may_say_of(self, reply: Reply, answers: Answers) -> bool {
        match (self.phase, reply) {
            (
                Phase::Inspecting { id: _, address: _ },
                Reply::Properties(Some(properties)),
            ) => self.config.may_say_of(properties@, answers),
            (Phase::Probing(candidate), Reply::Characteristics(uuids)) => if candidate.stage
                == Stage::Fresh || (candidate.stage == Stage::Known && uuids@.len() > 0) {
                self.config.may_say_of_characteristics(uuids@, answers)
            } else {
                answers == Answers::unasked()
            },
            _ => answers == Answers::unasked(),
        }
    }
}

} // verus!
