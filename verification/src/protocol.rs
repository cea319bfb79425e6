//! What a scan asks of a Bluetooth adapter, and what it is told.

use uuid::Uuid;
use vstd::prelude::*;

use crate::address::BDAddr;
use crate::filter::DeviceProperties;

verus! {

/// What an adapter reports while it scans.
#[derive(Clone, Copy, Debug, PartialEq, Eq)]
pub enum CentralEvent {
    /// A device was seen for the first time.
    DeviceDiscovered(u64),
    /// A device advertised anew.
    DeviceUpdated(u64),
    /// A device was connected.
    DeviceConnected(u64),
    /// A device was disconnected.
    DeviceDisconnected(u64),
    /// Anything else.
    Other,
}

/// What a scan needs to have done next. Whatever it asked for, it may be told the time in place of
/// an answer, so that it can stop while it waits.
#[derive(Clone, Copy, Debug, PartialEq, Eq)]
pub enum Request {
    /// Tell the adapter to scan.
    StartScan,
    /// Open a stream of the adapter's events.
    OpenEvents,
    /// Wait for the next event of the stream.
    NextEvent,
    /// Look up a device at the adapter.
    FindPeripheral(u64),
    /// Read what a device advertises.
    ReadProperties(u64),
    /// See whether a device is connected.
    CheckConnection(u64),
    /// Connect to a device.
    Connect(u64),
    /// List the characteristics of a device that are known.
    ReadCharacteristics(u64),
    /// Disconnect from a device.
    Disconnect(u64),
    /// Have a device enumerate its services.
    DiscoverServices(u64),
    /// Read the clock and the request to stop.
    CheckStop,
    /// Nothing: the scan is over.
    Finish,
}

/// How a request went.
#[derive(Debug)]
pub enum Reply {
    /// When the adapter began to scan, in nanoseconds, unless it does not scan.
    Started(Option<u128>),
    /// Whether the stream was opened.
    Opened(bool),
    /// The next event, unless the stream ended, with the time in nanoseconds and whether somebody
    /// asked the scan to stop.
    Event { event: Option<CentralEvent>, now: u128, stop_requested: bool },
    /// The address of the device, unless the adapter does not have it.
    Peripheral(Option<BDAddr>),
    /// What the device advertises, unless that could not be read.
    Properties(Option<DeviceProperties>),
    /// Whether the device is connected, unless that could not be told.
    Connection(Option<bool>),
    /// Whether the connection was made.
    Connected(bool),
    /// The identifiers of the known characteristics.
    Characteristics(Vec<Uuid>),
    /// Whether the connection was ended.
    Disconnected(bool),
    /// Whether the services were enumerated.
    ServicesDiscovered(bool),
    /// The time in nanoseconds, and whether somebody asked the scan to stop.
    Clock { now: u128, stop_requested: bool },
}

/// Why a device is looked up.
#[derive(Clone, Copy, Debug, PartialEq, Eq, Structural)]
pub enum Notice {
    Discovered,
    Updated,
    Connected,
    Disconnected,
}

/// How far a round of probing has come.
#[derive(Clone, Copy, Debug, PartialEq, Eq, Structural)]
pub enum Stage {
    /// Is the device connected?
    Connection,
    /// The device is being connected.
    Connecting,
    /// Which characteristics are known already?
    Known,
    /// The device is being disconnected. `verdict` is what the known characteristics say about
    /// it, if there are any.
    Releasing { verdict: Option<bool> },
    /// The services are being enumerated.
    Discovering,
    /// Which characteristics came out of that?
    Fresh,
}

/// A device that is being probed for characteristics.
#[derive(Clone, Copy, Debug, PartialEq, Eq)]
pub struct Candidate {
    /// The number of the device.
    pub id: u64,
    /// The address of the device.
    pub address: BDAddr,
    /// Whether everything checked so far let the device through.
    pub passed: bool,
    /// The round of probing.
    pub round: usize,
    /// How far the round has come.
    pub stage: Stage,
}

/// What a scan is waiting for.
#[derive(Clone, Copy, Debug, PartialEq, Eq)]
pub enum Phase {
    /// For the adapter to scan.
    Starting,
    /// For a stream of events.
    Opening,
    /// For an event.
    Listening,
    /// For the device that an event is about.
    Locating { id: u64, notice: Notice },
    /// For the device that the configuration is to be applied to.
    Selecting { id: u64 },
    /// For what the device advertises.
    Inspecting { id: u64, address: BDAddr },
    /// For a step in probing a device.
    Probing(Candidate),
    /// For the clock and the request to stop.
    Pausing,
    /// For nothing more.
    Finished,
}

impl Candidate {
    /// What a step in probing asks for.
    pub open spec fn request(self) -> Request {
        match self.stage {
            Stage::Connection => Request::CheckConnection(self.id),
            Stage::Connecting => Request::Connect(self.id),
            Stage::Known => Request::ReadCharacteristics(self.id),
            Stage::Releasing { verdict: _ } => Request::Disconnect(self.id),
            Stage::Discovering => Request::DiscoverServices(self.id),
            Stage::Fresh => Request::ReadCharacteristics(self.id),
        }
    }

    /// The same device in another stage.
    pub open spec fn at(self, stage: Stage) -> Candidate {
        Candidate { stage, ..self }
    }
}

impl Phase {
    /// What a scan in this phase asks for.
    pub open spec fn request(self) -> Request {
        match self {
            Phase::Starting => Request::StartScan,
            Phase::Opening => Request::OpenEvents,
            Phase::Listening => Request::NextEvent,
            Phase::Locating { id, notice: _ } => Request::FindPeripheral(id),
            Phase::Selecting { id } => Request::FindPeripheral(id),
            Phase::Inspecting { id, address: _ } => Request::ReadProperties(id),
            Phase::Probing(candidate) => candidate.request(),
            Phase::Pausing => Request::CheckStop,
            Phase::Finished => Request::Finish,
        }
    }

    /// The device to which the configuration is being applied, if there is one.
    pub open spec fn candidate_id(self) -> Option<u64> {
        match self {
            Phase::Selecting { id } => Some(id),
            Phase::Inspecting { id, address: _ } => Some(id),
            Phase::Probing(candidate) => Some(candidate.id),
            _ => None,
        }
    }
}

} // verus!
