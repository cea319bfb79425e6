//! The scanner that clients hold.

use stream_cancel::Trigger;
use vstd::prelude::*;

use crate::config::ScanConfig;
use crate::device::{Device, DeviceEvent};

verus! {

/// The number of events that are kept for a client that is slow to take them.
pub const EVENT_CAPACITY: usize = 32;

/// The outside type `stream_cancel::Trigger`, carried through unopened. The stream that belongs to
/// a trigger ends when the trigger is dropped.
#[verifier::external_type_specification]
#[verifier::external_body]
pub struct ExTrigger(stream_cancel::Trigger);

/// What the clones of a scanner share: the request to stop, and the triggers of the streams that
/// were handed out.
#[derive(Debug)]
pub struct Scanner {
    scan_stopper: bool,
    stoppers: Vec<Trigger>,
}

/// The mathematical value of a [`Scanner`].
pub struct ScannerView {
    /// Whether somebody asked the scan to stop.
    pub scan_stopper: bool,
    /// The triggers of the streams that are open.
    pub stoppers: Seq<Trigger>,
}

/// Why a scan did not start.
#[derive(Debug, PartialEq, Eq)]
pub enum StartError<E> {
    /// There is no adapter with the index in the configuration.
    DeviceNotFound,
    /// The platform reported an error.
    Platform(E),
}

/// What was found out on the way to a scan.
pub enum StartReply<E> {
    /// Whether a scan is running already.
    Session(bool),
    /// Whether Bluetooth could be reached.
    Manager(Result<(), E>),
    /// How many adapters there are.
    Adapters(Result<usize, E>),
}

/// What to do on the way to a scan.
pub enum StartStep<E> {
    /// Reach for Bluetooth.
    OpenManager,
    /// List the adapters.
    ListAdapters,
    /// Scan with the adapter at this index of the list.
    Spawn(usize),
    /// Return this.
    Finish(Result<(), StartError<E>>),
}

impl View for Scanner {
    type V = ScannerView;

    closed spec fn view(&self) -> ScannerView {
        ScannerView { scan_stopper: self.scan_stopper, stoppers: self.stoppers@ }
    }
}

impl ScannerView {
    /// A scanner that nobody has asked to stop and that has handed out no stream.
    pub open spec fn fresh() -> ScannerView {
        ScannerView { scan_stopper: false, stoppers: Seq::empty() }
    }

    /// The scanner was asked to stop, and the streams that it had handed out end.
    pub open spec fn stopped(self) -> ScannerView {
        ScannerView { scan_stopper: true, stoppers: Seq::empty() }
    }

    /// The scanner after a step on the way to a scan: a scan that starts has yet to be asked to
    /// stop, whatever was asked of an earlier one.
    pub open spec fn after<E>(self, step: StartStep<E>) -> ScannerView {
        match step {
            StartStep::Spawn(_) => ScannerView { scan_stopper: false, ..self },
            _ => self,
        }
    }

    /// The scanner has handed out one more stream.
    pub open spec fn with_stream(self, stopper: Trigger) -> ScannerView {
        ScannerView { stoppers: self.stoppers.push(stopper), ..self }
    }
}

impl<E> StartReply<E> {
    /// A scan is started unless one is running, with the adapter at the index in the
    /// configuration. The first error ends the attempt.
    pub open spec fn step(self, adapter_index: usize) -> StartStep<E> {
        match self {
            StartReply::Session(true) => StartStep::Finish(Ok(())),
            StartReply::Session(false) => StartStep::OpenManager,
            StartReply::Manager(Ok(())) => StartStep::ListAdapters,
            StartReply::Manager(Err(error)) => StartStep::Finish(Err(StartError::Platform(error))),
            StartReply::Adapters(Ok(count)) => if adapter_index < count {
                StartStep::Spawn(adapter_index)
            } else {
                StartStep::Finish(Err(StartError::DeviceNotFound))
            },
            StartReply::Adapters(Err(error)) => StartStep::Finish(Err(StartError::Platform(error))),
        }
    }
}

impl Default for Scanner {
    fn default() -> (scanner: Scanner)
        ensures
            scanner@ == ScannerView::fresh(),
    {
        Scanner::new()
    }
}

impl Scanner {
    /// A scanner that nobody has asked to stop and that has handed out no stream.
    pub fn new() -> (scanner: Scanner)
        ensures
            scanner@ == ScannerView::fresh(),
    {
        Scanner { scan_stopper: false, stoppers: Vec::new() }
    }

    /// Start scanning for ble devices.
    ///
    /// A request to stop that was made before is void once the scan starts.
    pub fn start<E>(&mut self, config: &ScanConfig, reply: StartReply<E>) -> (step: StartStep<E>)
        ensures
            step == reply.step(config@.adapter_index),
            final(self)@ == old(self)@.after(step),
    {
        match reply {
            StartReply::Session(running) => if running {
                StartStep::Finish(Ok(()))
            } else {
                StartStep::OpenManager
            },
            StartReply::Manager(Ok(())) => StartStep::ListAdapters,
            StartReply::Manager(Err(error)) => StartStep::Finish(Err(StartError::Platform(error))),
            StartReply::Adapters(Ok(count)) => {
                let index: usize = config.chosen_adapter();
                if index >= count {
                    StartStep::Finish(Err(StartError::DeviceNotFound))
                } else {
                    self.scan_stopper = false;
                    StartStep::Spawn(index)
                }
            },
            StartReply::Adapters(Err(error)) => StartStep::Finish(Err(StartError::Platform(error))),
        }
    }

    /// Stop scanning for ble devices.
    ///
    /// The request stands until a scan is started, and every stream that was handed out ends.
    pub fn stop(&mut self)
        ensures
            final(self)@ == old(self)@.stopped(),
    {
        self.scan_stopper = true;
        self.stoppers.clear();
    }

    /// Whether somebody asked the scan to stop.
    pub fn stop_requested(&self) -> (requested: bool)
        ensures
            requested == self@.scan_stopper,
    {
        self.scan_stopper
    }

    /// Keeps the trigger of a new stream that receives ble device events.
    pub fn device_event_stream(&mut self, stopper: Trigger)
        ensures
            final(self)@ == old(self)@.with_stream(stopper),
    {
        self.stoppers.push(stopper);
    }

    /// Keeps the trigger of a new stream that receives discovered ble devices.
    pub fn device_stream(&mut self, stopper: Trigger)
        ensures
            final(self)@ == old(self)@.with_stream(stopper),
    {
        self.stoppers.push(stopper);
    }

    /// What a stream of events makes of what it received.
    pub open spec fn event_in(received: Result<DeviceEvent, u64>) -> Option<DeviceEvent> {
        match received {
            Ok(event) => Some(event),
            Err(_) => None,
        }
    }

    /// What a stream of devices makes of what it received.
    pub open spec fn device_in(received: Result<DeviceEvent, u64>) -> Option<Device> {
        match received {
            Ok(DeviceEvent::Discovered(device)) => Some(device),
            _ => None,
        }
    }

    /// What a stream of events makes of what it received: an event, or the number of events that
    /// it missed.
    pub fn forward_event(received: Result<DeviceEvent, u64>) -> (forwarded: Option<DeviceEvent>)
        ensures
            forwarded == Scanner::event_in(received),
    {
        match received {
            Ok(event) => Some(event),
            Err(_) => None,
        }
    }

    /// What a stream of devices makes of what it received: an event, or the number of events that
    /// it missed.
    pub fn forward_device(received: Result<DeviceEvent, u64>) -> (forwarded: Option<Device>)
        ensures
            forwarded == Scanner::device_in(received),
    {
        match received {
            Ok(DeviceEvent::Discovered(device)) => Some(device),
            _ => None,
        }
    }
}

} // verus!
