//! Devices and what a scan reports about them.

use uuid::Uuid;
use vstd::prelude::*;

use crate::address::BDAddr;
use crate::filter::DeviceProperties;
use crate::identifier::position_of;

verus! {

/// A device that an adapter knows.
#[derive(Clone, Copy, Debug, PartialEq, Eq)]
pub struct Device {
    /// The number under which the adapter's peripheral is kept.
    pub id: u64,
    /// The address of the device.
    pub address: BDAddr,
}

/// What a scan reports about a device.
#[derive(Clone, Copy, Debug, PartialEq, Eq)]
pub enum DeviceEvent {
    /// The device satisfies the configuration of the scan.
    Discovered(Device),
    /// A discovered device was connected.
    Connected(Device),
    /// A discovered device was disconnected.
    Disconnected(Device),
    /// A discovered device advertised anew.
    Updated(Device),
}

impl DeviceEvent {
    /// The device that the event is about.
    pub open spec fn subject(self) -> Device {
        match self {
            DeviceEvent::Discovered(device) => device,
            DeviceEvent::Connected(device) => device,
            DeviceEvent::Disconnected(device) => device,
            DeviceEvent::Updated(device) => device,
        }
    }
}

/// A characteristic of a device.
#[derive(Clone, Copy, Debug, PartialEq, Eq)]
pub struct Characteristic {
    /// The device that has the characteristic.
    pub device: Device,
    /// The place of the characteristic in the list that the device gave.
    pub position: usize,
    /// The identifier of the characteristic.
    pub uuid: Uuid,
}

/// What was found out on the way to a connection.
pub enum ConnectReply<E> {
    /// Whether the device is connected already.
    State(Result<bool, E>),
    /// How the attempt to connect went.
    Attempt(Result<(), E>),
}

/// What to do on the way to a connection.
pub enum ConnectStep<E> {
    /// Connect to the device.
    Connect,
    /// Return this.
    Finish(Result<(), E>),
}

/// What was found out on the way to the attributes of a device: its services or its
/// characteristics.
pub enum AttributeReply<T, E> {
    /// The attributes that are known already.
    Known(Vec<T>),
    /// The attributes that are known once the services were enumerated.
    Discovered(Result<Vec<T>, E>),
}

/// What to do on the way to the attributes of a device.
pub enum AttributeStep<T, E> {
    /// Have the device enumerate its services.
    Discover,
    /// Return this.
    Finish(Result<Vec<T>, E>),
}

impl<E> ConnectReply<E> {
    /// A device is connected to only where it is known not to be connected.
    pub open spec fn step(self) -> ConnectStep<E> {
        match self {
            ConnectReply::State(Ok(true)) => ConnectStep::Finish(Ok(())),
            ConnectReply::State(Ok(false)) => ConnectStep::Connect,
            ConnectReply::State(Err(error)) => ConnectStep::Finish(Err(error)),
            ConnectReply::Attempt(outcome) => ConnectStep::Finish(outcome),
        }
    }
}

impl<T, E> AttributeReply<T, E> {
    /// The services are enumerated only where nothing is known.
    pub open spec fn step(self) -> AttributeStep<T, E> {
        match self {
            AttributeReply::Known(known) => if known@.len() == 0 {
                AttributeStep::Discover
            } else {
                AttributeStep::Finish(Ok(known))
            },
            AttributeReply::Discovered(outcome) => AttributeStep::Finish(outcome),
        }
    }

    /// Decides how to go on.
    fn decide(self) -> (step: AttributeStep<T, E>)
        ensures
            step == self.step(),
    {
        match self {
            AttributeReply::Known(known) => if known.len() == 0 {
                AttributeStep::Discover
            } else {
                AttributeStep::Finish(Ok(known))
            },
            AttributeReply::Discovered(outcome) => AttributeStep::Finish(outcome),
        }
    }
}

impl Device {
    /// The characteristics of the device, given their identifiers.
    pub open spec fn with_characteristics(self, uuids: Seq<Uuid>) -> Seq<Characteristic> {
        Seq::new(
            uuids.len(),
            |i: int| Characteristic { device: self, position: i as usize, uuid: uuids[i] },
        )
    }

    /// The device that the adapter keeps under `id`.
    pub fn new(id: u64, address: BDAddr) -> (device: Device)
        ensures
            device == (Device { id, address }),
    {
        Device { id, address }
    }

    /// The address of the device
    pub fn address(&self) -> (address: BDAddr)
        ensures
            address == self.address,
    {
        self.address
    }

    /// Signal strength
    pub fn rssi<E>(&self, read: Result<Option<DeviceProperties>, E>) -> (rssi: Option<i16>)
        ensures
            rssi == match read {
                Ok(Some(properties)) => properties.rssi,
                _ => None,
            },
    {
        match read {
            Ok(Some(properties)) => properties.rssi,
            _ => None,
        }
    }

    /// Local name of the device
    pub fn local_name<E>(&self, read: Result<Option<DeviceProperties>, E>) -> (name: Option<String>)
        ensures
            name == match read {
                Ok(Some(properties)) => properties.local_name,
                _ => None,
            },
    {
        match read {
            Ok(Some(properties)) => properties.local_name,
            _ => None,
        }
    }

    /// Connect the device
    pub fn connect<E>(&self, reply: ConnectReply<E>) -> (step: ConnectStep<E>)
        ensures
            step == reply.step(),
    {
        match reply {
            ConnectReply::State(Ok(connected)) => if connected {
                ConnectStep::Finish(Ok(()))
            } else {
                ConnectStep::Connect
            },
            ConnectReply::State(Err(error)) => ConnectStep::Finish(Err(error)),
            ConnectReply::Attempt(outcome) => ConnectStep::Finish(outcome),
        }
    }

    /// Services advertised by the device
    pub fn services<T, E>(&self, reply: AttributeReply<T, E>) -> (step: AttributeStep<T, E>)
        ensures
            step == reply.step(),
    {
        reply.decide()
    }

    /// Number of services advertised by the device
    pub fn service_count<T, E>(&self, services: Result<Vec<T>, E>) -> (count: Result<usize, E>)
        ensures
            match services {
                Ok(services) => count matches Ok(number) && number == services@.len(),
                Err(error) => count == Err::<usize, E>(error),
            },
    {
        match services {
            Ok(services) => Ok(services.len()),
            Err(error) => Err(error),
        }
    }

    /// The characteristics of the device as the adapter gives them
    pub fn original_characteristics<T, E>(&self, reply: AttributeReply<T, E>) -> (step:
        AttributeStep<T, E>)
        ensures
            step == reply.step(),
    {
        reply.decide()
    }

    /// Characteristics advertised by the device
    pub fn characteristics<E>(&self, listed: Result<Vec<Uuid>, E>) -> (characteristics: Result<
        Vec<Characteristic>,
        E,
    >)
        ensures
            match listed {
                Ok(uuids) => characteristics matches Ok(list) && list@ == self.with_characteristics(
                    uuids@,
                ),
                Err(error) => characteristics == Err::<Vec<Characteristic>, E>(error),
            },
    {
        match listed {
            Ok(uuids) => {
                let mut list: Vec<Characteristic> = Vec::new();
                for position in 0..uuids.len()
                    invariant
                        list@ == self.with_characteristics(uuids@.take(position as int)),
                {
                    list.push(Characteristic { device: *self, position, uuid: uuids[position] });
                    assert(list@ =~= self.with_characteristics(uuids@.take(position + 1)));
                }
                assert(uuids@.take(uuids@.len() as int) =~= uuids@);
                Ok(list)
            },
            Err(error) => Err(error),
        }
    }

    /// Get characteristic by UUID
    ///
    /// Where several have the identifier, the first of them is it.
    pub fn characteristic<E>(&self, listed: Result<Vec<Uuid>, E>, uuid: Uuid) -> (found: Result<
        Option<Characteristic>,
        E,
    >)
        ensures
            match listed {
                Ok(uuids) => match found {
                    Ok(Some(characteristic)) => {
                        let at = characteristic.position as int;
                        &&& at < uuids@.len()
                        &&& characteristic == self.with_characteristics(uuids@)[at]
                        &&& characteristic.uuid == uuid
                        &&& !uuids@.take(at).contains(uuid)
                    },
                    Ok(None) => !uuids@.contains(uuid),
                    Err(_) => false,
                },
                Err(error) => found == Err::<Option<Characteristic>, E>(error),
            },
    {
        match listed {
            Ok(uuids) => match position_of(uuids.as_slice(), &uuid) {
                Some(position) => Ok(Some(Characteristic { device: *self, position, uuid })),
                None => Ok(None),
            },
            Err(error) => Err(error),
        }
    }
}

} // verus!
