//! Verified decision logic of a Bluetooth Low Energy scanner.
//!
//! A [`ScannerWorker`] decides what a scan asks of a Bluetooth adapter, which devices match a
//! [`ScanConfig`], what is reported about them and when the scan is over. It never waits: its
//! caller performs each [`Request`] and hands back the [`Reply`].

pub mod address;
pub mod calls;
pub mod config;
pub mod device;
pub mod filter;
pub mod identifier;
pub mod laws;
pub mod model;
pub mod predicate;
pub mod protocol;
pub mod purpose;
pub mod scanner;
pub mod steps;
pub mod worker;

pub use address::BDAddr;
pub use config::ScanConfig;
pub use device::{
    AttributeReply, AttributeStep, Characteristic, ConnectReply, ConnectStep, Device, DeviceEvent,
};
pub use filter::{Answers, DeviceProperties, Filter};
pub use protocol::{CentralEvent, Reply, Request};
pub use scanner::{Scanner, StartError, StartReply, StartStep, EVENT_CAPACITY};
pub use worker::ScannerWorker;
