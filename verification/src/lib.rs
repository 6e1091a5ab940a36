//! Verified core of a bridge between a button hub and a lighting controller.
//!
//! The crate holds the decisions of the bridge and none of its input or
//! output: every state machine here takes what was observed as a plain value
//! and answers with the next state and the actions to perform.

use vstd::prelude::*;

pub mod config;
pub mod drivers;
pub mod href;
pub mod json;
pub mod leap;
pub mod buttons;
pub mod subscription;
pub mod bridge;

verus! {

/// Identifier of a physical button or device, scoped to the driver that owns it.
#[derive(Clone, Copy, Debug, PartialEq, Eq, Structural)]
pub struct DeviceId(u32);

impl View for DeviceId {
    type V = u32;

    /// The number behind the identifier.
    closed spec fn view(&self) -> u32 {
        self.0
    }
}

impl DeviceId {
    pub fn new(number: u32) -> (id: DeviceId)
        ensures
            id@ == number,
    {
        DeviceId(number)
    }

    pub fn value(&self) -> (number: u32)
        ensures
            number == self@,
    {
        self.0
    }

    /// Two identifiers with the same number are the same identifier.
    pub proof fn lemma_number_decides(a: DeviceId, b: DeviceId)
        requires
            a@ == b@,
        ensures
            a == b,
    {
    }
}

/// Who produced an event.
#[derive(Clone, Copy, Debug, PartialEq, Eq, Structural)]
pub enum EventSource {
    Driver(drivers::DriverType),
}

/// What a driver reports.
#[derive(Clone, Copy, Debug, PartialEq, Eq, Structural)]
pub enum EventType {
    ButtonPress(DeviceId),
    Disconnected(drivers::DriverType),
}

/// One notification from a driver to the control loop.
#[derive(Clone, Copy, Debug, PartialEq, Eq, Structural)]
pub struct Event {
    pub src: EventSource,
    pub id: EventType,
}

/// A directive from the control loop to a driver.
#[derive(Debug, PartialEq, Eq)]
pub enum Command {
    Connect,
    Disconnect,
    Reconnect,
    Enable(DeviceId),
    Disable(DeviceId),
    Display(DeviceId, String),
}

} // verus!
