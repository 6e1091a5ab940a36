//! The driver for the Lutron hub.

use vstd::prelude::*;
use crate::drivers::{
    disconnected, outcome_after, Driver, DriverInput, DriverTurn, DriverType, Notification,
};
use crate::{Command, DeviceId, Event, EventSource, EventType};

verus! {

/// Why the driver could not be built.
#[derive(Clone, Copy, Debug, PartialEq, Eq, Structural)]
pub enum DriverError {
    /// The certificates could not be loaded.
    Certificates,
    /// The hub could not be reached.
    Connect,
    /// The hub was reached and gave no notification stream.
    Subscribe,
}

/// Whether `event` is the press of the button with `number`, reported by the
/// Lutron driver.
pub open spec fn is_button_press(event: Event, number: u32) -> bool {
    &&& event.src == EventSource::Driver(DriverType::Lutron)
    &&& event.id matches EventType::ButtonPress(id) && id@ == number
}

/// What one turn of the Lutron driver gives.
///
/// The driver takes every command and acts on none. While it reports, it
/// reports each decoded notification as the press of button 0; it leaves out
/// those that were not decoded, and all of them once an event could not be
/// sent. Its run ends on closed commands and on a failed adapter only.
pub open spec fn caseta_turn(
    before: Option<Result<(), ()>>,
    reporting: bool,
    input: DriverInput,
    events: Seq<Event>,
    outcome: Option<Result<(), ()>>,
) -> bool {
    &&& outcome == outcome_after(before, input)
    &&& match before {
        Some(_) => events.len() == 0,
        None => match input {
            DriverInput::Notification(Notification::Decoded) => if reporting {
                events.len() == 1 && is_button_press(events[0], 0)
            } else {
                events.len() == 0
            },
            DriverInput::AdapterFailed => events == seq![disconnected(DriverType::Lutron)],
            _ => events.len() == 0,
        },
    }
}

/// The driver for the Lutron hub: what its run has come to, and whether it
/// still reports.
pub struct CasetaDriver {
    outcome: Option<Result<(), ()>>,
    reporting: bool,
}

impl CasetaDriver {
    /// Builds the driver once the hub is connected and gives its
    /// notifications. Where that failed, no driver is built.
    pub fn new(link: Result<(), DriverError>) -> (driver: Result<CasetaDriver, DriverError>)
        ensures
            match link {
                Ok(_) => driver matches Ok(built) && built.finished() is None && built.reporting(),
                Err(error) => driver matches Err(reason) && reason == error,
            },
    {
        match link {
            Ok(_) => Ok(CasetaDriver { outcome: None, reporting: true }),
            Err(error) => Err(error),
        }
    }

    /// Acts on a command and gives the events that tell of it. The driver has
    /// no command it acts on.
    fn handle_cmd(&self, _cmd: &Command) -> (events: Vec<Event>)
        ensures
            events@.len() == 0,
    {
        Vec::new()
    }

    /// Reports a notification of the hub, while the driver reports.
    fn report(&self, notification: Notification) -> (events: Vec<Event>)
        ensures
            match notification {
                Notification::Decoded => if self.reporting() {
                    events@.len() == 1 && is_button_press(events@[0], 0)
                } else {
                    events@.len() == 0
                },
                Notification::Raw => events@.len() == 0,
            },
    {
        let mut events: Vec<Event> = Vec::new();
        match notification {
            Notification::Decoded => {
                if self.reporting {
                    events.push(
                        Event {
                            src: EventSource::Driver(DriverType::Lutron),
                            id: EventType::ButtonPress(DeviceId::new(0)),
                        },
                    );
                }
            },
            Notification::Raw => {},
        }
        events
    }
}

impl Driver for CasetaDriver {
    open spec fn family(&self) -> DriverType {
        DriverType::Lutron
    }

    closed spec fn finished(&self) -> Option<Result<(), ()>> {
        self.outcome
    }

    closed spec fn reporting(&self) -> bool {
        self.reporting
    }

    fn driver_type(&self) -> (family: DriverType) {
        DriverType::Lutron
    }

    fn turn(&mut self, input: DriverInput) -> (turn: DriverTurn)
        ensures
            caseta_turn(
                old(self).finished(),
                old(self).reporting(),
                input,
                turn.events@,
                turn.outcome,
            ),
    {
        if self.outcome.is_some() {
            return DriverTurn { events: Vec::new(), outcome: self.outcome };
        }
        let events = match input {
            DriverInput::Command(command) => self.handle_cmd(&command),
            DriverInput::CommandsClosed => {
                self.outcome = Some(Ok(()));
                Vec::new()
            },
            DriverInput::Notification(notification) => self.report(notification),
            DriverInput::AdapterFailed => {
                self.outcome = Some(Err(()));
                let mut events: Vec<Event> = Vec::new();
                events.push(
                    Event {
                        src: EventSource::Driver(DriverType::Lutron),
                        id: EventType::Disconnected(DriverType::Lutron),
                    },
                );
                assert(events@ =~= seq![disconnected(DriverType::Lutron)]);
                events
            },
            DriverInput::EventsClosed => {
                self.reporting = false;
                Vec::new()
            },
        };
        DriverTurn { events, outcome: self.outcome }
    }
}

} // verus!
