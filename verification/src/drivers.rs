//! The driver framework: integration families, the contract of a driver's
//! run loop, and the registry that selects a driver.
//!
//! A driver performs nothing itself. Its run loop hands it what it observed,
//! one input a turn, and the driver answers with the events to emit and with
//! the result of the run once the run is over.

use vstd::prelude::*;
use crate::config::{CasetaConfig, Config};
use crate::{Command, Event, EventSource, EventType};

pub mod lutron;

verus! {

/// The integration families a driver can belong to.
#[derive(Clone, Copy, Debug, PartialEq, Eq, Structural)]
pub enum DriverType {
    Lutron,
    Nanoleaf,
    IpcSocket,
}

impl DriverType {
    /// The number under which a family is written to configuration.
    pub open spec fn spec_code(self) -> u32 {
        match self {
            DriverType::Lutron => 1,
            DriverType::Nanoleaf => 2,
            DriverType::IpcSocket => 3,
        }
    }

    #[verifier::when_used_as_spec(spec_code)]
    pub fn code(self) -> (code: u32)
        ensures
            code == self.spec_code(),
    {
        match self {
            DriverType::Lutron => 1,
            DriverType::Nanoleaf => 2,
            DriverType::IpcSocket => 3,
        }
    }

    /// No two families share a number.
    pub proof fn lemma_code_decides(a: DriverType, b: DriverType)
        requires
            a.code() == b.code(),
        ensures
            a == b,
    {
    }
}

/// What the adapter of a driver delivered.
#[derive(Clone, Copy, Debug, PartialEq, Eq, Structural)]
pub enum Notification {
    /// A notification that the adapter could not decode.
    Raw,
    /// A notification that the adapter decoded.
    Decoded,
}

/// What the run loop of a driver observed.
#[derive(Debug, PartialEq, Eq)]
pub enum DriverInput {
    /// A command arrived.
    Command(Command),
    /// Every sender of commands is gone.
    CommandsClosed,
    /// The adapter delivered a notification.
    Notification(Notification),
    /// The connection of the adapter is lost for good.
    AdapterFailed,
    /// An event could not be sent: every receiver of events is gone.
    EventsClosed,
}

/// What the run loop of a driver is to do after one input.
#[derive(Debug, PartialEq, Eq)]
pub struct DriverTurn {
    /// The events to emit, in order.
    pub events: Vec<Event>,
    /// The result of the run, once the run is over.
    pub outcome: Option<Result<(), ()>>,
}

/// The event that tells that a driver of `family` lost its device.
pub open spec fn disconnected(family: DriverType) -> Event {
    Event { src: EventSource::Driver(family), id: EventType::Disconnected(family) }
}

/// What a run has come to after a turn. A run that is over stays over with
/// its result. A run ends with success when the commands are closed and with
/// failure when the adapter fails, and on nothing else: no command, no
/// notification and no event that could not be sent ends it.
pub open spec fn outcome_after(before: Option<Result<(), ()>>, input: DriverInput) -> Option<
    Result<(), ()>,
> {
    match before {
        Some(result) => Some(result),
        None => match input {
            DriverInput::CommandsClosed => Some(Ok(())),
            DriverInput::AdapterFailed => Some(Err(())),
            _ => None,
        },
    }
}

/// Whether a driver still reports notifications after a turn. It does until
/// an event could not be sent, and never again after that.
pub open spec fn reporting_after(
    reporting: bool,
    before: Option<Result<(), ()>>,
    input: DriverInput,
) -> bool {
    reporting && !(before is None && input is EventsClosed)
}

/// What every driver owes its run loop, for a driver of `family` whose run
/// was over before the turn (`before`) or not, and which did or did not
/// report notifications any more (`reporting`).
///
/// The run ends as `outcome_after` says. A run that is over emits nothing.
/// When the adapter fails, the one event of the turn tells so. A notification
/// that was decoded leads to exactly one event while the driver reports, and
/// to none once an event could not be sent; one that was not decoded leads to
/// none. Closed commands and closed events lead to no event. Every event
/// names the driver as its source.
pub open spec fn turn_meets_contract(
    family: DriverType,
    before: Option<Result<(), ()>>,
    reporting: bool,
    input: DriverInput,
    events: Seq<Event>,
    outcome: Option<Result<(), ()>>,
) -> bool {
    &&& outcome == outcome_after(before, input)
    &&& forall|i: int|
        0 <= i < events.len() ==> (#[trigger] events[i]).src == EventSource::Driver(family)
    &&& match before {
        Some(_) => events.len() == 0,
        None => match input {
            DriverInput::Command(_) => true,
            DriverInput::CommandsClosed => events.len() == 0,
            DriverInput::Notification(Notification::Decoded) => events.len() == if reporting {
                1nat
            } else {
                0nat
            },
            DriverInput::Notification(Notification::Raw) => events.len() == 0,
            DriverInput::AdapterFailed => events == seq![disconnected(family)],
            DriverInput::EventsClosed => events.len() == 0,
        },
    }
}

/// A unit that turns the notifications of one device family into events and
/// takes commands for it.
pub trait Driver {
    /// The family the driver belongs to.
    spec fn family(&self) -> DriverType;

    /// The result of the run, once the run is over.
    spec fn finished(&self) -> Option<Result<(), ()>>;

    /// Whether the driver reports notifications: it does until an event could
    /// not be sent.
    spec fn reporting(&self) -> bool;

    fn driver_type(&self) -> (family: DriverType)
        ensures
            family == self.family(),
    ;

    /// Takes what the run loop observed and gives what it is to do.
    fn turn(&mut self, input: DriverInput) -> (turn: DriverTurn)
        ensures
            final(self).family() == old(self).family(),
            final(self).finished() == turn.outcome,
            final(self).reporting() == reporting_after(
                old(self).reporting(),
                old(self).finished(),
                input,
            ),
            turn_meets_contract(
                old(self).family(),
                old(self).finished(),
                old(self).reporting(),
                input,
                turn.events@,
                turn.outcome,
            ),
    ;
}

/// Closed commands end a run at once and with success; a failed adapter ends
/// it at once and with failure, and the event that tells so is emitted in
/// that same turn, before the run returns. Nothing else ends a run. A run
/// that is over emits nothing more.
pub proof fn lemma_run_ends_at_once(
    family: DriverType,
    before: Option<Result<(), ()>>,
    reporting: bool,
    input: DriverInput,
    events: Seq<Event>,
    outcome: Option<Result<(), ()>>,
)
    requires
        turn_meets_contract(family, before, reporting, input, events, outcome),
    ensures
        input is CommandsClosed ==> outcome is Some,
        before is None && input is CommandsClosed ==> outcome == Some(Ok::<(), ()>(())),
        before is None && input is AdapterFailed ==> outcome == Some(Err::<(), ()>(())) && events
            == seq![disconnected(family)],
        before is None && !(input is CommandsClosed) && !(input is AdapterFailed) ==> outcome
            is None,
        before is Some ==> outcome == before && events.len() == 0,
{
}

/// What a run has come to after its loop observed `inputs`, one a turn.
pub open spec fn outcome_of_run(inputs: Seq<DriverInput>) -> Option<Result<(), ()>>
    decreases inputs.len(),
{
    if inputs.len() == 0 {
        None
    } else {
        outcome_after(outcome_of_run(inputs.drop_last()), inputs.last())
    }
}

/// A run goes on for as long as the commands are not closed and the adapter
/// has not failed, whatever else its loop observes and however much of it:
/// commands of any kind, notifications, events that could not be sent.
pub proof fn lemma_run_goes_on(inputs: Seq<DriverInput>)
    ensures
        outcome_of_run(inputs) is None <==> forall|i: int|
            0 <= i < inputs.len() ==> !((#[trigger] inputs[i]) is CommandsClosed) && !(inputs[i]
                is AdapterFailed),
    decreases inputs.len(),
{
    if inputs.len() > 0 {
        let shorter = inputs.drop_last();
        lemma_run_goes_on(shorter);
        if outcome_of_run(inputs) is None {
            assert forall|i: int| 0 <= i < inputs.len() implies !((#[trigger] inputs[i])
                is CommandsClosed) && !(inputs[i] is AdapterFailed) by {
                if i < shorter.len() {
                    assert(shorter[i] == inputs[i]);
                }
            }
        } else if outcome_of_run(shorter) is None {
            assert(inputs[inputs.len() - 1] == inputs.last());
        } else {
            let i = choose|i: int|
                0 <= i < shorter.len() && !(!((#[trigger] shorter[i]) is CommandsClosed) && !(
                shorter[i] is AdapterFailed));
            assert(inputs[i] == shorter[i]);
        }
    }
}

/// Why a driver could not be launched.
#[derive(Clone, Copy, Debug, PartialEq, Eq, Structural)]
pub enum LaunchError {
    /// No driver exists for the family.
    Unimplemented(DriverType),
}

/// A driver to launch, with the settings it connects with.
#[derive(Debug, PartialEq, Eq)]
pub enum DriverSetup {
    Caseta(CasetaConfig),
}

/// Selects the driver for a family. Only the Lutron family has one; any other
/// choice fails the launch.
pub fn start_driver(driver: DriverType, cfg: &Config) -> (setup: Result<DriverSetup, LaunchError>)
    ensures
        match driver {
            DriverType::Lutron => setup matches Ok(DriverSetup::Caseta(settings)) && settings@
                == cfg.caseta@,
            _ => setup matches Err(error) && error == LaunchError::Unimplemented(driver),
        },
{
    match driver {
        DriverType::Lutron => Ok(DriverSetup::Caseta(cfg.caseta.clone())),
        _ => Err(LaunchError::Unimplemented(driver)),
    }
}

} // verus!
