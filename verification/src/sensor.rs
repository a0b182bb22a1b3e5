//! The sensor application: on every command it reads the sensor and logs
//! the reading. This module decides what follows each outside answer.
use vstd::prelude::*;

verus! {

/// What the application can be told to do.
#[derive(Clone, Copy, Debug, PartialEq, Eq, Structural)]
pub enum AppCommand {
    ReadSensor,
}

/// What the application is waiting for.
#[derive(Clone, Copy, Debug, PartialEq, Eq, Structural)]
pub enum Phase {
    /// The next command from the inbox.
    Idle,
    /// The sensor's reading.
    Reading,
}

/// An answer from outside.
#[derive(Clone, Copy, Debug, PartialEq, Eq, Structural)]
pub enum Event {
    /// The inbox gave a command, or nothing.
    Message(Option<AppCommand>),
    /// The sensor gave a reading (`true`) or failed.
    Measured(bool),
}

/// What the application does before it waits again.
#[derive(Clone, Copy, Debug, PartialEq, Eq, Structural)]
pub enum Action {
    /// Nothing.
    Nothing,
    /// Ask the sensor for a reading.
    Measure,
    /// Log the reading.
    LogReading,
}

/// One step of the application: the action to take and what to wait for
/// next.
#[derive(Clone, Copy, Debug, PartialEq, Eq, Structural)]
pub struct Step {
    pub action: Action,
    pub next: Phase,
}

/// Whether `event` is an answer to what `phase` waits for.
pub open spec fn answers(phase: Phase, event: Event) -> bool {
    match (phase, event) {
        (Phase::Idle, Event::Message(_)) => true,
        (Phase::Reading, Event::Measured(_)) => true,
        _ => false,
    }
}

/// The step that follows `event` in `phase`, for an event that answers the
/// phase: a command leads to the sensor, a reading is logged, and a failed
/// reading or an empty inbox leads back to the inbox with nothing done.
pub open spec fn step_of(phase: Phase, event: Event) -> Step {
    if event matches Event::Message(Some(_)) {
        Step { action: Action::Measure, next: Phase::Reading }
    } else if event == Event::Measured(true) {
        Step { action: Action::LogReading, next: Phase::Idle }
    } else {
        Step { action: Action::Nothing, next: Phase::Idle }
    }
}

/// The step that follows `event` in `phase`; none for an event that the
/// phase does not wait for.
pub fn step(phase: Phase, event: Event) -> (r: Option<Step>)
    ensures
        r.is_some() == answers(phase, event),
        r matches Some(s) ==> s == step_of(phase, event),
{
    match (phase, event) {
        (Phase::Idle, Event::Message(Some(_))) => Some(
            Step { action: Action::Measure, next: Phase::Reading },
        ),
        (Phase::Idle, Event::Message(None)) => Some(
            Step { action: Action::Nothing, next: Phase::Idle },
        ),
        (Phase::Reading, Event::Measured(true)) => Some(
            Step { action: Action::LogReading, next: Phase::Idle },
        ),
        (Phase::Reading, Event::Measured(false)) => Some(
            Step { action: Action::Nothing, next: Phase::Idle },
        ),
        _ => None,
    }
}

} // verus!
