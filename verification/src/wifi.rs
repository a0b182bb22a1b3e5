//! The reporting application: on a command it reads the sensor, and where
//! the command asks for it, reports the reading over the network. The
//! application waits for one outside answer at a time; this module decides
//! what follows each answer.
use vstd::prelude::*;

verus! {

/// What the application can be told to do.
#[derive(Clone, Copy, Debug, PartialEq, Eq, Structural)]
pub enum AppCommand {
    ReadSensor,
    ReadSensorAndReport,
}

/// What the application is waiting for.
#[derive(Clone, Copy, Debug, PartialEq, Eq, Structural)]
pub enum Phase {
    /// The next command from the inbox.
    Idle,
    /// The sensor's reading, asked for by the given command.
    Reading(AppCommand),
    /// The server's reply to a report.
    Reporting,
}

/// An answer from outside.
#[derive(Clone, Copy, Debug, PartialEq, Eq, Structural)]
pub enum Event {
    /// The inbox gave a command, or nothing.
    Message(Option<AppCommand>),
    /// The sensor gave a reading (`true`) or failed.
    Measured(bool),
    /// The server replied, with or without a body.
    Replied { payload: bool },
    /// The request failed.
    Failed,
}

/// What the application does before it waits again.
#[derive(Clone, Copy, Debug, PartialEq, Eq, Structural)]
pub enum Action {
    /// Nothing.
    Nothing,
    /// Ask the sensor for a reading.
    Measure,
    /// Log the reading.
    LogReading,
    /// Log the reading's record, serialise it and post it to the server.
    Report,
    /// Log the reply's status, and its body where there is one.
    LogReply { payload: bool },
    /// Warn that the request failed.
    WarnFailure,
}

/// One step of the application: the action to take and what to wait for
/// next.
#[derive(Clone, Copy, Debug, PartialEq, Eq, Structural)]
pub struct Step {
    pub action: Action,
    pub next: Phase,
}

/// Whether `event` is an answer to what `phase` waits for.
pub open spec fn answers(phase: Phase, event: Event) -> bool {
    match (phase, event) {
        (Phase::Idle, Event::Message(_)) => true,
        (Phase::Reading(_), Event::Measured(_)) => true,
        (Phase::Reporting, Event::Replied { .. }) => true,
        (Phase::Reporting, Event::Failed) => true,
        _ => false,
    }
}

/// The step that follows `event` in `phase`, for an event that answers the
/// phase.
pub open spec fn step_of(phase: Phase, event: Event) -> Step {
    match (phase, event) {
        (Phase::Idle, Event::Message(Some(command))) => Step {
            action: Action::Measure,
            next: Phase::Reading(command),
        },
        (Phase::Reading(AppCommand::ReadSensor), Event::Measured(true)) => Step {
            action: Action::LogReading,
            next: Phase::Idle,
        },
        (Phase::Reading(AppCommand::ReadSensorAndReport), Event::Measured(true)) => Step {
            action: Action::Report,
            next: Phase::Reporting,
        },
        (Phase::Reporting, Event::Replied { payload }) => Step {
            action: Action::LogReply { payload },
            next: Phase::Idle,
        },
        (Phase::Reporting, Event::Failed) => Step { action: Action::WarnFailure, next: Phase::Idle },
        _ => Step { action: Action::Nothing, next: Phase::Idle },
    }
}

/// The step that follows `event` in `phase`; none for an event that the
/// phase does not wait for.
pub fn step(phase: Phase, event: Event) -> (r: Option<Step>)
    ensures
        r.is_some() == answers(phase, event),
        r matches Some(s) ==> s == step_of(phase, event),
{
    match phase {
        Phase::Idle => match event {
            Event::Message(Some(command)) => Some(
                Step { action: Action::Measure, next: Phase::Reading(command) },
            ),
            Event::Message(None) => Some(Step { action: Action::Nothing, next: Phase::Idle }),
            _ => None,
        },
        Phase::Reading(command) => match event {
            Event::Measured(true) => match command {
                AppCommand::ReadSensor => Some(
                    Step { action: Action::LogReading, next: Phase::Idle },
                ),
                AppCommand::ReadSensorAndReport => Some(
                    Step { action: Action::Report, next: Phase::Reporting },
                ),
            },
            Event::Measured(false) => Some(Step { action: Action::Nothing, next: Phase::Idle }),
            _ => None,
        },
        Phase::Reporting => match event {
            Event::Replied { payload } => Some(
                Step { action: Action::LogReply { payload }, next: Phase::Idle },
            ),
            Event::Failed => Some(Step { action: Action::WarnFailure, next: Phase::Idle }),
            _ => None,
        },
    }
}

/// A report is posted only for a command that asks for it and only after
/// the sensor gave a reading; every other answer leads back to the inbox
/// or, for a command, to the sensor.
pub proof fn lemma_report_needs_reading(phase: Phase, event: Event)
    requires
        answers(phase, event),
    ensures
        step_of(phase, event).action == Action::Report <==> (phase == Phase::Reading(
            AppCommand::ReadSensorAndReport,
        ) && event == Event::Measured(true)),
        step_of(phase, event).next == Phase::Reporting <==> step_of(phase, event).action
            == Action::Report,
        step_of(phase, event).next is Reading <==> (event matches Event::Message(Some(_))),
{
}

} // verus!
