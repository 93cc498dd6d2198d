//! The synchronised writer: the one place from which the shell's input stream
//! is written.
//!
//! The writer is a state machine. Its driver owns the input stream and the two
//! channel ends, performs each action that the machine answers with, and feeds
//! the event that the action produced back into [`Writer::step`].

use vstd::prelude::*;
use crate::outcome::{WriteFailure, WriteOutcome, WritePhase};

verus! {

/// The byte that ends every command on the input stream.
pub const LINE_TERMINATOR: u8 = 10;

/// Where the writer stands in its loop.
#[derive(Clone, Copy, Debug, PartialEq, Eq, Structural)]
pub enum WriterState {
    /// Blocked on the command channel.
    Waiting,
    /// A step of the current command's delivery is in progress.
    Writing(WritePhase),
    /// The outcome of the current command is being sent back.
    Reporting,
    /// The command channel was closed; the loop has ended.
    Stopped,
}

/// What the driver did, or found, since the last action.
#[derive(Clone, Debug, PartialEq, Eq)]
pub enum WriterEvent {
    /// The command channel handed over a command, as raw bytes.
    Command(Vec<u8>),
    /// The command channel is closed and empty.
    Disconnected,
    /// The write or flush that was asked for completed.
    StepDone,
    /// The write or flush that was asked for failed, with this description.
    StepFailed(String),
    /// The outcome was placed on the result channel.
    Reported,
}

/// What the driver is to do next.
#[derive(Clone, Debug, PartialEq, Eq)]
pub enum WriterAction {
    /// Block until the command channel hands over a command or is closed.
    Receive,
    /// Write all of these bytes to the input stream.
    WritePayload(Vec<u8>),
    /// Write the line terminator to the input stream.
    WriteTerminator,
    /// Flush the input stream.
    Flush,
    /// Send this outcome on the result channel.
    Report(WriteOutcome),
    /// Leave the loop and release the input stream.
    Stop,
}

/// The writer's transition function: the state and the action that follow
/// when `event` arrives in `state`. An event that does not answer the action
/// outstanding in `state` changes nothing and yields no action.
pub open spec fn writer_step(state: WriterState, event: WriterEvent) -> (
    WriterState,
    Option<WriterAction>,
) {
    match (state, event) {
        (WriterState::Waiting, WriterEvent::Command(payload)) => (
            WriterState::Writing(WritePhase::Payload),
            Some(WriterAction::WritePayload(payload)),
        ),
        (WriterState::Waiting, WriterEvent::Disconnected) => (
            WriterState::Stopped,
            Some(WriterAction::Stop),
        ),
        (WriterState::Writing(WritePhase::Payload), WriterEvent::StepDone) => (
            WriterState::Writing(WritePhase::Terminator),
            Some(WriterAction::WriteTerminator),
        ),
        (WriterState::Writing(WritePhase::Terminator), WriterEvent::StepDone) => (
            WriterState::Writing(WritePhase::Flush),
            Some(WriterAction::Flush),
        ),
        (WriterState::Writing(WritePhase::Flush), WriterEvent::StepDone) => (
            WriterState::Reporting,
            Some(WriterAction::Report(WriteOutcome::Delivered)),
        ),
        (WriterState::Writing(phase), WriterEvent::StepFailed(reason)) => (
            WriterState::Reporting,
            Some(WriterAction::Report(WriteOutcome::Failed(WriteFailure { phase, reason }))),
        ),
        (WriterState::Reporting, WriterEvent::Reported) => (
            WriterState::Waiting,
            Some(WriterAction::Receive),
        ),
        _ => (state, None),
    }
}

/// The synchronised writer of one session. Its view is the state it stands in.
#[derive(Debug)]
pub struct Writer {
    state: WriterState,
}

impl View for Writer {
    type V = WriterState;

    closed spec fn view(&self) -> WriterState {
        self.state
    }
}

impl Writer {
    /// The state in which the writer stands.
    pub fn state(&self) -> (state: WriterState)
        ensures
            state == self@,
    {
        self.state
    }

    /// A writer at the top of its loop, and its first action: to wait for a
    /// command.
    pub fn new() -> (started: (Writer, WriterAction))
        ensures
            started.0@ == WriterState::Waiting,
            started.1 == WriterAction::Receive,
    {
        (Writer { state: WriterState::Waiting }, WriterAction::Receive)
    }

    /// Whether the loop has ended.
    pub fn is_stopped(&self) -> (stopped: bool)
        ensures
            stopped == (self@ == WriterState::Stopped),
    {
        match self.state {
            WriterState::Stopped => true,
            _ => false,
        }
    }

    /// Consumes the event that the last action produced and answers with the
    /// next action, as [`writer_step`] defines it. `None` means that the event
    /// was not expected in the present state; the writer is unchanged.
    pub fn step(&mut self, event: WriterEvent) -> (action: Option<WriterAction>)
        ensures
            (final(self)@, action) == writer_step(old(self)@, event),
    {
        match self.state {
            WriterState::Waiting => match event {
                WriterEvent::Command(payload) => {
                    self.state = WriterState::Writing(WritePhase::Payload);
                    Some(WriterAction::WritePayload(payload))
                },
                WriterEvent::Disconnected => {
                    self.state = WriterState::Stopped;
                    Some(WriterAction::Stop)
                },
                _ => None,
            },
            WriterState::Writing(phase) => match event {
                WriterEvent::StepDone => match phase {
                    WritePhase::Payload => {
                        self.state = WriterState::Writing(WritePhase::Terminator);
                        Some(WriterAction::WriteTerminator)
                    },
                    WritePhase::Terminator => {
                        self.state = WriterState::Writing(WritePhase::Flush);
                        Some(WriterAction::Flush)
                    },
                    WritePhase::Flush => {
                        self.state = WriterState::Reporting;
                        Some(WriterAction::Report(WriteOutcome::Delivered))
                    },
                },
                WriterEvent::StepFailed(reason) => {
                    self.state = WriterState::Reporting;
                    Some(WriterAction::Report(WriteOutcome::Failed(WriteFailure { phase, reason })))
                },
                _ => None,
            },
            WriterState::Reporting => match event {
                WriterEvent::Reported => {
                    self.state = WriterState::Waiting;
                    Some(WriterAction::Receive)
                },
                _ => None,
            },
            WriterState::Stopped => None,
        }
    }
}

impl WriterAction {
    /// The bytes that the action puts on the input stream: the payload, the
    /// line terminator, or nothing.
    pub open spec fn wire(self) -> Seq<u8> {
        match self {
            WriterAction::WritePayload(payload) => payload@,
            WriterAction::WriteTerminator => seq![LINE_TERMINATOR],
            _ => Seq::empty(),
        }
    }

    /// The bytes to hand to the input stream for this action; empty for an
    /// action that writes nothing.
    pub fn stream_bytes(&self) -> (bytes: Vec<u8>)
        ensures
            bytes@ == self.wire(),
    {
        match self {
            WriterAction::WritePayload(payload) => payload.clone(),
            WriterAction::WriteTerminator => {
                let mut bytes: Vec<u8> = Vec::new();
                bytes.push(LINE_TERMINATOR);
                bytes
            },
            _ => Vec::new(),
        }
    }
}

} // verus!
