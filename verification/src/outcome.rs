//! Outcomes of write attempts and of session operations.

use vstd::prelude::*;

verus! {

/// One of the three steps that deliver a command, in the order in which they
/// are attempted.
#[derive(Clone, Copy, Debug, PartialEq, Eq, Structural)]
pub enum WritePhase {
    /// Writing the command's own bytes.
    Payload,
    /// Writing the single line terminator.
    Terminator,
    /// Flushing the input stream.
    Flush,
}

/// A step of a delivery that failed, with the description that the stream gave.
#[derive(Clone, Debug, PartialEq, Eq)]
pub struct WriteFailure {
    pub phase: WritePhase,
    pub reason: String,
}

/// What the writer reports for one command.
#[derive(Clone, Debug, PartialEq, Eq)]
pub enum WriteOutcome {
    /// All three steps completed.
    Delivered,
    /// A step failed; the steps after it were not attempted.
    Failed(WriteFailure),
}

/// The two channels between a session and its writer.
#[derive(Clone, Copy, Debug, PartialEq, Eq, Structural)]
pub enum ChannelSide {
    /// Carries commands from the session to the writer.
    Command,
    /// Carries outcomes from the writer back to the session.
    Outcome,
}

/// Why a session operation did not succeed.
#[derive(Clone, Debug, PartialEq, Eq)]
pub enum SessionError {
    /// The transport process could not be started, or its input stream could
    /// not be captured.
    Launch(String),
    /// A write or flush on the shell's input stream failed.
    Write(WriteFailure),
    /// A channel to the writer was found closed: the writer is gone, and no
    /// outcome will arrive for any later command.
    Channel(ChannelSide),
    /// Waiting for the transport process to exit failed.
    Process(String),
    /// The operation was asked of a session that is not open.
    NotOpen,
}

impl WritePhase {
    /// The position of the step in a delivery: 0, 1 or 2.
    pub open spec fn index(self) -> nat {
        match self {
            WritePhase::Payload => 0,
            WritePhase::Terminator => 1,
            WritePhase::Flush => 2,
        }
    }
}

impl WriteOutcome {
    /// Whether the command was delivered.
    pub fn is_delivered(&self) -> (delivered: bool)
        ensures
            delivered == (*self == WriteOutcome::Delivered),
    {
        match self {
            WriteOutcome::Delivered => true,
            WriteOutcome::Failed(_) => false,
        }
    }

    /// What a submission returns for this outcome: success for a delivered
    /// command, the write failure otherwise.
    pub open spec fn as_result(self) -> Result<(), SessionError> {
        match self {
            WriteOutcome::Delivered => Ok(()),
            WriteOutcome::Failed(failure) => Err(SessionError::Write(failure)),
        }
    }

    /// Turns the outcome into the result of the submission that it belongs to.
    pub fn into_result(self) -> (result: Result<(), SessionError>)
        ensures
            result == self.as_result(),
    {
        match self {
            WriteOutcome::Delivered => Ok(()),
            WriteOutcome::Failed(failure) => Err(SessionError::Write(failure)),
        }
    }
}

} // verus!
