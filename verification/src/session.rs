//! The caller-facing session.
//!
//! A session is a state machine beside the writer's. Its driver owns the
//! transport process, the sending end of the command channel, the receiving
//! end of the result channel and the handle of the writer's thread. It performs
//! each action that the machine answers with and feeds the event that the
//! action produced back into [`ShellProcess::advance`], until the machine
//! answers with [`SessionAction::Return`]: that is the result of the operation.

use vstd::prelude::*;
use vstd::string::{StrSliceExecFns, StringSliceAdditionalSpecFns};
use crate::launch::LaunchPlan;
use crate::outcome::{ChannelSide, SessionError, WriteOutcome};

verus! {

/// Where a session stands in its life.
#[derive(Clone, Copy, Debug, PartialEq, Eq, Structural)]
pub enum SessionPhase {
    /// The transport process is being started.
    Launching,
    /// Ready for a command, or to be closed.
    Open,
    /// A command is being placed on the command channel.
    Sending,
    /// A command was sent; its outcome is awaited on the result channel.
    Receiving,
    /// Closing: the sending end of the command channel is being dropped.
    Releasing,
    /// Closing: the transport process is being waited for.
    Waiting,
    /// Closing: the writer's thread is being joined.
    Joining,
    /// Closed, or never opened. Nothing leaves this phase.
    Closed,
}

/// What the driver did, or found, since the last action.
#[derive(Clone, Debug, PartialEq, Eq)]
pub enum SessionEvent {
    /// The transport process runs, its input stream is captured and the
    /// writer was started on it.
    Launched,
    /// The transport process could not be started, or its input stream could
    /// not be captured.
    LaunchFailed(String),
    /// The command was placed on the command channel.
    Sent,
    /// The command channel was found closed.
    SendFailed,
    /// The result channel handed over the outcome of the command.
    Outcome(WriteOutcome),
    /// The result channel was found closed.
    ReceiveFailed,
    /// The sending end of the command channel was dropped.
    SenderDropped,
    /// The transport process has exited.
    ChildExited,
    /// Waiting for the transport process failed.
    WaitFailed(String),
    /// The writer's thread has ended and was joined.
    WorkerJoined,
}

/// What the driver is to do next.
#[derive(Debug, PartialEq, Eq)]
pub enum SessionAction {
    /// Start the transport process as the plan says, make the two channels and
    /// start the writer on the captured input stream.
    Spawn(LaunchPlan),
    /// Place these bytes, one command, on the command channel; block while
    /// the channel is full.
    Send(Vec<u8>),
    /// Block until the result channel hands over an outcome or is closed.
    Receive,
    /// Drop the sending end of the command channel: the writer's signal to
    /// stop.
    DropSender,
    /// Block until the transport process has exited.
    WaitChild,
    /// Block until the writer's thread has ended.
    JoinWorker,
    /// The operation is over; hand this result to the caller.
    Return(Result<(), SessionError>),
}

/// The session's transition function for the events that answer an action:
/// the phase and the action that follow when `event` arrives in `phase`. An
/// event that does not answer the action outstanding in `phase` changes
/// nothing and yields no action.
pub open spec fn session_step(phase: SessionPhase, event: SessionEvent) -> (
    SessionPhase,
    Option<SessionAction>,
) {
    match (phase, event) {
        (SessionPhase::Launching, SessionEvent::Launched) => (
            SessionPhase::Open,
            Some(SessionAction::Return(Ok(()))),
        ),
        (SessionPhase::Launching, SessionEvent::LaunchFailed(reason)) => (
            SessionPhase::Closed,
            Some(SessionAction::Return(Err(SessionError::Launch(reason)))),
        ),
        (SessionPhase::Sending, SessionEvent::Sent) => (
            SessionPhase::Receiving,
            Some(SessionAction::Receive),
        ),
        (SessionPhase::Sending, SessionEvent::SendFailed) => (
            SessionPhase::Open,
            Some(SessionAction::Return(Err(SessionError::Channel(ChannelSide::Command)))),
        ),
        (SessionPhase::Receiving, SessionEvent::Outcome(outcome)) => (
            SessionPhase::Open,
            Some(SessionAction::Return(outcome.as_result())),
        ),
        (SessionPhase::Receiving, SessionEvent::ReceiveFailed) => (
            SessionPhase::Open,
            Some(SessionAction::Return(Err(SessionError::Channel(ChannelSide::Outcome)))),
        ),
        (SessionPhase::Releasing, SessionEvent::SenderDropped) => (
            SessionPhase::Waiting,
            Some(SessionAction::WaitChild),
        ),
        (SessionPhase::Waiting, SessionEvent::ChildExited) => (
            SessionPhase::Joining,
            Some(SessionAction::JoinWorker),
        ),
        (SessionPhase::Waiting, SessionEvent::WaitFailed(reason)) => (
            SessionPhase::Closed,
            Some(SessionAction::Return(Err(SessionError::Process(reason)))),
        ),
        (SessionPhase::Joining, SessionEvent::WorkerJoined) => (
            SessionPhase::Closed,
            Some(SessionAction::Return(Ok(()))),
        ),
        _ => (phase, None),
    }
}

/// A session with a remote shell. Its view is the phase it stands in.
#[derive(Debug)]
pub struct ShellProcess {
    phase: SessionPhase,
}

impl View for ShellProcess {
    type V = SessionPhase;

    closed spec fn view(&self) -> SessionPhase {
        self.phase
    }
}

impl ShellProcess {
    /// The phase in which the session stands.
    pub fn phase(&self) -> (phase: SessionPhase)
        ensures
            phase == self@,
    {
        self.phase
    }

    /// Begins a session with the shell at `hostname`. The session is not open
    /// yet: the action is to start the transport process that reaches
    /// `hostname`, and the session opens when the driver reports
    /// [`SessionEvent::Launched`].
    pub fn new(hostname: &str) -> (begun: (ShellProcess, SessionAction))
        ensures
            begun.0@ == SessionPhase::Launching,
            begun.1 matches SessionAction::Spawn(plan) && plan.reaches(hostname@),
    {
        let plan = LaunchPlan::for_destination(hostname);
        (ShellProcess { phase: SessionPhase::Launching }, SessionAction::Spawn(plan))
    }

    /// Whether the session accepts a command or a close.
    pub fn is_open(&self) -> (open: bool)
        ensures
            open == (self@ == SessionPhase::Open),
    {
        match self.phase {
            SessionPhase::Open => true,
            _ => false,
        }
    }

    /// Whether the session has ended: it was closed, or it never opened.
    pub fn is_closed(&self) -> (closed: bool)
        ensures
            closed == (self@ == SessionPhase::Closed),
    {
        match self.phase {
            SessionPhase::Closed => true,
            _ => false,
        }
    }

    /// Begins the submission of one command. On an open session the action is
    /// to send the command's bytes, exactly as given, to the writer. On any
    /// other session nothing is sent and nothing changes: the submission is
    /// over at once, with [`SessionError::NotOpen`].
    pub fn send_command(&mut self, cmd: &str) -> (action: SessionAction)
        ensures
            old(self)@ == SessionPhase::Open ==> {
                &&& final(self)@ == SessionPhase::Sending
                &&& action matches SessionAction::Send(payload)
                &&& payload@ == cmd.spec_bytes()
            },
            old(self)@ != SessionPhase::Open ==> {
                &&& final(self)@ == old(self)@
                &&& action == SessionAction::Return(Err(SessionError::NotOpen))
            },
    {
        match self.phase {
            SessionPhase::Open => {
                self.phase = SessionPhase::Sending;
                SessionAction::Send(cmd.as_bytes_vec())
            },
            _ => SessionAction::Return(Err(SessionError::NotOpen)),
        }
    }

    /// Begins to close the session. On an open session the action is to drop
    /// the sending end of the command channel; the wait for the transport
    /// process and the join of the writer follow through
    /// [`ShellProcess::advance`], in that order. On any other session nothing
    /// changes: the operation is over at once, with
    /// [`SessionError::NotOpen`].
    pub fn close(&mut self) -> (action: SessionAction)
        ensures
            old(self)@ == SessionPhase::Open ==> {
                &&& final(self)@ == SessionPhase::Releasing
                &&& action == SessionAction::DropSender
            },
            old(self)@ != SessionPhase::Open ==> {
                &&& final(self)@ == old(self)@
                &&& action == SessionAction::Return(Err(SessionError::NotOpen))
            },
    {
        match self.phase {
            SessionPhase::Open => {
                self.phase = SessionPhase::Releasing;
                SessionAction::DropSender
            },
            _ => SessionAction::Return(Err(SessionError::NotOpen)),
        }
    }

    /// Consumes the event that the last action produced and answers with the
    /// next action, as [`session_step`] defines it. `None` means that the
    /// event was not expected in the present phase; the session is unchanged.
    pub fn advance(&mut self, event: SessionEvent) -> (action: Option<SessionAction>)
        ensures
            (final(self)@, action) == session_step(old(self)@, event),
    {
        match self.phase {
            SessionPhase::Launching => match event {
                SessionEvent::Launched => {
                    self.phase = SessionPhase::Open;
                    Some(SessionAction::Return(Ok(())))
                },
                SessionEvent::LaunchFailed(reason) => {
                    self.phase = SessionPhase::Closed;
                    Some(SessionAction::Return(Err(SessionError::Launch(reason))))
                },
                _ => None,
            },
            SessionPhase::Sending => match event {
                SessionEvent::Sent => {
                    self.phase = SessionPhase::Receiving;
                    Some(SessionAction::Receive)
                },
                SessionEvent::SendFailed => {
                    self.phase = SessionPhase::Open;
                    Some(SessionAction::Return(Err(SessionError::Channel(ChannelSide::Command))))
                },
                _ => None,
            },
            SessionPhase::Receiving => match event {
                SessionEvent::Outcome(outcome) => {
                    self.phase = SessionPhase::Open;
                    Some(SessionAction::Return(outcome.into_result()))
                },
                SessionEvent::ReceiveFailed => {
                    self.phase = SessionPhase::Open;
                    Some(SessionAction::Return(Err(SessionError::Channel(ChannelSide::Outcome))))
                },
                _ => None,
            },
            SessionPhase::Releasing => match event {
                SessionEvent::SenderDropped => {
                    self.phase = SessionPhase::Waiting;
                    Some(SessionAction::WaitChild)
                },
                _ => None,
            },
            SessionPhase::Waiting => match event {
                SessionEvent::ChildExited => {
                    self.phase = SessionPhase::Joining;
                    Some(SessionAction::JoinWorker)
                },
                SessionEvent::WaitFailed(reason) => {
                    self.phase = SessionPhase::Closed;
                    Some(SessionAction::Return(Err(SessionError::Process(reason))))
                },
                _ => None,
            },
            SessionPhase::Joining => match event {
                SessionEvent::WorkerJoined => {
                    self.phase = SessionPhase::Closed;
                    Some(SessionAction::Return(Ok(())))
                },
                _ => None,
            },
            SessionPhase::Open => None,
            SessionPhase::Closed => None,
        }
    }
}

} // verus!
