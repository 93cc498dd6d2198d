//! Ordering and synchronisation core of an interactive remote-shell session.
//!
//! A session talks to a shell behind a transport process. Commands are handed
//! to a single writer, which alone owns the shell's input stream and performs,
//! for each command, three steps in a fixed order: the command's bytes, one
//! line terminator, a flush. The caller learns the outcome of each command
//! before the next one is accepted.
//!
//! The crate holds the decisions of both sides as state machines. Each machine
//! consumes an event and answers with the next action; whoever drives it
//! performs the action (a write, a blocking channel operation, a wait on the
//! child process) and comes back with the event that the action produced.
//!
//! * [`outcome`]: what a write attempt, and a session operation, can end in.
//! * [`launch`]: how the transport process is started.
//! * [`writer`]: the synchronised writer.
//! * [`session`]: the caller-facing session.
//! * [`delivery`]: what reaches the input stream, and the laws that hold of it.
//! * [`lifecycle`]: the laws of closing and stopping.

pub mod outcome;
pub mod launch;
pub mod writer;
pub mod session;
pub mod delivery;
pub mod lifecycle;

pub use outcome::{ChannelSide, SessionError, WriteFailure, WriteOutcome, WritePhase};
pub use launch::{LaunchPlan, Wiring, CHANNEL_CAPACITY};
pub use writer::{Writer, WriterAction, WriterEvent, WriterState, LINE_TERMINATOR};
pub use session::{SessionAction, SessionEvent, SessionPhase, ShellProcess};
