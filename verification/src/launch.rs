//! How the transport process is started.
//!
//! The library does not start processes. It states what is to be started: the
//! program, its arguments, how its three standard streams are connected, and
//! how many items each of the two channels may hold.

use vstd::prelude::*;

verus! {

/// The number of pending items that the command channel and the result
/// channel each hold. With one slot, at most one command is in flight.
pub const CHANNEL_CAPACITY: usize = 1;

/// How a standard stream of the transport process is connected.
#[derive(Clone, Copy, Debug, PartialEq, Eq, Structural)]
pub enum Wiring {
    /// Captured: the session's side holds the other end.
    Captured,
    /// Connected to the caller's own stream, untouched by the session.
    Inherited,
}

/// Everything that is needed to start the transport process for a session.
#[derive(Clone, Debug, PartialEq, Eq)]
pub struct LaunchPlan {
    pub program: String,
    pub arguments: Vec<String>,
    pub input: Wiring,
    pub output: Wiring,
    pub errors: Wiring,
    pub channel_capacity: usize,
}

impl LaunchPlan {
    /// The plan that reaches `destination`: the transport program, called with
    /// the destination, the shell to run there and the flag that switches off
    /// the shell's line editing; input captured, both output streams passed
    /// through; one slot in each channel.
    pub open spec fn reaches(self, destination: Seq<char>) -> bool {
        &&& self.program@ == "ssh.exe"@
        &&& self.arguments@.len() == 3
        &&& self.arguments@[0]@ == destination
        &&& self.arguments@[1]@ == "/bin/bash"@
        &&& self.arguments@[2]@ == "--noediting"@
        &&& self.input == Wiring::Captured
        &&& self.output == Wiring::Inherited
        &&& self.errors == Wiring::Inherited
        &&& self.channel_capacity == CHANNEL_CAPACITY
    }

    /// Builds the plan for `destination`.
    pub fn for_destination(destination: &str) -> (plan: LaunchPlan)
        ensures
            plan.reaches(destination@),
    {
        let mut arguments: Vec<String> = Vec::new();
        arguments.push(destination.to_owned());
        arguments.push("/bin/bash".to_owned());
        arguments.push("--noediting".to_owned());
        LaunchPlan {
            program: "ssh.exe".to_owned(),
            arguments,
            input: Wiring::Captured,
            output: Wiring::Inherited,
            errors: Wiring::Inherited,
            channel_capacity: CHANNEL_CAPACITY,
        }
    }
}

} // verus!
