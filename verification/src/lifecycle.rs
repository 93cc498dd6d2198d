//! Laws of the two machines' lives: how a session closes, that nothing
//! happens after it has closed, and when the writer leaves its loop.

use vstd::prelude::*;
use crate::outcome::{ChannelSide, SessionError, WritePhase};
use crate::session::{session_step, SessionAction, SessionEvent, SessionPhase};
use crate::writer::{writer_step, WriterAction, WriterEvent, WriterState};

verus! {

/// A phase of a session together with the actions it has answered with so far.
pub type Course = (SessionPhase, Seq<SessionAction>);

/// One more event: the session steps, and its action, if any, joins the others.
pub open spec fn session_follow(course: Course, event: SessionEvent) -> Course {
    let stepped = session_step(course.0, event);
    (
        stepped.0,
        match stepped.1 {
            Some(action) => course.1.push(action),
            None => course.1,
        },
    )
}

/// The phase that a session reaches from `phase` over `events`, and the
/// actions it answers with on the way.
pub open spec fn session_run(phase: SessionPhase, events: Seq<SessionEvent>) -> Course
    decreases events.len(),
{
    if events.len() == 0 {
        (phase, Seq::empty())
    } else {
        session_follow(session_run(phase, events.drop_last()), events.last())
    }
}

/// The phase that a session reaches from `phase` over `events`.
pub open spec fn session_phase_after(
    phase: SessionPhase,
    events: Seq<SessionEvent>,
) -> SessionPhase {
    session_run(phase, events).0
}

/// The courses that a close can take from the moment it has begun: nothing
/// done yet; the sender dropped and the wait asked for; the process gone and
/// the join asked for; the writer joined and success returned; or the wait
/// failed and that failure returned, with no join.
pub open spec fn close_course(course: Course) -> bool {
    let begun = Seq::<SessionAction>::empty();
    let waiting = begun.push(SessionAction::WaitChild);
    let joining = waiting.push(SessionAction::JoinWorker);
    ||| course == (SessionPhase::Releasing, begun)
    ||| course == (SessionPhase::Waiting, waiting)
    ||| course == (SessionPhase::Joining, joining)
    ||| course == (SessionPhase::Closed, joining.push(SessionAction::Return(Ok(()))))
    ||| {
        &&& course.0 == SessionPhase::Closed
        &&& course.1.len() == 2
        &&& course.1[0] == SessionAction::WaitChild
        &&& course.1[1] matches SessionAction::Return(Err(SessionError::Process(_)))
    }
}

/// The courses that a submission can take from the moment its command is
/// being sent: nothing done yet; the command sent and its outcome awaited;
/// the command channel found closed and that returned; or the outcome
/// awaited and then one result returned, with the session open again.
pub open spec fn submission_course(course: Course) -> bool {
    let begun = Seq::<SessionAction>::empty();
    ||| course == (SessionPhase::Sending, begun)
    ||| course == (SessionPhase::Receiving, begun.push(SessionAction::Receive))
    ||| course == (
        SessionPhase::Open,
        begun.push(SessionAction::Return(Err(SessionError::Channel(ChannelSide::Command)))),
    )
    ||| {
        &&& course.0 == SessionPhase::Open
        &&& course.1.len() == 2
        &&& course.1[0] == SessionAction::Receive
        &&& course.1[1] is Return
        &&& course.1[1] != SessionAction::Return(Err(SessionError::Channel(ChannelSide::Command)))
    }
}

/// Whether the phase belongs to a session on which a close has begun or
/// ended.
pub open spec fn closing_or_closed(phase: SessionPhase) -> bool {
    phase == SessionPhase::Releasing || phase == SessionPhase::Waiting || phase
        == SessionPhase::Joining || phase == SessionPhase::Closed
}

/// A closed session answers no event.
pub proof fn lemma_closed_is_final(event: SessionEvent)
    ensures
        session_step(SessionPhase::Closed, event) == (SessionPhase::Closed, None::<SessionAction>),
{
}

/// Whatever events follow, a closed session stays closed.
pub proof fn lemma_closed_stays_closed(events: Seq<SessionEvent>)
    ensures
        session_phase_after(SessionPhase::Closed, events) == SessionPhase::Closed,
    decreases events.len(),
{
    if events.len() > 0 {
        lemma_closed_stays_closed(events.drop_last());
    }
}

/// Once a close has begun, the session never opens again, whatever events
/// follow: no later submission finds it open.
pub proof fn lemma_close_is_for_good(phase: SessionPhase, events: Seq<SessionEvent>)
    requires
        closing_or_closed(phase),
    ensures
        closing_or_closed(session_phase_after(phase, events)),
    decreases events.len(),
{
    if events.len() > 0 {
        lemma_close_is_for_good(phase, events.drop_last());
    }
}

/// No event makes a session send a command, and none begins a close: a
/// command leaves only through a submission, which an open session alone
/// accepts.
pub proof fn lemma_events_send_nothing(phase: SessionPhase, event: SessionEvent)
    ensures
        !(session_step(phase, event).1 matches Some(SessionAction::Send(_))),
        session_step(phase, event).1 != Some(SessionAction::DropSender),
        session_step(phase, event).0 == SessionPhase::Releasing ==> phase
            == SessionPhase::Releasing,
{
}

/// A close keeps its order. It ends in success only when the writer's thread
/// was joined; the join is asked for only when the transport process has
/// exited; the wait for the process is asked for only when the sending end of
/// the command channel was dropped. A wait that fails ends the close at once,
/// with that failure and without a join.
pub proof fn lemma_close_keeps_its_order(phase: SessionPhase, event: SessionEvent)
    ensures
        closing_or_closed(phase) && session_step(phase, event).1 == Some(
            SessionAction::Return(Ok(())),
        ) ==> phase == SessionPhase::Joining && event == SessionEvent::WorkerJoined
            && session_step(phase, event).0 == SessionPhase::Closed,
        session_step(phase, event).1 == Some(SessionAction::JoinWorker) ==> phase
            == SessionPhase::Waiting && event == SessionEvent::ChildExited,
        session_step(phase, event).1 == Some(SessionAction::WaitChild) ==> phase
            == SessionPhase::Releasing && event == SessionEvent::SenderDropped,
        phase == SessionPhase::Waiting && event is WaitFailed ==> session_step(phase, event).0
            == SessionPhase::Closed && session_step(phase, event).1 is Some
            && session_step(phase, event).1 != Some(SessionAction::JoinWorker),
{
}

/// Whatever events arrive once a submission has begun, the submission takes
/// one of its courses: it returns at most once, and it returns a write
/// outcome only after the command was sent and the outcome was awaited.
pub proof fn lemma_submission_takes_its_course(events: Seq<SessionEvent>)
    ensures
        submission_course(session_run(SessionPhase::Sending, events)),
    decreases events.len(),
{
    if events.len() > 0 {
        lemma_submission_takes_its_course(events.drop_last());
    }
}

/// Whatever events arrive once a close has begun, the close takes one of its
/// courses: the actions come in the fixed order of wait, join, return, and
/// none is repeated or left out.
pub proof fn lemma_close_takes_its_course(events: Seq<SessionEvent>)
    ensures
        close_course(session_run(SessionPhase::Releasing, events)),
    decreases events.len(),
{
    if events.len() > 0 {
        lemma_close_takes_its_course(events.drop_last());
    }
}

/// A close that has returned success has waited for the transport process to
/// exit and has joined the writer's thread, in that order, and has left the
/// session closed.
pub proof fn lemma_successful_close_has_waited_and_joined(events: Seq<SessionEvent>)
    requires
        session_run(SessionPhase::Releasing, events).1.len() > 0,
        session_run(SessionPhase::Releasing, events).1.last() == SessionAction::Return(Ok(())),
    ensures
        session_run(SessionPhase::Releasing, events) == (
            SessionPhase::Closed,
            Seq::<SessionAction>::empty().push(SessionAction::WaitChild).push(
                SessionAction::JoinWorker,
            ).push(SessionAction::Return(Ok(()))),
        ),
{
    lemma_close_takes_its_course(events);
}

/// The writer leaves its loop on one signal only: the command channel found
/// closed while it waits for a command. A failed step does not end the loop;
/// it leads to the report of that failure.
pub proof fn lemma_writer_stops_only_on_disconnect(state: WriterState, event: WriterEvent)
    ensures
        state != WriterState::Stopped && writer_step(state, event).0 == WriterState::Stopped
            ==> state == WriterState::Waiting && event == WriterEvent::Disconnected,
        writer_step(state, event).1 == Some(WriterAction::Stop) ==> state == WriterState::Waiting
            && event == WriterEvent::Disconnected,
        event is StepFailed ==> writer_step(state, event).0 != WriterState::Stopped || state
            == WriterState::Stopped,
        writer_step(WriterState::Stopped, event) == (WriterState::Stopped, None::<WriterAction>),
{
}

/// Only the writer's own three steps put bytes on the stream, and only while
/// a command is being delivered: a write is asked for in answer to a command
/// received while waiting, or to the completion of the step before it.
pub proof fn lemma_writes_belong_to_a_command(state: WriterState, event: WriterEvent)
    ensures
        writer_step(state, event).1 matches Some(action) && action.wire().len() > 0 ==> (state
            == WriterState::Waiting && event is Command) || (state == WriterState::Writing(
            WritePhase::Payload,
        ) && event == WriterEvent::StepDone),
{
}

} // verus!
