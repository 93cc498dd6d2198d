//! What reaches the input stream, and the laws that hold of it.
//!
//! The writer never touches the stream itself: it answers events with actions.
//! So the laws speak of runs. A run feeds a sequence of events to the writer
//! and collects the actions it answers with; the bytes that the write actions
//! carry, in order, are what the stream is handed.

use vstd::prelude::*;
use crate::outcome::{SessionError, WriteFailure, WriteOutcome, WritePhase};
use crate::session::{session_step, SessionAction, SessionEvent, SessionPhase};
use crate::writer::{writer_step, WriterAction, WriterEvent, WriterState, LINE_TERMINATOR};

verus! {

/// A state of the writer together with the actions it has answered with so far.
pub type Reached = (WriterState, Seq<WriterAction>);

/// One more event: the writer steps, and its action, if any, joins the others.
pub open spec fn writer_follow(reached: Reached, event: WriterEvent) -> Reached {
    let stepped = writer_step(reached.0, event);
    (
        stepped.0,
        match stepped.1 {
            Some(action) => reached.1.push(action),
            None => reached.1,
        },
    )
}

/// The state that the writer reaches from `state` over `events`, and the
/// actions it answers with on the way.
pub open spec fn writer_run(state: WriterState, events: Seq<WriterEvent>) -> Reached
    decreases events.len(),
{
    if events.len() == 0 {
        (state, Seq::empty())
    } else {
        writer_follow(writer_run(state, events.drop_last()), events.last())
    }
}

/// The bytes that a sequence of actions hands to the input stream.
pub open spec fn written(actions: Seq<WriterAction>) -> Seq<u8>
    decreases actions.len(),
{
    if actions.len() == 0 {
        Seq::empty()
    } else {
        written(actions.drop_last()) + actions.last().wire()
    }
}

/// The outcomes that a sequence of actions sends back, in order.
pub open spec fn reported(actions: Seq<WriterAction>) -> Seq<WriteOutcome>
    decreases actions.len(),
{
    if actions.len() == 0 {
        Seq::empty()
    } else {
        match actions.last() {
            WriterAction::Report(outcome) => reported(actions.drop_last()).push(outcome),
            _ => reported(actions.drop_last()),
        }
    }
}

/// One command as the input stream took it: its bytes, and the first step
/// that failed, if one did.
pub struct Round {
    pub payload: Vec<u8>,
    pub failure: Option<WriteFailure>,
}

impl Round {
    /// The outcome that is owed for the round.
    pub open spec fn outcome(self) -> WriteOutcome {
        match self.failure {
            None => WriteOutcome::Delivered,
            Some(failure) => WriteOutcome::Failed(failure),
        }
    }

    /// What the command puts on an input stream that takes it whole: its
    /// bytes and one line terminator.
    pub open spec fn line(self) -> Seq<u8> {
        self.payload@.push(LINE_TERMINATOR)
    }

    /// The events that the writer's driver reports in the round: the command,
    /// a completion for each step before the failing one, the failure if there
    /// is one, and the handing over of the outcome.
    pub open spec fn events(self) -> Seq<WriterEvent> {
        match self.failure {
            None => Seq::<WriterEvent>::empty()
                .push(WriterEvent::Command(self.payload))
                .push(WriterEvent::StepDone)
                .push(WriterEvent::StepDone)
                .push(WriterEvent::StepDone)
                .push(WriterEvent::Reported),
            Some(failure) => match failure.phase {
                WritePhase::Payload => Seq::<WriterEvent>::empty()
                    .push(WriterEvent::Command(self.payload))
                    .push(WriterEvent::StepFailed(failure.reason))
                    .push(WriterEvent::Reported),
                WritePhase::Terminator => Seq::<WriterEvent>::empty()
                    .push(WriterEvent::Command(self.payload))
                    .push(WriterEvent::StepDone)
                    .push(WriterEvent::StepFailed(failure.reason))
                    .push(WriterEvent::Reported),
                WritePhase::Flush => Seq::<WriterEvent>::empty()
                    .push(WriterEvent::Command(self.payload))
                    .push(WriterEvent::StepDone)
                    .push(WriterEvent::StepDone)
                    .push(WriterEvent::StepFailed(failure.reason))
                    .push(WriterEvent::Reported),
            },
        }
    }

    /// The actions that are owed for the round: the steps up to and with the
    /// failing one, none after it, one report, and the wait for the next
    /// command.
    pub open spec fn actions(self) -> Seq<WriterAction> {
        match self.failure {
            None => Seq::<WriterAction>::empty()
                .push(WriterAction::WritePayload(self.payload))
                .push(WriterAction::WriteTerminator)
                .push(WriterAction::Flush)
                .push(WriterAction::Report(WriteOutcome::Delivered))
                .push(WriterAction::Receive),
            Some(failure) => match failure.phase {
                WritePhase::Payload => Seq::<WriterAction>::empty()
                    .push(WriterAction::WritePayload(self.payload))
                    .push(WriterAction::Report(WriteOutcome::Failed(failure)))
                    .push(WriterAction::Receive),
                WritePhase::Terminator => Seq::<WriterAction>::empty()
                    .push(WriterAction::WritePayload(self.payload))
                    .push(WriterAction::WriteTerminator)
                    .push(WriterAction::Report(WriteOutcome::Failed(failure)))
                    .push(WriterAction::Receive),
                WritePhase::Flush => Seq::<WriterAction>::empty()
                    .push(WriterAction::WritePayload(self.payload))
                    .push(WriterAction::WriteTerminator)
                    .push(WriterAction::Flush)
                    .push(WriterAction::Report(WriteOutcome::Failed(failure)))
                    .push(WriterAction::Receive),
            },
        }
    }
}

/// The events of a whole session's rounds, one round after the other.
pub open spec fn events_of(rounds: Seq<Round>) -> Seq<WriterEvent>
    decreases rounds.len(),
{
    if rounds.len() == 0 {
        Seq::empty()
    } else {
        events_of(rounds.drop_last()) + rounds.last().events()
    }
}

/// The actions that are owed for a whole session's rounds.
pub open spec fn actions_of(rounds: Seq<Round>) -> Seq<WriterAction>
    decreases rounds.len(),
{
    if rounds.len() == 0 {
        Seq::empty()
    } else {
        actions_of(rounds.drop_last()) + rounds.last().actions()
    }
}

/// The lines of the rounds' commands, one after the other.
pub open spec fn lines_of(rounds: Seq<Round>) -> Seq<u8>
    decreases rounds.len(),
{
    if rounds.len() == 0 {
        Seq::empty()
    } else {
        lines_of(rounds.drop_last()) + rounds.last().line()
    }
}

/// Whether no step failed in any of the rounds.
pub open spec fn undisturbed(rounds: Seq<Round>) -> bool {
    forall|i: int| 0 <= i < rounds.len() ==> (#[trigger] rounds[i]).failure is None
}

/// A run over one more event is the run without it, followed by that event.
pub proof fn lemma_run_push(state: WriterState, events: Seq<WriterEvent>, event: WriterEvent)
    ensures
        writer_run(state, events.push(event)) == writer_follow(writer_run(state, events), event),
{
    assert(events.push(event).drop_last() =~= events);
}

/// A run over two sequences of events is the run over the first, continued
/// over the second from the state that the first reached.
pub proof fn lemma_run_concat(state: WriterState, first: Seq<WriterEvent>, second: Seq<WriterEvent>)
    ensures
        writer_run(state, first + second) == ({
            let head = writer_run(state, first);
            let tail = writer_run(head.0, second);
            (tail.0, head.1 + tail.1)
        }),
    decreases second.len(),
{
    let head = writer_run(state, first);
    if second.len() == 0 {
        assert(first + second =~= first);
        assert(head.1 + Seq::<WriterAction>::empty() =~= head.1);
    } else {
        lemma_run_concat(state, first, second.drop_last());
        assert((first + second).drop_last() =~= first + second.drop_last());
        let tail = writer_run(head.0, second.drop_last());
        match writer_step(tail.0, second.last()).1 {
            Some(action) => {
                assert((head.1 + tail.1).push(action) =~= head.1 + tail.1.push(action));
            },
            None => {},
        }
    }
}

/// The bytes of two sequences of actions are those of the first, then those
/// of the second.
pub proof fn lemma_written_concat(first: Seq<WriterAction>, second: Seq<WriterAction>)
    ensures
        written(first + second) == written(first) + written(second),
    decreases second.len(),
{
    if second.len() == 0 {
        assert(first + second =~= first);
        assert(written(first) + Seq::<u8>::empty() =~= written(first));
    } else {
        lemma_written_concat(first, second.drop_last());
        assert((first + second).drop_last() =~= first + second.drop_last());
        assert((written(first) + written(second.drop_last())) + second.last().wire() =~= written(
            first,
        ) + (written(second.drop_last()) + second.last().wire()));
    }
}

/// The outcomes of two sequences of actions are those of the first, then
/// those of the second.
pub proof fn lemma_reported_concat(first: Seq<WriterAction>, second: Seq<WriterAction>)
    ensures
        reported(first + second) == reported(first) + reported(second),
    decreases second.len(),
{
    if second.len() == 0 {
        assert(first + second =~= first);
        assert(reported(first) + Seq::<WriteOutcome>::empty() =~= reported(first));
    } else {
        lemma_reported_concat(first, second.drop_last());
        assert((first + second).drop_last() =~= first + second.drop_last());
        match second.last() {
            WriterAction::Report(outcome) => {
                assert((reported(first) + reported(second.drop_last())).push(outcome) =~= reported(
                    first,
                ) + reported(second.drop_last()).push(outcome));
            },
            _ => {},
        }
    }
}

/// The bytes of one more action follow those of the actions before it.
pub proof fn lemma_written_push(actions: Seq<WriterAction>, action: WriterAction)
    ensures
        written(actions.push(action)) == written(actions) + action.wire(),
{
    assert(actions.push(action).drop_last() =~= actions);
}

/// One more action adds its outcome, if it is a report, and nothing otherwise.
pub proof fn lemma_reported_push(actions: Seq<WriterAction>, action: WriterAction)
    ensures
        reported(actions.push(action)) == match action {
            WriterAction::Report(outcome) => reported(actions).push(outcome),
            _ => reported(actions),
        },
{
    assert(actions.push(action).drop_last() =~= actions);
}

/// A waiting writer serves one round as owed and waits again: the steps are
/// attempted in order up to the first that fails, exactly one outcome is
/// reported, and it is the round's. A round without a failure hands the
/// stream the command's line.
pub proof fn lemma_round(round: Round)
    ensures
        writer_run(WriterState::Waiting, round.events()) == (
            WriterState::Waiting,
            round.actions(),
        ),
        reported(round.actions()) == seq![round.outcome()],
        round.failure is None ==> written(round.actions()) == round.line(),
{
    let start = WriterState::Waiting;
    let command = WriterEvent::Command(round.payload);
    let done = WriterEvent::StepDone;
    let payload = WriterAction::WritePayload(round.payload);
    let terminator = WriterAction::WriteTerminator;
    let flush = WriterAction::Flush;
    let receive = WriterAction::Receive;
    let e0 = Seq::<WriterEvent>::empty();
    let e1 = e0.push(command);
    let a0 = Seq::<WriterAction>::empty();
    let a1 = a0.push(payload);
    lemma_run_push(start, e0, command);
    lemma_written_push(a0, payload);
    lemma_reported_push(a0, payload);
    match round.failure {
        None => {
            let report = WriterAction::Report(WriteOutcome::Delivered);
            let e2 = e1.push(done);
            let e3 = e2.push(done);
            let e4 = e3.push(done);
            let a2 = a1.push(terminator);
            let a3 = a2.push(flush);
            let a4 = a3.push(report);
            lemma_run_push(start, e1, done);
            lemma_run_push(start, e2, done);
            lemma_run_push(start, e3, done);
            lemma_run_push(start, e4, WriterEvent::Reported);
            lemma_written_push(a1, terminator);
            lemma_written_push(a2, flush);
            lemma_written_push(a3, report);
            lemma_written_push(a4, receive);
            lemma_reported_push(a1, terminator);
            lemma_reported_push(a2, flush);
            lemma_reported_push(a3, report);
            lemma_reported_push(a4, receive);
            assert(written(round.actions()) =~= round.line());
        },
        Some(failure) => {
            let failed = WriterEvent::StepFailed(failure.reason);
            let report = WriterAction::Report(WriteOutcome::Failed(failure));
            match failure.phase {
                WritePhase::Payload => {
                    let e2 = e1.push(failed);
                    let a2 = a1.push(report);
                    lemma_run_push(start, e1, failed);
                    lemma_run_push(start, e2, WriterEvent::Reported);
                    lemma_reported_push(a1, report);
                    lemma_reported_push(a2, receive);
                },
                WritePhase::Terminator => {
                    let e2 = e1.push(done);
                    let e3 = e2.push(failed);
                    let a2 = a1.push(terminator);
                    let a3 = a2.push(report);
                    lemma_run_push(start, e1, done);
                    lemma_run_push(start, e2, failed);
                    lemma_run_push(start, e3, WriterEvent::Reported);
                    lemma_reported_push(a1, terminator);
                    lemma_reported_push(a2, report);
                    lemma_reported_push(a3, receive);
                },
                WritePhase::Flush => {
                    let e2 = e1.push(done);
                    let e3 = e2.push(done);
                    let e4 = e3.push(failed);
                    let a2 = a1.push(terminator);
                    let a3 = a2.push(flush);
                    let a4 = a3.push(report);
                    lemma_run_push(start, e1, done);
                    lemma_run_push(start, e2, done);
                    lemma_run_push(start, e3, failed);
                    lemma_run_push(start, e4, WriterEvent::Reported);
                    lemma_reported_push(a1, terminator);
                    lemma_reported_push(a2, flush);
                    lemma_reported_push(a3, report);
                    lemma_reported_push(a4, receive);
                },
            }
        },
    }
    assert(reported(round.actions()) =~= seq![round.outcome()]);
}

/// Whatever fails on the way, the writer serves every command and stays in
/// its loop: over the events of any rounds a waiting writer answers with the
/// actions owed for them, round by round, and waits again.
pub proof fn lemma_writer_serves_every_round(rounds: Seq<Round>)
    ensures
        writer_run(WriterState::Waiting, events_of(rounds)) == (
            WriterState::Waiting,
            actions_of(rounds),
        ),
    decreases rounds.len(),
{
    if rounds.len() > 0 {
        lemma_writer_serves_every_round(rounds.drop_last());
        lemma_round(rounds.last());
        lemma_run_concat(
            WriterState::Waiting,
            events_of(rounds.drop_last()),
            rounds.last().events(),
        );
    }
}

/// Exactly one outcome is reported for each command, in the order of the
/// commands, and each is the outcome of its own round.
pub proof fn lemma_one_outcome_per_command(rounds: Seq<Round>)
    ensures
        reported(actions_of(rounds)).len() == rounds.len(),
        forall|i: int|
            0 <= i < rounds.len() ==> reported(actions_of(rounds))[i]
                == (#[trigger] rounds[i]).outcome(),
    decreases rounds.len(),
{
    if rounds.len() > 0 {
        lemma_one_outcome_per_command(rounds.drop_last());
        lemma_round(rounds.last());
        lemma_reported_concat(actions_of(rounds.drop_last()), rounds.last().actions());
        assert forall|i: int| 0 <= i < rounds.len() implies reported(actions_of(rounds))[i]
            == (#[trigger] rounds[i]).outcome() by {
            if i < rounds.len() - 1 {
                assert(rounds[i] == rounds.drop_last()[i]);
            }
        }
    }
}

/// When no step fails, the input stream is handed the line of every command,
/// each command's bytes followed by one line terminator, in the order in
/// which the commands were submitted, and nothing else.
pub proof fn lemma_undisturbed_stream(rounds: Seq<Round>)
    requires
        undisturbed(rounds),
    ensures
        written(actions_of(rounds)) == lines_of(rounds),
    decreases rounds.len(),
{
    if rounds.len() > 0 {
        assert forall|i: int| 0 <= i < rounds.drop_last().len() implies (
        #[trigger] rounds.drop_last()[i]).failure is None by {
            assert(rounds.drop_last()[i] == rounds[i]);
        }
        lemma_undisturbed_stream(rounds.drop_last());
        assert(rounds.last() == rounds[rounds.len() - 1]);
        lemma_round(rounds.last());
        lemma_written_concat(actions_of(rounds.drop_last()), rounds.last().actions());
    }
}

/// The lines of two runs of commands are those of the first run, whole, and
/// then those of the second.
pub proof fn lemma_lines_concat(earlier: Seq<Round>, later: Seq<Round>)
    ensures
        lines_of(earlier + later) == lines_of(earlier) + lines_of(later),
    decreases later.len(),
{
    if later.len() == 0 {
        assert(earlier + later =~= earlier);
        assert(lines_of(earlier) + Seq::<u8>::empty() =~= lines_of(earlier));
    } else {
        lemma_lines_concat(earlier, later.drop_last());
        assert((earlier + later).drop_last() =~= earlier + later.drop_last());
        assert((lines_of(earlier) + lines_of(later.drop_last())) + later.last().line()
            =~= lines_of(earlier) + (lines_of(later.drop_last()) + later.last().line()));
    }
}

/// Delivery in submission order. Over the events of any undisturbed rounds, a
/// waiting writer hands the stream exactly the commands' lines, reports a
/// delivery for each command, and waits again.
pub proof fn lemma_delivery_in_order(rounds: Seq<Round>)
    requires
        undisturbed(rounds),
    ensures
        writer_run(WriterState::Waiting, events_of(rounds)).0 == WriterState::Waiting,
        written(writer_run(WriterState::Waiting, events_of(rounds)).1) == lines_of(rounds),
        reported(writer_run(WriterState::Waiting, events_of(rounds)).1).len() == rounds.len(),
        forall|i: int|
            0 <= i < rounds.len() ==> #[trigger] reported(
                writer_run(WriterState::Waiting, events_of(rounds)).1,
            )[i] == WriteOutcome::Delivered,
{
    lemma_writer_serves_every_round(rounds);
    lemma_one_outcome_per_command(rounds);
    lemma_undisturbed_stream(rounds);
    assert forall|i: int| 0 <= i < rounds.len() implies #[trigger] reported(actions_of(rounds))[i]
        == WriteOutcome::Delivered by {
        assert(rounds[i].failure is None);
    }
}

/// No interleaving. When commands are submitted one after the other and no
/// step fails, all bytes of the earlier commands, terminators and all, stand
/// on the stream before the first byte of the later ones.
pub proof fn lemma_earlier_commands_come_first(earlier: Seq<Round>, later: Seq<Round>)
    requires
        undisturbed(earlier),
        undisturbed(later),
    ensures
        written(writer_run(WriterState::Waiting, events_of(earlier + later)).1) == lines_of(
            earlier,
        ) + lines_of(later),
{
    let rounds = earlier + later;
    assert forall|i: int| 0 <= i < rounds.len() implies (#[trigger] rounds[i]).failure is None by {
        if i < earlier.len() {
            assert(rounds[i] == earlier[i]);
        } else {
            assert(rounds[i] == later[i - earlier.len()]);
        }
    }
    lemma_delivery_in_order(rounds);
    lemma_lines_concat(earlier, later);
}

/// A submission succeeds exactly when its delivery completed. The writer
/// reports the round's own outcome and waits again; the session, handed that
/// outcome, is open again and returns success if no step failed, and the
/// failure of the step that failed otherwise. A stream that is already broken
/// fails the first step, so that submission ends in that write failure.
pub proof fn lemma_submission_follows_delivery(round: Round)
    ensures
        writer_run(WriterState::Waiting, round.events()).0 == WriterState::Waiting,
        reported(writer_run(WriterState::Waiting, round.events()).1) == seq![round.outcome()],
        session_step(SessionPhase::Receiving, SessionEvent::Outcome(round.outcome())) == (
            SessionPhase::Open,
            Some(SessionAction::Return(round.outcome().as_result())),
        ),
        round.outcome().as_result() is Ok <==> round.failure is None,
        round.failure matches Some(failure) ==> round.outcome().as_result() == Err::<
            (),
            SessionError,
        >(SessionError::Write(failure)),
{
    lemma_round(round);
}

} // verus!
