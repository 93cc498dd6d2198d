//! The writer, step by step.

use shell_session::{
    SessionError, WriteFailure, WriteOutcome, WritePhase, Writer, WriterAction, WriterEvent,
    WriterState, LINE_TERMINATOR,
};

fn failed(reason: &str) -> WriterEvent {
    WriterEvent::StepFailed(String::from(reason))
}

fn failure(phase: WritePhase, reason: &str) -> WriteOutcome {
    WriteOutcome::Failed(WriteFailure { phase, reason: String::from(reason) })
}

#[test]
fn writer_starts_by_waiting() {
    let (writer, action) = Writer::new();
    assert_eq!(writer.state(), WriterState::Waiting);
    assert_eq!(action, WriterAction::Receive);
    assert!(!writer.is_stopped());
}

#[test]
fn delivery_is_payload_terminator_flush_report() {
    let (mut writer, _) = Writer::new();
    assert_eq!(
        writer.step(WriterEvent::Command(b"ls".to_vec())),
        Some(WriterAction::WritePayload(b"ls".to_vec()))
    );
    assert_eq!(writer.state(), WriterState::Writing(WritePhase::Payload));
    assert_eq!(writer.step(WriterEvent::StepDone), Some(WriterAction::WriteTerminator));
    assert_eq!(writer.state(), WriterState::Writing(WritePhase::Terminator));
    assert_eq!(writer.step(WriterEvent::StepDone), Some(WriterAction::Flush));
    assert_eq!(writer.state(), WriterState::Writing(WritePhase::Flush));
    assert_eq!(
        writer.step(WriterEvent::StepDone),
        Some(WriterAction::Report(WriteOutcome::Delivered))
    );
    assert_eq!(writer.state(), WriterState::Reporting);
    assert_eq!(writer.step(WriterEvent::Reported), Some(WriterAction::Receive));
    assert_eq!(writer.state(), WriterState::Waiting);
}

#[test]
fn failed_payload_is_reported_at_once() {
    let (mut writer, _) = Writer::new();
    writer.step(WriterEvent::Command(b"ls".to_vec()));
    assert_eq!(
        writer.step(failed("broken pipe")),
        Some(WriterAction::Report(failure(WritePhase::Payload, "broken pipe")))
    );
    assert_eq!(writer.state(), WriterState::Reporting);
    assert_eq!(writer.step(WriterEvent::StepDone), None);
    assert_eq!(writer.step(WriterEvent::Reported), Some(WriterAction::Receive));
}

#[test]
fn failed_terminator_is_reported_at_once() {
    let (mut writer, _) = Writer::new();
    writer.step(WriterEvent::Command(b"ls".to_vec()));
    writer.step(WriterEvent::StepDone);
    assert_eq!(
        writer.step(failed("pipe closed")),
        Some(WriterAction::Report(failure(WritePhase::Terminator, "pipe closed")))
    );
    assert_eq!(writer.step(WriterEvent::Reported), Some(WriterAction::Receive));
}

#[test]
fn failed_flush_is_reported() {
    let (mut writer, _) = Writer::new();
    writer.step(WriterEvent::Command(b"ls".to_vec()));
    writer.step(WriterEvent::StepDone);
    writer.step(WriterEvent::StepDone);
    assert_eq!(
        writer.step(failed("flush failed")),
        Some(WriterAction::Report(failure(WritePhase::Flush, "flush failed")))
    );
    assert_eq!(writer.step(WriterEvent::Reported), Some(WriterAction::Receive));
}

#[test]
fn writer_takes_commands_after_a_failure() {
    let (mut writer, _) = Writer::new();
    writer.step(WriterEvent::Command(b"ls".to_vec()));
    writer.step(failed("broken pipe"));
    writer.step(WriterEvent::Reported);
    assert!(!writer.is_stopped());
    assert_eq!(
        writer.step(WriterEvent::Command(b"pwd".to_vec())),
        Some(WriterAction::WritePayload(b"pwd".to_vec()))
    );
}

#[test]
fn closed_command_channel_stops_the_writer() {
    let (mut writer, _) = Writer::new();
    assert_eq!(writer.step(WriterEvent::Disconnected), Some(WriterAction::Stop));
    assert_eq!(writer.state(), WriterState::Stopped);
    assert!(writer.is_stopped());
}

#[test]
fn stopped_writer_answers_no_event() {
    let (mut writer, _) = Writer::new();
    writer.step(WriterEvent::Disconnected);
    let events = vec![
        WriterEvent::Command(b"ls".to_vec()),
        WriterEvent::Disconnected,
        WriterEvent::StepDone,
        failed("x"),
        WriterEvent::Reported,
    ];
    for event in events {
        assert_eq!(writer.step(event), None);
        assert_eq!(writer.state(), WriterState::Stopped);
    }
}

#[test]
fn unexpected_events_change_nothing() {
    let (mut writer, _) = Writer::new();
    assert_eq!(writer.step(WriterEvent::StepDone), None);
    assert_eq!(writer.step(failed("x")), None);
    assert_eq!(writer.step(WriterEvent::Reported), None);
    assert_eq!(writer.state(), WriterState::Waiting);
    writer.step(WriterEvent::Command(b"ls".to_vec()));
    assert_eq!(writer.step(WriterEvent::Command(b"pwd".to_vec())), None);
    assert_eq!(writer.step(WriterEvent::Disconnected), None);
    assert_eq!(writer.step(WriterEvent::Reported), None);
    assert_eq!(writer.state(), WriterState::Writing(WritePhase::Payload));
}

#[test]
fn disconnect_during_report_is_not_a_stop() {
    let (mut writer, _) = Writer::new();
    writer.step(WriterEvent::Command(Vec::new()));
    writer.step(failed("x"));
    assert_eq!(writer.step(WriterEvent::Disconnected), None);
    assert_eq!(writer.state(), WriterState::Reporting);
}

#[test]
fn stream_bytes_of_each_action() {
    assert_eq!(LINE_TERMINATOR, b'\n');
    assert_eq!(WriterAction::WritePayload(b"ls -l".to_vec()).stream_bytes(), b"ls -l".to_vec());
    assert_eq!(WriterAction::WritePayload(vec![0, 255, 10]).stream_bytes(), vec![0, 255, 10]);
    assert_eq!(WriterAction::WriteTerminator.stream_bytes(), vec![10u8]);
    assert_eq!(WriterAction::Flush.stream_bytes(), Vec::<u8>::new());
    assert_eq!(WriterAction::Receive.stream_bytes(), Vec::<u8>::new());
    assert_eq!(WriterAction::Stop.stream_bytes(), Vec::<u8>::new());
    assert_eq!(
        WriterAction::Report(WriteOutcome::Delivered).stream_bytes(),
        Vec::<u8>::new()
    );
}

#[test]
fn outcome_as_result() {
    assert!(WriteOutcome::Delivered.is_delivered());
    assert_eq!(WriteOutcome::Delivered.into_result(), Ok(()));
    let outcome = failure(WritePhase::Terminator, "pipe closed");
    assert!(!outcome.is_delivered());
    assert_eq!(
        outcome.into_result(),
        Err(SessionError::Write(WriteFailure {
            phase: WritePhase::Terminator,
            reason: String::from("pipe closed"),
        }))
    );
}
