use lorri::communicate::daemon::{accept_step, AcceptAction, AcceptError, AcceptEvent, AcceptPhase};
use lorri::communicate::{CodecError, CommunicationType, IoError, IoErrorKind, ReadError, ReadWriteError, WriteError};

fn io(kind: IoErrorKind) -> IoError {
    IoError { kind, description: String::from("failure") }
}

#[test]
fn accept_hands_over_the_type_read() {
    let (p, a) = accept_step(AcceptPhase::Listening, AcceptEvent::Connected(Ok(())));
    assert!(matches!(p, AcceptPhase::ReadingType));
    assert!(matches!(a, AcceptAction::ReadType));
    let (p, a) = accept_step(p, AcceptEvent::TypeRead(Ok(CommunicationType::Ping)));
    assert!(matches!(p, AcceptPhase::Answering(CommunicationType::Ping)));
    assert!(matches!(a, AcceptAction::SendAnswer));
    let (p, a) = accept_step(p, AcceptEvent::AnswerSent(Ok(())));
    assert!(matches!(p, AcceptPhase::Flushing(CommunicationType::Ping)));
    assert!(matches!(a, AcceptAction::Flush));
    let (p, a) = accept_step(p, AcceptEvent::Flushed(Ok(())));
    assert!(matches!(p, AcceptPhase::Done));
    assert!(matches!(a, AcceptAction::Spawn(CommunicationType::Ping)));
}

#[test]
fn accept_failure_of_socket() {
    let (p, a) = accept_step(AcceptPhase::Listening, AcceptEvent::Connected(Err(io(IoErrorKind::Interrupted))));
    assert!(matches!(p, AcceptPhase::Done));
    assert!(matches!(a, AcceptAction::Fail(AcceptError::Accept(IoError { kind: IoErrorKind::Interrupted, .. }))));
}

#[test]
fn accept_failure_to_read_type() {
    let (p, a) = accept_step(AcceptPhase::ReadingType, AcceptEvent::TypeRead(Err(CodecError::InvalidTagEncoding(3))));
    assert!(matches!(p, AcceptPhase::Done));
    assert!(matches!(
        a,
        AcceptAction::Fail(AcceptError::Message(ReadWriteError::R(ReadError::Deserialize(CodecError::InvalidTagEncoding(3)))))
    ));
}

#[test]
fn accept_read_timeout_is_not_told_apart() {
    let (_, a) = accept_step(
        AcceptPhase::ReadingType,
        AcceptEvent::TypeRead(Err(CodecError::Io(io(IoErrorKind::TimedOut)))),
    );
    assert!(matches!(
        a,
        AcceptAction::Fail(AcceptError::Message(ReadWriteError::R(ReadError::Deserialize(CodecError::Io(_)))))
    ));
}

#[test]
fn accept_failure_to_answer() {
    let (p, a) = accept_step(AcceptPhase::Answering(CommunicationType::Ping), AcceptEvent::AnswerSent(Err(CodecError::SizeLimit)));
    assert!(matches!(p, AcceptPhase::Done));
    assert!(matches!(
        a,
        AcceptAction::Fail(AcceptError::Message(ReadWriteError::W(WriteError::Serialize(CodecError::SizeLimit))))
    ));
}

#[test]
fn accept_failure_to_flush() {
    let (p, a) = accept_step(AcceptPhase::Flushing(CommunicationType::Ping), AcceptEvent::Flushed(Err(io(IoErrorKind::BrokenPipe))));
    assert!(matches!(p, AcceptPhase::Done));
    assert!(matches!(a, AcceptAction::Fail(AcceptError::Accept(IoError { kind: IoErrorKind::BrokenPipe, .. }))));
}
