use lorri::communicate::client::{ping, ConnectAction, ConnectEvent, ConnectPhase, Error, InitError};
use lorri::communicate::{CodecError, CommunicationType, IoError, IoErrorKind, ReadError, ReadWriteError, Span, WriteError};

#[test]
fn ping_client_is_not_connected() {
    let c = ping::<u32>(None);
    assert!(matches!(c.write_transfer(), Err(Error::NotConnected)));
    let c = ping::<u32>(Some(Span { secs: 1, nanos: 0 }));
    assert!(matches!(c.read_transfer(), Err(Error::NotConnected)));
}

#[test]
fn connected_client_transfers_with_its_timeout() {
    let c = ping::<u32>(Some(Span { secs: 2, nanos: 5 })).connected(42);
    match c.write_transfer() {
        Ok(t) => {
            assert_eq!(t.rw, 42);
            assert_eq!(t.timeout, Some(Span { secs: 2, nanos: 5 }));
        }
        Err(e) => panic!("{:?}", e),
    }
    let c = ping::<u32>(None).connected(7);
    match c.read_transfer() {
        Ok(t) => {
            assert_eq!(t.rw, 7);
            assert_eq!(t.timeout, None);
        }
        Err(e) => panic!("{:?}", e),
    }
}

#[test]
fn connect_sends_ping_type() {
    let c = ping::<u32>(None);
    let (p, a) = c.connect_step(ConnectPhase::Connecting, ConnectEvent::SocketConnected(Ok(())));
    assert!(matches!(p, ConnectPhase::SendingType));
    assert!(matches!(a, ConnectAction::SendType(CommunicationType::Ping)));
    let (p, a) = c.connect_step(p, ConnectEvent::TypeSent(Ok(())));
    assert!(matches!(p, ConnectPhase::Flushing));
    assert!(matches!(a, ConnectAction::Flush));
    let (p, a) = c.connect_step(p, ConnectEvent::Flushed);
    assert!(matches!(p, ConnectPhase::AwaitingAnswer));
    assert!(matches!(a, ConnectAction::ReadAnswer));
    let (p, a) = c.connect_step(p, ConnectEvent::AnswerReceived);
    assert!(matches!(p, ConnectPhase::Done));
    assert!(matches!(a, ConnectAction::Finish));
}

#[test]
fn connect_ignores_failed_type_send() {
    let c = ping::<u32>(None);
    let (p, a) = c.connect_step(ConnectPhase::SendingType, ConnectEvent::TypeSent(Err(CodecError::SizeLimit)));
    assert!(matches!(p, ConnectPhase::Flushing));
    assert!(matches!(a, ConnectAction::Flush));
}

#[test]
fn connect_fails_when_socket_does_not_connect() {
    let c = ping::<u32>(None);
    let err = IoError { kind: IoErrorKind::ConnectionRefused, description: String::from("refused") };
    let (p, a) = c.connect_step(ConnectPhase::Connecting, ConnectEvent::SocketConnected(Err(err)));
    assert!(matches!(p, ConnectPhase::Done));
    assert!(matches!(a, ConnectAction::Fail(InitError::SocketConnect(IoError { kind: IoErrorKind::ConnectionRefused, .. }))));
}

#[test]
fn client_errors_wrap_message_errors() {
    assert!(matches!(Error::from_read(ReadError::Timeout), Error::Message(ReadWriteError::R(ReadError::Timeout))));
    assert!(matches!(Error::from_write(WriteError::Timeout), Error::Message(ReadWriteError::W(WriteError::Timeout))));
}
