//! Clients that can talk to the daemon.
//!
//! `R` is the type of messages a client reads, `W` the type of messages it
//! writes, and `S` the connection it holds once connected.

use std::marker::PhantomData;
use vstd::prelude::*;

use super::{CodecError, CommunicationType, IoError, NoMessage, Ping, ReadError, ReadWriteError, Timeout, WriteError};

verus! {

/// A client of the daemon for one communication type.
pub struct Client<R, W, S> {
    comm_type: CommunicationType,
    rw: Option<S>,
    timeout: Timeout,
    messages: PhantomData<(R, W)>,
}

/// A failure of a connected client.
#[derive(Debug)]
pub enum Error {
    /// The client has no connection to the daemon.
    NotConnected,
    /// Sending or receiving a message failed.
    Message(ReadWriteError),
}

/// A failure to connect to the daemon.
#[derive(Debug)]
pub enum InitError {
    /// The socket could not connect.
    SocketConnect(IoError),
    /// The daemon did not acknowledge the connection.
    ServerHandshake(ReadWriteError),
}

/// A transfer on the connection of a client, with the client's timeout.
pub struct Transfer<S> {
    /// The connection to transfer on.
    pub rw: S,
    /// How long the transfer may take; `None` means forever.
    pub timeout: Timeout,
}

/// How far a client has come in connecting to the daemon.
#[derive(Debug)]
pub enum ConnectPhase {
    /// The socket is connecting.
    Connecting,
    /// The communication type is being sent.
    SendingType,
    /// The socket is being flushed.
    Flushing,
    /// The daemon's `ConnectionAccepted` is awaited.
    AwaitingAnswer,
    /// Connecting ended.
    Done,
}

/// What happened to the last thing the client did while connecting. A flush
/// or an answer that failed stops the program, so those events carry none.
#[derive(Debug)]
pub enum ConnectEvent {
    /// The socket connected, or failed to.
    SocketConnected(Result<(), IoError>),
    /// The communication type was sent, or sending it failed.
    TypeSent(Result<(), CodecError>),
    /// The socket was flushed.
    Flushed,
    /// The daemon answered `ConnectionAccepted`.
    AnswerReceived,
}

/// What the client does next while connecting.
#[derive(Debug)]
pub enum ConnectAction {
    /// Send this communication type to the daemon.
    SendType(CommunicationType),
    /// Flush the socket.
    Flush,
    /// Read the daemon's answer.
    ReadAnswer,
    /// Keep the connection: the client is connected.
    Finish,
    /// Give up with this error.
    Fail(InitError),
}

/// The event answers what the phase waits for.
pub open spec fn connect_event_fits(phase: ConnectPhase, event: ConnectEvent) -> bool {
    match phase {
        ConnectPhase::Connecting => event is SocketConnected,
        ConnectPhase::SendingType => event is TypeSent,
        ConnectPhase::Flushing => event is Flushed,
        ConnectPhase::AwaitingAnswer => event is AnswerReceived,
        ConnectPhase::Done => false,
    }
}

/// The client's protocol for connecting: connect the socket, send the
/// communication type, flush, and wait for the daemon's answer. Whether the
/// communication type could be sent is not looked at. An event that does not
/// answer what the phase waits for leaves the phase as it is.
pub open spec fn connect_next(comm_type: CommunicationType, phase: ConnectPhase, event: ConnectEvent) -> (ConnectPhase, ConnectAction) {
    match (phase, event) {
        (ConnectPhase::Connecting, ConnectEvent::SocketConnected(Ok(_))) =>
            (ConnectPhase::SendingType, ConnectAction::SendType(comm_type)),
        (ConnectPhase::Connecting, ConnectEvent::SocketConnected(Err(e))) =>
            (ConnectPhase::Done, ConnectAction::Fail(InitError::SocketConnect(e))),
        (ConnectPhase::SendingType, ConnectEvent::TypeSent(_)) => (ConnectPhase::Flushing, ConnectAction::Flush),
        (ConnectPhase::Flushing, ConnectEvent::Flushed) => (ConnectPhase::AwaitingAnswer, ConnectAction::ReadAnswer),
        (ConnectPhase::AwaitingAnswer, ConnectEvent::AnswerReceived) => (ConnectPhase::Done, ConnectAction::Finish),
        (p, _) => (p, ConnectAction::Flush),
    }
}

/// The phases reached and the actions taken when the events happen one after
/// the other; `None` when an event does not answer what its phase waits for.
pub open spec fn connect_run(comm_type: CommunicationType, phase: ConnectPhase, events: Seq<ConnectEvent>) -> Option<(ConnectPhase, Seq<ConnectAction>)>
    decreases events.len(),
{
    if events.len() == 0 {
        Some((phase, Seq::empty()))
    } else if !connect_event_fits(phase, events[0]) {
        None
    } else {
        let (next, action) = connect_next(comm_type, phase, events[0]);
        match connect_run(comm_type, next, events.drop_first()) {
            Some((last, actions)) => Some((last, seq![action] + actions)),
            None => None,
        }
    }
}

impl<R, W, S> Client<R, W, S> {
    /// The communication type of the client.
    pub closed spec fn kind(self) -> CommunicationType {
        self.comm_type
    }

    /// The connection of the client, if it is connected.
    pub closed spec fn connection(self) -> Option<S> {
        self.rw
    }

    /// How long a transfer of the client may take.
    pub closed spec fn time_limit(self) -> Timeout {
        self.timeout
    }

    /// "Bake" a client: set its communication type and message types.
    fn bake(timeout: Timeout, comm_type: CommunicationType) -> (r: Client<R, W, S>)
        ensures
            r.kind() == comm_type,
            r.connection() is None,
            r.time_limit() == timeout,
    {
        Client { comm_type, rw: None, timeout, messages: PhantomData }
    }

    /// The next phase and action of connecting to the daemon, given what happened.
    pub fn connect_step(&self, phase: ConnectPhase, event: ConnectEvent) -> (r: (ConnectPhase, ConnectAction))
        requires
            connect_event_fits(phase, event),
        ensures
            r == connect_next(self.kind(), phase, event),
    {
        match (phase, event) {
            (ConnectPhase::Connecting, ConnectEvent::SocketConnected(res)) => match res {
                Ok(_) => (ConnectPhase::SendingType, ConnectAction::SendType(self.comm_type)),
                Err(e) => (ConnectPhase::Done, ConnectAction::Fail(InitError::SocketConnect(e))),
            },
            (ConnectPhase::SendingType, ConnectEvent::TypeSent(_)) => (ConnectPhase::Flushing, ConnectAction::Flush),
            (ConnectPhase::Flushing, ConnectEvent::Flushed) => (ConnectPhase::AwaitingAnswer, ConnectAction::ReadAnswer),
            (ConnectPhase::AwaitingAnswer, ConnectEvent::AnswerReceived) => (ConnectPhase::Done, ConnectAction::Finish),
            (p, _) => (p, ConnectAction::Flush),
        }
    }

    /// The client once connected on `rw`: same communication type and timeout.
    pub fn connected(self, rw: S) -> (r: Client<R, W, S>)
        ensures
            r.kind() == self.kind(),
            r.connection() == Some(rw),
            r.time_limit() == self.time_limit(),
    {
        Client { comm_type: self.comm_type, rw: Some(rw), timeout: self.timeout, messages: PhantomData }
    }

    /// Where and how long to read a message: only a connected client reads.
    pub fn read_transfer(self) -> (r: Result<Transfer<S>, Error>)
        ensures
            match self.connection() {
                Some(rw) => r matches Ok(t) && t.rw == rw && t.timeout == self.time_limit(),
                None => r matches Err(e) && e is NotConnected,
            },
    {
        match self.rw {
            Some(rw) => Ok(Transfer { rw, timeout: self.timeout }),
            None => Err(Error::NotConnected),
        }
    }

    /// Where and how long to write a message: only a connected client writes.
    pub fn write_transfer(self) -> (r: Result<Transfer<S>, Error>)
        ensures
            match self.connection() {
                Some(rw) => r matches Ok(t) && t.rw == rw && t.timeout == self.time_limit(),
                None => r matches Err(e) && e is NotConnected,
            },
    {
        match self.rw {
            Some(rw) => Ok(Transfer { rw, timeout: self.timeout }),
            None => Err(Error::NotConnected),
        }
    }
}

impl Error {
    /// Receiving a message failed.
    pub fn from_read(e: ReadError) -> (r: Error)
        ensures
            r == Error::Message(ReadWriteError::R(e)),
    {
        Error::Message(ReadWriteError::R(e))
    }

    /// Sending a message failed.
    pub fn from_write(e: WriteError) -> (r: Error)
        ensures
            r == Error::Message(ReadWriteError::W(e)),
    {
        Error::Message(ReadWriteError::W(e))
    }
}

/// Client for the `Ping` communication type.
pub fn ping<S>(timeout: Timeout) -> (r: Client<NoMessage, Ping, S>)
    ensures
        r.kind() == CommunicationType::Ping,
        r.connection() is None,
        r.time_limit() == timeout,
{
    Client::bake(timeout, CommunicationType::Ping)
}

/// A client sends its own communication type first, and is connected once the
/// daemon answered: whether the communication type could be sent is not
/// looked at, and only a socket that does not connect makes connecting fail.
pub proof fn connect_sends_own_type(comm_type: CommunicationType, events: Seq<ConnectEvent>)
    requires
        connect_run(comm_type, ConnectPhase::Connecting, events) is Some,
    ensures
        connect_run(comm_type, ConnectPhase::Connecting, events) matches Some((last, actions)) && {
            &&& actions.len() == events.len() <= 4
            &&& (events.len() >= 1 && (events[0] matches ConnectEvent::SocketConnected(Ok(_))))
                ==> actions[0] == ConnectAction::SendType(comm_type)
            &&& events.len() == 4 ==> actions[3] is Finish && last is Done
            &&& forall|i: int| 0 <= i < actions.len() && #[trigger] actions[i] is Fail ==> {
                &&& i == 0
                &&& events[0] matches ConnectEvent::SocketConnected(Err(e))
                &&& actions[0] == ConnectAction::Fail(InitError::SocketConnect(e))
            }
        },
{
    reveal_with_fuel(connect_run, 6);
    if events.len() > 4 {
        assert(events.drop_first().drop_first().drop_first().drop_first().len() > 0);
    }
}

/// A socket that fails to connect ends connecting with that failure.
pub proof fn refused_socket_fails_connecting(comm_type: CommunicationType, e: IoError)
    ensures
        connect_next(comm_type, ConnectPhase::Connecting, ConnectEvent::SocketConnected(Err(e)))
            == (ConnectPhase::Done, ConnectAction::Fail(InitError::SocketConnect(e))),
{
}

/// Once the socket connected, the client sends its own communication type,
/// flushes, reads the answer and keeps the connection, whether or not the
/// communication type could be sent.
pub proof fn connecting_without_refusal(comm_type: CommunicationType, sent: Result<(), CodecError>)
    ensures
        connect_run(
            comm_type,
            ConnectPhase::Connecting,
            seq![
                ConnectEvent::SocketConnected(Ok(())),
                ConnectEvent::TypeSent(sent),
                ConnectEvent::Flushed,
                ConnectEvent::AnswerReceived,
            ],
        ) == Some((
            ConnectPhase::Done,
            seq![ConnectAction::SendType(comm_type), ConnectAction::Flush, ConnectAction::ReadAnswer, ConnectAction::Finish],
        )),
{
    let events = seq![
        ConnectEvent::SocketConnected(Ok(())),
        ConnectEvent::TypeSent(sent),
        ConnectEvent::Flushed,
        ConnectEvent::AnswerReceived,
    ];
    reveal_with_fuel(connect_run, 5);
    assert(events.drop_first().drop_first().drop_first().drop_first() =~= Seq::<ConnectEvent>::empty());
    assert(events.drop_first().drop_first().drop_first() =~= seq![ConnectEvent::AnswerReceived]);
    assert(events.drop_first().drop_first() =~= seq![ConnectEvent::Flushed, ConnectEvent::AnswerReceived]);
    assert(events.drop_first() =~= seq![
        ConnectEvent::TypeSent(sent),
        ConnectEvent::Flushed,
        ConnectEvent::AnswerReceived,
    ]);
    assert(seq![ConnectAction::Finish] =~= seq![ConnectAction::Finish] + Seq::<ConnectAction>::empty());
    assert(seq![ConnectAction::ReadAnswer, ConnectAction::Finish]
        =~= seq![ConnectAction::ReadAnswer] + seq![ConnectAction::Finish]);
    assert(seq![ConnectAction::Flush, ConnectAction::ReadAnswer, ConnectAction::Finish]
        =~= seq![ConnectAction::Flush] + seq![ConnectAction::ReadAnswer, ConnectAction::Finish]);
    assert(seq![ConnectAction::SendType(comm_type), ConnectAction::Flush, ConnectAction::ReadAnswer, ConnectAction::Finish]
        =~= seq![ConnectAction::SendType(comm_type)] + seq![ConnectAction::Flush, ConnectAction::ReadAnswer, ConnectAction::Finish]);
}

} // verus!
