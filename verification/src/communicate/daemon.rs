//! The daemon's side of a connection: it accepts a client, learns what the
//! client wants to communicate, and answers that the connection was accepted.

use vstd::prelude::*;

use super::{CodecError, CommunicationType, IoError, ReadError, ReadWriteError, WriteError};

verus! {

/// The server only ever answers if a connection attempt was accepted.
#[derive(Debug)]
pub struct ConnectionAccepted();

/// A failure to accept a connection.
#[derive(Debug)]
pub enum AcceptError {
    /// Something went wrong in the `accept()` call or on the accepted socket.
    Accept(IoError),
    /// The communication type could not be read, or the answer not sent.
    Message(ReadWriteError),
}

/// The socket could not be bound.
#[derive(Debug)]
pub struct BindError(pub IoError);

/// How far the daemon has come in accepting a connection.
#[derive(Debug)]
pub enum AcceptPhase {
    /// Waiting for a client to connect.
    Listening,
    /// A client connected; its communication type is awaited.
    ReadingType,
    /// The communication type was read; the answer is being sent.
    Answering(CommunicationType),
    /// The answer was sent; the socket is being flushed.
    Flushing(CommunicationType),
    /// The connection was handed over, or accepting it failed.
    Done,
}

/// What happened to the last thing the daemon did.
#[derive(Debug)]
pub enum AcceptEvent {
    /// A client connected, or accepting failed.
    Connected(Result<(), IoError>),
    /// The client's communication type was read, or reading it failed.
    TypeRead(Result<CommunicationType, CodecError>),
    /// The answer was sent, or sending it failed.
    AnswerSent(Result<(), CodecError>),
    /// The socket was flushed, or flushing it failed.
    Flushed(Result<(), IoError>),
}

/// What the daemon does next.
#[derive(Debug)]
pub enum AcceptAction {
    /// Read the client's communication type.
    ReadType,
    /// Send `ConnectionAccepted` to the client.
    SendAnswer,
    /// Flush the socket.
    Flush,
    /// Hand the socket and its communication type to the handler.
    Spawn(CommunicationType),
    /// Give up with this error.
    Fail(AcceptError),
}

/// The event answers what the phase waits for.
pub open spec fn event_fits(phase: AcceptPhase, event: AcceptEvent) -> bool {
    match phase {
        AcceptPhase::Listening => event is Connected,
        AcceptPhase::ReadingType => event is TypeRead,
        AcceptPhase::Answering(_) => event is AnswerSent,
        AcceptPhase::Flushing(_) => event is Flushed,
        AcceptPhase::Done => false,
    }
}

/// The daemon's protocol for accepting a connection: accept the socket, read
/// the first message as a `CommunicationType`, answer `ConnectionAccepted`,
/// flush, and hand over; the first failure ends it. An event that does not
/// answer what the phase waits for leaves the phase as it is.
pub open spec fn accept_next(phase: AcceptPhase, event: AcceptEvent) -> (AcceptPhase, AcceptAction) {
    match (phase, event) {
        (AcceptPhase::Listening, AcceptEvent::Connected(Ok(_))) => (AcceptPhase::ReadingType, AcceptAction::ReadType),
        (AcceptPhase::Listening, AcceptEvent::Connected(Err(e))) =>
            (AcceptPhase::Done, AcceptAction::Fail(AcceptError::Accept(e))),
        (AcceptPhase::ReadingType, AcceptEvent::TypeRead(Ok(t))) => (AcceptPhase::Answering(t), AcceptAction::SendAnswer),
        (AcceptPhase::ReadingType, AcceptEvent::TypeRead(Err(e))) =>
            (AcceptPhase::Done, AcceptAction::Fail(AcceptError::Message(ReadWriteError::R(ReadError::Deserialize(e))))),
        (AcceptPhase::Answering(t), AcceptEvent::AnswerSent(Ok(_))) => (AcceptPhase::Flushing(t), AcceptAction::Flush),
        (AcceptPhase::Answering(_), AcceptEvent::AnswerSent(Err(e))) =>
            (AcceptPhase::Done, AcceptAction::Fail(AcceptError::Message(ReadWriteError::W(WriteError::Serialize(e))))),
        (AcceptPhase::Flushing(t), AcceptEvent::Flushed(Ok(_))) => (AcceptPhase::Done, AcceptAction::Spawn(t)),
        (AcceptPhase::Flushing(_), AcceptEvent::Flushed(Err(e))) =>
            (AcceptPhase::Done, AcceptAction::Fail(AcceptError::Accept(e))),
        (p, _) => (p, AcceptAction::ReadType),
    }
}

/// The next phase and action of accepting a connection, given what happened.
pub fn accept_step(phase: AcceptPhase, event: AcceptEvent) -> (r: (AcceptPhase, AcceptAction))
    requires
        event_fits(phase, event),
    ensures
        r == accept_next(phase, event),
{
    match (phase, event) {
        (AcceptPhase::Listening, AcceptEvent::Connected(res)) => match res {
            Ok(_) => (AcceptPhase::ReadingType, AcceptAction::ReadType),
            Err(e) => (AcceptPhase::Done, AcceptAction::Fail(AcceptError::Accept(e))),
        },
        (AcceptPhase::ReadingType, AcceptEvent::TypeRead(res)) => match res {
            Ok(t) => (AcceptPhase::Answering(t), AcceptAction::SendAnswer),
            Err(e) => (
                AcceptPhase::Done,
                AcceptAction::Fail(AcceptError::Message(ReadWriteError::R(ReadError::Deserialize(e)))),
            ),
        },
        (AcceptPhase::Answering(t), AcceptEvent::AnswerSent(res)) => match res {
            Ok(_) => (AcceptPhase::Flushing(t), AcceptAction::Flush),
            Err(e) => (
                AcceptPhase::Done,
                AcceptAction::Fail(AcceptError::Message(ReadWriteError::W(WriteError::Serialize(e)))),
            ),
        },
        (AcceptPhase::Flushing(t), AcceptEvent::Flushed(res)) => match res {
            Ok(_) => (AcceptPhase::Done, AcceptAction::Spawn(t)),
            Err(e) => (AcceptPhase::Done, AcceptAction::Fail(AcceptError::Accept(e))),
        },
        (p, _) => (p, AcceptAction::ReadType),
    }
}


/// The phase reached and the actions taken when the events happen one after
/// the other from `phase`; `None` when an event does not answer what its
/// phase waits for.
pub open spec fn accept_run(phase: AcceptPhase, events: Seq<AcceptEvent>) -> Option<(AcceptPhase, Seq<AcceptAction>)>
    decreases events.len(),
{
    if events.len() == 0 {
        Some((phase, Seq::empty()))
    } else if !event_fits(phase, events[0]) {
        None
    } else {
        let (next, action) = accept_next(phase, events[0]);
        match accept_run(next, events.drop_first()) {
            Some((last, actions)) => Some((last, seq![action] + actions)),
            None => None,
        }
    }
}

/// A connection is handed over only after it was accepted, its communication
/// type was read, the answer was sent and the socket flushed, in that order;
/// the handler gets the communication type that was read.
pub proof fn handler_gets_type_read(events: Seq<AcceptEvent>, t: CommunicationType)
    requires
        accept_run(AcceptPhase::Listening, events) matches Some((_, actions))
            && actions.len() > 0 && actions.last() == AcceptAction::Spawn(t),
    ensures
        events.len() == 4,
        events[0] matches AcceptEvent::Connected(Ok(_)),
        events[1] == AcceptEvent::TypeRead(Ok(t)),
        events[2] matches AcceptEvent::AnswerSent(Ok(_)),
        events[3] matches AcceptEvent::Flushed(Ok(_)),
{
    lemma_accept_run_short(events);
    reveal_with_fuel(accept_run, 6);
}


/// A run from `Listening` takes one action per event and at most four events.
proof fn lemma_accept_run_short(events: Seq<AcceptEvent>)
    requires
        accept_run(AcceptPhase::Listening, events) is Some,
    ensures
        events.len() <= 4,
        accept_run(AcceptPhase::Listening, events) matches Some((_, actions)) && actions.len() == events.len(),
{
    reveal_with_fuel(accept_run, 6);
    if events.len() > 4 {
        assert(events.drop_first().drop_first().drop_first().drop_first().len() > 0);
    }
}

/// The daemon only answers once it accepted a connection and read the
/// client's communication type.
pub proof fn answer_only_after_type_read(events: Seq<AcceptEvent>, i: int)
    requires
        accept_run(AcceptPhase::Listening, events) matches Some((_, actions))
            && 0 <= i < actions.len() && actions[i] is SendAnswer,
    ensures
        i == 1,
        events[0] matches AcceptEvent::Connected(Ok(_)),
        events[1] matches AcceptEvent::TypeRead(Ok(_)),
{
    lemma_accept_run_short(events);
    reveal_with_fuel(accept_run, 6);
}

/// The first failure ends accepting: it is the last action, and the phase
/// reached is `Done`.
pub proof fn failure_ends_accepting(events: Seq<AcceptEvent>, i: int)
    requires
        accept_run(AcceptPhase::Listening, events) matches Some((_, actions))
            && 0 <= i < actions.len() && actions[i] is Fail,
    ensures
        accept_run(AcceptPhase::Listening, events) matches Some((last, actions))
            && i == actions.len() - 1 && last is Done,
{
    lemma_accept_run_short(events);
    reveal_with_fuel(accept_run, 6);
}

/// Every failure ends accepting with a failure that carries it: a failed
/// accept or flush as `Accept`, a failed read of the communication type as a
/// failed deserialization, a failed answer as a failed serialization.
pub proof fn failures_end_accepting(t: CommunicationType, io: IoError, codec: CodecError)
    ensures
        accept_next(AcceptPhase::Listening, AcceptEvent::Connected(Err(io)))
            == (AcceptPhase::Done, AcceptAction::Fail(AcceptError::Accept(io))),
        accept_next(AcceptPhase::ReadingType, AcceptEvent::TypeRead(Err(codec))) == (
            AcceptPhase::Done,
            AcceptAction::Fail(AcceptError::Message(ReadWriteError::R(ReadError::Deserialize(codec)))),
        ),
        accept_next(AcceptPhase::Answering(t), AcceptEvent::AnswerSent(Err(codec))) == (
            AcceptPhase::Done,
            AcceptAction::Fail(AcceptError::Message(ReadWriteError::W(WriteError::Serialize(codec)))),
        ),
        accept_next(AcceptPhase::Flushing(t), AcceptEvent::Flushed(Err(io)))
            == (AcceptPhase::Done, AcceptAction::Fail(AcceptError::Accept(io))),
{
}

/// When nothing fails, accepting reads the communication type, answers,
/// flushes and hands the connection over with the communication type read.
pub proof fn accepting_without_failure(t: CommunicationType)
    ensures
        accept_run(
            AcceptPhase::Listening,
            seq![
                AcceptEvent::Connected(Ok(())),
                AcceptEvent::TypeRead(Ok(t)),
                AcceptEvent::AnswerSent(Ok(())),
                AcceptEvent::Flushed(Ok(())),
            ],
        ) == Some((
            AcceptPhase::Done,
            seq![AcceptAction::ReadType, AcceptAction::SendAnswer, AcceptAction::Flush, AcceptAction::Spawn(t)],
        )),
{
    let events = seq![
        AcceptEvent::Connected(Ok(())),
        AcceptEvent::TypeRead(Ok(t)),
        AcceptEvent::AnswerSent(Ok(())),
        AcceptEvent::Flushed(Ok(())),
    ];
    reveal_with_fuel(accept_run, 5);
    assert(events.drop_first().drop_first().drop_first().drop_first() =~= Seq::<AcceptEvent>::empty());
    assert(events.drop_first().drop_first().drop_first() =~= seq![AcceptEvent::Flushed(Ok(()))]);
    assert(events.drop_first().drop_first() =~= seq![AcceptEvent::AnswerSent(Ok(())), AcceptEvent::Flushed(Ok(()))]);
    assert(events.drop_first() =~= seq![
        AcceptEvent::TypeRead(Ok(t)),
        AcceptEvent::AnswerSent(Ok(())),
        AcceptEvent::Flushed(Ok(())),
    ]);
    assert(seq![AcceptAction::Spawn(t)] =~= seq![AcceptAction::Spawn(t)] + Seq::<AcceptAction>::empty());
    assert(seq![AcceptAction::Flush, AcceptAction::Spawn(t)] =~= seq![AcceptAction::Flush] + seq![AcceptAction::Spawn(t)]);
    assert(seq![AcceptAction::SendAnswer, AcceptAction::Flush, AcceptAction::Spawn(t)]
        =~= seq![AcceptAction::SendAnswer] + seq![AcceptAction::Flush, AcceptAction::Spawn(t)]);
    assert(seq![AcceptAction::ReadType, AcceptAction::SendAnswer, AcceptAction::Flush, AcceptAction::Spawn(t)]
        =~= seq![AcceptAction::ReadType] + seq![AcceptAction::SendAnswer, AcceptAction::Flush, AcceptAction::Spawn(t)]);
}

} // verus!
