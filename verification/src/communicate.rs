//! Structured messages between the lorri daemon and its clients: what is sent,
//! how long a transfer may take, and how failures are told apart.

use std::path::PathBuf;
use vstd::prelude::*;

pub mod client;
pub mod daemon;

verus! {

/// Nanoseconds in one second.
pub const NANOS_PER_SEC: u32 = 1_000_000_000;

/// A span of time: whole seconds and the nanoseconds beyond them.
#[derive(Clone, Copy, Debug, PartialEq, Eq, Structural)]
pub struct Span {
    /// Whole seconds.
    pub secs: u64,
    /// Nanoseconds beyond the whole seconds.
    pub nanos: u32,
}

impl Span {
    /// The nanoseconds part is below one second.
    pub open spec fn wf(self) -> bool {
        self.nanos < NANOS_PER_SEC
    }

    /// Subtraction that fails when `rhs` is longer than `self`.
    pub fn checked_sub(self, rhs: Span) -> (r: Option<Span>)
        requires
            self.wf(),
            rhs.wf(),
        ensures
            match r {
                Some(d) => d.wf() && self@ >= rhs@ && d@ == self@ - rhs@,
                None => self@ < rhs@,
            },
            r matches Some(d) ==> d.secs * 1_000_000_000 + d.nanos + rhs.secs * 1_000_000_000 + rhs.nanos
                == self.secs * 1_000_000_000 + self.nanos,
            r is None ==> self.secs * 1_000_000_000 + self.nanos < rhs.secs * 1_000_000_000 + rhs.nanos,
    {
        if self.secs < rhs.secs {
            None
        } else if self.nanos >= rhs.nanos {
            Some(Span { secs: self.secs - rhs.secs, nanos: self.nanos - rhs.nanos })
        } else if self.secs > rhs.secs {
            Some(Span { secs: self.secs - rhs.secs - 1, nanos: NANOS_PER_SEC - rhs.nanos + self.nanos })
        } else {
            None
        }
    }
}

impl View for Span {
    type V = nat;

    /// The whole span in nanoseconds.
    open spec fn view(&self) -> nat {
        (self.secs * 1_000_000_000 + self.nanos) as nat
    }
}


/// A timeout for a transfer; `None` means forever.
pub type Timeout = Option<Span>;

/// The timeout as nanoseconds; `None` means forever.
pub open spec fn timeout_view(t: Timeout) -> Option<nat> {
    match t {
        Some(d) => Some(d@),
        None => None,
    }
}

/// The timeout a socket is given: a zero timeout is dropped, since a socket
/// timeout must not be zero, so that a zero timeout and no timeout both wait
/// forever.
pub open spec fn sanitized(timeout: Timeout) -> Timeout {
    match timeout {
        Some(d) => if d@ == 0 { None } else { timeout },
        None => None,
    }
}

/// A socket timeout must not be zero: a zero timeout is dropped, which means
/// that the transfer waits forever.
pub fn sanitize_timeout(timeout: Timeout) -> (r: Timeout)
    ensures
        r == sanitized(timeout),
{
    match timeout {
        Some(d) => if d.secs == 0 && d.nanos == 0 { None } else { Some(d) },
        None => None,
    }
}

/// A zero timeout behaves like no timeout: the socket waits forever, and no
/// transfer can run out of time.
pub proof fn zero_timeout_waits_forever(d: Span)
    requires
        d@ == 0,
    ensures
        sanitized(Some(d)) == sanitized(None),
        sanitized(Some(d)) is None,
{
}

/// Only a zero timeout is dropped: any other timeout is kept as it is, and no
/// timeout stays no timeout.
pub proof fn only_zero_timeout_dropped(d: Span)
    ensures
        d.secs != 0 || d.nanos != 0 ==> sanitized(Some(d)) == Some(d),
        d.secs == 0 && d.nanos == 0 ==> sanitized(Some(d)) is None,
        sanitized(None) is None,
{
}

/// A timeout is seen as its length in nanoseconds, and no timeout as none.
pub proof fn timeout_in_nanoseconds(t: Timeout)
    ensures
        t is None ==> timeout_view(t) is None,
        t matches Some(d) ==> timeout_view(t) == Some((d.secs * 1_000_000_000 + d.nanos) as nat),
{
}

/// With no timeout, or a zero one, a round trip never times out: whatever
/// time the request took, the reply is awaited forever.
pub proof fn no_timeout_never_times_out(elapsed: nat)
    ensures
        time_left(None, elapsed) == Some(Option::<nat>::None),
        time_left(Some(0), elapsed) == Some(Option::<nat>::None),
{
}

/// The timeout left for the reply of a round trip, in nanoseconds, once
/// `elapsed` nanoseconds were spent on the request: `Some(None)` means
/// forever, and `None` means that no time is left, so the round trip has
/// timed out. A zero timeout, like no timeout, waits forever.
pub open spec fn time_left(timeout: Option<nat>, elapsed: nat) -> Option<Option<nat>> {
    match timeout {
        Some(d) => if d == 0 {
            Some(None)
        } else if elapsed < d {
            Some(Some((d - elapsed) as nat))
        } else {
            None
        },
        None => Some(None),
    }
}

/// The timeout for the reply of a round trip: the request was sent, or not,
/// and `elapsed` has passed since the round trip began. The timeout counts for
/// the whole round trip: when the request took all of it, the round trip has
/// timed out.
pub fn reply_timeout(timeout: Timeout, sent: Result<(), WriteError>, elapsed: Span) -> (r: Result<Timeout, ReadWriteError>)
    requires
        timeout matches Some(d) ==> d.wf(),
        elapsed.wf(),
    ensures
        match sent {
            Ok(_) => match time_left(timeout_view(timeout), elapsed@) {
                Some(left) => r matches Ok(t) && timeout_view(t) == left && (t matches Some(s) ==> s.wf()),
                None => r == Err::<Timeout, ReadWriteError>(ReadWriteError::R(ReadError::Timeout)),
            },
            Err(e) => r == Err::<Timeout, ReadWriteError>(ReadWriteError::W(e)),
        },
{
    match sent {
        Err(e) => Err(ReadWriteError::W(e)),
        Ok(_) => match sanitize_timeout(timeout) {
            None => Ok(None),
            Some(d) => match d.checked_sub(elapsed) {
                Some(left) => if left.secs == 0 && left.nanos == 0 {
                    Err(ReadWriteError::R(ReadError::Timeout))
                } else {
                    Ok(Some(left))
                },
                None => Err(ReadWriteError::R(ReadError::Timeout)),
            },
        },
    }
}

/// The outcome of a round trip, given how its reply was received.
pub fn reply_outcome<R>(received: Result<R, ReadError>) -> (r: Result<R, ReadWriteError>)
    ensures
        match received {
            Ok(v) => r == Ok::<R, ReadWriteError>(v),
            Err(e) => r == Err::<R, ReadWriteError>(ReadWriteError::R(e)),
        },
{
    match received {
        Ok(v) => Ok(v),
        Err(e) => Err(ReadWriteError::R(e)),
    }
}

/// The timeout counts for the whole round trip: when the request was sent
/// within the timeout, the time spent sending and the time left for the reply
/// add up to the timeout, and some time is left; when sending took all of it,
/// no time is left and the round trip has timed out.
pub proof fn round_trip_within_timeout(timeout: nat, elapsed: nat)
    requires
        timeout > 0,
    ensures
        elapsed < timeout ==> (time_left(Some(timeout), elapsed) matches Some(Some(left))
            && left > 0 && left + elapsed == timeout),
        elapsed >= timeout ==> time_left(Some(timeout), elapsed) is None,
{
}

/// Only a socket timeout counts as running out of time: an `Io` failure of
/// kind `TimedOut` or `WouldBlock` does, and any other failure does not.
pub proof fn only_socket_timeouts_time_out(e: CodecError)
    ensures
        (e matches CodecError::Io(io) && io.kind == IoErrorKind::TimedOut) ==> codec_timed_out(e),
        (e matches CodecError::Io(io) && io.kind == IoErrorKind::WouldBlock) ==> codec_timed_out(e),
        (e matches CodecError::Io(io) && io.kind != IoErrorKind::TimedOut && io.kind != IoErrorKind::WouldBlock)
            ==> !codec_timed_out(e),
        !(e is Io) ==> !codec_timed_out(e),
{
}

/// What the protocol tells apart of a failed input or output operation.
#[derive(Clone, Copy, Debug, PartialEq, Eq, Structural)]
pub enum IoErrorKind {
    NotFound,
    PermissionDenied,
    ConnectionRefused,
    ConnectionReset,
    ConnectionAborted,
    NotConnected,
    AddrInUse,
    AddrNotAvailable,
    BrokenPipe,
    AlreadyExists,
    WouldBlock,
    InvalidInput,
    InvalidData,
    TimedOut,
    WriteZero,
    Interrupted,
    Unsupported,
    UnexpectedEof,
    OutOfMemory,
    Other,
}

/// A failed input or output operation.
#[derive(Debug)]
pub struct IoError {
    /// The category of the failure.
    pub kind: IoErrorKind,
    /// The description of the failure.
    pub description: String,
}

/// A failed encoding or decoding of a message.
#[derive(Debug)]
pub enum CodecError {
    /// The socket failed while the message was transferred.
    Io(IoError),
    /// A string of the message is not valid UTF-8.
    InvalidUtf8Encoding(String),
    /// A boolean was encoded as neither 0 nor 1.
    InvalidBoolEncoding(u8),
    /// A character was not encoded correctly.
    InvalidCharEncoding,
    /// The tag of an enum is out of range.
    InvalidTagEncoding(usize),
    /// The format cannot describe itself.
    DeserializeAnyNotSupported,
    /// The message is larger than the size limit.
    SizeLimit,
    /// A sequence of unknown length cannot be encoded.
    SequenceMustHaveLength,
    /// Any other failure, with its description.
    Custom(String),
}

/// The failed transfer was one that ran out of time on the socket.
/// The sockets block, so a `WouldBlock` failure comes only from a socket
/// timeout that expired, which is how Unix reports it.
pub open spec fn codec_timed_out(e: CodecError) -> bool {
    e matches CodecError::Io(io) && (io.kind == IoErrorKind::TimedOut || io.kind == IoErrorKind::WouldBlock)
}

/// A failure of the socket, seen as a failure of the transfer.
pub fn into_codec_error<T>(res: Result<T, IoError>) -> (r: Result<T, CodecError>)
    ensures
        match res {
            Ok(v) => r == Ok::<T, CodecError>(v),
            Err(e) => r == Err::<T, CodecError>(CodecError::Io(e)),
        },
{
    match res {
        Ok(v) => Ok(v),
        Err(e) => Err(CodecError::Io(e)),
    }
}

/// Check if the underlying socket timed out when serializing or deserializing.
pub fn is_timed_out(e: &CodecError) -> (r: bool)
    ensures
        r == codec_timed_out(*e),
{
    match e {
        CodecError::Io(io) => match io.kind {
            IoErrorKind::TimedOut => true,
            IoErrorKind::WouldBlock => true,
            _ => false,
        },
        _ => false,
    }
}

/// A failure to receive a message.
#[derive(Debug)]
pub enum ReadError {
    Deserialize(CodecError),
    Timeout,
}

/// A failure to send a message.
#[derive(Debug)]
pub enum WriteError {
    Serialize(CodecError),
    Timeout,
}

/// A failure in a round trip: the request was not sent, or the reply not received.
#[derive(Debug)]
pub enum ReadWriteError {
    R(ReadError),
    W(WriteError),
}

impl ReadError {
    /// The read timeout could not be set on the socket.
    pub fn from_timeout_setting(e: IoError) -> (r: ReadError)
        ensures
            r == ReadError::Deserialize(CodecError::Io(e)),
    {
        ReadError::Deserialize(CodecError::Io(e))
    }

    /// Receiving failed: a timeout on the socket is told apart from any other failure.
    pub fn from_codec(e: CodecError) -> (r: ReadError)
        ensures
            codec_timed_out(e) ==> r is Timeout,
            !codec_timed_out(e) ==> r == ReadError::Deserialize(e),
    {
        if is_timed_out(&e) {
            ReadError::Timeout
        } else {
            ReadError::Deserialize(e)
        }
    }
}

impl WriteError {
    /// The write timeout could not be set on the socket.
    pub fn from_timeout_setting(e: IoError) -> (r: WriteError)
        ensures
            r == WriteError::Serialize(CodecError::Io(e)),
    {
        WriteError::Serialize(CodecError::Io(e))
    }

    /// Sending failed: a timeout on the socket is told apart from any other failure.
    pub fn from_codec(e: CodecError) -> (r: WriteError)
        ensures
            codec_timed_out(e) ==> r is Timeout,
            !codec_timed_out(e) ==> r == WriteError::Serialize(e),
    {
        if is_timed_out(&e) {
            WriteError::Timeout
        } else {
            WriteError::Serialize(e)
        }
    }
}

/// Enum of all communication modes the lorri daemon supports.
#[derive(Clone, Copy, Debug, PartialEq, Eq, Structural)]
pub enum CommunicationType {
    /// Ping the daemon from a project to tell it to watch and evaluate.
    Ping,
}

/// A path on the file system.
#[verifier::external_type_specification]
#[verifier::external_body]
pub struct ExPathBuf(PathBuf);

/// Tells the daemon to watch and evaluate the given Nix file.
#[derive(Debug)]
pub struct Ping {
    /// The Nix file of the project.
    pub nix_file: PathBuf,
}

/// The message of a side that never sends one: no value of it exists.
#[derive(Debug)]
pub struct NoMessage(core::convert::Infallible);

} // verus!
