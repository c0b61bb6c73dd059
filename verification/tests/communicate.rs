use lorri::communicate::{
    into_codec_error, is_timed_out, reply_outcome, reply_timeout, sanitize_timeout,
    CodecError, IoError, IoErrorKind, ReadError, ReadWriteError, Span, WriteError,
};

fn span(secs: u64, nanos: u32) -> Span {
    Span { secs, nanos }
}

fn io(kind: IoErrorKind) -> IoError {
    IoError { kind, description: String::from("failure") }
}

#[test]
fn sanitize_drops_zero_timeout() {
    assert_eq!(sanitize_timeout(Some(span(0, 0))), None);
    assert_eq!(sanitize_timeout(None), None);
    assert_eq!(sanitize_timeout(Some(span(0, 1))), Some(span(0, 1)));
    assert_eq!(sanitize_timeout(Some(span(3, 0))), Some(span(3, 0)));
}

#[test]
fn checked_sub_borrows_a_second() {
    assert_eq!(span(5, 100).checked_sub(span(2, 300)), Some(span(2, 999_999_800)));
    assert_eq!(span(5, 300).checked_sub(span(2, 100)), Some(span(3, 200)));
    assert_eq!(span(2, 100).checked_sub(span(2, 100)), Some(span(0, 0)));
    assert_eq!(span(2, 100).checked_sub(span(2, 101)), None);
    assert_eq!(span(1, 999_999_999).checked_sub(span(2, 0)), None);
}

#[test]
fn round_trip_timeout_counts_for_whole_trip() {
    let sent: Result<(), WriteError> = Ok(());
    match reply_timeout(Some(span(4, 0)), sent, span(1, 250)) {
        Ok(t) => assert_eq!(t, Some(span(2, 999_999_750))),
        Err(e) => panic!("{:?}", e),
    }
    match reply_timeout(Some(span(10, 0)), Ok(()), span(3, 500_000_000)) {
        Ok(t) => assert_eq!(t, Some(span(6, 500_000_000))),
        Err(e) => panic!("{:?}", e),
    }
}

#[test]
fn round_trip_times_out_when_request_took_all_the_time() {
    match reply_timeout(Some(span(1, 0)), Ok(()), span(1, 1)) {
        Err(ReadWriteError::R(ReadError::Timeout)) => {}
        otherwise => panic!("{:?}", otherwise),
    }
    match reply_timeout(Some(span(1, 0)), Ok(()), span(1, 0)) {
        Err(ReadWriteError::R(ReadError::Timeout)) => {}
        otherwise => panic!("{:?}", otherwise),
    }
}

#[test]
fn round_trip_without_timeout_waits_forever() {
    match reply_timeout(None, Ok(()), span(100, 0)) {
        Ok(None) => {}
        otherwise => panic!("{:?}", otherwise),
    }
    match reply_timeout(Some(span(0, 0)), Ok(()), span(3, 0)) {
        Ok(None) => {}
        otherwise => panic!("{:?}", otherwise),
    }
}

#[test]
fn round_trip_stops_when_request_not_sent() {
    match reply_timeout(Some(span(4, 0)), Err(WriteError::Timeout), span(1, 0)) {
        Err(ReadWriteError::W(WriteError::Timeout)) => {}
        otherwise => panic!("{:?}", otherwise),
    }
}

#[test]
fn round_trip_outcome_wraps_read_errors() {
    match reply_outcome::<u8>(Err(ReadError::Timeout)) {
        Err(ReadWriteError::R(ReadError::Timeout)) => {}
        otherwise => panic!("{:?}", otherwise),
    }
    match reply_outcome::<u8>(Ok(7)) {
        Ok(7) => {}
        otherwise => panic!("{:?}", otherwise),
    }
}

#[test]
fn timed_out_only_for_socket_timeouts() {
    assert!(is_timed_out(&CodecError::Io(io(IoErrorKind::TimedOut))));
    assert!(is_timed_out(&CodecError::Io(io(IoErrorKind::WouldBlock))));
    assert!(!is_timed_out(&CodecError::Io(io(IoErrorKind::ConnectionReset))));
    assert!(!is_timed_out(&CodecError::SizeLimit));
    assert!(!is_timed_out(&CodecError::Custom(String::from("timed out"))));
}

#[test]
fn read_error_tells_timeout_apart() {
    match ReadError::from_codec(CodecError::Io(io(IoErrorKind::TimedOut))) {
        ReadError::Timeout => {}
        otherwise => panic!("{:?}", otherwise),
    }
    match ReadError::from_codec(CodecError::Io(io(IoErrorKind::WouldBlock))) {
        ReadError::Timeout => {}
        otherwise => panic!("{:?}", otherwise),
    }
    match ReadError::from_codec(CodecError::InvalidTagEncoding(7)) {
        ReadError::Deserialize(CodecError::InvalidTagEncoding(7)) => {}
        otherwise => panic!("{:?}", otherwise),
    }
}

#[test]
fn write_error_tells_timeout_apart() {
    match WriteError::from_codec(CodecError::Io(io(IoErrorKind::TimedOut))) {
        WriteError::Timeout => {}
        otherwise => panic!("{:?}", otherwise),
    }
    match WriteError::from_codec(CodecError::Io(io(IoErrorKind::WouldBlock))) {
        WriteError::Timeout => {}
        otherwise => panic!("{:?}", otherwise),
    }
    match WriteError::from_codec(CodecError::Io(io(IoErrorKind::BrokenPipe))) {
        WriteError::Serialize(CodecError::Io(IoError { kind: IoErrorKind::BrokenPipe, .. })) => {}
        otherwise => panic!("{:?}", otherwise),
    }
}

#[test]
fn timeout_setting_failure_is_not_a_timeout() {
    match ReadError::from_timeout_setting(io(IoErrorKind::TimedOut)) {
        ReadError::Deserialize(CodecError::Io(IoError { kind: IoErrorKind::TimedOut, .. })) => {}
        otherwise => panic!("{:?}", otherwise),
    }
    match WriteError::from_timeout_setting(io(IoErrorKind::InvalidInput)) {
        WriteError::Serialize(CodecError::Io(IoError { kind: IoErrorKind::InvalidInput, .. })) => {}
        otherwise => panic!("{:?}", otherwise),
    }
}

#[test]
fn io_failure_becomes_codec_failure() {
    match into_codec_error::<u8>(Err(io(IoErrorKind::BrokenPipe))) {
        Err(CodecError::Io(IoError { kind: IoErrorKind::BrokenPipe, .. })) => {}
        otherwise => panic!("{:?}", otherwise),
    }
    match into_codec_error::<u8>(Ok(3)) {
        Ok(3) => {}
        otherwise => panic!("{:?}", otherwise),
    }
}
