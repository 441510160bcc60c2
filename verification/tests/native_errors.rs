use bytes::Bytes;
use webtransport::error_space::{ERROR_FIRST, ERROR_LAST};
use webtransport::generic::ErrorCode;
use webtransport::native::code::{from_varint, to_varint};
use webtransport::native::host;
use webtransport::native::host::{ConnectionError, VarInt, VARINT_LIMIT};
use webtransport::native::recv::{chunk_or_empty, fill_step};
use webtransport::native::{
    recv, send, ReadError, ReadExactError, ReadToEndError, SessionError, StoppedError,
    StreamClosed, WriteError,
};

fn app_closed(code: u64) -> ConnectionError {
    ConnectionError::ApplicationClosed {
        error_code: VarInt::from_u64(code).unwrap(),
        reason: b"bye".to_vec(),
    }
}

#[test]
fn varint_holds_numbers_below_two_to_the_62() {
    assert_eq!(VARINT_LIMIT, 1u64 << 62);
    assert_eq!(VarInt::from_u64(0).map(VarInt::into_inner), Some(0));
    assert_eq!(VarInt::from_u64((1 << 62) - 1).map(VarInt::into_inner), Some((1 << 62) - 1));
    assert_eq!(VarInt::from_u64(1 << 62), None);
    assert_eq!(VarInt::from_u64(u64::MAX), None);
    assert_eq!(VarInt::from_u32(u32::MAX).into_inner(), u32::MAX as u64);
}

#[test]
fn every_application_code_fits_a_varint() {
    assert_eq!(to_varint(0).into_inner(), ERROR_FIRST);
    assert_eq!(to_varint(30).into_inner(), ERROR_FIRST + 31);
    assert_eq!(to_varint(u32::MAX).into_inner(), ERROR_LAST);
}

#[test]
fn varint_decodes_to_its_application_code() {
    assert_eq!(from_varint(to_varint(7)), Some(7));
    assert_eq!(from_varint(to_varint(u32::MAX)), Some(u32::MAX));
    assert_eq!(from_varint(VarInt::from_u32(7)), None);
    assert_eq!(from_varint(VarInt::from_u64(ERROR_FIRST + 30).unwrap()), None);
    assert_eq!(from_varint(VarInt::from_u64(ERROR_LAST + 1).unwrap()), None);
}

#[test]
fn read_error_from_a_reset_with_a_valid_code() {
    assert_eq!(ReadError::from(host::ReadError::Reset(to_varint(7))), ReadError::Reset(7));
    assert_eq!(ReadError::from(host::ReadError::Reset(to_varint(0))), ReadError::Reset(0));
}

#[test]
fn read_error_from_a_reset_with_an_invalid_code() {
    let plain = VarInt::from_u32(7);
    assert_eq!(ReadError::from(host::ReadError::Reset(plain)), ReadError::InvalidReset(plain));
    let grease = VarInt::from_u64(ERROR_FIRST + 30).unwrap();
    assert_eq!(ReadError::from(host::ReadError::Reset(grease)), ReadError::InvalidReset(grease));
}

#[test]
fn read_error_from_the_other_failures() {
    assert_eq!(
        ReadError::from(host::ReadError::ConnectionLost(ConnectionError::TimedOut)),
        ReadError::SessionError(SessionError::ConnectionError(ConnectionError::TimedOut))
    );
    assert_eq!(
        ReadError::from(host::ReadError::IllegalOrderedRead),
        ReadError::IllegalOrderedRead
    );
    assert_eq!(ReadError::from(host::ReadError::UnknownStream), ReadError::Closed);
}

#[test]
fn read_exact_error_from_the_host() {
    assert_eq!(
        ReadExactError::from(host::ReadExactError::FinishedEarly),
        ReadExactError::FinishedEarly
    );
    assert_eq!(
        ReadExactError::from(host::ReadExactError::ReadError(host::ReadError::Reset(to_varint(
            3
        )))),
        ReadExactError::ReadError(ReadError::Reset(3))
    );
}

#[test]
fn read_to_end_error_from_the_host() {
    assert_eq!(ReadToEndError::from(host::ReadToEndError::TooLong), ReadToEndError::TooLong);
    assert_eq!(
        ReadToEndError::from(host::ReadToEndError::Read(host::ReadError::UnknownStream)),
        ReadToEndError::ReadError(ReadError::Closed)
    );
}

#[test]
fn write_error_from_a_stop() {
    assert_eq!(WriteError::from(host::WriteError::Stopped(to_varint(9))), WriteError::Stopped(9));
    let plain = VarInt::from_u32(9);
    assert_eq!(
        WriteError::from(host::WriteError::Stopped(plain)),
        WriteError::InvalidStopped(plain)
    );
}

#[test]
fn write_error_from_the_other_failures() {
    assert_eq!(WriteError::from(host::WriteError::UnknownStream), WriteError::Closed);
    assert_eq!(
        WriteError::from(host::WriteError::ConnectionLost(ConnectionError::Reset)),
        WriteError::SessionError(SessionError::ConnectionError(ConnectionError::Reset))
    );
}

#[test]
fn stream_closed_from_an_unknown_stream() {
    assert_eq!(StreamClosed::from(host::UnknownStream), StreamClosed);
}

#[test]
fn stopped_error_from_the_host() {
    assert_eq!(StoppedError::from(host::StoppedError::UnknownStream), StoppedError::Closed);
    assert_eq!(
        StoppedError::from(host::StoppedError::ConnectionLost(ConnectionError::LocallyClosed)),
        StoppedError::SessionError(SessionError::ConnectionError(
            ConnectionError::LocallyClosed
        ))
    );
}

#[test]
fn session_error_from_a_connection_error() {
    assert_eq!(
        SessionError::from(ConnectionError::VersionMismatch),
        SessionError::ConnectionError(ConnectionError::VersionMismatch)
    );
}

#[test]
fn session_error_carries_the_code_of_the_close() {
    assert_eq!(SessionError::from(app_closed(ERROR_FIRST + 31)).code(), Some(30));
    assert_eq!(SessionError::from(app_closed(ERROR_FIRST + 30)).code(), None);
    assert_eq!(SessionError::from(app_closed(5)).code(), None);
    assert_eq!(SessionError::from(ConnectionError::TimedOut).code(), None);
    let transport = ConnectionError::TransportError { code: 1, reason: "bad".to_string() };
    assert_eq!(SessionError::from(transport).code(), None);
    let aborted = ConnectionError::ConnectionClosed { error_code: ERROR_FIRST, reason: vec![] };
    assert_eq!(SessionError::from(aborted).code(), None);
}

#[test]
fn read_error_carries_its_code() {
    assert_eq!(ReadError::Reset(7).code(), Some(7));
    assert_eq!(ReadError::InvalidReset(VarInt::from_u32(7)).code(), None);
    assert_eq!(ReadError::Closed.code(), None);
    assert_eq!(ReadError::IllegalOrderedRead.code(), None);
    assert_eq!(ReadError::SessionError(SessionError::from(app_closed(ERROR_FIRST))).code(), Some(0));
    assert_eq!(ReadError::SessionError(SessionError::from(ConnectionError::Reset)).code(), None);
}

#[test]
fn write_error_carries_its_code() {
    assert_eq!(WriteError::Stopped(7).code(), Some(7));
    assert_eq!(WriteError::InvalidStopped(VarInt::from_u32(7)).code(), None);
    assert_eq!(WriteError::Closed.code(), None);
    assert_eq!(
        WriteError::SessionError(SessionError::from(app_closed(ERROR_LAST))).code(),
        Some(u32::MAX)
    );
}

#[test]
fn reset_for_seven_is_never_seen_as_nine() {
    let sent = to_varint(7);
    let seen = ReadError::from(host::ReadError::Reset(sent));
    assert_eq!(seen.code(), Some(7));
    assert_ne!(seen, ReadError::Reset(9));
}

#[test]
fn stopped_outcome_decodes_the_code() {
    assert_eq!(send::stopped_outcome(Ok(to_varint(4))), Ok(Some(4)));
    assert_eq!(send::stopped_outcome(Ok(VarInt::from_u32(4))), Ok(None));
    assert_eq!(
        send::stopped_outcome(Err(host::StoppedError::UnknownStream)),
        Err(StoppedError::Closed)
    );
    assert_eq!(
        send::stopped_outcome(Err(host::StoppedError::ConnectionLost(ConnectionError::TimedOut))),
        Err(StoppedError::SessionError(SessionError::ConnectionError(ConnectionError::TimedOut)))
    );
}

#[test]
fn close_outcomes() {
    assert_eq!(recv::close_outcome(Ok(())), Ok(()));
    assert_eq!(recv::close_outcome(Err(host::UnknownStream)), Err(ReadError::Closed));
    assert_eq!(send::close_outcome(Ok(())), Ok(()));
    assert_eq!(send::close_outcome(Err(StreamClosed)), Err(WriteError::Closed));
}

#[test]
fn fill_step_values() {
    assert_eq!(fill_step(10, Some(3)), Some(7));
    assert_eq!(fill_step(10, Some(10)), Some(0));
    assert_eq!(fill_step(10, None), None);
    assert_eq!(fill_step(0, None), None);
}

#[test]
fn chunk_or_empty_values() {
    assert_eq!(chunk_or_empty(Some(Bytes::from_static(b"abc"))), Bytes::from_static(b"abc"));
    assert!(chunk_or_empty(None).is_empty());
}

#[test]
fn session_error_becomes_the_error_of_each_operation() {
    let lost = SessionError::from(ConnectionError::TimedOut);
    assert_eq!(ReadError::from(lost.clone()), ReadError::SessionError(lost.clone()));
    assert_eq!(WriteError::from(lost.clone()), WriteError::SessionError(lost.clone()));
    assert_eq!(StoppedError::from(lost.clone()), StoppedError::SessionError(lost));
}

#[test]
fn read_error_becomes_the_error_of_each_helper() {
    assert_eq!(
        ReadExactError::from(ReadError::Closed),
        ReadExactError::ReadError(ReadError::Closed)
    );
    assert_eq!(
        ReadToEndError::from(ReadError::Reset(1)),
        ReadToEndError::ReadError(ReadError::Reset(1))
    );
}
