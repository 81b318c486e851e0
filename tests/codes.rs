use web_transport_iroh::error::{
    error_from_http3, error_to_http3, QuicReadExactFault, QuicReadFault, QuicReadToEndFault,
    QuicWriteFault, ReadError, ReadExactError, ReadToEndError, SessionError, WebTransportError,
    WriteError, HTTP3_ERROR_FIRST, HTTP3_ERROR_LAST,
};

#[test]
fn error_to_http3_skips_one_code_in_thirty_one() {
    assert_eq!(error_to_http3(0), 0x52e4a40fa8db);
    assert_eq!(error_to_http3(29), 0x52e4a40fa8db + 29);
    assert_eq!(error_to_http3(30), 0x52e4a40fa8db + 31);
    assert_eq!(error_to_http3(u32::MAX), 0x52e5ac983162);
}

#[test]
fn error_code_round_trip() {
    for c in [0u32, 1, 23, 29, 30, 31, 60, 1000, 123_456_789, u32::MAX - 1, u32::MAX] {
        assert_eq!(error_from_http3(error_to_http3(c)), Some(c));
    }
}

#[test]
fn error_from_http3_outside_range_is_none() {
    assert_eq!(error_from_http3(0), None);
    assert_eq!(error_from_http3(HTTP3_ERROR_FIRST - 1), None);
    assert_eq!(error_from_http3(HTTP3_ERROR_LAST + 1), None);
    assert_eq!(error_from_http3(HTTP3_ERROR_LAST), Some(u32::MAX));
}

#[test]
fn stop_code_is_read_back() {
    let e = WriteError::from_quic(QuicWriteFault::Stopped(error_to_http3(7)));
    assert!(matches!(e, WriteError::Stopped(7)));
    assert_eq!(e.stream_error(), Some(7));
    assert!(e.session_error().is_none());
}

#[test]
fn stop_code_outside_range_is_invalid() {
    let e = WriteError::from_quic(QuicWriteFault::Stopped(5));
    assert!(matches!(e, WriteError::InvalidStopped(5)));
    assert_eq!(e.stream_error(), None);
    assert!(matches!(
        WriteError::from_quic(QuicWriteFault::ClosedStream),
        WriteError::ClosedStream
    ));
}

#[test]
fn reset_code_is_read_back() {
    let e = ReadError::from_quic(QuicReadFault::Reset(error_to_http3(42)));
    assert!(matches!(e, ReadError::Reset(42)));
    assert_eq!(e.stream_error(), Some(42));
    assert!(matches!(
        ReadError::from_quic(QuicReadFault::Reset(HTTP3_ERROR_LAST + 1)),
        ReadError::InvalidReset(c) if c == HTTP3_ERROR_LAST + 1
    ));
    assert!(matches!(
        ReadError::from_quic(QuicReadFault::ClosedStream),
        ReadError::ClosedStream
    ));
}

#[test]
fn read_exact_and_read_to_end_faults() {
    assert!(matches!(
        ReadExactError::from_quic(QuicReadExactFault::FinishedEarly(3)),
        ReadExactError::FinishedEarly(3)
    ));
    assert!(matches!(
        ReadExactError::from_quic(QuicReadExactFault::Read(QuicReadFault::Reset(
            error_to_http3(9)
        ))),
        ReadExactError::ReadError(ReadError::Reset(9))
    ));
    assert!(matches!(
        ReadToEndError::from_quic(QuicReadToEndFault::TooLong),
        ReadToEndError::TooLong
    ));
    assert!(matches!(
        ReadToEndError::from_quic(QuicReadToEndFault::Read(QuicReadFault::ClosedStream)),
        ReadToEndError::ReadError(ReadError::ClosedStream)
    ));
}

#[test]
fn session_error_reports_close_code_and_reason() {
    let closed = || SessionError::WebTransportError(WebTransportError::Closed(5, "bye".to_string()));
    assert_eq!(closed().session_error(), Some((5, "bye".to_string())));
    assert_eq!(
        WriteError::SessionError(closed()).session_error(),
        Some((5, "bye".to_string()))
    );
    assert_eq!(
        ReadError::SessionError(closed()).session_error(),
        Some((5, "bye".to_string()))
    );
    let unknown = SessionError::WebTransportError(WebTransportError::UnknownSession);
    assert_eq!(unknown.session_error(), None);
    assert_eq!(ReadError::ClosedStream.session_error(), None);
}
