//! Errors of sessions and streams, and the translation of WebTransport
//! application error codes into the range that HTTP/3 reserves for them.
use vstd::prelude::*;

use iroh::endpoint::ReadExactError as StreamReadExactError;
use iroh::endpoint::WriteError as StreamWriteError;

use crate::varint::VARINT_BOUND;

verus! {

#[verifier::external_type_specification]
#[verifier::external_body]
pub struct ExConnectionError(iroh::endpoint::ConnectionError);

#[verifier::external_type_specification]
#[verifier::external_body]
pub struct ExSendDatagramError(iroh::endpoint::SendDatagramError);

#[verifier::external_type_specification]
#[verifier::external_body]
pub struct ExStreamReadExactError(StreamReadExactError);

#[verifier::external_type_specification]
#[verifier::external_body]
pub struct ExStreamWriteError(StreamWriteError);

/// First HTTP/3 code that carries a WebTransport application code.
pub const HTTP3_ERROR_FIRST: u64 = 0x52e4a40fa8db;

/// Last HTTP/3 code that carries a WebTransport application code.
pub const HTTP3_ERROR_LAST: u64 = 0x52e5ac983162;

/// The HTTP/3 code that carries application code `code`: the reserved range
/// starts at `HTTP3_ERROR_FIRST`, and one code in every thirty-one is skipped.
pub open spec fn http3_code(code: u32) -> u64 {
    (HTTP3_ERROR_FIRST + code + code / 0x1e) as u64
}

/// The application code that HTTP/3 code `code` carries, if it lies in the
/// reserved range.
pub open spec fn app_code(code: u64) -> Option<u32> {
    if code < HTTP3_ERROR_FIRST || code > HTTP3_ERROR_LAST {
        None
    } else {
        let d = code - HTTP3_ERROR_FIRST;
        Some((d - d / 0x1f) as u32)
    }
}

/// Relies on `web_transport_proto::error_to_http3`, which computes `http3_code`.
#[verifier::external_body]
fn to_http3(code: u32) -> (r: u64)
    ensures
        r == http3_code(code),
{
    web_transport_proto::error_to_http3(code)
}

/// Relies on `web_transport_proto::error_from_http3`, which computes `app_code`.
#[verifier::external_body]
fn from_http3(code: u64) -> (r: Option<u32>)
    ensures
        r == app_code(code),
{
    web_transport_proto::error_from_http3(code)
}

/// Every application code has a wire code that fits in a QUIC
/// variable-length integer.
pub proof fn lemma_http3_code_bounded(code: u32)
    ensures
        HTTP3_ERROR_FIRST <= http3_code(code) <= HTTP3_ERROR_LAST,
        http3_code(code) < VARINT_BOUND,
{
}

/// Reading back the wire code of any application code gives that code.
pub proof fn lemma_error_code_round_trip(code: u32)
    ensures
        app_code(http3_code(code)) == Some(code),
{
    let c = code as int;
    let q = c / 30;
    let r = c % 30;
    let d = c + q;
    assert(c == 30 * q + r && 0 <= r < 30 && q >= 0) by (nonlinear_arith)
        requires
            q == c / 30,
            r == c % 30,
            c >= 0,
    ;
    assert(d / 31 == q) by (nonlinear_arith)
        requires
            d == 31 * q + r,
            0 <= r < 30,
            q >= 0,
    ;
}

/// The HTTP/3 code that carries `code` on the wire; below `VARINT_BOUND`.
pub fn error_to_http3(code: u32) -> (r: u64)
    ensures
        r == http3_code(code),
        r < VARINT_BOUND,
{
    proof {
        lemma_http3_code_bounded(code);
    }
    to_http3(code)
}

/// The application code carried by the HTTP/3 code `code`, or `None` when it
/// lies outside the reserved range.
pub fn error_from_http3(code: u64) -> (r: Option<u32>)
    ensures
        r == app_code(code),
{
    from_http3(code)
}

/// A session failed: the connection, the WebTransport layer, or a datagram.
#[derive(Debug)]
pub enum SessionError {
    ConnectionError(iroh::endpoint::ConnectionError),
    WebTransportError(WebTransportError),
    SendDatagramError(iroh::endpoint::SendDatagramError),
}

/// An error of the WebTransport layer itself.
#[derive(Debug)]
pub enum WebTransportError {
    /// The peer closed the session with this code and reason.
    Closed(u32, String),
    /// A stream or datagram named a session other than this one.
    UnknownSession,
    /// Reading a stream header failed.
    ReadError(StreamReadExactError),
    /// Writing a stream header failed.
    WriteError(StreamWriteError),
}

/// An error when writing to a stream.
#[derive(Debug)]
pub enum WriteError {
    /// The peer stopped the stream with this application code.
    Stopped(u32),
    /// The peer stopped the stream with a code outside the WebTransport range.
    InvalidStopped(u64),
    SessionError(SessionError),
    ClosedStream,
}

/// An error when reading from a stream.
#[derive(Debug)]
pub enum ReadError {
    SessionError(SessionError),
    /// The peer reset the stream with this application code.
    Reset(u32),
    /// The peer reset the stream with a code outside the WebTransport range.
    InvalidReset(u64),
    ClosedStream,
}

/// An error when filling a whole buffer from a stream.
#[derive(Debug)]
pub enum ReadExactError {
    /// The stream ended after this many bytes.
    FinishedEarly(usize),
    ReadError(ReadError),
}

/// An error when reading a stream to its end.
#[derive(Debug)]
pub enum ReadToEndError {
    /// The stream holds more than the limit.
    TooLong,
    ReadError(ReadError),
}

/// The stream was already closed.
#[derive(Clone, Copy, Debug, PartialEq, Eq)]
pub struct ClosedStream;

/// How a QUIC stream write failed, as QUIC reports it. The code of
/// `Stopped` is the raw wire code.
#[derive(Debug)]
pub enum QuicWriteFault {
    Stopped(u64),
    ClosedStream,
    ConnectionLost(iroh::endpoint::ConnectionError),
}

/// How a QUIC stream read failed, as QUIC reports it. The code of `Reset`
/// is the raw wire code.
#[derive(Debug)]
pub enum QuicReadFault {
    Reset(u64),
    ClosedStream,
    ConnectionLost(iroh::endpoint::ConnectionError),
}

/// How filling a buffer from a QUIC stream failed.
#[derive(Debug)]
pub enum QuicReadExactFault {
    FinishedEarly(usize),
    Read(QuicReadFault),
}

/// How reading a QUIC stream to its end failed.
#[derive(Debug)]
pub enum QuicReadToEndFault {
    TooLong,
    Read(QuicReadFault),
}

/// The write error that a QUIC write fault becomes: a stop code is read back
/// into its application code where it has one.
pub open spec fn write_error_of(f: QuicWriteFault) -> WriteError {
    match f {
        QuicWriteFault::Stopped(c) => match app_code(c) {
            Some(a) => WriteError::Stopped(a),
            None => WriteError::InvalidStopped(c),
        },
        QuicWriteFault::ClosedStream => WriteError::ClosedStream,
        QuicWriteFault::ConnectionLost(e) => WriteError::SessionError(
            SessionError::ConnectionError(e),
        ),
    }
}

/// The read error that a QUIC read fault becomes: a reset code is read back
/// into its application code where it has one.
pub open spec fn read_error_of(f: QuicReadFault) -> ReadError {
    match f {
        QuicReadFault::Reset(c) => match app_code(c) {
            Some(a) => ReadError::Reset(a),
            None => ReadError::InvalidReset(c),
        },
        QuicReadFault::ClosedStream => ReadError::ClosedStream,
        QuicReadFault::ConnectionLost(e) => ReadError::SessionError(
            SessionError::ConnectionError(e),
        ),
    }
}

impl WriteError {
    /// The error that a QUIC write fault surfaces as.
    pub fn from_quic(f: QuicWriteFault) -> (r: WriteError)
        ensures
            r == write_error_of(f),
    {
        match f {
            QuicWriteFault::Stopped(c) => match error_from_http3(c) {
                Some(a) => WriteError::Stopped(a),
                None => WriteError::InvalidStopped(c),
            },
            QuicWriteFault::ClosedStream => WriteError::ClosedStream,
            QuicWriteFault::ConnectionLost(e) => WriteError::SessionError(
                SessionError::ConnectionError(e),
            ),
        }
    }

    /// The code and reason with which the peer closed the session, if that
    /// is what this error is.
    pub fn session_error(&self) -> (r: Option<(u32, String)>)
        ensures
            r == match self {
                WriteError::SessionError(e) => e.spec_session_error(),
                _ => None,
            },
    {
        match self {
            WriteError::SessionError(e) => e.session_error(),
            _ => None,
        }
    }

    /// The application code with which the peer stopped the stream, if that
    /// is what this error is.
    pub fn stream_error(&self) -> (r: Option<u32>)
        ensures
            r == match self {
                WriteError::Stopped(c) => Some(*c),
                _ => None,
            },
    {
        match self {
            WriteError::Stopped(c) => Some(*c),
            _ => None,
        }
    }
}

impl ReadError {
    /// The error that a QUIC read fault surfaces as.
    pub fn from_quic(f: QuicReadFault) -> (r: ReadError)
        ensures
            r == read_error_of(f),
    {
        match f {
            QuicReadFault::Reset(c) => match error_from_http3(c) {
                Some(a) => ReadError::Reset(a),
                None => ReadError::InvalidReset(c),
            },
            QuicReadFault::ClosedStream => ReadError::ClosedStream,
            QuicReadFault::ConnectionLost(e) => ReadError::SessionError(
                SessionError::ConnectionError(e),
            ),
            }
    }

    /// The code and reason with which the peer closed the session, if that
    /// is what this error is.
    pub fn session_error(&self) -> (r: Option<(u32, String)>)
        ensures
            r == match self {
                ReadError::SessionError(e) => e.spec_session_error(),
                _ => None,
            },
    {
        match self {
            ReadError::SessionError(e) => e.session_error(),
            _ => None,
        }
    }

    /// The application code with which the peer reset the stream, if that
    /// is what this error is.
    pub fn stream_error(&self) -> (r: Option<u32>)
        ensures
            r == match self {
                ReadError::Reset(c) => Some(*c),
                _ => None,
            },
    {
        match self {
            ReadError::Reset(c) => Some(*c),
            _ => None,
        }
    }
}

impl ReadExactError {
    /// The error that a failed QUIC `read_exact` surfaces as.
    pub fn from_quic(f: QuicReadExactFault) -> (r: ReadExactError)
        ensures
            r == match f {
                QuicReadExactFault::FinishedEarly(n) => ReadExactError::FinishedEarly(n),
                QuicReadExactFault::Read(e) => ReadExactError::ReadError(read_error_of(e)),
            },
    {
        match f {
            QuicReadExactFault::FinishedEarly(n) => ReadExactError::FinishedEarly(n),
            QuicReadExactFault::Read(e) => ReadExactError::ReadError(ReadError::from_quic(e)),
        }
    }
}

impl ReadToEndError {
    /// The error that a failed QUIC `read_to_end` surfaces as.
    pub fn from_quic(f: QuicReadToEndFault) -> (r: ReadToEndError)
        ensures
            r == match f {
                QuicReadToEndFault::TooLong => ReadToEndError::TooLong,
                QuicReadToEndFault::Read(e) => ReadToEndError::ReadError(read_error_of(e)),
            },
    {
        match f {
            QuicReadToEndFault::TooLong => ReadToEndError::TooLong,
            QuicReadToEndFault::Read(e) => ReadToEndError::ReadError(ReadError::from_quic(e)),
        }
    }
}

impl SessionError {
    /// The code and reason of a session closed by the peer.
    pub open spec fn spec_session_error(&self) -> Option<(u32, String)> {
        match self {
            SessionError::WebTransportError(WebTransportError::Closed(code, reason)) => Some(
                (*code, *reason),
            ),
            _ => None,
        }
    }

    /// The code and reason with which the peer closed the session, if that
    /// is what this error is.
    pub fn session_error(&self) -> (r: Option<(u32, String)>)
        ensures
            r == self.spec_session_error(),
    {
        match self {
            SessionError::WebTransportError(WebTransportError::Closed(code, reason)) => {
                let reason = reason.clone();
                Some((*code, reason))
            },
            _ => None,
        }
    }
}

} // verus!
