//! The framing state of a WebTransport session: the headers written in
//! front of every stream it opens, and the session-id prefix of datagrams.
use vstd::prelude::*;

use crate::error::{error_to_http3, http3_code, SessionError, WebTransportError};
use crate::varint::{
    get_varint, lemma_varint_round_trip, put_varint, varint_bytes, varint_parse, VARINT_BOUND,
};

verus! {

#[verifier::external_type_specification]
#[verifier::external_body]
pub struct ExUrl(url::Url);

/// Type of a unidirectional stream that carries WebTransport data.
pub const STREAM_UNI_WEBTRANSPORT: u64 = 0x54;

/// Type of a unidirectional QPACK encoder stream.
pub const STREAM_UNI_QPACK_ENCODER: u64 = 0x02;

/// Type of a unidirectional QPACK decoder stream.
pub const STREAM_UNI_QPACK_DECODER: u64 = 0x03;

/// Frame type that starts a bidirectional WebTransport stream.
pub const FRAME_WEBTRANSPORT: u64 = 0x41;

/// The header in front of a unidirectional stream of session `session_id`.
pub open spec fn uni_header_bytes(session_id: u64) -> Seq<u8> {
    varint_bytes(STREAM_UNI_WEBTRANSPORT) + varint_bytes(session_id)
}

/// The header in front of a bidirectional stream of session `session_id`.
pub open spec fn bi_header_bytes(session_id: u64) -> Seq<u8> {
    varint_bytes(FRAME_WEBTRANSPORT) + varint_bytes(session_id)
}

/// What a session writes in front of each stream it opens (`uni` tells the
/// kind of stream), and in front of each datagram: nothing on a raw QUIC
/// session (`None`), the WebTransport headers on an HTTP/3 session.
pub open spec fn stream_prefix(session: Option<u64>, uni: bool) -> Seq<u8> {
    match session {
        None => Seq::empty(),
        Some(id) => if uni {
            uni_header_bytes(id)
        } else {
            bi_header_bytes(id)
        },
    }
}

/// The prefix of each datagram: the session id on an HTTP/3 session.
pub open spec fn datagram_prefix(session: Option<u64>) -> Seq<u8> {
    match session {
        None => Seq::empty(),
        Some(id) => varint_bytes(id),
    }
}

/// What a received datagram yields: on an HTTP/3 session it must start with
/// this session's id, which is taken off; anything else is an unknown session.
pub open spec fn datagram_payload(session: Option<u64>, datagram: Seq<u8>) -> Option<Seq<u8>> {
    match session {
        None => Some(datagram),
        Some(id) => match varint_parse(datagram) {
            Some((v, n)) => if v == id {
                Some(datagram.subrange(n as int, datagram.len() as int))
            } else {
                None
            },
            None => None,
        },
    }
}

/// A datagram that a session frames reads back as the data that was sent, at
/// the peer's session with the same id, or at a raw peer of a raw session.
pub proof fn lemma_datagram_round_trip(session: Option<u64>, data: Seq<u8>)
    requires
        session matches Some(id) ==> id < VARINT_BOUND,
    ensures
        datagram_payload(session, datagram_prefix(session) + data) == Some(data),
{
    if let Some(id) = session {
        lemma_varint_round_trip(id, data);
        let s = varint_bytes(id) + data;
        assert(s.subrange(varint_bytes(id).len() as int, s.len() as int) =~= data);
    }
}

/// A raw session frames nothing: its streams start with the application's
/// bytes, and its datagrams go out and come in unchanged.
pub proof fn lemma_raw_session_unframed(uni: bool, data: Seq<u8>)
    ensures
        stream_prefix(None, uni) == Seq::<u8>::empty(),
        datagram_prefix(None) + data == data,
        datagram_payload(None, data) == Some(data),
{
    assert(datagram_prefix(None) + data =~= data);
}

/// A datagram that names another session is refused, whatever it carries.
pub proof fn lemma_datagram_other_session(id: u64, other: u64, data: Seq<u8>)
    requires
        other < VARINT_BOUND,
        other != id,
    ensures
        datagram_payload(Some(id), varint_bytes(other) + data) is None,
{
    lemma_varint_round_trip(other, data);
}

/// The state of a session that runs over HTTP/3.
struct H3SessionState {
    url: url::Url,
    /// The stream id of the CONNECT request.
    session_id: u64,
    header_uni: Vec<u8>,
    header_bi: Vec<u8>,
    header_datagram: Vec<u8>,
}

impl H3SessionState {
    spec fn well_formed(&self) -> bool {
        &&& self.session_id < VARINT_BOUND
        &&& self.header_uni@ == uni_header_bytes(self.session_id)
        &&& self.header_bi@ == bi_header_bytes(self.session_id)
        &&& self.header_datagram@ == varint_bytes(self.session_id)
    }

    /// Computes the headers once, for every stream and datagram to come.
    fn connect(url: url::Url, session_id: u64) -> (r: Self)
        requires
            session_id < VARINT_BOUND,
        ensures
            r.well_formed(),
            r.url == url,
            r.session_id == session_id,
    {
        let mut header_uni: Vec<u8> = Vec::new();
        put_varint(STREAM_UNI_WEBTRANSPORT, &mut header_uni);
        put_varint(session_id, &mut header_uni);

        let mut header_bi: Vec<u8> = Vec::new();
        put_varint(FRAME_WEBTRANSPORT, &mut header_bi);
        put_varint(session_id, &mut header_bi);

        let mut header_datagram: Vec<u8> = Vec::new();
        put_varint(session_id, &mut header_datagram);
        assert(header_datagram@ == varint_bytes(session_id));

        H3SessionState { url, session_id, header_uni, header_bi, header_datagram }
    }
}

/// A WebTransport session, either over HTTP/3 or directly over QUIC (raw).
///
/// Its view is the session id of an HTTP/3 session, `None` for a raw one.
pub struct Session {
    h3: Option<H3SessionState>,
}

impl View for Session {
    type V = Option<u64>;

    closed spec fn view(&self) -> Option<u64> {
        match self.h3 {
            None => None,
            Some(h3) => Some(h3.session_id),
        }
    }
}

impl Session {
    #[verifier::type_invariant]
    spec fn inv(&self) -> bool {
        match self.h3 {
            None => true,
            Some(h3) => h3.well_formed(),
        }
    }

    /// The URL of the CONNECT request of an HTTP/3 session.
    pub closed spec fn spec_url(&self) -> Option<url::Url> {
        match self.h3 {
            None => None,
            Some(h3) => Some(h3.url),
        }
    }

    /// A session over a plain QUIC connection, with no framing at all.
    pub fn raw() -> (r: Session)
        ensures
            r@ is None,
            r.spec_url() is None,
    {
        Session { h3: None }
    }

    /// A session over HTTP/3 whose CONNECT request went to `url` on the
    /// stream with id `session_id`.
    pub fn new_h3(url: url::Url, session_id: u64) -> (r: Session)
        requires
            session_id < VARINT_BOUND,
        ensures
            r@ == Some(session_id),
            r.spec_url() == Some(url),
    {
        Session { h3: Some(H3SessionState::connect(url, session_id)) }
    }

    /// The URL of the CONNECT request; `None` on a raw session.
    pub fn url(&self) -> (r: Option<&url::Url>)
        ensures
            match r {
                None => self.spec_url() is None,
                Some(u) => self.spec_url() == Some(*u),
            },
    {
        match &self.h3 {
            None => None,
            Some(h3) => Some(&h3.url),
        }
    }

    /// The session id; `None` on a raw session.
    pub fn session_id(&self) -> (r: Option<u64>)
        ensures
            r == self@,
            r matches Some(id) ==> id < VARINT_BOUND,
    {
        proof {
            use_type_invariant(self);
        }
        match &self.h3 {
            None => None,
            Some(h3) => Some(h3.session_id),
        }
    }

    /// The bytes to write on each unidirectional stream this session opens,
    /// before anything else.
    pub fn uni_header(&self) -> (r: &[u8])
        ensures
            r@ == stream_prefix(self@, true),
    {
        proof {
            use_type_invariant(self);
        }
        match &self.h3 {
            None => &[],
            Some(h3) => h3.header_uni.as_slice(),
        }
    }

    /// The bytes to write on each bidirectional stream this session opens,
    /// before anything else.
    pub fn bi_header(&self) -> (r: &[u8])
        ensures
            r@ == stream_prefix(self@, false),
    {
        proof {
            use_type_invariant(self);
        }
        match &self.h3 {
            None => &[],
            Some(h3) => h3.header_bi.as_slice(),
        }
    }

    /// The datagram to hand to QUIC in order to send `data`.
    pub fn frame_datagram(&self, data: &[u8]) -> (r: Vec<u8>)
        ensures
            r@ == datagram_prefix(self@) + data@,
    {
        proof {
            use_type_invariant(self);
        }
        let mut buf: Vec<u8> = Vec::new();
        if let Some(h3) = &self.h3 {
            buf.extend_from_slice(h3.header_datagram.as_slice());
        }
        buf.extend_from_slice(data);
        assert(buf@ == datagram_prefix(self@) + data@);
        buf
    }

    /// What a datagram received from QUIC holds for the application.
    pub fn unframe_datagram(&self, datagram: Vec<u8>) -> (r: Result<Vec<u8>, SessionError>)
        ensures
            match datagram_payload(self@, datagram@) {
                Some(p) => r matches Ok(v) && v@ == p,
                None => r matches Err(
                    SessionError::WebTransportError(WebTransportError::UnknownSession),
                ),
            },
    {
        match &self.h3 {
            None => Ok(datagram),
            Some(h3) => {
                let mut datagram = datagram;
                match get_varint(datagram.as_slice()) {
                    None => Err(SessionError::WebTransportError(WebTransportError::UnknownSession)),
                    Some((id, n)) => {
                        if id != h3.session_id {
                            Err(SessionError::WebTransportError(WebTransportError::UnknownSession))
                        } else {
                            let payload = datagram.split_off(n);
                            Ok(payload)
                        }
                    },
                }
            },
        }
    }

    /// The largest payload that fits a QUIC datagram of `mtu` bytes once the
    /// session's prefix is in front, zero where the prefix alone fills it.
    pub fn max_datagram_size(&self, mtu: usize) -> (r: usize)
        ensures
            r == if mtu >= datagram_prefix(self@).len() {
                mtu - datagram_prefix(self@).len()
            } else {
                0
            },
    {
        proof {
            use_type_invariant(self);
        }
        match &self.h3 {
            None => mtu,
            Some(h3) => mtu.saturating_sub(h3.header_datagram.len()),
        }
    }

    /// The QUIC code with which closing the session with application code
    /// `code` closes the connection: the HTTP/3 code over HTTP/3, the code
    /// itself on a raw session.
    pub fn close_code(&self, code: u32) -> (r: u64)
        ensures
            r == if self@ is Some {
                http3_code(code)
            } else {
                code as u64
            },
            r < VARINT_BOUND,
    {
        if self.h3.is_some() {
            error_to_http3(code)
        } else {
            code as u64
        }
    }
}

} // verus!
