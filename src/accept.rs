//! Telling incoming streams apart by their headers, and the bookkeeping of
//! the streams whose headers are still being read.
use vstd::prelude::*;

use crate::session::{
    bi_header_bytes, uni_header_bytes, FRAME_WEBTRANSPORT, STREAM_UNI_QPACK_DECODER,
    STREAM_UNI_QPACK_ENCODER, STREAM_UNI_WEBTRANSPORT,
};
use crate::varint::{
    get_varint, lemma_varint_round_trip, varint_bytes, varint_need, varint_parse,
    varint_size_from_first, VARINT_BOUND,
};

verus! {

broadcast use vstd::seq_lib::lemma_seq_contains_after_push;

/// What the first bytes of an incoming unidirectional stream tell.
#[derive(Clone, Copy, Debug, PartialEq, Eq)]
pub enum UniStreamKind {
    /// The header is not complete: it takes at least this many bytes.
    Incomplete(usize),
    /// A WebTransport stream of this session.
    WebTransport,
    /// A WebTransport stream of another session, with that session's id.
    UnknownSession(u64),
    QpackEncoder,
    QpackDecoder,
    /// A stream of another type, with that type.
    Other(u64),
}

/// What the first bytes of an incoming bidirectional stream tell.
#[derive(Clone, Copy, Debug, PartialEq, Eq)]
pub enum BiStreamKind {
    /// The header is not complete: it takes at least this many bytes.
    Incomplete(usize),
    /// A WebTransport stream of this session.
    WebTransport,
    /// A WebTransport stream of another session, with that session's id.
    UnknownSession(u64),
    /// A stream that starts with a frame of another type, with that type.
    Other(u64),
}

/// The kind of a unidirectional stream whose first bytes are `s`, at a
/// session with id `session_id`. The session id is read only after the
/// WebTransport stream type.
pub open spec fn uni_kind(s: Seq<u8>, session_id: u64) -> UniStreamKind {
    match varint_parse(s) {
        None => UniStreamKind::Incomplete(varint_need(s) as usize),
        Some((t, n)) => if t == STREAM_UNI_WEBTRANSPORT {
            let rest = s.subrange(n as int, s.len() as int);
            match varint_parse(rest) {
                None => UniStreamKind::Incomplete((n + varint_need(rest)) as usize),
                Some((id, m)) => if id == session_id {
                    UniStreamKind::WebTransport
                } else {
                    UniStreamKind::UnknownSession(id)
                },
            }
        } else if t == STREAM_UNI_QPACK_ENCODER {
            UniStreamKind::QpackEncoder
        } else if t == STREAM_UNI_QPACK_DECODER {
            UniStreamKind::QpackDecoder
        } else {
            UniStreamKind::Other(t)
        },
    }
}

/// The kind of a bidirectional stream whose first bytes are `s`, at a
/// session with id `session_id`.
pub open spec fn bi_kind(s: Seq<u8>, session_id: u64) -> BiStreamKind {
    match varint_parse(s) {
        None => BiStreamKind::Incomplete(varint_need(s) as usize),
        Some((t, n)) => if t == FRAME_WEBTRANSPORT {
            let rest = s.subrange(n as int, s.len() as int);
            match varint_parse(rest) {
                None => BiStreamKind::Incomplete((n + varint_need(rest)) as usize),
                Some((id, m)) => if id == session_id {
                    BiStreamKind::WebTransport
                } else {
                    BiStreamKind::UnknownSession(id)
                },
            }
        } else {
            BiStreamKind::Other(t)
        },
    }
}

/// Reads the header at the front of an incoming unidirectional stream, as
/// far as `buf` holds it.
pub fn decode_uni(buf: &[u8], session_id: u64) -> (r: UniStreamKind)
    ensures
        r == uni_kind(buf@, session_id),
        r matches UniStreamKind::Incomplete(n) ==> buf@.len() < n <= 16,
{
    match get_varint(buf) {
        None => {
            let n = if buf.len() == 0 {
                1
            } else {
                varint_size_from_first(buf[0])
            };
            UniStreamKind::Incomplete(n)
        },
        Some((t, n)) => {
            if t == STREAM_UNI_WEBTRANSPORT {
                let rest = &buf[n..buf.len()];
                match get_varint(rest) {
                    None => {
                        let m = if rest.len() == 0 {
                            1
                        } else {
                            varint_size_from_first(rest[0])
                        };
                        UniStreamKind::Incomplete(n + m)
                    },
                    Some((id, _)) => {
                        if id == session_id {
                            UniStreamKind::WebTransport
                        } else {
                            UniStreamKind::UnknownSession(id)
                        }
                    },
                }
            } else if t == STREAM_UNI_QPACK_ENCODER {
                UniStreamKind::QpackEncoder
            } else if t == STREAM_UNI_QPACK_DECODER {
                UniStreamKind::QpackDecoder
            } else {
                UniStreamKind::Other(t)
            }
        },
    }
}

/// Reads the header at the front of an incoming bidirectional stream, as
/// far as `buf` holds it.
pub fn decode_bi(buf: &[u8], session_id: u64) -> (r: BiStreamKind)
    ensures
        r == bi_kind(buf@, session_id),
        r matches BiStreamKind::Incomplete(n) ==> buf@.len() < n <= 16,
{
    match get_varint(buf) {
        None => {
            let n = if buf.len() == 0 {
                1
            } else {
                varint_size_from_first(buf[0])
            };
            BiStreamKind::Incomplete(n)
        },
        Some((t, n)) => {
            if t == FRAME_WEBTRANSPORT {
                let rest = &buf[n..buf.len()];
                match get_varint(rest) {
                    None => {
                        let m = if rest.len() == 0 {
                            1
                        } else {
                            varint_size_from_first(rest[0])
                        };
                        BiStreamKind::Incomplete(n + m)
                    },
                    Some((id, _)) => {
                        if id == session_id {
                            BiStreamKind::WebTransport
                        } else {
                            BiStreamKind::UnknownSession(id)
                        }
                    },
                }
            } else {
                BiStreamKind::Other(t)
            }
        },
    }
}

/// What becomes of a unidirectional stream once its header is read.
#[derive(Clone, Copy, Debug, PartialEq, Eq)]
pub enum UniAction {
    /// Hand it to the caller of `accept_uni`.
    Surface,
    /// Keep it open for the session's lifetime, unread (a QPACK stream).
    Retain,
    /// Drop it.
    Drop,
}

/// What becomes of a unidirectional stream of kind `k`.
pub open spec fn uni_action(k: UniStreamKind) -> UniAction {
    match k {
        UniStreamKind::WebTransport => UniAction::Surface,
        UniStreamKind::QpackEncoder => UniAction::Retain,
        UniStreamKind::QpackDecoder => UniAction::Retain,
        _ => UniAction::Drop,
    }
}

/// Whether `s` starts with the integer `typ` and then the integer `session_id`.
pub open spec fn header_names(s: Seq<u8>, typ: u64, session_id: u64) -> bool {
    match varint_parse(s) {
        Some((t, n)) => t == typ && match varint_parse(s.subrange(n as int, s.len() as int)) {
            Some((id, m)) => id == session_id,
            None => false,
        },
        None => false,
    }
}

/// Streams that `accept_uni` hands out are exactly those whose header names
/// the WebTransport stream type and then this session; any other first
/// integer keeps a stream from the caller.
pub proof fn lemma_uni_surfaced_iff_header(s: Seq<u8>, session_id: u64)
    ensures
        uni_action(uni_kind(s, session_id)) == UniAction::Surface <==> header_names(
            s,
            STREAM_UNI_WEBTRANSPORT,
            session_id,
        ),
{
}

/// The header that a session writes on a unidirectional stream it opens
/// identifies the stream as one of that session at the peer, whatever the
/// application writes after it.
pub proof fn lemma_uni_header_accepted(session_id: u64, rest: Seq<u8>)
    requires
        session_id < VARINT_BOUND,
    ensures
        uni_kind(uni_header_bytes(session_id) + rest, session_id) == UniStreamKind::WebTransport,
{
    let s = uni_header_bytes(session_id) + rest;
    let h = varint_bytes(STREAM_UNI_WEBTRANSPORT);
    lemma_varint_round_trip(STREAM_UNI_WEBTRANSPORT, varint_bytes(session_id) + rest);
    assert(s =~= h + (varint_bytes(session_id) + rest));
    lemma_varint_round_trip(session_id, rest);
    assert(s.subrange(h.len() as int, s.len() as int) =~= varint_bytes(session_id) + rest);
}

/// Streams that `accept_bi` hands out are exactly those whose header names
/// the WebTransport frame type and then this session.
pub proof fn lemma_bi_surfaced_iff_header(s: Seq<u8>, session_id: u64)
    ensures
        bi_kind(s, session_id) == BiStreamKind::WebTransport <==> header_names(
            s,
            FRAME_WEBTRANSPORT,
            session_id,
        ),
{
}

/// The header that a session writes on a bidirectional stream it opens
/// identifies the stream as one of that session at the peer.
pub proof fn lemma_bi_header_accepted(session_id: u64, rest: Seq<u8>)
    requires
        session_id < VARINT_BOUND,
    ensures
        bi_kind(bi_header_bytes(session_id) + rest, session_id) == BiStreamKind::WebTransport,
{
    let s = bi_header_bytes(session_id) + rest;
    let h = varint_bytes(FRAME_WEBTRANSPORT);
    lemma_varint_round_trip(FRAME_WEBTRANSPORT, varint_bytes(session_id) + rest);
    assert(s =~= h + (varint_bytes(session_id) + rest));
    lemma_varint_round_trip(session_id, rest);
    assert(s.subrange(h.len() as int, s.len() as int) =~= varint_bytes(session_id) + rest);
}

/// Whether `v` holds `id`.
fn holds(v: &Vec<u64>, id: u64) -> (r: bool)
    ensures
        r == v@.contains(id),
{
    let mut i: usize = 0;
    while i < v.len()
        invariant
            i <= v.len(),
            forall|j: int| 0 <= j < i ==> v@[j] != id,
        decreases v.len() - i,
    {
        if v[i] == id {
            return true;
        }
        i = i + 1;
    }
    false
}

/// `v` without `id`.
fn without(v: &Vec<u64>, id: u64) -> (r: Vec<u64>)
    ensures
        forall|x: u64| r@.contains(x) <==> (v@.contains(x) && x != id),
{
    let mut out: Vec<u64> = Vec::new();
    let mut i: usize = 0;
    while i < v.len()
        invariant
            i <= v.len(),
            forall|x: u64| out@.contains(x) <==> (v@.subrange(0, i as int).contains(x) && x != id),
        decreases v.len() - i,
    {
        let x = v[i];
        if x != id {
            out.push(x);
        }
        assert(v@.subrange(0, i + 1) =~= v@.subrange(0, i as int).push(x));
        i = i + 1;
    }
    assert(v@.subrange(0, v.len() as int) =~= v@);
    out
}

/// The bookkeeping of the accept demultiplexer: the ids of the incoming
/// streams whose headers are still being read, and the QPACK streams that
/// are kept open.
pub struct AcceptState {
    pub session_id: u64,
    pub pending_uni: Set<u64>,
    pub pending_bi: Set<u64>,
    pub qpack_encoder: Option<u64>,
    pub qpack_decoder: Option<u64>,
}

/// The accept demultiplexer of an HTTP/3 session. Every stream accepted
/// from QUIC is pending until its header is read; then it is handed to the
/// caller, kept (QPACK), or dropped. Streams come out in the order in which
/// their headers complete.
pub struct H3SessionAccept {
    session_id: u64,
    qpack_encoder: Option<u64>,
    qpack_decoder: Option<u64>,
    pending_uni: Vec<u64>,
    pending_bi: Vec<u64>,
}

impl View for H3SessionAccept {
    type V = AcceptState;

    closed spec fn view(&self) -> AcceptState {
        AcceptState {
            session_id: self.session_id,
            pending_uni: Set::new(|x: u64| self.pending_uni@.contains(x)),
            pending_bi: Set::new(|x: u64| self.pending_bi@.contains(x)),
            qpack_encoder: self.qpack_encoder,
            qpack_decoder: self.qpack_decoder,
        }
    }
}

impl H3SessionAccept {
    /// Nothing pending and no QPACK stream kept, for session `session_id`.
    pub fn new(session_id: u64) -> (r: Self)
        ensures
            r@ == (AcceptState {
                session_id,
                pending_uni: Set::empty(),
                pending_bi: Set::empty(),
                qpack_encoder: None,
                qpack_decoder: None,
            }),
    {
        let r = H3SessionAccept {
            session_id,
            qpack_encoder: None,
            qpack_decoder: None,
            pending_uni: Vec::new(),
            pending_bi: Vec::new(),
        };
        assert(r@.pending_uni =~= Set::empty());
        assert(r@.pending_bi =~= Set::empty());
        r
    }

    /// The id of the session whose streams are handed out.
    pub fn session_id(&self) -> (r: u64)
        ensures
            r == self@.session_id,
    {
        self.session_id
    }

    /// Whether the unidirectional stream `id` waits for its header.
    pub fn is_pending_uni(&self, id: u64) -> (r: bool)
        ensures
            r == self@.pending_uni.contains(id),
    {
        holds(&self.pending_uni, id)
    }

    /// Whether the bidirectional stream `id` waits for its header.
    pub fn is_pending_bi(&self, id: u64) -> (r: bool)
        ensures
            r == self@.pending_bi.contains(id),
    {
        holds(&self.pending_bi, id)
    }

    /// QUIC accepted the unidirectional stream `id`: its header is now read.
    pub fn uni_accepted(&mut self, id: u64)
        ensures
            final(self)@ == (AcceptState {
                pending_uni: old(self)@.pending_uni.insert(id),
                ..old(self)@
            }),
    {
        if !holds(&self.pending_uni, id) {
            self.pending_uni.push(id);
        }
        assert(self@.pending_uni =~= old(self)@.pending_uni.insert(id));
    }

    /// QUIC accepted the bidirectional stream `id`: its header is now read.
    pub fn bi_accepted(&mut self, id: u64)
        ensures
            final(self)@ == (AcceptState {
                pending_bi: old(self)@.pending_bi.insert(id),
                ..old(self)@
            }),
    {
        if !holds(&self.pending_bi, id) {
            self.pending_bi.push(id);
        }
        assert(self@.pending_bi =~= old(self)@.pending_bi.insert(id));
    }

    /// Reading the header of the unidirectional stream `id` failed (the peer
    /// reset it early): the stream is dropped, and nobody is told.
    pub fn uni_failed(&mut self, id: u64)
        ensures
            final(self)@ == (AcceptState {
                pending_uni: old(self)@.pending_uni.remove(id),
                ..old(self)@
            }),
    {
        self.pending_uni = without(&self.pending_uni, id);
        assert(self@.pending_uni =~= old(self)@.pending_uni.remove(id));
    }

    /// Reading the header of the bidirectional stream `id` failed: the
    /// stream is dropped, and nobody is told.
    pub fn bi_failed(&mut self, id: u64)
        ensures
            final(self)@ == (AcceptState {
                pending_bi: old(self)@.pending_bi.remove(id),
                ..old(self)@
            }),
    {
        self.pending_bi = without(&self.pending_bi, id);
        assert(self@.pending_bi =~= old(self)@.pending_bi.remove(id));
    }

    /// The header of the unidirectional stream `id` was read and is of kind
    /// `kind`: the stream leaves the pending set, and the result says what
    /// becomes of it. A QPACK stream replaces the one of its kind kept so far.
    pub fn uni_decoded(&mut self, id: u64, kind: UniStreamKind) -> (r: UniAction)
        requires
            !(kind is Incomplete),
        ensures
            r == uni_action(kind),
            final(self)@ == (AcceptState {
                pending_uni: old(self)@.pending_uni.remove(id),
                qpack_encoder: if kind is QpackEncoder {
                    Some(id)
                } else {
                    old(self)@.qpack_encoder
                },
                qpack_decoder: if kind is QpackDecoder {
                    Some(id)
                } else {
                    old(self)@.qpack_decoder
                },
                ..old(self)@
            }),
    {
        self.uni_failed(id);
        match kind {
            UniStreamKind::WebTransport => UniAction::Surface,
            UniStreamKind::QpackEncoder => {
                self.qpack_encoder = Some(id);
                UniAction::Retain
            },
            UniStreamKind::QpackDecoder => {
                self.qpack_decoder = Some(id);
                UniAction::Retain
            },
            _ => UniAction::Drop,
        }
    }

    /// The header of the bidirectional stream `id` was read and is of kind
    /// `kind`: the stream leaves the pending set, and is handed to the caller
    /// exactly when the result is true; else both halves are dropped.
    pub fn bi_decoded(&mut self, id: u64, kind: BiStreamKind) -> (r: bool)
        requires
            !(kind is Incomplete),
        ensures
            r == (kind == BiStreamKind::WebTransport),
            final(self)@ == (AcceptState {
                pending_bi: old(self)@.pending_bi.remove(id),
                ..old(self)@
            }),
    {
        self.bi_failed(id);
        match kind {
            BiStreamKind::WebTransport => true,
            _ => false,
        }
    }
}

} // verus!
