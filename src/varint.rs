//! QUIC variable-length integers: the encoding as a sequence of bytes, and
//! reading one back from the front of a buffer.
use vstd::prelude::*;

verus! {

/// Every value of a QUIC variable-length integer is below this bound.
pub const VARINT_BOUND: u64 = 0x4000_0000_0000_0000;

/// Number of bytes that the encoding of `v` takes.
pub open spec fn varint_size(v: u64) -> nat {
    if v < 0x40 {
        1
    } else if v < 0x4000 {
        2
    } else if v < 0x4000_0000 {
        4
    } else {
        8
    }
}

/// The two-bit length tag of the encoding of `v`, in place above its value bits.
pub open spec fn varint_tag(v: u64) -> u64 {
    if v < 0x40 {
        0
    } else if v < 0x4000 {
        0x4000
    } else if v < 0x4000_0000 {
        0x8000_0000
    } else {
        0xc000_0000_0000_0000
    }
}

/// The `n` low bytes of `x`, most significant first.
pub open spec fn be_bytes(x: u64, n: nat) -> Seq<u8> {
    Seq::new(n, |i: int| ((x >> ((8 * (n - 1 - i)) as u64)) & 0xff) as u8)
}

/// The bytes that encode `v`.
pub open spec fn varint_bytes(v: u64) -> Seq<u8> {
    be_bytes(v | varint_tag(v), varint_size(v))
}

/// Length of an encoding, as announced by the two top bits of its first byte.
pub open spec fn varint_size_of_first(b: u8) -> nat {
    if b < 0x40 {
        1
    } else if b < 0x80 {
        2
    } else if b < 0xc0 {
        4
    } else {
        8
    }
}

/// The first `n` bytes of `s` read as a big-endian number.
pub open spec fn be_value(s: Seq<u8>, n: nat) -> u64
    decreases n,
{
    if n == 0 {
        0
    } else {
        (be_value(s, (n - 1) as nat) << 8u64) | (s[n - 1] as u64)
    }
}

/// The value encoded at the front of `s`, whose length tag is masked off.
pub open spec fn varint_value(s: Seq<u8>) -> u64 {
    be_value(s.update(0, s[0] & 0x3f), varint_size_of_first(s[0]))
}

/// The integer at the front of `s` with the number of bytes it takes, or
/// `None` when `s` ends before the encoding does.
pub open spec fn varint_parse(s: Seq<u8>) -> Option<(u64, nat)> {
    if s.len() == 0 || s.len() < varint_size_of_first(s[0]) {
        None
    } else {
        Some((varint_value(s), varint_size_of_first(s[0])))
    }
}

/// Number of bytes that one integer at the front of `s` takes, as far as
/// `s` tells: one byte while `s` is empty.
pub open spec fn varint_need(s: Seq<u8>) -> nat {
    if s.len() == 0 {
        1
    } else {
        varint_size_of_first(s[0])
    }
}

/// Number of bytes of the encoding that starts with `b`.
pub fn varint_size_from_first(b: u8) -> (r: usize)
    ensures
        r == varint_size_of_first(b),
{
    if b < 0x40 {
        1
    } else if b < 0x80 {
        2
    } else if b < 0xc0 {
        4
    } else {
        8
    }
}

/// Relies on `web_transport_proto::VarInt::encode`: appends the encoding of
/// `v` (one, two, four or eight big-endian bytes under a length tag).
#[verifier::external_body]
pub(crate) fn put_varint(v: u64, buf: &mut Vec<u8>)
    requires
        v < VARINT_BOUND,
    ensures
        final(buf)@ == old(buf)@ + varint_bytes(v),
{
    web_transport_proto::VarInt::from_u64(v).unwrap().encode(buf)
}

/// Relies on `web_transport_proto::VarInt::decode`: reads one integer from
/// the front of `buf`, and says how many bytes it took.
#[verifier::external_body]
pub(crate) fn get_varint(buf: &[u8]) -> (r: Option<(u64, usize)>)
    ensures
        match r {
            None => varint_parse(buf@) is None,
            Some((v, n)) => varint_parse(buf@) == Some((v, n as nat)),
        },
{
    let mut cursor = std::io::Cursor::new(buf);
    match web_transport_proto::VarInt::decode(&mut cursor) {
        Ok(v) => Some((v.into_inner(), cursor.position() as usize)),
        Err(_) => None,
    }
}

/// Reading back the encoding of `v`, whatever follows it, gives `v` and the
/// length of the encoding.
pub proof fn lemma_varint_round_trip(v: u64, rest: Seq<u8>)
    requires
        v < VARINT_BOUND,
    ensures
        varint_parse(varint_bytes(v) + rest) == Some((v, varint_size(v))),
{
    let s = varint_bytes(v) + rest;
    let t = v | varint_tag(v);
    let n = varint_size(v);
    assert(s[0] == varint_bytes(v)[0]);
    let m = s.update(0, s[0] & 0x3f);
    if v < 0x40 {
        let b0 = ((t >> 0u64) & 0xff) as u8;
        assert(s[0] == b0);
        assert(b0 < 0x40 && ((0u64 << 8u64) | ((b0 & 0x3f) as u64)) == v) by (bit_vector)
            requires
                v < 0x40,
                t == v | 0,
                b0 == ((t >> 0u64) & 0xff) as u8,
        ;
        assert(be_value(m, 1) == (be_value(m, 0) << 8u64) | (m[0] as u64));
    } else if v < 0x4000 {
        let b0 = ((t >> 8u64) & 0xff) as u8;
        let b1 = ((t >> 0u64) & 0xff) as u8;
        assert(s[0] == b0 && s[1] == b1);
        assert(0x40 <= b0 < 0x80 && ((((0u64 << 8u64) | ((b0 & 0x3f) as u64)) << 8u64) | (
        b1 as u64)) == v) by (bit_vector)
            requires
                0x40 <= v < 0x4000,
                t == v | 0x4000,
                b0 == ((t >> 8u64) & 0xff) as u8,
                b1 == ((t >> 0u64) & 0xff) as u8,
        ;
        assert(m[1] == b1);
        assert(be_value(m, 1) == (be_value(m, 0) << 8u64) | (m[0] as u64));
        assert(be_value(m, 2) == (be_value(m, 1) << 8u64) | (m[1] as u64));
    } else if v < 0x4000_0000 {
        let b0 = ((t >> 24u64) & 0xff) as u8;
        let b1 = ((t >> 16u64) & 0xff) as u8;
        let b2 = ((t >> 8u64) & 0xff) as u8;
        let b3 = ((t >> 0u64) & 0xff) as u8;
        assert(s[0] == b0 && s[1] == b1 && s[2] == b2 && s[3] == b3);
        assert(0x80 <= b0 < 0xc0 && ((((((((0u64 << 8u64) | ((b0 & 0x3f) as u64)) << 8u64) | (
        b1 as u64)) << 8u64) | (b2 as u64)) << 8u64) | (b3 as u64)) == v) by (bit_vector)
            requires
                0x4000 <= v < 0x4000_0000,
                t == v | 0x8000_0000,
                b0 == ((t >> 24u64) & 0xff) as u8,
                b1 == ((t >> 16u64) & 0xff) as u8,
                b2 == ((t >> 8u64) & 0xff) as u8,
                b3 == ((t >> 0u64) & 0xff) as u8,
        ;
        assert(m[1] == b1 && m[2] == b2 && m[3] == b3);
        assert(be_value(m, 1) == (be_value(m, 0) << 8u64) | (m[0] as u64));
        assert(be_value(m, 2) == (be_value(m, 1) << 8u64) | (m[1] as u64));
        assert(be_value(m, 3) == (be_value(m, 2) << 8u64) | (m[2] as u64));
        assert(be_value(m, 4) == (be_value(m, 3) << 8u64) | (m[3] as u64));
    } else {
        let b0 = ((t >> 56u64) & 0xff) as u8;
        let b1 = ((t >> 48u64) & 0xff) as u8;
        let b2 = ((t >> 40u64) & 0xff) as u8;
        let b3 = ((t >> 32u64) & 0xff) as u8;
        let b4 = ((t >> 24u64) & 0xff) as u8;
        let b5 = ((t >> 16u64) & 0xff) as u8;
        let b6 = ((t >> 8u64) & 0xff) as u8;
        let b7 = ((t >> 0u64) & 0xff) as u8;
        assert(s[0] == b0 && s[1] == b1 && s[2] == b2 && s[3] == b3);
        assert(s[4] == b4 && s[5] == b5 && s[6] == b6 && s[7] == b7);
        assert(0xc0 <= b0 && ((((((((((((((((0u64 << 8u64) | ((b0 & 0x3f) as u64)) << 8u64) | (
        b1 as u64)) << 8u64) | (b2 as u64)) << 8u64) | (b3 as u64)) << 8u64) | (b4 as u64))
            << 8u64) | (b5 as u64)) << 8u64) | (b6 as u64)) << 8u64) | (b7 as u64)) == v)
            by (bit_vector)
            requires
                0x4000_0000 <= v < 0x4000_0000_0000_0000,
                t == v | 0xc000_0000_0000_0000,
                b0 == ((t >> 56u64) & 0xff) as u8,
                b1 == ((t >> 48u64) & 0xff) as u8,
                b2 == ((t >> 40u64) & 0xff) as u8,
                b3 == ((t >> 32u64) & 0xff) as u8,
                b4 == ((t >> 24u64) & 0xff) as u8,
                b5 == ((t >> 16u64) & 0xff) as u8,
                b6 == ((t >> 8u64) & 0xff) as u8,
                b7 == ((t >> 0u64) & 0xff) as u8,
        ;
        assert(m[1] == b1 && m[2] == b2 && m[3] == b3 && m[4] == b4);
        assert(m[5] == b5 && m[6] == b6 && m[7] == b7);
        assert(be_value(m, 1) == (be_value(m, 0) << 8u64) | (m[0] as u64));
        assert(be_value(m, 2) == (be_value(m, 1) << 8u64) | (m[1] as u64));
        assert(be_value(m, 3) == (be_value(m, 2) << 8u64) | (m[2] as u64));
        assert(be_value(m, 4) == (be_value(m, 3) << 8u64) | (m[3] as u64));
        assert(be_value(m, 5) == (be_value(m, 4) << 8u64) | (m[4] as u64));
        assert(be_value(m, 6) == (be_value(m, 5) << 8u64) | (m[5] as u64));
        assert(be_value(m, 7) == (be_value(m, 6) << 8u64) | (m[6] as u64));
        assert(be_value(m, 8) == (be_value(m, 7) << 8u64) | (m[7] as u64));
    }
}

} // verus!
