use web_transport_iroh::accept::{
    decode_bi, decode_uni, BiStreamKind, H3SessionAccept, UniAction, UniStreamKind,
};
use web_transport_iroh::session::Session;

#[test]
fn uni_header_read_step_by_step() {
    assert_eq!(decode_uni(&[], 4), UniStreamKind::Incomplete(1));
    assert_eq!(decode_uni(&[0x40], 4), UniStreamKind::Incomplete(2));
    assert_eq!(decode_uni(&[0x40, 0x54], 4), UniStreamKind::Incomplete(3));
    assert_eq!(decode_uni(&[0x40, 0x54, 0x80], 4), UniStreamKind::Incomplete(6));
    assert_eq!(decode_uni(&[0x40, 0x54, 0x04], 4), UniStreamKind::WebTransport);
}

#[test]
fn uni_header_of_other_session() {
    assert_eq!(
        decode_uni(&[0x40, 0x54, 0x08], 4),
        UniStreamKind::UnknownSession(8)
    );
}

#[test]
fn uni_qpack_and_other_types() {
    assert_eq!(decode_uni(&[0x02], 4), UniStreamKind::QpackEncoder);
    assert_eq!(decode_uni(&[0x03], 4), UniStreamKind::QpackDecoder);
    assert_eq!(decode_uni(&[0x00], 4), UniStreamKind::Other(0));
    assert_eq!(decode_uni(&[0x40, 0x41], 4), UniStreamKind::Other(0x41));
}

#[test]
fn bi_header_read_step_by_step() {
    assert_eq!(decode_bi(&[], 4), BiStreamKind::Incomplete(1));
    assert_eq!(decode_bi(&[0x40, 0x41], 4), BiStreamKind::Incomplete(3));
    assert_eq!(decode_bi(&[0x40, 0x41, 0x04], 4), BiStreamKind::WebTransport);
    assert_eq!(decode_bi(&[0x40, 0x41, 0x05], 4), BiStreamKind::UnknownSession(5));
    assert_eq!(decode_bi(&[0x01], 4), BiStreamKind::Other(1));
    assert_eq!(decode_bi(&[0x40, 0x54, 0x04], 4), BiStreamKind::Other(0x54));
}

#[test]
fn opened_stream_headers_are_accepted_by_peer() {
    let s = Session::new_h3(url::Url::parse("https://example.com/").unwrap(), 20000);
    let mut uni = s.uni_header().to_vec();
    uni.extend_from_slice(b"hi");
    assert_eq!(decode_uni(&uni, 20000), UniStreamKind::WebTransport);
    assert_eq!(decode_bi(s.bi_header(), 20000), BiStreamKind::WebTransport);
    assert_eq!(decode_uni(&uni, 4), UniStreamKind::UnknownSession(20000));
}

#[test]
fn demux_surfaces_only_own_webtransport_streams() {
    let mut acc = H3SessionAccept::new(4);
    assert_eq!(acc.session_id(), 4);
    acc.uni_accepted(2);
    acc.uni_accepted(6);
    acc.uni_accepted(10);
    assert!(acc.is_pending_uni(2) && acc.is_pending_uni(6) && acc.is_pending_uni(10));
    // Headers complete out of order.
    let k = decode_uni(&[0x40, 0x54, 0x08], 4);
    assert_eq!(acc.uni_decoded(10, k), UniAction::Drop);
    let k = decode_uni(&[0x40, 0x54, 0x04], 4);
    assert_eq!(acc.uni_decoded(6, k), UniAction::Surface);
    let k = decode_uni(&[0x21], 4);
    assert_eq!(acc.uni_decoded(2, k), UniAction::Drop);
    assert!(!acc.is_pending_uni(2) && !acc.is_pending_uni(6) && !acc.is_pending_uni(10));
}

#[test]
fn demux_retains_qpack_streams() {
    let mut acc = H3SessionAccept::new(0);
    acc.uni_accepted(3);
    acc.uni_accepted(7);
    assert_eq!(acc.uni_decoded(3, UniStreamKind::QpackEncoder), UniAction::Retain);
    assert_eq!(acc.uni_decoded(7, UniStreamKind::QpackDecoder), UniAction::Retain);
    assert!(!acc.is_pending_uni(3) && !acc.is_pending_uni(7));
}

#[test]
fn demux_failed_header_is_dropped_silently() {
    let mut acc = H3SessionAccept::new(0);
    acc.uni_accepted(3);
    acc.uni_failed(3);
    assert!(!acc.is_pending_uni(3));
    acc.bi_accepted(1);
    acc.bi_failed(1);
    assert!(!acc.is_pending_bi(1));
}

#[test]
fn demux_bi_streams() {
    let mut acc = H3SessionAccept::new(0);
    acc.bi_accepted(1);
    acc.bi_accepted(5);
    assert!(acc.is_pending_bi(1) && acc.is_pending_bi(5));
    assert!(!acc.bi_decoded(5, decode_bi(&[0x01], 0)));
    assert!(acc.bi_decoded(1, decode_bi(&[0x40, 0x41, 0x00], 0)));
    assert!(!acc.is_pending_bi(1) && !acc.is_pending_bi(5));
}

#[test]
fn demux_accepting_twice_keeps_one_entry() {
    let mut acc = H3SessionAccept::new(0);
    acc.uni_accepted(3);
    acc.uni_accepted(3);
    acc.uni_failed(3);
    assert!(!acc.is_pending_uni(3));
}
