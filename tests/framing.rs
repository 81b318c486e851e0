use web_transport_iroh::error::{SessionError, WebTransportError};
use web_transport_iroh::session::Session;

fn url(s: &str) -> url::Url {
    url::Url::parse(s).unwrap()
}

#[test]
fn uni_and_bi_headers_name_type_then_session() {
    let s = Session::new_h3(url("https://example.com/foo"), 4);
    assert_eq!(s.uni_header(), &[0x40, 0x54, 0x04]);
    assert_eq!(s.bi_header(), &[0x40, 0x41, 0x04]);
}

#[test]
fn headers_with_two_byte_and_four_byte_session_ids() {
    let s = Session::new_h3(url("https://example.com/"), 100);
    assert_eq!(s.uni_header(), &[0x40, 0x54, 0x40, 0x64]);
    let s = Session::new_h3(url("https://example.com/"), 20000);
    assert_eq!(s.bi_header(), &[0x40, 0x41, 0x80, 0x00, 0x4e, 0x20]);
}

#[test]
fn headers_with_eight_byte_session_id() {
    let s = Session::new_h3(url("https://example.com/"), (1u64 << 62) - 1);
    assert_eq!(
        s.uni_header(),
        &[0x40, 0x54, 0xff, 0xff, 0xff, 0xff, 0xff, 0xff, 0xff, 0xff]
    );
}

#[test]
fn datagram_prefixed_with_session_id() {
    let s = Session::new_h3(url("https://example.com/"), 4);
    assert_eq!(s.frame_datagram(b"hi"), vec![0x04, b'h', b'i']);
    let s = Session::new_h3(url("https://example.com/"), 20000);
    assert_eq!(s.frame_datagram(b""), vec![0x80, 0x00, 0x4e, 0x20]);
}

#[test]
fn max_datagram_size_subtracts_prefix() {
    let s = Session::new_h3(url("https://example.com/"), 4);
    assert_eq!(s.max_datagram_size(1200), 1199);
    let s = Session::new_h3(url("https://example.com/"), 20000);
    assert_eq!(s.max_datagram_size(1200), 1196);
}

#[test]
fn max_datagram_size_saturates_at_zero() {
    let s = Session::new_h3(url("https://example.com/"), 20000);
    assert_eq!(s.max_datagram_size(3), 0);
    assert_eq!(s.max_datagram_size(4), 0);
    assert_eq!(s.max_datagram_size(0), 0);
}

#[test]
fn datagram_round_trip() {
    let s = Session::new_h3(url("https://example.com/"), 20000);
    let framed = s.frame_datagram(b"payload");
    let back = s.unframe_datagram(framed).ok().unwrap();
    assert_eq!(back, b"payload".to_vec());
}

#[test]
fn datagram_of_other_session_is_unknown_session() {
    let s = Session::new_h3(url("https://example.com/"), 4);
    let r = s.unframe_datagram(vec![0x08, b'b', b'o', b'd', b'y']);
    assert!(matches!(
        r,
        Err(SessionError::WebTransportError(WebTransportError::UnknownSession))
    ));
}

#[test]
fn truncated_or_empty_datagram_is_unknown_session() {
    let s = Session::new_h3(url("https://example.com/"), 4);
    assert!(matches!(
        s.unframe_datagram(vec![]),
        Err(SessionError::WebTransportError(WebTransportError::UnknownSession))
    ));
    assert!(matches!(
        s.unframe_datagram(vec![0x80, 0x00]),
        Err(SessionError::WebTransportError(WebTransportError::UnknownSession))
    ));
}

#[test]
fn datagram_of_own_session_is_stripped() {
    let s = Session::new_h3(url("https://example.com/"), 4);
    let r = s.unframe_datagram(vec![0x04, b'x', b'y']).ok().unwrap();
    assert_eq!(r, vec![b'x', b'y']);
}

#[test]
fn raw_session_applies_no_framing() {
    let s = Session::raw();
    assert!(s.url().is_none());
    assert_eq!(s.session_id(), None);
    assert!(s.uni_header().is_empty());
    assert!(s.bi_header().is_empty());
    assert_eq!(s.frame_datagram(b"abc"), b"abc".to_vec());
    assert_eq!(s.unframe_datagram(vec![0x04, 1, 2]).ok().unwrap(), vec![0x04, 1, 2]);
    assert_eq!(s.max_datagram_size(1200), 1200);
}

#[test]
fn h3_session_keeps_url_and_id() {
    let s = Session::new_h3(url("https://server-id/foo"), 0);
    assert_eq!(s.url().unwrap().as_str(), "https://server-id/foo");
    assert_eq!(s.session_id(), Some(0));
}

#[test]
fn close_code_over_h3_is_remapped() {
    let s = Session::new_h3(url("https://server-id/foo"), 0);
    let code = s.close_code(23);
    assert_eq!(code, 0x52e4a40fa8db + 23);
    assert_eq!(web_transport_iroh::error::error_from_http3(code), Some(23));
}

#[test]
fn close_code_on_raw_session_is_unchanged() {
    let s = Session::raw();
    assert_eq!(s.close_code(23), 23);
}
