use web_transport_iroh::accept::{decode_uni, H3SessionAccept, UniAction};
use web_transport_iroh::error::error_from_http3;
use web_transport_iroh::session::Session;
use web_transport_iroh::varint::varint_size_from_first;

#[test]
fn h3_session_carries_stream_url_and_close_code() {
    let url = url::Url::parse("https://server-id/foo").unwrap();
    let client = Session::new_h3(url.clone(), 0);
    let server = Session::new_h3(url, 0);
    assert_eq!(server.url().unwrap().as_str(), "https://server-id/foo");

    // The client opens a unidirectional stream and writes "hi".
    let mut wire = client.uni_header().to_vec();
    wire.extend_from_slice(b"hi");

    // The server reads exactly the header, then surfaces the stream.
    let mut acc = H3SessionAccept::new(server.session_id().unwrap());
    acc.uni_accepted(2);
    let kind = decode_uni(&wire[..client.uni_header().len()], 0);
    assert_eq!(acc.uni_decoded(2, kind), UniAction::Surface);
    assert_eq!(&wire[client.uni_header().len()..], b"hi");

    // The server closes with 23; the client reads 23 back from the wire code.
    assert_eq!(error_from_http3(server.close_code(23)), Some(23));
}

#[test]
fn raw_session_passes_bytes_and_codes_through() {
    let s = Session::raw();
    assert!(s.url().is_none());
    assert_eq!(s.close_code(23), 23);
    assert_eq!(s.frame_datagram(&[0x40, 0x54]), vec![0x40, 0x54]);
}

#[test]
fn varint_length_from_first_byte() {
    assert_eq!(varint_size_from_first(0x00), 1);
    assert_eq!(varint_size_from_first(0x3f), 1);
    assert_eq!(varint_size_from_first(0x40), 2);
    assert_eq!(varint_size_from_first(0x80), 4);
    assert_eq!(varint_size_from_first(0xc0), 8);
    assert_eq!(varint_size_from_first(0xff), 8);
}
