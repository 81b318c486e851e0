//! The session-establishment and stream-framing engine of a WebTransport
//! library over QUIC, with each rule stated as a contract and proved.
use vstd::prelude::*;

pub mod varint;
pub mod error;
pub mod session;
pub mod accept;
pub mod connect;

verus! {

/// The ALPN that selects HTTP/3 when negotiating a QUIC connection.
pub const ALPN_H3: &'static str = "h3";

} // verus!
