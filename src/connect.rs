//! The decisions of the HTTP/3 handshake: the peer's SETTINGS, the answer
//! to an extended CONNECT request, and the capsules on the CONNECT stream.
use vstd::prelude::*;

use iroh::endpoint::ReadError as StreamReadError;
use iroh::endpoint::WriteError as StreamWriteError;
use web_transport_proto::ConnectError as ProtoConnectError;
use web_transport_proto::SettingsError as ProtoSettingsError;

verus! {

#[verifier::external_type_specification]
#[verifier::external_body]
pub struct ExStreamReadError(StreamReadError);

#[verifier::external_type_specification]
#[verifier::external_body]
pub struct ExProtoConnectError(ProtoConnectError);

#[verifier::external_type_specification]
#[verifier::external_body]
pub struct ExProtoSettingsError(ProtoSettingsError);

/// The HTTP status that accepts a CONNECT request.
pub const STATUS_OK: u16 = 200;

/// An error during the HTTP/3 SETTINGS exchange.
#[derive(Debug)]
pub enum SettingsError {
    UnexpectedEnd,
    ProtoError(ProtoSettingsError),
    /// The peer's SETTINGS do not enable WebTransport.
    WebTransportUnsupported,
    ConnectionError(iroh::endpoint::ConnectionError),
    ReadError(StreamReadError),
    WriteError(StreamWriteError),
}

/// An error during the extended CONNECT exchange.
#[derive(Debug)]
pub enum ConnectError {
    UnexpectedEnd,
    ProtoError(ProtoConnectError),
    ConnectionError(iroh::endpoint::ConnectionError),
    ReadError(StreamReadError),
    WriteError(StreamWriteError),
    /// The server answered with this HTTP status rather than 200.
    ErrorStatus(u16),
    /// The selected subprotocol is not one that the request offered.
    ProtocolMismatch(String),
}

/// Whether the peer's SETTINGS, which allow `max_sessions` WebTransport
/// sessions, let a session start: any number but zero does.
pub fn check_peer_settings(max_sessions: u64) -> (r: Result<(), SettingsError>)
    ensures
        max_sessions != 0 ==> r is Ok,
        max_sessions == 0 ==> r matches Err(SettingsError::WebTransportUnsupported),
{
    if max_sessions == 0 {
        Err(SettingsError::WebTransportUnsupported)
    } else {
        Ok(())
    }
}

/// Whether `offered` holds a subprotocol spelled `p`.
pub open spec fn offers(offered: Seq<String>, p: Seq<char>) -> bool {
    exists|i: int| 0 <= i < offered.len() && offered[i]@ == p
}

/// Whether the subprotocol `protocol` that a response selects is allowed by
/// a request that offered `offered`: none selected, or one of those offered.
pub open spec fn protocol_allowed(protocol: Option<String>, offered: Seq<String>) -> bool {
    match protocol {
        None => true,
        Some(p) => offers(offered, p@),
    }
}

/// Whether `offered` holds `p`.
fn offered_holds(offered: &Vec<String>, p: &String) -> (r: bool)
    ensures
        r == offers(offered@, p@),
{
    let mut i: usize = 0;
    while i < offered.len()
        invariant
            i <= offered.len(),
            forall|j: int| 0 <= j < i ==> offered@[j]@ != p@,
        decreases offered.len() - i,
    {
        if offered[i] == *p {
            return true;
        }
        i = i + 1;
    }
    false
}

/// Checks the subprotocol that a response selects against those that the
/// request offered: the server does so before it answers, the client once
/// the answer has come.
pub fn check_protocol(protocol: &Option<String>, offered: &Vec<String>) -> (r: Result<
    (),
    ConnectError,
>)
    ensures
        protocol_allowed(*protocol, offered@) ==> r is Ok,
        !protocol_allowed(*protocol, offered@) ==> (r matches Err(
            ConnectError::ProtocolMismatch(q),
        ) && protocol matches Some(p) && q@ == p@),
{
    match protocol {
        None => Ok(()),
        Some(p) => {
            if offered_holds(offered, p) {
                Ok(())
            } else {
                Err(ConnectError::ProtocolMismatch(p.clone()))
            }
        },
    }
}

/// Checks the answer to a CONNECT request that offered `offered`: the status
/// must be 200, and then the selected subprotocol one of those offered.
pub fn check_response(status: u16, protocol: &Option<String>, offered: &Vec<String>) -> (r: Result<
    (),
    ConnectError,
>)
    ensures
        status == STATUS_OK && protocol_allowed(*protocol, offered@) ==> r is Ok,
        status != STATUS_OK ==> (r matches Err(ConnectError::ErrorStatus(s)) && s == status),
        status == STATUS_OK && !protocol_allowed(*protocol, offered@) ==> (r matches Err(
            ConnectError::ProtocolMismatch(q),
        ) && protocol matches Some(p) && q@ == p@),
{
    if status != STATUS_OK {
        return Err(ConnectError::ErrorStatus(status));
    }
    check_protocol(protocol, offered)
}

/// What the drain of the CONNECT stream read next.
#[derive(Debug)]
pub enum CapsuleEvent {
    /// The peer closes the session with this code and reason.
    Close(u32, String),
    /// A GREASE capsule, to be ignored.
    Grease,
    /// A capsule of an unknown type, to be ignored.
    Unknown(u64),
    /// The stream ended.
    End,
    /// The stream did not hold a capsule.
    Error,
}

/// How the session closes after `ev`, or `None` when the drain goes on.
pub fn close_for_capsule(ev: CapsuleEvent) -> (r: Option<(u32, String)>)
    ensures
        match ev {
            CapsuleEvent::Close(code, reason) => r == Some((code, reason)),
            CapsuleEvent::Grease => r is None,
            CapsuleEvent::Unknown(_) => r is None,
            CapsuleEvent::End => (r matches Some((code, reason)) && code == 0 && reason@
                == "stream closed"@),
            CapsuleEvent::Error => (r matches Some((code, reason)) && code == 1 && reason@
                == "capsule error"@),
        },
{
    match ev {
        CapsuleEvent::Close(code, reason) => Some((code, reason)),
        CapsuleEvent::Grease => None,
        CapsuleEvent::Unknown(_) => None,
        CapsuleEvent::End => Some((0, "stream closed".to_string())),
        CapsuleEvent::Error => Some((1, "capsule error".to_string())),
    }
}

} // verus!
