//! The client side of a session: the Hello it sends, its check of the server's
//! answer, and what it makes of each reply.
use crate::auth::{client_proof, compute_client_proof, hmac_sha256_verify, server_label_bytes, server_proof};
use crate::error::WolfUsbError;
use crate::protocol::messages::{
    HelloRequest, Message, TransferResponse, PROTOCOL_VERSION,
};
use crate::protocol::types::{DeviceDescriptorTree, DeviceInfo};
use vstd::prelude::*;

verus! {

/// A client with key `key` that sent `nonce` accepts the server's answer: the
/// server accepted, with a key its proof is the server tag of the nonce, and
/// the protocol versions agree.
pub open spec fn client_accepts(key: Option<Seq<u8>>, nonce: Seq<u8>, accepted: bool, challenge: Seq<u8>, version: u32) -> bool {
    &&& accepted
    &&& key matches Some(k) ==> challenge == server_proof(key, nonce)
    &&& version == PROTOCOL_VERSION
}

/// The key as a sequence of bytes.
pub open spec fn key_of(k: Option<&[u8]>) -> Option<Seq<u8>> {
    match k {
        Some(v) => Some(v@),
        None => None,
    }
}

/// `format!("{:?}", message)`: the derived `Debug` text of a message. Nothing
/// is stated of the text.
#[verifier::external_body]
pub(crate) fn debug_text(m: &Message) -> String {
    format!("{m:?}")
}

/// A reply that is not the one expected.
pub open spec fn is_unexpected<T>(r: Result<T, WolfUsbError>, expected: Seq<char>) -> bool {
    r matches Err(WolfUsbError::UnexpectedMessage { expected: e, got: _ }) && e@ == expected
}

fn unexpected(expected: &str, got: &Message) -> (e: WolfUsbError)
    ensures
        e matches WolfUsbError::UnexpectedMessage { expected: x, got: _ } && x@ == expected@,
{
    WolfUsbError::UnexpectedMessage { expected: String::from_str(expected), got: debug_text(got) }
}

/// The Hello a client sends: the protocol version, its name, its nonce, and its
/// proof of the key (`HMAC(key, nonce || "wolfusb-client")`, empty without a key).
pub fn hello_request(client_name: &str, shared_key: Option<&[u8]>, auth_nonce: [u8; 32]) -> (req: HelloRequest)
    ensures
        req.protocol_version == PROTOCOL_VERSION,
        req.client_name@ == client_name@,
        req.auth_nonce == auth_nonce,
        req.auth_proof@ == client_proof(key_of(shared_key), auth_nonce@),
{
    let auth_proof = compute_client_proof(shared_key, auth_nonce.as_slice());
    assert(key_of(shared_key) == match shared_key {
        Some(k) => Some(k@),
        None => None::<Seq<u8>>,
    });
    HelloRequest {
        protocol_version: PROTOCOL_VERSION,
        client_name: String::from_str(client_name),
        auth_nonce,
        auth_proof,
    }
}

/// The client's check of the server's answer to its Hello: the server must
/// have accepted, its proof must match (with a key), and the protocol versions
/// must agree. Gives the server's name.
pub fn check_hello_response(response: &Message, shared_key: Option<&[u8]>, auth_nonce: &[u8; 32]) -> (r: Result<String, WolfUsbError>)
    ensures
        match *response {
            Message::HelloResponse(h) => {
                &&& client_accepts(
                    key_of(shared_key),
                    auth_nonce@,
                    h.auth_accepted,
                    h.auth_challenge_response@,
                    h.protocol_version,
                ) ==> (r matches Ok(name) && name@ == h.server_name@)
                &&& !h.auth_accepted ==> (r matches Err(WolfUsbError::AuthenticationFailed(t)) && t@
                    == refusal_text(h.error_message, "Unknown auth error"@))
                &&& h.auth_accepted && shared_key is Some && h.auth_challenge_response@
                    != server_proof(key_of(shared_key), auth_nonce@) ==> (r matches Err(
                    WolfUsbError::AuthenticationFailed(t),
                ) && t@ == "Server HMAC verification failed"@)
                &&& h.auth_accepted && (shared_key is None || h.auth_challenge_response@
                    == server_proof(key_of(shared_key), auth_nonce@)) && h.protocol_version
                    != PROTOCOL_VERSION ==> (r matches Err(
                    WolfUsbError::VersionMismatch { local, remote },
                ) && local == PROTOCOL_VERSION && remote == h.protocol_version)
            },
            _ => is_unexpected(r, "HelloResponse"@),
        },
{
    let h = match response {
        Message::HelloResponse(h) => h,
        _ => {
            return Err(unexpected("HelloResponse", response));
        },
    };
    if !h.auth_accepted {
        let text = match &h.error_message {
            Some(m) => m.clone(),
            None => String::from_str("Unknown auth error"),
        };
        return Err(WolfUsbError::AuthenticationFailed(text));
    }
    // Verify server's HMAC if we have a shared key
    if let Some(key) = shared_key {
        if !hmac_sha256_verify(key, auth_nonce.as_slice(), server_label_bytes(), h.auth_challenge_response.as_slice()) {
            return Err(WolfUsbError::AuthenticationFailed(String::from_str("Server HMAC verification failed")));
        }
    }
    if h.protocol_version != PROTOCOL_VERSION {
        return Err(WolfUsbError::VersionMismatch { local: PROTOCOL_VERSION, remote: h.protocol_version });
    }
    Ok(h.server_name.clone())
}

/// An error reply from the server becomes a protocol error with its text.
pub open spec fn is_server_error<T>(response: Message, r: Result<T, WolfUsbError>) -> bool {
    response matches Message::Error(e) && r matches Err(WolfUsbError::ProtocolError(t)) && t@
        == e.message@
}

/// What `Session::list_devices` makes of the server's reply.
pub fn list_devices_response(response: Message) -> (r: Result<Vec<DeviceInfo>, WolfUsbError>)
    ensures
        match response {
            Message::DeviceList(d) => r matches Ok(v) && v@ == d.devices@,
            Message::Error(_) => is_server_error(response, r),
            _ => is_unexpected(r, "DeviceList"@),
        },
{
    match response {
        Message::DeviceList(resp) => Ok(resp.devices),
        Message::Error(e) => Err(WolfUsbError::ProtocolError(e.message)),
        other => Err(unexpected("DeviceList", &other)),
    }
}

/// What `Session::get_descriptors` makes of the server's reply.
pub fn get_descriptors_response(response: Message) -> (r: Result<DeviceDescriptorTree, WolfUsbError>)
    ensures
        match response {
            Message::DescriptorData(d) => r matches Ok(t) && t == d.descriptors,
            Message::Error(_) => is_server_error(response, r),
            _ => is_unexpected(r, "DescriptorData"@),
        },
{
    match response {
        Message::DescriptorData(resp) => Ok(resp.descriptors),
        Message::Error(e) => Err(WolfUsbError::ProtocolError(e.message)),
        other => Err(unexpected("DescriptorData", &other)),
    }
}

/// The text of a refused operation: the server's text, or a fallback.
pub open spec fn refusal_text(m: Option<String>, fallback: Seq<char>) -> Seq<char> {
    match m {
        Some(t) => t@,
        None => fallback,
    }
}

fn refusal(m: Option<String>, fallback: &str) -> (e: WolfUsbError)
    ensures
        e matches WolfUsbError::ProtocolError(t) && t@ == refusal_text(m, fallback@),
{
    match m {
        Some(t) => WolfUsbError::ProtocolError(t),
        None => WolfUsbError::ProtocolError(String::from_str(fallback)),
    }
}

/// What `Session::attach` makes of the server's reply: the session id when the
/// server granted the device. A reply that grants without a session id is left
/// out: the client cannot go on from it.
pub fn attach_response(response: Message) -> (r: Result<u64, WolfUsbError>)
    requires
        !(response matches Message::AttachResult(a) && a.success && a.session_id is None),
    ensures
        match response {
            Message::AttachResult(a) => if a.success {
                r == Ok::<u64, WolfUsbError>(a.session_id->0)
            } else {
                r matches Err(WolfUsbError::ProtocolError(t)) && t@ == refusal_text(
                    a.error_message,
                    "Attach failed"@,
                )
            },
            Message::Error(_) => is_server_error(response, r),
            _ => is_unexpected(r, "AttachResult"@),
        },
{
    match response {
        Message::AttachResult(resp) => {
            if resp.success {
                match resp.session_id {
                    Some(id) => Ok(id),
                    None => {
                        assert(false);
                        Ok(0)
                    },
                }
            } else {
                Err(refusal(resp.error_message, "Attach failed"))
            }
        },
        Message::Error(e) => Err(WolfUsbError::ProtocolError(e.message)),
        other => Err(unexpected("AttachResult", &other)),
    }
}

/// What `Session::detach` makes of the server's reply.
pub fn detach_response(response: Message) -> (r: Result<(), WolfUsbError>)
    ensures
        match response {
            Message::DetachResult(d) => if d.success {
                r is Ok
            } else {
                r matches Err(WolfUsbError::ProtocolError(t)) && t@ == refusal_text(
                    d.error_message,
                    "Detach failed"@,
                )
            },
            Message::Error(_) => is_server_error(response, r),
            _ => is_unexpected(r, "DetachResult"@),
        },
{
    match response {
        Message::DetachResult(resp) => {
            if resp.success {
                Ok(())
            } else {
                Err(refusal(resp.error_message, "Detach failed"))
            }
        },
        Message::Error(e) => Err(WolfUsbError::ProtocolError(e.message)),
        other => Err(unexpected("DetachResult", &other)),
    }
}

/// What `Session::control_transfer`, `bulk_transfer` and `interrupt_transfer`
/// make of the server's reply.
pub fn transfer_response(response: Message) -> (r: Result<TransferResponse, WolfUsbError>)
    ensures
        match response {
            Message::TransferResult(t) => r matches Ok(x) && x == t,
            Message::Error(_) => is_server_error(response, r),
            _ => is_unexpected(r, "TransferResult"@),
        },
{
    match response {
        Message::TransferResult(resp) => Ok(resp),
        Message::Error(e) => Err(WolfUsbError::ProtocolError(e.message)),
        other => Err(unexpected("TransferResult", &other)),
    }
}

/// What `Session::claim_interface` makes of the server's reply.
pub fn claim_interface_response(response: Message) -> (r: Result<(), WolfUsbError>)
    ensures
        match response {
            Message::ClaimInterfaceResult(d) => if d.success {
                r is Ok
            } else {
                r matches Err(WolfUsbError::ProtocolError(t)) && t@ == refusal_text(
                    d.error_message,
                    "Claim interface failed"@,
                )
            },
            Message::Error(_) => is_server_error(response, r),
            _ => is_unexpected(r, "ClaimInterfaceResult"@),
        },
{
    match response {
        Message::ClaimInterfaceResult(resp) => {
            if resp.success {
                Ok(())
            } else {
                Err(refusal(resp.error_message, "Claim interface failed"))
            }
        },
        Message::Error(e) => Err(WolfUsbError::ProtocolError(e.message)),
        other => Err(unexpected("ClaimInterfaceResult", &other)),
    }
}

/// What `Session::release_interface` makes of the server's reply.
pub fn release_interface_response(response: Message) -> (r: Result<(), WolfUsbError>)
    ensures
        match response {
            Message::ReleaseInterfaceResult(d) => if d.success {
                r is Ok
            } else {
                r matches Err(WolfUsbError::ProtocolError(t)) && t@ == refusal_text(
                    d.error_message,
                    "Release interface failed"@,
                )
            },
            Message::Error(_) => is_server_error(response, r),
            _ => is_unexpected(r, "ReleaseInterfaceResult"@),
        },
{
    match response {
        Message::ReleaseInterfaceResult(resp) => {
            if resp.success {
                Ok(())
            } else {
                Err(refusal(resp.error_message, "Release interface failed"))
            }
        },
        Message::Error(e) => Err(WolfUsbError::ProtocolError(e.message)),
        other => Err(unexpected("ReleaseInterfaceResult", &other)),
    }
}

/// What `Session::set_configuration` makes of the server's reply.
pub fn set_configuration_response(response: Message) -> (r: Result<(), WolfUsbError>)
    ensures
        match response {
            Message::SetConfigurationResult(d) => if d.success {
                r is Ok
            } else {
                r matches Err(WolfUsbError::ProtocolError(t)) && t@ == refusal_text(
                    d.error_message,
                    "Set configuration failed"@,
                )
            },
            Message::Error(_) => is_server_error(response, r),
            _ => is_unexpected(r, "SetConfigurationResult"@),
        },
{
    match response {
        Message::SetConfigurationResult(resp) => {
            if resp.success {
                Ok(())
            } else {
                Err(refusal(resp.error_message, "Set configuration failed"))
            }
        },
        Message::Error(e) => Err(WolfUsbError::ProtocolError(e.message)),
        other => Err(unexpected("SetConfigurationResult", &other)),
    }
}

} // verus!
