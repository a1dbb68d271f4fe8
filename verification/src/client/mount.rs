//! The `mount` command's handshake: it checks the server's Hello answer and the
//! answer to its Bridge request before it hands the socket to `vhci_hcd`.
//! Its errors are the texts the command prints.
use crate::auth::{hmac_sha256_verify, server_label_bytes, server_proof};
use crate::client::session::{debug_text, key_of};
use crate::protocol::messages::{BridgeAcceptedResponse, Message};
use vstd::prelude::*;

verus! {

/// The text of an answer that is not the one expected: `Unexpected response: `
/// and the answer's `Debug` text.
pub open spec fn is_unexpected_text<T>(r: Result<T, String>) -> bool {
    r matches Err(t) && "Unexpected response: "@.is_prefix_of(t@)
}

/// The server's text, or nothing (`unwrap_or_default`).
pub open spec fn text_or_empty(m: Option<String>) -> Seq<char> {
    match m {
        Some(t) => t@,
        None => Seq::empty(),
    }
}

fn unexpected_response(got: &Message) -> (r: String)
    ensures
        "Unexpected response: "@.is_prefix_of(r@),
{
    let mut s = String::from_str("Unexpected response: ");
    let d = debug_text(got);
    s.append(d.as_str());
    proof {
        reveal_strlit("Unexpected response: ");
        assert(s@.subrange(0, 21) =~= "Unexpected response: "@);
    }
    s
}

/// `mount`'s check of the server's answer to its Hello: the server must have
/// accepted and, with a key, its proof must match. Unlike a session, `mount`
/// does not compare protocol versions.
pub fn check_mount_hello(response: &Message, shared_key: Option<&[u8]>, auth_nonce: &[u8; 32]) -> (r: Result<(), String>)
    ensures
        match *response {
            Message::HelloResponse(h) => {
                &&& r is Ok <==> (h.auth_accepted && (shared_key is None
                    || h.auth_challenge_response@ == server_proof(key_of(shared_key), auth_nonce@)))
                &&& !h.auth_accepted ==> (r matches Err(t) && t@ == "Authentication failed: "@
                    + text_or_empty(h.error_message))
                &&& h.auth_accepted && shared_key is Some && h.auth_challenge_response@
                    != server_proof(key_of(shared_key), auth_nonce@) ==> (r matches Err(t) && t@
                    == "Server HMAC verification failed"@)
            },
            _ => is_unexpected_text(r),
        },
{
    let h = match response {
        Message::HelloResponse(h) => h,
        _ => {
            return Err(unexpected_response(response));
        },
    };
    if !h.auth_accepted {
        let mut t = String::from_str("Authentication failed: ");
        match &h.error_message {
            Some(m) => t.append(m.as_str()),
            None => {},
        }
        return Err(t);
    }
    if let Some(key) = shared_key {
        if !hmac_sha256_verify(
            key,
            auth_nonce.as_slice(),
            server_label_bytes(),
            h.auth_challenge_response.as_slice(),
        ) {
            return Err(String::from_str("Server HMAC verification failed"));
        }
    }
    Ok(())
}

/// `mount`'s reading of the answer to its Bridge request: the accepted
/// device, or the server's refusal, or an unexpected answer.
pub fn bridge_response(response: Message) -> (r: Result<BridgeAcceptedResponse, String>)
    ensures
        match response {
            Message::BridgeAccepted(b) => r == Ok::<BridgeAcceptedResponse, String>(b),
            Message::BridgeRejected(b) => r matches Err(t) && t@ == "Server rejected bridge: "@
                + b.error_message@,
            _ => is_unexpected_text(r),
        },
{
    match response {
        Message::BridgeAccepted(b) => Ok(b),
        Message::BridgeRejected(b) => {
            let mut t = String::from_str("Server rejected bridge: ");
            t.append(b.error_message.as_str());
            Err(t)
        },
        other => Err(unexpected_response(&other)),
    }
}

} // verus!
