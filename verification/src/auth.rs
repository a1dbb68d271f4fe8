//! Pre-shared key authentication: HMAC-SHA256 proofs over the client's nonce.
//!
//! The client proves it knows the key with `HMAC(key, nonce || "wolfusb-client")`;
//! the server answers with `HMAC(key, nonce || "wolfusb-server")`.
use hmac::{Hmac, Mac};
use sha2::Sha256;
use vstd::prelude::*;
use vstd::string::StringSliceAdditionalSpecFns;

verus! {

/// The HMAC-SHA256 tag of `data` under `key`, as the `hmac` crate computes it.
pub uninterp spec fn hmac_sha256_tag(key: Seq<u8>, data: Seq<u8>) -> Seq<u8>;

/// The label a client appends to the nonce for its proof.
pub open spec fn client_label() -> Seq<u8> {
    "wolfusb-client".spec_bytes()
}

/// The label a server appends to the nonce for its answer.
pub open spec fn server_label() -> Seq<u8> {
    "wolfusb-server".spec_bytes()
}

/// The proof a client sends: the client tag with a key, nothing without one.
pub open spec fn client_proof(key: Option<Seq<u8>>, nonce: Seq<u8>) -> Seq<u8> {
    match key {
        Some(k) => hmac_sha256_tag(k, nonce + client_label()),
        None => Seq::empty(),
    }
}

/// The answer a server sends once it accepts: the server tag with a key, nothing without one.
pub open spec fn server_proof(key: Option<Seq<u8>>, nonce: Seq<u8>) -> Seq<u8> {
    match key {
        Some(k) => hmac_sha256_tag(k, nonce + server_label()),
        None => Seq::empty(),
    }
}

/// `Hmac::<Sha256>::new_from_slice(key)`, `update(nonce)`, `update(label)`,
/// `finalize()`: the HMAC-SHA256 tag of `nonce || label`, 32 bytes long.
#[verifier::external_body]
pub(crate) fn hmac_sha256(key: &[u8], nonce: &[u8], label: &[u8]) -> (tag: Vec<u8>)
    ensures
        tag@ == hmac_sha256_tag(key@, nonce@ + label@),
        tag@.len() == 32,
{
    let mut mac = <Hmac<Sha256> as Mac>::new_from_slice(key).expect("HMAC accepts any key length");
    mac.update(nonce);
    mac.update(label);
    mac.finalize().into_bytes().to_vec()
}

/// `Hmac::<Sha256>::new_from_slice(key)`, `update(nonce)`, `update(label)`,
/// `verify_slice(tag)`: whether `tag` is the HMAC-SHA256 tag of `nonce || label`.
#[verifier::external_body]
pub(crate) fn hmac_sha256_verify(key: &[u8], nonce: &[u8], label: &[u8], tag: &[u8]) -> (ok: bool)
    ensures
        ok == (tag@ == hmac_sha256_tag(key@, nonce@ + label@)),
{
    let mut mac = <Hmac<Sha256> as Mac>::new_from_slice(key).expect("HMAC accepts any key length");
    mac.update(nonce);
    mac.update(label);
    mac.verify_slice(tag).is_ok()
}

/// The bytes of the client label.
pub fn client_label_bytes() -> (b: &'static [u8])
    ensures
        b@ == client_label(),
{
    "wolfusb-client".as_bytes()
}

/// The bytes of the server label.
pub fn server_label_bytes() -> (b: &'static [u8])
    ensures
        b@ == server_label(),
{
    "wolfusb-server".as_bytes()
}

/// The proof a client sends for `nonce`: `HMAC(key, nonce || "wolfusb-client")`
/// when it has a key, empty otherwise.
pub fn compute_client_proof(shared_key: Option<&[u8]>, nonce: &[u8]) -> (proof: Vec<u8>)
    ensures
        proof@ == client_proof(
            match shared_key {
                Some(k) => Some(k@),
                None => None,
            },
            nonce@,
        ),
{
    match shared_key {
        Some(k) => hmac_sha256(k, nonce, client_label_bytes()),
        None => Vec::new(),
    }
}

} // verus!
