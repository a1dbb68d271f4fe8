//! Per-client message dispatch: the decisions of a server connection.
//!
//! `ConnectionState::handle_message` takes one client message and either answers
//! it at once or names the device operation to run; once the operation has run,
//! the matching `*_reply` function turns its outcome into the answer.
use crate::auth::{client_label_bytes, client_proof, hmac_sha256, hmac_sha256_verify, server_label_bytes, server_proof};
use crate::protocol::messages::{
    AttachRequest, AttachResponse, BridgeAcceptedResponse, BridgeRejectedResponse, BridgeRequest,
    BulkTransferRequest, ClaimInterfaceRequest, ClaimInterfaceResponse, ControlTransferRequest,
    DescriptorDataResponse, DetachRequest, DetachResponse, DeviceListResponse, ErrorCode,
    ErrorResponse, GetDescriptorsRequest, HelloRequest, HelloResponse, InterruptTransferRequest,
    Message, ReleaseInterfaceRequest, ReleaseInterfaceResponse, SetConfigurationRequest,
    SetConfigurationResponse, TransferResponse, PROTOCOL_VERSION,
};
use crate::protocol::types::{DeviceDescriptorTree, DeviceId, DeviceInfo};
use crate::text::{dec_chars, push_dec};
use std::collections::HashMap;
use vstd::prelude::*;

verus! {

broadcast use vstd::std_specs::hash::group_hash_axioms;

/// What the connection does with a client message.
pub enum Action {
    /// Answer at once.
    Reply(Message),
    /// Answer, then hand the raw stream to the USB/IP bridge for `target`.
    Bridge { reply: Message, target: DeviceId },
    /// Enumerate the devices, then answer with `list_devices_reply`.
    ListDevices,
    /// Read the descriptors, then answer with `descriptors_reply`.
    GetDescriptors(GetDescriptorsRequest),
    /// Attach the device, then answer with `ConnectionState::attach_reply`.
    Attach(AttachRequest),
    /// Detach the device, then answer with `ConnectionState::detach_reply`.
    Detach(DetachRequest),
    /// Run the transfer, then answer with `transfer_reply`.
    ControlTransfer(ControlTransferRequest),
    BulkTransfer(BulkTransferRequest),
    InterruptTransfer(InterruptTransferRequest),
    /// Run the interface operation, then answer with `claim_interface_reply`.
    ClaimInterface(ClaimInterfaceRequest),
    /// Run the interface operation, then answer with `release_interface_reply`.
    ReleaseInterface(ReleaseInterfaceRequest),
    /// Run the configuration change, then answer with `set_configuration_reply`.
    SetConfiguration(SetConfigurationRequest),
    /// Look up the device's port, then decide with `bridge_reply`.
    LookupBridge(BridgeRequest),
}

/// The state of one client connection: whether it has authenticated, the key
/// it must authenticate with (if any), and the sessions it holds.
pub struct ConnectionState {
    pub authenticated: bool,
    pub shared_key: Option<Vec<u8>>,
    pub sessions: HashMap<u64, DeviceId>,
}

/// The key as a sequence of bytes.
pub open spec fn key_view(k: Option<Vec<u8>>) -> Option<Seq<u8>> {
    match k {
        Some(v) => Some(v@),
        None => None,
    }
}

/// `o` holds a text, and it is `t`.
pub open spec fn has_text(o: Option<String>, t: Seq<char>) -> bool {
    o matches Some(m) && m@ == t
}

/// The text of a protocol version mismatch.
pub open spec fn version_mismatch_text(client: u32) -> Seq<char> {
    "Protocol version mismatch: server="@ + dec_chars(PROTOCOL_VERSION as nat) + ", client="@
        + dec_chars(client as nat)
}

/// A server with key `key` accepts a Hello of `version` with `nonce` and `proof`:
/// the version must match, and with a key the proof must be the client tag of the nonce.
pub open spec fn server_accepts(key: Option<Seq<u8>>, version: u32, nonce: Seq<u8>, proof: Seq<u8>) -> bool {
    &&& version == PROTOCOL_VERSION
    &&& key matches Some(k) ==> proof == client_proof(key, nonce)
}

/// The answer a server gives to a Hello.
pub open spec fn is_hello_answer(key: Option<Seq<u8>>, req: HelloRequest, resp: Message) -> bool {
    let accepted = server_accepts(key, req.protocol_version, req.auth_nonce@, req.auth_proof@);
    resp matches Message::HelloResponse(h) && {
        &&& h.protocol_version == PROTOCOL_VERSION
        &&& h.server_name@ == "wolfusb"@
        &&& h.auth_accepted == accepted
        &&& accepted ==> h.auth_challenge_response@ == server_proof(key, req.auth_nonce@)
            && h.error_message is None
        &&& !accepted ==> h.auth_challenge_response@ == Seq::<u8>::empty()
        &&& req.protocol_version != PROTOCOL_VERSION ==> has_text(
            h.error_message,
            version_mismatch_text(req.protocol_version),
        )
        &&& req.protocol_version == PROTOCOL_VERSION && !accepted ==> has_text(
            h.error_message,
            "Authentication failed"@,
        )
    }
}

/// The answer to a message that the session check refuses, by message kind.
pub open spec fn is_session_refusal(msg: Message, a: Action) -> bool {
    match msg {
        Message::Detach(req) => a matches Action::Reply(Message::DetachResult(d)) && d.device_id
            == req.device_id && !d.success && has_text(
            d.error_message,
            "Session does not belong to this connection"@,
        ),
        Message::ControlTransfer(req) => a matches Action::Reply(m) && is_transfer_error(
            m,
            req.session_id,
            req.device_id,
            "Invalid session"@,
        ),
        Message::BulkTransfer(req) => a matches Action::Reply(m) && is_transfer_error(
            m,
            req.session_id,
            req.device_id,
            "Invalid session"@,
        ),
        Message::InterruptTransfer(req) => a matches Action::Reply(m) && is_transfer_error(
            m,
            req.session_id,
            req.device_id,
            "Invalid session"@,
        ),
        Message::ClaimInterface(_) => a matches Action::Reply(Message::ClaimInterfaceResult(r))
            && !r.success && has_text(r.error_message, "Invalid session"@),
        Message::ReleaseInterface(_) => a matches Action::Reply(
            Message::ReleaseInterfaceResult(r),
        ) && !r.success && has_text(r.error_message, "Invalid session"@),
        Message::SetConfiguration(_) => a matches Action::Reply(
            Message::SetConfigurationResult(r),
        ) && !r.success && has_text(r.error_message, "Invalid session"@),
        _ => false,
    }
}

/// The session a message names, for the messages that must name one of this connection's.
pub open spec fn named_session(msg: Message) -> Option<u64> {
    match msg {
        Message::Detach(r) => Some(r.session_id),
        Message::ControlTransfer(r) => Some(r.session_id),
        Message::BulkTransfer(r) => Some(r.session_id),
        Message::InterruptTransfer(r) => Some(r.session_id),
        Message::ClaimInterface(r) => Some(r.session_id),
        Message::ReleaseInterface(r) => Some(r.session_id),
        Message::SetConfiguration(r) => Some(r.session_id),
        _ => None,
    }
}

/// The operation that a message asks for, handed on unchanged.
pub open spec fn is_forwarded(msg: Message, a: Action) -> bool {
    match msg {
        Message::ListDevices => a is ListDevices,
        Message::GetDescriptors(r) => a matches Action::GetDescriptors(x) && x == r,
        Message::Attach(r) => a matches Action::Attach(x) && x == r,
        Message::Detach(r) => a matches Action::Detach(x) && x == r,
        Message::ControlTransfer(r) => a matches Action::ControlTransfer(x) && x == r,
        Message::BulkTransfer(r) => a matches Action::BulkTransfer(x) && x == r,
        Message::InterruptTransfer(r) => a matches Action::InterruptTransfer(x) && x == r,
        Message::ClaimInterface(r) => a matches Action::ClaimInterface(x) && x == r,
        Message::ReleaseInterface(r) => a matches Action::ReleaseInterface(x) && x == r,
        Message::SetConfiguration(r) => a matches Action::SetConfiguration(x) && x == r,
        Message::Bridge(r) => a matches Action::LookupBridge(x) && x == r,
        _ => false,
    }
}

/// Messages a client may send at any time, authenticated or not.
pub open spec fn is_open_message(msg: Message) -> bool {
    msg is Hello || msg is Ping
}

/// Messages a client sends that the server serves.
pub open spec fn is_request(msg: Message) -> bool {
    ||| msg is ListDevices
    ||| msg is GetDescriptors
    ||| msg is Attach
    ||| msg is Detach
    ||| msg is ControlTransfer
    ||| msg is BulkTransfer
    ||| msg is InterruptTransfer
    ||| msg is ClaimInterface
    ||| msg is ReleaseInterface
    ||| msg is SetConfiguration
    ||| msg is Bridge
}

/// A transfer answer that reports a failure before any transfer ran.
pub open spec fn is_transfer_error(m: Message, session_id: u64, device_id: DeviceId, text: Seq<char>) -> bool {
    m matches Message::TransferResult(r) && {
        &&& r.session_id == session_id
        &&& r.device_id == device_id
        &&& !r.success
        &&& r.data@ == Seq::<u8>::empty()
        &&& r.bytes_transferred == 0
        &&& has_text(r.error_message, text)
    }
}

/// A transfer answer for a failure that happened before the transfer could run.
pub fn transfer_error(session_id: &u64, device_id: &DeviceId, msg: &str) -> (m: Message)
    ensures
        is_transfer_error(m, *session_id, *device_id, msg@),
{
    Message::TransferResult(
        TransferResponse {
            session_id: *session_id,
            device_id: *device_id,
            success: false,
            data: Vec::new(),
            bytes_transferred: 0,
            error_message: Some(String::from_str(msg)),
        },
    )
}

fn error_message(code: ErrorCode, text: String) -> (m: Message)
    ensures
        m matches Message::Error(e) && e.code == code && e.message@ == text@,
{
    Message::Error(ErrorResponse { code, message: text })
}

/// The answer to a device enumeration: the list, or the error that the
/// enumeration (`Ok(Err(..))`, a USB error) or the task running it (`Err(..)`) gave.
pub fn list_devices_reply(outcome: Result<Result<Vec<DeviceInfo>, String>, String>) -> (m: Message)
    ensures
        match outcome {
            Ok(Ok(devices)) => m matches Message::DeviceList(d) && d.devices@ == devices@,
            Ok(Err(e)) => m matches Message::Error(r) && r.code == ErrorCode::UsbError && r.message@
                == e@,
            Err(e) => m matches Message::Error(r) && r.code == ErrorCode::InternalError
                && r.message@ == e@,
        },
{
    match outcome {
        Ok(Ok(devices)) => Message::DeviceList(DeviceListResponse { devices }),
        Ok(Err(e)) => error_message(ErrorCode::UsbError, e),
        Err(e) => error_message(ErrorCode::InternalError, e),
    }
}

/// The answer to a descriptor request.
pub fn descriptors_reply(
    req: &GetDescriptorsRequest,
    outcome: Result<Result<DeviceDescriptorTree, String>, String>,
) -> (m: Message)
    ensures
        match outcome {
            Ok(Ok(t)) => m matches Message::DescriptorData(d) && d.device_id == req.device_id
                && d.descriptors == t,
            Ok(Err(e)) => m matches Message::Error(r) && r.code == ErrorCode::DeviceNotFound
                && r.message@ == e@,
            Err(e) => m matches Message::Error(r) && r.code == ErrorCode::InternalError
                && r.message@ == e@,
        },
{
    match outcome {
        Ok(Ok(descriptors)) => Message::DescriptorData(
            DescriptorDataResponse { device_id: req.device_id, descriptors },
        ),
        Ok(Err(e)) => error_message(ErrorCode::DeviceNotFound, e),
        Err(e) => error_message(ErrorCode::InternalError, e),
    }
}

/// The answer to a transfer that ran (or whose task failed).
pub fn transfer_reply(outcome: Result<TransferResponse, String>) -> (m: Message)
    ensures
        match outcome {
            Ok(r) => m matches Message::TransferResult(x) && x == r,
            Err(e) => m matches Message::Error(r) && r.code == ErrorCode::InternalError
                && r.message@ == e@,
        },
{
    match outcome {
        Ok(resp) => Message::TransferResult(resp),
        Err(e) => error_message(ErrorCode::InternalError, e),
    }
}

/// Success, or the error text of the operation or of its task.
pub open spec fn outcome_result(outcome: Result<Result<(), String>, String>) -> (bool, Option<Seq<char>>) {
    match outcome {
        Ok(Ok(())) => (true, None),
        Ok(Err(e)) => (false, Some(e@)),
        Err(e) => (false, Some(e@)),
    }
}

/// The text of a failed outcome, or `None`.
fn outcome_text(outcome: Result<Result<(), String>, String>) -> (r: (bool, Option<String>))
    ensures
        r.0 == outcome_result(outcome).0,
        match r.1 {
            Some(t) => outcome_result(outcome).1 == Some(t@),
            None => outcome_result(outcome).1 is None,
        },
{
    match outcome {
        Ok(Ok(())) => (true, None),
        Ok(Err(e)) => (false, Some(e)),
        Err(e) => (false, Some(e)),
    }
}

/// The answer to a claim of an interface.
pub fn claim_interface_reply(outcome: Result<Result<(), String>, String>) -> (m: Message)
    ensures
        m matches Message::ClaimInterfaceResult(r) && r.success == outcome_result(outcome).0
            && match r.error_message {
            Some(t) => outcome_result(outcome).1 == Some(t@),
            None => outcome_result(outcome).1 is None,
        },
{
    let (success, error_message) = outcome_text(outcome);
    Message::ClaimInterfaceResult(ClaimInterfaceResponse { success, error_message })
}

/// The answer to a release of an interface.
pub fn release_interface_reply(outcome: Result<Result<(), String>, String>) -> (m: Message)
    ensures
        m matches Message::ReleaseInterfaceResult(r) && r.success == outcome_result(outcome).0
            && match r.error_message {
            Some(t) => outcome_result(outcome).1 == Some(t@),
            None => outcome_result(outcome).1 is None,
        },
{
    let (success, error_message) = outcome_text(outcome);
    Message::ReleaseInterfaceResult(ReleaseInterfaceResponse { success, error_message })
}

/// The answer to a change of configuration.
pub fn set_configuration_reply(outcome: Result<Result<(), String>, String>) -> (m: Message)
    ensures
        m matches Message::SetConfigurationResult(r) && r.success == outcome_result(outcome).0
            && match r.error_message {
            Some(t) => outcome_result(outcome).1 == Some(t@),
            None => outcome_result(outcome).1 is None,
        },
{
    let (success, error_message) = outcome_text(outcome);
    Message::SetConfigurationResult(SetConfigurationResponse { success, error_message })
}

/// The sysfs-style bus id the bridge announces: `bus-address-port`.
pub open spec fn spec_bridge_busid(bus: u8, address: u8, port: u8) -> Seq<char> {
    dec_chars(bus as nat) + seq!['-'] + dec_chars(address as nat) + seq!['-'] + dec_chars(
        port as nat,
    )
}

/// `format!("{}-{}-{}", bus, address, port)`.
pub fn bridge_busid(bus: u8, address: u8, port: u8) -> (s: String)
    ensures
        s@ == spec_bridge_busid(bus, address, port),
{
    let mut s = String::new();
    push_dec(&mut s, bus as u64);
    s.append("-");
    push_dec(&mut s, address as u64);
    s.append("-");
    push_dec(&mut s, port as u64);
    proof {
        reveal_strlit("-");
    }
    assert(s@ =~= spec_bridge_busid(bus, address, port));
    s
}

/// The text of a bridge request for a device that is not there.
pub open spec fn bridge_not_found_text(bus: u8, address: u8) -> Seq<char> {
    "Device not found at bus="@ + dec_chars(bus as nat) + " addr="@ + dec_chars(address as nat)
}

/// The decision on a bridge request, once the device's port number is known
/// (`None` when no such device is present): reject it, or accept it and switch
/// the connection to bridge mode for that device.
pub fn bridge_reply(req: &BridgeRequest, port: Option<u8>) -> (a: Action)
    ensures
        match port {
            None => a matches Action::Reply(Message::BridgeRejected(r)) && r.error_message@
                == bridge_not_found_text(req.device_id.bus_number, req.device_id.address),
            Some(p) => a matches Action::Bridge { reply: Message::BridgeAccepted(r), target }
                && target == req.device_id && r.device_id == req.device_id && r.busid@
                == spec_bridge_busid(req.device_id.bus_number, req.device_id.address, p) && r.devid
                == 0 && r.speed == 0 && r.vendor_id == 0 && r.product_id == 0 && r.bcd_device == 0
                && r.device_class == 0 && r.device_subclass == 0 && r.device_protocol == 0
                && r.num_configurations == 0 && r.num_interfaces == 0 && r.config_value == 0,
        },
{
    let bus = req.device_id.bus_number;
    let addr = req.device_id.address;
    match port {
        None => {
            let mut text = String::from_str("Device not found at bus=");
            push_dec(&mut text, bus as u64);
            text.append(" addr=");
            push_dec(&mut text, addr as u64);
            assert(text@ =~= bridge_not_found_text(bus, addr));
            Action::Reply(Message::BridgeRejected(BridgeRejectedResponse { error_message: text }))
        },
        Some(p) => {
            let busid = bridge_busid(bus, addr, p);
            Action::Bridge {
                reply: Message::BridgeAccepted(
                    BridgeAcceptedResponse {
                        device_id: req.device_id,
                        busid,
                        devid: 0,
                        speed: 0,
                        vendor_id: 0,
                        product_id: 0,
                        bcd_device: 0,
                        device_class: 0,
                        device_subclass: 0,
                        device_protocol: 0,
                        num_configurations: 0,
                        num_interfaces: 0,
                        config_value: 0,
                    },
                ),
                target: req.device_id,
            }
        },
    }
}

impl ConnectionState {
    /// The key this connection must authenticate with.
    pub open spec fn spec_key(&self) -> Option<Seq<u8>> {
        key_view(self.shared_key)
    }

    /// A fresh connection: not authenticated, no sessions.
    pub fn new(shared_key: Option<Vec<u8>>) -> (s: Self)
        ensures
            !s.authenticated,
            s.shared_key == shared_key,
            s.sessions@ == Map::<u64, DeviceId>::empty(),
    {
        ConnectionState { authenticated: false, shared_key, sessions: HashMap::new() }
    }

    /// Answers a Hello: checks the protocol version, then (with a key) the
    /// client's proof, and answers with the server's proof once it accepts.
    pub fn handle_hello(&mut self, req: &HelloRequest) -> (resp: Message)
        ensures
            is_hello_answer(old(self).spec_key(), *req, resp),
            final(self).authenticated == (old(self).authenticated || server_accepts(
                old(self).spec_key(),
                req.protocol_version,
                req.auth_nonce@,
                req.auth_proof@,
            )),
            final(self).shared_key == old(self).shared_key,
            final(self).sessions@ == old(self).sessions@,
    {
        if req.protocol_version != PROTOCOL_VERSION {
            let mut text = String::from_str("Protocol version mismatch: server=");
            push_dec(&mut text, PROTOCOL_VERSION as u64);
            text.append(", client=");
            push_dec(&mut text, req.protocol_version as u64);
            assert(text@ =~= version_mismatch_text(req.protocol_version));
            return Message::HelloResponse(
                HelloResponse {
                    protocol_version: PROTOCOL_VERSION,
                    server_name: String::from_str("wolfusb"),
                    auth_accepted: false,
                    auth_challenge_response: Vec::new(),
                    error_message: Some(text),
                },
            );
        }
        match &self.shared_key {
            Some(key) => {
                let nonce = req.auth_nonce.as_slice();
                // Verify client proof
                if !hmac_sha256_verify(key.as_slice(), nonce, client_label_bytes(), req.auth_proof.as_slice()) {
                    return Message::HelloResponse(
                        HelloResponse {
                            protocol_version: PROTOCOL_VERSION,
                            server_name: String::from_str("wolfusb"),
                            auth_accepted: false,
                            auth_challenge_response: Vec::new(),
                            error_message: Some(String::from_str("Authentication failed")),
                        },
                    );
                }
                // Server proof so client can verify us
                let server_proof = hmac_sha256(key.as_slice(), nonce, server_label_bytes());
                self.authenticated = true;
                Message::HelloResponse(
                    HelloResponse {
                        protocol_version: PROTOCOL_VERSION,
                        server_name: String::from_str("wolfusb"),
                        auth_accepted: true,
                        auth_challenge_response: server_proof,
                        error_message: None,
                    },
                )
            },
            None => {
                self.authenticated = true;
                Message::HelloResponse(
                    HelloResponse {
                        protocol_version: PROTOCOL_VERSION,
                        server_name: String::from_str("wolfusb"),
                        auth_accepted: true,
                        auth_challenge_response: Vec::new(),
                        error_message: None,
                    },
                )
            },
        }
    }

    /// Whether this connection may be served requests: it has authenticated,
    /// or the server has no key.
    pub open spec fn may_serve(&self) -> bool {
        self.shared_key is None || self.authenticated
    }

    /// Decides what to do with one client message.
    pub fn handle_message(&mut self, msg: Message) -> (a: Action)
        ensures
            msg matches Message::Hello(req) ==> (a matches Action::Reply(resp) && is_hello_answer(
                old(self).spec_key(),
                req,
                resp,
            ) && final(self).authenticated == (old(self).authenticated || server_accepts(
                old(self).spec_key(),
                req.protocol_version,
                req.auth_nonce@,
                req.auth_proof@,
            ))),
            !(msg is Hello) ==> final(self).authenticated == old(self).authenticated,
            final(self).shared_key == old(self).shared_key,
            final(self).sessions@ == old(self).sessions@,
            msg is Ping ==> (a matches Action::Reply(Message::Pong)),
            !is_open_message(msg) && !old(self).may_serve() ==> (a matches Action::Reply(
                Message::Error(e),
            ) && e.code == ErrorCode::AuthenticationFailed && e.message@
                == "Not authenticated. Send Hello first."@),
            !is_open_message(msg) && old(self).may_serve() && !is_request(msg) ==> (a matches Action::Reply(
                Message::Error(e),
            ) && e.code == ErrorCode::InternalError && e.message@ == "Unexpected message type"@),
            is_request(msg) && old(self).may_serve() ==> match named_session(msg) {
                Some(sid) => if old(self).sessions@.contains_key(sid) {
                    is_forwarded(msg, a)
                } else {
                    is_session_refusal(msg, a)
                },
                None => is_forwarded(msg, a),
            },
    {
        if let Message::Hello(req) = &msg {
            return Action::Reply(self.handle_hello(req));
        }
        if let Message::Ping = &msg {
            return Action::Reply(Message::Pong);
        }
        if self.shared_key.is_some() && !self.authenticated {
            return Action::Reply(
                error_message(
                    ErrorCode::AuthenticationFailed,
                    String::from_str("Not authenticated. Send Hello first."),
                ),
            );
        }
        match msg {
            Message::ListDevices => Action::ListDevices,
            Message::GetDescriptors(req) => Action::GetDescriptors(req),
            Message::Attach(req) => Action::Attach(req),
            Message::Detach(req) => {
                // Verify this session belongs to this connection
                if !self.sessions.contains_key(&req.session_id) {
                    Action::Reply(
                        Message::DetachResult(
                            DetachResponse {
                                device_id: req.device_id,
                                success: false,
                                error_message: Some(
                                    String::from_str("Session does not belong to this connection"),
                                ),
                            },
                        ),
                    )
                } else {
                    Action::Detach(req)
                }
            },
            Message::ControlTransfer(req) => {
                if !self.sessions.contains_key(&req.session_id) {
                    Action::Reply(transfer_error(&req.session_id, &req.device_id, "Invalid session"))
                } else {
                    Action::ControlTransfer(req)
                }
            },
            Message::BulkTransfer(req) => {
                if !self.sessions.contains_key(&req.session_id) {
                    Action::Reply(transfer_error(&req.session_id, &req.device_id, "Invalid session"))
                } else {
                    Action::BulkTransfer(req)
                }
            },
            Message::InterruptTransfer(req) => {
                if !self.sessions.contains_key(&req.session_id) {
                    Action::Reply(transfer_error(&req.session_id, &req.device_id, "Invalid session"))
                } else {
                    Action::InterruptTransfer(req)
                }
            },
            Message::ClaimInterface(req) => {
                if !self.sessions.contains_key(&req.session_id) {
                    Action::Reply(
                        Message::ClaimInterfaceResult(
                            ClaimInterfaceResponse {
                                success: false,
                                error_message: Some(String::from_str("Invalid session")),
                            },
                        ),
                    )
                } else {
                    Action::ClaimInterface(req)
                }
            },
            Message::ReleaseInterface(req) => {
                if !self.sessions.contains_key(&req.session_id) {
                    Action::Reply(
                        Message::ReleaseInterfaceResult(
                            ReleaseInterfaceResponse {
                                success: false,
                                error_message: Some(String::from_str("Invalid session")),
                            },
                        ),
                    )
                } else {
                    Action::ReleaseInterface(req)
                }
            },
            Message::SetConfiguration(req) => {
                if !self.sessions.contains_key(&req.session_id) {
                    Action::Reply(
                        Message::SetConfigurationResult(
                            SetConfigurationResponse {
                                success: false,
                                error_message: Some(String::from_str("Invalid session")),
                            },
                        ),
                    )
                } else {
                    Action::SetConfiguration(req)
                }
            },
            Message::Bridge(req) => Action::LookupBridge(req),
            _ => Action::Reply(
                error_message(ErrorCode::InternalError, String::from_str("Unexpected message type")),
            ),
        }
    }

    /// The answer to an attach; a granted session is recorded for this connection.
    pub fn attach_reply(&mut self, req: &AttachRequest, outcome: Result<Result<u64, String>, String>) -> (m: Message)
        ensures
            final(self).authenticated == old(self).authenticated,
            final(self).shared_key == old(self).shared_key,
            match outcome {
                Ok(Ok(sid)) => {
                    &&& final(self).sessions@ == old(self).sessions@.insert(sid, req.device_id)
                    &&& m matches Message::AttachResult(r) && r.device_id == req.device_id
                        && r.success && r.error_message is None && r.session_id == Some(sid)
                },
                Ok(Err(e)) | Err(e) => {
                    &&& final(self).sessions@ == old(self).sessions@
                    &&& m matches Message::AttachResult(r) && r.device_id == req.device_id
                        && !r.success && r.session_id is None && has_text(r.error_message, e@)
                },
            },
    {
        match outcome {
            Ok(Ok(session_id)) => {
                self.sessions.insert(session_id, req.device_id);
                Message::AttachResult(
                    AttachResponse {
                        device_id: req.device_id,
                        success: true,
                        error_message: None,
                        session_id: Some(session_id),
                    },
                )
            },
            Ok(Err(e)) | Err(e) => Message::AttachResult(
                AttachResponse {
                    device_id: req.device_id,
                    success: false,
                    error_message: Some(e),
                    session_id: None,
                },
            ),
        }
    }

    /// The answer to a detach; the session is forgotten once the device
    /// manager has run the detach, whether it succeeded or not.
    pub fn detach_reply(&mut self, req: &DetachRequest, outcome: Result<Result<(), String>, String>) -> (m: Message)
        ensures
            final(self).authenticated == old(self).authenticated,
            final(self).shared_key == old(self).shared_key,
            outcome is Ok ==> final(self).sessions@ == old(self).sessions@.remove(req.session_id),
            outcome is Err ==> final(self).sessions@ == old(self).sessions@,
            m matches Message::DetachResult(r) && r.device_id == req.device_id && r.success
                == outcome_result(outcome).0 && match r.error_message {
                Some(t) => outcome_result(outcome).1 == Some(t@),
                None => outcome_result(outcome).1 is None,
            },
    {
        match outcome {
            Ok(Ok(())) => {
                self.sessions.remove(&req.session_id);
                Message::DetachResult(
                    DetachResponse { device_id: req.device_id, success: true, error_message: None },
                )
            },
            Ok(Err(e)) => {
                // Clean up stale session even on error
                self.sessions.remove(&req.session_id);
                Message::DetachResult(
                    DetachResponse { device_id: req.device_id, success: false, error_message: Some(e) },
                )
            },
            Err(e) => Message::DetachResult(
                DetachResponse { device_id: req.device_id, success: false, error_message: Some(e) },
            ),
        }
    }
}

/// A client that knows the key and a server with the same key agree: the
/// server accepts the client's proof, and the client's check of the server's
/// answer passes. With no key on either side the exchange is accepted as well.
pub proof fn lemma_honest_handshake(key: Option<Seq<u8>>, nonce: Seq<u8>)
    ensures
        server_accepts(key, PROTOCOL_VERSION, nonce, client_proof(key, nonce)),
        crate::client::session::client_accepts(key, nonce, true, server_proof(key, nonce), PROTOCOL_VERSION),
{
}

} // verus!
