use wolfusb::auth::compute_client_proof;
use wolfusb::client::mount::{bridge_response, check_mount_hello};
use wolfusb::client::session::{check_hello_response, hello_request};
use wolfusb::error::WolfUsbError;
use wolfusb::protocol::messages::{
    BridgeAcceptedResponse, BridgeRejectedResponse, HelloResponse, Message, PROTOCOL_VERSION,
};
use wolfusb::protocol::types::DeviceId;
use wolfusb::server::connection::ConnectionState;

fn answer(resp: &Message) -> &HelloResponse {
    match resp {
        Message::HelloResponse(h) => h,
        other => panic!("not a HelloResponse: {other:?}"),
    }
}

const NONCE: [u8; 32] = [7u8; 32];

#[test]
fn honest_handshake_with_key_is_accepted_both_ways() {
    let key = b"secret".to_vec();
    let req = hello_request("wolfusb-cli", Some(&key[..]), NONCE);
    assert_eq!(req.protocol_version, PROTOCOL_VERSION);
    assert_eq!(req.client_name, "wolfusb-cli");
    assert_eq!(req.auth_proof.len(), 32);
    assert_ne!(req.auth_proof, NONCE.to_vec());

    let mut server = ConnectionState::new(Some(key.clone()));
    let resp = server.handle_hello(&req);
    assert!(server.authenticated);
    let h = answer(&resp);
    assert!(h.auth_accepted);
    assert_eq!(h.server_name, "wolfusb");
    assert_eq!(h.auth_challenge_response.len(), 32);
    assert!(h.error_message.is_none());
    // the server's answer differs from the client's proof (other label)
    assert_ne!(h.auth_challenge_response, req.auth_proof);

    let name = check_hello_response(&resp, Some(&key[..]), &NONCE).unwrap();
    assert_eq!(name, "wolfusb");
    assert!(check_mount_hello(&resp, Some(&key[..]), &NONCE).is_ok());
}

#[test]
fn wrong_key_is_refused_by_server() {
    let req = hello_request("c", Some(&b"wrong"[..]), NONCE);
    let mut server = ConnectionState::new(Some(b"right".to_vec()));
    let resp = server.handle_hello(&req);
    assert!(!server.authenticated);
    let h = answer(&resp);
    assert!(!h.auth_accepted);
    assert!(h.auth_challenge_response.is_empty());
    assert_eq!(h.error_message.as_deref(), Some("Authentication failed"));
    match check_hello_response(&resp, Some(&b"wrong"[..]), &NONCE) {
        Err(WolfUsbError::AuthenticationFailed(t)) => assert_eq!(t, "Authentication failed"),
        other => panic!("unexpected: {other:?}"),
    }
    assert_eq!(
        check_mount_hello(&resp, Some(&b"wrong"[..]), &NONCE),
        Err("Authentication failed: Authentication failed".to_string())
    );
}

#[test]
fn client_without_proof_is_refused_by_keyed_server() {
    let req = hello_request("c", None, NONCE);
    assert!(req.auth_proof.is_empty());
    let mut server = ConnectionState::new(Some(b"k".to_vec()));
    let h = answer(&server.handle_hello(&req)).clone();
    assert!(!h.auth_accepted);
}

#[test]
fn server_without_key_accepts_anyone() {
    let req = hello_request("c", None, NONCE);
    let mut server = ConnectionState::new(None);
    let resp = server.handle_hello(&req);
    assert!(server.authenticated);
    let h = answer(&resp);
    assert!(h.auth_accepted);
    assert!(h.auth_challenge_response.is_empty());
    assert_eq!(check_hello_response(&resp, None, &NONCE).unwrap(), "wolfusb");
}

#[test]
fn version_mismatch_is_reported_by_server() {
    let mut req = hello_request("c", None, NONCE);
    req.protocol_version = 7;
    let mut server = ConnectionState::new(None);
    let resp = server.handle_hello(&req);
    assert!(!server.authenticated);
    let h = answer(&resp);
    assert!(!h.auth_accepted);
    assert_eq!(
        h.error_message.as_deref(),
        Some("Protocol version mismatch: server=1, client=7")
    );
}

#[test]
fn client_detects_forged_server_proof() {
    let key = b"secret".to_vec();
    let resp = Message::HelloResponse(HelloResponse {
        protocol_version: PROTOCOL_VERSION,
        server_name: "evil".to_string(),
        auth_accepted: true,
        // the client's own proof is no valid server answer
        auth_challenge_response: compute_client_proof(Some(&key[..]), &NONCE),
        error_message: None,
    });
    match check_hello_response(&resp, Some(&key[..]), &NONCE) {
        Err(WolfUsbError::AuthenticationFailed(t)) => {
            assert_eq!(t, "Server HMAC verification failed")
        }
        other => panic!("unexpected: {other:?}"),
    }
    assert_eq!(
        check_mount_hello(&resp, Some(&key[..]), &NONCE),
        Err("Server HMAC verification failed".to_string())
    );
}

#[test]
fn client_reports_version_mismatch_and_refusal() {
    let resp = Message::HelloResponse(HelloResponse {
        protocol_version: 2,
        server_name: "s".to_string(),
        auth_accepted: true,
        auth_challenge_response: Vec::new(),
        error_message: None,
    });
    match check_hello_response(&resp, None, &NONCE) {
        Err(WolfUsbError::VersionMismatch { local, remote }) => {
            assert_eq!((local, remote), (1, 2))
        }
        other => panic!("unexpected: {other:?}"),
    }
    // mount does not compare versions
    assert!(check_mount_hello(&resp, None, &NONCE).is_ok());

    let refused = Message::HelloResponse(HelloResponse {
        protocol_version: 1,
        server_name: "s".to_string(),
        auth_accepted: false,
        auth_challenge_response: Vec::new(),
        error_message: None,
    });
    match check_hello_response(&refused, None, &NONCE) {
        Err(WolfUsbError::AuthenticationFailed(t)) => assert_eq!(t, "Unknown auth error"),
        other => panic!("unexpected: {other:?}"),
    }
    assert_eq!(
        check_mount_hello(&refused, None, &NONCE),
        Err("Authentication failed: ".to_string())
    );
}

#[test]
fn unexpected_hello_answer() {
    match check_hello_response(&Message::Pong, None, &NONCE) {
        Err(WolfUsbError::UnexpectedMessage { expected, got }) => {
            assert_eq!(expected, "HelloResponse");
            assert_eq!(got, "Pong");
        }
        other => panic!("unexpected: {other:?}"),
    }
    assert_eq!(
        check_mount_hello(&Message::Ping, None, &NONCE),
        Err("Unexpected response: Ping".to_string())
    );
}

#[test]
fn bridge_answers_for_mount() {
    let accepted = BridgeAcceptedResponse {
        device_id: DeviceId { bus_number: 1, address: 4 },
        busid: "1-2".to_string(),
        devid: 0x00010004,
        speed: 3,
        vendor_id: 0x1234,
        product_id: 0x5678,
        bcd_device: 0x0100,
        device_class: 0,
        device_subclass: 0,
        device_protocol: 0,
        num_configurations: 1,
        num_interfaces: 1,
        config_value: 1,
    };
    let b = bridge_response(Message::BridgeAccepted(accepted)).unwrap();
    assert_eq!(b.busid, "1-2");
    assert_eq!(b.devid, 0x00010004);
    let rejected = bridge_response(Message::BridgeRejected(BridgeRejectedResponse {
        error_message: "busy".to_string(),
    }));
    assert_eq!(rejected.err(), Some("Server rejected bridge: busy".to_string()));
    assert_eq!(
        bridge_response(Message::Pong).err(),
        Some("Unexpected response: Pong".to_string())
    );
}
