use std::cell::RefCell;
use std::rc::Rc;
use wolfusb::error::WolfUsbError;
use wolfusb::protocol::messages::{
    AttachRequest, BridgeRequest, BulkTransferRequest, ClaimInterfaceRequest,
    ControlTransferRequest, DetachRequest, ErrorCode, InterruptTransferRequest, Message,
    SetConfigurationRequest,
};
use wolfusb::protocol::types::DeviceId;
use wolfusb::server::connection::{
    bridge_busid, bridge_reply, claim_interface_reply, transfer_error, Action, ConnectionState,
};
use wolfusb::server::device_manager::{configuration_info, detach_actions, DeviceManager, HandleOp};
use wolfusb::server::transfer::{
    control_op, execute_bulk_transfer, execute_control_transfer, execute_interrupt_transfer,
    transfer_answer, TransferOp,
};

/// A device that records what it is asked.
#[derive(Default)]
struct FakeHandle {
    log: Rc<RefCell<Vec<String>>>,
    fail_claim: bool,
}

fn fake_op(h: &FakeHandle, op: HandleOp) -> Result<(), WolfUsbError> {
    let entry = match op {
        HandleOp::ClaimInterface(n) => format!("claim {n}"),
        HandleOp::ReleaseInterface(n) => format!("release {n}"),
        HandleOp::AttachKernelDriver(n) => format!("reattach {n}"),
        HandleOp::SetConfiguration(c) => format!("config {c}"),
    };
    h.log.borrow_mut().push(entry);
    if h.fail_claim && matches!(op, HandleOp::ClaimInterface(_)) {
        Err(WolfUsbError::ProtocolError("busy".to_string()))
    } else {
        Ok(())
    }
}

/// Reads fill the buffer with 1, 2, 3, ... and report up to 3 bytes (control)
/// or all of it (interrupt); bulk reads time out; interrupt writes fail.
fn fake_transfer(_h: &FakeHandle, op: TransferOp) -> Result<(usize, Vec<u8>), String> {
    match op {
        TransferOp::ReadControl { length, .. } => {
            let buf: Vec<u8> = (0..length).map(|i| i as u8 + 1).collect();
            Ok((length.min(3), buf))
        }
        TransferOp::WriteControl { data, .. } => Ok((data.len(), Vec::new())),
        TransferOp::ReadBulk { .. } => Err("Timeout".to_string()),
        TransferOp::WriteBulk { data, .. } => Ok((data.len(), Vec::new())),
        TransferOp::ReadInterrupt { length, .. } => Ok((length, vec![0u8; length])),
        TransferOp::WriteInterrupt { .. } => Err("Pipe error".to_string()),
    }
}

const DEV: DeviceId = DeviceId { bus_number: 1, address: 5 };

#[test]
fn attach_grants_increasing_session_ids() {
    let mut m: DeviceManager<FakeHandle> = DeviceManager::new();
    assert_eq!(m.peek_next_session_id(), 1);
    let s1 = m.attach(DEV, "10.0.0.2:5000".to_string(), FakeHandle::default(), vec![0]).unwrap();
    assert_eq!(s1, 1);
    assert!(m.is_attached(DEV));
    match m.attach(DEV, "x".to_string(), FakeHandle::default(), Vec::new()) {
        Err(WolfUsbError::DeviceAlreadyAttached) => {}
        other => panic!("unexpected {other:?}"),
    }
    let other = DeviceId { bus_number: 2, address: 1 };
    let s2 = m.attach(other, "y".to_string(), FakeHandle::default(), Vec::new()).unwrap();
    assert_eq!(s2, 2);
    assert!(m.validate_session(1, DEV).is_ok());
    assert!(matches!(m.validate_session(1, other), Err(WolfUsbError::InvalidSession(1))));
    assert!(matches!(m.validate_session(9, DEV), Err(WolfUsbError::InvalidSession(9))));
}

#[test]
fn detach_releases_claims_and_reattaches_drivers() {
    let mut m: DeviceManager<FakeHandle> = DeviceManager::new();
    let h = FakeHandle::default();
    let log = h.log.clone();
    let sid = m.attach(DEV, "c".to_string(), h, vec![0, 1]).unwrap();
    m.claim_interface(&fake_op, DEV, 2).unwrap();
    m.claim_interface(&fake_op, DEV, 3).unwrap();
    m.release_interface(&fake_op, DEV, 3).unwrap();
    assert_eq!(*log.borrow(), vec!["claim 2", "claim 3", "release 3"]);
    m.detach(&fake_op, DEV, sid).unwrap();
    assert_eq!(
        *log.borrow(),
        vec!["claim 2", "claim 3", "release 3", "release 2", "reattach 0", "reattach 1"]
    );
    assert!(!m.is_attached(DEV));
    assert!(m.validate_session(sid, DEV).is_err());
    assert!(matches!(m.detach(&fake_op, DEV, sid), Err(WolfUsbError::DeviceNotAttached)));
    assert!(matches!(m.get_handle(DEV), Err(WolfUsbError::DeviceNotAttached)));
}

#[test]
fn failed_claim_is_not_remembered() {
    let mut m: DeviceManager<FakeHandle> = DeviceManager::new();
    let h = FakeHandle { fail_claim: true, ..Default::default() };
    m.attach(DEV, "c".to_string(), h, Vec::new()).unwrap();
    assert!(m.claim_interface(&fake_op, DEV, 4).is_err());
    assert!(matches!(
        m.claim_interface(&fake_op, DeviceId { bus_number: 9, address: 9 }, 0),
        Err(WolfUsbError::DeviceNotAttached)
    ));
    m.set_configuration(&fake_op, DEV, 1).unwrap();
    assert!(matches!(
        m.set_configuration(&fake_op, DeviceId { bus_number: 9, address: 9 }, 1),
        Err(WolfUsbError::DeviceNotAttached)
    ));
}

#[test]
fn cleanup_detaches_every_session_of_a_connection() {
    let mut m: DeviceManager<FakeHandle> = DeviceManager::new();
    let a = DeviceId { bus_number: 1, address: 1 };
    let b = DeviceId { bus_number: 1, address: 2 };
    let c = DeviceId { bus_number: 1, address: 3 };
    let sa = m.attach(a, "x".to_string(), FakeHandle::default(), Vec::new()).unwrap();
    let _sb = m.attach(b, "y".to_string(), FakeHandle::default(), Vec::new()).unwrap();
    let sc = m.attach(c, "x".to_string(), FakeHandle::default(), Vec::new()).unwrap();
    m.detach_all_for_sessions(&fake_op, &[sa, sc, 77]);
    assert!(!m.is_attached(a));
    assert!(m.is_attached(b));
    assert!(!m.is_attached(c));
}

fn control(request_type: u8, length: u16, data: Vec<u8>) -> ControlTransferRequest {
    ControlTransferRequest {
        session_id: 3,
        device_id: DEV,
        request_type,
        request: 6,
        value: 0x0100,
        index: 0,
        data,
        length,
        timeout_ms: 100,
    }
}

#[test]
fn control_in_returns_data_read() {
    let h = FakeHandle::default();
    let r = execute_control_transfer(&fake_transfer, &h, &control(0x80, 18, Vec::new()));
    assert!(r.success);
    assert_eq!(r.session_id, 3);
    assert_eq!(r.device_id, DEV);
    assert_eq!(r.bytes_transferred, 3);
    assert_eq!(r.data, vec![1, 2, 3]);
    assert!(r.error_message.is_none());
}

#[test]
fn control_out_sends_data() {
    let h = FakeHandle::default();
    let r = execute_control_transfer(&fake_transfer, &h, &control(0x00, 0, vec![1, 2]));
    assert!(r.success);
    assert_eq!(r.bytes_transferred, 2);
    assert!(r.data.is_empty());
}

#[test]
fn transfer_failures_carry_the_device_error() {
    let h = FakeHandle::default();
    let bulk = BulkTransferRequest {
        session_id: 1,
        device_id: DEV,
        endpoint: 0x81,
        data: Vec::new(),
        length: 64,
        timeout_ms: 10,
    };
    let r = execute_bulk_transfer(&fake_transfer, &h, &bulk);
    assert!(!r.success);
    assert_eq!(r.bytes_transferred, 0);
    assert!(r.data.is_empty());
    assert_eq!(r.error_message.as_deref(), Some("Timeout"));

    let out = BulkTransferRequest { endpoint: 0x02, data: vec![5; 10], ..bulk };
    let r = execute_bulk_transfer(&fake_transfer, &h, &out);
    assert!(r.success);
    assert_eq!(r.bytes_transferred, 10);

    let int_in = InterruptTransferRequest {
        session_id: 1,
        device_id: DEV,
        endpoint: 0x83,
        data: Vec::new(),
        length: 4,
        timeout_ms: 10,
    };
    let r = execute_interrupt_transfer(&fake_transfer, &h, &int_in);
    assert!(r.success);
    assert_eq!(r.data, vec![0, 0, 0, 0]);
    let int_out = InterruptTransferRequest { endpoint: 0x03, data: vec![1], ..int_in };
    let r = execute_interrupt_transfer(&fake_transfer, &h, &int_out);
    assert_eq!(r.error_message.as_deref(), Some("Pipe error"));
}

#[test]
fn keyed_server_refuses_requests_before_hello() {
    let mut conn = ConnectionState::new(Some(b"k".to_vec()));
    match conn.handle_message(Message::ListDevices) {
        Action::Reply(Message::Error(e)) => {
            assert_eq!(e.code, ErrorCode::AuthenticationFailed);
            assert_eq!(e.message, "Not authenticated. Send Hello first.");
        }
        _ => panic!("expected an error reply"),
    }
    assert!(matches!(conn.handle_message(Message::Ping), Action::Reply(Message::Pong)));
}

#[test]
fn open_server_forwards_requests() {
    let mut conn = ConnectionState::new(None);
    assert!(matches!(conn.handle_message(Message::ListDevices), Action::ListDevices));
    match conn.handle_message(Message::Attach(AttachRequest { device_id: DEV })) {
        Action::Attach(r) => assert_eq!(r.device_id, DEV),
        _ => panic!("expected Attach"),
    }
    match conn.handle_message(Message::Bridge(BridgeRequest { device_id: DEV })) {
        Action::LookupBridge(r) => assert_eq!(r.device_id, DEV),
        _ => panic!("expected LookupBridge"),
    }
    match conn.handle_message(Message::Pong) {
        Action::Reply(Message::Error(e)) => {
            assert_eq!(e.code, ErrorCode::InternalError);
            assert_eq!(e.message, "Unexpected message type");
        }
        _ => panic!("expected an error reply"),
    }
}

#[test]
fn sessions_of_other_connections_are_refused() {
    let mut conn = ConnectionState::new(None);
    match conn.handle_message(Message::Detach(DetachRequest { device_id: DEV, session_id: 4 })) {
        Action::Reply(Message::DetachResult(d)) => {
            assert!(!d.success);
            assert_eq!(d.error_message.as_deref(), Some("Session does not belong to this connection"));
        }
        _ => panic!("expected a refusal"),
    }
    match conn.handle_message(Message::ControlTransfer(control(0x80, 8, Vec::new()))) {
        Action::Reply(Message::TransferResult(t)) => {
            assert!(!t.success);
            assert_eq!(t.session_id, 3);
            assert_eq!(t.error_message.as_deref(), Some("Invalid session"));
        }
        _ => panic!("expected a refusal"),
    }
    let set = SetConfigurationRequest { session_id: 4, device_id: DEV, configuration: 1 };
    match conn.handle_message(Message::SetConfiguration(set)) {
        Action::Reply(Message::SetConfigurationResult(r)) => {
            assert!(!r.success);
            assert_eq!(r.error_message.as_deref(), Some("Invalid session"));
        }
        _ => panic!("expected a refusal"),
    }
}

#[test]
fn granted_session_is_served_then_forgotten() {
    let mut conn = ConnectionState::new(None);
    let req = AttachRequest { device_id: DEV };
    match conn.attach_reply(&req, Ok(Ok(3))) {
        Message::AttachResult(r) => {
            assert!(r.success);
            assert_eq!(r.session_id, Some(3));
        }
        _ => panic!("expected AttachResult"),
    }
    assert!(conn.sessions.contains_key(&3));
    let claim = ClaimInterfaceRequest { session_id: 3, device_id: DEV, interface_number: 0 };
    assert!(matches!(conn.handle_message(Message::ClaimInterface(claim)), Action::ClaimInterface(_)));
    match claim_interface_reply(Ok(Err("Access denied".to_string()))) {
        Message::ClaimInterfaceResult(r) => {
            assert!(!r.success);
            assert_eq!(r.error_message.as_deref(), Some("Access denied"));
        }
        _ => panic!("expected ClaimInterfaceResult"),
    }
    let det = DetachRequest { device_id: DEV, session_id: 3 };
    match conn.detach_reply(&det, Ok(Ok(()))) {
        Message::DetachResult(r) => assert!(r.success),
        _ => panic!("expected DetachResult"),
    }
    assert!(!conn.sessions.contains_key(&3));
    match conn.attach_reply(&req, Ok(Err("Device already attached by another client".to_string()))) {
        Message::AttachResult(r) => {
            assert!(!r.success);
            assert!(r.session_id.is_none());
        }
        _ => panic!("expected AttachResult"),
    }
    assert!(conn.sessions.is_empty());
}

#[test]
fn transfer_error_answer() {
    match transfer_error(&8, &DEV, "Invalid session") {
        Message::TransferResult(t) => {
            assert_eq!(t.session_id, 8);
            assert_eq!(t.device_id, DEV);
            assert!(!t.success);
            assert!(t.data.is_empty());
            assert_eq!(t.bytes_transferred, 0);
            assert_eq!(t.error_message.as_deref(), Some("Invalid session"));
        }
        _ => panic!("expected TransferResult"),
    }
}

#[test]
fn bridge_answers() {
    assert_eq!(bridge_busid(1, 4, 2), "1-4-2");
    match bridge_reply(&BridgeRequest { device_id: DEV }, None) {
        Action::Reply(Message::BridgeRejected(r)) => {
            assert_eq!(r.error_message, "Device not found at bus=1 addr=5");
        }
        _ => panic!("expected a rejection"),
    }
    match bridge_reply(&BridgeRequest { device_id: DEV }, Some(3)) {
        Action::Bridge { reply: Message::BridgeAccepted(b), target } => {
            assert_eq!(target, DEV);
            assert_eq!(b.busid, "1-5-3");
            assert_eq!(b.devid, 0);
        }
        _ => panic!("expected a bridge"),
    }
}

#[test]
fn configuration_entry_doubles_reported_power() {
    let c = configuration_info(1, 2, 250, Vec::new());
    assert_eq!(c.number, 1);
    assert_eq!(c.num_interfaces, 2);
    assert_eq!(c.max_power_ma, 500);
    assert!(!c.self_powered && !c.remote_wakeup);
    assert!(c.description.is_none());
}

#[test]
fn detach_undoes_attach() {
    let mut m: DeviceManager<FakeHandle> = DeviceManager::new();
    let other = DeviceId { bus_number: 4, address: 4 };
    let s0 = m.attach(other, "z".to_string(), FakeHandle::default(), Vec::new()).unwrap();
    let sid = m.attach(DEV, "c".to_string(), FakeHandle::default(), Vec::new()).unwrap();
    assert_eq!(sid, s0 + 1);
    m.detach(&fake_op, DEV, sid).unwrap();
    assert!(!m.is_attached(DEV));
    assert!(m.is_attached(other));
    assert!(m.validate_session(s0, other).is_ok());
    assert!(m.validate_session(sid, DEV).is_err());
    // ids are not reused
    assert_eq!(m.peek_next_session_id(), sid + 1);
}

#[test]
fn cleanup_with_shared_device_sessions() {
    let mut m: DeviceManager<FakeHandle> = DeviceManager::new();
    let sid = m.attach(DEV, "c".to_string(), FakeHandle::default(), vec![1]).unwrap();
    // the same session listed twice: the second pass finds nothing to do
    m.detach_all_for_sessions(&fake_op, &[sid, sid]);
    assert!(!m.is_attached(DEV));
}

#[test]
fn transfer_answer_for_each_outcome() {
    let r = transfer_answer(2, DEV, true, Ok((2, vec![7, 8, 9])));
    assert!(r.success);
    assert_eq!(r.data, vec![7, 8]);
    assert_eq!(r.bytes_transferred, 2);
    let r = transfer_answer(2, DEV, true, Ok((5, vec![7, 8, 9])));
    assert_eq!(r.data, vec![7, 8, 9]);
    assert_eq!(r.bytes_transferred, 5);
    let r = transfer_answer(2, DEV, false, Ok((4, vec![7])));
    assert!(r.data.is_empty());
    assert_eq!(r.bytes_transferred, 4);
    let r = transfer_answer(2, DEV, true, Err("Stall".to_string()));
    assert!(!r.success);
    assert!(r.data.is_empty());
    assert_eq!(r.bytes_transferred, 0);
    assert_eq!(r.error_message.as_deref(), Some("Stall"));
    assert_eq!((r.session_id, r.device_id), (2, DEV));
}

#[test]
fn detach_by_another_session_is_refused() {
    let mut m: DeviceManager<FakeHandle> = DeviceManager::new();
    let other = DeviceId { bus_number: 4, address: 4 };
    let s1 = m.attach(DEV, "a".to_string(), FakeHandle::default(), Vec::new()).unwrap();
    let s2 = m.attach(other, "b".to_string(), FakeHandle::default(), Vec::new()).unwrap();
    assert!(matches!(m.detach(&fake_op, DEV, s2), Err(WolfUsbError::InvalidSession(s)) if s == s2));
    assert!(matches!(m.detach(&fake_op, DEV, 99), Err(WolfUsbError::InvalidSession(99))));
    assert!(m.is_attached(DEV));
    assert!(m.validate_session(s1, DEV).is_ok());
    assert!(m.validate_session(s2, other).is_ok());
    m.detach(&fake_op, DEV, s1).unwrap();
    assert!(!m.is_attached(DEV));
}

#[test]
fn operations_asked_of_the_device() {
    match control_op(&control(0x80, 18, Vec::new())) {
        TransferOp::ReadControl { request_type, request, value, index, length, timeout_ms } => {
            assert_eq!((request_type, request, value, index, length, timeout_ms), (0x80, 6, 0x0100, 0, 18, 100));
        }
        other => panic!("unexpected {other:?}"),
    }
    match control_op(&control(0x40, 0, vec![5, 6])) {
        TransferOp::WriteControl { data, .. } => assert_eq!(data, vec![5, 6]),
        other => panic!("unexpected {other:?}"),
    }
    let h = FakeHandle::default();
    let a = wolfusb::server::device_manager::AttachmentInfo {
        handle: h,
        detached_kernel_drivers: vec![1],
        claimed_interfaces: vec![0, 2],
        client_addr: "x".to_string(),
    };
    assert_eq!(
        detach_actions(&a),
        vec![HandleOp::ReleaseInterface(0), HandleOp::ReleaseInterface(2), HandleOp::AttachKernelDriver(1)]
    );
}

#[test]
fn session_ids_are_never_reused() {
    let mut m: DeviceManager<FakeHandle> = DeviceManager::new();
    let mut seen = Vec::new();
    for round in 0..5u8 {
        let d = DeviceId { bus_number: 1, address: round % 2 };
        let sid = m.attach(d, "c".to_string(), FakeHandle::default(), Vec::new()).unwrap();
        assert!(!seen.contains(&sid));
        seen.push(sid);
        m.detach(&fake_op, d, sid).unwrap();
    }
    assert_eq!(seen, vec![1, 2, 3, 4, 5]);
}
