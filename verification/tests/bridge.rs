use remote_serial::handshake::encode_le_u32;
use remote_serial::keys::{KeyCode, KeyStroke};
use remote_serial::message::PendingMessage;
use remote_serial::mux::{Mux, MuxAction, MuxEvent, SerialInput, TermEvent};
use remote_serial::registry::Registry;
use remote_serial::session::{
    failure_notice, password_prompt, ReadOutcome, Session, SessionPhase,
};

const PASSWORD: u32 = 32485967;

fn key(code: KeyCode, ctrl: bool) -> MuxEvent {
    MuxEvent::Term(TermEvent::Key(KeyStroke { code, ctrl }))
}

/// Run a whole client handshake against the multiplexer and return the
/// session, as an authenticated bridge would hold it.
fn admit_client(mux: &mut Mux, id: u64, response: &[u8]) -> Session {
    let mut session = Session::new(id);
    let step = session.on_read(PASSWORD, ReadOutcome::Data(response.to_vec()));
    let _ = mux.step(MuxEvent::Accepted);
    let _ = mux.step(MuxEvent::Message(step.message));
    session
}

#[test]
fn good_password_authenticates_and_registers() {
    // Scenario: configured password 32485967; the client answers with its
    // four little-endian bytes.
    let mut mux = Mux::new(false);
    let session = admit_client(&mut mux, 1, &[0x4F, 0xB2, 0xEF, 0x01]);
    assert_eq!(session.phase, SessionPhase::Relaying);
    assert_eq!(mux.registry.len(), 1);
    assert!(mux.registry.contains(1));
}

#[test]
fn wrong_password_is_rejected_and_never_registered() {
    // Scenario: the client answers with four zero bytes.
    let mut mux = Mux::new(false);
    let mut session = Session::new(1);
    let step = session.on_read(PASSWORD, ReadOutcome::Data(vec![0, 0, 0, 0]));
    assert_eq!(session.phase, SessionPhase::Finished);
    assert!(step.send_failure_notice);
    assert!(matches!(step.message, PendingMessage::ClientAuthFailed { id: 1 }));
    let action = mux.step(MuxEvent::Message(step.message));
    assert!(matches!(action, MuxAction::Idle));
    assert_eq!(mux.registry.len(), 0);
}

#[test]
fn handshake_read_failure_is_rejected() {
    let mut session = Session::new(9);
    let step = session.on_read(PASSWORD, ReadOutcome::Failed);
    assert_eq!(session.phase, SessionPhase::Finished);
    assert!(step.send_failure_notice);
    assert!(matches!(step.message, PendingMessage::ClientAuthFailed { id: 9 }));
}

#[test]
fn short_handshake_response_is_rejected() {
    let mut session = Session::new(9);
    let step = session.on_read(PASSWORD, ReadOutcome::Data(vec![0x7F, 0xCF, 0xED]));
    assert!(step.send_failure_notice);
    assert!(matches!(step.message, PendingMessage::ClientAuthFailed { id: 9 }));
}

#[test]
fn serial_chunk_broadcasts_to_every_authenticated_session() {
    // Scenario: one authenticated client; the device produces "OK\r\n".
    let mut mux = Mux::new(false);
    admit_client(&mut mux, 1, &encode_le_u32(PASSWORD));
    let action = mux.step(MuxEvent::Serial(SerialInput::Chunk(b"OK\r\n".to_vec())));
    match action {
        MuxAction::Broadcast { bytes, targets } => {
            assert_eq!(bytes, b"OK\r\n".to_vec());
            assert_eq!(targets, vec![1]);
        }
        other => panic!("expected a broadcast, got {:?}", action_name(&other)),
    }
}

#[test]
fn broadcast_reaches_all_sessions_byte_for_byte() {
    let mut mux = Mux::new(false);
    admit_client(&mut mux, 1, &encode_le_u32(PASSWORD));
    admit_client(&mut mux, 2, &encode_le_u32(PASSWORD));
    admit_client(&mut mux, 3, &encode_le_u32(PASSWORD));
    let chunk: Vec<u8> = (0u8..=255).collect();
    let action = mux.step(MuxEvent::Serial(SerialInput::Chunk(chunk.clone())));
    match action {
        MuxAction::Broadcast { bytes, targets } => {
            assert_eq!(bytes, chunk);
            assert_eq!(targets, vec![1, 2, 3]);
        }
        other => panic!("expected a broadcast, got {:?}", action_name(&other)),
    }
    // A write failure on one target is absorbed by the loop: the registry
    // keeps all three sessions, and the next chunk again goes to them all.
    let action = mux.step(MuxEvent::Serial(SerialInput::Chunk(vec![1, 2])));
    match action {
        MuxAction::Broadcast { targets, .. } => assert_eq!(targets, vec![1, 2, 3]),
        other => panic!("expected a broadcast, got {:?}", action_name(&other)),
    }
}

#[test]
fn no_broadcast_reaches_a_client_before_it_authenticates() {
    let mut mux = Mux::new(false);
    // The connection was accepted, but no ClientConnected has arrived yet.
    let _ = mux.step(MuxEvent::Accepted);
    let action = mux.step(MuxEvent::Serial(SerialInput::Chunk(b"early".to_vec())));
    match action {
        MuxAction::Broadcast { targets, .. } => assert!(targets.is_empty()),
        other => panic!("expected a broadcast, got {:?}", action_name(&other)),
    }
}

#[test]
fn fatal_serial_failure_stops_the_loop() {
    let mut mux = Mux::new(false);
    admit_client(&mut mux, 1, &encode_le_u32(PASSWORD));
    let action = mux.step(MuxEvent::Serial(SerialInput::Failed));
    assert!(matches!(action, MuxAction::Stop));
    assert!(!mux.running);
}

#[test]
fn accept_failure_stops_the_loop() {
    let mut mux = Mux::new(false);
    let action = mux.step(MuxEvent::AcceptFailed);
    assert!(matches!(action, MuxAction::Stop));
    assert!(!mux.running);
}

#[test]
fn closed_session_gets_no_later_broadcast_and_no_listing() {
    let mut mux = Mux::new(false);
    let mut session = admit_client(&mut mux, 1, &encode_le_u32(PASSWORD));
    admit_client(&mut mux, 2, &encode_le_u32(PASSWORD));
    // The peer closes: a zero-length read.
    let step = session.on_read(PASSWORD, ReadOutcome::Data(vec![]));
    assert_eq!(session.phase, SessionPhase::Finished);
    assert!(matches!(step.message, PendingMessage::ClientClosed { id: 1 }));
    let _ = mux.step(MuxEvent::Message(step.message));
    let action = mux.step(MuxEvent::Serial(SerialInput::Chunk(b"later".to_vec())));
    match action {
        MuxAction::Broadcast { targets, .. } => assert_eq!(targets, vec![2]),
        other => panic!("expected a broadcast, got {:?}", action_name(&other)),
    }
    let action = mux.step(key(KeyCode::Printable('y'), true));
    match action {
        MuxAction::ListSessions(ids) => assert_eq!(ids, vec![2]),
        other => panic!("expected a listing, got {:?}", action_name(&other)),
    }
}

#[test]
fn relay_read_failure_closes_the_session() {
    let mut mux = Mux::new(false);
    let mut session = admit_client(&mut mux, 5, &encode_le_u32(PASSWORD));
    let step = session.on_read(PASSWORD, ReadOutcome::Failed);
    assert_eq!(session.phase, SessionPhase::Finished);
    assert!(matches!(step.message, PendingMessage::ClientClosed { id: 5 }));
    let _ = mux.step(MuxEvent::Message(step.message));
    assert_eq!(mux.registry.len(), 0);
}

#[test]
fn ctrl_x_terminates_the_loop() {
    // Scenario: the local operator presses Ctrl+X.
    let mut mux = Mux::new(false);
    let action = mux.step(key(KeyCode::Printable('x'), true));
    assert!(matches!(action, MuxAction::Stop));
    assert!(!mux.running);
}

#[test]
fn ctrl_y_lists_both_sessions_and_changes_nothing() {
    // Scenario: two authenticated clients; the operator presses Ctrl+Y.
    let mut mux = Mux::new(false);
    admit_client(&mut mux, 10, &encode_le_u32(PASSWORD));
    admit_client(&mut mux, 20, &encode_le_u32(PASSWORD));
    let action = mux.step(key(KeyCode::Printable('y'), true));
    match action {
        MuxAction::ListSessions(ids) => {
            assert_eq!(ids.len(), 2);
            assert_eq!(ids, vec![10, 20]);
        }
        other => panic!("expected a listing, got {:?}", action_name(&other)),
    }
    assert_eq!(mux.registry.len(), 2);
    assert!(mux.registry.contains(10));
    assert!(mux.registry.contains(20));
    assert!(mux.running);
}

#[test]
fn client_bytes_go_to_serial_and_are_not_echoed_back() {
    // Scenario: one authenticated client sends "ping".
    let mut mux = Mux::new(false);
    let mut session = admit_client(&mut mux, 1, &encode_le_u32(PASSWORD));
    let step = session.on_read(PASSWORD, ReadOutcome::Data(b"ping".to_vec()));
    assert_eq!(session.phase, SessionPhase::Relaying);
    let action = mux.step(MuxEvent::Message(step.message));
    match action {
        // The bytes go to the serial device only: no broadcast, so the
        // sender never sees its own bytes again.
        MuxAction::WriteSerial(bytes) => assert_eq!(bytes, b"ping".to_vec()),
        other => panic!("expected a serial write, got {:?}", action_name(&other)),
    }
}

#[test]
fn local_keystroke_bytes_go_to_serial() {
    let mut mux = Mux::new(false);
    let action = mux.step(key(KeyCode::Enter, false));
    match action {
        MuxAction::WriteSerial(bytes) => assert_eq!(bytes, vec![0x0D]),
        other => panic!("expected a serial write, got {:?}", action_name(&other)),
    }
    let action = mux.step(key(KeyCode::Other, false));
    assert!(matches!(action, MuxAction::Idle));
    let action = mux.step(MuxEvent::Term(TermEvent::Resize));
    assert!(matches!(action, MuxAction::Idle));
}

#[test]
fn trace_mode_shows_chunks_instead_of_broadcasting() {
    let mut mux = Mux::new(true);
    admit_client(&mut mux, 1, &encode_le_u32(PASSWORD));
    let action = mux.step(MuxEvent::Serial(SerialInput::Chunk(b"dbg".to_vec())));
    match action {
        MuxAction::TraceChunk(bytes) => assert_eq!(bytes, b"dbg".to_vec()),
        other => panic!("expected a trace, got {:?}", action_name(&other)),
    }
}

#[test]
fn registry_keeps_identities_unique_and_ordered() {
    let mut reg = Registry::new();
    reg.insert(3);
    reg.insert(1);
    reg.insert(3);
    assert_eq!(reg.len(), 2);
    assert_eq!(reg.ids(), vec![3, 1]);
    reg.remove(7);
    assert_eq!(reg.ids(), vec![3, 1]);
    reg.remove(3);
    assert_eq!(reg.ids(), vec![1]);
    assert!(!reg.contains(3));
    assert!(reg.contains(1));
}

#[test]
fn prompt_and_failure_notice_texts() {
    assert_eq!(password_prompt(), b"Please Enter password:".to_vec());
    assert_eq!(failure_notice(), b"\r\nPassword error, exited!!!\r\n".to_vec());
}

fn action_name(a: &MuxAction) -> &'static str {
    match a {
        MuxAction::Idle => "Idle",
        MuxAction::WriteSerial(_) => "WriteSerial",
        MuxAction::Broadcast { .. } => "Broadcast",
        MuxAction::TraceChunk(_) => "TraceChunk",
        MuxAction::ListSessions(_) => "ListSessions",
        MuxAction::SpawnSession => "SpawnSession",
        MuxAction::Stop => "Stop",
    }
}
