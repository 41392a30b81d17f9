use eis_input::adapter::{EiInput, EiRequest, PostAction};
use eis_input::event::SessionRequest;
use eis_input::handshake::{HandshakeRequest, HandshakeResult, HandshakeState};
use eis_input::interface::Interface;
use eis_input::protocol::{ContextType, DisconnectReason, Outgoing, Violation};

fn offer(name: &str, version: u32) -> HandshakeRequest {
    HandshakeRequest::InterfaceVersion { name: name.to_string(), version }
}

fn offer_mandatory(hs: &mut HandshakeState, out: &mut Vec<Outgoing>) {
    for name in ["ei_connection", "ei_pingpong", "ei_callback"] {
        assert!(matches!(hs.handle_request(offer(name, 1), out), HandshakeResult::Continue));
    }
}

fn echoed_versions(out: &[Outgoing]) -> Vec<(Interface, u32)> {
    out.iter()
        .filter_map(|o| match o {
            Outgoing::InterfaceVersion { interface, version } => Some((*interface, *version)),
            _ => None,
        })
        .collect()
}

#[test]
fn new_handshake_announces_version_one() {
    let mut out = Vec::new();
    let _hs = HandshakeState::new(&mut out);
    assert_eq!(out.len(), 1);
    assert!(matches!(out[0], Outgoing::HandshakeVersion { version: 1 }));
}

#[test]
fn last_offer_wins_capped_at_server_version() {
    let mut out = Vec::new();
    let mut hs = HandshakeState::new(&mut out);
    out.clear();
    for req in [offer("ei_keyboard", 7), offer("ei_keyboard", 0), offer("ei_pointer", 3)] {
        assert!(matches!(hs.handle_request(req, &mut out), HandshakeResult::Continue));
    }
    assert!(out.is_empty());
    assert!(matches!(hs.handle_request(HandshakeRequest::Finish, &mut out), HandshakeResult::Disconnect(Violation::MissingInterface)));
    assert_eq!(echoed_versions(&out), vec![(Interface::Keyboard, 0), (Interface::Pointer, 1)]);
}

#[test]
fn unknown_interface_names_are_ignored() {
    let mut out = Vec::new();
    let mut hs = HandshakeState::new(&mut out);
    out.clear();
    assert!(matches!(hs.handle_request(offer("ei_text", 1), &mut out), HandshakeResult::Continue));
    assert!(matches!(hs.handle_request(offer("not_an_interface", 9), &mut out), HandshakeResult::Continue));
    assert!(matches!(hs.handle_request(offer("ei_callbac", 1), &mut out), HandshakeResult::Continue));
    hs.handle_request(HandshakeRequest::Finish, &mut out);
    assert!(echoed_versions(&out).is_empty());
}

#[test]
fn interface_lookup_by_name() {
    assert_eq!(Interface::from_name("ei_pointer_absolute"), Some(Interface::PointerAbsolute));
    assert_eq!(Interface::from_name("ei_touchscreen"), Some(Interface::Touchscreen));
    assert_eq!(Interface::from_name("ei_pointer_"), None);
    assert_eq!(Interface::from_name(""), None);
    assert_eq!(Interface::Pingpong.name(), "ei_pingpong");
    assert_eq!(Interface::Seat.server_version(), 1);
}

#[test]
fn finish_without_mandatory_interfaces_disconnects() {
    let mut out = Vec::new();
    let mut hs = HandshakeState::new(&mut out);
    hs.handle_request(HandshakeRequest::ContextType { context_type: ContextType::Sender }, &mut out);
    for name in ["ei_connection", "ei_callback", "ei_keyboard", "ei_pointer", "ei_seat", "ei_device"] {
        hs.handle_request(offer(name, 1), &mut out);
    }
    out.clear();
    let r = hs.handle_request(HandshakeRequest::Finish, &mut out);
    assert!(matches!(r, HandshakeResult::Disconnect(Violation::MissingInterface)));
    assert!(!out.iter().any(|o| matches!(o, Outgoing::Connection { .. })));
    assert_eq!(echoed_versions(&out).len(), 6);
}

#[test]
fn context_type_twice_disconnects_same_value() {
    let mut out = Vec::new();
    let mut hs = HandshakeState::new(&mut out);
    let first = hs.handle_request(HandshakeRequest::ContextType { context_type: ContextType::Sender }, &mut out);
    assert!(matches!(first, HandshakeResult::Continue));
    let second = hs.handle_request(HandshakeRequest::ContextType { context_type: ContextType::Sender }, &mut out);
    assert!(matches!(second, HandshakeResult::Disconnect(Violation::DuplicateContextType)));
}

#[test]
fn context_type_twice_disconnects_other_value() {
    let mut out = Vec::new();
    let mut hs = HandshakeState::new(&mut out);
    hs.handle_request(HandshakeRequest::ContextType { context_type: ContextType::Receiver }, &mut out);
    hs.handle_request(offer("ei_pointer", 1), &mut out);
    let second = hs.handle_request(HandshakeRequest::ContextType { context_type: ContextType::Sender }, &mut out);
    assert!(matches!(second, HandshakeResult::Disconnect(Violation::DuplicateContextType)));
    assert_eq!(Violation::DuplicateContextType.reason(), DisconnectReason::Protocol);
}

#[test]
fn name_twice_disconnects() {
    let mut out = Vec::new();
    let mut hs = HandshakeState::new(&mut out);
    let first = hs.handle_request(HandshakeRequest::Name { name: "a".to_string() }, &mut out);
    assert!(matches!(first, HandshakeResult::Continue));
    let second = hs.handle_request(HandshakeRequest::Name { name: "b".to_string() }, &mut out);
    assert!(matches!(second, HandshakeResult::Disconnect(Violation::DuplicateName)));
}

#[test]
fn finish_without_context_type_disconnects_after_connection() {
    let mut out = Vec::new();
    let mut hs = HandshakeState::new(&mut out);
    offer_mandatory(&mut hs, &mut out);
    out.clear();
    let r = hs.handle_request(HandshakeRequest::Finish, &mut out);
    assert!(matches!(r, HandshakeResult::Disconnect(Violation::MissingContextType)));
    assert!(matches!(out.last(), Some(Outgoing::Connection { serial: 0, version: 1 })));
}

#[test]
fn receiver_role_is_reported_apart() {
    let mut out = Vec::new();
    let mut hs = HandshakeState::new(&mut out);
    hs.handle_request(HandshakeRequest::ContextType { context_type: ContextType::Receiver }, &mut out);
    offer_mandatory(&mut hs, &mut out);
    let r = hs.handle_request(HandshakeRequest::Finish, &mut out);
    assert!(matches!(r, HandshakeResult::ReceiverUnsupported));
}

#[test]
fn sender_finish_opens_session_with_seat() {
    let mut out = Vec::new();
    let mut hs = HandshakeState::new(&mut out);
    hs.handle_request(HandshakeRequest::HandshakeVersion { version: 1 }, &mut out);
    hs.handle_request(HandshakeRequest::Name { name: "tool".to_string() }, &mut out);
    hs.handle_request(HandshakeRequest::ContextType { context_type: ContextType::Sender }, &mut out);
    offer_mandatory(&mut hs, &mut out);
    out.clear();
    match hs.handle_request(HandshakeRequest::Finish, &mut out) {
        HandshakeResult::Sender(session) => {
            assert_eq!(session.name().map(|n| n.as_str()), Some("tool"));
            assert_eq!(session.last_serial(), 0);
            assert_eq!(session.device_count(), 0);
            assert_eq!(session.seat_name(), "default");
        }
        _ => panic!("expected a session"),
    }
    assert_eq!(out.len(), 5);
    assert_eq!(
        echoed_versions(&out),
        vec![(Interface::Callback, 1), (Interface::Connection, 1), (Interface::Pingpong, 1)]
    );
    assert!(matches!(out[3], Outgoing::Connection { serial: 0, version: 1 }));
    assert!(matches!(out[4], Outgoing::AddSeat { capabilities: 0x7e }));
}

#[test]
fn disconnect_before_finish_emits_no_events() {
    let mut out = Vec::new();
    let mut events = Vec::new();
    let mut input = EiInput::new(&mut out);
    let reqs = vec![
        EiRequest::Handshake(HandshakeRequest::ContextType { context_type: ContextType::Sender }),
        EiRequest::Session(SessionRequest::Bind { capabilities: 0x20 }),
        EiRequest::Handshake(HandshakeRequest::ContextType { context_type: ContextType::Sender }),
    ];
    let mut last = PostAction::Continue;
    for req in reqs {
        last = input.handle_request(req, None, &mut events, &mut out);
    }
    assert_eq!(last, PostAction::Remove);
    assert!(input.is_removed());
    assert!(input.session().is_none());
    assert!(events.is_empty());
    assert!(matches!(out.last(), Some(Outgoing::Disconnected { violation: Violation::DuplicateContextType })));
}

#[test]
fn removed_connection_takes_no_more_requests() {
    let mut out = Vec::new();
    let mut events = Vec::new();
    let mut input = EiInput::new(&mut out);
    let r = input.handle_request(EiRequest::InvalidObject(42), None, &mut events, &mut out);
    assert_eq!(r, PostAction::Remove);
    out.clear();
    let r = input.handle_request(EiRequest::Handshake(HandshakeRequest::Finish), None, &mut events, &mut out);
    assert_eq!(r, PostAction::Remove);
    assert!(out.is_empty());
}
