use eis_input::adapter::{EiInput, EiRequest, PostAction};
use eis_input::device::{DeviceCapability, InputCapability, Keymap};
use eis_input::event::{DeviceInfo, InputEvent, KeyState, KeyboardKey, SessionRequest};
use eis_input::handshake::HandshakeRequest;
use eis_input::protocol::{ContextType, DisconnectReason, Outgoing, Violation};

fn hs(req: HandshakeRequest) -> EiRequest {
    EiRequest::Handshake(req)
}

fn offer(name: &str) -> EiRequest {
    hs(HandshakeRequest::InterfaceVersion { name: name.to_string(), version: 1 })
}

fn keyboard_device() -> DeviceInfo {
    DeviceInfo { name: Some("keyboard".to_string()), capabilities: 0x20 }
}

/// Drives one request, compiling a keymap only when the engine asks for one.
fn drive(input: &mut EiInput, req: EiRequest, events: &mut Vec<InputEvent>, out: &mut Vec<Outgoing>) -> PostAction {
    let keymap = if input.wants_keymap(&req) {
        Keymap::from_text(b"xkb_keymap { };".to_vec())
    } else {
        None
    };
    input.handle_request(req, keymap, events, out)
}

fn connected(interfaces: &[&str]) -> (EiInput, Vec<InputEvent>, Vec<Outgoing>) {
    let mut out = Vec::new();
    let mut events = Vec::new();
    let mut input = EiInput::new(&mut out);
    let mut reqs = vec![
        hs(HandshakeRequest::HandshakeVersion { version: 1 }),
        hs(HandshakeRequest::ContextType { context_type: ContextType::Sender }),
    ];
    for name in interfaces {
        reqs.push(offer(name));
    }
    reqs.push(hs(HandshakeRequest::Finish));
    for req in reqs {
        assert_eq!(drive(&mut input, req, &mut events, &mut out), PostAction::Continue);
    }
    assert!(input.session().is_some());
    (input, events, out)
}

fn added_devices(out: &[Outgoing]) -> Vec<DeviceCapability> {
    out.iter()
        .filter_map(|o| match o {
            Outgoing::AddDevice { capability, .. } => Some(*capability),
            _ => None,
        })
        .collect()
}

#[test]
fn end_to_end_keyboard_session() {
    let (mut input, mut events, mut out) =
        connected(&["ei_connection", "ei_pingpong", "ei_callback", "ei_keyboard"]);
    assert!(out.iter().any(|o| matches!(o, Outgoing::AddSeat { .. })));
    assert!(events.is_empty());
    out.clear();

    let r = drive(&mut input, EiRequest::Session(SessionRequest::Bind { capabilities: 0x20 }), &mut events, &mut out);
    assert_eq!(r, PostAction::Continue);
    assert_eq!(out.len(), 1);
    match &out[0] {
        Outgoing::AddDevice { capability, keymap: Some(k) } => {
            assert_eq!(*capability, DeviceCapability::Keyboard);
            assert_eq!(k.declared_len() as usize, k.bytes().len());
            assert!(k.declared_len() > 0);
        }
        _ => panic!("expected a keyboard with its keymap"),
    }
    assert_eq!(input.session().unwrap().device_count(), 1);
    assert!(events.is_empty());
    out.clear();

    let key = KeyboardKey { device: keyboard_device(), time: 1000, key: 30, state: KeyState::Pressed };
    let r = drive(&mut input, EiRequest::Session(SessionRequest::KeyboardKey(key)), &mut events, &mut out);
    assert_eq!(r, PostAction::Continue);
    assert!(out.is_empty());
    assert_eq!(events.len(), 1);
    match &events[0] {
        InputEvent::Keyboard { event } => {
            assert_eq!(event.key_code(), 38);
            assert_eq!(event.state(), KeyState::Pressed);
            assert_eq!(event.count(), 1);
            assert_eq!(event.time, 1000);
        }
        _ => panic!("expected a keyboard event"),
    }
}

#[test]
fn bind_outside_capability_range_disconnects_with_value() {
    let (mut input, mut events, mut out) = connected(&["ei_connection", "ei_pingpong", "ei_callback", "ei_pointer"]);
    out.clear();
    let r = drive(&mut input, EiRequest::Session(SessionRequest::Bind { capabilities: 0x1 | 0x2 }), &mut events, &mut out);
    assert_eq!(r, PostAction::Remove);
    assert!(input.is_removed());
    assert_eq!(out.len(), 1);
    assert!(matches!(out[0], Outgoing::Disconnected { violation: Violation::InvalidCapabilities }));
    assert_eq!(Violation::InvalidCapabilities.reason(), DisconnectReason::Value);
    assert_eq!(Violation::InvalidCapabilities.explanation(), "Invalid capabilities");
}

#[test]
fn bind_high_bit_disconnects() {
    let (mut input, mut events, mut out) = connected(&["ei_connection", "ei_pingpong", "ei_callback"]);
    let r = drive(&mut input, EiRequest::Session(SessionRequest::Bind { capabilities: 0x80 }), &mut events, &mut out);
    assert_eq!(r, PostAction::Remove);
}

#[test]
fn bind_creates_one_device_per_negotiated_bit() {
    let (mut input, mut events, mut out) = connected(&[
        "ei_connection", "ei_pingpong", "ei_callback", "ei_pointer", "ei_touchscreen", "ei_button",
    ]);
    out.clear();
    // pointer, absolute pointer (not negotiated), button, touch
    let r = drive(&mut input, EiRequest::Session(SessionRequest::Bind { capabilities: 0x2 | 0x4 | 0x8 | 0x40 }), &mut events, &mut out);
    assert_eq!(r, PostAction::Continue);
    assert_eq!(
        added_devices(&out),
        vec![DeviceCapability::Pointer, DeviceCapability::Button, DeviceCapability::Touch]
    );
    let session = input.session().unwrap();
    assert_eq!(session.device_count(), 3);
    assert!(session.has_device(DeviceCapability::Touch));
    assert!(!session.has_device(DeviceCapability::PointerAbsolute));
    assert!(session.device(0).keymap.is_none());
}

#[test]
fn rebinding_bound_bits_creates_nothing() {
    let (mut input, mut events, mut out) =
        connected(&["ei_connection", "ei_pingpong", "ei_callback", "ei_pointer", "ei_keyboard"]);
    drive(&mut input, EiRequest::Session(SessionRequest::Bind { capabilities: 0x22 }), &mut events, &mut out);
    out.clear();
    let r = drive(&mut input, EiRequest::Session(SessionRequest::Bind { capabilities: 0x22 }), &mut events, &mut out);
    assert_eq!(r, PostAction::Continue);
    assert!(out.is_empty());
    assert_eq!(input.session().unwrap().device_count(), 2);
    let r = drive(&mut input, EiRequest::Session(SessionRequest::Bind { capabilities: 0 }), &mut events, &mut out);
    assert_eq!(r, PostAction::Continue);
    assert!(out.is_empty());
}

#[test]
fn keymap_only_wanted_for_new_negotiated_keyboard() {
    let (input, _events, _out) = connected(&["ei_connection", "ei_pingpong", "ei_callback", "ei_keyboard"]);
    let session = input.session().unwrap();
    assert!(session.wants_keymap(0x20));
    assert!(!session.wants_keymap(0x02));
    assert!(!session.wants_keymap(0x21));
    let (input, _events, _out) = connected(&["ei_connection", "ei_pingpong", "ei_callback"]);
    assert!(!input.session().unwrap().wants_keymap(0x20));
}

#[test]
fn keymap_must_not_be_empty() {
    assert!(Keymap::from_text(Vec::new()).is_none());
    let k = Keymap::from_text(vec![b'x'; 3]).unwrap();
    assert_eq!(k.declared_len(), 3);
    let d = k.duplicate();
    assert_eq!(d.bytes(), k.bytes());
}

#[test]
fn disconnect_request_ends_session() {
    let (mut input, mut events, mut out) = connected(&["ei_connection", "ei_pingpong", "ei_callback"]);
    out.clear();
    let r = drive(&mut input, EiRequest::Session(SessionRequest::Disconnect), &mut events, &mut out);
    assert_eq!(r, PostAction::Remove);
    assert!(out.is_empty());
    let key = KeyboardKey { device: keyboard_device(), time: 1, key: 1, state: KeyState::Released };
    let r = drive(&mut input, EiRequest::Session(SessionRequest::KeyboardKey(key)), &mut events, &mut out);
    assert_eq!(r, PostAction::Remove);
    assert!(events.is_empty());
}

#[test]
fn frames_and_emulation_markers_are_dropped() {
    let (mut input, mut events, mut out) = connected(&["ei_connection", "ei_pingpong", "ei_callback"]);
    out.clear();
    let reqs = vec![
        SessionRequest::StartEmulating { device: keyboard_device(), sequence: 1 },
        SessionRequest::Frame { device: keyboard_device(), time: 5 },
        SessionRequest::StopEmulating { device: keyboard_device() },
        SessionRequest::Other,
    ];
    for req in reqs {
        assert_eq!(drive(&mut input, EiRequest::Session(req), &mut events, &mut out), PostAction::Continue);
    }
    assert!(events.is_empty());
    assert!(out.is_empty());
}

#[test]
fn device_identity_and_capabilities() {
    let named = keyboard_device();
    assert_eq!(named.id(), "keyboard");
    assert_eq!(named.name(), "keyboard");
    assert!(named.has_capability(InputCapability::Keyboard));
    assert!(!named.has_capability(InputCapability::Pointer));
    assert!(!named.has_capability(InputCapability::Gesture));
    assert_eq!(named.usb_id(), None);
    assert_eq!(named.syspath(), None);
    let unnamed = DeviceInfo { name: None, capabilities: 0x42 };
    assert_eq!(unnamed.id(), "");
    assert!(unnamed.has_capability(InputCapability::Pointer));
    assert!(unnamed.has_capability(InputCapability::Touch));
    assert!(!unnamed.has_capability(InputCapability::TabletTool));
}

#[test]
fn capability_conversion_only_for_three_kinds() {
    assert_eq!(DeviceCapability::try_from_input(InputCapability::Keyboard), Ok(DeviceCapability::Keyboard));
    assert_eq!(DeviceCapability::try_from_input(InputCapability::Pointer), Ok(DeviceCapability::Pointer));
    assert_eq!(DeviceCapability::try_from_input(InputCapability::Touch), Ok(DeviceCapability::Touch));
    assert_eq!(DeviceCapability::try_from_input(InputCapability::Switch), Err(()));
    assert_eq!(DeviceCapability::try_from_input(InputCapability::TabletPad), Err(()));
    assert_eq!(DeviceCapability::Keyboard.bit(), 0x20);
    assert_eq!(DeviceCapability::PointerAbsolute.interface_name(), "ei_pointer_absolute");
    assert_eq!(DeviceCapability::PointerAbsolute.device_name(), "pointer-abs");
}
