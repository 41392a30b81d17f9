use eis_input::event::{
    Axis, AxisRelativeDirection, AxisSource, Button, ButtonState, DeviceInfo, FloatBits, InputEvent,
    PointerMotion, PointerMotionAbsolute, ScrollCancel, ScrollDelta, ScrollDiscrete, ScrollEvent,
    ScrollStop, SessionRequest, TouchDown, TouchMotion, TouchUp, convert_request, CANCEL_SCROLL_BITS,
};

fn dev() -> DeviceInfo {
    DeviceInfo { name: None, capabilities: 0x12 }
}

fn f(x: f32) -> FloatBits {
    FloatBits { bits: (x as f64).to_bits() }
}

fn value(a: Option<FloatBits>) -> Option<f64> {
    a.map(|b| f64::from_bits(b.bits))
}

fn axis_event(req: SessionRequest) -> ScrollEvent {
    match convert_request(req) {
        Some(InputEvent::PointerAxis { event }) => event,
        _ => panic!("expected an axis event"),
    }
}

#[test]
fn scroll_delta_reports_nonzero_axes() {
    let e = axis_event(SessionRequest::ScrollDelta(ScrollDelta { device: dev(), time: 9, dx: f(0.0), dy: f(5.0) }));
    assert_eq!(value(e.amount(Axis::Horizontal)), None);
    assert_eq!(value(e.amount(Axis::Vertical)), Some(5.0));
    assert_eq!(e.time(), 9);
    assert_eq!(e.amount_v120(Axis::Vertical), None);
}

#[test]
fn scroll_delta_negative_zero_is_absent() {
    let e = ScrollEvent::Delta(ScrollDelta { device: dev(), time: 0, dx: f(-0.0), dy: f(-2.5) });
    assert_eq!(value(e.amount(Axis::Horizontal)), None);
    assert_eq!(value(e.amount(Axis::Vertical)), Some(-2.5));
}

#[test]
fn scroll_cancel_reports_sentinel() {
    let e = axis_event(SessionRequest::ScrollCancel(ScrollCancel { device: dev(), time: 1, x: true, y: false }));
    assert_eq!(value(e.amount(Axis::Horizontal)), Some(0.01));
    assert_eq!(value(e.amount(Axis::Vertical)), None);
    assert_eq!(f64::from_bits(CANCEL_SCROLL_BITS), 0.01);
}

#[test]
fn scroll_stop_reports_zero() {
    let e = axis_event(SessionRequest::ScrollStop(ScrollStop { device: dev(), time: 1, x: false, y: true }));
    assert_eq!(value(e.amount(Axis::Horizontal)), None);
    assert_eq!(value(e.amount(Axis::Vertical)), Some(0.0));
}

#[test]
fn scroll_discrete_only_in_v120() {
    let e = axis_event(SessionRequest::ScrollDiscrete(ScrollDiscrete { device: dev(), time: 1, discrete_dx: 0, discrete_dy: -120 }));
    assert_eq!(e.amount(Axis::Vertical), None);
    assert_eq!(e.amount(Axis::Horizontal), None);
    assert_eq!(e.amount_v120(Axis::Horizontal), None);
    assert_eq!(e.amount_v120(Axis::Vertical), Some(-120));
    assert_eq!(e.source(), AxisSource::Wheel);
    assert_eq!(e.relative_direction(Axis::Vertical), AxisRelativeDirection::Identical);
}

#[test]
fn pointer_motion_passes_deltas_through() {
    match convert_request(SessionRequest::PointerMotion(PointerMotion { device: dev(), time: 3, dx: f(1.5), dy: f(-4.0) })) {
        Some(InputEvent::PointerMotion { event }) => {
            assert_eq!(f64::from_bits(event.delta_x().bits), 1.5);
            assert_eq!(f64::from_bits(event.delta_y().bits), -4.0);
            assert_eq!(event.delta_x_unaccel(), event.delta_x());
            assert_eq!(event.delta_y_unaccel(), event.delta_y());
        }
        _ => panic!("expected relative motion"),
    }
}

#[test]
fn absolute_motion_transform_is_identity() {
    match convert_request(SessionRequest::PointerMotionAbsolute(PointerMotionAbsolute { device: dev(), time: 3, dx_absolute: f(10.0), dy_absolute: f(20.0) })) {
        Some(InputEvent::PointerMotionAbsolute { event }) => {
            assert_eq!(f64::from_bits(event.x().bits), 10.0);
            assert_eq!(event.x_transformed(1920), event.x());
            assert_eq!(f64::from_bits(event.y_transformed(1080).bits), 20.0);
        }
        _ => panic!("expected absolute motion"),
    }
}

#[test]
fn button_passes_code_and_state() {
    match convert_request(SessionRequest::Button(Button { device: dev(), time: 2, button: 272, state: ButtonState::Released })) {
        Some(InputEvent::PointerButton { event }) => {
            assert_eq!(event.button_code(), 272);
            assert_eq!(event.state(), ButtonState::Released);
        }
        _ => panic!("expected a button event"),
    }
}

#[test]
fn touch_events_keyed_by_slot() {
    match convert_request(SessionRequest::TouchDown(TouchDown { device: dev(), time: 1, touch_id: 4, x: f(1.0), y: f(2.0) })) {
        Some(InputEvent::TouchDown { event }) => {
            assert_eq!(event.slot(), Some(4));
            assert_eq!(event.y_transformed(10), f(2.0));
        }
        _ => panic!("expected touch down"),
    }
    match convert_request(SessionRequest::TouchMotion(TouchMotion { device: dev(), time: 2, touch_id: 4, x: f(3.0), y: f(2.0) })) {
        Some(InputEvent::TouchMotion { event }) => {
            assert_eq!(event.slot(), Some(4));
            assert_eq!(event.x_transformed(10), f(3.0));
        }
        _ => panic!("expected touch motion"),
    }
    match convert_request(SessionRequest::TouchUp(TouchUp { device: dev(), time: 3, touch_id: 4 })) {
        Some(InputEvent::TouchUp { event }) => assert_eq!(event.slot(), Some(4)),
        _ => panic!("expected touch up"),
    }
}

#[test]
fn session_only_requests_translate_to_nothing() {
    assert!(convert_request(SessionRequest::Disconnect).is_none());
    assert!(convert_request(SessionRequest::Bind { capabilities: 2 }).is_none());
    assert!(convert_request(SessionRequest::Frame { device: dev(), time: 1 }).is_none());
    assert!(convert_request(SessionRequest::Other).is_none());
}
