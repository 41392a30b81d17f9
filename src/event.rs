//! Requests a sending client makes once its session is up, the input events
//! they become, and the translation between the two.
use vstd::prelude::*;
use crate::device::{DeviceCapability, InputCapability, input_capability, capability_bit};

verus! {

/// A floating-point value from the wire, held as the bit pattern of the
/// IEEE-754 double it denotes.
#[derive(Clone, Copy, Debug, PartialEq, Eq, Structural)]
pub struct FloatBits {
    pub bits: u64,
}

/// Bits of a double other than its sign.
pub const MAGNITUDE_MASK: u64 = 0x7fff_ffff_ffff_ffff;

/// Bits of the double 0.01, the amount reported on an axis whose scrolling
/// was cancelled.
pub const CANCEL_SCROLL_BITS: u64 = 0x3f84_7ae1_47ae_147b;

/// Bits of the double 0.0, the amount reported on an axis whose scrolling
/// stopped.
pub const STOP_SCROLL_BITS: u64 = 0;

/// The value is plus or minus zero.
pub open spec fn is_zero_float(x: FloatBits) -> bool {
    x.bits & MAGNITUDE_MASK == 0
}

impl FloatBits {
    /// Whether the value is plus or minus zero.
    pub fn is_zero(self) -> (r: bool)
        ensures
            r == is_zero_float(self),
    {
        self.bits & MAGNITUDE_MASK == 0
    }
}

/// Logical state of a key.
#[derive(Clone, Copy, Debug, PartialEq, Eq, Structural)]
pub enum KeyState {
    Released,
    Pressed,
}

/// Logical state of a button.
#[derive(Clone, Copy, Debug, PartialEq, Eq, Structural)]
pub enum ButtonState {
    Released,
    Pressed,
}

/// A scroll axis.
#[derive(Clone, Copy, Debug, PartialEq, Eq, Structural)]
pub enum Axis {
    Horizontal,
    Vertical,
}

/// The kind of hardware a scroll event comes from.
#[derive(Clone, Copy, Debug, PartialEq, Eq, Structural)]
pub enum AxisSource {
    Finger,
    Continuous,
    Wheel,
    WheelTilt,
}

/// Whether scrolling follows the physical motion or runs against it.
#[derive(Clone, Copy, Debug, PartialEq, Eq, Structural)]
pub enum AxisRelativeDirection {
    Identical,
    Inverted,
}

/// The device a request names: its name, if the client has one for it, and
/// the mask of its capabilities.
pub struct DeviceInfo {
    pub name: Option<String>,
    pub capabilities: u64,
}

/// The label of a device: its name, or the empty text.
pub open spec fn device_label(d: DeviceInfo) -> Seq<char> {
    match d.name {
        Some(n) => n@,
        None => Seq::empty(),
    }
}

impl DeviceInfo {
    /// Identity of the device: its name, or the empty text.
    pub fn id(&self) -> (r: String)
        ensures
            r@ == device_label(*self),
    {
        self.name()
    }

    /// Name of the device, or the empty text.
    pub fn name(&self) -> (r: String)
        ensures
            r@ == device_label(*self),
    {
        match &self.name {
            Some(n) => n.clone(),
            None => String::new(),
        }
    }

    /// Whether the device has a capability of the host's input stack; host
    /// capabilities without a protocol counterpart are never present.
    pub fn has_capability(&self, capability: InputCapability) -> (r: bool)
        ensures
            r == match input_capability(capability) {
                Ok(c) => self.capabilities & capability_bit(c) != 0,
                Err(_) => false,
            },
    {
        match DeviceCapability::try_from_input(capability) {
            Ok(c) => self.capabilities & c.bit() != 0,
            Err(_) => false,
        }
    }

    /// Vendor and product ids; emulated devices have none.
    pub fn usb_id(&self) -> (r: Option<(u32, u32)>)
        ensures
            r is None,
    {
        None
    }

    /// Path of the device in the system's device tree; emulated devices have none.
    pub fn syspath(&self) -> (r: Option<String>)
        ensures
            r is None,
    {
        None
    }
}

/// A key press or release.
pub struct KeyboardKey {
    pub device: DeviceInfo,
    pub time: u64,
    pub key: u32,
    pub state: KeyState,
}

impl KeyboardKey {
    /// The key code in the host's numbering, eight above the wire's.
    pub fn key_code(&self) -> (r: u64)
        ensures
            r == self.key + 8,
    {
        self.key as u64 + 8
    }

    /// Whether the key went down or up.
    pub fn state(&self) -> (r: KeyState)
        ensures
            r == self.state,
    {
        self.state
    }

    /// How often the key is held down at once; emulated keys count once.
    pub fn count(&self) -> (r: u32)
        ensures
            r == 1,
    {
        1
    }
}

/// Relative pointer motion.
pub struct PointerMotion {
    pub device: DeviceInfo,
    pub time: u64,
    pub dx: FloatBits,
    pub dy: FloatBits,
}

impl PointerMotion {
    /// Motion along x, after acceleration.
    pub fn delta_x(&self) -> (r: FloatBits)
        ensures
            r == self.dx,
    {
        self.dx
    }

    /// Motion along y, after acceleration.
    pub fn delta_y(&self) -> (r: FloatBits)
        ensures
            r == self.dy,
    {
        self.dy
    }

    /// Motion along x, before acceleration: the same value.
    pub fn delta_x_unaccel(&self) -> (r: FloatBits)
        ensures
            r == self.dx,
    {
        self.dx
    }

    /// Motion along y, before acceleration: the same value.
    pub fn delta_y_unaccel(&self) -> (r: FloatBits)
        ensures
            r == self.dy,
    {
        self.dy
    }
}

/// Absolute pointer position.
pub struct PointerMotionAbsolute {
    pub device: DeviceInfo,
    pub time: u64,
    pub dx_absolute: FloatBits,
    pub dy_absolute: FloatBits,
}

impl PointerMotionAbsolute {
    /// Position along x.
    pub fn x(&self) -> (r: FloatBits)
        ensures
            r == self.dx_absolute,
    {
        self.dx_absolute
    }

    /// Position along y.
    pub fn y(&self) -> (r: FloatBits)
        ensures
            r == self.dy_absolute,
    {
        self.dy_absolute
    }

    /// Position along x in an output of the given width; no mapping into
    /// output space is made yet, so this is the position itself.
    pub fn x_transformed(&self, width: i32) -> (r: FloatBits)
        ensures
            r == self.dx_absolute,
    {
        self.dx_absolute
    }

    /// Position along y in an output of the given height; the position itself.
    pub fn y_transformed(&self, height: i32) -> (r: FloatBits)
        ensures
            r == self.dy_absolute,
    {
        self.dy_absolute
    }
}

/// A button press or release.
pub struct Button {
    pub device: DeviceInfo,
    pub time: u64,
    pub button: u32,
    pub state: ButtonState,
}

impl Button {
    /// The button's code, as the wire gives it.
    pub fn button_code(&self) -> (r: u32)
        ensures
            r == self.button,
    {
        self.button
    }

    /// Whether the button went down or up.
    pub fn state(&self) -> (r: ButtonState)
        ensures
            r == self.state,
    {
        self.state
    }
}

/// Smooth scrolling by an amount on each axis.
pub struct ScrollDelta {
    pub device: DeviceInfo,
    pub time: u64,
    pub dx: FloatBits,
    pub dy: FloatBits,
}

/// Scrolling stopped on the flagged axes.
pub struct ScrollStop {
    pub device: DeviceInfo,
    pub time: u64,
    pub x: bool,
    pub y: bool,
}

/// Scrolling cancelled on the flagged axes.
pub struct ScrollCancel {
    pub device: DeviceInfo,
    pub time: u64,
    pub x: bool,
    pub y: bool,
}

/// Scrolling in wheel notches, in units of 1/120 of a notch.
pub struct ScrollDiscrete {
    pub device: DeviceInfo,
    pub time: u64,
    pub discrete_dx: i32,
    pub discrete_dy: i32,
}

/// One scroll request, of any of the four kinds.
pub enum ScrollEvent {
    Delta(ScrollDelta),
    Cancel(ScrollCancel),
    Discrete(ScrollDiscrete),
    Stop(ScrollStop),
}

/// Continuous amount reported on an axis: a non-zero delta as it came, the
/// cancel amount on a cancelled axis, zero on a stopped axis, and nothing
/// otherwise.
pub open spec fn scroll_amount(e: ScrollEvent, axis: Axis) -> Option<FloatBits> {
    match e {
        ScrollEvent::Delta(d) => {
            let v = if axis == Axis::Horizontal {
                d.dx
            } else {
                d.dy
            };
            if is_zero_float(v) {
                None
            } else {
                Some(v)
            }
        },
        ScrollEvent::Cancel(c) => {
            if (axis == Axis::Horizontal && c.x) || (axis == Axis::Vertical && c.y) {
                Some(FloatBits { bits: CANCEL_SCROLL_BITS })
            } else {
                None
            }
        },
        ScrollEvent::Discrete(_) => None,
        ScrollEvent::Stop(s) => {
            if (axis == Axis::Horizontal && s.x) || (axis == Axis::Vertical && s.y) {
                Some(FloatBits { bits: STOP_SCROLL_BITS })
            } else {
                None
            }
        },
    }
}

/// Amount in 1/120 notches reported on an axis: only wheel scrolling has
/// one, and only where it is not zero.
pub open spec fn scroll_amount_v120(e: ScrollEvent, axis: Axis) -> Option<i32> {
    match e {
        ScrollEvent::Discrete(d) => {
            let v = if axis == Axis::Horizontal {
                d.discrete_dx
            } else {
                d.discrete_dy
            };
            if v == 0 {
                None
            } else {
                Some(v)
            }
        },
        _ => None,
    }
}

/// Timestamp of a scroll event.
pub open spec fn scroll_time(e: ScrollEvent) -> u64 {
    match e {
        ScrollEvent::Delta(d) => d.time,
        ScrollEvent::Cancel(c) => c.time,
        ScrollEvent::Discrete(d) => d.time,
        ScrollEvent::Stop(s) => s.time,
    }
}

/// Device of a scroll event.
pub open spec fn scroll_device(e: ScrollEvent) -> DeviceInfo {
    match e {
        ScrollEvent::Delta(d) => d.device,
        ScrollEvent::Cancel(c) => c.device,
        ScrollEvent::Discrete(d) => d.device,
        ScrollEvent::Stop(s) => s.device,
    }
}

impl ScrollEvent {
    /// Timestamp in microseconds.
    pub fn time(&self) -> (r: u64)
        ensures
            r == scroll_time(*self),
    {
        match self {
            ScrollEvent::Delta(evt) => evt.time,
            ScrollEvent::Cancel(evt) => evt.time,
            ScrollEvent::Discrete(evt) => evt.time,
            ScrollEvent::Stop(evt) => evt.time,
        }
    }

    /// The device scrolled.
    pub fn device(&self) -> (r: &DeviceInfo)
        ensures
            *r == scroll_device(*self),
    {
        match self {
            ScrollEvent::Delta(evt) => &evt.device,
            ScrollEvent::Cancel(evt) => &evt.device,
            ScrollEvent::Discrete(evt) => &evt.device,
            ScrollEvent::Stop(evt) => &evt.device,
        }
    }

    /// Continuous amount on an axis, if any.
    pub fn amount(&self, axis: Axis) -> (r: Option<FloatBits>)
        ensures
            r == scroll_amount(*self, axis),
    {
        match self {
            ScrollEvent::Delta(evt) => {
                let v = match axis {
                    Axis::Horizontal => evt.dx,
                    Axis::Vertical => evt.dy,
                };
                if v.is_zero() {
                    None
                } else {
                    Some(v)
                }
            },
            ScrollEvent::Cancel(evt) => {
                let flagged = match axis {
                    Axis::Horizontal => evt.x,
                    Axis::Vertical => evt.y,
                };
                if flagged {
                    Some(FloatBits { bits: CANCEL_SCROLL_BITS })
                } else {
                    None
                }
            },
            ScrollEvent::Discrete(_) => None,
            ScrollEvent::Stop(evt) => {
                let flagged = match axis {
                    Axis::Horizontal => evt.x,
                    Axis::Vertical => evt.y,
                };
                if flagged {
                    Some(FloatBits { bits: STOP_SCROLL_BITS })
                } else {
                    None
                }
            },
        }
    }

    /// Amount in 1/120 notches on an axis, if any.
    pub fn amount_v120(&self, axis: Axis) -> (r: Option<i32>)
        ensures
            r == scroll_amount_v120(*self, axis),
    {
        match self {
            ScrollEvent::Discrete(evt) => {
                let v = match axis {
                    Axis::Horizontal => evt.discrete_dx,
                    Axis::Vertical => evt.discrete_dy,
                };
                if v == 0 {
                    None
                } else {
                    Some(v)
                }
            },
            _ => None,
        }
    }

    /// Source of the scrolling: always reported as a wheel.
    pub fn source(&self) -> (r: AxisSource)
        ensures
            r == AxisSource::Wheel,
    {
        AxisSource::Wheel
    }

    /// Direction of the scrolling relative to the motion: never inverted here.
    pub fn relative_direction(&self, axis: Axis) -> (r: AxisRelativeDirection)
        ensures
            r == AxisRelativeDirection::Identical,
    {
        AxisRelativeDirection::Identical
    }
}

/// A touch begins.
pub struct TouchDown {
    pub device: DeviceInfo,
    pub time: u64,
    pub touch_id: u32,
    pub x: FloatBits,
    pub y: FloatBits,
}

/// A touch moves.
pub struct TouchMotion {
    pub device: DeviceInfo,
    pub time: u64,
    pub touch_id: u32,
    pub x: FloatBits,
    pub y: FloatBits,
}

/// A touch ends.
pub struct TouchUp {
    pub device: DeviceInfo,
    pub time: u64,
    pub touch_id: u32,
}

impl TouchDown {
    /// The slot of the touch: its id.
    pub fn slot(&self) -> (r: Option<u32>)
        ensures
            r == Some(self.touch_id),
    {
        Some(self.touch_id)
    }

    /// Position along x.
    pub fn x(&self) -> (r: FloatBits)
        ensures
            r == self.x,
    {
        self.x
    }

    /// Position along y.
    pub fn y(&self) -> (r: FloatBits)
        ensures
            r == self.y,
    {
        self.y
    }

    /// Position along x in an output of the given width: the position itself.
    pub fn x_transformed(&self, width: i32) -> (r: FloatBits)
        ensures
            r == self.x,
    {
        self.x
    }

    /// Position along y in an output of the given height: the position itself.
    pub fn y_transformed(&self, height: i32) -> (r: FloatBits)
        ensures
            r == self.y,
    {
        self.y
    }
}

impl TouchMotion {
    /// The slot of the touch: its id.
    pub fn slot(&self) -> (r: Option<u32>)
        ensures
            r == Some(self.touch_id),
    {
        Some(self.touch_id)
    }

    /// Position along x.
    pub fn x(&self) -> (r: FloatBits)
        ensures
            r == self.x,
    {
        self.x
    }

    /// Position along y.
    pub fn y(&self) -> (r: FloatBits)
        ensures
            r == self.y,
    {
        self.y
    }

    /// Position along x in an output of the given width: the position itself.
    pub fn x_transformed(&self, width: i32) -> (r: FloatBits)
        ensures
            r == self.x,
    {
        self.x
    }

    /// Position along y in an output of the given height: the position itself.
    pub fn y_transformed(&self, height: i32) -> (r: FloatBits)
        ensures
            r == self.y,
    {
        self.y
    }
}

impl TouchUp {
    /// The slot of the touch: its id.
    pub fn slot(&self) -> (r: Option<u32>)
        ensures
            r == Some(self.touch_id),
    {
        Some(self.touch_id)
    }
}

/// A request of a sending client after the handshake.
pub enum SessionRequest {
    /// The client leaves.
    Disconnect,
    /// The client asks for the devices of the capabilities in the mask.
    Bind { capabilities: u64 },
    /// The requests since the previous frame belong together.
    Frame { device: DeviceInfo, time: u64 },
    /// The client starts emulating on a device.
    StartEmulating { device: DeviceInfo, sequence: u32 },
    /// The client stops emulating on a device.
    StopEmulating { device: DeviceInfo },
    KeyboardKey(KeyboardKey),
    PointerMotion(PointerMotion),
    PointerMotionAbsolute(PointerMotionAbsolute),
    Button(Button),
    ScrollDelta(ScrollDelta),
    ScrollStop(ScrollStop),
    ScrollCancel(ScrollCancel),
    ScrollDiscrete(ScrollDiscrete),
    TouchDown(TouchDown),
    TouchUp(TouchUp),
    TouchMotion(TouchMotion),
    /// A request this side takes no action on.
    Other,
}

/// An input event for the host.
#[allow(inconsistent_fields)]
pub enum InputEvent {
    Keyboard { event: KeyboardKey },
    PointerMotion { event: PointerMotion },
    PointerMotionAbsolute { event: PointerMotionAbsolute },
    PointerButton { event: Button },
    PointerAxis { event: ScrollEvent },
    TouchDown { event: TouchDown },
    TouchUp { event: TouchUp },
    TouchMotion { event: TouchMotion },
}

/// The event a request becomes: input requests become the matching event,
/// the four scroll requests all become axis events, and every other request
/// becomes none.
pub open spec fn translation(request: SessionRequest) -> Option<InputEvent> {
    match request {
        SessionRequest::KeyboardKey(event) => Some(InputEvent::Keyboard { event }),
        SessionRequest::PointerMotion(event) => Some(InputEvent::PointerMotion { event }),
        SessionRequest::PointerMotionAbsolute(event) => Some(
            InputEvent::PointerMotionAbsolute { event },
        ),
        SessionRequest::Button(event) => Some(InputEvent::PointerButton { event }),
        SessionRequest::ScrollDelta(e) => Some(
            InputEvent::PointerAxis { event: ScrollEvent::Delta(e) },
        ),
        SessionRequest::ScrollStop(e) => Some(
            InputEvent::PointerAxis { event: ScrollEvent::Stop(e) },
        ),
        SessionRequest::ScrollCancel(e) => Some(
            InputEvent::PointerAxis { event: ScrollEvent::Cancel(e) },
        ),
        SessionRequest::ScrollDiscrete(e) => Some(
            InputEvent::PointerAxis { event: ScrollEvent::Discrete(e) },
        ),
        SessionRequest::TouchDown(event) => Some(InputEvent::TouchDown { event }),
        SessionRequest::TouchUp(event) => Some(InputEvent::TouchUp { event }),
        SessionRequest::TouchMotion(event) => Some(InputEvent::TouchMotion { event }),
        _ => None,
    }
}

/// Translates one request into the input event it stands for, if any.
pub fn convert_request(request: SessionRequest) -> (r: Option<InputEvent>)
    ensures
        r == translation(request),
{
    match request {
        SessionRequest::KeyboardKey(event) => Some(InputEvent::Keyboard { event }),
        SessionRequest::PointerMotion(event) => Some(InputEvent::PointerMotion { event }),
        SessionRequest::PointerMotionAbsolute(event) => Some(
            InputEvent::PointerMotionAbsolute { event },
        ),
        SessionRequest::Button(event) => Some(InputEvent::PointerButton { event }),
        SessionRequest::ScrollDelta(e) => Some(
            InputEvent::PointerAxis { event: ScrollEvent::Delta(e) },
        ),
        SessionRequest::ScrollStop(e) => Some(
            InputEvent::PointerAxis { event: ScrollEvent::Stop(e) },
        ),
        SessionRequest::ScrollCancel(e) => Some(
            InputEvent::PointerAxis { event: ScrollEvent::Cancel(e) },
        ),
        SessionRequest::ScrollDiscrete(e) => Some(
            InputEvent::PointerAxis { event: ScrollEvent::Discrete(e) },
        ),
        SessionRequest::TouchDown(event) => Some(InputEvent::TouchDown { event }),
        SessionRequest::TouchUp(event) => Some(InputEvent::TouchUp { event }),
        SessionRequest::TouchMotion(event) => Some(InputEvent::TouchMotion { event }),
        SessionRequest::Disconnect => None,
        SessionRequest::Bind { .. } => None,
        SessionRequest::Frame { .. } => None,
        SessionRequest::StartEmulating { .. } => None,
        SessionRequest::StopEmulating { .. } => None,
        SessionRequest::Other => None,
    }
}

} // verus!
