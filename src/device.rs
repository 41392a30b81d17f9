//! Device capabilities, their bits on the wire, and keymap blobs.
use vstd::prelude::*;
use crate::interface::{Interface, wire_name};

verus! {

/// A class of input device that a seat can offer.
#[derive(Clone, Copy, Debug, PartialEq, Eq, Structural)]
pub enum DeviceCapability {
    Pointer,
    PointerAbsolute,
    Button,
    Scroll,
    Keyboard,
    Touch,
}

/// Every bit that names a capability; any other bit in a mask is invalid.
pub const VALID_CAPABILITIES: u64 = 0x7e;

/// Number of capabilities.
pub const CAPABILITY_COUNT: usize = 6;

/// The bit of a capability in a mask.
pub open spec fn capability_bit(c: DeviceCapability) -> u64 {
    match c {
        DeviceCapability::Pointer => 0x2,
        DeviceCapability::PointerAbsolute => 0x4,
        DeviceCapability::Button => 0x8,
        DeviceCapability::Scroll => 0x10,
        DeviceCapability::Keyboard => 0x20,
        DeviceCapability::Touch => 0x40,
    }
}

/// The interface that must have been negotiated before a capability is used.
pub open spec fn capability_interface(c: DeviceCapability) -> Interface {
    match c {
        DeviceCapability::Pointer => Interface::Pointer,
        DeviceCapability::PointerAbsolute => Interface::PointerAbsolute,
        DeviceCapability::Button => Interface::Button,
        DeviceCapability::Scroll => Interface::Scroll,
        DeviceCapability::Keyboard => Interface::Keyboard,
        DeviceCapability::Touch => Interface::Touchscreen,
    }
}

/// Capabilities in the order of their bits.
pub open spec fn capability_at(k: int) -> DeviceCapability {
    if k == 0 {
        DeviceCapability::Pointer
    } else if k == 1 {
        DeviceCapability::PointerAbsolute
    } else if k == 2 {
        DeviceCapability::Button
    } else if k == 3 {
        DeviceCapability::Scroll
    } else if k == 4 {
        DeviceCapability::Keyboard
    } else {
        DeviceCapability::Touch
    }
}

/// Position of a capability in the order of their bits.
pub open spec fn capability_index(c: DeviceCapability) -> int {
    match c {
        DeviceCapability::Pointer => 0,
        DeviceCapability::PointerAbsolute => 1,
        DeviceCapability::Button => 2,
        DeviceCapability::Scroll => 3,
        DeviceCapability::Keyboard => 4,
        DeviceCapability::Touch => 5,
    }
}

/// A mask sets no bit outside the capability range.
pub open spec fn valid_mask(mask: u64) -> bool {
    mask & !VALID_CAPABILITIES == 0
}

/// A mask asks for a capability.
pub open spec fn mask_has(mask: u64, c: DeviceCapability) -> bool {
    mask & capability_bit(c) != 0
}

/// Capability positions and capabilities correspond one to one.
pub proof fn lemma_capability_index(c: DeviceCapability, k: int)
    ensures
        0 <= capability_index(c) < CAPABILITY_COUNT,
        capability_at(capability_index(c)) == c,
        0 <= k < CAPABILITY_COUNT ==> capability_index(capability_at(k)) == k,
{
}

impl DeviceCapability {
    /// The bit of the capability in a mask.
    pub fn bit(self) -> (r: u64)
        ensures
            r == capability_bit(self),
    {
        match self {
            DeviceCapability::Pointer => 0x2,
            DeviceCapability::PointerAbsolute => 0x4,
            DeviceCapability::Button => 0x8,
            DeviceCapability::Scroll => 0x10,
            DeviceCapability::Keyboard => 0x20,
            DeviceCapability::Touch => 0x40,
        }
    }

    /// The interface that backs the capability.
    pub fn interface(self) -> (r: Interface)
        ensures
            r == capability_interface(self),
    {
        match self {
            DeviceCapability::Pointer => Interface::Pointer,
            DeviceCapability::PointerAbsolute => Interface::PointerAbsolute,
            DeviceCapability::Button => Interface::Button,
            DeviceCapability::Scroll => Interface::Scroll,
            DeviceCapability::Keyboard => Interface::Keyboard,
            DeviceCapability::Touch => Interface::Touchscreen,
        }
    }

    /// Wire name of the interface that backs the capability.
    pub fn interface_name(self) -> (r: &'static str)
        ensures
            r@ == wire_name(capability_interface(self)),
    {
        self.interface().name()
    }

    /// The capability at a position of the bit order.
    pub fn at(k: usize) -> (r: DeviceCapability)
        requires
            k < CAPABILITY_COUNT,
        ensures
            r == capability_at(k as int),
            capability_index(r) == k,
    {
        if k == 0 {
            DeviceCapability::Pointer
        } else if k == 1 {
            DeviceCapability::PointerAbsolute
        } else if k == 2 {
            DeviceCapability::Button
        } else if k == 3 {
            DeviceCapability::Scroll
        } else if k == 4 {
            DeviceCapability::Keyboard
        } else {
            DeviceCapability::Touch
        }
    }

    /// Name given to the device created for the capability.
    pub fn device_name(self) -> (r: &'static str)
        ensures
            r@ == match self {
                DeviceCapability::Pointer => "pointer"@,
                DeviceCapability::PointerAbsolute => "pointer-abs"@,
                DeviceCapability::Button => "button"@,
                DeviceCapability::Scroll => "scroll"@,
                DeviceCapability::Keyboard => "keyboard"@,
                DeviceCapability::Touch => "touch"@,
            },
    {
        match self {
            DeviceCapability::Pointer => "pointer",
            DeviceCapability::PointerAbsolute => "pointer-abs",
            DeviceCapability::Button => "button",
            DeviceCapability::Scroll => "scroll",
            DeviceCapability::Keyboard => "keyboard",
            DeviceCapability::Touch => "touch",
        }
    }

    /// Maps a capability of the host's input stack to a protocol capability;
    /// only keyboards, pointers and touch screens have one.
    pub fn try_from_input(other: InputCapability) -> (r: Result<DeviceCapability, ()>)
        ensures
            r == input_capability(other),
    {
        match other {
            InputCapability::Gesture => Err(()),
            InputCapability::Keyboard => Ok(DeviceCapability::Keyboard),
            InputCapability::Pointer => Ok(DeviceCapability::Pointer),
            InputCapability::Switch => Err(()),
            InputCapability::TabletPad => Err(()),
            InputCapability::TabletTool => Err(()),
            InputCapability::Touch => Ok(DeviceCapability::Touch),
        }
    }
}

/// Whether a mask is free of bits outside the capability range.
pub fn is_valid_mask(mask: u64) -> (r: bool)
    ensures
        r == valid_mask(mask),
{
    mask & !VALID_CAPABILITIES == 0
}

/// A device class as the host's input stack knows it.
#[derive(Clone, Copy, Debug, PartialEq, Eq, Structural)]
pub enum InputCapability {
    Gesture,
    Keyboard,
    Pointer,
    Switch,
    TabletPad,
    TabletTool,
    Touch,
}

/// The protocol capability of a host capability, where there is one.
pub open spec fn input_capability(c: InputCapability) -> Result<DeviceCapability, ()> {
    match c {
        InputCapability::Keyboard => Ok(DeviceCapability::Keyboard),
        InputCapability::Pointer => Ok(DeviceCapability::Pointer),
        InputCapability::Touch => Ok(DeviceCapability::Touch),
        _ => Err(()),
    }
}

/// A compiled keymap in text form, as handed to a client through a sealed
/// memory region: never empty, and its declared length is its byte length.
pub struct Keymap {
    bytes: Vec<u8>,
    size: u32,
}

impl View for Keymap {
    type V = Seq<u8>;

    closed spec fn view(&self) -> Seq<u8> {
        self.bytes@
    }
}

impl Keymap {
    /// The declared length is the byte length, and is not zero.
    pub closed spec fn wf(&self) -> bool {
        &&& self.bytes@.len() == self.size as int
        &&& self.size > 0
    }

    /// The byte length announced to the client.
    pub closed spec fn spec_declared_len(&self) -> u32 {
        self.size
    }

    /// Wraps keymap text; empty text, or text too long for the wire's
    /// 32-bit length, gives `None`.
    pub fn from_text(bytes: Vec<u8>) -> (r: Option<Keymap>)
        ensures
            r is Some <==> 0 < bytes@.len() <= u32::MAX,
            r matches Some(k) ==> k.wf() && k@ == bytes@,
    {
        let n = bytes.len();
        if n == 0 || n > u32::MAX as usize {
            None
        } else {
            Some(Keymap { bytes, size: n as u32 })
        }
    }

    /// The keymap text.
    pub fn bytes(&self) -> (r: &Vec<u8>)
        ensures
            r@ == self@,
    {
        &self.bytes
    }

    /// The byte length announced to the client.
    pub fn declared_len(&self) -> (r: u32)
        requires
            self.wf(),
        ensures
            r == self.spec_declared_len(),
            r as int == self@.len(),
            r > 0,
    {
        self.size
    }

    /// A second keymap with the same text.
    pub fn duplicate(&self) -> (r: Keymap)
        requires
            self.wf(),
        ensures
            r.wf(),
            r@ == self@,
            r.spec_declared_len() == self.spec_declared_len(),
    {
        let bytes = self.bytes.clone();
        assert(bytes@ =~= self.bytes@);
        Keymap { bytes, size: self.size }
    }
}

/// A keymap is never empty, and the length declared for it is its byte
/// length.
pub proof fn lemma_keymap_length(k: Keymap)
    requires
        k.wf(),
    ensures
        k@.len() > 0,
        k.spec_declared_len() as int == k@.len(),
{
}

} // verus!
