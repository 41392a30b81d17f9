//! Messages this side sends to the client, and the reasons it gives when it
//! closes a connection.
use vstd::prelude::*;
use crate::device::{DeviceCapability, Keymap};
use crate::interface::Interface;

verus! {

/// The role a client asks for in the handshake.
#[derive(Clone, Copy, Debug, PartialEq, Eq, Structural)]
pub enum ContextType {
    /// The client receives input from this side.
    Receiver,
    /// The client sends emulated input to this side.
    Sender,
}

/// Reason code of a disconnection, as the wire carries it.
#[derive(Clone, Copy, Debug, PartialEq, Eq, Structural)]
pub enum DisconnectReason {
    Disconnected,
    Error,
    Mode,
    Protocol,
    Value,
    Transport,
}

/// A protocol violation by the client, which ends its connection.
#[derive(Clone, Copy, Debug, PartialEq, Eq, Structural)]
pub enum Violation {
    /// The context type was set twice.
    DuplicateContextType,
    /// The client name was set twice.
    DuplicateName,
    /// The handshake finished without one of the mandatory interfaces.
    MissingInterface,
    /// The handshake finished without a context type.
    MissingContextType,
    /// A bind asked for bits outside the capability range.
    InvalidCapabilities,
}

impl Violation {
    /// Reason code sent for the violation.
    pub fn reason(self) -> (r: DisconnectReason)
        ensures
            r == (if self == Violation::InvalidCapabilities {
                DisconnectReason::Value
            } else {
                DisconnectReason::Protocol
            }),
    {
        match self {
            Violation::InvalidCapabilities => DisconnectReason::Value,
            _ => DisconnectReason::Protocol,
        }
    }

    /// Explanation sent with the reason code.
    pub fn explanation(self) -> (r: &'static str)
        ensures
            r@ == match self {
                Violation::DuplicateContextType => "Context type set twice"@,
                Violation::DuplicateName => "Name set twice"@,
                Violation::MissingInterface => "Missing required interface"@,
                Violation::MissingContextType => "No context type"@,
                Violation::InvalidCapabilities => "Invalid capabilities"@,
            },
    {
        match self {
            Violation::DuplicateContextType => "Context type set twice",
            Violation::DuplicateName => "Name set twice",
            Violation::MissingInterface => "Missing required interface",
            Violation::MissingContextType => "No context type",
            Violation::InvalidCapabilities => "Invalid capabilities",
        }
    }
}

/// A message for the client, produced by the engine and sent by its host.
pub enum Outgoing {
    /// The handshake version this side speaks.
    HandshakeVersion { version: u32 },
    /// The version agreed for an interface.
    InterfaceVersion { interface: Interface, version: u32 },
    /// The connection object, created when the handshake completes.
    Connection { serial: u32, version: u32 },
    /// A seat with the capabilities of the mask, followed by its done marker.
    AddSeat { capabilities: u64 },
    /// A device of one capability; a keyboard carries its keymap.
    AddDevice { capability: DeviceCapability, keymap: Option<Keymap> },
    /// Notice that the connection is closed for a violation.
    Disconnected { violation: Violation },
}

} // verus!
