//! DRM device nodes: their kinds, and how a device number tells them apart.
use vstd::prelude::*;

verus! {

/// The kind of a DRM node.
#[derive(Clone, Copy, Debug, PartialEq, Eq, Hash, Structural)]
pub enum NodeType {
    /// A primary node may be used to allocate buffers; with no other node
    /// present it may also set modes.
    Primary,
    /// A control node may be used for mode-setting; no API for it exists yet.
    Control,
    /// A render node lets a client allocate buffers; it cannot set modes.
    Render,
}

/// First minor number of each kind of node.
pub open spec fn minor_base(ty: NodeType) -> u32 {
    match ty {
        NodeType::Primary => 0,
        NodeType::Control => 64,
        NodeType::Render => 128,
    }
}

/// The kind of node a node number denotes: 64 numbers per kind, primary
/// first, then control, then render.
pub open spec fn node_type_of_id(id: u32) -> Option<NodeType> {
    if id < 64 {
        Some(NodeType::Primary)
    } else if id < 128 {
        Some(NodeType::Control)
    } else if id < 192 {
        Some(NodeType::Render)
    } else {
        None
    }
}

/// Major number of a device number, in the Linux encoding.
pub open spec fn spec_major(dev: u64) -> u64 {
    ((dev >> 32u64) & 0xffff_f000u64) | ((dev >> 8u64) & 0x0000_0fffu64)
}

/// Minor number of a device number, in the Linux encoding.
pub open spec fn spec_minor(dev: u64) -> u64 {
    ((dev >> 12u64) & 0xffff_ff00u64) | (dev & 0x0000_00ffu64)
}

/// Relies on nix::sys::stat::major, which computes the Linux encoding's
/// major number: `((dev >> 32) & 0xffff_f000) | ((dev >> 8) & 0x0000_0fff)`.
#[verifier::external_body]
pub(crate) fn major(dev: u64) -> (r: u64)
    ensures
        r == spec_major(dev),
{
    nix::sys::stat::major(dev)
}

/// Relies on nix::sys::stat::minor, which computes the Linux encoding's
/// minor number: `((dev >> 12) & 0xffff_ff00) | (dev & 0x0000_00ff)`.
#[verifier::external_body]
pub(crate) fn minor(dev: u64) -> (r: u64)
    ensures
        r == spec_minor(dev),
{
    nix::sys::stat::minor(dev)
}

/// First minor number of each kind of node.
pub fn get_minor_base(type_: NodeType) -> (r: u32)
    ensures
        r == minor_base(type_),
{
    match type_ {
        NodeType::Primary => 0,
        NodeType::Control => 64,
        NodeType::Render => 128,
    }
}

/// The kind of node a node number denotes, if any.
pub fn node_type_of(id: u32) -> (r: Option<NodeType>)
    ensures
        r == node_type_of_id(id),
{
    let group = id >> 6u32;
    assert(group == id / 64) by (bit_vector)
        requires
            group == id >> 6u32,
    ;
    if group == 0 {
        Some(NodeType::Primary)
    } else if group == 1 {
        Some(NodeType::Control)
    } else if group == 2 {
        Some(NodeType::Render)
    } else {
        None
    }
}

impl NodeType {
    /// Prefix of the device names of this kind of node, such as `card` for
    /// a primary node.
    pub fn minor_name_prefix(&self) -> (r: &'static str)
        ensures
            r@ == match *self {
                NodeType::Primary => "card"@,
                NodeType::Control => "controlD"@,
                NodeType::Render => "renderD"@,
            },
    {
        match self {
            NodeType::Primary => "card",
            NodeType::Control => "controlD",
            NodeType::Render => "renderD",
        }
    }

    /// Name of the kind, for messages.
    pub fn name(&self) -> (r: &'static str)
        ensures
            r@ == match *self {
                NodeType::Primary => "Primary"@,
                NodeType::Control => "Control"@,
                NodeType::Render => "Render"@,
            },
    {
        match self {
            NodeType::Primary => "Primary",
            NodeType::Control => "Control",
            NodeType::Render => "Render",
        }
    }
}

/// std's I/O error, carried through opaque.
#[verifier::external_type_specification]
#[verifier::external_body]
pub struct ExIoError(std::io::Error);

/// An error met while making a DRM node.
pub enum CreateDrmNodeError {
    /// An I/O error occurred while looking at the device.
    Io(std::io::Error),
    /// The device is not a DRM node.
    NotDrmNode,
}

impl From<std::io::Error> for CreateDrmNodeError {
    fn from(err: std::io::Error) -> CreateDrmNodeError {
        CreateDrmNodeError::Io(err)
    }
}

impl vstd::std_specs::convert::FromSpecImpl<std::io::Error> for CreateDrmNodeError {
    open spec fn obeys_from_spec() -> bool {
        true
    }

    open spec fn from_spec(v: std::io::Error) -> CreateDrmNodeError {
        CreateDrmNodeError::Io(v)
    }
}

/// A node of a DRM device: its device number and its kind.
#[derive(Clone, Copy, Debug, PartialEq, Eq, Hash, Structural)]
pub struct DrmNode {
    dev: u64,
    ty: NodeType,
}

/// The node a device number makes, if any: the device must be a DRM device,
/// and its minor number must fit a node number of one of the three kinds.
pub open spec fn drm_node_kind(dev: u64, is_drm: bool) -> Option<NodeType> {
    if !is_drm || spec_minor(dev) > u32::MAX {
        None
    } else {
        node_type_of_id(spec_minor(dev) as u32)
    }
}

impl DrmNode {
    /// The device number.
    pub closed spec fn spec_dev(&self) -> u64 {
        self.dev
    }

    /// The kind of node.
    pub closed spec fn spec_ty(&self) -> NodeType {
        self.ty
    }

    /// Makes the node of a device number. `is_drm` tells whether the system
    /// lists the device, by its major and minor numbers, as a DRM device.
    pub fn from_dev_id(dev: u64, is_drm: bool) -> (r: Result<DrmNode, CreateDrmNodeError>)
        ensures
            drm_node_kind(dev, is_drm) matches Some(ty) ==> (r matches Ok(n) && n.spec_dev() == dev
                && n.spec_ty() == ty),
            drm_node_kind(dev, is_drm) is None ==> r matches Err(CreateDrmNodeError::NotDrmNode),
    {
        let minor = minor(dev);
        if !is_drm {
            return Err(CreateDrmNodeError::NotDrmNode);
        }
        if minor > u32::MAX as u64 {
            return Err(CreateDrmNodeError::NotDrmNode);
        }
        match node_type_of(minor as u32) {
            Some(ty) => Ok(DrmNode { dev, ty }),
            None => Err(CreateDrmNodeError::NotDrmNode),
        }
    }

    /// The kind of node.
    pub fn ty(&self) -> (r: NodeType)
        ensures
            r == self.spec_ty(),
    {
        self.ty
    }

    /// The device number.
    pub fn dev_id(&self) -> (r: u64)
        ensures
            r == self.spec_dev(),
    {
        self.dev
    }

    /// The major number of the device.
    pub fn major(&self) -> (r: u64)
        ensures
            r == spec_major(self.spec_dev()),
    {
        major(self.dev)
    }

    /// The minor number of the device.
    pub fn minor(&self) -> (r: u64)
        ensures
            r == spec_minor(self.spec_dev()),
    {
        minor(self.dev)
    }
}

} // verus!
