//! Server side of the emulated-input protocol: handshake negotiation, the
//! sender session with its seat and devices, the translation of wire
//! requests into input events, and the connection state machine that ties
//! them together. Beside it: how DRM device numbers name nodes, and which
//! dmabuf planes still wait on their fences.
pub mod adapter;
pub mod device;
pub mod dmabuf;
pub mod drm_node;
pub mod event;
pub mod handshake;
pub mod interface;
pub mod protocol;
pub mod session;

