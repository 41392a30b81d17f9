use std::sync::atomic::{AtomicBool, Ordering};
use std::sync::Arc;

use eis_input::dmabuf::{
    all_settled, blocker_state, plan_sources, AlreadyReady, BlockerState, DmabufBlocker, Subsource,
};
use eis_input::drm_node::{get_minor_base, node_type_of, CreateDrmNodeError, DrmNode, NodeType};

// makedev(226, 128)
const RENDER_DEV: u64 = (226 << 8) | 128;

#[test]
fn major_and_minor_of_device_number() {
    // makedev(0x1234_50ab, 129): the major's high bits sit above bit 44
    let dev = (0x1234_5000u64 << 32) | (0x0ab_u64 << 8) | 129;
    let node = DrmNode::from_dev_id(dev, true).ok().unwrap();
    assert_eq!(node.major(), 0x1234_50ab);
    assert_eq!(node.minor(), 129);
    assert_eq!(node.ty(), NodeType::Render);
    // a minor with high bits set names no node kind
    let wide = (226u64 << 8) | (0x100u64 << 12);
    assert!(matches!(DrmNode::from_dev_id(wide, true), Err(CreateDrmNodeError::NotDrmNode)));
}

#[test]
fn node_from_device_number() {
    let node = DrmNode::from_dev_id(RENDER_DEV, true).ok().unwrap();
    assert_eq!(node.ty(), NodeType::Render);
    assert_eq!(node.dev_id(), RENDER_DEV);
    assert_eq!(node.major(), 226);
    assert_eq!(node.minor(), 128);
    let primary = DrmNode::from_dev_id(226 << 8, true).ok().unwrap();
    assert_eq!(primary.ty(), NodeType::Primary);
    let control = DrmNode::from_dev_id((226 << 8) | 64, true).ok().unwrap();
    assert_eq!(control.ty(), NodeType::Control);
}

#[test]
fn non_drm_devices_are_refused() {
    assert!(matches!(DrmNode::from_dev_id(RENDER_DEV, false), Err(CreateDrmNodeError::NotDrmNode)));
    assert!(matches!(DrmNode::from_dev_id((226 << 8) | 200, true), Err(CreateDrmNodeError::NotDrmNode)));
    let e: CreateDrmNodeError = std::io::Error::new(std::io::ErrorKind::NotFound, "gone").into();
    assert!(matches!(e, CreateDrmNodeError::Io(_)));
}

#[test]
fn node_types_and_prefixes() {
    assert_eq!(node_type_of(63), Some(NodeType::Primary));
    assert_eq!(node_type_of(64), Some(NodeType::Control));
    assert_eq!(node_type_of(191), Some(NodeType::Render));
    assert_eq!(node_type_of(192), None);
    assert_eq!(NodeType::Primary.minor_name_prefix(), "card");
    assert_eq!(NodeType::Control.minor_name_prefix(), "controlD");
    assert_eq!(NodeType::Render.minor_name_prefix(), "renderD");
    assert_eq!(NodeType::Render.name(), "Render");
    assert_eq!(get_minor_base(NodeType::Primary), 0);
    assert_eq!(get_minor_base(NodeType::Control), 64);
    assert_eq!(get_minor_base(NodeType::Render), 128);
}

#[test]
fn subsource_done_transitions() {
    let mut s = Subsource::Active;
    s.done();
    assert_eq!(s, Subsource::Done);
    s.done();
    assert_eq!(s, Subsource::Done);
    let mut e = Subsource::Empty;
    e.done();
    assert_eq!(e, Subsource::Empty);
    assert!(all_settled(&vec![Subsource::Done, Subsource::Empty]));
    assert!(!all_settled(&vec![Subsource::Done, Subsource::Active]));
}

#[test]
fn plan_without_interest_is_already_ready() {
    assert_eq!(plan_sources(false, false, &vec![false, false]), Err(AlreadyReady));
}

#[test]
fn plan_watches_unready_planes() {
    assert_eq!(
        plan_sources(true, false, &vec![true, false]),
        Ok(vec![Subsource::Empty, Subsource::Active, Subsource::Empty, Subsource::Empty])
    );
    assert_eq!(plan_sources(false, true, &vec![true, true, true]), Err(AlreadyReady));
    assert_eq!(plan_sources(true, true, &vec![]), Err(AlreadyReady));
}

#[test]
fn blocker_follows_shared_flag() {
    assert_eq!(blocker_state(true), BlockerState::Released);
    assert_eq!(blocker_state(false), BlockerState::Pending);
    let flag = Arc::new(AtomicBool::new(false));
    let blocker = DmabufBlocker(flag.clone());
    assert_eq!(blocker.state(), BlockerState::Pending);
    flag.store(true, Ordering::SeqCst);
    assert_eq!(blocker.state(), BlockerState::Released);
}
