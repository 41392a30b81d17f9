//! The session of a sending client: its seat, the devices bound on it, and
//! what each request does to them.
use vstd::prelude::*;
use crate::device::{
    DeviceCapability, Keymap, lemma_keymap_length, CAPABILITY_COUNT, VALID_CAPABILITIES, capability_at, capability_bit,
    capability_index, capability_interface, lemma_capability_index, mask_has, valid_mask,
    is_valid_mask,
};
use crate::event::{InputEvent, SessionRequest, convert_request, translation};
use crate::interface::{Interface, InterfaceVersions};
use crate::protocol::{Outgoing, Violation};

verus! {

/// Capabilities the seat of every session offers: all of them.
pub const ADVERTISED_CAPABILITIES: u64 = VALID_CAPABILITIES;

/// A device bound in a session.
pub struct Device {
    pub capability: DeviceCapability,
    /// The keymap handed out with the device; keyboards only.
    pub keymap: Option<Keymap>,
}

/// What a session is, seen from outside.
pub struct SessionView {
    /// The name the client gave in the handshake.
    pub name: Option<Seq<char>>,
    /// The interfaces agreed in the handshake, with their versions.
    pub negotiated: Map<Interface, u32>,
    /// The devices bound so far, in the order they were created.
    pub devices: Seq<Device>,
    /// The last serial used.
    pub last_serial: u32,
}

/// What the session should do after a request.
#[derive(Clone, Copy, Debug, PartialEq, Eq, Structural)]
pub enum SessionStep {
    /// Keep the connection.
    Continue,
    /// Tear the connection down.
    Remove,
}

/// The session has a device of the capability.
pub open spec fn has_device(devices: Seq<Device>, c: DeviceCapability) -> bool {
    exists|k: int| 0 <= k < devices.len() && (#[trigger] devices[k]).capability == c
}

/// Devices have distinct capabilities; exactly the keyboard carries a
/// keymap, and that keymap is well formed.
pub open spec fn devices_wf(devices: Seq<Device>) -> bool {
    &&& forall|a: int, b: int|
        0 <= a < b < devices.len() ==> (#[trigger] devices[a]).capability != (
        #[trigger] devices[b]).capability
    &&& forall|k: int|
        0 <= k < devices.len() ==> ((#[trigger] devices[k]).capability
            == DeviceCapability::Keyboard <==> devices[k].keymap is Some)
    &&& forall|k: int|
        0 <= k < devices.len() ==> ((#[trigger] devices[k]).keymap matches Some(m) ==> m.wf())
}

/// A bind of `mask` creates a device of capability `c`: the mask asks for
/// it, its interface was negotiated, and no device of it exists yet.
pub open spec fn creates(v: SessionView, mask: u64, c: DeviceCapability) -> bool {
    &&& mask_has(mask, c)
    &&& v.negotiated.contains_key(capability_interface(c))
    &&& !has_device(v.devices, c)
}

/// Capabilities, in bit order among the first `n`, for which a bind of
/// `mask` creates a device.
pub open spec fn created_upto(v: SessionView, mask: u64, n: nat) -> Seq<DeviceCapability>
    decreases n,
{
    if n == 0 {
        Seq::empty()
    } else {
        let c = capability_at(n - 1);
        created_upto(v, mask, (n - 1) as nat) + if creates(v, mask, c) {
            seq![c]
        } else {
            Seq::empty()
        }
    }
}

/// Capabilities for which a bind of `mask` creates a device.
pub open spec fn created(v: SessionView, mask: u64) -> Seq<DeviceCapability> {
    created_upto(v, mask, CAPABILITY_COUNT as nat)
}

/// The device made for a capability; a keyboard gets the keymap.
pub open spec fn device_for(c: DeviceCapability, keymap: Option<Keymap>) -> Device {
    Device {
        capability: c,
        keymap: if c == DeviceCapability::Keyboard {
            keymap
        } else {
            None
        },
    }
}

/// The devices a bind of `mask` adds, in order.
pub open spec fn new_devices(v: SessionView, mask: u64, keymap: Option<Keymap>) -> Seq<Device> {
    created(v, mask).map_values(|c: DeviceCapability| device_for(c, keymap))
}

/// A message announces a device: same capability, same keymap text.
pub open spec fn announces(o: Outgoing, d: Device) -> bool {
    match o {
        Outgoing::AddDevice { capability, keymap } => {
            &&& capability == d.capability
            &&& keymap is Some <==> d.keymap is Some
            &&& keymap matches Some(k) ==> k.wf() && k@ == d.keymap->Some_0@
                && k.spec_declared_len() == d.keymap->Some_0.spec_declared_len()
        },
        _ => false,
    }
}

/// The messages announce the devices one for one.
pub open spec fn announces_all(msgs: Seq<Outgoing>, devices: Seq<Device>) -> bool {
    &&& msgs.len() == devices.len()
    &&& forall|k: int| 0 <= k < msgs.len() ==> announces(#[trigger] msgs[k], devices[k])
}

/// A valid bind took the session from `v` to `v2` and the messages from
/// `out0` to `out1`: the new devices were appended and announced in order,
/// and nothing else changed.
pub open spec fn bound(
    v: SessionView,
    v2: SessionView,
    out0: Seq<Outgoing>,
    out1: Seq<Outgoing>,
    mask: u64,
    keymap: Option<Keymap>,
) -> bool {
    let added = new_devices(v, mask, keymap);
    &&& v2.name == v.name
    &&& v2.negotiated == v.negotiated
    &&& v2.last_serial == v.last_serial
    &&& v2.devices == v.devices + added
    &&& out1.len() == out0.len() + added.len()
    &&& out1.subrange(0, out0.len() as int) == out0
    &&& announces_all(out1.subrange(out0.len() as int, out1.len() as int), added)
}

/// The events a translation adds: the event, if there is one.
pub open spec fn emitted(e: Option<InputEvent>) -> Seq<InputEvent> {
    match e {
        Some(x) => seq![x],
        None => Seq::empty(),
    }
}

/// What one request did, taking the session from `v` to `v2`, the
/// messages from `out0` to `out1` and the events from `ev0` to `ev1`. A
/// disconnect ends the session. A valid bind is carried out as `bound` says;
/// an invalid one ends the session with a notice to the client. Every other
/// request is translated, and its event, if any, is appended.
pub open spec fn session_handled(
    v: SessionView,
    request: SessionRequest,
    keymap: Option<Keymap>,
    r: SessionStep,
    v2: SessionView,
    out0: Seq<Outgoing>,
    out1: Seq<Outgoing>,
    ev0: Seq<InputEvent>,
    ev1: Seq<InputEvent>,
) -> bool {
    match request {
        SessionRequest::Disconnect => {
            &&& r == SessionStep::Remove
            &&& v2 == v
            &&& out1 == out0
            &&& ev1 == ev0
        },
        SessionRequest::Bind { capabilities } => {
            &&& ev1 == ev0
            &&& valid_mask(capabilities) ==> r == SessionStep::Continue && bound(
                v,
                v2,
                out0,
                out1,
                capabilities,
                keymap,
            )
            &&& !valid_mask(capabilities) ==> {
                &&& r == SessionStep::Remove
                &&& v2 == v
                &&& out1 == out0.push(
                    Outgoing::Disconnected { violation: Violation::InvalidCapabilities },
                )
            }
        },
        _ => {
            &&& r == SessionStep::Continue
            &&& v2 == v
            &&& out1 == out0
            &&& ev1 == ev0 + emitted(translation(request))
        },
    }
}

/// A bind needs a keymap: it is valid and creates a keyboard.
pub open spec fn needs_keymap(v: SessionView, mask: u64) -> bool {
    valid_mask(mask) && creates(v, mask, DeviceCapability::Keyboard)
}

/// The request is a bind that needs a keymap.
pub open spec fn request_needs_keymap(v: SessionView, request: SessionRequest) -> bool {
    match request {
        SessionRequest::Bind { capabilities } => needs_keymap(v, capabilities),
        _ => false,
    }
}

/// Every capability created among the first `n` lies before position `n`.
proof fn lemma_created_before(v: SessionView, mask: u64, n: nat)
    requires
        n <= CAPABILITY_COUNT,
    ensures
        forall|j: int|
            0 <= j < created_upto(v, mask, n).len() ==> capability_index(
                #[trigger] created_upto(v, mask, n)[j],
            ) < n,
    decreases n,
{
    if n > 0 {
        lemma_created_before(v, mask, (n - 1) as nat);
        lemma_capability_index(DeviceCapability::Pointer, n - 1);
        let prev = created_upto(v, mask, (n - 1) as nat);
        let all = created_upto(v, mask, n);
        assert forall|j: int| 0 <= j < all.len() implies capability_index(#[trigger] all[j]) < n by {
            if j < prev.len() {
                assert(all[j] == prev[j]);
            } else {
                assert(all[j] == capability_at(n - 1));
            }
        }
    }
}

/// A capability is among the first `n` created exactly when it lies before
/// position `n` and the bind creates it; none appears twice.
proof fn lemma_created_upto_exact(v: SessionView, mask: u64, n: nat)
    requires
        n <= CAPABILITY_COUNT,
    ensures
        forall|c: DeviceCapability|
            #[trigger] created_upto(v, mask, n).contains(c) <==> (capability_index(c) < n
                && creates(v, mask, c)),
        created_upto(v, mask, n).no_duplicates(),
    decreases n,
{
    if n > 0 {
        lemma_created_upto_exact(v, mask, (n - 1) as nat);
        lemma_created_before(v, mask, (n - 1) as nat);
        let prev = created_upto(v, mask, (n - 1) as nat);
        let all = created_upto(v, mask, n);
        let c0 = capability_at(n - 1);
        lemma_capability_index(c0, n - 1);
        assert forall|c: DeviceCapability| #[trigger] all.contains(c) <==> (capability_index(c) < n
            && creates(v, mask, c)) by {
            lemma_capability_index(c, n - 1);
            if all.contains(c) {
                let j = choose|j: int| 0 <= j < all.len() && all[j] == c;
                if j < prev.len() {
                    assert(prev[j] == c);
                    assert(prev.contains(c));
                }
            }
            if capability_index(c) < n && creates(v, mask, c) {
                if capability_index(c) < n - 1 {
                    assert(prev.contains(c));
                    let j = choose|j: int| 0 <= j < prev.len() && prev[j] == c;
                    assert(all[j] == c);
                } else {
                    assert(c == c0);
                    assert(all[prev.len() as int] == c);
                }
            }
        }
        assert forall|a: int, b: int| 0 <= a < all.len() && 0 <= b < all.len() && a != b implies all[a]
            != all[b] by {
            if a < prev.len() && b < prev.len() {
                assert(all[a] == prev[a] && all[b] == prev[b]);
            } else if a < prev.len() {
                assert(all[a] == prev[a]);
                assert(capability_index(prev[a]) < n - 1);
            } else if b < prev.len() {
                assert(all[b] == prev[b]);
                assert(capability_index(prev[b]) < n - 1);
            }
        }
    }
}

/// A valid bind creates exactly one device for each capability that the
/// mask asks for, whose interface was negotiated and which had no device,
/// and none for any other capability, in particular none for one already
/// bound. Only the keyboard carries the keymap.
pub proof fn lemma_bind_creates_once(v: SessionView, mask: u64, keymap: Option<Keymap>)
    ensures
        forall|c: DeviceCapability|
            #[trigger] created(v, mask).contains(c) <==> creates(v, mask, c),
        created(v, mask).no_duplicates(),
        forall|c: DeviceCapability| has_device(v.devices, c) ==> !#[trigger] created(
            v,
            mask,
        ).contains(c),
        forall|k: int|
            0 <= k < new_devices(v, mask, keymap).len() ==> #[trigger] new_devices(
                v,
                mask,
                keymap,
            )[k] == device_for(created(v, mask)[k], keymap),
{
    lemma_created_upto_exact(v, mask, CAPABILITY_COUNT as nat);
    assert forall|c: DeviceCapability| #[trigger] created(v, mask).contains(c) <==> creates(
        v,
        mask,
        c,
    ) by {
        lemma_capability_index(c, 0);
    }
}

/// Binding a mask a second time creates nothing: every capability it could
/// add already has its device.
pub proof fn lemma_rebind_creates_nothing(
    v: SessionView,
    v2: SessionView,
    out0: Seq<Outgoing>,
    out1: Seq<Outgoing>,
    mask: u64,
    keymap: Option<Keymap>,
)
    requires
        bound(v, v2, out0, out1, mask, keymap),
    ensures
        created(v2, mask) == Seq::<DeviceCapability>::empty(),
{
    lemma_bind_creates_once(v, mask, keymap);
    lemma_bind_creates_once(v2, mask, keymap);
    let added = new_devices(v, mask, keymap);
    assert forall|c: DeviceCapability| !#[trigger] created(v2, mask).contains(c) by {
        if creates(v2, mask, c) {
            assert(creates(v, mask, c) || has_device(v.devices, c));
            if has_device(v.devices, c) {
                let j = choose|j: int| 0 <= j < v.devices.len() && (#[trigger] v.devices[j]).capability
                    == c;
                assert(v2.devices[j] == v.devices[j]);
            } else {
                assert(creates(v, mask, c));
                assert(created(v, mask).contains(c));
                let j = choose|j: int| 0 <= j < created(v, mask).len() && created(v, mask)[j] == c;
                assert(added[j] == device_for(c, keymap));
                assert(v2.devices[v.devices.len() + j] == added[j]);
            }
        }
    }
    if created(v2, mask).len() > 0 {
        assert(created(v2, mask).contains(created(v2, mask)[0]));
    }
}

/// The session of a sending client.
pub struct SenderState {
    name: Option<String>,
    negotiated: InterfaceVersions,
    devices: Vec<Device>,
    last_serial: u32,
}

impl View for SenderState {
    type V = SessionView;

    closed spec fn view(&self) -> SessionView {
        SessionView {
            name: match self.name {
                Some(n) => Some(n@),
                None => None,
            },
            negotiated: self.negotiated@,
            devices: self.devices@,
            last_serial: self.last_serial,
        }
    }
}

impl SenderState {
    /// The negotiated table is complete and the devices are well formed.
    pub closed spec fn wf(&self) -> bool {
        &&& self.negotiated.wf()
        &&& devices_wf(self.devices@)
    }

    /// Opens the session: one seat offering every capability, no devices,
    /// serial zero.
    pub fn new(name: Option<String>, negotiated: InterfaceVersions, out: &mut Vec<Outgoing>) -> (r:
        SenderState)
        requires
            negotiated.wf(),
        ensures
            r.wf(),
            r@.name == (match name {
                Some(n) => Some(n@),
                None => None::<Seq<char>>,
            }),
            r@.negotiated == negotiated@,
            r@.devices == Seq::<Device>::empty(),
            r@.last_serial == 0,
            final(out)@ == old(out)@.push(Outgoing::AddSeat { capabilities: ADVERTISED_CAPABILITIES }),
    {
        out.push(Outgoing::AddSeat { capabilities: ADVERTISED_CAPABILITIES });
        SenderState { name, negotiated, devices: Vec::new(), last_serial: 0 }
    }

    /// Name of the seat every session offers.
    pub fn seat_name(&self) -> (r: &'static str)
        ensures
            r@ == "default"@,
    {
        "default"
    }

    /// Name the client gave in the handshake.
    pub fn name(&self) -> (r: Option<&String>)
        ensures
            r matches Some(n) ==> self@.name == Some(n@),
            r is None ==> self@.name is None,
    {
        self.name.as_ref()
    }

    /// The last serial used.
    pub fn last_serial(&self) -> (r: u32)
        ensures
            r == self@.last_serial,
    {
        self.last_serial
    }

    /// Number of devices bound.
    pub fn device_count(&self) -> (r: usize)
        ensures
            r == self@.devices.len(),
    {
        self.devices.len()
    }

    /// The device at a position of the creation order.
    pub fn device(&self, k: usize) -> (r: &Device)
        requires
            k < self@.devices.len(),
        ensures
            *r == self@.devices[k as int],
    {
        &self.devices[k]
    }

    /// Whether a device of the capability was bound.
    pub fn has_device(&self, c: DeviceCapability) -> (r: bool)
        ensures
            r == has_device(self@.devices, c),
    {
        let mut i: usize = 0;
        while i < self.devices.len()
            invariant
                i <= self.devices@.len(),
                forall|j: int| 0 <= j < i ==> (#[trigger] self.devices@[j]).capability != c,
            decreases self.devices@.len() - i,
        {
            if self.devices[i].capability == c {
                return true;
            }
            i += 1;
        }
        false
    }

    /// Whether a bind of the mask needs a keymap.
    pub fn wants_keymap(&self, mask: u64) -> (r: bool)
        requires
            self.wf(),
        ensures
            r == needs_keymap(self@, mask),
    {
        is_valid_mask(mask) && mask & DeviceCapability::Keyboard.bit() != 0
            && self.negotiated.contains(Interface::Keyboard) && !self.has_device(
            DeviceCapability::Keyboard,
        )
    }

    /// Binds the capabilities of a mask. A mask with a bit outside the
    /// capability range is refused. Otherwise one device is created, in bit
    /// order, for each capability the mask asks for whose interface was
    /// negotiated and which has no device yet, and each is announced.
    pub fn bind(&mut self, mask: u64, keymap: Option<Keymap>, out: &mut Vec<Outgoing>) -> (r:
        Result<(), Violation>)
        requires
            old(self).wf(),
            needs_keymap(old(self)@, mask) ==> (keymap matches Some(k) && k.wf()),
        ensures
            final(self).wf(),
            valid_mask(mask) ==> r is Ok && bound(
                old(self)@,
                final(self)@,
                old(out)@,
                final(out)@,
                mask,
                keymap,
            ),
            !valid_mask(mask) ==> {
                &&& r == Err::<(), Violation>(Violation::InvalidCapabilities)
                &&& final(self)@ == old(self)@
                &&& final(out)@ == old(out)@
            },
    {
        if !is_valid_mask(mask) {
            return Err(Violation::InvalidCapabilities);
        }
        let ghost v = self@;
        let ghost out0 = out@;
        let ghost keymap0 = keymap;
        let mut keymap = keymap;
        let mut k: usize = 0;
        while k < CAPABILITY_COUNT
            invariant
                k <= CAPABILITY_COUNT,
                self.wf(),
                self@.name == v.name,
                self@.negotiated == v.negotiated,
                self@.last_serial == v.last_serial,
                self@.devices == v.devices + created_upto(v, mask, k as nat).map_values(
                    |c: DeviceCapability| device_for(c, keymap0),
                ),
                valid_mask(mask),
                needs_keymap(v, mask) ==> (keymap0 matches Some(m) && m.wf()),
                k <= 4 ==> keymap == keymap0,
                out@.len() == out0.len() + created_upto(v, mask, k as nat).len(),
                out@.subrange(0, out0.len() as int) == out0,
                announces_all(
                    out@.subrange(out0.len() as int, out@.len() as int),
                    created_upto(v, mask, k as nat).map_values(
                        |c: DeviceCapability| device_for(c, keymap0),
                    ),
                ),
            decreases CAPABILITY_COUNT - k,
        {
            let c = DeviceCapability::at(k);
            let ghost before = created_upto(v, mask, k as nat);
            let ghost made = before.map_values(|c: DeviceCapability| device_for(c, keymap0));
            proof {
                lemma_created_before(v, mask, k as nat);
                lemma_capability_index(c, k as int);
                assert(has_device(self@.devices, c) == has_device(v.devices, c)) by {
                    if has_device(self@.devices, c) {
                        let j = choose|j: int|
                            0 <= j < self@.devices.len() && (#[trigger] self@.devices[j]).capability
                                == c;
                        if j >= v.devices.len() {
                            assert(self@.devices[j] == made[j - v.devices.len()]);
                            assert(capability_index(before[j - v.devices.len()]) < k);
                        } else {
                            assert(self@.devices[j] == v.devices[j]);
                        }
                    }
                    if has_device(v.devices, c) {
                        let j = choose|j: int|
                            0 <= j < v.devices.len() && (#[trigger] v.devices[j]).capability == c;
                        assert(self@.devices[j] == v.devices[j]);
                    }
                }
            }
            let make = mask & c.bit() != 0 && self.negotiated.contains(c.interface())
                && !self.has_device(c);
            if make {
                let km = if k == 4 {
                    keymap.take()
                } else {
                    None
                };
                let announced = match &km {
                    Some(m) => Some(m.duplicate()),
                    None => None,
                };
                let ghost old_devices = self@.devices;
                let ghost out_before = out@;
                let d = Device { capability: c, keymap: km };
                proof {
                    assert(d == device_for(c, keymap0));
                }
                self.devices.push(d);
                out.push(Outgoing::AddDevice { capability: c, keymap: announced });
                proof {
                    let after = created_upto(v, mask, (k + 1) as nat);
                    assert(after == before.push(c));
                    let made2 = after.map_values(|c: DeviceCapability| device_for(c, keymap0));
                    assert(made2 =~= made.push(device_for(c, keymap0)));
                    assert(self@.devices =~= v.devices + made2);
                    assert(out@.subrange(0, out0.len() as int) =~= out0) by {
                        assert(out@ == out_before.push(
                            Outgoing::AddDevice { capability: c, keymap: announced },
                        ));
                    }
                    let tail = out@.subrange(out0.len() as int, out@.len() as int);
                    let tail0 = out_before.subrange(out0.len() as int, out_before.len() as int);
                    assert(tail =~= tail0.push(
                        Outgoing::AddDevice { capability: c, keymap: announced },
                    ));
                    assert(announces_all(tail, made2)) by {
                        assert forall|j: int| 0 <= j < tail.len() implies announces(
                            #[trigger] tail[j],
                            made2[j],
                        ) by {
                            if j < tail0.len() {
                                assert(tail[j] == tail0[j]);
                                assert(made2[j] == made[j]);
                            }
                        }
                    }
                    assert(devices_wf(self@.devices)) by {
                        assert forall|a: int, b: int|
                            0 <= a < b < self@.devices.len() implies (
                        #[trigger] self@.devices[a]).capability != (
                        #[trigger] self@.devices[b]).capability by {
                            if b == old_devices.len() {
                                assert(self@.devices[a] == old_devices[a]);
                            } else {
                                assert(self@.devices[a] == old_devices[a]);
                                assert(self@.devices[b] == old_devices[b]);
                            }
                        }
                        assert forall|j: int| 0 <= j < self@.devices.len() implies ((
                        #[trigger] self@.devices[j]).capability == DeviceCapability::Keyboard
                            <==> self@.devices[j].keymap is Some) by {
                            if j < old_devices.len() {
                                assert(self@.devices[j] == old_devices[j]);
                            }
                        }
                        assert forall|j: int| 0 <= j < self@.devices.len() implies ((
                        #[trigger] self@.devices[j]).keymap matches Some(m) ==> m.wf()) by {
                            if j < old_devices.len() {
                                assert(self@.devices[j] == old_devices[j]);
                            }
                        }
                    }
                }
            } else {
                proof {
                    let after = created_upto(v, mask, (k + 1) as nat);
                    assert(after == before);
                }
            }
            k += 1;
        }
        Ok(())
    }

    /// Whether a request is a bind that needs a keymap.
    pub fn wants_keymap_for(&self, request: &SessionRequest) -> (r: bool)
        requires
            self.wf(),
        ensures
            r == request_needs_keymap(self@, *request),
    {
        match request {
            SessionRequest::Bind { capabilities } => self.wants_keymap(*capabilities),
            _ => false,
        }
    }

    /// Handles one request, as `session_handled` says.
    pub fn handle_request(
        &mut self,
        request: SessionRequest,
        keymap: Option<Keymap>,
        events: &mut Vec<InputEvent>,
        out: &mut Vec<Outgoing>,
    ) -> (r: SessionStep)
        requires
            old(self).wf(),
            request_needs_keymap(old(self)@, request) ==> (keymap matches Some(k) && k.wf()),
        ensures
            final(self).wf(),
            session_handled(
                old(self)@,
                request,
                keymap,
                r,
                final(self)@,
                old(out)@,
                final(out)@,
                old(events)@,
                final(events)@,
            ),
    {
        match request {
            SessionRequest::Disconnect => SessionStep::Remove,
            SessionRequest::Bind { capabilities } => {
                match self.bind(capabilities, keymap, out) {
                    Ok(()) => SessionStep::Continue,
                    Err(violation) => {
                        out.push(Outgoing::Disconnected { violation });
                        SessionStep::Remove
                    },
                }
            },
            other => {
                let ghost e = translation(other);
                match convert_request(other) {
                    Some(event) => {
                        events.push(event);
                    },
                    None => {},
                }
                proof {
                    assert(final(events)@ =~= old(events)@ + emitted(e));
                }
                SessionStep::Continue
            },
        }
    }
}

/// Every keyboard device of a session carries a keymap that is not empty and
/// whose declared length is its byte length.
pub proof fn lemma_keyboard_has_keymap(s: SenderState, k: int)
    requires
        s.wf(),
        0 <= k < s@.devices.len(),
        s@.devices[k].capability == DeviceCapability::Keyboard,
    ensures
        s@.devices[k].keymap is Some,
        s@.devices[k].keymap->Some_0@.len() > 0,
        s@.devices[k].keymap->Some_0.spec_declared_len() as int
            == s@.devices[k].keymap->Some_0@.len(),
{
    let m = s@.devices[k].keymap->Some_0;
    lemma_keymap_length(m);
}

} // verus!
