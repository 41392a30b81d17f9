//! The handshake: the client states its role, its name and the interface
//! versions it speaks, and finishing either opens a session or ends the
//! connection.
use vstd::prelude::*;
use crate::interface::{
    Interface, InterfaceVersions, INTERFACE_COUNT, interface_named, max_version, spec_at,
};
use crate::protocol::{ContextType, Outgoing, Violation};
use crate::session::{ADVERTISED_CAPABILITIES, Device, SenderState, SessionView};

verus! {

/// The handshake version this side announces.
pub const HANDSHAKE_VERSION: u32 = 1;

/// Serial of the connection object created when the handshake completes.
pub const CONNECTION_SERIAL: u32 = 0;

/// Version of the connection object.
pub const CONNECTION_VERSION: u32 = 1;

/// A request of the handshake.
pub enum HandshakeRequest {
    /// The handshake version the client speaks; it is informational.
    HandshakeVersion { version: u32 },
    /// The role the client takes.
    ContextType { context_type: ContextType },
    /// The client's name.
    Name { name: String },
    /// A version the client speaks of a named interface.
    InterfaceVersion { name: String, version: u32 },
    /// The client is done.
    Finish,
}

/// What the handshake has gathered, seen from outside.
pub struct HandshakeView {
    pub context_type: Option<ContextType>,
    pub name: Option<Seq<char>>,
    /// Agreed versions, for recognised interface names only.
    pub negotiated: Map<Interface, u32>,
}

/// The outcome of one handshake request.
pub enum HandshakeResult {
    /// Wait for more requests.
    Continue,
    /// End the connection for a violation.
    Disconnect(Violation),
    /// The handshake completed for a sending client: its session.
    Sender(SenderState),
    /// The handshake completed for a receiving client, a role this side
    /// does not implement.
    ReceiverUnsupported,
}

/// The agreed versions after a client offers `version` of the interface
/// named `name`: the lower of the offer and this side's highest version,
/// replacing any earlier agreement; unknown names change nothing.
pub open spec fn negotiate(neg: Map<Interface, u32>, name: Seq<char>, version: u32) -> Map<
    Interface,
    u32,
> {
    match interface_named(name) {
        Some(i) => neg.insert(
            i,
            if version < max_version(i) {
                version
            } else {
                max_version(i)
            },
        ),
        None => neg,
    }
}

/// The interfaces every client must negotiate: connection, keep-alive and
/// callback.
pub open spec fn mandatory_negotiated(neg: Map<Interface, u32>) -> bool {
    &&& neg.contains_key(Interface::Connection)
    &&& neg.contains_key(Interface::Pingpong)
    &&& neg.contains_key(Interface::Callback)
}

/// The agreed versions of the first `k` interfaces of the table, as
/// messages, in table order.
pub open spec fn echo_upto(neg: Map<Interface, u32>, k: nat) -> Seq<Outgoing>
    decreases k,
{
    if k == 0 {
        Seq::empty()
    } else {
        let i = spec_at(k - 1);
        echo_upto(neg, (k - 1) as nat) + if neg.contains_key(i) {
            seq![Outgoing::InterfaceVersion { interface: i, version: neg[i] }]
        } else {
            Seq::empty()
        }
    }
}

/// Every agreed version, as messages, in table order.
pub open spec fn echo(neg: Map<Interface, u32>) -> Seq<Outgoing> {
    echo_upto(neg, INTERFACE_COUNT as nat)
}

/// The session a sending client gets when its handshake completes.
pub open spec fn fresh_session(v: HandshakeView) -> SessionView {
    SessionView {
        name: v.name,
        negotiated: v.negotiated,
        devices: Seq::<Device>::empty(),
        last_serial: CONNECTION_SERIAL,
    }
}

/// The outcome of a handshake request, over views.
pub enum HandshakeOutcome {
    /// The handshake goes on with the gathered state.
    Continue(HandshakeView),
    /// The connection ends for a violation.
    Disconnect(Violation),
    /// A sending client's session opens.
    Established(SessionView),
    /// A receiving client finished; this side does not implement the role.
    ReceiverUnsupported,
}

/// What one request does to the handshake gathered so far. Role and name may
/// each be set once. An interface offer is settled by `negotiate`. `Finish`
/// needs the mandatory interfaces, then a role: a sender gets a fresh
/// session. Anything else changes nothing.
pub open spec fn handshake_step(v: HandshakeView, request: HandshakeRequest) -> HandshakeOutcome {
    match request {
        HandshakeRequest::HandshakeVersion { .. } => HandshakeOutcome::Continue(v),
        HandshakeRequest::ContextType { context_type } => {
            if v.context_type is Some {
                HandshakeOutcome::Disconnect(Violation::DuplicateContextType)
            } else {
                HandshakeOutcome::Continue(HandshakeView { context_type: Some(context_type), ..v })
            }
        },
        HandshakeRequest::Name { name } => {
            if v.name is Some {
                HandshakeOutcome::Disconnect(Violation::DuplicateName)
            } else {
                HandshakeOutcome::Continue(HandshakeView { name: Some(name@), ..v })
            }
        },
        HandshakeRequest::InterfaceVersion { name, version } => HandshakeOutcome::Continue(
            HandshakeView { negotiated: negotiate(v.negotiated, name@, version), ..v },
        ),
        HandshakeRequest::Finish => {
            if !mandatory_negotiated(v.negotiated) {
                HandshakeOutcome::Disconnect(Violation::MissingInterface)
            } else {
                match v.context_type {
                    None => HandshakeOutcome::Disconnect(Violation::MissingContextType),
                    Some(ContextType::Receiver) => HandshakeOutcome::ReceiverUnsupported,
                    Some(ContextType::Sender) => HandshakeOutcome::Established(fresh_session(v)),
                }
            }
        },
    }
}

/// The messages one request makes this side send. Only `Finish` sends any:
/// the agreed versions; then, with the mandatory interfaces present, the
/// connection object; then, for a sender, its seat.
pub open spec fn handshake_messages(v: HandshakeView, request: HandshakeRequest) -> Seq<Outgoing> {
    match request {
        HandshakeRequest::Finish => {
            let echoed = echo(v.negotiated);
            if !mandatory_negotiated(v.negotiated) {
                echoed
            } else {
                let connected = echoed.push(
                    Outgoing::Connection { serial: CONNECTION_SERIAL, version: CONNECTION_VERSION },
                );
                if v.context_type == Some(ContextType::Sender) {
                    connected.push(Outgoing::AddSeat { capabilities: ADVERTISED_CAPABILITIES })
                } else {
                    connected
                }
            }
        },
        _ => Seq::empty(),
    }
}

/// A result and the state left behind agree with an outcome.
pub open spec fn result_matches(r: HandshakeResult, after: HandshakeView, o: HandshakeOutcome) -> bool {
    match o {
        HandshakeOutcome::Continue(v2) => r is Continue && after == v2,
        HandshakeOutcome::Disconnect(x) => r == HandshakeResult::Disconnect(x),
        HandshakeOutcome::Established(s) => {
            &&& r is Sender
            &&& r->Sender_0.wf()
            &&& r->Sender_0@ == s
        },
        HandshakeOutcome::ReceiverUnsupported => r is ReceiverUnsupported,
    }
}

/// The outcome of a sequence of requests, taken in order from `v`; the
/// first request that does not continue the handshake decides.
pub open spec fn run_handshake(v: HandshakeView, requests: Seq<HandshakeRequest>) -> HandshakeOutcome
    decreases requests.len(),
{
    if requests.len() == 0 {
        HandshakeOutcome::Continue(v)
    } else {
        match run_handshake(v, requests.drop_last()) {
            HandshakeOutcome::Continue(v2) => handshake_step(v2, requests.last()),
            other => other,
        }
    }
}

/// The handshake of a connection that has sent nothing yet.
pub open spec fn initial_handshake() -> HandshakeView {
    HandshakeView {
        context_type: None,
        name: None,
        negotiated: Map::<Interface, u32>::empty(),
    }
}

/// The handshake of one connection.
pub struct HandshakeState {
    context_type: Option<ContextType>,
    name: Option<String>,
    negotiated: InterfaceVersions,
}

impl View for HandshakeState {
    type V = HandshakeView;

    closed spec fn view(&self) -> HandshakeView {
        HandshakeView {
            context_type: self.context_type,
            name: match self.name {
                Some(n) => Some(n@),
                None => None,
            },
            negotiated: self.negotiated@,
        }
    }
}

impl HandshakeState {
    /// The table of agreed versions is complete.
    pub closed spec fn wf(&self) -> bool {
        self.negotiated.wf()
    }

    /// Starts a handshake, announcing this side's handshake version.
    pub fn new(out: &mut Vec<Outgoing>) -> (r: HandshakeState)
        ensures
            r.wf(),
            r@ == initial_handshake(),
            final(out)@ == old(out)@.push(Outgoing::HandshakeVersion { version: HANDSHAKE_VERSION }),
    {
        out.push(Outgoing::HandshakeVersion { version: HANDSHAKE_VERSION });
        HandshakeState { context_type: None, name: None, negotiated: InterfaceVersions::new() }
    }

    /// Appends the agreed versions to `out`, in table order.
    fn echo(&self, out: &mut Vec<Outgoing>)
        requires
            self.wf(),
        ensures
            final(out)@ == old(out)@ + echo(self@.negotiated),
    {
        let ghost neg = self@.negotiated;
        let mut k: usize = 0;
        while k < INTERFACE_COUNT
            invariant
                k <= INTERFACE_COUNT,
                self.wf(),
                neg == self@.negotiated,
                out@ == old(out)@ + echo_upto(neg, k as nat),
            decreases INTERFACE_COUNT - k,
        {
            let i = Interface::at(k);
            let ghost before = out@;
            match self.negotiated.get(i) {
                Some(version) => {
                    out.push(Outgoing::InterfaceVersion { interface: i, version });
                },
                None => {},
            }
            k += 1;
            assert(out@ =~= old(out)@ + echo_upto(neg, k as nat));
        }
    }

    /// Handles one request, as `handshake_step` and `handshake_messages`
    /// say.
    pub fn handle_request(&mut self, request: HandshakeRequest, out: &mut Vec<Outgoing>) -> (r:
        HandshakeResult)
        requires
            old(self).wf(),
        ensures
            final(self).wf(),
            result_matches(r, final(self)@, handshake_step(old(self)@, request)),
            final(out)@ == old(out)@ + handshake_messages(old(self)@, request),
    {
        match request {
            HandshakeRequest::HandshakeVersion { .. } => {},
            HandshakeRequest::ContextType { context_type } => {
                if self.context_type.is_some() {
                    return HandshakeResult::Disconnect(Violation::DuplicateContextType);
                }
                self.context_type = Some(context_type);
            },
            HandshakeRequest::Name { name } => {
                if self.name.is_some() {
                    return HandshakeResult::Disconnect(Violation::DuplicateName);
                }
                self.name = Some(name);
            },
            HandshakeRequest::InterfaceVersion { name, version } => {
                if let Some(interface) = Interface::from_name(name.as_str()) {
                    let server_version = interface.server_version();
                    let agreed = if version < server_version {
                        version
                    } else {
                        server_version
                    };
                    self.negotiated.set(interface, agreed);
                }
            },
            HandshakeRequest::Finish => {
                self.echo(out);
                if !(self.negotiated.contains(Interface::Connection) && self.negotiated.contains(
                    Interface::Pingpong,
                ) && self.negotiated.contains(Interface::Callback)) {
                    return HandshakeResult::Disconnect(Violation::MissingInterface);
                }
                out.push(
                    Outgoing::Connection { serial: CONNECTION_SERIAL, version: CONNECTION_VERSION },
                );
                return match self.context_type {
                    Some(ContextType::Sender) => {
                        let name = match &self.name {
                            Some(n) => Some(n.clone()),
                            None => None,
                        };
                        HandshakeResult::Sender(
                            SenderState::new(name, self.negotiated.copy(), out),
                        )
                    },
                    Some(ContextType::Receiver) => HandshakeResult::ReceiverUnsupported,
                    None => HandshakeResult::Disconnect(Violation::MissingContextType),
                };
            },
        }
        HandshakeResult::Continue
    }
}

/// The version last offered in `requests` for the interface `i`, if any.
pub open spec fn last_offer(requests: Seq<HandshakeRequest>, i: Interface) -> Option<u32>
    decreases requests.len(),
{
    if requests.len() == 0 {
        None
    } else {
        match requests.last() {
            HandshakeRequest::InterfaceVersion { name, version } => {
                if interface_named(name@) == Some(i) {
                    Some(version)
                } else {
                    last_offer(requests.drop_last(), i)
                }
            },
            _ => last_offer(requests.drop_last(), i),
        }
    }
}

/// Every request of the sequence is an interface offer.
pub open spec fn all_offers(requests: Seq<HandshakeRequest>) -> bool {
    forall|k: int| 0 <= k < requests.len() ==> #[trigger] requests[k] is InterfaceVersion
}

/// The lower of an offered version and this side's highest version.
pub open spec fn agreed_version(i: Interface, offered: u32) -> u32 {
    if offered < max_version(i) {
        offered
    } else {
        max_version(i)
    }
}

/// Interface offers never end the handshake and touch nothing but the
/// agreed versions. Afterwards an interface is agreed if it was before or
/// was offered, and its version is the lower of the last offer for it and
/// this side's highest version; names outside the table count for nothing.
pub proof fn lemma_offers_negotiate(v: HandshakeView, requests: Seq<HandshakeRequest>)
    requires
        all_offers(requests),
    ensures
        run_handshake(v, requests) is Continue,
        run_handshake(v, requests)->Continue_0.context_type == v.context_type,
        run_handshake(v, requests)->Continue_0.name == v.name,
        forall|i: Interface| #[trigger]
            run_handshake(v, requests)->Continue_0.negotiated.contains_key(i) == (
            v.negotiated.contains_key(i) || last_offer(requests, i) is Some),
        forall|i: Interface|
            run_handshake(v, requests)->Continue_0.negotiated.contains_key(i) ==> #[trigger]
            run_handshake(v, requests)->Continue_0.negotiated[i] == match last_offer(requests, i) {
                Some(x) => agreed_version(i, x),
                None => v.negotiated[i],
            },
    decreases requests.len(),
{
    if requests.len() > 0 {
        let init = requests.drop_last();
        assert forall|k: int| 0 <= k < init.len() implies #[trigger] init[k] is InterfaceVersion by {
            assert(init[k] == requests[k]);
        }
        lemma_offers_negotiate(v, init);
        assert(requests[requests.len() - 1] is InterfaceVersion);
    }
}

/// An offer of a name outside the table changes nothing.
pub proof fn lemma_unknown_offer_ignored(v: HandshakeView, name: String, version: u32)
    requires
        interface_named(name@) is None,
    ensures
        handshake_step(v, HandshakeRequest::InterfaceVersion { name, version })
            == HandshakeOutcome::Continue(v),
{
    assert(negotiate(v.negotiated, name@, version) == v.negotiated);
}

/// Finishing before the connection, keep-alive and callback interfaces are
/// all agreed ends the connection, whatever else was agreed.
pub proof fn lemma_finish_needs_mandatory(v: HandshakeView, requests: Seq<HandshakeRequest>)
    requires
        run_handshake(v, requests) is Continue,
        !mandatory_negotiated(run_handshake(v, requests)->Continue_0.negotiated),
    ensures
        run_handshake(v, requests.push(HandshakeRequest::Finish)) == HandshakeOutcome::Disconnect(
            Violation::MissingInterface,
        ),
{
    assert(requests.push(HandshakeRequest::Finish).drop_last() =~= requests);
}

/// After a first context type, the handshake either goes on with a context
/// type set or has ended with a violation, as long as it is not finished.
proof fn lemma_context_stays_set(
    v: HandshakeView,
    first: ContextType,
    middle: Seq<HandshakeRequest>,
    n: nat,
)
    requires
        n <= middle.len(),
        forall|k: int| 0 <= k < middle.len() ==> !(#[trigger] middle[k] is Finish),
    ensures
        match run_handshake(
            v,
            seq![HandshakeRequest::ContextType { context_type: first }] + middle.subrange(
                0,
                n as int,
            ),
        ) {
            HandshakeOutcome::Continue(v2) => v2.context_type is Some,
            HandshakeOutcome::Disconnect(_) => true,
            _ => false,
        },
    decreases n,
{
    let head = seq![HandshakeRequest::ContextType { context_type: first }];
    if n == 0 {
        let s = head + middle.subrange(0, 0);
        assert(s =~= head);
        assert(s.drop_last() =~= Seq::<HandshakeRequest>::empty());
        assert(run_handshake(v, s.drop_last()) == HandshakeOutcome::Continue(v));
        assert(s.last() == HandshakeRequest::ContextType { context_type: first });
    } else {
        lemma_context_stays_set(v, first, middle, (n - 1) as nat);
        let s = head + middle.subrange(0, n as int);
        let prev = head + middle.subrange(0, n - 1);
        assert(s.drop_last() =~= prev);
        assert(s.last() == middle[n - 1]);
        assert(!(middle[n - 1] is Finish));
        match run_handshake(v, prev) {
            HandshakeOutcome::Continue(v2) => {
                assert(run_handshake(v, s) == handshake_step(v2, middle[n - 1]));
            },
            _ => {
                assert(run_handshake(v, s) == run_handshake(v, prev));
            },
        }
    }
}

/// Setting the context type twice ends the connection, whichever types are
/// given and whatever unfinished handshake requests come between.
pub proof fn lemma_context_type_twice(
    v: HandshakeView,
    first: ContextType,
    middle: Seq<HandshakeRequest>,
    second: ContextType,
)
    requires
        forall|k: int| 0 <= k < middle.len() ==> !(#[trigger] middle[k] is Finish),
    ensures
        run_handshake(
            v,
            seq![HandshakeRequest::ContextType { context_type: first }] + middle + seq![
                HandshakeRequest::ContextType { context_type: second },
            ],
        ) is Disconnect,
{
    lemma_context_stays_set(v, first, middle, middle.len());
    let head = seq![HandshakeRequest::ContextType { context_type: first }];
    let s = head + middle + seq![HandshakeRequest::ContextType { context_type: second }];
    assert(middle.subrange(0, middle.len() as int) =~= middle);
    assert(s.drop_last() =~= head + middle);
}

/// A session only ever opens on a `Finish`.
pub proof fn lemma_session_needs_finish(v: HandshakeView, requests: Seq<HandshakeRequest>)
    ensures
        run_handshake(v, requests) is Established ==> exists|k: int|
            0 <= k < requests.len() && #[trigger] requests[k] is Finish,
    decreases requests.len(),
{
    if requests.len() > 0 {
        let init = requests.drop_last();
        lemma_session_needs_finish(v, init);
        if run_handshake(v, requests) is Established {
            if run_handshake(v, init) is Established {
                let k = choose|k: int| 0 <= k < init.len() && #[trigger] init[k] is Finish;
                assert(requests[k] == init[k]);
            } else {
                assert(requests[requests.len() - 1] is Finish);
            }
        }
    }
}

} // verus!
