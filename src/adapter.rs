//! One client connection, from its first byte to its removal: the handshake,
//! then the session, fed one request at a time by the host's event loop.
use vstd::prelude::*;
use crate::device::Keymap;
use crate::event::{InputEvent, SessionRequest};
use crate::handshake::{
    HandshakeOutcome, HandshakeRequest, HandshakeResult, HandshakeState, HandshakeView,
    HANDSHAKE_VERSION, handshake_messages, handshake_step, initial_handshake,
};
use crate::protocol::Outgoing;
use crate::session::{SenderState, SessionStep, SessionView, request_needs_keymap, session_handled};

verus! {

/// A request read from a client connection.
pub enum EiRequest {
    /// A request of the handshake.
    Handshake(HandshakeRequest),
    /// A request made once the session is up.
    Session(SessionRequest),
    /// A request addressed to an object that does not exist.
    InvalidObject(u64),
}

/// What the host should do with the connection after a request.
#[derive(Clone, Copy, Debug, PartialEq, Eq, Structural)]
pub enum PostAction {
    /// Keep it and wait for more.
    Continue,
    /// Drop it.
    Remove,
    /// A receiving client completed its handshake: this side does not
    /// implement that role, which is a fatal error of the host.
    ReceiverUnsupported,
}

/// The stage a connection is in.
pub enum Phase {
    Handshaking(HandshakeState),
    Connected(SenderState),
    Removed,
}

/// The stage a connection is in, over views.
pub enum PhaseView {
    Handshaking(HandshakeView),
    Connected(SessionView),
    Removed,
}

/// What a handshake request did to a connection in its handshake: the
/// handshake's own messages are sent; a violation also sends a notice and
/// removes the connection; a completed sender handshake opens the session.
pub open spec fn handshake_followed(
    v: HandshakeView,
    request: HandshakeRequest,
    r: PostAction,
    after: PhaseView,
    out0: Seq<Outgoing>,
    out1: Seq<Outgoing>,
) -> bool {
    let msgs = out0 + handshake_messages(v, request);
    match handshake_step(v, request) {
        HandshakeOutcome::Continue(v2) => {
            &&& r == PostAction::Continue
            &&& after == PhaseView::Handshaking(v2)
            &&& out1 == msgs
        },
        HandshakeOutcome::Disconnect(x) => {
            &&& r == PostAction::Remove
            &&& after == PhaseView::Removed
            &&& out1 == msgs.push(Outgoing::Disconnected { violation: x })
        },
        HandshakeOutcome::Established(s) => {
            &&& r == PostAction::Continue
            &&& after == PhaseView::Connected(s)
            &&& out1 == msgs
        },
        HandshakeOutcome::ReceiverUnsupported => {
            &&& r == PostAction::ReceiverUnsupported
            &&& after == PhaseView::Removed
            &&& out1 == msgs
        },
    }
}

/// What a session request did to a connected connection: the session
/// handled it, and a session that ends removes the connection.
pub open spec fn session_followed(
    v: SessionView,
    request: SessionRequest,
    keymap: Option<Keymap>,
    r: PostAction,
    after: PhaseView,
    out0: Seq<Outgoing>,
    out1: Seq<Outgoing>,
    ev0: Seq<InputEvent>,
    ev1: Seq<InputEvent>,
) -> bool {
    ||| {
        &&& r == PostAction::Continue
        &&& after is Connected
        &&& session_handled(
            v,
            request,
            keymap,
            SessionStep::Continue,
            after->Connected_0,
            out0,
            out1,
            ev0,
            ev1,
        )
    }
    ||| {
        &&& r == PostAction::Remove
        &&& after == PhaseView::Removed
        &&& session_handled(v, request, keymap, SessionStep::Remove, v, out0, out1, ev0, ev1)
    }
}

/// Before `Finish`, a connection never opens a session: any other handshake
/// request leaves it in its handshake or removes it. (No request handled
/// during the handshake produces an event; `EiInput::handle_request` says so.)
pub proof fn lemma_no_session_before_finish(
    v: HandshakeView,
    request: HandshakeRequest,
    r: PostAction,
    after: PhaseView,
    out0: Seq<Outgoing>,
    out1: Seq<Outgoing>,
)
    requires
        handshake_followed(v, request, r, after, out0, out1),
        !(request is Finish),
    ensures
        after is Handshaking || after is Removed,
{
}

/// Whether handling the request needs a keymap.
pub open spec fn phase_needs_keymap(p: PhaseView, request: EiRequest) -> bool {
    match (p, request) {
        (PhaseView::Connected(v), EiRequest::Session(r)) => request_needs_keymap(v, r),
        _ => false,
    }
}

/// A client connection.
pub struct EiInput {
    phase: Phase,
}

impl View for EiInput {
    type V = PhaseView;

    closed spec fn view(&self) -> PhaseView {
        match self.phase {
            Phase::Handshaking(h) => PhaseView::Handshaking(h@),
            Phase::Connected(s) => PhaseView::Connected(s@),
            Phase::Removed => PhaseView::Removed,
        }
    }
}

impl EiInput {
    /// The state of the current stage is well formed.
    pub closed spec fn wf(&self) -> bool {
        match self.phase {
            Phase::Handshaking(h) => h.wf(),
            Phase::Connected(s) => s.wf(),
            Phase::Removed => true,
        }
    }

    /// A new connection: its handshake starts, and this side announces its
    /// handshake version.
    pub fn new(out: &mut Vec<Outgoing>) -> (r: EiInput)
        ensures
            r.wf(),
            r@ == PhaseView::Handshaking(initial_handshake()),
            final(out)@ == old(out)@.push(Outgoing::HandshakeVersion { version: HANDSHAKE_VERSION }),
    {
        EiInput { phase: Phase::Handshaking(HandshakeState::new(out)) }
    }

    /// Whether the connection was removed.
    pub fn is_removed(&self) -> (r: bool)
        ensures
            r == (self@ is Removed),
    {
        match self.phase {
            Phase::Removed => true,
            _ => false,
        }
    }

    /// The session, once the handshake has opened one.
    pub fn session(&self) -> (r: Option<&SenderState>)
        ensures
            self@ is Connected ==> (r matches Some(s) && s@ == self@->Connected_0),
            !(self@ is Connected) ==> r is None,
    {
        match &self.phase {
            Phase::Connected(s) => Some(s),
            _ => None,
        }
    }

    /// Whether handling the request needs a keymap.
    pub fn wants_keymap(&self, request: &EiRequest) -> (r: bool)
        requires
            self.wf(),
        ensures
            r == phase_needs_keymap(self@, *request),
    {
        match (&self.phase, request) {
            (Phase::Connected(s), EiRequest::Session(req)) => s.wants_keymap_for(req),
            _ => false,
        }
    }

    /// The transport failed: the connection is removed.
    pub fn close(&mut self)
        ensures
            final(self).wf(),
            final(self)@ == PhaseView::Removed,
    {
        self.phase = Phase::Removed;
    }

    /// Handles one request. A removed connection takes no more. A request
    /// for an object that does not exist removes the connection. During the
    /// handshake, handshake requests go to it and others are ignored; once
    /// connected, session requests go to the session and others are
    /// ignored. No event is ever produced before the session opens.
    pub fn handle_request(
        &mut self,
        request: EiRequest,
        keymap: Option<Keymap>,
        events: &mut Vec<InputEvent>,
        out: &mut Vec<Outgoing>,
    ) -> (r: PostAction)
        requires
            old(self).wf(),
            phase_needs_keymap(old(self)@, request) ==> (keymap matches Some(k) && k.wf()),
        ensures
            final(self).wf(),
            match old(self)@ {
                PhaseView::Removed => {
                    &&& r == PostAction::Remove
                    &&& final(self)@ == PhaseView::Removed
                    &&& final(out)@ == old(out)@
                    &&& final(events)@ == old(events)@
                },
                PhaseView::Handshaking(hv) => {
                    &&& final(events)@ == old(events)@
                    &&& match request {
                        EiRequest::Handshake(hr) => handshake_followed(
                            hv,
                            hr,
                            r,
                            final(self)@,
                            old(out)@,
                            final(out)@,
                        ),
                        EiRequest::Session(_) => {
                            &&& r == PostAction::Continue
                            &&& final(self)@ == old(self)@
                            &&& final(out)@ == old(out)@
                        },
                        EiRequest::InvalidObject(_) => {
                            &&& r == PostAction::Remove
                            &&& final(self)@ == PhaseView::Removed
                            &&& final(out)@ == old(out)@
                        },
                    }
                },
                PhaseView::Connected(sv) => match request {
                    EiRequest::Session(sr) => session_followed(
                        sv,
                        sr,
                        keymap,
                        r,
                        final(self)@,
                        old(out)@,
                        final(out)@,
                        old(events)@,
                        final(events)@,
                    ),
                    EiRequest::Handshake(_) => {
                        &&& r == PostAction::Continue
                        &&& final(self)@ == old(self)@
                        &&& final(out)@ == old(out)@
                        &&& final(events)@ == old(events)@
                    },
                    EiRequest::InvalidObject(_) => {
                        &&& r == PostAction::Remove
                        &&& final(self)@ == PhaseView::Removed
                        &&& final(out)@ == old(out)@
                        &&& final(events)@ == old(events)@
                    },
                },
            },
    {
        let mut phase = Phase::Removed;
        std::mem::swap(&mut phase, &mut self.phase);
        match phase {
            Phase::Removed => PostAction::Remove,
            Phase::Handshaking(mut hs) => {
                match request {
                    EiRequest::Handshake(hr) => {
                        match hs.handle_request(hr, out) {
                            HandshakeResult::Continue => {
                                self.phase = Phase::Handshaking(hs);
                                PostAction::Continue
                            },
                            HandshakeResult::Disconnect(violation) => {
                                out.push(Outgoing::Disconnected { violation });
                                PostAction::Remove
                            },
                            HandshakeResult::Sender(session) => {
                                self.phase = Phase::Connected(session);
                                PostAction::Continue
                            },
                            HandshakeResult::ReceiverUnsupported => PostAction::ReceiverUnsupported,
                        }
                    },
                    EiRequest::Session(_) => {
                        self.phase = Phase::Handshaking(hs);
                        PostAction::Continue
                    },
                    EiRequest::InvalidObject(_) => PostAction::Remove,
                }
            },
            Phase::Connected(mut session) => {
                match request {
                    EiRequest::Session(sr) => {
                        match session.handle_request(sr, keymap, events, out) {
                            SessionStep::Continue => {
                                self.phase = Phase::Connected(session);
                                PostAction::Continue
                            },
                            SessionStep::Remove => PostAction::Remove,
                        }
                    },
                    EiRequest::Handshake(_) => {
                        self.phase = Phase::Connected(session);
                        PostAction::Continue
                    },
                    EiRequest::InvalidObject(_) => PostAction::Remove,
                }
            },
        }
    }
}

} // verus!
