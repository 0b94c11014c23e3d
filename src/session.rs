use vstd::prelude::*;
use vstd::string::StringSliceAdditionalSpecFns;
use crate::message::{
    bytes_of, OutboundRequest, RequestView, ANONYMOUS_SESSION, HORIZON, PROTOCOL_VERSION,
};

verus! {

/// Lifecycle of the one connection.
#[derive(Clone, Copy, Debug, PartialEq, Eq, Structural)]
pub enum SessionState {
    Disconnected,
    Authenticating,
    Active,
    Closed,
}

/// The single live connection: its state and the display name it logs in with.
pub struct Session {
    state: SessionState,
    identity: Vec<u8>,
}

pub struct SessionView {
    pub state: SessionState,
    pub identity: Seq<u8>,
}

impl View for Session {
    type V = SessionView;

    closed spec fn view(&self) -> SessionView {
        SessionView { state: self.state, identity: self.identity@ }
    }
}

/// The login request that a session with display name `identity` sends with `flag`.
pub open spec fn login_request(identity: Seq<u8>, flag: Seq<u8>) -> RequestView {
    RequestView::AuthenticationRequest {
        protocol: PROTOCOL_VERSION,
        name: identity,
        session: ANONYMOUS_SESSION.spec_bytes(),
        horizon_x: HORIZON,
        horizon_y: HORIZON,
        flag: flag,
    }
}

/// `v` once the connection has closed.
pub open spec fn closed(v: SessionView) -> SessionView {
    SessionView { state: SessionState::Closed, identity: v.identity }
}

/// The keepalive answer to a ping carrying `token`: the token echoed back.
pub fn answer_liveness(token: u32) -> (r: OutboundRequest)
    ensures
        r@ == (RequestView::LivenessResponse { token }),
{
    OutboundRequest::LivenessResponse { token }
}

impl Session {
    /// A session that has not logged in yet.
    pub fn new(identity: Vec<u8>) -> (r: Session)
        ensures
            r@ == (SessionView { state: SessionState::Disconnected, identity: identity@ }),
    {
        Session { state: SessionState::Disconnected, identity }
    }

    pub fn state(&self) -> (r: SessionState)
        ensures
            r == self@.state,
    {
        self.state
    }

    pub fn identity(&self) -> (r: &Vec<u8>)
        ensures
            r@ == self@.identity,
    {
        &self.identity
    }

    /// Builds the anonymous login request and moves to `Active`: the login is
    /// taken as accepted as soon as it is sent.
    pub fn begin_authentication(&mut self, flag: Vec<u8>) -> (r: OutboundRequest)
        requires
            old(self)@.state == SessionState::Disconnected,
        ensures
            final(self)@ == (SessionView {
                state: SessionState::Active,
                identity: old(self)@.identity,
            }),
            r@ == login_request(old(self)@.identity, flag@),
    {
        let request = OutboundRequest::AuthenticationRequest {
            protocol: PROTOCOL_VERSION,
            name: self.identity.clone(),
            session: bytes_of(ANONYMOUS_SESSION),
            horizon_x: HORIZON,
            horizon_y: HORIZON,
            flag,
        };
        self.state = SessionState::Authenticating;
        self.state = SessionState::Active;
        request
    }

    /// Moves to `Closed`, from any state.
    pub fn mark_closed(&mut self)
        ensures
            final(self)@ == closed(old(self)@),
    {
        self.state = SessionState::Closed;
    }
}

/// Closing is idempotent: closing a closed session changes nothing, and the
/// session stays `Closed`.
pub proof fn lemma_close_idempotent(v: SessionView)
    ensures
        closed(closed(v)) == closed(v),
        closed(closed(v)).state == SessionState::Closed,
{
}

} // verus!
