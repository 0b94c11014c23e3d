use vstd::prelude::*;
use vstd::string::StringSliceAdditionalSpecFns;

verus! {

/// Protocol version that the server expects in the login request.
pub const PROTOCOL_VERSION: u8 = 5;

/// Display name the bot logs in with.
pub const BOT_NAME: &'static str = "PIZZABOT";

/// Session token of an anonymous login.
pub const ANONYMOUS_SESSION: &'static str = "none";

/// Flag code the bot logs in with.
pub const DEFAULT_FLAG: &'static str = "XX";

/// Viewport size announced at login; the server does not interpret it.
pub const HORIZON: u16 = 1000;

/// An inbound message, reduced to what this client reacts to.
#[derive(Clone, Debug, PartialEq, Eq)]
pub enum InboundEvent {
    /// A keepalive ping; `token` has to be echoed back.
    LivenessChallenge { token: u32 },
    /// Public chat said by player `sender_id`.
    BroadcastText { sender_id: u16, text: Vec<u8> },
    /// Any other server packet.
    Other,
}

pub enum EventView {
    LivenessChallenge { token: u32 },
    BroadcastText { sender_id: u16, text: Seq<u8> },
    Other,
}

impl View for InboundEvent {
    type V = EventView;

    open spec fn view(&self) -> EventView {
        match self {
            InboundEvent::LivenessChallenge { token } => EventView::LivenessChallenge {
                token: *token,
            },
            InboundEvent::BroadcastText { sender_id, text } => EventView::BroadcastText {
                sender_id: *sender_id,
                text: text@,
            },
            InboundEvent::Other => EventView::Other,
        }
    }
}

/// Everything this client sends.
#[derive(Clone, Debug, PartialEq, Eq)]
pub enum OutboundRequest {
    AuthenticationRequest {
        protocol: u8,
        name: Vec<u8>,
        session: Vec<u8>,
        horizon_x: u16,
        horizon_y: u16,
        flag: Vec<u8>,
    },
    LivenessResponse { token: u32 },
    /// A whisper to one player.
    DirectedReply { recipient: u16, text: Vec<u8> },
    /// A public chat message.
    BroadcastReply { text: Vec<u8> },
}

pub enum RequestView {
    AuthenticationRequest {
        protocol: u8,
        name: Seq<u8>,
        session: Seq<u8>,
        horizon_x: u16,
        horizon_y: u16,
        flag: Seq<u8>,
    },
    LivenessResponse { token: u32 },
    DirectedReply { recipient: u16, text: Seq<u8> },
    BroadcastReply { text: Seq<u8> },
}

impl View for OutboundRequest {
    type V = RequestView;

    open spec fn view(&self) -> RequestView {
        match self {
            OutboundRequest::AuthenticationRequest {
                protocol,
                name,
                session,
                horizon_x,
                horizon_y,
                flag,
            } => RequestView::AuthenticationRequest {
                protocol: *protocol,
                name: name@,
                session: session@,
                horizon_x: *horizon_x,
                horizon_y: *horizon_y,
                flag: flag@,
            },
            OutboundRequest::LivenessResponse { token } => RequestView::LivenessResponse {
                token: *token,
            },
            OutboundRequest::DirectedReply { recipient, text } => RequestView::DirectedReply {
                recipient: *recipient,
                text: text@,
            },
            OutboundRequest::BroadcastReply { text } => RequestView::BroadcastReply {
                text: text@,
            },
        }
    }
}

/// The view of an optional request.
pub open spec fn opt_view(r: Option<OutboundRequest>) -> Option<RequestView> {
    match r {
        Some(q) => Some(q@),
        None => None,
    }
}

/// The UTF-8 bytes of `s`.
pub fn bytes_of(s: &str) -> (r: Vec<u8>)
    ensures
        r@ == s.spec_bytes(),
{
    vstd::slice::slice_to_vec(s.as_bytes())
}

/// Whether two byte strings are equal.
pub fn bytes_equal(a: &[u8], b: &[u8]) -> (r: bool)
    ensures
        r == (a@ == b@),
{
    if a.len() != b.len() {
        return false;
    }
    let mut i: usize = 0;
    while i < a.len()
        invariant
            a@.len() == b@.len(),
            i <= a@.len(),
            forall|j: int| 0 <= j < i ==> a@[j] == b@[j],
        decreases a@.len() - i,
    {
        if a[i] != b[i] {
            return false;
        }
        i = i + 1;
    }
    assert(a@ =~= b@);
    true
}

} // verus!
