use vstd::prelude::*;
use airmash_protocol::client::{Chat, Login, Pong, Whisper};
use airmash_protocol::{ClientPacket, ServerPacket};
use crate::message::{EventView, InboundEvent, OutboundRequest, RequestView};

verus! {

#[verifier::external_type_specification]
#[verifier::external_body]
pub struct ExProtocolError(airmash_protocol::v5::Error);

/// What the protocol's decoder makes of the frame `bytes`, if anything.
pub uninterp spec fn decoding_of(bytes: Seq<u8>) -> Option<EventView>;

/// The bytes the protocol's encoder makes of `req`, if it can encode it.
pub uninterp spec fn encoding_of(req: RequestView) -> Option<Seq<u8>>;

/// A frame that is no well-formed server packet.
#[derive(Clone, Copy, Debug, PartialEq, Eq, Structural)]
pub struct DecodeError;

/// A request that the protocol cannot encode.
#[derive(Clone, Copy, Debug, PartialEq, Eq, Structural)]
pub struct EncodeError;

/// Relies on airmash_protocol::v5::deserialize::<ServerPacket>, a function of the
/// bytes alone; the packet is reduced to the event kinds this client tells apart.
#[verifier::external_body]
fn deserialize_event(bytes: &[u8]) -> (r: Result<InboundEvent, airmash_protocol::v5::Error>)
    ensures
        match r {
            Ok(e) => decoding_of(bytes@) == Some(e@),
            Err(_) => decoding_of(bytes@) is None,
        },
{
    match airmash_protocol::v5::deserialize::<ServerPacket>(bytes) {
        Ok(ServerPacket::Ping(p)) => Ok(InboundEvent::LivenessChallenge { token: p.num }),
        Ok(ServerPacket::ChatPublic(c)) => Ok(
            InboundEvent::BroadcastText { sender_id: c.id, text: c.text.into() },
        ),
        Ok(_) => Ok(InboundEvent::Other),
        Err(e) => Err(e),
    }
}

/// Relies on airmash_protocol::v5::serialize::<ClientPacket>, a function of the
/// packet alone; each request is the client packet of the same kind.
#[verifier::external_body]
fn serialize_request(req: OutboundRequest) -> (r: Result<Vec<u8>, airmash_protocol::v5::Error>)
    ensures
        match r {
            Ok(b) => encoding_of(req@) == Some(b@),
            Err(_) => encoding_of(req@) is None,
        },
{
    let packet = match req {
        OutboundRequest::AuthenticationRequest { protocol, name, session, horizon_x, horizon_y, flag } =>
            ClientPacket::Login(Login { protocol, name: name.into(), session: session.into(), horizon_x, horizon_y, flag: flag.into() }),
        OutboundRequest::LivenessResponse { token } => ClientPacket::Pong(Pong { num: token }),
        OutboundRequest::DirectedReply { recipient, text } => ClientPacket::Whisper(Whisper { id: recipient, text: text.into() }),
        OutboundRequest::BroadcastReply { text } => ClientPacket::Chat(Chat { text: text.into() }),
    };
    airmash_protocol::v5::serialize(&packet)
}

/// Decodes one inbound frame.
pub fn decode(bytes: &[u8]) -> (r: Result<InboundEvent, DecodeError>)
    ensures
        match r {
            Ok(e) => decoding_of(bytes@) == Some(e@),
            Err(_) => decoding_of(bytes@) is None,
        },
{
    match deserialize_event(bytes) {
        Ok(e) => Ok(e),
        Err(_) => Err(DecodeError),
    }
}

/// Encodes one outbound request.
pub fn encode(req: OutboundRequest) -> (r: Result<Vec<u8>, EncodeError>)
    ensures
        match r {
            Ok(b) => encoding_of(req@) == Some(b@),
            Err(_) => encoding_of(req@) is None,
        },
{
    match serialize_request(req) {
        Ok(b) => Ok(b),
        Err(_) => Err(EncodeError),
    }
}

} // verus!
