use airmash_protocol::client::Pong;
use airmash_protocol::server::{ChatPublic, Ping};
use airmash_protocol::{ClientPacket, ServerPacket};
use pizzabot::codec::{decode, encode, DecodeError};
use pizzabot::commands::{CommandRule, CommandTable, ReplyRule, BOT_MSG, BOT_PING, GET_PIZZA, MESSAGE};
use pizzabot::dispatch::{Action, Bot, Frame};
use pizzabot::message::{InboundEvent, OutboundRequest, BOT_NAME, DEFAULT_FLAG};
use pizzabot::session::{answer_liveness, Session, SessionState};

fn ping_frame(num: u32) -> Frame {
    let packet = ServerPacket::Ping(Ping { clock: 1234, num });
    Frame::Data(airmash_protocol::v5::serialize(&packet).unwrap())
}

fn chat_frame(id: u16, text: &str) -> Frame {
    let packet = ServerPacket::ChatPublic(ChatPublic { id, text: text.as_bytes().to_vec().into() });
    Frame::Data(airmash_protocol::v5::serialize(&packet).unwrap())
}

fn active_bot() -> Bot {
    let mut session = Session::new(BOT_NAME.as_bytes().to_vec());
    session.begin_authentication(DEFAULT_FLAG.as_bytes().to_vec());
    Bot::new(session, CommandTable::standard())
}

fn probe_reply(recipient: u16) -> OutboundRequest {
    OutboundRequest::DirectedReply { recipient, text: BOT_MSG.as_bytes().to_vec() }
}

#[test]
fn liveness_answer_echoes_token() {
    for token in [0u32, 1, 42, 65536, u32::MAX] {
        assert_eq!(answer_liveness(token), OutboundRequest::LivenessResponse { token });
    }
}

#[test]
fn unknown_text_gets_no_reply() {
    let table = CommandTable::standard();
    for text in ["hello", "", "-BOT-PING", " -bot-ping", "-bot-ping ", "-bot-pin", "-get-pizzas"] {
        assert_eq!(table.match_command(7, text.as_bytes()), None);
    }
}

#[test]
fn probe_command_whispers_to_sender() {
    let table = CommandTable::standard();
    for sender in [0u16, 7, 1000, u16::MAX] {
        assert_eq!(table.match_command(sender, BOT_PING.as_bytes()), Some(probe_reply(sender)));
    }
}

#[test]
fn info_command_broadcasts_whoever_asks() {
    let table = CommandTable::standard();
    let expected = OutboundRequest::BroadcastReply { text: MESSAGE.as_bytes().to_vec() };
    for sender in [0u16, 7, u16::MAX] {
        assert_eq!(table.match_command(sender, GET_PIZZA.as_bytes()), Some(expected.clone()));
    }
}

#[test]
fn command_strings_are_exact() {
    assert_eq!(BOT_PING, "-bot-ping");
    assert_eq!(GET_PIZZA, "-get-pizza");
    assert_eq!(BOT_MSG, "I am PIZZABOT. Owner: Dominos");
}

#[test]
fn earlier_rule_wins_on_equal_commands() {
    let mut table = CommandTable::from_rules(vec![CommandRule {
        command: b"!x".to_vec(),
        reply: ReplyRule::Broadcast { text: b"first".to_vec() },
    }]);
    table.register(CommandRule {
        command: b"!x".to_vec(),
        reply: ReplyRule::Directed { text: b"second".to_vec() },
    });
    table.register(CommandRule {
        command: b"!y".to_vec(),
        reply: ReplyRule::Directed { text: b"third".to_vec() },
    });
    assert_eq!(
        table.match_command(3, b"!x"),
        Some(OutboundRequest::BroadcastReply { text: b"first".to_vec() })
    );
    assert_eq!(
        table.match_command(3, b"!y"),
        Some(OutboundRequest::DirectedReply { recipient: 3, text: b"third".to_vec() })
    );
}

#[test]
fn empty_table_answers_nothing() {
    let table = CommandTable::from_rules(Vec::new());
    assert_eq!(table.match_command(1, BOT_PING.as_bytes()), None);
}

#[test]
fn login_request_is_anonymous() {
    let mut session = Session::new(b"PIZZABOT".to_vec());
    assert_eq!(session.state(), SessionState::Disconnected);
    let login = session.begin_authentication(b"XX".to_vec());
    assert_eq!(
        login,
        OutboundRequest::AuthenticationRequest {
            protocol: 5,
            name: b"PIZZABOT".to_vec(),
            session: b"none".to_vec(),
            horizon_x: 1000,
            horizon_y: 1000,
            flag: b"XX".to_vec(),
        }
    );
    assert_eq!(session.state(), SessionState::Active);
    assert_eq!(session.identity(), &b"PIZZABOT".to_vec());
}

#[test]
fn mark_closed_twice_stays_closed() {
    let mut session = Session::new(b"PIZZABOT".to_vec());
    session.begin_authentication(b"XX".to_vec());
    session.mark_closed();
    assert_eq!(session.state(), SessionState::Closed);
    session.mark_closed();
    assert_eq!(session.state(), SessionState::Closed);
    assert_eq!(session.identity(), &b"PIZZABOT".to_vec());
}

#[test]
fn nothing_is_answered_before_login() {
    let bot = Bot::new(Session::new(b"PIZZABOT".to_vec()), CommandTable::standard());
    assert_eq!(bot.respond(&InboundEvent::LivenessChallenge { token: 9 }), None);
    let chat = InboundEvent::BroadcastText { sender_id: 7, text: BOT_PING.as_bytes().to_vec() };
    assert_eq!(bot.respond(&chat), None);
}

#[test]
fn other_events_are_dropped() {
    let bot = active_bot();
    assert_eq!(bot.respond(&InboundEvent::Other), None);
    assert!(matches!(bot.on_decoded(Ok(InboundEvent::Other)), Action::Wait));
    assert!(matches!(bot.on_decoded(Err(DecodeError)), Action::Wait));
}

#[test]
fn decoded_ping_is_answered() {
    let bot = active_bot();
    match bot.on_decoded(Ok(InboundEvent::LivenessChallenge { token: 77 })) {
        Action::Send(r) => assert_eq!(r, OutboundRequest::LivenessResponse { token: 77 }),
        other => panic!("unexpected action {:?}", other),
    }
}

#[test]
fn decode_reads_ping_and_chat() {
    let ping = airmash_protocol::v5::serialize(&ServerPacket::Ping(Ping { clock: 5, num: 42 })).unwrap();
    assert_eq!(decode(&ping), Ok(InboundEvent::LivenessChallenge { token: 42 }));
    let chat = ServerPacket::ChatPublic(ChatPublic { id: 7, text: b"hello".to_vec().into() });
    let bytes = airmash_protocol::v5::serialize(&chat).unwrap();
    assert_eq!(
        decode(&bytes),
        Ok(InboundEvent::BroadcastText { sender_id: 7, text: b"hello".to_vec() })
    );
}

#[test]
fn decode_rejects_garbage() {
    assert_eq!(decode(&[]), Err(DecodeError));
    assert_eq!(decode(&[0xff, 0xff, 0xff]), Err(DecodeError));
}

#[test]
fn encode_writes_pong_packet() {
    let bytes = encode(OutboundRequest::LivenessResponse { token: 42 }).unwrap();
    let expected = airmash_protocol::v5::serialize(&ClientPacket::Pong(Pong { num: 42 })).unwrap();
    assert_eq!(bytes, expected);
    assert!(!bytes.is_empty());
}

#[test]
fn closed_frame_stops_and_closes() {
    let mut bot = active_bot();
    assert!(matches!(bot.on_frame(&Frame::Closed), Action::Stop));
    assert_eq!(bot.session.state(), SessionState::Closed);
}

#[test]
fn undecodable_frame_is_skipped() {
    let mut bot = active_bot();
    let frames = vec![
        ping_frame(1),
        chat_frame(3, BOT_PING),
        Frame::Data(vec![0xff, 0x00, 0x13]),
        ping_frame(2),
        chat_frame(4, GET_PIZZA),
    ];
    let sent = bot.run(&frames);
    assert_eq!(
        sent,
        vec![
            OutboundRequest::LivenessResponse { token: 1 },
            probe_reply(3),
            OutboundRequest::LivenessResponse { token: 2 },
            OutboundRequest::BroadcastReply { text: MESSAGE.as_bytes().to_vec() },
        ]
    );
    assert_eq!(bot.session.state(), SessionState::Active);
}

#[test]
fn end_to_end_scenario() {
    let mut bot = active_bot();
    let frames = vec![
        ping_frame(42),
        chat_frame(7, "hello"),
        chat_frame(7, BOT_PING),
        Frame::Closed,
        ping_frame(43),
    ];
    let sent = bot.run(&frames);
    assert_eq!(sent, vec![OutboundRequest::LivenessResponse { token: 42 }, probe_reply(7)]);
    assert_eq!(bot.session.state(), SessionState::Closed);
}

#[test]
fn end_to_end_scenario_by_events() {
    let bot = active_bot();
    let events = vec![
        InboundEvent::LivenessChallenge { token: 42 },
        InboundEvent::BroadcastText { sender_id: 7, text: b"hello".to_vec() },
        InboundEvent::BroadcastText { sender_id: 7, text: BOT_PING.as_bytes().to_vec() },
    ];
    let sent: Vec<OutboundRequest> = events.iter().filter_map(|e| bot.respond(e)).collect();
    assert_eq!(sent, vec![OutboundRequest::LivenessResponse { token: 42 }, probe_reply(7)]);
}
