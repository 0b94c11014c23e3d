use vstd::prelude::*;
use vstd::string::StringSliceAdditionalSpecFns;
use crate::message::{bytes_equal, bytes_of, opt_view, OutboundRequest, RequestView};

verus! {

/// Command that asks the bot, in a whisper, whether it is alive.
pub const BOT_PING: &'static str = "-bot-ping";

/// Command that asks for the public advertisement.
pub const GET_PIZZA: &'static str = "-get-pizza";

/// Whispered answer to `BOT_PING`.
pub const BOT_MSG: &'static str = "I am PIZZABOT. Owner: Dominos";

/// Public answer to `GET_PIZZA`.
pub const MESSAGE: &'static str =
    "Order airmash pizza here: http://tiny.cc/airmash-pizza . Use code 'Detect' for discounts.";

/// How a command is answered.
#[derive(Clone, Debug, PartialEq, Eq)]
pub enum ReplyRule {
    /// Whisper `text` to whoever said the command.
    Directed { text: Vec<u8> },
    /// Say `text` in public chat.
    Broadcast { text: Vec<u8> },
}

pub enum ReplyView {
    Directed { text: Seq<u8> },
    Broadcast { text: Seq<u8> },
}

impl View for ReplyRule {
    type V = ReplyView;

    open spec fn view(&self) -> ReplyView {
        match self {
            ReplyRule::Directed { text } => ReplyView::Directed { text: text@ },
            ReplyRule::Broadcast { text } => ReplyView::Broadcast { text: text@ },
        }
    }
}

/// One entry of a command table: an exact chat text and its answer.
#[derive(Clone, Debug, PartialEq, Eq)]
pub struct CommandRule {
    pub command: Vec<u8>,
    pub reply: ReplyRule,
}

pub struct RuleView {
    pub command: Seq<u8>,
    pub reply: ReplyView,
}

impl View for CommandRule {
    type V = RuleView;

    open spec fn view(&self) -> RuleView {
        RuleView { command: self.command@, reply: self.reply@ }
    }
}

/// The commands the bot answers, in registration order.
pub struct CommandTable {
    rules: Vec<CommandRule>,
}

impl View for CommandTable {
    type V = Seq<RuleView>;

    closed spec fn view(&self) -> Seq<RuleView> {
        self.rules@.map_values(|r: CommandRule| r@)
    }
}

/// The request that answers `reply` for player `sender`.
pub open spec fn reply_of(reply: ReplyView, sender: u16) -> RequestView {
    match reply {
        ReplyView::Directed { text } => RequestView::DirectedReply { recipient: sender, text },
        ReplyView::Broadcast { text } => RequestView::BroadcastReply { text },
    }
}

/// The answer of the first rule at index `i` or later whose command is exactly `text`.
pub open spec fn lookup_from(rules: Seq<RuleView>, sender: u16, text: Seq<u8>, i: int) -> Option<
    RequestView,
>
    decreases rules.len() - i,
{
    if i < 0 || i >= rules.len() {
        None
    } else if rules[i].command == text {
        Some(reply_of(rules[i].reply, sender))
    } else {
        lookup_from(rules, sender, text, i + 1)
    }
}

/// The answer of the first rule whose command is exactly `text`, if any.
pub open spec fn lookup(rules: Seq<RuleView>, sender: u16, text: Seq<u8>) -> Option<RequestView> {
    lookup_from(rules, sender, text, 0)
}

/// The table the bot runs with.
pub open spec fn standard_rules() -> Seq<RuleView> {
    seq![
        RuleView {
            command: BOT_PING.spec_bytes(),
            reply: ReplyView::Directed { text: BOT_MSG.spec_bytes() },
        },
        RuleView {
            command: GET_PIZZA.spec_bytes(),
            reply: ReplyView::Broadcast { text: MESSAGE.spec_bytes() },
        },
    ]
}

impl CommandTable {
    /// A table of `rules`; where two share a command, the earlier one answers.
    pub fn from_rules(rules: Vec<CommandRule>) -> (r: CommandTable)
        ensures
            r@ == rules@.map_values(|q: CommandRule| q@),
    {
        CommandTable { rules }
    }

    /// The bot's own table: `BOT_PING` whispers `BOT_MSG`, `GET_PIZZA` says `MESSAGE`.
    pub fn standard() -> (r: CommandTable)
        ensures
            r@ == standard_rules(),
    {
        let mut rules: Vec<CommandRule> = Vec::new();
        rules.push(
            CommandRule {
                command: bytes_of(BOT_PING),
                reply: ReplyRule::Directed { text: bytes_of(BOT_MSG) },
            },
        );
        rules.push(
            CommandRule {
                command: bytes_of(GET_PIZZA),
                reply: ReplyRule::Broadcast { text: bytes_of(MESSAGE) },
            },
        );
        let r = CommandTable { rules };
        assert(r@ =~= standard_rules());
        r
    }

    /// Adds `rule` after the existing ones.
    pub fn register(&mut self, rule: CommandRule)
        ensures
            final(self)@ == old(self)@.push(rule@),
    {
        self.rules.push(rule);
        assert(self@ =~= old(self)@.push(rule@));
    }

    /// The answer to player `sender_id` saying `text` in public chat: the reply
    /// of the first rule whose command equals `text` byte for byte, or nothing.
    pub fn match_command(&self, sender_id: u16, text: &[u8]) -> (r: Option<OutboundRequest>)
        ensures
            opt_view(r) == lookup(self@, sender_id, text@),
    {
        let mut i: usize = 0;
        while i < self.rules.len()
            invariant
                i <= self@.len(),
                self@.len() == self.rules@.len(),
                lookup(self@, sender_id, text@) == lookup_from(self@, sender_id, text@, i as int),
            decreases self.rules@.len() - i,
        {
            let rule = &self.rules[i];
            assert(self@[i as int] == rule@);
            if bytes_equal(rule.command.as_slice(), text) {
                let reply = match &rule.reply {
                    ReplyRule::Directed { text } => OutboundRequest::DirectedReply {
                        recipient: sender_id,
                        text: text.clone(),
                    },
                    ReplyRule::Broadcast { text } => OutboundRequest::BroadcastReply {
                        text: text.clone(),
                    },
                };
                return Some(reply);
            }
            i = i + 1;
        }
        None
    }
}

proof fn lemma_lookup_from_absent(rules: Seq<RuleView>, sender: u16, text: Seq<u8>, i: int)
    requires
        forall|j: int| 0 <= j < rules.len() ==> rules[j].command != text,
    ensures
        lookup_from(rules, sender, text, i) is None,
    decreases rules.len() - i,
{
    if 0 <= i < rules.len() {
        lemma_lookup_from_absent(rules, sender, text, i + 1);
    }
}

/// A text that is no command of the table gets no answer.
pub proof fn lemma_unknown_text_no_reply(rules: Seq<RuleView>, sender: u16, text: Seq<u8>)
    requires
        forall|j: int| 0 <= j < rules.len() ==> rules[j].command != text,
    ensures
        lookup(rules, sender, text) is None,
{
    lemma_lookup_from_absent(rules, sender, text, 0);
}

/// `BOT_PING` is answered by whispering `BOT_MSG` to whoever said it.
pub proof fn lemma_probe_reply(sender: u16)
    ensures
        lookup(standard_rules(), sender, BOT_PING.spec_bytes()) == Some(
            RequestView::DirectedReply { recipient: sender, text: BOT_MSG.spec_bytes() },
        ),
{
}

/// `GET_PIZZA` is answered by saying `MESSAGE` in public, whoever said it.
pub proof fn lemma_info_reply(sender: u16)
    ensures
        lookup(standard_rules(), sender, GET_PIZZA.spec_bytes()) == Some(
            RequestView::BroadcastReply { text: MESSAGE.spec_bytes() },
        ),
{
    reveal_strlit("-bot-ping");
    reveal_strlit("-get-pizza");
    vstd::utf8::encode_utf8_decode_utf8(BOT_PING@);
    vstd::utf8::encode_utf8_decode_utf8(GET_PIZZA@);
    assert(BOT_PING@.len() != GET_PIZZA@.len());
    assert(BOT_PING.spec_bytes() != GET_PIZZA.spec_bytes());
    assert(lookup_from(standard_rules(), sender, GET_PIZZA.spec_bytes(), 1) == Some(
        RequestView::BroadcastReply { text: MESSAGE.spec_bytes() },
    ));
}

} // verus!
