use vstd::prelude::*;
use crate::codec::{decode, decoding_of, DecodeError};
use crate::commands::{lookup, CommandTable, RuleView};
use crate::message::{opt_view, EventView, InboundEvent, OutboundRequest, RequestView};
use crate::session::{answer_liveness, closed, Session, SessionState, SessionView};

verus! {

/// What the transport hands over next.
pub enum Frame {
    /// One binary message.
    Data(Vec<u8>),
    /// The server closed the connection.
    Closed,
}

pub enum FrameView {
    Data(Seq<u8>),
    Closed,
}

impl View for Frame {
    type V = FrameView;

    open spec fn view(&self) -> FrameView {
        match self {
            Frame::Data(b) => FrameView::Data(b@),
            Frame::Closed => FrameView::Closed,
        }
    }
}

/// What the host does after one frame.
#[derive(Debug)]
pub enum Action {
    /// Send this request, then pull the next frame.
    Send(OutboundRequest),
    /// Pull the next frame.
    Wait,
    /// The connection is over; stop.
    Stop,
}

pub enum ActionView {
    Send(RequestView),
    Wait,
    Stop,
}

impl View for Action {
    type V = ActionView;

    open spec fn view(&self) -> ActionView {
        match self {
            Action::Send(r) => ActionView::Send(r@),
            Action::Wait => ActionView::Wait,
            Action::Stop => ActionView::Stop,
        }
    }
}

/// The answer owed to `event` by a session in `state` with command table `rules`.
/// Nothing is answered before the session is `Active`.
pub open spec fn response(state: SessionState, rules: Seq<RuleView>, event: EventView) -> Option<
    RequestView,
> {
    if state != SessionState::Active {
        None
    } else {
        match event {
            EventView::LivenessChallenge { token } => Some(RequestView::LivenessResponse { token }),
            EventView::BroadcastText { sender_id, text } => lookup(rules, sender_id, text),
            EventView::Other => None,
        }
    }
}

/// The action for a frame that decoded to `decoded` (`None`: it did not decode).
pub open spec fn decoded_action(
    state: SessionState,
    rules: Seq<RuleView>,
    decoded: Option<EventView>,
) -> ActionView {
    match decoded {
        Some(e) => match response(state, rules, e) {
            Some(r) => ActionView::Send(r),
            None => ActionView::Wait,
        },
        None => ActionView::Wait,
    }
}

/// The action for `frame`.
pub open spec fn frame_action(state: SessionState, rules: Seq<RuleView>, frame: FrameView) -> ActionView {
    match frame {
        FrameView::Closed => ActionView::Stop,
        FrameView::Data(b) => decoded_action(state, rules, decoding_of(b)),
    }
}

/// The requests sent, in order, while `frames` are handled one after the other
/// until the first `Closed`.
pub open spec fn sends(state: SessionState, rules: Seq<RuleView>, frames: Seq<FrameView>) -> Seq<
    RequestView,
>
    decreases frames.len(),
{
    if frames.len() == 0 {
        seq![]
    } else {
        match frame_action(state, rules, frames[0]) {
            ActionView::Stop => seq![],
            ActionView::Send(r) => seq![r] + sends(state, rules, frames.drop_first()),
            ActionView::Wait => sends(state, rules, frames.drop_first()),
        }
    }
}

/// Whether `frames` report the connection closed.
pub open spec fn has_close(frames: Seq<FrameView>) -> bool {
    exists|i: int| 0 <= i < frames.len() && frames[i] is Closed
}

/// The session and its command table, driven frame by frame.
pub struct Bot {
    pub session: Session,
    pub table: CommandTable,
}

impl Bot {
    pub fn new(session: Session, table: CommandTable) -> (r: Bot)
        ensures
            r.session@ == session@,
            r.table@ == table@,
    {
        Bot { session, table }
    }

    /// The answer owed to `event`: a liveness challenge is echoed, public chat
    /// goes to the command table, anything else is dropped.
    pub fn respond(&self, event: &InboundEvent) -> (r: Option<OutboundRequest>)
        ensures
            opt_view(r) == response(self.session@.state, self.table@, event@),
    {
        if self.session.state() != SessionState::Active {
            return None;
        }
        match event {
            InboundEvent::LivenessChallenge { token } => Some(answer_liveness(*token)),
            InboundEvent::BroadcastText { sender_id, text } => self.table.match_command(
                *sender_id,
                text.as_slice(),
            ),
            InboundEvent::Other => None,
        }
    }

    /// The action for a decoded frame; one that failed to decode is skipped.
    pub fn on_decoded(&self, decoded: Result<InboundEvent, DecodeError>) -> (r: Action)
        ensures
            r@ == decoded_action(
                self.session@.state,
                self.table@,
                match decoded {
                    Ok(e) => Some(e@),
                    Err(_) => None,
                },
            ),
    {
        match decoded {
            Ok(e) => match self.respond(&e) {
                Some(q) => Action::Send(q),
                None => Action::Wait,
            },
            Err(_) => Action::Wait,
        }
    }

    /// Handles one frame: `Closed` closes the session and stops, a data frame
    /// is decoded and answered.
    pub fn on_frame(&mut self, frame: &Frame) -> (r: Action)
        ensures
            r@ == frame_action(old(self).session@.state, old(self).table@, frame@),
            final(self).table@ == old(self).table@,
            final(self).session@ == (if frame is Closed {
                closed(old(self).session@)
            } else {
                old(self).session@
            }),
    {
        match frame {
            Frame::Closed => {
                self.session.mark_closed();
                Action::Stop
            },
            Frame::Data(b) => self.on_decoded(decode(b.as_slice())),
        }
    }

    /// Handles `frames` in order until the first `Closed`, and returns the
    /// requests to send, in order.
    pub fn run(&mut self, frames: &Vec<Frame>) -> (r: Vec<OutboundRequest>)
        ensures
            r@.map_values(|q: OutboundRequest| q@) == sends(
                old(self).session@.state,
                old(self).table@,
                frames@.map_values(|f: Frame| f@),
            ),
            final(self).table@ == old(self).table@,
            final(self).session@ == (if has_close(frames@.map_values(|f: Frame| f@)) {
                closed(old(self).session@)
            } else {
                old(self).session@
            }),
    {
        let ghost state0 = self.session@.state;
        let ghost s0 = self.session@;
        let ghost rules = self.table@;
        let ghost all = frames@.map_values(|f: Frame| f@);
        let mut out: Vec<OutboundRequest> = Vec::new();
        let mut i: usize = 0;
        let mut stopped = false;
        assert(all.subrange(0, all.len() as int) =~= all);
        assert(out@.map_values(|q: OutboundRequest| q@) + sends(state0, rules, all) =~= sends(
            state0,
            rules,
            all,
        ));
        while i < frames.len() && !stopped
            invariant
                i <= frames@.len(),
                all == frames@.map_values(|f: Frame| f@),
                state0 == s0.state,
                self.table@ == rules,
                !stopped ==> self.session@ == s0,
                !stopped ==> !has_close(all.subrange(0, i as int)),
                !stopped ==> out@.map_values(|q: OutboundRequest| q@) + sends(
                    state0,
                    rules,
                    all.subrange(i as int, all.len() as int),
                ) == sends(state0, rules, all),
                stopped ==> self.session@ == closed(s0),
                stopped ==> has_close(all),
                stopped ==> out@.map_values(|q: OutboundRequest| q@) == sends(state0, rules, all),
            decreases frames@.len() - i, if stopped { 0int } else { 1int },
        {
            let ghost rest = all.subrange(i as int, all.len() as int);
            let ghost before = out@.map_values(|q: OutboundRequest| q@);
            assert(all[i as int] == frames@[i as int]@);
            assert(rest.len() > 0 && rest[0] == all[i as int]);
            assert(rest.drop_first() =~= all.subrange(i + 1, all.len() as int));
            proof {
                if !(all[i as int] is Closed) {
                    assert forall|j: int| 0 <= j < i + 1 implies !(#[trigger] all.subrange(
                        0,
                        i + 1,
                    )[j] is Closed) by {
                        if j < i {
                            assert(all.subrange(0, i + 1)[j] == all.subrange(0, i as int)[j]);
                        }
                    }
                }
            }
            assert(self.session@.state == state0);
            let frame = &frames[i];
            assert(frame@ == rest[0]);
            let action = self.on_frame(frame);
            assert(action@ == frame_action(state0, rules, rest[0]));
            match action {
                Action::Send(q) => {
                    assert(sends(state0, rules, rest) == seq![q@] + sends(
                        state0,
                        rules,
                        rest.drop_first(),
                    ));
                    out.push(q);
                    assert(out@.map_values(|q: OutboundRequest| q@) =~= before.push(q@));
                    assert(before + sends(state0, rules, rest) =~= before.push(q@) + sends(
                        state0,
                        rules,
                        rest.drop_first(),
                    ));
                    i = i + 1;
                },
                Action::Wait => {
                    assert(sends(state0, rules, rest) == sends(state0, rules, rest.drop_first()));
                    i = i + 1;
                },
                Action::Stop => {
                    assert(all[i as int] is Closed);
                    assert(before + seq![] =~= before);
                    stopped = true;
                },
            }
        }
        if !stopped {
            assert(all.subrange(0, i as int) =~= all);
            assert(all.subrange(i as int, all.len() as int) =~= Seq::<FrameView>::empty());
            assert(out@.map_values(|q: OutboundRequest| q@) + seq![] =~= out@.map_values(
                |q: OutboundRequest| q@,
            ));
        }
        out
    }
}

/// A frame that fails to decode is skipped: the other frames are answered in
/// the same order as if it were absent, and it neither ends the run nor keeps
/// the run from ending.
pub proof fn lemma_undecodable_frame_skipped(
    state: SessionState,
    rules: Seq<RuleView>,
    frames: Seq<FrameView>,
    k: int,
)
    requires
        0 <= k < frames.len(),
        frames[k] is Data,
        decoding_of(frames[k]->Data_0) is None,
    ensures
        sends(state, rules, frames) == sends(state, rules, frames.remove(k)),
        has_close(frames) == has_close(frames.remove(k)),
    decreases k,
{
    if k == 0 {
        assert(frames.remove(0) =~= frames.drop_first());
    } else {
        lemma_undecodable_frame_skipped(state, rules, frames.drop_first(), k - 1);
        assert(frames.remove(k).drop_first() =~= frames.drop_first().remove(k - 1));
        assert(frames.remove(k)[0] == frames[0]);
    }
    let rest = frames.remove(k);
    if has_close(frames) {
        let i = choose|i: int| 0 <= i < frames.len() && frames[i] is Closed;
        if i < k {
            assert(rest[i] is Closed);
        } else {
            assert(rest[i - 1] is Closed);
        }
    }
    if has_close(rest) {
        let i = choose|i: int| 0 <= i < rest.len() && rest[i] is Closed;
        if i < k {
            assert(frames[i] is Closed);
        } else {
            assert(frames[i + 1] is Closed);
        }
    }
}

} // verus!
