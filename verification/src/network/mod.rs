//! The connection side: one session per viewer. A session carries frames
//! out and control messages both ways over one connection. Whoever owns
//! the connection reads and writes it; the session decides what is to be
//! written and what a message read means.

pub mod wire;

use crate::hub::{attached, slot_of, without, BroadcastHub, SubscriberHandle, SubscriberView};
use crate::hub::{lemma_slot_of, lemma_update_keeps_slots};
use crate::input::TouchEvent;
use crate::network::wire::{decode, decoded, encode_pong, pong_text, Inbound};
use std::collections::VecDeque;
use vstd::prelude::*;

verus! {

/// Frames are taken from the hub only while fewer messages than this wait
/// to be written.
pub const OUTBOUND_CAPACITY: usize = 100;

/// Where a session is in its life.
#[derive(Debug, Clone, Copy, PartialEq, Eq, Structural)]
pub enum SessionState {
    /// The connection is being set up.
    Handshaking,
    /// Frames go out and messages come in.
    Streaming,
    /// The connection failed or ended: nothing new is started.
    Closing,
    /// Everything is released.
    Closed,
}

/// Why a session ends.
#[derive(Debug, Clone, Copy, PartialEq, Eq, Structural)]
pub enum Failure {
    /// A message could not be written.
    SendFailed,
    /// Reading from the viewer failed.
    ReadFailed,
    /// The viewer closed the connection.
    PeerClosed,
    /// The process shuts down.
    Shutdown,
}

/// One message to write to the viewer.
#[derive(Debug)]
pub enum Message {
    /// A frame's payload, as it is.
    Binary(Vec<u8>),
    /// A control envelope.
    Text(String),
}

/// A message by its content.
pub enum MessageView {
    Binary(Seq<u8>),
    Text(Seq<char>),
}

impl View for Message {
    type V = MessageView;

    open spec fn view(&self) -> MessageView {
        match self {
            Message::Binary(bytes) => MessageView::Binary(bytes@),
            Message::Text(text) => MessageView::Text(text@),
        }
    }
}

/// The state after a failure: a session that is being set up or is
/// streaming starts to close; one that closes or is closed stays so.
pub open spec fn after_failure(state: SessionState) -> SessionState {
    match state {
        SessionState::Handshaking => SessionState::Closing,
        SessionState::Streaming => SessionState::Closing,
        other => other,
    }
}

/// How many more messages may wait to be written when `waiting` do.
pub open spec fn room(waiting: nat) -> nat {
    if waiting < OUTBOUND_CAPACITY {
        (OUTBOUND_CAPACITY - waiting) as nat
    } else {
        0
    }
}

/// The smaller of two counts.
pub open spec fn least(a: nat, b: nat) -> nat {
    if a <= b {
        a
    } else {
        b
    }
}

/// The first `count` of `frames` as binary messages, in order.
pub open spec fn as_messages(frames: Seq<crate::frame::EncodedFrameView>, count: nat) -> Seq<
    MessageView,
> {
    Seq::new(count, |i: int| MessageView::Binary(frames[i].payload))
}

/// The session of one connection.
#[derive(Debug)]
pub struct WebSocketServer {
    state: SessionState,
    handle: Option<SubscriberHandle>,
    outbound: VecDeque<Message>,
}

impl WebSocketServer {
    /// Where the session is in its life.
    pub closed spec fn spec_state(&self) -> SessionState {
        self.state
    }

    /// The session's handle at the hub, while it has one.
    pub closed spec fn spec_handle(&self) -> Option<SubscriberHandle> {
        self.handle
    }

    /// The messages that wait to be written, first to go first.
    pub closed spec fn queued(&self) -> Seq<MessageView> {
        Seq::new(self.outbound@.len(), |i: int| self.outbound@[i]@)
    }

    /// The session's invariant: it has a handle exactly from the start of
    /// streaming until it is released, and nothing waits before the one or
    /// after the other.
    pub open spec fn wf(&self) -> bool {
        &&& self.spec_state() == SessionState::Handshaking ==> self.spec_handle() is None
            && self.queued().len() == 0
        &&& self.spec_state() == SessionState::Streaming ==> self.spec_handle() is Some
        &&& self.spec_state() == SessionState::Closed ==> self.spec_handle() is None
            && self.queued().len() == 0
    }

    /// A session whose connection is being set up.
    pub fn new() -> (session: WebSocketServer)
        ensures
            session.wf(),
            session.spec_state() == SessionState::Handshaking,
            session.spec_handle() is None,
            session.queued() == Seq::<MessageView>::empty(),
    {
        let session = WebSocketServer {
            state: SessionState::Handshaking,
            handle: None,
            outbound: VecDeque::new(),
        };
        assert(session.queued() =~= Seq::<MessageView>::empty());
        session
    }

    /// Where the session is in its life.
    pub fn state(&self) -> (state: SessionState)
        ensures
            state == self.spec_state(),
    {
        self.state
    }

    /// The session's handle at the hub, while it has one.
    pub fn handle(&self) -> (handle: Option<SubscriberHandle>)
        ensures
            handle == self.spec_handle(),
    {
        self.handle
    }

    /// The number of messages that wait to be written.
    pub fn queued_len(&self) -> (count: usize)
        ensures
            count == self.queued().len(),
    {
        self.outbound.len()
    }

    /// Starts streaming once the connection is set up: attaches to `hub`
    /// as a new viewer. Does nothing, and says so, unless the session is
    /// `Handshaking` and the hub can take another viewer.
    pub fn open(&mut self, hub: &mut BroadcastHub) -> (opened: bool)
        requires
            old(self).wf(),
            old(hub).wf(),
        ensures
            final(self).wf(),
            final(hub).wf(),
            final(hub).spec_capacity() == old(hub).spec_capacity(),
            final(self).queued() == old(self).queued(),
            opened <==> old(self).spec_state() == SessionState::Handshaking && old(hub).has_free_handle(),
            opened ==> {
                &&& final(self).spec_state() == SessionState::Streaming
                &&& final(self).spec_handle() matches Some(h)
                &&& h@ == old(hub).handles_given()
                &&& final(hub).handles_given() == old(hub).handles_given() + 1
                &&& !attached(old(hub)@, h@)
                &&& final(hub)@ == old(hub)@.push(
                    SubscriberView { id: h@, pending: Seq::empty(), lag: 0 },
                )
            },
            !opened ==> {
                &&& final(self).spec_state() == old(self).spec_state()
                &&& final(self).spec_handle() == old(self).spec_handle()
                &&& final(hub)@ == old(hub)@
                &&& final(hub).handles_given() == old(hub).handles_given()
            },
    {
        if self.state != SessionState::Handshaking || !hub.can_attach() {
            return false;
        }
        let handle = hub.attach();
        self.handle = Some(handle);
        self.state = SessionState::Streaming;
        true
    }

    /// Takes what a message from the viewer asked for. Only a streaming
    /// session acts on it. A probe is answered at once: exactly one reply
    /// with the probe's timestamp joins the messages to write, whatever
    /// waits there already. A pointer event is handed back to be routed.
    /// Anything else changes nothing. The state never changes.
    pub fn on_inbound(&mut self, inbound: Inbound) -> (event: Option<TouchEvent>)
        requires
            old(self).wf(),
        ensures
            final(self).wf(),
            final(self).spec_state() == old(self).spec_state(),
            final(self).spec_handle() == old(self).spec_handle(),
            old(self).spec_state() != SessionState::Streaming ==> event is None && final(self).queued() == old(self).queued(),
            old(self).spec_state() == SessionState::Streaming ==> match inbound {
                Inbound::Ping { timestamp } => {
                    &&& event is None
                    &&& final(self).queued() == old(self).queued().push(
                        MessageView::Text(pong_text(timestamp as int)),
                    )
                },
                Inbound::Input(e) => {
                    &&& event == Some(e)
                    &&& final(self).queued() == old(self).queued()
                },
                Inbound::Ignored => {
                    &&& event is None
                    &&& final(self).queued() == old(self).queued()
                },
            },
    {
        if self.state != SessionState::Streaming {
            return None;
        }
        match inbound {
            Inbound::Ping { timestamp } => {
                let reply = Message::Text(encode_pong(timestamp));
                self.outbound.push_back(reply);
                assert(self.queued() =~= old(self).queued().push(
                    MessageView::Text(pong_text(timestamp as int)),
                ));
                None
            },
            Inbound::Input(e) => Some(e),
            Inbound::Ignored => None,
        }
    }

    /// Takes a text message from the viewer: reads it as an envelope and
    /// acts on what it asks for. A malformed message is ignored and the
    /// session goes on.
    pub fn on_text(&mut self, text: &str) -> (event: Option<TouchEvent>)
        requires
            old(self).wf(),
        ensures
            final(self).wf(),
            final(self).spec_state() == old(self).spec_state(),
            final(self).spec_handle() == old(self).spec_handle(),
            old(self).spec_state() != SessionState::Streaming ==> event is None && final(self).queued() == old(self).queued(),
            old(self).spec_state() == SessionState::Streaming ==> match decoded(text@) {
                Inbound::Ping { timestamp } => {
                    &&& event is None
                    &&& final(self).queued() == old(self).queued().push(
                        MessageView::Text(pong_text(timestamp as int)),
                    )
                },
                Inbound::Input(e) => {
                    &&& event == Some(e)
                    &&& final(self).queued() == old(self).queued()
                },
                Inbound::Ignored => {
                    &&& event is None
                    &&& final(self).queued() == old(self).queued()
                },
            },
    {
        if self.state != SessionState::Streaming {
            return None;
        }
        let inbound = decode(text);
        self.on_inbound(inbound)
    }

    /// Moves the frames that wait at `hub` for this session to the
    /// messages to write, oldest first, as long as there is room. Only a
    /// streaming session moves any. Says how many were moved.
    pub fn forward_frames(&mut self, hub: &mut BroadcastHub) -> (moved: usize)
        requires
            old(self).wf(),
            old(hub).wf(),
        ensures
            final(self).wf(),
            final(hub).wf(),
            final(hub).spec_capacity() == old(hub).spec_capacity(),
            final(hub).handles_given() == old(hub).handles_given(),
            final(self).spec_state() == old(self).spec_state(),
            final(self).spec_handle() == old(self).spec_handle(),
            ({
                let subs = old(hub)@;
                if old(self).spec_state() == SessionState::Streaming && attached(
                    subs,
                    old(self).spec_handle().unwrap()@,
                ) {
                    let at = slot_of(subs, old(self).spec_handle().unwrap()@);
                    let sub = subs[at];
                    let count = least(sub.pending.len(), room(old(self).queued().len()));
                    &&& moved == count
                    &&& final(hub)@ == subs.update(
                        at,
                        SubscriberView {
                            id: sub.id,
                            pending: sub.pending.skip(count as int),
                            lag: sub.lag,
                        },
                    )
                    &&& final(self).queued() == old(self).queued() + as_messages(
                        sub.pending,
                        count,
                    )
                } else {
                    &&& moved == 0
                    &&& final(hub)@ == subs
                    &&& final(self).queued() == old(self).queued()
                }
            }),
    {
        if self.state != SessionState::Streaming {
            return 0;
        }
        let handle = match self.handle {
            Some(h) => h,
            None => {
                return 0;
            },
        };
        let ghost subs = hub@;
        let ghost at = slot_of(subs, handle@);
        let ghost was = self.queued();
        proof {
            lemma_slot_of(subs, handle@);
        }
        if !hub.is_attached(handle) {
            return 0;
        }
        let ghost sub = subs[at];
        let mut moved: usize = 0;
        let mut more: bool = true;
        proof {
            assert(sub.pending.skip(0) =~= sub.pending);
            assert(subs.update(at, sub) =~= subs);
            assert(was + as_messages(sub.pending, 0) =~= was);
        }
        while more && self.outbound.len() < OUTBOUND_CAPACITY
            invariant
                hub.wf(),
                hub.spec_capacity() == old(hub).spec_capacity(),
                hub.handles_given() == old(hub).handles_given(),
                self.state == SessionState::Streaming,
                self.handle == Some(handle),
                subs == old(hub)@,
                was == old(self).queued(),
                0 <= at < subs.len(),
                at == slot_of(subs, handle@),
                sub == subs[at],
                sub.id == handle@,
                moved <= sub.pending.len(),
                moved <= room(was.len()),
                self.outbound@.len() == was.len() + moved,
                hub@ == subs.update(
                    at,
                    SubscriberView {
                        id: sub.id,
                        pending: sub.pending.skip(moved as int),
                        lag: sub.lag,
                    },
                ),
                self.queued() == was + as_messages(sub.pending, moved as nat),
                !more ==> moved == sub.pending.len(),
            decreases
                    (if more { 1int } else { 0int }) + OUTBOUND_CAPACITY - self.outbound@.len(),
        {
            let ghost now = hub@;
            let ghost held = SubscriberView {
                id: sub.id,
                pending: sub.pending.skip(moved as int),
                lag: sub.lag,
            };
            proof {
                lemma_update_keeps_slots(subs, at, held, handle@);
            }
            match hub.next_frame(handle) {
                Some(frame) => {
                    let ghost content = frame@;
                    let ghost before = self.queued();
                    self.outbound.push_back(Message::Binary(frame.into_payload()));
                    proof {
                        assert(content == sub.pending[moved as int]);
                        assert(self.queued() =~= before.push(MessageView::Binary(content.payload)));
                        assert(held.pending.drop_first() =~= sub.pending.skip(moved + 1));
                        assert(hub@ =~= subs.update(
                            at,
                            SubscriberView {
                                id: sub.id,
                                pending: sub.pending.skip(moved + 1),
                                lag: sub.lag,
                            },
                        ));
                        assert(self.queued() =~= was + as_messages(
                            sub.pending,
                            (moved + 1) as nat,
                        ));
                    }
                    moved = moved + 1;
                },
                None => {
                    more = false;
                },
            }
        }
        moved
    }

    /// Takes the next message to write, if the session is streaming and
    /// one waits. Messages leave in the order in which they came, frames
    /// and replies alike.
    pub fn next_outbound(&mut self) -> (message: Option<Message>)
        requires
            old(self).wf(),
        ensures
            final(self).wf(),
            final(self).spec_state() == old(self).spec_state(),
            final(self).spec_handle() == old(self).spec_handle(),
            message is Some <==> old(self).spec_state() == SessionState::Streaming && old(self).queued().len() > 0,
            message matches Some(m) ==> m@ == old(self).queued()[0] && final(self).queued() == old(self).queued().drop_first(),
            message is None ==> final(self).queued() == old(self).queued(),
    {
        if self.state != SessionState::Streaming {
            return None;
        }
        let message = self.outbound.pop_front();
        proof {
            if message is Some {
                assert(self.queued() =~= old(self).queued().drop_first());
            } else {
                assert(self.queued() =~= old(self).queued());
            }
        }
        message
    }

    /// Takes the news that the connection failed or ended, or that the
    /// process shuts down: a session that is being set up or is streaming
    /// starts to close. From then on it takes no message and gives none.
    pub fn on_failure(&mut self, cause: Failure)
        requires
            old(self).wf(),
        ensures
            final(self).wf(),
            final(self).spec_state() == after_failure(old(self).spec_state()),
            final(self).spec_handle() == old(self).spec_handle(),
            final(self).queued() == old(self).queued(),
    {
        match self.state {
            SessionState::Handshaking => {
                self.state = SessionState::Closing;
            },
            SessionState::Streaming => {
                self.state = SessionState::Closing;
            },
            _ => {},
        }
    }

    /// Ends a closing session: detaches it from `hub`, drops what still
    /// waited to be written, and leaves it `Closed`. The hub's other
    /// viewers are untouched. A session that is not closing is left as it
    /// is.
    pub fn release(&mut self, hub: &mut BroadcastHub)
        requires
            old(self).wf(),
            old(hub).wf(),
        ensures
            final(self).wf(),
            final(hub).wf(),
            final(hub).spec_capacity() == old(hub).spec_capacity(),
            final(hub).handles_given() == old(hub).handles_given(),
            old(self).spec_state() == SessionState::Closing ==> {
                &&& final(self).spec_state() == SessionState::Closed
                &&& final(self).spec_handle() is None
                &&& final(self).queued() == Seq::<MessageView>::empty()
                &&& final(hub)@ == match old(self).spec_handle() {
                    Some(h) => without(old(hub)@, h@),
                    None => old(hub)@,
                }
            },
            old(self).spec_state() != SessionState::Closing ==> {
                &&& final(self).spec_state() == old(self).spec_state()
                &&& final(self).spec_handle() == old(self).spec_handle()
                &&& final(self).queued() == old(self).queued()
                &&& final(hub)@ == old(hub)@
            },
    {
        if self.state != SessionState::Closing {
            return;
        }
        match self.handle {
            Some(h) => {
                hub.detach(h);
            },
            None => {},
        }
        self.handle = None;
        self.outbound.clear();
        self.state = SessionState::Closed;
        assert(self.queued() =~= Seq::<MessageView>::empty());
    }
}

} // verus!
