//! The streaming session: relays generated text fragments to the client
//! in arrival order, accumulates them, and finalizes the turn by
//! persisting the complete reply and emitting a terminal event.
//!
//! The generation producer and the client connection are collaborators;
//! their behaviour reaches the session as plain values (the fragments,
//! the generation outcome, and where the client disconnected), so the
//! session's decisions are verified for every behaviour of both.

use vstd::prelude::*;
use vstd::string::*;

verus! {

use crate::models::MessageRole;
use crate::models::WsEvent;
use crate::service::ChatService;
use crate::store::has_conv;
use crate::store::has_msg_id;
use crate::store::save_blocked;
use crate::store::ts_room;
use crate::store::touch_conv;

/// What the generation producer reports once its stream is exhausted.
#[derive(Debug)]
pub enum StreamOutcome {
    Completed,
    Failed(String),
}

/// The concatenation of a sequence of text fragments.
pub open spec fn concat_strs(ss: Seq<String>) -> Seq<char>
    decreases ss.len(),
{
    if ss.len() == 0 {
        Seq::<char>::empty()
    } else {
        concat_strs(ss.drop_last()) + ss.last()@
    }
}

/// One streaming reply in progress on a connection: the conversation it
/// belongs to, the text accumulated so far, and (as a ghost) the
/// fragments relayed, in order.
pub struct StreamSession {
    conversation_id: String,
    full_content: String,
    relayed: Ghost<Seq<String>>,
}

impl StreamSession {
    /// The conversation this session streams for.
    pub closed spec fn conversation(&self) -> Seq<char> {
        self.conversation_id@
    }

    /// The fragments relayed to the client so far, in order.
    pub closed spec fn fragments(&self) -> Seq<String> {
        self.relayed@
    }

    /// The text accumulated so far.
    pub closed spec fn accumulated(&self) -> Seq<char> {
        self.full_content@
    }

    /// The session's invariant: what was accumulated is exactly the
    /// concatenation of the fragments relayed, in order.
    pub open spec fn inv(&self) -> bool {
        self.accumulated() == concat_strs(self.fragments())
    }

    /// Opens the streaming phase of a turn: the session, and the start
    /// event telling the client which conversation the turn belongs to.
    pub fn start(conversation_id: String) -> (r: (StreamSession, WsEvent))
        ensures
            r.0.inv(),
            r.0.fragments() == Seq::<String>::empty(),
            r.0.conversation() == conversation_id@,
            r.1 matches WsEvent::StreamStart { conversation_id: c } && c@ == conversation_id@,
    {
        let event = WsEvent::StreamStart { conversation_id: conversation_id.clone() };
        let session = StreamSession {
            conversation_id,
            full_content: String::new(),
            relayed: Ghost(Seq::empty()),
        };
        (session, event)
    }

    /// Takes one fragment from the producer: appends it to the
    /// accumulator and hands back the chunk event to send, preserving
    /// arrival order one to one.
    pub fn on_fragment(&mut self, fragment: &String) -> (ev: WsEvent)
        requires
            old(self).inv(),
        ensures
            final(self).inv(),
            final(self).conversation() == old(self).conversation(),
            final(self).fragments() == old(self).fragments().push(*fragment),
            final(self).accumulated() == old(self).accumulated() + fragment@,
            ev matches WsEvent::StreamChunk { content } && content == *fragment,
    {
        self.full_content.append(fragment.as_str());
        proof {
            self.relayed@ = self.relayed@.push(*fragment);
            assert(self.relayed@.drop_last() =~= old(self).fragments());
        }
        WsEvent::StreamChunk { content: fragment.clone() }
    }

    /// Gives up the session and hands out the accumulated text, for a
    /// caller that persists it through its own store.
    pub fn into_full_text(self) -> (r: String)
        ensures
            r@ == self.accumulated(),
    {
        self.full_content
    }

    /// Ends a turn whose generation failed: the error event to send.
    /// The session takes no store, so nothing can be persisted.
    pub fn finish_failure(self, message: String) -> (ev: WsEvent)
        ensures
            ev matches WsEvent::Error { message: m } && m == message,
    {
        WsEvent::Error { message }
    }

    /// Ends a turn whose generation completed: persists the accumulated
    /// reply and bumps the conversation's recency.  On persistence
    /// success the end event carries the full text and the new message's
    /// identity; a persistence failure is reported as an error event,
    /// not swallowed — the text reached the client but is not durable.
    pub fn finish_success(self, svc: &mut ChatService, message_id: String, now: i64) -> (ev:
        WsEvent)
        requires
            old(svc).wf(),
        ensures
            final(svc).wf(),
            has_conv(old(svc).convs(), self.conversation()) && !save_blocked(
                old(svc).msgs(),
                self.conversation(),
                message_id@,
            ) ==> ({
                let m = final(svc).msgs().last();
                &&& ev matches WsEvent::StreamEnd { full_content, message_id: mid }
                    && full_content@ == self.accumulated() && (mid matches Some(i) && i@
                    == message_id@)
                &&& final(svc).msgs() == old(svc).msgs().push(m)
                &&& m.role == MessageRole::Assistant
                &&& m.content@ == self.accumulated()
                &&& m.conversation_id@ == self.conversation()
                &&& m.id@ == message_id@
                &&& final(svc).convs() == touch_conv(old(svc).convs(), self.conversation(), now)
            }),
            !(has_conv(old(svc).convs(), self.conversation()) && !save_blocked(
                old(svc).msgs(),
                self.conversation(),
                message_id@,
            )) ==> (*final(svc) == *old(svc) && ev is Error),
            !has_conv(old(svc).convs(), self.conversation()) || has_msg_id(
                old(svc).msgs(),
                message_id@,
            ) ==> (ev matches WsEvent::Error { message } && message@
                == "Failed to save response: "@ + "Database query failed: "@
                + "Failed to save message"@),
            has_conv(old(svc).convs(), self.conversation()) && !has_msg_id(
                old(svc).msgs(),
                message_id@,
            ) && !ts_room(old(svc).msgs(), self.conversation()) ==> (
            ev matches WsEvent::Error { message } && message@ == "Failed to save response: "@
                + "Unexpected error: "@ + "timestamp range exhausted"@),
    {
        match svc.save_assistant_message_at(
            self.conversation_id.as_str(),
            self.full_content.as_str(),
            message_id,
            now,
        ) {
            Ok(m) => WsEvent::StreamEnd {
                full_content: self.full_content,
                message_id: Some(m.id),
            },
            Err(e) => {
                let mut text = String::from_str("Failed to save response: ");
                let described = e.describe();
                text.append(described.as_str());
                WsEvent::Error { message: text }
            },
        }
    }
}

/// How many chunk events the client sees of `total` fragments: all of
/// them, or only those relayed before it disconnected.
pub open spec fn delivered_count(total: nat, disconnect_after: Option<usize>) -> int {
    match disconnect_after {
        Some(k) => k as int,
        None => total as int,
    }
}

/// One whole streaming turn, after preparation: the start event, one
/// chunk event per fragment in generation order, and a terminal event.
///
/// The producer's behaviour is given by `fragments` and `outcome`;
/// `disconnect_after` tells after how many relayed chunks the client
/// disconnected mid-stream, if it did.  On success the accumulated reply
/// is persisted; after a generation failure or a disconnect nothing is,
/// and after a disconnect no further event is produced at all.
pub fn run_stream_turn(
    svc: &mut ChatService,
    conversation_id: &str,
    fragments: &Vec<String>,
    outcome: StreamOutcome,
    disconnect_after: Option<usize>,
    message_id: String,
    now: i64,
) -> (events: Vec<WsEvent>)
    requires
        old(svc).wf(),
        disconnect_after matches Some(k) ==> k < fragments@.len(),
    ensures
        final(svc).wf(),
        events@.len() >= 1,
        events@[0] matches WsEvent::StreamStart { conversation_id: c } && c@ == conversation_id@,
        forall|p: int|
            0 <= p < delivered_count(fragments@.len(), disconnect_after) ==> ((
            #[trigger] events@[1 + p]) matches WsEvent::StreamChunk { content } && content
                == fragments@[p]),
        disconnect_after matches Some(k) ==> (*final(svc) == *old(svc) && events@.len() == 1 + k),
        disconnect_after is None ==> (outcome matches StreamOutcome::Failed(m) ==> (*final(svc)
            == *old(svc) && events@.len() == 2 + fragments@.len() && (
        events@.last() matches WsEvent::Error { message } && message == m))),
        disconnect_after is None && outcome is Completed && has_conv(
            old(svc).convs(),
            conversation_id@,
        ) && !save_blocked(old(svc).msgs(), conversation_id@, message_id@) ==> ({
            let m = final(svc).msgs().last();
            &&& events@.len() == 2 + fragments@.len()
            &&& events@.last() matches WsEvent::StreamEnd { full_content, message_id: mid }
                && full_content@ == concat_strs(fragments@) && (mid matches Some(i) && i@
                == message_id@)
            &&& final(svc).msgs() == old(svc).msgs().push(m)
            &&& m.role == MessageRole::Assistant
            &&& m.content@ == concat_strs(fragments@)
            &&& m.conversation_id@ == conversation_id@
            &&& m.id@ == message_id@
            &&& final(svc).convs() == touch_conv(old(svc).convs(), conversation_id@, now)
        }),
        disconnect_after is None && outcome is Completed && !(has_conv(
            old(svc).convs(),
            conversation_id@,
        ) && !save_blocked(old(svc).msgs(), conversation_id@, message_id@)) ==> (*final(svc)
            == *old(svc) && events@.len() == 2 + fragments@.len() && events@.last() is Error),
        disconnect_after is None && outcome is Completed && (!has_conv(
            old(svc).convs(),
            conversation_id@,
        ) || has_msg_id(old(svc).msgs(), message_id@)) ==> (
        events@.last() matches WsEvent::Error { message } && message@
            == "Failed to save response: "@ + "Database query failed: "@
            + "Failed to save message"@),
        disconnect_after is None && outcome is Completed && has_conv(
            old(svc).convs(),
            conversation_id@,
        ) && !has_msg_id(old(svc).msgs(), message_id@) && !ts_room(
            old(svc).msgs(),
            conversation_id@,
        ) ==> (events@.last() matches WsEvent::Error { message } && message@
            == "Failed to save response: "@ + "Unexpected error: "@
            + "timestamp range exhausted"@),
{
    let (mut session, start_event) = StreamSession::start(conversation_id.to_owned());
    let mut events: Vec<WsEvent> = Vec::new();
    events.push(start_event);
    let limit = match disconnect_after {
        Some(k) => k,
        None => fragments.len(),
    };
    let mut i: usize = 0;
    while i < limit
        invariant
            session.inv(),
            session.conversation() == conversation_id@,
            limit <= fragments@.len(),
            0 <= i <= limit,
            session.fragments() == fragments@.subrange(0, i as int),
            events@.len() == 1 + i,
            events@[0] matches WsEvent::StreamStart { conversation_id: c } && c@
                == conversation_id@,
            forall|p: int|
                0 <= p < i ==> ((#[trigger] events@[1 + p]) matches WsEvent::StreamChunk {
                    content,
                } && content == fragments@[p]),
            *svc == *old(svc),
            old(svc).wf(),
        decreases limit - i,
    {
        let ev = session.on_fragment(&fragments[i]);
        events.push(ev);
        proof {
            assert(session.fragments() =~= fragments@.subrange(0, i + 1));
        }
        i = i + 1;
    }
    if disconnect_after.is_some() {
        return events;
    }
    proof {
        assert(fragments@.subrange(0, fragments@.len() as int) =~= fragments@);
    }
    match outcome {
        StreamOutcome::Failed(m) => {
            let ev = session.finish_failure(m);
            events.push(ev);
        },
        StreamOutcome::Completed => {
            let ev = session.finish_success(svc, message_id, now);
            events.push(ev);
        },
    }
    events
}

} // verus!
