//! The client's side of the streaming protocol: how the events received
//! over the connection fold into the state a connected client shows —
//! the active conversation, the text streaming in, and the finished
//! replies.

use vstd::prelude::*;
use vstd::string::*;

verus! {

use crate::models::WsEvent;

/// What a client shows while it talks to the service.
pub struct ClientView {
    pub active_conversation: Option<String>,
    pub streaming_text: Option<String>,
    pub is_streaming: bool,
    pub error: Option<String>,
    pub replies: Vec<String>,
}

impl ClientView {
    /// A client that has not sent anything yet.
    pub fn new() -> (c: ClientView)
        ensures
            c.active_conversation is None,
            c.streaming_text is None,
            !c.is_streaming,
            c.error is None,
            c.replies@.len() == 0,
    {
        ClientView {
            active_conversation: None,
            streaming_text: None,
            is_streaming: false,
            error: None,
            replies: Vec::new(),
        }
    }

    /// The client sends a request: it clears the last error and starts
    /// showing an empty streaming reply.
    pub fn begin_turn(&mut self)
        ensures
            final(self).is_streaming,
            final(self).streaming_text matches Some(t) && t@.len() == 0,
            final(self).error is None,
            final(self).active_conversation == old(self).active_conversation,
            final(self).replies == old(self).replies,
    {
        self.is_streaming = true;
        self.streaming_text = Some(String::new());
        self.error = None;
    }

    /// One event arrives.  A start event fixes the conversation the turn
    /// belongs to; a chunk grows the streaming text; an end event turns
    /// the stream into a finished reply; an error ends the stream and is
    /// shown.
    pub fn apply_event(&mut self, event: &WsEvent)
        ensures
            event matches WsEvent::StreamStart { conversation_id } ==> (final(self).active_conversation == Some(*conversation_id) && final(self).streaming_text == old(self).streaming_text && final(self).is_streaming == old(self).is_streaming && final(self).error == old(self).error && final(self).replies == old(self).replies),
            event matches WsEvent::StreamChunk { content } ==> ({
                &&& old(self).streaming_text matches Some(t) ==> (
                final(self).streaming_text matches Some(t2) && t2@ == t@ + content@)
                &&& old(self).streaming_text is None ==> final(self).streaming_text is None
                &&& final(self).active_conversation == old(self).active_conversation
                &&& final(self).is_streaming == old(self).is_streaming
                &&& final(self).error == old(self).error
                &&& final(self).replies == old(self).replies
            }),
            event matches WsEvent::StreamEnd { full_content, message_id } ==> (final(self).replies@ == old(self).replies@.push(*full_content) && final(self).streaming_text
                is None && !final(self).is_streaming && final(self).error == old(self).error
                && final(self).active_conversation == old(self).active_conversation),
            event matches WsEvent::Error { message } ==> (final(self).error == Some(*message)
                && final(self).streaming_text is None && !final(self).is_streaming && final(self).replies == old(self).replies && final(self).active_conversation == old(self).active_conversation),
    {
        match event {
            WsEvent::StreamStart { conversation_id } => {
                self.active_conversation = Some(conversation_id.clone());
            },
            WsEvent::StreamChunk { content } => {
                let text = self.streaming_text.take();
                match text {
                    Some(mut t) => {
                        t.append(content.as_str());
                        self.streaming_text = Some(t);
                    },
                    None => {},
                }
            },
            WsEvent::StreamEnd { full_content, message_id: _ } => {
                self.replies.push(full_content.clone());
                self.streaming_text = None;
                self.is_streaming = false;
            },
            WsEvent::Error { message } => {
                self.error = Some(message.clone());
                self.streaming_text = None;
                self.is_streaming = false;
            },
        }
    }
}

} // verus!
