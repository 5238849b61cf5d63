//! Data model of the chat service: conversations, messages, request and
//! response shapes, and the events of the streaming wire protocol.
//!
//! Timestamps are plain integers, milliseconds since the Unix epoch;
//! identifiers are opaque strings.

use vstd::prelude::*;
use vstd::string::*;

verus! {

use crate::clock::now_millis;
use crate::ids::fresh_uuid;
use crate::text::seq_eq_ci;

/// The author of a message.
#[derive(Clone, Copy, PartialEq, Eq, Structural, Debug)]
pub enum MessageRole {
    User,
    Assistant,
    System,
}

/// The canonical wire and storage name of a role.
pub open spec fn role_name(r: MessageRole) -> Seq<char> {
    match r {
        MessageRole::User => "USER"@,
        MessageRole::Assistant => "ASSISTANT"@,
        MessageRole::System => "SYSTEM"@,
    }
}

impl MessageRole {
    /// The canonical name of this role.
    pub fn as_str(&self) -> (r: &'static str)
        ensures
            r@ == role_name(*self),
    {
        match self {
            MessageRole::User => "USER",
            MessageRole::Assistant => "ASSISTANT",
            MessageRole::System => "SYSTEM",
        }
    }

    /// Reads a role back from its stored name, ignoring ASCII case.
    /// Any other text is rejected with a message naming its uppercased
    /// form, which is how the matching saw it.
    pub fn parse(s: &str) -> (r: Result<MessageRole, String>)
        ensures
            seq_eq_ci(s@, "USER"@) ==> r == Ok::<MessageRole, String>(MessageRole::User),
            seq_eq_ci(s@, "ASSISTANT"@) ==> r == Ok::<MessageRole, String>(
                MessageRole::Assistant,
            ),
            seq_eq_ci(s@, "SYSTEM"@) ==> r == Ok::<MessageRole, String>(MessageRole::System),
            r is Ok <==> (seq_eq_ci(s@, "USER"@) || seq_eq_ci(s@, "ASSISTANT"@) || seq_eq_ci(
                s@,
                "SYSTEM"@,
            )),
            r matches Err(m) ==> m@ == "Unknown role: "@ + crate::text::upper_of(s@),
    {
        proof {
            reveal_strlit("USER");
            reveal_strlit("ASSISTANT");
            reveal_strlit("SYSTEM");
        }
        if crate::text::eq_ignore_case(s, "USER") {
            Ok(MessageRole::User)
        } else if crate::text::eq_ignore_case(s, "ASSISTANT") {
            Ok(MessageRole::Assistant)
        } else if crate::text::eq_ignore_case(s, "SYSTEM") {
            Ok(MessageRole::System)
        } else {
            let upper = crate::text::ascii_upper(s);
            Err(String::from_str("Unknown role: ").concat(upper.as_str()))
        }
    }
}

/// A conversation record: an opaque identity, a derived title, and its
/// creation and last-activity timestamps.
#[derive(Debug)]
pub struct Conversation {
    pub id: String,
    pub title: String,
    pub created_at: i64,
    pub updated_at: i64,
}

impl Conversation {
    /// A conversation created at a known instant.
    pub fn with_timestamps(id: String, title: String, now: i64) -> (c: Conversation)
        ensures
            c.id == id,
            c.title == title,
            c.created_at == now,
            c.updated_at == now,
    {
        Conversation { id, title, created_at: now, updated_at: now }
    }

    /// A conversation created now, per the wall clock.
    pub fn new(id: String, title: String) -> (c: Conversation)
        ensures
            c.id == id,
            c.title == title,
            c.updated_at == c.created_at,
    {
        let now = now_millis();
        Conversation::with_timestamps(id, title, now)
    }
}

impl Clone for Conversation {
    fn clone(&self) -> (c: Self)
        ensures
            c == *self,
    {
        Conversation {
            id: self.id.clone(),
            title: self.title.clone(),
            created_at: self.created_at,
            updated_at: self.updated_at,
        }
    }
}

/// A message record: an opaque identity, the owning conversation, the
/// author role, the text, and the creation timestamp assigned by the store.
#[derive(Debug)]
pub struct Message {
    pub id: String,
    pub conversation_id: String,
    pub role: MessageRole,
    pub content: String,
    pub created_at: i64,
}

impl Message {
    /// A message with every field given.
    pub fn with_parts(
        id: String,
        conversation_id: String,
        role: MessageRole,
        content: String,
        created_at: i64,
    ) -> (m: Message)
        ensures
            m.id == id,
            m.conversation_id == conversation_id,
            m.role == role,
            m.content == content,
            m.created_at == created_at,
    {
        Message { id, conversation_id, role, content, created_at }
    }

    /// A message with a fresh identity, timestamped from the wall clock.
    pub fn new(conversation_id: String, role: MessageRole, content: String) -> (m: Message)
        ensures
            m.conversation_id == conversation_id,
            m.role == role,
            m.content == content,
            m.id@.len() == 36,
    {
        let id = fresh_uuid();
        let now = now_millis();
        Message { id, conversation_id, role, content, created_at: now }
    }
}

impl Clone for Message {
    fn clone(&self) -> (m: Self)
        ensures
            m == *self,
    {
        Message {
            id: self.id.clone(),
            conversation_id: self.conversation_id.clone(),
            role: self.role,
            content: self.content.clone(),
            created_at: self.created_at,
        }
    }
}

/// A chat request: an optional conversation to continue, and the utterance.
#[derive(Debug)]
pub struct ChatRequest {
    pub conversation_id: Option<String>,
    pub message: String,
}

/// The reply to a synchronous chat request.
#[derive(Debug)]
pub struct ChatResponse {
    pub conversation_id: String,
    pub message: Message,
}

/// The transient state of one prepared turn: the resolved conversation,
/// the history to replay (the just-saved user message excluded), and the
/// raw utterance. Owned by a single request; never shared.
#[derive(Debug)]
pub struct ChatContext {
    pub conversation_id: String,
    pub history: Vec<Message>,
    pub user_message: String,
}

/// A chat request as it arrives over the streaming connection.
#[derive(Debug)]
pub struct WsChatRequest {
    pub message: String,
    pub conversation_id: Option<String>,
}

/// An event of the streaming wire protocol, sent to the client.
#[derive(Debug)]
pub enum WsEvent {
    StreamStart { conversation_id: String },
    StreamChunk { content: String },
    StreamEnd { full_content: String, message_id: Option<String> },
    Error { message: String },
}

impl Clone for WsEvent {
    fn clone(&self) -> (e: Self)
        ensures
            e == *self,
    {
        match self {
            WsEvent::StreamStart { conversation_id } => WsEvent::StreamStart {
                conversation_id: conversation_id.clone(),
            },
            WsEvent::StreamChunk { content } => WsEvent::StreamChunk { content: content.clone() },
            WsEvent::StreamEnd { full_content, message_id } => WsEvent::StreamEnd {
                full_content: full_content.clone(),
                message_id: match message_id {
                    Some(id) => Some(id.clone()),
                    None => None,
                },
            },
            WsEvent::Error { message } => WsEvent::Error { message: message.clone() },
        }
    }
}

/// A chat request as submitted by an HTML form, where a missing
/// conversation id arrives as the empty string.
#[derive(Debug)]
pub struct ChatForm {
    pub conversation_id: String,
    pub message: String,
}

impl ChatForm {
    /// The request this form stands for: an empty conversation id means
    /// that a fresh conversation is wanted.
    pub fn into_request(self) -> (r: ChatRequest)
        ensures
            self.conversation_id@.len() == 0 ==> r.conversation_id is None,
            self.conversation_id@.len() > 0 ==> r.conversation_id == Some(self.conversation_id),
            r.message == self.message,
    {
        let conversation_id = if self.conversation_id.as_str().unicode_len() == 0 {
            None
        } else {
            Some(self.conversation_id)
        };
        ChatRequest { conversation_id, message: self.message }
    }
}

/// A message flattened for display: the role as text.
#[derive(Debug)]
pub struct MessageView {
    pub id: String,
    pub role: String,
    pub content: String,
}

impl MessageView {
    /// The display form of a stored message.
    pub fn of_message(m: &Message) -> (v: MessageView)
        ensures
            v.id == m.id,
            v.role@ == role_name(m.role),
            v.content == m.content,
    {
        MessageView {
            id: m.id.clone(),
            role: m.role.as_str().to_owned(),
            content: m.content.clone(),
        }
    }
}

/// The data behind the chat panel of the page: the active conversation,
/// if any, and its messages ready for display.
#[derive(Debug)]
pub struct ChatPanelTemplate {
    pub has_conversation: bool,
    pub conversation_title: String,
    pub conversation_id: String,
    pub messages: Vec<MessageView>,
}

impl ChatPanelTemplate {
    /// An empty panel: no active conversation.
    pub fn empty() -> (p: ChatPanelTemplate)
        ensures
            !p.has_conversation,
            p.conversation_title@.len() == 0,
            p.conversation_id@.len() == 0,
            p.messages@.len() == 0,
    {
        ChatPanelTemplate {
            has_conversation: false,
            conversation_title: String::new(),
            conversation_id: String::new(),
            messages: Vec::new(),
        }
    }

    /// The panel for a loaded conversation: its title and identity, and
    /// its messages flattened for display, order kept.
    pub fn for_conversation(conversation: &Conversation, messages: &Vec<Message>) -> (p:
        ChatPanelTemplate)
        ensures
            p.has_conversation,
            p.conversation_title == conversation.title,
            p.conversation_id == conversation.id,
            p.messages@.len() == messages@.len(),
            forall|k: int|
                0 <= k < messages@.len() ==> ((#[trigger] p.messages@[k]).id == messages@[k].id
                    && p.messages@[k].role@ == role_name(messages@[k].role)
                    && p.messages@[k].content == messages@[k].content),
    {
        let n = messages.len();
        let mut views: Vec<MessageView> = Vec::new();
        let mut i: usize = 0;
        while i < n
            invariant
                n == messages@.len(),
                0 <= i <= n,
                views@.len() == i,
                forall|k: int|
                    0 <= k < i ==> ((#[trigger] views@[k]).id == messages@[k].id && views@[k].role@
                        == role_name(messages@[k].role) && views@[k].content
                        == messages@[k].content),
            decreases n - i,
        {
            views.push(MessageView::of_message(&messages[i]));
            i = i + 1;
        }
        ChatPanelTemplate {
            has_conversation: true,
            conversation_title: conversation.title.clone(),
            conversation_id: conversation.id.clone(),
            messages: views,
        }
    }
}

} // verus!
