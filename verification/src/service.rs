//! The chat orchestrator: validates a request, resolves or creates the
//! conversation, persists the user turn, replays history, and persists
//! the assistant reply.  Inference itself is a collaborator: its outcome
//! reaches these functions as a plain value, so every decision around it
//! is verified for every outcome.

use vstd::prelude::*;
use vstd::string::*;

verus! {

use crate::MAX_MESSAGE_LENGTH;
use crate::clock::now_millis;
use crate::errors::AppError;
use crate::ids::fresh_uuid;
use crate::models::ChatContext;
use crate::models::ChatRequest;
use crate::models::ChatResponse;
use crate::models::Conversation;
use crate::models::Message;
use crate::models::MessageRole;
use crate::store::ChatStore;
use crate::store::assigned_ts;
use crate::store::has_conv;
use crate::store::has_msg_id;
use crate::store::lemma_find_conv_has;
use crate::store::lemma_has_msg_id_push;
use crate::store::lemma_history_after_save;
use crate::store::lemma_max_ts_ge;
use crate::store::lemma_max_ts_push;
use crate::store::msgs_of;
use crate::store::msgs_ordered;
use crate::store::save_blocked;
use crate::store::touch_conv;
use crate::store::ts_room;
use crate::store::unique_conv_ids;
use crate::store::unique_msg_ids;
use crate::store::without_id;
use crate::text::title_of;
use crate::text::trimmed;

/// The utterance passes validation: non-empty once trimmed, and at most
/// `MAX_MESSAGE_LENGTH` characters before trimming.
pub open spec fn utterance_valid(msg: Seq<char>) -> bool {
    trimmed(msg).len() != 0 && msg.len() <= MAX_MESSAGE_LENGTH
}

/// The conversation identity a request resolves to: the one it names, or
/// the freshly generated one when it names none.
pub open spec fn resolved_id(requested: Option<String>, fresh: Seq<char>) -> Seq<char> {
    match requested {
        Some(id) => id@,
        None => fresh,
    }
}

/// Validates an utterance: it must be non-empty after trimming (else the
/// field is reported empty) and at most `MAX_MESSAGE_LENGTH` characters
/// (else the limit and the actual length are reported).
pub fn validate_utterance(message: &str) -> (r: Result<(), AppError>)
    ensures
        r is Ok <==> utterance_valid(message@),
        trimmed(message@).len() == 0 ==> (r matches Err(AppError::EmptyField { field_name })
            && field_name@ == "message"@),
        trimmed(message@).len() != 0 && message@.len() > MAX_MESSAGE_LENGTH ==> (r matches Err(
            AppError::FieldTooLong { field_name, max_length, actual_length },
        ) && field_name@ == "message"@ && max_length == MAX_MESSAGE_LENGTH && actual_length
            == message@.len()),
{
    let trimmed_msg = crate::text::trim_str(message);
    if trimmed_msg.as_str().unicode_len() == 0 {
        return Err(AppError::EmptyField { field_name: String::from_str("message") });
    }
    let msg_len = message.unicode_len();
    if msg_len > MAX_MESSAGE_LENGTH {
        return Err(
            AppError::FieldTooLong {
                field_name: String::from_str("message"),
                max_length: MAX_MESSAGE_LENGTH,
                actual_length: msg_len,
            },
        );
    }
    Ok(())
}

/// The messages with identity other than `id`, in their given order.
pub fn filter_out_id(messages: Vec<Message>, id: &str) -> (r: Vec<Message>)
    ensures
        r@ == without_id(messages@, id@),
{
    let id_o = id.to_owned();
    let n = messages.len();
    let mut out: Vec<Message> = Vec::new();
    let mut i: usize = 0;
    while i < n
        invariant
            id_o@ == id@,
            n == messages@.len(),
            0 <= i <= n,
            out@ == without_id(messages@.subrange(0, i as int), id@),
        decreases n - i,
    {
        proof {
            assert(messages@.subrange(0, i + 1).drop_last() =~= messages@.subrange(0, i as int));
            assert(messages@.subrange(0, i + 1).last() == messages@[i as int]);
        }
        if !(messages[i].id == id_o) {
            out.push(messages[i].clone());
        }
        i = i + 1;
    }
    proof {
        assert(messages@.subrange(0, n as int) =~= messages@);
    }
    out
}

/// The orchestrator, owning the store it reads and writes.
pub struct ChatService {
    store: ChatStore,
}

impl ChatService {
    /// The conversation records of the underlying store.
    pub closed spec fn convs(&self) -> Seq<Conversation> {
        self.store.convs()
    }

    /// The message log of the underlying store.
    pub closed spec fn msgs(&self) -> Seq<Message> {
        self.store.msgs()
    }

    /// The service's invariant: the store's own.
    pub open spec fn wf(&self) -> bool {
        &&& unique_conv_ids(self.convs())
        &&& unique_msg_ids(self.msgs())
        &&& forall|i: int|
            0 <= i < self.msgs().len() ==> has_conv(
                self.convs(),
                #[trigger] self.msgs()[i].conversation_id@,
            )
        &&& msgs_ordered(self.msgs())
    }

    /// A service over the given store.
    pub fn new(store: ChatStore) -> (s: ChatService)
        requires
            store.wf(),
        ensures
            s.wf(),
            s.convs() == store.convs(),
            s.msgs() == store.msgs(),
    {
        ChatService { store }
    }

    /// All conversations, most recently active first.
    pub fn get_conversations(&self) -> (r: Vec<Conversation>)
        ensures
            r@.to_multiset() == self.convs().to_multiset(),
            forall|i: int, j: int|
                0 <= i < j < r@.len() ==> r@[i].updated_at >= r@[j].updated_at,
    {
        self.store.find_all()
    }

    /// The messages of an existing conversation, in persistence order;
    /// an unknown conversation is reported as not found.
    pub fn get_messages(&self, conversation_id: &str) -> (r: Result<Vec<Message>, AppError>)
        ensures
            r is Ok <==> has_conv(self.convs(), conversation_id@),
            r matches Ok(ms) ==> ms@ == msgs_of(self.msgs(), conversation_id@),
            r matches Err(e) ==> (e matches AppError::ConversationNotFound { id } && id@
                == conversation_id@),
    {
        proof {
            lemma_find_conv_has(self.convs(), conversation_id@);
        }
        match self.store.find_by_id(conversation_id) {
            None => Err(AppError::ConversationNotFound { id: conversation_id.to_owned() }),
            Some(_) => Ok(self.store.find_by_conversation_id(conversation_id)),
        }
    }

    /// Validates the request, resolves or creates the conversation,
    /// persists the user message, and returns the context for the turn,
    /// with the identities and the clock reading passed in.
    ///
    /// An utterance empty after trimming, or longer than the limit, is
    /// rejected and nothing is persisted.  Otherwise exactly one user
    /// message is persisted and, when the resolved conversation did not
    /// exist yet, exactly one conversation with the derived title; the
    /// returned history is what the store held for the conversation
    /// before this call, which excludes the just-saved message.
    ///
    /// A supplied conversation id that is not found is not an error: the
    /// conversation is created under that id, so client-driven id
    /// assignment stays idempotent.
    pub fn prepare_chat_at(
        &mut self,
        request: &ChatRequest,
        fresh_conv_id: String,
        fresh_msg_id: String,
        now: i64,
    ) -> (r: Result<ChatContext, AppError>)
        requires
            old(self).wf(),
        ensures
            final(self).wf(),
            trimmed(request.message@).len() == 0 ==> *final(self) == *old(self) && (
            r matches Err(AppError::EmptyField { field_name }) && field_name@ == "message"@),
            trimmed(request.message@).len() != 0 && request.message@.len() > MAX_MESSAGE_LENGTH
                ==> *final(self) == *old(self) && (r matches Err(
                AppError::FieldTooLong { field_name, max_length, actual_length },
            ) && field_name@ == "message"@ && max_length == MAX_MESSAGE_LENGTH && actual_length
                == request.message@.len()),
            utterance_valid(request.message@) && !save_blocked(
                old(self).msgs(),
                resolved_id(request.conversation_id, fresh_conv_id@),
                fresh_msg_id@,
            ) ==> ({
                let rcid = resolved_id(request.conversation_id, fresh_conv_id@);
                let saved = final(self).msgs().last();
                &&& r matches Ok(ctx) && ctx.conversation_id@ == rcid && ctx.user_message
                    == request.message && ctx.history@ == msgs_of(old(self).msgs(), rcid)
                &&& final(self).msgs() == old(self).msgs().push(saved)
                &&& saved.id@ == fresh_msg_id@
                &&& saved.conversation_id@ == rcid
                &&& saved.role == MessageRole::User
                &&& saved.content == request.message
                &&& saved.created_at == assigned_ts(old(self).msgs(), rcid, now)
                &&& has_conv(old(self).convs(), rcid) ==> final(self).convs() == old(self).convs()
                &&& !has_conv(old(self).convs(), rcid) ==> ({
                    let conv = final(self).convs().last();
                    &&& final(self).convs() == old(self).convs().push(conv)
                    &&& conv.id@ == rcid
                    &&& conv.title@ == title_of(request.message@)
                    &&& conv.created_at == now
                    &&& conv.updated_at == now
                })
            }),
            utterance_valid(request.message@) && save_blocked(
                old(self).msgs(),
                resolved_id(request.conversation_id, fresh_conv_id@),
                fresh_msg_id@,
            ) ==> ({
                let rcid = resolved_id(request.conversation_id, fresh_conv_id@);
                &&& r matches Err(e) && (e is DatabaseQueryFailed || e is Unexpected)
                &&& final(self).msgs() == old(self).msgs()
                &&& (final(self).convs() == old(self).convs() || (!has_conv(
                    old(self).convs(),
                    rcid,
                ) && final(self).convs() == old(self).convs().push(final(self).convs().last())
                    && final(self).convs().last().id@ == rcid))
            }),
    {
        match validate_utterance(request.message.as_str()) {
            Ok(()) => {},
            Err(e) => {
                return Err(e);
            },
        }
        let conversation_id: String = match &request.conversation_id {
            Some(id) => id.clone(),
            None => fresh_conv_id,
        };
        proof {
            assert(conversation_id@ == resolved_id(request.conversation_id, fresh_conv_id@));
            lemma_find_conv_has(self.convs(), conversation_id@);
        }
        if self.store.find_by_id(conversation_id.as_str()).is_none() {
            let title = crate::text::derive_title(request.message.as_str());
            let conv = Conversation::with_timestamps(conversation_id.clone(), title, now);
            match self.store.save_conversation(&conv) {
                Ok(_) => {},
                Err(e) => {
                    return Err(e);
                },
            }
            proof {
                assert(self.convs()[old(self).convs().len() as int].id@ == conversation_id@);
                assert(has_conv(self.convs(), conversation_id@));
            }
        }
        proof {
            assert(has_conv(self.convs(), conversation_id@));
        }
        let user_message = Message::with_parts(
            fresh_msg_id,
            conversation_id.clone(),
            MessageRole::User,
            request.message.clone(),
            now,
        );
        let saved = match self.store.save_message(&user_message) {
            Ok(m) => m,
            Err(e) => {
                return Err(e);
            },
        };
        let all = self.store.find_by_conversation_id(conversation_id.as_str());
        let history = filter_out_id(all, saved.id.as_str());
        proof {
            lemma_history_after_save(old(self).msgs(), saved);
            assert(final(self).msgs().last() == saved);
        }
        Ok(
            ChatContext {
                conversation_id,
                history,
                user_message: request.message.clone(),
            },
        )
    }

    /// Validates the request, resolves or creates the conversation,
    /// persists the user message, and returns the context for the turn,
    /// generating fresh identities and reading the clock.
    pub fn prepare_chat(&mut self, request: &ChatRequest) -> (r: Result<ChatContext, AppError>)
        requires
            old(self).wf(),
        ensures
            final(self).wf(),
            trimmed(request.message@).len() == 0 ==> *final(self) == *old(self) && (
            r matches Err(AppError::EmptyField { field_name }) && field_name@ == "message"@),
            trimmed(request.message@).len() != 0 && request.message@.len() > MAX_MESSAGE_LENGTH
                ==> *final(self) == *old(self) && (r matches Err(
                AppError::FieldTooLong { field_name, max_length, actual_length },
            ) && field_name@ == "message"@ && max_length == MAX_MESSAGE_LENGTH && actual_length
                == request.message@.len()),
            r matches Ok(ctx) ==> ({
                let saved = final(self).msgs().last();
                &&& utterance_valid(request.message@)
                &&& ctx.user_message == request.message
                &&& ctx.history@ == msgs_of(old(self).msgs(), ctx.conversation_id@)
                &&& final(self).msgs() == old(self).msgs().push(saved)
                &&& saved.conversation_id@ == ctx.conversation_id@
                &&& saved.role == MessageRole::User
                &&& saved.content == request.message
                &&& request.conversation_id matches Some(id) ==> ctx.conversation_id@ == id@
            }),
            r is Err ==> final(self).msgs() == old(self).msgs(),
    {
        let conv_id = fresh_uuid();
        let msg_id = fresh_uuid();
        let now = now_millis();
        self.prepare_chat_at(request, conv_id, msg_id, now)
    }

    /// Persists a complete assistant reply under an existing conversation
    /// and bumps the conversation's recency, with the identity and clock
    /// reading passed in.  The recency bump cannot fail against this store,
    /// so the best-effort policy around it never loses anything here.
    pub fn save_assistant_message_at(
        &mut self,
        conversation_id: &str,
        content: &str,
        message_id: String,
        now: i64,
    ) -> (r: Result<Message, AppError>)
        requires
            old(self).wf(),
        ensures
            final(self).wf(),
            r is Err ==> *final(self) == *old(self),
            !has_conv(old(self).convs(), conversation_id@) ==> (r matches Err(e) && (
            e matches AppError::DatabaseQueryFailed { message } && message@
                == "Failed to save message"@)),
            has_conv(old(self).convs(), conversation_id@) && has_msg_id(
                old(self).msgs(),
                message_id@,
            ) ==> (r matches Err(e) && (e matches AppError::DatabaseQueryFailed { message }
                && message@ == "Failed to save message"@)),
            has_conv(old(self).convs(), conversation_id@) && !has_msg_id(
                old(self).msgs(),
                message_id@,
            ) && !ts_room(old(self).msgs(), conversation_id@) ==> (r matches Err(e) && (
            e matches AppError::Unexpected(t) && t@ == "timestamp range exhausted"@)),
            has_conv(old(self).convs(), conversation_id@) && !save_blocked(
                old(self).msgs(),
                conversation_id@,
                message_id@,
            ) ==> (r matches Ok(m) && m.id@ == message_id@ && m.conversation_id@
                == conversation_id@ && m.role == MessageRole::Assistant && m.content@ == content@
                && m.created_at == assigned_ts(old(self).msgs(), conversation_id@, now) && final(self).msgs() == old(self).msgs().push(m) && final(self).convs() == touch_conv(
                old(self).convs(),
                conversation_id@,
                now,
            )),
    {
        let message = Message::with_parts(
            message_id,
            conversation_id.to_owned(),
            MessageRole::Assistant,
            content.to_owned(),
            now,
        );
        let saved = match self.store.save_message(&message) {
            Ok(m) => m,
            Err(e) => {
                return Err(e);
            },
        };
        self.store.update_timestamp(conversation_id, now);
        Ok(saved)
    }

    /// Persists a complete assistant reply and bumps the conversation's
    /// recency, generating a fresh identity and reading the clock.
    pub fn save_assistant_message(&mut self, conversation_id: &str, content: &str) -> (r: Result<
        Message,
        AppError,
    >)
        requires
            old(self).wf(),
        ensures
            final(self).wf(),
            r is Err ==> *final(self) == *old(self),
            !has_conv(old(self).convs(), conversation_id@) ==> r is Err,
            r matches Ok(m) ==> (m.conversation_id@ == conversation_id@ && m.role
                == MessageRole::Assistant && m.content@ == content@ && final(self).msgs() == old(self).msgs().push(m)),
    {
        let message_id = fresh_uuid();
        let now = now_millis();
        self.save_assistant_message_at(conversation_id, content, message_id, now)
    }

    /// One whole synchronous turn with every identity and the clock
    /// reading passed in: prepare, hand the turn to inference (whose
    /// outcome arrives as `reply`), persist the assistant reply, and bump
    /// the conversation's recency.
    ///
    /// On a validation failure nothing is persisted.  When inference
    /// failed, the user message persisted during preparation remains and
    /// no assistant message is persisted.  On success the user message
    /// and the assistant message stand in the store in that order.
    pub fn chat_at(
        &mut self,
        request: &ChatRequest,
        reply: Result<String, AppError>,
        fresh_conv_id: String,
        user_msg_id: String,
        assistant_msg_id: String,
        now: i64,
    ) -> (r: Result<ChatResponse, AppError>)
        requires
            old(self).wf(),
        ensures
            final(self).wf(),
            trimmed(request.message@).len() == 0 ==> *final(self) == *old(self) && (
            r matches Err(AppError::EmptyField { field_name }) && field_name@ == "message"@),
            trimmed(request.message@).len() != 0 && request.message@.len() > MAX_MESSAGE_LENGTH
                ==> *final(self) == *old(self) && (r matches Err(
                AppError::FieldTooLong { field_name, max_length, actual_length },
            ) && field_name@ == "message"@ && max_length == MAX_MESSAGE_LENGTH && actual_length
                == request.message@.len()),
            utterance_valid(request.message@) && !save_blocked(
                old(self).msgs(),
                resolved_id(request.conversation_id, fresh_conv_id@),
                user_msg_id@,
            ) && reply is Err ==> ({
                let rcid = resolved_id(request.conversation_id, fresh_conv_id@);
                let saved = final(self).msgs().last();
                &&& r == Err::<ChatResponse, AppError>(reply->Err_0)
                &&& final(self).msgs() == old(self).msgs().push(saved)
                &&& saved.role == MessageRole::User
                &&& saved.content == request.message
                &&& has_conv(old(self).convs(), rcid) ==> final(self).convs() == old(
                    self,
                ).convs()
                &&& !has_conv(old(self).convs(), rcid) ==> ({
                    let conv = final(self).convs().last();
                    &&& final(self).convs() == old(self).convs().push(conv)
                    &&& conv.id@ == rcid
                    &&& conv.title@ == title_of(request.message@)
                    &&& conv.created_at == now
                    &&& conv.updated_at == now
                })
            }),
            utterance_valid(request.message@) && !save_blocked(
                old(self).msgs(),
                resolved_id(request.conversation_id, fresh_conv_id@),
                user_msg_id@,
            ) && reply is Ok && user_msg_id@ != assistant_msg_id@ && !has_msg_id(
                old(self).msgs(),
                assistant_msg_id@,
            ) && assigned_ts(
                old(self).msgs(),
                resolved_id(request.conversation_id, fresh_conv_id@),
                now,
            ) < i64::MAX ==> ({
                let rcid = resolved_id(request.conversation_id, fresh_conv_id@);
                let user = final(self).msgs()[final(self).msgs().len() - 2];
                let assistant = final(self).msgs().last();
                &&& r matches Ok(resp) && resp.conversation_id@ == rcid && resp.message
                    == assistant
                &&& final(self).msgs().len() == old(self).msgs().len() + 2
                &&& final(self).msgs() == old(self).msgs().push(user).push(assistant)
                &&& user.role == MessageRole::User
                &&& user.content == request.message
                &&& user.conversation_id@ == rcid
                &&& assistant.role == MessageRole::Assistant
                &&& assistant.content@ == (reply->Ok_0)@
                &&& assistant.id@ == assistant_msg_id@
                &&& assistant.conversation_id@ == rcid
                &&& user.created_at < assistant.created_at
            }),
            r matches Ok(resp) ==> ({
                let rcid = resolved_id(request.conversation_id, fresh_conv_id@);
                let user = final(self).msgs()[final(self).msgs().len() - 2];
                let assistant = final(self).msgs().last();
                &&& reply is Ok
                &&& resp.conversation_id@ == rcid
                &&& resp.message == assistant
                &&& final(self).msgs().len() == old(self).msgs().len() + 2
                &&& final(self).msgs() == old(self).msgs().push(user).push(assistant)
                &&& user.role == MessageRole::User
                &&& user.content == request.message
                &&& user.conversation_id@ == rcid
                &&& assistant.role == MessageRole::Assistant
                &&& assistant.content@ == (reply->Ok_0)@
                &&& assistant.id@ == assistant_msg_id@
                &&& assistant.conversation_id@ == rcid
                &&& user.created_at < assistant.created_at
                &&& has_conv(old(self).convs(), rcid) ==> final(self).convs() == touch_conv(
                    old(self).convs(),
                    rcid,
                    now,
                )
                &&& !has_conv(old(self).convs(), rcid) ==> ({
                    let conv = final(self).convs().last();
                    &&& final(self).convs() == touch_conv(old(self).convs(), rcid, now).push(
                        conv,
                    )
                    &&& conv.id@ == rcid
                    &&& conv.title@ == title_of(request.message@)
                    &&& conv.created_at == now
                    &&& conv.updated_at == now
                })
            }),
            r is Err ==> final(self).convs().len() <= old(self).convs().len() + 1 && (forall|
                k: int,
            |
                0 <= k < old(self).convs().len() ==> final(self).convs()[k] == old(self).convs()[
                    k
                ]),
    {
        let ctx = match self.prepare_chat_at(request, fresh_conv_id, user_msg_id, now) {
            Ok(ctx) => ctx,
            Err(e) => {
                return Err(e);
            },
        };
        let ghost mid = self.msgs();
        let ghost mid_convs = self.convs();
        let ghost user = self.msgs().last();
        let ghost rcid = resolved_id(request.conversation_id, fresh_conv_id@);
        proof {
            assert(utterance_valid(request.message@));
            assert(!save_blocked(old(self).msgs(), rcid, user_msg_id@));
            assert(ctx.conversation_id@ == rcid);
            lemma_has_msg_id_push(old(self).msgs(), user, assistant_msg_id@);
            lemma_max_ts_push(old(self).msgs(), user, rcid);
            if !has_conv(old(self).convs(), rcid) {
                assert(self.convs()[self.convs().len() - 1].id@ == rcid);
            }
            assert(has_conv(self.convs(), rcid));
            lemma_max_ts_ge(mid, rcid, mid.len() - 1);
        }
        match reply {
            Ok(content) => {
                let assistant = match self.save_assistant_message_at(
                    ctx.conversation_id.as_str(),
                    content.as_str(),
                    assistant_msg_id,
                    now,
                ) {
                    Ok(m) => m,
                    Err(e) => {
                        return Err(e);
                    },
                };
                proof {
                    assert(final(self).msgs() =~= old(self).msgs().push(user).push(
                        final(self).msgs().last(),
                    ));
                    if !has_conv(old(self).convs(), rcid) {
                        assert(self.convs() =~= touch_conv(old(self).convs(), rcid, now).push(
                            mid_convs.last(),
                        ));
                    }
                }
                Ok(ChatResponse { conversation_id: ctx.conversation_id, message: assistant })
            },
            Err(e) => Err(e),
        }
    }

    /// One whole synchronous turn, generating fresh identities and
    /// reading the clock; the inference outcome arrives as `reply`.
    pub fn chat(&mut self, request: &ChatRequest, reply: Result<String, AppError>) -> (r: Result<
        ChatResponse,
        AppError,
    >)
        requires
            old(self).wf(),
        ensures
            final(self).wf(),
            trimmed(request.message@).len() == 0 ==> *final(self) == *old(self) && (
            r matches Err(AppError::EmptyField { field_name }) && field_name@ == "message"@),
            trimmed(request.message@).len() != 0 && request.message@.len() > MAX_MESSAGE_LENGTH
                ==> *final(self) == *old(self) && (r matches Err(
                AppError::FieldTooLong { field_name, max_length, actual_length },
            ) && field_name@ == "message"@ && max_length == MAX_MESSAGE_LENGTH && actual_length
                == request.message@.len()),
            r matches Ok(resp) ==> ({
                let user = final(self).msgs()[final(self).msgs().len() - 2];
                let assistant = final(self).msgs().last();
                &&& reply is Ok
                &&& resp.message == assistant
                &&& final(self).msgs().len() == old(self).msgs().len() + 2
                &&& final(self).msgs() == old(self).msgs().push(user).push(assistant)
                &&& user.role == MessageRole::User
                &&& user.content == request.message
                &&& assistant.role == MessageRole::Assistant
                &&& assistant.content@ == (reply->Ok_0)@
                &&& user.created_at < assistant.created_at
                &&& has_conv(old(self).convs(), resp.conversation_id@) ==> exists|t: i64|
                    final(self).convs() == #[trigger] touch_conv(
                        old(self).convs(),
                        resp.conversation_id@,
                        t,
                    )
                &&& !has_conv(old(self).convs(), resp.conversation_id@) ==> ({
                    let conv = final(self).convs().last();
                    &&& exists|t: i64|
                        final(self).convs() == (#[trigger] touch_conv(
                            old(self).convs(),
                            resp.conversation_id@,
                            t,
                        )).push(conv)
                    &&& conv.id@ == resp.conversation_id@
                    &&& conv.title@ == title_of(request.message@)
                    &&& conv.updated_at == conv.created_at
                })
            }),
            r is Err ==> final(self).convs().len() <= old(self).convs().len() + 1 && (forall|
                k: int,
            |
                0 <= k < old(self).convs().len() ==> final(self).convs()[k] == old(self).convs()[
                    k
                ]),
    {
        let conv_id = fresh_uuid();
        let user_msg_id = fresh_uuid();
        let assistant_msg_id = fresh_uuid();
        let now = now_millis();
        let r = self.chat_at(request, reply, conv_id, user_msg_id, assistant_msg_id, now);
        proof {
            if r is Ok {
                let resp = r->Ok_0;
                if has_conv(old(self).convs(), resp.conversation_id@) {
                    assert(self.convs() == touch_conv(
                        old(self).convs(),
                        resp.conversation_id@,
                        now,
                    ));
                } else {
                    assert(self.convs() == touch_conv(
                        old(self).convs(),
                        resp.conversation_id@,
                        now,
                    ).push(self.convs().last()));
                }
            }
        }
        r
    }
}

} // verus!
