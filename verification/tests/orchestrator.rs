//! End-to-end behaviour of the orchestrator over the in-memory store.

use chat_core::agent::history_for_inference;
use chat_core::errors::AppError;
use chat_core::models::Conversation;
use chat_core::models::Message;
use chat_core::models::ChatRequest;
use chat_core::models::MessageRole;
use chat_core::service::ChatService;
use chat_core::store::ChatStore;

fn service() -> ChatService {
    ChatService::new(ChatStore::new())
}

fn request(conversation_id: Option<&str>, message: &str) -> ChatRequest {
    ChatRequest {
        conversation_id: conversation_id.map(|s| s.to_string()),
        message: message.to_string(),
    }
}

#[test]
fn hello_turn_creates_conversation_and_two_messages() {
    let mut svc = service();
    let req = request(None, "Hello");
    let resp = svc
        .chat_at(
            &req,
            Ok("Hi! How can I help?".to_string()),
            "conv-1".to_string(),
            "msg-user".to_string(),
            "msg-assistant".to_string(),
            100,
        )
        .expect("turn should succeed");
    assert_eq!(resp.conversation_id, "conv-1");
    assert_eq!(resp.message.role, MessageRole::Assistant);
    assert_eq!(resp.message.content, "Hi! How can I help?");

    let convs = svc.get_conversations();
    assert_eq!(convs.len(), 1);
    assert_eq!(convs[0].id, "conv-1");
    assert_eq!(convs[0].title, "Hello");
    assert_eq!(convs[0].created_at, 100);
    assert_eq!(convs[0].updated_at, 100);

    let msgs = svc.get_messages("conv-1").expect("conversation exists");
    assert_eq!(msgs.len(), 2);
    assert_eq!(msgs[0].role, MessageRole::User);
    assert_eq!(msgs[0].content, "Hello");
    assert_eq!(msgs[1].role, MessageRole::Assistant);
    assert_eq!(msgs[1].content, "Hi! How can I help?");
    assert!(msgs[0].created_at < msgs[1].created_at);
}

#[test]
fn prepare_persists_exactly_one_message_and_one_conversation() {
    let mut svc = service();
    let req = request(None, "What is the weather like?");
    let ctx = svc
        .prepare_chat_at(&req, "c1".to_string(), "m1".to_string(), 10)
        .expect("valid request");
    assert_eq!(ctx.conversation_id, "c1");
    assert_eq!(ctx.user_message, "What is the weather like?");
    assert!(ctx.history.is_empty());
    assert_eq!(svc.get_conversations().len(), 1);
    let msgs = svc.get_messages("c1").unwrap();
    assert_eq!(msgs.len(), 1);
    assert_eq!(msgs[0].id, "m1");
    assert_eq!(msgs[0].role, MessageRole::User);
}

#[test]
fn title_is_ellipsised_prefix_of_long_utterance() {
    let mut svc = service();
    let long = "a".repeat(70);
    let req = request(None, &long);
    svc.prepare_chat_at(&req, "c1".to_string(), "m1".to_string(), 10)
        .expect("valid request");
    let convs = svc.get_conversations();
    let expected = format!("{}\u{2026}", "a".repeat(60));
    assert_eq!(convs[0].title, expected);
}

#[test]
fn title_of_short_utterance_is_the_trimmed_text() {
    let mut svc = service();
    let req = request(None, "  Hello there  ");
    svc.prepare_chat_at(&req, "c1".to_string(), "m1".to_string(), 10)
        .expect("valid request");
    assert_eq!(svc.get_conversations()[0].title, "Hello there");
}

#[test]
fn empty_utterance_is_rejected_and_persists_nothing() {
    let mut svc = service();
    let req = request(None, " \t\r\n ");
    let err = svc
        .prepare_chat_at(&req, "c1".to_string(), "m1".to_string(), 10)
        .expect_err("empty message must be rejected");
    assert!(err.is_validation());
    match err {
        AppError::EmptyField { field_name } => assert_eq!(field_name, "message"),
        other => panic!("expected EmptyField, got {other:?}"),
    }
    assert_eq!(svc.get_conversations().len(), 0);
    assert!(svc.get_messages("c1").is_err());
}

#[test]
fn oversized_utterance_reports_limit_and_length_and_persists_nothing() {
    let mut svc = service();
    let big = "x".repeat(8001);
    let req = request(None, &big);
    let err = svc
        .prepare_chat_at(&req, "c1".to_string(), "m1".to_string(), 10)
        .expect_err("oversized message must be rejected");
    match err {
        AppError::FieldTooLong { field_name, max_length, actual_length } => {
            assert_eq!(field_name, "message");
            assert_eq!(max_length, 8000);
            assert_eq!(actual_length, 8001);
        }
        other => panic!("expected FieldTooLong, got {other:?}"),
    }
    assert_eq!(svc.get_conversations().len(), 0);
}

#[test]
fn utterance_at_the_limit_is_accepted() {
    let mut svc = service();
    let big = "x".repeat(8000);
    let req = request(None, &big);
    assert!(svc
        .prepare_chat_at(&req, "c1".to_string(), "m1".to_string(), 10)
        .is_ok());
}

#[test]
fn supplied_but_unknown_conversation_id_is_created_under_that_id() {
    let mut svc = service();
    let req = request(Some("client-chosen"), "Hi");
    let ctx = svc
        .prepare_chat_at(&req, "unused-fresh".to_string(), "m1".to_string(), 10)
        .expect("valid request");
    assert_eq!(ctx.conversation_id, "client-chosen");
    let convs = svc.get_conversations();
    assert_eq!(convs.len(), 1);
    assert_eq!(convs[0].id, "client-chosen");
}

#[test]
fn history_excludes_the_message_just_saved() {
    let mut svc = service();
    let first = request(None, "First question");
    svc.chat_at(
        &first,
        Ok("First answer".to_string()),
        "c1".to_string(),
        "u1".to_string(),
        "a1".to_string(),
        10,
    )
    .expect("first turn");

    let second = request(Some("c1"), "Second question");
    let ctx = svc
        .prepare_chat_at(&second, "unused".to_string(), "u2".to_string(), 20)
        .expect("second prepare");
    let contents: Vec<&str> = ctx.history.iter().map(|m| m.content.as_str()).collect();
    assert_eq!(contents, vec!["First question", "First answer"]);
    assert!(ctx.history.iter().all(|m| m.id != "u2"));
}

#[test]
fn inference_history_excludes_system_messages() {
    // A conversation whose stored log already holds a system record.
    let mut store = ChatStore::new();
    let conv = Conversation::with_timestamps("c1".to_string(), "t".to_string(), 5);
    store.save_conversation(&conv).expect("conversation");
    let sys = Message::with_parts(
        "sys-1".to_string(),
        "c1".to_string(),
        MessageRole::System,
        "be terse".to_string(),
        6,
    );
    store.save_message(&sys).expect("system record");
    let user = Message::with_parts(
        "u1".to_string(),
        "c1".to_string(),
        MessageRole::User,
        "Hi".to_string(),
        7,
    );
    store.save_message(&user).expect("user record");

    let mut svc = ChatService::new(store);
    let second = request(Some("c1"), "And now?");
    let ctx = svc
        .prepare_chat_at(&second, "unused".to_string(), "u2".to_string(), 30)
        .expect("prepare");
    assert_eq!(ctx.history.len(), 2);
    let replayed = history_for_inference(&ctx.history);
    assert_eq!(replayed.len(), 1);
    assert_eq!(replayed[0].id, "u1");
    assert!(replayed.iter().all(|m| m.role != MessageRole::System));
    assert!(replayed.iter().all(|m| m.id != "u2"));
}

#[test]
fn failed_inference_keeps_the_user_message_and_persists_no_reply() {
    let mut svc = service();
    let req = request(None, "Hello?");
    let err = svc
        .chat_at(
            &req,
            Err(AppError::InferenceError { message: "backend down".to_string() }),
            "c1".to_string(),
            "u1".to_string(),
            "a1".to_string(),
            10,
        )
        .expect_err("inference failure surfaces");
    match err {
        AppError::InferenceError { message } => assert_eq!(message, "backend down"),
        other => panic!("expected InferenceError, got {other:?}"),
    }
    let msgs = svc.get_messages("c1").unwrap();
    assert_eq!(msgs.len(), 1);
    assert_eq!(msgs[0].role, MessageRole::User);
    // the failed turn leaves the conversation's recency where its
    // creation put it: no bump without a persisted reply
    let convs = svc.get_conversations();
    assert_eq!(convs.len(), 1);
    assert_eq!(convs[0].updated_at, convs[0].created_at);
}

#[test]
fn unknown_conversation_lookup_is_not_found() {
    let svc = service();
    let err = svc.get_messages("missing").expect_err("no such conversation");
    assert!(err.is_not_found());
    assert_eq!(err.http_status(), 404);
    match err {
        AppError::ConversationNotFound { id } => assert_eq!(id, "missing"),
        other => panic!("expected ConversationNotFound, got {other:?}"),
    }
}

#[test]
fn saved_message_reads_back_after_all_previous_ones() {
    let mut store = ChatStore::new();
    let conv = chat_core::models::Conversation::with_timestamps(
        "c1".to_string(),
        "t".to_string(),
        5,
    );
    store.save_conversation(&conv).expect("new conversation");
    for (i, now) in [(0u32, 50i64), (1, 60), (2, 10)] {
        let m = Message::with_parts(
            format!("m{i}"),
            "c1".to_string(),
            MessageRole::User,
            format!("text {i}"),
            now,
        );
        store.save_message(&m).expect("save");
    }
    let msgs = store.find_by_conversation_id("c1");
    assert_eq!(msgs.len(), 3);
    assert_eq!(msgs[0].id, "m0");
    assert_eq!(msgs[1].id, "m1");
    assert_eq!(msgs[2].id, "m2");
    // the store assigned the third message a timestamp after the second,
    // although the clock it was given had gone backwards
    assert_eq!(msgs[0].created_at, 50);
    assert_eq!(msgs[1].created_at, 60);
    assert_eq!(msgs[2].created_at, 61);
    assert!(msgs[0].created_at < msgs[1].created_at);
    assert!(msgs[1].created_at < msgs[2].created_at);
    assert_eq!(msgs[2].content, "text 2");
    assert_eq!(msgs[2].role, MessageRole::User);
}

#[test]
fn duplicate_identities_are_refused() {
    let mut store = ChatStore::new();
    let conv = Conversation::with_timestamps("c1".to_string(), "t".to_string(), 5);
    store.save_conversation(&conv).expect("first save");
    let again = Conversation::with_timestamps("c1".to_string(), "other".to_string(), 6);
    assert!(store.save_conversation(&again).is_err());

    let m = Message::with_parts(
        "m1".to_string(),
        "c1".to_string(),
        MessageRole::User,
        "hi".to_string(),
        7,
    );
    store.save_message(&m).expect("first message");
    let m2 = Message::with_parts(
        "m1".to_string(),
        "c1".to_string(),
        MessageRole::User,
        "again".to_string(),
        8,
    );
    assert!(store.save_message(&m2).is_err());
}

#[test]
fn message_for_absent_conversation_is_refused() {
    let mut store = ChatStore::new();
    let m = Message::with_parts(
        "m1".to_string(),
        "nowhere".to_string(),
        MessageRole::User,
        "hi".to_string(),
        7,
    );
    let err = store.save_message(&m).expect_err("no conversation to attach to");
    assert!(matches!(err, AppError::DatabaseQueryFailed { .. }));
    assert_eq!(store.message_count(), 0);
}

#[test]
fn conversations_list_orders_by_recency() {
    let mut store = ChatStore::new();
    for (id, at) in [("a", 10i64), ("b", 30), ("c", 20)] {
        let conv = Conversation::with_timestamps(id.to_string(), id.to_string(), at);
        store.save_conversation(&conv).expect("save");
    }
    let all = store.find_all();
    let ids: Vec<&str> = all.iter().map(|c| c.id.as_str()).collect();
    assert_eq!(ids, vec!["b", "c", "a"]);
}

#[test]
fn recency_bump_never_goes_backwards() {
    let mut store = ChatStore::new();
    let conv = Conversation::with_timestamps("c1".to_string(), "t".to_string(), 100);
    store.save_conversation(&conv).expect("save");
    store.update_timestamp("c1", 50);
    assert_eq!(store.find_by_id("c1").unwrap().updated_at, 100);
    store.update_timestamp("c1", 150);
    assert_eq!(store.find_by_id("c1").unwrap().updated_at, 150);
}

#[test]
fn generated_identities_are_fresh_uuid_text() {
    let m1 = Message::new("c1".to_string(), MessageRole::User, "hi".to_string());
    let m2 = Message::new("c1".to_string(), MessageRole::User, "hi".to_string());
    assert_eq!(m1.id.chars().count(), 36);
    assert_eq!(m2.id.chars().count(), 36);
    assert_ne!(m1.id, m2.id);
}

#[test]
fn prepare_chat_with_generated_identities_round_trips() {
    let mut svc = service();
    let req = request(None, "Hello there");
    let ctx = svc.prepare_chat(&req).expect("valid request");
    assert_eq!(ctx.user_message, "Hello there");
    assert!(ctx.history.is_empty());
    let msgs = svc.get_messages(&ctx.conversation_id).expect("created");
    assert_eq!(msgs.len(), 1);
    assert_eq!(msgs[0].content, "Hello there");
}

#[test]
fn exhausted_timestamp_range_is_an_unexpected_error() {
    let mut store = ChatStore::new();
    let conv = Conversation::with_timestamps("c1".to_string(), "t".to_string(), 5);
    store.save_conversation(&conv).expect("save");
    let last = Message::with_parts(
        "m1".to_string(),
        "c1".to_string(),
        MessageRole::User,
        "hi".to_string(),
        i64::MAX,
    );
    store.save_message(&last).expect("fits");
    let next = Message::with_parts(
        "m2".to_string(),
        "c1".to_string(),
        MessageRole::User,
        "again".to_string(),
        10,
    );
    let err = store.save_message(&next).expect_err("no timestamp left to assign");
    assert!(matches!(err, AppError::Unexpected(_)));
    assert_eq!(store.message_count(), 1);
}

#[test]
fn whole_turn_with_generated_identities_round_trips() {
    let mut svc = service();
    let req = request(None, "Ping");
    let resp = svc
        .chat(&req, Ok("Pong".to_string()))
        .expect("turn succeeds");
    assert_eq!(resp.message.content, "Pong");
    let msgs = svc.get_messages(&resp.conversation_id).expect("exists");
    assert_eq!(msgs.len(), 2);
    assert_eq!(msgs[0].content, "Ping");
    assert_eq!(msgs[1].content, "Pong");

    let extra = svc
        .save_assistant_message(&resp.conversation_id, "More")
        .expect("reply saved");
    assert_eq!(extra.role, MessageRole::Assistant);
    let msgs = svc.get_messages(&resp.conversation_id).expect("exists");
    assert_eq!(msgs.len(), 3);
    assert_eq!(msgs[2].content, "More");
}
