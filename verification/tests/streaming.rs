//! The streaming session protocol: event order, finalization, failure,
//! disconnect, the hand-off channel, and the client-side fold.

use chat_core::client::ClientView;
use chat_core::handoff::Handoff;
use chat_core::handoff::PushOutcome;
use chat_core::models::Conversation;
use chat_core::models::Message;
use chat_core::models::MessageRole;
use chat_core::models::WsEvent;
use chat_core::service::ChatService;
use chat_core::session::run_stream_turn;
use chat_core::session::StreamOutcome;
use chat_core::session::StreamSession;
use chat_core::store::ChatStore;

fn service_with_turn_prepared() -> ChatService {
    let mut store = ChatStore::new();
    let conv = Conversation::with_timestamps("c1".to_string(), "Hello".to_string(), 5);
    store.save_conversation(&conv).expect("conversation");
    let user = Message::with_parts(
        "u1".to_string(),
        "c1".to_string(),
        MessageRole::User,
        "Hello".to_string(),
        6,
    );
    store.save_message(&user).expect("user message");
    ChatService::new(store)
}

fn fragments(parts: &[&str]) -> Vec<String> {
    parts.iter().map(|p| p.to_string()).collect()
}

#[test]
fn successful_stream_relays_chunks_in_order_and_persists_the_reply() {
    let mut svc = service_with_turn_prepared();
    let frags = fragments(&["Hel", "lo ", "world"]);
    let events = run_stream_turn(
        &mut svc,
        "c1",
        &frags,
        StreamOutcome::Completed,
        None,
        "a1".to_string(),
        50,
    );
    assert_eq!(events.len(), 5);
    match &events[0] {
        WsEvent::StreamStart { conversation_id } => assert_eq!(conversation_id, "c1"),
        other => panic!("expected stream_start, got {other:?}"),
    }
    for (i, expected) in ["Hel", "lo ", "world"].iter().enumerate() {
        match &events[1 + i] {
            WsEvent::StreamChunk { content } => assert_eq!(content, expected),
            other => panic!("expected stream_chunk, got {other:?}"),
        }
    }
    match &events[4] {
        WsEvent::StreamEnd { full_content, message_id } => {
            assert_eq!(full_content, "Hello world");
            assert_eq!(message_id.as_deref(), Some("a1"));
        }
        other => panic!("expected stream_end, got {other:?}"),
    }
    let msgs = svc.get_messages("c1").expect("conversation exists");
    assert_eq!(msgs.len(), 2);
    assert_eq!(msgs[1].role, MessageRole::Assistant);
    assert_eq!(msgs[1].content, "Hello world");
    assert_eq!(msgs[1].id, "a1");
}

#[test]
fn successful_stream_bumps_conversation_recency() {
    let mut svc = service_with_turn_prepared();
    let frags = fragments(&["ok"]);
    run_stream_turn(
        &mut svc,
        "c1",
        &frags,
        StreamOutcome::Completed,
        None,
        "a1".to_string(),
        500,
    );
    let convs = svc.get_conversations();
    assert_eq!(convs[0].updated_at, 500);
}

#[test]
fn failed_stream_reports_one_error_and_persists_nothing() {
    let mut svc = service_with_turn_prepared();
    let frags = fragments(&["par", "tial"]);
    let events = run_stream_turn(
        &mut svc,
        "c1",
        &frags,
        StreamOutcome::Failed("backend fell over".to_string()),
        None,
        "a1".to_string(),
        50,
    );
    assert_eq!(events.len(), 4);
    assert!(matches!(&events[1], WsEvent::StreamChunk { content } if content == "par"));
    assert!(matches!(&events[2], WsEvent::StreamChunk { content } if content == "tial"));
    match &events[3] {
        WsEvent::Error { message } => assert_eq!(message, "backend fell over"),
        other => panic!("expected error event, got {other:?}"),
    }
    let msgs = svc.get_messages("c1").expect("conversation exists");
    assert_eq!(msgs.len(), 1);
    assert_eq!(msgs[0].role, MessageRole::User);
}

#[test]
fn disconnect_mid_stream_stops_events_and_persists_nothing() {
    let mut svc = service_with_turn_prepared();
    let frags = fragments(&["one", "two", "three"]);
    let events = run_stream_turn(
        &mut svc,
        "c1",
        &frags,
        StreamOutcome::Completed,
        Some(1),
        "a1".to_string(),
        50,
    );
    assert_eq!(events.len(), 2);
    assert!(matches!(&events[0], WsEvent::StreamStart { .. }));
    assert!(matches!(&events[1], WsEvent::StreamChunk { content } if content == "one"));
    let msgs = svc.get_messages("c1").expect("conversation exists");
    assert_eq!(msgs.len(), 1);
}

#[test]
fn finalize_for_unknown_conversation_reports_an_error_event() {
    let mut svc = service_with_turn_prepared();
    let frags = fragments(&["hi"]);
    let events = run_stream_turn(
        &mut svc,
        "ghost",
        &frags,
        StreamOutcome::Completed,
        None,
        "a1".to_string(),
        50,
    );
    assert_eq!(events.len(), 3);
    match &events[2] {
        WsEvent::Error { message } => {
            assert_eq!(message, "Failed to save response: Database query failed: Failed to save message");
        }
        other => panic!("expected error event, got {other:?}"),
    }
    assert_eq!(svc.get_messages("c1").unwrap().len(), 1);
}

#[test]
fn session_steps_accumulate_in_arrival_order() {
    let (mut session, start) = StreamSession::start("c9".to_string());
    assert!(matches!(&start, WsEvent::StreamStart { conversation_id } if conversation_id == "c9"));
    let ev1 = session.on_fragment(&"ab".to_string());
    let ev2 = session.on_fragment(&"cd".to_string());
    assert!(matches!(&ev1, WsEvent::StreamChunk { content } if content == "ab"));
    assert!(matches!(&ev2, WsEvent::StreamChunk { content } if content == "cd"));
    let ev3 = session.finish_failure("why".to_string());
    assert!(matches!(&ev3, WsEvent::Error { message } if message == "why"));
}

#[test]
fn handoff_preserves_fragment_order() {
    let mut ch = Handoff::new(4);
    assert_eq!(ch.try_push("a".to_string()), PushOutcome::Accepted);
    assert_eq!(ch.try_push("b".to_string()), PushOutcome::Accepted);
    assert_eq!(ch.pop().as_deref(), Some("a"));
    assert_eq!(ch.pop().as_deref(), Some("b"));
    assert_eq!(ch.pop(), None);
}

#[test]
fn full_handoff_applies_backpressure_without_dropping() {
    let mut ch = Handoff::new(2);
    assert_eq!(ch.try_push("a".to_string()), PushOutcome::Accepted);
    assert_eq!(ch.try_push("b".to_string()), PushOutcome::Accepted);
    assert_eq!(ch.try_push("c".to_string()), PushOutcome::Full);
    assert_eq!(ch.len(), 2);
    assert_eq!(ch.pop().as_deref(), Some("a"));
    assert_eq!(ch.try_push("c".to_string()), PushOutcome::Accepted);
    assert_eq!(ch.pop().as_deref(), Some("b"));
    assert_eq!(ch.pop().as_deref(), Some("c"));
}

#[test]
fn closed_handoff_signals_cancellation_to_the_producer() {
    let mut ch = Handoff::new(2);
    assert_eq!(ch.try_push("a".to_string()), PushOutcome::Accepted);
    ch.close();
    assert!(ch.has_closed());
    assert_eq!(ch.try_push("b".to_string()), PushOutcome::Disconnected);
    // what was already queued stays readable
    assert_eq!(ch.pop().as_deref(), Some("a"));
    assert_eq!(ch.pop(), None);
}

#[test]
fn client_view_folds_a_successful_stream() {
    let mut view = ClientView::new();
    view.begin_turn();
    assert!(view.is_streaming);
    view.apply_event(&WsEvent::StreamStart { conversation_id: "c1".to_string() });
    assert_eq!(view.active_conversation.as_deref(), Some("c1"));
    view.apply_event(&WsEvent::StreamChunk { content: "Hel".to_string() });
    view.apply_event(&WsEvent::StreamChunk { content: "lo".to_string() });
    assert_eq!(view.streaming_text.as_deref(), Some("Hello"));
    view.apply_event(&WsEvent::StreamEnd {
        full_content: "Hello".to_string(),
        message_id: Some("a1".to_string()),
    });
    assert!(!view.is_streaming);
    assert_eq!(view.streaming_text, None);
    assert_eq!(view.replies, vec!["Hello".to_string()]);
    assert_eq!(view.error, None);
}

#[test]
fn client_view_shows_a_stream_error() {
    let mut view = ClientView::new();
    view.begin_turn();
    view.apply_event(&WsEvent::StreamChunk { content: "He".to_string() });
    view.apply_event(&WsEvent::Error { message: "lost".to_string() });
    assert!(!view.is_streaming);
    assert_eq!(view.streaming_text, None);
    assert_eq!(view.error.as_deref(), Some("lost"));
    assert!(view.replies.is_empty());
}

#[test]
fn two_streaming_turns_share_the_connection_and_append_in_order() {
    let mut svc = service_with_turn_prepared();
    let first = fragments(&["One"]);
    run_stream_turn(
        &mut svc,
        "c1",
        &first,
        StreamOutcome::Completed,
        None,
        "a1".to_string(),
        50,
    );
    let second = fragments(&["Two", " parts"]);
    let events = run_stream_turn(
        &mut svc,
        "c1",
        &second,
        StreamOutcome::Completed,
        None,
        "a2".to_string(),
        60,
    );
    assert_eq!(events.len(), 4);
    let msgs = svc.get_messages("c1").expect("conversation exists");
    assert_eq!(msgs.len(), 3);
    assert_eq!(msgs[1].content, "One");
    assert_eq!(msgs[2].content, "Two parts");
    assert!(msgs[1].created_at < msgs[2].created_at);
}

#[test]
fn client_observes_chunks_in_order_and_the_full_reply() {
    let mut svc = service_with_turn_prepared();
    let frags = fragments(&["Hel", "lo ", "world"]);
    let events = run_stream_turn(
        &mut svc,
        "c1",
        &frags,
        StreamOutcome::Completed,
        None,
        "a1".to_string(),
        50,
    );
    let mut view = ClientView::new();
    view.begin_turn();
    for ev in &events {
        view.apply_event(ev);
    }
    assert_eq!(view.active_conversation.as_deref(), Some("c1"));
    assert_eq!(view.replies, vec!["Hello world".to_string()]);
    assert_eq!(view.error, None);
    assert!(!view.is_streaming);
}
