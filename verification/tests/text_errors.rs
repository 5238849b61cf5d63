//! Text helpers, the error taxonomy, and the small request/view types.

use chat_core::errors::map_rig_error;
use chat_core::errors::u64_to_string;
use chat_core::errors::AppError;
use chat_core::models::ChatForm;
use chat_core::models::ChatPanelTemplate;
use chat_core::models::Conversation;
use chat_core::models::Message;
use chat_core::models::MessageRole;
use chat_core::models::MessageView;
use chat_core::text::contains_str;
use chat_core::text::derive_title;
use chat_core::text::eq_ignore_case;
use chat_core::text::trim_str;
use chat_core::ws_url;

#[test]
fn trimming_strips_both_ends() {
    assert_eq!(trim_str("  hi there \t\n"), "hi there");
    assert_eq!(trim_str("untouched"), "untouched");
    assert_eq!(trim_str(" \t\r\n "), "");
    assert_eq!(trim_str(""), "");
    assert_eq!(trim_str("a b"), "a b");
}

#[test]
fn titles_keep_short_text_and_ellipsise_long_text() {
    assert_eq!(derive_title("  Hello  "), "Hello");
    let sixty = "y".repeat(60);
    assert_eq!(derive_title(&sixty), sixty);
    let sixty_one = "y".repeat(61);
    assert_eq!(derive_title(&sixty_one), format!("{}\u{2026}", "y".repeat(60)));
}

#[test]
fn substring_search_finds_and_rejects() {
    assert!(contains_str("Connection refused by peer", "Connection refused"));
    assert!(contains_str("abc", ""));
    assert!(contains_str("abc", "abc"));
    assert!(!contains_str("abc", "abcd"));
    assert!(!contains_str("model", "Model"));
    assert!(contains_str("the model is gone", "model"));
}

#[test]
fn case_insensitive_comparison_is_ascii_only() {
    assert!(eq_ignore_case("user", "USER"));
    assert!(eq_ignore_case("UsEr", "uSeR"));
    assert!(!eq_ignore_case("user", "users"));
    assert!(!eq_ignore_case("user", "USEP"));
}

#[test]
fn roles_parse_from_their_names() {
    assert_eq!(MessageRole::parse("USER"), Ok(MessageRole::User));
    assert_eq!(MessageRole::parse("assistant"), Ok(MessageRole::Assistant));
    assert_eq!(MessageRole::parse("System"), Ok(MessageRole::System));
    assert_eq!(
        MessageRole::parse("robot"),
        Err("Unknown role: ROBOT".to_string())
    );
    assert_eq!(
        MessageRole::parse("wizard"),
        Err("Unknown role: WIZARD".to_string())
    );
    // case raising is ASCII-only: other characters pass through
    assert_eq!(
        MessageRole::parse("mixed caf\u{e9} 7!"),
        Err("Unknown role: MIXED CAF\u{e9} 7!".to_string())
    );
}

#[test]
fn roles_print_their_canonical_names() {
    assert_eq!(MessageRole::User.as_str(), "USER");
    assert_eq!(MessageRole::Assistant.as_str(), "ASSISTANT");
    assert_eq!(MessageRole::System.as_str(), "SYSTEM");
}

#[test]
fn decimal_rendering_is_exact() {
    assert_eq!(u64_to_string(0), "0");
    assert_eq!(u64_to_string(7), "7");
    assert_eq!(u64_to_string(10), "10");
    assert_eq!(u64_to_string(8000), "8000");
    assert_eq!(u64_to_string(1234567890), "1234567890");
}

#[test]
fn error_texts_match_their_variants() {
    let e = AppError::EmptyField { field_name: "message".to_string() };
    assert_eq!(e.describe(), "Field 'message' cannot be empty");

    let e = AppError::FieldTooLong {
        field_name: "message".to_string(),
        max_length: 8000,
        actual_length: 9001,
    };
    assert_eq!(
        e.describe(),
        "Field 'message' exceeds max length of 8000 (actual: 9001)"
    );

    let e = AppError::ConversationNotFound { id: "c9".to_string() };
    assert_eq!(e.describe(), "Conversation 'c9' not found");

    let e = AppError::OllamaUnavailable { host: "http://localhost:11434".to_string() };
    assert_eq!(
        e.describe(),
        "Ollama service unavailable at http://localhost:11434"
    );

    let e = AppError::ModelNotFound { model_name: "llama3.2".to_string() };
    assert_eq!(e.describe(), "Model 'llama3.2' not found in Ollama");

    let e = AppError::InferenceError { message: "boom".to_string() };
    assert_eq!(e.describe(), "Inference error: boom");

    let e = AppError::Unexpected("odd".to_string());
    assert_eq!(e.describe(), "Unexpected error: odd");

    let e = AppError::db_query("Failed to save message".to_string());
    assert_eq!(e.describe(), "Database query failed: Failed to save message");

    let e = AppError::DatabaseConnectionFailed("refused".to_string());
    assert_eq!(e.describe(), "Database connection failed: refused");

    let e = AppError::RecordNotFound { entity_type: "conversation".to_string(), id: "x".to_string() };
    assert_eq!(e.describe(), "Record not found: conversation with id 'x'");
}

#[test]
fn status_codes_follow_the_error_kind() {
    let validation = AppError::EmptyField { field_name: "message".to_string() };
    assert_eq!(validation.http_status(), 400);
    assert!(validation.is_validation());

    let missing = AppError::ConversationNotFound { id: "x".to_string() };
    assert_eq!(missing.http_status(), 404);
    assert!(missing.is_not_found());

    let down = AppError::OllamaUnavailable { host: "h".to_string() };
    assert_eq!(down.http_status(), 503);
    assert!(down.is_agent_unavailable());

    let other = AppError::Unexpected("x".to_string());
    assert_eq!(other.http_status(), 500);
    assert!(!other.is_validation());
    assert!(!other.is_not_found());
    assert!(!other.is_agent_unavailable());
}

#[test]
fn backend_failure_text_is_classified() {
    let e = map_rig_error("Connection refused (os error 111)", "http://localhost:11434", "llama3.2");
    assert!(matches!(e, AppError::OllamaUnavailable { host } if host == "http://localhost:11434"));

    let e = map_rig_error("failed to connect to host", "h", "m");
    assert!(matches!(e, AppError::OllamaUnavailable { .. }));

    let e = map_rig_error("no such model here", "h", "llama3.2");
    assert!(matches!(e, AppError::ModelNotFound { model_name } if model_name == "llama3.2"));

    let e = map_rig_error("something odd", "h", "m");
    assert!(matches!(e, AppError::InferenceError { message } if message == "something odd"));
}

#[test]
fn ws_url_points_at_the_chat_endpoint() {
    assert_eq!(ws_url(), "ws://localhost:3000/ws/chat");
}

#[test]
fn form_with_empty_conversation_id_asks_for_a_fresh_one() {
    let form = ChatForm { conversation_id: String::new(), message: "hi".to_string() };
    let req = form.into_request();
    assert_eq!(req.conversation_id, None);
    assert_eq!(req.message, "hi");

    let form = ChatForm { conversation_id: "c1".to_string(), message: "hi".to_string() };
    let req = form.into_request();
    assert_eq!(req.conversation_id.as_deref(), Some("c1"));
}

#[test]
fn message_views_flatten_roles_to_text() {
    let m = Message::with_parts(
        "m1".to_string(),
        "c1".to_string(),
        MessageRole::Assistant,
        "hello".to_string(),
        7,
    );
    let v = MessageView::of_message(&m);
    assert_eq!(v.id, "m1");
    assert_eq!(v.role, "ASSISTANT");
    assert_eq!(v.content, "hello");
}

#[test]
fn chat_panel_carries_conversation_and_messages() {
    let empty = ChatPanelTemplate::empty();
    assert!(!empty.has_conversation);
    assert!(empty.messages.is_empty());

    let conv = Conversation::with_timestamps("c1".to_string(), "Title".to_string(), 5);
    let messages = vec![
        Message::with_parts(
            "m1".to_string(),
            "c1".to_string(),
            MessageRole::User,
            "q".to_string(),
            6,
        ),
        Message::with_parts(
            "m2".to_string(),
            "c1".to_string(),
            MessageRole::Assistant,
            "a".to_string(),
            7,
        ),
    ];
    let panel = ChatPanelTemplate::for_conversation(&conv, &messages);
    assert!(panel.has_conversation);
    assert_eq!(panel.conversation_title, "Title");
    assert_eq!(panel.conversation_id, "c1");
    assert_eq!(panel.messages.len(), 2);
    assert_eq!(panel.messages[0].role, "USER");
    assert_eq!(panel.messages[1].content, "a");
}

#[test]
fn agent_constants_are_fixed() {
    assert_eq!(chat_core::agent::default_model(), "llama3.2");
    assert!(chat_core::agent::system_preamble().contains("Ollama"));
}
