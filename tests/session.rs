use ollama_chat::connection::{ConnectionManager, ConnectionStatus, DEFAULT_ENDPOINT};
use ollama_chat::conversation::{reply_for, Conversation};
use ollama_chat::protocol::{ChatResponse, FetchOutcome, Message, ModelInfo, TagsResponse};

fn tags(names: &[&str]) -> TagsResponse {
    TagsResponse {
        models: names.iter().map(|n| ModelInfo { name: n.to_string() }).collect(),
    }
}

fn msg(role: &str, content: &str) -> Message {
    Message { role: role.to_string(), content: content.to_string() }
}

fn connected_with(names: &[&str]) -> ConnectionManager {
    let mut c = ConnectionManager::new("http://x".to_string());
    c.finish_discovery(FetchOutcome::Received(tags(names)));
    c
}

fn error_text(c: &ConnectionManager) -> Option<String> {
    match c.status() {
        ConnectionStatus::Error(m) => Some(m.clone()),
        _ => None,
    }
}

#[test]
fn starts_connecting_with_empty_catalog() {
    let c = ConnectionManager::new(DEFAULT_ENDPOINT.to_string());
    assert_eq!(c.endpoint(), "http://localhost:11434");
    assert_eq!(c.discovery_url(), "http://localhost:11434/api/tags");
    assert!(c.models().is_empty());
    assert_eq!(c.selected_model(), "");
    assert!(matches!(c.status(), ConnectionStatus::Connecting));
}

#[test]
fn discovery_lists_models_and_selects_first() {
    let c = ConnectionManager::new("http://x".to_string());
    assert_eq!(c.discovery_url(), "http://x/api/tags");
    let mut c = c;
    c.finish_discovery(FetchOutcome::Received(tags(&["a", "b"])));
    assert_eq!(c.models(), &vec!["a".to_string(), "b".to_string()]);
    assert_eq!(c.selected_model(), "a");
    assert!(matches!(c.status(), ConnectionStatus::Connected));
}

#[test]
fn discovery_transport_failure_clears_catalog() {
    let mut c = connected_with(&["a", "b"]);
    c.finish_discovery(FetchOutcome::TransportFailed("refused".to_string()));
    assert_eq!(error_text(&c), Some("Connection Failed: refused".to_string()));
    assert!(c.models().is_empty());
    assert_eq!(c.selected_model(), "");
}

#[test]
fn discovery_status_failure_reports_code() {
    let mut c = connected_with(&["a"]);
    c.finish_discovery(FetchOutcome::HttpStatus(404));
    assert_eq!(error_text(&c), Some("API Error: 404".to_string()));
    assert!(c.models().is_empty());
    assert_eq!(c.selected_model(), "");
}

#[test]
fn discovery_parse_failure_reports_detail() {
    let mut c = connected_with(&["a"]);
    c.finish_discovery(FetchOutcome::ParseFailed("missing field `models`".to_string()));
    assert_eq!(
        error_text(&c),
        Some("Failed to parse models: missing field `models`".to_string())
    );
    assert!(c.models().is_empty());
}

#[test]
fn discovery_keeps_a_selection_still_listed() {
    let mut c = connected_with(&["a", "b"]);
    c.select_model("b".to_string());
    c.finish_discovery(FetchOutcome::Received(tags(&["c", "b"])));
    assert_eq!(c.selected_model(), "b");
}

#[test]
fn discovery_resets_a_selection_no_longer_listed() {
    let mut c = connected_with(&["a", "b"]);
    c.select_model("b".to_string());
    c.finish_discovery(FetchOutcome::Received(tags(&["c", "d"])));
    assert_eq!(c.selected_model(), "c");
}

#[test]
fn discovery_with_empty_listing_clears_selection() {
    let mut c = connected_with(&["a"]);
    c.finish_discovery(FetchOutcome::Received(tags(&[])));
    assert!(c.models().is_empty());
    assert_eq!(c.selected_model(), "");
    assert!(matches!(c.status(), ConnectionStatus::Connected));
}

#[test]
fn error_is_replaced_by_later_success() {
    let mut c = ConnectionManager::new("http://x".to_string());
    c.finish_discovery(FetchOutcome::TransportFailed("refused".to_string()));
    assert!(c.set_endpoint("http://y".to_string()).is_some());
    assert!(matches!(c.status(), ConnectionStatus::Connecting));
    c.finish_discovery(FetchOutcome::Received(tags(&["m"])));
    assert!(matches!(c.status(), ConnectionStatus::Connected));
    assert_eq!(c.selected_model(), "m");
}

#[test]
fn same_endpoint_does_not_rediscover() {
    let mut c = connected_with(&["a"]);
    assert_eq!(c.set_endpoint("http://x".to_string()), None);
    assert!(matches!(c.status(), ConnectionStatus::Connected));
    assert_eq!(c.models(), &vec!["a".to_string()]);
    assert_eq!(c.selected_model(), "a");
}

#[test]
fn new_endpoint_starts_discovery() {
    let mut c = connected_with(&["a"]);
    assert_eq!(c.set_endpoint("http://y:1".to_string()), Some("http://y:1/api/tags".to_string()));
    assert_eq!(c.endpoint(), "http://y:1");
    assert!(matches!(c.status(), ConnectionStatus::Connecting));
    assert_eq!(c.models(), &vec!["a".to_string()]);
}

#[test]
fn select_model_is_taken_as_given() {
    let mut c = connected_with(&["a"]);
    c.select_model("zzz".to_string());
    assert_eq!(c.selected_model(), "zzz");
}

#[test]
fn chat_reply_is_appended() {
    let c = connected_with(&["a"]);
    let mut conv = Conversation::new();
    let cmd = conv.submit("hi".to_string(), &c).expect("accepted");
    assert_eq!(conv.history(), &vec![msg("user", "hi")]);
    assert!(conv.is_busy());
    assert_eq!(cmd.url, "http://x/api/chat");
    assert_eq!(cmd.request.model, "a");
    assert_eq!(cmd.request.messages, vec![msg("user", "hi")]);
    assert!(!cmd.request.stream);
    conv.finish_chat(FetchOutcome::Received(ChatResponse { message: msg("assistant", "hello") }));
    assert_eq!(conv.history(), &vec![msg("user", "hi"), msg("assistant", "hello")]);
    assert!(!conv.is_busy());
}

#[test]
fn chat_status_failure_appends_system_message() {
    let c = connected_with(&["a"]);
    let mut conv = Conversation::new();
    conv.submit("hi".to_string(), &c).expect("accepted");
    conv.finish_chat(FetchOutcome::HttpStatus(500));
    assert_eq!(conv.history(), &vec![msg("user", "hi"), msg("system", "API Error: 500")]);
    assert!(!conv.is_busy());
}

#[test]
fn chat_transport_failure_appends_system_message() {
    let c = connected_with(&["a"]);
    let mut conv = Conversation::new();
    conv.submit("hi".to_string(), &c).expect("accepted");
    conv.finish_chat(FetchOutcome::TransportFailed("timed out".to_string()));
    assert_eq!(conv.history()[1], msg("system", "Network Error: timed out"));
    assert!(!conv.is_busy());
}

#[test]
fn chat_parse_failure_appends_system_message() {
    let c = connected_with(&["a"]);
    let mut conv = Conversation::new();
    conv.submit("hi".to_string(), &c).expect("accepted");
    conv.finish_chat(FetchOutcome::ParseFailed("expected value".to_string()));
    assert_eq!(conv.history()[1], msg("system", "Error parsing response: expected value"));
}

#[test]
fn empty_text_is_ignored() {
    let c = connected_with(&["a"]);
    let mut conv = Conversation::new();
    assert!(conv.submit(String::new(), &c).is_none());
    assert!(conv.history().is_empty());
    assert!(!conv.is_busy());
}

#[test]
fn submission_without_selected_model_is_ignored() {
    let c = ConnectionManager::new("http://x".to_string());
    let mut conv = Conversation::new();
    assert!(conv.submit("hi".to_string(), &c).is_none());
    assert!(conv.history().is_empty());
    assert!(!conv.is_busy());
}

#[test]
fn request_carries_whole_history_and_model_at_submit_time() {
    let mut c = connected_with(&["a", "b"]);
    let mut conv = Conversation::new();
    conv.submit("one".to_string(), &c).expect("accepted");
    conv.finish_chat(FetchOutcome::Received(ChatResponse { message: msg("assistant", "two") }));
    let cmd = conv.submit("three".to_string(), &c).expect("accepted");
    c.select_model("b".to_string());
    assert_eq!(cmd.request.model, "a");
    assert_eq!(
        cmd.request.messages,
        vec![msg("user", "one"), msg("assistant", "two"), msg("user", "three")]
    );
    let cmd = {
        conv.finish_chat(FetchOutcome::HttpStatus(503));
        conv.submit("four".to_string(), &c).expect("accepted")
    };
    assert_eq!(cmd.request.model, "b");
    assert_eq!(cmd.request.messages.len(), 5);
}

#[test]
fn each_exchange_adds_two_messages() {
    let c = connected_with(&["a"]);
    let mut conv = Conversation::new();
    for i in 0..3usize {
        conv.submit(format!("q{}", i), &c).expect("accepted");
        assert_eq!(conv.history().len(), 2 * i + 1);
        conv.finish_chat(FetchOutcome::HttpStatus(500));
        assert_eq!(conv.history().len(), 2 * i + 2);
    }
}

#[test]
fn reply_message_is_verbatim() {
    let m = reply_for(FetchOutcome::Received(ChatResponse { message: msg("assistant", "x y") }));
    assert_eq!(m, msg("assistant", "x y"));
}
