use cosmic_ai_panel::chat::{AppSettings, ChatMessage, ChatRole, ChatSession, ProviderKind};
use cosmic_ai_panel::provider::ProviderRequest;
use cosmic_ai_panel::requests::RequestTracker;
use cosmic_ai_panel::storage::AppState;

fn request() -> ProviderRequest {
    ProviderRequest {
        provider: ProviderKind::LmStudio,
        endpoint: "http://127.0.0.1:1234/v1/chat/completions".to_string(),
        api_key: None,
        model: "m".to_string(),
        messages: Vec::new(),
    }
}

fn state() -> AppState {
    let mut chat = ChatSession::new(1, ProviderKind::LmStudio, "m");
    chat.messages.push(ChatMessage::new(1, ChatRole::User, "q"));
    AppState {
        chats: vec![chat],
        active_chat_id: 1,
        next_chat_id: 2,
        next_message_id: 2,
        settings: AppSettings::default(),
    }
}

#[test]
fn streamed_reply_goes_into_one_message() {
    let mut tracker = RequestTracker::new();
    let mut state = state();
    assert!(!tracker.is_busy());

    let id = tracker.start(1, request());
    assert_eq!(id, 1);
    assert!(tracker.is_busy());
    assert_eq!(tracker.loading_chat_id, Some(1));

    assert!(!tracker.on_delta(&mut state, 99, 1, "stale", 100));
    assert!(!tracker.on_delta(&mut state, id, 1, "", 100));
    assert!(tracker.on_delta(&mut state, id, 1, "Hel", 100));
    assert_eq!(tracker.loading_chat_id, None);
    assert!(tracker.on_delta(&mut state, id, 1, "lo", 100));
    assert_eq!(state.chats[0].messages.len(), 2);
    assert_eq!(state.chats[0].messages[1].content, "Hello");
    assert_eq!(state.chats[0].messages[1].role, ChatRole::Assistant);
    assert_eq!(
        tracker.inflight.as_ref().and_then(|i| i.assistant_message_id),
        Some(2)
    );

    assert!(!tracker.on_finished(id + 1, 1));
    assert!(tracker.on_finished(id, 1));
    assert!(!tracker.is_busy());
}

#[test]
fn failure_keeps_error_for_retry() {
    let mut tracker = RequestTracker::new();
    let first = tracker.start(1, request());
    assert!(!tracker.on_failed(first, 2, "wrong chat".to_string()));
    assert!(tracker.on_failed(first, 1, "Provider timeout".to_string()));
    assert!(!tracker.is_busy());
    let error = tracker.chat_error.as_ref().unwrap();
    assert_eq!(error.chat_id, 1);
    assert_eq!(error.message, "Provider timeout");
    assert!(tracker.can_retry(1));
    assert!(!tracker.can_retry(2));

    let second = tracker.start(1, request());
    assert_eq!(second, 2);
    assert!(tracker.chat_error.is_none());
    assert!(!tracker.can_retry(1));
}

#[test]
fn stop_clears_the_request_and_its_error() {
    let mut tracker = RequestTracker::new();
    assert_eq!(tracker.stop(), None);
    tracker.start(3, request());
    assert_eq!(tracker.stop(), Some(3));
    assert!(!tracker.is_busy());
    assert_eq!(tracker.loading_chat_id, None);

    tracker.start(4, request());
    assert!(tracker.on_failed(2, 4, "x".to_string()));
    tracker.clear_chat_error(5);
    assert!(tracker.chat_error.is_some());
    tracker.clear_chat_error(4);
    assert!(tracker.chat_error.is_none());
}

#[test]
fn sending_builds_and_starts_or_records_the_error() {
    let mut tracker = RequestTracker::new();
    let mut state = state();
    state.settings.provider.active_provider = ProviderKind::LmStudio;

    let started = tracker.send_for_chat(&state, 1);
    assert_eq!(started, Some(1));
    let inflight = tracker.inflight.as_ref().unwrap();
    assert_eq!(inflight.chat_id, 1);
    assert_eq!(inflight.request.model, "m");
    assert_eq!(inflight.request.messages.len(), 2);
    assert_eq!(inflight.request.messages[1].content, "q");
    assert!(tracker.on_finished(1, 1));

    assert_eq!(tracker.send_for_chat(&state, 42), None);
    let error = tracker.chat_error.as_ref().unwrap();
    assert_eq!(error.chat_id, 42);
    assert_eq!(error.message, "Chat not found.");
    assert_eq!(error.request.endpoint, "");
    assert_eq!(error.request.provider, ProviderKind::LmStudio);
    assert!(!tracker.is_busy());

    state.chats[0].model = "  ".to_string();
    assert_eq!(tracker.send_for_chat(&state, 1), None);
    assert_eq!(
        tracker.chat_error.as_ref().unwrap().message,
        "Set a model in Provider settings first."
    );
}
