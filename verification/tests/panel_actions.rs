use cosmic_ai_panel::chat::{AppSettings, ChatMessage, ChatRole, ChatSession, ProviderKind};
use cosmic_ai_panel::panel_actions::{
    regenerate_reply, save_edited_message, submit_prompt, EditSendOutcome, SendOutcome,
};
use cosmic_ai_panel::provider::ProviderRequest;
use cosmic_ai_panel::requests::RequestTracker;
use cosmic_ai_panel::storage::AppState;

fn conversation(provider: ProviderKind) -> AppState {
    let mut chat = ChatSession::new(1, provider, "m");
    chat.messages.push(ChatMessage::new(1, ChatRole::User, "first"));
    chat.messages.push(ChatMessage::new(2, ChatRole::Assistant, "reply one"));
    chat.messages.push(ChatMessage::new(3, ChatRole::User, "second"));
    chat.messages.push(ChatMessage::new(4, ChatRole::Assistant, "reply two"));
    AppState {
        chats: vec![chat],
        active_chat_id: 1,
        next_chat_id: 2,
        next_message_id: 5,
        settings: AppSettings::default(),
    }
}

fn placeholder_request() -> ProviderRequest {
    ProviderRequest {
        provider: ProviderKind::LmStudio,
        endpoint: String::new(),
        api_key: None,
        model: String::new(),
        messages: Vec::new(),
    }
}

#[test]
fn submit_adds_prompt_and_sends_request() {
    let mut state = conversation(ProviderKind::LmStudio);
    let mut tracker = RequestTracker::new();

    assert!(matches!(
        submit_prompt(&mut state, &mut tracker, "   ", 50),
        SendOutcome::Skipped
    ));
    assert_eq!(state.chats[0].messages.len(), 4);

    let outcome = submit_prompt(&mut state, &mut tracker, "  third  ", 50);
    assert!(matches!(outcome, SendOutcome::Sent(Some(1))));
    assert_eq!(state.chats[0].messages.len(), 5);
    assert_eq!(state.chats[0].messages[4].content, "third");
    assert_eq!(state.next_message_id, 6);
    assert_eq!(tracker.loading_chat_id, Some(1));
    let inflight = tracker.inflight.as_ref().unwrap();
    // The system prompt comes first, then the chat's five messages.
    assert_eq!(inflight.request.messages.len(), 6);
    assert_eq!(inflight.request.messages[0].role, "system");
    assert_eq!(inflight.request.messages[5].content, "third");

    assert!(matches!(
        submit_prompt(&mut state, &mut tracker, "fourth", 60),
        SendOutcome::Busy
    ));
    assert_eq!(state.chats[0].messages.len(), 5);
}

#[test]
fn submit_without_model_does_nothing() {
    let mut state = conversation(ProviderKind::LmStudio);
    state.chats[0].model = "  ".to_string();
    let mut tracker = RequestTracker::new();
    assert!(matches!(
        submit_prompt(&mut state, &mut tracker, "hello", 50),
        SendOutcome::Skipped
    ));
    assert_eq!(state.chats[0].messages.len(), 4);
    assert!(!tracker.is_busy());
}

#[test]
fn regenerate_drops_last_reply_and_asks_again() {
    let mut state = conversation(ProviderKind::LmStudio);
    let mut tracker = RequestTracker::new();

    assert!(matches!(
        regenerate_reply(&mut state, &mut tracker, 2, 70),
        SendOutcome::Skipped
    ));
    assert_eq!(state.chats[0].messages.len(), 4);

    let outcome = regenerate_reply(&mut state, &mut tracker, 4, 70);
    assert!(matches!(outcome, SendOutcome::Sent(Some(1))));
    assert_eq!(state.chats[0].messages.len(), 3);
    assert_eq!(state.chats[0].updated_at, 70);
    assert!(matches!(
        regenerate_reply(&mut state, &mut tracker, 2, 80),
        SendOutcome::Busy
    ));
}

#[test]
fn regenerate_without_key_shows_the_error() {
    let mut state = conversation(ProviderKind::OpenRouter);
    let mut tracker = RequestTracker::new();
    let outcome = regenerate_reply(&mut state, &mut tracker, 4, 70);
    assert!(matches!(outcome, SendOutcome::Sent(None)));
    assert_eq!(state.chats[0].messages.len(), 3);
    assert!(!tracker.is_busy());
    let error = tracker.chat_error.as_ref().unwrap();
    assert_eq!(error.chat_id, 1);
    assert_eq!(error.message, "OpenRouter API key is missing in settings.");
}

#[test]
fn saving_an_edit_truncates_and_sends() {
    let mut state = conversation(ProviderKind::LmStudio);
    let mut tracker = RequestTracker::new();

    assert!(matches!(
        save_edited_message(&mut state, &mut tracker, 1, "  ", 90),
        EditSendOutcome::EmptyText
    ));
    assert!(matches!(
        save_edited_message(&mut state, &mut tracker, 2, "x", 90),
        EditSendOutcome::NotFound
    ));

    match save_edited_message(&mut state, &mut tracker, 3, " changed ", 90) {
        EditSendOutcome::Sent {
            removed,
            request_id,
        } => {
            assert_eq!(removed, vec![4]);
            assert_eq!(request_id, Some(1));
        }
        _ => panic!("the edit was not sent"),
    }
    assert_eq!(state.chats[0].messages.len(), 3);
    assert_eq!(state.chats[0].messages[2].content, "changed");
    assert!(matches!(
        save_edited_message(&mut state, &mut tracker, 3, "again", 95),
        EditSendOutcome::Busy
    ));
}

#[test]
fn retry_sends_again_and_keeps_partial_reply_on_failure() {
    let state = conversation(ProviderKind::LmStudio);
    let mut tracker = RequestTracker::new();
    assert_eq!(tracker.retry(&state, 1), None);

    let first = tracker.start(1, placeholder_request());
    assert!(tracker.on_failed(first, 1, "timed out".to_string()));
    assert_eq!(tracker.retry(&state, 2), None);
    assert_eq!(tracker.retry(&state, 1), Some(Some(2)));
    assert!(tracker.is_busy());

    let broken = conversation(ProviderKind::OpenRouter);
    let mut tracker = RequestTracker::new();
    let first = tracker.start(1, placeholder_request());
    tracker.inflight.as_mut().unwrap().assistant_message_id = Some(4);
    assert!(tracker.on_failed(first, 1, "timed out".to_string()));
    assert_eq!(tracker.retry(&broken, 1), Some(None));
    let error = tracker.chat_error.as_ref().unwrap();
    assert_eq!(error.message, "OpenRouter API key is missing in settings.");
    assert_eq!(error.assistant_message_id, Some(4));
}
