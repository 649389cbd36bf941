use cosmic_ai_panel::chat::{
    AppSettings, ChatMessage, ChatRole, ChatSession, ProviderKind, SavedModel,
};
use cosmic_ai_panel::conversation::{find_chat, EditOutcome};
use cosmic_ai_panel::storage::AppState;

fn state_with(chats: Vec<ChatSession>, active: u64, next_chat: u64, next_message: u64) -> AppState {
    AppState {
        chats,
        active_chat_id: active,
        next_chat_id: next_chat,
        next_message_id: next_message,
        settings: AppSettings::default(),
    }
}

fn chat_with(id: u64, title: &str, messages: &[(u64, ChatRole, &str)]) -> ChatSession {
    let mut chat = ChatSession::new(id, ProviderKind::LmStudio, "local/model");
    chat.title = title.to_string();
    for (message_id, role, content) in messages {
        chat.messages
            .push(ChatMessage::new(*message_id, *role, content));
    }
    chat
}

fn contents(chat: &ChatSession) -> Vec<(u64, ChatRole, String)> {
    chat.messages
        .iter()
        .map(|m| (m.id, m.role, m.content.clone()))
        .collect()
}

#[test]
fn create_and_delete_chats() {
    let mut state = state_with(vec![chat_with(1, "One", &[])], 1, 2, 1);
    state.settings.provider.saved_models = vec![SavedModel::new(ProviderKind::LmStudio, "m")];
    state.settings.provider.default_model = Some(SavedModel::new(ProviderKind::LmStudio, "m"));
    state.settings.provider.active_provider = ProviderKind::LmStudio;

    let id = state.create_chat(100);
    assert_eq!(id, 2);
    assert_eq!(state.next_chat_id, 3);
    assert_eq!(state.chats[1].title, "New Chat 2");
    assert_eq!(state.chats[1].model, "m");
    assert_eq!(state.chats[1].provider, ProviderKind::LmStudio);
    assert_eq!(state.active_chat_id, 1);

    state.delete_chat(1, 100);
    assert_eq!(state.chats.len(), 1);
    assert_eq!(state.active_chat_id, 2);

    state.delete_chat(2, 100);
    assert_eq!(state.chats.len(), 1);
    assert_eq!(state.chats[0].id, 3);
    assert_eq!(state.active_chat_id, 3);
    assert_eq!(state.next_chat_id, 4);
    assert_eq!(find_chat(&state.chats, 3), Some(0));
    assert_eq!(find_chat(&state.chats, 1), None);
}

#[test]
fn rename_chat_trims_and_ignores_blank() {
    let mut state = state_with(vec![chat_with(1, "One", &[])], 1, 2, 1);
    assert!(!state.rename_chat(1, "   ", 100));
    assert!(!state.rename_chat(9, "Other", 100));
    assert!(state.rename_chat(1, "  Renamed  ", 100));
    assert_eq!(state.chats[0].title, "Renamed");
}

#[test]
fn add_user_message_names_new_chats() {
    let mut state = state_with(vec![chat_with(1, "New Chat 1", &[])], 1, 2, 5);
    assert_eq!(state.add_user_message("   ", 100), None);
    assert_eq!(state.next_message_id, 5);

    assert_eq!(state.add_user_message("  How do I build?  ", 100), Some(5));
    assert_eq!(state.next_message_id, 6);
    assert_eq!(state.chats[0].title, "How do I build?");
    assert_eq!(
        contents(&state.chats[0]),
        vec![(5, ChatRole::User, "How do I build?".to_string())]
    );

    assert_eq!(state.add_user_message("second", 100), Some(6));
    assert_eq!(state.chats[0].title, "How do I build?");
}

#[test]
fn add_user_message_creates_chat_when_active_is_missing() {
    let mut state = state_with(vec![chat_with(1, "Kept", &[])], 42, 7, 1);
    assert_eq!(state.add_user_message("hello", 100), Some(1));
    assert_eq!(state.active_chat_id, 7);
    assert_eq!(state.chats.len(), 2);
    assert_eq!(state.chats[1].title, "hello");
    assert_eq!(state.chats[0].messages.len(), 0);
}

#[test]
fn last_reply_can_be_removed_for_regeneration() {
    let mut state = state_with(
        vec![chat_with(
            1,
            "Chat",
            &[(1, ChatRole::User, "q"), (2, ChatRole::Assistant, "a"), (3, ChatRole::User, "q2")],
        )],
        1,
        2,
        4,
    );
    assert_eq!(state.last_assistant_message_id(1), Some(2));
    assert!(!state.remove_last_assistant(1, 2, 100));

    state.chats[0]
        .messages
        .push(ChatMessage::new(4, ChatRole::Assistant, "a2"));
    assert_eq!(state.last_assistant_message_id(1), Some(4));
    assert!(state.remove_last_assistant(1, 4, 100));
    assert_eq!(state.chats[0].messages.len(), 3);
    assert_eq!(state.last_assistant_message_id(1), Some(2));
    assert_eq!(state.last_assistant_message_id(9), None);
}

#[test]
fn editing_a_user_message_drops_later_messages() {
    let mut state = state_with(
        vec![chat_with(
            1,
            "Old title",
            &[
                (1, ChatRole::User, "first"),
                (2, ChatRole::Assistant, "reply"),
                (3, ChatRole::User, "second"),
                (4, ChatRole::Assistant, "reply two"),
            ],
        )],
        1,
        2,
        5,
    );

    assert!(matches!(state.edit_user_message(1, 3, "  ", 100), EditOutcome::EmptyText));
    assert!(matches!(state.edit_user_message(1, 2, "x", 100), EditOutcome::NotFound));
    assert!(matches!(state.edit_user_message(8, 3, "x", 100), EditOutcome::NotFound));

    match state.edit_user_message(1, 3, " second, edited ", 100) {
        EditOutcome::Updated(removed) => assert_eq!(removed, vec![4]),
        other => panic!("unexpected outcome: {other:?}"),
    }
    assert_eq!(state.chats[0].title, "Old title");
    assert_eq!(
        contents(&state.chats[0]),
        vec![
            (1, ChatRole::User, "first".to_string()),
            (2, ChatRole::Assistant, "reply".to_string()),
            (3, ChatRole::User, "second, edited".to_string()),
        ]
    );

    match state.edit_user_message(1, 1, "new start", 100) {
        EditOutcome::Updated(removed) => assert_eq!(removed, vec![2, 3]),
        other => panic!("unexpected outcome: {other:?}"),
    }
    assert_eq!(state.chats[0].title, "new start");
    assert_eq!(state.chats[0].messages.len(), 1);
}

#[test]
fn branching_copies_messages_with_fresh_ids() {
    let mut state = state_with(
        vec![chat_with(
            1,
            "Topic",
            &[
                (1, ChatRole::User, "q"),
                (2, ChatRole::Assistant, "a"),
                (3, ChatRole::User, "q2"),
            ],
        )],
        1,
        5,
        10,
    );

    assert_eq!(state.branch_chat(1, 1, 100), None);
    assert_eq!(state.branch_chat(1, 99, 100), None);
    assert_eq!(state.branch_chat(2, 2, 100), None);

    assert_eq!(state.branch_chat(1, 2, 100), Some(5));
    assert_eq!(state.active_chat_id, 5);
    assert_eq!(state.next_chat_id, 6);
    assert_eq!(state.next_message_id, 12);
    let branch = &state.chats[1];
    assert_eq!(branch.title, "Topic (Branch)");
    assert_eq!(branch.model, "local/model");
    assert_eq!(
        contents(branch),
        vec![
            (10, ChatRole::User, "q".to_string()),
            (11, ChatRole::Assistant, "a".to_string()),
        ]
    );
    assert_eq!(state.chats[0].messages.len(), 3);
}

#[test]
fn streamed_pieces_build_one_reply() {
    let mut state = state_with(vec![chat_with(1, "Chat", &[(1, ChatRole::User, "q")])], 1, 2, 2);

    assert_eq!(state.apply_assistant_delta(1, None, "", 100), None);
    let reply = state.apply_assistant_delta(1, None, "Hel", 100);
    assert_eq!(reply, Some(2));
    assert_eq!(state.apply_assistant_delta(1, reply, "lo", 100), Some(2));
    assert_eq!(state.next_message_id, 3);
    assert_eq!(
        contents(&state.chats[0]),
        vec![
            (1, ChatRole::User, "q".to_string()),
            (2, ChatRole::Assistant, "Hello".to_string()),
        ]
    );

    assert_eq!(state.apply_assistant_delta(9, None, "lost", 100), Some(3));
    assert_eq!(state.next_message_id, 4);
    assert_eq!(state.chats[0].messages.len(), 2);
}

#[test]
fn model_header_label_and_index() {
    let mut state = state_with(vec![chat_with(1, "Chat", &[])], 1, 2, 1);
    assert_eq!(state.active_model_label(), "model (local)");
    assert!(state.has_selected_model());
    assert_eq!(state.active_model_index(), None);

    state.settings.provider.saved_models = vec![
        SavedModel::new(ProviderKind::OpenRouter, "local/model"),
        SavedModel::new(ProviderKind::LmStudio, "local/model"),
    ];
    assert_eq!(state.active_model_index(), Some(1));

    state.chats[0].model = "  ".to_string();
    assert_eq!(state.active_model_label(), "No model selected");
    assert!(!state.has_selected_model());

    state.chats[0].model = "vendor/".to_string();
    state.chats[0].provider = ProviderKind::OpenRouter;
    assert_eq!(state.active_model_label(), "vendor/");

    state.active_chat_id = 77;
    assert_eq!(state.active_model_label(), "No model selected");
    assert_eq!(state.active_chat_index(), None);
}

#[test]
fn active_model_is_picked_among_the_chat_providers_models() {
    let mut state = state_with(vec![chat_with(1, "Chat", &[])], 1, 2, 1);
    state.settings.provider.saved_models = vec![
        SavedModel::new(ProviderKind::LmStudio, "first-local"),
        SavedModel::new(ProviderKind::OpenRouter, "remote"),
        SavedModel::new(ProviderKind::LmStudio, "second-local"),
    ];

    assert!(state.select_active_model(1, 100));
    assert_eq!(state.chats[0].model, "second-local");
    assert_eq!(state.chats[0].provider, ProviderKind::LmStudio);

    assert!(!state.select_active_model(2, 100));
    assert_eq!(state.chats[0].model, "second-local");

    state.active_chat_id = 5;
    assert!(!state.select_active_model(0, 100));
}

#[test]
fn changes_are_stamped_with_the_given_time() {
    let mut chat = ChatSession::new_at(1, ProviderKind::LmStudio, "m", 5);
    assert_eq!(chat.updated_at, 5);
    chat.messages
        .push(ChatMessage::new_at(1, ChatRole::User, "q", 6));
    chat.messages
        .push(ChatMessage::new_at(2, ChatRole::Assistant, "a", 7));
    chat.touch_at(8);
    assert_eq!(chat.updated_at, 8);
    assert_eq!(chat.messages.len(), 2);
    let mut state = state_with(vec![chat], 1, 2, 3);

    assert_eq!(state.add_user_message("more", 50), Some(3));
    assert_eq!(state.chats[0].updated_at, 50);
    assert_eq!(state.chats[0].messages[2].created_at, 50);

    assert!(matches!(
        state.edit_user_message(1, 1, "q edited", 60),
        EditOutcome::Updated(_)
    ));
    assert_eq!(state.chats[0].updated_at, 60);
    assert_eq!(state.chats[0].messages[0].created_at, 6);

    assert_eq!(state.apply_assistant_delta(1, None, "r", 70), Some(4));
    assert_eq!(state.chats[0].messages[1].created_at, 70);
    assert_eq!(state.apply_assistant_delta(1, Some(4), "s", 80), Some(4));
    assert_eq!(state.chats[0].messages[1].created_at, 70);
    assert_eq!(state.chats[0].updated_at, 80);

    assert_eq!(state.branch_chat(1, 4, 90), Some(2));
    assert_eq!(state.chats[1].updated_at, 90);
    assert_eq!(state.chats[1].messages[0].created_at, 6);
    assert_eq!(state.chats[1].messages[1].created_at, 70);
    assert_eq!(state.chats[0].updated_at, 80);
}
