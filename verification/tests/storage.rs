use cosmic_ai_panel::chat::{
    AppSettings, ChatMessage, ChatRole, ChatSession, PreferenceLevel, ProviderKind, SavedModel,
};
use cosmic_ai_panel::storage::{
    backup_file_name, default_loaded_chat_state, load_state_from_outcomes,
    migrate_legacy_chat_state, PersistedChatState,
    migrate_versioned_legacy_state, select_loaded_chat_state, select_loaded_settings,
    temp_file_name, AppState, LegacyAppSettings, LoadedChatState, PersistedChatStateV1,
    PersistedSettingsV1, CURRENT_CHAT_SCHEMA_VERSION, CURRENT_SETTINGS_SCHEMA_VERSION,
};

fn chat(id: u64, message_ids: &[u64]) -> ChatSession {
    let mut chat = ChatSession::new(id, ProviderKind::OpenRouter, "m");
    for message_id in message_ids {
        chat.messages
            .push(ChatMessage::new(*message_id, ChatRole::User, "hi"));
    }
    chat
}

#[test]
fn from_parts_continues_ids_after_largest_in_use() {
    let state = AppState::from_parts(
        AppSettings::default(),
        vec![chat(3, &[10, 4]), chat(7, &[99])],
        7,
    )
    .unwrap();

    assert_eq!(state.active_chat_id, 7);
    assert_eq!(state.next_chat_id, 8);
    assert_eq!(state.next_message_id, 100);
    assert_eq!(state.chats.len(), 2);
}

#[test]
fn from_parts_falls_back_to_first_chat_and_rejects_empty_state() {
    let state = AppState::from_parts(AppSettings::default(), vec![chat(3, &[]), chat(5, &[])], 42)
        .unwrap();
    assert_eq!(state.active_chat_id, 3);
    assert_eq!(state.next_message_id, 1);

    let error = AppState::from_parts(AppSettings::default(), Vec::new(), 1).unwrap_err();
    assert_eq!(error, "state contains no chat sessions");
}

#[test]
fn from_parts_saturates_at_largest_id() {
    let state =
        AppState::from_parts(AppSettings::default(), vec![chat(u64::MAX, &[u64::MAX])], 0)
            .unwrap();
    assert_eq!(state.next_chat_id, u64::MAX);
    assert_eq!(state.next_message_id, u64::MAX);
}

#[test]
fn default_state_has_welcome_chat() {
    let state = AppState::default();
    assert_eq!(state.chats.len(), 1);
    assert_eq!(state.chats[0].title, "Welcome");
    assert_eq!(state.chats[0].messages.len(), 2);
    assert_eq!(state.active_chat_id, 1);
    assert_eq!(state.next_chat_id, 2);
    assert_eq!(state.next_message_id, 3);
}

#[test]
fn persisted_records_carry_current_versions() {
    let state = AppState::default();
    let chats = PersistedChatStateV1::from_runtime(&state);
    assert_eq!(chats.schema_version, CURRENT_CHAT_SCHEMA_VERSION);
    assert_eq!(chats.active_chat_id, 1);
    assert_eq!(chats.chat_sessions.len(), 1);

    let mut settings = AppSettings::default();
    settings.memory = vec!["Rust".into()];
    let record = PersistedSettingsV1::from_runtime(&settings);
    assert_eq!(record.schema_version, CURRENT_SETTINGS_SCHEMA_VERSION);
    let back = record.into_runtime();
    assert_eq!(back.memory, vec!["Rust".to_string()]);
    assert_eq!(back.base_system_prompt, settings.base_system_prompt);
}

#[test]
fn legacy_settings_fill_missing_limits_and_prompt() {
    let mut legacy = LegacyAppSettings::default();
    legacy.base_system_prompt = "   ".into();
    legacy.legacy_lmstudio_model = "local-model".into();
    legacy.provider = ProviderKind::LmStudio;
    legacy.profile.emoji = PreferenceLevel::Less;

    let settings = legacy.into_runtime();
    assert_eq!(settings.provider.timeout_seconds, 20);
    assert_eq!(settings.provider.retry_attempts, 1);
    assert_eq!(settings.provider.retry_delay_seconds, 2);
    assert_eq!(
        settings.base_system_prompt,
        "You are a concise assistant integrated into COSMIC."
    );
    assert_eq!(
        settings.provider.saved_models,
        vec![SavedModel::new(ProviderKind::LmStudio, "local-model")]
    );
    assert_eq!(settings.active_model(), "local-model");
    assert_eq!(settings.profile.emoji, PreferenceLevel::Less);
}

#[test]
fn legacy_chat_state_migrations() {
    let error =
        migrate_legacy_chat_state(Vec::new(), 1, LegacyAppSettings::default()).unwrap_err();
    assert_eq!(error, "legacy state contains no chat sessions");

    let loaded =
        migrate_legacy_chat_state(vec![chat(2, &[5])], 2, LegacyAppSettings::default()).unwrap();
    assert_eq!(loaded.active_chat_id, 2);
    assert_eq!(loaded.chat_sessions.len(), 1);
    assert!(loaded.legacy_settings.is_some());

    let versioned = migrate_versioned_legacy_state(Vec::new(), 4, LegacyAppSettings::default());
    assert!(versioned.chat_sessions.is_empty());
    assert!(versioned.into_runtime(AppSettings::default()).is_err());
}

#[test]
fn loaded_state_selection_prefers_primary_then_backup() {
    let primary = LoadedChatState {
        chat_sessions: vec![chat(8, &[])],
        active_chat_id: 8,
        legacy_settings: None,
    };
    let chosen = select_loaded_chat_state(Some(Ok(primary)), None);
    assert_eq!(chosen.active_chat_id, 8);

    let backup = LoadedChatState {
        chat_sessions: vec![chat(9, &[])],
        active_chat_id: 9,
        legacy_settings: None,
    };
    let chosen = select_loaded_chat_state(Some(Err("bad".into())), Some(Ok(backup)));
    assert_eq!(chosen.active_chat_id, 9);

    let fallback = select_loaded_chat_state(None, None);
    assert_eq!(fallback.active_chat_id, 1);
    assert_eq!(fallback.chat_sessions[0].title, "Welcome");
    assert_eq!(default_loaded_chat_state().chat_sessions.len(), 1);
}

#[test]
fn loaded_settings_selection_falls_back_in_order() {
    let mut primary = AppSettings::default();
    primary.context_message_limit = 3;
    let mut backup = AppSettings::default();
    backup.context_message_limit = 4;
    let mut legacy = AppSettings::default();
    legacy.context_message_limit = 5;

    assert_eq!(
        select_loaded_settings(Some(Ok(primary)), None, None).context_message_limit,
        3
    );
    assert_eq!(
        select_loaded_settings(Some(Err("x".into())), Some(Ok(backup)), None)
            .context_message_limit,
        4
    );
    assert_eq!(
        select_loaded_settings(None, None, Some(legacy)).context_message_limit,
        5
    );
    assert_eq!(
        select_loaded_settings(Some(Err("x".into())), Some(Err("y".into())), None)
            .context_message_limit,
        10
    );
}

#[test]
fn sibling_file_names() {
    assert_eq!(temp_file_name(Some("state.json")), "state.json.tmp");
    assert_eq!(backup_file_name(Some("settings.json")), "settings.json.bak");
    assert_eq!(temp_file_name(None), "state.tmp");
}

fn loaded(chats: Vec<ChatSession>, active: u64, legacy: Option<AppSettings>) -> LoadedChatState {
    LoadedChatState {
        chat_sessions: chats,
        active_chat_id: active,
        legacy_settings: legacy,
    }
}

fn assert_state_invariant(state: &AppState) {
    assert!(!state.chats.is_empty());
    assert!(state.chats.iter().any(|c| c.id == state.active_chat_id));
    for chat in &state.chats {
        assert!(chat.id < state.next_chat_id || chat.id == u64::MAX);
        for message in &chat.messages {
            assert!(message.id < state.next_message_id || message.id == u64::MAX);
        }
    }
}

#[test]
fn load_keeps_primary_chats_with_their_settings() {
    let mut settings = AppSettings::default();
    settings.context_message_limit = 6;
    let state = load_state_from_outcomes(
        Some(Ok(loaded(vec![chat(4, &[2, 9]), chat(6, &[])], 6, None))),
        None,
        Some(Ok(settings)),
        None,
    );
    assert_state_invariant(&state);
    assert_eq!(state.active_chat_id, 6);
    assert_eq!(state.next_chat_id, 7);
    assert_eq!(state.next_message_id, 10);
    assert_eq!(state.settings.context_message_limit, 6);
}

#[test]
fn load_uses_backup_and_legacy_settings() {
    let mut legacy = AppSettings::default();
    legacy.context_message_limit = 4;
    let state = load_state_from_outcomes(
        Some(Err("broken".into())),
        Some(Ok(loaded(vec![chat(2, &[5])], 99, Some(legacy)))),
        None,
        None,
    );
    assert_state_invariant(&state);
    assert_eq!(state.active_chat_id, 2);
    assert_eq!(state.next_message_id, 6);
    assert_eq!(state.settings.context_message_limit, 4);
}

#[test]
fn load_without_chats_starts_fresh_with_file_settings() {
    let mut legacy = AppSettings::default();
    legacy.context_message_limit = 4;
    let mut from_file = AppSettings::default();
    from_file.context_message_limit = 12;
    let state = load_state_from_outcomes(
        Some(Ok(loaded(Vec::new(), 1, Some(legacy)))),
        None,
        Some(Err("broken".into())),
        Some(Ok(from_file)),
    );
    assert_state_invariant(&state);
    assert_eq!(state.chats.len(), 1);
    assert_eq!(state.chats[0].title, "Welcome");
    assert_eq!(state.next_message_id, 3);
    assert_eq!(state.settings.context_message_limit, 12);

    let fresh = load_state_from_outcomes(None, None, None, None);
    assert_state_invariant(&fresh);
    assert_eq!(fresh.active_chat_id, 1);
    assert_eq!(fresh.settings.context_message_limit, 10);
}

#[test]
fn saved_state_loads_back_unchanged() {
    let mut saved = AppState::from_parts(
        AppSettings::default(),
        vec![chat(3, &[10, 4]), chat(7, &[11])],
        3,
    )
    .unwrap();
    saved.settings.context_message_limit = 25;
    saved.settings.memory = vec!["Uses COSMIC".to_string()];
    saved.settings.provider.openrouter_api_key = "sk-test".to_string();

    let chat_file = PersistedChatStateV1::from_runtime(&saved);
    let mut settings_file = PersistedSettingsV1::from_runtime(&saved.settings);
    assert_eq!(settings_file.provider.openrouter_api_key, "sk-test");
    // The settings file does not hold the API key or the legacy model names.
    settings_file.provider.openrouter_api_key = String::new();
    settings_file.provider.legacy_openrouter_model = String::new();
    settings_file.provider.legacy_lmstudio_model = String::new();
    let read_chats =
        LoadedChatState::from_persisted(PersistedChatState::PersistedChatStateV1(chat_file));
    let read_settings = settings_file.into_runtime();
    let back = load_state_from_outcomes(Some(Ok(read_chats)), None, Some(Ok(read_settings)), None);

    assert_eq!(back.chats.len(), saved.chats.len());
    for (a, b) in back.chats.iter().zip(saved.chats.iter()) {
        assert_eq!(a.id, b.id);
        assert_eq!(a.title, b.title);
        assert_eq!(a.messages.len(), b.messages.len());
    }
    assert_eq!(back.active_chat_id, 3);
    assert_eq!(back.next_chat_id, 8);
    assert_eq!(back.next_message_id, 12);
    assert_eq!(back.settings.context_message_limit, 25);
    assert_eq!(back.settings.memory, vec!["Uses COSMIC".to_string()]);
    assert_eq!(back.settings.provider.openrouter_api_key, "");
}

#[test]
fn load_normalizes_the_kept_settings() {
    let mut raw = AppSettings::default();
    raw.memory = vec!["  keep  ".to_string(), " ".to_string()];
    let state = load_state_from_outcomes(None, None, Some(Ok(raw)), None);
    assert_eq!(state.settings.memory, vec!["keep".to_string()]);
}

#[test]
fn loaded_settings_come_normalized() {
    let mut raw = PersistedSettingsV1::from_runtime(&AppSettings::default());
    raw.memory = vec!["  keep  ".to_string(), "   ".to_string()];
    let settings = raw.into_runtime();
    assert_eq!(settings.memory, vec!["keep".to_string()]);
}
