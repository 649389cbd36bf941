use cosmic_ai_panel::chat::{
    default_base_system_prompt, normalize_optional_field, truncate_model_label, AppSettings,
    ChatSession, PreferenceLevel, ProviderKind, ProviderSettings, SavedModel, UserProfile,
};
use cosmic_ai_panel::display::{compact_text_preview, summarize_title};
use cosmic_ai_panel::personalization::{
    classify_schema_version, unsupported_personalization_version_message,
    PersonalizationBundleV1, PersonalizationSettings, SchemaVersion,
    CURRENT_PERSONALIZATION_SCHEMA_VERSION,
};
use cosmic_ai_panel::settings_state::{
    normalize_form_field, PromptPreviewMode, SettingsForm, SettingsTab, SettingsValidationError,
    TextEditorModal,
};

fn model(provider: ProviderKind, name: &str) -> SavedModel {
    SavedModel::new(provider, name)
}

#[test]
fn provider_and_preference_indices_roundtrip() {
    for provider in [ProviderKind::OpenRouter, ProviderKind::LmStudio] {
        assert_eq!(ProviderKind::from_index(provider.index()), provider);
    }
    for level in [PreferenceLevel::More, PreferenceLevel::Default, PreferenceLevel::Less] {
        assert_eq!(PreferenceLevel::from_index(level.index()), level);
    }
    assert_eq!(ProviderKind::from_index(7), ProviderKind::OpenRouter);
    assert_eq!(PreferenceLevel::from_index(9), PreferenceLevel::Default);
    assert_eq!(ProviderKind::LmStudio.label(), "LM Studio");
    assert_eq!(PreferenceLevel::Less.label(), "Less");
}

#[test]
fn saved_model_labels() {
    let remote = model(ProviderKind::OpenRouter, "openai/gpt-4o-mini-very-long-name");
    assert_eq!(remote.dropdown_label(), "OpenRouter · openai/gpt-4o-mini-very-long-name");
    assert_eq!(remote.chat_dropdown_label(), "gpt-4o-mini-very-lon...");
    let local = model(ProviderKind::LmStudio, "qwen/");
    assert_eq!(local.chat_dropdown_label(), "qwen/ (local)");
    assert_eq!(truncate_model_label("abcdef", 3), "abc...");
    assert_eq!(truncate_model_label("abc", 3), "abc");
    assert_eq!(SavedModel::normalized(ProviderKind::LmStudio, "   "), None);
    assert_eq!(
        SavedModel::normalized(ProviderKind::LmStudio, " m "),
        Some(model(ProviderKind::LmStudio, "m"))
    );
}

#[test]
fn provider_settings_normalize_folds_models_and_clamps() {
    let mut settings = ProviderSettings::default();
    settings.saved_models = vec![
        model(ProviderKind::OpenRouter, " a "),
        model(ProviderKind::OpenRouter, "a"),
        model(ProviderKind::LmStudio, "  "),
    ];
    settings.legacy_lmstudio_model = "local".to_string();
    settings.default_model = Some(model(ProviderKind::LmStudio, " local "));
    settings.active_provider = ProviderKind::OpenRouter;
    settings.timeout_seconds = 1;
    settings.retry_attempts = 9;
    settings.retry_delay_seconds = 99;
    settings.lmstudio_base_url = " http://x ".to_string();

    settings.normalize();

    assert_eq!(
        settings.saved_models,
        vec![model(ProviderKind::OpenRouter, "a"), model(ProviderKind::LmStudio, "local")]
    );
    assert_eq!(settings.default_model, Some(model(ProviderKind::OpenRouter, "a")));
    assert_eq!(settings.active_provider, ProviderKind::OpenRouter);
    assert_eq!(settings.timeout_seconds, 5);
    assert_eq!(settings.retry_attempts, 5);
    assert_eq!(settings.retry_delay_seconds, 60);
    assert_eq!(settings.lmstudio_base_url, "http://x");
    assert_eq!(settings.active_model(), "a");

    let mut again = settings.clone();
    again.normalize();
    assert_eq!(again.saved_models, settings.saved_models);
    assert_eq!(again.default_model, settings.default_model);
}

#[test]
fn profile_normalize_and_is_empty() {
    let mut profile = UserProfile {
        name: Some("  Lev ".into()),
        language: Some("   ".into()),
        ..UserProfile::default()
    };
    profile.normalize();
    assert_eq!(profile.name.as_deref(), Some("Lev"));
    assert_eq!(profile.language, None);
    assert!(!profile.is_empty());
    assert!(UserProfile::default().is_empty());
    assert_eq!(normalize_optional_field(Some(" x ".into())), Some("x".to_string()));
    assert_eq!(normalize_optional_field(None), None);
}

#[test]
fn app_settings_normalize_trims_memory() {
    let mut settings = AppSettings::default();
    settings.memory = vec!["  a ".into(), "   ".into(), "b".into()];
    settings.normalize();
    assert_eq!(settings.memory, vec!["a".to_string(), "b".to_string()]);
    assert_eq!(settings.base_system_prompt, default_base_system_prompt());
    assert_eq!(settings.context_message_limit, 10);
}

#[test]
fn new_chat_session_has_numbered_title() {
    let chat = ChatSession::new(4, ProviderKind::LmStudio, "m");
    assert_eq!(chat.title, "New Chat 4");
    assert!(chat.messages.is_empty());
    assert_eq!(chat.model, "m");
}

#[test]
fn personalization_normalize_and_bundle_roundtrip() {
    let mut settings = PersonalizationSettings {
        base_system_prompt: "   ".into(),
        profile: UserProfile {
            name: Some(" Lev ".into()),
            ..UserProfile::default()
        },
        memory: vec![" Rust ".into(), " ".into()],
    };
    settings.normalize();
    assert_eq!(settings.base_system_prompt, default_base_system_prompt());
    assert_eq!(settings.profile.name.as_deref(), Some("Lev"));
    assert_eq!(settings.memory, vec!["Rust".to_string()]);

    let bundle = PersonalizationBundleV1::from_settings(&settings);
    assert_eq!(bundle.schema_version, CURRENT_PERSONALIZATION_SCHEMA_VERSION);
    let back = bundle.into_settings();
    assert_eq!(back.base_system_prompt, settings.base_system_prompt);
    assert_eq!(back.profile, settings.profile);
    assert_eq!(back.memory, settings.memory);
}

#[test]
fn schema_versions_are_classified() {
    assert_eq!(classify_schema_version(Some(1), 1), SchemaVersion::Current);
    assert_eq!(classify_schema_version(None, 1), SchemaVersion::Legacy);
    assert_eq!(classify_schema_version(Some(3), 1), SchemaVersion::Unsupported(3));
    assert_eq!(
        unsupported_personalization_version_message(3),
        "Unsupported personalization schema_version 3"
    );
}

#[test]
fn settings_labels() {
    assert_eq!(SettingsTab::default(), SettingsTab::Provider);
    assert_eq!(SettingsTab::Personalization.label(), "Personalization");
    assert_eq!(TextEditorModal::BaseSystemPrompt.title(), "Edit base system prompt");
    assert_eq!(TextEditorModal::ImportPersonalization.action_label(), Some("Import"));
    assert_eq!(TextEditorModal::ExportPersonalization.action_label(), None);
    assert!(TextEditorModal::ExportPersonalization.is_read_only());
    assert!(!TextEditorModal::MoreAboutYou.is_read_only());
    assert_eq!(PromptPreviewMode::default().label(), "Code");
    assert_eq!(SettingsForm::provider_labels(), ["OpenRouter", "LM Studio"]);
    assert_eq!(SettingsForm::preference_labels(), ["More", "Default", "Less"]);
    assert_eq!(
        SettingsValidationError::TimeoutSeconds.message(),
        "Timeout must be a positive whole number."
    );
}

#[test]
fn form_from_default_settings_shows_numbers() {
    let form = SettingsForm::default();
    assert_eq!(form.timeout_seconds, "20");
    assert_eq!(form.retry_attempts, "1");
    assert_eq!(form.retry_delay_seconds, "2");
    assert_eq!(form.context_message_limit, "10");
    assert_eq!(form.provider(), ProviderKind::OpenRouter);
    assert_eq!(form.profile_name, "");
    assert_eq!(form.header_lists(), PreferenceLevel::Default);
}

#[test]
fn form_roundtrip_leaves_normalized_settings_unchanged() {
    let mut settings = AppSettings::default();
    settings.provider.saved_models = vec![model(ProviderKind::LmStudio, "local")];
    settings.provider.default_model = Some(model(ProviderKind::LmStudio, "local"));
    settings.provider.active_provider = ProviderKind::LmStudio;
    settings.profile.name = Some("Lev".into());
    settings.memory = vec!["Rust".into()];
    settings.normalize();
    let before = settings.clone();

    let form = SettingsForm::from_settings(&settings);
    assert_eq!(form.apply_to_settings(&mut settings), Ok(()));

    assert_eq!(settings.provider.saved_models, before.provider.saved_models);
    assert_eq!(settings.provider.default_model, before.provider.default_model);
    assert_eq!(settings.provider.active_provider, before.provider.active_provider);
    assert_eq!(settings.provider.timeout_seconds, before.provider.timeout_seconds);
    assert_eq!(settings.profile, before.profile);
    assert_eq!(settings.memory, before.memory);
    assert_eq!(settings.context_message_limit, before.context_message_limit);
}

#[test]
fn form_validation_errors_in_field_order() {
    let mut settings = AppSettings::default();
    let mut form = SettingsForm::from_settings(&settings);

    form.context_message_limit = "ten".into();
    form.timeout_seconds = "0".into();
    assert_eq!(
        form.apply_to_settings(&mut settings),
        Err(SettingsValidationError::ContextLimit)
    );

    form.context_message_limit = " 12 ".into();
    assert_eq!(
        form.apply_to_settings(&mut settings),
        Err(SettingsValidationError::TimeoutSeconds)
    );

    form.timeout_seconds = "+30".into();
    form.retry_attempts = "300".into();
    assert_eq!(
        form.apply_to_settings(&mut settings),
        Err(SettingsValidationError::RetryAttempts)
    );

    form.retry_attempts = "3".into();
    form.retry_delay_seconds = "-1".into();
    assert_eq!(
        form.apply_to_settings(&mut settings),
        Err(SettingsValidationError::RetryDelaySeconds)
    );
    assert_eq!(settings.context_message_limit, 10);

    form.retry_delay_seconds = "4".into();
    form.openrouter_api_key = "  key  ".into();
    form.profile_name = "  Lev  ".into();
    assert_eq!(form.apply_to_settings(&mut settings), Ok(()));
    assert_eq!(settings.context_message_limit, 12);
    assert_eq!(settings.provider.timeout_seconds, 30);
    assert_eq!(settings.provider.retry_attempts, 3);
    assert_eq!(settings.provider.retry_delay_seconds, 4);
    assert_eq!(settings.provider.openrouter_api_key, "key");
    assert_eq!(settings.profile.name.as_deref(), Some("Lev"));
}

#[test]
fn form_model_management() {
    let mut form = SettingsForm::default();
    assert!(!form.add_model(ProviderKind::LmStudio, "   "));
    assert!(form.add_model(ProviderKind::LmStudio, " local "));
    assert_eq!(form.default_model, Some(model(ProviderKind::LmStudio, "local")));
    assert_eq!(form.provider(), ProviderKind::LmStudio);
    assert!(form.add_model(ProviderKind::OpenRouter, "remote"));
    assert!(form.add_model(ProviderKind::OpenRouter, "remote"));
    assert_eq!(form.saved_models.len(), 2);
    assert_eq!(form.default_model_index(), Some(0));
    assert_eq!(
        form.default_model_options(),
        vec!["LM Studio · local".to_string(), "OpenRouter · remote".to_string()]
    );

    form.select_provider(ProviderKind::OpenRouter);
    assert_eq!(form.default_model, Some(model(ProviderKind::OpenRouter, "remote")));

    form.select_default_model(0);
    assert_eq!(form.provider(), ProviderKind::LmStudio);
    form.select_default_model(5);
    assert_eq!(form.default_model_index(), Some(0));

    form.remove_model(0);
    assert_eq!(form.saved_models, vec![model(ProviderKind::OpenRouter, "remote")]);
    assert_eq!(form.default_model, Some(model(ProviderKind::OpenRouter, "remote")));
    assert_eq!(form.provider(), ProviderKind::OpenRouter);

    form.remove_model(3);
    assert_eq!(form.saved_models.len(), 1);
    form.remove_model(0);
    assert_eq!(form.default_model, None);
    assert_eq!(form.default_model_index(), None);
}

#[test]
fn form_memory_and_personalization() {
    let mut form = SettingsForm::default();
    form.add_memory_item();
    form.set_memory_item(0, "  Rust ".into());
    form.set_memory_item(4, "ignored".into());
    form.add_memory_item();
    form.remove_memory_item(7);
    assert_eq!(form.memory_items, vec!["  Rust ".to_string(), String::new()]);
    form.remove_memory_item(1);
    form.select_header_lists(0);
    form.select_emoji(42);
    form.profile_occupation = " dev ".into();

    let personalization = form.personalization_settings();
    assert_eq!(personalization.memory, vec!["Rust".to_string()]);
    assert_eq!(personalization.profile.header_lists, PreferenceLevel::More);
    assert_eq!(personalization.profile.emoji, PreferenceLevel::Default);
    assert_eq!(personalization.profile.occupation.as_deref(), Some("dev"));

    form.reset_personalization();
    assert!(form.memory_items.is_empty());
    assert_eq!(form.profile_occupation, "");
    assert_eq!(form.header_lists(), PreferenceLevel::Default);
    assert_eq!(form.base_system_prompt, default_base_system_prompt());

    form.apply_personalization(&personalization);
    assert_eq!(form.memory_items, vec!["Rust".to_string()]);
    assert_eq!(form.profile_occupation, "dev");
    assert_eq!(form.header_lists(), PreferenceLevel::More);
    assert_eq!(normalize_form_field("  "), None);
    assert_eq!(normalize_form_field(" a "), Some("a".to_string()));
}

#[test]
fn compact_preview_texts() {
    assert_eq!(compact_text_preview("   "), "Not set");
    assert_eq!(compact_text_preview("  short  "), "short");
    assert_eq!(compact_text_preview("first\nsecond"), "first...");
    let long = "x".repeat(80);
    assert_eq!(compact_text_preview(&long), format!("{}...", "x".repeat(72)));
    assert_eq!(compact_text_preview(&"y".repeat(72)), "y".repeat(72));
}

#[test]
fn chat_titles_from_prompts() {
    assert_eq!(summarize_title("   "), "New chat");
    assert_eq!(summarize_title("  Hello there  "), "Hello there");
    assert_eq!(
        summarize_title(&"z".repeat(40)),
        format!("{}...", "z".repeat(36))
    );
}

#[test]
fn timestamps_come_from_the_clock() {
    let before = cosmic_ai_panel::chat::now_timestamp();
    assert!(before > 1_600_000_000);
    let mut chat = ChatSession::new(1, ProviderKind::OpenRouter, "m");
    chat.touch();
    assert!(chat.updated_at >= before);
}

#[test]
fn invalid_field_is_restored_from_settings() {
    let settings = AppSettings::default();
    let mut form = SettingsForm::from_settings(&settings);
    form.timeout_seconds = "soon".into();
    form.retry_attempts = "many".into();
    let error = form.apply_to_settings(&mut AppSettings::default()).unwrap_err();
    assert_eq!(error, SettingsValidationError::TimeoutSeconds);
    form.restore_invalid_field(error, &settings);
    assert_eq!(form.timeout_seconds, "20");
    assert_eq!(form.retry_attempts, "many");
    assert_eq!(error.message(), "Timeout must be a positive whole number.");
}

#[test]
fn clock_readings_before_the_epoch_give_zero() {
    assert_eq!(cosmic_ai_panel::chat::timestamp_from_clock(Some(42)), 42);
    assert_eq!(cosmic_ai_panel::chat::timestamp_from_clock(None), 0);
}

#[test]
fn option_lists_follow_index_order() {
    assert_eq!(
        ProviderKind::all(),
        [ProviderKind::OpenRouter, ProviderKind::LmStudio]
    );
    for (i, provider) in ProviderKind::all().into_iter().enumerate() {
        assert_eq!(provider.index(), i);
        assert_eq!(ProviderKind::from_index(i), provider);
    }
    assert_eq!(
        PreferenceLevel::all(),
        [PreferenceLevel::More, PreferenceLevel::Default, PreferenceLevel::Less]
    );
    assert_eq!(
        SettingsTab::all(),
        [SettingsTab::Provider, SettingsTab::Personalization, SettingsTab::Skills]
    );
    assert_eq!(
        PromptPreviewMode::all(),
        [PromptPreviewMode::Code, PromptPreviewMode::Text]
    );
}

#[test]
fn form_flags_fields_that_saving_refuses() {
    let mut form = SettingsForm::from_settings(&AppSettings::default());
    assert!(!form.is_field_invalid(SettingsValidationError::TimeoutSeconds));
    assert!(!form.is_field_invalid(SettingsValidationError::RetryAttempts));
    assert!(!form.is_field_invalid(SettingsValidationError::RetryDelaySeconds));
    assert!(!form.is_field_invalid(SettingsValidationError::ContextLimit));

    form.timeout_seconds = " 0 ".to_string();
    form.retry_attempts = "256".to_string();
    form.retry_delay_seconds = "two".to_string();
    form.context_message_limit = " +7 ".to_string();
    assert!(form.is_field_invalid(SettingsValidationError::TimeoutSeconds));
    assert!(form.is_field_invalid(SettingsValidationError::RetryAttempts));
    assert!(form.is_field_invalid(SettingsValidationError::RetryDelaySeconds));
    assert!(!form.is_field_invalid(SettingsValidationError::ContextLimit));

    let mut settings = AppSettings::default();
    assert_eq!(
        form.apply_to_settings(&mut settings),
        Err(SettingsValidationError::TimeoutSeconds)
    );
}

#[test]
fn invalid_field_captions() {
    assert_eq!(
        SettingsValidationError::TimeoutSeconds.caption(),
        "Timeout must be a positive whole number"
    );
    assert_eq!(
        SettingsValidationError::RetryAttempts.caption(),
        "Retry attempts must be a whole number"
    );
    assert_eq!(
        SettingsValidationError::RetryDelaySeconds.caption(),
        "Retry delay must be a whole number"
    );
    assert_eq!(
        SettingsValidationError::ContextLimit.caption(),
        "Context limit must be a whole number"
    );
}

#[test]
fn default_model_and_memory_summaries() {
    let mut form = SettingsForm::from_settings(&AppSettings::default());
    assert_eq!(form.default_model_summary(), "No default model selected");
    assert_eq!(form.memory_summary(), "No manual memory yet");

    form.default_model = Some(model(ProviderKind::LmStudio, "qwen"));
    form.memory_items = vec!["a".to_string(), "b".to_string(), "c".to_string()];
    assert_eq!(form.default_model_summary(), "LM Studio · qwen");
    assert_eq!(form.memory_summary(), "3 memory items saved");
}
