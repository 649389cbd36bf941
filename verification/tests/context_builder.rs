use cosmic_ai_panel::chat::{ChatMessage, ChatRole, PreferenceLevel, UserProfile};
use cosmic_ai_panel::runtime::context::builder::{build_context, build_prompt_preview};

#[test]
fn build_context_assembles_system_layers() {
    let profile = UserProfile {
        name: Some("Lev".into()),
        language: Some("English".into()),
        occupation: Some("Rust desktop engineer".into()),
        response_style: Some("Concise".into()),
        more_about_you: Some("Builds for COSMIC".into()),
        header_lists: PreferenceLevel::More,
        emoji: PreferenceLevel::Less,
    };
    let memory = vec![
        "User uses COSMIC desktop".to_string(),
        "User works with Rust".to_string(),
    ];
    let history = vec![ChatMessage::new(1, ChatRole::User, "hello")];

    let built = build_context("Base prompt", &profile, &memory, &history);

    assert_eq!(built.history.len(), 1);
    assert_eq!(built.history[0].content, "hello");
    assert_eq!(
        built.system_prompt,
        Some(
            "Base prompt\n\nUser profile:\n- Name: Lev\n- Preferred language: English\n- Occupation: Rust desktop engineer\n- Response style: Concise\n- More about you: Builds for COSMIC\n- Header & lists: Use more headings and bullet lists when that improves clarity.\n- Emoji: Avoid emoji unless the user explicitly asks for them.\n\nKnown user memory:\n- User uses COSMIC desktop\n- User works with Rust"
                .to_string()
        )
    );
}

#[test]
fn build_context_skips_empty_history_and_sections() {
    let built = build_context(
        "",
        &UserProfile::default(),
        &["   ".to_string()],
        &[ChatMessage::new(1, ChatRole::User, "   ")],
    );

    assert_eq!(built.system_prompt, None);
    assert!(built.history.is_empty());
}

#[test]
fn build_prompt_preview_shows_code_and_text_modes() {
    let profile = UserProfile {
        name: Some("Lev".into()),
        emoji: PreferenceLevel::Less,
        ..UserProfile::default()
    };

    let preview = build_prompt_preview("Base prompt", &profile, &["Rust".into()]);

    assert!(preview.code.contains("build_profile_prompt(profile)"));
    assert!(preview.code.contains("\"emoji\": \"less\""));
    assert!(preview.text.contains("Base prompt"));
    assert!(preview.text.contains("Known user memory"));
}

#[test]
fn build_context_keeps_roles_and_order_of_non_blank_history() {
    let history = vec![
        ChatMessage::new(1, ChatRole::User, "first"),
        ChatMessage::new(2, ChatRole::Assistant, "  "),
        ChatMessage::new(3, ChatRole::Assistant, "second"),
    ];
    let built = build_context("", &UserProfile::default(), &[], &history);

    assert_eq!(built.history.len(), 2);
    assert_eq!(built.history[0].role, ChatRole::User);
    assert_eq!(built.history[0].content, "first");
    assert_eq!(built.history[1].role, ChatRole::Assistant);
    assert_eq!(built.history[1].content, "second");
}

#[test]
fn build_context_with_only_memory_has_memory_section() {
    let built = build_context(
        "  ",
        &UserProfile::default(),
        &["  likes tea  ".to_string(), "".to_string()],
        &[],
    );

    assert_eq!(
        built.system_prompt,
        Some("Known user memory:\n- likes tea".to_string())
    );
}

#[test]
fn build_context_profile_with_default_preferences_only_lists_text_fields() {
    let profile = UserProfile {
        occupation: Some("line one\nline two".into()),
        ..UserProfile::default()
    };
    let built = build_context("Base", &profile, &[], &[]);

    let prompt = built.system_prompt.unwrap();
    assert!(prompt.starts_with("Base\n\nUser profile:\n"));
    assert!(prompt.contains("Occupation"));
    assert!(!prompt.contains("Header & lists"));
    assert!(!prompt.contains("Emoji"));
}

#[test]
fn prompt_preview_code_lists_memory_as_json() {
    let preview = build_prompt_preview(
        "Base",
        &UserProfile::default(),
        &["Uses \"COSMIC\"".to_string()],
    );
    assert!(preview.code.contains("\"Uses \\\"COSMIC\\\"\""));
    assert!(preview.code.contains("\"name\": null"));
    assert!(preview.text.contains("- Uses \"COSMIC\""));
}
