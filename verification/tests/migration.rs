use cosmic_ai_panel::chat::{
    AppSettings, PreferenceLevel, ProviderKind, SavedModel, UserProfile,
};
use cosmic_ai_panel::personalization::PersonalizationSettings;
use cosmic_ai_panel::runtime::personalization::{
    ai_migration_candidates, ai_migration_helper_prompt, ai_migration_helper_prompt_markdown,
    build_ai_migration_request, extract_json_object, invalid_migration_response_error,
    personalization_completion_score, repair_json_candidate, strip_markdown_fences,
};

#[test]
fn build_ai_migration_request_uses_selected_model() {
    let settings = AppSettings::default();
    let model = SavedModel::new(ProviderKind::LmStudio, "local-model");

    let request =
        build_ai_migration_request(&settings, None, &model, "Works with Rust", None).unwrap();

    assert_eq!(request.provider, ProviderKind::LmStudio);
    assert_eq!(request.model, "local-model");
    assert_eq!(request.messages.len(), 2);
}

#[test]
fn build_ai_migration_request_includes_previous_error_feedback() {
    let settings = AppSettings::default();
    let model = SavedModel::new(ProviderKind::OpenRouter, "openrouter/test");

    let request = build_ai_migration_request(
        &settings,
        Some("token"),
        &model,
        "Works with Rust",
        Some("Model response was not valid personalization JSON."),
    )
    .unwrap();

    assert!(request.messages[1]
        .content
        .contains("Previous attempt failed with this error"));
    assert!(request.messages[1].content.contains("corrected JSON only"));
}

#[test]
fn local_ai_migration_request_uses_stricter_contract() {
    let settings = AppSettings::default();
    let model = SavedModel::new(ProviderKind::LmStudio, "local-model");

    let request =
        build_ai_migration_request(&settings, None, &model, "Works with Rust", None).unwrap();

    assert!(request.messages[0]
        .content
        .contains("The first character must be {"));
    assert!(request.messages[1]
        .content
        .contains("Return exactly one valid JSON object"));
}

#[test]
fn helper_prompt_markdown_is_copy_ready() {
    let prompt = ai_migration_helper_prompt_markdown();

    assert!(prompt.starts_with("```text\n"));
    assert!(prompt.contains("\"schema_version\": 1"));
    assert!(prompt.contains("Output only one ```json``` code block."));
}

#[test]
fn helper_prompt_quotes_the_default_base_prompt() {
    let prompt = ai_migration_helper_prompt();
    assert!(prompt.contains("\"You are a concise assistant integrated into COSMIC.\""));
    assert!(ai_migration_helper_prompt_markdown().ends_with("\n```"));
}

#[test]
fn build_ai_migration_request_rejects_blank_notes() {
    let settings = AppSettings::default();
    let model = SavedModel::new(ProviderKind::LmStudio, "local-model");

    let error = build_ai_migration_request(&settings, None, &model, "   \n ", None).unwrap_err();
    assert_eq!(error, "Paste raw personalization notes first.");
}

#[test]
fn build_ai_migration_request_needs_openrouter_key() {
    let settings = AppSettings::default();
    let model = SavedModel::new(ProviderKind::OpenRouter, "openrouter/test");

    let result = build_ai_migration_request(&settings, None, &model, "notes", None);
    assert!(result.is_err());

    let request =
        build_ai_migration_request(&settings, Some("token"), &model, "notes", None).unwrap();
    assert_eq!(request.api_key.as_deref(), Some("token"));
    assert_eq!(request.messages[0].role, "system");
    assert_eq!(request.messages[1].role, "user");
    assert!(request.messages[1].content.contains("notes"));
}

#[test]
fn strip_markdown_fences_returns_body_of_fenced_block() {
    assert_eq!(
        strip_markdown_fences("```json\n{\"a\": 1}\n```"),
        "{\"a\": 1}"
    );
    assert_eq!(strip_markdown_fences("  plain text  "), "plain text");
    assert_eq!(strip_markdown_fences("```only```"), "only");
    assert_eq!(strip_markdown_fences("```unterminated"), "```unterminated");
}

#[test]
fn extract_json_object_finds_first_balanced_object() {
    assert_eq!(
        extract_json_object("Sure! {\"a\": {\"b\": \"}\"}} trailing {\"c\": 1}"),
        "{\"a\": {\"b\": \"}\"}}"
    );
    assert_eq!(extract_json_object("no object here"), "");
    assert_eq!(extract_json_object("} {\"x\": 1"), "");
}

#[test]
fn repair_json_candidate_drops_trailing_commas_outside_strings() {
    let repaired = repair_json_candidate("{\"a\": [1, 2, ], \"b\": \",}\", }");
    assert_eq!(repaired, "{\"a\": [1, 2 ], \"b\": \",}\" }");

    let untouched = repair_json_candidate("{\"a\": 1}");
    assert_eq!(untouched, "{\"a\": 1}");
}

#[test]
fn migration_candidates_cover_fences_objects_and_repairs() {
    let response = "Here you go:\n```json\n{\"a\": 1,}\n```";
    let candidates = ai_migration_candidates(response);

    assert_eq!(candidates[0], response.trim());
    assert!(candidates.contains(&"{\"a\": 1,}".to_string()));
    assert!(candidates.contains(&"{\"a\": 1}".to_string()));
}

#[test]
fn migration_candidates_decode_json_string_payloads() {
    let response = "\"{\\\"a\\\": 1}\"";
    let candidates = ai_migration_candidates(response);

    assert_eq!(candidates[0], response);
    assert_eq!(candidates[1], "{\"a\": 1}");
}

#[test]
fn migration_candidates_skip_blank_responses() {
    assert!(ai_migration_candidates("   ").is_empty());
}

#[test]
fn invalid_response_error_text() {
    assert_eq!(
        invalid_migration_response_error(),
        "Model response was not valid personalization JSON."
    );
}

#[test]
fn completion_score_counts_filled_parts() {
    let settings = PersonalizationSettings {
        base_system_prompt: "Stay concise".into(),
        profile: UserProfile {
            name: Some("Lev".into()),
            language: Some("English".into()),
            occupation: None,
            response_style: None,
            more_about_you: None,
            header_lists: PreferenceLevel::Default,
            emoji: PreferenceLevel::Less,
        },
        memory: vec!["Uses COSMIC".into()],
    };
    assert_eq!(personalization_completion_score(&settings), 5);

    let empty = PersonalizationSettings {
        base_system_prompt: "   ".into(),
        profile: UserProfile::default(),
        memory: Vec::new(),
    };
    assert_eq!(personalization_completion_score(&empty), 0);
}

fn candidate_with_profile_name(candidates: &[String], name: &str) -> serde_json::Value {
    candidates
        .iter()
        .filter_map(|c| serde_json::from_str::<serde_json::Value>(c).ok())
        .find(|v| v.pointer("/profile/name").and_then(|n| n.as_str()) == Some(name))
        .expect("a candidate imports")
}

#[test]
fn migration_candidates_of_fenced_json_response() {
    let response = r#"```json
{
  "schema_version": 1,
  "base_system_prompt": "Stay concise",
  "profile": {
    "name": "Lev",
    "language": "English",
    "occupation": null,
    "response_style": null,
    "more_about_you": null,
    "header_lists": "default",
    "emoji": "less"
  },
  "memory": ["Uses COSMIC"]
}
```"#;
    let candidates = ai_migration_candidates(response);

    assert!(candidates.contains(&strip_markdown_fences(response)));
    let value = candidate_with_profile_name(&candidates, "Lev");
    assert_eq!(value.pointer("/profile/emoji").and_then(|v| v.as_str()), Some("less"));
}

#[test]
fn migration_candidates_of_response_with_trailing_commas() {
    let response = r#"{
  "schema_version": 1,
  "base_system_prompt": "Stay concise",
  "profile": {
    "name": "Lev",
    "language": "English",
    "occupation": null,
    "response_style": null,
    "more_about_you": null,
    "header_lists": "default",
    "emoji": "less",
  },
  "memory": ["Uses COSMIC",],
}"#;
    let candidates = ai_migration_candidates(response);

    assert!(serde_json::from_str::<serde_json::Value>(&candidates[0]).is_err());
    assert!(candidates.contains(&repair_json_candidate(response.trim())));
    let value = candidate_with_profile_name(&candidates, "Lev");
    assert_eq!(value["memory"].as_array().map(|a| a.len()), Some(1));
    assert_eq!(value["memory"][0].as_str(), Some("Uses COSMIC"));
}

#[test]
fn migration_candidates_of_json_string_payload() {
    let response = r#""{\"schema_version\":1,\"base_system_prompt\":\"Stay concise\",\"profile\":{\"name\":\"Lev\",\"language\":null,\"occupation\":null,\"response_style\":null,\"more_about_you\":null,\"header_lists\":\"default\",\"emoji\":\"default\"},\"memory\":[\"Uses COSMIC\"]}""#;
    let candidates = ai_migration_candidates(response);

    assert_eq!(candidates[0], response);
    let value: serde_json::Value = serde_json::from_str(&candidates[1]).unwrap();
    assert_eq!(value.pointer("/profile/name").and_then(|v| v.as_str()), Some("Lev"));
    assert_eq!(value["memory"].as_array().map(|a| a.len()), Some(1));
    assert_eq!(value["memory"][0].as_str(), Some("Uses COSMIC"));
}
