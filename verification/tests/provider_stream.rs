use cosmic_ai_panel::chat::{AppSettings, ChatMessage, ChatRole, ChatSession, ProviderKind};
use cosmic_ai_panel::provider::{
    build_request, completion_event, connection_target, context_tail_start, event_payloads,
    extract_error_message, extract_stream_text, find_event_boundary, finish_stream,
    handle_sse_event, lmstudio_chat_endpoint, lmstudio_models_endpoint, role_name,
    ProviderEvent, StreamDecoder,
};

fn chars(s: &str) -> Vec<char> {
    s.chars().collect()
}

fn text(v: &[char]) -> String {
    v.iter().collect()
}

#[test]
fn extract_stream_text_uses_message_fallback() {
    let payload = r#"{"choices": [{"message": {"content": "hello from fallback"}}]}"#;

    assert_eq!(
        extract_stream_text(payload, true),
        Some("hello from fallback".to_string())
    );
}

#[test]
fn extract_stream_text_preserves_whitespace() {
    let payload = r#"{"choices": [{"delta": {"content": " hello\nworld "}}]}"#;

    assert_eq!(
        extract_stream_text(payload, false),
        Some(" hello\nworld ".to_string())
    );
}

#[test]
fn handle_sse_event_accepts_raw_json_payload() {
    let raw_json = r#"{"choices":[{"message":{"content":"raw-json"}}]}"#;

    let outcome = handle_sse_event(raw_json, true).unwrap();

    assert!(outcome.emitted_text);
    assert!(!outcome.finished);
    assert_eq!(outcome.deltas, vec!["raw-json".to_string()]);
}

#[test]
fn handle_sse_event_preserves_space_only_delta() {
    let raw_json = r#"data: {"choices":[{"delta":{"content":" "}}]}"#;

    let outcome = handle_sse_event(raw_json, false).unwrap();

    assert!(outcome.emitted_text);
    assert!(!outcome.finished);
    assert_eq!(outcome.deltas, vec![" ".to_string()]);
}

#[test]
fn handle_sse_event_rejects_malformed_json() {
    let error = handle_sse_event("data: {not-json}", true).unwrap_err();

    assert_eq!(error, "Malformed response from provider");
}

#[test]
fn extract_stream_text_ignores_empty_and_disallowed_fallback() {
    let empty = r#"{"choices": [{"delta": {"content": ""}}]}"#;
    assert_eq!(extract_stream_text(empty, true), None);

    let message_only = r#"{"choices": [{"message": {"content": "hi"}}]}"#;
    assert_eq!(extract_stream_text(message_only, false), None);
}

#[test]
fn handle_sse_event_reports_done_and_errors() {
    let done = handle_sse_event("data: [DONE]", true).unwrap();
    assert!(done.finished);
    assert!(!done.emitted_text);
    assert!(done.deltas.is_empty());

    let error = handle_sse_event(r#"data: {"error": {"message": "quota exceeded"}}"#, true)
        .unwrap_err();
    assert_eq!(error, "quota exceeded");

    let comment = handle_sse_event(": keep-alive", true).unwrap();
    assert!(!comment.finished);
    assert!(comment.deltas.is_empty());
}

#[test]
fn event_payloads_join_data_lines() {
    let payloads = event_payloads(&chars("event: x\r\ndata: first\r\ndata:second\r\n"));
    assert_eq!(payloads.len(), 1);
    assert_eq!(text(&payloads[0]), "first\nsecond");

    let raw = event_payloads(&chars("  [1, 2]  "));
    assert_eq!(raw.len(), 1);
    assert_eq!(text(&raw[0]), "[1, 2]");

    assert!(event_payloads(&chars("plain words")).is_empty());
}

#[test]
fn find_event_boundary_prefers_earliest_delimiter() {
    assert_eq!(find_event_boundary(&chars("a\n\nb")), Some((1, 2)));
    assert_eq!(find_event_boundary(&chars("a\r\n\r\nb\n\n")), Some((1, 4)));
    assert_eq!(find_event_boundary(&chars("no boundary")), None);
}

#[test]
fn stream_decoder_emits_deltas_across_chunks() {
    let mut decoder = StreamDecoder::new();
    let mut events = Vec::new();

    let first = decoder
        .push_chunk(7, 9, "data: {\"choices\":[{\"delta\":{\"content\":\"Hel\"}}]}\n", &mut events)
        .unwrap();
    assert!(!first);
    assert!(events.is_empty());

    let second = decoder
        .push_chunk(
            7,
            9,
            "\ndata: {\"choices\":[{\"delta\":{\"content\":\"lo\"}}]}\n\ndata: [DONE]\n\n",
            &mut events,
        )
        .unwrap();
    assert!(second);
    assert_eq!(events.len(), 2);
    match &events[0] {
        ProviderEvent::Delta {
            request_id,
            chat_id,
            delta,
        } => {
            assert_eq!((*request_id, *chat_id), (7, 9));
            assert_eq!(delta, "Hel");
        }
        other => panic!("unexpected provider event: {other:?}"),
    }
    match &events[1] {
        ProviderEvent::Delta { delta, .. } => assert_eq!(delta, "lo"),
        other => panic!("unexpected provider event: {other:?}"),
    }
    assert!(decoder.has_assistant_text);
}

#[test]
fn stream_decoder_finish_reports_empty_response() {
    let mut decoder = StreamDecoder::new();
    let mut events = Vec::new();
    let result = decoder.finish(1, 2, &mut events);
    assert_eq!(result, Err("Empty response from provider".to_string()));
    assert!(events.is_empty());
}

#[test]
fn stream_decoder_finish_decodes_leftover_event() {
    let mut decoder = StreamDecoder::new();
    let mut events = Vec::new();
    let pushed = decoder
        .push_chunk(1, 2, "data: {\"choices\":[{\"delta\":{\"content\":\"tail\"}}]}", &mut events)
        .unwrap();
    assert!(!pushed);
    assert!(events.is_empty());

    assert_eq!(decoder.finish(1, 2, &mut events), Ok(()));
    assert_eq!(events.len(), 1);
}

#[test]
fn finish_stream_and_completion_event() {
    assert_eq!(finish_stream(true), Ok(()));
    assert_eq!(
        finish_stream(false),
        Err("Empty response from provider".to_string())
    );
    match completion_event(3, 4, Err("boom".to_string())) {
        ProviderEvent::Failed {
            request_id,
            chat_id,
            error,
        } => {
            assert_eq!((request_id, chat_id), (3, 4));
            assert_eq!(error, "boom");
        }
        other => panic!("unexpected provider event: {other:?}"),
    }
    assert!(matches!(
        completion_event(3, 4, Ok(())),
        ProviderEvent::Finished {
            request_id: 3,
            chat_id: 4
        }
    ));
}

#[test]
fn extract_error_message_reads_nested_then_top_level() {
    assert_eq!(
        extract_error_message(r#"{"error": {"message": "bad key"}}"#),
        Some("bad key".to_string())
    );
    assert_eq!(
        extract_error_message(r#"{"message": "not found"}"#),
        Some("not found".to_string())
    );
    assert_eq!(extract_error_message("<html>"), None);
}

#[test]
fn lmstudio_endpoints_normalize_base_url() {
    assert_eq!(
        lmstudio_chat_endpoint(" http://localhost:1234/ "),
        "http://localhost:1234/v1/chat/completions"
    );
    assert_eq!(
        lmstudio_chat_endpoint("http://localhost:1234/v1//"),
        "http://localhost:1234/v1/chat/completions"
    );
    assert_eq!(
        lmstudio_chat_endpoint("http://host/v1/chat/completions"),
        "http://host/v1/chat/completions"
    );
    assert_eq!(
        lmstudio_models_endpoint("http://host/v1"),
        "http://host/v1/models"
    );
}

#[test]
fn connection_target_checks_key() {
    assert_eq!(
        connection_target(ProviderKind::OpenRouter, "", Some("  key ".to_string())),
        Ok((
            "https://openrouter.ai/api/v1/models".to_string(),
            Some("key".to_string())
        ))
    );
    assert_eq!(
        connection_target(ProviderKind::OpenRouter, "", Some("   ".to_string())),
        Err("OpenRouter API key is missing.".to_string())
    );
    assert_eq!(
        connection_target(ProviderKind::LmStudio, "http://h", None),
        Ok(("http://h/v1/models".to_string(), None))
    );
}

#[test]
fn context_tail_start_keeps_last_messages() {
    assert_eq!(context_tail_start(10, 3), 7);
    assert_eq!(context_tail_start(2, 3), 0);
    assert_eq!(context_tail_start(10, 0), 0);
    assert_eq!(role_name(ChatRole::Assistant), "assistant");
}

#[test]
fn build_request_uses_tail_and_system_prompt() {
    let mut settings = AppSettings::default();
    settings.context_message_limit = 2;
    settings.base_system_prompt = "  Be brief  ".to_string();
    let mut chat = ChatSession::new(1, ProviderKind::LmStudio, " local ");
    chat.messages.push(ChatMessage::new(1, ChatRole::User, "one"));
    chat.messages.push(ChatMessage::new(2, ChatRole::Assistant, "   "));
    chat.messages.push(ChatMessage::new(3, ChatRole::User, "three"));

    let request = build_request(&settings, None, &chat).unwrap();

    assert_eq!(request.provider, ProviderKind::LmStudio);
    assert_eq!(request.model, "local");
    assert_eq!(request.endpoint, "http://127.0.0.1:1234/v1/chat/completions");
    assert_eq!(request.api_key, None);
    assert_eq!(request.messages.len(), 2);
    assert_eq!(request.messages[0].role, "system");
    assert_eq!(request.messages[0].content, "Be brief");
    assert_eq!(request.messages[1].role, "user");
    assert_eq!(request.messages[1].content, "three");
}

#[test]
fn build_request_reports_missing_model_and_key() {
    let settings = AppSettings::default();
    let chat = ChatSession::new(1, ProviderKind::OpenRouter, "  ");
    assert_eq!(
        build_request(&settings, Some("k"), &chat).unwrap_err(),
        "Set a model in Provider settings first."
    );

    let mut chat = ChatSession::new(1, ProviderKind::OpenRouter, "m");
    chat.messages.push(ChatMessage::new(1, ChatRole::User, "hi"));
    assert_eq!(
        build_request(&settings, None, &chat).unwrap_err(),
        "OpenRouter API key is missing in settings."
    );
    let request = build_request(&settings, Some("k"), &chat).unwrap();
    assert_eq!(request.api_key.as_deref(), Some("k"));
    assert_eq!(
        request.endpoint,
        "https://openrouter.ai/api/v1/chat/completions"
    );
}

fn decode_in_chunks(chunks: &[&str]) -> (Vec<String>, Result<bool, String>) {
    let mut decoder = StreamDecoder::new();
    let mut events = Vec::new();
    let mut last = Ok(false);
    for chunk in chunks {
        last = decoder.push_chunk(1, 1, chunk, &mut events);
        if last != Ok(false) {
            break;
        }
    }
    let deltas = events
        .into_iter()
        .map(|event| match event {
            ProviderEvent::Delta { delta, .. } => delta,
            other => panic!("unexpected provider event: {other:?}"),
        })
        .collect();
    (deltas, last)
}

#[test]
fn chunk_boundaries_do_not_change_decoded_text() {
    let stream = "data: {\"choices\":[{\"delta\":{\"content\":\"a\"}}]}\r\n\r\ndata: {\"choices\":[{\"delta\":{\"content\":\"b\"}}]}\n\ndata: [DONE]\n\n";
    let whole = decode_in_chunks(&[stream]);
    assert_eq!(whole, (vec!["a".to_string(), "b".to_string()], Ok(true)));

    for split in 1..stream.len() {
        let (left, right) = stream.split_at(split);
        assert_eq!(decode_in_chunks(&[left, right]), whole, "split at {split}");
    }
}

#[test]
fn decoded_events_carry_request_and_chat_ids() {
    let mut decoder = StreamDecoder::new();
    let mut events = Vec::new();
    let raw_json = "{\"choices\":[{\"message\":{\"content\":\"raw-json\"}}]}\n\n";
    assert_eq!(decoder.push_chunk(7, 9, raw_json, &mut events), Ok(false));
    match &events[..] {
        [ProviderEvent::Delta {
            request_id,
            chat_id,
            delta,
        }] => {
            assert_eq!(*request_id, 7);
            assert_eq!(*chat_id, 9);
            assert_eq!(delta, "raw-json");
        }
        other => panic!("unexpected provider events: {other:?}"),
    }
}
