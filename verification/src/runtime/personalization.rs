//! Helpers for migrating raw notes into structured personalization settings.
//!
//! The model's reply is looked for in several forms (as is, inside markdown
//! fences, as the first JSON object in the text, as a JSON string holding the
//! document, with trailing commas removed); `ai_migration_candidates` lists
//! the texts to try, in order, and the caller imports the first that parses.

use crate::chat::{default_base_system_prompt, default_prompt, AppSettings, ProviderKind, SavedModel};
use crate::json::{debug_quoted, debug_string, decode_json_string, json_string_literal};
use crate::personalization::{PersonalizationSettings, PersonalizationView};
use crate::provider::{
    build_custom_request, custom_request, find_first, messages_view, result_view, str_opt_view,
    ProviderMessage, ProviderRequest, RequestView,
};
use crate::text::{
    chars_blank, chars_eq, chars_of, chars_start_with, is_blank, is_whitespace, is_ws, push_str,
    slice_chars, starts_with, string_from_chars, string_views, trim, trim_chars, trim_string,
};
use vstd::prelude::*;

verus! {

/// System prompt for migration requests sent to OpenRouter.
pub const AI_MIGRATION_SYSTEM_PROMPT_REMOTE: &'static str = r#"You convert raw user notes into strict JSON for an assistant personalization profile.

Return JSON only. Do not wrap it in markdown. Do not add explanations.

Use this exact shape:
{
  "schema_version": 1,
  "base_system_prompt": "string",
  "profile": {
    "name": "string or null",
    "language": "string or null",
    "occupation": "string or null",
    "response_style": "string or null",
    "more_about_you": "string or null",
    "header_lists": "more | default | less",
    "emoji": "more | default | less"
  },
  "memory": ["short factual memory item"]
}

Rules:
- Keep memory items short, factual, and reusable.
- Use null for unknown optional text fields.
- Use "default" when the raw notes do not clearly request more or less.
- If no better base system prompt is implied, use the default concise COSMIC assistant prompt.
- Preserve meaning from the raw notes, but normalize wording for assistant instructions.
"#;

/// System prompt for migration requests sent to a local LM Studio model,
/// with a stricter output contract.
pub const AI_MIGRATION_SYSTEM_PROMPT_LOCAL: &'static str = r#"You are a strict JSON transformer for assistant personalization.

Reply with exactly one valid JSON object.
- The first character must be {
- The last character must be }
- No markdown
- No explanations
- No prose before or after the JSON

Required JSON shape:
{
  "schema_version": 1,
  "base_system_prompt": "string",
  "profile": {
    "name": "string or null",
    "language": "string or null",
    "occupation": "string or null",
    "response_style": "string or null",
    "more_about_you": "string or null",
    "header_lists": "more | default | less",
    "emoji": "more | default | less"
  },
  "memory": ["short factual memory item"]
}

Rules:
- Every key above must exist.
- Unknown text fields must be null.
- header_lists and emoji must always be one of: more, default, less.
- memory must contain at most 8 short factual reusable items.
- If no better base_system_prompt is implied, use the provided default prompt exactly.
- Before replying, self-check that the output is valid JSON and matches the schema exactly.
"#;

/// The copy-ready helper prompt, up to the default base prompt.
pub const AI_MIGRATION_HELPER_HEAD: &'static str = r#"You extract assistant personalization settings from source notes and return exactly one fenced JSON code block. Do not add explanations, lists, headings, or any text before or after the code block.

Use this exact schema:
{
  "schema_version": 1,
  "base_system_prompt": "string",
  "profile": {
    "name": "string or null",
    "language": "string or null",
    "occupation": "string or null",
    "response_style": "string or null",
    "more_about_you": "string or null",
    "header_lists": "more | default | less",
    "emoji": "more | default | less"
  },
  "memory": ["short factual memory item"]
}

Rules:
- Do not invent facts that are missing from the source notes.
- Keep text concise. `name`, `language`, and `occupation` should stay short.
- `response_style` and `more_about_you` should be at most 2 short sentences each.
- `memory` must contain at most 8 items. Each item must be factual, reusable, and under 120 characters.
- Use null for unknown text fields.
- `header_lists` and `emoji` must always be one of: more, default, less.
- If the source notes do not imply a better system prompt, use this default value exactly: "#;

/// The copy-ready helper prompt, after the default base prompt.
pub const AI_MIGRATION_HELPER_TAIL: &'static str = r#"
- Output only one ```json``` code block.

Source notes:
<paste source notes here>"#;

pub open spec fn helper_prompt() -> Seq<char> {
    AI_MIGRATION_HELPER_HEAD@ + debug_quoted(default_prompt()) + AI_MIGRATION_HELPER_TAIL@
}

/// A prompt for an external assistant that turns source notes into a
/// personalization JSON block; it quotes the default base prompt.
pub fn ai_migration_helper_prompt() -> (r: String)
    ensures
        r@ == helper_prompt(),
{
    let mut v: Vec<char> = Vec::new();
    push_str(&mut v, AI_MIGRATION_HELPER_HEAD);
    let quoted = debug_string(default_base_system_prompt());
    push_str(&mut v, quoted.as_str());
    push_str(&mut v, AI_MIGRATION_HELPER_TAIL);
    string_from_chars(v.as_slice())
}

/// The helper prompt inside a ```text fence, ready to copy.
pub fn ai_migration_helper_prompt_markdown() -> (r: String)
    ensures
        r@ == "```text\n"@ + helper_prompt() + "\n```"@,
{
    let mut v: Vec<char> = Vec::new();
    push_str(&mut v, "```text\n");
    let p = ai_migration_helper_prompt();
    push_str(&mut v, p.as_str());
    push_str(&mut v, "\n```");
    string_from_chars(v.as_slice())
}

pub open spec fn migration_system_prompt(provider: ProviderKind) -> Seq<char> {
    match provider {
        ProviderKind::LmStudio => AI_MIGRATION_SYSTEM_PROMPT_LOCAL@,
        ProviderKind::OpenRouter => AI_MIGRATION_SYSTEM_PROMPT_REMOTE@,
    }
}

/// The user message of a migration request, before any error feedback.
pub open spec fn migration_user_message(provider: ProviderKind, notes: Seq<char>) -> Seq<char> {
    match provider {
        ProviderKind::LmStudio => "Default base prompt (use exactly when no better prompt is implied):\n"@
            + default_prompt() + "\n\nSource notes:\n"@ + notes
            + "\n\nReturn exactly one valid JSON object that matches the required schema. Keep response_style and more_about_you concise. Do not wrap the JSON in markdown."@,
        ProviderKind::OpenRouter => "Default base prompt:\n"@ + default_prompt()
            + "\n\nRaw personalization notes:\n"@ + notes,
    }
}

/// The feedback appended after a failed attempt (nothing when the previous
/// error is missing or blank).
pub open spec fn error_feedback(previous_error: Option<Seq<char>>) -> Seq<char> {
    match previous_error {
        Some(e) => if is_blank(e) {
            Seq::empty()
        } else {
            "\n\nPrevious attempt failed with this error:\n"@ + trim(e)
                + "\n\nReturn corrected JSON only and fix the problem above."@
        },
        None => Seq::empty(),
    }
}

/// The migration request: an error when the notes are blank, else the
/// provider's system prompt and the user message with the trimmed notes and
/// the error feedback, sent like any custom request to the chosen model.
pub open spec fn migration_request(
    settings: crate::chat::AppSettingsView,
    session_key: Option<Seq<char>>,
    model: crate::chat::ModelView,
    raw_input: Seq<char>,
    previous_error: Option<Seq<char>>,
) -> Result<RequestView, Seq<char>> {
    if is_blank(raw_input) {
        Err("Paste raw personalization notes first."@)
    } else {
        custom_request(
            settings,
            session_key,
            model.0,
            model.1,
            seq![
                ("system"@, migration_system_prompt(model.0)),
                ("user"@, migration_user_message(model.0, trim(raw_input)) + error_feedback(previous_error)),
            ],
        )
    }
}

/// The notes always reach the model: whatever the provider, a migration
/// request that builds has the system prompt and then the user message, and
/// the trimmed notes occur in the user message. It builds exactly when the
/// notes and the model name are not blank and, for OpenRouter, a key that is
/// not blank is given.
pub proof fn law_migration_request_carries_notes(
    settings: crate::chat::AppSettingsView,
    session_key: Option<Seq<char>>,
    model: crate::chat::ModelView,
    raw_input: Seq<char>,
    previous_error: Option<Seq<char>>,
)
    ensures
        migration_request(settings, session_key, model, raw_input, previous_error) is Ok <==> (
        !is_blank(raw_input) && !is_blank(model.1) && (model.0 == ProviderKind::LmStudio || (
        session_key matches Some(k) && !is_blank(k)))),
        migration_request(settings, session_key, model, raw_input, previous_error) matches Ok(req)
            ==> req.messages.len() == 2 && req.messages[0].0 == "system"@ && req.messages[1].0
            == "user"@ && exists|i: int| crate::provider::occurs_at(
            req.messages[1].1,
            trim(raw_input),
            i,
        ),
{
    if !is_blank(raw_input) {
        let notes = trim(raw_input);
        let content = migration_user_message(model.0, notes) + error_feedback(previous_error);
        let head = match model.0 {
            ProviderKind::LmStudio => "Default base prompt (use exactly when no better prompt is implied):\n"@
                + default_prompt() + "\n\nSource notes:\n"@,
            ProviderKind::OpenRouter => "Default base prompt:\n"@ + default_prompt()
                + "\n\nRaw personalization notes:\n"@,
        };
        let i = head.len() as int;
        assert(content.subrange(i, i + notes.len()) =~= notes);
        assert(crate::provider::occurs_at(content, notes, i));
        let msgs = seq![("system"@, migration_system_prompt(model.0)), ("user"@, content)];
        assert(msgs.len() == 2 && msgs[0].0 == "system"@ && msgs[1].0 == "user"@ && msgs[1].1
            == content);
        if let Ok(req) = migration_request(settings, session_key, model, raw_input, previous_error) {
            assert(req.messages == msgs);
            assert(crate::provider::occurs_at(req.messages[1].1, notes, i));
        }
    }
}

/// Builds the request that asks `model` to turn raw notes into personalization JSON.
pub fn build_ai_migration_request(
    settings: &AppSettings,
    session_openrouter_key: Option<&str>,
    model: &SavedModel,
    raw_input: &str,
    previous_error: Option<&str>,
) -> (r: Result<ProviderRequest, String>)
    ensures
        result_view(r) == migration_request(
            settings@,
            str_opt_view(session_openrouter_key),
            model@,
            raw_input@,
            str_opt_view(previous_error),
        ),
{
    let notes = trim_string(raw_input);
    let nv = chars_of(notes.as_str());
    if nv.len() == 0 {
        return Err("Paste raw personalization notes first.".to_string());
    }
    let mut user: Vec<char> = Vec::new();
    match model.provider {
        ProviderKind::LmStudio => {
            push_str(&mut user, "Default base prompt (use exactly when no better prompt is implied):\n");
            push_str(&mut user, default_base_system_prompt());
            push_str(&mut user, "\n\nSource notes:\n");
            push_str(&mut user, notes.as_str());
            push_str(
                &mut user,
                "\n\nReturn exactly one valid JSON object that matches the required schema. Keep response_style and more_about_you concise. Do not wrap the JSON in markdown.",
            );
        },
        ProviderKind::OpenRouter => {
            push_str(&mut user, "Default base prompt:\n");
            push_str(&mut user, default_base_system_prompt());
            push_str(&mut user, "\n\nRaw personalization notes:\n");
            push_str(&mut user, notes.as_str());
        },
    }
    assert(user@ == migration_user_message(model.provider, trim(raw_input@)));
    let ghost base = user@;
    match previous_error {
        Some(e) => {
            let t = trim_string(e);
            let tv = chars_of(t.as_str());
            if tv.len() > 0 {
                push_str(&mut user, "\n\nPrevious attempt failed with this error:\n");
                push_str(&mut user, t.as_str());
                push_str(&mut user, "\n\nReturn corrected JSON only and fix the problem above.");
            } else {
                assert(base + Seq::<char>::empty() =~= base);
            }
        },
        None => {
            assert(base + Seq::<char>::empty() =~= base);
        },
    }
    assert(user@ == base + error_feedback(str_opt_view(previous_error)));
    let system = match model.provider {
        ProviderKind::LmStudio => AI_MIGRATION_SYSTEM_PROMPT_LOCAL,
        ProviderKind::OpenRouter => AI_MIGRATION_SYSTEM_PROMPT_REMOTE,
    };
    let mut messages: Vec<ProviderMessage> = Vec::new();
    messages.push(ProviderMessage { role: "system".to_string(), content: system.to_string() });
    messages.push(ProviderMessage { role: "user".to_string(), content: string_from_chars(user.as_slice()) });
    assert(messages_view(messages@) =~= seq![
        ("system"@, migration_system_prompt(model.provider)),
        ("user"@, migration_user_message(model.provider, trim(raw_input@)) + error_feedback(str_opt_view(previous_error))),
    ]);
    build_custom_request(
        settings,
        session_openrouter_key,
        model.provider,
        model.name.as_str(),
        messages,
    )
}

/// How many of the nine personalization parts are filled in: a non-blank
/// base prompt, each of the five text fields, a non-empty memory, and each
/// of the two preferences when it is not `Default`.
pub open spec fn completion_score(s: PersonalizationView) -> nat {
    (if !is_blank(s.base_system_prompt) { 1nat } else { 0nat })
        + (if s.profile.name is Some { 1nat } else { 0nat })
        + (if s.profile.language is Some { 1nat } else { 0nat })
        + (if s.profile.occupation is Some { 1nat } else { 0nat })
        + (if s.profile.response_style is Some { 1nat } else { 0nat })
        + (if s.profile.more_about_you is Some { 1nat } else { 0nat })
        + (if s.memory.len() > 0 { 1nat } else { 0nat })
        + (if s.profile.header_lists != crate::chat::PreferenceLevel::Default { 1nat } else { 0nat })
        + (if s.profile.emoji != crate::chat::PreferenceLevel::Default { 1nat } else { 0nat })
}

/// The number of filled personalization parts (out of nine); the completion
/// ratio is this number divided by nine.
pub fn personalization_completion_score(settings: &PersonalizationSettings) -> (r: u32)
    ensures
        r == completion_score(settings@),
        r <= 9,
{
    let mut score: u32 = 0;
    if !crate::text::str_blank(settings.base_system_prompt.as_str()) {
        score = score + 1;
    }
    if settings.profile.name.is_some() {
        score = score + 1;
    }
    if settings.profile.language.is_some() {
        score = score + 1;
    }
    if settings.profile.occupation.is_some() {
        score = score + 1;
    }
    if settings.profile.response_style.is_some() {
        score = score + 1;
    }
    if settings.profile.more_about_you.is_some() {
        score = score + 1;
    }
    if settings.memory.len() > 0 {
        score = score + 1;
    }
    if settings.profile.header_lists != crate::chat::PreferenceLevel::Default {
        score = score + 1;
    }
    if settings.profile.emoji != crate::chat::PreferenceLevel::Default {
        score = score + 1;
    }
    score
}


/// The last position where `pat` occurs in `s` at or before `i`.
pub open spec fn find_last_from(s: Seq<char>, pat: Seq<char>, i: int) -> Option<int>
    decreases i + 1,
{
    if i < 0 {
        None
    } else if crate::provider::occurs_at(s, pat, i) {
        Some(i)
    } else {
        find_last_from(s, pat, i - 1)
    }
}

/// The last position where `pat` occurs in `s` (what `str::rfind` gives, in characters).
pub open spec fn find_last(s: Seq<char>, pat: Seq<char>) -> Option<int> {
    find_last_from(s, pat, s.len() - pat.len())
}

/// The reply with markdown fences removed: for a trimmed reply that starts
/// with "```" and has a closing "```", the text between them without its
/// first line (the language tag), trimmed; otherwise the trimmed reply.
pub open spec fn strip_fences(response: Seq<char>) -> Seq<char> {
    let t = trim(response);
    if !starts_with(t, "```"@) {
        t
    } else {
        let st = t.skip(3);
        match find_last(st, "```"@) {
            None => t,
            Some(end) => {
                let inner = trim(st.take(end));
                match find_first(inner, "\n"@) {
                    Some(k) => trim(inner.skip(k + 1)),
                    None => inner,
                }
            },
        }
    }
}

proof fn lemma_find_last_bounds(s: Seq<char>, pat: Seq<char>, i: int)
    ensures
        find_last_from(s, pat, i) matches Some(k) ==> k <= i && crate::provider::occurs_at(
            s,
            pat,
            k,
        ),
    decreases i + 1,
{
    if i >= 0 && !crate::provider::occurs_at(s, pat, i) {
        lemma_find_last_bounds(s, pat, i - 1);
    }
}

fn find_last_chars(s: &[char], pat: &str) -> (r: Option<usize>)
    ensures
        match r {
            Some(k) => find_last(s@, pat@) == Some(k as int),
            None => find_last(s@, pat@) is None,
        },
{
    let p = chars_of(pat);
    if p.len() > s.len() {
        assert(find_last(s@, pat@) is None);
        return None;
    }
    let mut i: usize = s.len() - p.len();
    loop
        invariant
            p@ == pat@,
            p@.len() <= s@.len(),
            i + p@.len() <= s@.len(),
            find_last(s@, pat@) == find_last_from(s@, pat@, i as int),
        decreases i,
    {
        assert(s@.len() == s.len());
        let window = slice_chars(s, i, i + p.len());
        if chars_eq(window.as_slice(), p.as_slice()) {
            return Some(i);
        }
        if i == 0 {
            assert(find_last_from(s@, pat@, -1) is None);
            return None;
        }
        i = i - 1;
    }
}

fn find_first_chars(s: &[char], c: char) -> (r: Option<usize>)
    ensures
        match r {
            Some(k) => find_first(s@, seq![c]) == Some(k as int),
            None => find_first(s@, seq![c]) is None,
        },
{
    let mut i: usize = 0;
    while i < s.len()
        invariant
            i <= s@.len(),
            find_first(s@, seq![c]) == crate::provider::find_from(s@, seq![c], i as int),
        decreases s@.len() - i,
    {
        assert(s@.subrange(i as int, i + 1) =~= seq![s@[i as int]]);
        if s[i] == c {
            return Some(i);
        }
        assert(seq![s@[i as int]][0] != seq![c][0]);
        i = i + 1;
    }
    None
}

/// The reply with markdown fences removed (see `strip_fences`).
pub fn strip_markdown_fences(response: &str) -> (r: String)
    ensures
        r@ == strip_fences(response@),
{
    let v = chars_of(response);
    let t = trim_chars(v.as_slice());
    if !chars_start_with(t.as_slice(), "```") {
        return string_from_chars(t.as_slice());
    }
    proof {
        reveal_strlit("```");
    }
    let stripped = slice_chars(t.as_slice(), 3, t.len());
    assert(stripped@ =~= t@.skip(3));
    proof {
        lemma_find_last_bounds(stripped@, "```"@, stripped@.len() - 3);
    }
    let end = match find_last_chars(stripped.as_slice(), "```") {
        Some(e) => e,
        None => {
            return string_from_chars(t.as_slice());
        },
    };
    let head = slice_chars(stripped.as_slice(), 0, end);
    assert(head@ =~= stripped@.take(end as int));
    let inner = trim_chars(head.as_slice());
    proof {
        reveal_strlit("\n");
        assert("\n"@ =~= seq!['\n']);
    }
    proof {
        crate::provider::lemma_find_from_bounds(inner@, seq!['\n'], 0);
    }
    match find_first_chars(inner.as_slice(), '\n') {
        Some(k) => {
            assert(k + 1 <= inner@.len());
            assert(inner@.len() == inner.len());
            let body = slice_chars(inner.as_slice(), k + 1, inner.len());
            assert(body@ =~= inner@.skip(k + 1));
            let b = trim_chars(body.as_slice());
            string_from_chars(b.as_slice())
        },
        None => string_from_chars(inner.as_slice()),
    }
}

/// The state of the scan for the first JSON object.
pub struct ScanState {
    pub in_string: bool,
    pub escape: bool,
    pub depth: nat,
    pub start: Option<int>,
}

/// One character of the scan: the next state, and the bounds of the object
/// when this character closes the first top-level one.
pub open spec fn scan_step(st: ScanState, c: char, idx: int) -> (ScanState, Option<(int, int)>) {
    if st.in_string {
        if st.escape {
            (ScanState { escape: false, ..st }, None)
        } else if c == '\\' {
            (ScanState { escape: true, ..st }, None)
        } else if c == '"' {
            (ScanState { in_string: false, ..st }, None)
        } else {
            (st, None)
        }
    } else if c == '"' {
        (ScanState { in_string: true, ..st }, None)
    } else if c == '{' {
        (
            ScanState {
                depth: st.depth + 1,
                start: if st.depth == 0 {
                    Some(idx)
                } else {
                    st.start
                },
                ..st
            },
            None,
        )
    } else if c == '}' {
        if st.depth == 0 {
            (st, None)
        } else {
            let d = (st.depth - 1) as nat;
            (
                ScanState { depth: d, ..st },
                if d == 0 {
                    match st.start {
                        Some(a) => Some((a, idx)),
                        None => None,
                    }
                } else {
                    None
                },
            )
        }
    } else {
        (st, None)
    }
}

/// Scans `s` from position `i` on.
pub open spec fn scan_from(s: Seq<char>, i: int, st: ScanState) -> Option<(int, int)>
    decreases s.len() - i,
{
    if i < 0 || i >= s.len() {
        None
    } else {
        let (st2, found) = scan_step(st, s[i], i);
        match found {
            Some(f) => Some(f),
            None => scan_from(s, i + 1, st2),
        }
    }
}

pub open spec fn scan_start() -> ScanState {
    ScanState { in_string: false, escape: false, depth: 0, start: None }
}

/// The first balanced top-level `{...}` of the trimmed reply (braces inside
/// JSON strings do not count), or "" when there is none.
pub open spec fn json_object_of(response: Seq<char>) -> Seq<char> {
    let t = trim(response);
    match scan_from(t, 0, scan_start()) {
        Some(b) => t.subrange(b.0, b.1 + 1),
        None => Seq::empty(),
    }
}

proof fn lemma_scan_bounds(s: Seq<char>, i: int, st: ScanState)
    requires
        st.start matches Some(a) ==> 0 <= a < i,
        st.depth > 0 ==> st.start is Some,
    ensures
        scan_from(s, i, st) matches Some(b) ==> 0 <= b.0 <= b.1 < s.len(),
    decreases s.len() - i,
{
    if !(i < 0 || i >= s.len()) {
        let (st2, found) = scan_step(st, s[i], i);
        if found is None {
            lemma_scan_bounds(s, i + 1, st2);
        }
    }
}

/// The first JSON object in the reply (see `json_object_of`).
pub fn extract_json_object(response: &str) -> (r: String)
    ensures
        r@ == json_object_of(response@),
{
    let v = chars_of(response);
    let t = trim_chars(v.as_slice());
    let mut in_string = false;
    let mut escape = false;
    let mut depth: usize = 0;
    let mut start: Option<usize> = None;
    let mut i: usize = 0;
    let ghost target = scan_from(t@, 0, scan_start());
    proof {
        lemma_scan_bounds(t@, 0, scan_start());
    }
    while i < t.len()
        invariant
            i <= t@.len(),
            t@ == trim(response@),
            depth <= i,
            target == scan_from(t@, 0, scan_start()),
            target matches Some(b) ==> 0 <= b.0 <= b.1 < t@.len(),
            target == scan_from(
                t@,
                i as int,
                ScanState {
                    in_string,
                    escape,
                    depth: depth as nat,
                    start: match start {
                        Some(a) => Some(a as int),
                        None => None,
                    },
                },
            ),
        decreases t@.len() - i,
    {
        let ch = t[i];
        let ghost st = ScanState {
            in_string,
            escape,
            depth: depth as nat,
            start: match start {
                Some(a) => Some(a as int),
                None => None,
            },
        };
        if in_string {
            if escape {
                escape = false;
            } else if ch == '\\' {
                escape = true;
            } else if ch == '"' {
                in_string = false;
            }
        } else if ch == '"' {
            in_string = true;
        } else if ch == '{' {
            if depth == 0 {
                start = Some(i);
            }
            depth = depth + 1;
        } else if ch == '}' {
            if depth > 0 {
                depth = depth - 1;
                if depth == 0 {
                    match start {
                        Some(a) => {
                            assert(scan_step(st, ch, i as int).1 == Some((a as int, i as int)));
                            assert(target == Some((a as int, i as int)));
                            let obj = slice_chars(t.as_slice(), a, i + 1);
                            assert(t@ == trim(response@));
                            assert(obj@ == json_object_of(response@));
                            return string_from_chars(obj.as_slice());
                        },
                        None => {},
                    }
                }
            }
        }
        i = i + 1;
    }
    String::new()
}

/// The first position at or after `j` that does not hold whitespace (the
/// length of `s` when there is none).
pub open spec fn next_non_ws(s: Seq<char>, j: int) -> int
    decreases s.len() - j,
{
    if j < 0 || j >= s.len() {
        s.len() as int
    } else if is_ws(s[j]) {
        next_non_ws(s, j + 1)
    } else {
        j
    }
}

/// Whether the ',' at `i` is a trailing comma: only whitespace lies between
/// it and a closing '}' or ']'.
pub open spec fn trailing_comma_at(s: Seq<char>, i: int) -> bool {
    let k = next_non_ws(s, i + 1);
    k < s.len() && (s[k] == '}' || s[k] == ']')
}

/// `s` from position `i` on with the trailing commas outside JSON strings removed.
pub open spec fn repair_from(s: Seq<char>, i: int, in_string: bool, escape: bool) -> Seq<char>
    decreases s.len() - i,
{
    if i < 0 || i >= s.len() {
        Seq::empty()
    } else {
        let c = s[i];
        if in_string {
            let (ins, esc) = if escape {
                (true, false)
            } else if c == '\\' {
                (true, true)
            } else if c == '"' {
                (false, false)
            } else {
                (true, false)
            };
            seq![c] + repair_from(s, i + 1, ins, esc)
        } else if c == '"' {
            seq![c] + repair_from(s, i + 1, true, escape)
        } else if c == ',' && trailing_comma_at(s, i) {
            repair_from(s, i + 1, false, escape)
        } else {
            seq![c] + repair_from(s, i + 1, false, escape)
        }
    }
}

/// `s` with its trailing commas (outside JSON strings) removed.
pub open spec fn repaired(s: Seq<char>) -> Seq<char> {
    repair_from(s, 0, false, false)
}

fn trailing_comma(s: &[char], i: usize) -> (r: bool)
    requires
        i < s@.len(),
    ensures
        r == trailing_comma_at(s@, i as int),
{
    assert(s@.len() == s.len());
    let mut k = i + 1;
    while k < s.len() && is_whitespace(s[k])
        invariant
            i < k <= s@.len(),
            next_non_ws(s@, i + 1) == next_non_ws(s@, k as int),
        decreases s@.len() - k,
    {
        k = k + 1;
    }
    k < s.len() && (s[k] == '}' || s[k] == ']')
}

/// `candidate` with the commas that directly precede a closing '}' or ']'
/// (outside JSON strings) removed (see `repaired`).
pub fn repair_json_candidate(candidate: &str) -> (r: String)
    ensures
        r@ == repaired(candidate@),
{
    let chars = chars_of(candidate);
    let out = repair_json_chars(chars.as_slice());
    string_from_chars(out.as_slice())
}

/// `candidate` with the commas that directly precede a closing '}' or ']'
/// (outside JSON strings) removed.
pub fn repair_json_chars(candidate: &[char]) -> (r: Vec<char>)
    ensures
        r@ == repaired(candidate@),
{
    let mut out: Vec<char> = Vec::new();
    let mut in_string = false;
    let mut escape = false;
    let mut i: usize = 0;
    while i < candidate.len()
        invariant
            i <= candidate@.len(),
            out@ + repair_from(candidate@, i as int, in_string, escape) == repaired(candidate@),
        decreases candidate@.len() - i,
    {
        let ch = candidate[i];
        let ghost before = out@;
        if in_string {
            out.push(ch);
            if escape {
                escape = false;
            } else if ch == '\\' {
                escape = true;
            } else if ch == '"' {
                in_string = false;
            }
            assert(before + (seq![ch] + repair_from(candidate@, i + 1, in_string, escape)) =~= out@ + repair_from(candidate@, i + 1, in_string, escape));
        } else if ch == '"' {
            in_string = true;
            out.push(ch);
            assert(before + (seq![ch] + repair_from(candidate@, i + 1, in_string, escape)) =~= out@ + repair_from(candidate@, i + 1, in_string, escape));
        } else if ch == ',' && trailing_comma(candidate, i) {
        } else {
            out.push(ch);
            assert(before + (seq![ch] + repair_from(candidate@, i + 1, in_string, escape)) =~= out@ + repair_from(candidate@, i + 1, in_string, escape));
        }
        i = i + 1;
    }
    assert(out@ + Seq::<char>::empty() =~= out@);
    out
}


/// `s` without its leading byte-order marks.
pub open spec fn strip_bom(s: Seq<char>) -> Seq<char>
    decreases s.len(),
{
    if s.len() > 0 && s[0] == '\u{feff}' {
        strip_bom(s.drop_first())
    } else {
        s
    }
}

/// The trimmed string a JSON string literal holds, when `c` is one.
pub open spec fn decoded_trimmed(c: Seq<char>) -> Seq<Seq<char>> {
    match json_string_literal(c) {
        Some(d) => seq![trim(d)],
        None => Seq::empty(),
    }
}

/// The texts tried for one candidate, in order: the candidate trimmed and
/// without leading byte-order marks, the string it holds when it is a JSON
/// string, and, when removing trailing commas changes it, the repaired text
/// and the string that one holds.
pub open spec fn candidate_tries(c: Seq<char>) -> Seq<Seq<char>> {
    let c1 = strip_bom(trim(c));
    let r = repaired(c1);
    seq![c1] + decoded_trimmed(c1) + (if r != c1 {
        seq![r] + decoded_trimmed(r)
    } else {
        Seq::empty()
    })
}

pub open spec fn tries_unless_blank(c: Seq<char>) -> Seq<Seq<char>> {
    if is_blank(c) {
        Seq::empty()
    } else {
        candidate_tries(c)
    }
}

/// Every text that the import is tried on, in order: the tries for the
/// trimmed reply, for the reply without markdown fences, and for the first
/// JSON object in the reply (blank candidates skipped).
pub open spec fn migration_candidates(response: Seq<char>) -> Seq<Seq<char>> {
    tries_unless_blank(trim(response)) + tries_unless_blank(strip_fences(response))
        + tries_unless_blank(json_object_of(response))
}

fn strip_bom_chars(s: &[char]) -> (r: Vec<char>)
    ensures
        r@ == strip_bom(s@),
{
    let mut a: usize = 0;
    assert(s@.skip(0) =~= s@);
    while a < s.len() && s[a] == '\u{feff}'
        invariant
            a <= s@.len(),
            strip_bom(s@) == strip_bom(s@.skip(a as int)),
        decreases s@.len() - a,
    {
        assert(s@.skip(a as int).drop_first() =~= s@.skip(a + 1));
        a = a + 1;
    }
    let r = slice_chars(s, a, s.len());
    assert(r@ =~= s@.skip(a as int));
    r
}

fn push_decoded_trimmed(out: &mut Vec<String>, c: &String)
    ensures
        string_views(final(out)@) == string_views(old(out)@) + decoded_trimmed(c@),
{
    match decode_json_string(c.as_str()) {
        Some(d) => {
            let t = trim_string(d.as_str());
            let ghost before = string_views(out@);
            out.push(t);
            assert(string_views(out@) =~= before + seq![trim(d@)]);
        },
        None => {
            assert(string_views(out@) + Seq::<Seq<char>>::empty() =~= string_views(out@));
        },
    }
}

fn push_candidate_tries(out: &mut Vec<String>, c: &str)
    ensures
        string_views(final(out)@) == string_views(old(out)@) + tries_unless_blank(c@),
{
    let v = chars_of(c);
    if chars_blank(v.as_slice()) {
        assert(string_views(out@) + Seq::<Seq<char>>::empty() =~= string_views(out@));
        return ;
    }
    let ghost start = string_views(out@);
    let t = trim_chars(v.as_slice());
    let c1 = strip_bom_chars(t.as_slice());
    let r = repair_json_chars(c1.as_slice());
    let c1s = string_from_chars(c1.as_slice());
    let rs = string_from_chars(r.as_slice());
    out.push(c1s.clone());
    assert(string_views(out@) =~= start + seq![c1@]);
    push_decoded_trimmed(out, &c1s);
    let ghost mid = string_views(out@);
    if !chars_eq(r.as_slice(), c1.as_slice()) {
        out.push(rs.clone());
        assert(string_views(out@) =~= mid + seq![r@]);
        push_decoded_trimmed(out, &rs);
        assert(string_views(out@) =~= mid + (seq![r@] + decoded_trimmed(r@)));
    } else {
        assert(string_views(out@) =~= mid + Seq::<Seq<char>>::empty());
    }
    assert(string_views(out@) =~= start + candidate_tries(c@));
}

/// The texts to try importing, in order (see `migration_candidates`).
pub fn ai_migration_candidates(response: &str) -> (r: Vec<String>)
    ensures
        string_views(r@) == migration_candidates(response@),
{
    let mut out: Vec<String> = Vec::new();
    let trimmed = trim_string(response);
    push_candidate_tries(&mut out, trimmed.as_str());
    let fenced = strip_markdown_fences(response);
    push_candidate_tries(&mut out, fenced.as_str());
    let object = extract_json_object(response);
    push_candidate_tries(&mut out, object.as_str());
    assert(string_views(out@) =~= migration_candidates(response@));
    out
}

/// The error reported when no candidate imports.
pub fn invalid_migration_response_error() -> (r: String)
    ensures
        r@ == "Model response was not valid personalization JSON."@,
{
    "Model response was not valid personalization JSON.".to_string()
}

} // verus!
