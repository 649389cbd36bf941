//! Provider requests and the decoding of streamed (server-sent event) replies.
//!
//! The network side (sending the request, reading the byte stream, timeouts)
//! is done by the caller; this module decides what to send and what each
//! piece of the reply means.

use crate::chat::{AppSettings, ChatMessage, ChatRole, ChatSession, ProviderKind};
use crate::json::{json_parses, json_string_at, parses_as_json, string_at_pointer};
use crate::text::{
    chars_blank, chars_end_with, chars_eq, chars_of, chars_start_with, char_views, ends_with,
    is_blank, join, join_chars, push_str, slice_chars, split_lines, split_lines_chars,
    starts_with, string_from_chars, trim, trim_chars, trim_string,
};
use vstd::prelude::*;

verus! {

/// A chat request ready to be sent.
#[derive(Debug)]
pub struct ProviderRequest {
    pub provider: ProviderKind,
    pub endpoint: String,
    pub api_key: Option<String>,
    pub model: String,
    pub messages: Vec<ProviderMessage>,
}

/// One message of a chat request.
#[derive(Debug)]
pub struct ProviderMessage {
    pub role: String,
    pub content: String,
}

/// What a streaming request reports back.
#[derive(Debug)]
pub enum ProviderEvent {
    Delta { request_id: u64, chat_id: u64, delta: String },
    Finished { request_id: u64, chat_id: u64 },
    Failed { request_id: u64, chat_id: u64, error: String },
}

/// A chat message as plain values: role and content.
pub type MessageView = (Seq<char>, Seq<char>);

/// A request as plain values.
#[verifier::ext_equal]
pub struct RequestView {
    pub provider: ProviderKind,
    pub endpoint: Seq<char>,
    pub api_key: Option<Seq<char>>,
    pub model: Seq<char>,
    pub messages: Seq<MessageView>,
}

pub open spec fn messages_view(v: Seq<ProviderMessage>) -> Seq<MessageView> {
    v.map_values(|m: ProviderMessage| (m.role@, m.content@))
}

impl View for ProviderRequest {
    type V = RequestView;

    open spec fn view(&self) -> RequestView {
        RequestView {
            provider: self.provider,
            endpoint: self.endpoint@,
            api_key: crate::chat::opt_view(self.api_key),
            model: self.model@,
            messages: messages_view(self.messages@),
        }
    }
}

/// An event as plain values: kind (0 delta, 1 finished, 2 failed), request
/// id, chat id, and the delta or error text.
pub type EventView = (u8, u64, u64, Seq<char>);

pub open spec fn event_view(e: ProviderEvent) -> EventView {
    match e {
        ProviderEvent::Delta { request_id, chat_id, delta } => (0, request_id, chat_id, delta@),
        ProviderEvent::Finished { request_id, chat_id } => (1, request_id, chat_id, Seq::empty()),
        ProviderEvent::Failed { request_id, chat_id, error } => (2, request_id, chat_id, error@),
    }
}

pub open spec fn events_view(v: Seq<ProviderEvent>) -> Seq<EventView> {
    v.map_values(|e: ProviderEvent| event_view(e))
}

pub open spec fn empty_response_error() -> Seq<char> {
    "Empty response from provider"@
}

pub open spec fn malformed_response_error() -> Seq<char> {
    "Malformed response from provider"@
}

pub open spec fn missing_model_error() -> Seq<char> {
    "Set a model in Provider settings first."@
}

pub open spec fn nothing_to_send_error() -> Seq<char> {
    "Nothing to send yet."@
}

pub open spec fn missing_key_error() -> Seq<char> {
    "OpenRouter API key is missing in settings."@
}

pub open spec fn openrouter_chat_endpoint() -> Seq<char> {
    "https://openrouter.ai/api/v1/chat/completions"@
}

pub open spec fn role_text(role: ChatRole) -> Seq<char> {
    match role {
        ChatRole::System => "system"@,
        ChatRole::User => "user"@,
        ChatRole::Assistant => "assistant"@,
    }
}

/// The role name the chat completions API uses.
pub fn role_name(role: ChatRole) -> (r: &'static str)
    ensures
        r@ == role_text(role),
{
    match role {
        ChatRole::System => "system",
        ChatRole::User => "user",
        ChatRole::Assistant => "assistant",
    }
}

/// Where the last `limit` messages start (all messages when `limit` is 0).
pub open spec fn tail_start(len: nat, limit: nat) -> nat {
    if limit == 0 || len <= limit {
        0
    } else {
        (len - limit) as nat
    }
}

/// Index of the first of the last `limit` messages; 0 when `limit` is 0 or
/// there are no more than `limit` messages.
pub fn context_tail_start(len: usize, limit: usize) -> (r: usize)
    ensures
        r == tail_start(len as nat, limit as nat),
{
    if limit == 0 || len <= limit {
        0
    } else {
        len - limit
    }
}

/// The last `limit` messages (all of them when `limit` is 0).
pub fn context_tail(messages: &[ChatMessage], limit: usize) -> (r: &[ChatMessage])
    ensures
        r@ == messages@.skip(tail_start(messages@.len(), limit as nat) as int),
{
    let start = context_tail_start(messages.len(), limit);
    assert(messages@.len() == messages.len());
    let r = vstd::slice::slice_subrange(messages, start, messages.len());
    assert(r@ =~= messages@.skip(start as int));
    r
}

/// The history messages as request messages, blank ones dropped.
pub open spec fn history_messages(h: Seq<ChatMessage>) -> Seq<MessageView>
    decreases h.len(),
{
    if h.len() == 0 {
        Seq::empty()
    } else {
        let r = history_messages(h.drop_last());
        if is_blank(h.last().content@) {
            r
        } else {
            r.push((role_text(h.last().role), h.last().content@))
        }
    }
}

/// The messages of a chat request: the trimmed system prompt (unless blank)
/// and the non-blank messages among the last `limit` of the history.
pub open spec fn request_messages(system: Seq<char>, history: Seq<ChatMessage>, limit: nat) -> Seq<
    MessageView,
> {
    (if is_blank(system) {
        Seq::empty()
    } else {
        seq![("system"@, trim(system))]
    }) + history_messages(history.skip(tail_start(history.len(), limit) as int))
}

/// `s` without its trailing '/' characters.
pub open spec fn trim_trailing_slashes(s: Seq<char>) -> Seq<char>
    decreases s.len(),
{
    if s.len() > 0 && s.last() == '/' {
        trim_trailing_slashes(s.drop_last())
    } else {
        s
    }
}

/// The LM Studio URL for `suffix` (such as "/chat/completions") derived from
/// the base URL: the base URL when it already ends with `suffix`, else with
/// `suffix` appended after "/v1".
pub open spec fn lmstudio_endpoint(base_url: Seq<char>, suffix: Seq<char>) -> Seq<char> {
    let t = trim_trailing_slashes(trim(base_url));
    if ends_with(t, suffix) {
        t
    } else if ends_with(t, "/v1"@) {
        t + suffix
    } else {
        t + "/v1"@ + suffix
    }
}

fn trim_trailing_slash_chars(s: &[char]) -> (v: Vec<char>)
    ensures
        v@ == trim_trailing_slashes(s@),
{
    let mut b: usize = s.len();
    assert(s@.take(s@.len() as int) =~= s@);
    while b > 0 && s[b - 1] == '/'
        invariant
            b <= s@.len(),
            trim_trailing_slashes(s@) == trim_trailing_slashes(s@.take(b as int)),
        decreases b,
    {
        proof {
            assert(s@.take(b as int).drop_last() =~= s@.take(b - 1));
        }
        b = b - 1;
    }
    proof {
        assert(s@.take(s@.len() as int) =~= s@);
    }
    let v = slice_chars(s, 0, b);
    assert(v@ =~= s@.take(b as int));
    v
}

fn lmstudio_endpoint_for(base_url: &str, suffix: &str) -> (r: String)
    ensures
        r@ == lmstudio_endpoint(base_url@, suffix@),
{
    let v = chars_of(base_url);
    let t0 = trim_chars(v.as_slice());
    let mut t = trim_trailing_slash_chars(t0.as_slice());
    if chars_end_with(t.as_slice(), suffix) {
    } else if chars_end_with(t.as_slice(), "/v1") {
        push_str(&mut t, suffix);
    } else {
        push_str(&mut t, "/v1");
        push_str(&mut t, suffix);
    }
    string_from_chars(t.as_slice())
}

/// The LM Studio chat completions URL for a base URL.
pub fn lmstudio_chat_endpoint(base_url: &str) -> (r: String)
    ensures
        r@ == lmstudio_endpoint(base_url@, "/chat/completions"@),
{
    lmstudio_endpoint_for(base_url, "/chat/completions")
}

/// The LM Studio model list URL for a base URL.
pub fn lmstudio_models_endpoint(base_url: &str) -> (r: String)
    ensures
        r@ == lmstudio_endpoint(base_url@, "/models"@),
{
    lmstudio_endpoint_for(base_url, "/models")
}

/// Endpoint and API key for a chat request, or the error when the OpenRouter
/// key is missing.
pub open spec fn chat_target(
    provider: ProviderKind,
    session_key: Option<Seq<char>>,
    lmstudio_url: Seq<char>,
) -> Result<(Seq<char>, Option<Seq<char>>), Seq<char>> {
    match provider {
        ProviderKind::OpenRouter => match session_key {
            Some(k) => if is_blank(k) {
                Err(missing_key_error())
            } else {
                Ok((openrouter_chat_endpoint(), Some(trim(k))))
            },
            None => Err(missing_key_error()),
        },
        ProviderKind::LmStudio => Ok((lmstudio_endpoint(lmstudio_url, "/chat/completions"@), None)),
    }
}

pub open spec fn str_opt_view(o: Option<&str>) -> Option<Seq<char>> {
    match o {
        Some(s) => Some(s@),
        None => None,
    }
}

/// The request for a chat: errors when the chat has no model, when there is
/// nothing to send, or when the OpenRouter key is missing.
pub open spec fn chat_request(
    settings: crate::chat::AppSettingsView,
    session_key: Option<Seq<char>>,
    chat_provider: ProviderKind,
    chat_model: Seq<char>,
    history: Seq<ChatMessage>,
) -> Result<RequestView, Seq<char>> {
    let msgs = request_messages(
        settings.base_system_prompt,
        history,
        settings.context_message_limit as nat,
    );
    if is_blank(chat_model) {
        Err(missing_model_error())
    } else if msgs.len() == 0 {
        Err(nothing_to_send_error())
    } else {
        match chat_target(chat_provider, session_key, settings.provider.lmstudio_base_url) {
            Err(e) => Err(e),
            Ok(t) => Ok(
                RequestView {
                    provider: chat_provider,
                    endpoint: t.0,
                    api_key: t.1,
                    model: trim(chat_model),
                    messages: msgs,
                },
            ),
        }
    }
}

pub open spec fn result_view(r: Result<ProviderRequest, String>) -> Result<RequestView, Seq<char>> {
    match r {
        Ok(q) => Ok(q@),
        Err(e) => Err(e@),
    }
}

fn request_target(provider: ProviderKind, session_key: Option<&str>, lmstudio_url: &str) -> (r:
    Result<(String, Option<String>), String>)
    ensures
        match r {
            Ok(t) => chat_target(provider, str_opt_view(session_key), lmstudio_url@) == Ok::<
                (Seq<char>, Option<Seq<char>>),
                Seq<char>,
            >((t.0@, crate::chat::opt_view(t.1))),
            Err(e) => chat_target(provider, str_opt_view(session_key), lmstudio_url@) == Err::<
                (Seq<char>, Option<Seq<char>>),
                Seq<char>,
            >(e@),
        },
{
    match provider {
        ProviderKind::OpenRouter => {
            let key = match session_key {
                Some(k) => trim_string(k),
                None => {
                    return Err("OpenRouter API key is missing in settings.".to_string());
                },
            };
            let kv = chars_of(key.as_str());
            if kv.len() == 0 {
                return Err("OpenRouter API key is missing in settings.".to_string());
            }
            Ok(("https://openrouter.ai/api/v1/chat/completions".to_string(), Some(key)))
        },
        ProviderKind::LmStudio => Ok((lmstudio_chat_endpoint(lmstudio_url), None)),
    }
}

/// The request for `chat`: its trimmed model, the trimmed base system prompt
/// (unless blank) and the non-blank messages among the last
/// `context_message_limit` ones (all when the limit is 0), sent to OpenRouter
/// with the session key or to the LM Studio URL of the settings.
pub fn build_request(
    settings: &AppSettings,
    session_openrouter_key: Option<&str>,
    chat: &ChatSession,
) -> (r: Result<ProviderRequest, String>)
    ensures
        result_view(r) == chat_request(
            settings@,
            str_opt_view(session_openrouter_key),
            chat.provider,
            chat.model@,
            chat.messages@,
        ),
{
    let model = trim_string(chat.model.as_str());
    let mv = chars_of(model.as_str());
    if mv.len() == 0 {
        return Err("Set a model in Provider settings first.".to_string());
    }
    let mut messages: Vec<ProviderMessage> = Vec::new();
    let system_prompt = trim_string(settings.base_system_prompt.as_str());
    let sv = chars_of(system_prompt.as_str());
    if sv.len() > 0 {
        messages.push(ProviderMessage { role: "system".to_string(), content: system_prompt });
    }
    let ghost head = messages_view(messages@);
    assert(head =~= (if is_blank(settings.base_system_prompt@) {
        Seq::empty()
    } else {
        seq![("system"@, trim(settings.base_system_prompt@))]
    }));
    let tail = context_tail(chat.messages.as_slice(), settings.context_message_limit);
    let mut i: usize = 0;
    while i < tail.len()
        invariant
            i <= tail@.len(),
            tail@ == chat.messages@.skip(
                tail_start(chat.messages@.len(), settings.context_message_limit as nat) as int,
            ),
            messages_view(messages@) == head + history_messages(tail@.take(i as int)),
        decreases tail@.len() - i,
    {
        proof {
            let t = tail@.take(i + 1);
            assert(t.drop_last() =~= tail@.take(i as int));
            assert(t.last() == tail@[i as int]);
        }
        let cv = chars_of(tail[i].content.as_str());
        let ghost prev = messages_view(messages@);
        if !chars_blank(cv.as_slice()) {
            let m = ProviderMessage {
                role: role_name(tail[i].role).to_string(),
                content: tail[i].content.clone(),
            };
            assert((m.role@, m.content@) == (role_text(tail@[i as int].role), tail@[i as int].content@));
            messages.push(m);
            assert(messages_view(messages@) =~= prev.push((m.role@, m.content@)));
        }
        assert(messages_view(messages@) =~= head + history_messages(tail@.take(i + 1)));
        i = i + 1;
    }
    assert(tail@.take(tail@.len() as int) =~= tail@);
    if messages.len() == 0 {
        return Err("Nothing to send yet.".to_string());
    }
    let (endpoint, api_key) = match request_target(
        chat.provider,
        session_openrouter_key,
        settings.provider.lmstudio_base_url.as_str(),
    ) {
        Ok(t) => t,
        Err(e) => {
            return Err(e);
        },
    };
    Ok(ProviderRequest { provider: chat.provider, endpoint, api_key, model, messages })
}

/// The request for a given provider, model and message list (used for
/// one-off requests that are not part of a chat): errors when the model is
/// blank, when there are no messages, or when the OpenRouter key is missing.
pub open spec fn custom_request(
    settings: crate::chat::AppSettingsView,
    session_key: Option<Seq<char>>,
    provider: ProviderKind,
    model: Seq<char>,
    messages: Seq<MessageView>,
) -> Result<RequestView, Seq<char>> {
    if is_blank(model) {
        Err(missing_model_error())
    } else if messages.len() == 0 {
        Err(nothing_to_send_error())
    } else {
        match chat_target(provider, session_key, settings.provider.lmstudio_base_url) {
            Err(e) => Err(e),
            Ok(t) => Ok(
                RequestView {
                    provider,
                    endpoint: t.0,
                    api_key: t.1,
                    model: trim(model),
                    messages,
                },
            ),
        }
    }
}

/// A request with the given messages for `provider` and `model`.
pub fn build_custom_request(
    settings: &AppSettings,
    session_openrouter_key: Option<&str>,
    provider: ProviderKind,
    model: &str,
    messages: Vec<ProviderMessage>,
) -> (r: Result<ProviderRequest, String>)
    ensures
        result_view(r) == custom_request(
            settings@,
            str_opt_view(session_openrouter_key),
            provider,
            model@,
            messages_view(messages@),
        ),
{
    let model = trim_string(model);
    let mv = chars_of(model.as_str());
    if mv.len() == 0 {
        return Err("Set a model in Provider settings first.".to_string());
    }
    if messages.len() == 0 {
        return Err("Nothing to send yet.".to_string());
    }
    let (endpoint, api_key) = match request_target(
        provider,
        session_openrouter_key,
        settings.provider.lmstudio_base_url.as_str(),
    ) {
        Ok(t) => t,
        Err(e) => {
            return Err(e);
        },
    };
    Ok(ProviderRequest { provider, endpoint, api_key, model, messages })
}


/// Whether `pat` occurs in `s` at position `i`.
pub open spec fn occurs_at(s: Seq<char>, pat: Seq<char>, i: int) -> bool {
    0 <= i && i + pat.len() <= s.len() && s.subrange(i, i + pat.len()) == pat
}

/// The first position at or after `i` where `pat` occurs in `s`.
pub open spec fn find_from(s: Seq<char>, pat: Seq<char>, i: int) -> Option<int>
    decreases s.len() + 1 - i,
{
    if i < 0 || i + pat.len() > s.len() {
        None
    } else if occurs_at(s, pat, i) {
        Some(i)
    } else {
        find_from(s, pat, i + 1)
    }
}

/// The first position where `pat` occurs in `s` (what `str::find` gives, counted in characters).
pub open spec fn find_first(s: Seq<char>, pat: Seq<char>) -> Option<int> {
    find_from(s, pat, 0)
}

/// Where the first complete event of `buffer` ends and how long its
/// delimiter is: the earliest blank line, "\n\n" (2) or "\r\n\r\n" (4).
pub open spec fn event_boundary(buffer: Seq<char>) -> Option<(int, int)> {
    match (find_first(buffer, "\n\n"@), find_first(buffer, "\r\n\r\n"@)) {
        (Some(a), Some(b)) => if a <= b {
            Some((a, 2))
        } else {
            Some((b, 4))
        },
        (Some(a), None) => Some((a, 2)),
        (None, Some(b)) => Some((b, 4)),
        (None, None) => None,
    }
}

pub proof fn lemma_find_from_bounds(s: Seq<char>, pat: Seq<char>, i: int)
    ensures
        find_from(s, pat, i) matches Some(k) ==> i <= k && occurs_at(s, pat, k),
    decreases s.len() + 1 - i,
{
    if !(i < 0 || i + pat.len() > s.len()) && !occurs_at(s, pat, i) {
        lemma_find_from_bounds(s, pat, i + 1);
    }
}

fn find_chars(s: &[char], pat: &str) -> (r: Option<usize>)
    ensures
        match r {
            Some(k) => find_first(s@, pat@) == Some(k as int),
            None => find_first(s@, pat@) is None,
        },
{
    let p = chars_of(pat);
    if p.len() > s.len() {
        return None;
    }
    let last = s.len() - p.len();
    let mut i: usize = 0;
    while i < last
        invariant
            p@ == pat@,
            p@.len() <= s@.len(),
            last == s@.len() - p@.len(),
            i <= last,
            find_first(s@, pat@) == find_from(s@, pat@, i as int),
        decreases last - i,
    {
        assert(i + p@.len() <= s@.len());
        assert(s@.len() == s.len());
        let window = slice_chars(s, i, i + p.len());
        if chars_eq(window.as_slice(), p.as_slice()) {
            return Some(i);
        }
        i = i + 1;
    }
    let window = slice_chars(s, i, i + p.len());
    if chars_eq(window.as_slice(), p.as_slice()) {
        return Some(i);
    }
    assert(find_from(s@, pat@, i + 1) is None);
    None
}

/// Where the first complete event in `buffer` ends, and the length of the
/// blank line after it.
pub fn find_event_boundary(buffer: &[char]) -> (r: Option<(usize, usize)>)
    ensures
        match r {
            Some(b) => event_boundary(buffer@) == Some((b.0 as int, b.1 as int)),
            None => event_boundary(buffer@) is None,
        },
{
    let lf = find_chars(buffer, "\n\n");
    let crlf = find_chars(buffer, "\r\n\r\n");
    match (lf, crlf) {
        (Some(a), Some(b)) => if a <= b {
            Some((a, 2))
        } else {
            Some((b, 4))
        },
        (Some(a), None) => Some((a, 2)),
        (None, Some(b)) => Some((b, 4)),
        (None, None) => None,
    }
}

/// The event boundary lies inside the buffer.
pub proof fn lemma_event_boundary_bounds(buffer: Seq<char>)
    ensures
        event_boundary(buffer) matches Some(b) ==> 0 <= b.0 && b.0 + b.1 <= buffer.len() && b.1
            >= 2,
{
    reveal_strlit("\n\n");
    reveal_strlit("\r\n\r\n");
    lemma_find_from_bounds(buffer, "\n\n"@, 0);
    lemma_find_from_bounds(buffer, "\r\n\r\n"@, 0);
}

/// `s` with one trailing '\r' removed, if it has one.
pub open spec fn strip_cr(s: Seq<char>) -> Seq<char> {
    if s.len() > 0 && s.last() == '\r' {
        s.drop_last()
    } else {
        s
    }
}

/// The lines of an event as `str::lines` yields them, after one more '\r'
/// is stripped from each: every line ended by '\n' loses up to two trailing
/// '\r', the last one up to one.
pub open spec fn event_lines(event: Seq<char>) -> Seq<Seq<char>> {
    let pieces = split_lines(event);
    Seq::new(
        pieces.len(),
        |k: int|
            if k < pieces.len() - 1 {
                strip_cr(strip_cr(pieces[k]))
            } else {
                strip_cr(pieces[k])
            },
    )
}

/// The payload of a "data:" line, one space after the colon removed.
pub open spec fn data_payload(line: Seq<char>) -> Option<Seq<char>> {
    if starts_with(line, "data:"@) {
        let p = line.skip(5);
        Some(
            if starts_with(p, " "@) {
                p.skip(1)
            } else {
                p
            },
        )
    } else {
        None
    }
}

/// The non-empty payloads of the data lines, in order.
pub open spec fn data_payloads(lines: Seq<Seq<char>>) -> Seq<Seq<char>>
    decreases lines.len(),
{
    if lines.len() == 0 {
        Seq::empty()
    } else {
        let r = data_payloads(lines.drop_last());
        match data_payload(lines.last()) {
            Some(p) => if p.len() > 0 {
                r.push(p)
            } else {
                r
            },
            None => r,
        }
    }
}

/// The payloads of one event: its data lines joined by '\n' when it has
/// any, else the trimmed event when it looks like raw JSON ('{' or '['),
/// else nothing.
pub open spec fn event_payloads_of(event: Seq<char>) -> Seq<Seq<char>> {
    let d = data_payloads(event_lines(event));
    if d.len() > 0 {
        seq![join(d, "\n"@)]
    } else {
        let t = trim(event);
        if starts_with(t, "{"@) || starts_with(t, "["@) {
            seq![t]
        } else {
            Seq::empty()
        }
    }
}

fn strip_cr_chars(s: Vec<char>) -> (r: Vec<char>)
    ensures
        r@ == strip_cr(s@),
{
    let ghost orig = s@;
    let mut s = s;
    if s.len() > 0 && s[s.len() - 1] == '\r' {
        s.pop();
        assert(s@ =~= strip_cr(orig));
    }
    s
}

/// The payloads of one server-sent event.
pub fn event_payloads(event: &[char]) -> (r: Vec<Vec<char>>)
    ensures
        char_views(r@) == event_payloads_of(event@),
{
    let pieces = split_lines_chars(event);
    proof {
        crate::text::lemma_split_lines_nonempty(event@);
    }
    let ghost lines = event_lines(event@);
    let mut data: Vec<Vec<char>> = Vec::new();
    let mut k: usize = 0;
    while k < pieces.len()
        invariant
            k <= pieces@.len(),
            char_views(pieces@) == split_lines(event@),
            lines == event_lines(event@),
            lines.len() == pieces@.len(),
            char_views(data@) == data_payloads(lines.take(k as int)),
        decreases pieces@.len() - k,
    {
        let once = strip_cr_chars(slice_chars(pieces[k].as_slice(), 0, pieces[k].len()));
        let line = if k + 1 < pieces.len() {
            strip_cr_chars(once)
        } else {
            once
        };
        proof {
            assert(pieces@[k as int]@.subrange(0, pieces@[k as int]@.len() as int) =~= pieces@[k as int]@);
            assert(line@ == lines[k as int]);
            let t = lines.take(k + 1);
            assert(t.drop_last() =~= lines.take(k as int));
            assert(t.last() == lines[k as int]);
        }
        if chars_start_with(line.as_slice(), "data:") {
            proof {
                reveal_strlit("data:");
            }
            let rest = slice_chars(line.as_slice(), 5, line.len());
            let payload = if chars_start_with(rest.as_slice(), " ") {
                proof {
                    reveal_strlit(" ");
                }
                slice_chars(rest.as_slice(), 1, rest.len())
            } else {
                rest
            };
            assert(data_payload(line@) == Some(payload@)) by {
                reveal_strlit("data:");
                reveal_strlit(" ");
                assert(rest@ =~= line@.skip(5));
                assert(payload@ =~= (if starts_with(rest@, " "@) {
                    rest@.skip(1)
                } else {
                    rest@
                }));
            }
            if payload.len() > 0 {
                data.push(payload);
            }
        }
        assert(char_views(data@) =~= data_payloads(lines.take(k + 1)));
        k = k + 1;
    }
    assert(lines.take(pieces@.len() as int) =~= lines);
    let mut out: Vec<Vec<char>> = Vec::new();
    if data.len() > 0 {
        out.push(join_chars(&data, "\n"));
        assert(char_views(out@) =~= event_payloads_of(event@));
        return out;
    }
    let t = trim_chars(event);
    if chars_start_with(t.as_slice(), "{") || chars_start_with(t.as_slice(), "[") {
        out.push(t);
    }
    assert(char_views(out@) =~= event_payloads_of(event@));
    out
}


/// A string value kept only when it is not empty.
pub open spec fn non_empty(o: Option<Seq<char>>) -> Option<Seq<char>> {
    match o {
        Some(t) => if t.len() > 0 {
            Some(t)
        } else {
            None
        },
        None => None,
    }
}

/// The text a stream payload carries: its `choices[0].delta.content`, or,
/// when `allow_message_fallback` holds, its `choices[0].message.content`;
/// empty strings count as no text.
pub open spec fn stream_text(payload: Seq<char>, allow_message_fallback: bool) -> Option<Seq<char>> {
    match non_empty(json_string_at(payload, "/choices/0/delta/content"@)) {
        Some(t) => Some(t),
        None => if allow_message_fallback {
            non_empty(json_string_at(payload, "/choices/0/message/content"@))
        } else {
            None
        },
    }
}

fn extract_string(value: Option<String>) -> (r: Option<String>)
    ensures
        crate::chat::opt_view(r) == non_empty(crate::chat::opt_view(value)),
{
    match value {
        Some(content) => {
            let v = chars_of(content.as_str());
            if v.len() == 0 {
                None
            } else {
                Some(content)
            }
        },
        None => None,
    }
}

/// The text carried by a stream payload (see `stream_text`).
pub fn extract_stream_text(payload: &str, allow_message_fallback: bool) -> (r: Option<String>)
    ensures
        crate::chat::opt_view(r) == stream_text(payload@, allow_message_fallback),
{
    match extract_string(string_at_pointer(payload, "/choices/0/delta/content")) {
        Some(content) => Some(content),
        None => {
            if allow_message_fallback {
                extract_string(string_at_pointer(payload, "/choices/0/message/content"))
            } else {
                None
            }
        },
    }
}

/// What a sequence of payloads means: finished (a "[DONE]" payload was
/// reached) and the texts to emit, or the error that ends the stream (a
/// payload that is not JSON, or one carrying `error.message`).
/// `emitted` tells whether text was already emitted for this event, which
/// turns the message fallback off.
pub open spec fn handle_payloads(ps: Seq<Seq<char>>, allow: bool, emitted: bool) -> Result<
    (bool, Seq<Seq<char>>),
    Seq<char>,
>
    decreases ps.len(),
{
    if ps.len() == 0 {
        Ok((false, Seq::empty()))
    } else {
        let p = ps[0];
        if p == "[DONE]"@ {
            Ok((true, Seq::empty()))
        } else if !json_parses(p) {
            Err(malformed_response_error())
        } else {
            match json_string_at(p, "/error/message"@) {
                Some(e) => Err(e),
                None => match stream_text(p, allow && !emitted) {
                    Some(c) => match handle_payloads(ps.drop_first(), allow, true) {
                        Ok(r) => Ok((r.0, seq![c] + r.1)),
                        Err(e) => Err(e),
                    },
                    None => handle_payloads(ps.drop_first(), allow, emitted),
                },
            }
        }
    }
}

/// What one event means.
pub open spec fn sse_event_result(event: Seq<char>, allow_message_fallback: bool) -> Result<
    (bool, Seq<Seq<char>>),
    Seq<char>,
> {
    handle_payloads(event_payloads_of(event), allow_message_fallback, false)
}

/// The outcome of one event: whether the stream is finished, whether text
/// was emitted, and the texts to emit in order.
#[derive(Debug)]
pub struct SseEventOutcome {
    pub finished: bool,
    pub emitted_text: bool,
    pub deltas: Vec<String>,
}

/// Decodes one server-sent event: the texts it carries, whether it ends the
/// stream, or the error it reports.
pub fn handle_sse_event(event: &str, allow_message_fallback: bool) -> (r: Result<
    SseEventOutcome,
    String,
>)
    ensures
        match r {
            Ok(o) => sse_event_result(event@, allow_message_fallback) == Ok::<
                (bool, Seq<Seq<char>>),
                Seq<char>,
            >((o.finished, crate::text::string_views(o.deltas@))) && o.emitted_text == (
            o.deltas@.len() > 0),
            Err(e) => sse_event_result(event@, allow_message_fallback) == Err::<
                (bool, Seq<Seq<char>>),
                Seq<char>,
            >(e@),
        },
{
    let ev = chars_of(event);
    let payloads = event_payloads(ev.as_slice());
    let ghost ps = char_views(payloads@);
    let mut deltas: Vec<String> = Vec::new();
    let mut i: usize = 0;
    proof {
        assert(ps.skip(0) =~= ps);
        match handle_payloads(ps, allow_message_fallback, false) {
            Ok(r) => {
                assert(crate::text::string_views(deltas@) + r.1 =~= r.1);
            },
            Err(e) => {},
        }
    }
    while i < payloads.len()
        invariant
            i <= payloads@.len(),
            ps == char_views(payloads@),
            ps == event_payloads_of(event@),
            handle_payloads(ps, allow_message_fallback, false) == (match handle_payloads(
                ps.skip(i as int),
                allow_message_fallback,
                deltas@.len() > 0,
            ) {
                Ok(r) => Ok((r.0, crate::text::string_views(deltas@) + r.1)),
                Err(e) => Err(e),
            }),
        decreases payloads@.len() - i,
    {
        let ghost rest = ps.skip(i as int);
        assert(rest[0] == payloads@[i as int]@);
        assert(rest.drop_first() =~= ps.skip(i + 1));
        let payload = string_from_chars(payloads[i].as_slice());
        let done = chars_of("[DONE]");
        if chars_eq(payloads[i].as_slice(), done.as_slice()) {
            assert(crate::text::string_views(deltas@) + Seq::<Seq<char>>::empty() =~= crate::text::string_views(deltas@));
            let emitted_text = deltas.len() > 0;
            return Ok(SseEventOutcome { finished: true, emitted_text, deltas });
        }
        if !parses_as_json(payload.as_str()) {
            return Err("Malformed response from provider".to_string());
        }
        match string_at_pointer(payload.as_str(), "/error/message") {
            Some(message) => {
                return Err(message);
            },
            None => {},
        }
        let allow = allow_message_fallback && deltas.len() == 0;
        match extract_stream_text(payload.as_str(), allow) {
            Some(content) => {
                let ghost before = crate::text::string_views(deltas@);
                deltas.push(content);
                proof {
                    assert(crate::text::string_views(deltas@) =~= before.push(content@));
                    match handle_payloads(ps.skip(i + 1), allow_message_fallback, true) {
                        Ok(r) => {
                            assert(before + (seq![content@] + r.1) =~= before.push(content@) + r.1);
                        },
                        Err(e) => {},
                    }
                }
            },
            None => {},
        }
        i = i + 1;
    }
    assert(ps.skip(i as int).len() == 0);
    assert(crate::text::string_views(deltas@) + Seq::<Seq<char>>::empty() =~= crate::text::string_views(deltas@));
    let emitted_text = deltas.len() > 0;
    Ok(SseEventOutcome { finished: false, emitted_text, deltas })
}

pub open spec fn finish_result(has_assistant_text: bool) -> Result<(), Seq<char>> {
    if has_assistant_text {
        Ok(())
    } else {
        Err(empty_response_error())
    }
}

/// A stream succeeds when it produced some assistant text.
pub fn finish_stream(has_assistant_text: bool) -> (r: Result<(), String>)
    ensures
        match r {
            Ok(()) => finish_result(has_assistant_text) is Ok,
            Err(e) => finish_result(has_assistant_text) == Err::<(), Seq<char>>(e@),
        },
{
    if has_assistant_text {
        Ok(())
    } else {
        Err("Empty response from provider".to_string())
    }
}


/// What processing a stream buffer leads to: the result (finished or not, or
/// the error), the unprocessed rest of the buffer, whether assistant text has
/// been seen, and the texts to emit.
pub struct BufferStep {
    pub result: Result<bool, Seq<char>>,
    pub rest: Seq<char>,
    pub has_text: bool,
    pub deltas: Seq<Seq<char>>,
}

/// Takes every complete event off the front of `buf` and decodes it, until
/// none is left, one finishes the stream, or one fails.
pub open spec fn process_buffer(buf: Seq<char>, has_text: bool) -> BufferStep
    decreases buf.len(),
{
    match event_boundary(buf) {
        None => BufferStep { result: Ok(false), rest: buf, has_text, deltas: Seq::empty() },
        Some(b) => if 0 <= b.0 && b.0 + b.1 <= buf.len() && b.1 > 0 {
            let ev = buf.take(b.0);
            let rest = buf.skip(b.0 + b.1);
            match sse_event_result(ev, !has_text) {
                Err(e) => BufferStep { result: Err(e), rest, has_text, deltas: Seq::empty() },
                Ok(o) => {
                    let has2 = has_text || o.1.len() > 0;
                    if o.0 {
                        BufferStep { result: Ok(true), rest, has_text: has2, deltas: o.1 }
                    } else {
                        let r = process_buffer(rest, has2);
                        BufferStep {
                            result: r.result,
                            rest: r.rest,
                            has_text: r.has_text,
                            deltas: o.1 + r.deltas,
                        }
                    }
                },
            }
        } else {
            BufferStep { result: Ok(false), rest: buf, has_text, deltas: Seq::empty() }
        },
    }
}

/// The delta events for the given texts.
pub open spec fn delta_events(request_id: u64, chat_id: u64, ds: Seq<Seq<char>>) -> Seq<EventView> {
    ds.map_values(|d: Seq<char>| (0u8, request_id, chat_id, d))
}

/// How a stream ends once its bytes run out: a non-blank leftover is decoded
/// as a last event, then the stream succeeds when assistant text was seen.
pub open spec fn end_of_stream(buf: Seq<char>, has_text: bool) -> (Result<(), Seq<char>>, Seq<
    Seq<char>,
>) {
    if is_blank(buf) {
        (finish_result(has_text), Seq::empty())
    } else {
        match sse_event_result(buf, !has_text) {
            Err(e) => (Err(e), Seq::empty()),
            Ok(o) => (finish_result(has_text || o.1.len() > 0), o.1),
        }
    }
}

/// Decoding state of one streamed reply: the bytes not yet split into
/// events, and whether assistant text has been seen.
#[derive(Debug)]
pub struct StreamDecoder {
    pub buffer: Vec<char>,
    pub has_assistant_text: bool,
}

fn push_deltas(events: &mut Vec<ProviderEvent>, request_id: u64, chat_id: u64, deltas: Vec<String>)
    ensures
        events_view(final(events)@) == events_view(old(events)@) + delta_events(
            request_id,
            chat_id,
            crate::text::string_views(deltas@),
        ),
{
    let ghost start = events_view(events@);
    let ghost ds = crate::text::string_views(deltas@);
    let mut i: usize = 0;
    while i < deltas.len()
        invariant
            i <= deltas@.len(),
            ds == crate::text::string_views(deltas@),
            events_view(events@) == start + delta_events(request_id, chat_id, ds.take(i as int)),
        decreases deltas@.len() - i,
    {
        let d = deltas[i].clone();
        let ghost before = events_view(events@);
        events.push(ProviderEvent::Delta { request_id, chat_id, delta: d });
        assert(events_view(events@) =~= before.push((0u8, request_id, chat_id, ds[i as int])));
        assert(delta_events(request_id, chat_id, ds.take(i + 1)) =~= delta_events(
            request_id,
            chat_id,
            ds.take(i as int),
        ).push((0u8, request_id, chat_id, ds[i as int])));
        i = i + 1;
    }
    assert(ds.take(deltas@.len() as int) =~= ds);
}

impl StreamDecoder {
    pub fn new() -> (r: Self)
        ensures
            r.buffer@.len() == 0,
            !r.has_assistant_text,
    {
        StreamDecoder { buffer: Vec::new(), has_assistant_text: false }
    }

    /// Adds a chunk of the reply and decodes every complete event in the
    /// buffer: `Ok(true)` when the stream finished, `Ok(false)` when more is
    /// needed, or the error that ends it; the decoded texts are appended to
    /// `events` as delta events.
    pub fn push_chunk(
        &mut self,
        request_id: u64,
        chat_id: u64,
        chunk: &str,
        events: &mut Vec<ProviderEvent>,
    ) -> (r: Result<bool, String>)
        ensures
            ({
                let step = process_buffer(
                    old(self).buffer@ + chunk@,
                    old(self).has_assistant_text,
                );
                &&& match r {
                    Ok(f) => step.result == Ok::<bool, Seq<char>>(f),
                    Err(e) => step.result == Err::<bool, Seq<char>>(e@),
                }
                &&& final(self).buffer@ == step.rest
                &&& final(self).has_assistant_text == step.has_text
                &&& events_view(final(events)@) == events_view(old(events)@) + delta_events(
                    request_id,
                    chat_id,
                    step.deltas,
                )
            }),
    {
        crate::text::push_str(&mut self.buffer, chunk);
        self.process_stream_buffer(request_id, chat_id, events)
    }

    fn process_stream_buffer(&mut self, request_id: u64, chat_id: u64, events: &mut Vec<ProviderEvent>) -> (r: Result<bool, String>)
        ensures
            ({
                let step = process_buffer(old(self).buffer@, old(self).has_assistant_text);
                &&& match r {
                    Ok(f) => step.result == Ok::<bool, Seq<char>>(f),
                    Err(e) => step.result == Err::<bool, Seq<char>>(e@),
                }
                &&& final(self).buffer@ == step.rest
                &&& final(self).has_assistant_text == step.has_text
                &&& events_view(final(events)@) == events_view(old(events)@) + delta_events(
                    request_id,
                    chat_id,
                    step.deltas,
                )
            }),
    {
        let ghost total = process_buffer(self.buffer@, self.has_assistant_text);
        let ghost ev0 = events_view(events@);
        let ghost mut acc: Seq<Seq<char>> = Seq::empty();
        loop
            invariant
                total == process_buffer(old(self).buffer@, old(self).has_assistant_text),
                ev0 == events_view(old(events)@),
                ({
                    let cur = process_buffer(self.buffer@, self.has_assistant_text);
                    &&& total.result == cur.result
                    &&& total.rest == cur.rest
                    &&& total.has_text == cur.has_text
                    &&& total.deltas == acc + cur.deltas
                }),
                events_view(events@) == ev0 + delta_events(request_id, chat_id, acc),
            decreases self.buffer@.len(),
        {
            let ghost buf = self.buffer@;
            let ghost has = self.has_assistant_text;
            proof {
                lemma_event_boundary_bounds(buf);
            }
            let boundary = find_event_boundary(self.buffer.as_slice());
            match boundary {
                None => {
                    assert(event_boundary(buf) is None);
                    assert(process_buffer(buf, has) == BufferStep {
                        result: Ok(false),
                        rest: buf,
                        has_text: has,
                        deltas: Seq::empty(),
                    });
                    assert(acc + Seq::<Seq<char>>::empty() =~= acc);
                    return Ok(false);
                },
                Some((end, delimiter_len)) => {
                    assert(event_boundary(buf) == Some((end as int, delimiter_len as int)));
                    assert(end + delimiter_len <= buf.len());
                    assert(buf.len() == self.buffer.len());
                    let event = slice_chars(self.buffer.as_slice(), 0, end);
                    let rest = slice_chars(self.buffer.as_slice(), end + delimiter_len, self.buffer.len());
                    assert(event@ =~= buf.take(end as int));
                    assert(rest@ =~= buf.skip(end + delimiter_len));
                    self.buffer = rest;
                    let text = string_from_chars(event.as_slice());
                    assert(text@ == buf.take(end as int));
                    match handle_sse_event(text.as_str(), !self.has_assistant_text) {
                        Err(e) => {
                            assert(sse_event_result(buf.take(end as int), !has) == Err::<(bool, Seq<Seq<char>>), Seq<char>>(e@));
                            assert(process_buffer(buf, has) == BufferStep {
                                result: Err(e@),
                                rest: buf.skip(end + delimiter_len),
                                has_text: has,
                                deltas: Seq::empty(),
                            });
                            assert(acc + Seq::<Seq<char>>::empty() =~= acc);
                            return Err(e);
                        },
                        Ok(outcome) => {
                            let ghost ds = crate::text::string_views(outcome.deltas@);
                            if outcome.emitted_text {
                                self.has_assistant_text = true;
                            }
                            let finished = outcome.finished;
                            push_deltas(events, request_id, chat_id, outcome.deltas);
                            proof {
                                assert(delta_events(request_id, chat_id, acc + ds) =~= delta_events(
                                    request_id,
                                    chat_id,
                                    acc,
                                ) + delta_events(request_id, chat_id, ds));
                                assert(ev0 + delta_events(request_id, chat_id, acc) + delta_events(
                                    request_id,
                                    chat_id,
                                    ds,
                                ) =~= ev0 + delta_events(request_id, chat_id, acc + ds));
                                let cur = process_buffer(self.buffer@, self.has_assistant_text);
                                assert(acc + (ds + cur.deltas) =~= (acc + ds) + cur.deltas);
                                acc = acc + ds;
                            }
                            if finished {
                                return Ok(true);
                            }
                        },
                    }
                },
            }
        }
    }

    /// Ends the stream: decodes what is left in the buffer as a last event
    /// (unless it is blank) and reports success when assistant text was seen,
    /// else "Empty response from provider".
    pub fn finish(&mut self, request_id: u64, chat_id: u64, events: &mut Vec<ProviderEvent>) -> (r:
        Result<(), String>)
        ensures
            ({
                let end = end_of_stream(old(self).buffer@, old(self).has_assistant_text);
                &&& match r {
                    Ok(()) => end.0 is Ok,
                    Err(e) => end.0 == Err::<(), Seq<char>>(e@),
                }
                &&& events_view(final(events)@) == events_view(old(events)@) + delta_events(
                    request_id,
                    chat_id,
                    end.1,
                )
            }),
    {
        if chars_blank(self.buffer.as_slice()) {
            assert(events_view(events@) + delta_events(request_id, chat_id, Seq::empty()) =~= events_view(events@));
            return finish_stream(self.has_assistant_text);
        }
        let text = string_from_chars(self.buffer.as_slice());
        match handle_sse_event(text.as_str(), !self.has_assistant_text) {
            Err(e) => {
                assert(events_view(events@) + delta_events(request_id, chat_id, Seq::empty()) =~= events_view(events@));
                Err(e)
            },
            Ok(outcome) => {
                if outcome.emitted_text {
                    self.has_assistant_text = true;
                }
                push_deltas(events, request_id, chat_id, outcome.deltas);
                finish_stream(self.has_assistant_text)
            },
        }
    }
}

/// The event that reports how a request ended.
pub fn completion_event(request_id: u64, chat_id: u64, outcome: Result<(), String>) -> (r:
    ProviderEvent)
    ensures
        event_view(r) == (match outcome {
            Ok(()) => (1u8, request_id, chat_id, Seq::<char>::empty()),
            Err(e) => (2u8, request_id, chat_id, e@),
        }),
{
    match outcome {
        Ok(()) => ProviderEvent::Finished { request_id, chat_id },
        Err(error) => ProviderEvent::Failed { request_id, chat_id, error },
    }
}

/// The error text in a provider's error body: `error.message`, else
/// `message`; `None` when the body is not JSON or has neither string.
pub open spec fn error_message_of(body: Seq<char>) -> Option<Seq<char>> {
    match json_string_at(body, "/error/message"@) {
        Some(m) => Some(m),
        None => json_string_at(body, "/message"@),
    }
}

/// The error text in a provider's error body.
pub fn extract_error_message(body: &str) -> (r: Option<String>)
    ensures
        crate::chat::opt_view(r) == error_message_of(body@),
{
    match string_at_pointer(body, "/error/message") {
        Some(m) => Some(m),
        None => string_at_pointer(body, "/message"),
    }
}

pub open spec fn openrouter_models_endpoint() -> Seq<char> {
    "https://openrouter.ai/api/v1/models"@
}

/// Where a connection test goes and with which key: OpenRouter's model list
/// with the trimmed key (an error when it is missing or blank), or the LM
/// Studio model list for the given base URL.
pub open spec fn connection_target_of(
    provider: ProviderKind,
    endpoint_or_base_url: Seq<char>,
    api_key: Option<Seq<char>>,
) -> Result<(Seq<char>, Option<Seq<char>>), Seq<char>> {
    match provider {
        ProviderKind::OpenRouter => match api_key {
            Some(k) => if is_blank(k) {
                Err("OpenRouter API key is missing."@)
            } else {
                Ok((openrouter_models_endpoint(), Some(trim(k))))
            },
            None => Err("OpenRouter API key is missing."@),
        },
        ProviderKind::LmStudio => Ok((lmstudio_endpoint(endpoint_or_base_url, "/models"@), None)),
    }
}

/// The URL and key a connection test uses.
pub fn connection_target(
    provider: ProviderKind,
    endpoint_or_base_url: &str,
    api_key: Option<String>,
) -> (r: Result<(String, Option<String>), String>)
    ensures
        match r {
            Ok(t) => connection_target_of(provider, endpoint_or_base_url@, crate::chat::opt_view(api_key))
                == Ok::<(Seq<char>, Option<Seq<char>>), Seq<char>>((t.0@, crate::chat::opt_view(t.1))),
            Err(e) => connection_target_of(provider, endpoint_or_base_url@, crate::chat::opt_view(api_key))
                == Err::<(Seq<char>, Option<Seq<char>>), Seq<char>>(e@),
        },
{
    match provider {
        ProviderKind::OpenRouter => {
            let key = match api_key {
                Some(k) => trim_string(k.as_str()),
                None => {
                    return Err("OpenRouter API key is missing.".to_string());
                },
            };
            let kv = chars_of(key.as_str());
            if kv.len() == 0 {
                return Err("OpenRouter API key is missing.".to_string());
            }
            Ok(("https://openrouter.ai/api/v1/models".to_string(), Some(key)))
        },
        ProviderKind::LmStudio => Ok((lmstudio_models_endpoint(endpoint_or_base_url), None)),
    }
}

proof fn lemma_history_messages_len(h: Seq<ChatMessage>)
    ensures
        history_messages(h).len() <= h.len(),
    decreases h.len(),
{
    if h.len() > 0 {
        lemma_history_messages_len(h.drop_last());
    }
}

/// The context limit bounds what a request carries: with a limit of `limit`
/// (above zero) at most `limit` history messages follow the system prompt,
/// and the newest history message, unless blank, is always the last message
/// sent.
pub proof fn law_context_limit(system: Seq<char>, history: Seq<ChatMessage>, limit: nat)
    ensures
        limit > 0 ==> request_messages(system, history, limit).len() <= limit + 1,
        history.len() > 0 && !is_blank(history.last().content@) ==> request_messages(
            system,
            history,
            limit,
        ).last() == (role_text(history.last().role), history.last().content@),
{
    let tail = history.skip(tail_start(history.len(), limit) as int);
    lemma_history_messages_len(tail);
    if history.len() > 0 && !is_blank(history.last().content@) {
        assert(tail.drop_last() =~= history.skip(tail_start(history.len(), limit) as int).drop_last());
        assert(tail.last() == history.last());
    }
}

} // verus!
