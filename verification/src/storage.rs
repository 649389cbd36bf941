//! The runtime state and the shapes it is persisted in.
//!
//! Reading and writing files is done by the caller; this module rebuilds
//! the runtime state from what was read, migrates older layouts, and decides
//! which of the primary file, its backup and the defaults wins.

use crate::chat::{
    clone_strings, default_base_system_prompt, default_prompt, empty_profile, models_view,
    normalize_app_settings, opt_model_view, AppSettings, AppSettingsView, ChatMessage, ChatRole,
    ChatSession, ProviderKind, ProviderSettings, ProviderSettingsView, SavedModel, SkillsSettings,
    UserProfile,
};
use crate::text::{is_blank, push_str, string_from_chars, string_views, trim};
use vstd::prelude::*;

verus! {

/// The schema version chat state files are written with.
pub const CURRENT_CHAT_SCHEMA_VERSION: u32 = 1;

/// The schema version settings files are written with.
pub const CURRENT_SETTINGS_SCHEMA_VERSION: u32 = 1;

/// Everything the panel keeps between runs.
#[derive(Debug)]
pub struct AppState {
    pub chats: Vec<ChatSession>,
    pub active_chat_id: u64,
    pub next_chat_id: u64,
    pub next_message_id: u64,
    pub settings: AppSettings,
}

/// The largest chat id of `chats` (0 when there is none).
pub open spec fn max_chat_id(chats: Seq<ChatSession>) -> nat
    decreases chats.len(),
{
    if chats.len() == 0 {
        0
    } else {
        let m = max_chat_id(chats.drop_last());
        if chats.last().id > m {
            chats.last().id as nat
        } else {
            m
        }
    }
}

/// The largest message id of `messages` (0 when there is none).
pub open spec fn max_message_id(messages: Seq<ChatMessage>) -> nat
    decreases messages.len(),
{
    if messages.len() == 0 {
        0
    } else {
        let m = max_message_id(messages.drop_last());
        if messages.last().id > m {
            messages.last().id as nat
        } else {
            m
        }
    }
}

/// The largest message id over all chats (0 when there is none).
pub open spec fn max_message_id_all(chats: Seq<ChatSession>) -> nat
    decreases chats.len(),
{
    if chats.len() == 0 {
        0
    } else {
        let m = max_message_id_all(chats.drop_last());
        let l = max_message_id(chats.last().messages@);
        if l > m {
            l
        } else {
            m
        }
    }
}

/// `n + 1`, or `u64::MAX` when that overflows.
pub open spec fn saturating_next(n: nat) -> u64 {
    if n >= u64::MAX {
        u64::MAX
    } else {
        (n + 1) as u64
    }
}

pub open spec fn has_chat(chats: Seq<ChatSession>, id: u64) -> bool {
    exists|i: int| 0 <= i < chats.len() && chats[i].id == id
}

/// The chat to open: the requested one when it exists, else the first.
pub open spec fn chosen_active_chat(chats: Seq<ChatSession>, requested: u64) -> u64 {
    if has_chat(chats, requested) {
        requested
    } else {
        chats[0].id
    }
}

/// Whether the settings are already in the form normalization gives them.
pub open spec fn settings_normalized(s: AppSettingsView) -> bool {
    normalize_app_settings(s) == s
}

/// What holds of every state the panel runs with: there is a chat, the active
/// chat is one of them, and the ids handed out next are above every id in use
/// (an id that is already the largest `u64` aside).
pub open spec fn state_invariant(s: AppState) -> bool {
    &&& s.chats@.len() > 0
    &&& has_chat(s.chats@, s.active_chat_id)
    &&& forall|i: int|
        0 <= i < s.chats@.len() ==> #[trigger] s.chats@[i].id < s.next_chat_id || s.chats@[i].id
            == u64::MAX
    &&& forall|i: int, j: int|
        0 <= i < s.chats@.len() && 0 <= j < s.chats@[i].messages@.len() ==> #[trigger] s.chats@[i].messages@[j].id
            < s.next_message_id || s.chats@[i].messages@[j].id == u64::MAX
}

/// Two chats that agree in every field.
pub open spec fn same_chat(a: ChatSession, b: ChatSession) -> bool {
    &&& a.id == b.id
    &&& a.title == b.title
    &&& a.provider == b.provider
    &&& a.model == b.model
    &&& a.updated_at == b.updated_at
    &&& a.messages@ == b.messages@
}

/// Two lists of chats that agree chat by chat.
pub open spec fn same_chats(a: Seq<ChatSession>, b: Seq<ChatSession>) -> bool {
    &&& a.len() == b.len()
    &&& forall|i: int| 0 <= i < a.len() ==> same_chat(#[trigger] a[i], b[i])
}

/// The first-run chats: the "Welcome" chat with a system and an assistant message.
pub open spec fn first_run_chats(chats: Seq<ChatSession>) -> bool {
    &&& chats.len() == 1
    &&& chats[0].id == 1
    &&& chats[0].title@ == "Welcome"@
    &&& chats[0].provider == ProviderKind::OpenRouter
    &&& chats[0].model@.len() == 0
    &&& chats[0].messages@.len() == 2
    &&& chats[0].messages@[0].id == 1
    &&& chats[0].messages@[0].role == ChatRole::System
    &&& chats[0].messages@[0].content@ == welcome_system_text()
    &&& chats[0].messages@[1].id == 2
    &&& chats[0].messages@[1].role == ChatRole::Assistant
    &&& chats[0].messages@[1].content@ == welcome_assistant_text()
}

/// A first-run state: the first-run chats, the "Welcome" chat active, and the
/// next ids following its ids.
pub open spec fn is_first_run(s: AppState) -> bool {
    &&& first_run_chats(s.chats@)
    &&& s.active_chat_id == 1
    &&& s.next_chat_id == 2
    &&& s.next_message_id == 3
}

proof fn lemma_first_run_maxima(chats: Seq<ChatSession>)
    requires
        first_run_chats(chats),
    ensures
        max_chat_id(chats) == 1,
        max_message_id_all(chats) == 2,
        has_chat(chats, 1),
{
    assert(chats.drop_last() =~= Seq::<ChatSession>::empty());
    let msgs = chats[0].messages@;
    assert(msgs.drop_last().drop_last() =~= Seq::<ChatMessage>::empty());
    assert(max_message_id(msgs.drop_last().drop_last()) == 0);
    assert(msgs.drop_last().last() == msgs[0]);
    assert(max_message_id(msgs.drop_last()) == 1);
    assert(msgs.last() == msgs[1]);
    assert(max_message_id(msgs) == 2);
    assert(chats.last() == chats[0]);
    assert(max_chat_id(chats.drop_last()) == 0);
    assert(max_message_id_all(chats.drop_last()) == 0);
    assert(chats[0].id == 1);
}

proof fn lemma_first_run_invariant(s: AppState)
    requires
        is_first_run(s),
    ensures
        state_invariant(s),
{
    lemma_first_run_maxima(s.chats@);
}

proof fn lemma_max_chat_id_bound(chats: Seq<ChatSession>)
    ensures
        max_chat_id(chats) <= u64::MAX,
        forall|i: int| 0 <= i < chats.len() ==> chats[i].id <= max_chat_id(chats),
    decreases chats.len(),
{
    if chats.len() > 0 {
        lemma_max_chat_id_bound(chats.drop_last());
        assert forall|i: int| 0 <= i < chats.len() implies chats[i].id <= max_chat_id(chats) by {
            if i < chats.len() - 1 {
                assert(chats.drop_last()[i] == chats[i]);
            }
        }
    }
}

proof fn lemma_max_message_id_bound(messages: Seq<ChatMessage>)
    ensures
        max_message_id(messages) <= u64::MAX,
    decreases messages.len(),
{
    if messages.len() > 0 {
        lemma_max_message_id_bound(messages.drop_last());
    }
}

proof fn lemma_max_message_id_all_bound(chats: Seq<ChatSession>)
    ensures
        max_message_id_all(chats) <= u64::MAX,
    decreases chats.len(),
{
    if chats.len() > 0 {
        lemma_max_message_id_all_bound(chats.drop_last());
        lemma_max_message_id_bound(chats.last().messages@);
    }
}

proof fn lemma_message_ids_bounded(messages: Seq<ChatMessage>)
    ensures
        forall|j: int| 0 <= j < messages.len() ==> messages[j].id <= max_message_id(messages),
    decreases messages.len(),
{
    if messages.len() > 0 {
        lemma_message_ids_bounded(messages.drop_last());
        assert forall|j: int| 0 <= j < messages.len() implies messages[j].id <= max_message_id(
            messages,
        ) by {
            if j < messages.len() - 1 {
                assert(messages.drop_last()[j] == messages[j]);
            }
        }
    }
}

proof fn lemma_all_message_ids_bounded(chats: Seq<ChatSession>)
    ensures
        forall|i: int, j: int|
            0 <= i < chats.len() && 0 <= j < chats[i].messages@.len() ==> chats[i].messages@[j].id
                <= max_message_id_all(chats),
    decreases chats.len(),
{
    if chats.len() > 0 {
        lemma_all_message_ids_bounded(chats.drop_last());
        lemma_message_ids_bounded(chats.last().messages@);
        assert forall|i: int, j: int|
            0 <= i < chats.len() && 0 <= j < chats[i].messages@.len() implies chats[i].messages@[j].id
            <= max_message_id_all(chats) by {
            if i < chats.len() - 1 {
                assert(chats.drop_last()[i] == chats[i]);
            }
        }
    }
}

/// The ids handed out after loading are fresh: unless some id in use is
/// already the largest `u64`, every chat id and every message id of the
/// loaded chats is below the next chat id and the next message id that
/// `AppState::from_parts` sets.
pub proof fn law_loaded_ids_are_fresh(chats: Seq<ChatSession>)
    ensures
        max_chat_id(chats) < u64::MAX ==> forall|i: int|
            0 <= i < chats.len() ==> #[trigger] chats[i].id < saturating_next(max_chat_id(chats)),
        max_message_id_all(chats) < u64::MAX ==> forall|i: int, j: int|
            0 <= i < chats.len() && 0 <= j < chats[i].messages@.len() ==> #[trigger] chats[i].messages@[j].id
                < saturating_next(max_message_id_all(chats)),
{
    lemma_max_chat_id_bound(chats);
    lemma_all_message_ids_bounded(chats);
}

/// The settings of a fresh installation are already normalized, so loading
/// without a settings file yields normalized settings just as reading one does.
pub proof fn law_default_settings_normalized()
    ensures
        normalize_app_settings(crate::chat::default_app_settings())
            == crate::chat::default_app_settings(),
{
    reveal_strlit("http://127.0.0.1:1234/v1");
    reveal_strlit("");
    let url = crate::chat::default_lmstudio_url();
    assert(url[0] == 'h');
    assert(url.last() == '1');
    crate::text::lemma_trim_fixed(url);
    let d = crate::chat::default_app_settings();
    let empty = Seq::<char>::empty();
    assert(crate::text::trim(empty) =~= empty);
    assert(crate::chat::norm_models(Seq::<crate::chat::ModelView>::empty()) =~= Seq::<
        crate::chat::ModelView,
    >::empty());
    let saved = crate::chat::normalized_saved_models(d.provider);
    assert(saved =~= Seq::<crate::chat::ModelView>::empty());
    assert(crate::chat::normalize_provider(d.provider) =~= d.provider);
    assert(crate::chat::normalize_profile(d.profile) =~= d.profile);
    assert(crate::chat::trimmed_items(d.memory) =~= d.memory);
    assert(normalize_app_settings(d) =~= d);
}

/// Rebuilding the state from loaded chats always leaves an active chat that
/// exists: the requested one when it is among the chats (so a saved active
/// chat comes back as it was), else the first chat.
pub proof fn law_rebuilt_active_chat_exists(chats: Seq<ChatSession>, requested: u64)
    requires
        chats.len() > 0,
    ensures
        has_chat(chats, chosen_active_chat(chats, requested)),
        has_chat(chats, requested) ==> chosen_active_chat(chats, requested) == requested,
{
    if !has_chat(chats, requested) {
        assert(chats[0].id == chosen_active_chat(chats, requested));
    }
}

proof fn lemma_rebuilt_invariant(s: AppState, requested: u64)
    requires
        s.chats@.len() > 0,
        s.active_chat_id == chosen_active_chat(s.chats@, requested),
        s.next_chat_id == saturating_next(max_chat_id(s.chats@)),
        s.next_message_id == saturating_next(max_message_id_all(s.chats@)),
    ensures
        state_invariant(s),
{
    law_rebuilt_active_chat_exists(s.chats@, requested);
    lemma_max_chat_id_bound(s.chats@);
    lemma_max_message_id_all_bound(s.chats@);
    lemma_all_message_ids_bounded(s.chats@);
}

/// Chats that agree chat by chat have the same largest chat id and the same
/// largest message id.
proof fn lemma_same_chats_max(a: Seq<ChatSession>, b: Seq<ChatSession>)
    requires
        same_chats(a, b),
    ensures
        max_chat_id(a) == max_chat_id(b),
        max_message_id_all(a) == max_message_id_all(b),
    decreases a.len(),
{
    if a.len() > 0 {
        assert(same_chats(a.drop_last(), b.drop_last())) by {
            assert forall|i: int| 0 <= i < a.drop_last().len() implies same_chat(
                #[trigger] a.drop_last()[i],
                b.drop_last()[i],
            ) by {
                assert(same_chat(a[i], b[i]));
            }
        }
        lemma_same_chats_max(a.drop_last(), b.drop_last());
        assert(same_chat(a[a.len() - 1], b[b.len() - 1]));
    }
}

fn largest_message_id(messages: &Vec<ChatMessage>) -> (r: u64)
    ensures
        r == max_message_id(messages@),
{
    let mut m: u64 = 0;
    let mut i: usize = 0;
    while i < messages.len()
        invariant
            i <= messages@.len(),
            m == max_message_id(messages@.take(i as int)),
        decreases messages@.len() - i,
    {
        assert(messages@.take(i + 1).drop_last() =~= messages@.take(i as int));
        if messages[i].id > m {
            m = messages[i].id;
        }
        i = i + 1;
    }
    assert(messages@.take(messages@.len() as int) =~= messages@);
    m
}

impl AppState {
    /// The state made of persisted settings and chats: the next ids follow the
    /// largest ids in use, and the active chat falls back to the first chat
    /// when the requested one is gone; an error when there is no chat.
    pub fn from_parts(settings: AppSettings, chat_sessions: Vec<ChatSession>, active_chat_id: u64) -> (r:
        Result<Self, String>)
        ensures
            chat_sessions@.len() == 0 <==> r is Err,
            r matches Err(e) ==> e@ == "state contains no chat sessions"@,
            r matches Ok(s) ==> {
                &&& s.chats@ == chat_sessions@
                &&& s.active_chat_id == chosen_active_chat(chat_sessions@, active_chat_id)
                &&& s.next_chat_id == saturating_next(max_chat_id(chat_sessions@))
                &&& s.next_message_id == saturating_next(max_message_id_all(chat_sessions@))
                &&& s.settings == settings
                &&& state_invariant(s)
            },
    {
        if chat_sessions.len() == 0 {
            return Err("state contains no chat sessions".to_string());
        }
        let mut max_chat: u64 = 0;
        let mut max_message: u64 = 0;
        let mut found = false;
        let mut i: usize = 0;
        while i < chat_sessions.len()
            invariant
                i <= chat_sessions@.len(),
                max_chat == max_chat_id(chat_sessions@.take(i as int)),
                max_message == max_message_id_all(chat_sessions@.take(i as int)),
                found == has_chat(chat_sessions@.take(i as int), active_chat_id),
            decreases chat_sessions@.len() - i,
        {
            let ghost prefix = chat_sessions@.take(i as int);
            let ghost next = chat_sessions@.take(i + 1);
            assert(next.drop_last() =~= prefix);
            assert(next.last() == chat_sessions@[i as int]);
            if chat_sessions[i].id > max_chat {
                max_chat = chat_sessions[i].id;
            }
            let m = largest_message_id(&chat_sessions[i].messages);
            if m > max_message {
                max_message = m;
            }
            proof {
                if found {
                    let k = choose|k: int| 0 <= k < prefix.len() && prefix[k].id == active_chat_id;
                    assert(next[k] == prefix[k]);
                }
                if has_chat(next, active_chat_id) && !has_chat(prefix, active_chat_id) {
                    let k = choose|k: int| 0 <= k < next.len() && next[k].id == active_chat_id;
                    if k < i {
                        assert(prefix[k] == next[k]);
                    }
                }
            }
            if chat_sessions[i].id == active_chat_id {
                found = true;
            }
            i = i + 1;
        }
        assert(chat_sessions@.take(chat_sessions@.len() as int) =~= chat_sessions@);
        let next_chat_id = if max_chat == u64::MAX {
            u64::MAX
        } else {
            max_chat + 1
        };
        let next_message_id = if max_message == u64::MAX {
            u64::MAX
        } else {
            max_message + 1
        };
        let active = if found {
            active_chat_id
        } else {
            chat_sessions[0].id
        };
        let state = AppState {
            chats: chat_sessions,
            active_chat_id: active,
            next_chat_id,
            next_message_id,
            settings,
        };
        proof {
            lemma_rebuilt_invariant(state, active_chat_id);
        }
        Ok(state)
    }
}

pub open spec fn welcome_system_text() -> Seq<char> {
    "This panel stores chats locally and will later connect to OpenRouter or LM Studio."@
}

pub open spec fn welcome_assistant_text() -> Seq<char> {
    "UI shell is ready for testing: create chats, switch them, rename them, delete them, and open settings."@
}

impl Default for AppState {
    /// A first-run state: one "Welcome" chat with a system and an assistant
    /// message, and default settings.
    fn default() -> (r: Self)
        ensures
            is_first_run(r),
            r.settings@ == crate::chat::default_app_settings(),
            state_invariant(r),
            settings_normalized(r.settings@),
    {
        let settings = AppSettings::default();
        let mut welcome_chat = ChatSession::new(1, ProviderKind::OpenRouter, "");
        proof {
            reveal_strlit("");
        }
        welcome_chat.title = "Welcome".to_string();
        let mut messages: Vec<ChatMessage> = Vec::new();
        messages.push(
            ChatMessage::new(
                1,
                ChatRole::System,
                "This panel stores chats locally and will later connect to OpenRouter or LM Studio.",
            ),
        );
        messages.push(
            ChatMessage::new(
                2,
                ChatRole::Assistant,
                "UI shell is ready for testing: create chats, switch them, rename them, delete them, and open settings.",
            ),
        );
        welcome_chat.messages = messages;
        let mut chats: Vec<ChatSession> = Vec::new();
        chats.push(welcome_chat);
        let state = AppState { chats, active_chat_id: 1, next_chat_id: 2, next_message_id: 3, settings };
        proof {
            lemma_first_run_invariant(state);
            law_default_settings_normalized();
        }
        state
    }
}

/// Version 1 of the chat state file.
#[derive(Debug)]
pub struct PersistedChatStateV1 {
    pub schema_version: u32,
    pub chat_sessions: Vec<ChatSession>,
    pub active_chat_id: u64,
}

/// A chat state file of any supported version.
#[derive(Debug)]
pub enum PersistedChatState {
    PersistedChatStateV1(PersistedChatStateV1),
}

fn clone_chats(chats: &Vec<ChatSession>) -> (r: Vec<ChatSession>)
    ensures
        same_chats(r@, chats@),
{
    let mut r: Vec<ChatSession> = Vec::new();
    let mut i: usize = 0;
    while i < chats.len()
        invariant
            i <= chats@.len(),
            r@.len() == i,
            forall|k: int| 0 <= k < i ==> same_chat(#[trigger] r@[k], chats@[k]),
        decreases chats@.len() - i,
    {
        r.push(chats[i].clone());
        i = i + 1;
    }
    r
}

impl PersistedChatStateV1 {
    /// The chats and active chat of `state`, stamped with the current schema version.
    pub fn from_runtime(state: &AppState) -> (r: Self)
        ensures
            r.schema_version == CURRENT_CHAT_SCHEMA_VERSION,
            r.active_chat_id == state.active_chat_id,
            same_chats(r.chat_sessions@, state.chats@),
    {
        PersistedChatStateV1 {
            schema_version: CURRENT_CHAT_SCHEMA_VERSION,
            chat_sessions: clone_chats(&state.chats),
            active_chat_id: state.active_chat_id,
        }
    }
}

/// Version 1 of the settings file.
#[derive(Debug)]
pub struct PersistedSettingsV1 {
    pub schema_version: u32,
    pub provider: ProviderSettings,
    pub profile: UserProfile,
    pub memory: Vec<String>,
    pub skills: SkillsSettings,
    pub base_system_prompt: String,
    pub context_message_limit: usize,
}

/// A settings file of any supported version.
#[derive(Debug)]
pub enum PersistedSettings {
    PersistedSettingsV1(PersistedSettingsV1),
}

pub open spec fn persisted_settings_view(p: PersistedSettingsV1) -> AppSettingsView {
    AppSettingsView {
        provider: p.provider@,
        profile: p.profile@,
        memory: string_views(p.memory@),
        skills: p.skills,
        base_system_prompt: p.base_system_prompt@,
        context_message_limit: p.context_message_limit,
    }
}

impl PersistedSettingsV1 {
    /// The settings as they are written, stamped with the current schema version.
    pub fn from_runtime(settings: &AppSettings) -> (r: Self)
        ensures
            r.schema_version == CURRENT_SETTINGS_SCHEMA_VERSION,
            persisted_settings_view(r) == settings@,
    {
        let r = PersistedSettingsV1 {
            schema_version: CURRENT_SETTINGS_SCHEMA_VERSION,
            provider: settings.provider.clone(),
            profile: settings.profile.clone(),
            memory: clone_strings(&settings.memory),
            skills: settings.skills,
            base_system_prompt: settings.base_system_prompt.clone(),
            context_message_limit: settings.context_message_limit,
        };
        assert(r.memory@ == settings.memory@);
        r
    }

    /// The normalized runtime settings.
    pub fn into_runtime(self) -> (r: AppSettings)
        ensures
            r@ == normalize_app_settings(persisted_settings_view(self)),
            settings_normalized(r@),
    {
        proof {
            crate::settings_laws::law_normalize_app_settings_idempotent(persisted_settings_view(self));
        }
        let mut settings = AppSettings {
            provider: self.provider,
            profile: self.profile,
            memory: self.memory,
            skills: self.skills,
            base_system_prompt: self.base_system_prompt,
            context_message_limit: self.context_message_limit,
        };
        settings.normalize();
        settings
    }
}

/// Runtime settings are normalized (loading normalizes them); such settings
/// come back unchanged from a version 1 settings file, since `from_runtime`
/// copies them and `into_runtime` only normalizes them again.
pub proof fn law_settings_roundtrip(v: AppSettingsView)
    ensures
        ({
            let s = normalize_app_settings(v);
            normalize_app_settings(s) == s
        }),
{
    crate::settings_laws::law_normalize_app_settings_idempotent(v);
}

/// The chat part of a loaded state file, with the settings it carried when it
/// used an older combined layout.
#[derive(Debug)]
pub struct LoadedChatState {
    pub chat_sessions: Vec<ChatSession>,
    pub active_chat_id: u64,
    pub legacy_settings: Option<AppSettings>,
}

impl LoadedChatState {
    /// The runtime state made of the loaded chats and `settings`.
    pub fn into_runtime(self, settings: AppSettings) -> (r: Result<AppState, String>)
        ensures
            self.chat_sessions@.len() == 0 <==> r is Err,
            r matches Ok(s) ==> {
                &&& s.chats@ == self.chat_sessions@
                &&& s.active_chat_id == chosen_active_chat(self.chat_sessions@, self.active_chat_id)
                &&& s.next_chat_id == saturating_next(max_chat_id(self.chat_sessions@))
                &&& s.next_message_id == saturating_next(max_message_id_all(self.chat_sessions@))
                &&& s.settings == settings
                &&& state_invariant(s)
            },
    {
        AppState::from_parts(settings, self.chat_sessions, self.active_chat_id)
    }

    /// The chats of a version 1 chat file.
    pub fn from_persisted(state: PersistedChatState) -> (r: Self)
        ensures
            match state {
                PersistedChatState::PersistedChatStateV1(v) => r.chat_sessions@ == v.chat_sessions@
                    && r.active_chat_id == v.active_chat_id && r.legacy_settings is None,
            },
    {
        match state {
            PersistedChatState::PersistedChatStateV1(v) => LoadedChatState {
                chat_sessions: v.chat_sessions,
                active_chat_id: v.active_chat_id,
                legacy_settings: None,
            },
        }
    }
}

/// Settings as the older combined state files held them.
#[derive(Debug)]
pub struct LegacyAppSettings {
    pub provider: ProviderKind,
    pub openrouter_api_key: String,
    pub lmstudio_base_url: String,
    pub saved_models: Vec<SavedModel>,
    pub default_model: Option<SavedModel>,
    pub base_system_prompt: String,
    pub context_message_limit: usize,
    pub profile: UserProfile,
    pub memory: Vec<String>,
    pub skills: SkillsSettings,
    pub legacy_openrouter_model: String,
    pub legacy_lmstudio_model: String,
    pub timeout_seconds: Option<u64>,
    pub retry_attempts: Option<u8>,
    pub retry_delay_seconds: Option<u64>,
}

/// The settings that an older settings record stands for, before normalization:
/// missing provider limits take their defaults and a blank base prompt the
/// default prompt.
pub open spec fn legacy_settings_view(l: LegacyAppSettings) -> AppSettingsView {
    AppSettingsView {
        provider: ProviderSettingsView {
            active_provider: l.provider,
            openrouter_api_key: l.openrouter_api_key@,
            lmstudio_base_url: l.lmstudio_base_url@,
            saved_models: models_view(l.saved_models@),
            default_model: opt_model_view(l.default_model),
            timeout_seconds: match l.timeout_seconds {
                Some(t) => t,
                None => 20,
            },
            retry_attempts: match l.retry_attempts {
                Some(t) => t,
                None => 1,
            },
            retry_delay_seconds: match l.retry_delay_seconds {
                Some(t) => t,
                None => 2,
            },
            legacy_openrouter_model: l.legacy_openrouter_model@,
            legacy_lmstudio_model: l.legacy_lmstudio_model@,
        },
        profile: l.profile@,
        memory: string_views(l.memory@),
        skills: l.skills,
        base_system_prompt: if is_blank(l.base_system_prompt@) {
            default_prompt()
        } else {
            l.base_system_prompt@
        },
        context_message_limit: l.context_message_limit,
    }
}

impl LegacyAppSettings {
    /// The normalized runtime settings that an older settings record stands for.
    pub fn into_runtime(self) -> (r: AppSettings)
        ensures
            r@ == normalize_app_settings(legacy_settings_view(self)),
            settings_normalized(r@),
    {
        let ghost view = legacy_settings_view(self);
        proof {
            crate::settings_laws::law_normalize_app_settings_idempotent(view);
        }
        let blank = crate::text::str_blank(self.base_system_prompt.as_str());
        let base_system_prompt = if blank {
            default_base_system_prompt().to_string()
        } else {
            self.base_system_prompt
        };
        let mut settings = AppSettings {
            provider: ProviderSettings {
                active_provider: self.provider,
                openrouter_api_key: self.openrouter_api_key,
                lmstudio_base_url: self.lmstudio_base_url,
                saved_models: self.saved_models,
                default_model: self.default_model,
                timeout_seconds: match self.timeout_seconds {
                    Some(t) => t,
                    None => 20,
                },
                retry_attempts: match self.retry_attempts {
                    Some(t) => t,
                    None => 1,
                },
                retry_delay_seconds: match self.retry_delay_seconds {
                    Some(t) => t,
                    None => 2,
                },
                legacy_openrouter_model: self.legacy_openrouter_model,
                legacy_lmstudio_model: self.legacy_lmstudio_model,
            },
            profile: self.profile,
            memory: self.memory,
            skills: self.skills,
            base_system_prompt,
            context_message_limit: self.context_message_limit,
        };
        assert(settings@ =~= view);
        settings.normalize();
        settings
    }
}

/// Migrating older settings keeps what the user entered: the memory items
/// (trimmed, blank ones dropped, order kept), the skills, the context limit,
/// the profile (normalized), the provider choice's inputs, and the base
/// prompt unless it was blank. Missing provider limits take their defaults.
pub proof fn law_legacy_settings_keep_user_data(l: LegacyAppSettings)
    ensures
        ({
            let m = normalize_app_settings(legacy_settings_view(l));
            &&& m.memory == crate::chat::trimmed_items(string_views(l.memory@))
            &&& m.skills == l.skills
            &&& m.context_message_limit == l.context_message_limit
            &&& m.profile == crate::chat::normalize_profile(l.profile@)
            &&& m.provider.openrouter_api_key == l.openrouter_api_key@
            &&& !is_blank(l.base_system_prompt@) ==> m.base_system_prompt
                == l.base_system_prompt@
            &&& is_blank(l.base_system_prompt@) ==> m.base_system_prompt == default_prompt()
            &&& (l.retry_attempts matches Some(a) ==> (a <= 5 ==> m.provider.retry_attempts == a))
            &&& (l.retry_attempts is None ==> m.provider.retry_attempts == 1)
        }),
{
}

/// Migrating older settings keeps every non-blank memory item, trimmed, in
/// its place among the kept items: the `k`-th kept item is the trimmed
/// `k`-th non-blank legacy item, and nothing else is kept.
pub proof fn law_legacy_memory_items_survive(l: LegacyAppSettings, i: int)
    requires
        0 <= i < l.memory@.len(),
        !is_blank(l.memory@[i]@),
    ensures
        normalize_app_settings(legacy_settings_view(l)).memory.contains(trim(l.memory@[i]@)),
        normalize_app_settings(legacy_settings_view(l)).memory.len() <= l.memory@.len(),
{
    lemma_trimmed_items_keep(string_views(l.memory@), i);
}

proof fn lemma_trimmed_items_keep(s: Seq<Seq<char>>, i: int)
    requires
        0 <= i < s.len(),
        !is_blank(s[i]),
    ensures
        crate::chat::trimmed_items(s).contains(trim(s[i])),
        crate::chat::trimmed_items(s).len() <= s.len(),
    decreases s.len(),
{
    let t = s.drop_last();
    let r = crate::chat::trimmed_items(t);
    if i < s.len() - 1 {
        assert(t[i] == s[i]);
        lemma_trimmed_items_keep(t, i);
        let k = choose|k: int| 0 <= k < r.len() && r[k] == trim(s[i]);
        if !is_blank(s.last()) {
            assert(r.push(trim(s.last()))[k] == trim(s[i]));
        }
    } else {
        lemma_trimmed_items_len(t);
        assert(r.push(trim(s.last()))[r.len() as int] == trim(s[i]));
    }
}

proof fn lemma_trimmed_items_len(s: Seq<Seq<char>>)
    ensures
        crate::chat::trimmed_items(s).len() <= s.len(),
    decreases s.len(),
{
    if s.len() > 0 {
        lemma_trimmed_items_len(s.drop_last());
    }
}

impl Default for LegacyAppSettings {
    /// What a missing field of an older settings record reads as.
    fn default() -> (r: Self)
        ensures
            r.provider == ProviderKind::OpenRouter,
            r.openrouter_api_key@.len() == 0,
            r.lmstudio_base_url@ == crate::chat::default_lmstudio_url(),
            r.saved_models@.len() == 0,
            r.default_model is None,
            r.base_system_prompt@ == default_prompt(),
            r.context_message_limit == 10,
            r.profile@ == empty_profile(),
            r.memory@.len() == 0,
            r.skills == (SkillsSettings { datetime: true, clipboard: false, filesystem: false }),
            r.legacy_openrouter_model@.len() == 0,
            r.legacy_lmstudio_model@.len() == 0,
            r.timeout_seconds is None,
            r.retry_attempts is None,
            r.retry_delay_seconds is None,
    {
        LegacyAppSettings {
            provider: ProviderKind::OpenRouter,
            openrouter_api_key: String::new(),
            lmstudio_base_url: "http://127.0.0.1:1234/v1".to_string(),
            saved_models: Vec::new(),
            default_model: None,
            base_system_prompt: default_base_system_prompt().to_string(),
            context_message_limit: 10,
            profile: UserProfile::default(),
            memory: Vec::new(),
            skills: SkillsSettings::default(),
            legacy_openrouter_model: String::new(),
            legacy_lmstudio_model: String::new(),
            timeout_seconds: None,
            retry_attempts: None,
            retry_delay_seconds: None,
        }
    }
}

/// The chats of an unversioned combined state file: an error when it has no
/// chat, else its chats, active chat and migrated settings.
pub fn migrate_legacy_chat_state(
    chats: Vec<ChatSession>,
    active_chat_id: u64,
    settings: LegacyAppSettings,
) -> (r: Result<LoadedChatState, String>)
    ensures
        chats@.len() == 0 <==> r is Err,
        r matches Err(e) ==> e@ == "legacy state contains no chat sessions"@,
        r matches Ok(s) ==> s.chat_sessions@ == chats@ && s.active_chat_id == active_chat_id && (
        s.legacy_settings matches Some(l) && l@ == normalize_app_settings(
            legacy_settings_view(settings),
        ) && settings_normalized(l@)),
{
    if chats.len() == 0 {
        return Err("legacy state contains no chat sessions".to_string());
    }
    Ok(
        LoadedChatState {
            chat_sessions: chats,
            active_chat_id,
            legacy_settings: Some(settings.into_runtime()),
        },
    )
}

/// The chats of a version 1 state file that still carried its settings.
pub fn migrate_versioned_legacy_state(
    chats: Vec<ChatSession>,
    active_chat_id: u64,
    settings: LegacyAppSettings,
) -> (r: LoadedChatState)
    ensures
        r.chat_sessions@ == chats@,
        r.active_chat_id == active_chat_id,
        r.legacy_settings matches Some(l) && l@ == normalize_app_settings(
            legacy_settings_view(settings),
        ) && settings_normalized(l@),
{
    LoadedChatState {
        chat_sessions: chats,
        active_chat_id,
        legacy_settings: Some(settings.into_runtime()),
    }
}

/// Whether `r` is the first-run state: the "Welcome" chat with its two
/// messages, active, carrying the default settings.
pub open spec fn is_first_run_state(r: LoadedChatState) -> bool {
    &&& first_run_chats(r.chat_sessions@)
    &&& r.active_chat_id == 1
    &&& r.legacy_settings matches Some(s) && s@ == crate::chat::default_app_settings()
}

/// What is loaded when there is no usable chat file: the first-run chats,
/// carrying the default settings.
pub fn default_loaded_chat_state() -> (r: LoadedChatState)
    ensures
        is_first_run_state(r),
{
    let state = AppState::default();
    LoadedChatState {
        chat_sessions: state.chats,
        active_chat_id: state.active_chat_id,
        legacy_settings: Some(state.settings),
    }
}

/// Which loaded chat state wins: the primary file when it loaded, else the
/// backup when it loaded, else the first-run state. `primary` is `None` when
/// the primary file does not exist; `backup` is `None` when the backup does
/// not exist or was not needed.
pub fn select_loaded_chat_state(
    primary: Option<Result<LoadedChatState, String>>,
    backup: Option<Result<LoadedChatState, String>>,
) -> (r: LoadedChatState)
    ensures
        match primary {
            Some(Ok(p)) => r == p,
            Some(Err(_)) => match backup {
                Some(Ok(b)) => r == b,
                _ => is_first_run_state(r),
            },
            None => is_first_run_state(r),
        },
{
    match primary {
        Some(Ok(p)) => p,
        Some(Err(_)) => match backup {
            Some(Ok(b)) => b,
            _ => default_loaded_chat_state(),
        },
        None => default_loaded_chat_state(),
    }
}

/// Which loaded settings win: the primary file when it loaded, else the
/// backup when it loaded, else `fallback`, else the defaults.
pub fn select_loaded_settings(
    primary: Option<Result<AppSettings, String>>,
    backup: Option<Result<AppSettings, String>>,
    fallback: Option<AppSettings>,
) -> (r: AppSettings)
    ensures
        match primary {
            Some(Ok(p)) => r == p,
            _ => match (primary, backup) {
                (Some(Err(_)), Some(Ok(b))) => r == b,
                _ => match fallback {
                    Some(f) => r == f,
                    None => r@ == crate::chat::default_app_settings(),
                },
            },
        },
{
    match primary {
        Some(Ok(p)) => p,
        Some(Err(_)) => match backup {
            Some(Ok(b)) => b,
            _ => match fallback {
                Some(f) => f,
                None => AppSettings::default(),
            },
        },
        None => match fallback {
            Some(f) => f,
            None => AppSettings::default(),
        },
    }
}

/// The chat state a load keeps: the primary file's when it loaded, else the
/// backup's when it loaded; `None` stands for the first-run state.
pub open spec fn chosen_chat_state(
    primary: Option<Result<LoadedChatState, String>>,
    backup: Option<Result<LoadedChatState, String>>,
) -> Option<LoadedChatState> {
    match primary {
        Some(Ok(p)) => Some(p),
        Some(Err(_)) => match backup {
            Some(Ok(b)) => Some(b),
            _ => None,
        },
        None => None,
    }
}

/// The settings a load keeps: the primary file's when it loaded, else the
/// backup's when it loaded, else `fallback`, else the defaults.
pub open spec fn chosen_settings_view(
    primary: Option<Result<AppSettings, String>>,
    backup: Option<Result<AppSettings, String>>,
    fallback: Option<AppSettingsView>,
) -> AppSettingsView {
    let otherwise = match fallback {
        Some(f) => f,
        None => crate::chat::default_app_settings(),
    };
    match primary {
        Some(Ok(p)) => p@,
        Some(Err(_)) => match backup {
            Some(Ok(b)) => b@,
            _ => otherwise,
        },
        None => otherwise,
    }
}

/// The settings a loaded chat file carried, as plain values.
pub open spec fn legacy_settings_of(c: LoadedChatState) -> Option<AppSettingsView> {
    match c.legacy_settings {
        Some(l) => Some(l@),
        None => None,
    }
}

/// The state a load gives for what was read of the chat file, its backup,
/// the settings file and its backup: the kept chats with the kept settings
/// (the chat file's own settings as the fallback), or, when no chat was kept,
/// the first-run state with the kept settings; the settings normalized.
pub open spec fn is_loaded_state(
    r: AppState,
    chat_primary: Option<Result<LoadedChatState, String>>,
    chat_backup: Option<Result<LoadedChatState, String>>,
    settings_primary: Option<Result<AppSettings, String>>,
    settings_backup: Option<Result<AppSettings, String>>,
) -> bool {
    let chosen = chosen_chat_state(chat_primary, chat_backup);
    if chosen is Some && chosen->0.chat_sessions@.len() > 0 {
        let c = chosen->0;
        &&& r.chats@ == c.chat_sessions@
        &&& r.active_chat_id == chosen_active_chat(c.chat_sessions@, c.active_chat_id)
        &&& r.next_chat_id == saturating_next(max_chat_id(c.chat_sessions@))
        &&& r.next_message_id == saturating_next(max_message_id_all(c.chat_sessions@))
        &&& r.settings@ == normalize_app_settings(
            chosen_settings_view(settings_primary, settings_backup, legacy_settings_of(c)),
        )
    } else {
        &&& is_first_run(r)
        &&& r.settings@ == normalize_app_settings(
            chosen_settings_view(settings_primary, settings_backup, None),
        )
    }
}

/// The state the panel starts with, made of what was read of the chat file,
/// its backup, the settings file and its backup (`None` where a file does not
/// exist or was not needed). The kept settings are normalized once more, which
/// leaves settings read from files as they are.
pub fn load_state_from_outcomes(
    chat_primary: Option<Result<LoadedChatState, String>>,
    chat_backup: Option<Result<LoadedChatState, String>>,
    settings_primary: Option<Result<AppSettings, String>>,
    settings_backup: Option<Result<AppSettings, String>>,
) -> (r: AppState)
    ensures
        is_loaded_state(r, chat_primary, chat_backup, settings_primary, settings_backup),
        state_invariant(r),
        settings_normalized(r.settings@),
{
    let ghost sp = settings_primary;
    let ghost sb = settings_backup;
    let chats = select_loaded_chat_state(chat_primary, chat_backup);
    proof {
        law_default_settings_normalized();
    }
    if chats.chat_sessions.len() == 0 {
        let mut settings = select_loaded_settings(settings_primary, settings_backup, None);
        assert(settings@ == chosen_settings_view(sp, sb, None));
        settings.normalize();
        proof {
            crate::settings_laws::law_normalize_app_settings_idempotent(chosen_settings_view(sp, sb, None));
        }
        let mut state = AppState::default();
        state.settings = settings;
        proof {
            lemma_first_run_invariant(state);
        }
        state
    } else {
        let ghost c = chats;
        let LoadedChatState { chat_sessions, active_chat_id, legacy_settings } = chats;
        let mut settings = select_loaded_settings(settings_primary, settings_backup, legacy_settings);
        assert(settings@ == chosen_settings_view(sp, sb, legacy_settings_of(c)));
        settings.normalize();
        proof {
            crate::settings_laws::law_normalize_app_settings_idempotent(
                chosen_settings_view(sp, sb, legacy_settings_of(c)),
            );
        }
        let state = AppState::from_parts(settings, chat_sessions, active_chat_id).unwrap();
        proof {
            if chosen_chat_state(chat_primary, chat_backup) is None {
                lemma_first_run_maxima(c.chat_sessions@);
            }
        }
        state
    }
}

/// The settings as the settings file holds them: the API key and the legacy
/// model names are not written, so they read back empty.
pub open spec fn settings_as_written(s: AppSettingsView) -> AppSettingsView {
    AppSettingsView { provider: crate::settings_laws::provider_as_written(s.provider), ..s }
}

/// What the panel saves is what it loads back, but for what the settings
/// file does not hold: for a state with a chat, an existing active chat and
/// normalized settings, rebuilding from the version 1 chat file and settings
/// file written for it gives the same chats, the same active chat, and the
/// same settings with the API key and the legacy model names empty, with the
/// next ids one past the largest ids in use. `chat_file` and `settings_file`
/// are what `from_runtime` makes to be written; `written_settings` is what
/// reading the settings file back parses to (the same, less the fields that
/// are not written); `read_chats` and `read_settings` are what loading makes
/// of them, and `loaded` the state rebuilt from those.
pub proof fn law_save_load_roundtrip(
    saved: AppState,
    chat_file: PersistedChatStateV1,
    settings_file: PersistedSettingsV1,
    written_settings: PersistedSettingsV1,
    read_chats: LoadedChatState,
    read_settings: AppSettings,
    loaded: AppState,
)
    requires
        saved.chats@.len() > 0,
        has_chat(saved.chats@, saved.active_chat_id),
        settings_normalized(saved.settings@),
        chat_file.active_chat_id == saved.active_chat_id,
        same_chats(chat_file.chat_sessions@, saved.chats@),
        persisted_settings_view(settings_file) == saved.settings@,
        persisted_settings_view(written_settings) == settings_as_written(
            persisted_settings_view(settings_file),
        ),
        read_chats.chat_sessions@ == chat_file.chat_sessions@,
        read_chats.active_chat_id == chat_file.active_chat_id,
        read_chats.legacy_settings is None,
        read_settings@ == normalize_app_settings(persisted_settings_view(written_settings)),
        is_loaded_state(loaded, Some(Ok(read_chats)), None, Some(Ok(read_settings)), None),
    ensures
        same_chats(loaded.chats@, saved.chats@),
        loaded.active_chat_id == saved.active_chat_id,
        loaded.settings@ == settings_as_written(saved.settings@),
        loaded.next_chat_id == saturating_next(max_chat_id(saved.chats@)),
        loaded.next_message_id == saturating_next(max_message_id_all(saved.chats@)),
{
    let chats = read_chats.chat_sessions@;
    lemma_same_chats_max(chats, saved.chats@);
    let k = choose|k: int| 0 <= k < saved.chats@.len() && saved.chats@[k].id == saved.active_chat_id;
    assert(same_chat(chats[k], saved.chats@[k]));
    assert(has_chat(chats, saved.active_chat_id));
    let w = settings_as_written(saved.settings@);
    crate::settings_laws::law_normalize_app_settings_idempotent(w);
    crate::settings_laws::law_normalized_provider_as_written(saved.settings@.provider);
    assert(normalize_app_settings(w) =~= w);
}

/// The name of a file kept next to one named `file_name`: that name with
/// `suffix` appended, or "state" with `suffix` when the path has no usable
/// file name.
pub fn sibling_file_name(file_name: Option<&str>, suffix: &str) -> (r: String)
    ensures
        r@ == (match file_name {
            Some(n) => n@,
            None => "state"@,
        }) + suffix@,
{
    let mut v: Vec<char> = Vec::new();
    match file_name {
        Some(n) => push_str(&mut v, n),
        None => push_str(&mut v, "state"),
    }
    push_str(&mut v, suffix);
    string_from_chars(v.as_slice())
}

/// The name of the temporary file written before replacing `file_name`.
pub fn temp_file_name(file_name: Option<&str>) -> (r: String)
    ensures
        r@ == (match file_name {
            Some(n) => n@,
            None => "state"@,
        }) + ".tmp"@,
{
    sibling_file_name(file_name, ".tmp")
}

/// The name of the backup kept of `file_name`.
pub fn backup_file_name(file_name: Option<&str>) -> (r: String)
    ensures
        r@ == (match file_name {
            Some(n) => n@,
            None => "state"@,
        }) + ".bak"@,
{
    sibling_file_name(file_name, ".bak")
}

} // verus!
