//! Chat sessions, saved models, provider settings and user profile.

use crate::text::{
    chars_of, decimal, decimal_chars, is_blank, push_chars, push_str, string_from_chars,
    string_views, trim, trim_string,
};
use vstd::prelude::*;

verus! {

/// The chat back-ends the panel can talk to.
#[derive(Debug, Clone, Copy, PartialEq, Eq, Structural, Hash)]
pub enum ProviderKind {
    OpenRouter,
    LmStudio,
}

pub open spec fn provider_label(p: ProviderKind) -> Seq<char> {
    match p {
        ProviderKind::OpenRouter => "OpenRouter"@,
        ProviderKind::LmStudio => "LM Studio"@,
    }
}

pub open spec fn provider_index(p: ProviderKind) -> usize {
    match p {
        ProviderKind::OpenRouter => 0,
        ProviderKind::LmStudio => 1,
    }
}

pub open spec fn provider_from_index(i: usize) -> ProviderKind {
    if i == 1 {
        ProviderKind::LmStudio
    } else {
        ProviderKind::OpenRouter
    }
}

impl Default for ProviderKind {
    fn default() -> (r: Self)
        ensures
            r == ProviderKind::OpenRouter,
    {
        ProviderKind::OpenRouter
    }
}

impl ProviderKind {
    /// The supported providers, in index order.
    pub fn all() -> (r: [ProviderKind; 2])
        ensures
            r@ == seq![ProviderKind::OpenRouter, ProviderKind::LmStudio],
    {
        let r = [ProviderKind::OpenRouter, ProviderKind::LmStudio];
        assert(r@ =~= seq![ProviderKind::OpenRouter, ProviderKind::LmStudio]);
        r
    }

    /// Human readable name of the provider.
    pub fn label(self) -> (r: &'static str)
        ensures
            r@ == provider_label(self),
    {
        match self {
            ProviderKind::OpenRouter => "OpenRouter",
            ProviderKind::LmStudio => "LM Studio",
        }
    }

    /// The provider at position `index` of the provider list; out-of-range
    /// positions give the default provider (OpenRouter).
    pub fn from_index(index: usize) -> (r: Self)
        ensures
            r == provider_from_index(index),
    {
        if index == 1 {
            ProviderKind::LmStudio
        } else {
            ProviderKind::OpenRouter
        }
    }

    /// Position of the provider in the provider list.
    pub fn index(self) -> (r: usize)
        ensures
            r == provider_index(self),
    {
        match self {
            ProviderKind::OpenRouter => 0,
            ProviderKind::LmStudio => 1,
        }
    }
}

/// `from_index` undoes `index`, and `index` stays within the two positions.
pub proof fn law_provider_index_roundtrip(p: ProviderKind)
    ensures
        provider_from_index(provider_index(p)) == p,
        provider_index(p) < 2,
{
}

/// The supported providers are listed in index order: position `i` of the
/// list is `from_index(i)` and has index `i`; any other index gives the
/// default provider, OpenRouter.
pub proof fn law_provider_list_matches_index(i: usize)
    ensures
        ({
            let all = seq![ProviderKind::OpenRouter, ProviderKind::LmStudio];
            &&& i < 2 ==> provider_from_index(i) == all[i as int] && provider_index(all[i as int])
                == i
            &&& i >= 2 ==> provider_from_index(i) == ProviderKind::OpenRouter
        }),
{
}

/// Who wrote a chat message.
#[derive(Debug, Clone, Copy, PartialEq, Eq, Structural, Hash)]
pub enum ChatRole {
    System,
    User,
    Assistant,
}

/// One message of a chat.
#[derive(Debug)]
pub struct ChatMessage {
    pub id: u64,
    pub role: ChatRole,
    pub content: String,
    pub created_at: u64,
}

impl Clone for ChatMessage {
    fn clone(&self) -> (r: Self)
        ensures
            r == *self,
    {
        ChatMessage {
            id: self.id,
            role: self.role,
            content: self.content.clone(),
            created_at: self.created_at,
        }
    }
}

/// Seconds since the Unix epoch as the system clock reports it, or `None`
/// when the clock is set before the epoch.
///
/// Trusted: calls `SystemTime::now` and `SystemTime::duration_since`; nothing
/// is stated of the value, which depends on the clock.
#[verifier::external_body]
fn system_clock_seconds() -> Option<u64> {
    std::time::SystemTime::now().duration_since(std::time::UNIX_EPOCH).ok().map(|d| d.as_secs())
}

/// The timestamp a clock reading stands for: its seconds, or 0 when the clock
/// read before the epoch.
pub open spec fn clock_timestamp(reading: Option<u64>) -> u64 {
    match reading {
        Some(secs) => secs,
        None => 0,
    }
}

/// The timestamp for a clock reading (see `clock_timestamp`).
pub fn timestamp_from_clock(reading: Option<u64>) -> (r: u64)
    ensures
        r == clock_timestamp(reading),
{
    match reading {
        Some(secs) => secs,
        None => 0,
    }
}

/// The current Unix timestamp in seconds, or 0 when the clock reads before the epoch.
pub fn now_timestamp() -> u64 {
    timestamp_from_clock(system_clock_seconds())
}

impl ChatMessage {
    /// A message stamped with the current time.
    pub fn new(id: u64, role: ChatRole, content: &str) -> (r: Self)
        ensures
            r.id == id,
            r.role == role,
            r.content@ == content@,
    {
        ChatMessage::new_at(id, role, content, now_timestamp())
    }

    /// A message created at time `created_at`.
    pub fn new_at(id: u64, role: ChatRole, content: &str, created_at: u64) -> (r: Self)
        ensures
            r.id == id,
            r.role == role,
            r.content@ == content@,
            r.created_at == created_at,
    {
        ChatMessage { id, role, content: content.to_string(), created_at }
    }
}

pub open spec fn new_chat_title(id: u64) -> Seq<char> {
    "New Chat "@ + decimal(id as nat)
}

/// A conversation with one provider and model.
#[derive(Debug)]
pub struct ChatSession {
    pub id: u64,
    pub title: String,
    pub provider: ProviderKind,
    pub model: String,
    pub updated_at: u64,
    pub messages: Vec<ChatMessage>,
}

impl Clone for ChatSession {
    fn clone(&self) -> (r: Self)
        ensures
            r.id == self.id,
            r.title == self.title,
            r.provider == self.provider,
            r.model == self.model,
            r.updated_at == self.updated_at,
            r.messages@ == self.messages@,
    {
        let mut messages: Vec<ChatMessage> = Vec::new();
        let mut i: usize = 0;
        while i < self.messages.len()
            invariant
                i <= self.messages@.len(),
                messages@ == self.messages@.take(i as int),
            decreases self.messages@.len() - i,
        {
            messages.push(self.messages[i].clone());
            i = i + 1;
            assert(messages@ =~= self.messages@.take(i as int));
        }
        assert(self.messages@.take(self.messages@.len() as int) =~= self.messages@);
        ChatSession {
            id: self.id,
            title: self.title.clone(),
            provider: self.provider,
            model: self.model.clone(),
            updated_at: self.updated_at,
            messages,
        }
    }
}

impl ChatSession {
    /// An empty chat titled "New Chat {id}", stamped with the current time.
    pub fn new(id: u64, provider: ProviderKind, model: &str) -> (r: Self)
        ensures
            r.id == id,
            r.title@ == new_chat_title(id),
            r.provider == provider,
            r.model@ == model@,
            r.messages@.len() == 0,
    {
        ChatSession::new_at(id, provider, model, now_timestamp())
    }

    /// An empty chat titled "New Chat {id}", stamped with time `now`.
    pub fn new_at(id: u64, provider: ProviderKind, model: &str, now: u64) -> (r: Self)
        ensures
            r.id == id,
            r.title@ == new_chat_title(id),
            r.provider == provider,
            r.model@ == model@,
            r.messages@.len() == 0,
            r.updated_at == now,
    {
        let mut title: Vec<char> = Vec::new();
        push_str(&mut title, "New Chat ");
        let digits = decimal_chars(id);
        push_chars(&mut title, digits.as_slice());
        ChatSession {
            id,
            title: string_from_chars(title.as_slice()),
            provider,
            model: model.to_string(),
            updated_at: now,
            messages: Vec::new(),
        }
    }

    /// Stamps the chat with the current time; nothing else changes.
    pub fn touch(&mut self)
        ensures
            final(self).id == old(self).id,
            final(self).title == old(self).title,
            final(self).provider == old(self).provider,
            final(self).model == old(self).model,
            final(self).messages == old(self).messages,
    {
        self.touch_at(now_timestamp());
    }

    /// Stamps the chat with time `now`; nothing else changes.
    pub fn touch_at(&mut self, now: u64)
        ensures
            *final(self) == (ChatSession { updated_at: now, ..*old(self) }),
    {
        self.updated_at = now;
    }
}

/// A model the user has saved for a provider.
#[derive(Debug, Hash)]
pub struct SavedModel {
    pub provider: ProviderKind,
    pub name: String,
}

/// A saved model as plain values: the provider and the model name.
pub type ModelView = (ProviderKind, Seq<char>);

impl View for SavedModel {
    type V = ModelView;

    open spec fn view(&self) -> ModelView {
        (self.provider, self.name@)
    }
}

impl Clone for SavedModel {
    fn clone(&self) -> (r: Self)
        ensures
            r == *self,
    {
        SavedModel { provider: self.provider, name: self.name.clone() }
    }
}

impl PartialEq for SavedModel {
    fn eq(&self, other: &Self) -> (r: bool) {
        self.provider == other.provider && self.name == other.name
    }
}

impl vstd::std_specs::cmp::PartialEqSpecImpl for SavedModel {
    open spec fn obeys_eq_spec() -> bool {
        true
    }

    open spec fn eq_spec(&self, other: &Self) -> bool {
        self@ == other@
    }
}

impl Eq for SavedModel {

}

pub open spec fn models_view(v: Seq<SavedModel>) -> Seq<ModelView> {
    v.map_values(|m: SavedModel| m@)
}

pub open spec fn opt_model_view(o: Option<SavedModel>) -> Option<ModelView> {
    match o {
        Some(m) => Some(m@),
        None => None,
    }
}

/// The model with a trimmed name, or nothing when the name is blank.
pub open spec fn norm_model(p: ProviderKind, name: Seq<char>) -> Option<ModelView> {
    if is_blank(name) {
        None
    } else {
        Some((p, trim(name)))
    }
}

pub open spec fn model_label(m: ModelView) -> Seq<char> {
    provider_label(m.0) + " · "@ + m.1
}

/// The part of `s` after its last '/' (all of `s` when it has none).
pub open spec fn after_last_slash(s: Seq<char>) -> Seq<char>
    decreases s.len(),
{
    if s.len() == 0 {
        s
    } else if s.last() == '/' {
        Seq::empty()
    } else {
        after_last_slash(s.drop_last()).push(s.last())
    }
}

/// `s` cut to `max` characters with "..." appended when it is longer.
pub open spec fn truncated(s: Seq<char>, max: nat) -> Seq<char> {
    if s.len() > max {
        s.take(max as int) + "..."@
    } else {
        s
    }
}

pub open spec fn chat_model_label(m: ModelView) -> Seq<char> {
    let seg = after_last_slash(m.1);
    let base = if seg.len() > 0 {
        seg
    } else {
        m.1
    };
    match m.0 {
        ProviderKind::OpenRouter => truncated(base, 20),
        ProviderKind::LmStudio => truncated(base, 20) + " (local)"@,
    }
}

pub fn after_last_slash_chars(s: &[char]) -> (v: Vec<char>)
    ensures
        v@ == after_last_slash(s@),
{
    let mut start: usize = s.len();
    while start > 0 && s[start - 1] != '/'
        invariant
            start <= s@.len(),
            forall|k: int| start <= k < s@.len() ==> s@[k] != '/',
        decreases start,
    {
        start = start - 1;
    }
    proof {
        lemma_after_last_slash(s@, start as int);
    }
    crate::text::slice_chars(s, start, s.len())
}

proof fn lemma_after_last_slash(s: Seq<char>, start: int)
    requires
        0 <= start <= s.len(),
        forall|k: int| start <= k < s.len() ==> s[k] != '/',
        start == 0 || s[start - 1] == '/',
    ensures
        after_last_slash(s) == s.subrange(start, s.len() as int),
    decreases s.len(),
{
    if s.len() == 0 {
        assert(s.subrange(start, 0) =~= s);
    } else if start == s.len() {
        assert(s.last() == '/');
        assert(s.subrange(start, s.len() as int) =~= Seq::<char>::empty());
    } else {
        let t = s.drop_last();
        assert(s.last() != '/');
        lemma_after_last_slash(t, start);
        assert(t.subrange(start, t.len() as int).push(s.last()) =~= s.subrange(
            start,
            s.len() as int,
        ));
    }
}

fn truncated_chars(s: &[char], max: usize) -> (v: Vec<char>)
    ensures
        v@ == truncated(s@, max as nat),
{
    if s.len() > max {
        let mut v = crate::text::slice_chars(s, 0, max);
        push_str(&mut v, "...");
        assert(s@.subrange(0, max as int) =~= s@.take(max as int));
        v
    } else {
        crate::text::slice_chars(s, 0, s.len())
    }
}

impl SavedModel {
    pub fn new(provider: ProviderKind, name: &str) -> (r: Self)
        ensures
            r.provider == provider,
            r.name@ == name@,
    {
        SavedModel { provider, name: name.to_string() }
    }

    /// The model with its name trimmed, or `None` when the name is blank.
    pub fn normalized(provider: ProviderKind, name: &str) -> (r: Option<Self>)
        ensures
            opt_model_view(r) == norm_model(provider, name@),
    {
        let trimmed = trim_string(name);
        let v = chars_of(trimmed.as_str());
        if v.len() == 0 {
            None
        } else {
            Some(SavedModel { provider, name: trimmed })
        }
    }

    /// "{provider label} · {name}".
    pub fn dropdown_label(&self) -> (r: String)
        ensures
            r@ == model_label(self@),
    {
        let mut v: Vec<char> = Vec::new();
        push_str(&mut v, self.provider.label());
        push_str(&mut v, " · ");
        push_str(&mut v, self.name.as_str());
        string_from_chars(v.as_slice())
    }

    /// The last path segment of the name (the whole name when that segment is
    /// empty), cut to 20 characters, with " (local)" for LM Studio models.
    pub fn chat_dropdown_label(&self) -> (r: String)
        ensures
            r@ == chat_model_label(self@),
    {
        let name = chars_of(self.name.as_str());
        let seg = after_last_slash_chars(name.as_slice());
        let base = if seg.len() > 0 {
            seg
        } else {
            name
        };
        let mut v = truncated_chars(base.as_slice(), 20);
        match self.provider {
            ProviderKind::OpenRouter => {},
            ProviderKind::LmStudio => {
                push_str(&mut v, " (local)");
            },
        }
        string_from_chars(v.as_slice())
    }
}

/// `value` cut to `max_chars` characters, with "..." appended when it was longer.
pub fn truncate_model_label(value: &str, max_chars: usize) -> (r: String)
    ensures
        r@ == truncated(value@, max_chars as nat),
{
    let v = chars_of(value);
    let t = truncated_chars(v.as_slice(), max_chars);
    string_from_chars(t.as_slice())
}

/// Connection settings for the providers and the saved models.
#[derive(Debug)]
pub struct ProviderSettings {
    pub active_provider: ProviderKind,
    pub openrouter_api_key: String,
    pub lmstudio_base_url: String,
    pub saved_models: Vec<SavedModel>,
    pub default_model: Option<SavedModel>,
    pub timeout_seconds: u64,
    pub retry_attempts: u8,
    pub retry_delay_seconds: u64,
    pub legacy_openrouter_model: String,
    pub legacy_lmstudio_model: String,
}

/// Provider settings as plain values.
#[verifier::ext_equal]
pub struct ProviderSettingsView {
    pub active_provider: ProviderKind,
    pub openrouter_api_key: Seq<char>,
    pub lmstudio_base_url: Seq<char>,
    pub saved_models: Seq<ModelView>,
    pub default_model: Option<ModelView>,
    pub timeout_seconds: u64,
    pub retry_attempts: u8,
    pub retry_delay_seconds: u64,
    pub legacy_openrouter_model: Seq<char>,
    pub legacy_lmstudio_model: Seq<char>,
}

impl View for ProviderSettings {
    type V = ProviderSettingsView;

    open spec fn view(&self) -> ProviderSettingsView {
        ProviderSettingsView {
            active_provider: self.active_provider,
            openrouter_api_key: self.openrouter_api_key@,
            lmstudio_base_url: self.lmstudio_base_url@,
            saved_models: models_view(self.saved_models@),
            default_model: opt_model_view(self.default_model),
            timeout_seconds: self.timeout_seconds,
            retry_attempts: self.retry_attempts,
            retry_delay_seconds: self.retry_delay_seconds,
            legacy_openrouter_model: self.legacy_openrouter_model@,
            legacy_lmstudio_model: self.legacy_lmstudio_model@,
        }
    }
}

/// The normalized models of `s`, blank ones dropped, order kept.
pub open spec fn norm_models(s: Seq<ModelView>) -> Seq<ModelView>
    decreases s.len(),
{
    if s.len() == 0 {
        Seq::empty()
    } else {
        let r = norm_models(s.drop_last());
        match norm_model(s.last().0, s.last().1) {
            Some(m) => r.push(m),
            None => r,
        }
    }
}

/// `s` with every element after its first occurrence removed.
pub open spec fn dedup<A>(s: Seq<A>) -> Seq<A>
    decreases s.len(),
{
    if s.len() == 0 {
        s
    } else {
        let d = dedup(s.drop_last());
        if d.contains(s.last()) {
            d
        } else {
            d.push(s.last())
        }
    }
}

pub open spec fn opt_seq<A>(o: Option<A>) -> Seq<A> {
    match o {
        Some(x) => seq![x],
        None => Seq::empty(),
    }
}

/// The first model of `s` that belongs to provider `p`.
pub open spec fn first_with_provider(s: Seq<ModelView>, p: ProviderKind) -> Option<ModelView>
    decreases s.len(),
{
    if s.len() == 0 {
        None
    } else if s[0].0 == p {
        Some(s[0])
    } else {
        first_with_provider(s.drop_first(), p)
    }
}

/// The first model of `s` for provider `p`, else the first model of `s`.
pub open spec fn pick_default(s: Seq<ModelView>, p: ProviderKind) -> Option<ModelView> {
    match first_with_provider(s, p) {
        Some(m) => Some(m),
        None => if s.len() > 0 {
            Some(s[0])
        } else {
            None
        },
    }
}

pub open spec fn clamp_u64(v: u64, lo: u64, hi: u64) -> u64 {
    if v < lo {
        lo
    } else if v > hi {
        hi
    } else {
        v
    }
}

/// The saved models after normalization: the trimmed non-blank saved models,
/// then the legacy OpenRouter and LM Studio models, each kept once.
pub open spec fn normalized_saved_models(v: ProviderSettingsView) -> Seq<ModelView> {
    dedup(
        norm_models(v.saved_models) + opt_seq(
            norm_model(ProviderKind::OpenRouter, v.legacy_openrouter_model),
        ) + opt_seq(norm_model(ProviderKind::LmStudio, v.legacy_lmstudio_model)),
    )
}

pub open spec fn normalized_default_candidate(v: ProviderSettingsView) -> Option<ModelView> {
    match v.default_model {
        Some(m) => norm_model(m.0, m.1),
        None => None,
    }
}

/// What `ProviderSettings::normalize` makes of `v`.
pub open spec fn normalize_provider(v: ProviderSettingsView) -> ProviderSettingsView {
    let saved1 = normalized_saved_models(v);
    let default1 = normalized_default_candidate(v);
    let saved2 = match default1 {
        Some(d) => if saved1.contains(d) {
            saved1
        } else {
            saved1.push(d)
        },
        None => saved1,
    };
    let default2 = match default1 {
        Some(d) => if d.0 == v.active_provider {
            Some(d)
        } else {
            pick_default(saved2, v.active_provider)
        },
        None => pick_default(saved2, v.active_provider),
    };
    let active2 = match default2 {
        Some(d) => d.0,
        None => v.active_provider,
    };
    ProviderSettingsView {
        active_provider: active2,
        openrouter_api_key: v.openrouter_api_key,
        lmstudio_base_url: trim(v.lmstudio_base_url),
        saved_models: saved2,
        default_model: default2,
        timeout_seconds: clamp_u64(v.timeout_seconds, 5, 120),
        retry_attempts: if v.retry_attempts > 5 {
            5
        } else {
            v.retry_attempts
        },
        retry_delay_seconds: if v.retry_delay_seconds > 60 {
            60
        } else {
            v.retry_delay_seconds
        },
        legacy_openrouter_model: v.legacy_openrouter_model,
        legacy_lmstudio_model: v.legacy_lmstudio_model,
    }
}

/// The model name that requests use: the default model's name when it
/// belongs to the active provider, otherwise empty.
pub open spec fn active_model_name(v: ProviderSettingsView) -> Seq<char> {
    match v.default_model {
        Some(m) => if m.0 == v.active_provider {
            m.1
        } else {
            Seq::empty()
        },
        None => Seq::empty(),
    }
}

pub fn contains_model(v: &Vec<SavedModel>, m: &SavedModel) -> (r: bool)
    ensures
        r == models_view(v@).contains(m@),
{
    let mut i: usize = 0;
    while i < v.len()
        invariant
            i <= v@.len(),
            forall|k: int| 0 <= k < i ==> v@[k]@ != m@,
        decreases v@.len() - i,
    {
        if v[i].provider == m.provider && v[i].name == m.name {
            assert(models_view(v@)[i as int] == m@);
            return true;
        }
        i = i + 1;
    }
    proof {
        if models_view(v@).contains(m@) {
            let k = choose|k: int| 0 <= k < models_view(v@).len() && models_view(v@)[k] == m@;
            assert(v@[k]@ == m@);
        }
    }
    false
}

pub fn first_model_with_provider(v: &Vec<SavedModel>, p: ProviderKind) -> (r: Option<SavedModel>)
    ensures
        opt_model_view(r) == first_with_provider(models_view(v@), p),
{
    let mut i: usize = 0;
    assert(models_view(v@).skip(0) =~= models_view(v@));
    while i < v.len()
        invariant
            i <= v@.len(),
            first_with_provider(models_view(v@), p) == first_with_provider(
                models_view(v@).skip(i as int),
                p,
            ),
        decreases v@.len() - i,
    {
        let ghost rest = models_view(v@).skip(i as int);
        assert(rest[0] == v@[i as int]@);
        if v[i].provider == p {
            return Some(v[i].clone());
        }
        assert(rest.drop_first() =~= models_view(v@).skip(i + 1));
        i = i + 1;
    }
    None
}

impl ProviderSettings {
    /// Cleans the settings up: saved models are trimmed, blank ones dropped,
    /// the legacy single-model fields folded in, and duplicates removed; the
    /// default model is trimmed, added to the saved models when missing, and
    /// replaced when it does not belong to the active provider; the active
    /// provider follows the default model; the LM Studio URL is trimmed and
    /// the timeout, retry count and retry delay are clamped.
    pub fn normalize(&mut self)
        ensures
            final(self)@ == normalize_provider(old(self)@),
    {
        let ghost v0 = self@;
        let mut candidates: Vec<SavedModel> = Vec::new();
        let mut i: usize = 0;
        while i < self.saved_models.len()
            invariant
                i <= self.saved_models@.len(),
                self@ == v0,
                models_view(candidates@) == norm_models(models_view(self.saved_models@).take(i as int)),
            decreases self.saved_models@.len() - i,
        {
            let n = SavedModel::normalized(self.saved_models[i].provider, self.saved_models[i].name.as_str());
            proof {
                let t = models_view(self.saved_models@).take(i + 1);
                assert(t.drop_last() =~= models_view(self.saved_models@).take(i as int));
                assert(t.last() == self.saved_models@[i as int]@);
            }
            match n {
                Some(m) => {
                    candidates.push(m);
                    assert(models_view(candidates@) =~= norm_models(models_view(self.saved_models@).take(i + 1)));
                },
                None => {},
            }
            i = i + 1;
        }
        assert(models_view(self.saved_models@).take(self.saved_models@.len() as int) =~= models_view(self.saved_models@));
        let ghost c0 = models_view(candidates@);
        match SavedModel::normalized(ProviderKind::OpenRouter, self.legacy_openrouter_model.as_str()) {
            Some(m) => candidates.push(m),
            None => {},
        }
        assert(models_view(candidates@) =~= c0 + opt_seq(norm_model(ProviderKind::OpenRouter, v0.legacy_openrouter_model)));
        let ghost c1 = models_view(candidates@);
        match SavedModel::normalized(ProviderKind::LmStudio, self.legacy_lmstudio_model.as_str()) {
            Some(m) => candidates.push(m),
            None => {},
        }
        assert(models_view(candidates@) =~= c1 + opt_seq(norm_model(ProviderKind::LmStudio, v0.legacy_lmstudio_model)));
        let mut saved: Vec<SavedModel> = Vec::new();
        let mut j: usize = 0;
        while j < candidates.len()
            invariant
                j <= candidates@.len(),
                models_view(saved@) == dedup(models_view(candidates@).take(j as int)),
            decreases candidates@.len() - j,
        {
            proof {
                let t = models_view(candidates@).take(j + 1);
                assert(t.drop_last() =~= models_view(candidates@).take(j as int));
                assert(t.last() == candidates@[j as int]@);
            }
            if !contains_model(&saved, &candidates[j]) {
                saved.push(candidates[j].clone());
                assert(models_view(saved@) =~= dedup(models_view(candidates@).take(j + 1)));
            }
            j = j + 1;
        }
        assert(models_view(candidates@).take(candidates@.len() as int) =~= models_view(candidates@));
        assert(models_view(saved@) == normalized_saved_models(v0));
        let ghost saved1 = models_view(saved@);
        let default1 = match &self.default_model {
            Some(m) => SavedModel::normalized(m.provider, m.name.as_str()),
            None => None,
        };
        match &default1 {
            Some(d) => {
                if !contains_model(&saved, d) {
                    saved.push(d.clone());
                    assert(models_view(saved@) =~= models_view(saved@).drop_last().push(d@));
                }
            },
            None => {},
        }
        assert(opt_model_view(default1) == normalized_default_candidate(v0));
        assert(models_view(saved@) == normalize_provider(v0).saved_models);
        assert(self.active_provider == v0.active_provider);
        let default2 = match default1 {
            Some(d) => {
                if d.provider == self.active_provider {
                    Some(d)
                } else {
                    self.pick_from(&saved)
                }
            },
            None => self.pick_from(&saved),
        };
        assert(opt_model_view(default2) == normalize_provider(v0).default_model);
        match &default2 {
            Some(d) => {
                self.active_provider = d.provider;
            },
            None => {},
        }
        assert(self.active_provider == normalize_provider(v0).active_provider);
        self.saved_models = saved;
        self.default_model = default2;
        assert(self.saved_models@ == saved@);
        assert(self.active_provider == normalize_provider(v0).active_provider);
        assert(models_view(self.saved_models@) == normalize_provider(v0).saved_models);
        assert(opt_model_view(self.default_model) == normalize_provider(v0).default_model);
        self.lmstudio_base_url = trim_string(self.lmstudio_base_url.as_str());
        if self.timeout_seconds < 5 {
            self.timeout_seconds = 5;
        } else if self.timeout_seconds > 120 {
            self.timeout_seconds = 120;
        }
        if self.retry_attempts > 5 {
            self.retry_attempts = 5;
        }
        if self.retry_delay_seconds > 60 {
            self.retry_delay_seconds = 60;
        }
        assert(self@ =~= normalize_provider(v0));
    }

    fn pick_from(&self, saved: &Vec<SavedModel>) -> (r: Option<SavedModel>)
        ensures
            opt_model_view(r) == pick_default(models_view(saved@), self.active_provider),
    {
        match first_model_with_provider(saved, self.active_provider) {
            Some(m) => Some(m),
            None => {
                if saved.len() > 0 {
                    Some(saved[0].clone())
                } else {
                    None
                }
            },
        }
    }

    /// The model name for new requests: the default model's name when it belongs
    /// to the active provider, otherwise "".
    pub fn active_model(&self) -> (r: &str)
        ensures
            r@ == active_model_name(self@),
    {
        match &self.default_model {
            Some(m) => {
                if m.provider == self.active_provider {
                    m.name.as_str()
                } else {
                    proof {
                        reveal_strlit("");
                    }
                    ""
                }
            },
            None => {
                proof {
                    reveal_strlit("");
                }
                ""
            },
        }
    }
}


/// A copy of the saved models, element for element.
pub fn clone_models(v: &Vec<SavedModel>) -> (r: Vec<SavedModel>)
    ensures
        r@ == v@,
{
    let mut saved: Vec<SavedModel> = Vec::new();
    let mut i: usize = 0;
    while i < v.len()
        invariant
            i <= v@.len(),
            saved@ == v@.take(i as int),
        decreases v@.len() - i,
    {
        saved.push(v[i].clone());
        i = i + 1;
        assert(saved@ =~= v@.take(i as int));
    }
    assert(v@.take(v@.len() as int) =~= v@);
    saved
}

pub fn clone_opt_model(o: &Option<SavedModel>) -> (r: Option<SavedModel>)
    ensures
        r == *o,
{
    match o {
        Some(m) => Some(m.clone()),
        None => None,
    }
}

impl Clone for ProviderSettings {
    fn clone(&self) -> (r: Self)
        ensures
            r@ == self@,
    {
        let r = ProviderSettings {
            active_provider: self.active_provider,
            openrouter_api_key: self.openrouter_api_key.clone(),
            lmstudio_base_url: self.lmstudio_base_url.clone(),
            saved_models: clone_models(&self.saved_models),
            default_model: clone_opt_model(&self.default_model),
            timeout_seconds: self.timeout_seconds,
            retry_attempts: self.retry_attempts,
            retry_delay_seconds: self.retry_delay_seconds,
            legacy_openrouter_model: self.legacy_openrouter_model.clone(),
            legacy_lmstudio_model: self.legacy_lmstudio_model.clone(),
        };
        assert(r.saved_models@ == self.saved_models@);
        r
    }
}

pub open spec fn default_lmstudio_url() -> Seq<char> {
    "http://127.0.0.1:1234/v1"@
}

pub open spec fn default_provider_settings() -> ProviderSettingsView {
    ProviderSettingsView {
        active_provider: ProviderKind::OpenRouter,
        openrouter_api_key: Seq::empty(),
        lmstudio_base_url: default_lmstudio_url(),
        saved_models: Seq::empty(),
        default_model: None,
        timeout_seconds: 20,
        retry_attempts: 1,
        retry_delay_seconds: 2,
        legacy_openrouter_model: Seq::empty(),
        legacy_lmstudio_model: Seq::empty(),
    }
}

impl Default for ProviderSettings {
    fn default() -> (r: Self)
        ensures
            r@ == default_provider_settings(),
    {
        let r = ProviderSettings {
            active_provider: ProviderKind::OpenRouter,
            openrouter_api_key: String::new(),
            lmstudio_base_url: "http://127.0.0.1:1234/v1".to_string(),
            saved_models: Vec::new(),
            default_model: None,
            timeout_seconds: 20,
            retry_attempts: 1,
            retry_delay_seconds: 2,
            legacy_openrouter_model: String::new(),
            legacy_lmstudio_model: String::new(),
        };
        assert(r@ =~= default_provider_settings());
        r
    }
}

/// How strongly the user wants a style element (headings and lists, emoji).
#[derive(Debug, Clone, Copy, PartialEq, Eq, Structural, Hash)]
pub enum PreferenceLevel {
    More,
    Default,
    Less,
}

pub open spec fn preference_label(p: PreferenceLevel) -> Seq<char> {
    match p {
        PreferenceLevel::More => "More"@,
        PreferenceLevel::Default => "Default"@,
        PreferenceLevel::Less => "Less"@,
    }
}

pub open spec fn preference_index(p: PreferenceLevel) -> usize {
    match p {
        PreferenceLevel::More => 0,
        PreferenceLevel::Default => 1,
        PreferenceLevel::Less => 2,
    }
}

pub open spec fn preference_from_index(i: usize) -> PreferenceLevel {
    if i == 0 {
        PreferenceLevel::More
    } else if i == 2 {
        PreferenceLevel::Less
    } else {
        PreferenceLevel::Default
    }
}

impl Default for PreferenceLevel {
    fn default() -> (r: Self)
        ensures
            r == PreferenceLevel::Default,
    {
        PreferenceLevel::Default
    }
}

impl PreferenceLevel {
    /// The levels, in index order.
    pub fn all() -> (r: [PreferenceLevel; 3])
        ensures
            r@ == seq![PreferenceLevel::More, PreferenceLevel::Default, PreferenceLevel::Less],
    {
        let r = [PreferenceLevel::More, PreferenceLevel::Default, PreferenceLevel::Less];
        assert(r@ =~= seq![PreferenceLevel::More, PreferenceLevel::Default, PreferenceLevel::Less]);
        r
    }

    pub fn label(self) -> (r: &'static str)
        ensures
            r@ == preference_label(self),
    {
        match self {
            PreferenceLevel::More => "More",
            PreferenceLevel::Default => "Default",
            PreferenceLevel::Less => "Less",
        }
    }

    /// The level at position `index` of [More, Default, Less]; out-of-range
    /// positions give `Default`.
    pub fn from_index(index: usize) -> (r: Self)
        ensures
            r == preference_from_index(index),
    {
        if index == 0 {
            PreferenceLevel::More
        } else if index == 2 {
            PreferenceLevel::Less
        } else {
            PreferenceLevel::Default
        }
    }

    pub fn index(self) -> (r: usize)
        ensures
            r == preference_index(self),
    {
        match self {
            PreferenceLevel::More => 0,
            PreferenceLevel::Default => 1,
            PreferenceLevel::Less => 2,
        }
    }
}

/// `from_index` undoes `index`, and `index` stays within the three positions.
pub proof fn law_preference_index_roundtrip(p: PreferenceLevel)
    ensures
        preference_from_index(preference_index(p)) == p,
        preference_index(p) < 3,
{
}

/// What the user told the assistant about themselves.
#[derive(Debug)]
pub struct UserProfile {
    pub name: Option<String>,
    pub language: Option<String>,
    pub occupation: Option<String>,
    pub response_style: Option<String>,
    pub more_about_you: Option<String>,
    pub header_lists: PreferenceLevel,
    pub emoji: PreferenceLevel,
}

pub open spec fn opt_view(o: Option<String>) -> Option<Seq<char>> {
    match o {
        Some(s) => Some(s@),
        None => None,
    }
}

/// A user profile as plain values.
#[verifier::ext_equal]
pub struct UserProfileView {
    pub name: Option<Seq<char>>,
    pub language: Option<Seq<char>>,
    pub occupation: Option<Seq<char>>,
    pub response_style: Option<Seq<char>>,
    pub more_about_you: Option<Seq<char>>,
    pub header_lists: PreferenceLevel,
    pub emoji: PreferenceLevel,
}

impl View for UserProfile {
    type V = UserProfileView;

    open spec fn view(&self) -> UserProfileView {
        UserProfileView {
            name: opt_view(self.name),
            language: opt_view(self.language),
            occupation: opt_view(self.occupation),
            response_style: opt_view(self.response_style),
            more_about_you: opt_view(self.more_about_you),
            header_lists: self.header_lists,
            emoji: self.emoji,
        }
    }
}

pub fn clone_opt_string(o: &Option<String>) -> (r: Option<String>)
    ensures
        r == *o,
{
    match o {
        Some(s) => Some(s.clone()),
        None => None,
    }
}

impl Clone for UserProfile {
    fn clone(&self) -> (r: Self)
        ensures
            r == *self,
    {
        UserProfile {
            name: clone_opt_string(&self.name),
            language: clone_opt_string(&self.language),
            occupation: clone_opt_string(&self.occupation),
            response_style: clone_opt_string(&self.response_style),
            more_about_you: clone_opt_string(&self.more_about_you),
            header_lists: self.header_lists,
            emoji: self.emoji,
        }
    }
}

fn opt_string_eq(a: &Option<String>, b: &Option<String>) -> (r: bool)
    ensures
        r == (opt_view(*a) == opt_view(*b)),
{
    match (a, b) {
        (Some(x), Some(y)) => x.eq(y),
        (None, None) => true,
        _ => false,
    }
}

impl PartialEq for UserProfile {
    fn eq(&self, other: &Self) -> (r: bool) {
        opt_string_eq(&self.name, &other.name) && opt_string_eq(&self.language, &other.language)
            && opt_string_eq(&self.occupation, &other.occupation) && opt_string_eq(
            &self.response_style,
            &other.response_style,
        ) && opt_string_eq(&self.more_about_you, &other.more_about_you) && self.header_lists
            == other.header_lists && self.emoji == other.emoji
    }
}

impl vstd::std_specs::cmp::PartialEqSpecImpl for UserProfile {
    open spec fn obeys_eq_spec() -> bool {
        true
    }

    open spec fn eq_spec(&self, other: &Self) -> bool {
        self@ == other@
    }
}

impl Eq for UserProfile {

}

pub open spec fn empty_profile() -> UserProfileView {
    UserProfileView {
        name: None,
        language: None,
        occupation: None,
        response_style: None,
        more_about_you: None,
        header_lists: PreferenceLevel::Default,
        emoji: PreferenceLevel::Default,
    }
}

impl Default for UserProfile {
    fn default() -> (r: Self)
        ensures
            r@ == empty_profile(),
    {
        UserProfile {
            name: None,
            language: None,
            occupation: None,
            response_style: None,
            more_about_you: None,
            header_lists: PreferenceLevel::Default,
            emoji: PreferenceLevel::Default,
        }
    }
}

/// A text field trimmed, or nothing when it is blank.
pub open spec fn norm_opt(o: Option<Seq<char>>) -> Option<Seq<char>> {
    match o {
        Some(s) => if is_blank(s) {
            None
        } else {
            Some(trim(s))
        },
        None => None,
    }
}

pub open spec fn normalize_profile(p: UserProfileView) -> UserProfileView {
    UserProfileView {
        name: norm_opt(p.name),
        language: norm_opt(p.language),
        occupation: norm_opt(p.occupation),
        response_style: norm_opt(p.response_style),
        more_about_you: norm_opt(p.more_about_you),
        header_lists: p.header_lists,
        emoji: p.emoji,
    }
}

pub open spec fn profile_is_empty(p: UserProfileView) -> bool {
    p == empty_profile()
}

/// The field trimmed, or `None` when it is blank.
pub fn normalize_optional_field(value: Option<String>) -> (r: Option<String>)
    ensures
        opt_view(r) == norm_opt(opt_view(value)),
{
    match value {
        Some(s) => {
            let t = trim_string(s.as_str());
            let v = chars_of(t.as_str());
            if v.len() == 0 {
                None
            } else {
                Some(t)
            }
        },
        None => None,
    }
}

impl UserProfile {
    /// Trims every text field and drops the blank ones.
    pub fn normalize(&mut self)
        ensures
            final(self)@ == normalize_profile(old(self)@),
    {
        self.name = normalize_optional_field(self.name.take());
        self.language = normalize_optional_field(self.language.take());
        self.occupation = normalize_optional_field(self.occupation.take());
        self.response_style = normalize_optional_field(self.response_style.take());
        self.more_about_you = normalize_optional_field(self.more_about_you.take());
    }

    /// Whether nothing is set: no text field and both preferences at `Default`.
    pub fn is_empty(&self) -> (r: bool)
        ensures
            r == profile_is_empty(self@),
    {
        self.name.is_none() && self.language.is_none() && self.occupation.is_none()
            && self.response_style.is_none() && self.more_about_you.is_none() && self.header_lists
            == PreferenceLevel::Default && self.emoji == PreferenceLevel::Default
    }
}

/// Optional tools the assistant may use.
#[derive(Debug, Clone, Copy, PartialEq, Eq, Structural)]
pub struct SkillsSettings {
    pub datetime: bool,
    pub clipboard: bool,
    pub filesystem: bool,
}

impl Default for SkillsSettings {
    fn default() -> (r: Self)
        ensures
            r == (SkillsSettings { datetime: true, clipboard: false, filesystem: false }),
    {
        SkillsSettings { datetime: true, clipboard: false, filesystem: false }
    }
}

/// All user settings.
#[derive(Debug)]
pub struct AppSettings {
    pub provider: ProviderSettings,
    pub profile: UserProfile,
    pub memory: Vec<String>,
    pub skills: SkillsSettings,
    pub base_system_prompt: String,
    pub context_message_limit: usize,
}

/// All user settings as plain values.
#[verifier::ext_equal]
pub struct AppSettingsView {
    pub provider: ProviderSettingsView,
    pub profile: UserProfileView,
    pub memory: Seq<Seq<char>>,
    pub skills: SkillsSettings,
    pub base_system_prompt: Seq<char>,
    pub context_message_limit: usize,
}

impl View for AppSettings {
    type V = AppSettingsView;

    open spec fn view(&self) -> AppSettingsView {
        AppSettingsView {
            provider: self.provider@,
            profile: self.profile@,
            memory: string_views(self.memory@),
            skills: self.skills,
            base_system_prompt: self.base_system_prompt@,
            context_message_limit: self.context_message_limit,
        }
    }
}

pub fn clone_strings(v: &Vec<String>) -> (r: Vec<String>)
    ensures
        r@ == v@,
{
    let mut r: Vec<String> = Vec::new();
    let mut i: usize = 0;
    while i < v.len()
        invariant
            i <= v@.len(),
            r@ == v@.take(i as int),
        decreases v@.len() - i,
    {
        r.push(v[i].clone());
        i = i + 1;
        assert(r@ =~= v@.take(i as int));
    }
    assert(v@.take(v@.len() as int) =~= v@);
    r
}

impl Clone for AppSettings {
    fn clone(&self) -> (r: Self)
        ensures
            r@ == self@,
    {
        let r = AppSettings {
            provider: self.provider.clone(),
            profile: self.profile.clone(),
            memory: clone_strings(&self.memory),
            skills: self.skills,
            base_system_prompt: self.base_system_prompt.clone(),
            context_message_limit: self.context_message_limit,
        };
        assert(r.memory@ == self.memory@);
        r
    }
}

/// Memory items trimmed, blank ones dropped, order kept.
pub open spec fn trimmed_items(s: Seq<Seq<char>>) -> Seq<Seq<char>>
    decreases s.len(),
{
    if s.len() == 0 {
        Seq::empty()
    } else {
        let r = trimmed_items(s.drop_last());
        if is_blank(s.last()) {
            r
        } else {
            r.push(trim(s.last()))
        }
    }
}

/// The items trimmed, blank ones dropped, order kept.
pub fn normalize_items(items: &Vec<String>) -> (r: Vec<String>)
    ensures
        string_views(r@) == trimmed_items(string_views(items@)),
{
    let mut r: Vec<String> = Vec::new();
    let mut i: usize = 0;
    while i < items.len()
        invariant
            i <= items@.len(),
            string_views(r@) == trimmed_items(string_views(items@).take(i as int)),
        decreases items@.len() - i,
    {
        proof {
            let t = string_views(items@).take(i + 1);
            assert(t.drop_last() =~= string_views(items@).take(i as int));
            assert(t.last() == items@[i as int]@);
        }
        let t = trim_string(items[i].as_str());
        let v = chars_of(t.as_str());
        if v.len() > 0 {
            r.push(t);
            assert(string_views(r@) =~= trimmed_items(string_views(items@).take(i + 1)));
        }
        i = i + 1;
    }
    assert(string_views(items@).take(items@.len() as int) =~= string_views(items@));
    r
}

pub open spec fn default_prompt() -> Seq<char> {
    "You are a concise assistant integrated into COSMIC."@
}

/// The base system prompt used when the user has not set one.
pub fn default_base_system_prompt() -> (r: &'static str)
    ensures
        r@ == default_prompt(),
{
    "You are a concise assistant integrated into COSMIC."
}

pub open spec fn normalize_app_settings(v: AppSettingsView) -> AppSettingsView {
    AppSettingsView {
        provider: normalize_provider(v.provider),
        profile: normalize_profile(v.profile),
        memory: trimmed_items(v.memory),
        skills: v.skills,
        base_system_prompt: v.base_system_prompt,
        context_message_limit: v.context_message_limit,
    }
}

impl AppSettings {
    /// Normalizes the provider settings and the profile, and trims the memory
    /// items, dropping blank ones.
    pub fn normalize(&mut self)
        ensures
            final(self)@ == normalize_app_settings(old(self)@),
    {
        self.provider.normalize();
        self.profile.normalize();
        self.memory = normalize_items(&self.memory);
    }

    pub fn active_model(&self) -> (r: &str)
        ensures
            r@ == active_model_name(self@.provider),
    {
        self.provider.active_model()
    }
}

/// The settings of a fresh installation.
pub open spec fn default_app_settings() -> AppSettingsView {
    AppSettingsView {
        provider: default_provider_settings(),
        profile: empty_profile(),
        memory: Seq::empty(),
        skills: SkillsSettings { datetime: true, clipboard: false, filesystem: false },
        base_system_prompt: default_prompt(),
        context_message_limit: 10,
    }
}

impl Default for AppSettings {
    fn default() -> (r: Self)
        ensures
            r@ == default_app_settings(),
    {
        let r = AppSettings {
            provider: ProviderSettings::default(),
            profile: UserProfile::default(),
            memory: Vec::new(),
            skills: SkillsSettings::default(),
            base_system_prompt: default_base_system_prompt().to_string(),
            context_message_limit: 10,
        };
        assert(r@ =~= default_app_settings());
        r
    }
}

} // verus!
