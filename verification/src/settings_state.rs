//! The settings screen's state: its tabs and modals, and the editable form
//! that is checked and written back into the settings.

use crate::chat::{
    clone_models, clone_opt_model, clone_strings, contains_model, default_base_system_prompt,
    default_prompt, first_model_with_provider, first_with_provider, model_label, models_view,
    norm_model, norm_opt, normalize_app_settings, opt_model_view, opt_view, preference_from_index,
    preference_index, preference_label, provider_from_index, provider_index, provider_label,
    AppSettings, AppSettingsView, ModelView, PreferenceLevel, ProviderKind, SavedModel,
    SkillsSettings, UserProfile, UserProfileView,
};
use crate::personalization::{
    normalize_personalization, PersonalizationSettings, PersonalizationView,
};
use crate::text::{
    chars_of, decimal, decimal_string, lemma_parse_decimal, parse_unsigned,
    parse_unsigned_chars,
    string_views, trim, trim_chars, trim_string,
};
use vstd::prelude::*;

verus! {

/// The tabs of the settings screen.
#[derive(Debug, Clone, Copy, PartialEq, Eq, Structural)]
pub enum SettingsTab {
    Provider,
    Personalization,
    Skills,
}

impl Default for SettingsTab {
    fn default() -> (r: Self)
        ensures
            r == SettingsTab::Provider,
    {
        SettingsTab::Provider
    }
}

pub open spec fn settings_tab_label(t: SettingsTab) -> Seq<char> {
    match t {
        SettingsTab::Provider => "Provider"@,
        SettingsTab::Personalization => "Personalization"@,
        SettingsTab::Skills => "Skills"@,
    }
}

impl SettingsTab {
    /// The tabs, in the order they are shown.
    pub fn all() -> (r: [SettingsTab; 3])
        ensures
            r@ == seq![SettingsTab::Provider, SettingsTab::Personalization, SettingsTab::Skills],
    {
        let r = [SettingsTab::Provider, SettingsTab::Personalization, SettingsTab::Skills];
        assert(r@ =~= seq![SettingsTab::Provider, SettingsTab::Personalization, SettingsTab::Skills]);
        r
    }

    pub fn label(self) -> (r: &'static str)
        ensures
            r@ == settings_tab_label(self),
    {
        match self {
            SettingsTab::Provider => "Provider",
            SettingsTab::Personalization => "Personalization",
            SettingsTab::Skills => "Skills",
        }
    }
}

/// Which numeric field of the form did not hold an acceptable number.
#[derive(Debug, Clone, Copy, PartialEq, Eq, Structural)]
pub enum SettingsValidationError {
    ContextLimit,
    TimeoutSeconds,
    RetryAttempts,
    RetryDelaySeconds,
}

pub open spec fn validation_message(e: SettingsValidationError) -> Seq<char> {
    match e {
        SettingsValidationError::ContextLimit => "Context limit must be a whole number."@,
        SettingsValidationError::TimeoutSeconds => "Timeout must be a positive whole number."@,
        SettingsValidationError::RetryAttempts => "Retry attempts must be a whole number."@,
        SettingsValidationError::RetryDelaySeconds => "Retry delay must be a whole number."@,
    }
}

impl SettingsValidationError {
    /// The status line shown when saving the settings stops at this field.
    pub fn message(self) -> (r: &'static str)
        ensures
            r@ == validation_message(self),
    {
        match self {
            SettingsValidationError::ContextLimit => "Context limit must be a whole number.",
            SettingsValidationError::TimeoutSeconds => "Timeout must be a positive whole number.",
            SettingsValidationError::RetryAttempts => "Retry attempts must be a whole number.",
            SettingsValidationError::RetryDelaySeconds => "Retry delay must be a whole number.",
        }
    }
}

/// The caption shown under a field whose text is not an acceptable number.
pub open spec fn validation_caption(e: SettingsValidationError) -> Seq<char> {
    match e {
        SettingsValidationError::ContextLimit => "Context limit must be a whole number"@,
        SettingsValidationError::TimeoutSeconds => "Timeout must be a positive whole number"@,
        SettingsValidationError::RetryAttempts => "Retry attempts must be a whole number"@,
        SettingsValidationError::RetryDelaySeconds => "Retry delay must be a whole number"@,
    }
}

impl SettingsValidationError {
    /// The caption shown under this field while its text is not acceptable.
    pub fn caption(self) -> (r: &'static str)
        ensures
            r@ == validation_caption(self),
    {
        match self {
            SettingsValidationError::ContextLimit => "Context limit must be a whole number",
            SettingsValidationError::TimeoutSeconds => "Timeout must be a positive whole number",
            SettingsValidationError::RetryAttempts => "Retry attempts must be a whole number",
            SettingsValidationError::RetryDelaySeconds => "Retry delay must be a whole number",
        }
    }
}

/// The texts that can be edited in a modal text editor.
#[derive(Debug, Clone, Copy, PartialEq, Eq, Structural)]
pub enum TextEditorModal {
    BaseSystemPrompt,
    ResponseStyle,
    MoreAboutYou,
    ImportPersonalization,
    ExportPersonalization,
}

pub open spec fn editor_title(m: TextEditorModal) -> Seq<char> {
    match m {
        TextEditorModal::BaseSystemPrompt => "Edit base system prompt"@,
        TextEditorModal::ResponseStyle => "Edit response style"@,
        TextEditorModal::MoreAboutYou => "Edit more about you"@,
        TextEditorModal::ImportPersonalization => "Import personalization"@,
        TextEditorModal::ExportPersonalization => "Export personalization"@,
    }
}

pub open spec fn editor_action_label(m: TextEditorModal) -> Option<Seq<char>> {
    match m {
        TextEditorModal::BaseSystemPrompt => Some("Save"@),
        TextEditorModal::ResponseStyle => Some("Save"@),
        TextEditorModal::MoreAboutYou => Some("Save"@),
        TextEditorModal::ImportPersonalization => Some("Import"@),
        TextEditorModal::ExportPersonalization => None,
    }
}

impl TextEditorModal {
    pub fn title(self) -> (r: &'static str)
        ensures
            r@ == editor_title(self),
    {
        match self {
            TextEditorModal::BaseSystemPrompt => "Edit base system prompt",
            TextEditorModal::ResponseStyle => "Edit response style",
            TextEditorModal::MoreAboutYou => "Edit more about you",
            TextEditorModal::ImportPersonalization => "Import personalization",
            TextEditorModal::ExportPersonalization => "Export personalization",
        }
    }

    /// The label of the confirming button; the read-only export view has none.
    pub fn action_label(self) -> (r: Option<&'static str>)
        ensures
            match r {
                Some(s) => editor_action_label(self) == Some(s@),
                None => editor_action_label(self) is None,
            },
    {
        match self {
            TextEditorModal::BaseSystemPrompt => Some("Save"),
            TextEditorModal::ResponseStyle => Some("Save"),
            TextEditorModal::MoreAboutYou => Some("Save"),
            TextEditorModal::ImportPersonalization => Some("Import"),
            TextEditorModal::ExportPersonalization => None,
        }
    }

    pub fn is_read_only(self) -> (r: bool)
        ensures
            r == (self == TextEditorModal::ExportPersonalization),
    {
        match self {
            TextEditorModal::ExportPersonalization => true,
            _ => false,
        }
    }
}

/// The modal dialogs of the settings screen.
#[derive(Debug, Clone, Copy, PartialEq, Eq, Structural)]
pub enum SettingsModal {
    AddModel,
    Editor(TextEditorModal),
    PromptPreview,
}

/// How the system prompt preview is shown.
#[derive(Debug, Clone, Copy, PartialEq, Eq, Structural)]
pub enum PromptPreviewMode {
    Code,
    Text,
}

impl Default for PromptPreviewMode {
    fn default() -> (r: Self)
        ensures
            r == PromptPreviewMode::Code,
    {
        PromptPreviewMode::Code
    }
}

pub open spec fn preview_mode_label(m: PromptPreviewMode) -> Seq<char> {
    match m {
        PromptPreviewMode::Code => "Code"@,
        PromptPreviewMode::Text => "Text"@,
    }
}

impl PromptPreviewMode {
    /// The preview modes, in the order they are shown.
    pub fn all() -> (r: [PromptPreviewMode; 2])
        ensures
            r@ == seq![PromptPreviewMode::Code, PromptPreviewMode::Text],
    {
        let r = [PromptPreviewMode::Code, PromptPreviewMode::Text];
        assert(r@ =~= seq![PromptPreviewMode::Code, PromptPreviewMode::Text]);
        r
    }

    pub fn label(self) -> (r: &'static str)
        ensures
            r@ == preview_mode_label(self),
    {
        match self {
            PromptPreviewMode::Code => "Code",
            PromptPreviewMode::Text => "Text",
        }
    }
}

/// Where a connection test stands.
#[derive(Debug, Clone)]
pub enum ConnectionTestState {
    Idle,
    Testing,
    Success,
    Failed(String),
}

impl Default for ConnectionTestState {
    fn default() -> (r: Self)
        ensures
            r is Idle,
    {
        ConnectionTestState::Idle
    }
}


/// The editable copy of the settings behind the settings screen. Numbers are
/// held as the text the user typed; they are checked when the form is applied.
#[derive(Debug)]
pub struct SettingsForm {
    pub provider_index: usize,
    pub openrouter_api_key: String,
    pub lmstudio_base_url: String,
    pub saved_models: Vec<SavedModel>,
    pub default_model: Option<SavedModel>,
    pub timeout_seconds: String,
    pub retry_attempts: String,
    pub retry_delay_seconds: String,
    pub base_system_prompt: String,
    pub context_message_limit: String,
    pub profile_name: String,
    pub profile_language: String,
    pub profile_occupation: String,
    pub response_style: String,
    pub more_about_you: String,
    pub header_lists_index: usize,
    pub emoji_index: usize,
    pub memory_items: Vec<String>,
    pub skill_datetime: bool,
    pub skill_clipboard: bool,
    pub skill_filesystem: bool,
}

/// A settings form as plain values.
#[verifier::ext_equal]
pub struct SettingsFormView {
    pub provider_index: usize,
    pub openrouter_api_key: Seq<char>,
    pub lmstudio_base_url: Seq<char>,
    pub saved_models: Seq<ModelView>,
    pub default_model: Option<ModelView>,
    pub timeout_seconds: Seq<char>,
    pub retry_attempts: Seq<char>,
    pub retry_delay_seconds: Seq<char>,
    pub base_system_prompt: Seq<char>,
    pub context_message_limit: Seq<char>,
    pub profile_name: Seq<char>,
    pub profile_language: Seq<char>,
    pub profile_occupation: Seq<char>,
    pub response_style: Seq<char>,
    pub more_about_you: Seq<char>,
    pub header_lists_index: usize,
    pub emoji_index: usize,
    pub memory_items: Seq<Seq<char>>,
    pub skill_datetime: bool,
    pub skill_clipboard: bool,
    pub skill_filesystem: bool,
}

impl View for SettingsForm {
    type V = SettingsFormView;

    open spec fn view(&self) -> SettingsFormView {
        SettingsFormView {
            provider_index: self.provider_index,
            openrouter_api_key: self.openrouter_api_key@,
            lmstudio_base_url: self.lmstudio_base_url@,
            saved_models: models_view(self.saved_models@),
            default_model: opt_model_view(self.default_model),
            timeout_seconds: self.timeout_seconds@,
            retry_attempts: self.retry_attempts@,
            retry_delay_seconds: self.retry_delay_seconds@,
            base_system_prompt: self.base_system_prompt@,
            context_message_limit: self.context_message_limit@,
            profile_name: self.profile_name@,
            profile_language: self.profile_language@,
            profile_occupation: self.profile_occupation@,
            response_style: self.response_style@,
            more_about_you: self.more_about_you@,
            header_lists_index: self.header_lists_index,
            emoji_index: self.emoji_index,
            memory_items: string_views(self.memory_items@),
            skill_datetime: self.skill_datetime,
            skill_clipboard: self.skill_clipboard,
            skill_filesystem: self.skill_filesystem,
        }
    }
}

/// The text of an optional field, "" when it is not set.
pub open spec fn text_or_empty(o: Option<Seq<char>>) -> Seq<char> {
    match o {
        Some(s) => s,
        None => Seq::empty(),
    }
}

/// The form filled in from the settings: numbers in decimal, unset profile
/// fields as "".
pub open spec fn form_of_settings(s: AppSettingsView) -> SettingsFormView {
    SettingsFormView {
        provider_index: provider_index(s.provider.active_provider),
        openrouter_api_key: s.provider.openrouter_api_key,
        lmstudio_base_url: s.provider.lmstudio_base_url,
        saved_models: s.provider.saved_models,
        default_model: s.provider.default_model,
        timeout_seconds: decimal(s.provider.timeout_seconds as nat),
        retry_attempts: decimal(s.provider.retry_attempts as nat),
        retry_delay_seconds: decimal(s.provider.retry_delay_seconds as nat),
        base_system_prompt: s.base_system_prompt,
        context_message_limit: decimal(s.context_message_limit as nat),
        profile_name: text_or_empty(s.profile.name),
        profile_language: text_or_empty(s.profile.language),
        profile_occupation: text_or_empty(s.profile.occupation),
        response_style: text_or_empty(s.profile.response_style),
        more_about_you: text_or_empty(s.profile.more_about_you),
        header_lists_index: preference_index(s.profile.header_lists),
        emoji_index: preference_index(s.profile.emoji),
        memory_items: s.memory,
        skill_datetime: s.skills.datetime,
        skill_clipboard: s.skills.clipboard,
        skill_filesystem: s.skills.filesystem,
    }
}

/// A form field as an optional profile value: trimmed, or nothing when blank.
pub open spec fn form_field(v: Seq<char>) -> Option<Seq<char>> {
    norm_opt(Some(v))
}

/// The profile that the form's fields describe (before normalization).
pub open spec fn form_profile(f: SettingsFormView) -> UserProfileView {
    UserProfileView {
        name: form_field(f.profile_name),
        language: form_field(f.profile_language),
        occupation: form_field(f.profile_occupation),
        response_style: form_field(f.response_style),
        more_about_you: form_field(f.more_about_you),
        header_lists: preference_from_index(f.header_lists_index),
        emoji: preference_from_index(f.emoji_index),
    }
}

/// The personalization part of the form, normalized.
pub open spec fn form_personalization(f: SettingsFormView) -> PersonalizationView {
    normalize_personalization(
        PersonalizationView {
            base_system_prompt: f.base_system_prompt,
            profile: form_profile(f),
            memory: f.memory_items,
        },
    )
}

/// The numbers that the form's fields hold, checked in this order: the context
/// limit (any `usize`), the timeout (a `u64` above zero), the retry attempts
/// (any `u8`) and the retry delay (any `u64`); each field is trimmed first.
pub open spec fn form_numbers(f: SettingsFormView) -> Result<
    (usize, u64, u8, u64),
    SettingsValidationError,
> {
    let limit = parse_unsigned(trim(f.context_message_limit), usize::MAX as nat);
    let timeout = parse_unsigned(trim(f.timeout_seconds), u64::MAX as nat);
    let attempts = parse_unsigned(trim(f.retry_attempts), u8::MAX as nat);
    let delay = parse_unsigned(trim(f.retry_delay_seconds), u64::MAX as nat);
    if limit is None {
        Err(SettingsValidationError::ContextLimit)
    } else if timeout is None || timeout->0 == 0 {
        Err(SettingsValidationError::TimeoutSeconds)
    } else if attempts is None {
        Err(SettingsValidationError::RetryAttempts)
    } else if delay is None {
        Err(SettingsValidationError::RetryDelaySeconds)
    } else {
        Ok((limit->0 as usize, timeout->0 as u64, attempts->0 as u8, delay->0 as u64))
    }
}

/// Whether the text of `field` is not an acceptable number: the check saving
/// makes of that field, on its own.
pub open spec fn field_invalid(f: SettingsFormView, field: SettingsValidationError) -> bool {
    match field {
        SettingsValidationError::ContextLimit => parse_unsigned(
            trim(f.context_message_limit),
            usize::MAX as nat,
        ) is None,
        SettingsValidationError::TimeoutSeconds => match parse_unsigned(
            trim(f.timeout_seconds),
            u64::MAX as nat,
        ) {
            Some(v) => v == 0,
            None => true,
        },
        SettingsValidationError::RetryAttempts => parse_unsigned(
            trim(f.retry_attempts),
            u8::MAX as nat,
        ) is None,
        SettingsValidationError::RetryDelaySeconds => parse_unsigned(
            trim(f.retry_delay_seconds),
            u64::MAX as nat,
        ) is None,
    }
}

/// What the settings screen says of the default model: its dropdown label, or
/// that none is selected.
pub open spec fn default_model_summary_text(d: Option<ModelView>) -> Seq<char> {
    match d {
        Some(m) => model_label(m),
        None => "No default model selected"@,
    }
}

/// What the settings screen says of the memory items: that there is none, or
/// how many are saved.
pub open spec fn memory_summary_text(count: nat) -> Seq<char> {
    if count == 0 {
        "No manual memory yet"@
    } else {
        decimal(count) + " memory items saved"@
    }
}

/// The settings after the form, with the numbers `n`, is written into `s`: every
/// field the form holds is taken from it (the key and the URL trimmed), and the
/// result is normalized. Only what the form does not hold stays from `s`.
pub open spec fn settings_from_form(
    f: SettingsFormView,
    s: AppSettingsView,
    n: (usize, u64, u8, u64),
) -> AppSettingsView {
    normalize_app_settings(
        AppSettingsView {
            provider: crate::chat::ProviderSettingsView {
                active_provider: provider_from_index(f.provider_index),
                openrouter_api_key: trim(f.openrouter_api_key),
                lmstudio_base_url: trim(f.lmstudio_base_url),
                saved_models: f.saved_models,
                default_model: f.default_model,
                timeout_seconds: n.1,
                retry_attempts: n.2,
                retry_delay_seconds: n.3,
                ..s.provider
            },
            profile: form_profile(f),
            memory: f.memory_items,
            skills: SkillsSettings {
                datetime: f.skill_datetime,
                clipboard: f.skill_clipboard,
                filesystem: f.skill_filesystem,
            },
            base_system_prompt: f.base_system_prompt,
            context_message_limit: n.0,
        },
    )
}

/// The dropdown label of each model, in order.
pub open spec fn model_labels(s: Seq<ModelView>) -> Seq<Seq<char>> {
    s.map_values(|m: ModelView| model_label(m))
}

/// The position of the first saved model equal to `d`.
pub open spec fn is_first_index(s: Seq<ModelView>, d: ModelView, i: int) -> bool {
    &&& 0 <= i < s.len()
    &&& s[i] == d
    &&& forall|k: int| 0 <= k < i ==> s[k] != d
}

/// The form after `provider` is selected: the default model is kept when it
/// belongs to `provider`, otherwise it becomes the first saved model of `provider`.
pub open spec fn provider_selected(f: SettingsFormView, p: ProviderKind) -> SettingsFormView {
    let keep = match f.default_model {
        Some(d) => d.0 == p,
        None => false,
    };
    SettingsFormView {
        provider_index: provider_index(p),
        default_model: if keep {
            f.default_model
        } else {
            first_with_provider(f.saved_models, p)
        },
        ..f
    }
}

/// The form after the saved model at `index` is made the default (and its
/// provider selected); an index past the end changes nothing.
pub open spec fn default_model_selected(f: SettingsFormView, index: usize) -> SettingsFormView {
    if index < f.saved_models.len() {
        let m = f.saved_models[index as int];
        SettingsFormView { provider_index: provider_index(m.0), default_model: Some(m), ..f }
    } else {
        f
    }
}

/// The form after the normalized model `m` is added: it is appended unless it
/// is saved already, and it becomes the default (with its provider) when there
/// was none.
pub open spec fn model_added(f: SettingsFormView, m: ModelView) -> SettingsFormView {
    let saved = if f.saved_models.contains(m) {
        f.saved_models
    } else {
        f.saved_models.push(m)
    };
    if f.default_model is None {
        SettingsFormView {
            saved_models: saved,
            default_model: Some(m),
            provider_index: provider_index(m.0),
            ..f
        }
    } else {
        SettingsFormView { saved_models: saved, ..f }
    }
}

/// The form after the saved model at `index` is removed. When it was the
/// default, the new default is the first remaining model of the selected
/// provider, else the first remaining model, and the provider follows it.
/// An index past the end changes nothing.
pub open spec fn model_removed(f: SettingsFormView, index: usize) -> SettingsFormView {
    if index >= f.saved_models.len() {
        f
    } else {
        let removed = f.saved_models[index as int];
        let saved = f.saved_models.remove(index as int);
        if f.default_model == Some(removed) {
            let d = crate::chat::pick_default(saved, provider_from_index(f.provider_index));
            SettingsFormView {
                saved_models: saved,
                default_model: d,
                provider_index: match d {
                    Some(m) => provider_index(m.0),
                    None => f.provider_index,
                },
                ..f
            }
        } else {
            SettingsFormView { saved_models: saved, ..f }
        }
    }
}

/// The form with the personalization fields taken from `p`.
pub open spec fn personalization_applied(
    f: SettingsFormView,
    p: PersonalizationView,
) -> SettingsFormView {
    SettingsFormView {
        base_system_prompt: p.base_system_prompt,
        profile_name: text_or_empty(p.profile.name),
        profile_language: text_or_empty(p.profile.language),
        profile_occupation: text_or_empty(p.profile.occupation),
        response_style: text_or_empty(p.profile.response_style),
        more_about_you: text_or_empty(p.profile.more_about_you),
        header_lists_index: preference_index(p.profile.header_lists),
        emoji_index: preference_index(p.profile.emoji),
        memory_items: p.memory,
        ..f
    }
}

/// The form with its personalization fields reset: the default base prompt,
/// empty profile fields, both preferences at `Default`, and no memory items.
pub open spec fn personalization_reset(f: SettingsFormView) -> SettingsFormView {
    SettingsFormView {
        base_system_prompt: default_prompt(),
        profile_name: Seq::empty(),
        profile_language: Seq::empty(),
        profile_occupation: Seq::empty(),
        response_style: Seq::empty(),
        more_about_you: Seq::empty(),
        header_lists_index: preference_index(PreferenceLevel::Default),
        emoji_index: preference_index(PreferenceLevel::Default),
        memory_items: Seq::empty(),
        ..f
    }
}

/// The field trimmed, or `None` when it is blank.
pub fn normalize_form_field(value: &str) -> (r: Option<String>)
    ensures
        opt_view(r) == form_field(value@),
{
    let t = trim_string(value);
    let v = chars_of(t.as_str());
    if v.len() == 0 {
        None
    } else {
        Some(t)
    }
}

/// The number that the trimmed `text` spells, when it is at most `max`.
fn parse_field(text: &str, max: u64) -> (r: Option<u64>)
    ensures
        match r {
            Some(v) => parse_unsigned(trim(text@), max as nat) == Some(v as nat),
            None => parse_unsigned(trim(text@), max as nat) is None,
        },
{
    let chars = chars_of(text);
    let trimmed = trim_chars(chars.as_slice());
    parse_unsigned_chars(trimmed.as_slice(), max)
}

fn text_of(o: &Option<String>) -> (r: String)
    ensures
        r@ == text_or_empty(opt_view(*o)),
{
    match o {
        Some(s) => s.clone(),
        None => String::new(),
    }
}

impl SettingsForm {
    /// The form filled in from `settings`.
    pub fn from_settings(settings: &AppSettings) -> (r: Self)
        ensures
            r@ == form_of_settings(settings@),
    {
        let r = SettingsForm {
            provider_index: settings.provider.active_provider.index(),
            openrouter_api_key: settings.provider.openrouter_api_key.clone(),
            lmstudio_base_url: settings.provider.lmstudio_base_url.clone(),
            saved_models: clone_models(&settings.provider.saved_models),
            default_model: clone_opt_model(&settings.provider.default_model),
            timeout_seconds: decimal_string(settings.provider.timeout_seconds),
            retry_attempts: decimal_string(settings.provider.retry_attempts as u64),
            retry_delay_seconds: decimal_string(settings.provider.retry_delay_seconds),
            base_system_prompt: settings.base_system_prompt.clone(),
            context_message_limit: decimal_string(settings.context_message_limit as u64),
            profile_name: text_of(&settings.profile.name),
            profile_language: text_of(&settings.profile.language),
            profile_occupation: text_of(&settings.profile.occupation),
            response_style: text_of(&settings.profile.response_style),
            more_about_you: text_of(&settings.profile.more_about_you),
            header_lists_index: settings.profile.header_lists.index(),
            emoji_index: settings.profile.emoji.index(),
            memory_items: clone_strings(&settings.memory),
            skill_datetime: settings.skills.datetime,
            skill_clipboard: settings.skills.clipboard,
            skill_filesystem: settings.skills.filesystem,
        };
        assert(r@ =~= form_of_settings(settings@));
        r
    }

    /// The selected provider.
    pub fn provider(&self) -> (r: ProviderKind)
        ensures
            r == provider_from_index(self.provider_index),
    {
        ProviderKind::from_index(self.provider_index)
    }

    /// The provider choices, in index order.
    pub fn provider_labels() -> (r: [&'static str; 2])
        ensures
            r@[0]@ == provider_label(ProviderKind::OpenRouter),
            r@[1]@ == provider_label(ProviderKind::LmStudio),
    {
        [ProviderKind::OpenRouter.label(), ProviderKind::LmStudio.label()]
    }

    /// The preference choices, in index order.
    pub fn preference_labels() -> (r: [&'static str; 3])
        ensures
            r@[0]@ == preference_label(PreferenceLevel::More),
            r@[1]@ == preference_label(PreferenceLevel::Default),
            r@[2]@ == preference_label(PreferenceLevel::Less),
    {
        [PreferenceLevel::More.label(), PreferenceLevel::Default.label(), PreferenceLevel::Less.label()]
    }

    /// The index of the default model among the saved models; `None` when there
    /// is no default or it is not saved.
    pub fn default_model_index(&self) -> (r: Option<usize>)
        ensures
            match (self@.default_model, r) {
                (None, None) => true,
                (Some(d), Some(i)) => is_first_index(self@.saved_models, d, i as int),
                (Some(d), None) => !self@.saved_models.contains(d),
                (None, Some(_)) => false,
            },
    {
        match &self.default_model {
            None => None,
            Some(d) => {
                let ghost ms = models_view(self.saved_models@);
                let mut i: usize = 0;
                while i < self.saved_models.len()
                    invariant
                        i <= self.saved_models@.len(),
                        ms == models_view(self.saved_models@),
                        self@.default_model == Some(d@),
                        forall|k: int| 0 <= k < i ==> ms[k] != d@,
                    decreases self.saved_models@.len() - i,
                {
                    if self.saved_models[i].provider == d.provider && self.saved_models[i].name
                        == d.name {
                        assert(ms[i as int] == d@);
                        return Some(i);
                    }
                    assert(ms[i as int] == self.saved_models@[i as int]@);
                    i = i + 1;
                }
                proof {
                    if ms.contains(d@) {
                        let k = choose|k: int| 0 <= k < ms.len() && ms[k] == d@;
                        assert(ms[k] != d@);
                    }
                }
                None
            },
        }
    }

    /// Selects `provider`, and makes its first saved model the default unless
    /// the default already belongs to it.
    pub fn select_provider(&mut self, provider: ProviderKind)
        ensures
            final(self)@ == provider_selected(old(self)@, provider),
    {
        self.provider_index = provider.index();
        let keep = match &self.default_model {
            Some(m) => m.provider == provider,
            None => false,
        };
        if !keep {
            self.default_model = first_model_with_provider(&self.saved_models, provider);
        }
        assert(self@ =~= provider_selected(old(self)@, provider));
    }

    /// Makes the saved model at `index` the default and selects its provider.
    pub fn select_default_model(&mut self, index: usize)
        ensures
            final(self)@ == default_model_selected(old(self)@, index),
    {
        if index < self.saved_models.len() {
            let model = self.saved_models[index].clone();
            assert(models_view(self.saved_models@)[index as int] == model@);
            self.provider_index = model.provider.index();
            self.default_model = Some(model);
        }
        assert(self@ =~= default_model_selected(old(self)@, index));
    }

    /// Saves the model `name` (trimmed) for `provider`; it becomes the default
    /// when there is none. Returns `false`, changing nothing, when `name` is blank.
    pub fn add_model(&mut self, provider: ProviderKind, name: &str) -> (r: bool)
        ensures
            match norm_model(provider, name@) {
                Some(m) => r && final(self)@ == model_added(old(self)@, m),
                None => !r && final(self)@ == old(self)@,
            },
    {
        let model = match SavedModel::normalized(provider, name) {
            Some(m) => m,
            None => {
                return false;
            },
        };
        if !contains_model(&self.saved_models, &model) {
            self.saved_models.push(model.clone());
            assert(models_view(self.saved_models@) =~= models_view(old(self).saved_models@).push(
                model@,
            ));
        }
        if self.default_model.is_none() {
            self.provider_index = model.provider.index();
            self.default_model = Some(model);
        }
        assert(self@ =~= model_added(old(self)@, norm_model(provider, name@)->0));
        true
    }

    /// Removes the saved model at `index`; when it was the default, another
    /// model takes its place (see `model_removed`).
    pub fn remove_model(&mut self, index: usize)
        ensures
            final(self)@ == model_removed(old(self)@, index),
    {
        if index >= self.saved_models.len() {
            return;
        }
        let ghost before = models_view(self.saved_models@);
        let removed = self.saved_models.remove(index);
        assert(removed@ == before[index as int]);
        assert(models_view(self.saved_models@) =~= before.remove(index as int));
        let was_default = match &self.default_model {
            Some(d) => d.provider == removed.provider && d.name == removed.name,
            None => false,
        };
        if was_default {
            let provider = self.provider();
            let next = match first_model_with_provider(&self.saved_models, provider) {
                Some(m) => Some(m),
                None => {
                    if self.saved_models.len() > 0 {
                        Some(self.saved_models[0].clone())
                    } else {
                        None
                    }
                },
            };
            match &next {
                Some(m) => {
                    self.provider_index = m.provider.index();
                },
                None => {},
            }
            self.default_model = next;
        }
        assert(self@ =~= model_removed(old(self)@, index));
    }

    /// Appends an empty memory item.
    pub fn add_memory_item(&mut self)
        ensures
            final(self)@ == (SettingsFormView {
                memory_items: old(self)@.memory_items.push(Seq::empty()),
                ..old(self)@
            }),
    {
        self.memory_items.push(String::new());
        assert(self@ =~= (SettingsFormView {
            memory_items: old(self)@.memory_items.push(Seq::empty()),
            ..old(self)@
        }));
    }

    /// Replaces the memory item at `index`; an index past the end changes nothing.
    pub fn set_memory_item(&mut self, index: usize, value: String)
        ensures
            index < old(self)@.memory_items.len() ==> final(self)@ == (SettingsFormView {
                memory_items: old(self)@.memory_items.update(index as int, value@),
                ..old(self)@
            }),
            index >= old(self)@.memory_items.len() ==> final(self)@ == old(self)@,
    {
        if index < self.memory_items.len() {
            let ghost v = value@;
            self.memory_items.set(index, value);
            assert(self@ =~= (SettingsFormView {
                memory_items: old(self)@.memory_items.update(index as int, v),
                ..old(self)@
            }));
        }
    }

    /// Removes the memory item at `index`; an index past the end changes nothing.
    pub fn remove_memory_item(&mut self, index: usize)
        ensures
            index < old(self)@.memory_items.len() ==> final(self)@ == (SettingsFormView {
                memory_items: old(self)@.memory_items.remove(index as int),
                ..old(self)@
            }),
            index >= old(self)@.memory_items.len() ==> final(self)@ == old(self)@,
    {
        if index < self.memory_items.len() {
            self.memory_items.remove(index);
            assert(self@ =~= (SettingsFormView {
                memory_items: old(self)@.memory_items.remove(index as int),
                ..old(self)@
            }));
        }
    }

    /// Selects the header-and-lists preference at position `index` (see
    /// `PreferenceLevel::from_index`).
    pub fn select_header_lists(&mut self, index: usize)
        ensures
            final(self)@ == (SettingsFormView {
                header_lists_index: preference_index(preference_from_index(index)),
                ..old(self)@
            }),
    {
        self.header_lists_index = PreferenceLevel::from_index(index).index();
    }

    /// Selects the emoji preference at position `index`.
    pub fn select_emoji(&mut self, index: usize)
        ensures
            final(self)@ == (SettingsFormView {
                emoji_index: preference_index(preference_from_index(index)),
                ..old(self)@
            }),
    {
        self.emoji_index = PreferenceLevel::from_index(index).index();
    }

    pub fn header_lists(&self) -> (r: PreferenceLevel)
        ensures
            r == preference_from_index(self.header_lists_index),
    {
        PreferenceLevel::from_index(self.header_lists_index)
    }

    pub fn emoji(&self) -> (r: PreferenceLevel)
        ensures
            r == preference_from_index(self.emoji_index),
    {
        PreferenceLevel::from_index(self.emoji_index)
    }

    /// Resets the personalization fields to their defaults.
    pub fn reset_personalization(&mut self)
        ensures
            final(self)@ == personalization_reset(old(self)@),
    {
        self.base_system_prompt = default_base_system_prompt().to_string();
        self.profile_name = String::new();
        self.profile_language = String::new();
        self.profile_occupation = String::new();
        self.response_style = String::new();
        self.more_about_you = String::new();
        self.header_lists_index = PreferenceLevel::Default.index();
        self.emoji_index = PreferenceLevel::Default.index();
        self.memory_items = Vec::new();
        assert(self@ =~= personalization_reset(old(self)@));
    }

    /// The personalization that the form describes, normalized.
    pub fn personalization_settings(&self) -> (r: PersonalizationSettings)
        ensures
            r@ == form_personalization(self@),
    {
        let mut settings = PersonalizationSettings {
            base_system_prompt: self.base_system_prompt.clone(),
            profile: UserProfile {
                name: normalize_form_field(self.profile_name.as_str()),
                language: normalize_form_field(self.profile_language.as_str()),
                occupation: normalize_form_field(self.profile_occupation.as_str()),
                response_style: normalize_form_field(self.response_style.as_str()),
                more_about_you: normalize_form_field(self.more_about_you.as_str()),
                header_lists: self.header_lists(),
                emoji: self.emoji(),
            },
            memory: clone_strings(&self.memory_items),
        };
        assert(settings@ =~= (PersonalizationView {
            base_system_prompt: self@.base_system_prompt,
            profile: form_profile(self@),
            memory: self@.memory_items,
        }));
        settings.normalize();
        settings
    }

    /// Fills the personalization fields from `personalization`.
    pub fn apply_personalization(&mut self, personalization: &PersonalizationSettings)
        ensures
            final(self)@ == personalization_applied(old(self)@, personalization@),
    {
        self.base_system_prompt = personalization.base_system_prompt.clone();
        self.profile_name = text_of(&personalization.profile.name);
        self.profile_language = text_of(&personalization.profile.language);
        self.profile_occupation = text_of(&personalization.profile.occupation);
        self.response_style = text_of(&personalization.profile.response_style);
        self.more_about_you = text_of(&personalization.profile.more_about_you);
        self.header_lists_index = personalization.profile.header_lists.index();
        self.emoji_index = personalization.profile.emoji.index();
        self.memory_items = clone_strings(&personalization.memory);
        assert(self@ =~= personalization_applied(old(self)@, personalization@));
    }

    /// Checks the numeric fields and, when all hold acceptable numbers, writes
    /// the form into `settings` and normalizes them. On the first field that
    /// does not, returns its error and leaves `settings` unchanged.
    pub fn apply_to_settings(&self, settings: &mut AppSettings) -> (r: Result<
        (),
        SettingsValidationError,
    >)
        ensures
            match form_numbers(self@) {
                Ok(n) => r is Ok && final(settings)@ == settings_from_form(
                    self@,
                    old(settings)@,
                    n,
                ),
                Err(e) => r == Err::<(), SettingsValidationError>(e) && final(settings)@ == old(
                    settings,
                )@,
            },
    {
        let parsed_context_limit = match parse_field(
            self.context_message_limit.as_str(),
            usize::MAX as u64,
        ) {
            Some(v) => v as usize,
            None => {
                return Err(SettingsValidationError::ContextLimit);
            },
        };
        let parsed_timeout = match parse_field(self.timeout_seconds.as_str(), u64::MAX) {
            Some(v) => {
                if v == 0 {
                    return Err(SettingsValidationError::TimeoutSeconds);
                }
                v
            },
            None => {
                return Err(SettingsValidationError::TimeoutSeconds);
            },
        };
        let parsed_retry_attempts = match parse_field(self.retry_attempts.as_str(), 255) {
            Some(v) => v as u8,
            None => {
                return Err(SettingsValidationError::RetryAttempts);
            },
        };
        let parsed_retry_delay = match parse_field(self.retry_delay_seconds.as_str(), u64::MAX) {
            Some(v) => v,
            None => {
                return Err(SettingsValidationError::RetryDelaySeconds);
            },
        };
        let ghost n = (parsed_context_limit, parsed_timeout, parsed_retry_attempts, parsed_retry_delay);
        assert(form_numbers(self@) == Ok::<(usize, u64, u8, u64), SettingsValidationError>(n));
        settings.provider.active_provider = self.provider();
        settings.provider.openrouter_api_key = trim_string(self.openrouter_api_key.as_str());
        settings.provider.lmstudio_base_url = trim_string(self.lmstudio_base_url.as_str());
        settings.provider.saved_models = clone_models(&self.saved_models);
        settings.provider.default_model = clone_opt_model(&self.default_model);
        settings.provider.timeout_seconds = parsed_timeout;
        settings.provider.retry_attempts = parsed_retry_attempts;
        settings.provider.retry_delay_seconds = parsed_retry_delay;
        settings.base_system_prompt = self.base_system_prompt.clone();
        settings.context_message_limit = parsed_context_limit;
        settings.profile.name = normalize_form_field(self.profile_name.as_str());
        settings.profile.language = normalize_form_field(self.profile_language.as_str());
        settings.profile.occupation = normalize_form_field(self.profile_occupation.as_str());
        settings.profile.response_style = normalize_form_field(self.response_style.as_str());
        settings.profile.more_about_you = normalize_form_field(self.more_about_you.as_str());
        settings.profile.header_lists = self.header_lists();
        settings.profile.emoji = self.emoji();
        settings.memory = clone_strings(&self.memory_items);
        settings.skills.datetime = self.skill_datetime;
        settings.skills.clipboard = self.skill_clipboard;
        settings.skills.filesystem = self.skill_filesystem;
        let ghost pre = settings@;
        assert(normalize_app_settings(pre) =~= settings_from_form(self@, old(settings)@, n)) by {
            assert(pre.provider =~= (crate::chat::ProviderSettingsView {
                active_provider: provider_from_index(self@.provider_index),
                openrouter_api_key: trim(self@.openrouter_api_key),
                lmstudio_base_url: trim(self@.lmstudio_base_url),
                saved_models: self@.saved_models,
                default_model: self@.default_model,
                timeout_seconds: n.1,
                retry_attempts: n.2,
                retry_delay_seconds: n.3,
                ..old(settings)@.provider
            }));
            assert(pre.profile =~= form_profile(self@));
        }
        settings.normalize();
        Ok(())
    }

    /// Puts the current value back into the field that failed validation
    /// (what saving does before reporting `error`).
    pub fn restore_invalid_field(&mut self, error: SettingsValidationError, settings: &AppSettings)
        ensures
            final(self)@ == match error {
                SettingsValidationError::ContextLimit => SettingsFormView {
                    context_message_limit: decimal(settings.context_message_limit as nat),
                    ..old(self)@
                },
                SettingsValidationError::TimeoutSeconds => SettingsFormView {
                    timeout_seconds: decimal(settings.provider.timeout_seconds as nat),
                    ..old(self)@
                },
                SettingsValidationError::RetryAttempts => SettingsFormView {
                    retry_attempts: decimal(settings.provider.retry_attempts as nat),
                    ..old(self)@
                },
                SettingsValidationError::RetryDelaySeconds => SettingsFormView {
                    retry_delay_seconds: decimal(settings.provider.retry_delay_seconds as nat),
                    ..old(self)@
                },
            },
    {
        match error {
            SettingsValidationError::ContextLimit => {
                self.context_message_limit = decimal_string(settings.context_message_limit as u64);
            },
            SettingsValidationError::TimeoutSeconds => {
                self.timeout_seconds = decimal_string(settings.provider.timeout_seconds);
            },
            SettingsValidationError::RetryAttempts => {
                self.retry_attempts = decimal_string(settings.provider.retry_attempts as u64);
            },
            SettingsValidationError::RetryDelaySeconds => {
                self.retry_delay_seconds = decimal_string(settings.provider.retry_delay_seconds);
            },
        }
    }

    /// Whether `field` holds text that saving would refuse; the screen flags
    /// such a field as soon as it is typed.
    pub fn is_field_invalid(&self, field: SettingsValidationError) -> (r: bool)
        ensures
            r == field_invalid(self@, field),
    {
        match field {
            SettingsValidationError::ContextLimit => parse_field(
                self.context_message_limit.as_str(),
                usize::MAX as u64,
            ).is_none(),
            SettingsValidationError::TimeoutSeconds => match parse_field(
                self.timeout_seconds.as_str(),
                u64::MAX,
            ) {
                Some(v) => v == 0,
                None => true,
            },
            SettingsValidationError::RetryAttempts => parse_field(
                self.retry_attempts.as_str(),
                255,
            ).is_none(),
            SettingsValidationError::RetryDelaySeconds => parse_field(
                self.retry_delay_seconds.as_str(),
                u64::MAX,
            ).is_none(),
        }
    }

    /// The line about the default model shown under the saved models.
    pub fn default_model_summary(&self) -> (r: String)
        ensures
            r@ == default_model_summary_text(opt_model_view(self.default_model)),
    {
        match &self.default_model {
            Some(m) => m.dropdown_label(),
            None => "No default model selected".to_string(),
        }
    }

    /// The line about the memory items shown above them.
    pub fn memory_summary(&self) -> (r: String)
        ensures
            r@ == memory_summary_text(self.memory_items@.len()),
    {
        if self.memory_items.len() == 0 {
            "No manual memory yet".to_string()
        } else {
            let mut v = crate::text::decimal_chars(self.memory_items.len() as u64);
            crate::text::push_str(&mut v, " memory items saved");
            crate::text::string_from_chars(v.as_slice())
        }
    }

    /// The dropdown label of each saved model, in order.
    pub fn default_model_options(&self) -> (r: Vec<String>)
        ensures
            string_views(r@) == model_labels(models_view(self.saved_models@)),
    {
        let mut r: Vec<String> = Vec::new();
        let mut i: usize = 0;
        while i < self.saved_models.len()
            invariant
                i <= self.saved_models@.len(),
                string_views(r@) == model_labels(models_view(self.saved_models@).take(i as int)),
            decreases self.saved_models@.len() - i,
        {
            let label = self.saved_models[i].dropdown_label();
            let ghost ms = models_view(self.saved_models@);
            let ghost before = r@;
            assert(ms[i as int] == self.saved_models@[i as int]@);
            r.push(label);
            assert(string_views(r@) =~= string_views(before).push(label@));
            assert(model_labels(ms.take(i + 1)) =~= model_labels(ms.take(i as int)).push(
                model_label(ms[i as int]),
            ));
            i = i + 1;
        }
        assert(models_view(self.saved_models@).take(i as int) =~= models_view(self.saved_models@));
        r
    }
}


impl Default for SettingsForm {
    fn default() -> (r: Self)
        ensures
            r@ == form_of_settings(crate::chat::default_app_settings()),
    {
        let settings = AppSettings::default();
        SettingsForm::from_settings(&settings)
    }
}


/// Saving the form succeeds exactly when no number field is flagged as
/// invalid, and when it fails, the error names a flagged field.
pub proof fn law_saving_refuses_flagged_fields(f: SettingsFormView)
    ensures
        form_numbers(f) is Ok <==> (!field_invalid(f, SettingsValidationError::ContextLimit)
            && !field_invalid(f, SettingsValidationError::TimeoutSeconds) && !field_invalid(
            f,
            SettingsValidationError::RetryAttempts,
        ) && !field_invalid(f, SettingsValidationError::RetryDelaySeconds)),
        form_numbers(f) matches Err(e) ==> field_invalid(f, e),
{
}

/// The first model of `s` for provider `p` is at `j` when `s[j]` has that
/// provider and no model before it does.
proof fn lemma_first_with_provider_at(s: Seq<ModelView>, p: ProviderKind, j: int)
    requires
        0 <= j < s.len(),
        s[j].0 == p,
        forall|k: int| 0 <= k < j ==> s[k].0 != p,
    ensures
        crate::chat::first_with_provider(s, p) == Some(s[j]),
    decreases j,
{
    if j > 0 {
        let t = s.drop_first();
        assert(s[0].0 != p);
        assert forall|k: int| 0 <= k < j - 1 implies t[k].0 != p by {
            assert(t[k] == s[k + 1]);
        }
        lemma_first_with_provider_at(t, p, j - 1);
        assert(t[j - 1] == s[j]);
    }
}

/// No model of `s` has provider `p`, so none is found for it.
proof fn lemma_first_with_provider_none(s: Seq<ModelView>, p: ProviderKind)
    requires
        forall|k: int| 0 <= k < s.len() ==> s[k].0 != p,
    ensures
        crate::chat::first_with_provider(s, p) is None,
    decreases s.len(),
{
    if s.len() > 0 {
        let t = s.drop_first();
        assert(s[0].0 != p);
        assert forall|k: int| 0 <= k < t.len() implies t[k].0 != p by {
            assert(t[k] == s[k + 1]);
        }
        lemma_first_with_provider_none(t, p);
    }
}

/// Removing the default model from the form: the first remaining model of
/// the selected provider becomes the default and the selected provider stays;
/// when no remaining model has that provider, the first remaining model
/// becomes the default and its provider is selected; when none remains,
/// there is no default. Removing another model keeps the default and the
/// provider. The model at `index` is gone and the others keep their order.
pub proof fn law_removing_default_model(f: SettingsFormView, index: usize)
    requires
        index < f.saved_models.len(),
    ensures
        ({
            let g = model_removed(f, index);
            let rest = f.saved_models.remove(index as int);
            let p = provider_from_index(f.provider_index);
            &&& g.saved_models == rest
            &&& f.default_model != Some(f.saved_models[index as int]) ==> g.default_model
                == f.default_model && g.provider_index == f.provider_index
            &&& f.default_model == Some(f.saved_models[index as int]) ==> {
                &&& forall|j: int|
                    0 <= j < rest.len() && rest[j].0 == p && (forall|k: int|
                        0 <= k < j ==> rest[k].0 != p) ==> g.default_model == Some(rest[j])
                        && provider_from_index(g.provider_index) == p
                &&& (forall|k: int| 0 <= k < rest.len() ==> rest[k].0 != p) && rest.len() > 0
                    ==> g.default_model == Some(rest[0]) && provider_from_index(g.provider_index)
                    == rest[0].0
                &&& rest.len() == 0 ==> g.default_model is None && g.provider_index
                    == f.provider_index
            }
        }),
{
    let rest = f.saved_models.remove(index as int);
    let p = provider_from_index(f.provider_index);
    if f.default_model == Some(f.saved_models[index as int]) {
        assert forall|j: int|
            0 <= j < rest.len() && rest[j].0 == p && (forall|k: int|
                0 <= k < j ==> rest[k].0 != p) implies model_removed(f, index).default_model == Some(
            rest[j],
        ) && provider_from_index(model_removed(f, index).provider_index) == p by {
            lemma_first_with_provider_at(rest, p, j);
            crate::chat::law_provider_index_roundtrip(p);
        }
        if (forall|k: int| 0 <= k < rest.len() ==> rest[k].0 != p) && rest.len() > 0 {
            lemma_first_with_provider_none(rest, p);
            crate::chat::law_provider_index_roundtrip(rest[0].0);
        }
        if rest.len() == 0 {
            lemma_first_with_provider_none(rest, p);
        }
    }
}

/// A normalized optional field survives being shown in the form and read back.
proof fn lemma_form_field_roundtrip(o: Option<Seq<char>>)
    requires
        norm_opt(o) == o,
    ensures
        form_field(text_or_empty(o)) == o,
{
    if o is None {
        assert(trim(Seq::<char>::empty()) =~= Seq::<char>::empty());
    }
}

/// Opening the settings form and applying it without edits gives back the
/// settings, for settings that are already normalized and whose API key has no
/// whitespace at either end (the form trims the key; normalization does not).
pub proof fn law_settings_form_roundtrip(s: AppSettingsView)
    requires
        normalize_app_settings(s) == s,
        trim(s.provider.openrouter_api_key) == s.provider.openrouter_api_key,
    ensures
        form_numbers(form_of_settings(s)) == Ok::<(usize, u64, u8, u64), SettingsValidationError>(
            (
                s.context_message_limit,
                s.provider.timeout_seconds,
                s.provider.retry_attempts,
                s.provider.retry_delay_seconds,
            ),
        ),
        settings_from_form(
            form_of_settings(s),
            s,
            (
                s.context_message_limit,
                s.provider.timeout_seconds,
                s.provider.retry_attempts,
                s.provider.retry_delay_seconds,
            ),
        ) == s,
{
    let f = form_of_settings(s);
    lemma_parse_decimal(s.context_message_limit as nat, usize::MAX as nat);
    lemma_parse_decimal(s.provider.timeout_seconds as nat, u64::MAX as nat);
    lemma_parse_decimal(s.provider.retry_attempts as nat, u8::MAX as nat);
    lemma_parse_decimal(s.provider.retry_delay_seconds as nat, u64::MAX as nat);
    crate::chat::law_provider_index_roundtrip(s.provider.active_provider);
    crate::chat::law_preference_index_roundtrip(s.profile.header_lists);
    crate::chat::law_preference_index_roundtrip(s.profile.emoji);
    lemma_form_field_roundtrip(s.profile.name);
    lemma_form_field_roundtrip(s.profile.language);
    lemma_form_field_roundtrip(s.profile.occupation);
    lemma_form_field_roundtrip(s.profile.response_style);
    lemma_form_field_roundtrip(s.profile.more_about_you);
    assert(form_profile(f) =~= s.profile);
    let n = (
        s.context_message_limit,
        s.provider.timeout_seconds,
        s.provider.retry_attempts,
        s.provider.retry_delay_seconds,
    );
    assert(settings_from_form(f, s, n) == normalize_app_settings(s)) by {
        assert(crate::chat::ProviderSettingsView {
            active_provider: provider_from_index(f.provider_index),
            openrouter_api_key: trim(f.openrouter_api_key),
            lmstudio_base_url: trim(f.lmstudio_base_url),
            saved_models: f.saved_models,
            default_model: f.default_model,
            timeout_seconds: n.1,
            retry_attempts: n.2,
            retry_delay_seconds: n.3,
            ..s.provider
        } =~= s.provider);
    }
}

} // verus!
