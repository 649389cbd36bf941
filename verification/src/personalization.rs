//! Personalization-only settings and their versioned import/export bundles.

use crate::chat::{
    clone_strings, default_base_system_prompt, default_prompt, empty_profile, normalize_items,
    normalize_profile, trimmed_items, UserProfile, UserProfileView,
};
use crate::settings_laws::{law_normalize_profile_idempotent, law_trimmed_items_idempotent};
use crate::text::{
    chars_of, decimal, decimal_chars, is_blank, lemma_trim_facts, lemma_trim_fixed,
    push_chars, push_str, string_from_chars, string_views, trim, trim_string,
};
use vstd::prelude::*;

verus! {

/// The schema version that exports are written with.
pub const CURRENT_PERSONALIZATION_SCHEMA_VERSION: u32 = 1;

/// The base prompt, profile and memory that make up the assistant's personalization.
#[derive(Debug)]
pub struct PersonalizationSettings {
    pub base_system_prompt: String,
    pub profile: UserProfile,
    pub memory: Vec<String>,
}

/// Personalization settings as plain values.
#[verifier::ext_equal]
pub struct PersonalizationView {
    pub base_system_prompt: Seq<char>,
    pub profile: UserProfileView,
    pub memory: Seq<Seq<char>>,
}

impl View for PersonalizationSettings {
    type V = PersonalizationView;

    open spec fn view(&self) -> PersonalizationView {
        PersonalizationView {
            base_system_prompt: self.base_system_prompt@,
            profile: self.profile@,
            memory: string_views(self.memory@),
        }
    }
}

impl Clone for PersonalizationSettings {
    fn clone(&self) -> (r: Self)
        ensures
            r@ == self@,
    {
        let r = PersonalizationSettings {
            base_system_prompt: self.base_system_prompt.clone(),
            profile: self.profile.clone(),
            memory: clone_strings(&self.memory),
        };
        assert(r.memory@ == self.memory@);
        r
    }
}

/// The base prompt trimmed, or the default prompt when it is blank.
pub open spec fn normalized_base_prompt(p: Seq<char>) -> Seq<char> {
    if is_blank(p) {
        default_prompt()
    } else {
        trim(p)
    }
}

pub open spec fn normalize_personalization(v: PersonalizationView) -> PersonalizationView {
    PersonalizationView {
        base_system_prompt: normalized_base_prompt(v.base_system_prompt),
        profile: normalize_profile(v.profile),
        memory: trimmed_items(v.memory),
    }
}

impl PersonalizationSettings {
    /// Normalizes the profile, trims the memory items (dropping blank ones), and
    /// trims the base prompt, falling back to the default prompt when it is blank.
    pub fn normalize(&mut self)
        ensures
            final(self)@ == normalize_personalization(old(self)@),
    {
        self.profile.normalize();
        self.memory = normalize_items(&self.memory);
        let prompt = trim_string(self.base_system_prompt.as_str());
        let v = chars_of(prompt.as_str());
        if v.len() == 0 {
            self.base_system_prompt = default_base_system_prompt().to_string();
        } else {
            self.base_system_prompt = prompt;
        }
    }
}

/// The default prompt is trimmed and not blank.
proof fn lemma_default_prompt_trimmed()
    ensures
        trim(default_prompt()) == default_prompt(),
        !is_blank(default_prompt()),
{
    reveal_strlit("You are a concise assistant integrated into COSMIC.");
    let d = default_prompt();
    assert(d[0] == 'Y');
    assert(d.last() == '.');
    lemma_trim_fixed(d);
}

/// Normalizing personalization settings a second time changes nothing.
pub proof fn law_normalize_personalization_idempotent(v: PersonalizationView)
    ensures
        normalize_personalization(normalize_personalization(v)) == normalize_personalization(v),
{
    law_normalize_profile_idempotent(v.profile);
    law_trimmed_items_idempotent(v.memory);
    lemma_default_prompt_trimmed();
    lemma_trim_facts(v.base_system_prompt);
    assert(normalize_personalization(normalize_personalization(v)) =~= normalize_personalization(
        v,
    ));
}

/// Version 1 of the personalization export format.
#[derive(Debug)]
pub struct PersonalizationBundleV1 {
    pub schema_version: u32,
    pub base_system_prompt: String,
    pub profile: UserProfile,
    pub memory: Vec<String>,
}

/// A personalization export of any supported version.
#[derive(Debug)]
pub enum PersonalizationBundle {
    V1(PersonalizationBundleV1),
}

/// A personalization export written before exports carried a schema version;
/// missing fields read as empty.
#[derive(Debug)]
pub struct LegacyPersonalizationBundle {
    pub base_system_prompt: String,
    pub profile: UserProfile,
    pub memory: Vec<String>,
}

impl Default for LegacyPersonalizationBundle {
    fn default() -> (r: Self)
        ensures
            r.base_system_prompt@.len() == 0,
            r.profile@ == empty_profile(),
            r.memory@.len() == 0,
    {
        LegacyPersonalizationBundle {
            base_system_prompt: String::new(),
            profile: UserProfile::default(),
            memory: Vec::new(),
        }
    }
}

impl PersonalizationBundleV1 {
    /// The current-version bundle holding `settings` as they are.
    pub fn from_settings(settings: &PersonalizationSettings) -> (r: Self)
        ensures
            r.schema_version == CURRENT_PERSONALIZATION_SCHEMA_VERSION,
            r.base_system_prompt@ == settings.base_system_prompt@,
            r.profile@ == settings.profile@,
            string_views(r.memory@) == string_views(settings.memory@),
    {
        let r = PersonalizationBundleV1 {
            schema_version: CURRENT_PERSONALIZATION_SCHEMA_VERSION,
            base_system_prompt: settings.base_system_prompt.clone(),
            profile: settings.profile.clone(),
            memory: clone_strings(&settings.memory),
        };
        assert(r.memory@ == settings.memory@);
        r
    }

    /// The normalized settings that the bundle holds.
    pub fn into_settings(self) -> (r: PersonalizationSettings)
        ensures
            r@ == normalize_personalization(
                PersonalizationView {
                    base_system_prompt: self.base_system_prompt@,
                    profile: self.profile@,
                    memory: string_views(self.memory@),
                },
            ),
    {
        let mut settings = PersonalizationSettings {
            base_system_prompt: self.base_system_prompt,
            profile: self.profile,
            memory: self.memory,
        };
        settings.normalize();
        settings
    }
}

impl LegacyPersonalizationBundle {
    /// The normalized settings that the bundle holds.
    pub fn into_settings(self) -> (r: PersonalizationSettings)
        ensures
            r@ == normalize_personalization(
                PersonalizationView {
                    base_system_prompt: self.base_system_prompt@,
                    profile: self.profile@,
                    memory: string_views(self.memory@),
                },
            ),
    {
        let mut settings = PersonalizationSettings {
            base_system_prompt: self.base_system_prompt,
            profile: self.profile,
            memory: self.memory,
        };
        settings.normalize();
        settings
    }
}

/// Reading back an exported bundle gives the settings it was made from,
/// whenever those settings came out of normalization (as imported and
/// edited settings do): `from_settings` copies the settings into the bundle
/// unchanged and `into_settings` normalizes them again.
pub proof fn law_bundle_roundtrip(raw: PersonalizationView)
    ensures
        ({
            let s = normalize_personalization(raw);
            normalize_personalization(s) == s
        }),
{
    law_normalize_personalization_idempotent(raw);
}

/// How a stored document's `schema_version` field is to be read.
#[derive(Debug, Clone, Copy, PartialEq, Eq, Structural)]
pub enum SchemaVersion {
    /// The field holds the version this crate writes.
    Current,
    /// The field holds some other version.
    Unsupported(u32),
    /// The field is missing: the document predates versioning.
    Legacy,
}

/// Classifies a document's `schema_version` field against the `current` version.
pub fn classify_schema_version(version: Option<u32>, current: u32) -> (r: SchemaVersion)
    ensures
        r == (match version {
            Some(v) => if v == current {
                SchemaVersion::Current
            } else {
                SchemaVersion::Unsupported(v)
            },
            None => SchemaVersion::Legacy,
        }),
{
    match version {
        Some(v) => if v == current {
            SchemaVersion::Current
        } else {
            SchemaVersion::Unsupported(v)
        },
        None => SchemaVersion::Legacy,
    }
}

/// The error that import reports for an unknown schema version.
pub fn unsupported_personalization_version_message(version: u32) -> (r: String)
    ensures
        r@ == "Unsupported personalization schema_version "@ + decimal(version as nat),
{
    let mut v: Vec<char> = Vec::new();
    push_str(&mut v, "Unsupported personalization schema_version ");
    let d = decimal_chars(version as u64);
    push_chars(&mut v, d.as_slice());
    string_from_chars(v.as_slice())
}

} // verus!
