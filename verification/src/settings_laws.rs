//! Properties that normalization of the settings keeps.

use crate::chat::{
    dedup, first_with_provider, norm_model, norm_models, norm_opt, normalize_app_settings,
    normalize_profile, normalize_provider, normalized_default_candidate, normalized_saved_models,
    opt_seq, pick_default, trimmed_items, AppSettingsView, ModelView, ProviderKind,
    ProviderSettingsView, UserProfileView,
};
use crate::text::{is_blank, lemma_trim_facts, trim};
use vstd::prelude::*;

verus! {

/// No element occurs twice.
pub open spec fn no_dup<A>(s: Seq<A>) -> bool {
    forall|i: int, j: int| 0 <= i < j < s.len() ==> s[i] != s[j]
}

/// A model whose name is trimmed and not blank.
pub open spec fn is_norm_model(m: ModelView) -> bool {
    !is_blank(m.1) && trim(m.1) == m.1
}

pub open spec fn all_norm(s: Seq<ModelView>) -> bool {
    forall|i: int| 0 <= i < s.len() ==> is_norm_model(#[trigger] s[i])
}

proof fn lemma_norm_model_norm(p: ProviderKind, n: Seq<char>)
    ensures
        norm_model(p, n) matches Some(m) ==> is_norm_model(m) && m.0 == p,
        is_blank(n) ==> norm_model(p, n) is None,
{
    lemma_trim_facts(n);
    lemma_trim_facts(trim(n));
}

proof fn lemma_norm_model_fixed(m: ModelView)
    requires
        is_norm_model(m),
    ensures
        norm_model(m.0, m.1) == Some(m),
{
}

proof fn lemma_norm_models_all_norm(s: Seq<ModelView>)
    ensures
        all_norm(norm_models(s)),
    decreases s.len(),
{
    if s.len() > 0 {
        lemma_norm_models_all_norm(s.drop_last());
        lemma_norm_model_norm(s.last().0, s.last().1);
    }
}

proof fn lemma_norm_models_fixed(s: Seq<ModelView>)
    requires
        all_norm(s),
    ensures
        norm_models(s) == s,
    decreases s.len(),
{
    if s.len() > 0 {
        let t = s.drop_last();
        assert forall|i: int| 0 <= i < t.len() implies is_norm_model(#[trigger] t[i]) by {
            assert(t[i] == s[i]);
        }
        lemma_norm_models_fixed(t);
        lemma_norm_model_fixed(s.last());
        assert(t.push(s.last()) =~= s);
    }
}

proof fn lemma_dedup_contains<A>(s: Seq<A>)
    ensures
        forall|x: A| #[trigger] dedup(s).contains(x) == s.contains(x),
        no_dup(dedup(s)),
    decreases s.len(),
{
    if s.len() > 0 {
        let t = s.drop_last();
        lemma_dedup_contains(t);
        let d = dedup(t);
        assert forall|x: A| #[trigger] dedup(s).contains(x) == s.contains(x) by {
            if s.contains(x) {
                let k = choose|k: int| 0 <= k < s.len() && s[k] == x;
                if k < s.len() - 1 {
                    assert(t[k] == x);
                    assert(t.contains(x));
                    assert(d.contains(x));
                    if !d.contains(s.last()) {
                        let j = choose|j: int| 0 <= j < d.len() && d[j] == x;
                        assert(d.push(s.last())[j] == x);
                    }
                } else {
                    if !d.contains(s.last()) {
                        assert(d.push(s.last())[d.len() as int] == x);
                    }
                }
            }
            if dedup(s).contains(x) {
                if d.contains(s.last()) {
                    assert(d.contains(x));
                    let k = choose|k: int| 0 <= k < t.len() && t[k] == x;
                    assert(s[k] == x);
                } else {
                    let j = choose|j: int|
                        0 <= j < d.push(s.last()).len() && d.push(s.last())[j] == x;
                    if j < d.len() {
                        assert(d[j] == x);
                        assert(d.contains(x));
                        let k = choose|k: int| 0 <= k < t.len() && t[k] == x;
                        assert(s[k] == x);
                    } else {
                        assert(s[s.len() - 1] == x);
                    }
                }
            }
        }
        if !d.contains(s.last()) {
            let e = d.push(s.last());
            assert forall|i: int, j: int| 0 <= i < j < e.len() implies e[i] != e[j] by {
                if j == d.len() {
                    assert(e[i] == d[i]);
                    if d[i] == s.last() {
                        assert(d.contains(s.last()));
                    }
                } else {
                    assert(e[i] == d[i] && e[j] == d[j]);
                }
            }
        }
    }
}

proof fn lemma_dedup_fixed<A>(s: Seq<A>)
    requires
        no_dup(s),
    ensures
        dedup(s) == s,
    decreases s.len(),
{
    if s.len() > 0 {
        let t = s.drop_last();
        assert forall|i: int, j: int| 0 <= i < j < t.len() implies t[i] != t[j] by {
            assert(t[i] == s[i] && t[j] == s[j]);
        }
        lemma_dedup_fixed(t);
        lemma_dedup_contains(t);
        if t.contains(s.last()) {
            let k = choose|k: int| 0 <= k < t.len() && t[k] == s.last();
            assert(s[k] == s[s.len() - 1]);
        }
        assert(t.push(s.last()) =~= s);
    }
}

proof fn lemma_dedup_append_contained<A>(s: Seq<A>, t: Seq<A>)
    requires
        forall|i: int| 0 <= i < t.len() ==> s.contains(#[trigger] t[i]),
    ensures
        dedup(s + t) == dedup(s),
    decreases t.len(),
{
    if t.len() == 0 {
        assert(s + t =~= s);
    } else {
        let u = t.drop_last();
        assert forall|i: int| 0 <= i < u.len() implies s.contains(#[trigger] u[i]) by {
            assert(u[i] == t[i]);
        }
        lemma_dedup_append_contained(s, u);
        assert((s + t).drop_last() =~= s + u);
        assert((s + t).last() == t.last());
        lemma_dedup_contains(s + u);
        assert(s.contains(t[t.len() - 1]));
        let k = choose|k: int| 0 <= k < s.len() && s[k] == t.last();
        assert((s + u)[k] == t.last());
        assert((s + u).contains(t.last()));
    }
}

proof fn lemma_dedup_norm<A>(s: Seq<ModelView>)
    requires
        all_norm(s),
    ensures
        all_norm(dedup(s)),
{
    lemma_dedup_contains(s);
    assert forall|i: int| 0 <= i < dedup(s).len() implies is_norm_model(#[trigger] dedup(s)[i]) by {
        assert(dedup(s).contains(dedup(s)[i]));
        assert(s.contains(dedup(s)[i]));
        let k = choose|k: int| 0 <= k < s.len() && s[k] == dedup(s)[i];
    }
}

proof fn lemma_first_with_provider(s: Seq<ModelView>, p: ProviderKind)
    ensures
        first_with_provider(s, p) matches Some(m) ==> s.contains(m) && m.0 == p,
    decreases s.len(),
{
    if s.len() > 0 && s[0].0 != p {
        lemma_first_with_provider(s.drop_first(), p);
        if let Some(m) = first_with_provider(s.drop_first(), p) {
            let k = choose|k: int| 0 <= k < s.drop_first().len() && s.drop_first()[k] == m;
            assert(s[k + 1] == m);
        }
    } else if s.len() > 0 {
        assert(s[0] == s[0]);
        assert(s.contains(s[0]));
    }
}

proof fn lemma_pick_default(s: Seq<ModelView>, p: ProviderKind)
    ensures
        pick_default(s, p) matches Some(m) ==> s.contains(m),
        pick_default(s, p) is None <==> s.len() == 0,
{
    lemma_first_with_provider(s, p);
    if s.len() > 0 {
        assert(s.contains(s[0]));
    } else {
        if let Some(m) = first_with_provider(s, p) {
            assert(s.contains(m));
        }
    }
}

/// What holds after `ProviderSettings::normalize`: every saved model is
/// trimmed and non-blank, none occurs twice, the default model (when set) is
/// one of them and belongs to the active provider, and a default is set
/// whenever there is a saved model.
pub proof fn law_normalized_provider_settings_shape(v: ProviderSettingsView)
    ensures
        ({
            let w = normalize_provider(v);
            &&& all_norm(w.saved_models)
            &&& no_dup(w.saved_models)
            &&& (w.default_model matches Some(d) ==> w.saved_models.contains(d) && d.0
                == w.active_provider)
            &&& (w.default_model is None <==> w.saved_models.len() == 0)
            &&& w.lmstudio_base_url == trim(v.lmstudio_base_url)
            &&& 5 <= w.timeout_seconds <= 120
            &&& w.retry_attempts <= 5
            &&& w.retry_delay_seconds <= 60
        }),
{
    let c = norm_models(v.saved_models) + opt_seq(
        norm_model(ProviderKind::OpenRouter, v.legacy_openrouter_model),
    ) + opt_seq(norm_model(ProviderKind::LmStudio, v.legacy_lmstudio_model));
    lemma_norm_models_all_norm(v.saved_models);
    lemma_norm_model_norm(ProviderKind::OpenRouter, v.legacy_openrouter_model);
    lemma_norm_model_norm(ProviderKind::LmStudio, v.legacy_lmstudio_model);
    assert(all_norm(c));
    lemma_dedup_norm::<ModelView>(c);
    lemma_dedup_contains(c);
    let saved1 = dedup(c);
    assert(saved1 == normalized_saved_models(v));
    let default1 = normalized_default_candidate(v);
    if let Some(m) = v.default_model {
        lemma_norm_model_norm(m.0, m.1);
    }
    let w = normalize_provider(v);
    if let Some(d) = default1 {
        if !saved1.contains(d) {
            let e = saved1.push(d);
            assert forall|i: int, j: int| 0 <= i < j < e.len() implies e[i] != e[j] by {
                if j == saved1.len() {
                    assert(e[i] == saved1[i]);
                    if saved1[i] == d {
                        assert(saved1.contains(d));
                    }
                } else {
                    assert(e[i] == saved1[i] && e[j] == saved1[j]);
                }
            }
            assert forall|i: int| 0 <= i < e.len() implies is_norm_model(#[trigger] e[i]) by {
                if i < saved1.len() {
                    assert(e[i] == saved1[i]);
                }
            }
            assert(e.contains(d)) by {
                assert(e[saved1.len() as int] == d);
            }
        }
    }
    lemma_pick_default(w.saved_models, v.active_provider);
    if let Some(d) = default1 {
        assert(w.saved_models.contains(d));
    }
    if w.saved_models.len() == 0 {
        if let Some(d) = default1 {
            assert(w.saved_models.contains(d));
        }
    }
}

/// Normalizing provider settings a second time changes nothing.
pub proof fn law_normalize_provider_idempotent(v: ProviderSettingsView)
    ensures
        normalize_provider(normalize_provider(v)) == normalize_provider(v),
{
    let w = normalize_provider(v);
    law_normalized_provider_settings_shape(v);
    let c = norm_models(v.saved_models) + opt_seq(
        norm_model(ProviderKind::OpenRouter, v.legacy_openrouter_model),
    ) + opt_seq(norm_model(ProviderKind::LmStudio, v.legacy_lmstudio_model));
    lemma_dedup_contains(c);
    let saved1 = dedup(c);
    // Every saved model of `w` contains the first-pass candidates.
    assert forall|x: ModelView| saved1.contains(x) implies w.saved_models.contains(x) by {
        let k = choose|k: int| 0 <= k < saved1.len() && saved1[k] == x;
        match normalized_default_candidate(v) {
            Some(d) => {
                if !saved1.contains(d) {
                    assert(saved1.push(d)[k] == x);
                }
            },
            None => {},
        }
    }
    let l1 = opt_seq(norm_model(ProviderKind::OpenRouter, w.legacy_openrouter_model));
    let l2 = opt_seq(norm_model(ProviderKind::LmStudio, w.legacy_lmstudio_model));
    let n1 = norm_models(v.saved_models);
    if let Some(m) = norm_model(ProviderKind::OpenRouter, v.legacy_openrouter_model) {
        assert(c[n1.len() as int] == m);
        assert(c.contains(m));
        assert(saved1.contains(m));
    }
    if let Some(m) = norm_model(ProviderKind::LmStudio, v.legacy_lmstudio_model) {
        let i = (c.len() - 1) as int;
        assert(c[i] == m);
        assert(c.contains(m));
        assert(saved1.contains(m));
    }
    let t = l1 + l2;
    assert forall|i: int| 0 <= i < t.len() implies w.saved_models.contains(#[trigger] t[i]) by {
        if i < l1.len() {
            assert(t[i] == l1[i]);
        } else {
            assert(t[i] == l2[i - l1.len()]);
        }
    }
    lemma_norm_models_fixed(w.saved_models);
    assert(norm_models(w.saved_models) + l1 + l2 =~= w.saved_models + t);
    lemma_dedup_append_contained(w.saved_models, t);
    lemma_dedup_fixed(w.saved_models);
    assert(normalized_saved_models(w) == w.saved_models);
    if let Some(d) = w.default_model {
        assert(w.saved_models.contains(d));
        let k = choose|k: int| 0 <= k < w.saved_models.len() && w.saved_models[k] == d;
        assert(is_norm_model(w.saved_models[k]));
        lemma_norm_model_fixed(d);
    }
    lemma_trim_facts(v.lmstudio_base_url);
    assert(normalize_provider(w) =~= w);
}

/// Provider settings without the API key and the legacy model names: what
/// the settings file holds of them.
pub open spec fn provider_as_written(v: ProviderSettingsView) -> ProviderSettingsView {
    ProviderSettingsView {
        openrouter_api_key: Seq::empty(),
        legacy_openrouter_model: Seq::empty(),
        legacy_lmstudio_model: Seq::empty(),
        ..v
    }
}

/// Normalized provider settings stay normalized when the API key and the
/// legacy model names are cleared.
pub proof fn law_normalized_provider_as_written(v: ProviderSettingsView)
    requires
        normalize_provider(v) == v,
    ensures
        normalize_provider(provider_as_written(v)) == provider_as_written(v),
{
    law_normalized_provider_settings_shape(v);
    let w = provider_as_written(v);
    let empty = Seq::<char>::empty();
    lemma_trim_facts(empty);
    assert(is_blank(empty));
    lemma_norm_model_norm(ProviderKind::OpenRouter, empty);
    lemma_norm_model_norm(ProviderKind::LmStudio, empty);
    lemma_norm_models_fixed(v.saved_models);
    assert(norm_models(w.saved_models) + opt_seq(norm_model(ProviderKind::OpenRouter, empty))
        + opt_seq(norm_model(ProviderKind::LmStudio, empty)) =~= v.saved_models);
    lemma_dedup_fixed(v.saved_models);
    assert(normalized_saved_models(w) == v.saved_models);
    if let Some(d) = v.default_model {
        let k = choose|k: int| 0 <= k < v.saved_models.len() && v.saved_models[k] == d;
        assert(is_norm_model(v.saved_models[k]));
        lemma_norm_model_fixed(d);
    }
    lemma_pick_default(v.saved_models, v.active_provider);
    lemma_trim_facts(v.lmstudio_base_url);
    assert(normalize_provider(w) =~= w);
}

/// Normalizing a profile a second time changes nothing.
pub proof fn law_normalize_profile_idempotent(p: UserProfileView)
    ensures
        normalize_profile(normalize_profile(p)) == normalize_profile(p),
{
    lemma_norm_opt_idempotent(p.name);
    lemma_norm_opt_idempotent(p.language);
    lemma_norm_opt_idempotent(p.occupation);
    lemma_norm_opt_idempotent(p.response_style);
    lemma_norm_opt_idempotent(p.more_about_you);
}

proof fn lemma_norm_opt_idempotent(o: Option<Seq<char>>)
    ensures
        norm_opt(norm_opt(o)) == norm_opt(o),
{
    if let Some(s) = o {
        lemma_trim_facts(s);
        lemma_trim_facts(trim(s));
    }
}

/// Every item that survives trimming is trimmed and not blank.
pub proof fn lemma_trimmed_items_shape(s: Seq<Seq<char>>)
    ensures
        forall|i: int|
            0 <= i < trimmed_items(s).len() ==> !is_blank(#[trigger] trimmed_items(s)[i])
                && trim(trimmed_items(s)[i]) == trimmed_items(s)[i],
    decreases s.len(),
{
    if s.len() > 0 {
        let r = trimmed_items(s.drop_last());
        lemma_trimmed_items_shape(s.drop_last());
        lemma_trim_facts(s.last());
        lemma_trim_facts(trim(s.last()));
        let u = trimmed_items(s);
        assert forall|i: int| 0 <= i < u.len() implies !is_blank(#[trigger] u[i]) && trim(u[i])
            == u[i] by {
            if i < r.len() {
                assert(u[i] == r[i]);
            }
        }
    }
}

proof fn lemma_trimmed_items_fixed(s: Seq<Seq<char>>)
    requires
        forall|i: int| 0 <= i < s.len() ==> !is_blank(#[trigger] s[i]) && trim(s[i]) == s[i],
    ensures
        trimmed_items(s) == s,
    decreases s.len(),
{
    if s.len() > 0 {
        let t = s.drop_last();
        assert forall|i: int| 0 <= i < t.len() implies !is_blank(#[trigger] t[i]) && trim(t[i])
            == t[i] by {
            assert(t[i] == s[i]);
        }
        lemma_trimmed_items_fixed(t);
        assert(s[s.len() - 1] == s.last());
        assert(t.push(s.last()) =~= s);
    }
}

/// Trimming memory items a second time changes nothing.
pub proof fn law_trimmed_items_idempotent(s: Seq<Seq<char>>)
    ensures
        trimmed_items(trimmed_items(s)) == trimmed_items(s),
{
    lemma_trimmed_items_shape(s);
    lemma_trimmed_items_fixed(trimmed_items(s));
}

/// Normalizing all settings a second time changes nothing.
pub proof fn law_normalize_app_settings_idempotent(v: AppSettingsView)
    ensures
        normalize_app_settings(normalize_app_settings(v)) == normalize_app_settings(v),
{
    law_normalize_provider_idempotent(v.provider);
    law_normalize_profile_idempotent(v.profile);
    law_trimmed_items_idempotent(v.memory);
    assert(normalize_app_settings(normalize_app_settings(v)) =~= normalize_app_settings(v));
}

} // verus!
