//! Build the final provider context from prompt layers and chat history.

use crate::chat::{
    opt_seq, opt_view, preference_label, profile_is_empty, trimmed_items, ChatMessage, ChatRole,
    PreferenceLevel, UserProfile, UserProfileView,
};
use crate::json::{
    debug_quoted, debug_string, json_pretty_object, json_pretty_string_array, pretty_json_object,
    pretty_json_strings,
};
use crate::text::{
    ascii_lowercase, ascii_lowercase_chars, char_views, chars_blank, chars_contain, chars_of,
    has_char, is_blank, join, join_chars, push_chars, push_str, split_lines, split_lines_chars,
    string_from_chars, string_views, trim, trim_chars, trim_end,
};
use vstd::prelude::*;

verus! {

/// A history message as it is sent to the provider.
#[derive(Debug)]
pub struct ContextMessage {
    pub role: ChatRole,
    pub content: String,
}

/// The system prompt and the history to send.
#[derive(Debug)]
pub struct BuiltContext {
    pub system_prompt: Option<String>,
    pub history: Vec<ContextMessage>,
}

/// The system prompt shown as the variables that build it ("code") and as
/// the final text ("text").
#[derive(Debug)]
pub struct PromptPreview {
    pub code: String,
    pub text: String,
}

impl Default for BuiltContext {
    fn default() -> (r: Self)
        ensures
            r.system_prompt is None,
            r.history@.len() == 0,
    {
        BuiltContext { system_prompt: None, history: Vec::new() }
    }
}

impl Default for PromptPreview {
    fn default() -> (r: Self)
        ensures
            r.code@.len() == 0,
            r.text@.len() == 0,
    {
        PromptPreview { code: String::new(), text: String::new() }
    }
}

pub open spec fn header_lists_text(p: PreferenceLevel) -> Option<Seq<char>> {
    match p {
        PreferenceLevel::More => Some(
            "Use more headings and bullet lists when that improves clarity."@,
        ),
        PreferenceLevel::Default => None,
        PreferenceLevel::Less => Some(
            "Use fewer headings and bullet lists; prefer plain paragraphs unless structure is needed."@,
        ),
    }
}

pub open spec fn emoji_text(p: PreferenceLevel) -> Option<Seq<char>> {
    match p {
        PreferenceLevel::More => Some("Using emoji is welcome when it adds tone or clarity."@),
        PreferenceLevel::Default => None,
        PreferenceLevel::Less => Some("Avoid emoji unless the user explicitly asks for them."@),
    }
}

/// `prefix` followed by the value, when there is one.
pub open spec fn prefixed(prefix: Seq<char>, o: Option<Seq<char>>) -> Option<Seq<char>> {
    match o {
        Some(v) => Some(prefix + v),
        None => None,
    }
}

/// The non-blank lines of `pieces`, each with trailing whitespace removed and
/// indented by two spaces.
pub open spec fn indented_lines(pieces: Seq<Seq<char>>) -> Seq<Seq<char>>
    decreases pieces.len(),
{
    if pieces.len() == 0 {
        Seq::empty()
    } else {
        let r = indented_lines(pieces.drop_last());
        let l = trim_end(pieces.last());
        if l.len() == 0 {
            r
        } else {
            r.push("  "@ + l)
        }
    }
}

/// A profile entry: nothing for a blank value, "- {label}: {value}" for a
/// one-line value, and "- {label}:" followed by the indented non-blank lines
/// for a multi-line value.
pub open spec fn multiline_entry(label: Seq<char>, value: Seq<char>) -> Option<Seq<char>> {
    let t = trim(value);
    if t.len() == 0 {
        None
    } else if has_char(t, '\n') {
        Some("- "@ + label + ":\n"@ + join(indented_lines(split_lines(t)), "\n"@))
    } else {
        Some("- "@ + label + ": "@ + t)
    }
}

/// The indented lines hold no '\n' when the pieces hold none.
proof fn lemma_indented_lines_single_line(pieces: Seq<Seq<char>>)
    requires
        forall|k: int| 0 <= k < pieces.len() ==> !has_char(#[trigger] pieces[k], '\n'),
    ensures
        forall|k: int|
            0 <= k < indented_lines(pieces).len() ==> !has_char(#[trigger] indented_lines(pieces)[k], '\n'),
    decreases pieces.len(),
{
    if pieces.len() > 0 {
        let ps = pieces.drop_last();
        assert forall|k: int| 0 <= k < ps.len() implies !has_char(#[trigger] ps[k], '\n') by {
            assert(ps[k] == pieces[k]);
        }
        lemma_indented_lines_single_line(ps);
        let p = pieces.last();
        assert(!has_char(pieces[pieces.len() - 1], '\n'));
        let l = trim_end(p);
        crate::text::lemma_trim_end_shape(p);
        reveal_strlit("  ");
        let x = "  "@ + l;
        assert(!has_char(x, '\n')) by {
            if has_char(x, '\n') {
                let i = choose|i: int| 0 <= i < x.len() && x[i] == '\n';
                if i >= 2 {
                    assert(p[i - 2] == l[i - 2]);
                    assert(p[i - 2] == '\n');
                }
            }
        }
        let r = indented_lines(ps);
        assert forall|k: int|
            0 <= k < indented_lines(pieces).len() implies !has_char(
            #[trigger] indented_lines(pieces)[k],
            '\n',
        ) by {
            if k < r.len() {
                assert(indented_lines(pieces)[k] == r[k]);
            }
        }
    }
}

/// A piece with a non-blank line gives at least one indented line.
proof fn lemma_indented_lines_nonempty(pieces: Seq<Seq<char>>, k: int)
    requires
        0 <= k < pieces.len(),
        trim_end(pieces[k]).len() > 0,
    ensures
        indented_lines(pieces).len() > 0,
    decreases pieces.len(),
{
    if k < pieces.len() - 1 {
        assert(pieces.drop_last()[k] == pieces[k]);
        lemma_indented_lines_nonempty(pieces.drop_last(), k);
    }
}

/// What the indented lines are: each is two spaces and then a non-blank
/// piece with its trailing whitespace removed, and every non-blank piece
/// gives one.
pub proof fn law_indented_lines_shape(pieces: Seq<Seq<char>>)
    ensures
        forall|k: int|
            0 <= k < indented_lines(pieces).len() ==> exists|j: int|
                0 <= j < pieces.len() && trim_end(pieces[j]).len() > 0 && #[trigger] indented_lines(
                    pieces,
                )[k] == "  "@ + trim_end(pieces[j]),
        forall|j: int|
            0 <= j < pieces.len() && trim_end(#[trigger] pieces[j]).len() > 0 ==> exists|k: int|
                0 <= k < indented_lines(pieces).len() && indented_lines(pieces)[k] == "  "@
                    + trim_end(pieces[j]),
    decreases pieces.len(),
{
    if pieces.len() > 0 {
        let ps = pieces.drop_last();
        law_indented_lines_shape(ps);
        let r = indented_lines(ps);
        let n = pieces.len() - 1;
        assert forall|k: int| 0 <= k < indented_lines(pieces).len() implies exists|j: int|
            0 <= j < pieces.len() && trim_end(pieces[j]).len() > 0 && #[trigger] indented_lines(
                pieces,
            )[k] == "  "@ + trim_end(pieces[j]) by {
            if k < r.len() {
                assert(indented_lines(pieces)[k] == r[k]);
                let j = choose|j: int|
                    0 <= j < ps.len() && trim_end(ps[j]).len() > 0 && #[trigger] r[k] == "  "@
                        + trim_end(ps[j]);
                assert(ps[j] == pieces[j]);
            } else {
                assert(pieces[n] == pieces.last());
            }
        }
        assert forall|j: int|
            0 <= j < pieces.len() && trim_end(#[trigger] pieces[j]).len() > 0 implies exists|k: int|
            0 <= k < indented_lines(pieces).len() && indented_lines(pieces)[k] == "  "@ + trim_end(
                pieces[j],
            ) by {
            if j < n {
                assert(ps[j] == pieces[j]);
                assert(trim_end(ps[j]).len() > 0);
                let k = choose|k: int|
                    0 <= k < r.len() && r[k] == "  "@ + trim_end(ps[j]);
                assert(indented_lines(pieces)[k] == r[k]);
            } else {
                assert(pieces[j] == pieces.last());
                assert(indented_lines(pieces)[r.len() as int] == "  "@ + trim_end(pieces[j]));
            }
        }
    }
}

/// A multi-line profile value keeps every line: the entry is "- {label}:"
/// on its own line, and splitting the rest at line breaks gives, in order,
/// each non-blank line of the trimmed value with its trailing whitespace
/// removed and indented by two spaces; there is at least one such line.
pub proof fn law_multiline_entry_keeps_every_line(label: Seq<char>, value: Seq<char>)
    requires
        has_char(trim(value), '\n'),
    ensures
        ({
            let head = "- "@ + label + ":\n"@;
            let lines = indented_lines(split_lines(trim(value)));
            &&& lines.len() > 0
            &&& multiline_entry(label, value) matches Some(e) && e.len() >= head.len() && e.take(
                head.len() as int,
            ) == head && split_lines(e.skip(head.len() as int)) == lines
        }),
{
    let t = trim(value);
    crate::text::lemma_trim_facts(value);
    assert(t.len() > 0);
    assert(t[0] != '\n');
    crate::text::lemma_split_lines_first(t);
    crate::text::lemma_split_lines_nonempty(t);
    let pieces = split_lines(t);
    crate::text::lemma_trim_end_shape(pieces[0]);
    assert(!crate::text::all_ws(pieces[0])) by {
        assert(pieces[0][0] == t[0]);
    }
    lemma_indented_lines_nonempty(pieces, 0);
    crate::text::lemma_split_lines_pieces(t);
    lemma_indented_lines_single_line(pieces);
    let lines = indented_lines(pieces);
    crate::text::lemma_split_join(lines);
    let head = "- "@ + label + ":\n"@;
    let e = head + join(lines, "\n"@);
    assert(e.take(head.len() as int) =~= head);
    assert(e.skip(head.len() as int) =~= join(lines, "\n"@));
}

pub open spec fn opt_entry(label: Seq<char>, o: Option<Seq<char>>) -> Option<Seq<char>> {
    match o {
        Some(v) => multiline_entry(label, v),
        None => None,
    }
}

/// The lines of the profile section, in order.
pub open spec fn profile_lines(p: UserProfileView) -> Seq<Seq<char>> {
    opt_seq(prefixed("- Name: "@, p.name)) + opt_seq(prefixed("- Preferred language: "@, p.language))
        + opt_seq(opt_entry("Occupation"@, p.occupation)) + opt_seq(
        opt_entry("Response style"@, p.response_style),
    ) + opt_seq(opt_entry("More about you"@, p.more_about_you)) + opt_seq(
        prefixed("- Header & lists: "@, header_lists_text(p.header_lists)),
    ) + opt_seq(prefixed("- Emoji: "@, emoji_text(p.emoji)))
}

/// The profile section of the system prompt; nothing for an empty profile.
pub open spec fn profile_prompt(p: UserProfileView) -> Option<Seq<char>> {
    if profile_is_empty(p) {
        None
    } else {
        Some("User profile:\n"@ + join(profile_lines(p), "\n"@))
    }
}

/// The memory items, trimmed, blank ones dropped, each as "- {item}".
pub open spec fn memory_lines(m: Seq<Seq<char>>) -> Seq<Seq<char>> {
    trimmed_items(m).map_values(|x: Seq<char>| "- "@ + x)
}

/// The memory section of the system prompt; nothing when no item is left.
pub open spec fn memory_prompt(m: Seq<Seq<char>>) -> Option<Seq<char>> {
    if memory_lines(m).len() == 0 {
        None
    } else {
        Some("Known user memory:\n"@ + join(memory_lines(m), "\n"@))
    }
}

/// The sections of the system prompt: the trimmed base prompt (unless blank),
/// the profile section and the memory section.
pub open spec fn prompt_sections(
    base: Seq<char>,
    p: UserProfileView,
    m: Seq<Seq<char>>,
) -> Seq<Seq<char>> {
    (if is_blank(base) {
        Seq::empty()
    } else {
        seq![trim(base)]
    }) + opt_seq(profile_prompt(p)) + opt_seq(memory_prompt(m))
}

/// The system prompt: the sections joined by blank lines, nothing when there is none.
pub open spec fn system_prompt(base: Seq<char>, p: UserProfileView, m: Seq<Seq<char>>) -> Option<
    Seq<char>,
> {
    let s = prompt_sections(base, p, m);
    if s.len() == 0 {
        None
    } else {
        Some(join(s, "\n\n"@))
    }
}

/// The history entries kept for the provider: the messages whose content is
/// not blank, role and content unchanged.
pub open spec fn kept_history(h: Seq<ChatMessage>) -> Seq<(ChatRole, Seq<char>)>
    decreases h.len(),
{
    if h.len() == 0 {
        Seq::empty()
    } else {
        let r = kept_history(h.drop_last());
        if is_blank(h.last().content@) {
            r
        } else {
            r.push((h.last().role, h.last().content@))
        }
    }
}

pub open spec fn context_view(v: Seq<ContextMessage>) -> Seq<(ChatRole, Seq<char>)> {
    v.map_values(|m: ContextMessage| (m.role, m.content@))
}

fn header_lists_instruction(p: PreferenceLevel) -> (r: Option<&'static str>)
    ensures
        match r {
            Some(s) => header_lists_text(p) == Some(s@),
            None => header_lists_text(p) is None,
        },
{
    match p {
        PreferenceLevel::More => Some(
            "Use more headings and bullet lists when that improves clarity.",
        ),
        PreferenceLevel::Default => None,
        PreferenceLevel::Less => Some(
            "Use fewer headings and bullet lists; prefer plain paragraphs unless structure is needed.",
        ),
    }
}

fn emoji_instruction(p: PreferenceLevel) -> (r: Option<&'static str>)
    ensures
        match r {
            Some(s) => emoji_text(p) == Some(s@),
            None => emoji_text(p) is None,
        },
{
    match p {
        PreferenceLevel::More => Some("Using emoji is welcome when it adds tone or clarity."),
        PreferenceLevel::Default => None,
        PreferenceLevel::Less => Some("Avoid emoji unless the user explicitly asks for them."),
    }
}

/// Appends the entry for `label` and `value` to `lines`, when it has one.
fn push_multiline_profile_entry(lines: &mut Vec<Vec<char>>, label: &str, value: &str)
    ensures
        char_views(final(lines)@) == char_views(old(lines)@) + opt_seq(
            multiline_entry(label@, value@),
        ),
{
    let v = chars_of(value);
    let t = trim_chars(v.as_slice());
    if t.len() == 0 {
        assert(char_views(lines@) =~= char_views(lines@) + opt_seq(
            multiline_entry(label@, value@),
        ));
        return ;
    }
    let mut entry: Vec<char> = Vec::new();
    push_str(&mut entry, "- ");
    push_str(&mut entry, label);
    if chars_contain(t.as_slice(), '\n') {
        push_str(&mut entry, ":\n");
        let pieces = split_lines_chars(t.as_slice());
        let mut body: Vec<Vec<char>> = Vec::new();
        let mut i: usize = 0;
        while i < pieces.len()
            invariant
                i <= pieces@.len(),
                char_views(body@) == indented_lines(char_views(pieces@).take(i as int)),
            decreases pieces@.len() - i,
        {
            proof {
                let tk = char_views(pieces@).take(i + 1);
                assert(tk.drop_last() =~= char_views(pieces@).take(i as int));
                assert(tk.last() == pieces@[i as int]@);
            }
            let b = crate::text::trim_end_bound(pieces[i].as_slice());
            let line = crate::text::slice_chars(pieces[i].as_slice(), 0, b);
            if line.len() > 0 {
                let mut indented: Vec<char> = Vec::new();
                push_str(&mut indented, "  ");
                push_chars(&mut indented, line.as_slice());
                body.push(indented);
                assert(char_views(body@) =~= indented_lines(char_views(pieces@).take(i + 1)));
            }
            i = i + 1;
        }
        assert(char_views(pieces@).take(pieces@.len() as int) =~= char_views(pieces@));
        let joined = join_chars(&body, "\n");
        push_chars(&mut entry, joined.as_slice());
    } else {
        push_str(&mut entry, ": ");
        push_chars(&mut entry, t.as_slice());
    }
    lines.push(entry);
    assert(char_views(lines@) =~= char_views(old(lines)@) + opt_seq(
        multiline_entry(label@, value@),
    ));
}


fn push_prefixed(lines: &mut Vec<Vec<char>>, prefix: &str, value: &str)
    ensures
        char_views(final(lines)@) == char_views(old(lines)@).push(prefix@ + value@),
{
    let mut line: Vec<char> = Vec::new();
    push_str(&mut line, prefix);
    push_str(&mut line, value);
    lines.push(line);
    assert(char_views(lines@) =~= char_views(old(lines)@).push(prefix@ + value@));
}

proof fn lemma_append_opt(s: Seq<Seq<char>>, o: Option<Seq<char>>)
    ensures
        s + opt_seq(o) == (match o {
            Some(x) => s.push(x),
            None => s,
        }),
{
    match o {
        Some(x) => assert(s + seq![x] =~= s.push(x)),
        None => assert(s + Seq::<Seq<char>>::empty() =~= s),
    }
}

fn push_opt_prefixed(lines: &mut Vec<Vec<char>>, prefix: &str, value: &Option<String>)
    ensures
        char_views(final(lines)@) == char_views(old(lines)@) + opt_seq(
            prefixed(prefix@, opt_view(*value)),
        ),
{
    proof {
        lemma_append_opt(char_views(lines@), prefixed(prefix@, opt_view(*value)));
    }
    match value {
        Some(v) => push_prefixed(lines, prefix, v.as_str()),
        None => {},
    }
}

fn push_opt_static(lines: &mut Vec<Vec<char>>, prefix: &str, value: Option<&'static str>)
    ensures
        char_views(final(lines)@) == char_views(old(lines)@) + opt_seq(
            prefixed(
                prefix@,
                match value {
                    Some(v) => Some(v@),
                    None => None,
                },
            ),
        ),
{
    proof {
        lemma_append_opt(
            char_views(lines@),
            prefixed(
                prefix@,
                match value {
                    Some(v) => Some(v@),
                    None => None,
                },
            ),
        );
    }
    match value {
        Some(v) => push_prefixed(lines, prefix, v),
        None => {},
    }
}

fn push_opt_entry(lines: &mut Vec<Vec<char>>, label: &str, value: &Option<String>)
    ensures
        char_views(final(lines)@) == char_views(old(lines)@) + opt_seq(
            opt_entry(label@, opt_view(*value)),
        ),
{
    match value {
        Some(v) => push_multiline_profile_entry(lines, label, v.as_str()),
        None => {
            assert(char_views(lines@) + Seq::<Seq<char>>::empty() =~= char_views(lines@));
        },
    }
}

/// The profile section of the system prompt, or `None` for an empty profile.
pub fn build_profile_prompt(profile: &UserProfile) -> (r: Option<String>)
    ensures
        opt_view(r) == profile_prompt(profile@),
{
    if profile.is_empty() {
        return None;
    }
    let ghost p = profile@;
    let mut lines: Vec<Vec<char>> = Vec::new();
    push_opt_prefixed(&mut lines, "- Name: ", &profile.name);
    push_opt_prefixed(&mut lines, "- Preferred language: ", &profile.language);
    push_opt_entry(&mut lines, "Occupation", &profile.occupation);
    push_opt_entry(&mut lines, "Response style", &profile.response_style);
    push_opt_entry(&mut lines, "More about you", &profile.more_about_you);
    push_opt_static(&mut lines, "- Header & lists: ", header_lists_instruction(profile.header_lists));
    push_opt_static(&mut lines, "- Emoji: ", emoji_instruction(profile.emoji));
    assert(Seq::<Seq<char>>::empty() + opt_seq(prefixed("- Name: "@, p.name)) =~= opt_seq(
        prefixed("- Name: "@, p.name),
    ));
    assert(char_views(lines@) == profile_lines(p));
    let mut out: Vec<char> = Vec::new();
    push_str(&mut out, "User profile:\n");
    let joined = join_chars(&lines, "\n");
    push_chars(&mut out, joined.as_slice());
    Some(string_from_chars(out.as_slice()))
}

/// The memory section of the system prompt, or `None` when every item is blank.
pub fn build_memory_prompt(memory: &[String]) -> (r: Option<String>)
    ensures
        opt_view(r) == memory_prompt(string_views(memory@)),
{
    let mut items: Vec<Vec<char>> = Vec::new();
    let ghost m = string_views(memory@);
    let mut i: usize = 0;
    while i < memory.len()
        invariant
            i <= memory@.len(),
            m == string_views(memory@),
            char_views(items@) == memory_lines(m.take(i as int)),
        decreases memory@.len() - i,
    {
        proof {
            let t = m.take(i + 1);
            assert(t.drop_last() =~= m.take(i as int));
            assert(t.last() == memory@[i as int]@);
        }
        let v = chars_of(memory[i].as_str());
        let t = trim_chars(v.as_slice());
        let ghost tr = trimmed_items(m.take(i as int));
        if t.len() > 0 {
            let mut line: Vec<char> = Vec::new();
            push_str(&mut line, "- ");
            push_chars(&mut line, t.as_slice());
            items.push(line);
            assert(trimmed_items(m.take(i + 1)) == tr.push(t@));
            assert(tr.push(t@).map_values(|x: Seq<char>| "- "@ + x) =~= tr.map_values(
                |x: Seq<char>| "- "@ + x,
            ).push("- "@ + t@));
        }
        assert(char_views(items@) =~= memory_lines(m.take(i + 1)));
        i = i + 1;
    }
    assert(m.take(memory@.len() as int) =~= m);
    if items.len() == 0 {
        return None;
    }
    let mut out: Vec<char> = Vec::new();
    push_str(&mut out, "Known user memory:\n");
    let joined = join_chars(&items, "\n");
    push_chars(&mut out, joined.as_slice());
    Some(string_from_chars(out.as_slice()))
}

/// The system prompt: trimmed base prompt, profile section and memory section,
/// the non-empty ones joined by a blank line; `None` when all are empty.
pub fn build_system_prompt(base_prompt: &str, profile: &UserProfile, memory: &[String]) -> (r:
    Option<String>)
    ensures
        opt_view(r) == system_prompt(base_prompt@, profile@, string_views(memory@)),
{
    let mut sections: Vec<Vec<char>> = Vec::new();
    let v = chars_of(base_prompt);
    let t = trim_chars(v.as_slice());
    if t.len() > 0 {
        sections.push(t);
    }
    let ghost s1 = char_views(sections@);
    assert(s1 =~= (if is_blank(base_prompt@) {
        Seq::empty()
    } else {
        seq![trim(base_prompt@)]
    }));
    match build_profile_prompt(profile) {
        Some(p) => sections.push(chars_of(p.as_str())),
        None => {},
    }
    let ghost s2 = char_views(sections@);
    assert(s2 =~= s1 + opt_seq(profile_prompt(profile@)));
    match build_memory_prompt(memory) {
        Some(m) => sections.push(chars_of(m.as_str())),
        None => {},
    }
    assert(char_views(sections@) =~= prompt_sections(
        base_prompt@,
        profile@,
        string_views(memory@),
    ));
    if sections.len() == 0 {
        None
    } else {
        let joined = join_chars(&sections, "\n\n");
        Some(string_from_chars(joined.as_slice()))
    }
}

/// The context for a request: the system prompt built from the prompt layers,
/// and the history without its blank messages.
pub fn build_context(
    base_prompt: &str,
    profile: &UserProfile,
    memory: &[String],
    history: &[ChatMessage],
) -> (r: BuiltContext)
    ensures
        opt_view(r.system_prompt) == system_prompt(base_prompt@, profile@, string_views(memory@)),
        context_view(r.history@) == kept_history(history@),
{
    let system_prompt = build_system_prompt(base_prompt, profile, memory);
    let mut kept: Vec<ContextMessage> = Vec::new();
    let mut i: usize = 0;
    while i < history.len()
        invariant
            i <= history@.len(),
            context_view(kept@) == kept_history(history@.take(i as int)),
        decreases history@.len() - i,
    {
        proof {
            let t = history@.take(i + 1);
            assert(t.drop_last() =~= history@.take(i as int));
            assert(t.last() == history@[i as int]);
        }
        let v = chars_of(history[i].content.as_str());
        if !chars_blank(v.as_slice()) {
            kept.push(ContextMessage { role: history[i].role, content: history[i].content.clone() });
        }
        assert(context_view(kept@) =~= kept_history(history@.take(i + 1)));
        i = i + 1;
    }
    assert(history@.take(history@.len() as int) =~= history@);
    BuiltContext { system_prompt, history: kept }
}

pub open spec fn lower_label(p: PreferenceLevel) -> Seq<char> {
    ascii_lowercase(preference_label(p))
}

/// The entries of the profile object in the code preview.
pub open spec fn profile_json_entries(p: UserProfileView) -> Seq<(Seq<char>, Option<Seq<char>>)> {
    seq![
        ("name"@, p.name),
        ("preferred_language"@, p.language),
        ("occupation"@, p.occupation),
        ("response_style"@, p.response_style),
        ("more_about_you"@, p.more_about_you),
        ("header_lists"@, Some(lower_label(p.header_lists))),
        ("emoji"@, Some(lower_label(p.emoji))),
    ]
}

pub open spec fn or_default(o: Option<Seq<char>>, d: Seq<char>) -> Seq<char> {
    match o {
        Some(v) => v,
        None => d,
    }
}

pub open spec fn code_preview_tail() -> Seq<char> {
    "\n\n# Builder\nfinal_system_prompt = join_non_empty([\n  base_system_prompt,\n  build_profile_prompt(profile),\n  build_memory_prompt(memory),\n], \"\\n\\n\")\n\n# Request-time context\nchat_history = context_tail(history)\n"@
}

/// The "code" view of the prompt: the base prompt, profile and memory as
/// variables, followed by how the final prompt is put together.
pub open spec fn code_preview(base: Seq<char>, p: UserProfileView, m: Seq<Seq<char>>) -> Seq<char> {
    "# Variables\nbase_system_prompt = "@ + debug_quoted(base) + "\n\nprofile = "@ + or_default(
        json_pretty_object(profile_json_entries(p)),
        "{}"@,
    ) + "\n\nmemory = "@ + or_default(json_pretty_string_array(m), "[]"@) + code_preview_tail()
}

fn lowercase_label(p: PreferenceLevel) -> (r: String)
    ensures
        r@ == lower_label(p),
{
    let v = chars_of(p.label());
    let l = ascii_lowercase_chars(v.as_slice());
    string_from_chars(l.as_slice())
}

fn build_code_preview(base_prompt: &str, profile: &UserProfile, memory: &[String]) -> (r: String)
    ensures
        r@ == code_preview(base_prompt@, profile@, string_views(memory@)),
{
    let mut entries: Vec<(String, Option<String>)> = Vec::new();
    entries.push(("name".to_string(), optional_json_value(&profile.name)));
    entries.push(("preferred_language".to_string(), optional_json_value(&profile.language)));
    entries.push(("occupation".to_string(), optional_json_value(&profile.occupation)));
    entries.push(("response_style".to_string(), optional_json_value(&profile.response_style)));
    entries.push(("more_about_you".to_string(), optional_json_value(&profile.more_about_you)));
    entries.push(("header_lists".to_string(), Some(lowercase_label(profile.header_lists))));
    entries.push(("emoji".to_string(), Some(lowercase_label(profile.emoji))));
    assert(crate::json::entry_views(entries@) =~= profile_json_entries(profile@));
    let mut out: Vec<char> = Vec::new();
    push_str(&mut out, "# Variables\nbase_system_prompt = ");
    let quoted = debug_string(base_prompt);
    push_str(&mut out, quoted.as_str());
    push_str(&mut out, "\n\nprofile = ");
    match pretty_json_object(&entries) {
        Some(j) => push_str(&mut out, j.as_str()),
        None => push_str(&mut out, "{}"),
    }
    push_str(&mut out, "\n\nmemory = ");
    match pretty_json_strings(memory) {
        Some(j) => push_str(&mut out, j.as_str()),
        None => push_str(&mut out, "[]"),
    }
    push_str(
        &mut out,
        "\n\n# Builder\nfinal_system_prompt = join_non_empty([\n  base_system_prompt,\n  build_profile_prompt(profile),\n  build_memory_prompt(memory),\n], \"\\n\\n\")\n\n# Request-time context\nchat_history = context_tail(history)\n",
    );
    string_from_chars(out.as_slice())
}

fn optional_json_value(value: &Option<String>) -> (r: Option<String>)
    ensures
        r == *value,
{
    match value {
        Some(v) => Some(v.clone()),
        None => None,
    }
}

pub open spec fn empty_prompt_text() -> Seq<char> {
    "(The system prompt is empty.)"@
}

/// The prompt in both preview modes: the code view, and the final text
/// (a placeholder when the prompt is empty).
pub fn build_prompt_preview(base_prompt: &str, profile: &UserProfile, memory: &[String]) -> (r:
    PromptPreview)
    ensures
        r.text@ == or_default(
            system_prompt(base_prompt@, profile@, string_views(memory@)),
            empty_prompt_text(),
        ),
        r.code@ == code_preview(base_prompt@, profile@, string_views(memory@)),
{
    let text = match build_system_prompt(base_prompt, profile, memory) {
        Some(t) => t,
        None => "(The system prompt is empty.)".to_string(),
    };
    let code = build_code_preview(base_prompt, profile, memory);
    PromptPreview { code, text }
}

/// There is no system prompt exactly when there is nothing to put in it: the
/// base prompt is blank, the profile is empty, and no memory item is left
/// once blank items are dropped.
pub proof fn law_system_prompt_presence(base: Seq<char>, p: UserProfileView, m: Seq<Seq<char>>)
    ensures
        system_prompt(base, p, m) is None <==> (is_blank(base) && profile_is_empty(p)
            && trimmed_items(m).len() == 0),
{
    assert(memory_lines(m).len() == trimmed_items(m).len());
}

} // verus!
