//! Short one-line texts shown in the panel: previews of long settings values
//! and the titles of new chats.

use crate::chat::{truncate_model_label, truncated};
use crate::text::{
    chars_of, lemma_split_lines_nonempty, push_str, slice_chars, split_lines, split_lines_chars,
    string_from_chars, trim, trim_chars, trim_string,
};
use vstd::prelude::*;

verus! {

/// The one-line preview of a settings value: "Not set" when it is blank;
/// otherwise its first line, trimmed and cut to 72 characters, followed by
/// "..." when that line was longer or more lines follow.
pub open spec fn compact_preview(v: Seq<char>) -> Seq<char> {
    let t = trim(v);
    if t.len() == 0 {
        "Not set"@
    } else {
        let lines = split_lines(t);
        let line = trim(lines[0]);
        let cut = if line.len() > 72 {
            line.take(72)
        } else {
            line
        };
        if line.len() > 72 || lines.len() > 1 {
            cut + "..."@
        } else {
            cut
        }
    }
}

/// The preview of a settings value (see `compact_preview`).
pub fn compact_text_preview(value: &str) -> (r: String)
    ensures
        r@ == compact_preview(value@),
{
    let chars = chars_of(value);
    let t = trim_chars(chars.as_slice());
    if t.len() == 0 {
        return "Not set".to_string();
    }
    let lines = split_lines_chars(t.as_slice());
    proof {
        lemma_split_lines_nonempty(t@);
        assert(lines@[0]@ == split_lines(t@)[0]);
    }
    let line = trim_chars(lines[0].as_slice());
    let cut_len = if line.len() > 72 {
        72
    } else {
        line.len()
    };
    let mut out = slice_chars(line.as_slice(), 0, cut_len);
    if line.len() <= 72 {
        assert(out@ =~= line@);
    }
    if line.len() > 72 || lines.len() > 1 {
        push_str(&mut out, "...");
    }
    string_from_chars(out.as_slice())
}

/// The title given to a chat from its first prompt: the prompt trimmed and
/// cut to 36 characters ("..." appended when longer), or "New chat" when the
/// prompt is blank.
pub open spec fn chat_title(prompt: Seq<char>) -> Seq<char> {
    let t = trim(prompt);
    if t.len() == 0 {
        "New chat"@
    } else {
        truncated(t, 36)
    }
}

/// The title for a chat whose first prompt is `prompt` (see `chat_title`).
pub fn summarize_title(prompt: &str) -> (r: String)
    ensures
        r@ == chat_title(prompt@),
{
    let trimmed = trim_string(prompt);
    let v = chars_of(trimmed.as_str());
    if v.len() == 0 {
        return "New chat".to_string();
    }
    truncate_model_label(trimmed.as_str(), 36)
}

} // verus!
