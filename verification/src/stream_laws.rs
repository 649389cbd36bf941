//! How a streamed reply is cut into chunks does not change what is decoded
//! from it.

use crate::provider::{event_boundary, find_first, find_from, occurs_at, process_buffer};
use vstd::prelude::*;

verus! {

/// `find_from` finds the first occurrence at or after `i`.
proof fn lemma_find_from_first(s: Seq<char>, pat: Seq<char>, i: int)
    requires
        0 <= i,
    ensures
        match find_from(s, pat, i) {
            Some(k) => i <= k && occurs_at(s, pat, k) && forall|j: int|
                i <= j < k ==> !occurs_at(s, pat, j),
            None => forall|j: int| i <= j ==> !occurs_at(s, pat, j),
        },
    decreases s.len() + 1 - i,
{
    if i + pat.len() > s.len() {
        assert forall|j: int| i <= j implies !occurs_at(s, pat, j) by {}
    } else if !occurs_at(s, pat, i) {
        lemma_find_from_first(s, pat, i + 1);
    }
}

/// The first occurrence at or after `i`, when it is known, is what `find_from` finds.
proof fn lemma_find_from_is(s: Seq<char>, pat: Seq<char>, i: int, k: int)
    requires
        0 <= i <= k,
        occurs_at(s, pat, k),
        forall|j: int| i <= j < k ==> !occurs_at(s, pat, j),
    ensures
        find_from(s, pat, i) == Some(k),
    decreases k - i,
{
    if i < k {
        lemma_find_from_is(s, pat, i + 1, k);
    }
}

/// An occurrence inside `a` is one inside `a + b`, and one inside `a + b` that
/// ends within `a` is one inside `a`.
proof fn lemma_occurs_in_prefix(a: Seq<char>, b: Seq<char>, pat: Seq<char>, j: int)
    ensures
        occurs_at(a, pat, j) ==> occurs_at(a + b, pat, j),
        j + pat.len() <= a.len() && occurs_at(a + b, pat, j) ==> occurs_at(a, pat, j),
{
    if 0 <= j && j + pat.len() <= a.len() {
        assert((a + b).subrange(j, j + pat.len()) =~= a.subrange(j, j + pat.len()));
    }
}

/// What `find_first` gives on `a + b`: the same position when `a` has an
/// occurrence, otherwise nothing or an occurrence reaching into `b`.
proof fn lemma_find_first_append(a: Seq<char>, b: Seq<char>, pat: Seq<char>)
    ensures
        find_first(a, pat) matches Some(k) ==> find_first(a + b, pat) == Some(k),
        find_first(a, pat) is None ==> match find_first(a + b, pat) {
            Some(j) => j + pat.len() > a.len() && occurs_at(a + b, pat, j),
            None => true,
        },
{
    lemma_find_from_first(a, pat, 0);
    lemma_find_from_first(a + b, pat, 0);
    match find_first(a, pat) {
        Some(k) => {
            lemma_occurs_in_prefix(a, b, pat, k);
            assert forall|j: int| 0 <= j < k implies !occurs_at(a + b, pat, j) by {
                lemma_occurs_in_prefix(a, b, pat, j);
                assert(j + pat.len() <= a.len());
            }
            lemma_find_from_is(a + b, pat, 0, k);
        },
        None => {
            match find_first(a + b, pat) {
                Some(j) => {
                    lemma_occurs_in_prefix(a, b, pat, j);
                },
                None => {},
            }
        },
    }
}

/// The first event boundary of a buffer stays the first one when more text
/// is appended: no blank line can start before it and end after it.
pub proof fn lemma_event_boundary_append(a: Seq<char>, b: Seq<char>)
    ensures
        event_boundary(a) matches Some(x) ==> event_boundary(a + b) == Some(x),
{
    reveal_strlit("\n\n");
    reveal_strlit("\r\n\r\n");
    let lf = "\n\n"@;
    let crlf = "\r\n\r\n"@;
    lemma_find_first_append(a, b, lf);
    lemma_find_first_append(a, b, crlf);
    lemma_find_from_first(a, lf, 0);
    lemma_find_from_first(a, crlf, 0);
    let ab = a + b;
    match (find_first(a, lf), find_first(a, crlf)) {
        (Some(k), None) => {
            match find_first(ab, crlf) {
                Some(j) => {
                    if j < k {
                        assert(ab.subrange(j, j + 4) == crlf);
                        assert(ab[j + 2] == crlf[2]);
                        assert(a.subrange(k, k + 2) == lf);
                        assert(a[k] == lf[0]);
                        assert(a[k + 1] == lf[1]);
                        assert(ab[k] == a[k]);
                        assert(ab[k + 1] == a[k + 1]);
                        if j + 2 == k {
                            assert(ab[k] == crlf[2]);
                        } else if j + 3 == k {
                            assert(ab[k] == crlf[3]);
                            assert(ab[k + 1] == a[k + 1]);
                        } else {
                            assert(j + 1 == k || j + 4 <= k);
                            if j + 1 == k {
                                assert(ab[j + 1] == crlf[1]);
                                assert(ab[k + 1] == crlf[2]);
                            }
                        }
                    }
                },
                None => {},
            }
        },
        (None, Some(k)) => {
            match find_first(ab, lf) {
                Some(j) => {
                    assert(j + 2 > a.len());
                    assert(k + 4 <= a.len());
                },
                None => {},
            }
        },
        _ => {},
    }
}

/// Decoding a buffer and then decoding what is left with more text appended
/// gives what decoding all of it at once gives, as long as the first part
/// neither finished the stream nor failed: how the reply is cut into chunks
/// does not change the texts emitted, the outcome, or what is left over.
pub proof fn law_stream_chunking(a: Seq<char>, b: Seq<char>, has_text: bool)
    requires
        process_buffer(a, has_text).result == Ok::<bool, Seq<char>>(false),
    ensures
        ({
            let first = process_buffer(a, has_text);
            let second = process_buffer(first.rest + b, first.has_text);
            let whole = process_buffer(a + b, has_text);
            &&& whole.result == second.result
            &&& whole.rest == second.rest
            &&& whole.has_text == second.has_text
            &&& whole.deltas == first.deltas + second.deltas
        }),
    decreases a.len(),
{
    lemma_event_boundary_append(a, b);
    crate::provider::lemma_event_boundary_bounds(a);
    let first = process_buffer(a, has_text);
    match event_boundary(a) {
        None => {
            assert(first.deltas =~= Seq::<Seq<char>>::empty());
            assert(first.rest == a);
            let second = process_buffer(first.rest + b, first.has_text);
            assert(first.deltas + second.deltas =~= second.deltas);
        },
        Some(x) => {
            let ab = a + b;
            let e = x.0;
            let d = x.1;
            assert(ab.take(e) =~= a.take(e));
            assert(ab.skip(e + d) =~= a.skip(e + d) + b);
            let rest = a.skip(e + d);
            match crate::provider::sse_event_result(a.take(e), !has_text) {
                Err(_) => {},
                Ok(o) => {
                    let has2 = has_text || o.1.len() > 0;
                    if !o.0 {
                        law_stream_chunking(rest, b, has2);
                        let inner = process_buffer(rest, has2);
                        let second = process_buffer(inner.rest + b, inner.has_text);
                        assert(o.1 + (inner.deltas + second.deltas) =~= (o.1 + inner.deltas)
                            + second.deltas);
                    }
                },
            }
        },
    }
}

/// Every complete event of `buf` decoded in turn with the message fallback
/// off (only `choices[0].delta.content` counts as text), until none is left,
/// one finishes the stream, or one fails: the outcome, the texts, and what is
/// left of the buffer.
pub open spec fn decode_without_fallback(buf: Seq<char>) -> (
    Result<bool, Seq<char>>,
    Seq<Seq<char>>,
    Seq<char>,
)
    decreases buf.len(),
{
    match event_boundary(buf) {
        Some(b) => if 0 <= b.0 && b.0 + b.1 <= buf.len() && b.1 > 0 {
            let rest = buf.skip(b.0 + b.1);
            match crate::provider::sse_event_result(buf.take(b.0), false) {
                Err(e) => (Err(e), Seq::empty(), rest),
                Ok(o) => if o.0 {
                    (Ok(true), o.1, rest)
                } else {
                    let r = decode_without_fallback(rest);
                    (r.0, o.1 + r.1, r.2)
                },
            }
        } else {
            (Ok(false), Seq::empty(), buf)
        },
        None => (Ok(false), Seq::empty(), buf),
    }
}

/// Once assistant text has been seen in a stream, a later event's
/// `choices[0].message.content` (the whole reply that some providers repeat
/// in a closing event) is never emitted again: decoding with text seen is
/// decoding every event with the message fallback off, and text stays seen.
pub proof fn law_no_message_fallback_after_text(buf: Seq<char>)
    ensures
        ({
            let step = process_buffer(buf, true);
            let d = decode_without_fallback(buf);
            &&& step.result == d.0
            &&& step.deltas == d.1
            &&& step.rest == d.2
            &&& step.has_text
        }),
    decreases buf.len(),
{
    match event_boundary(buf) {
        Some(b) => {
            if 0 <= b.0 && b.0 + b.1 <= buf.len() && b.1 > 0 {
                law_no_message_fallback_after_text(buf.skip(b.0 + b.1));
            }
        },
        None => {},
    }
}

/// The message fallback is on only until the first text: when the first
/// complete event of a stream that has shown no text yet emits text and does
/// not end the stream, its texts come first and every later event is decoded
/// with the message fallback off.
pub proof fn law_message_fallback_ends_with_first_text(buf: Seq<char>, e: int, n: int)
    requires
        event_boundary(buf) == Some((e, n)),
        0 <= e,
        e + n <= buf.len(),
        n > 0,
        crate::provider::sse_event_result(buf.take(e), true) matches Ok(o) && !o.0 && o.1.len()
            > 0,
    ensures
        ({
            let o = crate::provider::sse_event_result(buf.take(e), true)->Ok_0;
            let step = process_buffer(buf, false);
            let d = decode_without_fallback(buf.skip(e + n));
            &&& step.result == d.0
            &&& step.deltas == o.1 + d.1
            &&& step.rest == d.2
            &&& step.has_text
        }),
{
    law_no_message_fallback_after_text(buf.skip(e + n));
}

/// At the end of a stream that has shown text, a leftover last event is also
/// decoded with the message fallback off, and the stream ends well unless
/// that event reports an error.
pub proof fn law_no_message_fallback_at_end(buf: Seq<char>)
    ensures
        ({
            let r = crate::provider::end_of_stream(buf, true);
            if crate::text::is_blank(buf) {
                r.0 is Ok && r.1.len() == 0
            } else {
                match crate::provider::sse_event_result(buf, false) {
                    Err(e) => r.0 == Err::<(), Seq<char>>(e) && r.1.len() == 0,
                    Ok(o) => r.0 is Ok && r.1 == o.1,
                }
            }
        }),
{
}

} // verus!
