//! Operations on text that the adapters need.
//!
//! Text is looked at character by character: an offset below counts
//! characters, not bytes.

use vstd::prelude::*;
use vstd::string::*;

verus! {

/// Whether `text` holds `pat` at the offset `at`.
pub open spec fn holds_at(text: Seq<char>, at: int, pat: Seq<char>) -> bool {
    0 <= at && at + pat.len() <= text.len() && text.subrange(at, at + pat.len()) == pat
}

/// Whether `text` begins with `pat`.
pub open spec fn has_prefix(text: Seq<char>, pat: Seq<char>) -> bool {
    holds_at(text, 0, pat)
}

/// Whether `text` ends with `pat`.
pub open spec fn has_suffix(text: Seq<char>, pat: Seq<char>) -> bool {
    holds_at(text, text.len() - pat.len(), pat)
}

/// `text` without every `pat` that it begins with, one after the other.
pub open spec fn trimmed_start(text: Seq<char>, pat: Seq<char>) -> Seq<char>
    decreases text.len(),
{
    if pat.len() > 0 && has_prefix(text, pat) {
        trimmed_start(text.skip(pat.len() as int), pat)
    } else {
        text
    }
}

/// `text` without every `pat` that it ends with, one after the other.
pub open spec fn trimmed_end(text: Seq<char>, pat: Seq<char>) -> Seq<char>
    decreases text.len(),
{
    if pat.len() > 0 && has_suffix(text, pat) {
        trimmed_end(text.take(text.len() - pat.len()), pat)
    } else {
        text
    }
}

/// `text` with every `from` replaced by `to`.
pub open spec fn replaced(text: Seq<char>, from: char, to: Seq<char>) -> Seq<char>
    decreases text.len(),
{
    if text.len() == 0 {
        Seq::empty()
    } else {
        (if text[0] == from {
            to
        } else {
            seq![text[0]]
        }) + replaced(text.drop_first(), from, to)
    }
}

/// Whether `text` holds `pat` at the offset `at`.
pub fn matches_at(text: &str, at: usize, pat: &str) -> (r: bool)
    ensures
        r == holds_at(text@, at as int, pat@),
{
    let text_len = text.unicode_len();
    let pat_len = pat.unicode_len();
    if at > text_len || pat_len > text_len - at {
        return false;
    }
    let mut k: usize = 0;
    while k < pat_len
        invariant
            k <= pat_len,
            pat_len == pat@.len(),
            text_len == text@.len(),
            at + pat_len <= text_len,
            forall|j: int| 0 <= j < k ==> text@[at + j] == pat@[j],
        decreases pat_len - k,
    {
        if text.get_char(at + k) != pat.get_char(k) {
            assert(text@.subrange(at as int, at + pat@.len())[k as int] == text@[at + k]);
            return false;
        }
        k = k + 1;
    }
    assert(text@.subrange(at as int, at + pat@.len()) =~= pat@);
    true
}

/// Whether `text` begins with `pat`.
pub fn starts_with(text: &str, pat: &str) -> (r: bool)
    ensures
        r == has_prefix(text@, pat@),
{
    matches_at(text, 0, pat)
}

/// Whether `text` ends with `pat`.
pub fn ends_with(text: &str, pat: &str) -> (r: bool)
    ensures
        r == has_suffix(text@, pat@),
{
    let text_len = text.unicode_len();
    let pat_len = pat.unicode_len();
    if pat_len > text_len {
        return false;
    }
    matches_at(text, text_len - pat_len, pat)
}

/// `text` without every `pat` that it begins with. An empty `pat` takes
/// nothing away.
pub fn trim_start_matches<'a>(text: &'a str, pat: &str) -> (out: &'a str)
    ensures
        out@ == trimmed_start(text@, pat@),
{
    let text_len = text.unicode_len();
    let pat_len = pat.unicode_len();
    if pat_len == 0 {
        return text;
    }
    let mut at: usize = 0;
    assert(text@.skip(0) =~= text@);
    while matches_at(text, at, pat)
        invariant
            at <= text_len,
            text_len == text@.len(),
            pat_len == pat@.len(),
            pat_len > 0,
            trimmed_start(text@, pat@) == trimmed_start(text@.skip(at as int), pat@),
        decreases text_len - at,
    {
        proof {
            let rest = text@.skip(at as int);
            assert(rest.subrange(0, pat@.len() as int) =~= text@.subrange(
                at as int,
                at + pat@.len(),
            ));
            assert(rest.skip(pat@.len() as int) =~= text@.skip(at + pat_len));
        }
        at = at + pat_len;
    }
    proof {
        let rest = text@.skip(at as int);
        if at + pat@.len() <= text@.len() {
            assert(rest.subrange(0, pat@.len() as int) =~= text@.subrange(
                at as int,
                at + pat@.len(),
            ));
        }
        assert(text@.skip(at as int) =~= text@.subrange(at as int, text_len as int));
    }
    text.substring_char(at, text_len)
}

/// `text` without every `pat` that it ends with. An empty `pat` takes
/// nothing away.
pub fn trim_end_matches<'a>(text: &'a str, pat: &str) -> (out: &'a str)
    ensures
        out@ == trimmed_end(text@, pat@),
{
    let text_len = text.unicode_len();
    let pat_len = pat.unicode_len();
    if pat_len == 0 {
        return text;
    }
    let mut end: usize = text_len;
    assert(text@.take(text_len as int) =~= text@);
    while end >= pat_len && matches_at(text, end - pat_len, pat)
        invariant
            end <= text_len,
            text_len == text@.len(),
            pat_len == pat@.len(),
            pat_len > 0,
            trimmed_end(text@, pat@) == trimmed_end(text@.take(end as int), pat@),
        decreases end,
    {
        proof {
            let head = text@.take(end as int);
            assert(head.subrange(head.len() - pat@.len(), head.len() as int) =~= text@.subrange(
                end - pat_len,
                end as int,
            ));
            assert(head.take(head.len() - pat@.len()) =~= text@.take(end - pat_len));
        }
        end = end - pat_len;
    }
    proof {
        let head = text@.take(end as int);
        if end >= pat_len {
            assert(head.subrange(head.len() - pat@.len(), head.len() as int) =~= text@.subrange(
                end - pat_len,
                end as int,
            ));
        }
        assert(text@.take(end as int) =~= text@.subrange(0, end as int));
    }
    text.substring_char(0, end)
}

/// `str::replace` with a character as its pattern gives a new string in which
/// every occurrence of `from` is replaced by `to`, and nothing else differs.
#[verifier::external_body]
pub(crate) fn replace_char(text: &str, from: char, to: &str) -> (out: String)
    ensures
        out@ == replaced(text@, from, to@),
{
    text.replace(from, to)
}

} // verus!
