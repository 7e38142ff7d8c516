//! Cutting an outgoing chat line into fragments that the game accepts.
//!
//! A line is `name: text`. The game takes at most 254 bytes per chat message,
//! so a longer line is sent as several fragments. Cuts are made on byte
//! offsets: 254 bytes at a time, stepping back by at most three bytes where
//! offset 254 would fall inside a multi-byte character, so that every
//! fragment is text again and nothing of the line is lost.

use vstd::prelude::*;
use vstd::string::*;
use vstd::utf8::*;

verus! {

/// The most bytes one fragment may hold.
pub const FRAGMENT_LIMIT: usize = 254;

/// What stands between the sender's name and the text.
pub open spec fn separator() -> Seq<char> {
    seq![':', ' ']
}

/// The line that is sent for `msg` said by `name`.
pub open spec fn message_text(name: Seq<char>, msg: Seq<char>) -> Seq<char> {
    name + separator() + msg
}

/// The greatest character boundary of `bytes` that is not above `at`.
pub open spec fn floor_boundary(bytes: Seq<u8>, at: int) -> int
    decreases at,
{
    if at <= 0 {
        0
    } else if is_char_boundary(bytes, at) {
        at
    } else {
        floor_boundary(bytes, at - 1)
    }
}

/// The fragments of a line, given as its UTF-8 bytes.
///
/// A line under 255 bytes is its own single fragment. A longer one loses its
/// first fragment, which ends at the last character boundary within the limit,
/// and the rest is cut in the same way. On text the cut lies between 251 and
/// 254 (`lemma_cut_is_near`); the guard only makes the definition total on
/// bytes that are no text.
pub open spec fn fragments(bytes: Seq<u8>) -> Seq<Seq<u8>>
    decreases bytes.len(),
{
    let cut = floor_boundary(bytes, FRAGMENT_LIMIT as int);
    if bytes.len() <= FRAGMENT_LIMIT || !(0 < cut <= FRAGMENT_LIMIT) {
        seq![bytes]
    } else {
        seq![bytes.subrange(0, cut)] + fragments(bytes.subrange(cut, bytes.len() as int))
    }
}

/// The fragments of a line cut at every 254th byte, whatever stands there.
pub open spec fn raw_fragments(bytes: Seq<u8>) -> Seq<Seq<u8>>
    decreases bytes.len(),
{
    if bytes.len() <= FRAGMENT_LIMIT {
        seq![bytes]
    } else {
        seq![bytes.subrange(0, FRAGMENT_LIMIT as int)] + raw_fragments(
            bytes.subrange(FRAGMENT_LIMIT as int, bytes.len() as int),
        )
    }
}

/// The UTF-8 bytes of each string of a list.
pub open spec fn fragment_bytes(frags: Seq<String>) -> Seq<Seq<u8>> {
    frags.map_values(|s: String| encode_utf8(s@))
}

/// The characters of each string of a list.
pub open spec fn fragment_texts(frags: Seq<String>) -> Seq<Seq<char>> {
    frags.map_values(|s: String| s@)
}

/// `floor_boundary` gives a boundary, and one that is not above `at`.
pub proof fn lemma_floor_boundary(bytes: Seq<u8>, at: int)
    requires
        valid_utf8(bytes),
        0 <= at <= bytes.len(),
    ensures
        0 <= floor_boundary(bytes, at) <= at,
        is_char_boundary(bytes, floor_boundary(bytes, at)),
    decreases at,
{
    if at > 0 && !is_char_boundary(bytes, at) {
        lemma_floor_boundary(bytes, at - 1);
    }
}

/// No boundary between `floor_boundary(bytes, at)` and `at` was passed over.
pub proof fn lemma_floor_boundary_is_greatest(bytes: Seq<u8>, at: int, j: int)
    requires
        0 <= j <= at,
        is_char_boundary(bytes, j),
    ensures
        j <= floor_boundary(bytes, at),
    decreases at,
{
    if at > 0 && !is_char_boundary(bytes, at) {
        lemma_floor_boundary_is_greatest(bytes, at - 1, j);
    }
}

/// In text a character takes at most four bytes, so a boundary lies within
/// three bytes below any offset.
proof fn lemma_boundary_within_three(bytes: Seq<u8>, at: int) -> (j: int)
    requires
        valid_utf8(bytes),
        0 <= at <= bytes.len(),
    ensures
        0 <= j <= at,
        at - 3 <= j,
        is_char_boundary(bytes, j),
    decreases bytes.len(),
{
    if at == 0 {
        0
    } else {
        let first = length_of_first_scalar(bytes);
        if at < first {
            0
        } else {
            let rest = pop_first_scalar(bytes);
            let k = lemma_boundary_within_three(rest, at - first);
            k + first
        }
    }
}

/// On text the cut for a fragment is at most three bytes short of the limit.
pub proof fn lemma_cut_is_near(bytes: Seq<u8>, at: int)
    requires
        valid_utf8(bytes),
        0 <= at <= bytes.len(),
    ensures
        at - 3 <= floor_boundary(bytes, at) <= at,
        0 <= floor_boundary(bytes, at),
        is_char_boundary(bytes, floor_boundary(bytes, at)),
{
    let j = lemma_boundary_within_three(bytes, at);
    lemma_floor_boundary_is_greatest(bytes, at, j);
    lemma_floor_boundary(bytes, at);
}

/// The number of bytes that `s` takes as UTF-8.
pub fn byte_len(s: &str) -> (n: usize)
    ensures
        n == s.spec_bytes().len(),
{
    s.as_bytes().len()
}

/// The greatest character boundary of `s` that is not above `at`.
fn floor_char_boundary(s: &str, at: usize) -> (cut: usize)
    requires
        at <= s.spec_bytes().len(),
    ensures
        cut == floor_boundary(s.spec_bytes(), at as int),
        is_char_boundary(s.spec_bytes(), cut as int),
        cut <= at,
        at - 3 <= cut,
{
    broadcast use encode_utf8_valid_utf8;

    let mut cut: usize = at;
    while cut > 0 && !s.is_char_boundary(cut)
        invariant
            cut <= at,
            floor_boundary(s.spec_bytes(), cut as int) == floor_boundary(
                s.spec_bytes(),
                at as int,
            ),
        decreases cut,
    {
        cut = cut - 1;
    }
    proof {
        lemma_cut_is_near(s.spec_bytes(), at as int);
    }
    cut
}

/// Cuts the line `name: msg` into the fragments that are sent to the game.
///
/// The result is never empty, no fragment is longer than 254 bytes, and the
/// fragments joined in order are the whole line. A line of at most 254 bytes
/// comes back as one fragment. Where no multi-byte character lies across an
/// offset that is a multiple of 254, every fragment but the last holds
/// exactly 254 bytes (`lemma_aligned_fragments_are_raw`); elsewhere a
/// fragment ends up to three bytes earlier, before the character that would
/// be cut in two.
pub fn format_message(name: String, msg: String) -> (out: Vec<String>)
    ensures
        fragment_bytes(out@) == fragments(encode_utf8(message_text(name@, msg@))),
        out@.len() >= 1,
        forall|i: int| 0 <= i < out@.len() ==> encode_utf8(#[trigger] out@[i]@).len() <= FRAGMENT_LIMIT,
        fragment_bytes(out@).flatten() == encode_utf8(message_text(name@, msg@)),
        fragment_texts(out@).flatten() == message_text(name@, msg@),
{
    broadcast use encode_utf8_valid_utf8;

    let mut message = name;
    message.append(": ");
    message.append(msg.as_str());
    proof {
        reveal_strlit(": ");
        assert(": "@ =~= separator());
        assert(message@ =~= message_text(name@, msg@));
    }
    let ghost line = encode_utf8(message@);
    let mut rest: &str = message.as_str();
    let mut result: Vec<String> = Vec::new();
    assert(fragment_bytes(result@) + fragments(rest.spec_bytes()) =~= fragments(line));
    while byte_len(rest) > FRAGMENT_LIMIT
        invariant
            fragment_bytes(result@) + fragments(rest.spec_bytes()) == fragments(line),
        decreases rest.spec_bytes().len(),
    {
        let cut: usize = floor_char_boundary(rest, FRAGMENT_LIMIT);
        let (first, second) = rest.split_at(cut);
        let ghost before = result@;
        result.push(first.to_owned());
        proof {
            let bytes = rest.spec_bytes();
            assert(fragments(bytes) == seq![bytes.subrange(0, cut as int)] + fragments(
                bytes.subrange(cut as int, bytes.len() as int),
            ));
            assert(fragment_bytes(result@) =~= fragment_bytes(before).push(first.spec_bytes()));
            assert(fragment_bytes(result@) + fragments(second.spec_bytes()) =~= fragment_bytes(
                before,
            ) + fragments(bytes));
        }
        rest = second;
    }
    let ghost before = result@;
    result.push(rest.to_owned());
    proof {
        assert(fragment_bytes(result@) =~= fragment_bytes(before).push(rest.spec_bytes()));
        assert(fragment_bytes(result@) =~= fragments(line));
        lemma_fragments_fit(line);
        lemma_fragments_rejoin(line);
        lemma_texts_rejoin(result@, message@);
        assert forall|i: int| 0 <= i < result@.len() implies encode_utf8(
            #[trigger] result@[i]@,
        ).len() <= FRAGMENT_LIMIT by {
            assert(fragment_bytes(result@)[i] == encode_utf8(result@[i]@));
        }
    }
    result
}

/// Of text, no fragment is longer than the limit, each fragment is text, and
/// every fragment but the last holds at least 251 bytes.
pub proof fn lemma_fragments_fit(bytes: Seq<u8>)
    requires
        valid_utf8(bytes),
    ensures
        fragments(bytes).len() >= 1,
        forall|i: int|
            0 <= i < fragments(bytes).len() ==> (#[trigger] fragments(bytes)[i]).len()
                <= FRAGMENT_LIMIT,
        forall|i: int|
            0 <= i < fragments(bytes).len() ==> valid_utf8(#[trigger] fragments(bytes)[i]),
        forall|i: int|
            0 <= i < fragments(bytes).len() - 1 ==> (#[trigger] fragments(bytes)[i]).len()
                >= FRAGMENT_LIMIT - 3,
    decreases bytes.len(),
{
    if bytes.len() > FRAGMENT_LIMIT {
        let cut = floor_boundary(bytes, FRAGMENT_LIMIT as int);
        lemma_cut_is_near(bytes, FRAGMENT_LIMIT as int);
        valid_utf8_split(bytes, cut);
        let head = bytes.subrange(0, cut);
        let tail = bytes.subrange(cut, bytes.len() as int);
        lemma_fragments_fit(tail);
        assert forall|i: int| 0 <= i < fragments(bytes).len() implies (#[trigger] fragments(
            bytes,
        )[i]).len() <= FRAGMENT_LIMIT && valid_utf8(fragments(bytes)[i]) by {
            if i > 0 {
                assert(fragments(bytes)[i] == fragments(tail)[i - 1]);
            }
        }
        assert forall|i: int| 0 <= i < fragments(bytes).len() - 1 implies (#[trigger] fragments(
            bytes,
        )[i]).len() >= FRAGMENT_LIMIT - 3 by {
            if i > 0 {
                assert(fragments(bytes)[i] == fragments(tail)[i - 1]);
            }
        }
    }
}

/// The fragments of a line, joined in order, are the line.
pub proof fn lemma_fragments_rejoin(bytes: Seq<u8>)
    ensures
        fragments(bytes).flatten() == bytes,
    decreases bytes.len(),
{
    let cut = floor_boundary(bytes, FRAGMENT_LIMIT as int);
    if bytes.len() <= FRAGMENT_LIMIT || !(0 < cut <= FRAGMENT_LIMIT) {
        seq![bytes].lemma_flatten_singleton();
    } else {
        let head = bytes.subrange(0, cut);
        let tail = bytes.subrange(cut, bytes.len() as int);
        lemma_fragments_rejoin(tail);
        vstd::seq_lib::lemma_flatten_concat(seq![head], fragments(tail));
        seq![head].lemma_flatten_singleton();
        assert(head + tail =~= bytes);
    }
}

/// Encoding goes through concatenation.
pub proof fn lemma_encode_concat(x: Seq<char>, y: Seq<char>)
    ensures
        encode_utf8(x + y) == encode_utf8(x) + encode_utf8(y),
    decreases x.len(),
{
    if x.len() == 0 {
        assert(x + y =~= y);
        assert(encode_utf8(x) + encode_utf8(y) =~= encode_utf8(y));
    } else {
        assert((x + y).drop_first() =~= x.drop_first() + y);
        lemma_encode_concat(x.drop_first(), y);
        assert(encode_utf8(x + y) =~= encode_utf8(x) + encode_utf8(y));
    }
}

/// The bytes of strings joined are the bytes of each, joined.
pub proof fn lemma_encode_flatten(frags: Seq<String>)
    ensures
        encode_utf8(fragment_texts(frags).flatten()) == fragment_bytes(frags).flatten(),
    decreases frags.len(),
{
    if frags.len() > 0 {
        let rest = frags.drop_first();
        lemma_encode_flatten(rest);
        assert(fragment_texts(frags).drop_first() =~= fragment_texts(rest));
        assert(fragment_bytes(frags).drop_first() =~= fragment_bytes(rest));
        lemma_encode_concat(frags[0]@, fragment_texts(rest).flatten());
    }
}

/// Strings whose bytes, joined, are the bytes of `line` are `line` when joined.
pub proof fn lemma_texts_rejoin(frags: Seq<String>, line: Seq<char>)
    requires
        fragment_bytes(frags).flatten() == encode_utf8(line),
    ensures
        fragment_texts(frags).flatten() == line,
{
    lemma_encode_flatten(frags);
    encode_utf8_decode_utf8(fragment_texts(frags).flatten());
    encode_utf8_decode_utf8(line);
}

/// No character of `bytes` lies across an offset that is a multiple of 254.
pub open spec fn cuts_fall_between_characters(bytes: Seq<u8>) -> bool {
    forall|i: int|
        0 < i < bytes.len() && i % (FRAGMENT_LIMIT as int) == 0 ==> !is_continuation_byte(
            #[trigger] bytes[i],
        )
}

/// Where no character lies across a multiple of 254, the fragments are the
/// line cut at every 254th byte.
pub proof fn lemma_aligned_fragments_are_raw(bytes: Seq<u8>)
    requires
        valid_utf8(bytes),
        cuts_fall_between_characters(bytes),
    ensures
        fragments(bytes) == raw_fragments(bytes),
    decreases bytes.len(),
{
    if bytes.len() > FRAGMENT_LIMIT {
        let limit = FRAGMENT_LIMIT as int;
        assert(!is_continuation_byte(bytes[limit]));
        is_char_boundary_iff_not_is_continuation_byte(bytes, limit);
        valid_utf8_split(bytes, limit);
        let tail = bytes.subrange(limit, bytes.len() as int);
        assert forall|i: int| 0 < i < tail.len() && i % limit == 0 implies !is_continuation_byte(
            #[trigger] tail[i],
        ) by {
            assert(tail[i] == bytes[limit + i]);
        }
        lemma_aligned_fragments_are_raw(tail);
    }
}

/// A line of ASCII characters is cut at every 254th byte: every fragment but
/// the last holds exactly 254 bytes.
pub proof fn lemma_ascii_fragments_are_raw(line: Seq<char>)
    requires
        is_ascii_chars(line),
    ensures
        fragments(encode_utf8(line)) == raw_fragments(encode_utf8(line)),
{
    is_ascii_chars_encode_utf8(line);
    encode_utf8_valid_utf8(line);
    let bytes = encode_utf8(line);
    assert forall|i: int| 0 <= i < bytes.len() implies !is_continuation_byte(
        #[trigger] bytes[i],
    ) by {
        let c = line[i];
        assert(c as u8 == bytes[i]);
        assert(c as u8 <= 0x7f) by {
            assert('\0' <= c <= '\u{7f}');
        }
    }
    lemma_aligned_fragments_are_raw(bytes);
}

} // verus!
