//! Substring search and length-bounded prefixes of UTF-8 text.
//!
//! Text is compared as Rust compares it: by the bytes of its UTF-8 encoding.

use vstd::prelude::*;
use vstd::string::*;
use vstd::utf8::*;

verus! {

/// `needle` stands in `hay`, starting at offset `at`.
pub open spec fn occurs_at(hay: Seq<u8>, needle: Seq<u8>, at: int) -> bool {
    &&& 0 <= at
    &&& at + needle.len() <= hay.len()
    &&& hay.subrange(at, at + needle.len()) == needle
}

/// `needle` stands somewhere in `hay`. The empty needle stands everywhere.
pub open spec fn bytes_contain(hay: Seq<u8>, needle: Seq<u8>) -> bool {
    exists|at: int| occurs_at(hay, needle, at)
}

/// `marker` is a substring of `text`: case-sensitive, unanchored.
pub open spec fn contains(text: Seq<char>, marker: Seq<char>) -> bool {
    bytes_contain(encode_utf8(text), encode_utf8(marker))
}

/// The largest character boundary of `bytes` that is at most `limit`.
pub open spec fn floor_boundary(bytes: Seq<u8>, limit: int) -> int
    decreases limit,
{
    if limit <= 0 {
        0
    } else if is_char_boundary(bytes, limit) {
        limit
    } else {
        floor_boundary(bytes, limit - 1)
    }
}

/// How many bytes of `bytes` are kept under a bound of `max` bytes: all of
/// them if they fit, else up to the last character boundary within the bound.
pub open spec fn kept_len(bytes: Seq<u8>, max: nat) -> int {
    if bytes.len() <= max {
        bytes.len() as int
    } else {
        floor_boundary(bytes, max as int)
    }
}

/// `text` cut down to at most `max` bytes of UTF-8 without splitting a
/// character.
pub open spec fn truncated(text: Seq<char>, max: nat) -> Seq<char> {
    let bytes = encode_utf8(text);
    decode_utf8(bytes.subrange(0, kept_len(bytes, max)))
}

/// `floor_boundary` is a character boundary within the limit, and no
/// boundary lies between it and the limit.
pub proof fn lemma_floor_boundary(bytes: Seq<u8>, limit: int)
    requires
        valid_utf8(bytes),
        0 <= limit,
    ensures
        0 <= floor_boundary(bytes, limit) <= limit,
        is_char_boundary(bytes, floor_boundary(bytes, limit)),
        forall|i: int|
            floor_boundary(bytes, limit) < i <= limit ==> !is_char_boundary(bytes, i),
    decreases limit,
{
    is_char_boundary_start_end_of_seq(bytes);
    if limit > 0 && !is_char_boundary(bytes, limit) {
        lemma_floor_boundary(bytes, limit - 1);
    }
}

/// Text that fits the bound is kept whole.
pub proof fn lemma_truncated_within(text: Seq<char>, max: nat)
    requires
        encode_utf8(text).len() <= max,
    ensures
        truncated(text, max) == text,
{
    let bytes = encode_utf8(text);
    assert(bytes.subrange(0, bytes.len() as int) =~= bytes);
    encode_utf8_decode_utf8(text);
}

/// What was cut to a bound fits the bound: its encoding is the kept prefix
/// of the encoding of the whole.
pub proof fn lemma_truncated_bytes(text: Seq<char>, max: nat)
    ensures
        encode_utf8(truncated(text, max)) == encode_utf8(text).subrange(
            0,
            kept_len(encode_utf8(text), max),
        ),
        0 <= kept_len(encode_utf8(text), max) <= max,
        kept_len(encode_utf8(text), max) <= encode_utf8(text).len(),
{
    let bytes = encode_utf8(text);
    encode_utf8_valid_utf8(text);
    is_char_boundary_start_end_of_seq(bytes);
    lemma_floor_boundary(bytes, max as int);
    let cut = kept_len(bytes, max);
    assert(is_char_boundary(bytes, cut));
    valid_utf8_split(bytes, cut);
    decode_utf8_encode_utf8(bytes.subrange(0, cut));
}

/// Cutting twice to the same bound is cutting once.
pub proof fn lemma_truncated_idempotent(text: Seq<char>, max: nat)
    ensures
        truncated(truncated(text, max), max) == truncated(text, max),
{
    lemma_truncated_bytes(text, max);
    lemma_truncated_within(truncated(text, max), max);
}

/// A marker that stands in the kept part of a text stands in the text.
pub proof fn lemma_truncated_contains(text: Seq<char>, max: nat, marker: Seq<char>)
    requires
        contains(truncated(text, max), marker),
    ensures
        contains(text, marker),
{
    lemma_truncated_bytes(text, max);
    let bytes = encode_utf8(text);
    let head = encode_utf8(truncated(text, max));
    let needle = encode_utf8(marker);
    let at = choose|at: int| occurs_at(head, needle, at);
    assert(bytes.subrange(at, at + needle.len()) =~= head.subrange(at, at + needle.len()));
    assert(occurs_at(bytes, needle, at));
}

/// `marker` stands in `text` character by character, starting at `at`.
pub open spec fn chars_occur_at(text: Seq<char>, marker: Seq<char>, at: int) -> bool {
    &&& 0 <= at
    &&& at + marker.len() <= text.len()
    &&& text.subrange(at, at + marker.len()) == marker
}

/// For ASCII text, to contain a marker is to hold its characters in a row:
/// bytes and characters are then the same thing.
pub proof fn lemma_ascii_contains(text: Seq<char>, marker: Seq<char>)
    requires
        is_ascii_chars(text),
        is_ascii_chars(marker),
    ensures
        contains(text, marker) <==> exists|at: int| chars_occur_at(text, marker, at),
{
    let hay = encode_utf8(text);
    let needle = encode_utf8(marker);
    is_ascii_chars_encode_utf8(text);
    is_ascii_chars_encode_utf8(marker);
    if contains(text, marker) {
        let at = choose|at: int| occurs_at(hay, needle, at);
        assert forall|i: int| 0 <= i < marker.len() implies text[at + i] == marker[i] by {
            assert(hay.subrange(at, at + needle.len())[i] == needle[i]);
            assert(text[at + i] as u8 == hay[at + i]);
            assert(marker[i] as u8 == needle[i]);
        }
        assert(text.subrange(at, at + marker.len()) =~= marker);
        assert(chars_occur_at(text, marker, at));
    }
    if exists|at: int| chars_occur_at(text, marker, at) {
        let at = choose|at: int| chars_occur_at(text, marker, at);
        assert forall|i: int| 0 <= i < needle.len() implies hay[at + i] == needle[i] by {
            assert(text.subrange(at, at + marker.len())[i] == marker[i]);
            assert(text[at + i] as u8 == hay[at + i]);
            assert(marker[i] as u8 == needle[i]);
        }
        assert(hay.subrange(at, at + needle.len()) =~= needle);
        assert(occurs_at(hay, needle, at));
    }
}

fn matches_at(hay: &[u8], needle: &[u8], at: usize) -> (r: bool)
    requires
        at + needle@.len() <= hay@.len(),
    ensures
        r == occurs_at(hay@, needle@, at as int),
{
    let hay_len: usize = hay.len();
    let mut k: usize = 0;
    while k < needle.len()
        invariant
            k <= needle@.len(),
            at + needle@.len() <= hay@.len(),
            hay_len == hay@.len(),
            forall|j: int| 0 <= j < k ==> hay@[at + j] == needle@[j],
        decreases needle@.len() - k,
    {
        if hay[at + k] != needle[k] {
            assert(hay@.subrange(at as int, at + needle@.len())[k as int] == hay@[at + k]);
            return false;
        }
        k += 1;
    }
    assert(hay@.subrange(at as int, at + needle@.len()) =~= needle@);
    true
}

/// Whether `needle` stands somewhere in `hay`.
pub fn find_bytes(hay: &[u8], needle: &[u8]) -> (r: bool)
    ensures
        r == bytes_contain(hay@, needle@),
{
    if needle.len() == 0 {
        assert(hay@.subrange(0, 0) =~= needle@);
        assert(occurs_at(hay@, needle@, 0));
        return true;
    }
    if needle.len() > hay.len() {
        return false;
    }
    let last: usize = hay.len() - needle.len();
    let mut at: usize = 0;
    while at <= last
        invariant
            0 < needle@.len() <= hay@.len(),
            last == hay@.len() - needle@.len(),
            last < usize::MAX,
            at <= last + 1,
            forall|i: int| 0 <= i < at ==> !occurs_at(hay@, needle@, i),
        decreases last + 1 - at,
    {
        if matches_at(hay, needle, at) {
            return true;
        }
        at += 1;
    }
    false
}

/// Whether `marker` is a substring of `text`.
pub fn str_contains(text: &str, marker: &str) -> (r: bool)
    ensures
        r == contains(text@, marker@),
{
    find_bytes(text.as_bytes(), marker.as_bytes())
}

/// The longest prefix of `text` that ends on a character boundary and has at
/// most `max` bytes.
pub fn truncate_str(text: &str, max: usize) -> (r: &str)
    ensures
        r@ == truncated(text@, max as nat),
{
    let ghost bytes = encode_utf8(text@);
    proof {
        encode_utf8_valid_utf8(text@);
    }
    if text.as_bytes().len() <= max {
        proof {
            lemma_truncated_within(text@, max as nat);
        }
        return text;
    }
    let mut cut: usize = max;
    while !text.is_char_boundary(cut)
        invariant
            bytes == encode_utf8(text@),
            valid_utf8(bytes),
            cut <= max < bytes.len(),
            floor_boundary(bytes, max as int) == floor_boundary(bytes, cut as int),
        decreases cut,
    {
        proof {
            is_char_boundary_start_end_of_seq(bytes);
        }
        cut -= 1;
    }
    let (head, _) = text.split_at(cut);
    proof {
        encode_utf8_decode_utf8(head@);
    }
    head
}

} // verus!
