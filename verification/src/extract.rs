//! Turning the host's string buffers into owned text.
//!
//! A buffer is a run of code units, narrow (UTF-8 bytes) or wide (UTF-16
//! units), or it is absent. At most `MAX_TEXT_UNITS` units of a buffer are
//! ever decoded, whatever length the host claims for it, and the cut never
//! falls inside a character. Nothing here fails: what cannot be read becomes
//! the empty text or a placeholder. Nothing here releases a buffer either.

use vstd::prelude::*;
use vstd::slice::*;
use vstd::string::*;
use vstd::utf8::*;

verus! {

/// The number of code units of a buffer that are looked at.
pub const MAX_TEXT_UNITS: usize = 2048;

/// Where a narrow buffer is cut under a bound of `limit` bytes: at its end if
/// it fits, else at the last byte within the bound that starts a character.
pub open spec fn narrow_cut(bytes: Seq<u8>, limit: int) -> int
    decreases limit,
{
    if limit <= 0 {
        0
    } else if bytes.len() <= limit {
        bytes.len() as int
    } else if !is_continuation_byte(bytes[limit]) {
        limit
    } else {
        narrow_cut(bytes, limit - 1)
    }
}

/// A lead (high) surrogate: the first unit of a two-unit character.
pub open spec fn is_lead_surrogate(unit: u16) -> bool {
    0xD800 <= unit <= 0xDBFF
}

/// Where a wide buffer is cut under a bound of `limit` units: at its end if it
/// fits, else at the bound, or one before it where the bound would part a
/// lead surrogate from the unit that follows it.
pub open spec fn wide_cut(units: Seq<u16>, limit: int) -> int {
    if units.len() <= limit {
        units.len() as int
    } else if limit > 0 && is_lead_surrogate(units[limit - 1]) {
        limit - 1
    } else if limit > 0 {
        limit
    } else {
        0
    }
}

/// The text that UTF-16 code units decode to, or `None` where they are not
/// well-formed UTF-16: what `String::from_utf16` gives.
pub uninterp spec fn utf16_decoding(units: Seq<u16>) -> Option<Seq<char>>;

/// The text of a narrow buffer: empty where the buffer is absent or where its
/// bounded prefix is not UTF-8.
pub open spec fn narrow_text(buffer: Option<Seq<u8>>) -> Seq<char> {
    match buffer {
        None => Seq::empty(),
        Some(bytes) => {
            let head = bytes.subrange(0, narrow_cut(bytes, MAX_TEXT_UNITS as int));
            if valid_utf8(head) {
                decode_utf8(head)
            } else {
                Seq::empty()
            }
        },
    }
}

/// What a decoding attempt amounts to: the text, or the placeholder.
pub open spec fn decoded_or(decoded: Option<Seq<char>>, placeholder: Seq<char>) -> Seq<char> {
    match decoded {
        Some(text) => text,
        None => placeholder,
    }
}

/// The text of a wide buffer: the placeholder where the buffer is absent or
/// where its bounded prefix is not UTF-16, empty where it has no units.
pub open spec fn wide_text(buffer: Option<Seq<u16>>, placeholder: Seq<char>) -> Seq<char> {
    match buffer {
        None => placeholder,
        Some(units) => if units.len() == 0 {
            Seq::empty()
        } else {
            decoded_or(
                utf16_decoding(units.subrange(0, wide_cut(units, MAX_TEXT_UNITS as int))),
                placeholder,
            )
        },
    }
}

/// `core::str::from_utf8`: the bytes as a string slice if they are valid
/// UTF-8, and nothing otherwise. Not proved here.
#[verifier::external_body]
fn utf8_str(bytes: &[u8]) -> (r: Option<&str>)
    ensures
        r is Some <==> valid_utf8(bytes@),
        r matches Some(text) ==> text.spec_bytes() == bytes@,
{
    core::str::from_utf8(bytes).ok()
}

/// `String::from_utf16`: the decoded text, or nothing where the units hold
/// an unpaired surrogate. Not proved here.
#[verifier::external_body]
fn utf16_string(units: &[u16]) -> (r: Option<String>)
    ensures
        match r {
            Some(text) => utf16_decoding(units@) == Some(text@),
            None => utf16_decoding(units@).is_none(),
        },
{
    String::from_utf16(units).ok()
}

/// The bounded prefix of a narrow buffer.
pub fn bounded_narrow(bytes: &[u8], limit: usize) -> (head: &[u8])
    ensures
        head@ == bytes@.subrange(0, narrow_cut(bytes@, limit as int)),
{
    if bytes.len() <= limit {
        assert(bytes@.subrange(0, bytes@.len() as int) =~= bytes@);
        return bytes;
    }
    let mut cut: usize = limit;
    while cut > 0 && 0x80 <= bytes[cut] && bytes[cut] <= 0xbf
        invariant
            cut <= limit < bytes@.len(),
            narrow_cut(bytes@, limit as int) == narrow_cut(bytes@, cut as int),
        decreases cut,
    {
        cut -= 1;
    }
    slice_subrange(bytes, 0, cut)
}

/// The bounded prefix of a wide buffer.
pub fn bounded_wide(units: &[u16], limit: usize) -> (head: &[u16])
    ensures
        head@ == units@.subrange(0, wide_cut(units@, limit as int)),
{
    if units.len() <= limit {
        assert(units@.subrange(0, units@.len() as int) =~= units@);
        return units;
    }
    if limit > 0 && 0xD800 <= units[limit - 1] && units[limit - 1] <= 0xDBFF {
        slice_subrange(units, 0, limit - 1)
    } else {
        slice_subrange(units, 0, limit)
    }
}

/// The text of a decoding attempt, or a copy of the placeholder.
pub fn text_or(decoded: Option<String>, placeholder: &str) -> (text: String)
    ensures
        text@ == decoded_or(
            match decoded {
                Some(s) => Some(s@),
                None => None,
            },
            placeholder@,
        ),
{
    match decoded {
        Some(text) => text,
        None => String::from_str(placeholder),
    }
}

/// Reads a narrow buffer, such as a host name handed to name resolution.
pub fn extract_narrow(buffer: Option<&[u8]>) -> (text: String)
    ensures
        text@ == narrow_text(
            match buffer {
                Some(bytes) => Some(bytes@),
                None => None,
            },
        ),
{
    match buffer {
        None => String::new(),
        Some(bytes) => {
            let head = bounded_narrow(bytes, MAX_TEXT_UNITS);
            match utf8_str(head) {
                Some(text) => {
                    proof {
                        encode_utf8_decode_utf8(text@);
                    }
                    String::from_str(text)
                },
                None => String::new(),
            }
        },
    }
}

/// Reads a wide buffer, such as the URL or the method of a request.
pub fn extract_wide(buffer: Option<&[u16]>, placeholder: &str) -> (text: String)
    ensures
        text@ == wide_text(
            match buffer {
                Some(units) => Some(units@),
                None => None,
            },
            placeholder@,
        ),
{
    match buffer {
        None => String::from_str(placeholder),
        Some(units) => {
            if units.len() == 0 {
                String::new()
            } else {
                text_or(utf16_string(bounded_wide(units, MAX_TEXT_UNITS)), placeholder)
            }
        },
    }
}

} // verus!
