//! Text on the wire: UTF-16 in little-endian units, and single-byte ASCII.
//!
//! The conversions themselves are made by the `encoding` crate. This module
//! states what they compute and proves that what was encoded decodes to the
//! same text.

use crate::error::{EventError, TypeName};
use encoding::all::{ASCII, UTF_16LE};
use encoding::{DecoderTrap, EncoderTrap, Encoding};
use vstd::prelude::*;

verus! {

/// The two bytes of a 16-bit unit, the low byte first.
pub open spec fn unit_bytes(unit: int) -> Seq<u8> {
    seq![(unit % 0x100) as u8, (unit / 0x100) as u8]
}

/// The UTF-16 form of one character in little-endian bytes: one unit for a
/// character below `0x10000`, a pair of surrogates for any other.
pub open spec fn utf16le_char(c: char) -> Seq<u8> {
    let v = c as int;
    if v < 0x1_0000 {
        unit_bytes(v)
    } else {
        unit_bytes(0xD800 + (v - 0x1_0000) / 0x400) + unit_bytes(0xDC00 + (v - 0x1_0000) % 0x400)
    }
}

/// The UTF-16 form of a text in little-endian bytes.
pub open spec fn utf16le_text(text: Seq<char>) -> Seq<u8>
    decreases text.len(),
{
    if text.len() == 0 {
        Seq::empty()
    } else {
        utf16le_char(text[0]) + utf16le_text(text.skip(1))
    }
}

/// The text that `bytes` is the UTF-16 form of, if there is one.
pub open spec fn utf16le_decoded(bytes: Seq<u8>) -> Option<Seq<char>> {
    if exists|text: Seq<char>| utf16le_text(text) == bytes {
        Some(choose|text: Seq<char>| utf16le_text(text) == bytes)
    } else {
        None
    }
}

/// Whether every byte is an ASCII character.
pub open spec fn is_ascii_bytes(bytes: Seq<u8>) -> bool {
    forall|i: int| 0 <= i < bytes.len() ==> bytes[i] < 0x80
}

/// The text whose characters are the bytes.
pub open spec fn ascii_text(bytes: Seq<u8>) -> Seq<char> {
    Seq::new(bytes.len(), |i: int| bytes[i] as char)
}

/// The text that `bytes` is the ASCII form of, if there is one.
pub open spec fn ascii_decoded(bytes: Seq<u8>) -> Option<Seq<char>> {
    if is_ascii_bytes(bytes) {
        Some(ascii_text(bytes))
    } else {
        None
    }
}

/// The form of a character tells the character: its length and second byte
/// say whether it is a pair, and its bytes give the number back.
proof fn lemma_utf16le_char(c: char)
    ensures
        (c as int) < 0x1_0000 ==> {
            &&& utf16le_char(c).len() == 2
            &&& !(0xD8 <= utf16le_char(c)[1] <= 0xDF)
            &&& c as int == utf16le_char(c)[0] + 0x100 * utf16le_char(c)[1]
        },
        (c as int) >= 0x1_0000 ==> {
            &&& utf16le_char(c).len() == 4
            &&& 0xD8 <= utf16le_char(c)[1] <= 0xDB
            &&& c as int == 0x1_0000 + (utf16le_char(c)[0] + 0x100 * utf16le_char(c)[1] - 0xD800)
                * 0x400 + (utf16le_char(c)[2] + 0x100 * utf16le_char(c)[3] - 0xDC00)
        },
{
    let v = c as int;
    if v < 0x1_0000 {
        assert(utf16le_char(c) == unit_bytes(v));
    } else {
        let hi = 0xD800 + (v - 0x1_0000) / 0x400;
        let lo = 0xDC00 + (v - 0x1_0000) % 0x400;
        assert(0xD800 <= hi <= 0xDBFF);
        assert(0xDC00 <= lo <= 0xDFFF);
        let form = unit_bytes(hi) + unit_bytes(lo);
        assert(utf16le_char(c) == form);
        assert(form.len() == 4);
        assert(form[0] == unit_bytes(hi)[0]);
        assert(form[1] == unit_bytes(hi)[1]);
        assert(form[2] == unit_bytes(lo)[0]);
        assert(form[3] == unit_bytes(lo)[1]);
    }
}

/// Two characters with the same first two bytes in their forms have forms
/// of one length, and two characters with the same form are the same.
proof fn lemma_utf16le_char_injective(a: char, b: char)
    ensures
        utf16le_char(a).len() >= 2,
        utf16le_char(a)[0] == utf16le_char(b)[0] && utf16le_char(a)[1] == utf16le_char(b)[1]
            ==> utf16le_char(a).len() == utf16le_char(b).len(),
        utf16le_char(a) == utf16le_char(b) ==> a == b,
{
    lemma_utf16le_char(a);
    lemma_utf16le_char(b);
}

/// The form of a text starts with the form of its first character.
proof fn lemma_utf16le_text_unfold(text: Seq<char>)
    requires
        text.len() > 0,
    ensures
        utf16le_text(text) == utf16le_char(text[0]) + utf16le_text(text.skip(1)),
        utf16le_text(text).len() == utf16le_char(text[0]).len() + utf16le_text(text.skip(1)).len(),
        utf16le_text(text).len() >= 2,
        forall|i: int|
            0 <= i < utf16le_char(text[0]).len() ==> utf16le_text(text)[i] == utf16le_char(
                text[0],
            )[i],
{
    lemma_utf16le_char(text[0]);
}

/// No two texts have the same UTF-16 form.
pub proof fn lemma_utf16le_injective(a: Seq<char>, b: Seq<char>)
    requires
        utf16le_text(a) == utf16le_text(b),
    ensures
        a == b,
    decreases a.len(),
{
    if a.len() == 0 {
        if b.len() > 0 {
            lemma_utf16le_text_unfold(b);
        }
        assert(a =~= b);
    } else {
        lemma_utf16le_text_unfold(a);
        assert(b.len() > 0);
        lemma_utf16le_text_unfold(b);
        let whole = utf16le_text(a);
        let fa = utf16le_char(a[0]);
        let fb = utf16le_char(b[0]);
        lemma_utf16le_char_injective(a[0], b[0]);
        lemma_utf16le_char_injective(b[0], a[0]);
        assert(fa[0] == whole[0] && fa[1] == whole[1]);
        assert(fb[0] == whole[0] && fb[1] == whole[1]);
        assert(fa.len() == fb.len());
        assert(fa =~= fb) by {
            assert forall|i: int| 0 <= i < fa.len() implies fa[i] == fb[i] by {
                assert(fa[i] == whole[i]);
                assert(fb[i] == whole[i]);
            }
        }
        assert(a[0] == b[0]);
        let ra = utf16le_text(a.skip(1));
        let rb = utf16le_text(b.skip(1));
        assert(ra =~= whole.subrange(fa.len() as int, whole.len() as int));
        assert(rb =~= whole.subrange(fb.len() as int, whole.len() as int));
        lemma_utf16le_injective(a.skip(1), b.skip(1));
        assert(a =~= b) by {
            assert forall|i: int| 0 <= i < a.len() implies a[i] == b[i] by {
                if i > 0 {
                    assert(a[i] == a.skip(1)[i - 1]);
                    assert(b[i] == b.skip(1)[i - 1]);
                }
            }
            assert(a.len() == a.skip(1).len() + 1);
            assert(b.len() == b.skip(1).len() + 1);
        }
    }
}

/// What was encoded as UTF-16 decodes to the same text.
pub proof fn lemma_utf16le_round_trip(text: Seq<char>)
    ensures
        utf16le_decoded(utf16le_text(text)) == Some(text),
{
    let bytes = utf16le_text(text);
    assert(utf16le_text(text) == bytes);
    let chosen = choose|t: Seq<char>| utf16le_text(t) == bytes;
    lemma_utf16le_injective(chosen, text);
}

/// `Encoding::encode` of `encoding::all::UTF_16LE` with the strict trap. The
/// encoder writes each character below `0x10000` as one unit and any other
/// as a pair of surrogates, the low byte of a unit first, and reports no
/// error on any text.
#[verifier::external_body]
fn utf16le_encode(text: &str) -> (r: Option<Vec<u8>>)
    ensures
        r is Some,
        r.unwrap()@ == utf16le_text(text@),
{
    UTF_16LE.encode(text, EncoderTrap::Strict).ok()
}

/// `Encoding::decode` of `encoding::all::UTF_16LE` with the strict trap. The
/// decoder accepts exactly the byte sequences that are the UTF-16 form of
/// a text (whole units, every surrogate in a pair, the high one first) and
/// yields that text; on anything else it reports an error.
#[verifier::external_body]
fn utf16le_decode(bytes: &[u8]) -> (r: Option<String>)
    ensures
        match r {
            Some(text) => utf16le_text(text@) == bytes@,
            None => forall|text: Seq<char>| utf16le_text(text) != bytes@,
        },
{
    UTF_16LE.decode(bytes, DecoderTrap::Strict).ok()
}

/// `Encoding::decode` of `encoding::all::ASCII` with the strict trap. The
/// decoder reports an error at the first byte of `0x80` or more; without
/// one it yields the bytes as characters.
#[verifier::external_body]
fn ascii_decode(bytes: &[u8]) -> (r: Option<String>)
    ensures
        match r {
            Some(text) => is_ascii_bytes(bytes@) && text@ == ascii_text(bytes@),
            None => !is_ascii_bytes(bytes@),
        },
{
    ASCII.decode(bytes, DecoderTrap::Strict).ok()
}

/// The UTF-16 form of `text` in little-endian bytes.
pub fn encode_utf16le(text: &str) -> (r: Result<Vec<u8>, EventError>)
    ensures
        r matches Ok(bytes) && bytes@ == utf16le_text(text@),
{
    match utf16le_encode(text) {
        Some(bytes) => Ok(bytes),
        None => Err(EventError::EncodingFailed),
    }
}

/// The text that `bytes` is the UTF-16 form of. Any ill-formed sequence (a
/// unit cut short, a surrogate without its partner) is a failure to read
/// the value as text.
pub fn decode_utf16le(bytes: &[u8]) -> (r: Result<String, EventError>)
    ensures
        match r {
            Ok(text) => utf16le_decoded(bytes@) == Some(text@),
            Err(e) => utf16le_decoded(bytes@) is None && e == (EventError::DecodeMismatch {
                expected: TypeName::String,
            }),
        },
{
    match utf16le_decode(bytes) {
        Some(text) => {
            proof {
                lemma_utf16le_round_trip(text@);
            }
            Ok(text)
        },
        None => Err(EventError::DecodeMismatch { expected: TypeName::String }),
    }
}

/// The text that `bytes` is the ASCII form of. A byte of `0x80` or more is
/// a failure to read the value as text.
pub fn decode_ascii(bytes: &[u8]) -> (r: Result<String, EventError>)
    ensures
        match r {
            Ok(text) => ascii_decoded(bytes@) == Some(text@),
            Err(e) => ascii_decoded(bytes@) is None && e == (EventError::DecodeMismatch {
                expected: TypeName::String,
            }),
        },
{
    match ascii_decode(bytes) {
        Some(text) => Ok(text),
        None => Err(EventError::DecodeMismatch { expected: TypeName::String }),
    }
}

} // verus!
