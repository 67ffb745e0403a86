//! The two forms of an identity fact, and the case folding of text.
//!
//! The raw form of a fact is the bytes that the host holds; the text form is a
//! sequence of characters. Text becomes raw by its UTF-8 encoding. Raw becomes
//! text by decoding, and where the bytes are not UTF-8 by lossy decoding.

use vstd::prelude::*;
use vstd::string::*;
use vstd::utf8::*;

verus! {

/// The text that lossy decoding makes of bytes that are not UTF-8: each
/// ill-formed run among them gives way to the replacement character U+FFFD.
pub uninterp spec fn lossy_text(raw: Seq<u8>) -> Seq<char>;

/// The text form of a raw value.
pub open spec fn text_of(raw: Seq<u8>) -> Seq<char> {
    if valid_utf8(raw) {
        decode_utf8(raw)
    } else {
        lossy_text(raw)
    }
}

/// The raw form of a text.
pub open spec fn raw_of(text: Seq<char>) -> Seq<u8> {
    encode_utf8(text)
}

/// Whether a character is one of the ASCII letters `A` to `Z`.
pub open spec fn is_ascii_upper(c: char) -> bool {
    'A' <= c <= 'Z'
}

/// A character with ASCII case folded: `A` to `Z` become `a` to `z`, every
/// other character stays.
pub open spec fn lower_char(c: char) -> char {
    if is_ascii_upper(c) {
        ((c as u32 + 32) as u32) as char
    } else {
        c
    }
}

/// A text with the ASCII case of each character folded.
pub open spec fn ascii_lower(text: Seq<char>) -> Seq<char> {
    Seq::new(text.len(), |i: int| lower_char(text[i]))
}

/// A byte with ASCII case folded.
pub open spec fn lower_byte(b: u8) -> u8 {
    if 0x41 <= b <= 0x5a {
        (b + 32) as u8
    } else {
        b
    }
}

/// Bytes with the ASCII case of each folded.
pub open spec fn lower_bytes(bytes: Seq<u8>) -> Seq<u8> {
    Seq::new(bytes.len(), |i: int| lower_byte(bytes[i]))
}

/// Calls `String::from_utf8_lossy` and takes the result as an owned string.
/// Trusted: bytes that are UTF-8 come back as the text they encode; of other
/// bytes the contract says only that the text depends on the bytes alone.
#[verifier::external_body]
pub(crate) fn text_from_raw(raw: &[u8]) -> (text: String)
    ensures
        valid_utf8(raw@) ==> text@ == decode_utf8(raw@),
        !valid_utf8(raw@) ==> text@ == lossy_text(raw@),
{
    String::from_utf8_lossy(raw).into_owned()
}

/// Folding the bytes of one encoded character is encoding the folded character.
proof fn lemma_lower_scalar(c: char)
    ensures
        lower_bytes(encode_scalar(c as u32)) == encode_scalar(lower_char(c) as u32),
{
    let s = c as u32;
    char_is_scalar(c);
    if has_width_1_encoding(s) {
        assert((s & 0x7F) as u8 == s as u8) by (bit_vector)
            requires
                s <= 0x7F,
        ;
        if is_ascii_upper(c) {
            let t = (s + 32) as u32;
            assert((t & 0x7F) as u8 == t as u8) by (bit_vector)
                requires
                    t <= 0x7F,
            ;
        }
        assert(lower_bytes(encode_scalar(s)) =~= encode_scalar(lower_char(c) as u32));
    } else {
        assert(0xC0u8 | ((s >> 6) & 0x1F) as u8 >= 0x80) by (bit_vector);
        assert(0xE0u8 | ((s >> 12) & 0x0F) as u8 >= 0x80) by (bit_vector);
        assert(0xF0u8 | ((s >> 18) & 0x7) as u8 >= 0x80) by (bit_vector);
        assert(0x80u8 | (s & 0x3F) as u8 >= 0x80) by (bit_vector);
        assert(0x80u8 | ((s >> 6) & 0x3F) as u8 >= 0x80) by (bit_vector);
        assert(0x80u8 | ((s >> 12) & 0x3F) as u8 >= 0x80) by (bit_vector);
        assert(lower_bytes(encode_scalar(s)) =~= encode_scalar(s));
    }
}

/// Folding the bytes of an encoded text is encoding the folded text.
pub proof fn lemma_lower_encoding(text: Seq<char>)
    ensures
        lower_bytes(encode_utf8(text)) == encode_utf8(ascii_lower(text)),
    decreases text.len(),
{
    if text.len() > 0 {
        let head = encode_scalar(text[0] as u32);
        let tail = encode_utf8(text.drop_first());
        lemma_lower_scalar(text[0]);
        lemma_lower_encoding(text.drop_first());
        assert(ascii_lower(text).drop_first() =~= ascii_lower(text.drop_first()));
        assert(lower_bytes(head + tail) =~= lower_bytes(head) + lower_bytes(tail));
    } else {
        assert(lower_bytes(encode_utf8(text)) =~= encode_utf8(ascii_lower(text)));
    }
}

/// Folded text holds none of the letters `A` to `Z`, and folding it again
/// changes nothing.
pub proof fn lemma_ascii_lower_settled(text: Seq<char>)
    ensures
        forall|i: int| 0 <= i < ascii_lower(text).len() ==> !is_ascii_upper(#[trigger] ascii_lower(text)[i]),
        ascii_lower(ascii_lower(text)) == ascii_lower(text),
{
    assert(ascii_lower(ascii_lower(text)) =~= ascii_lower(text));
}

/// Folds the ASCII case of a text: the letters `A` to `Z` become `a` to `z`,
/// and every other character, ASCII or not, stays as it is.
pub fn ascii_lowercase(text: &str) -> (folded: String)
    ensures
        folded@ == ascii_lower(text@),
{
    let bytes = text.as_bytes();
    let mut low: Vec<u8> = Vec::with_capacity(bytes.len());
    let mut i: usize = 0;
    while i < bytes.len()
        invariant
            i <= bytes@.len(),
            low@.len() == i,
            forall|k: int| 0 <= k < i ==> low@[k] == lower_byte(#[trigger] bytes@[k]),
        decreases bytes@.len() - i,
    {
        let b: u8 = bytes[i];
        if 0x41 <= b && b <= 0x5a {
            low.push(b + 32);
        } else {
            low.push(b);
        }
        i += 1;
    }
    proof {
        assert(low@ =~= lower_bytes(bytes@));
        lemma_lower_encoding(text@);
        encode_utf8_valid_utf8(ascii_lower(text@));
        encode_utf8_decode_utf8(ascii_lower(text@));
    }
    text_from_raw(low.as_slice())
}

} // verus!
