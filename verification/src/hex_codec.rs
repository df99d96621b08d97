//! Lowercase hexadecimal text of byte strings, as the keychain stores
//! credential IDs and PRF salts.

use vstd::prelude::*;
use vstd::string::*;
use vstd::utf8::*;

verus! {

broadcast use vstd::seq::group_seq_axioms;

/// The lowercase hex digit of a value below 16.
pub open spec fn hex_digit(v: int) -> char {
    if v < 10 {
        (48 + v) as char
    } else {
        (87 + v) as char
    }
}

/// Two lowercase hex digits per byte, high nibble first.
pub open spec fn hex_text(bytes: Seq<u8>) -> Seq<char>
    decreases bytes.len(),
{
    if bytes.len() == 0 {
        Seq::empty()
    } else {
        seq![hex_digit(bytes[0] as int / 16), hex_digit(bytes[0] as int % 16)] + hex_text(bytes.drop_first())
    }
}

/// The value of a hex digit byte of either case, if it is one.
pub open spec fn hex_value(c: u8) -> Option<u8> {
    if 48 <= c <= 57 {
        Some((c - 48) as u8)
    } else if 97 <= c <= 102 {
        Some((c - 87) as u8)
    } else if 65 <= c <= 70 {
        Some((c - 55) as u8)
    } else {
        None
    }
}

/// The bytes that a hex text of even length made only of hex digits spells;
/// `None` for any other text.
pub open spec fn hex_bytes(text: Seq<u8>) -> Option<Seq<u8>>
    decreases text.len(),
{
    if text.len() == 0 {
        Some(Seq::empty())
    } else if text.len() == 1 {
        None
    } else {
        match (hex_value(text[0]), hex_value(text[1]), hex_bytes(text.subrange(2, text.len() as int))) {
            (Some(h), Some(l), Some(rest)) => Some(seq![(h * 16 + l) as u8] + rest),
            _ => None,
        }
    }
}

/// Hex encoding by `hex::encode`.
///
/// Trusted: states what the crate's source does, two characters of
/// `0123456789abcdef` per byte, high nibble first.
#[verifier::external_body]
pub(crate) fn hex_encode(data: &[u8]) -> (s: String)
    ensures
        s@ == hex_text(data@),
{
    hex::encode(data)
}

/// Hex decoding by `hex::decode`, keeping the bytes and dropping the error.
///
/// Trusted: states what the crate's source does: the bytes spelled by a text
/// of even length made of hex digits of either case, an error otherwise.
#[verifier::external_body]
pub(crate) fn hex_decode(text: &str) -> (r: Option<Vec<u8>>)
    ensures
        match r {
            Some(v) => hex_bytes(text.spec_bytes()) == Some(v@),
            None => hex_bytes(text.spec_bytes()) is None,
        },
{
    hex::decode(text).ok()
}

/// The bytes of an ASCII text, one per character.
pub open spec fn ascii_bytes(chars: Seq<char>) -> Seq<u8> {
    Seq::new(chars.len(), |i: int| chars[i] as u8)
}

proof fn lemma_hex_text_len(bytes: Seq<u8>)
    ensures
        hex_text(bytes).len() == 2 * bytes.len(),
    decreases bytes.len(),
{
    if bytes.len() > 0 {
        lemma_hex_text_len(bytes.drop_first());
    }
}

proof fn lemma_hex_digit_value(v: int)
    requires
        0 <= v < 16,
    ensures
        hex_value(hex_digit(v) as u8) == Some(v as u8),
        (hex_digit(v) as u32) < 128,
{
}

proof fn lemma_hex_text_ascii(bytes: Seq<u8>)
    ensures
        is_ascii_chars(hex_text(bytes)),
        hex_bytes(ascii_bytes(hex_text(bytes))) == Some(bytes),
    decreases bytes.len(),
{
    if bytes.len() > 0 {
        let rest = bytes.drop_first();
        lemma_hex_text_ascii(rest);
        lemma_hex_text_len(rest);
        let t = hex_text(bytes);
        let h = bytes[0] as int / 16;
        let l = bytes[0] as int % 16;
        lemma_hex_digit_value(h as int);
        lemma_hex_digit_value(l as int);
        assert(t =~= seq![hex_digit(h as int), hex_digit(l as int)] + hex_text(rest));
        let a = ascii_bytes(t);
        assert(a.subrange(2, a.len() as int) =~= ascii_bytes(hex_text(rest)));
        assert(a[0] == hex_digit(h as int) as u8);
        assert(a[1] == hex_digit(l as int) as u8);
        assert((h * 16 + l) as u8 == bytes[0]);
        assert(seq![bytes[0]] + rest =~= bytes);
        assert forall|i: int| 0 <= i < t.len() implies (t[i] as u32) < 128 by {
            if i >= 2 {
                assert(t[i] == hex_text(rest)[i - 2]);
            }
        }
    } else {
        assert(ascii_bytes(hex_text(bytes)) =~= Seq::<u8>::empty());
    }
}

/// Decoding the hex text of any bytes gives those bytes back: a credential ID
/// that is saved as hex is read back unchanged.
pub proof fn lemma_hex_round_trip(bytes: Seq<u8>)
    ensures
        hex_bytes(encode_utf8(hex_text(bytes))) == Some(bytes),
{
    lemma_hex_text_ascii(bytes);
    is_ascii_chars_encode_utf8(hex_text(bytes));
    assert(encode_utf8(hex_text(bytes)) =~= ascii_bytes(hex_text(bytes)));
}

} // verus!
