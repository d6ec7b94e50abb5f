//! Hexadecimal text: what counts as such, and the raw transaction bytes that
//! a caller hands over in that form.

use vstd::prelude::*;
use vstd::string::*;

use crate::error::Error;

verus! {

/// `hex::FromHexError`: what hexadecimal decoding fails with.
#[verifier::external_type_specification]
#[verifier::external_body]
pub struct ExFromHexError(hex::FromHexError);

/// Whether `c` is one of `0`-`9`, `a`-`f`, `A`-`F`.
pub open spec fn is_hex_digit(c: char) -> bool {
    ('0' <= c && c <= '9') || ('a' <= c && c <= 'f') || ('A' <= c && c <= 'F')
}

/// Whether `text` holds hexadecimal digits only.
pub open spec fn is_hex(text: Seq<char>) -> bool {
    forall|i: int| 0 <= i < text.len() ==> is_hex_digit(#[trigger] text[i])
}

/// Whether `text` spells out whole bytes: hexadecimal digits only, and an
/// even number of them.
pub open spec fn is_hex_encoding(text: Seq<char>) -> bool {
    is_hex(text) && text.len() % 2 == 0
}

/// The number that the hexadecimal digit `c` stands for.
pub open spec fn hex_value(c: char) -> int
    recommends
        is_hex_digit(c),
{
    if '0' <= c && c <= '9' {
        c as int - '0' as int
    } else if 'a' <= c && c <= 'f' {
        c as int - 'a' as int + 10
    } else {
        c as int - 'A' as int + 10
    }
}

/// The bytes that `text` spells out, two digits to the byte, the high digit
/// first.
pub open spec fn hex_decoded(text: Seq<char>) -> Seq<u8>
    recommends
        is_hex_encoding(text),
{
    Seq::new(
        text.len() / 2,
        |i: int| (16 * hex_value(text[2 * i]) + hex_value(text[2 * i + 1])) as u8,
    )
}

/// Whether `c` is white space: one of the 25 characters that Unicode gives
/// the property `White_Space`.
pub open spec fn is_white_space(c: char) -> bool {
    let code = c as u32;
    ||| 0x09 <= code <= 0x0d
    ||| code == 0x20
    ||| code == 0x85
    ||| code == 0xa0
    ||| code == 0x1680
    ||| 0x2000 <= code <= 0x200a
    ||| code == 0x2028
    ||| code == 0x2029
    ||| code == 0x202f
    ||| code == 0x205f
    ||| code == 0x3000
}

/// `text` without the white space at its start.
pub open spec fn without_leading_space(text: Seq<char>) -> Seq<char>
    decreases text.len(),
{
    if text.len() > 0 && is_white_space(text.first()) {
        without_leading_space(text.drop_first())
    } else {
        text
    }
}

/// `text` without the white space at its end.
pub open spec fn without_trailing_space(text: Seq<char>) -> Seq<char>
    decreases text.len(),
{
    if text.len() > 0 && is_white_space(text.last()) {
        without_trailing_space(text.drop_last())
    } else {
        text
    }
}

/// `text` without the white space at its two ends.
pub open spec fn trimmed(text: Seq<char>) -> Seq<char> {
    without_trailing_space(without_leading_space(text))
}

/// Calls `hex::decode` on the text.
///
/// Trusted: decoding succeeds exactly on an even number of hexadecimal
/// digits, of either case, and yields one byte for each pair of digits, the
/// high digit first.
#[verifier::external_body]
fn hex_decode(text: &str) -> (outcome: Result<Vec<u8>, hex::FromHexError>)
    ensures
        outcome is Ok <==> is_hex_encoding(text@),
        outcome matches Ok(bytes) ==> bytes@ == hex_decoded(text@),
{
    hex::decode(text)
}

/// Calls `str::trim`.
///
/// Trusted: the result is the text without the characters at its start and
/// at its end that have the Unicode property `White_Space`; what lies
/// between them stays, white space included.
#[verifier::external_body]
fn trim(text: &str) -> (inner: &str)
    ensures
        inner@ == trimmed(text@),
{
    text.trim()
}

/// The bytes that `text` spells out in hexadecimal, if it does.
pub fn decode_hex(text: &str) -> (bytes: Option<Vec<u8>>)
    ensures
        bytes is Some <==> is_hex_encoding(text@),
        bytes matches Some(decoded) ==> decoded@ == hex_decoded(text@),
{
    match hex_decode(text) {
        Ok(decoded) => Some(decoded),
        Err(_) => None,
    }
}

/// The raw transaction that `text` spells out in hexadecimal.
///
/// Text that is not an even number of hexadecimal digits is refused, and so
/// is the empty transaction.
pub fn decode_transaction_hex(text: &str) -> (result: Result<Vec<u8>, Error>)
    ensures
        result is Ok <==> is_hex_encoding(text@) && text@.len() > 0,
        result matches Ok(bytes) ==> bytes@ == hex_decoded(text@) && bytes@.len() > 0,
        result matches Err(failure) ==> failure == Error::MalformedInput,
{
    match decode_hex(text) {
        Some(bytes) => {
            if bytes.len() == 0 {
                Err(Error::MalformedInput)
            } else {
                Ok(bytes)
            }
        },
        None => Err(Error::MalformedInput),
    }
}

/// The raw transaction that `text` spells out in hexadecimal, white space
/// around it disregarded.
pub fn decode_raw_transaction(text: &str) -> (result: Result<Vec<u8>, Error>)
    ensures
        result is Ok <==> is_hex_encoding(trimmed(text@)) && trimmed(text@).len() > 0,
        result matches Ok(bytes) ==> bytes@ == hex_decoded(trimmed(text@)) && bytes@.len() > 0,
        result matches Err(failure) ==> failure == Error::MalformedInput,
{
    decode_transaction_hex(trim(text))
}

/// Whether `text` holds hexadecimal digits only.
pub fn is_hex_text(text: &str) -> (all: bool)
    ensures
        all == is_hex(text@),
{
    if !text.is_ascii() {
        proof {
            let i = choose|i: int|
                0 <= i < text@.len() && !('\0' <= #[trigger] text@[i] <= '\u{7f}');
            assert(!is_hex_digit(text@[i]));
        }
        return false;
    }
    proof {
        is_ascii_spec_bytes(text);
    }
    let bytes = text.as_bytes();
    let mut i: usize = 0;
    while i < bytes.len()
        invariant
            i <= bytes@.len(),
            bytes@.len() == text@.len(),
            forall|k: int| 0 <= k < bytes@.len() ==> bytes@[k] == text@[k] as u8,
            forall|k: int| 0 <= k < text@.len() ==> '\0' <= #[trigger] text@[k] <= '\u{7f}',
            forall|k: int| 0 <= k < i ==> is_hex_digit(#[trigger] text@[k]),
        decreases bytes@.len() - i,
    {
        let b: u8 = bytes[i];
        let digit = (0x30 <= b && b <= 0x39) || (0x61 <= b && b <= 0x66) || (0x41 <= b && b
            <= 0x46);
        proof {
            let c = text@[i as int];
            assert('\0' <= c <= '\u{7f}');
            assert(b == c as u8);
            assert(digit == is_hex_digit(c));
        }
        if !digit {
            return false;
        }
        i += 1;
    }
    true
}

} // verus!
