//! Text from bytes and code units, and numbers as text.

use vstd::prelude::*;
use std::string::FromUtf16Error;
use std::string::FromUtf8Error;
use vstd::utf8::char_is_scalar;
use vstd::utf8::char_u32_cast;
use vstd::utf8::decode_utf8;
use vstd::utf8::valid_utf8;

verus! {

/// The texts of a sequence of strings.
pub open spec fn texts(strings: Seq<String>) -> Seq<Seq<char>> {
    strings.map_values(|s: String| s@)
}

/// A sequence of pairs of strings as plain values.
pub open spec fn text_pairs(pairs: Seq<(String, String)>) -> Seq<(Seq<char>, Seq<char>)> {
    pairs.map_values(|p: (String, String)| (p.0@, p.1@))
}

/// True for a code unit in the surrogate range.
pub open spec fn is_surrogate(unit: u16) -> bool {
    0xD800 <= unit <= 0xDFFF
}

/// True for a code unit that opens a surrogate pair.
pub open spec fn is_leading_surrogate(unit: u16) -> bool {
    0xD800 <= unit <= 0xDBFF
}

/// True for a code unit that closes a surrogate pair.
pub open spec fn is_trailing_surrogate(unit: u16) -> bool {
    0xDC00 <= unit <= 0xDFFF
}

/// The scalar value that a surrogate pair stands for.
pub open spec fn surrogate_pair_scalar(leading: u16, trailing: u16) -> u32 {
    (0x1_0000 + (leading - 0xD800) * 0x400 + (trailing - 0xDC00)) as u32
}

/// True when the code units form well-formed UTF-16: every surrogate is
/// part of a pair of a leading and a trailing one.
pub open spec fn valid_utf16(units: Seq<u16>) -> bool
    decreases units.len(),
{
    if units.len() == 0 {
        true
    } else if !is_surrogate(units[0]) {
        valid_utf16(units.skip(1))
    } else {
        &&& is_leading_surrogate(units[0])
        &&& units.len() >= 2
        &&& is_trailing_surrogate(units[1])
        &&& valid_utf16(units.skip(2))
    }
}

/// The characters that well-formed UTF-16 code units stand for.
pub open spec fn decode_utf16(units: Seq<u16>) -> Seq<char>
    recommends
        valid_utf16(units),
    decreases units.len(),
{
    if units.len() == 0 {
        seq![]
    } else if !is_surrogate(units[0]) {
        seq![units[0] as char] + decode_utf16(units.skip(1))
    } else if units.len() >= 2 {
        seq![surrogate_pair_scalar(units[0], units[1]) as char] + decode_utf16(units.skip(2))
    } else {
        seq![]
    }
}

/// The one or two code units that encode a character in UTF-16.
pub open spec fn encode_utf16_char(c: char) -> Seq<u16> {
    let scalar = c as u32;
    if scalar < 0x1_0000 {
        seq![scalar as u16]
    } else {
        seq![
            (0xD800 + (scalar - 0x1_0000) / 0x400) as u16,
            (0xDC00 + (scalar - 0x1_0000) % 0x400) as u16,
        ]
    }
}

/// The code units that encode a text in UTF-16.
pub open spec fn encode_utf16(text: Seq<char>) -> Seq<u16>
    decreases text.len(),
{
    if text.len() == 0 {
        seq![]
    } else {
        encode_utf16_char(text[0]) + encode_utf16(text.skip(1))
    }
}

/// The character of a digit below sixteen, letters in lower case.
pub open spec fn digit_char(digit: nat) -> char {
    if digit < 10 {
        (0x30 + digit) as char
    } else {
        (0x61 + digit - 10) as char
    }
}

/// The decimal digits of `n`, most significant first, without leading zeros.
pub open spec fn decimal_digits(n: nat) -> Seq<char>
    decreases n,
{
    if n < 10 {
        seq![digit_char(n)]
    } else {
        decimal_digits(n / 10).push(digit_char(n % 10))
    }
}

/// The hexadecimal digits of `n` in lower case, most significant first,
/// without leading zeros.
pub open spec fn lower_hex_digits(n: nat) -> Seq<char>
    decreases n,
{
    if n < 16 {
        seq![digit_char(n)]
    } else {
        lower_hex_digits(n / 16).push(digit_char(n % 16))
    }
}

/// The error of `String::from_utf8`, which is carried through as it is.
#[verifier::external_type_specification]
#[verifier::external_body]
pub struct ExFromUtf8Error(FromUtf8Error);

/// The error of `String::from_utf16`, which is carried through as it is.
#[verifier::external_type_specification]
#[verifier::external_body]
pub struct ExFromUtf16Error(FromUtf16Error);

/// `String::from_utf8` of std: the text that the bytes encode, and an error
/// exactly where the bytes are not valid UTF-8.
#[verifier::external_body]
pub(crate) fn string_from_utf8(bytes: Vec<u8>) -> (r: Result<String, FromUtf8Error>)
    ensures
        r is Ok <==> valid_utf8(bytes@),
        r matches Ok(s) ==> s@ == decode_utf8(bytes@),
{
    String::from_utf8(bytes)
}

/// `String::from_utf16` of std: the text that the code units encode, and an
/// error exactly where they hold a surrogate that is not part of a pair.
#[verifier::external_body]
pub(crate) fn string_from_utf16(units: &[u16]) -> (r: Result<String, FromUtf16Error>)
    ensures
        r is Ok <==> valid_utf16(units@),
        r matches Ok(s) ==> s@ == decode_utf16(units@),
{
    String::from_utf16(units)
}

/// `u32::to_string` of std: the number in decimal digits.
#[verifier::external_body]
pub(crate) fn u32_to_decimal(n: u32) -> (s: String)
    ensures
        s@ == decimal_digits(n as nat),
{
    n.to_string()
}

/// `format!` of std with `{:x}`: the number in lower-case hexadecimal
/// digits, without a prefix.
#[verifier::external_body]
pub(crate) fn u32_to_lower_hex(n: u32) -> (s: String)
    ensures
        s@ == lower_hex_digits(n as nat),
{
    format!("{:x}", n)
}

/// `str == str` of std: true exactly where both hold the same characters.
#[verifier::external_body]
pub(crate) fn str_equal(a: &str, b: &str) -> (r: bool)
    ensures
        r == (a@ == b@),
{
    a == b
}

/// A copy of each string, in order.
pub fn clone_strings(strings: &[String]) -> (copy: Vec<String>)
    ensures
        copy@ == strings@,
{
    let mut copy: Vec<String> = Vec::new();
    let mut i: usize = 0;
    while i < strings.len()
        invariant
            i <= strings.len(),
            copy@ == strings@.take(i as int),
        decreases strings.len() - i,
    {
        copy.push(strings[i].clone());
        i += 1;
    }
    copy
}

/// The code units of a text are well-formed, and decode to the text.
pub proof fn lemma_utf16_encode_then_decode(text: Seq<char>)
    ensures
        valid_utf16(encode_utf16(text)),
        decode_utf16(encode_utf16(text)) == text,
    decreases text.len(),
{
    if text.len() > 0 {
        let c = text[0];
        let rest = encode_utf16(text.skip(1));
        let units = encode_utf16(text);
        lemma_utf16_encode_then_decode(text.skip(1));
        char_is_scalar(c);
        char_u32_cast(c, c as u32);
        if (c as u32) < 0x1_0000 {
            assert(units.skip(1) == rest);
        } else {
            assert(units.skip(2) == rest);
        }
    }
}

/// Well-formed code units are the code units of the text they decode to.
pub proof fn lemma_utf16_decode_then_encode(units: Seq<u16>)
    requires
        valid_utf16(units),
    ensures
        encode_utf16(decode_utf16(units)) == units,
    decreases units.len(),
{
    if units.len() > 0 {
        let text = decode_utf16(units);
        if !is_surrogate(units[0]) {
            lemma_utf16_decode_then_encode(units.skip(1));
            assert(text.skip(1) == decode_utf16(units.skip(1)));
        } else {
            lemma_utf16_decode_then_encode(units.skip(2));
            assert(text.skip(1) == decode_utf16(units.skip(2)));
        }
    }
}

} // verus!
