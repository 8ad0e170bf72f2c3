//! Text primitives shared by the signing routine and the wire format:
//! decimal numerals, lowercase hex, JSON string literals and HMAC-SHA256.
//!
//! The numerals are computed and proved here. The other three are computed by
//! the `hex`, `serde_json` and `hmac-sha256` crates; their contracts below are
//! believed, not proved. Hex and the JSON literal are stated character for
//! character; the HMAC tag goes by a name.

use vstd::prelude::*;
use vstd::string::StringExecFns;

verus! {

/// The character that stands for the hexadecimal digit `d`, lowercase.
/// Below ten it is also the decimal digit.
pub open spec fn digit_char(d: int) -> char {
    if d == 0 {
        '0'
    } else if d == 1 {
        '1'
    } else if d == 2 {
        '2'
    } else if d == 3 {
        '3'
    } else if d == 4 {
        '4'
    } else if d == 5 {
        '5'
    } else if d == 6 {
        '6'
    } else if d == 7 {
        '7'
    } else if d == 8 {
        '8'
    } else if d == 9 {
        '9'
    } else if d == 10 {
        'a'
    } else if d == 11 {
        'b'
    } else if d == 12 {
        'c'
    } else if d == 13 {
        'd'
    } else if d == 14 {
        'e'
    } else {
        'f'
    }
}

/// The decimal numeral of `n`: most significant digit first, no sign, no
/// leading zero (zero itself is `"0"`).
pub open spec fn decimal_text(n: nat) -> Seq<char>
    decreases n,
{
    if n < 10 {
        seq![digit_char(n as int)]
    } else {
        decimal_text(n / 10).push(digit_char((n % 10) as int))
    }
}

/// Lowercase hex of `data`: two digits per byte, the high four bits first.
pub open spec fn hex_text(data: Seq<u8>) -> Seq<char> {
    Seq::new(
        2 * data.len(),
        |i: int|
            if i % 2 == 0 {
                digit_char(data[i / 2] as int / 16)
            } else {
                digit_char(data[i / 2] as int % 16)
            },
    )
}

/// Whether `c` is one of `0` to `9` or `a` to `f`.
pub open spec fn is_lower_hex_digit(c: char) -> bool {
    ('0' <= c && c <= '9') || ('a' <= c && c <= 'f')
}

/// Hex text is twice as long as the data, and made of lowercase hex digits.
pub proof fn lemma_hex_text_shape(data: Seq<u8>)
    ensures
        hex_text(data).len() == 2 * data.len(),
        forall|i: int|
            0 <= i < hex_text(data).len() ==> is_lower_hex_digit(#[trigger] hex_text(data)[i]),
{
    assert forall|i: int| 0 <= i < hex_text(data).len() implies is_lower_hex_digit(
        #[trigger] hex_text(data)[i],
    ) by {
        let byte = data[i / 2] as int;
        assert(0 <= byte / 16 < 16 && 0 <= byte % 16 < 16);
    }
}

/// The HMAC-SHA256 tag of `input` under `key` (RFC 2104 over SHA-256).
pub uninterp spec fn hmac_sha256_mac(input: Seq<u8>, key: Seq<u8>) -> Seq<u8>;

/// How one character stands inside a JSON string literal. The quote and the
/// backslash get a backslash in front. Backspace, tab, line feed, form feed
/// and carriage return are written `\b`, `\t`, `\n`, `\f` and `\r`. Every
/// other character below U+0020 is written `\u00` and its two lowercase hex
/// digits. All other characters stand for themselves.
pub open spec fn json_char_text(c: char) -> Seq<char> {
    if c == '"' {
        seq!['\\', '"']
    } else if c == '\\' {
        seq!['\\', '\\']
    } else if c == '\u{8}' {
        seq!['\\', 'b']
    } else if c == '\t' {
        seq!['\\', 't']
    } else if c == '\n' {
        seq!['\\', 'n']
    } else if c == '\u{c}' {
        seq!['\\', 'f']
    } else if c == '\r' {
        seq!['\\', 'r']
    } else if (c as int) < 0x20 {
        seq!['\\', 'u', '0', '0', digit_char(c as int / 16), digit_char(c as int % 16)]
    } else {
        seq![c]
    }
}

/// The characters of `text` as they stand inside a JSON string literal, one
/// after another.
pub open spec fn json_escaped_text(text: Seq<char>) -> Seq<char>
    decreases text.len(),
{
    if text.len() == 0 {
        Seq::empty()
    } else {
        json_char_text(text[0]) + json_escaped_text(text.drop_first())
    }
}

/// The JSON string literal for `text`: its characters as they stand inside a
/// literal, between two double quotes.
pub open spec fn json_string_text(text: Seq<char>) -> Seq<char> {
    seq!['"'] + json_escaped_text(text) + seq!['"']
}

fn decimal_digit(d: u8) -> (text: &'static str)
    requires
        d < 10,
    ensures
        text@ == seq![digit_char(d as int)],
{
    proof {
        reveal_strlit("0");
        reveal_strlit("1");
        reveal_strlit("2");
        reveal_strlit("3");
        reveal_strlit("4");
        reveal_strlit("5");
        reveal_strlit("6");
        reveal_strlit("7");
        reveal_strlit("8");
        reveal_strlit("9");
    }
    match d {
        0 => "0",
        1 => "1",
        2 => "2",
        3 => "3",
        4 => "4",
        5 => "5",
        6 => "6",
        7 => "7",
        8 => "8",
        _ => "9",
    }
}

/// Writes `n` as a decimal numeral.
pub fn decimal_string(n: u128) -> (text: String)
    ensures
        text@ == decimal_text(n as nat),
    decreases n,
{
    if n < 10 {
        String::from_str(decimal_digit(n as u8))
    } else {
        let mut text = decimal_string(n / 10);
        text.append(decimal_digit((n % 10) as u8));
        text
    }
}

/// `hmac_sha256::HMAC::mac`: the 32-byte HMAC-SHA256 tag of `input` under
/// `key`. The tag is a function of the two byte strings alone; which function
/// is taken on trust and goes by the name `hmac_sha256_mac`.
#[verifier::external_body]
pub(crate) fn hmac_sha256(input: &[u8], key: &[u8]) -> (mac: [u8; 32])
    ensures
        mac@ == hmac_sha256_mac(input@, key@),
{
    hmac_sha256::HMAC::mac(input, key)
}

/// `hex::encode`: every byte becomes two lowercase hex digits, high half
/// first, in the order of the input.
#[verifier::external_body]
pub(crate) fn hex_encode(data: &[u8]) -> (text: String)
    ensures
        text@ == hex_text(data@),
{
    hex::encode(data)
}

/// `serde_json`'s rendering of a JSON string value (`Value::String` through
/// its `Display`): the literal that stands for `text` in a compact JSON
/// document. It opens and closes with a double quote; in between, the quote,
/// the backslash and the characters below U+0020 are escaped as
/// `json_char_text` says and every other character is copied.
#[verifier::external_body]
pub(crate) fn json_string(text: &str) -> (literal: String)
    ensures
        literal@ == json_string_text(text@),
{
    serde_json::Value::String(text.to_owned()).to_string()
}

} // verus!
