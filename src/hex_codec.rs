//! Conversion between hexadecimal text and bytes.
use vstd::prelude::*;

verus! {

/// Whether `c` is one of `0-9`, `a-f` or `A-F`.
pub open spec fn is_hex_digit(c: char) -> bool {
    ('0' <= c && c <= '9') || ('a' <= c && c <= 'f') || ('A' <= c && c <= 'F')
}

/// Whether `c` is one of `0-9` or `a-f`.
pub open spec fn is_lower_hex_digit(c: char) -> bool {
    ('0' <= c && c <= '9') || ('a' <= c && c <= 'f')
}

/// The value, 0 to 15, of a hex digit.
pub open spec fn hex_digit_value(c: char) -> int {
    if '0' <= c && c <= '9' {
        c as int - '0' as int
    } else if 'a' <= c && c <= 'f' {
        c as int - 'a' as int + 10
    } else {
        c as int - 'A' as int + 10
    }
}

/// The lower-case hex digit for a value from 0 to 15.
pub open spec fn lower_hex_digit(n: int) -> char {
    if n < 10 {
        ('0' as int + n) as char
    } else {
        ('a' as int + n - 10) as char
    }
}

/// Text made of hex digits only, of even length.
pub open spec fn is_hex_text(s: Seq<char>) -> bool {
    &&& s.len() % 2 == 0
    &&& forall|i: int| 0 <= i < s.len() ==> is_hex_digit(#[trigger] s[i])
}

/// Text made of lower-case hex digits only, of even length.
pub open spec fn is_lower_hex_text(s: Seq<char>) -> bool {
    &&& s.len() % 2 == 0
    &&& forall|i: int| 0 <= i < s.len() ==> is_lower_hex_digit(#[trigger] s[i])
}

/// Text whose characters are all ASCII, so that each is one byte.
pub open spec fn is_ascii_text(s: Seq<char>) -> bool {
    forall|i: int| 0 <= i < s.len() ==> (#[trigger] s[i] as u32) < 128
}

/// The bytes that hex text stands for: each pair of digits, high digit first, is one byte.
pub open spec fn hex_decode_spec(s: Seq<char>) -> Seq<u8> {
    Seq::new(
        s.len() / 2,
        |i: int| (16 * hex_digit_value(s[2 * i]) + hex_digit_value(s[2 * i + 1])) as u8,
    )
}

/// The lower-case hex text of bytes: two digits per byte, high digit first.
pub open spec fn hex_encode_spec(b: Seq<u8>) -> Seq<char> {
    Seq::new(
        2 * b.len(),
        |i: int|
            if i % 2 == 0 {
                lower_hex_digit(b[i / 2] as int / 16)
            } else {
                lower_hex_digit(b[i / 2] as int % 16)
            },
    )
}

/// The position of the first character of `s` that is not a hex digit.
pub open spec fn first_non_hex(s: Seq<char>) -> int {
    choose|i: int|
        0 <= i < s.len() && !is_hex_digit(s[i]) && forall|j: int|
            0 <= j < i ==> is_hex_digit(#[trigger] s[j])
}

/// Why hex text fails to decode.
#[derive(Debug, Clone, Copy, PartialEq, Eq, Structural)]
pub enum DecodeError {
    /// A character that is not a hex digit, and its position.
    InvalidHexCharacter { c: char, index: usize },
    /// The text has an odd number of digits.
    OddLength,
    /// The text does not fit the length of the destination.
    InvalidStringLength,
}

/// The error that decoding ASCII text `s` that is not hex text reports: an odd
/// length first, else the first character that is not a hex digit.
pub open spec fn decode_error_of(s: Seq<char>) -> DecodeError {
    if s.len() % 2 != 0 {
        DecodeError::OddLength
    } else {
        let i = first_non_hex(s);
        DecodeError::InvalidHexCharacter { c: s[i], index: i as usize }
    }
}

/// Declares hex::FromHexError with its variants, so that verified code can match on it.
#[verifier::external_type_specification]
pub struct ExFromHexError(hex::FromHexError);

/// The same error in the library's own type.
pub open spec fn decode_error_from(e: hex::FromHexError) -> DecodeError {
    match e {
        hex::FromHexError::InvalidHexCharacter { c, index } => DecodeError::InvalidHexCharacter {
            c,
            index,
        },
        hex::FromHexError::OddLength => DecodeError::OddLength,
        hex::FromHexError::InvalidStringLength => DecodeError::InvalidStringLength,
    }
}

/// The message that describes an invalid character at a position.
pub uninterp spec fn invalid_character_text(c: char, index: usize) -> Seq<char>;

/// The message that describes a decode error.
pub open spec fn decode_error_message(e: DecodeError) -> Seq<char> {
    match e {
        DecodeError::InvalidHexCharacter { c, index } => invalid_character_text(c, index),
        DecodeError::OddLength => "Odd number of digits"@,
        DecodeError::InvalidStringLength => "Invalid string length"@,
    }
}

/// Relies on hex::decode: it accepts exactly the text of an even number of hex digits,
/// in either case, and turns each pair into one byte. On ASCII text it reports an odd
/// length first, else the first character that is not a hex digit, with its position.
#[verifier::external_body]
fn hex_decode(s: &str) -> (r: Result<Vec<u8>, hex::FromHexError>)
    ensures
        r.is_ok() <==> is_hex_text(s@),
        r matches Ok(v) ==> v@ == hex_decode_spec(s@),
        r matches Err(e) ==> is_ascii_text(s@) ==> decode_error_from(e) == decode_error_of(s@),
{
    hex::decode(s)
}

/// Relies on hex::encode: two lower-case digits for each byte, high digit first.
#[verifier::external_body]
fn hex_encode(b: &[u8]) -> (r: String)
    ensures
        r@ == hex_encode_spec(b@),
{
    hex::encode(b)
}

/// Relies on the `Display` impl of hex::FromHexError, for the message of each error.
#[verifier::external_body]
fn hex_error_text(e: &hex::FromHexError) -> (r: String)
    ensures
        match *e {
            hex::FromHexError::InvalidHexCharacter { c, index } => r@ == invalid_character_text(
                c,
                index,
            ),
            hex::FromHexError::OddLength => r@ == "Odd number of digits"@,
            hex::FromHexError::InvalidStringLength => r@ == "Invalid string length"@,
        },
{
    e.to_string()
}

/// Converts an error of the hex crate to the library's own.
fn to_decode_error(e: hex::FromHexError) -> (r: DecodeError)
    ensures
        r == decode_error_from(e),
{
    match e {
        hex::FromHexError::InvalidHexCharacter { c, index } => DecodeError::InvalidHexCharacter {
            c,
            index,
        },
        hex::FromHexError::OddLength => DecodeError::OddLength,
        hex::FromHexError::InvalidStringLength => DecodeError::InvalidStringLength,
    }
}

/// Decodes hex text, reporting a failure as a message.
pub fn decode_hex(hex_str: &str) -> (r: Result<Vec<u8>, String>)
    ensures
        r.is_ok() <==> is_hex_text(hex_str@),
        r matches Ok(v) ==> v@ == hex_decode_spec(hex_str@),
        r matches Err(m) ==> exists|e: DecodeError|
            m@ == "Failed to decode hex: "@ + #[trigger] decode_error_message(e),
        r matches Err(m) ==> is_ascii_text(hex_str@) ==> m@ == "Failed to decode hex: "@
            + decode_error_message(decode_error_of(hex_str@)),
{
    match hex_decode(hex_str) {
        Ok(v) => Ok(v),
        Err(e) => {
            let mut m = String::from_str("Failed to decode hex: ");
            let text = hex_error_text(&e);
            m.append(text.as_str());
            assert(m@ == "Failed to decode hex: "@ + decode_error_message(decode_error_from(e)));
            Err(m)
        },
    }
}

/// Encodes bytes as lower-case hex text.
pub fn bytes_to_hex(bytes: &[u8]) -> (r: String)
    ensures
        r@ == hex_encode_spec(bytes@),
{
    hex_encode(bytes)
}

/// Decodes hex text, reporting a failure as a structured error.
pub fn hex_to_bytes(hex: &str) -> (r: Result<Vec<u8>, DecodeError>)
    ensures
        r.is_ok() <==> is_hex_text(hex@),
        r matches Ok(v) ==> v@ == hex_decode_spec(hex@),
        r matches Err(e) ==> is_ascii_text(hex@) ==> e == decode_error_of(hex@),
{
    match hex_decode(hex) {
        Ok(v) => Ok(v),
        Err(e) => Err(to_decode_error(e)),
    }
}

proof fn lemma_lower_hex_digit(n: int)
    requires
        0 <= n < 16,
    ensures
        is_lower_hex_digit(lower_hex_digit(n)),
        is_hex_digit(lower_hex_digit(n)),
        hex_digit_value(lower_hex_digit(n)) == n,
{
}

proof fn lemma_lower_digit_value(c: char)
    requires
        is_lower_hex_digit(c),
    ensures
        0 <= hex_digit_value(c) < 16,
        lower_hex_digit(hex_digit_value(c)) == c,
{
}

/// Decoding the hex text of any bytes gives the bytes back.
pub proof fn lemma_decode_encode(b: Seq<u8>)
    ensures
        is_hex_text(hex_encode_spec(b)),
        hex_decode_spec(hex_encode_spec(b)) == b,
{
    let h = hex_encode_spec(b);
    assert forall|i: int| 0 <= i < h.len() implies is_hex_digit(#[trigger] h[i]) by {
        lemma_lower_hex_digit(b[i / 2] as int / 16);
        lemma_lower_hex_digit(b[i / 2] as int % 16);
    }
    assert forall|i: int| 0 <= i < b.len() implies hex_decode_spec(h)[i] == b[i] by {
        let x = b[i] as int;
        lemma_lower_hex_digit(x / 16);
        lemma_lower_hex_digit(x % 16);
        assert((2 * i) / 2 == i && (2 * i) % 2 == 0);
        assert((2 * i + 1) / 2 == i && (2 * i + 1) % 2 == 1);
    }
    assert(hex_decode_spec(h) =~= b);
}

/// Encoding the bytes of well-formed lower-case hex text gives the text back.
pub proof fn lemma_encode_decode(h: Seq<char>)
    requires
        is_lower_hex_text(h),
    ensures
        hex_encode_spec(hex_decode_spec(h)) == h,
{
    let b = hex_decode_spec(h);
    assert forall|i: int| 0 <= i < h.len() implies hex_encode_spec(b)[i] == h[i] by {
        let k = i / 2;
        lemma_lower_digit_value(h[2 * k]);
        lemma_lower_digit_value(h[2 * k + 1]);
        let hi = hex_digit_value(h[2 * k]);
        let lo = hex_digit_value(h[2 * k + 1]);
        assert(b[k] as int == 16 * hi + lo);
        assert((16 * hi + lo) / 16 == hi && (16 * hi + lo) % 16 == lo);
    }
    assert(hex_encode_spec(b) =~= h);
}

} // verus!
