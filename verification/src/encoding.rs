//! Byte-to-text encodings used on the wire: Base64 for HTTP Basic
//! credentials, percent-encoding for query values, UTF-8 decoding of
//! server replies.
use base64::Engine as _;
use percent_encoding::{utf8_percent_encode, NON_ALPHANUMERIC};
use vstd::prelude::*;
use vstd::utf8::*;

verus! {

/// The symbol of the standard Base64 alphabet (RFC 4648) for a 6-bit value.
pub open spec fn base64_symbol(v: int) -> char {
    if v < 26 {
        (65 + v) as char
    } else if v < 52 {
        (97 + (v - 26)) as char
    } else if v < 62 {
        (48 + (v - 52)) as char
    } else if v == 62 {
        '+'
    } else {
        '/'
    }
}

/// Standard Base64 with `=` padding: every group of three bytes becomes four
/// symbols; a final group of one or two bytes is padded.
pub open spec fn base64_standard(b: Seq<u8>) -> Seq<char>
    decreases b.len(),
{
    if b.len() == 0 {
        seq![]
    } else {
        let b0 = b[0] as int;
        let b1 = if b.len() > 1 { b[1] as int } else { 0 };
        let b2 = if b.len() > 2 { b[2] as int } else { 0 };
        if b.len() == 1 {
            seq![base64_symbol(b0 / 4), base64_symbol((b0 % 4) * 16), '=', '=']
        } else if b.len() == 2 {
            seq![
                base64_symbol(b0 / 4),
                base64_symbol((b0 % 4) * 16 + b1 / 16),
                base64_symbol((b1 % 16) * 4),
                '=',
            ]
        } else {
            seq![
                base64_symbol(b0 / 4),
                base64_symbol((b0 % 4) * 16 + b1 / 16),
                base64_symbol((b1 % 16) * 4 + b2 / 64),
                base64_symbol(b2 % 64),
            ] + base64_standard(b.subrange(3, b.len() as int))
        }
    }
}

/// `base64::engine::general_purpose::STANDARD.encode` (base64 0.22): the
/// standard alphabet with padding. The contract claims the output is exactly
/// the RFC 4648 encoding of the input bytes.
#[verifier::external_body]
pub(crate) fn base64_encode(data: &[u8]) -> (r: String)
    ensures
        r@ == base64_standard(data@),
{
    base64::engine::general_purpose::STANDARD.encode(data)
}

/// ASCII letters and digits, the only bytes that `NON_ALPHANUMERIC` leaves
/// unencoded.
pub open spec fn is_ascii_alphanumeric_byte(b: u8) -> bool {
    (48 <= b <= 57) || (65 <= b <= 90) || (97 <= b <= 122)
}

/// An upper-case hexadecimal digit for a value below sixteen.
pub open spec fn hex_upper(v: int) -> char {
    if v < 10 {
        (48 + v) as char
    } else {
        (55 + v) as char
    }
}

/// Percent-encoding of a byte string with the set of everything that is not
/// an ASCII letter or digit: such bytes become `%XX` (upper-case hex), the
/// others stand for themselves.
pub open spec fn percent_encoded(b: Seq<u8>) -> Seq<char>
    decreases b.len(),
{
    if b.len() == 0 {
        seq![]
    } else {
        let rest = percent_encoded(b.drop_last());
        let x = b.last();
        if is_ascii_alphanumeric_byte(x) {
            rest.push(x as char)
        } else {
            rest + seq!['%', hex_upper(x as int / 16), hex_upper(x as int % 16)]
        }
    }
}

/// `percent_encoding::utf8_percent_encode(text, NON_ALPHANUMERIC)` rendered
/// with `to_string` (percent-encoding 2.3). The contract claims the result is
/// the percent-encoding of the UTF-8 bytes of `text`, every byte outside
/// `[A-Za-z0-9]` written as `%XX` with upper-case hex digits.
#[verifier::external_body]
pub(crate) fn percent_encode_text(text: &str) -> (r: String)
    ensures
        r@ == percent_encoded(encode_utf8(text@)),
{
    utf8_percent_encode(text, NON_ALPHANUMERIC).to_string()
}

/// `std::str::from_utf8`, the borrowed text copied into a `String`. The
/// contract claims success exactly on valid UTF-8, and that the text is then
/// the decoding of the bytes.
#[verifier::external_body]
pub(crate) fn utf8_text(bytes: &[u8]) -> (r: Option<String>)
    ensures
        r is Some <==> valid_utf8(bytes@),
        r matches Some(t) ==> t@ == decode_utf8(bytes@),
{
    match std::str::from_utf8(bytes) {
        Ok(s) => Some(s.to_string()),
        Err(_) => None,
    }
}

/// An ASCII letter or digit.
pub open spec fn is_ascii_alphanumeric_char(c: char) -> bool {
    ('0' <= c <= '9') || ('A' <= c <= 'Z') || ('a' <= c <= 'z')
}

/// Percent-encoded text consists of ASCII letters, digits and `%` only: it
/// cannot carry a separator such as `&`, `=`, `#` or a space into a URL.
pub proof fn lemma_percent_encoded_is_url_safe(b: Seq<u8>)
    ensures
        forall|i: int|
            0 <= i < percent_encoded(b).len() ==> is_ascii_alphanumeric_char(#[trigger] percent_encoded(b)[i])
                || percent_encoded(b)[i] == '%',
    decreases b.len(),
{
    if b.len() > 0 {
        lemma_percent_encoded_is_url_safe(b.drop_last());
        let x = b.last();
        let rest = percent_encoded(b.drop_last());
        if !is_ascii_alphanumeric_byte(x) {
            let tail = seq!['%', hex_upper(x as int / 16), hex_upper(x as int % 16)];
            assert(is_ascii_alphanumeric_char(tail[1]));
            assert(is_ascii_alphanumeric_char(tail[2]));
            assert forall|i: int| 0 <= i < percent_encoded(b).len() implies is_ascii_alphanumeric_char(
                #[trigger] percent_encoded(b)[i],
            ) || percent_encoded(b)[i] == '%' by {
                if i >= rest.len() {
                    assert(percent_encoded(b)[i] == tail[i - rest.len()]);
                }
            }
        }
    }
}

} // verus!
