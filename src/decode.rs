//! Decoding of request-derived values according to a declared encoding.
use base64::DecodeError as Base64DecodeError;
use vstd::prelude::*;
use vstd::utf8::{
    decode_utf8, decode_utf8_encode_utf8, encode_utf8, encode_utf8_decode_utf8,
    encode_utf8_valid_utf8, valid_utf8,
};

verus! {

#[verifier::external_type_specification]
#[verifier::external_body]
pub struct ExBase64DecodeError(Base64DecodeError);

#[verifier::external_type_specification]
#[verifier::external_body]
pub struct ExFromUtf8Error(std::string::FromUtf8Error);

/// The bytes that base64 decoding yields for a text, or `None` when the text
/// is not valid base64 in the chosen alphabet (URL-safe or standard, padded).
pub uninterp spec fn base64_decoded(s: Seq<char>, url_safe: bool) -> Option<Seq<u8>>;

/// Is `c` a symbol of the base64 alphabet (padding excluded)?
pub open spec fn is_base64_symbol(c: char, url_safe: bool) -> bool {
    ||| ('A' <= c && c <= 'Z')
    ||| ('a' <= c && c <= 'z')
    ||| ('0' <= c && c <= '9')
    ||| (!url_safe && (c == '+' || c == '/'))
    ||| (url_safe && (c == '-' || c == '_'))
}

/// Does `s` hold a character that is neither a symbol of the alphabet nor padding?
pub open spec fn has_foreign_char(s: Seq<char>, url_safe: bool) -> bool {
    exists|i: int| 0 <= i < s.len() && !is_base64_symbol(#[trigger] s[i], url_safe) && s[i] != '='
}

/// Relies on base64::decode_config with the padded STANDARD or URL_SAFE
/// configuration: the result depends on the text alone, and a byte outside
/// the alphabet that is not padding is rejected (InvalidByte or InvalidLength).
#[verifier::external_body]
fn base64_decode(input: &str, url_safe: bool) -> (r: Result<Vec<u8>, Base64DecodeError>)
    ensures
        r is Ok <==> base64_decoded(input@, url_safe) is Some,
        r is Ok ==> r->Ok_0@ == base64_decoded(input@, url_safe)->0,
        has_foreign_char(input@, url_safe) ==> r is Err,
{
    let config = if url_safe { base64::URL_SAFE } else { base64::STANDARD };
    base64::decode_config(input, config)
}

/// Relies on String::from_utf8: it succeeds exactly on valid UTF-8 and then
/// holds the characters that the bytes encode.
#[verifier::external_body]
fn string_from_utf8(bytes: Vec<u8>) -> (r: Result<String, std::string::FromUtf8Error>)
    ensures
        r is Ok <==> valid_utf8(bytes@),
        r is Ok ==> r->Ok_0@ == decode_utf8(bytes@),
{
    String::from_utf8(bytes)
}

/// Why a value could not be decoded.
#[derive(Debug)]
pub enum DecodeError {
    /// The text is not valid base64 in the selected alphabet.
    Base64Error(Base64DecodeError),
    /// The decoded bytes are not valid UTF-8.
    Utf8Error(std::string::FromUtf8Error),
}

/// The encoding declared for a configured field.
#[derive(Debug, Clone, PartialEq, Eq, Structural)]
pub enum Decode {
    PlainText,
    Base64,
    Base64UrlSafe,
}

impl Default for Decode {
    fn default() -> (r: Self)
        ensures
            r == Decode::PlainText,
    {
        Decode::PlainText
    }
}

/// What decoding a text comes to, with the error details left out.
pub enum Decoded {
    Text(Seq<char>),
    BadBase64,
    BadUtf8,
}

/// What a decoding result comes to.
pub open spec fn decoded_of(r: Result<String, DecodeError>) -> Decoded {
    match r {
        Ok(s) => Decoded::Text(s@),
        Err(DecodeError::Base64Error(_)) => Decoded::BadBase64,
        Err(DecodeError::Utf8Error(_)) => Decoded::BadUtf8,
    }
}

/// Base64 decoding in one alphabet followed by reading the bytes as UTF-8.
pub open spec fn base64_text(s: Seq<char>, url_safe: bool) -> Decoded {
    match base64_decoded(s, url_safe) {
        None => Decoded::BadBase64,
        Some(b) => if valid_utf8(b) {
            Decoded::Text(decode_utf8(b))
        } else {
            Decoded::BadUtf8
        },
    }
}

/// Reads the outcome of base64 decoding as text: a base64 error is kept,
/// and decoded bytes must be UTF-8.
pub fn text_of_decoded(decoded: Result<Vec<u8>, Base64DecodeError>) -> (r: Result<
    String,
    DecodeError,
>)
    ensures
        decoded is Err ==> decoded_of(r) == Decoded::BadBase64,
        decoded matches Ok(b) ==> decoded_of(r) == if valid_utf8(b@) {
            Decoded::Text(decode_utf8(b@))
        } else {
            Decoded::BadUtf8
        },
{
    match decoded {
        Err(e) => Err(DecodeError::Base64Error(e)),
        Ok(bytes) => match string_from_utf8(bytes) {
            Err(e) => Err(DecodeError::Utf8Error(e)),
            Ok(text) => Ok(text),
        },
    }
}

impl Decode {
    /// What decoding `s` in this mode yields.
    pub open spec fn spec_decode(self, s: Seq<char>) -> Decoded {
        match self {
            Decode::PlainText => Decoded::Text(s),
            Decode::Base64 => base64_text(s, false),
            Decode::Base64UrlSafe => base64_text(s, true),
        }
    }

    /// Decodes `input` in this mode: plain text is handed back as it is,
    /// base64 is decoded in its alphabet and must then be UTF-8 text.
    pub fn decode(&self, input: String) -> (r: Result<String, DecodeError>)
        ensures
            decoded_of(r) == self.spec_decode(input@),
            *self == Decode::PlainText ==> r == Ok::<String, DecodeError>(input),
            *self == Decode::Base64 && has_foreign_char(input@, false) ==> decoded_of(r) is BadBase64,
            *self == Decode::Base64UrlSafe && has_foreign_char(input@, true) ==> decoded_of(r) is BadBase64,
    {
        let url_safe = match self {
            Decode::PlainText => { return Ok(input); },
            Decode::Base64 => false,
            Decode::Base64UrlSafe => true,
        };
        text_of_decoded(base64_decode(input.as_str(), url_safe))
    }
}

/// Plain text decodes to itself, the empty text included.
pub proof fn lemma_plain_text_identity(s: Seq<char>)
    ensures
        Decode::PlainText.spec_decode(s) == Decoded::Text(s),
{
}

/// Decoding in standard base64 gives back what was encoded: a text whose
/// base64 decoding is the UTF-8 encoding of `t` decodes to `t`.
pub proof fn lemma_base64_round_trip(s: Seq<char>, t: Seq<char>)
    requires
        base64_decoded(s, false) == Some(encode_utf8(t)),
    ensures
        Decode::Base64.spec_decode(s) == Decoded::Text(t),
{
    encode_utf8_valid_utf8(t);
    encode_utf8_decode_utf8(t);
}

/// A text whose standard base64 decoding is the bytes `b` decodes to text
/// whose UTF-8 encoding is `b` when `b` is UTF-8, and fails as UTF-8 when it
/// is not.
pub proof fn lemma_base64_bytes(s: Seq<char>, b: Seq<u8>)
    requires
        base64_decoded(s, false) == Some(b),
    ensures
        valid_utf8(b) ==> (Decode::Base64.spec_decode(s) matches Decoded::Text(t) && encode_utf8(t)
            == b),
        !valid_utf8(b) ==> Decode::Base64.spec_decode(s) == Decoded::BadUtf8,
{
    if valid_utf8(b) {
        decode_utf8_encode_utf8(b);
    }
}

} // verus!
