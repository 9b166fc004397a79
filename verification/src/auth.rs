//! The `Authorization` header of HTTP Basic authentication, built with the
//! `base64` crate.

use crate::text::{optional_text, same_text};
use vstd::prelude::*;
use vstd::string::*;
use vstd::utf8::{
    decode_utf8, encode_utf8, encode_utf8_decode_utf8, encode_utf8_valid_utf8, valid_utf8,
};

verus! {

/// `base64::DecodeError`. Nothing is read from it.
#[verifier::external_type_specification]
#[verifier::external_body]
pub struct ExDecodeError(base64::DecodeError);

/// `std::string::FromUtf8Error`. Nothing is read from it.
#[verifier::external_type_specification]
#[verifier::external_body]
pub struct ExFromUtf8Error(std::string::FromUtf8Error);

/// The character that stands for a value of six bits in the standard
/// alphabet: `A` to `Z`, `a` to `z`, `0` to `9`, `+` and `/`.
pub open spec fn base64_char(sextet: nat) -> char
    recommends
        sextet < 64,
{
    if sextet < 26 {
        ('A' as u8 + sextet) as u8 as char
    } else if sextet < 52 {
        ('a' as u8 + sextet - 26) as u8 as char
    } else if sextet < 62 {
        ('0' as u8 + sextet - 52) as u8 as char
    } else if sextet == 62 {
        '+'
    } else {
        '/'
    }
}

/// Base64 with the standard alphabet and padding: every three bytes make
/// a group of 24 bits that is written as four characters, six bits each,
/// most significant first; a last group of one or two bytes is filled up
/// with zero bits and written as two or three characters and `=` for the
/// rest.
pub open spec fn base64_standard(bytes: Seq<u8>) -> Seq<char>
    decreases bytes.len(),
{
    if bytes.len() == 0 {
        Seq::empty()
    } else {
        let second = if bytes.len() > 1 { bytes[1] as nat } else { 0 };
        let third = if bytes.len() > 2 { bytes[2] as nat } else { 0 };
        let group = bytes[0] as nat * 65536 + second * 256 + third;
        let written = seq![
            base64_char(group / 262144),
            base64_char(group / 4096 % 64),
            if bytes.len() > 1 { base64_char(group / 64 % 64) } else { '=' },
            if bytes.len() > 2 { base64_char(group % 64) } else { '=' },
        ];
        if bytes.len() <= 3 {
            written
        } else {
            written + base64_standard(bytes.subrange(3, bytes.len() as int))
        }
    }
}

/// The bytes that the `base64` crate's `STANDARD` engine decodes a text
/// to, or `None` where it rejects the text.
pub uninterp spec fn base64_standard_decoded(text: Seq<char>) -> Option<Seq<u8>>;

/// The length of padded base64 text for `len` bytes: four characters for
/// every three bytes, the last group filled up.
pub open spec fn padded_len(len: nat) -> nat {
    if len % 3 == 0 {
        len / 3 * 4
    } else {
        len / 3 * 4 + 4
    }
}

/// `Engine::encode` of `base64::engine::general_purpose::STANDARD`. It
/// panics where the length of the text overflows `usize`, which the
/// precondition rules out. The contract says that the text is the base64
/// of the bytes, in the alphabet and with the padding that this engine is
/// made with, and that the same engine decodes that text back to the
/// bytes it was made from.
#[verifier::external_body]
fn encode_standard(bytes: &[u8]) -> (text: String)
    requires
        padded_len(bytes@.len()) <= usize::MAX,
    ensures
        text@ == base64_standard(bytes@),
        base64_standard_decoded(text@) == Some(bytes@),
{
    base64::Engine::encode(&base64::engine::general_purpose::STANDARD, bytes)
}

/// `Engine::decode` of `base64::engine::general_purpose::STANDARD`. The
/// contract only gives the outcome its name.
#[verifier::external_body]
fn decode_standard(text: &str) -> (bytes: Result<Vec<u8>, base64::DecodeError>)
    ensures
        match bytes {
            Ok(decoded) => base64_standard_decoded(text@) == Some(decoded@),
            Err(_) => base64_standard_decoded(text@) is None,
        },
{
    base64::Engine::decode(&base64::engine::general_purpose::STANDARD, text)
}

/// `String::from_utf8`: the string that the bytes encode, or an error
/// where they are not UTF-8.
#[verifier::external_body]
fn string_from_utf8(bytes: Vec<u8>) -> (text: Result<String, std::string::FromUtf8Error>)
    ensures
        match text {
            Ok(decoded) => valid_utf8(bytes@) && decoded@ == decode_utf8(bytes@),
            Err(_) => !valid_utf8(bytes@),
        },
{
    String::from_utf8(bytes)
}

/// The name of the authentication scheme, with the space that separates
/// it from the credentials.
pub open spec fn scheme() -> Seq<char> {
    "Basic "@
}

/// The user-id and password of Basic authentication, joined by a colon.
pub open spec fn credentials(email: Seq<char>, token: Seq<char>) -> Seq<char> {
    email + ":"@ + token
}

/// The value of the `Authorization` header for an email and a token.
pub open spec fn authorization(email: Seq<char>, token: Seq<char>) -> Seq<char> {
    scheme() + base64_standard(encode_utf8(credentials(email, token)))
}

/// Whether the header for an email and a token can be built on this
/// machine: the length of the encoded credentials has to fit `usize`.
pub open spec fn encodable(email: Seq<char>, token: Seq<char>) -> bool {
    padded_len(encode_utf8(credentials(email, token)).len()) <= usize::MAX
}

/// The credentials that a header value carries: what stands after the
/// scheme, decoded from base64 and then from UTF-8.
pub open spec fn credentials_in(header: Seq<char>) -> Option<Seq<char>> {
    if header.len() >= scheme().len() && header.subrange(0, scheme().len() as int) == scheme() {
        match base64_standard_decoded(header.subrange(scheme().len() as int, header.len() as int)) {
            Some(bytes) => if valid_utf8(bytes) {
                Some(decode_utf8(bytes))
            } else {
                None
            },
            None => None,
        }
    } else {
        None
    }
}

/// Whether `basic_auth_header` can be called on this email and token.
pub fn can_encode(email: &str, token: &str) -> (fits: bool)
    ensures
        fits == encodable(email@, token@),
{
    let joined = join_credentials(email, token);
    let len: usize = joined.as_str().as_bytes().len();
    if len % 3 == 0 {
        len / 3 <= usize::MAX / 4
    } else {
        len / 3 <= (usize::MAX - 4) / 4
    }
}

fn join_credentials(email: &str, token: &str) -> (joined: String)
    ensures
        joined@ == credentials(email@, token@),
{
    let mut joined = String::from_str(email);
    joined.append(":");
    joined.append(token);
    joined
}

/// Puts the scheme in front of credentials that are already encoded.
pub fn with_scheme(encoded: &str) -> (header: String)
    ensures
        header@ == scheme() + encoded@,
{
    let mut header = String::from_str("Basic ");
    header.append(encoded);
    header
}

/// Builds the value of the `Authorization` header: `Basic`, a space, and
/// the base64 text of `email:token`. Decoding the header gives `email:token`
/// back.
pub fn basic_auth_header(email: &str, token: &str) -> (header: String)
    requires
        encodable(email@, token@),
    ensures
        header@ == authorization(email@, token@),
        credentials_in(header@) == Some(credentials(email@, token@)),
{
    let joined = join_credentials(email, token);
    let encoded = encode_standard(joined.as_str().as_bytes());
    let header = with_scheme(encoded.as_str());
    proof {
        let bytes = encode_utf8(joined@);
        encode_utf8_valid_utf8(joined@);
        encode_utf8_decode_utf8(joined@);
        assert(header@.subrange(0, scheme().len() as int) == scheme());
        assert(header@.subrange(scheme().len() as int, header@.len() as int) == encoded@);
    }
    header
}

/// Reads the credentials back out of an `Authorization` header value.
/// `None` where the value does not start with the scheme, or where what
/// follows is not the base64 text of a UTF-8 string.
pub fn credentials_of(header: &str) -> (found: Option<String>)
    ensures
        optional_text(found) == credentials_in(header@),
{
    proof {
        reveal_strlit("Basic ");
    }
    let len: usize = header.unicode_len();
    if len < 6 {
        return None;
    }
    if !same_text(header.substring_char(0, 6), "Basic ") {
        return None;
    }
    let decoded = match decode_standard(header.substring_char(6, len)) {
        Ok(bytes) => bytes,
        Err(_) => return None,
    };
    match string_from_utf8(decoded) {
        Ok(text) => Some(text),
        Err(_) => None,
    }
}

} // verus!
