use crate::text::{chars_of, string_of, trim, trim_chars};
use base64::Engine;
use sha2::Digest;
use vstd::prelude::*;

verus! {

/// Lowercase hexadecimal digit for a nibble `n < 16`.
pub open spec fn hex_char(n: nat) -> char {
    if n < 10 {
        crate::text::digit_char(n)
    } else if n == 10 { 'a' } else if n == 11 { 'b' } else if n == 12 { 'c' }
    else if n == 13 { 'd' } else if n == 14 { 'e' } else { 'f' }
}

/// Lowercase hexadecimal encoding, two digits per byte, high nibble first.
pub open spec fn hex(bytes: Seq<u8>) -> Seq<char>
    decreases bytes.len(),
{
    if bytes.len() == 0 {
        Seq::empty()
    } else {
        hex(bytes.drop_last()) + seq![hex_char((bytes.last() / 16) as nat), hex_char((bytes.last() % 16) as nat)]
    }
}

fn hex_digit(n: u8) -> (c: char)
    requires
        n < 16,
    ensures
        c == hex_char(n as nat),
{
    if n == 0 { '0' } else if n == 1 { '1' } else if n == 2 { '2' } else if n == 3 { '3' }
    else if n == 4 { '4' } else if n == 5 { '5' } else if n == 6 { '6' } else if n == 7 { '7' }
    else if n == 8 { '8' } else if n == 9 { '9' } else if n == 10 { 'a' } else if n == 11 { 'b' }
    else if n == 12 { 'c' } else if n == 13 { 'd' } else if n == 14 { 'e' } else { 'f' }
}

/// Lowercase hexadecimal encoding of `bytes`.
pub fn hex_digest(bytes: &[u8]) -> (s: String)
    ensures
        s@ == hex(bytes@),
        s@.len() == 2 * bytes@.len(),
{
    let mut out: Vec<char> = Vec::new();
    let mut i: usize = 0;
    while i < bytes.len()
        invariant
            i <= bytes.len(),
            out@ == hex(bytes@.subrange(0, i as int)),
            out@.len() == 2 * i,
        decreases bytes.len() - i,
    {
        let b = bytes[i];
        out.push(hex_digit(b / 16));
        out.push(hex_digit(b % 16));
        proof {
            let p = bytes@.subrange(0, i + 1);
            assert(p.drop_last() =~= bytes@.subrange(0, i as int));
            assert(p.last() == b);
        }
        i += 1;
        assert(out@ =~= hex(bytes@.subrange(0, i as int)));
    }
    assert(bytes@.subrange(0, bytes.len() as int) =~= bytes@);
    string_of(&out)
}

/// SHA-256 digest of `data`.
pub uninterp spec fn sha256(data: Seq<u8>) -> Seq<u8>;

/// SHA-256 of `data`, computed by `sha2::Sha256::digest`. The digest is
/// 32 bytes.
#[verifier::external_body]
pub(crate) fn sha256_digest(data: &[u8]) -> (d: Vec<u8>)
    ensures
        d@ == sha256(data@),
        d@.len() == 32,
{
    sha2::Sha256::digest(data).to_vec()
}

/// Result of decoding with the base64 `STANDARD_NO_PAD` engine (standard
/// alphabet, padding rejected): the bytes, or `None` when the input is not
/// valid for that engine.
pub uninterp spec fn base64_decode_no_pad(input: Seq<u8>) -> Option<Seq<u8>>;

/// Result of decoding with the base64 `STANDARD` engine (standard alphabet,
/// canonical padding required).
pub uninterp spec fn base64_decode_padded(input: Seq<u8>) -> Option<Seq<u8>>;

/// Decodes with `base64::engine::general_purpose::STANDARD_NO_PAD`.
#[verifier::external_body]
fn decode_base64_no_pad(input: &[u8]) -> (r: Option<Vec<u8>>)
    ensures
        match r {
            Some(v) => base64_decode_no_pad(input@) == Some(v@),
            None => base64_decode_no_pad(input@) is None,
        },
{
    base64::engine::general_purpose::STANDARD_NO_PAD.decode(input).ok()
}

/// Decodes with `base64::engine::general_purpose::STANDARD`.
#[verifier::external_body]
fn decode_base64_padded(input: &[u8]) -> (r: Option<Vec<u8>>)
    ensures
        match r {
            Some(v) => base64_decode_padded(input@) == Some(v@),
            None => base64_decode_padded(input@) is None,
        },
{
    base64::engine::general_purpose::STANDARD.decode(input).ok()
}

/// UTF-8 bytes of the trimmed text.
pub open spec fn trimmed_bytes(value: Seq<char>) -> Seq<u8> {
    vstd::utf8::encode_utf8(trim(value))
}

/// Standard base64, unpadded or padded, of the trimmed text.
pub open spec fn spec_decode_standard_base64(value: Seq<char>) -> Option<Seq<u8>> {
    match base64_decode_no_pad(trimmed_bytes(value)) {
        Some(v) => Some(v),
        None => base64_decode_padded(trimmed_bytes(value)),
    }
}

/// Decodes a ciphertext field sent as standard base64 with or without
/// padding, ignoring surrounding white space.
pub fn decode_standard_base64(field: &str, value: &str) -> (r: Result<Vec<u8>, crate::error::PublicError>)
    ensures
        match spec_decode_standard_base64(value@) {
            Some(v) => r matches Ok(bytes) && bytes@ == v,
            None => r matches Err(e) && e.code@ == "crypto"@
                && e.message@ == "invalid "@ + field@ + " ciphertext encoding"@,
        },
{
    let trimmed = string_of(&trim_chars(&chars_of(value)));
    let input = trimmed.as_str().as_bytes();
    match decode_base64_no_pad(input) {
        Some(v) => Ok(v),
        None => match decode_base64_padded(input) {
            Some(v) => Ok(v),
            None => {
                let mut message: Vec<char> = Vec::new();
                crate::text::push_str(&mut message, "invalid ");
                crate::text::push_str(&mut message, field);
                crate::text::push_str(&mut message, " ciphertext encoding");
                Err(crate::error::PublicError::crypto(string_of(&message)))
            },
        },
    }
}

/// Decodes a 32-byte agent public key sent as unpadded standard base64.
pub fn decode_agent_public_key(field: &str, value: &str) -> (r: Result<Vec<u8>, crate::error::PublicError>)
    ensures
        match base64_decode_no_pad(trimmed_bytes(value@)) {
            Some(v) => if v.len() == 32 {
                r matches Ok(key) && key@ == v
            } else {
                r matches Err(e) && e.code@ == "validation"@
                    && e.message@ == "invalid agent "@ + field@ + " public key length"@
            },
            None => r matches Err(e) && e.code@ == "validation"@
                && e.message@ == "invalid agent "@ + field@ + " public key"@,
        },
{
    let trimmed = string_of(&trim_chars(&chars_of(value)));
    match decode_base64_no_pad(trimmed.as_str().as_bytes()) {
        Some(v) => {
            if v.len() == 32 {
                Ok(v)
            } else {
                let mut message: Vec<char> = Vec::new();
                crate::text::push_str(&mut message, "invalid agent ");
                crate::text::push_str(&mut message, field);
                crate::text::push_str(&mut message, " public key length");
                Err(crate::error::PublicError::validation(string_of(&message)))
            }
        },
        None => {
            let mut message: Vec<char> = Vec::new();
            crate::text::push_str(&mut message, "invalid agent ");
            crate::text::push_str(&mut message, field);
            crate::text::push_str(&mut message, " public key");
            Err(crate::error::PublicError::validation(string_of(&message)))
        },
    }
}

/// The canonical text of a UUID: 32 lowercase hexadecimal digits of its
/// big-endian value, grouped 8-4-4-4-12 by hyphens.
pub open spec fn uuid_text(id: u128) -> Seq<char> {
    let h = hex_u128(id);
    h.subrange(0, 8) + seq!['-'] + h.subrange(8, 12) + seq!['-'] + h.subrange(12, 16) + seq!['-']
        + h.subrange(16, 20) + seq!['-'] + h.subrange(20, 32)
}

/// The 32 lowercase hexadecimal digits of `id`, most significant first.
pub open spec fn hex_u128(id: u128) -> Seq<char> {
    Seq::new(32, |i: int| hex_char(((id as nat) / pow16((31 - i) as nat)) % 16))
}

/// `16^n`.
pub open spec fn pow16(n: nat) -> nat
    decreases n,
{
    if n == 0 { 1 } else { 16 * pow16((n - 1) as nat) }
}

/// Result of `uuid::Uuid::parse_str`: the UUID that the text denotes in
/// any format the crate accepts, or `None`.
pub uninterp spec fn uuid_parse(text: Seq<char>) -> Option<u128>;

/// Parses a UUID with `uuid::Uuid::parse_str`.
#[verifier::external_body]
pub(crate) fn parse_uuid(text: &str) -> (r: Option<u128>)
    ensures
        r == uuid_parse(text@),
{
    uuid::Uuid::parse_str(text).ok().map(|id| id.as_u128())
}

/// Formats a UUID with `uuid::Uuid`'s `Display`, which writes the
/// lowercase hyphenated form.
#[verifier::external_body]
pub(crate) fn uuid_to_string(id: u128) -> (s: String)
    ensures
        s@ == uuid_text(id),
{
    uuid::Uuid::from_u128(id).to_string()
}

/// A UUID accepted only in its canonical lowercase hyphenated spelling.
pub open spec fn spec_parse_canonical_uuid(value: Seq<char>) -> Option<u128> {
    match uuid_parse(value) {
        Some(id) => if uuid_text(id) == value { Some(id) } else { None },
        None => None,
    }
}

/// Parses a UUID argument that must be written canonically.
pub fn parse_canonical_uuid(value: &str) -> (r: Result<u128, String>)
    ensures
        match uuid_parse(value@) {
            None => r matches Err(m) && m@ == "must be a UUID"@,
            Some(id) => if uuid_text(id) == value@ {
                r == Ok::<u128, String>(id)
            } else {
                r matches Err(m) && m@ == "must be a canonical lowercase hyphenated UUID"@
            },
        },
{
    match parse_uuid(value) {
        None => Err(crate::text::owned("must be a UUID")),
        Some(id) => {
            let text = uuid_to_string(id);
            if crate::text::str_eq(text.as_str(), value) {
                Ok(id)
            } else {
                Err(crate::text::owned("must be a canonical lowercase hyphenated UUID"))
            }
        },
    }
}

/// Clears `value` with `zeroize::Zeroize`, which overwrites the string's
/// whole allocation with zeros and leaves it empty.
#[verifier::external_body]
fn zeroize_string(value: &mut String)
    ensures
        final(value)@ == Seq::<char>::empty(),
{
    zeroize::Zeroize::zeroize(value)
}

/// Overwrites a sensitive string's memory and leaves it empty.
pub fn zeroize_sensitive_string(value: &mut String)
    ensures
        final(value)@ == Seq::<char>::empty(),
{
    zeroize_string(value)
}

} // verus!
