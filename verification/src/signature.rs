//! Authenticates a callback: the signature header must carry the HMAC-SHA256
//! of message id, timestamp and body under the shared secret, in hex, behind
//! the prefix `sha256=`.

use vstd::prelude::*;
use vstd::string::*;
use vstd::utf8::encode_utf8;
use crate::text::{strip_prefix, stripped};
use hmac::Mac;

verus! {

/// Why the hex crate rejected a text.
#[verifier::external_type_specification]
#[verifier::external_body]
pub struct ExFromHexError(hex::FromHexError);

/// The HMAC-SHA256 tag of a message under a key, as the `hmac` and `sha2`
/// crates compute it.
pub uninterp spec fn hmac_sha256(key: Seq<u8>, message: Seq<u8>) -> Seq<u8>;

/// Why a callback was not authenticated.
#[derive(Debug, Clone, Copy, PartialEq, Eq, Structural)]
pub enum SignatureError {
    /// One of message id, timestamp and signature is absent or no text.
    MissingHeader,
    /// The signature lacks its prefix or is no hex text.
    MalformedSignature,
    /// The signature is not the tag of this message.
    SignatureMismatch,
}

/// The prefix of a signature header's value.
pub open spec fn prefix() -> Seq<char> {
    "sha256="@
}

/// The value of a hex digit of either case: `0`-`9` (codes 48 to 57),
/// `a`-`f` (97 to 102), `A`-`F` (65 to 70).
pub open spec fn hex_value(c: char) -> Option<int> {
    let code = c as int;
    if 48 <= code <= 57 {
        Some(code - 48)
    } else if 97 <= code <= 102 {
        Some(code - 87)
    } else if 65 <= code <= 70 {
        Some(code - 55)
    } else {
        None
    }
}

/// A text of hex digits, two for each byte.
pub open spec fn is_hex(text: Seq<char>) -> bool {
    &&& text.len() % 2 == 0
    &&& forall|i: int| 0 <= i < text.len() ==> (#[trigger] hex_value(text[i])) is Some
}

/// The bytes that a hex text spells, the high digit of each byte first.
pub open spec fn hex_bytes(text: Seq<char>) -> Seq<u8> {
    Seq::new(
        text.len() / 2,
        |i: int| (hex_value(text[2 * i])->0 * 16 + hex_value(text[2 * i + 1])->0) as u8,
    )
}

/// What decoding a text gives: its bytes, or nothing where it is no hex text.
pub open spec fn hex_decoded(text: Seq<char>) -> Option<Seq<u8>> {
    if is_hex(text) {
        Some(hex_bytes(text))
    } else {
        None
    }
}

/// The bytes that the hex crate returned, if it returned any.
pub open spec fn decoded(out: Result<Vec<u8>, hex::FromHexError>) -> Option<Seq<u8>> {
    match out {
        Ok(bytes) => Some(bytes@),
        Err(_) => None,
    }
}

/// Calls `hex::decode`. The crate rejects a text of odd length and one with
/// any byte that is no hex digit; of the others it joins each pair of
/// digits, of either case, to one byte.
#[verifier::external_body]
fn hex_decode(text: &str) -> (out: Result<Vec<u8>, hex::FromHexError>)
    ensures
        decoded(out) == hex_decoded(text@),
{
    hex::decode(text)
}

/// Computes the HMAC-SHA256 tag of `message` under `key` with
/// `Hmac::<Sha256>::new_from_slice` and `update`, and compares it to `tag`
/// in constant time with `verify_slice`. A key of any length is accepted.
#[verifier::external_body]
fn hmac_sha256_matches(key: &[u8], message: &[u8], tag: &[u8]) -> (same: bool)
    ensures
        same == (tag@ == hmac_sha256(key@, message@)),
{
    match hmac::Hmac::<sha2::Sha256>::new_from_slice(key) {
        Ok(mut mac) => {
            mac.update(message);
            mac.verify_slice(tag).is_ok()
        },
        Err(_) => false,
    }
}

/// What a signature header's value stands for: the bytes behind the prefix,
/// or a malformed signature.
pub open spec fn signature_of(header: Seq<char>) -> Result<Seq<u8>, SignatureError> {
    match stripped(header, prefix()) {
        None => Err(SignatureError::MalformedSignature),
        Some(hex) => match hex_decoded(hex) {
            None => Err(SignatureError::MalformedSignature),
            Some(bytes) => Ok(bytes),
        },
    }
}

/// The text that is signed: message id, timestamp and body, with nothing
/// between them.
pub open spec fn signed_text(message_id: Seq<char>, timestamp: Seq<char>, body: Seq<char>) -> Seq<
    char,
> {
    message_id + timestamp + body
}

/// Whether a callback is authentic: its signature is well formed and equals
/// the tag of the signed text under the secret.
pub open spec fn checked(
    message_id: Seq<char>,
    timestamp: Seq<char>,
    body: Seq<char>,
    signature_header: Seq<char>,
    secret: Seq<u8>,
) -> Result<(), SignatureError> {
    match signature_of(signature_header) {
        Err(e) => Err(e),
        Ok(bytes) => if bytes == hmac_sha256(
            secret,
            encode_utf8(signed_text(message_id, timestamp, body)),
        ) {
            Ok(())
        } else {
            Err(SignatureError::SignatureMismatch)
        },
    }
}

/// A signature as bytes, with the error by value.
pub open spec fn signature_view(res: Result<Vec<u8>, SignatureError>) -> Result<
    Seq<u8>,
    SignatureError,
> {
    match res {
        Ok(bytes) => Ok(bytes@),
        Err(e) => Err(e),
    }
}

/// Reads the bytes of a signature from the header's value.
pub fn parse_signature(signature_header: &str) -> (res: Result<Vec<u8>, SignatureError>)
    ensures
        signature_view(res) == signature_of(signature_header@),
{
    let hex = match strip_prefix(signature_header, "sha256=") {
        Some(rest) => rest,
        None => {
            return Err(SignatureError::MalformedSignature);
        },
    };
    match hex_decode(hex) {
        Ok(bytes) => Ok(bytes),
        Err(_) => Err(SignatureError::MalformedSignature),
    }
}

/// The verdict on a signature that was compared with the message's tag.
pub fn verdict(same: bool) -> (res: Result<(), SignatureError>)
    ensures
        same ==> res == Ok::<(), SignatureError>(()),
        !same ==> res == Err::<(), SignatureError>(SignatureError::SignatureMismatch),
{
    if same {
        Ok(())
    } else {
        Err(SignatureError::SignatureMismatch)
    }
}

/// Checks the signature of a callback against the shared secret.
pub fn verify(
    message_id: &str,
    timestamp: &str,
    body: &str,
    signature_header: &str,
    secret: &[u8],
) -> (res: Result<(), SignatureError>)
    ensures
        res == checked(message_id@, timestamp@, body@, signature_header@, secret@),
{
    let mut input = message_id.to_owned();
    input.append(timestamp);
    input.append(body);
    let tag = match parse_signature(signature_header) {
        Ok(bytes) => bytes,
        Err(e) => {
            return Err(e);
        },
    };
    verdict(hmac_sha256_matches(secret, input.as_str().as_bytes(), tag.as_slice()))
}

/// The lower-case hex digit of a value below sixteen.
pub open spec fn hex_digit(value: int) -> char {
    if value == 0 {
        '0'
    } else if value == 1 {
        '1'
    } else if value == 2 {
        '2'
    } else if value == 3 {
        '3'
    } else if value == 4 {
        '4'
    } else if value == 5 {
        '5'
    } else if value == 6 {
        '6'
    } else if value == 7 {
        '7'
    } else if value == 8 {
        '8'
    } else if value == 9 {
        '9'
    } else if value == 10 {
        'a'
    } else if value == 11 {
        'b'
    } else if value == 12 {
        'c'
    } else if value == 13 {
        'd'
    } else if value == 14 {
        'e'
    } else {
        'f'
    }
}

/// The lower-case hex text of some bytes.
pub open spec fn hex_text(bytes: Seq<u8>) -> Seq<char> {
    Seq::new(
        2 * bytes.len(),
        |i: int|
            if i % 2 == 0 {
                hex_digit(bytes[i / 2] as int / 16)
            } else {
                hex_digit(bytes[i / 2] as int % 16)
            },
    )
}

/// The header value that signs a message under a secret.
pub open spec fn signature_for(
    message_id: Seq<char>,
    timestamp: Seq<char>,
    body: Seq<char>,
    secret: Seq<u8>,
) -> Seq<char> {
    prefix() + hex_text(hmac_sha256(secret, encode_utf8(signed_text(message_id, timestamp, body))))
}

/// Decoding the hex text of some bytes gives the bytes back.
pub proof fn lemma_hex_round_trip(bytes: Seq<u8>)
    ensures
        hex_decoded(hex_text(bytes)) == Some(bytes),
{
    let text = hex_text(bytes);
    assert forall|i: int| 0 <= i < text.len() implies (#[trigger] hex_value(text[i])) is Some by {
        let b = bytes[i / 2] as int;
        assert(0 <= b / 16 < 16 && 0 <= b % 16 < 16);
    }
    assert(is_hex(text));
    assert forall|k: int| 0 <= k < bytes.len() implies hex_bytes(text)[k] == bytes[k] by {
        let b = bytes[k] as int;
        assert((2 * k) / 2 == k && (2 * k) % 2 == 0);
        assert((2 * k + 1) / 2 == k && (2 * k + 1) % 2 == 1);
        assert(text[2 * k] == hex_digit(b / 16));
        assert(text[2 * k + 1] == hex_digit(b % 16));
        assert(0 <= b / 16 < 16 && 0 <= b % 16 < 16);
        assert(hex_value(hex_digit(b / 16)) == Some(b / 16));
        assert(hex_value(hex_digit(b % 16)) == Some(b % 16));
        assert((b / 16) * 16 + b % 16 == b);
    }
    assert(hex_bytes(text) =~= bytes);
}

/// A message whose signature header carries the prefix and the hex text of
/// its own tag is accepted, whatever its id, timestamp, body and secret.
pub proof fn lemma_correct_signature_accepted(
    message_id: Seq<char>,
    timestamp: Seq<char>,
    body: Seq<char>,
    secret: Seq<u8>,
)
    ensures
        checked(
            message_id,
            timestamp,
            body,
            signature_for(message_id, timestamp, body, secret),
            secret,
        ) == Ok::<(), SignatureError>(()),
{
    let tag = hmac_sha256(secret, encode_utf8(signed_text(message_id, timestamp, body)));
    let header = signature_for(message_id, timestamp, body, secret);
    assert(header.subrange(0, prefix().len() as int) =~= prefix());
    assert(header.skip(prefix().len() as int) =~= hex_text(tag));
    lemma_hex_round_trip(tag);
}

/// A well-formed signature whose bytes differ from the message's tag, in
/// one byte or in many, is rejected as a mismatch.
pub proof fn lemma_other_signature_rejected(
    message_id: Seq<char>,
    timestamp: Seq<char>,
    body: Seq<char>,
    signature_header: Seq<char>,
    secret: Seq<u8>,
)
    requires
        signature_of(signature_header) is Ok,
        signature_of(signature_header)->Ok_0 != hmac_sha256(
            secret,
            encode_utf8(signed_text(message_id, timestamp, body)),
        ),
    ensures
        checked(message_id, timestamp, body, signature_header, secret) == Err::<
            (),
            SignatureError,
        >(SignatureError::SignatureMismatch),
{
}

/// One signature is accepted for two messages only where both have the
/// same tag: a change to id, timestamp or body passes only by a collision
/// of the keyed hash.
pub proof fn lemma_accepted_twice_same_tag(
    first: (Seq<char>, Seq<char>, Seq<char>),
    second: (Seq<char>, Seq<char>, Seq<char>),
    signature_header: Seq<char>,
    secret: Seq<u8>,
)
    requires
        checked(first.0, first.1, first.2, signature_header, secret) is Ok,
        checked(second.0, second.1, second.2, signature_header, secret) is Ok,
    ensures
        hmac_sha256(secret, encode_utf8(signed_text(first.0, first.1, first.2))) == hmac_sha256(
            secret,
            encode_utf8(signed_text(second.0, second.1, second.2)),
        ),
{
}

} // verus!
