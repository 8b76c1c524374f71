//! Request signatures.
//!
//! A request is signed with HMAC-SHA256 over its time and its body. The
//! signature is the text `v1=` followed by the code in hexadecimal.

use crate::protocol::{QefroConfig, QefroConfigView};
use crate::text;
use crate::text::{decimal_i64, join};
use hmac::{Hmac, Mac};
use sha2::Sha256;
use subtle::ConstantTimeEq;
use vstd::prelude::*;
use vstd::string::*;
use vstd::utf8::*;

verus! {

/// The hexadecimal digit with value `d`, in lower case.
pub open spec fn hex_char(d: nat) -> char {
    if d < 10 {
        (('0' as u32) + d) as char
    } else {
        (('a' as u32) + (d - 10)) as char
    }
}

/// Bytes in hexadecimal: two digits for each, the high one first.
pub open spec fn hex_spec(bytes: Seq<u8>) -> Seq<char> {
    Seq::new(
        2 * bytes.len(),
        |i: int|
            if i % 2 == 0 {
                hex_char((bytes[i / 2] / 16) as nat)
            } else {
                hex_char((bytes[i / 2] % 16) as nat)
            },
    )
}

/// The HMAC-SHA256 code of a message under a key.
pub uninterp spec fn hmac_sha256_spec(key: Seq<u8>, message: Seq<u8>) -> Seq<u8>;

/// `hmac::Hmac` over `sha2::Sha256`, given a key of any length and a message,
/// computes their HMAC-SHA256 code, which is a function of the two and has 32
/// bytes.
#[verifier::external_body]
fn hmac_sha256(key: &[u8], message: &[u8]) -> (r: Vec<u8>)
    ensures
        r@ == hmac_sha256_spec(key@, message@),
        r@.len() == 32,
{
    let mut mac = Hmac::<Sha256>::new_from_slice(key).expect("HMAC accepts any key length");
    mac.update(message);
    mac.finalize().into_bytes().to_vec()
}

/// `hex::encode` writes each byte as two lower case hexadecimal digits.
#[verifier::external_body]
fn hex_encode(bytes: &[u8]) -> (r: String)
    ensures
        r@ == hex_spec(bytes@),
{
    hex::encode(bytes)
}

/// `ConstantTimeEq::ct_eq` of the `subtle` crate, on slices of bytes, says whether
/// they have the same length and the same bytes. That it takes the same time for
/// all slices of a length is not stated.
#[verifier::external_body]
fn ct_eq(a: &[u8], b: &[u8]) -> (r: bool)
    ensures
        r == (a@ == b@),
{
    bool::from(a.ct_eq(b))
}

/// What is signed: the time of the request and its body.
pub open spec fn signed_payload(timestamp: i64, body: Seq<char>) -> Seq<char> {
    "v1:"@ + text::decimal_int_spec(timestamp as int) + ":"@ + body
}

/// The text of a signature with a code.
pub open spec fn signature_text(code: Seq<u8>) -> Seq<char> {
    "v1="@ + hex_spec(code)
}

/// The signature of a request.
pub open spec fn signature_spec(
    secret: Seq<char>,
    timestamp: i64,
    body: Seq<char>,
) -> Seq<char> {
    signature_text(
        hmac_sha256_spec(encode_utf8(secret), encode_utf8(signed_payload(timestamp, body))),
    )
}

/// Whether the time of a request is within the allowed skew of the present.
pub open spec fn is_timely(max_skew_secs: i64, now_secs: i64, timestamp: i64) -> bool {
    -max_skew_secs <= now_secs - timestamp <= max_skew_secs
}

/// Whether a request is signed with the secret of the webhook, and is timely.
pub open spec fn is_signed(
    config: QefroConfigView,
    now_secs: i64,
    signature: Seq<char>,
    timestamp: i64,
    body: Seq<char>,
) -> bool {
    is_timely(config.max_timestamp_skew_secs, now_secs, timestamp) && signature == signature_spec(
        config.signing_secret,
        timestamp,
        body,
    )
}

/// The code of a request.
fn request_code(secret: &str, timestamp: i64, body: &str) -> (r: Vec<u8>)
    ensures
        r@ == hmac_sha256_spec(
            encode_utf8(secret@),
            encode_utf8(signed_payload(timestamp, body@)),
        ),
        r@.len() == 32,
{
    let payload = join("v1:", decimal_i64(timestamp).as_str());
    let payload = join(payload.as_str(), ":");
    let payload = join(payload.as_str(), body);
    hmac_sha256(secret.as_bytes(), payload.as_str().as_bytes())
}

/// The text of a signature with a code.
pub fn format_signature(code: &[u8]) -> (r: String)
    ensures
        r@ == signature_text(code@),
{
    join("v1=", hex_encode(code).as_str())
}

/// Whether a signature is the one with a code.
pub fn signature_matches(code: &[u8], signature: &str) -> (r: bool)
    ensures
        r == (signature@ == signature_text(code@)),
{
    let expected = format_signature(code);
    let same: bool = ct_eq(expected.as_str().as_bytes(), signature.as_bytes());
    proof {
        if same {
            text::lemma_same_bytes(expected@, signature@);
        }
    }
    same
}

/// The signature of a request.
pub fn sign(secret: &str, timestamp: i64, body: &str) -> (r: String)
    ensures
        r@ == signature_spec(secret@, timestamp, body@),
{
    format_signature(request_code(secret, timestamp, body).as_slice())
}

/// Whether a request is signed with the secret of the webhook and is timely, at
/// an instant.
pub fn verify_signature_at(
    config: &QefroConfig,
    now_secs: i64,
    signature: &str,
    timestamp: i64,
    body: &str,
) -> (r: bool)
    ensures
        r == is_signed(config.deep_view(), now_secs, signature@, timestamp, body@),
        r ==> signature@.len() == 67,
{
    let skew: i128 = now_secs as i128 - timestamp as i128;
    let allowed: i128 = config.max_timestamp_skew_secs as i128;
    if skew > allowed || -skew > allowed {
        return false;
    }
    let code = request_code(config.signing_secret.as_str(), timestamp, body);
    proof {
        reveal_strlit("v1=");
    }
    signature_matches(code.as_slice(), signature)
}

proof fn lemma_hex_injective(a: Seq<u8>, b: Seq<u8>)
    requires
        hex_spec(a) == hex_spec(b),
    ensures
        a == b,
{
    assert(hex_spec(a).len() == 2 * a.len() && hex_spec(b).len() == 2 * b.len());
    assert forall|i: int| 0 <= i < a.len() implies a[i] == b[i] by {
        assert(hex_spec(a)[2 * i] == hex_spec(b)[2 * i]);
        assert(hex_spec(a)[2 * i + 1] == hex_spec(b)[2 * i + 1]);
        assert((2 * i) / 2 == i && (2 * i + 1) / 2 == i);
        assert(hex_spec(a)[2 * i] == hex_char((a[i] / 16) as nat));
        assert(hex_spec(b)[2 * i] == hex_char((b[i] / 16) as nat));
        assert(hex_spec(a)[2 * i + 1] == hex_char((a[i] % 16) as nat));
        assert(hex_spec(b)[2 * i + 1] == hex_char((b[i] % 16) as nat));
    }
    assert(a =~= b);
}

/// What was signed with the secret of the webhook at a time within the allowed
/// skew is accepted.
pub proof fn law_signature_roundtrip(
    config: QefroConfigView,
    now_secs: i64,
    timestamp: i64,
    body: Seq<char>,
)
    requires
        is_timely(config.max_timestamp_skew_secs, now_secs, timestamp),
    ensures
        is_signed(
            config,
            now_secs,
            signature_spec(config.signing_secret, timestamp, body),
            timestamp,
            body,
        ),
{
}

/// A request has one signature: of two that are accepted both are the same.
pub proof fn law_signature_unique(
    config: QefroConfigView,
    now_secs: i64,
    a: Seq<char>,
    b: Seq<char>,
    timestamp: i64,
    body: Seq<char>,
)
    requires
        is_signed(config, now_secs, a, timestamp, body),
        is_signed(config, now_secs, b, timestamp, body),
    ensures
        a == b,
{
}

/// A signature tells its code: signatures of different codes differ.
pub proof fn law_signature_text_injective(a: Seq<u8>, b: Seq<u8>)
    requires
        signature_text(a) == signature_text(b),
    ensures
        a == b,
{
    reveal_strlit("v1=");
    assert(signature_text(a).skip(3) =~= hex_spec(a));
    assert(signature_text(b).skip(3) =~= hex_spec(b));
    lemma_hex_injective(a, b);
}

} // verus!
