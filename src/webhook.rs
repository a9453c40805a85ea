//! Verification of webhook signatures: a hex-encoded HMAC-SHA256 of the raw
//! request body, keyed by the webhook secret, compared in constant time.
use vstd::prelude::*;
use vstd::utf8::{encode_utf8, encode_utf8_decode_utf8};
use vstd::string::StringSliceAdditionalSpecFns;

verus! {

/// The HMAC-SHA256 tag of `message` under `key`.
pub uninterp spec fn hmac_sha256_of(key: Seq<u8>, message: Seq<u8>) -> Seq<u8>;

/// The lowercase hex digit for a value below 16.
pub open spec fn hex_digit(n: int) -> char {
    seq!['0', '1', '2', '3', '4', '5', '6', '7', '8', '9', 'a', 'b', 'c', 'd', 'e', 'f'][n]
}

/// Lowercase hex text of `bytes`: two digits per byte, high nibble first.
pub open spec fn hex_lower(bytes: Seq<u8>) -> Seq<char>
    decreases bytes.len(),
{
    if bytes.len() == 0 {
        Seq::empty()
    } else {
        seq![hex_digit(bytes[0] as int / 16), hex_digit(bytes[0] as int % 16)] + hex_lower(bytes.drop_first())
    }
}

/// The signature the service sends for a body, given the shared secret.
pub open spec fn signature_for(body: Seq<u8>, secret: Seq<u8>) -> Seq<char> {
    hex_lower(hmac_sha256_of(secret, body))
}

/// Whether `signature` is accepted for `body` under `secret`.
pub open spec fn signature_accepted(body: Seq<u8>, signature: Seq<char>, secret: Seq<u8>) -> bool {
    signature == signature_for(body, secret)
}

/// Relies on hmac 0.12's `Hmac<Sha256>` (`Mac::new_from_slice`, `update`,
/// `finalize`): keying accepts a slice of any length and never fails, and the
/// tag is the 32 bytes of SHA-256 output.
#[verifier::external_body]
fn hmac_sha256(key: &[u8], message: &[u8]) -> (r: Option<Vec<u8>>)
    ensures
        r is Some,
        r->0@ == hmac_sha256_of(key@, message@),
        r->0@.len() == 32,
{
    let mut mac = <hmac::Hmac<sha2::Sha256> as hmac::Mac>::new_from_slice(key).ok()?;
    hmac::Mac::update(&mut mac, message);
    Some(hmac::Mac::finalize(mac).into_bytes().to_vec())
}

/// Relies on hex::encode: two lowercase digits per byte, high nibble first.
#[verifier::external_body]
fn hex_encode(bytes: &[u8]) -> (r: String)
    ensures
        r@ == hex_lower(bytes@),
{
    hex::encode(bytes)
}

/// Computes the signature expected for `body` under `secret`; `None` when the
/// secret cannot key the MAC.
pub fn expected_signature(body: &str, secret: &str) -> (r: Option<String>)
    ensures
        r matches Some(s) && s@ == signature_for(body.spec_bytes(), secret.spec_bytes()),
        signature_for(body.spec_bytes(), secret.spec_bytes()).len() == 64,
{
    match hmac_sha256(secret.as_bytes(), body.as_bytes()) {
        Some(tag) => {
            proof {
                lemma_hex_lower_len(tag@);
            }
            Some(hex_encode(tag.as_slice()))
        },
        None => None,
    }
}

proof fn lemma_accumulate_zero(d: u8, x: u8, y: u8)
    ensures
        (d | (x ^ y)) == 0 <==> (d == 0 && x == y),
{
    assert((d | (x ^ y)) == 0 <==> (d == 0 && x == y)) by (bit_vector);
}

/// Compares two byte strings. Unequal lengths return at once; otherwise every
/// byte pair is visited, whatever the position of the first difference.
pub fn constant_time_eq(a: &[u8], b: &[u8]) -> (r: bool)
    ensures
        r == (a@ == b@),
{
    if a.len() != b.len() {
        return false;
    }
    let mut diff: u8 = 0;
    let mut i: usize = 0;
    while i < a.len()
        invariant
            a@.len() == b@.len(),
            i <= a@.len(),
            (diff == 0) == (forall|j: int| 0 <= j < i ==> a@[j] == b@[j]),
        decreases a@.len() - i,
    {
        proof {
            lemma_accumulate_zero(diff, a@[i as int], b@[i as int]);
        }
        diff = diff | (a[i] ^ b[i]);
        i = i + 1;
    }
    proof {
        if diff == 0 {
            assert(a@ =~= b@);
        }
    }
    diff == 0
}

/// Verifies a webhook signature: `signature` must be the hex-encoded
/// HMAC-SHA256 of `body` keyed by `secret`.
pub fn verify_signature(body: &str, signature: &str, secret: &str) -> (r: bool)
    ensures
        r == signature_accepted(body.spec_bytes(), signature@, secret.spec_bytes()),
        signature_for(body.spec_bytes(), secret.spec_bytes()).len() == 64,
{
    let expected = match expected_signature(body, secret) {
        Some(s) => s,
        None => {
            return false;
        },
    };
    let same = constant_time_eq(expected.as_str().as_bytes(), signature.as_bytes());
    proof {
        encode_utf8_decode_utf8(expected@);
        encode_utf8_decode_utf8(signature@);
    }
    same
}

proof fn lemma_hex_lower_len(bytes: Seq<u8>)
    ensures
        hex_lower(bytes).len() == 2 * bytes.len(),
    decreases bytes.len(),
{
    if bytes.len() > 0 {
        lemma_hex_lower_len(bytes.drop_first());
    }
}

/// A signature made for a body with a secret is accepted for that body and secret.
pub proof fn lemma_signed_body_verifies(body: Seq<u8>, secret: Seq<u8>)
    ensures
        signature_accepted(body, signature_for(body, secret), secret),
{
}

/// A signature with an odd number of characters is never accepted: every
/// expected signature has two digits per byte.
pub proof fn lemma_odd_length_signature_rejected(body: Seq<u8>, signature: Seq<char>, secret: Seq<u8>)
    requires
        signature.len() % 2 == 1,
    ensures
        !signature_accepted(body, signature, secret),
{
    lemma_hex_lower_len(hmac_sha256_of(secret, body));
}

} // verus!
