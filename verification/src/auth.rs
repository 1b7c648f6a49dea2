use vstd::prelude::*;
use vstd::utf8::encode_utf8;

verus! {

/// An authentication failure: the signature header is absent, or it does not
/// match the digest computed from the body and the shared secret.
#[derive(Clone, Copy, PartialEq, Eq, Debug)]
pub enum AuthError {
    MissingSignature,
    InvalidSignature,
}

/// The HMAC-SHA256 tag over `data`, keyed by `key`.
pub uninterp spec fn hmac_sha256_of(key: Seq<u8>, data: Seq<u8>) -> Seq<u8>;

/// Relies on ring::hmac (a Key::new with HMAC_SHA256, then sign): the tag is a
/// function of the key and message bytes alone, and SHA-256 tags are 32 bytes.
#[verifier::external_body]
fn hmac_sha256(key: &[u8], data: &[u8]) -> (r: Vec<u8>)
    ensures
        r@ == hmac_sha256_of(key@, data@),
        r@.len() == 32,
{
    let k = ring::hmac::Key::new(ring::hmac::HMAC_SHA256, key);
    ring::hmac::sign(&k, data).as_ref().to_vec()
}

/// The canonical base64 text (RFC 4648, with padding) of `data`.
pub uninterp spec fn base64_of(data: Seq<u8>) -> Seq<char>;

/// Relies on data_encoding::BASE64.encode: canonical base64 of the input, a
/// function of the input bytes alone.
#[verifier::external_body]
fn base64_encode(data: &[u8]) -> (r: String)
    ensures
        r@ == base64_of(data@),
{
    data_encoding::BASE64.encode(data)
}

/// Equality of two byte slices, computed without data-dependent branches so
/// that comparing a secret-derived value leaks nothing through timing.
fn constant_time_eq(a: &[u8], b: &[u8]) -> (r: bool)
    ensures
        r == (a@ == b@),
{
    if a.len() != b.len() {
        return false;
    }
    let n = a.len();
    let mut acc: u8 = 0;
    let mut i: usize = 0;
    while i < n
        invariant
            n == a@.len(),
            n == b@.len(),
            i <= n,
            (acc == 0) <==> (forall|k: int| 0 <= k < i ==> a@[k] == b@[k]),
        decreases n - i,
    {
        let x: u8 = a[i];
        let y: u8 = b[i];
        let d: u8 = x ^ y;
        let prev: u8 = acc;
        acc = acc | d;
        proof {
            assert(((prev | d) == 0) == (prev == 0 && d == 0)) by (bit_vector);
            assert(((x ^ y) == 0) == (x == y)) by (bit_vector);
        }
        i += 1;
    }
    if acc == 0 {
        proof {
            assert(a@ =~= b@);
        }
        true
    } else {
        false
    }
}

/// Checks that an inbound payload was sent by the holder of the shared
/// secret: the provided header must equal the base64 of the HMAC-SHA256 tag
/// of the body under the secret. Succeeds exactly on that header; fails with
/// `MissingSignature` when the header is absent and `InvalidSignature` when
/// it does not match.
pub fn verify(body: &[u8], signature: Option<&str>, shared_secret: &str) -> (r: Result<
    (),
    AuthError,
>)
    ensures
        (r is Ok <==> (signature matches Some(s) && s@ == base64_of(
            hmac_sha256_of(encode_utf8(shared_secret@), body@),
        ))),
        (r == Err::<(), AuthError>(AuthError::MissingSignature) <==> signature is None),
        (r == Err::<(), AuthError>(AuthError::InvalidSignature) <==> (signature matches Some(s)
            && s@ != base64_of(hmac_sha256_of(encode_utf8(shared_secret@), body@)))),
{
    match signature {
        None => Err(AuthError::MissingSignature),
        Some(sig) => {
            let tag = hmac_sha256(shared_secret.as_bytes(), body);
            let expected = base64_encode(tag.as_slice());
            if constant_time_eq(sig.as_bytes(), expected.as_str().as_bytes()) {
                proof {
                    vstd::utf8::encode_utf8_decode_utf8(sig@);
                    vstd::utf8::encode_utf8_decode_utf8(expected@);
                }
                Ok(())
            } else {
                Err(AuthError::InvalidSignature)
            }
        },
    }
}

} // verus!
