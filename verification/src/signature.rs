//! Keyed-signature verification over raw request bodies.
//!
//! A delivery is authentic iff the claimed signature header equals, byte for
//! byte, the string `sha256=` followed by the lowercase hexadecimal HMAC-SHA-256
//! of the exact body bytes under the shared secret.

use vstd::prelude::*;

verus! {

/// The ASCII byte of the lowercase hexadecimal digit for a nibble.
pub open spec fn hex_digit(n: u8) -> u8
    recommends
        n < 16,
{
    if n < 10 {
        (0x30 + n) as u8  // '0'..'9'
    } else {
        (0x57 + n) as u8  // 'a'..'f'
    }
}

/// Lowercase hexadecimal encoding: two ASCII digits per byte, high nibble first.
pub open spec fn hex_bytes_of(bytes: Seq<u8>) -> Seq<u8> {
    Seq::new(
        bytes.len() * 2,
        |i: int|
            if i % 2 == 0 {
                hex_digit(bytes[i / 2] / 16)
            } else {
                hex_digit(bytes[i / 2] % 16)
            },
    )
}

/// The HMAC-SHA-256 of `msg` under key `key`; a function of the two alone.
pub uninterp spec fn hmac_sha256(key: Seq<u8>, msg: Seq<u8>) -> Seq<u8>;

/// Relies on hmac's `Hmac<Sha256>` (`new_from_slice`, `update`, `finalize`):
/// the MAC is a function of the key and message bytes alone, and a SHA-256
/// digest is 32 bytes. `new_from_slice` accepts keys of any length.
#[verifier::external_body]
fn hmac_sha256_digest(key: &[u8], msg: &[u8]) -> (r: Vec<u8>)
    ensures
        r@ == hmac_sha256(key@, msg@),
        r@.len() == 32,
{
    let mut mac = <hmac::Hmac<sha2::Sha256> as hmac::Mac>::new_from_slice(key)
        .expect("HMAC accepts keys of any length");
    hmac::Mac::update(&mut mac, msg);
    hmac::Mac::finalize(mac).into_bytes().to_vec()
}

/// Relies on hex::encode: lowercase hexadecimal, two ASCII digits per input
/// byte, high nibble first.
#[verifier::external_body]
fn hex_encode_bytes(bytes: &[u8]) -> (r: Vec<u8>)
    ensures
        r@ == hex_bytes_of(bytes@),
{
    hex::encode(bytes).into_bytes()
}

/// The ASCII bytes of the literal tag `sha256=`.
pub open spec fn signature_prefix() -> Seq<u8> {
    seq![0x73u8, 0x68u8, 0x61u8, 0x32u8, 0x35u8, 0x36u8, 0x3du8]
}

/// The one signature string accepted for `body` under `secret`.
pub open spec fn expected_signature(secret: Seq<u8>, body: Seq<u8>) -> Seq<u8> {
    signature_prefix() + hex_bytes_of(hmac_sha256(secret, body))
}

fn expected_signature_bytes(secret: &[u8], body: &[u8]) -> (r: Vec<u8>)
    ensures
        r@ == expected_signature(secret@, body@),
{
    let digest = hmac_sha256_digest(secret, body);
    let mut hex_digits = hex_encode_bytes(digest.as_slice());
    let mut r: Vec<u8> = vec![0x73u8, 0x68u8, 0x61u8, 0x32u8, 0x35u8, 0x36u8, 0x3du8];
    proof {
        assert(r@ =~= signature_prefix());
    }
    r.append(&mut hex_digits);
    r
}

/// Byte-slice equality computed without an early exit on the first differing
/// byte: the whole slices are always scanned, so the running time does not
/// depend on where a mismatch lies.
pub fn constant_time_eq(a: &[u8], b: &[u8]) -> (r: bool)
    ensures
        r == (a@ == b@),
{
    if a.len() != b.len() {
        return false;
    }
    let mut acc: u8 = 0;
    let mut i: usize = 0;
    while i < a.len()
        invariant
            a@.len() == b@.len(),
            i <= a@.len(),
            (acc == 0) <==> (forall|j: int| 0 <= j < i ==> a@[j] == b@[j]),
        decreases a@.len() - i,
    {
        let x = a[i];
        let y = b[i];
        let d = x ^ y;
        proof {
            assert((x ^ y == 0) == (x == y)) by (bit_vector);
            assert(((acc | d) == 0) == (acc == 0 && d == 0)) by (bit_vector);
        }
        acc = acc | d;
        i = i + 1;
    }
    if acc == 0 {
        proof {
            assert(a@ =~= b@);
        }
        true
    } else {
        proof {
            let j = choose|j: int| 0 <= j < a@.len() && a@[j] != b@[j];
            assert(a@[j] != b@[j]);
        }
        false
    }
}

/// True iff `claimed_signature` is exactly the tagged lowercase hexadecimal
/// HMAC-SHA-256 of `body` under `secret`. The comparison runs in constant
/// time with respect to the secret-dependent content.
pub fn verify_signed_payload(secret: &[u8], body: &[u8], claimed_signature: &[u8]) -> (r: bool)
    ensures
        r == (claimed_signature@ == expected_signature(secret@, body@)),
{
    let expected = expected_signature_bytes(secret, body);
    constant_time_eq(expected.as_slice(), claimed_signature)
}

/// The verdict of one verification call: terminal either way.
#[derive(PartialEq, Eq, Structural, Clone, Copy, Debug)]
pub enum VerificationResult {
    Successful,
    Failed,
}

/// When a delivery is accepted: the signature header must be present and
/// equal to the expected signature.
pub open spec fn delivery_accepted(secret: Seq<u8>, body: Seq<u8>, header: Option<Seq<u8>>) -> bool {
    header matches Some(h) && h == expected_signature(secret, body)
}

/// Verdict for one delivery: `Successful` iff the signature header is present
/// and matches the body; an absent header is `Failed` without exception.
pub fn verify_github_signature(secret: &[u8], body: &[u8], header: Option<&[u8]>) -> (r: VerificationResult)
    ensures
        (r == VerificationResult::Successful) == delivery_accepted(
            secret@,
            body@,
            match header {
                Some(h) => Some(h@),
                None => None,
            },
        ),
{
    match header {
        Some(h) => {
            if verify_signed_payload(secret, body, h) {
                VerificationResult::Successful
            } else {
                VerificationResult::Failed
            }
        },
        None => VerificationResult::Failed,
    }
}

proof fn lemma_hex_digit_injective(a: u8, b: u8)
    requires
        a < 16,
        b < 16,
        hex_digit(a) == hex_digit(b),
    ensures
        a == b,
{
}

/// Law: distinct byte sequences of equal length have distinct hexadecimal
/// encodings.
pub proof fn lemma_hex_bytes_injective(m1: Seq<u8>, m2: Seq<u8>)
    requires
        m1.len() == m2.len(),
        m1 != m2,
    ensures
        hex_bytes_of(m1) != hex_bytes_of(m2),
{
    if forall|i: int| 0 <= i < m1.len() ==> m1[i] == m2[i] {
        assert(m1 =~= m2);
    }
    let k = choose|k: int| 0 <= k < m1.len() && m1[k] != m2[k];
    let a = m1[k];
    let b = m2[k];
    assert(a / 16 < 16 && a % 16 < 16 && b / 16 < 16 && b % 16 < 16) by (bit_vector);
    assert(!(a / 16 == b / 16 && a % 16 == b % 16)) by (bit_vector)
        requires
            a != b,
    ;
    if hex_bytes_of(m1) == hex_bytes_of(m2) {
        assert(hex_bytes_of(m1)[2 * k] == hex_digit(a / 16));
        assert(hex_bytes_of(m1)[2 * k + 1] == hex_digit(a % 16));
        assert(hex_bytes_of(m2)[2 * k] == hex_digit(b / 16));
        assert(hex_bytes_of(m2)[2 * k + 1] == hex_digit(b % 16));
        if a / 16 == b / 16 {
            lemma_hex_digit_injective(a % 16, b % 16);
        } else {
            lemma_hex_digit_injective(a / 16, b / 16);
        }
        assert(false);
    }
}

/// Law: bodies whose MACs differ are never confused — their expected
/// signatures differ, so the signature accepted for one is rejected for the
/// other. (That altering a body changes its MAC at all is exactly the
/// collision resistance HMAC is trusted for, and is assumed here, not
/// proved.)
pub proof fn lemma_distinct_macs_distinct_signatures(
    secret: Seq<u8>,
    body1: Seq<u8>,
    body2: Seq<u8>,
)
    requires
        hmac_sha256(secret, body1).len() == hmac_sha256(secret, body2).len(),
        hmac_sha256(secret, body1) != hmac_sha256(secret, body2),
    ensures
        expected_signature(secret, body1) != expected_signature(secret, body2),
{
    let h1 = hex_bytes_of(hmac_sha256(secret, body1));
    let h2 = hex_bytes_of(hmac_sha256(secret, body2));
    lemma_hex_bytes_injective(hmac_sha256(secret, body1), hmac_sha256(secret, body2));
    if signature_prefix() + h1 == signature_prefix() + h2 {
        assert forall|i: int| 0 <= i < h1.len() implies h1[i] == h2[i] by {
            assert((signature_prefix() + h1)[signature_prefix().len() + i] == h1[i]);
            assert((signature_prefix() + h2)[signature_prefix().len() + i] == h2[i]);
        }
        assert(h1 =~= h2);
    }
}

/// Law: a signature accepted for one body is rejected for any altered body
/// whose MAC differs from the original's.
pub proof fn lemma_body_change_rejected(
    secret: Seq<u8>,
    body: Seq<u8>,
    altered: Seq<u8>,
    claimed: Seq<u8>,
)
    requires
        claimed == expected_signature(secret, body),
        hmac_sha256(secret, altered).len() == hmac_sha256(secret, body).len(),
        hmac_sha256(secret, altered) != hmac_sha256(secret, body),
    ensures
        claimed != expected_signature(secret, altered),
{
    lemma_distinct_macs_distinct_signatures(secret, body, altered);
}

/// Law: altering any single byte of an accepted signature makes verification
/// reject it — a sequence that differs from the expected signature at one
/// position is not the expected signature.
pub proof fn lemma_signature_byte_flip_rejected(
    secret: Seq<u8>,
    body: Seq<u8>,
    claimed: Seq<u8>,
    altered: Seq<u8>,
    i: int,
)
    requires
        claimed == expected_signature(secret, body),
        altered.len() == claimed.len(),
        0 <= i < claimed.len(),
        altered[i] != claimed[i],
    ensures
        altered != expected_signature(secret, body),
{
}

} // verus!
