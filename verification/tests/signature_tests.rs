use deploy_gate::signature::{verify_github_signature, verify_signed_payload, VerificationResult};
use hmac::Mac;

fn signed(secret: &[u8], body: &[u8]) -> Vec<u8> {
    let mut mac = hmac::Hmac::<sha2::Sha256>::new_from_slice(secret).unwrap();
    mac.update(body);
    let tagged = format!("sha256={}", hex::encode(mac.finalize().into_bytes()));
    tagged.into_bytes()
}

#[test]
fn accepts_known_hmac_vector() {
    // HMAC-SHA-256("key", "The quick brown fox jumps over the lazy dog")
    let secret = b"key";
    let body = b"The quick brown fox jumps over the lazy dog";
    let sig = b"sha256=f7bc83f430538424b13298e6aa6fb143ef4d59a14946175997479dbc2d1a3cd8";
    assert!(verify_signed_payload(secret, body, sig));
}

#[test]
fn accepts_computed_signature() {
    let secret = b"s3cr3t";
    let body = br#"{"action":"published"}"#;
    let sig = signed(secret, body);
    assert!(verify_signed_payload(secret, body, &sig));
}

#[test]
fn rejects_untagged_digest() {
    let secret = b"key";
    let body = b"The quick brown fox jumps over the lazy dog";
    let sig = b"f7bc83f430538424b13298e6aa6fb143ef4d59a14946175997479dbc2d1a3cd8";
    assert!(!verify_signed_payload(secret, body, sig));
}

#[test]
fn rejects_empty_and_uppercase_signatures() {
    let secret = b"key";
    let body = b"payload";
    assert!(!verify_signed_payload(secret, body, b""));
    let sig = signed(secret, body);
    let upper = String::from_utf8(sig).unwrap().to_uppercase().into_bytes();
    assert!(!verify_signed_payload(secret, body, &upper));
}

#[test]
fn rejects_wrong_secret() {
    let body = b"payload";
    let sig = signed(b"right-secret", body);
    assert!(!verify_signed_payload(b"wrong-secret", body, &sig));
}

#[test]
fn flipping_any_body_byte_rejects() {
    let secret = b"hook-secret";
    let body = b"{\"package\":{\"name\":\"api-image\"}}";
    let sig = signed(secret, body);
    assert!(verify_signed_payload(secret, body, &sig));
    for i in 0..body.len() {
        let mut flipped = body.to_vec();
        flipped[i] ^= 0x01;
        assert!(!verify_signed_payload(secret, &flipped, &sig));
    }
}

#[test]
fn flipping_any_signature_byte_rejects() {
    let secret = b"hook-secret";
    let body = b"{\"package\":{\"name\":\"api-image\"}}";
    let sig = signed(secret, body);
    for i in 0..sig.len() {
        let mut flipped = sig.clone();
        flipped[i] ^= 0x01;
        assert!(!verify_signed_payload(secret, body, &flipped));
    }
}

#[test]
fn missing_header_fails() {
    assert_eq!(
        verify_github_signature(b"key", b"body", None),
        VerificationResult::Failed
    );
}

#[test]
fn present_matching_header_succeeds() {
    let secret = b"key";
    let body = b"body";
    let sig = signed(secret, body);
    assert_eq!(
        verify_github_signature(secret, body, Some(&sig)),
        VerificationResult::Successful
    );
    assert_eq!(
        verify_github_signature(secret, body, Some(b"sha256=nonsense")),
        VerificationResult::Failed
    );
}

#[test]
fn empty_body_and_empty_secret_still_authenticate_exactly() {
    let sig = signed(b"", b"");
    assert!(verify_signed_payload(b"", b"", &sig));
    assert!(!verify_signed_payload(b"", b"x", &sig));
}
