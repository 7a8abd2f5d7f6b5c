use argon2::password_hash::rand_core::{OsRng, RngCore};
use base64::Engine;
use ragdoll::crypto::{
    derive_kek, format_api_key_token, open_envelope, EnvelopeOutcome, StoredEnvelope, generate_webhook_secret, legacy_decrypt, legacy_encrypt, normalize_bearer_token,
    unwrap_dek, wrap_dek, Crypto, RAGDOLL_TOKEN_PREFIX, WEBHOOK_SECRET_BYTES, WEBHOOK_SECRET_PREFIX,
};

fn random_dek() -> [u8; 32] {
    let mut dek = [0u8; 32];
    OsRng.fill_bytes(&mut dek);
    dek
}

#[test]
fn encrypt_decrypt_roundtrip() {
    let crypto = Crypto::from_dek(random_dek());
    let (nonce, ciphertext) = crypto.encrypt("sk-test-api-key").unwrap();
    let plain = crypto.decrypt(&nonce, &ciphertext).unwrap();
    assert_eq!(plain, "sk-test-api-key");
}

#[test]
fn wrong_dek_fails_decrypt() {
    let crypto = Crypto::from_dek(random_dek());
    let other = Crypto::from_dek(random_dek());
    let (nonce, ciphertext) = crypto.encrypt("key").unwrap();
    assert!(other.decrypt(&nonce, &ciphertext).is_err());
}

#[test]
fn wrap_unwrap_dek_roundtrip() {
    let kek = derive_kek("test-secret").unwrap();
    let dek = random_dek();
    let (nonce, ct) = wrap_dek(&kek, &dek).unwrap();
    let unwrapped = unwrap_dek(&kek, &nonce, &ct).unwrap();
    assert_eq!(unwrapped, dek);
}

#[test]
fn wrong_kek_fails_unwrap() {
    let kek_a = derive_kek("secret-a").unwrap();
    let kek_b = derive_kek("secret-b").unwrap();
    let dek = random_dek();
    let (nonce, ct) = wrap_dek(&kek_a, &dek).unwrap();
    assert!(unwrap_dek(&kek_b, &nonce, &ct).is_err());
}

#[test]
fn legacy_encrypt_decrypt_roundtrip() {
    let (nonce, ct) = legacy_encrypt("legacy-secret", "sk-legacy").unwrap();
    let plain = legacy_decrypt("legacy-secret", &nonce, &ct).unwrap();
    assert_eq!(plain, "sk-legacy");
    assert!(legacy_decrypt("other", &nonce, &ct).is_err());
}

#[test]
fn rewrap_with_new_kek() {
    let old_kek = derive_kek("old-secret").unwrap();
    let new_kek = derive_kek("new-secret").unwrap();
    let dek = random_dek();
    let (nonce, ct) = wrap_dek(&old_kek, &dek).unwrap();
    let unwrapped = unwrap_dek(&old_kek, &nonce, &ct).unwrap();
    let (new_nonce, new_ct) = wrap_dek(&new_kek, &unwrapped).unwrap();
    assert_eq!(unwrap_dek(&new_kek, &new_nonce, &new_ct).unwrap(), dek);
    assert!(unwrap_dek(&old_kek, &new_nonce, &new_ct).is_err());
}

#[test]
fn malformed_ciphertexts_are_refused_step_by_step() {
    let crypto = Crypto::from_dek([9u8; 32]);
    assert_eq!(crypto.decrypt("%%%", "AAAA").unwrap_err().message(), "decode nonce");
    assert_eq!(crypto.decrypt("AAAA", "AAAA").unwrap_err().message(), "invalid nonce");
    let (nonce, _) = crypto.encrypt("x").unwrap();
    assert_eq!(crypto.decrypt(&nonce, "%%").unwrap_err().message(), "decode ciphertext");
    assert_eq!(crypto.decrypt(&nonce, "AAAA").unwrap_err().message(), "decrypt: aead::Error");
}

#[test]
fn generate_webhook_secret_has_prefix_and_entropy() {
    let secret = generate_webhook_secret();
    assert!(secret.starts_with(WEBHOOK_SECRET_PREFIX));
    let encoded = secret.strip_prefix(WEBHOOK_SECRET_PREFIX).unwrap();
    let bytes = base64::engine::general_purpose::URL_SAFE_NO_PAD.decode(encoded).unwrap();
    assert_eq!(bytes.len(), WEBHOOK_SECRET_BYTES);
    assert_ne!(generate_webhook_secret(), secret);
}

#[test]
fn api_key_token_prefix_roundtrip() {
    let jwt = "eyJhbGciOiJIUzI1NiJ9.payload.sig";
    let prefixed = format_api_key_token(jwt);
    assert!(prefixed.starts_with(RAGDOLL_TOKEN_PREFIX));
    assert_eq!(normalize_bearer_token(&prefixed), jwt);
    assert_eq!(normalize_bearer_token(jwt), jwt);
    assert_eq!(format_api_key_token(&prefixed), prefixed);
}

fn stored(nonce: &str, ciphertext: &str) -> StoredEnvelope {
    StoredEnvelope {
        scheme: Some("envelope-v1".to_string()),
        nonce: Some(nonce.to_string()),
        ciphertext: Some(ciphertext.to_string()),
    }
}

#[test]
fn envelope_survives_a_secret_rotation() {
    let fresh = StoredEnvelope { scheme: None, nonce: None, ciphertext: None };
    let (crypto, n1, c1) = match open_envelope(&fresh, "old-secret", None).unwrap() {
        EnvelopeOutcome::Created { crypto, nonce, ciphertext } => (crypto, nonce, ciphertext),
        _ => panic!("a fresh install creates a data key"),
    };
    let (nonce, ct) = crypto.encrypt("sk-keep").unwrap();

    let reopened = match open_envelope(&stored(&n1, &c1), "old-secret", None).unwrap() {
        EnvelopeOutcome::Opened { crypto } => crypto,
        _ => panic!("the stored key opens with its secret"),
    };
    assert_eq!(reopened.decrypt(&nonce, &ct).unwrap(), "sk-keep");

    let (rotated, n2, c2) = match open_envelope(&stored(&n1, &c1), "new-secret", Some("old-secret")).unwrap() {
        EnvelopeOutcome::Rewrapped { crypto, nonce, ciphertext } => (crypto, nonce, ciphertext),
        _ => panic!("rotation rewraps the key"),
    };
    assert_eq!(rotated.decrypt(&nonce, &ct).unwrap(), "sk-keep");

    let again = match open_envelope(&stored(&n2, &c2), "new-secret", None).unwrap() {
        EnvelopeOutcome::Opened { crypto } => crypto,
        _ => panic!("the rewrapped key opens with the new secret alone"),
    };
    assert_eq!(again.decrypt(&nonce, &ct).unwrap(), "sk-keep");

    let err = match open_envelope(&stored(&n2, &c2), "wrong", None) {
        Err(e) => e,
        Ok(_) => panic!("a wrong secret cannot open the key"),
    };
    assert!(err.contains("RAGDOLL_SECRET_OLD"));
    let no_nonce = StoredEnvelope { scheme: Some("envelope-v1".to_string()), nonce: None, ciphertext: None };
    match open_envelope(&no_nonce, "s", None) {
        Err(e) => assert!(e.contains("crypto.dek_nonce missing")),
        Ok(_) => panic!("an envelope without its nonce cannot open"),
    }
}
