//! Credential encryption: keys derived from the instance secret with
//! HKDF-SHA256, XChaCha20-Poly1305 with random nonces, base64 text for
//! storage, the envelope that wraps the data key, and the `rd_` token
//! prefix.
use vstd::prelude::*;
use vstd::string::StringSliceAdditionalSpecFns;
use vstd::utf8::{decode_utf8, encode_utf8, encode_utf8_decode_utf8, encode_utf8_valid_utf8, valid_utf8};

use vstd::string::StrSliceExecFns;
use crate::text::{chars_of, chars_slice, chars_starts_with, has_prefix, push_str, push_string, string_from_chars};

use base64::Engine;
use chacha20poly1305::aead::{Aead, AeadCore, KeyInit};

verus! {

/// Namespace prefix for bearer credentials shown to users.
pub const RAGDOLL_TOKEN_PREFIX: &'static str = "rd_";
/// Webhook signing secret prefix (`rd_` namespace and `whsec_` type tag).
pub const WEBHOOK_SECRET_PREFIX: &'static str = "rd_whsec_";
/// HKDF info of the key that encrypted credentials before the envelope.
pub const LEGACY_CREDENTIAL_KEY_INFO: &'static str = "ragdoll-credential-encryption-v1";
/// HKDF info of the key-encryption key that wraps the data key.
pub const KEK_INFO: &'static str = "ragdoll-kek-v1";
/// Bytes of randomness in a webhook secret.
pub const WEBHOOK_SECRET_BYTES: usize = 32;

/// The 32-byte output of HKDF-SHA256 (no salt) for input key material `ikm`
/// and `info`.
pub uninterp spec fn hkdf_sha256_key(ikm: Seq<u8>, info: Seq<u8>) -> Seq<u8>;

/// The character of a six-bit value in the base64 alphabet: `A` to `Z`,
/// `a` to `z`, `0` to `9`, then `+` and `/` (`-` and `_` when URL-safe).
pub open spec fn base64_char(v: int, url_safe: bool) -> char {
    if v < 26 {
        ('A' as int + v) as char
    } else if v < 52 {
        ('a' as int + (v - 26)) as char
    } else if v < 62 {
        ('0' as int + (v - 52)) as char
    } else if v == 62 {
        if url_safe {
            '-'
        } else {
            '+'
        }
    } else {
        if url_safe {
            '_'
        } else {
            '/'
        }
    }
}

/// The base64 text of `bytes`: every three bytes as four characters of six
/// bits each, high bits first; a last one or two bytes as two or three
/// characters, followed by as many `=` as make four when padded.
pub open spec fn base64_text(bytes: Seq<u8>, url_safe: bool, padded: bool) -> Seq<char>
    decreases bytes.len(),
{
    if bytes.len() == 0 {
        Seq::empty()
    } else if bytes.len() == 1 {
        let b0 = bytes[0] as int;
        seq![base64_char(b0 / 4, url_safe), base64_char((b0 % 4) * 16, url_safe)] + if padded {
            seq!['=', '=']
        } else {
            Seq::empty()
        }
    } else if bytes.len() == 2 {
        let b0 = bytes[0] as int;
        let b1 = bytes[1] as int;
        seq![
            base64_char(b0 / 4, url_safe),
            base64_char((b0 % 4) * 16 + b1 / 16, url_safe),
            base64_char((b1 % 16) * 4, url_safe),
        ] + if padded {
            seq!['=']
        } else {
            Seq::empty()
        }
    } else {
        let b0 = bytes[0] as int;
        let b1 = bytes[1] as int;
        let b2 = bytes[2] as int;
        seq![
            base64_char(b0 / 4, url_safe),
            base64_char((b0 % 4) * 16 + b1 / 16, url_safe),
            base64_char((b1 % 16) * 4 + b2 / 64, url_safe),
            base64_char(b2 % 64, url_safe),
        ] + base64_text(bytes.subrange(3, bytes.len() as int), url_safe, padded)
    }
}

/// The standard, padded base64 text of `bytes`.
pub open spec fn base64_standard(bytes: Seq<u8>) -> Seq<char> {
    base64_text(bytes, false, true)
}

/// What standard base64 decoding makes of the bytes `input`, if they are
/// valid base64.
pub uninterp spec fn base64_standard_decoding(input: Seq<u8>) -> Option<Seq<u8>>;

/// The unpadded URL-safe base64 text of `bytes`.
pub open spec fn base64_url_unpadded(bytes: Seq<u8>) -> Seq<char> {
    base64_text(bytes, true, false)
}

/// The XChaCha20-Poly1305 ciphertext (with its tag) of `plaintext` under
/// `key` and `nonce`, without associated data.
pub uninterp spec fn xchacha_sealed(key: Seq<u8>, nonce: Seq<u8>, plaintext: Seq<u8>) -> Seq<u8>;

/// What XChaCha20-Poly1305 decryption of `ciphertext` under `key` and
/// `nonce` gives, if the tag authenticates.
pub uninterp spec fn xchacha_opened(key: Seq<u8>, nonce: Seq<u8>, ciphertext: Seq<u8>) -> Option<Seq<u8>>;

/// `Hkdf::<Sha256>::new(None, ikm).expand(info, &mut [0u8; 32])`. Trusted:
/// as the crate's source shows, expanding 32 bytes (no more than 255 hash
/// lengths) succeeds, and the key is the one named above.
#[verifier::external_body]
fn hkdf_expand(ikm: &[u8], info: &[u8]) -> (r: Option<[u8; 32]>)
    ensures
        match r {
            Some(k) => k@ == hkdf_sha256_key(ikm@, info@),
            None => false,
        },
{
    let hk = hkdf::Hkdf::<sha2::Sha256>::new(None, ikm);
    let mut key = [0u8; 32];
    hk.expand(info, &mut key).ok().map(|_| key)
}

/// `general_purpose::STANDARD.encode(bytes)`. Trusted: the standard padded
/// base64 text of RFC 4648 that `base64_standard` spells out, four ASCII
/// characters for every three bytes or part of three, which (as the crate
/// documents of its engines) decodes back to `bytes`.
#[verifier::external_body]
fn b64_encode(bytes: &[u8]) -> (r: String)
    ensures
        r@ == base64_standard(bytes@),
        vstd::utf8::is_ascii_chars(r@),
        r@.len() == 4 * ((bytes@.len() + 2) / 3),
        base64_standard_decoding(encode_utf8(r@)) == Some(bytes@),
{
    base64::engine::general_purpose::STANDARD.encode(bytes)
}

/// `general_purpose::STANDARD.decode(input)`, `None` where it returns an
/// error.
#[verifier::external_body]
fn b64_decode(input: &str) -> (r: Option<Vec<u8>>)
    ensures
        match r {
            Some(v) => base64_standard_decoding(input.spec_bytes()) == Some(v@),
            None => base64_standard_decoding(input.spec_bytes()) is None,
        },
{
    base64::engine::general_purpose::STANDARD.decode(input).ok()
}

/// `general_purpose::URL_SAFE_NO_PAD.encode(bytes)`. Trusted: the URL-safe
/// base64 text of RFC 4648 without padding, as `base64_url_unpadded` spells
/// it out.
#[verifier::external_body]
fn b64url_encode(bytes: &[u8]) -> (r: String)
    ensures
        r@ == base64_url_unpadded(bytes@),
{
    base64::engine::general_purpose::URL_SAFE_NO_PAD.encode(bytes)
}

/// A fresh nonce from `XChaCha20Poly1305::generate_nonce(&mut OsRng)`.
/// Nothing is stated of its bytes: they are random.
#[verifier::external_body]
fn random_nonce() -> (r: [u8; 24]) {
    let nonce = chacha20poly1305::XChaCha20Poly1305::generate_nonce(&mut chacha20poly1305::aead::OsRng);
    nonce.into()
}

/// 32 bytes from the operating system's random source (`OsRng`). Nothing
/// is stated of them: they are random.
#[verifier::external_body]
fn random_key() -> (r: [u8; 32]) {
    let mut bytes = [0u8; 32];
    argon2::password_hash::rand_core::RngCore::fill_bytes(&mut argon2::password_hash::rand_core::OsRng, &mut bytes);
    bytes
}

/// `XChaCha20Poly1305::new(key).encrypt(nonce, plaintext)`. Trusted: as the
/// crate's source shows, it fails exactly when the plaintext spans
/// `u32::MAX` blocks of 64 bytes or more; otherwise it gives the ciphertext
/// named above, which (as an AEAD) decrypts under the same key and nonce
/// to the plaintext.
#[verifier::external_body]
fn xchacha_seal(key: &[u8; 32], nonce: &[u8; 24], plaintext: &[u8]) -> (r: Option<Vec<u8>>)
    ensures
        (r is Some) == (plaintext@.len() / 64 < 4294967295),
        match r {
            Some(c) => c@ == xchacha_sealed(key@, nonce@, plaintext@) && xchacha_opened(key@, nonce@, c@) == Some(plaintext@),
            None => true,
        },
{
    let cipher = chacha20poly1305::XChaCha20Poly1305::new(key.into());
    cipher.encrypt(nonce.into(), plaintext).ok()
}

/// `XChaCha20Poly1305::new(key).decrypt(nonce, ciphertext)`, `None` where it
/// returns an error.
#[verifier::external_body]
fn xchacha_open(key: &[u8; 32], nonce: &[u8], ciphertext: &[u8]) -> (r: Option<Vec<u8>>)
    requires
        nonce@.len() == 24,
    ensures
        match r {
            Some(p) => xchacha_opened(key@, nonce@, ciphertext@) == Some(p@),
            None => xchacha_opened(key@, nonce@, ciphertext@) is None,
        },
{
    let cipher = chacha20poly1305::XChaCha20Poly1305::new(key.into());
    cipher.decrypt(chacha20poly1305::XNonce::from_slice(nonce), ciphertext).ok()
}

/// `String::from_utf8(bytes)`: the text whose UTF-8 encoding is `bytes`, or
/// `None` where `bytes` is not UTF-8, as std documents.
#[verifier::external_body]
fn utf8_text(bytes: Vec<u8>) -> (r: Option<String>)
    ensures
        match r {
            Some(s) => valid_utf8(bytes@) && encode_utf8(s@) == bytes@,
            None => !valid_utf8(bytes@),
        },
{
    String::from_utf8(bytes).ok()
}

/// Why an encryption step failed.
#[derive(Clone, Copy, Debug, PartialEq, Eq, Structural)]
pub enum CryptoError {
    DeriveKey,
    Encrypt,
    DecodeNonce,
    InvalidNonce,
    DecodeCiphertext,
    Decrypt,
    NotUtf8,
    DecodeDek,
    DekLength(usize),
}

impl CryptoError {
    /// The error's text.
    pub open spec fn message_spec(self) -> Seq<char> {
        match self {
            CryptoError::DeriveKey => "derive key: invalid length"@,
            CryptoError::Encrypt => "encrypt: aead::Error"@,
            CryptoError::DecodeNonce => "decode nonce"@,
            CryptoError::InvalidNonce => "invalid nonce"@,
            CryptoError::DecodeCiphertext => "decode ciphertext"@,
            CryptoError::Decrypt => "decrypt: aead::Error"@,
            CryptoError::NotUtf8 => "plaintext is not utf-8"@,
            CryptoError::DecodeDek => "decode wrapped DEK"@,
            CryptoError::DekLength(n) => "wrapped DEK has unexpected length "@ + crate::text::decimal(n as nat),
        }
    }

    /// The error's text.
    pub fn message(&self) -> (r: String)
        ensures
            r@ == self.message_spec(),
    {
        match self {
            CryptoError::DeriveKey => String::from_str("derive key: invalid length"),
            CryptoError::Encrypt => String::from_str("encrypt: aead::Error"),
            CryptoError::DecodeNonce => String::from_str("decode nonce"),
            CryptoError::InvalidNonce => String::from_str("invalid nonce"),
            CryptoError::DecodeCiphertext => String::from_str("decode ciphertext"),
            CryptoError::Decrypt => String::from_str("decrypt: aead::Error"),
            CryptoError::NotUtf8 => String::from_str("plaintext is not utf-8"),
            CryptoError::DecodeDek => String::from_str("decode wrapped DEK"),
            CryptoError::DekLength(n) => {
                let mut s = String::new();
                push_str(&mut s, "wrapped DEK has unexpected length ");
                crate::text::push_decimal(&mut s, *n as u64);
                s
            },
        }
    }
}

/// What decrypting the stored pair `(nonce_b64, ciphertext_b64)` under
/// `key` gives: the plaintext, or the first step that fails.
pub open spec fn decryption(key: Seq<u8>, nonce_b64: Seq<char>, ciphertext_b64: Seq<char>) -> Result<Seq<char>, CryptoError> {
    match base64_standard_decoding(encode_utf8(nonce_b64)) {
        None => Err(CryptoError::DecodeNonce),
        Some(n) => if n.len() != 24 {
            Err(CryptoError::InvalidNonce)
        } else {
            match base64_standard_decoding(encode_utf8(ciphertext_b64)) {
                None => Err(CryptoError::DecodeCiphertext),
                Some(c) => match xchacha_opened(key, n, c) {
                    None => Err(CryptoError::Decrypt),
                    Some(p) => if valid_utf8(p) {
                        Ok(decode_utf8(p))
                    } else {
                        Err(CryptoError::NotUtf8)
                    },
                },
            }
        },
    }
}

/// Whether `plaintext` is short enough for XChaCha20-Poly1305.
pub open spec fn encryptable(plaintext: Seq<char>) -> bool {
    encode_utf8(plaintext).len() / 64 < 4294967295
}

/// Encrypts `plaintext` under `key` with a fresh random nonce; the nonce and
/// the ciphertext come back as standard base64. What it returns decrypts
/// under the same key to the plaintext.
pub fn encrypt_with_key(key: &[u8; 32], plaintext: &str) -> (r: Result<(String, String), CryptoError>)
    ensures
        match r {
            Ok((n, c)) => decryption(key@, n@, c@) == Ok::<Seq<char>, CryptoError>(plaintext@),
            Err(e) => e == CryptoError::Encrypt && !encryptable(plaintext@),
        },
        encryptable(plaintext@) ==> r is Ok,
{
    let nonce = random_nonce();
    let bytes = plaintext.as_bytes();
    let sealed = match xchacha_seal(key, &nonce, bytes) {
        Some(c) => c,
        None => return Err(CryptoError::Encrypt),
    };
    let n = b64_encode(&nonce);
    let c = b64_encode(sealed.as_slice());
    proof {
        encode_utf8_valid_utf8(plaintext@);
        encode_utf8_decode_utf8(plaintext@);
    }
    Ok((n, c))
}

/// Decrypts a stored `(nonce, ciphertext)` pair under `key`.
pub fn decrypt_with_key(key: &[u8; 32], nonce_b64: &str, ciphertext_b64: &str) -> (r: Result<String, CryptoError>)
    ensures
        match r {
            Ok(s) => decryption(key@, nonce_b64@, ciphertext_b64@) == Ok::<Seq<char>, CryptoError>(s@),
            Err(e) => decryption(key@, nonce_b64@, ciphertext_b64@) == Err::<Seq<char>, CryptoError>(e),
        },
{
    let nonce = match b64_decode(nonce_b64) {
        Some(n) => n,
        None => return Err(CryptoError::DecodeNonce),
    };
    if nonce.len() != 24 {
        return Err(CryptoError::InvalidNonce);
    }
    let ciphertext = match b64_decode(ciphertext_b64) {
        Some(c) => c,
        None => return Err(CryptoError::DecodeCiphertext),
    };
    let plain = match xchacha_open(key, nonce.as_slice(), ciphertext.as_slice()) {
        Some(p) => p,
        None => return Err(CryptoError::Decrypt),
    };
    match utf8_text(plain) {
        Some(s) => {
            proof {
                encode_utf8_decode_utf8(s@);
            }
            Ok(s)
        },
        None => Err(CryptoError::NotUtf8),
    }
}

/// The key derived from `secret` for `info`.
pub fn derive_key(secret: &str, info: &str) -> (r: Result<[u8; 32], CryptoError>)
    ensures
        r matches Ok(k) && k@ == hkdf_sha256_key(secret.spec_bytes(), info.spec_bytes()),
{
    match hkdf_expand(secret.as_bytes(), info.as_bytes()) {
        Some(k) => Ok(k),
        None => Err(CryptoError::DeriveKey),
    }
}

/// The key-encryption key derived from the instance secret.
pub fn derive_kek(secret: &str) -> (r: Result<[u8; 32], CryptoError>)
    ensures
        r matches Ok(k) && k@ == hkdf_sha256_key(secret.spec_bytes(), KEK_INFO.spec_bytes()),
{
    derive_key(secret, KEK_INFO)
}

/// The key that encrypted credentials before the envelope scheme.
pub fn derive_legacy_credential_key(secret: &str) -> (r: Result<[u8; 32], CryptoError>)
    ensures
        r matches Ok(k) && k@ == hkdf_sha256_key(secret.spec_bytes(), LEGACY_CREDENTIAL_KEY_INFO.spec_bytes()),
{
    derive_key(secret, LEGACY_CREDENTIAL_KEY_INFO)
}

/// Decrypts with the scheme from before the envelope (the key derived
/// directly from the secret).
pub fn legacy_decrypt(secret: &str, nonce_b64: &str, ciphertext_b64: &str) -> (r: Result<String, CryptoError>)
    ensures
        match r {
            Ok(s) => decryption(hkdf_sha256_key(secret.spec_bytes(), LEGACY_CREDENTIAL_KEY_INFO.spec_bytes()), nonce_b64@, ciphertext_b64@)
                == Ok::<Seq<char>, CryptoError>(s@),
            Err(e) => decryption(hkdf_sha256_key(secret.spec_bytes(), LEGACY_CREDENTIAL_KEY_INFO.spec_bytes()), nonce_b64@, ciphertext_b64@)
                == Err::<Seq<char>, CryptoError>(e),
        },
{
    let key = derive_legacy_credential_key(secret)?;
    decrypt_with_key(&key, nonce_b64, ciphertext_b64)
}

/// Encrypts with the scheme from before the envelope; what it returns
/// decrypts with `legacy_decrypt` and the same secret.
pub fn legacy_encrypt(secret: &str, plaintext: &str) -> (r: Result<(String, String), CryptoError>)
    ensures
        match r {
            Ok((n, c)) => decryption(hkdf_sha256_key(secret.spec_bytes(), LEGACY_CREDENTIAL_KEY_INFO.spec_bytes()), n@, c@)
                == Ok::<Seq<char>, CryptoError>(plaintext@),
            Err(e) => e == CryptoError::Encrypt && !encryptable(plaintext@),
        },
        encryptable(plaintext@) ==> r is Ok,
{
    let key = derive_legacy_credential_key(secret)?;
    encrypt_with_key(&key, plaintext)
}

/// Credential encryption under the instance data key.
#[derive(Clone)]
pub struct Crypto {
    dek: [u8; 32],
}

impl Crypto {
    /// The data key.
    pub closed spec fn key(&self) -> Seq<u8> {
        self.dek@
    }

    /// Encryption under the data key `dek`.
    pub fn from_dek(dek: [u8; 32]) -> (r: Self)
        ensures
            r.key() == dek@,
    {
        Crypto { dek }
    }

    /// Encrypts `plaintext`; what comes back decrypts to it with `decrypt`.
    pub fn encrypt(&self, plaintext: &str) -> (r: Result<(String, String), CryptoError>)
        ensures
            match r {
                Ok((n, c)) => decryption(self.key(), n@, c@) == Ok::<Seq<char>, CryptoError>(plaintext@),
                Err(e) => e == CryptoError::Encrypt && !encryptable(plaintext@),
            },
            encryptable(plaintext@) ==> r is Ok,
    {
        encrypt_with_key(&self.dek, plaintext)
    }

    /// Decrypts a stored `(nonce, ciphertext)` pair.
    pub fn decrypt(&self, nonce_b64: &str, ciphertext_b64: &str) -> (r: Result<String, CryptoError>)
        ensures
            match r {
                Ok(s) => decryption(self.key(), nonce_b64@, ciphertext_b64@) == Ok::<Seq<char>, CryptoError>(s@),
                Err(e) => decryption(self.key(), nonce_b64@, ciphertext_b64@) == Err::<Seq<char>, CryptoError>(e),
            },
    {
        decrypt_with_key(&self.dek, nonce_b64, ciphertext_b64)
    }
}

/// What unwrapping the stored data key `(nonce, ciphertext)` under `kek`
/// gives: the 32-byte key, or the first step that fails.
pub open spec fn dek_unwrapping(kek: Seq<u8>, nonce_b64: Seq<char>, ciphertext_b64: Seq<char>) -> Result<Seq<u8>, CryptoError> {
    match decryption(kek, nonce_b64, ciphertext_b64) {
        Err(e) => Err(e),
        Ok(p) => match base64_standard_decoding(encode_utf8(p)) {
            None => Err(CryptoError::DecodeDek),
            Some(b) => if b.len() != 32 {
                Err(CryptoError::DekLength(b.len() as usize))
            } else {
                Ok(b)
            },
        },
    }
}

/// Encrypts the data key under `kek` (as base64 text); what comes back
/// unwraps under the same `kek` to the data key.
pub fn wrap_dek(kek: &[u8; 32], dek: &[u8; 32]) -> (r: Result<(String, String), CryptoError>)
    ensures
        match r {
            Ok((n, c)) => dek_unwrapping(kek@, n@, c@) == Ok::<Seq<u8>, CryptoError>(dek@),
            Err(_) => false,
        },
{
    let text = b64_encode(dek);
    proof {
        vstd::utf8::is_ascii_chars_encode_utf8(text@);
    }
    encrypt_with_key(kek, text.as_str())
}

/// Recovers the data key stored as `(nonce, ciphertext)` under `kek`.
pub fn unwrap_dek(kek: &[u8; 32], nonce_b64: &str, ciphertext_b64: &str) -> (r: Result<[u8; 32], CryptoError>)
    ensures
        match r {
            Ok(k) => dek_unwrapping(kek@, nonce_b64@, ciphertext_b64@) == Ok::<Seq<u8>, CryptoError>(k@),
            Err(e) => dek_unwrapping(kek@, nonce_b64@, ciphertext_b64@) == Err::<Seq<u8>, CryptoError>(e),
        },
{
    let plain = decrypt_with_key(kek, nonce_b64, ciphertext_b64)?;
    let bytes = match b64_decode(plain.as_str()) {
        Some(b) => b,
        None => return Err(CryptoError::DecodeDek),
    };
    if bytes.len() != 32 {
        return Err(CryptoError::DekLength(bytes.len()));
    }
    let mut dek = [0u8; 32];
    let mut i: usize = 0;
    while i < 32
        invariant
            i <= 32,
            bytes@.len() == 32,
            forall|k: int| 0 <= k < i ==> dek@[k] == bytes@[k],
        decreases 32 - i,
    {
        dek[i] = bytes[i];
        i += 1;
    }
    assert(dek@ =~= bytes@);
    Ok(dek)
}

/// The bearer token shown for `jwt`: `rd_` in front unless it is there.
pub open spec fn api_key_token(jwt: Seq<char>) -> Seq<char> {
    if has_prefix(jwt, "rd_"@) {
        jwt
    } else {
        "rd_"@ + jwt
    }
}

/// The bearer token without its `rd_` prefix, if it has one.
pub open spec fn bearer_token(token: Seq<char>) -> Seq<char> {
    if has_prefix(token, "rd_"@) {
        token.subrange("rd_"@.len() as int, token.len() as int)
    } else {
        token
    }
}

/// Prefixes a JWT API key with `rd_` for display and storage by the client.
pub fn format_api_key_token(jwt: &str) -> (r: String)
    ensures
        r@ == api_key_token(jwt@),
{
    let v = chars_of(jwt);
    if chars_starts_with(&v, &chars_of(RAGDOLL_TOKEN_PREFIX)) {
        String::from_str(jwt)
    } else {
        let mut s = String::new();
        push_str(&mut s, RAGDOLL_TOKEN_PREFIX);
        push_str(&mut s, jwt);
        s
    }
}

/// Accepts both `rd_`-prefixed and unprefixed bearer tokens.
pub fn normalize_bearer_token(token: &str) -> (r: &str)
    ensures
        r@ == bearer_token(token@),
{
    let v = chars_of(token);
    let p = chars_of(RAGDOLL_TOKEN_PREFIX);
    if chars_starts_with(&v, &p) {
        token.substring_char(p.len(), v.len())
    } else {
        token
    }
}

/// Stripping the prefix undoes adding it, for every JWT that does not
/// itself start with `rd_`, and an unprefixed token is left as it is.
pub proof fn lemma_api_key_token_roundtrip(jwt: Seq<char>)
    ensures
        !has_prefix(jwt, "rd_"@) ==> bearer_token(api_key_token(jwt)) == jwt && bearer_token(jwt) == jwt,
        has_prefix(api_key_token(jwt), "rd_"@),
{
    let t = api_key_token(jwt);
    if !has_prefix(jwt, "rd_"@) {
        assert(t.subrange(0, "rd_"@.len() as int) =~= "rd_"@);
        assert(t.subrange("rd_"@.len() as int, t.len() as int) =~= jwt);
    }
}

/// A fresh webhook signing secret: `rd_whsec_` and 32 random bytes in
/// unpadded URL-safe base64.
pub fn generate_webhook_secret() -> (r: String)
    ensures
        exists|b: Seq<u8>| b.len() == WEBHOOK_SECRET_BYTES && r@ == "rd_whsec_"@ + base64_url_unpadded(b),
{
    let bytes = random_key();
    let encoded = b64url_encode(&bytes);
    let mut s = String::new();
    push_str(&mut s, WEBHOOK_SECRET_PREFIX);
    push_string(&mut s, &encoded);
    assert(s@ == "rd_whsec_"@ + base64_url_unpadded(bytes@));
    assert(bytes@.len() == WEBHOOK_SECRET_BYTES);
    s
}

/// The meta row that names the encryption scheme.
pub const META_SCHEME: &'static str = "crypto.scheme";
/// The meta row holding the nonce of the wrapped data key.
pub const META_DEK_NONCE: &'static str = "crypto.dek_nonce";
/// The meta row holding the wrapped data key.
pub const META_DEK_CIPHERTEXT: &'static str = "crypto.dek_ciphertext";
/// The envelope scheme: a random data key wrapped under a key derived from the secret.
pub const SCHEME_ENVELOPE_V1: &'static str = "envelope-v1";

/// What the meta table holds of the key envelope.
#[derive(Clone, Debug)]
pub struct StoredEnvelope {
    pub scheme: Option<String>,
    pub nonce: Option<String>,
    pub ciphertext: Option<String>,
}

/// How the data key was obtained at start-up.
pub enum EnvelopeOutcome {
    /// The stored data key, unwrapped with the current secret.
    Opened { crypto: Crypto },
    /// The stored data key, unwrapped with the previous secret and wrapped
    /// again under the current one: the nonce and ciphertext to store.
    Rewrapped { crypto: Crypto, nonce: String, ciphertext: String },
    /// A fresh data key, wrapped under the current secret: the scheme,
    /// nonce and ciphertext to store, and legacy credentials to migrate.
    Created { crypto: Crypto, nonce: String, ciphertext: String },
}

/// The key-encryption key of `secret`.
pub open spec fn kek_of(secret: Seq<char>) -> Seq<u8> {
    hkdf_sha256_key(encode_utf8(secret), encode_utf8(KEK_INFO@))
}

/// What opening the stored envelope must give, as far as it is decided by
/// the stored values and the secrets: the error text where it fails.
pub open spec fn envelope_error(scheme: Option<Seq<char>>, nonce: Option<Seq<char>>, ciphertext: Option<Seq<char>>, secret: Seq<char>, secret_old: Option<Seq<char>>) -> Option<Seq<char>> {
    if scheme != Some("envelope-v1"@) {
        None
    } else if nonce is None {
        Some("crypto.dek_nonce missing for envelope-v1"@)
    } else if ciphertext is None {
        Some("crypto.dek_ciphertext missing for envelope-v1"@)
    } else {
        match dek_unwrapping(kek_of(secret), nonce->0, ciphertext->0) {
            Ok(_) => None,
            Err(primary) => match secret_old {
                Some(old) => if old.len() > 0 {
                    match dek_unwrapping(kek_of(old), nonce->0, ciphertext->0) {
                        Ok(_) => None,
                        Err(e) => Some(
                            "cannot unwrap credential DEK with RAGDOLL_SECRET or RAGDOLL_SECRET_OLD ("@ + e.message_spec() + ")"@,
                        ),
                    }
                } else {
                    Some(unwrap_failure_text(primary))
                },
                None => Some(unwrap_failure_text(primary)),
            },
        }
    }
}

/// The refusal when the current secret cannot unwrap the data key and no
/// previous secret is given.
pub open spec fn unwrap_failure_text(e: CryptoError) -> Seq<char> {
    "cannot unwrap credential DEK with RAGDOLL_SECRET ("@ + e.message_spec()
        + "). If you rotated the secret, set RAGDOLL_SECRET_OLD to the previous value for one restart so the DEK can be rewrapped"@
}

fn opt_str(o: &Option<String>) -> (r: Option<&str>)
    ensures
        match o {
            Some(x) => r matches Some(y) && y@ == x@,
            None => r is None,
        },
{
    match o {
        Some(x) => Some(x.as_str()),
        None => None,
    }
}

/// The optional text of an optional string.
pub open spec fn optional_text(s: Option<String>) -> Option<Seq<char>> {
    match s {
        Some(x) => Some(x@),
        None => None,
    }
}

/// What opening the envelope stored as `scheme`, `nonce` and `ciphertext`
/// gives with the current and previous secrets: the error of
/// `envelope_error`, else the data key the current secret unwraps
/// (`Opened`), the one the previous secret unwraps wrapped again under the
/// current one (`Rewrapped`), or, when no envelope is stored, a new data key
/// wrapped under the current secret (`Created`).
pub open spec fn envelope_outcome(
    scheme: Option<Seq<char>>,
    nonce: Option<Seq<char>>,
    ciphertext: Option<Seq<char>>,
    secret: Seq<char>,
    old: Option<Seq<char>>,
    r: Result<EnvelopeOutcome, String>,
) -> bool {
    match envelope_error(scheme, nonce, ciphertext, secret, old) {
        Some(m) => r matches Err(x) && x@ == m,
        None => match r {
            Ok(EnvelopeOutcome::Opened { crypto }) => scheme == Some("envelope-v1"@) && dek_unwrapping(
                kek_of(secret),
                nonce->0,
                ciphertext->0,
            ) == Ok::<Seq<u8>, CryptoError>(crypto.key()),
            Ok(EnvelopeOutcome::Rewrapped { crypto, nonce: n, ciphertext: c }) => scheme == Some("envelope-v1"@)
                && dek_unwrapping(kek_of(secret), nonce->0, ciphertext->0) is Err && dek_unwrapping(
                kek_of(old->0),
                nonce->0,
                ciphertext->0,
            ) == Ok::<Seq<u8>, CryptoError>(crypto.key()) && dek_unwrapping(kek_of(secret), n@, c@) == Ok::<
                Seq<u8>,
                CryptoError,
            >(crypto.key()),
            Ok(EnvelopeOutcome::Created { crypto, nonce: n, ciphertext: c }) => scheme != Some("envelope-v1"@)
                && dek_unwrapping(kek_of(secret), n@, c@) == Ok::<Seq<u8>, CryptoError>(crypto.key()),
            Err(_) => false,
        },
    }
}

/// A data key wrapped under a secret opens with that secret alone, to the
/// same key: once a rotation has rewrapped the data key (or a fresh install
/// has wrapped a new one) and the envelope is stored, the next opening gives
/// `Opened` with that key, whatever previous secret is given.
pub proof fn lemma_wrapped_key_opens(
    secret: Seq<char>,
    n: Seq<char>,
    c: Seq<char>,
    key: Seq<u8>,
    old: Option<Seq<char>>,
    r: Result<EnvelopeOutcome, String>,
)
    requires
        dek_unwrapping(kek_of(secret), n, c) == Ok::<Seq<u8>, CryptoError>(key),
        envelope_outcome(Some("envelope-v1"@), Some(n), Some(c), secret, old, r),
    ensures
        r matches Ok(EnvelopeOutcome::Opened { crypto }) && crypto.key() == key,
{
}

/// A rotation keeps the data key: when the stored envelope opens with the
/// previous secret but not with the new one, opening it with both gives
/// `Rewrapped` with the same key, wrapped again so that the new secret
/// opens it (and then, by `lemma_wrapped_key_opens`, opens it alone).
pub proof fn lemma_rotation_keeps_key(
    old: Seq<char>,
    secret: Seq<char>,
    n: Seq<char>,
    c: Seq<char>,
    key: Seq<u8>,
    r: Result<EnvelopeOutcome, String>,
)
    requires
        old.len() > 0,
        dek_unwrapping(kek_of(old), n, c) == Ok::<Seq<u8>, CryptoError>(key),
        dek_unwrapping(kek_of(secret), n, c) is Err,
        envelope_outcome(Some("envelope-v1"@), Some(n), Some(c), secret, Some(old), r),
    ensures
        r matches Ok(EnvelopeOutcome::Rewrapped { crypto, nonce: n2, ciphertext: c2 }) && crypto.key() == key
            && dek_unwrapping(kek_of(secret), n2@, c2@) == Ok::<Seq<u8>, CryptoError>(key),
{
}

/// A secret that does not open the stored envelope, with no previous
/// secret, is refused with the advice to set `RAGDOLL_SECRET_OLD`.
pub proof fn lemma_wrong_secret_refused(secret: Seq<char>, n: Seq<char>, c: Seq<char>, r: Result<EnvelopeOutcome, String>)
    requires
        dek_unwrapping(kek_of(secret), n, c) is Err,
        envelope_outcome(Some("envelope-v1"@), Some(n), Some(c), secret, None, r),
    ensures
        r matches Err(m) && m@ == unwrap_failure_text(dek_unwrapping(kek_of(secret), n, c)->Err_0),
{
}

/// Opens the key envelope at start-up: unwraps the stored data key with the
/// current secret, or with the previous one (and then wraps it again under
/// the current one); on a fresh install (or one from before the envelope)
/// creates and wraps a new data key.
pub fn open_envelope(stored: &StoredEnvelope, secret: &str, secret_old: Option<&str>) -> (r: Result<EnvelopeOutcome, String>)
    ensures
        envelope_outcome(
            optional_text(stored.scheme),
            optional_text(stored.nonce),
            optional_text(stored.ciphertext),
            secret@,
            match secret_old {
                Some(x) => Some(x@),
                None => None,
            },
            r,
        ),
{
    let kek = match derive_kek(secret) {
        Ok(k) => k,
        Err(e) => return Err(e.message()),
    };
    let is_envelope = match opt_str(&stored.scheme) {
        Some(s) => crate::text::str_eq(s, SCHEME_ENVELOPE_V1),
        None => false,
    };
    if is_envelope {
        let nonce = match opt_str(&stored.nonce) {
            Some(n) => n,
            None => return Err(String::from_str("crypto.dek_nonce missing for envelope-v1")),
        };
        let ciphertext = match opt_str(&stored.ciphertext) {
            Some(c) => c,
            None => return Err(String::from_str("crypto.dek_ciphertext missing for envelope-v1")),
        };
        match unwrap_dek(&kek, nonce, ciphertext) {
            Ok(dek) => {
                return Ok(EnvelopeOutcome::Opened { crypto: Crypto::from_dek(dek) });
            },
            Err(primary) => {
                let old = match secret_old {
                    Some(o) => if o.is_empty() { None } else { Some(o) },
                    None => None,
                };
                match old {
                    None => {
                        let mut m = String::new();
                        push_str(&mut m, "cannot unwrap credential DEK with RAGDOLL_SECRET (");
                        push_string(&mut m, &primary.message());
                        push_str(&mut m, "). If you rotated the secret, set RAGDOLL_SECRET_OLD to the previous value for one restart so the DEK can be rewrapped");
                        return Err(m);
                    },
                    Some(o) => {
                        let old_kek = match derive_kek(o) {
                            Ok(k) => k,
                            Err(e) => return Err(e.message()),
                        };
                        match unwrap_dek(&old_kek, nonce, ciphertext) {
                            Ok(dek) => {
                                let (n, c) = match wrap_dek(&kek, &dek) {
                                    Ok(x) => x,
                                    Err(e) => return Err(e.message()),
                                };
                                return Ok(EnvelopeOutcome::Rewrapped { crypto: Crypto::from_dek(dek), nonce: n, ciphertext: c });
                            },
                            Err(e) => {
                                let mut m = String::new();
                                push_str(&mut m, "cannot unwrap credential DEK with RAGDOLL_SECRET or RAGDOLL_SECRET_OLD (");
                                push_string(&mut m, &e.message());
                                push_str(&mut m, ")");
                                return Err(m);
                            },
                        }
                    },
                }
            },
        }
    }
    let dek = random_key();
    let (n, c) = match wrap_dek(&kek, &dek) {
        Ok(x) => x,
        Err(e) => return Err(e.message()),
    };
    Ok(EnvelopeOutcome::Created { crypto: Crypto::from_dek(dek), nonce: n, ciphertext: c })
}

/// Re-encrypts a credential stored with the scheme from before the envelope
/// under the data key; `None` where the legacy key cannot decrypt it (it is
/// then left as it is).
pub fn migrate_legacy_credential(secret: &str, crypto: &Crypto, nonce_b64: &str, ciphertext_b64: &str) -> (r: Option<Result<(String, String), CryptoError>>)
    ensures
        match decryption(hkdf_sha256_key(secret.spec_bytes(), LEGACY_CREDENTIAL_KEY_INFO.spec_bytes()), nonce_b64@, ciphertext_b64@) {
            Ok(p) => match r {
                Some(Ok((n, c))) => decryption(crypto.key(), n@, c@) == Ok::<Seq<char>, CryptoError>(p),
                Some(Err(e)) => e == CryptoError::Encrypt && !encryptable(p),
                None => false,
            },
            Err(_) => r is None,
        },
{
    match legacy_decrypt(secret, nonce_b64, ciphertext_b64) {
        Ok(plain) => Some(crypto.encrypt(plain.as_str())),
        Err(_) => None,
    }
}

} // verus!
