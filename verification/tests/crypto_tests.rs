use pastly::crypto::{
    compute_pin_hash, decrypt_content, derive_aes_key, encrypt_content, CryptoError,
};

use aes_gcm::aead::{Aead, KeyInit};
use base64::Engine;

#[test]
fn pin_hash_known_value() {
    // SHA-256 of "1234", hex-encoded.
    assert_eq!(
        compute_pin_hash("1234"),
        "03ac674216f3e15c761ee1a5e255f067953623c8b388b4459e13f978d7c846f4"
    );
}

#[test]
fn pin_hash_deterministic_and_distinct() {
    let a = compute_pin_hash("1234");
    let b = compute_pin_hash("1234");
    let c = compute_pin_hash("0000");
    assert_eq!(a, b);
    assert_ne!(a, c);
    assert_eq!(a.len(), 64);
    assert_eq!(c.len(), 64);
}

#[test]
fn pin_hash_empty_pin() {
    // SHA-256 of the empty string, hex-encoded.
    assert_eq!(
        compute_pin_hash(""),
        "e3b0c44298fc1c149afbf4c8996fb92427ae41e4649b934ca495991b7852b855"
    );
}

#[test]
fn derive_key_deterministic() {
    let k1 = derive_aes_key("1234");
    let k2 = derive_aes_key("1234");
    let k3 = derive_aes_key("0000");
    assert_eq!(k1, k2);
    assert_ne!(k1, k3);
    assert_eq!(k1.len(), 32);
    assert_eq!(k3.len(), 32);
}

#[test]
fn encrypt_decrypt_round_trip() {
    let key = derive_aes_key("1234");
    let (value, iv) = encrypt_content("hello", &key).unwrap();
    assert_eq!(decrypt_content(&value, &iv, &key).unwrap(), "hello");
}

#[test]
fn encrypt_decrypt_round_trip_empty_and_unicode() {
    let key = derive_aes_key("9999");
    let (value, iv) = encrypt_content("", &key).unwrap();
    assert_eq!(decrypt_content(&value, &iv, &key).unwrap(), "");
    let text = "snowman \u{2603} and more";
    let (value, iv) = encrypt_content(text, &key).unwrap();
    assert_eq!(decrypt_content(&value, &iv, &key).unwrap(), text);
}

#[test]
fn ciphertext_length_is_content_plus_tag() {
    let key = derive_aes_key("1234");
    let (value, iv) = encrypt_content("hello", &key).unwrap();
    let ct = base64::engine::general_purpose::STANDARD.decode(&value).unwrap();
    assert_eq!(ct.len(), "hello".len() + 16);
    let nonce = base64::engine::general_purpose::STANDARD.decode(&iv).unwrap();
    assert_eq!(nonce.len(), 12);
}

#[test]
fn encrypt_is_nondeterministic() {
    let key = derive_aes_key("1234");
    let first = encrypt_content("same plaintext", &key).unwrap();
    let second = encrypt_content("same plaintext", &key).unwrap();
    assert_ne!(first, second);
    assert_ne!(first.1, second.1);
}

#[test]
fn decrypt_with_wrong_key_fails() {
    let key_a = derive_aes_key("1234");
    let key_b = derive_aes_key("0000");
    let (value, iv) = encrypt_content("secret", &key_a).unwrap();
    assert_eq!(
        decrypt_content(&value, &iv, &key_b),
        Err(CryptoError::AuthenticationFailed)
    );
}

#[test]
fn decrypt_tampered_ciphertext_fails() {
    let key = derive_aes_key("1234");
    let (value, iv) = encrypt_content("secret", &key).unwrap();
    let raw = base64::engine::general_purpose::STANDARD.decode(&value).unwrap();
    let mut tampered = raw.clone();
    tampered[0] ^= 0x01;
    let tampered_b64 = base64::engine::general_purpose::STANDARD.encode(&tampered);
    assert_eq!(
        decrypt_content(&tampered_b64, &iv, &key),
        Err(CryptoError::AuthenticationFailed)
    );
}

#[test]
fn decrypt_rejects_bad_ciphertext_encoding() {
    let key = derive_aes_key("1234");
    let (_, iv) = encrypt_content("x", &key).unwrap();
    assert_eq!(
        decrypt_content("not base64 !!", &iv, &key),
        Err(CryptoError::BadCiphertextEncoding)
    );
}

#[test]
fn decrypt_rejects_bad_nonce_encoding() {
    let key = derive_aes_key("1234");
    let (value, _) = encrypt_content("x", &key).unwrap();
    assert_eq!(
        decrypt_content(&value, "not base64 !!", &key),
        Err(CryptoError::BadNonceEncoding)
    );
}

#[test]
fn decrypt_rejects_bad_nonce_length() {
    let key = derive_aes_key("1234");
    let (value, _) = encrypt_content("x", &key).unwrap();
    let short_iv = base64::engine::general_purpose::STANDARD.encode([1u8, 2, 3, 4]);
    assert_eq!(
        decrypt_content(&value, &short_iv, &key),
        Err(CryptoError::BadNonceLength)
    );
}

#[test]
fn decrypt_rejects_non_utf8_plaintext() {
    // Seal bytes that are not valid UTF-8 with the same primitive the
    // library calls, then hand them to the library's decrypt.
    let key = derive_aes_key("1234");
    let cipher = aes_gcm::Aes256Gcm::new(aes_gcm::Key::<aes_gcm::Aes256Gcm>::from_slice(&key));
    let nonce_bytes = [7u8; 12];
    let nonce = aes_gcm::Nonce::from_slice(&nonce_bytes);
    let ct = cipher.encrypt(nonce, &[0xffu8, 0xfe, 0x00][..]).unwrap();
    let value = base64::engine::general_purpose::STANDARD.encode(&ct);
    let iv = base64::engine::general_purpose::STANDARD.encode(nonce_bytes);
    assert_eq!(decrypt_content(&value, &iv, &key), Err(CryptoError::NotUtf8));
}
