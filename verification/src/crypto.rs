//! PIN hashing, key derivation, and authenticated encryption of a single
//! message. The outside primitives (SHA-256, PBKDF2, AES-256-GCM, base64)
//! stand behind trusted wrappers; everything that combines them is verified.

use vstd::prelude::*;

use aes_gcm::aead::{Aead, AeadCore, KeyInit, OsRng};
use base64::Engine;
use sha2::Digest;

verus! {

use vstd::utf8::{valid_utf8, decode_utf8, encode_utf8};

/// Number of PBKDF2 rounds used for key derivation.
pub const PBKDF2_ROUNDS: u32 = 100000;

// ---------------------------------------------------------------------------
// Hexadecimal encoding, stated exactly.
// ---------------------------------------------------------------------------

/// The lowercase hexadecimal digit for a nibble.
pub open spec fn hex_digit(n: u8) -> char
    recommends
        n < 16,
{
    if n == 0 {
        '0'
    } else if n == 1 {
        '1'
    } else if n == 2 {
        '2'
    } else if n == 3 {
        '3'
    } else if n == 4 {
        '4'
    } else if n == 5 {
        '5'
    } else if n == 6 {
        '6'
    } else if n == 7 {
        '7'
    } else if n == 8 {
        '8'
    } else if n == 9 {
        '9'
    } else if n == 10 {
        'a'
    } else if n == 11 {
        'b'
    } else if n == 12 {
        'c'
    } else if n == 13 {
        'd'
    } else if n == 14 {
        'e'
    } else {
        'f'
    }
}

/// Lowercase hexadecimal rendering of a byte string, high nibble first.
pub open spec fn hex_of(bytes: Seq<u8>) -> Seq<char>
    decreases bytes.len(),
{
    if bytes.len() == 0 {
        Seq::empty()
    } else {
        seq![hex_digit(bytes[0] / 16), hex_digit(bytes[0] % 16)] + hex_of(bytes.drop_first())
    }
}

pub proof fn lemma_hex_of_len(bytes: Seq<u8>)
    ensures
        hex_of(bytes).len() == 2 * bytes.len(),
    decreases bytes.len(),
{
    if bytes.len() != 0 {
        lemma_hex_of_len(bytes.drop_first());
    }
}

// ---------------------------------------------------------------------------
// Trusted wrappers around the outside primitives.
// ---------------------------------------------------------------------------

/// The SHA-256 digest of a byte string.
pub uninterp spec fn sha256_of(bytes: Seq<u8>) -> Seq<u8>;

/// Relies on sha2::Sha256 (through the `Digest` API): the digest is a
/// function of the input bytes alone and is 32 bytes long.
#[verifier::external_body]
fn sha256_digest(bytes: &[u8]) -> (r: Vec<u8>)
    ensures
        r@ == sha256_of(bytes@),
        r@.len() == 32,
{
    sha2::Sha256::digest(bytes).to_vec()
}

/// Relies on hex::encode: lowercase hexadecimal, two digits per byte, high
/// nibble first.
#[verifier::external_body]
fn hex_encode(bytes: &[u8]) -> (r: String)
    ensures
        r@ == hex_of(bytes@),
{
    hex::encode(bytes)
}

/// The 32-byte key PBKDF2-HMAC-SHA256 derives from a password, salt and
/// round count.
pub uninterp spec fn pbkdf2_key32_of(password: Seq<u8>, salt: Seq<u8>, rounds: u32) -> Seq<u8>;

/// Relies on pbkdf2::pbkdf2_hmac with SHA-256: the output is a function of
/// the password, salt and round count alone, and fills the 32-byte buffer
/// given here.
#[verifier::external_body]
fn pbkdf2_sha256_key32(password: &[u8], salt: &[u8], rounds: u32) -> (r: Vec<u8>)
    ensures
        r@ == pbkdf2_key32_of(password@, salt@, rounds),
        r@.len() == 32,
{
    let mut key = [0u8; 32];
    pbkdf2::pbkdf2_hmac::<sha2::Sha256>(password, salt, rounds, &mut key);
    key.to_vec()
}

/// What opening an AES-256-GCM box yields: the plaintext when key, nonce and
/// ciphertext belong together, nothing otherwise.
pub uninterp spec fn aes256_gcm_open_of(key: Seq<u8>, nonce: Seq<u8>, ct: Seq<u8>) -> Option<
    Seq<u8>,
>;

/// The longest plaintext AES-GCM will seal: 2^36 bytes.
pub open spec fn aes_gcm_plaintext_max() -> nat {
    0x1000000000
}

/// Relies on aes_gcm::Aes256Gcm: sealing uses a fresh random 96-bit nonce;
/// it refuses only a plaintext longer than 2^36 bytes; the sealed bytes are
/// the plaintext's length plus the 16-byte tag, and opening them with the
/// same key and nonce returns the plaintext.
#[verifier::external_body]
fn aes256_gcm_seal(key: &[u8], plaintext: &[u8]) -> (r: Result<(Vec<u8>, Vec<u8>), ()>)
    requires
        key@.len() == 32,
    ensures
        r matches Ok(p) ==> p.1@.len() == 12 && aes256_gcm_open_of(key@, p.1@, p.0@) == Some(
            plaintext@,
        ),
        r matches Ok(p) ==> p.0@.len() == plaintext@.len() + 16,
        plaintext@.len() <= aes_gcm_plaintext_max() ==> r is Ok,
{
    let cipher = aes_gcm::Aes256Gcm::new(aes_gcm::Key::<aes_gcm::Aes256Gcm>::from_slice(key));
    let nonce = aes_gcm::Aes256Gcm::generate_nonce(&mut OsRng);
    match cipher.encrypt(&nonce, plaintext) {
        Ok(ct) => Ok((ct, nonce.to_vec())),
        Err(_) => Err(()),
    }
}

/// Relies on aes_gcm::Aes256Gcm: opening is a function of key, nonce and
/// ciphertext alone, and fails whenever the three do not belong together.
#[verifier::external_body]
fn aes256_gcm_open(key: &[u8], nonce: &[u8], ct: &[u8]) -> (r: Result<Vec<u8>, ()>)
    requires
        key@.len() == 32,
        nonce@.len() == 12,
    ensures
        match r {
            Ok(p) => aes256_gcm_open_of(key@, nonce@, ct@) == Some(p@),
            Err(_) => aes256_gcm_open_of(key@, nonce@, ct@) is None,
        },
{
    let cipher = aes_gcm::Aes256Gcm::new(aes_gcm::Key::<aes_gcm::Aes256Gcm>::from_slice(key));
    match cipher.decrypt(aes_gcm::Nonce::from_slice(nonce), ct) {
        Ok(p) => Ok(p),
        Err(_) => Err(()),
    }
}

/// The standard base64 rendering of a byte string.
pub uninterp spec fn b64_encode_of(bytes: Seq<u8>) -> Seq<char>;

/// What standard base64 decoding yields, when the text is valid base64.
pub uninterp spec fn b64_decode_of(text: Seq<char>) -> Option<Seq<u8>>;

/// Relies on base64's STANDARD engine: encoding is a function of the bytes
/// alone, decoding what was encoded gives the bytes back, and the padded
/// output holds four characters for every three bytes begun.
#[verifier::external_body]
fn b64_encode(bytes: &[u8]) -> (r: String)
    ensures
        r@ == b64_encode_of(bytes@),
        b64_decode_of(r@) == Some(bytes@),
        r@.len() == 4 * ((bytes@.len() + 2) / 3),
{
    base64::engine::general_purpose::STANDARD.encode(bytes)
}

/// Relies on base64's STANDARD engine: decoding is a function of the text
/// alone and fails exactly on text that is not valid padded standard base64.
#[verifier::external_body]
fn b64_decode(text: &str) -> (r: Result<Vec<u8>, ()>)
    ensures
        match r {
            Ok(b) => b64_decode_of(text@) == Some(b@),
            Err(_) => b64_decode_of(text@) is None,
        },
{
    match base64::engine::general_purpose::STANDARD.decode(text) {
        Ok(b) => Ok(b),
        Err(_) => Err(()),
    }
}

/// Relies on std's String::from_utf8: it succeeds exactly on valid UTF-8 and
/// returns the decoded characters.
#[verifier::external_body]
fn string_from_utf8(bytes: Vec<u8>) -> (r: Result<String, ()>)
    ensures
        match r {
            Ok(s) => valid_utf8(bytes@) && s@ == decode_utf8(bytes@),
            Err(_) => !valid_utf8(bytes@),
        },
{
    match String::from_utf8(bytes) {
        Ok(s) => Ok(s),
        Err(_) => Err(()),
    }
}

// ---------------------------------------------------------------------------
// Verified crypto operations.
// ---------------------------------------------------------------------------

/// Why a crypto operation failed.
#[derive(Clone, Copy, Debug, PartialEq, Eq)]
pub enum CryptoError {
    /// The cipher refused to seal the plaintext.
    EncryptFailed,
    /// The ciphertext is not valid base64.
    BadCiphertextEncoding,
    /// The nonce is not valid base64.
    BadNonceEncoding,
    /// The decoded nonce is not 96 bits long.
    BadNonceLength,
    /// Key, nonce and ciphertext do not belong together.
    AuthenticationFailed,
    /// The decrypted bytes are not valid UTF-8.
    NotUtf8,
}

/// The non-secret pairing tag derived from a PIN: lowercase hex of its
/// SHA-256 digest.
pub open spec fn pin_hash_spec(pin: Seq<char>) -> Seq<char> {
    hex_of(sha256_of(encode_utf8(pin)))
}

/// The fixed application-wide key-derivation salt.
pub open spec fn key_salt() -> Seq<u8> {
    encode_utf8("pastly"@)
}

/// The session key derived from a PIN.
pub open spec fn derive_key_spec(pin: Seq<char>) -> Seq<u8> {
    pbkdf2_key32_of(encode_utf8(pin), key_salt(), PBKDF2_ROUNDS)
}

/// What decrypting a transport-encoded (ciphertext, nonce) pair under a key
/// yields: base64-decode both, open the AES-256-GCM box, decode as UTF-8;
/// `None` as soon as any stage fails.
pub open spec fn decrypt_spec(ciphertext: Seq<char>, iv: Seq<char>, key: Seq<u8>) -> Option<
    Seq<char>,
> {
    match b64_decode_of(ciphertext) {
        Option::None => Option::None,
        Option::Some(ct) => match b64_decode_of(iv) {
            Option::None => Option::None,
            Option::Some(nonce) => if nonce.len() != 12 {
                Option::None
            } else {
                match aes256_gcm_open_of(key, nonce, ct) {
                    Option::None => Option::None,
                    Option::Some(p) => if valid_utf8(p) {
                        Option::Some(decode_utf8(p))
                    } else {
                        Option::None
                    },
                }
            },
        },
    }
}

/// The error `decrypt_content` reports when `decrypt_spec` is `None`: the
/// first stage that fails.
pub open spec fn decrypt_failure_spec(ciphertext: Seq<char>, iv: Seq<char>, key: Seq<u8>) -> CryptoError {
    match b64_decode_of(ciphertext) {
        Option::None => CryptoError::BadCiphertextEncoding,
        Option::Some(ct) => match b64_decode_of(iv) {
            Option::None => CryptoError::BadNonceEncoding,
            Option::Some(nonce) => if nonce.len() != 12 {
                CryptoError::BadNonceLength
            } else {
                match aes256_gcm_open_of(key, nonce, ct) {
                    Option::None => CryptoError::AuthenticationFailed,
                    Option::Some(_) => CryptoError::NotUtf8,
                }
            },
        },
    }
}

/// Deterministic one-way digest of the PIN, used as a non-secret pairing tag.
pub fn compute_pin_hash(pin: &str) -> (r: String)
    ensures
        r@ == pin_hash_spec(pin@),
        r@.len() == 64,
{
    let digest = sha256_digest(pin.as_bytes());
    let r = hex_encode(digest.as_slice());
    proof {
        lemma_hex_of_len(sha256_of(encode_utf8(pin@)));
    }
    r
}

/// Password-based derivation of the 256-bit session key from the PIN, with
/// the fixed application-wide salt and round count.
pub fn derive_aes_key(pin: &str) -> (r: Vec<u8>)
    ensures
        r@ == derive_key_spec(pin@),
        r@.len() == 32,
{
    pbkdf2_sha256_key32(pin.as_bytes(), "pastly".as_bytes(), PBKDF2_ROUNDS)
}

/// Authenticated encryption of one message under the session key, with a
/// fresh random nonce. On success the returned (ciphertext, nonce) pair,
/// both transport-encoded, decrypts back to exactly the given content, and
/// the encoded ciphertext holds the content's bytes plus the 16-byte tag.
/// Succeeds on every content the cipher accepts (up to 2^36 bytes).
pub fn encrypt_content(content: &str, key: &Vec<u8>) -> (r: Result<(String, String), CryptoError>)
    requires
        key@.len() == 32,
    ensures
        r matches Ok(p) ==> decrypt_spec(p.0@, p.1@, key@) == Some(content@),
        r matches Ok(p) ==> (b64_decode_of(p.0@) matches Some(ct) && ct.len() == encode_utf8(
            content@,
        ).len() + 16),
        r matches Ok(p) ==> p.1@.len() == 16,
        encode_utf8(content@).len() <= aes_gcm_plaintext_max() ==> r is Ok,
        r matches Err(e) ==> e == CryptoError::EncryptFailed,
{
    match aes256_gcm_seal(key.as_slice(), content.as_bytes()) {
        Ok(sealed) => {
            let (ct, nonce) = sealed;
            let value = b64_encode(ct.as_slice());
            let iv = b64_encode(nonce.as_slice());
            proof {
                vstd::utf8::encode_utf8_valid_utf8(content@);
                vstd::utf8::encode_utf8_decode_utf8(content@);
            }
            Ok((value, iv))
        },
        Err(_) => Err(CryptoError::EncryptFailed),
    }
}

/// Authenticated decryption of one message. Succeeds exactly when decoding,
/// opening and UTF-8 validation all succeed, and then returns exactly the
/// plaintext `decrypt_spec` gives; never panics on malformed input.
pub fn decrypt_content(ciphertext: &str, iv: &str, key: &Vec<u8>) -> (r: Result<String, CryptoError>)
    requires
        key@.len() == 32,
    ensures
        match r {
            Ok(s) => decrypt_spec(ciphertext@, iv@, key@) == Some(s@),
            Err(e) => decrypt_spec(ciphertext@, iv@, key@) is None && e == decrypt_failure_spec(
                ciphertext@,
                iv@,
                key@,
            ),
        },
{
    let ct = match b64_decode(ciphertext) {
        Ok(b) => b,
        Err(_) => {
            return Err(CryptoError::BadCiphertextEncoding);
        },
    };
    let nonce = match b64_decode(iv) {
        Ok(b) => b,
        Err(_) => {
            return Err(CryptoError::BadNonceEncoding);
        },
    };
    if nonce.len() != 12 {
        return Err(CryptoError::BadNonceLength);
    }
    let plain = match aes256_gcm_open(key.as_slice(), nonce.as_slice(), ct.as_slice()) {
        Ok(p) => p,
        Err(_) => {
            return Err(CryptoError::AuthenticationFailed);
        },
    };
    match string_from_utf8(plain) {
        Ok(s) => Ok(s),
        Err(_) => Err(CryptoError::NotUtf8),
    }
}

/// Law: the pairing hash is a pure function of the PIN — equal PINs give
/// equal hashes.
pub proof fn lemma_pin_hash_deterministic(pin1: Seq<char>, pin2: Seq<char>)
    requires
        pin1 == pin2,
    ensures
        pin_hash_spec(pin1) == pin_hash_spec(pin2),
{
}

/// Law: key derivation is a pure function of the PIN — equal PINs give equal
/// keys across repeated calls.
pub proof fn lemma_derive_key_deterministic(pin1: Seq<char>, pin2: Seq<char>)
    requires
        pin1 == pin2,
    ensures
        derive_key_spec(pin1) == derive_key_spec(pin2),
{
}

} // verus!
