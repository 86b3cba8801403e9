//! The secure broadcast transport's decision rules: what the receiver does
//! with an incoming request, and how the sender prepares a clip item before
//! fanning it out.

use vstd::prelude::*;

verus! {

use crate::crypto::{
    decrypt_spec, decrypt_content, encrypt_content, derive_key_spec, pin_hash_spec, CryptoError,
};

/// A clip item as it travels between instances. `iv` is non-empty exactly
/// when `value` is ciphertext under the session key active when the item
/// was prepared.
pub struct ClipItem {
    pub kind: String,
    pub value: String,
    pub iv: String,
}

/// The event raised toward the surrounding application when a clip item
/// arrives.
pub struct ClipboardSync {
    pub kind: String,
    pub value: String,
}

/// The receiver policy. With an active session, a request is accepted only
/// when its pairing header equals the session hash and its payload decrypts
/// under the session key; it then yields one event with the plaintext. With
/// no session, any request yields one event carrying the payload unmodified.
/// Everything else is dropped without an event.
pub open spec fn receive_spec(
    hash: Option<Seq<char>>,
    key: Option<Seq<u8>>,
    header: Option<Seq<char>>,
    kind: Seq<char>,
    value: Seq<char>,
    iv: Seq<char>,
) -> Option<(Seq<char>, Seq<char>)> {
    match (hash, key) {
        (Option::Some(h), Option::Some(k)) => if header != Some(h) {
            Option::None
        } else {
            match decrypt_spec(value, iv, k) {
                Option::Some(p) => Option::Some((kind, p)),
                Option::None => Option::None,
            }
        },
        (Option::None, Option::None) => Option::Some((kind, value)),
        _ => Option::None,
    }
}

/// Handle one incoming broadcast request: decide, from a consistent session
/// snapshot and the request's pairing header, whether to emit a clipboard
/// sync event, and with what content. Drops are silent: no distinction is
/// reported to the sender.
pub fn handle_broadcast(
    pin_hash: &Option<String>,
    aes_key: &Option<Vec<u8>>,
    req_pin_hash: &Option<String>,
    payload: ClipItem,
) -> (r: Option<ClipboardSync>)
    requires
        aes_key matches Some(k) ==> k@.len() == 32,
    ensures
        match r {
            Option::Some(ev) => receive_spec(
                pin_hash.deep_view(),
                aes_key.deep_view(),
                req_pin_hash.deep_view(),
                payload.kind@,
                payload.value@,
                payload.iv@,
            ) == Some((ev.kind@, ev.value@)),
            Option::None => receive_spec(
                pin_hash.deep_view(),
                aes_key.deep_view(),
                req_pin_hash.deep_view(),
                payload.kind@,
                payload.value@,
                payload.iv@,
            ) is None,
        },
{
    match (pin_hash, aes_key) {
        (Option::Some(h), Option::Some(k)) => {
            let header_matches = match req_pin_hash {
                Option::Some(rh) => *rh == *h,
                Option::None => false,
            };
            proof {
                assert(k.deep_view() =~= k@);
            }
            if !header_matches {
                None
            } else {
                match decrypt_content(payload.value.as_str(), payload.iv.as_str(), k) {
                    Ok(content) => Some(ClipboardSync { kind: payload.kind, value: content }),
                    Err(_) => None,
                }
            }
        },
        (Option::None, Option::None) => Some(
            ClipboardSync { kind: payload.kind, value: payload.value },
        ),
        _ => None,
    }
}

/// A clip item ready to go out, with the pairing header to attach to every
/// request, if any.
pub struct OutgoingBroadcast {
    pub item: ClipItem,
    pub pin_hash: Option<String>,
}

/// Prepare a clip item for broadcast: with an active session key, encrypt
/// its value and install the fresh nonce; with none, pass it on unchanged.
/// The session hash, when active, rides along as the pairing header for
/// every outgoing request. Succeeds on every value the cipher accepts.
pub fn prepare_broadcast(
    pin_hash: &Option<String>,
    aes_key: &Option<Vec<u8>>,
    item: ClipItem,
) -> (r: Result<OutgoingBroadcast, CryptoError>)
    requires
        aes_key matches Some(k) ==> k@.len() == 32,
    ensures
        r matches Ok(out) ==> out.pin_hash.deep_view() == pin_hash.deep_view(),
        vstd::utf8::encode_utf8(item.value@).len() <= crate::crypto::aes_gcm_plaintext_max()
            ==> r is Ok,
        aes_key is None ==> (r matches Ok(out) && out.item.kind@ == item.kind@ && out.item.value@
            == item.value@ && out.item.iv@ == item.iv@),
        aes_key matches Some(k) ==> match r {
            Result::Ok(out) => {
                &&& out.item.kind@ == item.kind@
                &&& decrypt_spec(out.item.value@, out.item.iv@, k@) == Some(item.value@)
                &&& out.item.iv@.len() == 16
            },
            Result::Err(e) => e == CryptoError::EncryptFailed,
        },
{
    let hash = match pin_hash {
        Option::Some(h) => Some(h.clone()),
        Option::None => None,
    };
    match aes_key {
        Option::Some(k) => {
            match encrypt_content(item.value.as_str(), k) {
                Ok(sealed) => {
                    let (value, iv) = sealed;
                    Ok(
                        OutgoingBroadcast {
                            item: ClipItem { kind: item.kind, value, iv },
                            pin_hash: hash,
                        },
                    )
                },
                Err(e) => Err(e),
            }
        },
        Option::None => Ok(OutgoingBroadcast { item, pin_hash: hash }),
    }
}

/// Law (round trip): a clip item prepared under the key derived from a PIN
/// is accepted by a receiver whose session was configured with the same PIN
/// and whose request carries the matching header, and yields exactly one
/// event with the original plaintext.
pub proof fn lemma_matching_receiver_emits(
    pin: Seq<char>,
    kind: Seq<char>,
    plain: Seq<char>,
    value: Seq<char>,
    iv: Seq<char>,
)
    requires
        decrypt_spec(value, iv, derive_key_spec(pin)) == Some(plain),
    ensures
        receive_spec(
            Some(pin_hash_spec(pin)),
            Some(derive_key_spec(pin)),
            Some(pin_hash_spec(pin)),
            kind,
            value,
            iv,
        ) == Some((kind, plain)),
{
}

/// Law: with an active session, a request whose pairing header is absent or
/// differs from the session hash yields no event, whatever its payload.
pub proof fn lemma_mismatched_header_dropped(
    hash: Seq<char>,
    key: Seq<u8>,
    header: Option<Seq<char>>,
    kind: Seq<char>,
    value: Seq<char>,
    iv: Seq<char>,
)
    requires
        header != Some(hash),
    ensures
        receive_spec(Some(hash), Some(key), header, kind, value, iv) is None,
{
}

/// Law: with no active session, any well-formed request yields exactly one
/// event carrying the payload unmodified.
pub proof fn lemma_open_mode_verbatim(
    header: Option<Seq<char>>,
    kind: Seq<char>,
    value: Seq<char>,
    iv: Seq<char>,
)
    ensures
        receive_spec(Option::None, Option::None, header, kind, value, iv) == Some((kind, value)),
{
}

} // verus!
