//! Process-wide session state: the current PIN, its pairing hash, and the
//! derived symmetric key. The three fields are set or cleared together —
//! never a partial state.

use vstd::prelude::*;

verus! {

use crate::crypto::{compute_pin_hash, derive_aes_key, pin_hash_spec, derive_key_spec};

/// Copy of a byte vector, element by element.
pub fn copy_bytes(v: &Vec<u8>) -> (r: Vec<u8>)
    ensures
        r@ == v@,
{
    let mut r: Vec<u8> = Vec::new();
    let mut i: usize = 0;
    while i < v.len()
        invariant
            i <= v@.len(),
            r@ == v@.subrange(0, i as int),
        decreases v@.len() - i,
    {
        r.push(v[i]);
        i += 1;
    }
    proof {
        assert(r@ =~= v@);
    }
    r
}

/// Holder of the current PIN, its pairing hash, and the derived key.
pub struct SessionState {
    pin: Option<String>,
    pin_hash: Option<String>,
    key: Option<Vec<u8>>,
}

impl SessionState {
    /// The stored PIN, as a sequence of characters.
    pub closed spec fn spec_pin(&self) -> Option<Seq<char>> {
        self.pin.deep_view()
    }

    /// The stored pairing hash, as a sequence of characters.
    pub closed spec fn spec_hash(&self) -> Option<Seq<char>> {
        self.pin_hash.deep_view()
    }

    /// The stored key bytes.
    pub closed spec fn spec_key(&self) -> Option<Seq<u8>> {
        self.key.deep_view()
    }

    /// Invariant: either no PIN is set and hash and key are absent too, or a
    /// PIN is set and the hash and the 32-byte key are exactly what the
    /// crypto component derives from it.
    pub closed spec fn wf(&self) -> bool {
        match self.pin {
            Option::Some(p) => {
                &&& self.pin_hash matches Some(h) && h@ == pin_hash_spec(p@)
                &&& self.key matches Some(k) && k@ == derive_key_spec(p@) && k@.len() == 32
            },
            Option::None => self.pin_hash is None && self.key is None,
        }
    }

    /// What the invariant guarantees: hash and key are present exactly when
    /// a PIN is, and are then derived from it; the key is 32 bytes long.
    pub proof fn lemma_wf(&self)
        requires
            self.wf(),
        ensures
            match self.spec_pin() {
                Option::Some(p) => self.spec_hash() == Some(pin_hash_spec(p)) && self.spec_key()
                    == Some(derive_key_spec(p)) && derive_key_spec(p).len() == 32,
                Option::None => self.spec_hash() is None && self.spec_key() is None,
            },
    {
    }

    /// A fresh session with no PIN configured.
    pub fn new() -> (r: SessionState)
        ensures
            r.wf(),
            r.spec_pin() is None,
            r.spec_hash() is None,
            r.spec_key() is None,
    {
        SessionState { pin: None, pin_hash: None, key: None }
    }

    /// Install, replace or clear the PIN. Setting a PIN equal to the current
    /// one is a no-op; setting a different PIN recomputes hash and key
    /// atomically; setting no PIN clears all three fields.
    pub fn configure(&mut self, pin: Option<String>)
        requires
            old(self).wf(),
        ensures
            final(self).wf(),
            final(self).spec_pin() == pin.deep_view(),
            old(self).spec_pin() == pin.deep_view() ==> *final(self) == *old(self),
    {
        match pin {
            Option::Some(p) => {
                let same: bool = match &self.pin {
                    Option::Some(cur) => *cur == p,
                    Option::None => false,
                };
                if !same {
                    let hash = compute_pin_hash(p.as_str());
                    let key = derive_aes_key(p.as_str());
                    self.pin = Some(p);
                    self.pin_hash = Some(hash);
                    self.key = Some(key);
                }
            },
            Option::None => {
                self.pin = None;
                self.pin_hash = None;
                self.key = None;
            },
        }
    }

    /// A consistent read of the pairing hash and the key, for the receiver
    /// and the sender.
    pub fn snapshot(&self) -> (r: (Option<String>, Option<Vec<u8>>))
        ensures
            r.0.deep_view() == self.spec_hash(),
            r.1.deep_view() == self.spec_key(),
    {
        let hash = match &self.pin_hash {
            Option::Some(h) => Some(h.clone()),
            Option::None => None,
        };
        let key = match &self.key {
            Option::Some(k) => Some(copy_bytes(k)),
            Option::None => None,
        };
        (hash, key)
    }
}

} // verus!
