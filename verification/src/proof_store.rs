//! The three secrets of a login that must outlive the trip to the identity
//! provider and back, held under three fixed names.

use crate::text::copy_of;
use crate::text::text;
use vstd::prelude::*;

verus! {

/// The names under which the secrets are kept.
#[derive(Clone, Copy, Debug, PartialEq, Eq)]
pub enum ProofKey {
    /// The anti-forgery state token.
    State,
    /// The nonce.
    Nonce,
    /// The PKCE verifier.
    Pkce,
}

impl ProofKey {
    pub open spec fn spec_name(self) -> Seq<char> {
        match self {
            ProofKey::State => "authState"@,
            ProofKey::Nonce => "authNonce"@,
            ProofKey::Pkce => "authPkce"@,
        }
    }

    /// The name of the key in the browser's session storage.
    pub fn name(&self) -> (name: &'static str)
        ensures
            name@ == self.spec_name(),
    {
        match self {
            ProofKey::State => "authState",
            ProofKey::Nonce => "authNonce",
            ProofKey::Pkce => "authPkce",
        }
    }
}

/// What is kept under the three keys. The caller mirrors it to storage that
/// survives a navigation.
#[derive(Debug)]
pub struct ProofStore {
    state: Option<String>,
    nonce: Option<String>,
    pkce: Option<String>,
}

impl ProofStore {
    /// What the store holds under `key`.
    pub closed spec fn entry(&self, key: ProofKey) -> Option<Seq<char>> {
        match key {
            ProofKey::State => text(self.state),
            ProofKey::Nonce => text(self.nonce),
            ProofKey::Pkce => text(self.pkce),
        }
    }

    /// A store that holds nothing.
    pub fn new() -> (store: ProofStore)
        ensures
            forall|key: ProofKey| store.entry(key) is None,
    {
        ProofStore { state: None, nonce: None, pkce: None }
    }

    /// Keeps `value` under `key`, in place of what was there.
    pub fn put(&mut self, key: ProofKey, value: String)
        ensures
            final(self).entry(key) == Some(value@),
            forall|other: ProofKey| other != key ==> final(self).entry(other) == old(self).entry(other),
    {
        match key {
            ProofKey::State => {
                self.state = Some(value);
            },
            ProofKey::Nonce => {
                self.nonce = Some(value);
            },
            ProofKey::Pkce => {
                self.pkce = Some(value);
            },
        }
    }

    /// What is kept under `key`, if anything.
    pub fn get(&self, key: ProofKey) -> (value: Option<String>)
        ensures
            text(value) == self.entry(key),
    {
        match key {
            ProofKey::State => copy_of(&self.state),
            ProofKey::Nonce => copy_of(&self.nonce),
            ProofKey::Pkce => copy_of(&self.pkce),
        }
    }

    /// Forgets what is kept under `key`.
    pub fn delete(&mut self, key: ProofKey)
        ensures
            final(self).entry(key) is None,
            forall|other: ProofKey| other != key ==> final(self).entry(other) == old(self).entry(other),
    {
        match key {
            ProofKey::State => {
                self.state = None;
            },
            ProofKey::Nonce => {
                self.nonce = None;
            },
            ProofKey::Pkce => {
                self.pkce = None;
            },
        }
    }

    /// Whether nothing is kept.
    pub fn is_empty(&self) -> (empty: bool)
        ensures
            empty == (forall|key: ProofKey| self.entry(key) is None),
    {
        let empty = self.state.is_none() && self.nonce.is_none() && self.pkce.is_none();
        proof {
            if !empty {
                assert(self.entry(ProofKey::State) is Some || self.entry(ProofKey::Nonce) is Some
                    || self.entry(ProofKey::Pkce) is Some);
            }
        }
        empty
    }
}

} // verus!
