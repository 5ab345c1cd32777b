//! Proof Key for Code Exchange: a random verifier that stays with the client
//! and the challenge derived from it that travels in the authorization
//! request.

use openidconnect::PkceCodeChallenge;
use openidconnect::PkceCodeVerifier;
use vstd::prelude::*;
use vstd::utf8::encode_utf8;

verus! {

/// The shortest verifier, in bytes, that a challenge is derived from.
pub const MIN_VERIFIER_LEN: usize = 43;

/// The longest verifier, in bytes, that a challenge is derived from.
pub const MAX_VERIFIER_LEN: usize = 128;

/// The S256 challenge of a verifier: the SHA-256 digest of the verifier's
/// bytes in unpadded URL-safe base64, as
/// `PkceCodeChallenge::from_code_verifier_sha256` computes it.
pub uninterp spec fn s256_challenge(verifier: Seq<char>) -> Seq<char>;

/// Whether a verifier has a length from which a challenge is derived.
pub open spec fn verifier_fits(verifier: Seq<char>) -> bool {
    MIN_VERIFIER_LEN <= encode_utf8(verifier).len() <= MAX_VERIFIER_LEN
}

/// Whether `challenge` is what hashing `verifier` gives.
pub open spec fn verifies(verifier: Seq<char>, challenge: Seq<char>) -> bool {
    verifier_fits(verifier) && challenge == s256_challenge(verifier)
}

/// A verifier with its challenge.
#[derive(Clone, Debug)]
pub struct PkcePair {
    pub verifier: String,
    pub challenge: String,
}

impl PkcePair {
    /// The challenge is the S256 challenge of the verifier.
    pub open spec fn wf(&self) -> bool {
        verifies(self.verifier@, self.challenge@)
    }

    /// A fresh random verifier with its challenge.
    pub fn generate() -> (pair: PkcePair)
        ensures
            pair.wf(),
    {
        let (challenge, verifier) = random_pair();
        PkcePair { verifier, challenge }
    }

    /// The pair of a given verifier; `None` if the verifier is shorter than
    /// 43 bytes or longer than 128.
    pub fn from_verifier(verifier: String) -> (pair: Option<PkcePair>)
        ensures
            pair is Some <==> verifier_fits(verifier@),
            pair matches Some(p) ==> p.verifier == verifier && p.wf(),
    {
        let len: usize = verifier.as_str().as_bytes().len();
        if len < MIN_VERIFIER_LEN || len > MAX_VERIFIER_LEN {
            return None;
        }
        let challenge = challenge_of(verifier.as_str());
        Some(PkcePair { verifier, challenge })
    }

    /// Whether `challenge` is what hashing `verifier` gives.
    pub fn verify(verifier: &str, challenge: &str) -> (holds: bool)
        ensures
            holds == verifies(verifier@, challenge@),
    {
        let len: usize = verifier.as_bytes().len();
        if len < MIN_VERIFIER_LEN || len > MAX_VERIFIER_LEN {
            return false;
        }
        let expected = challenge_of(verifier);
        let given = String::from_str(challenge);
        expected == given
    }
}

/// Hashing the verifier of a pair gives the challenge of the pair again, and
/// no other challenge passes for that verifier.
pub proof fn lemma_pair_verifies(pair: PkcePair, challenge: Seq<char>)
    requires
        pair.wf(),
    ensures
        verifies(pair.verifier@, pair.challenge@),
        verifies(pair.verifier@, challenge) ==> challenge == pair.challenge@,
{
}

/// `PkceCodeChallenge::new_random_sha256` of openidconnect: 32 random bytes in
/// unpadded URL-safe base64, which are 43 ASCII characters, as the verifier,
/// and with it the challenge that `from_code_verifier_sha256` derives from
/// that verifier. Returns the challenge first.
#[verifier::external_body]
fn random_pair() -> (pair: (String, String))
    ensures
        encode_utf8(pair.1@).len() == 43,
        pair.0@ == s256_challenge(pair.1@),
{
    let (challenge, verifier) = PkceCodeChallenge::new_random_sha256();
    (challenge.as_str().to_string(), verifier.secret().clone())
}

/// `PkceCodeChallenge::from_code_verifier_sha256` of openidconnect, which
/// panics on a verifier of fewer than 43 or more than 128 bytes.
#[verifier::external_body]
fn challenge_of(verifier: &str) -> (challenge: String)
    requires
        verifier_fits(verifier@),
    ensures
        challenge@ == s256_challenge(verifier@),
{
    let verifier = PkceCodeVerifier::new(verifier.to_string());
    PkceCodeChallenge::from_code_verifier_sha256(&verifier).as_str().to_string()
}

} // verus!
