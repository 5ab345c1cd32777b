//! What the identity provider publishes about itself, and the address of
//! its authorization endpoint with the parameters of one login request.

use openidconnect::AuthUrl;
use openidconnect::ClientId;
use openidconnect::CsrfToken;
use openidconnect::IssuerUrl;
use openidconnect::Nonce;
use openidconnect::PkceCodeChallenge;
use openidconnect::PkceCodeVerifier;
use openidconnect::RedirectUrl;
use openidconnect::Scope;
use crate::pkce::s256_challenge;
use crate::pkce::verifier_fits;
use crate::text::text;
use vstd::prelude::*;

verus! {

/// The part of the provider's discovery document that a login needs.
#[derive(Clone, Debug)]
pub struct ProviderMetadata {
    /// The issuer identifier.
    pub issuer: String,
    /// Where the browser is sent to log in.
    pub authorization_endpoint: String,
    /// Where an authorization code is exchanged for tokens.
    pub token_endpoint: Option<String>,
}

/// Everything that goes into the address of one authorization request.
#[derive(Clone, Debug)]
pub struct AuthorizationRequest {
    pub authorization_endpoint: String,
    pub issuer: String,
    pub client_id: String,
    pub redirect_url: String,
    pub scope: String,
    pub state: String,
    pub nonce: String,
    pub code_verifier: String,
}

/// The address that openidconnect's `AuthorizationRequest::url` gives for an
/// authorization-code request with these parameters: the authorization
/// endpoint with `response_type=code`, the client id, the state, the
/// challenge and its method `S256`, the redirect address, the scopes
/// `openid` and `scope`, and the nonce appended to its query. `None` where
/// the endpoint, the issuer or the redirect address is no URL.
pub uninterp spec fn authorization_url_text(
    authorization_endpoint: Seq<char>,
    issuer: Seq<char>,
    client_id: Seq<char>,
    redirect_url: Seq<char>,
    scope: Seq<char>,
    state: Seq<char>,
    nonce: Seq<char>,
    code_challenge: Seq<char>,
) -> Option<Seq<char>>;

impl AuthorizationRequest {
    /// The address of this request, if it has one.
    pub open spec fn spec_url(&self) -> Option<Seq<char>> {
        authorization_url_text(
            self.authorization_endpoint@,
            self.issuer@,
            self.client_id@,
            self.redirect_url@,
            self.scope@,
            self.state@,
            self.nonce@,
            s256_challenge(self.code_verifier@),
        )
    }

    /// The address to send the browser to; `None` where one of the addresses
    /// that go into it is no URL.
    pub fn url(self) -> (url: Option<String>)
        requires
            verifier_fits(self.code_verifier@),
        ensures
            text(url) == self.spec_url(),
    {
        authorization_url(
            self.authorization_endpoint,
            self.issuer,
            self.client_id,
            self.redirect_url,
            self.scope,
            self.state,
            self.nonce,
            self.code_verifier,
        )
    }
}

/// `CoreClient::authorize_url` and `AuthorizationRequest::url` of
/// openidconnect, for the authorization-code flow with one added scope and
/// the challenge that `PkceCodeChallenge::from_code_verifier_sha256` derives
/// from `code_verifier`, so the address is the one for that challenge; `None`
/// where `IssuerUrl::new`, `AuthUrl::new` or `RedirectUrl::new` refuses its
/// argument. Deriving the challenge panics on a verifier of fewer than 43 or
/// more than 128 bytes.
#[verifier::external_body]
fn authorization_url(
    authorization_endpoint: String,
    issuer: String,
    client_id: String,
    redirect_url: String,
    scope: String,
    state: String,
    nonce: String,
    code_verifier: String,
) -> (url: Option<String>)
    requires
        verifier_fits(code_verifier@),
    ensures
        text(url) == authorization_url_text(
            authorization_endpoint@,
            issuer@,
            client_id@,
            redirect_url@,
            scope@,
            state@,
            nonce@,
            s256_challenge(code_verifier@),
        ),
{
    let challenge = PkceCodeChallenge::from_code_verifier_sha256(&PkceCodeVerifier::new(code_verifier));
    let (state, nonce) = (CsrfToken::new(state), Nonce::new(nonce));
    let issuer = IssuerUrl::new(issuer).ok()?;
    let endpoint = AuthUrl::new(authorization_endpoint).ok()?;
    let redirect = RedirectUrl::new(redirect_url).ok()?;
    let id = ClientId::new(client_id);
    let client = openidconnect::core::CoreClient::new(id, None, issuer, endpoint, None, None, Default::default());
    let client = client.set_redirect_uri(redirect);
    let flow = openidconnect::core::CoreAuthenticationFlow::AuthorizationCode;
    let request = client.authorize_url(flow, move || state, move || nonce);
    let request = request.add_scope(Scope::new(scope)).set_pkce_challenge(challenge);
    Some(request.url().0.to_string())
}

/// `CsrfToken::new_random` of openidconnect: a fresh random state token.
#[verifier::external_body]
pub(crate) fn random_state() -> (state: String) {
    CsrfToken::new_random().secret().clone()
}

/// `Nonce::new_random` of openidconnect: a fresh random nonce.
#[verifier::external_body]
pub(crate) fn random_nonce() -> (nonce: String) {
    Nonce::new_random().secret().clone()
}

} // verus!
