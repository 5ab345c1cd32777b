//! The login itself: preparing the authorization request, and completing the
//! login once the identity provider has sent the browser back.

use crate::pkce::s256_challenge;
use crate::pkce::verifier_fits;
use crate::pkce::PkcePair;
use crate::proof_store::ProofKey;
use crate::proof_store::ProofStore;
use crate::provider::authorization_url_text;
use crate::provider::random_nonce;
use crate::provider::random_state;
use crate::provider::AuthorizationRequest;
use crate::provider::ProviderMetadata;
use crate::query::is_plain;
use crate::query::lemma_two_plain_pairs;
use crate::query::param_of;
use crate::query::query_param;
use crate::query::two_pairs;
use crate::text::copy_of;
use crate::text::same_text;
use crate::text::text;
use vstd::prelude::*;

verus! {

/// The query parameter of the callback that carries the authorization code.
pub const CODE_PARAM: &'static str = "code";

/// The query parameter of the callback that echoes the state token.
pub const STATE_PARAM: &'static str = "state";

/// Why a login did not come about.
#[derive(Clone, Debug, PartialEq, Eq)]
pub enum AuthError {
    /// The provider's metadata could not be had, or no authorization address
    /// can be made of it.
    DiscoveryError,
    /// One of the three kept secrets was missing when the callback came.
    MissingProof,
    /// The callback address lacks the code or the state.
    MissingCallbackParams,
    /// The state of the callback is not the one that was kept.
    InvalidState,
    /// The provider did not hand out tokens for the code; with the reason.
    TokenExchangeError(String),
}

impl AuthError {
    pub open spec fn spec_message(self) -> Seq<char> {
        match self {
            AuthError::DiscoveryError => "Discovery failed"@,
            AuthError::MissingProof => "No verifiers"@,
            AuthError::MissingCallbackParams => "Missing code or state"@,
            AuthError::InvalidState => "Invalid state"@,
            AuthError::TokenExchangeError(_) => "Bad token result"@,
        }
    }

    /// A short description for the user.
    pub fn message(&self) -> (message: String)
        ensures
            message@ == self.spec_message(),
    {
        match self {
            AuthError::DiscoveryError => String::from_str("Discovery failed"),
            AuthError::MissingProof => String::from_str("No verifiers"),
            AuthError::MissingCallbackParams => String::from_str("Missing code or state"),
            AuthError::InvalidState => String::from_str("Invalid state"),
            AuthError::TokenExchangeError(_) => String::from_str("Bad token result"),
        }
    }
}

/// A login session: either prepared, with the address to send the browser to
/// and the three secrets to keep meanwhile, or authenticated, with tokens.
#[derive(Clone, Debug)]
pub struct Auth {
    pub auth_url: Option<String>,
    pub access_token: Option<String>,
    pub refresh_token: Option<String>,
    pub auth_state: Option<String>,
    pub auth_nonce: Option<String>,
    pub auth_pkce: Option<String>,
}

/// What the provider handed out for an authorization code.
#[derive(Clone, Debug)]
pub struct TokenSet {
    pub access_token: String,
    pub refresh_token: Option<String>,
}

/// A callback that passed its checks and waits for the provider's metadata.
#[derive(Clone, Debug)]
pub struct PendingExchange {
    pub client_id: String,
    pub client_secret: Option<String>,
    pub issuer_url: String,
    pub redirect_url: String,
    pub code: String,
    pub code_verifier: String,
}

/// The exchange of an authorization code for tokens, to be carried out with
/// the grant type `authorization_code`.
#[derive(Clone, Debug)]
pub struct TokenRequest {
    pub metadata: ProviderMetadata,
    pub client_id: String,
    pub client_secret: Option<String>,
    pub redirect_url: String,
    pub code: String,
    pub code_verifier: String,
}

/// Where the completion of a login stands, which is also what the caller has
/// to do next.
#[derive(Debug)]
pub enum AuthFlow {
    /// Fetch the metadata of the issuer and report it.
    Discover(PendingExchange),
    /// Carry out the exchange and report the tokens.
    Exchange(TokenRequest),
    /// Nothing is left to do: the login came about, or failed for good.
    Done(Result<Auth, AuthError>),
}

/// What the caller reports back.
#[derive(Clone, Debug)]
pub enum AuthEvent {
    /// The provider's metadata.
    Metadata(ProviderMetadata),
    /// The metadata could not be fetched or read.
    DiscoveryFailed,
    /// The provider's answer to the exchange.
    Tokens(TokenSet),
    /// The exchange failed, in transport or by the provider's refusal.
    ExchangeFailed(String),
}

/// The error, if any, with which a callback is turned away before anything is
/// asked of the provider: given what was kept under the three keys and the
/// query string of the callback address.
pub open spec fn callback_error(
    kept_state: Option<Seq<char>>,
    kept_nonce: Option<Seq<char>>,
    kept_verifier: Option<Seq<char>>,
    search: Seq<char>,
) -> Option<AuthError> {
    if kept_state is None || kept_nonce is None || kept_verifier is None {
        Some(AuthError::MissingProof)
    } else if param_of(search, CODE_PARAM@) is None || param_of(search, STATE_PARAM@) is None {
        Some(AuthError::MissingCallbackParams)
    } else if param_of(search, STATE_PARAM@) != kept_state {
        Some(AuthError::InvalidState)
    } else {
        None
    }
}

impl Auth {
    /// The three pending secrets are there together or not at all; an address
    /// comes only with them, and tokens only without them.
    pub open spec fn wf(&self) -> bool {
        &&& self.auth_state is Some <==> self.auth_nonce is Some
        &&& self.auth_state is Some <==> self.auth_pkce is Some
        &&& self.auth_url is Some ==> self.auth_state is Some
        &&& self.access_token is Some ==> self.auth_state is None
        &&& self.refresh_token is Some ==> self.auth_state is None
    }

    /// Prepared: an address to go to, three secrets to keep, no tokens.
    pub open spec fn is_prepared(&self) -> bool {
        &&& self.auth_url is Some
        &&& self.access_token is None
        &&& self.refresh_token is None
        &&& self.auth_state is Some
        &&& self.auth_nonce is Some
        &&& self.auth_pkce is Some
    }

    /// A session that holds nothing.
    pub open spec fn spec_empty() -> Auth {
        Auth {
            auth_url: None,
            access_token: None,
            refresh_token: None,
            auth_state: None,
            auth_nonce: None,
            auth_pkce: None,
        }
    }

    /// The session of a successful exchange.
    pub open spec fn spec_authenticated(tokens: TokenSet) -> Auth {
        Auth {
            auth_url: None,
            access_token: Some(tokens.access_token),
            refresh_token: tokens.refresh_token,
            auth_state: None,
            auth_nonce: None,
            auth_pkce: None,
        }
    }

    /// This session without its tokens.
    pub open spec fn spec_logout(self) -> Auth {
        Auth { access_token: None, refresh_token: None, ..self }
    }

    /// A session that holds nothing.
    pub fn empty() -> (me: Auth)
        ensures
            me == Auth::spec_empty(),
    {
        Auth {
            auth_url: None,
            access_token: None,
            refresh_token: None,
            auth_state: None,
            auth_nonce: None,
            auth_pkce: None,
        }
    }

    /// Takes the kept secrets out of the store: the session holds what was
    /// kept, and the store holds nothing afterwards.
    pub fn cont(store: &mut ProofStore) -> (me: Auth)
        ensures
            me.auth_url is None,
            me.access_token is None,
            me.refresh_token is None,
            text(me.auth_state) == old(store).entry(ProofKey::State),
            text(me.auth_nonce) == old(store).entry(ProofKey::Nonce),
            text(me.auth_pkce) == old(store).entry(ProofKey::Pkce),
            forall|key: ProofKey| final(store).entry(key) is None,
    {
        let mut me = Auth::empty();
        me.get_proof(store);
        Auth::remove_proof(store);
        me
    }

    /// Prepares a login, given the provider's metadata or `None` if it could
    /// not be had: makes up a state token, a nonce and a PKCE verifier and
    /// builds the address of the authorization request from them. Nothing is
    /// kept: `set_proof` does that, before the browser leaves.
    pub fn begin(
        client_id: String,
        client_secret: Option<String>,
        issuer_url: String,
        redirect_url: String,
        scope: String,
        metadata: Option<ProviderMetadata>,
    ) -> (prepared: Result<Auth, AuthError>)
        ensures
            metadata is None ==> prepared == Err::<Auth, AuthError>(AuthError::DiscoveryError),
            prepared matches Err(e) ==> e == AuthError::DiscoveryError,
            prepared is Err ==> metadata is None || exists|
                state: Seq<char>,
                nonce: Seq<char>,
                challenge: Seq<char>,
            |
                #[trigger] authorization_url_text(
                    metadata->0.authorization_endpoint@,
                    metadata->0.issuer@,
                    client_id@,
                    redirect_url@,
                    scope@,
                    state,
                    nonce,
                    challenge,
                ) is None,
            prepared matches Ok(me) ==> {
                &&& metadata is Some
                &&& me.is_prepared()
                &&& verifier_fits(me.auth_pkce->0@)
                &&& text(me.auth_url) == authorization_url_text(
                    metadata->0.authorization_endpoint@,
                    metadata->0.issuer@,
                    client_id@,
                    redirect_url@,
                    scope@,
                    me.auth_state->0@,
                    me.auth_nonce->0@,
                    s256_challenge(me.auth_pkce->0@),
                )
            },
    {
        match metadata {
            None => Err(AuthError::DiscoveryError),
            Some(metadata) => {
                let state = random_state();
                let nonce = random_nonce();
                let pkce = PkcePair::generate();
                Auth::prepare(client_id, redirect_url, scope, metadata, state, nonce, pkce)
            },
        }
    }

    /// The prepared session for given secrets: its address is the one of an
    /// authorization request that carries `state`, `nonce` and the challenge
    /// of `pkce`. Fails with `DiscoveryError` where no such address exists.
    pub fn prepare(
        client_id: String,
        redirect_url: String,
        scope: String,
        metadata: ProviderMetadata,
        state: String,
        nonce: String,
        pkce: PkcePair,
    ) -> (prepared: Result<Auth, AuthError>)
        requires
            pkce.wf(),
        ensures
            ({
                let url = authorization_url_text(
                    metadata.authorization_endpoint@,
                    metadata.issuer@,
                    client_id@,
                    redirect_url@,
                    scope@,
                    state@,
                    nonce@,
                    pkce.challenge@,
                );
                match prepared {
                    Ok(me) => {
                        &&& url is Some
                        &&& text(me.auth_url) == url
                        &&& me.access_token is None
                        &&& me.refresh_token is None
                        &&& me.auth_state == Some(state)
                        &&& me.auth_nonce == Some(nonce)
                        &&& me.auth_pkce == Some(pkce.verifier)
                    },
                    Err(e) => url is None && e == AuthError::DiscoveryError,
                }
            }),
    {
        let request = AuthorizationRequest {
            authorization_endpoint: metadata.authorization_endpoint,
            issuer: metadata.issuer,
            client_id,
            redirect_url,
            scope,
            state: state.clone(),
            nonce: nonce.clone(),
            code_verifier: pkce.verifier.clone(),
        };
        match request.url() {
            Some(url) => Ok(
                Auth {
                    auth_url: Some(url),
                    access_token: None,
                    refresh_token: None,
                    auth_state: Some(state),
                    auth_nonce: Some(nonce),
                    auth_pkce: Some(pkce.verifier),
                },
            ),
            None => Err(AuthError::DiscoveryError),
        }
    }

    /// Starts the completion of a login from the kept secrets and the query
    /// string of the callback address. The store is emptied whatever comes of
    /// it, so a failed completion needs a new `begin`. A callback without
    /// kept secrets, without code or state, or with another state than the
    /// kept one ends here; any other waits for the provider's metadata.
    pub fn complete(
        client_id: String,
        client_secret: Option<String>,
        issuer_url: String,
        redirect_url: String,
        store: &mut ProofStore,
        search: &str,
    ) -> (flow: AuthFlow)
        ensures
            forall|key: ProofKey| final(store).entry(key) is None,
            Auth::completion_starts(
                old(store).entry(ProofKey::State),
                old(store).entry(ProofKey::Nonce),
                old(store).entry(ProofKey::Pkce),
                search@,
                flow,
            ),
            flow matches AuthFlow::Discover(pending) ==> {
                &&& pending.client_id == client_id
                &&& pending.client_secret == client_secret
                &&& pending.issuer_url == issuer_url
                &&& pending.redirect_url == redirect_url
            },
    {
        let me = Auth::cont(store);
        let (kept_state, verifier) = match (me.auth_state, me.auth_nonce, me.auth_pkce) {
            (Some(kept_state), Some(_), Some(verifier)) => (kept_state, verifier),
            _ => {
                return AuthFlow::Done(Err(AuthError::MissingProof));
            },
        };
        let (code, state) = match (Auth::code(search), Auth::state(search)) {
            (Some(code), Some(state)) => (code, state),
            _ => {
                return AuthFlow::Done(Err(AuthError::MissingCallbackParams));
            },
        };
        if !Auth::validate_state(kept_state.as_str(), state.as_str()) {
            return AuthFlow::Done(Err(AuthError::InvalidState));
        }
        AuthFlow::Discover(
            PendingExchange {
                client_id,
                client_secret,
                issuer_url,
                redirect_url,
                code,
                code_verifier: verifier,
            },
        )
    }

    /// How `complete` answers a callback: with the error that turns it away,
    /// or with the wait for metadata that carries the callback's code and the
    /// kept verifier.
    pub open spec fn completion_starts(
        kept_state: Option<Seq<char>>,
        kept_nonce: Option<Seq<char>>,
        kept_verifier: Option<Seq<char>>,
        search: Seq<char>,
        flow: AuthFlow,
    ) -> bool {
        match callback_error(kept_state, kept_nonce, kept_verifier, search) {
            Some(e) => flow == AuthFlow::Done(Err(e)),
            None => {
                &&& flow matches AuthFlow::Discover(pending)
                &&& Some(pending.code@) == param_of(search, CODE_PARAM@)
                &&& Some(pending.code_verifier@) == kept_verifier
            },
        }
    }

    /// Whether the state that came back is the kept one, character for
    /// character.
    pub fn validate_state(csrf_token: &str, state: &str) -> (valid: bool)
        ensures
            valid == (csrf_token@ == state@),
    {
        same_text(csrf_token, state)
    }

    /// Keeps the three pending secrets of a prepared session. A session
    /// without them is refused with `MissingProof` and the store is left as
    /// it was.
    pub fn set_proof(&self, store: &mut ProofStore) -> (kept: Result<(), AuthError>)
        ensures
            kept is Ok <==> (self.auth_state is Some && self.auth_nonce is Some
                && self.auth_pkce is Some),
            kept is Ok ==> {
                &&& final(store).entry(ProofKey::State) == text(self.auth_state)
                &&& final(store).entry(ProofKey::Nonce) == text(self.auth_nonce)
                &&& final(store).entry(ProofKey::Pkce) == text(self.auth_pkce)
            },
            kept matches Err(e) ==> e == AuthError::MissingProof && *final(store) == *old(store),
    {
        match (&self.auth_state, &self.auth_nonce, &self.auth_pkce) {
            (Some(state), Some(nonce), Some(verifier)) => {
                store.put(ProofKey::State, state.clone());
                store.put(ProofKey::Nonce, nonce.clone());
                store.put(ProofKey::Pkce, verifier.clone());
                Ok(())
            },
            _ => Err(AuthError::MissingProof),
        }
    }

    /// Takes over what the store holds under the three keys.
    pub fn get_proof(&mut self, store: &ProofStore)
        ensures
            text(final(self).auth_state) == store.entry(ProofKey::State),
            text(final(self).auth_nonce) == store.entry(ProofKey::Nonce),
            text(final(self).auth_pkce) == store.entry(ProofKey::Pkce),
            final(self).auth_url == old(self).auth_url,
            final(self).access_token == old(self).access_token,
            final(self).refresh_token == old(self).refresh_token,
    {
        self.auth_state = store.get(ProofKey::State);
        self.auth_nonce = store.get(ProofKey::Nonce);
        self.auth_pkce = store.get(ProofKey::Pkce);
    }

    /// Empties the store.
    pub fn remove_proof(store: &mut ProofStore)
        ensures
            forall|key: ProofKey| final(store).entry(key) is None,
    {
        store.delete(ProofKey::State);
        store.delete(ProofKey::Nonce);
        store.delete(ProofKey::Pkce);
    }

    /// The authorization code in the query string of the callback address.
    pub fn code(search: &str) -> (code: Option<String>)
        ensures
            text(code) == param_of(search@, CODE_PARAM@),
    {
        query_param(search, CODE_PARAM)
    }

    /// Whether the query string carries an authorization code.
    pub fn has_code(search: &str) -> (has: bool)
        ensures
            has == param_of(search@, CODE_PARAM@) is Some,
    {
        Auth::code(search).is_some()
    }

    /// The state in the query string of the callback address.
    pub fn state(search: &str) -> (state: Option<String>)
        ensures
            text(state) == param_of(search@, STATE_PARAM@),
    {
        query_param(search, STATE_PARAM)
    }

    /// Whether the query string carries a state.
    pub fn has_state(search: &str) -> (has: bool)
        ensures
            has == param_of(search@, STATE_PARAM@) is Some,
    {
        Auth::state(search).is_some()
    }

    pub fn clear_access_token(&mut self)
        ensures
            *final(self) == (Auth { access_token: None, ..*old(self) }),
    {
        self.access_token = None;
    }

    pub fn clear_refresh_token(&mut self)
        ensures
            *final(self) == (Auth { refresh_token: None, ..*old(self) }),
    {
        self.refresh_token = None;
    }

    /// Ends the session: both tokens go, whether or not there were any, and
    /// so does whatever the store still holds.
    pub fn logout(&mut self, store: &mut ProofStore)
        ensures
            *final(self) == old(self).spec_logout(),
            forall|key: ProofKey| final(store).entry(key) is None,
    {
        self.clear_access_token();
        self.clear_refresh_token();
        Auth::remove_proof(store);
    }

    /// Whether the session has an address to send the browser to.
    pub fn ready_to_login(&self) -> (ready: bool)
        ensures
            ready == self.auth_url is Some,
    {
        self.auth_url.is_some()
    }

    /// Whether the session holds the token that makes it a login.
    pub fn ready_to_logout(&self) -> (ready: bool)
        ensures
            ready == self.access_token is Some,
    {
        self.access_token.is_some()
    }

    /// The token with which requests are made, if the session has one.
    pub fn bearer(&self) -> (token: Option<String>)
        ensures
            token == self.access_token,
    {
        copy_of(&self.access_token)
    }
}

/// The one place where the application keeps the token of the current
/// login. Everything may read it; only a login and a logout write it.
#[derive(Clone, Debug)]
pub struct TokenSlot {
    token: Option<String>,
}

impl TokenSlot {
    /// The token that the slot holds.
    pub closed spec fn current(&self) -> Option<String> {
        self.token
    }

    /// A slot without a token.
    pub fn new() -> (slot: TokenSlot)
        ensures
            slot.current() is None,
    {
        TokenSlot { token: None }
    }

    /// Takes over the token of `session`; a session without one leaves the
    /// slot empty.
    pub fn login(&mut self, session: &Auth)
        ensures
            final(self).current() == session.access_token,
    {
        self.token = session.bearer();
    }

    /// Empties the slot.
    pub fn logout(&mut self)
        ensures
            final(self).current() is None,
    {
        self.token = None;
    }

    /// The token to make requests with, if there is a login.
    pub fn token(&self) -> (token: Option<String>)
        ensures
            token == self.current(),
    {
        copy_of(&self.token)
    }

    /// Whether there is a login.
    pub fn is_logged_in(&self) -> (logged_in: bool)
        ensures
            logged_in == self.current() is Some,
    {
        self.token.is_some()
    }
}

impl AuthFlow {
    /// The step that `event` causes. An event that does not answer what the
    /// flow waits for leaves it as it is.
    pub open spec fn spec_step(self, event: AuthEvent) -> AuthFlow {
        match (self, event) {
            (AuthFlow::Discover(pending), AuthEvent::Metadata(metadata)) => AuthFlow::Exchange(
                TokenRequest {
                    metadata,
                    client_id: pending.client_id,
                    client_secret: pending.client_secret,
                    redirect_url: pending.redirect_url,
                    code: pending.code,
                    code_verifier: pending.code_verifier,
                },
            ),
            (AuthFlow::Discover(_), AuthEvent::DiscoveryFailed) => AuthFlow::Done(
                Err(AuthError::DiscoveryError),
            ),
            (AuthFlow::Exchange(_), AuthEvent::Tokens(tokens)) => AuthFlow::Done(
                Ok(Auth::spec_authenticated(tokens)),
            ),
            (AuthFlow::Exchange(_), AuthEvent::ExchangeFailed(reason)) => AuthFlow::Done(
                Err(AuthError::TokenExchangeError(reason)),
            ),
            (flow, _) => flow,
        }
    }

    /// Where the flow stands after all of `events`, in order.
    pub open spec fn run(self, events: Seq<AuthEvent>) -> AuthFlow
        decreases events.len(),
    {
        if events.len() == 0 {
            self
        } else {
            self.spec_step(events[0]).run(events.skip(1))
        }
    }

    /// Takes the flow one step on: metadata turns a waiting callback into an
    /// exchange, tokens turn an exchange into an authenticated session, and
    /// a failure of either ends the flow with its error.
    pub fn step(self, event: AuthEvent) -> (next: AuthFlow)
        ensures
            next == self.spec_step(event),
    {
        match (self, event) {
            (AuthFlow::Discover(pending), AuthEvent::Metadata(metadata)) => AuthFlow::Exchange(
                TokenRequest {
                    metadata,
                    client_id: pending.client_id,
                    client_secret: pending.client_secret,
                    redirect_url: pending.redirect_url,
                    code: pending.code,
                    code_verifier: pending.code_verifier,
                },
            ),
            (AuthFlow::Discover(_), AuthEvent::DiscoveryFailed) => AuthFlow::Done(
                Err(AuthError::DiscoveryError),
            ),
            (AuthFlow::Exchange(_), AuthEvent::Tokens(tokens)) => AuthFlow::Done(
                Ok(
                    Auth {
                        auth_url: None,
                        access_token: Some(tokens.access_token),
                        refresh_token: tokens.refresh_token,
                        auth_state: None,
                        auth_nonce: None,
                        auth_pkce: None,
                    },
                ),
            ),
            (AuthFlow::Exchange(_), AuthEvent::ExchangeFailed(reason)) => AuthFlow::Done(
                Err(AuthError::TokenExchangeError(reason)),
            ),
            (flow, _) => flow,
        }
    }
}

/// A flow that is done stays as it is, whatever is reported to it.
pub proof fn lemma_done_is_final(flow: AuthFlow, events: Seq<AuthEvent>)
    requires
        flow is Done,
    ensures
        flow.run(events) == flow,
    decreases events.len(),
{
    if events.len() > 0 {
        lemma_done_is_final(flow, events.skip(1));
    }
}

/// A callback whose state is not the kept one never leads to tokens: however
/// `complete` answered it and whatever is reported afterwards, the flow ends
/// in an error, and in `InvalidState` where nothing else was amiss.
pub proof fn lemma_wrong_state_never_succeeds(
    kept_state: Option<Seq<char>>,
    kept_nonce: Option<Seq<char>>,
    kept_verifier: Option<Seq<char>>,
    search: Seq<char>,
    flow: AuthFlow,
    events: Seq<AuthEvent>,
)
    requires
        Auth::completion_starts(kept_state, kept_nonce, kept_verifier, search, flow),
        param_of(search, STATE_PARAM@) != kept_state,
    ensures
        flow.run(events) matches AuthFlow::Done(Err(_)),
        flow.run(events) == flow,
        (kept_state is Some && kept_nonce is Some && kept_verifier is Some && param_of(
            search,
            CODE_PARAM@,
        ) is Some && param_of(search, STATE_PARAM@) is Some) ==> flow == AuthFlow::Done(
            Err(AuthError::InvalidState),
        ),
{
    lemma_done_is_final(flow, events);
}

/// The query string `?code=<code>&state=<state>`.
pub open spec fn callback_query(code: Seq<char>, state: Seq<char>) -> Seq<char> {
    two_pairs(CODE_PARAM@, code, STATE_PARAM@, state)
}

/// A callback `?code=<code>&state=<state>` whose code and state are plain
/// texts, and for which all three secrets were kept, goes on to the exchange
/// of just that code with the kept verifier if its state is the kept one,
/// and is turned away as `InvalidState` if it is any other.
pub proof fn lemma_callback_stands_or_falls_by_its_state(
    kept_state: Seq<char>,
    kept_nonce: Seq<char>,
    kept_verifier: Seq<char>,
    code: Seq<char>,
    state: Seq<char>,
    flow: AuthFlow,
)
    requires
        is_plain(code),
        is_plain(state),
        Auth::completion_starts(
            Some(kept_state),
            Some(kept_nonce),
            Some(kept_verifier),
            callback_query(code, state),
            flow,
        ),
    ensures
        param_of(callback_query(code, state), CODE_PARAM@) == Some(code),
        param_of(callback_query(code, state), STATE_PARAM@) == Some(state),
        state == kept_state ==> (flow matches AuthFlow::Discover(pending) && pending.code@ == code
            && pending.code_verifier@ == kept_verifier),
        state != kept_state ==> flow == AuthFlow::Done(Err(AuthError::InvalidState)),
{
    reveal_strlit("code");
    reveal_strlit("state");
    assert(CODE_PARAM@.len() == 4);
    assert(STATE_PARAM@.len() == 5);
    assert(is_plain(CODE_PARAM@));
    assert(is_plain(STATE_PARAM@));
    lemma_two_plain_pairs(CODE_PARAM@, code, STATE_PARAM@, state, CODE_PARAM@);
    lemma_two_plain_pairs(CODE_PARAM@, code, STATE_PARAM@, state, STATE_PARAM@);
}

/// Tokens come only of a callback that passed every check: if the flow ends
/// in a session, the kept secrets were all there and the callback carried a
/// code and the kept state.
pub proof fn lemma_success_needs_matching_state(
    kept_state: Option<Seq<char>>,
    kept_nonce: Option<Seq<char>>,
    kept_verifier: Option<Seq<char>>,
    search: Seq<char>,
    flow: AuthFlow,
    events: Seq<AuthEvent>,
)
    requires
        Auth::completion_starts(kept_state, kept_nonce, kept_verifier, search, flow),
        flow.run(events) matches AuthFlow::Done(Ok(_)),
    ensures
        kept_state is Some,
        kept_nonce is Some,
        kept_verifier is Some,
        param_of(search, CODE_PARAM@) is Some,
        param_of(search, STATE_PARAM@) == kept_state,
{
    if callback_error(kept_state, kept_nonce, kept_verifier, search) is Some {
        lemma_done_is_final(flow, events);
    }
}

/// The exchange that a flow asks for carries the code of the callback and the
/// kept verifier, whatever metadata the provider publishes.
pub proof fn lemma_exchange_carries_code_and_verifier(
    kept_state: Option<Seq<char>>,
    kept_nonce: Option<Seq<char>>,
    kept_verifier: Option<Seq<char>>,
    search: Seq<char>,
    flow: AuthFlow,
    metadata: ProviderMetadata,
)
    requires
        Auth::completion_starts(kept_state, kept_nonce, kept_verifier, search, flow),
        callback_error(kept_state, kept_nonce, kept_verifier, search) is None,
    ensures
        flow.spec_step(AuthEvent::Metadata(metadata)) matches AuthFlow::Exchange(request) && {
            &&& request.metadata == metadata
            &&& Some(request.code@) == param_of(search, CODE_PARAM@)
            &&& Some(request.code_verifier@) == kept_verifier
        },
{
}

/// A prepared session, the session of an exchange and a session that was
/// logged out of are well formed.
pub proof fn lemma_sessions_are_well_formed(me: Auth, tokens: TokenSet)
    ensures
        me.is_prepared() ==> me.wf(),
        Auth::spec_authenticated(tokens).wf(),
        Auth::spec_empty().wf(),
        me.wf() ==> me.spec_logout().wf(),
{
}

/// Logging out leaves no token behind, and logging out again changes
/// nothing.
pub proof fn lemma_logout_idempotent(me: Auth)
    ensures
        me.spec_logout().access_token is None,
        me.spec_logout().refresh_token is None,
        me.spec_logout().spec_logout() == me.spec_logout(),
{
}

} // verus!
