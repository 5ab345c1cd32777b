use nxfutil::auth::Auth;
use nxfutil::auth::AuthError;
use nxfutil::auth::AuthEvent;
use nxfutil::auth::AuthFlow;
use nxfutil::auth::TokenSet;
use nxfutil::pkce::PkcePair;
use nxfutil::proof_store::ProofKey;
use nxfutil::proof_store::ProofStore;
use nxfutil::provider::ProviderMetadata;

const VERIFIER: &str = "dBjftJeZ4CVP-mB92K27uhbUJU1p1r_wW1gFWFOEjXk";
const CHALLENGE: &str = "E9Melhoa2OwvFrEMTJguCHaoeK1t8URWbuGJSstw-cM";

fn metadata() -> ProviderMetadata {
    ProviderMetadata {
        issuer: "https://idp.example/issuer".to_string(),
        authorization_endpoint: "https://idp.example/authorize".to_string(),
        token_endpoint: Some("https://idp.example/token".to_string()),
    }
}

fn begin() -> Result<Auth, AuthError> {
    Auth::begin(
        "client-x".to_string(),
        None,
        "https://idp.example/issuer".to_string(),
        "https://app.example/callback".to_string(),
        "api://nxfutil/user".to_string(),
        Some(metadata()),
    )
}

fn store_with(state: &str, nonce: &str, verifier: &str) -> ProofStore {
    let mut store = ProofStore::new();
    store.put(ProofKey::State, state.to_string());
    store.put(ProofKey::Nonce, nonce.to_string());
    store.put(ProofKey::Pkce, verifier.to_string());
    store
}

fn complete(store: &mut ProofStore, search: &str) -> AuthFlow {
    Auth::complete(
        "client-x".to_string(),
        Some("s3cret".to_string()),
        "https://idp.example/issuer".to_string(),
        "https://app.example/callback".to_string(),
        store,
        search,
    )
}

fn error_of(flow: AuthFlow) -> AuthError {
    match flow {
        AuthFlow::Done(Err(e)) => e,
        other => panic!("the flow did not fail: {:?}", other),
    }
}

#[test]
fn begin_builds_the_authorization_url() {
    let me = begin().unwrap();
    let url = me.auth_url.clone().unwrap();
    assert!(url.starts_with("https://idp.example/authorize?"));
    assert!(url.contains("client_id=client-x"));
    assert!(url.contains("redirect_uri=https%3A%2F%2Fapp.example%2Fcallback"));
    assert!(url.contains("code_challenge_method=S256"));
    assert!(url.contains("response_type=code"));
    assert!(url.contains("scope=openid+api%3A%2F%2Fnxfutil%2Fuser"));
}

#[test]
fn begin_returns_the_secrets_that_the_url_carries() {
    let me = begin().unwrap();
    let url = me.auth_url.clone().unwrap();
    let state = me.auth_state.clone().unwrap();
    let nonce = me.auth_nonce.clone().unwrap();
    let verifier = me.auth_pkce.clone().unwrap();
    assert!(!state.is_empty());
    assert!(!nonce.is_empty());
    assert_ne!(state, nonce);
    assert!(url.contains(&format!("state={}", state)));
    assert!(url.contains(&format!("nonce={}", nonce)));
    assert!(!url.contains(&verifier));
    assert!(me.access_token.is_none());
    assert!(me.refresh_token.is_none());
    assert!(me.ready_to_login());
    assert!(!me.ready_to_logout());
}

#[test]
fn challenge_in_the_url_is_the_hash_of_the_returned_verifier() {
    let me = begin().unwrap();
    let url = me.auth_url.clone().unwrap();
    let verifier = me.auth_pkce.clone().unwrap();
    let pair = PkcePair::from_verifier(verifier.clone()).unwrap();
    assert!(url.contains(&format!("code_challenge={}&", pair.challenge)));
    let sent = Auth::code(&url.replace("code_challenge", "code").replace("https://idp.example/authorize", "")).unwrap();
    assert!(PkcePair::verify(&verifier, &sent));
}

#[test]
fn two_logins_share_no_secret() {
    let a = begin().unwrap();
    let b = begin().unwrap();
    assert_ne!(a.auth_state, b.auth_state);
    assert_ne!(a.auth_nonce, b.auth_nonce);
    assert_ne!(a.auth_pkce, b.auth_pkce);
    assert_ne!(a.auth_url, b.auth_url);
}

#[test]
fn prepare_gives_the_url_of_the_given_secrets() {
    let pair = PkcePair::from_verifier(VERIFIER.to_string()).unwrap();
    let me = Auth::prepare(
        "client-x".to_string(),
        "https://app.example/callback".to_string(),
        "read".to_string(),
        metadata(),
        "xyz".to_string(),
        "n-1".to_string(),
        pair,
    )
    .unwrap();
    assert_eq!(
        me.auth_url.unwrap(),
        format!(
            "https://idp.example/authorize?response_type=code&client_id=client-x&state=xyz&code_challenge={}&code_challenge_method=S256&redirect_uri=https%3A%2F%2Fapp.example%2Fcallback&scope=openid+read&nonce=n-1",
            CHALLENGE
        )
    );
    assert_eq!(me.auth_state, Some("xyz".to_string()));
    assert_eq!(me.auth_nonce, Some("n-1".to_string()));
    assert_eq!(me.auth_pkce, Some(VERIFIER.to_string()));
    assert_eq!(me.access_token, None);
    assert_eq!(me.refresh_token, None);
}

#[test]
fn begin_without_metadata_is_a_discovery_error() {
    let failed = Auth::begin(
        "client-x".to_string(),
        None,
        "https://idp.example/issuer".to_string(),
        "https://app.example/callback".to_string(),
        "read".to_string(),
        None,
    );
    assert_eq!(failed.unwrap_err(), AuthError::DiscoveryError);
}

#[test]
fn metadata_without_a_usable_endpoint_is_a_discovery_error() {
    let mut broken = metadata();
    broken.authorization_endpoint = "not an address".to_string();
    let failed = Auth::begin(
        "client-x".to_string(),
        None,
        "https://idp.example/issuer".to_string(),
        "https://app.example/callback".to_string(),
        "read".to_string(),
        Some(broken),
    );
    assert_eq!(failed.unwrap_err(), AuthError::DiscoveryError);
    let pair = PkcePair::from_verifier(VERIFIER.to_string()).unwrap();
    let failed = Auth::prepare(
        "client-x".to_string(),
        "/relative".to_string(),
        "read".to_string(),
        metadata(),
        "xyz".to_string(),
        "n-1".to_string(),
        pair,
    );
    assert_eq!(failed.unwrap_err(), AuthError::DiscoveryError);
}

#[test]
fn callback_with_the_kept_state_asks_for_the_exchange() {
    let mut store = store_with("xyz", "n-1", "v1");
    let flow = complete(&mut store, "?code=abc&state=xyz");
    let pending = match &flow {
        AuthFlow::Discover(pending) => pending.clone(),
        other => panic!("no discovery was asked for: {:?}", other),
    };
    assert_eq!(pending.issuer_url, "https://idp.example/issuer");
    assert_eq!(pending.code, "abc");
    assert_eq!(pending.code_verifier, "v1");
    let request = match flow.step(AuthEvent::Metadata(metadata())) {
        AuthFlow::Exchange(request) => request,
        other => panic!("no exchange was asked for: {:?}", other),
    };
    assert_eq!(request.code, "abc");
    assert_eq!(request.code_verifier, "v1");
    assert_eq!(request.client_id, "client-x");
    assert_eq!(request.client_secret, Some("s3cret".to_string()));
    assert_eq!(request.redirect_url, "https://app.example/callback");
    assert_eq!(request.metadata.token_endpoint, Some("https://idp.example/token".to_string()));
}

#[test]
fn callback_with_another_state_is_invalid_and_asks_for_nothing() {
    let mut store = store_with("xyz", "n-1", "v1");
    let flow = complete(&mut store, "?code=abc&state=wrong");
    assert!(matches!(flow, AuthFlow::Done(Err(AuthError::InvalidState))));
    let flow = flow.step(AuthEvent::Metadata(metadata()));
    assert!(matches!(flow, AuthFlow::Done(Err(AuthError::InvalidState))));
    let tokens = TokenSet { access_token: "at".to_string(), refresh_token: None };
    let flow = flow.step(AuthEvent::Tokens(tokens));
    assert_eq!(error_of(flow), AuthError::InvalidState);
}

#[test]
fn state_that_differs_by_one_character_is_invalid() {
    for state in ["xyZ", "xy", "xyzz", "xyz ", " xyz", "XYZ", "xy%7A%20", ""] {
        let mut store = store_with("xyz", "n-1", "v1");
        let flow = complete(&mut store, &format!("?code=abc&state={}", state));
        assert_eq!(error_of(flow), AuthError::InvalidState, "state {:?}", state);
    }
    assert!(Auth::validate_state("xyz", "xyz"));
    assert!(!Auth::validate_state("xyz", "xyZ"));
    assert!(!Auth::validate_state("xyz", "xyz "));
    assert!(!Auth::validate_state("", "x"));
    assert!(Auth::validate_state("", ""));
}

#[test]
fn escaped_state_is_compared_as_decoded() {
    let mut store = store_with("a b/c", "n-1", "v1");
    let flow = complete(&mut store, "?state=a+b%2Fc&code=abc");
    assert!(matches!(flow, AuthFlow::Discover(_)));
}

#[test]
fn complete_empties_the_store_whatever_comes_of_it() {
    for search in ["?code=abc&state=xyz", "?code=abc&state=wrong", "?code=abc", ""] {
        let mut store = store_with("xyz", "n-1", "v1");
        let _ = complete(&mut store, search);
        assert!(store.is_empty(), "after {:?}", search);
        assert_eq!(store.get(ProofKey::State), None);
        assert_eq!(store.get(ProofKey::Nonce), None);
        assert_eq!(store.get(ProofKey::Pkce), None);
    }
    let mut store = ProofStore::new();
    store.put(ProofKey::Nonce, "n-1".to_string());
    let _ = complete(&mut store, "?code=abc&state=xyz");
    assert!(store.is_empty());
}

#[test]
fn second_completion_finds_no_proof() {
    let mut store = store_with("xyz", "n-1", "v1");
    let first = complete(&mut store, "?code=abc&state=xyz");
    assert!(matches!(first, AuthFlow::Discover(_)));
    let second = complete(&mut store, "?code=abc&state=xyz");
    assert_eq!(error_of(second), AuthError::MissingProof);
}

#[test]
fn any_missing_secret_is_a_missing_proof() {
    for missing in [ProofKey::State, ProofKey::Nonce, ProofKey::Pkce] {
        let mut store = store_with("xyz", "n-1", "v1");
        store.delete(missing);
        let flow = complete(&mut store, "?code=abc&state=xyz");
        assert_eq!(error_of(flow), AuthError::MissingProof);
    }
    let mut store = ProofStore::new();
    assert_eq!(error_of(complete(&mut store, "?code=abc&state=xyz")), AuthError::MissingProof);
}

#[test]
fn missing_proof_is_reported_before_missing_parameters() {
    let mut store = ProofStore::new();
    assert_eq!(error_of(complete(&mut store, "")), AuthError::MissingProof);
}

#[test]
fn callback_without_code_or_state_is_refused() {
    for search in ["?state=xyz", "?code=abc", "", "?", "?error=access_denied"] {
        let mut store = store_with("xyz", "n-1", "v1");
        let flow = complete(&mut store, search);
        assert_eq!(error_of(flow), AuthError::MissingCallbackParams, "for {:?}", search);
    }
}

#[test]
fn failed_discovery_ends_the_flow() {
    let mut store = store_with("xyz", "n-1", "v1");
    let flow = complete(&mut store, "?code=abc&state=xyz").step(AuthEvent::DiscoveryFailed);
    assert_eq!(error_of(flow), AuthError::DiscoveryError);
}

#[test]
fn failed_exchange_ends_the_flow_with_its_reason() {
    let mut store = store_with("xyz", "n-1", "v1");
    let flow = complete(&mut store, "?code=abc&state=xyz")
        .step(AuthEvent::Metadata(metadata()))
        .step(AuthEvent::ExchangeFailed("invalid_grant".to_string()));
    assert_eq!(error_of(flow), AuthError::TokenExchangeError("invalid_grant".to_string()));
}

#[test]
fn tokens_make_an_authenticated_session() {
    let mut store = store_with("xyz", "n-1", "v1");
    let tokens = TokenSet { access_token: "at-1".to_string(), refresh_token: Some("rt-1".to_string()) };
    let flow = complete(&mut store, "?code=abc&state=xyz")
        .step(AuthEvent::Metadata(metadata()))
        .step(AuthEvent::Tokens(tokens));
    let me = match flow {
        AuthFlow::Done(Ok(me)) => me,
        other => panic!("no session: {:?}", other),
    };
    assert_eq!(me.access_token, Some("at-1".to_string()));
    assert_eq!(me.refresh_token, Some("rt-1".to_string()));
    assert_eq!(me.auth_url, None);
    assert_eq!(me.auth_state, None);
    assert_eq!(me.auth_nonce, None);
    assert_eq!(me.auth_pkce, None);
    assert!(me.ready_to_logout());
    assert!(!me.ready_to_login());
    assert_eq!(me.bearer(), Some("at-1".to_string()));
}

#[test]
fn refresh_token_may_be_absent() {
    let mut store = store_with("xyz", "n-1", "v1");
    let tokens = TokenSet { access_token: "at-1".to_string(), refresh_token: None };
    let flow = complete(&mut store, "?code=abc&state=xyz")
        .step(AuthEvent::Metadata(metadata()))
        .step(AuthEvent::Tokens(tokens));
    match flow {
        AuthFlow::Done(Ok(me)) => {
            assert_eq!(me.access_token, Some("at-1".to_string()));
            assert_eq!(me.refresh_token, None);
            assert!(me.ready_to_logout());
        }
        other => panic!("no session: {:?}", other),
    }
}

#[test]
fn events_out_of_turn_change_nothing() {
    let mut store = store_with("xyz", "n-1", "v1");
    let tokens = TokenSet { access_token: "at-1".to_string(), refresh_token: None };
    let flow = complete(&mut store, "?code=abc&state=xyz").step(AuthEvent::Tokens(tokens));
    assert!(matches!(flow, AuthFlow::Discover(_)));
    let flow = flow.step(AuthEvent::ExchangeFailed("early".to_string()));
    assert!(matches!(flow, AuthFlow::Discover(_)));
    let flow = flow.step(AuthEvent::Metadata(metadata())).step(AuthEvent::DiscoveryFailed);
    assert!(matches!(flow, AuthFlow::Exchange(_)));
    let flow = flow.step(AuthEvent::Metadata(metadata()));
    match flow {
        AuthFlow::Exchange(request) => assert_eq!(request.code, "abc"),
        other => panic!("the exchange was lost: {:?}", other),
    }
}

#[test]
fn session_once_made_stays() {
    let mut store = store_with("xyz", "n-1", "v1");
    let tokens = TokenSet { access_token: "at-1".to_string(), refresh_token: None };
    let flow = complete(&mut store, "?code=abc&state=xyz")
        .step(AuthEvent::Metadata(metadata()))
        .step(AuthEvent::Tokens(tokens))
        .step(AuthEvent::ExchangeFailed("late".to_string()))
        .step(AuthEvent::DiscoveryFailed);
    match flow {
        AuthFlow::Done(Ok(me)) => assert_eq!(me.access_token, Some("at-1".to_string())),
        other => panic!("the session was lost: {:?}", other),
    }
}

#[test]
fn set_proof_keeps_the_three_secrets() {
    let me = begin().unwrap();
    let mut store = ProofStore::new();
    assert_eq!(me.set_proof(&mut store), Ok(()));
    assert_eq!(store.get(ProofKey::State), me.auth_state);
    assert_eq!(store.get(ProofKey::Nonce), me.auth_nonce);
    assert_eq!(store.get(ProofKey::Pkce), me.auth_pkce);
    assert!(!store.is_empty());
}

#[test]
fn set_proof_refuses_a_session_without_secrets() {
    let mut store = store_with("old", "n-0", "v0");
    let me = Auth::empty();
    assert_eq!(me.set_proof(&mut store), Err(AuthError::MissingProof));
    assert_eq!(store.get(ProofKey::State), Some("old".to_string()));
    let mut partial = Auth::empty();
    partial.auth_state = Some("xyz".to_string());
    partial.auth_pkce = Some("v1".to_string());
    assert_eq!(partial.set_proof(&mut store), Err(AuthError::MissingProof));
    assert_eq!(store.get(ProofKey::State), Some("old".to_string()));
    assert_eq!(store.get(ProofKey::Pkce), Some("v0".to_string()));
}

#[test]
fn login_round_trip_through_the_store() {
    let me = begin().unwrap();
    let mut store = ProofStore::new();
    me.set_proof(&mut store).unwrap();
    let search = format!("?code=c0de&state={}", me.auth_state.clone().unwrap());
    match complete(&mut store, &search) {
        AuthFlow::Discover(pending) => {
            assert_eq!(pending.code, "c0de");
            assert_eq!(Some(pending.code_verifier), me.auth_pkce);
        }
        other => panic!("the callback was refused: {:?}", other),
    }
    assert!(store.is_empty());
}

#[test]
fn cont_takes_the_secrets_out_of_the_store() {
    let mut store = store_with("xyz", "n-1", "v1");
    let me = Auth::cont(&mut store);
    assert_eq!(me.auth_state, Some("xyz".to_string()));
    assert_eq!(me.auth_nonce, Some("n-1".to_string()));
    assert_eq!(me.auth_pkce, Some("v1".to_string()));
    assert_eq!(me.auth_url, None);
    assert_eq!(me.access_token, None);
    assert!(store.is_empty());
    let again = Auth::cont(&mut store);
    assert_eq!(again.auth_state, None);
    assert_eq!(again.auth_nonce, None);
    assert_eq!(again.auth_pkce, None);
}

#[test]
fn get_proof_reads_without_removing() {
    let store = store_with("xyz", "n-1", "v1");
    let mut me = Auth::empty();
    me.access_token = Some("at".to_string());
    me.get_proof(&store);
    assert_eq!(me.auth_state, Some("xyz".to_string()));
    assert_eq!(me.auth_nonce, Some("n-1".to_string()));
    assert_eq!(me.auth_pkce, Some("v1".to_string()));
    assert_eq!(me.access_token, Some("at".to_string()));
    assert_eq!(store.get(ProofKey::State), Some("xyz".to_string()));
}

#[test]
fn remove_proof_empties_the_store() {
    let mut store = store_with("xyz", "n-1", "v1");
    Auth::remove_proof(&mut store);
    assert!(store.is_empty());
    Auth::remove_proof(&mut store);
    assert!(store.is_empty());
}

#[test]
fn logout_clears_both_tokens_and_is_idempotent() {
    let mut me = Auth::empty();
    me.access_token = Some("at".to_string());
    me.refresh_token = Some("rt".to_string());
    let mut store = store_with("stray", "n", "v");
    me.logout(&mut store);
    assert_eq!(me.access_token, None);
    assert_eq!(me.refresh_token, None);
    assert!(store.is_empty());
    assert_eq!(me.bearer(), None);
    let once = format!("{:?}", me);
    me.logout(&mut store);
    assert_eq!(format!("{:?}", me), once);
    assert!(store.is_empty());
}

#[test]
fn logout_of_a_session_without_tokens_changes_nothing_else() {
    let mut me = begin().unwrap();
    let before = me.clone();
    let mut store = ProofStore::new();
    me.logout(&mut store);
    assert_eq!(me.auth_url, before.auth_url);
    assert_eq!(me.auth_state, before.auth_state);
    assert_eq!(me.auth_nonce, before.auth_nonce);
    assert_eq!(me.auth_pkce, before.auth_pkce);
    assert_eq!(me.access_token, None);
    assert_eq!(me.refresh_token, None);
}

#[test]
fn tokens_are_cleared_one_by_one() {
    let mut me = Auth::empty();
    me.access_token = Some("at".to_string());
    me.refresh_token = Some("rt".to_string());
    me.clear_access_token();
    assert_eq!(me.access_token, None);
    assert_eq!(me.refresh_token, Some("rt".to_string()));
    me.clear_refresh_token();
    assert_eq!(me.refresh_token, None);
}

#[test]
fn errors_have_messages() {
    assert_eq!(AuthError::DiscoveryError.message(), "Discovery failed");
    assert_eq!(AuthError::MissingProof.message(), "No verifiers");
    assert_eq!(AuthError::MissingCallbackParams.message(), "Missing code or state");
    assert_eq!(AuthError::InvalidState.message(), "Invalid state");
    assert_eq!(AuthError::TokenExchangeError("timeout".to_string()).message(), "Bad token result");
}

#[test]
fn proof_store_keeps_what_is_put() {
    let mut store = ProofStore::new();
    assert!(store.is_empty());
    assert_eq!(store.get(ProofKey::State), None);
    store.put(ProofKey::State, "a".to_string());
    assert_eq!(store.get(ProofKey::State), Some("a".to_string()));
    assert_eq!(store.get(ProofKey::Nonce), None);
    assert_eq!(store.get(ProofKey::Pkce), None);
    assert!(!store.is_empty());
    store.put(ProofKey::State, "b".to_string());
    assert_eq!(store.get(ProofKey::State), Some("b".to_string()));
    store.put(ProofKey::Pkce, "c".to_string());
    store.delete(ProofKey::State);
    assert_eq!(store.get(ProofKey::State), None);
    assert_eq!(store.get(ProofKey::Pkce), Some("c".to_string()));
    store.delete(ProofKey::State);
    store.delete(ProofKey::Pkce);
    assert!(store.is_empty());
}

#[test]
fn proof_keys_have_their_storage_names() {
    assert_eq!(ProofKey::State.name(), "authState");
    assert_eq!(ProofKey::Nonce.name(), "authNonce");
    assert_eq!(ProofKey::Pkce.name(), "authPkce");
}

#[test]
fn token_slot_is_written_by_login_and_logout() {
    let mut slot = nxfutil::auth::TokenSlot::new();
    assert_eq!(slot.token(), None);
    assert!(!slot.is_logged_in());
    let mut me = Auth::empty();
    me.access_token = Some("at-1".to_string());
    slot.login(&me);
    assert_eq!(slot.token(), Some("at-1".to_string()));
    assert!(slot.is_logged_in());
    slot.logout();
    assert_eq!(slot.token(), None);
    slot.logout();
    assert_eq!(slot.token(), None);
    slot.login(&me);
    slot.login(&Auth::empty());
    assert_eq!(slot.token(), None);
}
