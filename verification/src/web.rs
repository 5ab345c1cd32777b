//! The requests that the application makes: what is sent, with or without a
//! bearer token, and how a request is retried.

use crate::retry::RetryPolicy;
use crate::retry::RetryState;
use crate::retry::INITIAL_DELAY_SECS;
use crate::text::text;
use vstd::prelude::*;

verus! {

pub const AUTHORIZATION: &'static str = "authorization";

pub const CACHE_CONTROL: &'static str = "cache-control";

pub const CONTENT_TYPE: &'static str = "content-type";

/// What precedes the token in the authorization header.
pub const BEARER_PREFIX: &'static str = "Bearer ";

/// Lets caches reuse the answer to an authenticated request for three
/// seconds.
pub const SHORT_LIVED: &'static str = "public, max-age=3";

pub const JSON: &'static str = "application/json";

#[derive(Clone, Copy, Debug, PartialEq, Eq)]
pub enum Method {
    Get,
    Post,
}

#[derive(Clone, Debug)]
pub struct Header {
    pub name: String,
    pub value: String,
}

/// A request as it is to be sent.
#[derive(Clone, Debug)]
pub struct HttpRequest {
    pub method: Method,
    pub uri: String,
    pub headers: Vec<Header>,
    /// The body, which is JSON text.
    pub body: Option<String>,
}

/// The headers as pairs of texts.
pub open spec fn header_texts(headers: Seq<Header>) -> Seq<(Seq<char>, Seq<char>)> {
    Seq::new(headers.len(), |i: int| (headers[i].name@, headers[i].value@))
}

/// The headers of a request: with a token, the authorization header that
/// carries it and the caching hint; with a body, its content type.
pub open spec fn request_headers(token: Option<Seq<char>>, has_body: bool) -> Seq<
    (Seq<char>, Seq<char>),
> {
    let bearer = match token {
        Some(t) => seq![(AUTHORIZATION@, BEARER_PREFIX@ + t), (CACHE_CONTROL@, SHORT_LIVED@)],
        None => seq![],
    };
    if has_body {
        bearer.push((CONTENT_TYPE@, JSON@))
    } else {
        bearer
    }
}

pub struct WebHelpers {}

impl WebHelpers {
    /// The request of the given method to `uri`, with `body` if there is one
    /// and authenticated by `access_token` if there is one.
    pub fn request(
        method: Method,
        uri: &String,
        body: Option<String>,
        access_token: Option<String>,
    ) -> (request: HttpRequest)
        ensures
            request.method == method,
            request.uri == *uri,
            request.body == body,
            header_texts(request.headers@) == request_headers(text(access_token), body is Some),
            request.headers@.len() == request_headers(text(access_token), body is Some).len(),
    {
        let mut headers: Vec<Header> = Vec::new();
        match access_token {
            Some(token) => {
                let value = String::from_str(BEARER_PREFIX).concat(token.as_str());
                headers.push(Header { name: String::from_str(AUTHORIZATION), value });
                headers.push(
                    Header {
                        name: String::from_str(CACHE_CONTROL),
                        value: String::from_str(SHORT_LIVED),
                    },
                );
            },
            None => {},
        }
        if body.is_some() {
            headers.push(
                Header { name: String::from_str(CONTENT_TYPE), value: String::from_str(JSON) },
            );
        }
        assert(header_texts(headers@) =~= request_headers(text(access_token), body is Some));
        HttpRequest { method, uri: uri.clone(), headers, body }
    }

    /// The request as `request` makes it, and where its retries start under
    /// `policy`.
    pub fn request_with_policy(
        method: Method,
        uri: &String,
        body: Option<String>,
        access_token: Option<String>,
        policy: RetryPolicy,
    ) -> (plan: (HttpRequest, RetryState))
        ensures
            plan.0.method == method,
            plan.0.uri == *uri,
            plan.0.body == body,
            header_texts(plan.0.headers@) == request_headers(text(access_token), body is Some),
            plan.0.headers@.len() == request_headers(text(access_token), body is Some).len(),
            plan.1 == (RetryState { policy, attempt: 0, delay: policy.initial_delay }),
            policy.wf() ==> plan.1.wf(),
    {
        (WebHelpers::request(method, uri, body, access_token), RetryState::start(policy))
    }

    /// A GET of `uri`.
    pub fn web_get(uri: &String, access_token: Option<String>) -> (request: HttpRequest)
        ensures
            request.method == Method::Get,
            request.uri == *uri,
            request.body is None,
            header_texts(request.headers@) == request_headers(text(access_token), false),
            request.headers@.len() == request_headers(text(access_token), false).len(),
    {
        WebHelpers::request(Method::Get, uri, None, access_token)
    }

    /// A GET of `uri` that is tried once and, while it fails, up to `retries`
    /// times more.
    pub fn web_get_retry(uri: &String, retries: u8, access_token: Option<String>) -> (plan: (
        HttpRequest,
        RetryState,
    ))
        ensures
            plan.0.method == Method::Get,
            plan.0.uri == *uri,
            plan.0.body is None,
            header_texts(plan.0.headers@) == request_headers(text(access_token), false),
            plan.1 == WebHelpers::spec_retry_start(retries),
            plan.1.wf(),
    {
        (WebHelpers::web_get(uri, access_token), WebHelpers::retry_start(retries))
    }

    /// A POST of the JSON text `json` to `uri`.
    pub fn web_post(uri: &String, json: &String, access_token: Option<String>) -> (request:
        HttpRequest)
        ensures
            request.method == Method::Post,
            request.uri == *uri,
            request.body == Some(*json),
            header_texts(request.headers@) == request_headers(text(access_token), true),
            request.headers@.len() == request_headers(text(access_token), true).len(),
    {
        WebHelpers::request(Method::Post, uri, Some(json.clone()), access_token)
    }

    /// A POST of the JSON text `json` to `uri` that is tried once and, while
    /// it fails, up to `retries` times more.
    pub fn web_post_retry(
        uri: &String,
        json: &String,
        retries: u8,
        access_token: Option<String>,
    ) -> (plan: (HttpRequest, RetryState))
        ensures
            plan.0.method == Method::Post,
            plan.0.uri == *uri,
            plan.0.body == Some(*json),
            header_texts(plan.0.headers@) == request_headers(text(access_token), true),
            plan.1 == WebHelpers::spec_retry_start(retries),
            plan.1.wf(),
    {
        (WebHelpers::web_post(uri, json, access_token), WebHelpers::retry_start(retries))
    }

    /// Where the retries of a request start: before the first of
    /// `retries + 1` attempts, with a first wait of three seconds.
    pub open spec fn spec_retry_start(retries: u8) -> RetryState {
        RetryState {
            policy: RetryPolicy {
                max_attempts: (retries + 1) as u32,
                initial_delay: INITIAL_DELAY_SECS,
            },
            attempt: 0,
            delay: INITIAL_DELAY_SECS,
        }
    }

    pub fn retry_start(retries: u8) -> (state: RetryState)
        ensures
            state == WebHelpers::spec_retry_start(retries),
            state.wf(),
    {
        RetryState::start(RetryPolicy::with_retries(retries))
    }
}

} // verus!
