//! Browser login with OpenID Connect (authorization code with PKCE) and the
//! bearer-token HTTP requests, with retry, that the rest of the application
//! makes once it holds a token.
//!
//! Everything here computes on plain values. Sending a request, sleeping,
//! reading the page address and touching the browser's session storage are
//! left to the caller, which performs what these functions decide.

pub mod actions;
pub mod app_state;
pub mod auth;
pub mod dispatchers;
pub mod icons;
pub mod ids;
pub mod loaders;
pub mod params;
pub mod pkce;
pub mod proof_store;
pub mod provider;
pub mod query;
pub mod repositories;
pub mod retry;
pub mod text;
pub mod types;
pub mod web;
