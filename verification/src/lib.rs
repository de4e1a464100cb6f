//! An inline request-authentication gatekeeper for a request-processing
//! pipeline. For each inbound request it extracts client credentials from
//! the request headers, builds and hands out a non-blocking
//! client-credentials exchange call to an identity provider, and, once the
//! exchange response arrives, resumes or denies the suspended request.
//!
//! The library is the decision core: a per-request state machine
//! ([`gate::Gate`]) driven by events, together with the credential
//! extractor, the exchange-request builder and the response evaluator.
//! The host pipeline performs the actions the machine hands back
//! (dispatch, pause, resume, send a deny response).

pub mod config;
pub mod credentials;
pub mod evaluate;
pub mod exchange;
pub mod gate;
pub mod laws;
