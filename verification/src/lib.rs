//! Credential-gated browsing sessions.
//!
//! The crate holds the decisions of an agent that asks a person to log in
//! through a controlled browser, has a remote authority check the submitted
//! credentials, and only then opens a second browser session configured by the
//! policy that the authority hands out.  It performs no input or output
//! itself: the caller launches browsers and sends requests, and reports what
//! came back; every decision in between is taken, and proved, here.

pub mod error;
pub mod json;
pub mod url;
pub mod credentials;
pub mod policy;
pub mod session;
pub mod auth;
pub mod authority;
pub mod protocol;
pub mod capture;
pub mod orchestrator;
