//! The remote authority's side of the exchange.
//!
//! An [`Authority`] accepts one pair of credentials and hands out one
//! session policy.  Which pair and which policy is the authority's own
//! configuration; the agent never compares credentials itself.

use crate::auth::{verification_result, STATUS_OK};
use crate::credentials::{Credentials, CredentialsView};
use crate::error::SessionError;
use crate::json::text_views;
use crate::policy::{PolicyView, SessionPolicy};
use crate::url::{escapes_are_complete, is_absolute_url, splits_at};
use vstd::prelude::*;

verus! {

/// The status with which the authority turns credentials down.
pub const STATUS_UNAUTHORIZED: u16 = 401;

/// An authority: the credentials that it accepts and the policy that it
/// hands out.
#[derive(Debug)]
pub struct Authority {
    accepted: Credentials,
    policy: SessionPolicy,
}

/// The mathematical view of an [`Authority`].
pub ghost struct AuthorityView {
    pub accepted: CredentialsView,
    pub policy: PolicyView,
}

impl View for Authority {
    type V = AuthorityView;

    closed spec fn view(&self) -> AuthorityView {
        AuthorityView { accepted: self.accepted@, policy: self.policy@ }
    }
}

/// The status with which an authority that accepts `accepted` answers
/// `submitted`: 200 when both the username and the password are the
/// accepted ones, 401 otherwise.
pub open spec fn answer_status(accepted: CredentialsView, submitted: CredentialsView) -> u16 {
    if submitted.username == accepted.username && submitted.password == accepted.password {
        STATUS_OK
    } else {
        STATUS_UNAUTHORIZED
    }
}

/// The configuration of the reference authority.
pub open spec fn reference_view() -> AuthorityView {
    AuthorityView {
        accepted: CredentialsView { username: "admin_user"@, password: "secure_password"@ },
        policy: PolicyView {
            start_url: "https://www.google.com"@,
            incognito: false,
            max_navigation_timeout_ms: 30000,
            allowed_domains: seq!["google.com"@, "github.com"@],
        },
    }
}

impl Authority {
    /// An authority that accepts `accepted` and hands out `policy`.
    pub fn new(accepted: Credentials, policy: SessionPolicy) -> (authority: Authority)
        ensures
            authority@ == (AuthorityView { accepted: accepted@, policy: policy@ }),
    {
        Authority { accepted, policy }
    }

    /// The reference authority: it accepts `admin_user` with
    /// `secure_password`, and its policy starts a public session at
    /// `https://www.google.com` with 30 seconds for a navigation.
    pub fn reference() -> (authority: Authority)
        ensures
            authority@ == reference_view(),
    {
        let accepted = Credentials::new("admin_user".to_owned(), "secure_password".to_owned());
        let mut domains: Vec<String> = Vec::new();
        domains.push("google.com".to_owned());
        domains.push("github.com".to_owned());
        proof {
            lemma_reference_start_url();
            assert(text_views(domains@) =~= seq!["google.com"@, "github.com"@]);
        }
        let policy = SessionPolicy::new("https://www.google.com".to_owned(), false, 30000, domains);
        Authority { accepted, policy: policy.unwrap() }
    }

    /// Whether the authority accepts `submitted`.
    pub fn accepts(&self, submitted: &Credentials) -> (accepted: bool)
        ensures
            accepted == (answer_status(self@.accepted, submitted@) == STATUS_OK),
    {
        submitted.username == self.accepted.username && submitted.password
            == self.accepted.password
    }

    /// The status with which the authority answers a verification request.
    pub fn authenticate(&self, submitted: &Credentials) -> (status: u16)
        ensures
            status == answer_status(self@.accepted, submitted@),
    {
        if self.accepts(submitted) {
            STATUS_OK
        } else {
            STATUS_UNAUTHORIZED
        }
    }

    /// The policy that the authority hands out.
    pub fn browser_settings(&self) -> (policy: &SessionPolicy)
        ensures
            policy@ == self@.policy,
    {
        &self.policy
    }
}

/// The start URL of the reference policy is a well-formed absolute URL.
pub proof fn lemma_reference_start_url()
    ensures
        is_absolute_url("https://www.google.com"@),
{
    reveal_strlit("https://www.google.com");
    let s = "https://www.google.com"@;
    assert(splits_at(s, 5));
    assert(escapes_are_complete(s));
}

/// Verification against an authority returns `true` for exactly the pair
/// that the authority accepts, and `false` for every pair that differs from
/// it in the username or in the password.
pub proof fn lemma_verify_accepts_exactly_the_accepted_pair(
    accepted: CredentialsView,
    submitted: CredentialsView,
)
    ensures
        verification_result(Some(answer_status(accepted, submitted))) == Ok::<
            bool,
            SessionError,
        >(submitted == accepted),
{
    if submitted.username == accepted.username && submitted.password == accepted.password {
        assert(submitted == accepted);
    }
}

} // verus!
