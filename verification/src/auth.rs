//! The two requests that the agent makes of the remote authority.
//!
//! The authority answers `POST /authenticate` with status 200 for
//! credentials that it accepts and with any other status for those that it
//! does not, and `GET /browser-settings` with the session policy as a JSON
//! document.  [`AuthClient`] builds the addresses of the two endpoints and
//! reads the answers; the caller sends the requests.

use crate::error::SessionError;
use crate::json::{json_document, JsonModel};
use crate::policy::{
    lemma_malformed_start_url_is_rejected, lemma_valid_policy_is_accepted, policy_of_body,
    policy_settings, PolicyView, SessionPolicy,
};
use crate::url::is_absolute_url;
use vstd::prelude::*;
use vstd::string::StringExecFns;

verus! {

/// The status with which the authority accepts credentials.
pub const STATUS_OK: u16 = 200;

/// The client side of the remote authority, for one server address.
#[derive(Debug)]
pub struct AuthClient {
    server_url: String,
}

impl View for AuthClient {
    type V = Seq<char>;

    /// The address of the server.
    closed spec fn view(&self) -> Seq<char> {
        self.server_url@
    }
}

/// The address of the verification endpoint of a server.
pub open spec fn authenticate_endpoint(server_url: Seq<char>) -> Seq<char> {
    server_url + "/authenticate"@
}

/// The address of the policy endpoint of a server.
pub open spec fn settings_endpoint(server_url: Seq<char>) -> Seq<char> {
    server_url + "/browser-settings"@
}

/// What verification yields for the answer to the verification request:
/// `true` for status 200, `false` for every other status, and
/// `NetworkFailure` where no status came back (`None`).
pub open spec fn verification_result(status: Option<u16>) -> Result<bool, SessionError> {
    match status {
        Some(code) => Ok(code == STATUS_OK),
        None => Err(SessionError::NetworkFailure),
    }
}

/// What fetching the policy yields for the answer to the policy request:
/// the policy that the body stands for, and `NetworkFailure` where no body
/// came back (`None`).
pub open spec fn fetch_result(body: Option<Seq<char>>) -> Result<PolicyView, SessionError> {
    match body {
        Some(text) => policy_of_body(text),
        None => Err(SessionError::NetworkFailure),
    }
}

impl AuthClient {
    /// A client for the authority at `server_url`.
    pub fn new(server_url: &str) -> (client: AuthClient)
        ensures
            client@ == server_url@,
    {
        AuthClient { server_url: server_url.to_owned() }
    }

    /// The address of the server.
    pub fn server_url(&self) -> (url: &String)
        ensures
            url@ == self@,
    {
        &self.server_url
    }

    /// The address to which credentials are posted.
    pub fn authenticate_url(&self) -> (url: String)
        ensures
            url@ == authenticate_endpoint(self@),
    {
        self.server_url.clone().concat("/authenticate")
    }

    /// The address from which the policy is fetched.
    pub fn settings_url(&self) -> (url: String)
        ensures
            url@ == settings_endpoint(self@),
    {
        self.server_url.clone().concat("/browser-settings")
    }

    /// Reads the answer to the verification request.
    ///
    /// `status` is the status of the response, or `None` where the request
    /// failed in transport.  Only status 200 authorizes; a transport
    /// failure is an error, never a plain `false`.
    pub fn verify(status: Option<u16>) -> (r: Result<bool, SessionError>)
        ensures
            r == verification_result(status),
    {
        match status {
            Some(code) => Ok(code == STATUS_OK),
            None => Err(SessionError::NetworkFailure),
        }
    }

    /// Reads the answer to the policy request.
    ///
    /// `body` is the body of the response, or `None` where the request
    /// failed in transport.  The policy is returned only when the body
    /// holds one that satisfies the policy invariant.
    pub fn fetch_policy(body: Option<&str>) -> (r: Result<SessionPolicy, SessionError>)
        ensures
            match r {
                Ok(policy) => fetch_result(option_text(body)) == Ok::<_, SessionError>(policy@),
                Err(e) => fetch_result(option_text(body)) == Err::<PolicyView, _>(e),
            },
    {
        match body {
            Some(text) => SessionPolicy::from_json_text(text),
            None => Err(SessionError::NetworkFailure),
        }
    }
}

/// Whatever the authority answers, a policy that comes out of fetching
/// satisfies the policy invariant.
pub proof fn lemma_fetched_policy_is_valid(body: Option<Seq<char>>)
    ensures
        fetch_result(body) matches Ok(policy) ==> policy.is_valid(),
{
}

/// Fetching rejects, as `MalformedPolicy`, every payload whose start URL is
/// missing, is no string, or is no well-formed absolute URL.
pub proof fn lemma_fetch_rejects_malformed_start_url(body: Seq<char>, payload: JsonModel)
    requires
        json_document(body) == Some(payload),
        match payload.text_member("start_url"@) {
            Some(url) => !is_absolute_url(url),
            None => true,
        },
    ensures
        fetch_result(Some(body)) == Err::<PolicyView, _>(SessionError::MalformedPolicy),
{
    lemma_malformed_start_url_is_rejected(payload);
}

/// Fetching accepts every payload that carries the four settings with a
/// well-formed absolute start URL, and returns exactly those settings.
pub proof fn lemma_fetch_accepts_valid_policy(body: Seq<char>, payload: JsonModel)
    requires
        json_document(body) == Some(payload),
        policy_settings(payload) matches Some(policy) && policy.is_valid(),
    ensures
        fetch_result(Some(body)) == Ok::<_, SessionError>(policy_settings(payload)->0),
{
    lemma_valid_policy_is_accepted(payload);
}

/// The characters of an optional text.
pub open spec fn option_text(text: Option<&str>) -> Option<Seq<char>> {
    match text {
        Some(t) => Some(t@),
        None => None,
    }
}

} // verus!
