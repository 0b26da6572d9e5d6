//! The policy that governs the browsing session after a successful login.

use crate::error::SessionError;
use crate::json::{json_document, parse, text_views, JsonModel, JsonValue};
use crate::url::{check_absolute_url, is_absolute_url};
use vstd::prelude::*;

verus! {

/// The configuration of the browsing session: where it starts, whether it
/// is private, how long a navigation may take, and the domains that the
/// authority lists for it.
///
/// A policy cannot be changed once it exists, and its start URL is always a
/// well-formed absolute URL.  The list of domains is carried as the
/// authority sent it; nothing in this crate holds navigation to it.
#[derive(Debug, PartialEq, Eq)]
pub struct SessionPolicy {
    start_url: String,
    incognito: bool,
    max_navigation_timeout_ms: u64,
    allowed_domains: Vec<String>,
}

/// The mathematical view of a [`SessionPolicy`].
pub ghost struct PolicyView {
    pub start_url: Seq<char>,
    pub incognito: bool,
    pub max_navigation_timeout_ms: u64,
    pub allowed_domains: Seq<Seq<char>>,
}

impl PolicyView {
    /// The policy invariant: the start URL is a well-formed absolute URL.
    pub open spec fn is_valid(self) -> bool {
        is_absolute_url(self.start_url)
    }
}

impl View for SessionPolicy {
    type V = PolicyView;

    closed spec fn view(&self) -> PolicyView {
        PolicyView {
            start_url: self.start_url@,
            incognito: self.incognito,
            max_navigation_timeout_ms: self.max_navigation_timeout_ms,
            allowed_domains: text_views(self.allowed_domains@),
        }
    }
}

/// The four settings that a policy document carries, whatever else it
/// holds: the string `start_url`, the boolean `incognito`, the number
/// `max_navigation_timeout` (milliseconds, within `u64`) and the array of
/// strings `allowed_domains`.  `None` when one of them is missing or of
/// another type.
pub open spec fn policy_settings(document: JsonModel) -> Option<PolicyView> {
    match (
        document.text_member("start_url"@),
        document.bool_member("incognito"@),
        document.u64_member("max_navigation_timeout"@),
        document.texts_member("allowed_domains"@),
    ) {
        (Some(start_url), Some(incognito), Some(timeout), Some(domains)) => Some(
            PolicyView {
                start_url,
                incognito,
                max_navigation_timeout_ms: timeout,
                allowed_domains: domains,
            },
        ),
        _ => None,
    }
}

/// The policy that a document stands for: its settings when they are all
/// there and satisfy the policy invariant, `MalformedPolicy` otherwise.
pub open spec fn policy_of_document(document: JsonModel) -> Result<PolicyView, SessionError> {
    match policy_settings(document) {
        Some(policy) => if policy.is_valid() {
            Ok(policy)
        } else {
            Err(SessionError::MalformedPolicy)
        },
        None => Err(SessionError::MalformedPolicy),
    }
}

/// What fetching the policy yields for a response body: `NetworkFailure`
/// for a body that is no JSON document, and else the policy that the
/// document stands for.
pub open spec fn policy_of_body(body: Seq<char>) -> Result<PolicyView, SessionError> {
    match json_document(body) {
        Some(document) => policy_of_document(document),
        None => Err(SessionError::NetworkFailure),
    }
}

impl SessionPolicy {
    #[verifier::type_invariant]
    spec fn well_formed(&self) -> bool {
        is_absolute_url(self.start_url@)
    }

    /// Builds a policy from its four settings.
    ///
    /// Succeeds exactly when `start_url` is a well-formed absolute URL; any
    /// other start URL is `MalformedPolicy`.
    pub fn new(
        start_url: String,
        incognito: bool,
        max_navigation_timeout_ms: u64,
        allowed_domains: Vec<String>,
    ) -> (r: Result<SessionPolicy, SessionError>)
        ensures
            match r {
                Ok(policy) => is_absolute_url(start_url@) && policy@ == (PolicyView {
                    start_url: start_url@,
                    incognito,
                    max_navigation_timeout_ms,
                    allowed_domains: text_views(allowed_domains@),
                }),
                Err(e) => e == SessionError::MalformedPolicy && !is_absolute_url(start_url@),
            },
    {
        if check_absolute_url(start_url.as_str()) {
            Ok(SessionPolicy { start_url, incognito, max_navigation_timeout_ms, allowed_domains })
        } else {
            Err(SessionError::MalformedPolicy)
        }
    }

    /// Where the session starts: always a well-formed absolute URL.
    pub fn start_url(&self) -> (url: &String)
        ensures
            url@ == self@.start_url,
            is_absolute_url(url@),
    {
        proof {
            use_type_invariant(self);
        }
        &self.start_url
    }

    /// Whether the session is to be private.
    pub fn incognito(&self) -> (flag: bool)
        ensures
            flag == self@.incognito,
    {
        self.incognito
    }

    /// How long a navigation of the session may take, in milliseconds.
    pub fn max_navigation_timeout_ms(&self) -> (timeout: u64)
        ensures
            timeout == self@.max_navigation_timeout_ms,
    {
        self.max_navigation_timeout_ms
    }

    /// The domains that the authority lists for the session.
    pub fn allowed_domains(&self) -> (domains: &Vec<String>)
        ensures
            text_views(domains@) == self@.allowed_domains,
    {
        &self.allowed_domains
    }

    /// Reads a policy out of a JSON document and holds it to the policy
    /// invariant.
    pub fn from_json(document: &JsonValue) -> (r: Result<SessionPolicy, SessionError>)
        ensures
            match r {
                Ok(policy) => policy_of_document(document@) == Ok::<_, SessionError>(policy@),
                Err(e) => policy_of_document(document@) == Err::<PolicyView, _>(e),
            },
    {
        let start_url_key = "start_url".to_owned();
        let incognito_key = "incognito".to_owned();
        let timeout_key = "max_navigation_timeout".to_owned();
        let domains_key = "allowed_domains".to_owned();
        let start_url = match document.text_member(&start_url_key) {
            Some(text) => text.clone(),
            None => {
                return Err(SessionError::MalformedPolicy);
            },
        };
        let incognito = match document.bool_member(&incognito_key) {
            Some(flag) => flag,
            None => {
                return Err(SessionError::MalformedPolicy);
            },
        };
        let timeout = match document.u64_member(&timeout_key) {
            Some(n) => n,
            None => {
                return Err(SessionError::MalformedPolicy);
            },
        };
        let domains = match document.texts_member(&domains_key) {
            Some(list) => list,
            None => {
                return Err(SessionError::MalformedPolicy);
            },
        };
        SessionPolicy::new(start_url, incognito, timeout, domains)
    }

    /// Reads a policy out of the body of the authority's response.
    pub fn from_json_text(body: &str) -> (r: Result<SessionPolicy, SessionError>)
        ensures
            match r {
                Ok(policy) => policy_of_body(body@) == Ok::<_, SessionError>(policy@),
                Err(e) => policy_of_body(body@) == Err::<PolicyView, _>(e),
            },
    {
        match parse(body) {
            Some(document) => SessionPolicy::from_json(&document),
            None => Err(SessionError::NetworkFailure),
        }
    }
}

/// A document is rejected as `MalformedPolicy` whenever its start URL is
/// missing, is no string, or is no well-formed absolute URL.
pub proof fn lemma_malformed_start_url_is_rejected(document: JsonModel)
    requires
        match document.text_member("start_url"@) {
            Some(url) => !is_absolute_url(url),
            None => true,
        },
    ensures
        policy_of_document(document) == Err::<PolicyView, _>(SessionError::MalformedPolicy),
{
}

/// A document that carries the four settings with a well-formed absolute
/// start URL is accepted, and the policy holds exactly those settings.
pub proof fn lemma_valid_policy_is_accepted(document: JsonModel)
    requires
        policy_settings(document) is Some,
        policy_settings(document)->0.is_valid(),
    ensures
        policy_of_document(document) == Ok::<_, SessionError>(policy_settings(document)->0),
{
}

} // verus!
