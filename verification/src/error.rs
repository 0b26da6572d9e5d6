//! The failures that a gated browsing session can meet.

use vstd::prelude::*;

verus! {

/// What went wrong while driving a browser session or talking to the remote
/// authority.
#[derive(Clone, Copy, Debug, PartialEq, Eq, Structural)]
pub enum SessionError {
    /// The browser process could not be started.
    LaunchFailed,
    /// A page could not be created in a running browser.
    PageCreationFailed,
    /// A navigation failed or did not finish within its timeout.
    NavigationFailed,
    /// The content of a page could not be replaced.
    RenderFailed,
    /// A script could not be evaluated in a page.
    EvalFailed,
    /// Nobody submitted the login form before the capture timeout elapsed.
    NoSubmission,
    /// What the login form handed over is not a username and a password.
    MalformedCredentials,
    /// A request did not reach the authority, timed out, or was answered
    /// with a body that cannot be read.
    NetworkFailure,
    /// The authority's policy is readable but breaks the policy invariant.
    MalformedPolicy,
    /// The browser process could not be shut down cleanly.
    CloseFailed,
}

impl SessionError {
    /// A short description for diagnostics.
    pub fn describe(&self) -> (text: &'static str)
        ensures
            text@ == Self::description(*self),
    {
        match self {
            SessionError::LaunchFailed => "the browser could not be launched",
            SessionError::PageCreationFailed => "the page could not be created",
            SessionError::NavigationFailed => "the navigation failed or timed out",
            SessionError::RenderFailed => "the page content could not be set",
            SessionError::EvalFailed => "the script could not be evaluated",
            SessionError::NoSubmission => "the login form was not submitted in time",
            SessionError::MalformedCredentials => "the submitted credentials are malformed",
            SessionError::NetworkFailure => "the remote authority could not be reached",
            SessionError::MalformedPolicy => "the session policy is malformed",
            SessionError::CloseFailed => "the browser could not be closed",
        }
    }

    /// The text that [`SessionError::describe`] returns for each failure.
    pub open spec fn description(e: SessionError) -> Seq<char> {
        match e {
            SessionError::LaunchFailed => "the browser could not be launched"@,
            SessionError::PageCreationFailed => "the page could not be created"@,
            SessionError::NavigationFailed => "the navigation failed or timed out"@,
            SessionError::RenderFailed => "the page content could not be set"@,
            SessionError::EvalFailed => "the script could not be evaluated"@,
            SessionError::NoSubmission => "the login form was not submitted in time"@,
            SessionError::MalformedCredentials => "the submitted credentials are malformed"@,
            SessionError::NetworkFailure => "the remote authority could not be reached"@,
            SessionError::MalformedPolicy => "the session policy is malformed"@,
            SessionError::CloseFailed => "the browser could not be closed"@,
        }
    }
}

} // verus!
