//! What the orchestrator and its caller say to each other.
//!
//! The orchestrator performs no input or output.  It hands its caller an
//! [`Action`] to carry out, and the caller hands back an [`Event`] that says
//! how the action ended.

use crate::credentials::{Credentials, CredentialsView};
use crate::session::Outcome;
use vstd::prelude::*;

verus! {

/// Which of the two browser sessions an action is about.
#[derive(Clone, Copy, Debug, PartialEq, Eq, Structural)]
pub enum SessionKind {
    /// The session that shows the login form.
    Login,
    /// The session that the policy configures.
    Browsing,
}

/// How the evaluation of a script ended.
#[derive(Debug, PartialEq, Eq)]
pub enum Evaluation {
    /// The script settled.  The text is its value as JSON; `None` when it
    /// settled without a value.
    Settled(Option<String>),
    /// The script could not be evaluated.
    Failed,
    /// The script did not settle within its timeout.
    TimedOut,
}

/// The mathematical view of an [`Evaluation`].
pub ghost enum EvaluationView {
    Settled(Option<Seq<char>>),
    Failed,
    TimedOut,
}

impl View for Evaluation {
    type V = EvaluationView;

    open spec fn view(&self) -> EvaluationView {
        match self {
            Evaluation::Settled(Some(text)) => EvaluationView::Settled(Some(text@)),
            Evaluation::Settled(None) => EvaluationView::Settled(None),
            Evaluation::Failed => EvaluationView::Failed,
            Evaluation::TimedOut => EvaluationView::TimedOut,
        }
    }
}

/// What the caller reports to the orchestrator.
#[derive(Debug, PartialEq, Eq)]
pub enum Event {
    /// The flow is to begin.
    Start,
    /// A launch, a page creation, a change of content, a navigation or a
    /// close ended.
    Browser(Outcome),
    /// The evaluation of a script ended.
    Script(Evaluation),
    /// The verification request ended: with the status of the response, or
    /// with `None` where it failed in transport or timed out.
    Verification(Option<u16>),
    /// The policy request ended: with the body of the response, or with
    /// `None` where it failed in transport or timed out.
    Policy(Option<String>),
    /// The operator sent the interrupt signal.
    Interrupted,
}

/// The mathematical view of an [`Event`].
pub ghost enum EventView {
    Start,
    Browser(Outcome),
    Script(EvaluationView),
    Verification(Option<u16>),
    Policy(Option<Seq<char>>),
    Interrupted,
}

impl View for Event {
    type V = EventView;

    open spec fn view(&self) -> EventView {
        match self {
            Event::Start => EventView::Start,
            Event::Browser(outcome) => EventView::Browser(*outcome),
            Event::Script(evaluation) => EventView::Script(evaluation@),
            Event::Verification(status) => EventView::Verification(*status),
            Event::Policy(Some(body)) => EventView::Policy(Some(body@)),
            Event::Policy(None) => EventView::Policy(None),
            Event::Interrupted => EventView::Interrupted,
        }
    }
}

/// What the orchestrator asks its caller to do next.
#[derive(Debug, PartialEq, Eq)]
pub enum Action {
    /// Start a browser process for a session, and a task that drains the
    /// events of the process for as long as the session lives.
    Launch { session: SessionKind, visible: bool, incognito: bool },
    /// Open a page at `url` in a session.
    OpenPage { session: SessionKind, url: String },
    /// Replace the content of the login page by `html`.
    SetContent { html: String },
    /// Evaluate `script` in the login page and wait, for at most
    /// `timeout_ms` milliseconds, until it settles.
    Evaluate { script: String, timeout_ms: u64 },
    /// Navigate the page of the browsing session to `url`, giving up after
    /// `timeout_ms` milliseconds.
    Navigate { url: String, timeout_ms: u64 },
    /// Shut the process of a session down and end the task that drains
    /// its events.
    Close { session: SessionKind },
    /// Post `credentials` to `url`.
    Verify { url: String, credentials: Credentials },
    /// Get the policy from `url`.
    FetchPolicy { url: String },
    /// Wait for the operator's interrupt signal.
    AwaitInterrupt,
    /// Nothing new: the event did not answer the action that is under way.
    Wait,
    /// The flow is over.
    Finish,
}

/// The mathematical view of an [`Action`].
pub ghost enum ActionView {
    Launch { session: SessionKind, visible: bool, incognito: bool },
    OpenPage { session: SessionKind, url: Seq<char> },
    SetContent { html: Seq<char> },
    Evaluate { script: Seq<char>, timeout_ms: u64 },
    Navigate { url: Seq<char>, timeout_ms: u64 },
    Close { session: SessionKind },
    Verify { url: Seq<char>, credentials: CredentialsView },
    FetchPolicy { url: Seq<char> },
    AwaitInterrupt,
    Wait,
    Finish,
}

impl View for Action {
    type V = ActionView;

    open spec fn view(&self) -> ActionView {
        match self {
            Action::Launch { session, visible, incognito } => ActionView::Launch {
                session: *session,
                visible: *visible,
                incognito: *incognito,
            },
            Action::OpenPage { session, url } => ActionView::OpenPage {
                session: *session,
                url: url@,
            },
            Action::SetContent { html } => ActionView::SetContent { html: html@ },
            Action::Evaluate { script, timeout_ms } => ActionView::Evaluate {
                script: script@,
                timeout_ms: *timeout_ms,
            },
            Action::Navigate { url, timeout_ms } => ActionView::Navigate {
                url: url@,
                timeout_ms: *timeout_ms,
            },
            Action::Close { session } => ActionView::Close { session: *session },
            Action::Verify { url, credentials } => ActionView::Verify {
                url: url@,
                credentials: credentials@,
            },
            Action::FetchPolicy { url } => ActionView::FetchPolicy { url: url@ },
            Action::AwaitInterrupt => ActionView::AwaitInterrupt,
            Action::Wait => ActionView::Wait,
            Action::Finish => ActionView::Finish,
        }
    }
}

} // verus!
