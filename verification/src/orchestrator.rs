//! The orchestrator: from the login form to the policy-driven session.
//!
//! The flow is a state machine.  It shows the login form in a first browser
//! session, closes that session, has the remote authority verify what was
//! submitted, fetches the session policy, opens a second browser session as
//! the policy says, and keeps it open until the operator interrupts.  Any
//! failure on the way ends the flow, after whatever session is still open
//! has been closed.
//!
//! [`Machine`] is the mathematical state and [`Machine::next`] its
//! transition function; [`Orchestrator`] is the executable state, and
//! [`Orchestrator::step`] computes exactly that function.

use crate::auth::{
    authenticate_endpoint, fetch_result, lemma_fetched_policy_is_valid, settings_endpoint,
    verification_result, AuthClient, STATUS_OK,
};
use crate::capture::{capture_submission, submission, BLANK_PAGE, CAPTURE_SCRIPT, LOGIN_FORM};
use crate::credentials::{Credentials, CredentialsView};
use crate::error::SessionError;
use crate::policy::{PolicyView, SessionPolicy};
use crate::protocol::{Action, ActionView, EvaluationView, Event, EventView, SessionKind};
use crate::session::{
    operation_error, operation_result, BrowserSession, CloseAction, Operation, Outcome,
    SessionStatus,
};
use vstd::prelude::*;

verus! {

/// The states of the flow.
#[derive(Clone, Copy, Debug, PartialEq, Eq, Structural)]
pub enum Phase {
    Idle,
    CapturingLogin,
    Verifying,
    FetchingPolicy,
    RunningSession,
    Closing,
    Terminated,
    Failed,
}

/// The steps of the flow: each names the action whose end is awaited.
#[derive(Clone, Copy, Debug, PartialEq, Eq, Structural)]
pub enum Stage {
    /// Nothing has begun.
    Idle,
    /// The login session is being launched.
    LaunchingLogin,
    /// The page for the login form is being opened.
    OpeningLoginPage,
    /// The login form is being put into the page.
    RenderingForm,
    /// The capture script runs and waits for the submission.
    AwaitingSubmission,
    /// The credentials are there, and the login session is being closed.
    ClosingLogin,
    /// The authority is verifying the credentials.
    Verifying,
    /// The policy has been asked for.
    FetchingPolicy,
    /// The browsing session is being launched as the policy says.
    LaunchingBrowser,
    /// The page of the browsing session is being opened.
    OpeningBrowserPage,
    /// The browsing session is navigating to the policy's start URL.
    Navigating,
    /// The browsing session runs until the operator interrupts.
    Running,
    /// The browsing session is being closed after the interrupt.
    Closing,
    /// The flow ended after a session that ran and was closed.
    Terminated,
    /// The flow failed, and the session that was open is being closed.
    CleaningUp,
    /// The flow failed, and nothing is open any more.
    Failed,
}

/// Why a flow failed.
#[derive(Clone, Copy, Debug, PartialEq, Eq, Structural)]
pub enum Failure {
    /// The authority did not accept the credentials.
    Rejected,
    /// A step of the flow met an error.
    Error(SessionError),
}

/// The state of the flow that a step belongs to.  The browsing session is
/// launched and navigated as part of leaving `FetchingPolicy`; cleaning up
/// after a failure belongs to `Failed`.
pub open spec fn phase_of(stage: Stage) -> Phase {
    match stage {
        Stage::Idle => Phase::Idle,
        Stage::LaunchingLogin
        | Stage::OpeningLoginPage
        | Stage::RenderingForm
        | Stage::AwaitingSubmission
        | Stage::ClosingLogin => Phase::CapturingLogin,
        Stage::Verifying => Phase::Verifying,
        Stage::FetchingPolicy
        | Stage::LaunchingBrowser
        | Stage::OpeningBrowserPage
        | Stage::Navigating => Phase::FetchingPolicy,
        Stage::Running => Phase::RunningSession,
        Stage::Closing => Phase::Closing,
        Stage::Terminated => Phase::Terminated,
        Stage::CleaningUp | Stage::Failed => Phase::Failed,
    }
}

/// The operation on the browser whose end a step awaits as a
/// [`Event::Browser`]; `None` for the steps that await something else.
pub open spec fn awaited_operation(stage: Stage) -> Option<Operation> {
    match stage {
        Stage::LaunchingLogin | Stage::LaunchingBrowser => Some(Operation::Launch),
        Stage::OpeningLoginPage | Stage::OpeningBrowserPage => Some(Operation::OpenPage),
        Stage::RenderingForm => Some(Operation::SetContent),
        Stage::Navigating => Some(Operation::Navigate),
        Stage::ClosingLogin | Stage::Closing | Stage::CleaningUp => Some(Operation::Close),
        _ => None,
    }
}

/// Whether a flow that ended this way ends the process with a status that
/// reports an error.  A flow that ran to its end, a rejection by the
/// authority and malformed credentials are expected outcomes; every other
/// failure is an error.
pub open spec fn is_error_exit(failure: Option<Failure>) -> bool {
    match failure {
        None => false,
        Some(Failure::Rejected) => false,
        Some(Failure::Error(SessionError::MalformedCredentials)) => false,
        Some(Failure::Error(_)) => true,
    }
}

/// The mathematical state of a flow.
pub ghost struct Machine {
    /// The step that the flow is at.
    pub stage: Stage,
    /// The session that shows the login form.
    pub login: SessionStatus,
    /// The session that the policy configures.
    pub browsing: SessionStatus,
    /// The address of the remote authority.
    pub server_url: Seq<char>,
    /// How long the capture script may wait for a submission.
    pub capture_timeout_ms: u64,
    /// The captured credentials, from their capture until they are sent.
    pub credentials: Option<CredentialsView>,
    /// Whether the authority has accepted the credentials.
    pub authorized: bool,
    /// The policy, once it has been fetched.
    pub policy: Option<PolicyView>,
    /// Why the flow failed, once it has.
    pub failure: Option<Failure>,
    /// The error of a close that failed.  Such an error is kept for the
    /// log and changes nothing in the flow.
    pub close_failure: Option<SessionError>,
}

/// The state in which every flow begins.
pub open spec fn initial(server_url: Seq<char>, capture_timeout_ms: u64) -> Machine {
    Machine {
        stage: Stage::Idle,
        login: SessionStatus::Unlaunched,
        browsing: SessionStatus::Unlaunched,
        server_url,
        capture_timeout_ms,
        credentials: None,
        authorized: false,
        policy: None,
        failure: None,
        close_failure: None,
    }
}

impl Machine {
    /// Whether the flow is over.
    pub open spec fn is_finished(self) -> bool {
        self.stage is Terminated || self.stage is Failed
    }

    /// What holds of every state that a flow can reach.
    ///
    /// Each step fixes which session is live, so the two sessions are never
    /// live together and none is live once the flow is over.  The browsing
    /// session is launched only for a flow that the authority has
    /// authorized and for which a policy with a well-formed start URL has
    /// been fetched.  Credentials are held only while the login session is
    /// being closed.
    pub open spec fn wf(self) -> bool {
        &&& match self.stage {
            Stage::Idle | Stage::LaunchingLogin => self.login is Unlaunched
                && self.browsing is Unlaunched,
            Stage::OpeningLoginPage | Stage::RenderingForm | Stage::AwaitingSubmission =>
                self.login is Live && self.browsing is Unlaunched,
            Stage::ClosingLogin | Stage::Verifying | Stage::FetchingPolicy | Stage::LaunchingBrowser =>
                self.login is Closed && self.browsing is Unlaunched,
            Stage::OpeningBrowserPage | Stage::Navigating | Stage::Running => self.login is Closed
                && self.browsing is Live,
            Stage::Closing | Stage::Terminated => self.login is Closed && self.browsing is Closed,
            Stage::CleaningUp => self.login is Closed && !(self.browsing is Live),
            Stage::Failed => !(self.login is Live) && !(self.browsing is Live),
        }
        &&& self.credentials is Some <==> self.stage is ClosingLogin
        &&& self.failure is Some <==> (self.stage is CleaningUp || self.stage is Failed)
        &&& self.policy matches Some(policy) ==> policy.is_valid() && self.authorized
        &&& !(self.browsing is Unlaunched) ==> self.policy is Some
        &&& self.authorized ==> self.login is Closed
        &&& self.close_failure matches Some(e) ==> e == SessionError::CloseFailed
        &&& match self.stage {
            Stage::FetchingPolicy => self.authorized,
            Stage::LaunchingBrowser
            | Stage::OpeningBrowserPage
            | Stage::Navigating
            | Stage::Running
            | Stage::Closing
            | Stage::Terminated => self.policy is Some,
            _ => true,
        }
    }

    /// The flow fails: the credentials are dropped, and the session that is
    /// live, if one is, is closed before the flow ends.
    pub open spec fn fail(self, failure: Failure) -> (Machine, ActionView) {
        if self.login is Live {
            (
                Machine {
                    stage: Stage::CleaningUp,
                    login: SessionStatus::Closed,
                    credentials: None,
                    failure: Some(failure),
                    ..self
                },
                ActionView::Close { session: SessionKind::Login },
            )
        } else if self.browsing is Live {
            (
                Machine {
                    stage: Stage::CleaningUp,
                    browsing: SessionStatus::Closed,
                    credentials: None,
                    failure: Some(failure),
                    ..self
                },
                ActionView::Close { session: SessionKind::Browsing },
            )
        } else {
            (
                Machine { stage: Stage::Failed, credentials: None, failure: Some(failure), ..self },
                ActionView::Finish,
            )
        }
    }

    /// The flow goes on to `stage` and asks for `action`.
    pub open spec fn go(self, stage: Stage, action: ActionView) -> (Machine, ActionView) {
        (Machine { stage, ..self }, action)
    }

    /// What follows when the operation that the flow awaited has ended:
    /// the next step and the action for it.
    pub open spec fn proceed(self) -> (Machine, ActionView) {
        match self.stage {
            Stage::LaunchingLogin => (Machine { login: SessionStatus::Live, ..self }).go(
                Stage::OpeningLoginPage,
                ActionView::OpenPage { session: SessionKind::Login, url: BLANK_PAGE@ },
            ),
            Stage::OpeningLoginPage => self.go(
                Stage::RenderingForm,
                ActionView::SetContent { html: LOGIN_FORM@ },
            ),
            Stage::RenderingForm => self.go(
                Stage::AwaitingSubmission,
                ActionView::Evaluate {
                    script: CAPTURE_SCRIPT@,
                    timeout_ms: self.capture_timeout_ms,
                },
            ),
            Stage::ClosingLogin => match self.credentials {
                Some(credentials) => (Machine { credentials: None, ..self }).go(
                    Stage::Verifying,
                    ActionView::Verify {
                        url: authenticate_endpoint(self.server_url),
                        credentials,
                    },
                ),
                None => self.fail(Failure::Error(SessionError::MalformedCredentials)),
            },
            Stage::LaunchingBrowser => (Machine { browsing: SessionStatus::Live, ..self }).go(
                Stage::OpeningBrowserPage,
                ActionView::OpenPage { session: SessionKind::Browsing, url: BLANK_PAGE@ },
            ),
            Stage::OpeningBrowserPage => match self.policy {
                Some(policy) => self.go(
                    Stage::Navigating,
                    ActionView::Navigate {
                        url: policy.start_url,
                        timeout_ms: policy.max_navigation_timeout_ms,
                    },
                ),
                None => self.fail(Failure::Error(SessionError::MalformedPolicy)),
            },
            Stage::Navigating => self.go(Stage::Running, ActionView::AwaitInterrupt),
            Stage::Closing => self.go(Stage::Terminated, ActionView::Finish),
            Stage::CleaningUp => self.go(Stage::Failed, ActionView::Finish),
            _ => (self, ActionView::Wait),
        }
    }

    /// The transition function: the state after `event`, and the action
    /// that the caller is to carry out next.
    ///
    /// An operation on the browser that fails or times out fails the flow
    /// with the error of that operation; only a close that fails is passed
    /// over, and the flow goes on as after a clean close.  An event that
    /// does not answer the action under way changes nothing and asks the
    /// caller to wait on; so the interrupt signal counts only while the
    /// browsing session runs.  A flow that is over stays as it is.
    pub open spec fn next(self, event: EventView) -> (Machine, ActionView) {
        match (self.stage, event) {
            (Stage::Terminated, _) | (Stage::Failed, _) => (self, ActionView::Finish),
            (Stage::Idle, EventView::Start) => self.go(
                Stage::LaunchingLogin,
                ActionView::Launch { session: SessionKind::Login, visible: true, incognito: false },
            ),
            (Stage::AwaitingSubmission, EventView::Script(evaluation)) => match submission(
                evaluation,
            ) {
                Ok(credentials) => (Machine {
                    login: SessionStatus::Closed,
                    credentials: Some(credentials),
                    ..self
                }).go(Stage::ClosingLogin, ActionView::Close { session: SessionKind::Login }),
                Err(e) => self.fail(Failure::Error(e)),
            },
            (Stage::Verifying, EventView::Verification(status)) => match verification_result(
                status,
            ) {
                Ok(true) => (Machine { authorized: true, ..self }).go(
                    Stage::FetchingPolicy,
                    ActionView::FetchPolicy { url: settings_endpoint(self.server_url) },
                ),
                Ok(false) => self.fail(Failure::Rejected),
                Err(e) => self.fail(Failure::Error(e)),
            },
            (Stage::FetchingPolicy, EventView::Policy(body)) => match fetch_result(body) {
                Ok(policy) => (Machine { policy: Some(policy), ..self }).go(
                    Stage::LaunchingBrowser,
                    ActionView::Launch {
                        session: SessionKind::Browsing,
                        visible: true,
                        incognito: policy.incognito,
                    },
                ),
                Err(e) => self.fail(Failure::Error(e)),
            },
            (Stage::Running, EventView::Interrupted) => (Machine {
                browsing: SessionStatus::Closed,
                ..self
            }).go(Stage::Closing, ActionView::Close { session: SessionKind::Browsing }),
            (stage, EventView::Browser(outcome)) => match awaited_operation(stage) {
                Some(operation) => match operation_result(operation, outcome) {
                    Ok(()) => self.proceed(),
                    Err(e) => if operation is Close {
                        (Machine { close_failure: Some(e), ..self }).proceed()
                    } else {
                        self.fail(Failure::Error(e))
                    },
                },
                None => (self, ActionView::Wait),
            },
            _ => (self, ActionView::Wait),
        }
    }
}

/// The view of optional credentials.
pub open spec fn credentials_view(credentials: Option<Credentials>) -> Option<CredentialsView> {
    match credentials {
        Some(c) => Some(c@),
        None => None,
    }
}

/// The view of an optional policy.
pub open spec fn policy_view(policy: Option<SessionPolicy>) -> Option<PolicyView> {
    match policy {
        Some(p) => Some(p@),
        None => None,
    }
}

/// The executable state of a flow.
///
/// An orchestrator is always in a well-formed state: it is created in the
/// initial state and changes only through [`Orchestrator::step`].
#[derive(Debug)]
pub struct Orchestrator {
    stage: Stage,
    login: BrowserSession,
    browsing: BrowserSession,
    client: AuthClient,
    capture_timeout_ms: u64,
    credentials: Option<Credentials>,
    authorized: bool,
    policy: Option<SessionPolicy>,
    failure: Option<Failure>,
    close_failure: Option<SessionError>,
}

impl View for Orchestrator {
    type V = Machine;

    closed spec fn view(&self) -> Machine {
        Machine {
            stage: self.stage,
            login: self.login@,
            browsing: self.browsing@,
            server_url: self.client@,
            capture_timeout_ms: self.capture_timeout_ms,
            credentials: credentials_view(self.credentials),
            authorized: self.authorized,
            policy: policy_view(self.policy),
            failure: self.failure,
            close_failure: self.close_failure,
        }
    }
}

impl Orchestrator {
    #[verifier::type_invariant]
    spec fn well_formed(&self) -> bool {
        self@.wf()
    }

    /// A flow that has not begun, for the authority at `server_url` and
    /// with `capture_timeout_ms` milliseconds for the login form.
    pub fn new(server_url: &str, capture_timeout_ms: u64) -> (orchestrator: Orchestrator)
        ensures
            orchestrator@ == initial(server_url@, capture_timeout_ms),
    {
        Orchestrator {
            stage: Stage::Idle,
            login: BrowserSession::new(),
            browsing: BrowserSession::new(),
            client: AuthClient::new(server_url),
            capture_timeout_ms,
            credentials: None,
            authorized: false,
            policy: None,
            failure: None,
            close_failure: None,
        }
    }

    /// The step that the flow is at.
    pub fn stage(&self) -> (stage: Stage)
        ensures
            stage == self@.stage,
            self@.wf(),
    {
        proof {
            use_type_invariant(self);
        }
        self.stage
    }

    /// The state of the flow.
    pub fn phase(&self) -> (phase: Phase)
        ensures
            phase == phase_of(self@.stage),
    {
        match self.stage {
            Stage::Idle => Phase::Idle,
            Stage::LaunchingLogin
            | Stage::OpeningLoginPage
            | Stage::RenderingForm
            | Stage::AwaitingSubmission
            | Stage::ClosingLogin => Phase::CapturingLogin,
            Stage::Verifying => Phase::Verifying,
            Stage::FetchingPolicy
            | Stage::LaunchingBrowser
            | Stage::OpeningBrowserPage
            | Stage::Navigating => Phase::FetchingPolicy,
            Stage::Running => Phase::RunningSession,
            Stage::Closing => Phase::Closing,
            Stage::Terminated => Phase::Terminated,
            Stage::CleaningUp | Stage::Failed => Phase::Failed,
        }
    }

    /// Whether the flow is over.
    pub fn is_finished(&self) -> (finished: bool)
        ensures
            finished == self@.is_finished(),
    {
        match self.stage {
            Stage::Terminated | Stage::Failed => true,
            _ => false,
        }
    }

    /// Why the flow failed, once it has.
    pub fn failure(&self) -> (failure: Option<Failure>)
        ensures
            failure == self@.failure,
    {
        self.failure
    }

    /// The error of a close that failed, if one did.  The flow passes such
    /// an error over; it is kept to be logged.
    pub fn close_failure(&self) -> (e: Option<SessionError>)
        ensures
            e == self@.close_failure,
            e is Some ==> e == Some(SessionError::CloseFailed),
    {
        proof {
            use_type_invariant(self);
        }
        self.close_failure
    }

    /// The policy, once it has been fetched.
    pub fn policy(&self) -> (policy: Option<&SessionPolicy>)
        ensures
            match policy {
                Some(p) => self@.policy == Some(p@),
                None => self@.policy is None,
            },
    {
        self.policy.as_ref()
    }

    /// Whether the login session and the browsing session are live.
    pub fn live_sessions(&self) -> (live: (bool, bool))
        ensures
            live.0 == (self@.login is Live),
            live.1 == (self@.browsing is Live),
            !(live.0 && live.1),
    {
        proof {
            use_type_invariant(self);
        }
        (self.login.is_live(), self.browsing.is_live())
    }

    /// The status with which the process is to end: `None` while the flow
    /// is not over, then 0, or 1 where the flow ended in an error.
    pub fn exit_code(&self) -> (code: Option<u8>)
        ensures
            code == if !self@.is_finished() {
                None
            } else if is_error_exit(self@.failure) {
                Some(1u8)
            } else {
                Some(0u8)
            },
    {
        if !self.is_finished() {
            return None;
        }
        match self.failure {
            None => Some(0),
            Some(Failure::Rejected) => Some(0),
            Some(Failure::Error(SessionError::MalformedCredentials)) => Some(0),
            Some(Failure::Error(_)) => Some(1),
        }
    }

    /// Fails the flow, closing the session that is live.
    fn fail(self, failure: Failure) -> (r: (Orchestrator, Action))
        ensures
            (r.0@, r.1@) == self@.fail(failure),
    {
        proof {
            use_type_invariant(&self);
        }
        let mut login = self.login;
        let mut browsing = self.browsing;
        let (stage, action) = match login.close() {
            CloseAction::Shutdown => (
                Stage::CleaningUp,
                Action::Close { session: SessionKind::Login },
            ),
            CloseAction::Nothing => match browsing.close() {
                CloseAction::Shutdown => (
                    Stage::CleaningUp,
                    Action::Close { session: SessionKind::Browsing },
                ),
                CloseAction::Nothing => (Stage::Failed, Action::Finish),
            },
        };
        (
            Orchestrator {
                stage,
                login,
                browsing,
                credentials: None,
                failure: Some(failure),
                ..self
            },
            action,
        )
    }

    /// Goes on to `stage`, leaving everything else as it is.
    fn at(self, stage: Stage) -> (next: Orchestrator)
        requires
            (Machine { stage, ..self@ }).wf(),
        ensures
            next@ == (Machine { stage, ..self@ }),
    {
        Orchestrator { stage, ..self }
    }

    /// Goes on after the operation that the flow awaited has ended.
    fn proceed(self) -> (r: (Orchestrator, Action))
        ensures
            (r.0@, r.1@) == self@.proceed(),
    {
        proof {
            use_type_invariant(&self);
        }
        match self.stage {
            Stage::LaunchingLogin => {
                let mut login = self.login;
                let _ = login.launched(Outcome::Done);
                (
                    Orchestrator { stage: Stage::OpeningLoginPage, login, ..self },
                    Action::OpenPage { session: SessionKind::Login, url: BLANK_PAGE.to_owned() },
                )
            },
            Stage::OpeningLoginPage => (
                self.at(Stage::RenderingForm),
                Action::SetContent { html: LOGIN_FORM.to_owned() },
            ),
            Stage::RenderingForm => {
                let timeout_ms = self.capture_timeout_ms;
                (
                    self.at(Stage::AwaitingSubmission),
                    Action::Evaluate { script: CAPTURE_SCRIPT.to_owned(), timeout_ms },
                )
            },
            Stage::ClosingLogin => match self.credentials {
                Some(credentials) => {
                    let url = self.client.authenticate_url();
                    (
                        Orchestrator { stage: Stage::Verifying, credentials: None, ..self },
                        Action::Verify { url, credentials },
                    )
                },
                None => self.fail(Failure::Error(SessionError::MalformedCredentials)),
            },
            Stage::LaunchingBrowser => {
                let mut browsing = self.browsing;
                let _ = browsing.launched(Outcome::Done);
                (
                    Orchestrator { stage: Stage::OpeningBrowserPage, browsing, ..self },
                    Action::OpenPage { session: SessionKind::Browsing, url: BLANK_PAGE.to_owned() },
                )
            },
            Stage::OpeningBrowserPage => {
                let target = match &self.policy {
                    Some(policy) => Some(
                        (policy.start_url().clone(), policy.max_navigation_timeout_ms()),
                    ),
                    None => None,
                };
                match target {
                    Some((url, timeout_ms)) => (
                        self.at(Stage::Navigating),
                        Action::Navigate { url, timeout_ms },
                    ),
                    None => self.fail(Failure::Error(SessionError::MalformedPolicy)),
                }
            },
            Stage::Navigating => (self.at(Stage::Running), Action::AwaitInterrupt),
            Stage::Closing => (self.at(Stage::Terminated), Action::Finish),
            Stage::CleaningUp => (self.at(Stage::Failed), Action::Finish),
            _ => (self, Action::Wait),
        }
    }

    /// The operation on the browser whose end the flow awaits.
    fn awaited(&self) -> (operation: Option<Operation>)
        ensures
            operation == awaited_operation(self@.stage),
    {
        match self.stage {
            Stage::LaunchingLogin | Stage::LaunchingBrowser => Some(Operation::Launch),
            Stage::OpeningLoginPage | Stage::OpeningBrowserPage => Some(Operation::OpenPage),
            Stage::RenderingForm => Some(Operation::SetContent),
            Stage::Navigating => Some(Operation::Navigate),
            Stage::ClosingLogin | Stage::Closing | Stage::CleaningUp => Some(Operation::Close),
            _ => None,
        }
    }

    /// Takes one step of the flow: consumes the event that the caller
    /// reports and returns the state after it together with the action
    /// that the caller is to carry out next.
    pub fn step(self, event: Event) -> (r: (Orchestrator, Action))
        ensures
            (r.0@, r.1@) == self@.next(event@),
            r.0@.wf(),
    {
        proof {
            use_type_invariant(&self);
            lemma_step_preserves_well_formedness(self@, event@);
        }
        match (self.stage, event) {
            (Stage::Terminated, _) | (Stage::Failed, _) => (self, Action::Finish),
            (Stage::Idle, Event::Start) => (
                self.at(Stage::LaunchingLogin),
                Action::Launch { session: SessionKind::Login, visible: true, incognito: false },
            ),
            (Stage::AwaitingSubmission, Event::Script(evaluation)) => {
                match capture_submission(&evaluation) {
                    Ok(credentials) => {
                        let mut login = self.login;
                        let _ = login.close();
                        (
                            Orchestrator {
                                stage: Stage::ClosingLogin,
                                login,
                                credentials: Some(credentials),
                                ..self
                            },
                            Action::Close { session: SessionKind::Login },
                        )
                    },
                    Err(e) => self.fail(Failure::Error(e)),
                }
            },
            (Stage::Verifying, Event::Verification(status)) => {
                match AuthClient::verify(status) {
                    Ok(true) => {
                        let url = self.client.settings_url();
                        (
                            Orchestrator { stage: Stage::FetchingPolicy, authorized: true, ..self },
                            Action::FetchPolicy { url },
                        )
                    },
                    Ok(false) => self.fail(Failure::Rejected),
                    Err(e) => self.fail(Failure::Error(e)),
                }
            },
            (Stage::FetchingPolicy, Event::Policy(body)) => {
                let fetched = match &body {
                    Some(text) => AuthClient::fetch_policy(Some(text.as_str())),
                    None => AuthClient::fetch_policy(None),
                };
                match fetched {
                    Ok(policy) => {
                        let incognito = policy.incognito();
                        (
                            Orchestrator {
                                stage: Stage::LaunchingBrowser,
                                policy: Some(policy),
                                ..self
                            },
                            Action::Launch {
                                session: SessionKind::Browsing,
                                visible: true,
                                incognito,
                            },
                        )
                    },
                    Err(e) => self.fail(Failure::Error(e)),
                }
            },
            (Stage::Running, Event::Interrupted) => {
                let mut browsing = self.browsing;
                let _ = browsing.close();
                (
                    Orchestrator { stage: Stage::Closing, browsing, ..self },
                    Action::Close { session: SessionKind::Browsing },
                )
            },
            (_, Event::Browser(outcome)) => match self.awaited() {
                Some(operation) => match operation.result(outcome) {
                    Ok(()) => self.proceed(),
                    Err(e) => match operation {
                        Operation::Close => {
                            let noted = Orchestrator { close_failure: Some(e), ..self };
                            noted.proceed()
                        },
                        _ => self.fail(Failure::Error(e)),
                    },
                },
                None => (self, Action::Wait),
            },
            _ => (self, Action::Wait),
        }
    }
}

/// Every flow begins in a well-formed state.
pub proof fn lemma_initial_is_well_formed(server_url: Seq<char>, capture_timeout_ms: u64)
    ensures
        initial(server_url, capture_timeout_ms).wf(),
        initial(server_url, capture_timeout_ms).stage is Idle,
{
}

/// No event leads out of the well-formed states.  So in every state that a
/// flow reaches the two sessions are not live together, the browsing
/// session exists only after authorization and with a valid policy, and a
/// flow that is over holds no live session.
pub proof fn lemma_step_preserves_well_formedness(machine: Machine, event: EventView)
    requires
        machine.wf(),
    ensures
        machine.next(event).0.wf(),
{
}

/// The state that a flow is in after a sequence of events.
pub open spec fn after(machine: Machine, events: Seq<EventView>) -> Machine
    decreases events.len(),
{
    if events.len() == 0 {
        machine
    } else {
        after(machine.next(events[0]).0, events.drop_first())
    }
}

/// Whatever is reported to a flow, and in whatever order, the flow is in a
/// well-formed state.
pub proof fn lemma_reachable_states_are_well_formed(machine: Machine, events: Seq<EventView>)
    requires
        machine.wf(),
    ensures
        after(machine, events).wf(),
    decreases events.len(),
{
    if events.len() > 0 {
        lemma_step_preserves_well_formedness(machine, events[0]);
        lemma_reachable_states_are_well_formed(machine.next(events[0]).0, events.drop_first());
    }
}

/// How far a flow has come: the steps in the order in which a flow can
/// pass them.
pub open spec fn position(stage: Stage) -> nat {
    match stage {
        Stage::Idle => 0,
        Stage::LaunchingLogin => 1,
        Stage::OpeningLoginPage => 2,
        Stage::RenderingForm => 3,
        Stage::AwaitingSubmission => 4,
        Stage::ClosingLogin => 5,
        Stage::Verifying => 6,
        Stage::FetchingPolicy => 7,
        Stage::LaunchingBrowser => 8,
        Stage::OpeningBrowserPage => 9,
        Stage::Navigating => 10,
        Stage::Running => 11,
        Stage::Closing => 12,
        Stage::Terminated => 13,
        Stage::CleaningUp => 14,
        Stage::Failed => 15,
    }
}

/// A flow never goes back and never repeats a step: an event either
/// changes nothing or takes the flow to a later step.  So nothing is tried
/// a second time, and a failed login means a new flow.
pub proof fn lemma_flow_only_advances(machine: Machine, event: EventView)
    ensures
        machine.next(event).0 == machine || position(machine.next(event).0.stage) > position(
            machine.stage,
        ),
{
}

/// Only an event that takes the flow to a later step asks the caller for
/// anything: an event that changes nothing is answered with `Wait`, or
/// with `Finish` once the flow is over.
pub proof fn lemma_ignored_events_ask_for_nothing(machine: Machine, event: EventView)
    requires
        machine.wf(),
        machine.next(event).0 == machine,
    ensures
        machine.next(event).1 == if machine.is_finished() {
            ActionView::Finish
        } else {
            ActionView::Wait
        },
{
}

/// A flow that is over stays over: every event leaves its state unchanged
/// and is answered with `Finish`.
pub proof fn lemma_finished_is_absorbing(machine: Machine, event: EventView)
    requires
        machine.is_finished(),
    ensures
        machine.next(event) == (machine, ActionView::Finish),
{
}

/// Once a flow has failed it never leaves `Failed`.
pub proof fn lemma_failed_is_absorbing(machine: Machine, event: EventView)
    requires
        machine.wf(),
        phase_of(machine.stage) is Failed,
    ensures
        phase_of(machine.next(event).0.stage) is Failed,
        machine.next(event).0.failure == machine.failure,
{
}

/// The interrupt signal counts only while the browsing session runs: in
/// every other state it changes nothing.
pub proof fn lemma_interrupt_counts_only_while_running(machine: Machine)
    requires
        !(machine.stage is Running),
    ensures
        machine.next(EventView::Interrupted).0 == machine,
{
}

/// The interrupt signal is the only event that ends a running session.
pub proof fn lemma_only_interrupt_ends_running(machine: Machine, event: EventView)
    requires
        machine.stage is Running,
    ensures
        event is Interrupted ==> machine.next(event).0.stage is Closing && machine.next(event).1
            == (ActionView::Close { session: SessionKind::Browsing }),
        !(event is Interrupted) ==> machine.next(event) == (machine, ActionView::Wait),
{
}

/// A close that fails or times out leaves its error behind as
/// `CloseFailed` and changes nothing else: the flow goes where it goes
/// after a clean close, and asks for the same action.
pub proof fn lemma_failed_close_is_passed_over(machine: Machine, outcome: Outcome)
    requires
        awaited_operation(machine.stage) == Some(Operation::Close),
        !(outcome is Done),
    ensures
        machine.next(EventView::Browser(outcome)).0 == (Machine {
            close_failure: Some(SessionError::CloseFailed),
            ..machine.next(EventView::Browser(Outcome::Done)).0
        }),
        machine.next(EventView::Browser(outcome)).1 == machine.next(
            EventView::Browser(Outcome::Done),
        ).1,
{
}

/// Every other operation on the browser that fails or times out fails the
/// flow, with the error of that operation.
pub proof fn lemma_failed_operation_fails_the_flow(machine: Machine, outcome: Outcome)
    requires
        machine.wf(),
        awaited_operation(machine.stage) matches Some(operation) && !(operation is Close),
        !(outcome is Done),
    ensures
        phase_of(machine.next(EventView::Browser(outcome)).0.stage) is Failed,
        machine.next(EventView::Browser(outcome)).0.failure == Some(
            Failure::Error(operation_error(awaited_operation(machine.stage)->0)),
        ),
{
}

/// Shutdown always arrives: however the close of the browsing session
/// ends, the flow is `Terminated` afterwards.
pub proof fn lemma_closing_reaches_terminated(machine: Machine, outcome: Outcome)
    requires
        machine.stage is Closing,
    ensures
        machine.next(EventView::Browser(outcome)).0.stage is Terminated,
        machine.next(EventView::Browser(outcome)).1 is Finish,
{
}

/// The browsing session is launched for one reason only: the flow was
/// fetching the policy, after the authority had authorized it, and the body
/// that came back holds a policy that satisfies the policy invariant.
pub proof fn lemma_browsing_is_gated(machine: Machine, event: EventView)
    requires
        machine.wf(),
        machine.next(event).1 matches ActionView::Launch { session, .. } && session
            == SessionKind::Browsing,
    ensures
        machine.stage is FetchingPolicy,
        machine.authorized,
        event matches EventView::Policy(body) && fetch_result(body) matches Ok(policy)
            && policy.is_valid() && machine.next(event).0.policy == Some(policy),
{
    match (machine.stage, event) {
        (Stage::FetchingPolicy, EventView::Policy(body)) => {
            lemma_fetched_policy_is_valid(body);
        },
        _ => {},
    }
}

/// Credentials go to the authority only after the login session has been
/// closed, and they are the ones that were captured.
pub proof fn lemma_verify_follows_close(machine: Machine, event: EventView)
    requires
        machine.wf(),
        machine.next(event).1 is Verify,
    ensures
        machine.stage is ClosingLogin,
        machine.login is Closed,
        machine.next(event).1 == (ActionView::Verify {
            url: authenticate_endpoint(machine.server_url),
            credentials: machine.credentials->0,
        }),
        machine.next(event).0.credentials is None,
{
}

/// When the authority does not answer the verification request with status
/// 200, the flow fails at once and no browsing session is ever launched: a
/// status other than 200 is a rejection, and no status is `NetworkFailure`.
pub proof fn lemma_unverified_flow_fails(machine: Machine, status: Option<u16>)
    requires
        machine.wf(),
        machine.stage is Verifying,
        status != Some(STATUS_OK),
    ensures
        machine.next(EventView::Verification(status)).0.stage is Failed,
        machine.next(EventView::Verification(status)).1 is Finish,
        machine.next(EventView::Verification(status)).0.browsing is Unlaunched,
        machine.next(EventView::Verification(status)).0.failure == Some(
            match status {
                Some(_) => Failure::Rejected,
                None => Failure::Error(SessionError::NetworkFailure),
            },
        ),
{
}

/// When the policy request fails in transport or times out, the flow fails
/// with `NetworkFailure`; the login session is closed by then and no
/// browsing session is launched.
pub proof fn lemma_unreachable_policy_fails(machine: Machine)
    requires
        machine.wf(),
        machine.stage is FetchingPolicy,
    ensures
        machine.next(EventView::Policy(None)).0.stage is Failed,
        machine.next(EventView::Policy(None)).0.failure == Some(
            Failure::Error(SessionError::NetworkFailure),
        ),
        machine.next(EventView::Policy(None)).0.login is Closed,
        machine.next(EventView::Policy(None)).0.browsing is Unlaunched,
        machine.next(EventView::Policy(None)).1 is Finish,
{
}

/// When nobody submits the login form in time, capturing yields
/// `NoSubmission`: the login session is closed, and whatever the close
/// reports, the flow then fails without a verification request.
pub proof fn lemma_no_submission_fails(machine: Machine, close: Outcome)
    requires
        machine.wf(),
        machine.stage is AwaitingSubmission,
    ensures
        ({
            let (cleaning, first) = machine.next(EventView::Script(EvaluationView::TimedOut));
            let (failed, second) = cleaning.next(EventView::Browser(close));
            &&& first == (ActionView::Close { session: SessionKind::Login })
            &&& cleaning.login is Closed
            &&& cleaning.failure == Some(Failure::Error(SessionError::NoSubmission))
            &&& failed.stage is Failed
            &&& failed.failure == Some(Failure::Error(SessionError::NoSubmission))
            &&& second is Finish
        }),
{
}

} // verus!
