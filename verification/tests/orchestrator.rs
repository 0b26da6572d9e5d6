use secure_browser::auth::AuthClient;
use secure_browser::authority::Authority;
use secure_browser::capture::{BLANK_PAGE, CAPTURE_SCRIPT, LOGIN_FORM};
use secure_browser::credentials::Credentials;
use secure_browser::error::SessionError;
use secure_browser::orchestrator::{Failure, Orchestrator, Phase, Stage};
use secure_browser::policy::SessionPolicy;
use secure_browser::protocol::{Action, Evaluation, Event, SessionKind};
use secure_browser::session::Outcome;

const SERVER: &str = "http://localhost:8080";
const CAPTURE_TIMEOUT_MS: u64 = 120_000;

fn done() -> Event {
    Event::Browser(Outcome::Done)
}

fn submitted(username: &str, password: &str) -> Event {
    Event::Script(Evaluation::Settled(Some(format!(
        "{{\"username\":\"{}\",\"password\":\"{}\"}}",
        username, password
    ))))
}

fn body_of(policy: &SessionPolicy) -> String {
    let domains: Vec<String> =
        policy.allowed_domains().iter().map(|d| format!("\"{}\"", d)).collect();
    format!(
        "{{\"start_url\":\"{}\",\"incognito\":{},\"max_navigation_timeout\":{},\"allowed_domains\":[{}]}}",
        policy.start_url(),
        policy.incognito(),
        policy.max_navigation_timeout_ms(),
        domains.join(",")
    )
}

/// Drives a fresh flow through the events, and returns the state with the
/// last action.
fn drive(events: Vec<Event>) -> (Orchestrator, Action) {
    let mut orchestrator = Orchestrator::new(SERVER, CAPTURE_TIMEOUT_MS);
    let mut action = Action::Wait;
    for event in events {
        let (next, asked) = orchestrator.step(event);
        orchestrator = next;
        action = asked;
    }
    (orchestrator, action)
}

/// The events that bring a flow to the point where the credentials have
/// been captured and the login session has been closed.
fn up_to_verifying(username: &str, password: &str) -> Vec<Event> {
    vec![Event::Start, done(), done(), done(), submitted(username, password), done()]
}

/// The events that bring a flow to the point where the authority has
/// accepted the credentials.
fn up_to_fetching() -> Vec<Event> {
    let mut events = up_to_verifying("admin_user", "secure_password");
    events.push(Event::Verification(Some(200)));
    events
}

/// The events that bring a flow to a running browsing session.
fn up_to_running() -> Vec<Event> {
    let mut events = up_to_fetching();
    events.push(Event::Policy(Some(body_of(Authority::reference().browser_settings()))));
    events.push(done());
    events.push(done());
    events.push(done());
    events
}

#[test]
fn a_flow_begins_idle() {
    let orchestrator = Orchestrator::new(SERVER, CAPTURE_TIMEOUT_MS);
    assert_eq!(orchestrator.stage(), Stage::Idle);
    assert_eq!(orchestrator.phase(), Phase::Idle);
    assert!(!orchestrator.is_finished());
    assert_eq!(orchestrator.failure(), None);
    assert_eq!(orchestrator.policy(), None);
    assert_eq!(orchestrator.live_sessions(), (false, false));
    assert_eq!(orchestrator.exit_code(), None);
    assert_eq!(orchestrator.close_failure(), None);
}

#[test]
fn scenario_accepted_credentials_run_the_policy_session() {
    let authority = Authority::reference();
    let orchestrator = Orchestrator::new(SERVER, CAPTURE_TIMEOUT_MS);

    let (orchestrator, action) = orchestrator.step(Event::Start);
    assert_eq!(
        action,
        Action::Launch { session: SessionKind::Login, visible: true, incognito: false }
    );
    assert_eq!(orchestrator.phase(), Phase::CapturingLogin);
    assert_eq!(orchestrator.live_sessions(), (false, false));

    let (orchestrator, action) = orchestrator.step(done());
    assert_eq!(
        action,
        Action::OpenPage { session: SessionKind::Login, url: BLANK_PAGE.to_string() }
    );
    assert_eq!(orchestrator.live_sessions(), (true, false));

    let (orchestrator, action) = orchestrator.step(done());
    assert_eq!(action, Action::SetContent { html: LOGIN_FORM.to_string() });

    let (orchestrator, action) = orchestrator.step(done());
    assert_eq!(
        action,
        Action::Evaluate { script: CAPTURE_SCRIPT.to_string(), timeout_ms: CAPTURE_TIMEOUT_MS }
    );
    assert_eq!(orchestrator.stage(), Stage::AwaitingSubmission);

    let (orchestrator, action) = orchestrator.step(submitted("admin_user", "secure_password"));
    assert_eq!(action, Action::Close { session: SessionKind::Login });
    assert_eq!(orchestrator.phase(), Phase::CapturingLogin);
    assert_eq!(orchestrator.live_sessions(), (false, false));

    let (orchestrator, action) = orchestrator.step(done());
    let status = match action {
        Action::Verify { url, credentials } => {
            assert_eq!(url, "http://localhost:8080/authenticate");
            assert_eq!(
                credentials,
                Credentials::new("admin_user".to_string(), "secure_password".to_string())
            );
            authority.authenticate(&credentials)
        }
        other => panic!("expected a verification request, got {:?}", other),
    };
    assert_eq!(orchestrator.phase(), Phase::Verifying);
    assert_eq!(status, 200);
    assert_eq!(AuthClient::verify(Some(status)), Ok(true));

    let (orchestrator, action) = orchestrator.step(Event::Verification(Some(status)));
    assert_eq!(
        action,
        Action::FetchPolicy { url: "http://localhost:8080/browser-settings".to_string() }
    );
    assert_eq!(orchestrator.phase(), Phase::FetchingPolicy);
    assert_eq!(orchestrator.policy(), None);

    let body = body_of(authority.browser_settings());
    let (orchestrator, action) = orchestrator.step(Event::Policy(Some(body)));
    assert_eq!(
        action,
        Action::Launch { session: SessionKind::Browsing, visible: true, incognito: false }
    );
    assert_eq!(orchestrator.policy(), Some(authority.browser_settings()));

    let (orchestrator, action) = orchestrator.step(done());
    assert_eq!(
        action,
        Action::OpenPage { session: SessionKind::Browsing, url: BLANK_PAGE.to_string() }
    );
    assert_eq!(orchestrator.live_sessions(), (false, true));

    let (orchestrator, action) = orchestrator.step(done());
    assert_eq!(
        action,
        Action::Navigate { url: "https://www.google.com".to_string(), timeout_ms: 30000 }
    );
    assert_eq!(orchestrator.phase(), Phase::FetchingPolicy);

    let (orchestrator, action) = orchestrator.step(done());
    assert_eq!(action, Action::AwaitInterrupt);
    assert_eq!(orchestrator.phase(), Phase::RunningSession);
    assert!(!orchestrator.is_finished());

    let (orchestrator, action) = orchestrator.step(Event::Interrupted);
    assert_eq!(action, Action::Close { session: SessionKind::Browsing });
    assert_eq!(orchestrator.phase(), Phase::Closing);
    assert_eq!(orchestrator.live_sessions(), (false, false));

    let (orchestrator, action) = orchestrator.step(done());
    assert_eq!(action, Action::Finish);
    assert_eq!(orchestrator.phase(), Phase::Terminated);
    assert!(orchestrator.is_finished());
    assert_eq!(orchestrator.failure(), None);
    assert_eq!(orchestrator.exit_code(), Some(0));
}

#[test]
fn scenario_rejected_credentials_fail_without_a_second_session() {
    let authority = Authority::reference();
    let (orchestrator, action) = drive(up_to_verifying("wrong", "wrong"));
    let status = match action {
        Action::Verify { credentials, .. } => authority.authenticate(&credentials),
        other => panic!("expected a verification request, got {:?}", other),
    };
    assert_eq!(status, 401);
    assert_eq!(AuthClient::verify(Some(status)), Ok(false));

    let (orchestrator, action) = orchestrator.step(Event::Verification(Some(status)));
    assert_eq!(action, Action::Finish);
    assert_eq!(orchestrator.phase(), Phase::Failed);
    assert_eq!(orchestrator.stage(), Stage::Failed);
    assert_eq!(orchestrator.failure(), Some(Failure::Rejected));
    assert_eq!(orchestrator.policy(), None);
    assert_eq!(orchestrator.live_sessions(), (false, false));
    assert_eq!(orchestrator.exit_code(), Some(0));

    // Nothing launches a session afterwards.
    let mut orchestrator = orchestrator;
    for event in [done(), Event::Start, Event::Verification(Some(200)), Event::Interrupted] {
        let (next, action) = orchestrator.step(event);
        assert_eq!(action, Action::Finish);
        assert_eq!(next.stage(), Stage::Failed);
        assert_eq!(next.live_sessions(), (false, false));
        orchestrator = next;
    }
}

#[test]
fn scenario_unreachable_policy_is_a_network_failure() {
    let (orchestrator, action) = drive(up_to_fetching());
    assert_eq!(
        action,
        Action::FetchPolicy { url: "http://localhost:8080/browser-settings".to_string() }
    );
    // The login session was closed before the credentials were sent.
    assert_eq!(orchestrator.live_sessions(), (false, false));

    let (orchestrator, action) = orchestrator.step(Event::Policy(None));
    assert_eq!(action, Action::Finish);
    assert_eq!(orchestrator.phase(), Phase::Failed);
    assert_eq!(orchestrator.failure(), Some(Failure::Error(SessionError::NetworkFailure)));
    assert_eq!(orchestrator.live_sessions(), (false, false));
    assert_eq!(orchestrator.policy(), None);
    assert_eq!(orchestrator.exit_code(), Some(1));
}

#[test]
fn scenario_no_submission_fails_without_verification() {
    let (orchestrator, action) = drive(vec![Event::Start, done(), done(), done()]);
    assert_eq!(
        action,
        Action::Evaluate { script: CAPTURE_SCRIPT.to_string(), timeout_ms: CAPTURE_TIMEOUT_MS }
    );

    let (orchestrator, action) = orchestrator.step(Event::Script(Evaluation::TimedOut));
    assert_eq!(action, Action::Close { session: SessionKind::Login });
    assert_eq!(orchestrator.phase(), Phase::Failed);
    assert_eq!(orchestrator.stage(), Stage::CleaningUp);
    assert_eq!(orchestrator.failure(), Some(Failure::Error(SessionError::NoSubmission)));
    assert_eq!(orchestrator.live_sessions(), (false, false));
    assert!(!orchestrator.is_finished());

    let (orchestrator, action) = orchestrator.step(done());
    assert_eq!(action, Action::Finish);
    assert_eq!(orchestrator.stage(), Stage::Failed);
    assert_eq!(orchestrator.failure(), Some(Failure::Error(SessionError::NoSubmission)));
    assert_eq!(orchestrator.exit_code(), Some(1));
}

#[test]
fn a_failed_login_launch_fails_at_once() {
    for outcome in [Outcome::Failed, Outcome::TimedOut] {
        let (orchestrator, action) = drive(vec![Event::Start, Event::Browser(outcome)]);
        assert_eq!(action, Action::Finish);
        assert_eq!(orchestrator.stage(), Stage::Failed);
        assert_eq!(orchestrator.failure(), Some(Failure::Error(SessionError::LaunchFailed)));
        assert_eq!(orchestrator.exit_code(), Some(1));
    }
}

#[test]
fn a_failure_in_the_login_page_closes_the_login_session() {
    let cases = [
        (2, SessionError::PageCreationFailed),
        (3, SessionError::RenderFailed),
    ];
    for (steps, error) in cases {
        for outcome in [Outcome::Failed, Outcome::TimedOut] {
            let mut events = vec![Event::Start, done(), done(), done()];
            events.truncate(steps);
            events.push(Event::Browser(outcome));
            let (orchestrator, action) = drive(events);
            assert_eq!(action, Action::Close { session: SessionKind::Login });
            assert_eq!(orchestrator.stage(), Stage::CleaningUp);
            assert_eq!(orchestrator.failure(), Some(Failure::Error(error)));
            assert_eq!(orchestrator.close_failure(), None);
            let (orchestrator, action) = orchestrator.step(Event::Browser(Outcome::Failed));
            assert_eq!(action, Action::Finish);
            assert_eq!(orchestrator.stage(), Stage::Failed);
            assert_eq!(orchestrator.failure(), Some(Failure::Error(error)));
            assert_eq!(orchestrator.close_failure(), Some(SessionError::CloseFailed));
        }
    }
}

#[test]
fn a_failed_evaluation_fails_the_flow() {
    let (orchestrator, action) =
        drive(vec![Event::Start, done(), done(), done(), Event::Script(Evaluation::Failed)]);
    assert_eq!(action, Action::Close { session: SessionKind::Login });
    assert_eq!(orchestrator.failure(), Some(Failure::Error(SessionError::EvalFailed)));
}

#[test]
fn malformed_credentials_end_the_flow_without_an_error_status() {
    for evaluation in [
        Evaluation::Settled(None),
        Evaluation::Settled(Some("null".to_string())),
        Evaluation::Settled(Some("{\"username\":\"u\"}".to_string())),
        Evaluation::Settled(Some("{\"username\":\"u\",\"password\":\"p\",\"x\":1}".to_string())),
    ] {
        let (orchestrator, action) =
            drive(vec![Event::Start, done(), done(), done(), Event::Script(evaluation)]);
        assert_eq!(action, Action::Close { session: SessionKind::Login });
        assert_eq!(
            orchestrator.failure(),
            Some(Failure::Error(SessionError::MalformedCredentials))
        );
        let (orchestrator, action) = orchestrator.step(done());
        assert_eq!(action, Action::Finish);
        assert_eq!(orchestrator.exit_code(), Some(0));
    }
}

#[test]
fn a_failed_close_of_the_login_session_does_not_stop_verification() {
    for outcome in [Outcome::Failed, Outcome::TimedOut] {
        let mut events = up_to_verifying("u", "p");
        events.pop();
        events.push(Event::Browser(outcome));
        let (orchestrator, action) = drive(events);
        assert_eq!(
            action,
            Action::Verify {
                url: "http://localhost:8080/authenticate".to_string(),
                credentials: Credentials::new("u".to_string(), "p".to_string()),
            }
        );
        assert_eq!(orchestrator.phase(), Phase::Verifying);
        assert_eq!(orchestrator.failure(), None);
        assert_eq!(orchestrator.close_failure(), Some(SessionError::CloseFailed));
    }
    let (orchestrator, _) = drive(up_to_verifying("u", "p"));
    assert_eq!(orchestrator.close_failure(), None);
}

#[test]
fn a_verification_that_fails_in_transport_is_a_network_failure() {
    let mut events = up_to_verifying("admin_user", "secure_password");
    events.push(Event::Verification(None));
    let (orchestrator, action) = drive(events);
    assert_eq!(action, Action::Finish);
    assert_eq!(orchestrator.failure(), Some(Failure::Error(SessionError::NetworkFailure)));
    assert_eq!(orchestrator.exit_code(), Some(1));
}

#[test]
fn every_status_but_200_is_a_rejection() {
    for status in [0, 201, 302, 400, 401, 403, 500] {
        let mut events = up_to_verifying("admin_user", "secure_password");
        events.push(Event::Verification(Some(status)));
        let (orchestrator, action) = drive(events);
        assert_eq!(action, Action::Finish);
        assert_eq!(orchestrator.failure(), Some(Failure::Rejected));
    }
}

#[test]
fn a_malformed_policy_fails_the_flow() {
    let mut events = up_to_fetching();
    events.push(Event::Policy(Some(
        "{\"start_url\":\"google\",\"incognito\":false,\"max_navigation_timeout\":1,\"allowed_domains\":[]}"
            .to_string(),
    )));
    let (orchestrator, action) = drive(events);
    assert_eq!(action, Action::Finish);
    assert_eq!(orchestrator.failure(), Some(Failure::Error(SessionError::MalformedPolicy)));
    assert_eq!(orchestrator.policy(), None);
    assert_eq!(orchestrator.live_sessions(), (false, false));

    let mut events = up_to_fetching();
    events.push(Event::Policy(Some("<html>".to_string())));
    let (orchestrator, _) = drive(events);
    assert_eq!(orchestrator.failure(), Some(Failure::Error(SessionError::NetworkFailure)));
}

#[test]
fn the_policy_configures_the_browsing_session() {
    let mut events = up_to_fetching();
    events.push(Event::Policy(Some(
        "{\"start_url\":\"https://intranet.example/home\",\"incognito\":true,\"max_navigation_timeout\":1234,\"allowed_domains\":[\"intranet.example\"]}"
            .to_string(),
    )));
    let (orchestrator, action) = drive(events);
    assert_eq!(
        action,
        Action::Launch { session: SessionKind::Browsing, visible: true, incognito: true }
    );
    let (orchestrator, _) = orchestrator.step(done());
    let (orchestrator, action) = orchestrator.step(done());
    assert_eq!(
        action,
        Action::Navigate { url: "https://intranet.example/home".to_string(), timeout_ms: 1234 }
    );
    let policy = orchestrator.policy().expect("a policy");
    assert_eq!(policy.allowed_domains(), &vec!["intranet.example".to_string()]);
}

#[test]
fn a_failed_launch_of_the_browsing_session_fails_the_flow() {
    let mut events = up_to_running();
    events.truncate(events.len() - 3);
    events.push(Event::Browser(Outcome::Failed));
    let (orchestrator, action) = drive(events);
    assert_eq!(action, Action::Finish);
    assert_eq!(orchestrator.failure(), Some(Failure::Error(SessionError::LaunchFailed)));
    assert_eq!(orchestrator.live_sessions(), (false, false));
}

#[test]
fn a_failure_in_the_browsing_page_closes_the_browsing_session() {
    let cases = [(2, SessionError::PageCreationFailed), (1, SessionError::NavigationFailed)];
    for (cut, error) in cases {
        for outcome in [Outcome::Failed, Outcome::TimedOut] {
            let mut events = up_to_running();
            events.truncate(events.len() - cut);
            events.push(Event::Browser(outcome));
            let (orchestrator, action) = drive(events);
            assert_eq!(action, Action::Close { session: SessionKind::Browsing });
            assert_eq!(orchestrator.stage(), Stage::CleaningUp);
            assert_eq!(orchestrator.phase(), Phase::Failed);
            assert_eq!(orchestrator.failure(), Some(Failure::Error(error)));
            assert_eq!(orchestrator.live_sessions(), (false, false));
            let (orchestrator, action) = orchestrator.step(done());
            assert_eq!(action, Action::Finish);
            assert_eq!(orchestrator.stage(), Stage::Failed);
            assert_eq!(orchestrator.exit_code(), Some(1));
        }
    }
}

#[test]
fn the_interrupt_counts_only_while_the_session_runs() {
    let running = up_to_running();
    for cut in 1..running.len() {
        let mut events = up_to_running();
        events.truncate(cut);
        let (orchestrator, _) = drive(events);
        let stage = orchestrator.stage();
        let live = orchestrator.live_sessions();
        let (orchestrator, action) = orchestrator.step(Event::Interrupted);
        assert_eq!(action, Action::Wait);
        assert_eq!(orchestrator.stage(), stage);
        assert_eq!(orchestrator.live_sessions(), live);
    }
    let (orchestrator, action) = Orchestrator::new(SERVER, 1).step(Event::Interrupted);
    assert_eq!(action, Action::Wait);
    assert_eq!(orchestrator.stage(), Stage::Idle);
}

#[test]
fn a_running_session_ends_only_on_the_interrupt() {
    let (mut orchestrator, action) = drive(up_to_running());
    assert_eq!(action, Action::AwaitInterrupt);
    for event in [
        Event::Start,
        done(),
        Event::Browser(Outcome::Failed),
        Event::Browser(Outcome::TimedOut),
        Event::Script(Evaluation::TimedOut),
        Event::Verification(Some(401)),
        Event::Policy(None),
    ] {
        let (next, action) = orchestrator.step(event);
        assert_eq!(action, Action::Wait);
        assert_eq!(next.stage(), Stage::Running);
        assert_eq!(next.live_sessions(), (false, true));
        orchestrator = next;
    }
    let (orchestrator, action) = orchestrator.step(Event::Interrupted);
    assert_eq!(action, Action::Close { session: SessionKind::Browsing });
    assert_eq!(orchestrator.stage(), Stage::Closing);
}

#[test]
fn shutdown_reaches_terminated_even_when_the_close_fails() {
    for outcome in [Outcome::Done, Outcome::Failed, Outcome::TimedOut] {
        let mut events = up_to_running();
        events.push(Event::Interrupted);
        events.push(Event::Browser(outcome));
        let (orchestrator, action) = drive(events);
        assert_eq!(action, Action::Finish);
        assert_eq!(orchestrator.phase(), Phase::Terminated);
        assert_eq!(orchestrator.failure(), None);
        assert_eq!(orchestrator.exit_code(), Some(0));
        assert_eq!(orchestrator.live_sessions(), (false, false));
        let expected = match outcome {
            Outcome::Done => None,
            _ => Some(SessionError::CloseFailed),
        };
        assert_eq!(orchestrator.close_failure(), expected);
    }
}

#[test]
fn a_terminated_flow_stays_terminated() {
    let mut events = up_to_running();
    events.push(Event::Interrupted);
    events.push(done());
    let (mut orchestrator, _) = drive(events);
    for event in [Event::Start, done(), Event::Interrupted, Event::Policy(None)] {
        let (next, action) = orchestrator.step(event);
        assert_eq!(action, Action::Finish);
        assert_eq!(next.stage(), Stage::Terminated);
        orchestrator = next;
    }
}

#[test]
fn events_that_answer_nothing_are_passed_over() {
    let (orchestrator, _) = drive(vec![Event::Start]);
    let (orchestrator, action) = orchestrator.step(Event::Verification(Some(200)));
    assert_eq!(action, Action::Wait);
    assert_eq!(orchestrator.stage(), Stage::LaunchingLogin);
    let (orchestrator, action) = orchestrator.step(Event::Start);
    assert_eq!(action, Action::Wait);
    assert_eq!(orchestrator.stage(), Stage::LaunchingLogin);

    let (orchestrator, _) = drive(up_to_verifying("u", "p"));
    let (orchestrator, action) = orchestrator.step(done());
    assert_eq!(action, Action::Wait);
    let (orchestrator, action) = orchestrator.step(Event::Policy(Some("{}".to_string())));
    assert_eq!(action, Action::Wait);
    assert_eq!(orchestrator.stage(), Stage::Verifying);
}

#[test]
fn the_two_sessions_are_never_live_together() {
    let mut orchestrator = Orchestrator::new(SERVER, CAPTURE_TIMEOUT_MS);
    let mut events = up_to_running();
    events.push(Event::Interrupted);
    events.push(done());
    for event in events {
        let (next, _) = orchestrator.step(event);
        let (login, browsing) = next.live_sessions();
        assert!(!(login && browsing));
        orchestrator = next;
    }
    assert!(orchestrator.is_finished());
}
