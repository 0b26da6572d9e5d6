//! Capturing credentials through a login form.
//!
//! The login session shows [`LOGIN_FORM`] in a fresh page and evaluates
//! [`CAPTURE_SCRIPT`] in it.  The script settles when the form is
//! submitted, with the submitted username and password as its value.

use crate::credentials::{capture_outcome, Credentials, CredentialsView};
use crate::error::SessionError;
use crate::protocol::{Evaluation, EvaluationView};
use vstd::prelude::*;

verus! {

/// The address of the empty page in which each session starts.
pub const BLANK_PAGE: &'static str = "about:blank";

/// The login form: a username field, a password field and a submit button.
pub const LOGIN_FORM: &'static str = "<!DOCTYPE html>
<html>
<head>
    <title>Login</title>
    <style>
        body {
            font-family: Arial, sans-serif;
            display: flex;
            justify-content: center;
            align-items: center;
            height: 100vh;
            margin: 0;
            background-color: #f0f0f0;
        }
        .login-form {
            background: white;
            padding: 20px;
            border-radius: 8px;
            box-shadow: 0 2px 4px rgba(0,0,0,0.1);
        }
        input {
            display: block;
            margin: 10px 0;
            padding: 8px;
            width: 200px;
        }
        button {
            background: #4CAF50;
            color: white;
            border: none;
            padding: 10px;
            width: 100%;
            border-radius: 4px;
            cursor: pointer;
        }
        button:hover {
            background: #45a049;
        }
    </style>
</head>
<body>
    <div class=\"login-form\">
        <h2>Login</h2>
        <form id=\"loginForm\">
            <input type=\"text\" id=\"username\" placeholder=\"Username\" required>
            <input type=\"password\" id=\"password\" placeholder=\"Password\" required>
            <button type=\"submit\">Login</button>
        </form>
    </div>
</body>
</html>
";

/// The script that captures a submission.  It keeps the form from
/// navigating away, and settles, once the form is submitted, with an object
/// that holds the two field values as `username` and `password`.
pub const CAPTURE_SCRIPT: &'static str = "new Promise((resolve) => {
    const form = document.getElementById('loginForm');
    form.addEventListener('submit', (e) => {
        e.preventDefault();
        const username = document.getElementById('username').value;
        const password = document.getElementById('password').value;
        resolve({ username, password });
    });
})";

/// What capturing yields for each way in which the evaluation of the
/// capture script can end: the submitted credentials when the script
/// settled with them, `MalformedCredentials` when it settled with anything
/// else or with nothing, `NoSubmission` when nobody submitted the form in
/// time, and `EvalFailed` when the script could not be evaluated.
pub open spec fn submission(evaluation: EvaluationView) -> Result<CredentialsView, SessionError> {
    match evaluation {
        EvaluationView::Settled(Some(text)) => capture_outcome(text),
        EvaluationView::Settled(None) => Err(SessionError::MalformedCredentials),
        EvaluationView::TimedOut => Err(SessionError::NoSubmission),
        EvaluationView::Failed => Err(SessionError::EvalFailed),
    }
}

/// Reads the submitted credentials out of the way in which the evaluation
/// of the capture script ended.
pub fn capture_submission(evaluation: &Evaluation) -> (r: Result<Credentials, SessionError>)
    ensures
        match r {
            Ok(credentials) => submission(evaluation@) == Ok::<_, SessionError>(credentials@),
            Err(e) => submission(evaluation@) == Err::<CredentialsView, _>(e),
        },
{
    match evaluation {
        Evaluation::Settled(Some(text)) => Credentials::from_json_text(text.as_str()),
        Evaluation::Settled(None) => Err(SessionError::MalformedCredentials),
        Evaluation::TimedOut => Err(SessionError::NoSubmission),
        Evaluation::Failed => Err(SessionError::EvalFailed),
    }
}

} // verus!
