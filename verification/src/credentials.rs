//! The credentials that a person submits through the login form.

use crate::error::SessionError;
use crate::json::{json_document, parse, JsonModel, JsonValue};
use vstd::prelude::*;

verus! {

/// A username and a password, as submitted.  They are handed to the remote
/// authority once and never stored.
#[derive(Debug, PartialEq, Eq)]
pub struct Credentials {
    pub username: String,
    pub password: String,
}

/// The mathematical view of [`Credentials`].
pub ghost struct CredentialsView {
    pub username: Seq<char>,
    pub password: Seq<char>,
}

impl View for Credentials {
    type V = CredentialsView;

    open spec fn view(&self) -> CredentialsView {
        CredentialsView { username: self.username@, password: self.password@ }
    }
}

impl Clone for Credentials {
    fn clone(&self) -> (copy: Self)
        ensures
            copy@ == self@,
    {
        Credentials { username: self.username.clone(), password: self.password.clone() }
    }
}

/// The credentials that a captured document holds: it must be an object of
/// exactly two members, a string called `username` and a string called
/// `password`.
pub open spec fn captured_credentials(document: JsonModel) -> Option<CredentialsView> {
    if document.member_count() == Some(2nat) {
        match (document.text_member("username"@), document.text_member("password"@)) {
            (Some(username), Some(password)) => Some(CredentialsView { username, password }),
            _ => None,
        }
    } else {
        None
    }
}

/// What capturing yields for a text handed over by the login page: the
/// credentials that it denotes, or `MalformedCredentials`.
pub open spec fn capture_outcome(text: Seq<char>) -> Result<CredentialsView, SessionError> {
    match json_document(text) {
        Some(document) => match captured_credentials(document) {
            Some(credentials) => Ok(credentials),
            None => Err(SessionError::MalformedCredentials),
        },
        None => Err(SessionError::MalformedCredentials),
    }
}

impl Credentials {
    /// Puts a username and a password together.
    pub fn new(username: String, password: String) -> (credentials: Credentials)
        ensures
            credentials@ == (CredentialsView { username: username@, password: password@ }),
    {
        Credentials { username, password }
    }

    /// Reads the credentials out of a captured document.
    ///
    /// The document is accepted exactly when it is an object with the two
    /// string members `username` and `password` and nothing else; every
    /// other document is `MalformedCredentials`.
    pub fn from_json(document: &JsonValue) -> (r: Result<Credentials, SessionError>)
        ensures
            match r {
                Ok(credentials) => captured_credentials(document@) == Some(credentials@),
                Err(e) => e == SessionError::MalformedCredentials && captured_credentials(
                    document@,
                ) is None,
            },
    {
        match document.member_count() {
            Some(2) => {},
            _ => {
                return Err(SessionError::MalformedCredentials);
            },
        }
        let username_key = "username".to_owned();
        let password_key = "password".to_owned();
        match (document.text_member(&username_key), document.text_member(&password_key)) {
            (Some(username), Some(password)) => Ok(
                Credentials { username: username.clone(), password: password.clone() },
            ),
            _ => Err(SessionError::MalformedCredentials),
        }
    }

    /// Reads the credentials out of the JSON text that the login page handed
    /// over.
    pub fn from_json_text(text: &str) -> (r: Result<Credentials, SessionError>)
        ensures
            match r {
                Ok(credentials) => capture_outcome(text@) == Ok::<_, SessionError>(credentials@),
                Err(e) => capture_outcome(text@) == Err::<CredentialsView, _>(e),
            },
    {
        match parse(text) {
            Some(document) => Credentials::from_json(&document),
            None => Err(SessionError::MalformedCredentials),
        }
    }
}

} // verus!
