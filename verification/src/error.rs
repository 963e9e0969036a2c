//! The error type of the backend and what each error is answered with.

use vstd::prelude::*;

verus! {

/// Why a request was refused.
#[derive(Debug, Clone)]
pub enum AuthError {
    InvalidCredentials,
    UserAlreadyExists,
    SessionExpired,
    Unauthorized,
    Internal,
    InvalidUsername(String),
    InvalidPassword(String),
}

/// The mathematical form of an [`AuthError`]: messages are taken by their characters.
pub enum AuthErrorView {
    InvalidCredentials,
    UserAlreadyExists,
    SessionExpired,
    Unauthorized,
    Internal,
    InvalidUsername(Seq<char>),
    InvalidPassword(Seq<char>),
}

impl View for AuthError {
    type V = AuthErrorView;

    open spec fn view(&self) -> AuthErrorView {
        match self {
            AuthError::InvalidCredentials => AuthErrorView::InvalidCredentials,
            AuthError::UserAlreadyExists => AuthErrorView::UserAlreadyExists,
            AuthError::SessionExpired => AuthErrorView::SessionExpired,
            AuthError::Unauthorized => AuthErrorView::Unauthorized,
            AuthError::Internal => AuthErrorView::Internal,
            AuthError::InvalidUsername(m) => AuthErrorView::InvalidUsername(m@),
            AuthError::InvalidPassword(m) => AuthErrorView::InvalidPassword(m@),
        }
    }
}

/// A result taken by the view of its error.
pub open spec fn outcome<T>(r: Result<T, AuthError>) -> Result<T, AuthErrorView> {
    match r {
        Ok(v) => Ok(v),
        Err(e) => Err(e@),
    }
}

/// The HTTP status that answers an error.
pub open spec fn spec_status(e: AuthErrorView) -> u16 {
    match e {
        AuthErrorView::InvalidCredentials => 401,
        AuthErrorView::Unauthorized => 401,
        AuthErrorView::SessionExpired => 401,
        AuthErrorView::UserAlreadyExists => 409,
        AuthErrorView::Internal => 500,
        AuthErrorView::InvalidUsername(_) => 400,
        AuthErrorView::InvalidPassword(_) => 400,
    }
}

/// The text that answers an error.
pub open spec fn spec_message(e: AuthErrorView) -> Seq<char> {
    match e {
        AuthErrorView::InvalidCredentials => "invalid credentials"@,
        AuthErrorView::UserAlreadyExists => "user already exists"@,
        AuthErrorView::SessionExpired => "session expired"@,
        AuthErrorView::Unauthorized => "unauthorized"@,
        AuthErrorView::Internal => "internal error"@,
        AuthErrorView::InvalidUsername(m) => "invalid username: "@ + m,
        AuthErrorView::InvalidPassword(m) => "invalid password: "@ + m,
    }
}

impl AuthError {
    /// The HTTP status code of the response to this error.
    pub fn status_code(&self) -> (s: u16)
        ensures
            s == spec_status(self@),
    {
        match self {
            AuthError::InvalidCredentials | AuthError::Unauthorized => 401,
            AuthError::UserAlreadyExists => 409,
            AuthError::SessionExpired => 401,
            AuthError::Internal => 500,
            AuthError::InvalidUsername(_) | AuthError::InvalidPassword(_) => 400,
        }
    }

    /// The body of the response to this error.
    pub fn message(&self) -> (m: String)
        ensures
            m@ == spec_message(self@),
    {
        match self {
            AuthError::InvalidCredentials => String::from_str("invalid credentials"),
            AuthError::UserAlreadyExists => String::from_str("user already exists"),
            AuthError::SessionExpired => String::from_str("session expired"),
            AuthError::Unauthorized => String::from_str("unauthorized"),
            AuthError::Internal => String::from_str("internal error"),
            AuthError::InvalidUsername(detail) => {
                let mut m = String::from_str("invalid username: ");
                m.append(detail.as_str());
                m
            },
            AuthError::InvalidPassword(detail) => {
                let mut m = String::from_str("invalid password: ");
                m.append(detail.as_str());
                m
            },
        }
    }
}

/// Every refusal is answered with a client error (4xx) except an internal
/// failure, which is answered with 500.
pub proof fn lemma_status_classes(e: AuthErrorView)
    ensures
        e is Internal <==> spec_status(e) == 500,
        !(e is Internal) ==> 400 <= spec_status(e) < 500,
        (e is InvalidCredentials || e is Unauthorized || e is SessionExpired) <==> spec_status(e)
            == 401,
{
}

} // verus!
