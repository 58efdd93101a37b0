//! The authorization gate and the login flow decisions.
//!
//! Every protected page applies the same three-way decision derived from
//! the per-request identity view, and the login handler's follow-up to an
//! authentication attempt is a pure function of the attempt's outcome and
//! the requested return path.

use vstd::prelude::*;
use vstd::string::StringExecFns;
use crate::models::UserState;
use crate::text::str_eq;

verus! {

/// Query parameter carrying the path to return to after login.
#[derive(Debug, Clone)]
pub struct RedirectQuery {
    pub next: Option<String>,
}

/// What a protected page does with a request before any work: proceed,
/// send the visitor to the login page, or refuse outright.
#[derive(Debug, Clone)]
pub enum AccessDecision {
    Proceed,
    RedirectToLogin,
    Forbidden,
}

/// Decides what a protected route does with a request: anonymous visitors
/// go to the login page, authenticated non-admins are refused, and admins
/// may proceed.
pub fn page_access(state: &UserState) -> (d: AccessDecision)
    ensures
        !state.is_authenticated ==> d is RedirectToLogin,
        state.is_authenticated && !state.is_admin ==> d is Forbidden,
        state.is_authenticated && state.is_admin ==> d is Proceed,
{
    if !state.is_authenticated {
        AccessDecision::RedirectToLogin
    } else if !state.is_admin {
        AccessDecision::Forbidden
    } else {
        AccessDecision::Proceed
    }
}

/// A redirect target is safe when it is a site-relative path: it must
/// begin with `/` but not with `//`, which would leave the site.
pub open spec fn spec_redirect_ok(s: Seq<char>) -> bool {
    s.len() >= 1 && s[0] == '/' && !(s.len() >= 2 && s[1] == '/')
}

/// Runtime test for `spec_redirect_ok`.
pub fn validate_redirect_url(url: &str) -> (r: bool)
    ensures
        r == spec_redirect_ok(url@),
{
    let len = url.unicode_len();
    if len == 0 {
        return false;
    }
    if url.get_char(0) != '/' {
        return false;
    }
    if len >= 2 && url.get_char(1) == '/' {
        return false;
    }
    true
}

/// The path a successful login lands on: the requested one when it is a
/// safe site-relative path, the fixed product listing otherwise.
pub open spec fn spec_safe_redirect(query: Option<Seq<char>>) -> Seq<char> {
    match query {
        Some(u) => if spec_redirect_ok(u) {
            u
        } else {
            "/products"@
        },
        None => "/products"@,
    }
}

/// Picks the landing path for a requested redirect target.
pub fn get_safe_redirect_url(query: Option<String>) -> (r: String)
    ensures
        r@ == spec_safe_redirect(match query {
            Some(u) => Some(u@),
            None => None,
        }),
{
    match query {
        Some(url) => {
            if validate_redirect_url(url.as_str()) {
                url
            } else {
                String::from_str("/products")
            }
        },
        None => String::from_str("/products"),
    }
}

/// The outcome of one authentication attempt, as seen by the login
/// handler: the backend found and verified the user and the session
/// binding either took or failed, or the credentials were refused, or the
/// backend itself faulted.
#[derive(Debug, Clone)]
pub enum LoginAttempt {
    Authenticated { session_ok: bool },
    BadCredentials,
    BackendFault,
}

/// What the login handler does next: redirect to a landing path, or show
/// the login page again with an error message.
#[derive(Debug, Clone)]
pub enum LoginAction {
    Redirect(String),
    ShowError(String),
}

/// The login handler's follow-up to an authentication attempt: a verified
/// user with a bound session is redirected to the safe landing path; every
/// failure shows the login page again with its own message.
pub fn login_action(attempt: &LoginAttempt, next: Option<String>) -> (r: LoginAction)
    ensures
        (attempt matches LoginAttempt::Authenticated { session_ok: true }) ==> (r matches
            LoginAction::Redirect(u) && u@ == spec_safe_redirect(match next {
            Some(n) => Some(n@),
            None => None,
        })),
        (attempt matches LoginAttempt::Authenticated { session_ok: false }) ==> (r matches
            LoginAction::ShowError(m) && m@ == "Internal error"@),
        (attempt is BadCredentials) ==> (r matches LoginAction::ShowError(m) && m@
            == "Bad credentials"@),
        (attempt is BackendFault) ==> (r matches LoginAction::ShowError(m) && m@
            == "Server error"@),
{
    match attempt {
        LoginAttempt::Authenticated { session_ok } => {
            if *session_ok {
                LoginAction::Redirect(get_safe_redirect_url(next))
            } else {
                LoginAction::ShowError(String::from_str("Internal error"))
            }
        },
        LoginAttempt::BadCredentials => LoginAction::ShowError(String::from_str("Bad credentials")),
        LoginAttempt::BackendFault => LoginAction::ShowError(String::from_str("Server error")),
    }
}

/// The "show completed" query flag is on exactly when the parameter is the
/// string `true`; anything else, or no parameter, leaves it off.
pub fn show_completed_flag(param: Option<&String>) -> (r: bool)
    ensures
        r == match param {
            Some(p) => p@ == "true"@,
            None => false,
        },
{
    match param {
        Some(p) => str_eq(p.as_str(), "true"),
        None => false,
    }
}

} // verus!
