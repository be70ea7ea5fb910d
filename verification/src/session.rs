//! The state of a logged-in web session.

use vstd::prelude::*;
use crate::types::{has_session_cookie, is_session_cookie};

verus! {

/// The cookies and token of a logged-in session, with the user it belongs to.
#[derive(Debug, Clone)]
pub struct ClientSession {
    pub username: String,
    pub session_cookies: Vec<String>,
    pub csrf_token: Option<String>,
    pub base_url: String,
}

impl ClientSession {
    /// Builds a session from its parts.
    pub fn new(
        username: String,
        session_cookies: Vec<String>,
        csrf_token: Option<String>,
        base_url: String,
    ) -> (res: Self)
        ensures
            res.username == username,
            res.session_cookies == session_cookies,
            res.csrf_token == csrf_token,
            res.base_url == base_url,
    {
        ClientSession { username, session_cookies, csrf_token, base_url }
    }

    /// Whether the session looks usable: a user name, a CSRF token and a session cookie.
    pub fn is_valid(&self) -> (res: bool)
        ensures
            res == (self.username@.len() > 0 && self.session_cookies@.len() > 0 && self.csrf_token is Some
                && exists|i: int|
                0 <= i < self.session_cookies@.len() && is_session_cookie(#[trigger] self.session_cookies@[i]@)),
    {
        !self.username.as_str().is_empty() && self.session_cookies.len() > 0 && self.csrf_token.is_some()
            && has_session_cookie(&self.session_cookies)
    }
}

} // verus!
