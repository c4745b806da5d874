//! What the server remembers of one client between requests.

use vstd::prelude::*;
use crate::auth::{LoginChallenge, LoginChallengeView};

verus! {

/// The session of one client. It holds at most one identity and at most one pending login.
#[derive(Debug, PartialEq, Eq)]
pub struct Session {
    /// The address of the user who is signed in, if anyone is.
    pub email: Option<String>,
    /// The login that waits for its link, if one does.
    pub pending_login: Option<LoginChallenge>,
}

/// Mathematical value of a [`Session`].
pub struct SessionView {
    pub email: Option<Seq<char>>,
    pub pending_login: Option<LoginChallengeView>,
}

impl View for Session {
    type V = SessionView;

    open spec fn view(&self) -> SessionView {
        SessionView {
            email: match self.email {
                Some(email) => Some(email@),
                None => None,
            },
            pending_login: match self.pending_login {
                Some(pending) => Some(pending@),
                None => None,
            },
        }
    }
}

impl Clone for Session {
    fn clone(&self) -> (copy: Session)
        ensures
            copy@ == self@,
    {
        Session {
            email: self.email.clone(),
            pending_login: match &self.pending_login {
                Some(pending) => Some(pending.clone()),
                None => None,
            },
        }
    }
}

impl SessionView {
    /// The session of a client that the server knows nothing of.
    pub open spec fn empty() -> SessionView {
        SessionView { email: None, pending_login: None }
    }

    /// Whether somebody is signed in.
    pub open spec fn authenticated(self) -> bool {
        self.email is Some
    }
}

impl Session {
    /// The session of a client that the server knows nothing of.
    pub fn new() -> (session: Session)
        ensures
            session@ == SessionView::empty(),
    {
        Session { email: None, pending_login: None }
    }

    /// Whether somebody is signed in.
    pub fn authenticated(&self) -> (yes: bool)
        ensures
            yes == self@.authenticated(),
    {
        self.email.is_some()
    }

    /// Forgets everything: the identity and the pending login.
    pub fn purge(&mut self)
        ensures
            final(self)@ == SessionView::empty(),
    {
        self.email = None;
        self.pending_login = None;
    }
}

} // verus!
