//! The session gate.
//!
//! A session is the ephemeral association between one transport-level
//! session and an authenticated user. It is `Anonymous` (no user) or
//! `Authenticated` (a user is bound); it also remembers the id of the
//! certificate record issued under it, so that a later issuance replaces
//! that record instead of adding one. Sessions live in volatile storage and
//! do not survive a restart.

use vstd::prelude::*;

use crate::model::{user_view, User, UserV};

verus! {

/// The per-session state: the bound user, if any, and the id of the
/// certificate record this session last issued, if any.
pub struct AuthSession {
    pub user: Option<User>,
    pub current_cert_id: Option<i64>,
}

/// Everything a session holds, at spec level.
pub open spec fn session_view(s: AuthSession) -> (Option<UserV>, Option<i64>) {
    (
        match s.user {
            Some(u) => Some(user_view(u)),
            None => None,
        },
        s.current_cert_id,
    )
}

impl AuthSession {
    /// A fresh, anonymous session.
    pub fn new() -> (s: AuthSession)
        ensures
            s.user is None,
            s.current_cert_id is None,
    {
        AuthSession { user: None, current_cert_id: None }
    }

    /// Whether a user is bound to this session.
    pub fn is_authenticated(&self) -> (r: bool)
        ensures
            r == (self.user is Some),
    {
        self.user.is_some()
    }

    /// Bind a user to this session. The session starts over: any certificate
    /// record id remembered under an earlier binding is dropped.
    pub fn login(&mut self, user: User)
        ensures
            final(self).user matches Some(u) && user_view(u) == user_view(user),
            final(self).current_cert_id is None,
    {
        self.user = Some(user);
        self.current_cert_id = None;
    }
}

} // verus!
