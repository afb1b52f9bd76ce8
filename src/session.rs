//! User sessions and the store that holds the current one.
use vstd::prelude::*;

use crate::error::ClientError;

verus! {

/// The credentials issued by the homeserver after a successful login or
/// registration.
#[derive(Debug)]
pub struct Session {
    /// The access token used for this session.
    pub access_token: String,
    /// The ID of the device used for this session.
    pub device_id: String,
    /// The user the access token was issued for.
    pub user_id: String,
}

impl Session {
    pub open spec fn view(&self) -> (Seq<char>, Seq<char>, Seq<char>) {
        (self.access_token@, self.device_id@, self.user_id@)
    }
}

impl Clone for Session {
    fn clone(&self) -> (r: Self)
        ensures
            r@ == self@,
    {
        Session {
            access_token: self.access_token.clone(),
            device_id: self.device_id.clone(),
            user_id: self.user_id.clone(),
        }
    }
}

/// Holds at most one current session.
///
/// Reads hand out a copy; writes replace the stored session whole. Sharing one
/// store between tasks is done by guarding it with a lock.
#[derive(Debug)]
pub struct SessionStore {
    current: Option<Session>,
}

impl SessionStore {
    /// The session that the store holds, if any.
    pub closed spec fn view(&self) -> Option<(Seq<char>, Seq<char>, Seq<char>)> {
        session_view(self.current)
    }

    /// A store holding `session`, which restores an earlier session when given.
    pub fn new(session: Option<Session>) -> (r: SessionStore)
        ensures
            r@ == session_view(session),
    {
        SessionStore { current: session }
    }

    /// A copy of the current session, if any.
    pub fn get(&self) -> (r: Option<Session>)
        ensures
            session_view(r) == self@,
    {
        match &self.current {
            Some(s) => Some(s.clone()),
            None => None,
        }
    }

    /// Replaces the stored session with `session`.
    pub fn set(&mut self, session: Session)
        ensures
            final(self)@ == Some(session@),
    {
        self.current = Some(session);
    }

    /// Takes the outcome of a login or registration: a session that was
    /// issued becomes the current one and is handed back; an error is handed
    /// back and leaves the store as it was.
    pub fn record(&mut self, outcome: Result<Session, ClientError>) -> (r: Result<Session, ClientError>)
        ensures
            match outcome {
                Ok(s) => final(self)@ == Some(s@) && r is Ok && r->Ok_0@ == s@,
                Err(_) => final(self)@ == old(self)@ && r == outcome,
            },
    {
        match outcome {
            Ok(session) => {
                self.set(session.clone());
                Ok(session)
            },
            Err(e) => Err(e),
        }
    }
}

/// The view of an optional session.
pub open spec fn session_view(s: Option<Session>) -> Option<(Seq<char>, Seq<char>, Seq<char>)> {
    match s {
        Some(s) => Some(s@),
        None => None,
    }
}

/// Reading the store twice with no write in between gives the same session
/// both times.
pub proof fn lemma_reads_agree(store: SessionStore, first: Option<Session>, second: Option<Session>)
    requires
        session_view(first) == store@,
        session_view(second) == store@,
    ensures
        session_view(first) == session_view(second),
{
}

} // verus!
