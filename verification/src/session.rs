//! Sessions: issued after any method authenticated a user, validated on
//! every request, revoked on logout, and reaped once they have expired.

use vstd::prelude::*;
use crate::crypto::{random_token, TOKEN_LENGTH};
use crate::error::{is_unavailable, Error, StorageError};
use crate::model::{clone_opt, deadline, live_at, opt_view, spec_deadline, Session, SessionView};
use crate::storage::{
    holds_token_id, live_sessions, SessionStore, SessionStoreState, UserStore, UserStoreState,
};

verus! {

/// What a call that hands out a session returned, in terms of views.
pub open spec fn session_outcome(r: Result<Session, Error>) -> Result<SessionView, Error> {
    match r {
        Ok(session) => Ok(session@),
        Err(e) => Err(e),
    }
}

/// Every session belongs to a user of the user store.
pub open spec fn sessions_reference_users(
    sessions: SessionStoreState,
    users: UserStoreState,
) -> bool {
    forall|id: Seq<char>| #[trigger]
        sessions.contains_key(id) ==> users.users.contains_key(sessions[id].user_id)
}

/// How issuing `session` ends on available backends: it is refused when its
/// user is unknown or its id is taken, and stored otherwise.
pub open spec fn issue_outcome(
    users: UserStoreState,
    sessions: SessionStoreState,
    session: SessionView,
) -> Result<SessionView, Error> {
    if !users.users.contains_key(session.user_id) || sessions.contains_key(session.id) {
        Err(Error::Storage(StorageError::Constraint))
    } else {
        Ok(session)
    }
}

/// How validating `id` at `now` ends on an available backend.
pub open spec fn validate_outcome(sessions: SessionStoreState, id: Seq<char>, now: u64) -> Result<
    SessionView,
    Error,
> {
    if !sessions.contains_key(id) {
        Err(Error::SessionNotFound)
    } else if !live_at(sessions[id].expires_at, now) {
        Err(Error::SessionExpired)
    } else {
        Ok(sessions[id])
    }
}

/// Issues and checks sessions with a fixed lifetime.
#[derive(Clone, Copy, Debug)]
pub struct SessionManager {
    ttl: u64,
}

impl SessionManager {
    /// A manager whose sessions last `ttl` seconds.
    pub fn new(ttl: u64) -> (manager: Self)
        ensures
            manager.spec_ttl() == ttl,
    {
        SessionManager { ttl }
    }

    /// The lifetime of a session, in seconds.
    pub closed spec fn spec_ttl(&self) -> u64 {
        self.ttl
    }

    /// The lifetime of a session, in seconds.
    pub fn ttl(&self) -> (ttl: u64)
        ensures
            ttl == self.spec_ttl(),
    {
        self.ttl
    }

    /// The session that this manager issues at `now` under the id `token`.
    pub open spec fn session_for(
        &self,
        token: Seq<char>,
        user_id: Seq<char>,
        method: Option<Seq<char>>,
        now: u64,
    ) -> SessionView {
        SessionView {
            id: token,
            user_id,
            created_at: now,
            expires_at: spec_deadline(now, self.spec_ttl()),
            method,
        }
    }

    /// Issues a session for `user_id` under the id `token`, which the caller
    /// has drawn. The session is stored only if the user exists and the id
    /// is free.
    pub fn issue<U: UserStore, S: SessionStore>(
        &self,
        users: &U,
        sessions: &mut S,
        user_id: &str,
        token: String,
        method: &Option<String>,
        now: u64,
    ) -> (r: Result<Session, Error>)
        requires
            users.inv(),
            old(sessions).inv(),
        ensures
            final(sessions).inv(),
            final(sessions).reliable() == old(sessions).reliable(),
            is_unavailable(r) ==> !(users.reliable() && old(sessions).reliable()),
            !is_unavailable(r) ==> session_outcome(r) == issue_outcome(
                users.state(),
                old(sessions).state(),
                self.session_for(token@, user_id@, opt_view(*method), now),
            ),
            r is Err ==> final(sessions).state() == old(sessions).state(),
            r is Ok ==> final(sessions).state() == old(sessions).state().insert(
                token@,
                self.session_for(token@, user_id@, opt_view(*method), now),
            ),
    {
        match users.find_by_id(user_id) {
            Err(e) => {
                return Err(Error::from_storage(e));
            },
            Ok(None) => {
                return Err(Error::Storage(StorageError::Constraint));
            },
            Ok(Some(_)) => {},
        }
        let session = Session {
            id: token,
            user_id: user_id.to_owned(),
            created_at: now,
            expires_at: deadline(now, self.ttl),
            method: clone_opt(method),
        };
        match sessions.create_session(session.clone()) {
            Err(e) => Err(Error::from_storage(e)),
            Ok(()) => Ok(session),
        }
    }

    /// Issues a session for `user_id` under a freshly drawn, unguessable id.
    /// Whatever id was drawn, a stored session is exactly the one this
    /// manager issues at `now`, and nothing is stored on failure. The call
    /// is refused only for an unknown user or because the drawn id is taken,
    /// which takes a session under an id of that length.
    pub fn create<U: UserStore, S: SessionStore>(
        &self,
        users: &U,
        sessions: &mut S,
        user_id: &str,
        method: &Option<String>,
        now: u64,
    ) -> (r: Result<Session, Error>)
        requires
            users.inv(),
            old(sessions).inv(),
        ensures
            final(sessions).inv(),
            final(sessions).reliable() == old(sessions).reliable(),
            is_unavailable(r) ==> !(users.reliable() && old(sessions).reliable()),
            !users.state().users.contains_key(user_id@) ==> r is Err,
            match r {
                Ok(session) => {
                    &&& session@ == self.session_for(session.id@, user_id@, opt_view(*method), now)
                    &&& session.id@.len() == TOKEN_LENGTH
                    &&& users.state().users.contains_key(user_id@)
                    &&& !old(sessions).state().contains_key(session.id@)
                    &&& final(sessions).state() == old(sessions).state().insert(
                        session.id@,
                        session@,
                    )
                },
                Err(e) => {
                    &&& final(sessions).state() == old(sessions).state()
                    &&& e is Storage
                    &&& e == Error::Storage(StorageError::Constraint) ==> {
                        ||| !users.state().users.contains_key(user_id@)
                        ||| holds_token_id(old(sessions).state())
                    }
                },
            },
    {
        let token = random_token(TOKEN_LENGTH);
        self.issue(users, sessions, user_id, token, method, now)
    }

    /// Checks that `session_id` names a session that has not expired at
    /// `now`. An expired session is deleted on the way.
    pub fn validate<S: SessionStore>(&self, sessions: &mut S, session_id: &str, now: u64) -> (r:
        Result<Session, Error>)
        requires
            old(sessions).inv(),
        ensures
            final(sessions).inv(),
            final(sessions).reliable() == old(sessions).reliable(),
            is_unavailable(r) ==> !old(sessions).reliable(),
            !is_unavailable(r) ==> session_outcome(r) == validate_outcome(
                old(sessions).state(),
                session_id@,
                now,
            ),
            r matches Err(Error::SessionExpired) ==> final(sessions).state() == old(
                sessions,
            ).state().remove(session_id@),
            !(r matches Err(Error::SessionExpired)) ==> final(sessions).state() == old(
                sessions,
            ).state(),
    {
        match sessions.find_session(session_id) {
            Err(e) => Err(Error::from_storage(e)),
            Ok(None) => Err(Error::SessionNotFound),
            Ok(Some(session)) => {
                if session.expires_at <= now {
                    match sessions.delete_session(session_id) {
                        Err(e) => Err(Error::from_storage(e)),
                        Ok(()) => Err(Error::SessionExpired),
                    }
                } else {
                    Ok(session)
                }
            },
        }
    }

    /// Deletes the session `session_id`, whether or not it exists or has
    /// expired.
    pub fn revoke<S: SessionStore>(&self, sessions: &mut S, session_id: &str) -> (r: Result<
        (),
        Error,
    >)
        requires
            old(sessions).inv(),
        ensures
            final(sessions).inv(),
            final(sessions).reliable() == old(sessions).reliable(),
            old(sessions).reliable() ==> r is Ok,
            r is Ok ==> final(sessions).state() == old(sessions).state().remove(session_id@),
            r is Err ==> is_unavailable(r) && final(sessions).state() == old(sessions).state(),
    {
        match sessions.delete_session(session_id) {
            Err(e) => Err(Error::from_storage(e)),
            Ok(()) => Ok(()),
        }
    }

    /// Deletes every session that has expired at `now`. Validation does not
    /// depend on it.
    pub fn sweep<S: SessionStore>(&self, sessions: &mut S, now: u64) -> (r: Result<(), Error>)
        requires
            old(sessions).inv(),
        ensures
            final(sessions).inv(),
            final(sessions).reliable() == old(sessions).reliable(),
            old(sessions).reliable() ==> r is Ok,
            r is Ok ==> final(sessions).state() == live_sessions(old(sessions).state(), now),
            r is Err ==> is_unavailable(r) && final(sessions).state() == old(sessions).state(),
    {
        match sessions.delete_expired(now) {
            Err(e) => Err(Error::from_storage(e)),
            Ok(()) => Ok(()),
        }
    }
}

/// A session whose expiry has passed does not validate: the answer is
/// `SessionExpired`.
pub proof fn lemma_expired_session_is_refused(sessions: SessionStoreState, id: Seq<char>, now: u64)
    requires
        sessions.contains_key(id),
        sessions[id].expires_at <= now,
    ensures
        validate_outcome(sessions, id, now) == Err::<SessionView, Error>(Error::SessionExpired),
{
}

/// A session that was deleted does not validate: the answer is
/// `SessionNotFound`, whether it had expired or not.
pub proof fn lemma_deleted_session_is_not_found(
    sessions: SessionStoreState,
    id: Seq<char>,
    now: u64,
)
    ensures
        validate_outcome(sessions.remove(id), id, now) == Err::<SessionView, Error>(
            Error::SessionNotFound,
        ),
{
}

/// A session that was issued validates, as issued, at every moment before
/// its expiry.
pub proof fn lemma_issued_session_validates(
    users: UserStoreState,
    sessions: SessionStoreState,
    session: SessionView,
    now: u64,
)
    requires
        issue_outcome(users, sessions, session) is Ok,
        now < session.expires_at,
    ensures
        validate_outcome(sessions.insert(session.id, session), session.id, now) == Ok::<
            SessionView,
            Error,
        >(session),
{
}

/// Issuing a session keeps every session bound to an existing user.
pub proof fn lemma_issue_keeps_references(
    users: UserStoreState,
    sessions: SessionStoreState,
    session: SessionView,
)
    requires
        sessions_reference_users(sessions, users),
        issue_outcome(users, sessions, session) is Ok,
    ensures
        sessions_reference_users(sessions.insert(session.id, session), users),
{
    let after = sessions.insert(session.id, session);
    assert forall|id: Seq<char>| #[trigger] after.contains_key(id) implies users.users.contains_key(
        after[id].user_id,
    ) by {
        if id != session.id {
            assert(sessions.contains_key(id));
        }
    }
}

/// Deleting sessions, one or all the expired ones, keeps every remaining
/// session bound to an existing user.
pub proof fn lemma_removal_keeps_references(
    users: UserStoreState,
    sessions: SessionStoreState,
    id: Seq<char>,
    now: u64,
)
    requires
        sessions_reference_users(sessions, users),
    ensures
        sessions_reference_users(sessions.remove(id), users),
        sessions_reference_users(live_sessions(sessions, now), users),
{
    let removed = sessions.remove(id);
    assert forall|k: Seq<char>| #[trigger] removed.contains_key(k) implies users.users.contains_key(
        removed[k].user_id,
    ) by {
        assert(sessions.contains_key(k));
    }
    let live = live_sessions(sessions, now);
    assert forall|k: Seq<char>| #[trigger] live.contains_key(k) implies users.users.contains_key(
        live[k].user_id,
    ) by {
        assert(sessions.contains_key(k));
    }
}

} // verus!
