//! The storage ports: what a backend must do for users, sessions and flow
//! states, whatever it is built on.
//!
//! Each port describes its backend by a mathematical state and says of every
//! call how it answers and how the state moves. A call either succeeds as the
//! state dictates, is refused because it would break a constraint, or fails
//! because the backend is unavailable; a failed or refused call changes
//! nothing. A backend that declares itself `reliable` is never unavailable.
//! Every multi-step operation the core needs is one call, so that a backend
//! can make it atomic.

use vstd::prelude::*;
use crate::crypto::TOKEN_LENGTH;
use crate::error::StorageError;
use crate::model::{
    live_at, spec_deadline, CredentialData, CredentialDataView, CredentialView, FlowEntryView,
    FlowValue, FlowValueView, SchemaStepView, Session, SessionView, User, UserView,
};

verus! {

/// How long, in seconds, a flow state or a challenge may wait for the second
/// half of its attempt.
pub const FLOW_TTL: u64 = 600;

/// Whether some id of the length of a freshly drawn token is a key of `taken`.
/// Only then can a freshly drawn id collide with one that is in use.
pub open spec fn holds_token_id<V>(taken: Map<Seq<char>, V>) -> bool {
    exists|id: Seq<char>| id.len() == TOKEN_LENGTH && #[trigger] taken.contains_key(id)
}

/// How a port call may end: with success only when the call is not `refused`,
/// with `Constraint` only when it is, and with `Unavailable` only on a backend
/// that is not `reliable`.
pub open spec fn port_outcome<T>(r: Result<T, StorageError>, reliable: bool, refused: bool) -> bool {
    match r {
        Ok(_) => !refused,
        Err(StorageError::Constraint) => refused,
        Err(StorageError::Unavailable) => !reliable,
    }
}

/// Whether a passkey whose stored sign counter is `stored` may report
/// `reported`: the counter must have grown, unless the authenticator keeps no
/// counter and both are zero.
pub open spec fn counter_advances(stored: u32, reported: u32) -> bool {
    reported > stored || (stored == 0 && reported == 0)
}

/// The key of a credential: the method that owns it and its identifier
/// within that method (an email, a provider's subject, a passkey id).
pub type CredentialKey = (Seq<char>, Seq<char>);

/// What a user store holds.
pub struct UserStoreState {
    /// The users, by id.
    pub users: Map<Seq<char>, UserView>,
    /// The linked credentials, by method and identifier.
    pub credentials: Map<CredentialKey, CredentialView>,
    /// Every step taken to make room for a method's records, in the order
    /// the steps were taken. Nothing is ever removed from it.
    pub schema_log: Seq<SchemaStepView>,
}

impl UserStoreState {
    /// Every user is filed under their own id, and every credential belongs
    /// to a user of the store.
    pub open spec fn consistent(self) -> bool {
        &&& forall|id: Seq<char>| #[trigger]
            self.users.contains_key(id) ==> self.users[id].id == id
        &&& forall|k: CredentialKey| #[trigger]
            self.credentials.contains_key(k) ==> self.users.contains_key(
                self.credentials[k].user_id,
            )
    }

    /// The credentials linked to the user `id`.
    pub open spec fn credentials_of(self, id: Seq<char>) -> Set<CredentialKey> {
        Set::new(
            |k: CredentialKey| self.credentials.contains_key(k) && self.credentials[k].user_id == id,
        )
    }

    /// The state after one more step was taken and logged.
    pub open spec fn with_step(self, step: SchemaStepView) -> UserStoreState {
        UserStoreState { schema_log: self.schema_log.push(step), ..self }
    }

    /// The state after `user` was filed.
    pub open spec fn with_user(self, user: UserView) -> UserStoreState {
        UserStoreState { users: self.users.insert(user.id, user), ..self }
    }

    /// The state after a credential was linked or overwritten.
    pub open spec fn with_credential(
        self,
        key: CredentialKey,
        credential: CredentialView,
    ) -> UserStoreState {
        UserStoreState { credentials: self.credentials.insert(key, credential), ..self }
    }

    /// Whether `key` is a passkey credential.
    pub open spec fn is_passkey(self, key: CredentialKey) -> bool {
        self.credentials.contains_key(key) && self.credentials[key].data is Passkey
    }

    /// The sign counter stored for the passkey `key`.
    pub open spec fn sign_count(self, key: CredentialKey) -> u32 {
        self.credentials[key].data->sign_count
    }

    /// The state after the passkey `key` reported the counter `count`.
    pub open spec fn with_sign_count(self, key: CredentialKey, count: u32) -> UserStoreState {
        self.with_credential(
            key,
            CredentialView {
                user_id: self.credentials[key].user_id,
                data: CredentialDataView::Passkey {
                    public_key: self.credentials[key].data->public_key,
                    sign_count: count,
                },
            },
        )
    }
}

/// The port for identities and their credentials.
pub trait UserStore {
    /// The backend's own well-formedness.
    spec fn inv(&self) -> bool;

    /// What the backend holds.
    spec fn state(&self) -> UserStoreState;

    /// Whether the backend never answers `Unavailable`.
    spec fn reliable(&self) -> bool;

    /// A well-formed backend holds a consistent state.
    proof fn lemma_consistent(&self)
        requires
            self.inv(),
        ensures
            self.state().consistent(),
    ;

    /// Creates the backing structures of `method` and logs the step.
    fn prepare(&mut self, method: &str) -> (r: Result<(), StorageError>)
        requires
            old(self).inv(),
        ensures
            final(self).inv(),
            final(self).reliable() == old(self).reliable(),
            port_outcome(r, old(self).reliable(), false),
            r is Err ==> final(self).state() == old(self).state(),
            r is Ok ==> final(self).state() == old(self).state().with_step(
                SchemaStepView::Prepared(method@),
            ),
    ;

    /// Brings the backing structures of `method` up to date and logs the
    /// step.
    fn migrate(&mut self, method: &str) -> (r: Result<(), StorageError>)
        requires
            old(self).inv(),
        ensures
            final(self).inv(),
            final(self).reliable() == old(self).reliable(),
            port_outcome(r, old(self).reliable(), false),
            r is Err ==> final(self).state() == old(self).state(),
            r is Ok ==> final(self).state() == old(self).state().with_step(
                SchemaStepView::Migrated(method@),
            ),
    ;

    /// Files a new user. Refused when the id is taken.
    fn create_user(&mut self, user: User) -> (r: Result<(), StorageError>)
        requires
            old(self).inv(),
        ensures
            final(self).inv(),
            final(self).reliable() == old(self).reliable(),
            port_outcome(r, old(self).reliable(), old(self).state().users.contains_key(user.id@)),
            r is Err ==> final(self).state() == old(self).state(),
            r is Ok ==> final(self).state() == old(self).state().with_user(user@),
    ;

    /// Looks a user up by id.
    fn find_by_id(&self, id: &str) -> (r: Result<Option<User>, StorageError>)
        requires
            self.inv(),
        ensures
            port_outcome(r, self.reliable(), false),
            match r {
                Ok(Some(user)) => self.state().users.contains_key(id@) && user@
                    == self.state().users[id@],
                Ok(None) => !self.state().users.contains_key(id@),
                Err(_) => true,
            },
    ;

    /// Looks up the credential `identifier` of `method`, with its owner.
    fn find_by_credential(&self, method: &str, identifier: &str) -> (r: Result<
        Option<(User, CredentialData)>,
        StorageError,
    >)
        requires
            self.inv(),
        ensures
            port_outcome(r, self.reliable(), false),
            match r {
                Ok(Some((user, data))) => {
                    let key = (method@, identifier@);
                    &&& self.state().credentials.contains_key(key)
                    &&& data@ == self.state().credentials[key].data
                    &&& user@ == self.state().users[self.state().credentials[key].user_id]
                },
                Ok(None) => !self.state().credentials.contains_key((method@, identifier@)),
                Err(_) => true,
            },
    ;

    /// Links a credential to a user. Refused when the user is unknown or the
    /// credential is already linked, to this user or another.
    fn link_credential(
        &mut self,
        user_id: &str,
        method: &str,
        identifier: &str,
        data: CredentialData,
    ) -> (r: Result<(), StorageError>)
        requires
            old(self).inv(),
        ensures
            final(self).inv(),
            final(self).reliable() == old(self).reliable(),
            port_outcome(
                r,
                old(self).reliable(),
                !old(self).state().users.contains_key(user_id@)
                    || old(self).state().credentials.contains_key((method@, identifier@)),
            ),
            r is Err ==> final(self).state() == old(self).state(),
            r is Ok ==> final(self).state() == old(self).state().with_credential(
                (method@, identifier@),
                CredentialView { user_id: user_id@, data: data@ },
            ),
    ;

    /// Compares the counter a passkey reported with the stored one and, where
    /// it advances, stores it: one atomic step. Answers whether it advanced.
    /// Refused when `identifier` is no passkey of `method`.
    fn advance_sign_count(&mut self, method: &str, identifier: &str, count: u32) -> (r: Result<
        bool,
        StorageError,
    >)
        requires
            old(self).inv(),
        ensures
            final(self).inv(),
            final(self).reliable() == old(self).reliable(),
            port_outcome(
                r,
                old(self).reliable(),
                !old(self).state().is_passkey((method@, identifier@)),
            ),
            r is Err ==> final(self).state() == old(self).state(),
            match r {
                Ok(advanced) => {
                    let key = (method@, identifier@);
                    &&& advanced == counter_advances(old(self).state().sign_count(key), count)
                    &&& advanced ==> final(self).state() == old(self).state().with_sign_count(
                        key,
                        count,
                    )
                    &&& !advanced ==> final(self).state() == old(self).state()
                },
                Err(_) => true,
            },
    ;
}

/// What a session store holds: the sessions, by id.
pub type SessionStoreState = Map<Seq<char>, SessionView>;

/// Every session is filed under its own id.
pub open spec fn sessions_consistent(sessions: SessionStoreState) -> bool {
    forall|id: Seq<char>| #[trigger] sessions.contains_key(id) ==> sessions[id].id == id
}

/// The sessions of `sessions` that are still good at `now`.
pub open spec fn live_sessions(sessions: SessionStoreState, now: u64) -> SessionStoreState {
    sessions.restrict(
        Set::new(|id: Seq<char>| sessions.contains_key(id) && live_at(sessions[id].expires_at, now)),
    )
}

/// The port for sessions.
pub trait SessionStore {
    /// The backend's own well-formedness.
    spec fn inv(&self) -> bool;

    /// What the backend holds.
    spec fn state(&self) -> SessionStoreState;

    /// Whether the backend never answers `Unavailable`.
    spec fn reliable(&self) -> bool;

    /// A well-formed backend holds a consistent state.
    proof fn lemma_consistent(&self)
        requires
            self.inv(),
        ensures
            sessions_consistent(self.state()),
    ;

    /// Files a new session. Refused when the id is taken.
    fn create_session(&mut self, session: Session) -> (r: Result<(), StorageError>)
        requires
            old(self).inv(),
        ensures
            final(self).inv(),
            final(self).reliable() == old(self).reliable(),
            port_outcome(r, old(self).reliable(), old(self).state().contains_key(session.id@)),
            r is Err ==> final(self).state() == old(self).state(),
            r is Ok ==> final(self).state() == old(self).state().insert(session.id@, session@),
    ;

    /// Looks a session up by id, expired or not.
    fn find_session(&self, id: &str) -> (r: Result<Option<Session>, StorageError>)
        requires
            self.inv(),
        ensures
            port_outcome(r, self.reliable(), false),
            match r {
                Ok(Some(session)) => self.state().contains_key(id@) && session@
                    == self.state()[id@],
                Ok(None) => !self.state().contains_key(id@),
                Err(_) => true,
            },
    ;

    /// Deletes the session `id`, if there is one.
    fn delete_session(&mut self, id: &str) -> (r: Result<(), StorageError>)
        requires
            old(self).inv(),
        ensures
            final(self).inv(),
            final(self).reliable() == old(self).reliable(),
            port_outcome(r, old(self).reliable(), false),
            r is Err ==> final(self).state() == old(self).state(),
            r is Ok ==> final(self).state() == old(self).state().remove(id@),
    ;

    /// Deletes every session that has expired at `now`.
    fn delete_expired(&mut self, now: u64) -> (r: Result<(), StorageError>)
        requires
            old(self).inv(),
        ensures
            final(self).inv(),
            final(self).reliable() == old(self).reliable(),
            port_outcome(r, old(self).reliable(), false),
            r is Err ==> final(self).state() == old(self).state(),
            r is Ok ==> final(self).state() == live_sessions(old(self).state(), now),
    ;
}

/// What a flow store holds: the flow states, by key.
pub type FlowStoreState = Map<Seq<char>, FlowEntryView>;

/// The flow states of `flows` that are still good at `now`.
pub open spec fn live_flows(flows: FlowStoreState, now: u64) -> FlowStoreState {
    flows.restrict(
        Set::new(|key: Seq<char>| flows.contains_key(key) && live_at(flows[key].expires_at, now)),
    )
}

/// What `take` hands out for `key` at `now`: the value, if it is there and
/// has not lapsed.
pub open spec fn taken(flows: FlowStoreState, key: Seq<char>, now: u64) -> Option<FlowValueView> {
    if flows.contains_key(key) && live_at(flows[key].expires_at, now) {
        Some(flows[key].value)
    } else {
        None
    }
}

/// The port for the short-lived state between the two halves of a login
/// attempt: OAuth flow states and passkey challenges.
pub trait FlowStore {
    /// The backend's own well-formedness.
    spec fn inv(&self) -> bool;

    /// What the backend holds.
    spec fn state(&self) -> FlowStoreState;

    /// Whether the backend never answers `Unavailable`.
    spec fn reliable(&self) -> bool;

    /// Stores `value` under `key` from `now` for `ttl` seconds, replacing
    /// whatever was there.
    fn put(&mut self, key: &str, value: FlowValue, now: u64, ttl: u64) -> (r: Result<
        (),
        StorageError,
    >)
        requires
            old(self).inv(),
        ensures
            final(self).inv(),
            final(self).reliable() == old(self).reliable(),
            port_outcome(r, old(self).reliable(), false),
            r is Err ==> final(self).state() == old(self).state(),
            r is Ok ==> final(self).state() == old(self).state().insert(
                key@,
                FlowEntryView {
                    value: value@,
                    created_at: now,
                    expires_at: spec_deadline(now, ttl),
                },
            ),
    ;

    /// Removes whatever is stored under `key` and hands it out if it has not
    /// lapsed at `now`: one atomic step, so that of two calls for one key at
    /// most one is handed the value.
    fn take(&mut self, key: &str, now: u64) -> (r: Result<Option<FlowValue>, StorageError>)
        requires
            old(self).inv(),
        ensures
            final(self).inv(),
            final(self).reliable() == old(self).reliable(),
            port_outcome(r, old(self).reliable(), false),
            r is Err ==> final(self).state() == old(self).state(),
            match r {
                Ok(found) => {
                    &&& final(self).state() == old(self).state().remove(key@)
                    &&& match found {
                        Some(value) => Some(value@) == taken(old(self).state(), key@, now),
                        None => taken(old(self).state(), key@, now) is None,
                    }
                },
                Err(_) => true,
            },
    ;

    /// Removes every flow state that has lapsed at `now`.
    fn purge_expired(&mut self, now: u64) -> (r: Result<(), StorageError>)
        requires
            old(self).inv(),
        ensures
            final(self).inv(),
            final(self).reliable() == old(self).reliable(),
            port_outcome(r, old(self).reliable(), false),
            r is Err ==> final(self).state() == old(self).state(),
            r is Ok ==> final(self).state() == live_flows(old(self).state(), now),
    ;
}

} // verus!
