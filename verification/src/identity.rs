//! Resolving a credential to the user behind it, creating the user on first
//! sight. Every method that registers users goes through here.

use vstd::prelude::*;
use crate::error::{is_unavailable, Error, StorageError};
use crate::model::{CredentialData, CredentialDataView, CredentialView, User, UserView};
use crate::storage::{CredentialKey, UserStore, UserStoreState};

verus! {

/// The user behind a credential and whether they were created for it.
pub struct Resolved {
    pub user: User,
    pub created: bool,
}

/// What a call that resolves a credential returned, in terms of views.
pub open spec fn resolved_outcome(r: Result<Resolved, Error>) -> Result<(UserView, bool), Error> {
    match r {
        Ok(found) => Ok((found.user@, found.created)),
        Err(e) => Err(e),
    }
}

/// How resolving `key` ends on an available backend: with its owner if it is
/// linked; otherwise with `fresh`, newly created, unless the id of `fresh` is
/// taken.
pub open spec fn resolve_outcome(users: UserStoreState, key: CredentialKey, fresh: UserView) -> Result<
    (UserView, bool),
    Error,
> {
    if users.credentials.contains_key(key) {
        Ok((users.users[users.credentials[key].user_id], false))
    } else if users.users.contains_key(fresh.id) {
        Err(Error::Storage(StorageError::Constraint))
    } else {
        Ok((fresh, true))
    }
}

/// The store after `fresh` was created and `key` linked to them.
pub open spec fn enrolled(
    users: UserStoreState,
    key: CredentialKey,
    fresh: UserView,
    data: CredentialDataView,
) -> UserStoreState {
    users.with_user(fresh).with_credential(key, CredentialView { user_id: fresh.id, data })
}

/// The store after resolving `key` on an available backend: changed only
/// where a user was created.
pub open spec fn after_resolve(
    users: UserStoreState,
    key: CredentialKey,
    fresh: UserView,
    data: CredentialDataView,
) -> UserStoreState {
    if resolve_outcome(users, key, fresh) matches Ok((_, true)) {
        enrolled(users, key, fresh, data)
    } else {
        users
    }
}

/// Enrolling a user keeps a consistent store consistent.
pub proof fn lemma_enrolled_consistent(
    users: UserStoreState,
    key: CredentialKey,
    fresh: UserView,
    data: CredentialDataView,
)
    requires
        users.consistent(),
    ensures
        enrolled(users, key, fresh, data).consistent(),
{
    let after = enrolled(users, key, fresh, data);
    assert forall|k: CredentialKey| #[trigger] after.credentials.contains_key(k) implies
        after.users.contains_key(after.credentials[k].user_id) by {
        if k != key {
            assert(users.credentials.contains_key(k));
        }
    }
    assert forall|id: Seq<char>| #[trigger] after.users.contains_key(id) implies after.users[id].id
        == id by {
        if id != fresh.id {
            assert(users.users.contains_key(id));
        }
    }
}

/// Finds the user that the credential `identifier` of `method` belongs to.
/// Where it is not linked yet, creates a user with the id `user_id` at `now`
/// and links the credential to them with `data`.
///
/// When a backend gives out between the two writes, the user exists without
/// the credential; nothing else is ever left half done.
pub fn find_or_create<U: UserStore>(
    users: &mut U,
    method: &str,
    identifier: &str,
    data: CredentialData,
    user_id: String,
    now: u64,
) -> (r: Result<Resolved, Error>)
    requires
        old(users).inv(),
    ensures
        final(users).inv(),
        final(users).reliable() == old(users).reliable(),
        is_unavailable(r) ==> !old(users).reliable(),
        is_unavailable(r) ==> {
            ||| final(users).state() == old(users).state()
            ||| !old(users).state().users.contains_key(user_id@) && final(users).state() == old(
                users,
            ).state().with_user(UserView { id: user_id@, created_at: now })
        },
        !is_unavailable(r) ==> resolved_outcome(r) == resolve_outcome(
            old(users).state(),
            (method@, identifier@),
            UserView { id: user_id@, created_at: now },
        ),
        !is_unavailable(r) ==> final(users).state() == after_resolve(
            old(users).state(),
            (method@, identifier@),
            UserView { id: user_id@, created_at: now },
            data@,
        ),
{
    match users.find_by_credential(method, identifier) {
        Err(e) => {
            return Err(Error::from_storage(e));
        },
        Ok(Some((owner, _))) => {
            return Ok(Resolved { user: owner, created: false });
        },
        Ok(None) => {},
    }
    let fresh = User { id: user_id, created_at: now };
    match users.create_user(fresh.clone()) {
        Err(e) => {
            return Err(Error::from_storage(e));
        },
        Ok(()) => {},
    }
    match users.link_credential(fresh.id.as_str(), method, identifier, data) {
        Err(e) => {
            // The user was just created and the credential just found
            // absent, so only an unavailable backend ends here.
            Err(Error::from_storage(e))
        },
        Ok(()) => Ok(Resolved { user: fresh, created: true }),
    }
}

} // verus!
