//! The password method: an email and a password, the password kept only as
//! a salted, memory-hard hash.

use vstd::prelude::*;
use crate::crypto::{
    has_bounded_parameters, hash_password, parameters_bounded, password_verifies, random_token,
    verify_password, MAX_PASSWORD_BYTES, TOKEN_LENGTH,
};
use crate::error::{fails_with, is_unavailable, Error, StorageError};
use crate::identity::{after_resolve, enrolled, find_or_create, resolve_outcome};
use crate::model::{user_outcome, CredentialData, CredentialDataView, User, UserView};
use crate::storage::{holds_token_id, CredentialKey, UserStore, UserStoreState};

verus! {

/// The name under which the password method registers and files its
/// credentials.
pub const PASSWORD_METHOD: &'static str = "password";

/// The key of the password credential of `email`.
pub open spec fn password_key(email: Seq<char>) -> CredentialKey {
    (PASSWORD_METHOD@, email)
}

/// Whether `password` is more than the password hash takes.
pub open spec fn too_long(password: Seq<char>) -> bool {
    vstd::utf8::encode_utf8(password).len() > MAX_PASSWORD_BYTES
}

/// How enrolling `fresh` under `email` ends on an available backend: an email
/// that is already registered is a duplicate identity.
pub open spec fn enroll_outcome(users: UserStoreState, email: Seq<char>, fresh: UserView) -> Result<
    UserView,
    Error,
> {
    match resolve_outcome(users, password_key(email), fresh) {
        Ok((_, false)) => Err(Error::DuplicateIdentity),
        Ok((user, true)) => Ok(user),
        Err(e) => Err(e),
    }
}

/// How a login with `email` and `password` ends on an available backend:
/// with the owner of the email if the password verifies against the stored
/// hash, and with `InvalidCredentials` in every other case, an unknown email
/// included. A stored hash whose parameters are not bounded is never handed
/// to the verification, and verifies nothing.
pub open spec fn login_outcome(users: UserStoreState, email: Seq<char>, password: Seq<char>) -> Result<
    UserView,
    Error,
> {
    let key = password_key(email);
    if users.credentials.contains_key(key) && users.credentials[key].data is Password
        && parameters_bounded(users.credentials[key].data->hash) && password_verifies(
        password,
        users.credentials[key].data->hash,
    ) {
        Ok(users.users[users.credentials[key].user_id])
    } else {
        Err(Error::InvalidCredentials)
    }
}

/// What holds of a registration of `email` with `password` at `now` that
/// took the user store from `before` to `after` and returned `r`, whatever
/// salt and user id were drawn.
///
/// On success the returned user is new, created at `now`, and `email` is
/// linked to them with a hash that `password` verifies against. An email that
/// is already registered is a `DuplicateIdentity`, a password longer than the
/// hash takes is `InvalidCredentials`, and short of a backend giving out, a
/// failure changes nothing; even then nothing that was stored is touched.
/// The store refuses the registration only because the drawn id is taken,
/// which takes a user under an id of that length.
pub open spec fn registration_result(
    before: UserStoreState,
    after: UserStoreState,
    reliable: bool,
    email: Seq<char>,
    password: Seq<char>,
    now: u64,
    r: Result<User, Error>,
) -> bool {
    let key = password_key(email);
    &&& is_unavailable(r) ==> !reliable
    &&& is_unavailable(r) ==> {
        &&& after.credentials == before.credentials
        &&& after.schema_log == before.schema_log
        &&& before.users.submap_of(after.users)
    }
    &&& too_long(password) ==> fails_with(r, Error::InvalidCredentials)
    &&& !too_long(password) && before.credentials.contains_key(key) && !is_unavailable(r)
        ==> fails_with(r, Error::DuplicateIdentity)
    &&& match r {
        Ok(user) => {
            let stored = after.credentials[key].data;
            &&& !too_long(password)
            &&& user.created_at == now
            &&& user.id@.len() == TOKEN_LENGTH
            &&& !before.users.contains_key(user.id@)
            &&& !before.credentials.contains_key(key)
            &&& stored is Password
            &&& parameters_bounded(stored->hash)
            &&& password_verifies(password, stored->hash)
            &&& after == enrolled(before, key, user@, stored)
        },
        Err(e) => {
            &&& !is_unavailable(r) ==> after == before
            &&& e == Error::InvalidCredentials <==> too_long(password)
            &&& e == Error::DuplicateIdentity ==> before.credentials.contains_key(key)
            &&& e == Error::Storage(StorageError::Constraint) ==> holds_token_id(before.users)
            &&& e == Error::InvalidCredentials || e == Error::DuplicateIdentity || e is Storage
        },
    }
}

/// The password method.
#[derive(Debug)]
pub struct PasswordPlugin {
    /// A hash that stands in for the missing one when the email is unknown,
    /// so that such a login costs a verification like any other.
    decoy: String,
}

impl PasswordPlugin {
    /// The hash that a login with an unknown email is verified against.
    pub closed spec fn decoy_hash(&self) -> Seq<char> {
        self.decoy@
    }

    /// The decoy is always a hash that the verification takes.
    #[verifier::type_invariant]
    spec fn decoy_is_usable(self) -> bool {
        parameters_bounded(self.decoy@)
    }

    /// A password plugin. Its decoy is a genuine hash, made of the empty
    /// password under a fresh salt, so that verifying against it does the
    /// work that verifying against a stored hash does.
    pub fn new() -> (plugin: Self)
        ensures
            password_verifies(Seq::<char>::empty(), plugin.decoy_hash()),
            parameters_bounded(plugin.decoy_hash()),
    {
        let nothing = "";
        proof {
            reveal_strlit("");
            assert(nothing@ =~= Seq::<char>::empty());
        }
        PasswordPlugin { decoy: hash_password(nothing) }
    }

    /// The name of the method.
    pub fn name(&self) -> (name: &'static str)
        ensures
            name@ == PASSWORD_METHOD@,
    {
        PASSWORD_METHOD
    }

    /// Creates the user `user_id` at `now` and links `email` to them with the
    /// password hash `hash`. An email that is already registered is refused
    /// and nothing changes.
    pub fn enroll<U: UserStore>(
        &self,
        users: &mut U,
        email: &str,
        hash: String,
        user_id: String,
        now: u64,
    ) -> (r: Result<User, Error>)
        requires
            old(users).inv(),
        ensures
            final(users).inv(),
            final(users).reliable() == old(users).reliable(),
            is_unavailable(r) ==> !old(users).reliable(),
            is_unavailable(r) ==> {
                ||| final(users).state() == old(users).state()
                ||| !old(users).state().users.contains_key(user_id@) && final(users).state() == old(
                    users,
                ).state().with_user(UserView { id: user_id@, created_at: now })
            },
            !is_unavailable(r) ==> user_outcome(r) == enroll_outcome(
                old(users).state(),
                email@,
                UserView { id: user_id@, created_at: now },
            ),
            !is_unavailable(r) ==> final(users).state() == after_resolve(
                old(users).state(),
                password_key(email@),
                UserView { id: user_id@, created_at: now },
                CredentialDataView::Password { hash: hash@ },
            ),
    {
        let data = CredentialData::Password { hash };
        match find_or_create(users, PASSWORD_METHOD, email, data, user_id, now) {
            Err(e) => Err(e),
            Ok(found) => {
                if found.created {
                    Ok(found.user)
                } else {
                    Err(Error::DuplicateIdentity)
                }
            },
        }
    }

    /// Registers `email` with `password`: hashes the password under a fresh
    /// salt and enrolls a user with a freshly drawn id.
    pub fn register<U: UserStore>(&self, users: &mut U, email: &str, password: &str, now: u64) -> (r:
        Result<User, Error>)
        requires
            old(users).inv(),
        ensures
            final(users).inv(),
            final(users).reliable() == old(users).reliable(),
            registration_result(
                old(users).state(),
                final(users).state(),
                old(users).reliable(),
                email@,
                password@,
                now,
                r,
            ),
    {
        if password.as_bytes().len() > MAX_PASSWORD_BYTES {
            return Err(Error::InvalidCredentials);
        }
        let hash = hash_password(password);
        let user_id = random_token(TOKEN_LENGTH);
        self.enroll(users, email, hash, user_id, now)
    }

    /// Refuses a login that has no usable hash to be verified against, after
    /// one verification against the decoy.
    fn refuse(&self, password: &str) -> (r: Result<User, Error>)
        ensures
            fails_with(r, Error::InvalidCredentials),
    {
        proof {
            use_type_invariant(self);
        }
        let _ = verify_password(password, self.decoy.as_str());
        Err(Error::InvalidCredentials)
    }

    /// Logs `email` in with `password`. A wrong password and an unknown email
    /// fail alike, with `InvalidCredentials`; the unknown email still pays
    /// for one verification, against a decoy hash.
    pub fn authenticate<U: UserStore>(&self, users: &U, email: &str, password: &str) -> (r: Result<
        User,
        Error,
    >)
        requires
            users.inv(),
        ensures
            is_unavailable(r) ==> !users.reliable(),
            !is_unavailable(r) ==> user_outcome(r) == login_outcome(
                users.state(),
                email@,
                password@,
            ),
    {
        match users.find_by_credential(PASSWORD_METHOD, email) {
            Err(e) => Err(Error::from_storage(e)),
            Ok(Some((owner, CredentialData::Password { hash }))) => {
                if has_bounded_parameters(hash.as_str()) {
                    if verify_password(password, hash.as_str()) {
                        Ok(owner)
                    } else {
                        Err(Error::InvalidCredentials)
                    }
                } else {
                    self.refuse(password)
                }
            },
            Ok(_) => self.refuse(password),
        }
    }
}

/// A login with the email and the password of a successful registration
/// returns the user that the registration created.
pub proof fn lemma_login_after_registration(
    before: UserStoreState,
    after: UserStoreState,
    reliable: bool,
    email: Seq<char>,
    password: Seq<char>,
    now: u64,
    r: Result<User, Error>,
)
    requires
        registration_result(before, after, reliable, email, password, now, r),
        r is Ok,
    ensures
        login_outcome(after, email, password) == Ok::<UserView, Error>(r->Ok_0@),
{
}

/// A login with a password that does not verify against the stored hash
/// fails with `InvalidCredentials`.
pub proof fn lemma_wrong_password_is_refused(
    users: UserStoreState,
    email: Seq<char>,
    password: Seq<char>,
)
    requires
        users.credentials.contains_key(password_key(email)),
        users.credentials[password_key(email)].data is Password,
        !password_verifies(password, users.credentials[password_key(email)].data->hash),
    ensures
        login_outcome(users, email, password) == Err::<UserView, Error>(Error::InvalidCredentials),
{
}

/// A login with an unknown email fails exactly as one with a wrong password
/// does: nothing in the answer tells the two apart.
pub proof fn lemma_unknown_email_fails_alike(
    users: UserStoreState,
    known: Seq<char>,
    unknown: Seq<char>,
    password: Seq<char>,
)
    requires
        users.credentials.contains_key(password_key(known)),
        users.credentials[password_key(known)].data is Password,
        !password_verifies(password, users.credentials[password_key(known)].data->hash),
        !users.credentials.contains_key(password_key(unknown)),
    ensures
        login_outcome(users, unknown, password) == login_outcome(users, known, password),
{
}

} // verus!
