//! The passkey method: two ceremonies, each opened by a single-use,
//! time-bounded challenge that the authenticator signs.
//!
//! Parsing and checking the authenticator's cryptography happens in the
//! host. The core issues and consumes the challenges, binds credentials to
//! users, and watches the sign counter for cloned authenticators.

use vstd::prelude::*;
use crate::crypto::{is_alphanumeric, random_token, TOKEN_LENGTH};
use crate::error::{fails_with, is_unavailable, Error, StorageError};
use crate::model::{
    clone_opt, opt_view, same_text, spec_deadline, CredentialData, CredentialDataView,
    CredentialView, FlowEntryView, FlowValue, FlowValueView, Session, User, UserView,
};
use crate::session::SessionManager;
use crate::storage::{
    counter_advances, holds_token_id, taken, CredentialKey, FlowStore, FlowStoreState,
    SessionStore, UserStore, UserStoreState, FLOW_TTL,
};

verus! {

/// The name under which the passkey method registers and files its
/// credentials.
pub const PASSKEY_METHOD: &'static str = "passkey";

/// The key of the passkey `credential_id`.
pub open spec fn passkey_key(credential_id: Seq<char>) -> CredentialKey {
    (PASSKEY_METHOD@, credential_id)
}

/// What the host hands to the authenticator to register a passkey.
#[derive(Debug)]
pub struct RegistrationCeremony {
    pub rp_id: String,
    pub user_id: String,
    pub challenge: String,
}

/// What the host hands to the authenticator to log in with a passkey.
#[derive(Debug)]
pub struct AuthenticationCeremony {
    pub rp_id: String,
    pub challenge: String,
}

/// The authenticator's answer to a registration ceremony, as the host read
/// it. `verified` says whether the attestation and its signature held.
#[derive(Debug)]
pub struct Attestation {
    pub challenge: String,
    pub rp_id: String,
    pub origin: String,
    pub credential_id: String,
    pub public_key: Vec<u8>,
    pub verified: bool,
}

/// What an [`Attestation`] is to a contract.
pub struct AttestationView {
    pub challenge: Seq<char>,
    pub rp_id: Seq<char>,
    pub origin: Seq<char>,
    pub credential_id: Seq<char>,
    pub public_key: Seq<u8>,
    pub verified: bool,
}

impl View for Attestation {
    type V = AttestationView;

    open spec fn view(&self) -> AttestationView {
        AttestationView {
            challenge: self.challenge@,
            rp_id: self.rp_id@,
            origin: self.origin@,
            credential_id: self.credential_id@,
            public_key: self.public_key@,
            verified: self.verified,
        }
    }
}

/// The authenticator's answer to an authentication ceremony, as the host
/// read it, before its signature is checked.
#[derive(Debug)]
pub struct Assertion {
    pub challenge: String,
    pub rp_id: String,
    pub origin: String,
    pub credential_id: String,
    pub sign_count: u32,
}

/// What an [`Assertion`] is to a contract.
pub struct AssertionView {
    pub challenge: Seq<char>,
    pub rp_id: Seq<char>,
    pub origin: Seq<char>,
    pub credential_id: Seq<char>,
    pub sign_count: u32,
}

impl View for Assertion {
    type V = AssertionView;

    open spec fn view(&self) -> AssertionView {
        AssertionView {
            challenge: self.challenge@,
            rp_id: self.rp_id@,
            origin: self.origin@,
            credential_id: self.credential_id@,
            sign_count: self.sign_count,
        }
    }
}

/// An assertion whose challenge was consumed and whose credential is known:
/// what is left is to check its signature against the public key.
#[derive(Debug)]
pub struct PendingAssertion {
    credential_id: String,
    user: User,
    public_key: Vec<u8>,
    sign_count: u32,
}

/// What a [`PendingAssertion`] is to a contract.
pub struct PendingAssertionView {
    pub credential_id: Seq<char>,
    pub user: UserView,
    pub public_key: Seq<u8>,
    pub sign_count: u32,
}

impl View for PendingAssertion {
    type V = PendingAssertionView;

    closed spec fn view(&self) -> PendingAssertionView {
        PendingAssertionView {
            credential_id: self.credential_id@,
            user: self.user@,
            public_key: self.public_key@,
            sign_count: self.sign_count,
        }
    }
}

impl PendingAssertion {
    /// The public key that the signature must verify against.
    pub fn public_key(&self) -> (key: &Vec<u8>)
        ensures
            key@ == self@.public_key,
    {
        &self.public_key
    }

    /// The passkey that made the assertion.
    pub fn credential_id(&self) -> (id: &str)
        ensures
            id@ == self@.credential_id,
    {
        self.credential_id.as_str()
    }
}

/// What `check_assertion` returned, in terms of views.
pub open spec fn pending_outcome(r: Result<PendingAssertion, Error>) -> Result<
    PendingAssertionView,
    Error,
> {
    match r {
        Ok(pending) => Ok(pending@),
        Err(e) => Err(e),
    }
}

/// How finishing a registration ends on available backends. The challenge
/// must be one of a registration ceremony and not lapsed, or the flow is a
/// replay. The attestation must hold for this relying party and origin. The
/// passkey must be new, and the user of the ceremony must exist.
pub open spec fn registration_outcome(
    rp_id: Seq<char>,
    rp_origin: Seq<char>,
    flows: FlowStoreState,
    users: UserStoreState,
    attestation: AttestationView,
    now: u64,
) -> Result<Seq<char>, Error> {
    match taken(flows, attestation.challenge, now) {
        Some(FlowValueView::PasskeyRegistration { user_id }) => {
            if attestation.rp_id != rp_id || attestation.origin != rp_origin
                || !attestation.verified {
                Err(Error::InvalidCredentials)
            } else if users.credentials.contains_key(passkey_key(attestation.credential_id)) {
                Err(Error::DuplicateIdentity)
            } else if !users.users.contains_key(user_id) {
                Err(Error::Storage(StorageError::Constraint))
            } else {
                Ok(user_id)
            }
        },
        _ => Err(Error::ReplayedFlow),
    }
}

/// How checking an assertion ends on available backends. The challenge must
/// be one of an authentication ceremony and not lapsed, or the flow is a
/// replay. The assertion must be made for this relying party and origin, by
/// a known passkey, and by the user the ceremony was opened for, if any.
pub open spec fn assertion_outcome(
    rp_id: Seq<char>,
    rp_origin: Seq<char>,
    flows: FlowStoreState,
    users: UserStoreState,
    assertion: AssertionView,
    now: u64,
) -> Result<PendingAssertionView, Error> {
    let key = passkey_key(assertion.credential_id);
    match taken(flows, assertion.challenge, now) {
        Some(FlowValueView::PasskeyAuthentication { expected_user }) => {
            if assertion.rp_id != rp_id || assertion.origin != rp_origin {
                Err(Error::InvalidCredentials)
            } else if !users.is_passkey(key) {
                Err(Error::InvalidCredentials)
            } else if expected_user is Some && expected_user->0 != users.credentials[key].user_id {
                Err(Error::InvalidCredentials)
            } else {
                Ok(
                    PendingAssertionView {
                        credential_id: assertion.credential_id,
                        user: users.users[users.credentials[key].user_id],
                        public_key: users.credentials[key].data->public_key,
                        sign_count: assertion.sign_count,
                    },
                )
            }
        },
        _ => Err(Error::ReplayedFlow),
    }
}

/// The passkey method for one relying party.
#[derive(Debug)]
pub struct PasskeyPlugin {
    rp_id: String,
    rp_origin: String,
}

impl PasskeyPlugin {
    /// The method for the relying party `rp_id`, reached at `rp_origin`.
    pub fn new(rp_id: String, rp_origin: String) -> (plugin: Self)
        ensures
            plugin.rp_id() == rp_id@,
            plugin.rp_origin() == rp_origin@,
    {
        PasskeyPlugin { rp_id, rp_origin }
    }

    /// The relying party's id.
    pub closed spec fn rp_id(&self) -> Seq<char> {
        self.rp_id@
    }

    /// The origin that assertions must be made for.
    pub closed spec fn rp_origin(&self) -> Seq<char> {
        self.rp_origin@
    }

    /// The name of the method.
    pub fn name(&self) -> (name: &'static str)
        ensures
            name@ == PASSKEY_METHOD@,
    {
        PASSKEY_METHOD
    }

    /// What is remembered of a ceremony opened at `now`.
    pub open spec fn challenge_entry(value: FlowValueView, now: u64) -> FlowEntryView {
        FlowEntryView { value, created_at: now, expires_at: spec_deadline(now, FLOW_TTL) }
    }

    /// Opens a registration ceremony for `user_id` with the challenge that
    /// the caller has drawn, good for [`FLOW_TTL`] seconds.
    pub fn start_registration_with<F: FlowStore>(
        &self,
        flows: &mut F,
        user_id: &str,
        challenge: String,
        now: u64,
    ) -> (r: Result<RegistrationCeremony, Error>)
        requires
            old(flows).inv(),
        ensures
            final(flows).inv(),
            final(flows).reliable() == old(flows).reliable(),
            old(flows).reliable() ==> r is Ok,
            r is Err ==> is_unavailable(r) && final(flows).state() == old(flows).state(),
            match r {
                Ok(ceremony) => {
                    &&& ceremony.rp_id@ == self.rp_id()
                    &&& ceremony.user_id@ == user_id@
                    &&& ceremony.challenge@ == challenge@
                    &&& final(flows).state() == old(flows).state().insert(
                        challenge@,
                        Self::challenge_entry(
                            FlowValueView::PasskeyRegistration { user_id: user_id@ },
                            now,
                        ),
                    )
                },
                Err(_) => true,
            },
    {
        let value = FlowValue::PasskeyRegistration { user_id: user_id.to_owned() };
        match flows.put(challenge.as_str(), value, now, FLOW_TTL) {
            Err(e) => Err(Error::from_storage(e)),
            Ok(()) => Ok(
                RegistrationCeremony {
                    rp_id: self.rp_id.clone(),
                    user_id: user_id.to_owned(),
                    challenge,
                },
            ),
        }
    }

    /// Opens a registration ceremony for `user_id` under a freshly drawn
    /// challenge. Whatever was drawn, the ceremony is remembered under the
    /// returned challenge.
    pub fn start_registration<F: FlowStore>(&self, flows: &mut F, user_id: &str, now: u64) -> (r:
        Result<RegistrationCeremony, Error>)
        requires
            old(flows).inv(),
        ensures
            final(flows).inv(),
            final(flows).reliable() == old(flows).reliable(),
            old(flows).reliable() ==> r is Ok,
            r is Err ==> is_unavailable(r) && final(flows).state() == old(flows).state(),
            match r {
                Ok(ceremony) => {
                    &&& ceremony.rp_id@ == self.rp_id()
                    &&& ceremony.user_id@ == user_id@
                    &&& ceremony.challenge@.len() == TOKEN_LENGTH
                    &&& forall|i: int|
                        0 <= i < ceremony.challenge@.len() ==> is_alphanumeric(
                            #[trigger] ceremony.challenge@[i],
                        )
                    &&& final(flows).state() == old(flows).state().insert(
                        ceremony.challenge@,
                        Self::challenge_entry(
                            FlowValueView::PasskeyRegistration { user_id: user_id@ },
                            now,
                        ),
                    )
                },
                Err(_) => true,
            },
    {
        let challenge = random_token(TOKEN_LENGTH);
        self.start_registration_with(flows, user_id, challenge, now)
    }

    /// Finishes a registration ceremony: consumes the challenge, checks the
    /// attestation, and binds the new passkey to the user of the ceremony
    /// with a sign counter of zero.
    ///
    /// Once the flow store has answered, the challenge is gone, whatever
    /// comes of the registration. The user store changes only on success.
    pub fn finish_registration<F: FlowStore, U: UserStore>(
        &self,
        flows: &mut F,
        users: &mut U,
        attestation: Attestation,
        now: u64,
    ) -> (r: Result<(), Error>)
        requires
            old(flows).inv(),
            old(users).inv(),
        ensures
            final(flows).inv(),
            final(users).inv(),
            final(flows).reliable() == old(flows).reliable(),
            final(users).reliable() == old(users).reliable(),
            is_unavailable(r) ==> !(old(flows).reliable() && old(users).reliable()),
            is_unavailable(r) ==> {
                ||| final(flows).state() == old(flows).state()
                ||| final(flows).state() == old(flows).state().remove(attestation.challenge@)
            },
            !is_unavailable(r) ==> final(flows).state() == old(flows).state().remove(
                attestation.challenge@,
            ),
            !is_unavailable(r) ==> match registration_outcome(
                self.rp_id(),
                self.rp_origin(),
                old(flows).state(),
                old(users).state(),
                attestation@,
                now,
            ) {
                Ok(user_id) => {
                    &&& r is Ok
                    &&& final(users).state() == old(users).state().with_credential(
                        passkey_key(attestation.credential_id@),
                        CredentialView {
                            user_id,
                            data: CredentialDataView::Passkey {
                                public_key: attestation.public_key@,
                                sign_count: 0,
                            },
                        },
                    )
                },
                Err(e) => r == Err::<(), Error>(e),
            },
            r is Err ==> final(users).state() == old(users).state(),
    {
        let user_id = match flows.take(attestation.challenge.as_str(), now) {
            Err(e) => {
                return Err(Error::from_storage(e));
            },
            Ok(Some(FlowValue::PasskeyRegistration { user_id })) => user_id,
            Ok(_) => {
                return Err(Error::ReplayedFlow);
            },
        };
        if !same_text(attestation.rp_id.as_str(), self.rp_id.as_str()) || !same_text(
            attestation.origin.as_str(),
            self.rp_origin.as_str(),
        ) || !attestation.verified {
            return Err(Error::InvalidCredentials);
        }
        match users.find_by_credential(PASSKEY_METHOD, attestation.credential_id.as_str()) {
            Err(e) => {
                return Err(Error::from_storage(e));
            },
            Ok(Some(_)) => {
                return Err(Error::DuplicateIdentity);
            },
            Ok(None) => {},
        }
        let data = CredentialData::Passkey { public_key: attestation.public_key, sign_count: 0 };
        match users.link_credential(
            user_id.as_str(),
            PASSKEY_METHOD,
            attestation.credential_id.as_str(),
            data,
        ) {
            Err(e) => Err(Error::from_storage(e)),
            Ok(()) => Ok(()),
        }
    }

    /// Opens an authentication ceremony with the challenge that the caller
    /// has drawn, for `expected_user` or, where there is none, for whoever
    /// answers.
    pub fn start_authentication_with<F: FlowStore>(
        &self,
        flows: &mut F,
        expected_user: &Option<String>,
        challenge: String,
        now: u64,
    ) -> (r: Result<AuthenticationCeremony, Error>)
        requires
            old(flows).inv(),
        ensures
            final(flows).inv(),
            final(flows).reliable() == old(flows).reliable(),
            old(flows).reliable() ==> r is Ok,
            r is Err ==> is_unavailable(r) && final(flows).state() == old(flows).state(),
            match r {
                Ok(ceremony) => {
                    &&& ceremony.rp_id@ == self.rp_id()
                    &&& ceremony.challenge@ == challenge@
                    &&& final(flows).state() == old(flows).state().insert(
                        challenge@,
                        Self::challenge_entry(
                            FlowValueView::PasskeyAuthentication {
                                expected_user: opt_view(*expected_user),
                            },
                            now,
                        ),
                    )
                },
                Err(_) => true,
            },
    {
        let value = FlowValue::PasskeyAuthentication { expected_user: clone_opt(expected_user) };
        match flows.put(challenge.as_str(), value, now, FLOW_TTL) {
            Err(e) => Err(Error::from_storage(e)),
            Ok(()) => Ok(AuthenticationCeremony { rp_id: self.rp_id.clone(), challenge }),
        }
    }

    /// Opens an authentication ceremony under a freshly drawn challenge.
    /// Whatever was drawn, the ceremony is remembered under the returned
    /// challenge.
    pub fn start_authentication<F: FlowStore>(
        &self,
        flows: &mut F,
        expected_user: &Option<String>,
        now: u64,
    ) -> (r: Result<AuthenticationCeremony, Error>)
        requires
            old(flows).inv(),
        ensures
            final(flows).inv(),
            final(flows).reliable() == old(flows).reliable(),
            old(flows).reliable() ==> r is Ok,
            r is Err ==> is_unavailable(r) && final(flows).state() == old(flows).state(),
            match r {
                Ok(ceremony) => {
                    &&& ceremony.rp_id@ == self.rp_id()
                    &&& ceremony.challenge@.len() == TOKEN_LENGTH
                    &&& forall|i: int|
                        0 <= i < ceremony.challenge@.len() ==> is_alphanumeric(
                            #[trigger] ceremony.challenge@[i],
                        )
                    &&& final(flows).state() == old(flows).state().insert(
                        ceremony.challenge@,
                        Self::challenge_entry(
                            FlowValueView::PasskeyAuthentication {
                                expected_user: opt_view(*expected_user),
                            },
                            now,
                        ),
                    )
                },
                Err(_) => true,
            },
    {
        let challenge = random_token(TOKEN_LENGTH);
        self.start_authentication_with(flows, expected_user, challenge, now)
    }

    /// The first half of finishing an authentication: consumes the challenge
    /// and finds the passkey, so that the host can check the signature
    /// against its public key.
    ///
    /// Once the flow store has answered, the challenge is gone, whatever
    /// comes of the assertion.
    pub fn check_assertion<F: FlowStore, U: UserStore>(
        &self,
        flows: &mut F,
        users: &U,
        assertion: &Assertion,
        now: u64,
    ) -> (r: Result<PendingAssertion, Error>)
        requires
            old(flows).inv(),
            users.inv(),
        ensures
            final(flows).inv(),
            final(flows).reliable() == old(flows).reliable(),
            is_unavailable(r) ==> !(old(flows).reliable() && users.reliable()),
            is_unavailable(r) ==> {
                ||| final(flows).state() == old(flows).state()
                ||| final(flows).state() == old(flows).state().remove(assertion.challenge@)
            },
            !is_unavailable(r) ==> final(flows).state() == old(flows).state().remove(
                assertion.challenge@,
            ),
            !is_unavailable(r) ==> pending_outcome(r) == assertion_outcome(
                self.rp_id(),
                self.rp_origin(),
                old(flows).state(),
                users.state(),
                assertion@,
                now,
            ),
    {
        let expected_user = match flows.take(assertion.challenge.as_str(), now) {
            Err(e) => {
                return Err(Error::from_storage(e));
            },
            Ok(Some(FlowValue::PasskeyAuthentication { expected_user })) => expected_user,
            Ok(_) => {
                return Err(Error::ReplayedFlow);
            },
        };
        if !same_text(assertion.rp_id.as_str(), self.rp_id.as_str()) || !same_text(
            assertion.origin.as_str(),
            self.rp_origin.as_str(),
        ) {
            return Err(Error::InvalidCredentials);
        }
        let (user, public_key) = match users.find_by_credential(
            PASSKEY_METHOD,
            assertion.credential_id.as_str(),
        ) {
            Err(e) => {
                return Err(Error::from_storage(e));
            },
            Ok(Some((user, CredentialData::Passkey { public_key, sign_count: _ }))) => (
                user,
                public_key,
            ),
            Ok(_) => {
                return Err(Error::InvalidCredentials);
            },
        };
        proof {
            users.lemma_consistent();
        }
        match expected_user {
            Some(expected) => {
                if expected != user.id {
                    return Err(Error::InvalidCredentials);
                }
            },
            None => {},
        }
        Ok(
            PendingAssertion {
                credential_id: assertion.credential_id.clone(),
                user,
                public_key,
                sign_count: assertion.sign_count,
            },
        )
    }

    /// The second half of finishing an authentication, once the host has
    /// checked the signature of the assertion behind `pending`.
    ///
    /// An invalid signature is `InvalidCredentials`. A valid one still fails,
    /// with `PossibleCloneDetected`, unless the reported sign counter
    /// advances past the stored one; neither failure changes anything.
    /// Otherwise the reported counter is stored, in the same step that
    /// compared it, and a session is issued. The stored counter of a passkey
    /// never goes down. The session is refused only where the user of the
    /// assertion is gone or the drawn session id is taken.
    pub fn finish_authentication<U: UserStore, S: SessionStore>(
        &self,
        users: &mut U,
        sessions: &mut S,
        manager: &SessionManager,
        pending: PendingAssertion,
        signature_valid: bool,
        now: u64,
    ) -> (r: Result<(User, Session), Error>)
        requires
            old(users).inv(),
            old(sessions).inv(),
        ensures
            final(users).inv(),
            final(sessions).inv(),
            final(users).reliable() == old(users).reliable(),
            final(sessions).reliable() == old(sessions).reliable(),
            is_unavailable(r) ==> !(old(users).reliable() && old(sessions).reliable()),
            !signature_valid ==> fails_with(r, Error::InvalidCredentials),
            ({
                let key = passkey_key(pending@.credential_id);
                let before = old(users).state();
                let advanced = before.with_sign_count(key, pending@.sign_count);
                &&& signature_valid && !is_unavailable(r) && !before.is_passkey(key) ==> fails_with(
                    r,
                    Error::InvalidCredentials,
                )
                &&& signature_valid && !is_unavailable(r) && before.is_passkey(key)
                    && !counter_advances(before.sign_count(key), pending@.sign_count) ==> fails_with(
                    r,
                    Error::PossibleCloneDetected,
                )
                &&& fails_with(r, Error::PossibleCloneDetected) ==> before.is_passkey(key)
                    && !counter_advances(before.sign_count(key), pending@.sign_count)
                &&& fails_with(r, Error::InvalidCredentials) || fails_with(
                    r,
                    Error::PossibleCloneDetected,
                ) ==> final(users).state() == before
                &&& final(users).state() == before || final(users).state() == advanced
                &&& before.is_passkey(key) ==> final(users).state().is_passkey(key) && final(users).state().sign_count(key) >= before.sign_count(key)
                &&& match r {
                    Ok((user, session)) => {
                        &&& signature_valid
                        &&& before.is_passkey(key)
                        &&& counter_advances(before.sign_count(key), pending@.sign_count)
                        &&& final(users).state() == advanced
                        &&& user@ == pending@.user
                        &&& session@ == manager.session_for(
                            session.id@,
                            user.id@,
                            Some(PASSKEY_METHOD@),
                            now,
                        )
                        &&& session.id@.len() == TOKEN_LENGTH
                        &&& !old(sessions).state().contains_key(session.id@)
                        &&& final(sessions).state() == old(sessions).state().insert(
                            session.id@,
                            session@,
                        )
                    },
                    Err(e) => {
                        &&& final(sessions).state() == old(sessions).state()
                        &&& e == Error::InvalidCredentials || e == Error::PossibleCloneDetected
                            || e is Storage
                        &&& e == Error::Storage(StorageError::Constraint) ==> {
                            ||| !before.users.contains_key(pending@.user.id)
                            ||| holds_token_id(old(sessions).state())
                        }
                    },
                }
            }),
    {
        if !signature_valid {
            return Err(Error::InvalidCredentials);
        }
        match users.advance_sign_count(
            PASSKEY_METHOD,
            pending.credential_id.as_str(),
            pending.sign_count,
        ) {
            Err(StorageError::Constraint) => {
                return Err(Error::InvalidCredentials);
            },
            Err(e) => {
                return Err(Error::from_storage(e));
            },
            Ok(false) => {
                return Err(Error::PossibleCloneDetected);
            },
            Ok(true) => {},
        }
        let method = Some(PASSKEY_METHOD.to_owned());
        match manager.create(&*users, sessions, pending.user.id.as_str(), &method, now) {
            Err(e) => Err(e),
            Ok(session) => Ok((pending.user, session)),
        }
    }
}

/// A passkey that reports a sign counter at or below the stored one is taken
/// for a clone, however valid its signature, unless both counters are zero,
/// as they are for an authenticator that keeps none.
pub proof fn lemma_stale_counter_is_refused(stored: u32, reported: u32)
    requires
        reported <= stored,
        !(stored == 0 && reported == 0),
    ensures
        !counter_advances(stored, reported),
{
}

/// A challenge that a ceremony has consumed opens no second one: an
/// assertion that brings it again is a `ReplayedFlow`.
pub proof fn lemma_challenge_is_single_use(
    rp_id: Seq<char>,
    rp_origin: Seq<char>,
    flows: FlowStoreState,
    users: UserStoreState,
    assertion: AssertionView,
    now: u64,
)
    ensures
        assertion_outcome(
            rp_id,
            rp_origin,
            flows.remove(assertion.challenge),
            users,
            assertion,
            now,
        ) == Err::<PendingAssertionView, Error>(Error::ReplayedFlow),
{
}

} // verus!
