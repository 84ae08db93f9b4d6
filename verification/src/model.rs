//! The records the core works on, each with the mathematical value that
//! contracts speak of.

use vstd::prelude::*;
use crate::error::Error;

verus! {

/// The view of an optional string.
pub open spec fn opt_view(s: Option<String>) -> Option<Seq<char>> {
    match s {
        Some(text) => Some(text@),
        None => None,
    }
}

/// Copies an optional string.
pub fn clone_opt(s: &Option<String>) -> (copy: Option<String>)
    ensures
        opt_view(copy) == opt_view(*s),
{
    match s {
        Some(text) => Some(text.clone()),
        None => None,
    }
}

/// An identity known to the core. The id never changes; the credentials
/// linked to it live in the user store.
#[derive(Debug)]
pub struct User {
    pub id: String,
    pub created_at: u64,
}

/// What a [`User`] is to a contract.
pub struct UserView {
    pub id: Seq<char>,
    pub created_at: u64,
}

impl View for User {
    type V = UserView;

    open spec fn view(&self) -> UserView {
        UserView { id: self.id@, created_at: self.created_at }
    }
}

impl Clone for User {
    fn clone(&self) -> (copy: Self)
        ensures
            copy@ == self@,
    {
        User { id: self.id.clone(), created_at: self.created_at }
    }
}

/// A login session: an unguessable id bound to a user until it expires.
#[derive(Debug)]
pub struct Session {
    pub id: String,
    pub user_id: String,
    pub created_at: u64,
    pub expires_at: u64,
    /// The authentication method that issued the session, where known.
    pub method: Option<String>,
}

/// What a [`Session`] is to a contract.
pub struct SessionView {
    pub id: Seq<char>,
    pub user_id: Seq<char>,
    pub created_at: u64,
    pub expires_at: u64,
    pub method: Option<Seq<char>>,
}

impl View for Session {
    type V = SessionView;

    open spec fn view(&self) -> SessionView {
        SessionView {
            id: self.id@,
            user_id: self.user_id@,
            created_at: self.created_at,
            expires_at: self.expires_at,
            method: opt_view(self.method),
        }
    }
}

impl Clone for Session {
    fn clone(&self) -> (copy: Self)
        ensures
            copy@ == self@,
    {
        Session {
            id: self.id.clone(),
            user_id: self.user_id.clone(),
            created_at: self.created_at,
            expires_at: self.expires_at,
            method: clone_opt(&self.method),
        }
    }
}

/// What a plugin keeps beside a linked credential.
#[derive(Debug)]
pub enum CredentialData {
    /// A salted, memory-hard hash of the password.
    Password { hash: String },
    /// Nothing beyond the provider and subject that key the record.
    OAuth,
    /// The public key of a passkey and the last sign counter it reported.
    Passkey { public_key: Vec<u8>, sign_count: u32 },
}

/// What a [`CredentialData`] is to a contract.
pub enum CredentialDataView {
    Password { hash: Seq<char> },
    OAuth,
    Passkey { public_key: Seq<u8>, sign_count: u32 },
}

impl View for CredentialData {
    type V = CredentialDataView;

    open spec fn view(&self) -> CredentialDataView {
        match self {
            CredentialData::Password { hash } => CredentialDataView::Password { hash: hash@ },
            CredentialData::OAuth => CredentialDataView::OAuth,
            CredentialData::Passkey { public_key, sign_count } => CredentialDataView::Passkey {
                public_key: public_key@,
                sign_count: *sign_count,
            },
        }
    }
}

impl Clone for CredentialData {
    fn clone(&self) -> (copy: Self)
        ensures
            copy@ == self@,
    {
        match self {
            CredentialData::Password { hash } => CredentialData::Password { hash: hash.clone() },
            CredentialData::OAuth => CredentialData::OAuth,
            CredentialData::Passkey { public_key, sign_count } => CredentialData::Passkey {
                public_key: public_key.clone(),
                sign_count: *sign_count,
            },
        }
    }
}

/// A credential as the user store holds it: its owner and the plugin's data.
pub struct CredentialView {
    pub user_id: Seq<char>,
    pub data: CredentialDataView,
}

/// What is remembered between the two halves of a login attempt.
#[derive(Debug)]
pub enum FlowValue {
    /// An OAuth login waiting for the provider's callback.
    OAuth { nonce: String, provider: String },
    /// A passkey registration ceremony for the given user.
    PasskeyRegistration { user_id: String },
    /// A passkey authentication ceremony, for a known user or for whoever
    /// answers.
    PasskeyAuthentication { expected_user: Option<String> },
}

/// What a [`FlowValue`] is to a contract.
pub enum FlowValueView {
    OAuth { nonce: Seq<char>, provider: Seq<char> },
    PasskeyRegistration { user_id: Seq<char> },
    PasskeyAuthentication { expected_user: Option<Seq<char>> },
}

impl View for FlowValue {
    type V = FlowValueView;

    open spec fn view(&self) -> FlowValueView {
        match self {
            FlowValue::OAuth { nonce, provider } => FlowValueView::OAuth {
                nonce: nonce@,
                provider: provider@,
            },
            FlowValue::PasskeyRegistration { user_id } => FlowValueView::PasskeyRegistration {
                user_id: user_id@,
            },
            FlowValue::PasskeyAuthentication { expected_user } => {
                FlowValueView::PasskeyAuthentication { expected_user: opt_view(*expected_user) }
            },
        }
    }
}

impl Clone for FlowValue {
    fn clone(&self) -> (copy: Self)
        ensures
            copy@ == self@,
    {
        match self {
            FlowValue::OAuth { nonce, provider } => FlowValue::OAuth {
                nonce: nonce.clone(),
                provider: provider.clone(),
            },
            FlowValue::PasskeyRegistration { user_id } => FlowValue::PasskeyRegistration {
                user_id: user_id.clone(),
            },
            FlowValue::PasskeyAuthentication { expected_user } => FlowValue::PasskeyAuthentication {
                expected_user: clone_opt(expected_user),
            },
        }
    }
}

/// A stored flow state: the value, when it was put, and when it lapses.
pub struct FlowEntryView {
    pub value: FlowValueView,
    pub created_at: u64,
    pub expires_at: u64,
}

/// The moment at which something created at `now` with a lifetime of `ttl`
/// seconds lapses. A lifetime that would run past the end of time is cut
/// there.
pub open spec fn spec_deadline(now: u64, ttl: u64) -> u64 {
    if now + ttl > u64::MAX {
        u64::MAX
    } else {
        (now + ttl) as u64
    }
}

/// Computes [`spec_deadline`].
pub fn deadline(now: u64, ttl: u64) -> (at: u64)
    ensures
        at == spec_deadline(now, ttl),
{
    if ttl > u64::MAX - now {
        u64::MAX
    } else {
        now + ttl
    }
}

/// Whether something that lapses at `expires_at` is still good at `now`.
/// The deadline itself is already too late.
pub open spec fn live_at(expires_at: u64, now: u64) -> bool {
    now < expires_at
}

/// What a call that hands out a user returned, in terms of views.
pub open spec fn user_outcome(r: Result<User, Error>) -> Result<UserView, Error> {
    match r {
        Ok(user) => Ok(user@),
        Err(e) => Err(e),
    }
}

/// Whether two strings hold the same characters.
pub fn same_text(a: &str, b: &str) -> (same: bool)
    ensures
        same == (a@ == b@),
{
    let left: String = a.to_owned();
    let right: String = b.to_owned();
    left == right
}

/// A step that a backend took to make room for a method's records.
#[derive(Debug)]
pub enum SchemaStep {
    /// The backing structures of the method were created.
    Prepared(String),
    /// The backing structures of the method were brought up to date.
    Migrated(String),
}

/// What a [`SchemaStep`] is to a contract.
pub enum SchemaStepView {
    Prepared(Seq<char>),
    Migrated(Seq<char>),
}

impl View for SchemaStep {
    type V = SchemaStepView;

    open spec fn view(&self) -> SchemaStepView {
        match self {
            SchemaStep::Prepared(method) => SchemaStepView::Prepared(method@),
            SchemaStep::Migrated(method) => SchemaStepView::Migrated(method@),
        }
    }
}

impl Clone for SchemaStep {
    fn clone(&self) -> (copy: Self)
        ensures
            copy@ == self@,
    {
        match self {
            SchemaStep::Prepared(method) => SchemaStep::Prepared(method.clone()),
            SchemaStep::Migrated(method) => SchemaStep::Migrated(method.clone()),
        }
    }
}

} // verus!
