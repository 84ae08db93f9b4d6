//! The OAuth method: a login in two halves. `begin_auth` sends the user to
//! the provider and remembers the attempt; the callback consumes what was
//! remembered, once, and after the host has exchanged the authorization code
//! with the provider the attempt is completed with the provider's reply.
//!
//! The exchange itself is a network call and happens in the host. The core
//! decides what is asked of the provider and what its reply means.

use vstd::prelude::*;
use crate::crypto::{is_alphanumeric, random_token, TOKEN_LENGTH};
use crate::error::{is_unavailable, Error, StorageError};
use crate::identity::{enrolled, find_or_create};
use crate::model::{
    opt_view, same_text, spec_deadline, CredentialData, CredentialDataView, FlowEntryView,
    FlowValue, FlowValueView, Session, User,
};
use crate::session::SessionManager;
use crate::storage::{
    holds_token_id, taken, FlowStore, FlowStoreState, SessionStore, UserStore, UserStoreState,
    FLOW_TTL,
};

verus! {

/// What `begin_auth` hands to the host: where to send the user, and the two
/// values to carry to the callback.
#[derive(Debug)]
pub struct AuthorizationRequest {
    /// The provider's authorization URL for this attempt.
    pub authorization_uri: String,
    /// The state token that the provider will hand back.
    pub csrf_state: String,
    /// The key under which the attempt is remembered.
    pub nonce_key: String,
}

/// A consumed login attempt: what the host must exchange with the provider.
#[derive(Debug)]
pub struct TokenExchange {
    code: String,
    nonce: String,
    provider: String,
}

/// What a [`TokenExchange`] is to a contract.
pub struct TokenExchangeView {
    pub code: Seq<char>,
    pub nonce: Seq<char>,
    pub provider: Seq<char>,
}

impl View for TokenExchange {
    type V = TokenExchangeView;

    closed spec fn view(&self) -> TokenExchangeView {
        TokenExchangeView { code: self.code@, nonce: self.nonce@, provider: self.provider@ }
    }
}

impl TokenExchange {
    /// The authorization code to exchange.
    pub fn code(&self) -> (code: &str)
        ensures
            code@ == self@.code,
    {
        self.code.as_str()
    }

    /// The nonce that the identity token must carry.
    pub fn nonce(&self) -> (nonce: &str)
        ensures
            nonce@ == self@.nonce,
    {
        self.nonce.as_str()
    }

    /// The provider to exchange with.
    pub fn provider(&self) -> (provider: &str)
        ensures
            provider@ == self@.provider,
    {
        self.provider.as_str()
    }
}

/// What came of the exchange with the provider.
#[derive(Debug)]
pub enum ProviderReply {
    /// The provider vouched for `subject`. `nonce` is the nonce of the
    /// identity token, where there was one and its signature held.
    Identity { subject: String, nonce: Option<String> },
    /// The provider refused the exchange, or its answer could not be trusted.
    Rejected,
    /// The provider did not answer in time.
    TimedOut,
}

/// What a [`ProviderReply`] is to a contract.
pub enum ProviderReplyView {
    Identity { subject: Seq<char>, nonce: Option<Seq<char>> },
    Rejected,
    TimedOut,
}

impl View for ProviderReply {
    type V = ProviderReplyView;

    open spec fn view(&self) -> ProviderReplyView {
        match self {
            ProviderReply::Identity { subject, nonce } => ProviderReplyView::Identity {
                subject: subject@,
                nonce: opt_view(*nonce),
            },
            ProviderReply::Rejected => ProviderReplyView::Rejected,
            ProviderReply::TimedOut => ProviderReplyView::TimedOut,
        }
    }
}

/// What a callback returned, in terms of views.
pub open spec fn exchange_outcome(r: Result<TokenExchange, Error>) -> Result<
    TokenExchangeView,
    Error,
> {
    match r {
        Ok(exchange) => Ok(exchange@),
        Err(e) => Err(e),
    }
}

/// How a callback ends on an available backend. A state that differs from
/// the host's copy is a `CsrfMismatch`. Otherwise the attempt must be on
/// record for this provider and not lapsed, or the flow is a replay.
pub open spec fn callback_outcome(
    provider: Seq<char>,
    flows: FlowStoreState,
    returned_state: Seq<char>,
    nonce_key: Seq<char>,
    code: Seq<char>,
    now: u64,
) -> Result<TokenExchangeView, Error> {
    if returned_state != nonce_key {
        Err(Error::CsrfMismatch)
    } else {
        match taken(flows, nonce_key, now) {
            Some(FlowValueView::OAuth { nonce, provider: issuer }) => if issuer == provider {
                Ok(TokenExchangeView { code, nonce, provider })
            } else {
                Err(Error::ReplayedFlow)
            },
            _ => Err(Error::ReplayedFlow),
        }
    }
}

/// Whether the identity token's nonce is acceptable: it must be the one of
/// this attempt, and only a provider without an identity layer may send
/// none.
pub open spec fn nonce_accepted(
    identity_layer: bool,
    expected: Seq<char>,
    reported: Option<Seq<char>>,
) -> bool {
    match reported {
        Some(nonce) => nonce == expected,
        None => !identity_layer,
    }
}

/// The failure that the provider's reply alone decides, if any.
pub open spec fn reply_failure(
    identity_layer: bool,
    exchange: TokenExchangeView,
    reply: ProviderReplyView,
) -> Option<Error> {
    match reply {
        ProviderReplyView::Rejected => Some(Error::ProviderError),
        ProviderReplyView::TimedOut => Some(Error::ProviderError),
        ProviderReplyView::Identity { subject, nonce } => if nonce_accepted(
            identity_layer,
            exchange.nonce,
            nonce,
        ) {
            None
        } else {
            Some(Error::NonceMismatch)
        },
    }
}

/// Nothing that `before` held was changed or removed in `after`.
pub open spec fn grown_from(after: UserStoreState, before: UserStoreState) -> bool {
    &&& before.users.submap_of(after.users)
    &&& before.credentials.submap_of(after.credentials)
    &&& before.schema_log == after.schema_log
}

/// The OAuth method for one provider.
#[derive(Debug)]
pub struct OAuthPlugin {
    provider: String,
    client_id: String,
    authorize_endpoint: String,
    identity_layer: bool,
}

impl OAuthPlugin {
    /// The method for the provider `provider`, whose authorization endpoint
    /// is `authorize_endpoint` and which knows this application as
    /// `client_id`. `identity_layer` says whether the provider issues
    /// identity tokens, which then must carry the attempt's nonce.
    pub fn new(
        provider: String,
        client_id: String,
        authorize_endpoint: String,
        identity_layer: bool,
    ) -> (plugin: Self)
        ensures
            plugin.provider() == provider@,
            plugin.client_id() == client_id@,
            plugin.authorize_endpoint() == authorize_endpoint@,
            plugin.identity_layer() == identity_layer,
    {
        OAuthPlugin { provider, client_id, authorize_endpoint, identity_layer }
    }

    /// The method for Google, which has an identity layer.
    pub fn google(client_id: String) -> (plugin: Self)
        ensures
            plugin.provider() == "google"@,
            plugin.client_id() == client_id@,
            plugin.authorize_endpoint() == "https://accounts.google.com/o/oauth2/v2/auth"@,
            plugin.identity_layer(),
    {
        OAuthPlugin {
            provider: "google".to_owned(),
            client_id,
            authorize_endpoint: "https://accounts.google.com/o/oauth2/v2/auth".to_owned(),
            identity_layer: true,
        }
    }

    /// The provider's name, which is the name of the method.
    pub closed spec fn provider(&self) -> Seq<char> {
        self.provider@
    }

    /// The application's id at the provider.
    pub closed spec fn client_id(&self) -> Seq<char> {
        self.client_id@
    }

    /// The provider's authorization endpoint.
    pub closed spec fn authorize_endpoint(&self) -> Seq<char> {
        self.authorize_endpoint@
    }

    /// Whether the provider issues identity tokens.
    pub closed spec fn identity_layer(&self) -> bool {
        self.identity_layer
    }

    /// The name of the method.
    pub fn name(&self) -> (name: &str)
        ensures
            name@ == self.provider(),
    {
        self.provider.as_str()
    }

    /// The authorization URL of an attempt: the endpoint, then the query
    /// with the response type, the client id, the callback URL and the state
    /// and, for a provider with an identity layer, the nonce. The values are
    /// embedded as they are given.
    pub open spec fn authorization_uri(
        &self,
        callback_url: Seq<char>,
        csrf_state: Seq<char>,
        nonce: Seq<char>,
    ) -> Seq<char> {
        let base = self.authorize_endpoint() + "?response_type=code&client_id="@ + self.client_id()
            + "&redirect_uri="@ + callback_url + "&state="@ + csrf_state;
        if self.identity_layer() {
            base + "&nonce="@ + nonce
        } else {
            base
        }
    }

    /// What is remembered of an attempt that began at `now` with `nonce`.
    pub open spec fn flow_entry(&self, nonce: Seq<char>, now: u64) -> FlowEntryView {
        FlowEntryView {
            value: FlowValueView::OAuth { nonce, provider: self.provider() },
            created_at: now,
            expires_at: spec_deadline(now, FLOW_TTL),
        }
    }

    fn build_uri(&self, callback_url: &str, csrf_state: &str, nonce: &str) -> (uri: String)
        ensures
            uri@ == self.authorization_uri(callback_url@, csrf_state@, nonce@),
    {
        let uri = self.authorize_endpoint.clone();
        let uri = uri.concat("?response_type=code&client_id=");
        let uri = uri.concat(self.client_id.as_str());
        let uri = uri.concat("&redirect_uri=");
        let uri = uri.concat(callback_url);
        let uri = uri.concat("&state=");
        let uri = uri.concat(csrf_state);
        if self.identity_layer {
            let uri = uri.concat("&nonce=");
            uri.concat(nonce)
        } else {
            uri
        }
    }

    /// Begins a login attempt with the state token and the nonce that the
    /// caller has drawn: remembers the attempt under the state token for
    /// [`FLOW_TTL`] seconds and says where to send the user.
    pub fn begin_auth_with<F: FlowStore>(
        &self,
        flows: &mut F,
        callback_url: &str,
        csrf_state: String,
        nonce: String,
        now: u64,
    ) -> (r: Result<AuthorizationRequest, Error>)
        requires
            old(flows).inv(),
        ensures
            final(flows).inv(),
            final(flows).reliable() == old(flows).reliable(),
            old(flows).reliable() ==> r is Ok,
            r is Err ==> is_unavailable(r) && final(flows).state() == old(flows).state(),
            match r {
                Ok(request) => {
                    &&& request.csrf_state@ == csrf_state@
                    &&& request.nonce_key@ == csrf_state@
                    &&& request.authorization_uri@ == self.authorization_uri(
                        callback_url@,
                        csrf_state@,
                        nonce@,
                    )
                    &&& final(flows).state() == old(flows).state().insert(
                        csrf_state@,
                        self.flow_entry(nonce@, now),
                    )
                },
                Err(_) => true,
            },
    {
        let authorization_uri = self.build_uri(callback_url, csrf_state.as_str(), nonce.as_str());
        let value = FlowValue::OAuth { nonce, provider: self.provider.clone() };
        match flows.put(csrf_state.as_str(), value, now, FLOW_TTL) {
            Err(e) => Err(Error::from_storage(e)),
            Ok(()) => Ok(
                AuthorizationRequest {
                    authorization_uri,
                    nonce_key: csrf_state.clone(),
                    csrf_state,
                },
            ),
        }
    }

    /// Begins a login attempt under a freshly drawn state token and nonce,
    /// each of [`TOKEN_LENGTH`] letters and digits. Whatever was drawn, the
    /// attempt is remembered under the returned state token, and the returned
    /// URL carries that token and the remembered nonce.
    pub fn begin_auth<F: FlowStore>(&self, flows: &mut F, callback_url: &str, now: u64) -> (r:
        Result<AuthorizationRequest, Error>)
        requires
            old(flows).inv(),
        ensures
            final(flows).inv(),
            final(flows).reliable() == old(flows).reliable(),
            old(flows).reliable() ==> r is Ok,
            r is Err ==> is_unavailable(r) && final(flows).state() == old(flows).state(),
            match r {
                Ok(request) => {
                    let remembered = final(flows).state()[request.csrf_state@];
                    &&& request.nonce_key@ == request.csrf_state@
                    &&& request.csrf_state@.len() == TOKEN_LENGTH
                    &&& forall|i: int|
                        0 <= i < request.csrf_state@.len() ==> is_alphanumeric(
                            #[trigger] request.csrf_state@[i],
                        )
                    &&& remembered.value is OAuth
                    &&& remembered.value->nonce.len() == TOKEN_LENGTH
                    &&& forall|i: int|
                        0 <= i < remembered.value->nonce.len() ==> is_alphanumeric(
                            #[trigger] remembered.value->nonce[i],
                        )
                    &&& remembered == self.flow_entry(remembered.value->nonce, now)
                    &&& request.authorization_uri@ == self.authorization_uri(
                        callback_url@,
                        request.csrf_state@,
                        remembered.value->nonce,
                    )
                    &&& final(flows).state() == old(flows).state().insert(
                        request.csrf_state@,
                        remembered,
                    )
                },
                Err(_) => true,
            },
    {
        let csrf_state = random_token(TOKEN_LENGTH);
        let nonce = random_token(TOKEN_LENGTH);
        self.begin_auth_with(flows, callback_url, csrf_state, nonce, now)
    }

    /// The first half of the callback. `returned_state` is the state that the
    /// provider handed back, `nonce_key` the host's own copy from
    /// `begin_auth`, `code` the authorization code. Where the two states
    /// agree, the attempt is consumed, whatever comes of it: no second
    /// callback will find it.
    pub fn begin_callback<F: FlowStore>(
        &self,
        flows: &mut F,
        returned_state: &str,
        nonce_key: &str,
        code: String,
        now: u64,
    ) -> (r: Result<TokenExchange, Error>)
        requires
            old(flows).inv(),
        ensures
            final(flows).inv(),
            final(flows).reliable() == old(flows).reliable(),
            is_unavailable(r) ==> !old(flows).reliable(),
            !is_unavailable(r) ==> exchange_outcome(r) == callback_outcome(
                self.provider(),
                old(flows).state(),
                returned_state@,
                nonce_key@,
                code@,
                now,
            ),
            is_unavailable(r) || returned_state@ != nonce_key@ ==> final(flows).state() == old(
                flows,
            ).state(),
            !is_unavailable(r) && returned_state@ == nonce_key@ ==> final(flows).state() == old(
                flows,
            ).state().remove(nonce_key@),
    {
        if !same_text(returned_state, nonce_key) {
            return Err(Error::CsrfMismatch);
        }
        match flows.take(nonce_key, now) {
            Err(e) => Err(Error::from_storage(e)),
            Ok(Some(FlowValue::OAuth { nonce, provider })) => {
                if provider == self.provider {
                    Ok(TokenExchange { code, nonce, provider })
                } else {
                    Err(Error::ReplayedFlow)
                }
            },
            Ok(_) => Err(Error::ReplayedFlow),
        }
    }

    /// The second half of the callback, once the host has exchanged the code
    /// of `exchange` and holds the provider's `reply`.
    ///
    /// A refusal or a timeout is a `ProviderError`, a wrong or missing nonce
    /// a `NonceMismatch`, and neither changes anything. Otherwise the subject
    /// is resolved to its user, who is created at `now` on first sight, and a
    /// session is issued for them. A failure past that point is a storage
    /// failure; it never changes or removes what the stores held. The stores
    /// refuse only a drawn id that is taken: the id of the new user, where
    /// the subject is new, or the id of the session.
    pub fn complete_callback<U: UserStore, S: SessionStore>(
        &self,
        users: &mut U,
        sessions: &mut S,
        manager: &SessionManager,
        exchange: TokenExchange,
        reply: ProviderReply,
        now: u64,
    ) -> (r: Result<(User, Session), Error>)
        requires
            old(users).inv(),
            old(sessions).inv(),
        ensures
            final(users).inv(),
            final(sessions).inv(),
            final(users).reliable() == old(users).reliable(),
            final(sessions).reliable() == old(sessions).reliable(),
            is_unavailable(r) ==> !(old(users).reliable() && old(sessions).reliable()),
            match reply_failure(self.identity_layer(), exchange@, reply@) {
                Some(e) => {
                    &&& r == Err::<(User, Session), Error>(e)
                    &&& final(users).state() == old(users).state()
                    &&& final(sessions).state() == old(sessions).state()
                },
                None => match r {
                    Ok((user, session)) => {
                        let key = (exchange@.provider, reply@->subject);
                        let before = old(users).state();
                        &&& session@ == manager.session_for(
                            session.id@,
                            user.id@,
                            Some(exchange@.provider),
                            now,
                        )
                        &&& session.id@.len() == TOKEN_LENGTH
                        &&& !old(sessions).state().contains_key(session.id@)
                        &&& final(sessions).state() == old(sessions).state().insert(
                            session.id@,
                            session@,
                        )
                        &&& before.credentials.contains_key(key) ==> {
                            &&& user@ == before.users[before.credentials[key].user_id]
                            &&& final(users).state() == before
                        }
                        &&& !before.credentials.contains_key(key) ==> {
                            &&& user.created_at == now
                            &&& user.id@.len() == TOKEN_LENGTH
                            &&& !before.users.contains_key(user.id@)
                            &&& final(users).state() == enrolled(
                                before,
                                key,
                                user@,
                                CredentialDataView::OAuth,
                            )
                        }
                    },
                    Err(e) => {
                        let key = (exchange@.provider, reply@->subject);
                        &&& e is Storage
                        &&& final(sessions).state() == old(sessions).state()
                        &&& grown_from(final(users).state(), old(users).state())
                        &&& e == Error::Storage(StorageError::Constraint) ==> {
                            ||| !old(users).state().credentials.contains_key(key)
                                && holds_token_id(old(users).state().users)
                            ||| holds_token_id(old(sessions).state())
                        }
                    },
                },
            },
    {
        let subject = match reply {
            ProviderReply::Rejected => {
                return Err(Error::ProviderError);
            },
            ProviderReply::TimedOut => {
                return Err(Error::ProviderError);
            },
            ProviderReply::Identity { subject, nonce } => {
                let accepted = match nonce {
                    Some(reported) => reported == exchange.nonce,
                    None => !self.identity_layer,
                };
                if !accepted {
                    return Err(Error::NonceMismatch);
                }
                subject
            },
        };
        proof {
            users.lemma_consistent();
        }
        let user_id = random_token(TOKEN_LENGTH);
        let found = find_or_create(
            users,
            exchange.provider.as_str(),
            subject.as_str(),
            CredentialData::OAuth,
            user_id,
            now,
        );
        let user = match found {
            Err(e) => {
                return Err(e);
            },
            Ok(resolved) => resolved.user,
        };
        let method = Some(exchange.provider);
        match manager.create(&*users, sessions, user.id.as_str(), &method, now) {
            Err(e) => Err(e),
            Ok(session) => Ok((user, session)),
        }
    }
}

/// A state token that a callback has accepted is never accepted again: once
/// the attempt is consumed, a second callback with the same token is a
/// `ReplayedFlow`, whatever code it brings and whenever it comes.
pub proof fn lemma_state_token_is_single_use(
    provider: Seq<char>,
    flows: FlowStoreState,
    state: Seq<char>,
    first_code: Seq<char>,
    first_now: u64,
    second_code: Seq<char>,
    second_now: u64,
)
    requires
        callback_outcome(provider, flows, state, state, first_code, first_now) is Ok,
    ensures
        callback_outcome(provider, flows.remove(state), state, state, second_code, second_now)
            == Err::<TokenExchangeView, Error>(Error::ReplayedFlow),
{
}

} // verus!
