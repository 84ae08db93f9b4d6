//! The registry of authentication methods and the one point through which
//! the host reaches them.

use vstd::prelude::*;
use crate::error::{fails_with, is_unavailable, Error};
use crate::model::{user_outcome, SchemaStepView, User, UserView};
use crate::oauth::OAuthPlugin;
use crate::passkey::{PasskeyPlugin, PASSKEY_METHOD};
use crate::password::{login_outcome, PasswordPlugin, PASSWORD_METHOD};
use crate::storage::{UserStore, UserStoreState};

verus! {

/// What a user presents to be authenticated in one step.
#[derive(Debug)]
pub enum Credentials {
    /// An email and the password registered with it.
    EmailPassword { email: String, password: String },
}

/// What a [`Credentials`] is to a contract.
pub enum CredentialsView {
    EmailPassword { email: Seq<char>, password: Seq<char> },
}

impl View for Credentials {
    type V = CredentialsView;

    open spec fn view(&self) -> CredentialsView {
        match self {
            Credentials::EmailPassword { email, password } => CredentialsView::EmailPassword {
                email: email@,
                password: password@,
            },
        }
    }
}

/// An authentication method: one of the closed set the core knows.
#[derive(Debug)]
pub enum Plugin {
    Password(PasswordPlugin),
    OAuth(OAuthPlugin),
    Passkey(PasskeyPlugin),
}

/// How a method answers credentials presented in one step, on an available
/// backend. The OAuth and passkey methods run in several steps through their
/// own operations and accept nothing here.
pub open spec fn plugin_outcome(
    plugin: Plugin,
    users: UserStoreState,
    credentials: CredentialsView,
) -> Result<UserView, Error> {
    match plugin {
        Plugin::Password(_) => match credentials {
            CredentialsView::EmailPassword { email, password } => login_outcome(
                users,
                email,
                password,
            ),
        },
        _ => Err(Error::InvalidCredentials),
    }
}

impl Plugin {
    /// The name under which the method registers.
    pub open spec fn spec_name(&self) -> Seq<char> {
        match self {
            Plugin::Password(_) => PASSWORD_METHOD@,
            Plugin::OAuth(oauth) => oauth.provider(),
            Plugin::Passkey(_) => PASSKEY_METHOD@,
        }
    }

    /// The name under which the method registers.
    pub fn name(&self) -> (name: &str)
        ensures
            name@ == self.spec_name(),
    {
        match self {
            Plugin::Password(password) => password.name(),
            Plugin::OAuth(oauth) => oauth.name(),
            Plugin::Passkey(passkey) => passkey.name(),
        }
    }

    /// Has the backend create what the method needs.
    pub fn setup<U: UserStore>(&self, users: &mut U) -> (r: Result<(), Error>)
        requires
            old(users).inv(),
        ensures
            final(users).inv(),
            final(users).reliable() == old(users).reliable(),
            old(users).reliable() ==> r is Ok,
            r is Err ==> is_unavailable(r) && final(users).state() == old(users).state(),
            r is Ok ==> final(users).state() == old(users).state().with_step(
                SchemaStepView::Prepared(self.spec_name()),
            ),
    {
        match users.prepare(self.name()) {
            Err(e) => Err(Error::from_storage(e)),
            Ok(()) => Ok(()),
        }
    }

    /// Has the backend bring what the method needs up to date.
    pub fn migrate<U: UserStore>(&self, users: &mut U) -> (r: Result<(), Error>)
        requires
            old(users).inv(),
        ensures
            final(users).inv(),
            final(users).reliable() == old(users).reliable(),
            old(users).reliable() ==> r is Ok,
            r is Err ==> is_unavailable(r) && final(users).state() == old(users).state(),
            r is Ok ==> final(users).state() == old(users).state().with_step(
                SchemaStepView::Migrated(self.spec_name()),
            ),
    {
        match users.migrate(self.name()) {
            Err(e) => Err(Error::from_storage(e)),
            Ok(()) => Ok(()),
        }
    }

    /// Authenticates credentials presented in one step.
    pub fn authenticate<U: UserStore>(&self, users: &U, credentials: &Credentials) -> (r: Result<
        User,
        Error,
    >)
        requires
            users.inv(),
        ensures
            is_unavailable(r) ==> !users.reliable(),
            !is_unavailable(r) ==> user_outcome(r) == plugin_outcome(
                *self,
                users.state(),
                credentials@,
            ),
    {
        match self {
            Plugin::Password(password_plugin) => match credentials {
                Credentials::EmailPassword { email, password } => password_plugin.authenticate(
                    users,
                    email.as_str(),
                    password.as_str(),
                ),
            },
            _ => Err(Error::InvalidCredentials),
        }
    }
}

/// The registry: at most one method under each name.
#[derive(Debug)]
pub struct PluginManager {
    plugins: Vec<Plugin>,
}

impl View for PluginManager {
    type V = Seq<Plugin>;

    closed spec fn view(&self) -> Seq<Plugin> {
        self.plugins@
    }
}

/// Whether a method is registered under `name`.
pub open spec fn has_plugin(plugins: Seq<Plugin>, name: Seq<char>) -> bool {
    exists|i: int| 0 <= i < plugins.len() && (#[trigger] plugins[i]).spec_name() == name
}

/// The method registered under `name`.
pub open spec fn plugin_named(plugins: Seq<Plugin>, name: Seq<char>) -> Plugin {
    plugins[choose|i: int| 0 <= i < plugins.len() && (#[trigger] plugins[i]).spec_name() == name]
}

/// No two methods share a name.
pub open spec fn distinct_names(plugins: Seq<Plugin>) -> bool {
    forall|i: int, j: int|
        0 <= i < j < plugins.len() ==> (#[trigger] plugins[i]).spec_name() != (
        #[trigger] plugins[j]).spec_name()
}

/// The steps that setting up every method logs: one for each method, in the
/// order of registration.
pub open spec fn prepared_steps(plugins: Seq<Plugin>) -> Seq<SchemaStepView> {
    plugins.map_values(|plugin: Plugin| SchemaStepView::Prepared(plugin.spec_name()))
}

/// The steps that migrating every method logs: one for each method, in the
/// order of registration.
pub open spec fn migrated_steps(plugins: Seq<Plugin>) -> Seq<SchemaStepView> {
    plugins.map_values(|plugin: Plugin| SchemaStepView::Migrated(plugin.spec_name()))
}

/// With distinct names, the method under a name is the one at any position
/// that carries the name.
pub proof fn lemma_plugin_named(plugins: Seq<Plugin>, i: int)
    requires
        distinct_names(plugins),
        0 <= i < plugins.len(),
    ensures
        has_plugin(plugins, plugins[i].spec_name()),
        plugin_named(plugins, plugins[i].spec_name()) == plugins[i],
{
    let name = plugins[i].spec_name();
    let j = choose|j: int| 0 <= j < plugins.len() && (#[trigger] plugins[j]).spec_name() == name;
    if j < i {
        assert(plugins[j].spec_name() != plugins[i].spec_name());
    } else if i < j {
        assert(plugins[i].spec_name() != plugins[j].spec_name());
    }
}

impl PluginManager {
    /// The registry's well-formedness: no two methods share a name.
    pub open spec fn inv(&self) -> bool {
        distinct_names(self@)
    }

    /// An empty registry.
    pub fn new() -> (manager: Self)
        ensures
            manager.inv(),
            manager@ == Seq::<Plugin>::empty(),
    {
        PluginManager { plugins: Vec::new() }
    }

    /// How many methods are registered.
    pub fn len(&self) -> (n: usize)
        ensures
            n == self@.len(),
    {
        self.plugins.len()
    }

    fn position(&self, name: &str) -> (r: Option<usize>)
        ensures
            match r {
                Some(i) => i < self@.len() && self@[i as int].spec_name() == name@,
                None => !has_plugin(self@, name@),
            },
    {
        let wanted: String = name.to_owned();
        let mut i: usize = 0;
        while i < self.plugins.len()
            invariant
                i <= self.plugins.len(),
                wanted@ == name@,
                forall|j: int| 0 <= j < i ==> (#[trigger] self@[j]).spec_name() != name@,
            decreases self.plugins.len() - i,
        {
            let candidate: String = self.plugins[i].name().to_owned();
            if candidate == wanted {
                return Some(i);
            }
            i += 1;
        }
        None
    }

    /// Whether a method is registered under `name`.
    pub fn contains(&self, name: &str) -> (found: bool)
        ensures
            found == has_plugin(self@, name@),
    {
        self.position(name).is_some()
    }

    /// Registers a method. A name that is already taken is a configuration
    /// error and leaves the registry as it was.
    pub fn register(&mut self, plugin: Plugin) -> (r: Result<(), Error>)
        requires
            old(self).inv(),
        ensures
            final(self).inv(),
            has_plugin(old(self)@, plugin.spec_name()) ==> fails_with(r, Error::ConfigurationError)
                && final(self)@ == old(self)@,
            !has_plugin(old(self)@, plugin.spec_name()) ==> r is Ok && final(self)@ == old(self)@.push(
                plugin,
            ),
    {
        match self.position(plugin.name()) {
            Some(_) => Err(Error::ConfigurationError),
            None => {
                self.plugins.push(plugin);
                Ok(())
            },
        }
    }

    /// The method registered under `name`, whatever its kind.
    pub fn get_plugin(&self, name: &str) -> (r: Result<&Plugin, Error>)
        requires
            self.inv(),
        ensures
            !has_plugin(self@, name@) ==> fails_with(r, Error::PluginNotFound),
            has_plugin(self@, name@) ==> r is Ok && *r->Ok_0 == plugin_named(self@, name@),
    {
        match self.position(name) {
            None => Err(Error::PluginNotFound),
            Some(i) => {
                proof {
                    lemma_plugin_named(self@, i as int);
                }
                Ok(&self.plugins[i])
            },
        }
    }

    /// The password method registered under `name`. A method of another kind
    /// under that name is a type mismatch.
    pub fn get_password_plugin(&self, name: &str) -> (r: Result<&PasswordPlugin, Error>)
        requires
            self.inv(),
        ensures
            !has_plugin(self@, name@) ==> fails_with(r, Error::PluginNotFound),
            has_plugin(self@, name@) && !(plugin_named(self@, name@) is Password) ==> fails_with(
                r,
                Error::PluginTypeMismatch,
            ),
            has_plugin(self@, name@) && plugin_named(self@, name@) is Password ==> r is Ok
                && Plugin::Password(*r->Ok_0) == plugin_named(self@, name@),
    {
        match self.get_plugin(name) {
            Err(e) => Err(e),
            Ok(Plugin::Password(plugin)) => Ok(plugin),
            Ok(_) => Err(Error::PluginTypeMismatch),
        }
    }

    /// The OAuth method registered under `name`. A method of another kind
    /// under that name is a type mismatch.
    pub fn get_oauth_plugin(&self, name: &str) -> (r: Result<&OAuthPlugin, Error>)
        requires
            self.inv(),
        ensures
            !has_plugin(self@, name@) ==> fails_with(r, Error::PluginNotFound),
            has_plugin(self@, name@) && !(plugin_named(self@, name@) is OAuth) ==> fails_with(
                r,
                Error::PluginTypeMismatch,
            ),
            has_plugin(self@, name@) && plugin_named(self@, name@) is OAuth ==> r is Ok
                && Plugin::OAuth(*r->Ok_0) == plugin_named(self@, name@),
    {
        match self.get_plugin(name) {
            Err(e) => Err(e),
            Ok(Plugin::OAuth(plugin)) => Ok(plugin),
            Ok(_) => Err(Error::PluginTypeMismatch),
        }
    }

    /// The passkey method registered under `name`. A method of another kind
    /// under that name is a type mismatch.
    pub fn get_passkey_plugin(&self, name: &str) -> (r: Result<&PasskeyPlugin, Error>)
        requires
            self.inv(),
        ensures
            !has_plugin(self@, name@) ==> fails_with(r, Error::PluginNotFound),
            has_plugin(self@, name@) && !(plugin_named(self@, name@) is Passkey) ==> fails_with(
                r,
                Error::PluginTypeMismatch,
            ),
            has_plugin(self@, name@) && plugin_named(self@, name@) is Passkey ==> r is Ok
                && Plugin::Passkey(*r->Ok_0) == plugin_named(self@, name@),
    {
        match self.get_plugin(name) {
            Err(e) => Err(e),
            Ok(Plugin::Passkey(plugin)) => Ok(plugin),
            Ok(_) => Err(Error::PluginTypeMismatch),
        }
    }

    /// Forwards `setup` to every method once, in the order of registration,
    /// and stops at the first failure: the methods before the one that failed
    /// have logged their step, that one and those after it have not.
    pub fn setup<U: UserStore>(&self, users: &mut U) -> (r: Result<(), Error>)
        requires
            old(users).inv(),
        ensures
            final(users).inv(),
            final(users).reliable() == old(users).reliable(),
            old(users).reliable() ==> r is Ok,
            final(users).state().users == old(users).state().users,
            final(users).state().credentials == old(users).state().credentials,
            r is Ok ==> final(users).state().schema_log == old(users).state().schema_log
                + prepared_steps(self@),
            r is Err ==> ({
                let done = final(users).state().schema_log.len() - old(
                    users,
                ).state().schema_log.len();
                &&& is_unavailable(r)
                &&& 0 <= done < self@.len()
                &&& final(users).state().schema_log == old(users).state().schema_log
                    + prepared_steps(self@).subrange(0, done)
            }),
    {
        let mut i: usize = 0;
        while i < self.plugins.len()
            invariant
                i <= self.plugins.len(),
                users.inv(),
                users.reliable() == old(users).reliable(),
                users.state().users == old(users).state().users,
                users.state().credentials == old(users).state().credentials,
                users.state().schema_log == old(users).state().schema_log + prepared_steps(
                    self@,
                ).subrange(0, i as int),
            decreases self.plugins.len() - i,
        {
            match self.plugins[i].setup(users) {
                Err(e) => {
                    return Err(e);
                },
                Ok(()) => {},
            }
            assert(prepared_steps(self@).subrange(0, i + 1) =~= prepared_steps(self@).subrange(
                0,
                i as int,
            ).push(SchemaStepView::Prepared(self@[i as int].spec_name())));
            i += 1;
        }
        assert(prepared_steps(self@).subrange(0, i as int) =~= prepared_steps(self@));
        Ok(())
    }

    /// Forwards `migrate` to every method once, in the order of registration,
    /// and stops at the first failure: the methods before the one that failed
    /// have logged their step, that one and those after it have not.
    pub fn migrate<U: UserStore>(&self, users: &mut U) -> (r: Result<(), Error>)
        requires
            old(users).inv(),
        ensures
            final(users).inv(),
            final(users).reliable() == old(users).reliable(),
            old(users).reliable() ==> r is Ok,
            final(users).state().users == old(users).state().users,
            final(users).state().credentials == old(users).state().credentials,
            r is Ok ==> final(users).state().schema_log == old(users).state().schema_log
                + migrated_steps(self@),
            r is Err ==> ({
                let done = final(users).state().schema_log.len() - old(
                    users,
                ).state().schema_log.len();
                &&& is_unavailable(r)
                &&& 0 <= done < self@.len()
                &&& final(users).state().schema_log == old(users).state().schema_log
                    + migrated_steps(self@).subrange(0, done)
            }),
    {
        let mut i: usize = 0;
        while i < self.plugins.len()
            invariant
                i <= self.plugins.len(),
                users.inv(),
                users.reliable() == old(users).reliable(),
                users.state().users == old(users).state().users,
                users.state().credentials == old(users).state().credentials,
                users.state().schema_log == old(users).state().schema_log + migrated_steps(
                    self@,
                ).subrange(0, i as int),
            decreases self.plugins.len() - i,
        {
            match self.plugins[i].migrate(users) {
                Err(e) => {
                    return Err(e);
                },
                Ok(()) => {},
            }
            assert(migrated_steps(self@).subrange(0, i + 1) =~= migrated_steps(self@).subrange(
                0,
                i as int,
            ).push(SchemaStepView::Migrated(self@[i as int].spec_name())));
            i += 1;
        }
        assert(migrated_steps(self@).subrange(0, i as int) =~= migrated_steps(self@));
        Ok(())
    }

    /// Authenticates `credentials` with the method registered under
    /// `method`. A name that was never registered is an `UnknownMethod`.
    pub fn authenticate<U: UserStore>(&self, method: &str, users: &U, credentials: &Credentials) -> (r:
        Result<User, Error>)
        requires
            self.inv(),
            users.inv(),
        ensures
            !has_plugin(self@, method@) ==> fails_with(r, Error::UnknownMethod),
            has_plugin(self@, method@) ==> {
                &&& is_unavailable(r) ==> !users.reliable()
                &&& !is_unavailable(r) ==> user_outcome(r) == plugin_outcome(
                    plugin_named(self@, method@),
                    users.state(),
                    credentials@,
                )
            },
    {
        match self.position(method) {
            None => Err(Error::UnknownMethod),
            Some(i) => {
                proof {
                    lemma_plugin_named(self@, i as int);
                }
                self.plugins[i].authenticate(users, credentials)
            },
        }
    }
}

} // verus!
