//! The front door: a builder that collects the authentication methods and
//! prepares the storage for them, and the instance it builds.

use vstd::prelude::*;
use crate::error::{fails_with, is_unavailable, Error};
use crate::model::{user_outcome, SchemaStepView, User};
use crate::password::{registration_result, PasswordPlugin, PASSWORD_METHOD};
use crate::plugin::{
    has_plugin, migrated_steps, plugin_named, plugin_outcome, prepared_steps, Credentials, Plugin,
    PluginManager,
};
use crate::storage::UserStore;

verus! {

/// Collects the authentication methods of an instance.
#[derive(Debug)]
pub struct ToriiBuilder {
    manager: PluginManager,
    duplicate: bool,
}

impl ToriiBuilder {
    /// The builder's well-formedness: that of its registry.
    pub closed spec fn inv(&self) -> bool {
        self.manager.inv()
    }

    /// The methods collected so far, in the order they were added.
    pub closed spec fn plugins(&self) -> Seq<Plugin> {
        self.manager@
    }

    /// Whether a method was added under a name that was already taken.
    pub closed spec fn misconfigured(&self) -> bool {
        self.duplicate
    }

    /// Whether a method was added under a name that was already taken.
    pub fn is_misconfigured(&self) -> (yes: bool)
        ensures
            yes == self.misconfigured(),
    {
        self.duplicate
    }

    /// A builder without methods.
    pub fn new() -> (builder: Self)
        ensures
            builder.inv(),
            builder.plugins() == Seq::<Plugin>::empty(),
            !builder.misconfigured(),
    {
        ToriiBuilder { manager: PluginManager::new(), duplicate: false }
    }

    /// Adds a method. A name that is already taken adds nothing and marks
    /// the builder misconfigured, which `setup` reports.
    pub fn with_plugin(self, plugin: Plugin) -> (builder: Self)
        requires
            self.inv(),
        ensures
            builder.inv(),
            has_plugin(self.plugins(), plugin.spec_name()) ==> builder.misconfigured()
                && builder.plugins() == self.plugins(),
            !has_plugin(self.plugins(), plugin.spec_name()) ==> builder.misconfigured()
                == self.misconfigured() && builder.plugins() == self.plugins().push(plugin),
    {
        let mut builder = self;
        match builder.manager.register(plugin) {
            Err(_) => {
                builder.duplicate = true;
            },
            Ok(()) => {},
        }
        builder
    }

    /// Adds the password method.
    pub fn with_email_auth(self) -> (builder: Self)
        requires
            self.inv(),
        ensures
            builder.inv(),
            has_plugin(self.plugins(), PASSWORD_METHOD@) ==> builder.misconfigured()
                && builder.plugins() == self.plugins(),
            !has_plugin(self.plugins(), PASSWORD_METHOD@) ==> {
                &&& builder.misconfigured() == self.misconfigured()
                &&& builder.plugins().len() == self.plugins().len() + 1
                &&& builder.plugins().drop_last() == self.plugins()
                &&& builder.plugins().last() is Password
            },
    {
        let plugin = Plugin::Password(PasswordPlugin::new());
        let ghost before = self.plugins();
        let builder = self.with_plugin(plugin);
        assert(!has_plugin(before, PASSWORD_METHOD@) ==> builder.plugins().drop_last() =~= before);
        builder
    }

    /// Adds every method that is on by default: the password method.
    pub fn with_defaults(self) -> (builder: Self)
        requires
            self.inv(),
        ensures
            builder.inv(),
            has_plugin(self.plugins(), PASSWORD_METHOD@) ==> builder.misconfigured()
                && builder.plugins() == self.plugins(),
            !has_plugin(self.plugins(), PASSWORD_METHOD@) ==> {
                &&& builder.misconfigured() == self.misconfigured()
                &&& builder.plugins().len() == self.plugins().len() + 1
                &&& builder.plugins().drop_last() == self.plugins()
                &&& builder.plugins().last() is Password
            },
    {
        self.with_email_auth()
    }

    /// Prepares `users` for the collected methods and builds the instance:
    /// one pass of `setup` over every method, then one pass of `migrate`, as
    /// the log of the storage then shows. Startup fails as a whole: on a
    /// misconfigured builder before the storage is touched, and on the first
    /// method the storage cannot be prepared for.
    pub fn setup<U: UserStore>(self, users: U) -> (r: Result<Torii<U>, Error>)
        requires
            self.inv(),
            users.inv(),
        ensures
            self.misconfigured() ==> fails_with(r, Error::ConfigurationError),
            !self.misconfigured() && users.reliable() ==> r is Ok,
            match r {
                Ok(torii) => {
                    &&& !self.misconfigured()
                    &&& torii.inv()
                    &&& torii.plugins() == self.plugins()
                    &&& torii.storage().reliable() == users.reliable()
                    &&& torii.storage().state().users == users.state().users
                    &&& torii.storage().state().credentials == users.state().credentials
                    &&& torii.storage().state().schema_log == users.state().schema_log
                        + prepared_steps(self.plugins()) + migrated_steps(self.plugins())
                },
                Err(e) => (e == Error::ConfigurationError && self.misconfigured()) || (
                is_unavailable(r) && !users.reliable()),
            },
    {
        if self.duplicate {
            return Err(Error::ConfigurationError);
        }
        let mut users = users;
        match self.manager.setup(&mut users) {
            Err(e) => {
                return Err(e);
            },
            Ok(()) => {},
        }
        match self.manager.migrate(&mut users) {
            Err(e) => {
                return Err(e);
            },
            Ok(()) => {},
        }
        Ok(Torii { manager: self.manager, users })
    }
}

impl Default for ToriiBuilder {
    /// A builder without methods.
    fn default() -> (builder: Self)
        ensures
            builder.inv(),
            builder.plugins() == Seq::<Plugin>::empty(),
            !builder.misconfigured(),
    {
        ToriiBuilder::new()
    }
}

/// An instance: the registered methods and the user storage they run on.
pub struct Torii<U: UserStore> {
    manager: PluginManager,
    users: U,
}

impl<U: UserStore> Torii<U> {
    /// The instance's well-formedness: that of its registry and its storage.
    pub closed spec fn inv(&self) -> bool {
        self.manager.inv() && self.users.inv()
    }

    /// The registered methods.
    pub closed spec fn plugins(&self) -> Seq<Plugin> {
        self.manager@
    }

    /// The user storage.
    pub closed spec fn storage(&self) -> U {
        self.users
    }

    /// An instance on `users` with the default methods.
    pub fn with_storage(users: U) -> (r: Result<Self, Error>)
        requires
            users.inv(),
        ensures
            users.reliable() ==> r is Ok,
            match r {
                Ok(torii) => {
                    &&& torii.inv()
                    &&& torii.plugins().len() == 1
                    &&& torii.plugins()[0] is Password
                    &&& torii.storage().reliable() == users.reliable()
                    &&& torii.storage().state().users == users.state().users
                    &&& torii.storage().state().credentials == users.state().credentials
                    &&& torii.storage().state().schema_log == users.state().schema_log.push(
                        SchemaStepView::Prepared(PASSWORD_METHOD@),
                    ).push(SchemaStepView::Migrated(PASSWORD_METHOD@))
                },
                Err(_) => is_unavailable(r) && !users.reliable(),
            },
    {
        let builder = ToriiBuilder::new();
        assert(!has_plugin(builder.plugins(), PASSWORD_METHOD@));
        let builder = builder.with_defaults();
        proof {
            let plugins = builder.plugins();
            let log = users.state().schema_log;
            assert(plugins[0] == plugins.last());
            assert(plugins[0].spec_name() == PASSWORD_METHOD@);
            assert(log + prepared_steps(plugins) + migrated_steps(plugins) =~= log.push(
                SchemaStepView::Prepared(PASSWORD_METHOD@),
            ).push(SchemaStepView::Migrated(PASSWORD_METHOD@)));
        }
        builder.setup(users)
    }

    /// The registry, for the methods that run in several steps.
    pub fn manager(&self) -> (manager: &PluginManager)
        ensures
            manager@ == self.plugins(),
    {
        &self.manager
    }

    /// The user storage.
    pub fn users(&self) -> (users: &U)
        ensures
            *users == self.storage(),
    {
        &self.users
    }

    /// Registers `email` with `password` through the password method. Where
    /// that method is not registered under its name, nothing happens.
    pub fn register_user(&mut self, email: &str, password: &str, now: u64) -> (r: Result<
        User,
        Error,
    >)
        requires
            old(self).inv(),
        ensures
            final(self).inv(),
            final(self).plugins() == old(self).plugins(),
            final(self).storage().reliable() == old(self).storage().reliable(),
            !has_plugin(old(self).plugins(), PASSWORD_METHOD@) ==> fails_with(
                r,
                Error::PluginNotFound,
            ) && final(self).storage().state() == old(self).storage().state(),
            has_plugin(old(self).plugins(), PASSWORD_METHOD@) && !(plugin_named(
                old(self).plugins(),
                PASSWORD_METHOD@,
            ) is Password) ==> fails_with(r, Error::PluginTypeMismatch) && final(self).storage().state() == old(self).storage().state(),
            has_plugin(old(self).plugins(), PASSWORD_METHOD@) && plugin_named(
                old(self).plugins(),
                PASSWORD_METHOD@,
            ) is Password ==> registration_result(
                old(self).storage().state(),
                final(self).storage().state(),
                old(self).storage().reliable(),
                email@,
                password@,
                now,
                r,
            ),
    {
        match self.manager.get_password_plugin(PASSWORD_METHOD) {
            Err(e) => Err(e),
            Ok(plugin) => plugin.register(&mut self.users, email, password, now),
        }
    }

    /// Authenticates `credentials` with the method registered under
    /// `method`. A name that was never registered is an `UnknownMethod`.
    pub fn authenticate(&self, method: &str, credentials: &Credentials) -> (r: Result<User, Error>)
        requires
            self.inv(),
        ensures
            !has_plugin(self.plugins(), method@) ==> fails_with(r, Error::UnknownMethod),
            has_plugin(self.plugins(), method@) ==> {
                &&& is_unavailable(r) ==> !self.storage().reliable()
                &&& !is_unavailable(r) ==> user_outcome(r) == plugin_outcome(
                    plugin_named(self.plugins(), method@),
                    self.storage().state(),
                    credentials@,
                )
            },
    {
        self.manager.authenticate(method, &self.users, credentials)
    }
}

} // verus!
