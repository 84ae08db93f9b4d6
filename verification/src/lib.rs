//! A pluggable authentication core.
//!
//! An application registers the authentication methods it offers (password,
//! OAuth, passkey) in a [`plugin::PluginManager`], runs them against storage
//! backends that implement the ports of [`storage`], and issues and checks
//! sessions through a [`session::SessionManager`], whichever method
//! authenticated the user. [`torii`] is the front door for the common case.
//!
//! The core does no input or output of its own. Time comes in as a
//! parameter, in seconds. What needs the network or an authenticator's
//! cryptography is done by the host between two calls: the first call says
//! what to do, the second takes what came of it.
//!
//! Contracts speak of the mathematical state of a backend, so every
//! operation says what it returns and how the stores move, for backends that
//! may fail and, exactly, for those that declare they never do.

pub mod crypto;
pub mod error;
pub mod identity;
pub mod keyed;
pub mod memory;
pub mod model;
pub mod oauth;
pub mod passkey;
pub mod password;
pub mod plugin;
pub mod session;
pub mod storage;
pub mod torii;
