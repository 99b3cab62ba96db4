//! The logic of an identity service, verified.
//!
//! The heart of it is the coordinator of pending account operations
//! ([`db::Db`] over [`applications::Applications`]): registrations,
//! sign-ins through a provider, password recoveries and email changes that
//! have been started and not committed yet. They live in expiring stores
//! until they are committed, expire, or lose the connection that started
//! them. Around it stand the checks on what users send ([`validation`]),
//! what the request handlers decide ([`server`]), and what the service says
//! to its object storage ([`bucket`]).
//!
//! Nothing here talks to the network or to a database: work of that kind
//! is asked for by returning an action, and its result comes back as an
//! event.

pub mod applications;
pub mod bucket;
pub mod db;
pub mod encoding;
pub mod error;
pub mod mail;
pub mod server;
pub mod strings;
pub mod ui;
pub mod users;
pub mod validation;
