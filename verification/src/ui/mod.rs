//! What the pages decide before they ask the service.

pub mod auth;
