//! Object storage for the images of accounts.

pub mod b2;
pub mod object;
