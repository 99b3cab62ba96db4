pub mod logging;
pub mod oidc;
pub mod recovery;
pub mod register;
