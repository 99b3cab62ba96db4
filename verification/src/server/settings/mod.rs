pub mod email;
pub mod metadata;
pub mod password;
pub mod username;
