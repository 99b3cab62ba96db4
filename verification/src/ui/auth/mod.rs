pub mod login;
pub mod register;
