pub mod profile;
