pub mod auth;
pub mod errors;
