pub mod config;
pub mod database;
pub mod errors;
