pub mod json;
pub mod models;
pub mod record;
pub mod repositories;
