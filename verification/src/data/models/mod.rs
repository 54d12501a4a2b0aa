pub mod graph;
pub mod user;
