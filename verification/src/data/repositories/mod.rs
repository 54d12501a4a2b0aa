pub mod graph;
pub mod query;
pub mod round_trip;
