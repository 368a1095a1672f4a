//! Conga: an in-memory relay of JSON items, grouped in named queues, with an
//! allow-list of API keys in front of it.

pub mod clock;
pub mod laws;
pub mod middleware;
pub mod routes;
pub mod store;
pub mod structs;
pub mod uptime;
pub mod utils;
