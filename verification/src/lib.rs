//! A verified core for a fetch-and-render screen: an epoch-guarded fetch
//! lifecycle (idle, loading, success, error), schema validation of a JSON
//! response body, a pure renderer from state to an abstract view, and a
//! line-item price aggregator.

pub mod aggregate;
pub mod controller;
pub mod digits;
pub mod json;
pub mod payload;
pub mod render;
pub mod state;
pub mod url;
pub mod validate;
