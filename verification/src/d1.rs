//! The D1 service: what its HTTP API answers to a query.

pub mod json;
pub mod model;
pub mod shape;
pub mod wire;
