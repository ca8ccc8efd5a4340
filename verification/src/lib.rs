//! Value types that cross a C calling boundary, and the decoded form of a
//! D1 query response.

pub mod d1;
pub mod types;
