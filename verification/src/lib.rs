//! Reputation scoring for an identity from two activity signals: pushes to a
//! code host and transactions on a chain.
//!
//! Every quantity is held exactly, as an integer: a normalized factor in
//! parts of ten thousand, a score in millionths of a point.

pub mod cache;
pub mod calculator;
pub mod decimal;
pub mod defi;
pub mod fixed;
pub mod github;
pub mod identity;
pub mod json;
pub mod model;
pub mod normalize;
pub mod outcall;
pub mod reputation;
pub mod text;
