//! Query engine for a public-transit departure board: station lookup,
//! departure filtering and wait-time arithmetic.

pub mod board;
pub mod filter;
pub mod flow;
pub mod install;
pub mod lists;
pub mod model;
pub mod number;
pub mod resolve;
pub mod rules;
pub mod text;
pub mod wait;
