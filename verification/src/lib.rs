//! A typed, null-aware single-column container backed by `polars`.

pub mod arith;
pub mod bridge;
pub mod dtype;
pub mod engine;
pub mod engine_arith;
pub mod engine_relate;
pub mod error;
pub mod laws;
pub mod model;
pub mod order;
pub mod reduce;
pub mod relate;
pub mod series;
