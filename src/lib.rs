//! A generator model for bounded integer types: integers restricted to an
//! inclusive range of an underlying primitive.

pub mod bigint;
pub mod repr;
pub mod ops;
pub mod generate;
pub mod model;
pub mod nibble;
pub mod emit;
