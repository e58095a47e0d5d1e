//! Market-maker arithmetic.
pub mod constant_product;
