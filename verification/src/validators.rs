//! The validators that this crate offers.
pub mod primitive;
