//! Plain Rust types that stand for the CSP's C values.

pub mod error;
pub mod blob;
pub mod bool;
pub mod handle;
