//! Helpers for the shapes in which the CSP's C functions exchange data.

pub mod buffer;
pub mod string;
