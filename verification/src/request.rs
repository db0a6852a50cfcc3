//! Request targets from a bare API key.

pub mod youtube;
