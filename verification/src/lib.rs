//! The decision logic of an MLX binding for the Metal backend.

pub mod call;
pub mod error;
pub mod guard;
pub mod handles;
pub mod instrument;
pub mod laws;
pub mod memory;
pub mod metal;
pub mod op;
pub mod table;
pub mod text;
pub mod vector;
