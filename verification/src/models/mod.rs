//! What callers send and receive.

pub mod decimal;
pub mod error;
pub mod item;
