//! What the store holds.

pub mod items;
