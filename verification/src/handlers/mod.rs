//! What the service answers its callers.

pub mod staff;
