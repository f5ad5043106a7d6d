//! What the service does.

pub mod adding;
pub mod staff;
