//! The store, as the service sees it.

pub mod items;
pub mod staff;
