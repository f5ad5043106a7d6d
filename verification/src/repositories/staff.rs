//! The answers of a store that hands back the rows it touched.
//!
//! A relational store answers an insert with the row as it now stands. The
//! id that the service waits for is read from that row here, so that every
//! such store reads it the same way.

use crate::entities::items::{Items, ItemsView};
use crate::repositories::items::{StoreError, StoreErrorView};
use crate::views::result_view;
use vstd::prelude::*;

verus! {

/// The id that the store made for the row it has just stored. A row that
/// comes back without one is no stored row: the insert has failed.
pub open spec fn generated_id_of(row: ItemsView) -> Result<i32, StoreErrorView> {
    match row.id {
        Some(id) => Ok(id),
        None => Err(StoreErrorView::RowNotFound),
    }
}

/// The id that the store made for the row it has just stored, or the
/// failure that a row without an id amounts to.
pub fn generated_id(row: &Items) -> (id: Result<i32, StoreError>)
    ensures
        result_view(id) == generated_id_of(row@),
{
    match row.id {
        Some(id) => Ok(id),
        None => Err(StoreError::RowNotFound),
    }
}

} // verus!
