//! The views of values that may be absent or may be errors.

use vstd::prelude::*;

verus! {

/// A `Result` as a value of mathematics: the view of what it holds, on
/// either side.
pub open spec fn result_view<T: View, E: View>(result: Result<T, E>) -> Result<T::V, E::V> {
    match result {
        Ok(value) => Ok(value@),
        Err(error) => Err(error@),
    }
}

/// An `Option` as a value of mathematics: the view of what it holds, if
/// anything.
pub open spec fn option_view<T: View>(option: Option<T>) -> Option<T::V> {
    match option {
        Some(value) => Some(value@),
        None => None,
    }
}

} // verus!
