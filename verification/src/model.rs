//! Models of optional values and of results, for use in contracts.

use vstd::prelude::*;

verus! {

/// The model of an optional value: the model of what it holds.
pub open spec fn option_view<T: View>(value: Option<T>) -> Option<T::V> {
    match value {
        Some(value) => Some(value@),
        None => None,
    }
}

/// The model of a result: the model of the value or of the error.
pub open spec fn result_view<T: View, E: View>(result: Result<T, E>) -> Result<T::V, E::V> {
    match result {
        Ok(value) => Ok(value@),
        Err(error) => Err(error@),
    }
}

} // verus!
