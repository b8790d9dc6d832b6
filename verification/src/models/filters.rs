//! Sorting and filtering models.

use vstd::prelude::*;

verus! {

/// A sort order.
#[derive(Debug, Clone, PartialEq, Eq)]
pub enum SortOrder {
    Unspecified,
    Ascending,
    Descending,
}

} // verus!
