//! Grid ranges and grid-level properties.

use vstd::prelude::*;

verus! {

/// A rectangular index bound over a sheet's grid.
///
/// All four indices are one-based and inclusive, matching the convention of
/// the A1 coordinate codec: `a1_to_grid_range("A1:B10")` yields rows 1..=10
/// and columns 1..=2. (The wire format's own `GridRange` uses zero-based
/// half-open indices; this type is the codec's in-memory bound and is never
/// serialized back as-is.) A bound produced by the codec always has all four
/// indices present, each at least 1, with start at or before end on both
/// axes; `sheet_id` is not set by range parsing.
#[derive(Debug, Clone, PartialEq)]
pub struct GridRange {
    /// The sheet this range is on.
    pub sheet_id: Option<i32>,
    /// The first row (one-based, inclusive) of the range.
    pub start_row_index: Option<usize>,
    /// The last row (one-based, inclusive) of the range.
    pub end_row_index: Option<usize>,
    /// The first column (one-based, inclusive) of the range.
    pub start_column_index: Option<usize>,
    /// The last column (one-based, inclusive) of the range.
    pub end_column_index: Option<usize>,
}

impl GridRange {
    /// A bound as range parsing produces it: every index present and at
    /// least 1, start at or before end on both axes.
    pub open spec fn well_formed(&self) -> bool {
        &&& self.start_row_index is Some
        &&& self.end_row_index is Some
        &&& self.start_column_index is Some
        &&& self.end_column_index is Some
        &&& 1 <= self.start_row_index.unwrap() <= self.end_row_index.unwrap()
        &&& 1 <= self.start_column_index.unwrap() <= self.end_column_index.unwrap()
    }
}

/// Properties of a sheet's grid.
#[derive(Debug, Clone, PartialEq)]
pub struct GridProperties {
    /// The number of rows in the grid.
    pub row_count: Option<i32>,
    /// The number of columns in the grid.
    pub column_count: Option<i32>,
    /// The number of rows that are frozen in the grid.
    pub frozen_row_count: Option<i32>,
    /// The number of columns that are frozen in the grid.
    pub frozen_column_count: Option<i32>,
    /// True if the grid is not showing gridlines in the UI.
    pub hide_gridlines: Option<bool>,
    /// True if the row grouping control toggle is shown after the group.
    pub row_group_control_after: Option<bool>,
    /// True if the column grouping control toggle is shown after the group.
    pub column_group_control_after: Option<bool>,
}

} // verus!
