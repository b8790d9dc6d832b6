//! Addressed cell records produced by the grid reconciler.

use vstd::prelude::*;

verus! {

/// One addressed unit of grid data.
///
/// `address` is the A1 string of the cell (`"B3"`), decomposed into
/// `col` (the column letters), `col_index` and `row_index` (both one-based).
/// `value` is absent when the source value array had no entry at the cell's
/// offset — short or ragged arrays stand for trailing blank cells.
/// `sheet_id` and `sheet_title` carry identifying context for the caller and
/// play no part in any computation.
#[derive(Debug, Clone, PartialEq)]
pub struct Cell {
    /// The full A1 address, column letters then row digits.
    pub address: String,
    /// The identifier of the spreadsheet the cell came from.
    pub sheet_id: String,
    /// The title of the sheet the cell came from.
    pub sheet_title: String,
    /// The cell's text, or `None` for a blank cell.
    pub value: Option<String>,
    /// The one-based column index.
    pub col_index: usize,
    /// The column letters of the address.
    pub col: String,
    /// The one-based row index.
    pub row_index: usize,
}

/// The mathematical content of a [`Cell`]: every text field as a character
/// sequence and every index as an unbounded integer.
pub ghost struct CellView {
    pub address: Seq<char>,
    pub sheet_id: Seq<char>,
    pub sheet_title: Seq<char>,
    pub value: Option<Seq<char>>,
    pub col_index: int,
    pub col: Seq<char>,
    pub row_index: int,
}

impl View for Cell {
    type V = CellView;

    open spec fn view(&self) -> CellView {
        CellView {
            address: self.address@,
            sheet_id: self.sheet_id@,
            sheet_title: self.sheet_title@,
            value: match self.value {
                Some(v) => Some(v@),
                None => None,
            },
            col_index: self.col_index as int,
            col: self.col@,
            row_index: self.row_index as int,
        }
    }
}

} // verus!
