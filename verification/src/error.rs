//! Error values surfaced by the verified core.

use vstd::prelude::*;

verus! {

/// An error produced by the coordinate codec or the grid reconciler.
///
/// The codec and the reconciler never recover from these internally: every
/// failure surfaces immediately to the caller, before any cell is emitted.
#[derive(Clone, Copy, Debug, PartialEq, Eq)]
pub enum GSheetError {
    /// A single-cell token failed to parse: a character that is neither a
    /// leading ASCII letter nor a trailing ASCII digit, a missing letter or
    /// digit run, a zero row index, or an index too large for `usize`.
    InvalidReference,
    /// A malformed composite range: wrong `!` or `:` separator count, or
    /// bounds given in reverse order.
    InvalidRange,
    /// A value payload lacks the range string needed to interpret its values.
    MissingRange,
}

impl GSheetError {
    /// A short human-readable description of the error.
    pub fn message(&self) -> (r: &'static str)
        ensures
            self is InvalidReference ==> r@ == "invalid cell reference"@,
            self is InvalidRange ==> r@ == "invalid range"@,
            self is MissingRange ==> r@ == "value range has no range string"@,
    {
        match self {
            GSheetError::InvalidReference => "invalid cell reference",
            GSheetError::InvalidRange => "invalid range",
            GSheetError::MissingRange => "value range has no range string",
        }
    }
}

} // verus!
