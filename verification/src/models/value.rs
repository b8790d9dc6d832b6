//! Value-range payloads and the request options that accompany them.

use vstd::prelude::*;

verus! {

/// Indicates which dimension an operation should apply to.
#[derive(Debug, Clone, PartialEq)]
pub enum Dimension {
    /// The default value, do not use.
    DimensionUnspecified,
    /// Operates on the rows of a sheet.
    Rows,
    /// Operates on the columns of a sheet.
    Columns,
}

impl Dimension {
    /// The wire code of the variant, as the API's query parameters expect it.
    pub fn as_str(&self) -> (r: &'static str)
        ensures
            self is DimensionUnspecified ==> r@ == "DIMENSION_UNSPECIFIED"@,
            self is Rows ==> r@ == "ROWS"@,
            self is Columns ==> r@ == "COLUMNS"@,
    {
        match self {
            Dimension::DimensionUnspecified => "DIMENSION_UNSPECIFIED",
            Dimension::Rows => "ROWS",
            Dimension::Columns => "COLUMNS",
        }
    }
}

impl Default for Dimension {
    /// Reading and writing default to row-major payloads.
    fn default() -> (r: Self)
        ensures
            r is Rows,
    {
        Dimension::Rows
    }
}

/// Data within a range of the spreadsheet: the A1 range string the values
/// cover, the major dimension of the value array, and the values themselves.
///
/// The grid reconciler consumes this as an immutable input. `range` must be
/// present for reconciliation; `values` may be absent, which stands for an
/// entirely blank grid, and rows may be short or missing, which stands for
/// trailing blank cells.
#[derive(Debug, Clone, PartialEq)]
pub struct ValueRange {
    /// The range the values cover, in A1 notation.
    pub range: Option<String>,
    /// The major dimension of the values.
    pub major_dimension: Option<Dimension>,
    /// The data that was read or is to be written, one inner array per major
    /// dimension, one item per cell.
    pub values: Option<Vec<Vec<String>>>,
}

impl ValueRange {
    /// Whether the payload carries the range string needed to interpret it.
    pub open spec fn has_range(&self) -> bool {
        self.range is Some
    }

    /// The characters of the range string (meaningful when `has_range`).
    pub open spec fn spec_range(&self) -> Seq<char> {
        self.range.unwrap()@
    }

    /// The value array as a sequence of rows of character sequences; an
    /// absent array is an empty grid.
    pub open spec fn grid(&self) -> Seq<Seq<Seq<char>>> {
        match self.values {
            Some(v) => v.deep_view(),
            None => Seq::empty(),
        }
    }
}

/// A set of value ranges returned by a batch read.
#[derive(Debug, Clone, PartialEq)]
pub struct BatchValueRanges {
    /// The spreadsheet the values were read from.
    pub spreadsheet_id: String,
    /// One value range per requested range.
    pub value_ranges: Vec<ValueRange>,
}

/// Determines how values should be rendered in the output.
#[derive(Debug, Clone, PartialEq)]
pub enum ValueRenderOption {
    /// Values are calculated and formatted according to the cell's format.
    FormattedValue,
    /// Values are calculated but not formatted.
    UnformattedValue,
    /// Values are not calculated; the reply includes the formulas.
    Formula,
}

impl ValueRenderOption {
    /// The wire code of the variant.
    pub fn as_str(&self) -> (r: &'static str)
        ensures
            self is FormattedValue ==> r@ == "FORMATTED_VALUE"@,
            self is UnformattedValue ==> r@ == "UNFORMATTED_VALUE"@,
            self is Formula ==> r@ == "FORMULA"@,
    {
        match self {
            ValueRenderOption::FormattedValue => "FORMATTED_VALUE",
            ValueRenderOption::UnformattedValue => "UNFORMATTED_VALUE",
            ValueRenderOption::Formula => "FORMULA",
        }
    }
}

impl Default for ValueRenderOption {
    fn default() -> (r: Self)
        ensures
            r is FormattedValue,
    {
        ValueRenderOption::FormattedValue
    }
}

/// Determines how dates should be rendered in the output.
#[derive(Debug, Clone, PartialEq)]
pub enum DateTimeRenderOption {
    /// Date, time, datetime and duration fields are output as doubles in
    /// "serial number" format: days since December 30th 1899, with the time
    /// as the fractional part.
    SerialNumber,
    /// Such fields are output as strings in their given number format.
    FormattedString,
}

impl DateTimeRenderOption {
    /// The wire code of the variant.
    pub fn as_str(&self) -> (r: &'static str)
        ensures
            self is SerialNumber ==> r@ == "SERIAL_NUMBER"@,
            self is FormattedString ==> r@ == "FORMATTED_STRING"@,
    {
        match self {
            DateTimeRenderOption::SerialNumber => "SERIAL_NUMBER",
            DateTimeRenderOption::FormattedString => "FORMATTED_STRING",
        }
    }
}

impl Default for DateTimeRenderOption {
    fn default() -> (r: Self)
        ensures
            r is SerialNumber,
    {
        DateTimeRenderOption::SerialNumber
    }
}

/// Determines how input data should be interpreted when writing.
#[derive(Debug, Clone, PartialEq)]
pub enum ValueInputOption {
    /// Default input value. This value must not be used.
    InputValueOptionUnspecified,
    /// The values the user has entered are stored as-is, unparsed.
    Raw,
    /// The values are parsed as if the user typed them into the UI.
    UserEntered,
}

impl ValueInputOption {
    /// The wire code of the variant.
    pub fn as_str(&self) -> (r: &'static str)
        ensures
            self is InputValueOptionUnspecified ==> r@ == "INPUT_VALUE_OPTION_UNSPECIFIED"@,
            self is Raw ==> r@ == "RAW"@,
            self is UserEntered ==> r@ == "USER_ENTERED"@,
    {
        match self {
            ValueInputOption::InputValueOptionUnspecified => "INPUT_VALUE_OPTION_UNSPECIFIED",
            ValueInputOption::Raw => "RAW",
            ValueInputOption::UserEntered => "USER_ENTERED",
        }
    }
}

impl Default for ValueInputOption {
    fn default() -> (r: Self)
        ensures
            r is UserEntered,
    {
        ValueInputOption::UserEntered
    }
}

/// The response when updating a single range of values in a spreadsheet.
#[derive(Debug, Clone, PartialEq)]
pub struct UpdateValuesResponse {
    /// The spreadsheet the updates were applied to.
    pub spreadsheet_id: String,
    /// The range (in A1 notation) that updates were applied to.
    pub updated_range: String,
    /// The number of rows where at least one cell was updated.
    pub updated_rows: i32,
    /// The number of columns where at least one cell was updated.
    pub updated_columns: i32,
    /// The number of cells updated.
    pub updated_cells: i32,
    /// The values of the cells after the update, when the request asked for
    /// them to be included.
    pub updated_data: Option<ValueRange>,
}

/// The response when updating several ranges of values in a spreadsheet.
#[derive(Debug, Clone, PartialEq)]
pub struct BatchUpdateValuesResponse {
    /// The spreadsheet the updates were applied to.
    pub spreadsheet_id: String,
    /// The total number of rows where at least one cell was updated.
    pub total_updated_rows: i32,
    /// The total number of columns where at least one cell was updated.
    pub total_updated_columns: i32,
    /// The total number of cells updated.
    pub total_updated_cells: i32,
    /// The total number of sheets where at least one cell was updated.
    pub total_updated_sheets: i32,
    /// One response per requested range, in request order.
    pub responses: Vec<UpdateValuesResponse>,
}

} // verus!
