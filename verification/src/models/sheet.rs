//! Sheet-level models: sheet kinds, data source sheets, dimension groups and
//! table columns.

use vstd::prelude::*;

use crate::models::common::{DataExecutionStatus, DimensionRange};
use crate::models::conditions::BooleanCondition;
use crate::models::data_source::DataSourceColumn;

verus! {

/// The kind of a sheet.
#[derive(Debug, Clone, PartialEq, Eq)]
pub enum SheetType {
    /// Default value, do not use.
    Unspecified,
    /// The sheet is a grid.
    Grid,
    /// The sheet has no grid and instead holds an object like a chart.
    Object,
    /// The sheet connects to an external data source.
    DataSource,
}

/// Additional properties of a sheet connected to a data source.
#[derive(Debug, Clone, PartialEq)]
pub struct DataSourceSheetProperties {
    /// The ID of the data source the sheet is connected to.
    pub data_source_id: Option<String>,
    /// The columns displayed on the sheet.
    pub columns: Option<Vec<DataSourceColumn>>,
    /// The data execution status.
    pub data_execution_status: Option<DataExecutionStatus>,
}

/// A group over an interval of rows or columns.
#[derive(Debug, Clone, PartialEq)]
pub struct DimensionGroup {
    /// The range over which this group exists.
    pub range: Option<DimensionRange>,
    /// The depth of the group: how many groups wholly contain it.
    pub depth: Option<i32>,
    /// True if this group is collapsed.
    pub collapsed: Option<bool>,
}

/// Properties of a table column.
#[derive(Debug, Clone, PartialEq)]
pub struct TableColumnProperties {
    /// The index of the column in the table.
    pub column_index: Option<i32>,
    /// The name of the column.
    pub column_name: Option<String>,
    /// The kind of the column.
    pub column_type: Option<ColumnType>,
    /// The data validation rule for the column.
    pub data_validation_rule: Option<TableColumnDataValidationRule>,
}

/// The kind of a table column.
#[derive(Debug, Clone, PartialEq, Eq)]
pub enum ColumnType {
    /// Default value, do not use.
    Unspecified,
    /// A column of numbers.
    Double,
    /// A column of currency values.
    Currency,
    /// A column of percentages.
    Percent,
    /// A column of dates.
    Date,
    /// A column of times.
    Time,
    /// A column of date-times.
    DateTime,
    /// A column of text.
    Text,
    /// A column of boolean values.
    Boolean,
    /// A column with a dropdown.
    Dropdown,
    /// A column with file chips.
    FilesChip,
    /// A column with people chips.
    PeopleChip,
    /// A column with finance chips.
    FinanceChip,
    /// A column with place chips.
    PlaceChip,
    /// A column with ratings chips.
    RatingsChip,
}

/// The data validation rule of a table column.
#[derive(Debug, Clone, PartialEq)]
pub struct TableColumnDataValidationRule {
    /// The condition that data in the table column must meet.
    pub condition: Option<BooleanCondition>,
}

} // verus!
