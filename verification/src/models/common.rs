//! Shared models: cell errors, developer metadata, dimensions, embedded
//! object positions, data execution status, and chips.

use vstd::prelude::*;

use crate::models::data_source::DataSourceColumnReference;
use crate::models::formatting::DisplayFormat;

verus! {

/// An error in a cell.
#[derive(Debug, Clone, PartialEq)]
pub struct ErrorValue {
    /// The kind of error.
    pub type_: Option<ErrorType>,
    /// A message with more information about the error, in the
    /// spreadsheet's locale.
    pub message: Option<String>,
}

/// The kind of an error in a cell.
#[derive(Debug, Clone, PartialEq, Eq)]
pub enum ErrorType {
    /// Default value, do not use.
    Unspecified,
    /// Corresponds to the `#ERROR!` error.
    Error,
    /// Corresponds to the `#NULL!` error.
    NullValue,
    /// Corresponds to the `#DIV/0` error.
    DivideByZero,
    /// Corresponds to the `#VALUE!` error.
    Value,
    /// Corresponds to the `#REF!` error.
    Ref,
    /// Corresponds to the `#NAME?` error.
    Name,
    /// Corresponds to the `#NUM!` error.
    Num,
    /// Corresponds to the `#N/A` error.
    NA,
    /// Corresponds to the `#LOADING!` error.
    Loading,
}

/// Developer metadata associated with a location or object in a spreadsheet.
#[derive(Debug, Clone, PartialEq)]
pub struct DeveloperMetadata {
    /// The spreadsheet-scoped unique ID that identifies the metadata.
    pub metadata_id: Option<i32>,
    /// The metadata key; several metadata may share one key.
    pub metadata_key: Option<String>,
    /// Data associated with the metadata's key.
    pub metadata_value: Option<String>,
    /// The location where the metadata is associated.
    pub location: Option<DeveloperMetadataLocation>,
    /// The visibility of the metadata.
    pub visibility: Option<DeveloperMetadataVisibility>,
}

/// A location where metadata may be associated in a spreadsheet.
#[derive(Debug, Clone, PartialEq)]
pub struct DeveloperMetadataLocation {
    /// The kind of location.
    pub location_type: Option<DeveloperMetadataLocationType>,
    /// True if the location is the whole spreadsheet.
    pub spreadsheet: Option<bool>,
    /// The ID of the sheet when the location applies to a sheet.
    pub sheet_id: Option<i32>,
    /// The dimension range when the location applies to a range of cells.
    pub dimension_range: Option<DimensionRange>,
}

/// The kind of a developer metadata location.
#[derive(Debug, Clone, PartialEq, Eq)]
pub enum DeveloperMetadataLocationType {
    Unspecified,
    Row,
    Column,
    Sheet,
    Spreadsheet,
}

/// The visibility of developer metadata.
#[derive(Debug, Clone, PartialEq, Eq)]
pub enum DeveloperMetadataVisibility {
    Unspecified,
    Document,
    Project,
}

/// A range along a single dimension on a sheet. All indices are zero-based
/// and half-open; a missing index means the range is unbounded on that side.
#[derive(Debug, Clone, PartialEq)]
pub struct DimensionRange {
    /// The sheet this dimension range is on.
    pub sheet_id: Option<i32>,
    /// The dimension of the span.
    pub dimension: Option<String>,
    /// The start (inclusive) of the span, or not set if unbounded.
    pub start_index: Option<i32>,
    /// The end (exclusive) of the span, or not set if unbounded.
    pub end_index: Option<i32>,
}

/// Properties about a dimension.
#[derive(Debug, Clone, PartialEq)]
pub struct DimensionProperties {
    /// True if this dimension is being filtered.
    pub hidden_by_filter: Option<bool>,
    /// True if this dimension is explicitly hidden.
    pub hidden_by_user: Option<bool>,
    /// The height (if a row) or width (if a column) in pixels.
    pub pixel_size: Option<i32>,
    /// The developer metadata associated with the dimension.
    pub developer_metadata: Option<Vec<DeveloperMetadata>>,
    /// The data source column reference.
    pub data_source_column_reference: Option<DataSourceColumnReference>,
}

/// The editors of a protected range.
#[derive(Debug, Clone, PartialEq)]
pub struct Editors {
    /// The email addresses of users with edit access.
    pub users: Option<Vec<String>>,
    /// The email addresses of groups with edit access.
    pub groups: Option<Vec<String>>,
    /// True if anyone in the document's domain has edit access.
    pub domain_users_can_edit: Option<bool>,
}

/// The position of an embedded object such as a chart.
#[derive(Debug, Clone, PartialEq)]
pub struct EmbeddedObjectPosition {
    /// The sheet this is on.
    pub sheet_id: Option<i32>,
    /// The position at which the object is overlaid on top of a grid.
    pub overlay_position: Option<OverlayPosition>,
    /// If true, the object is put on a new sheet whose ID is chosen for you.
    pub new_sheet: Option<bool>,
}

/// The position of an embedded object within a sheet.
#[derive(Debug, Clone, PartialEq)]
pub struct OverlayPosition {
    /// The cell the object is anchored to.
    pub anchor_cell: Option<GridCoordinate>,
    /// The horizontal offset from the anchor cell, in pixels.
    pub offset_x_pixels: Option<i32>,
    /// The vertical offset from the anchor cell, in pixels.
    pub offset_y_pixels: Option<i32>,
    /// The width of the object, in pixels.
    pub width_pixels: Option<i32>,
    /// The height of the object, in pixels.
    pub height_pixels: Option<i32>,
}

/// A zero-based coordinate in a sheet.
#[derive(Debug, Clone, PartialEq)]
pub struct GridCoordinate {
    /// The sheet this coordinate is on.
    pub sheet_id: Option<i32>,
    /// The row index of the coordinate.
    pub row_index: Option<i32>,
    /// The column index of the coordinate.
    pub column_index: Option<i32>,
}

/// The status of a data execution.
#[derive(Debug, Clone, PartialEq)]
pub struct DataExecutionStatus {
    /// The state of the data execution.
    pub state: Option<DataExecutionState>,
    /// The error code.
    pub error_code: Option<DataExecutionErrorCode>,
    /// The error message, which may be displayed to a user.
    pub error_message: Option<String>,
    /// The last time the data was refreshed, in RFC 3339 format.
    pub last_refresh_time: Option<String>,
}

/// The state of a data execution.
#[derive(Debug, Clone, PartialEq, Eq)]
pub enum DataExecutionState {
    Unspecified,
    NotStarted,
    Running,
    Cancelling,
    Succeeded,
    Failed,
}

/// Error codes for a data execution.
#[derive(Debug, Clone, PartialEq, Eq)]
pub enum DataExecutionErrorCode {
    Unspecified,
    TimedOut,
    TooManyRows,
    TooManyColumns,
    TooManyCells,
    Engine,
    ParameterInvalid,
    UnsupportedDataType,
    DuplicateColumnNames,
    Interrupted,
    ConcurrentQuery,
    Other,
    TooManyCharsPerCell,
    DataNotFound,
    PermissionDenied,
    MissingColumnAlias,
    ObjectNotFound,
    ObjectInErrorState,
    ObjectSpecInvalid,
    DataExecutionCancelled,
}

/// How often volatile functions are recalculated.
#[derive(Debug, Clone, PartialEq, Eq)]
pub enum RecalculationInterval {
    /// Default value. This value must not be used.
    Unspecified,
    /// Volatile functions are updated on every change.
    OnChange,
    /// Volatile functions are updated on every change and every minute.
    Minute,
    /// Volatile functions are updated on every change and hourly.
    Hour,
}

/// A run of rich text and associated semantic chips.
#[derive(Debug, Clone, PartialEq)]
pub struct ChipRun {
    /// The zero-based character index where this run starts.
    pub start_index: Option<i32>,
    /// The chip associated with this run.
    pub chip: Option<Chip>,
}

/// A chip is a UI element that represents a person or a rich link.
#[derive(Debug, Clone, PartialEq)]
pub struct Chip {
    /// Properties of a person chip.
    pub person_properties: Option<PersonProperties>,
    /// Properties of a rich link chip.
    pub rich_link_properties: Option<RichLinkProperties>,
}

/// Properties of a person chip.
#[derive(Debug, Clone, PartialEq)]
pub struct PersonProperties {
    /// The email address of the person.
    pub email: Option<String>,
    /// The display format of the person.
    pub display_format: Option<DisplayFormat>,
}

/// Properties of a rich link chip.
#[derive(Debug, Clone, PartialEq)]
pub struct RichLinkProperties {
    /// The URI of the rich link.
    pub uri: Option<String>,
    /// The MIME type of the rich link.
    pub mime_type: Option<String>,
}

/// Theme color types.
#[derive(Debug, Clone, PartialEq, Eq)]
pub enum ThemeColorType {
    Unspecified,
    Text,
    Background,
    Accent1,
    Accent2,
    Accent3,
    Accent4,
    Accent5,
    Accent6,
    Link,
}

/// A placeholder for pivot table functionality.
#[derive(Debug, Clone, PartialEq)]
pub struct PivotTable {}

} // verus!
