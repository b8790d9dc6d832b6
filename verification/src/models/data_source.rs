//! External data source models: specifications, columns and refresh
//! schedules.

use vstd::prelude::*;

use crate::models::common::DataExecutionStatus;
use crate::models::grid::GridRange;

verus! {

/// Information about an external data source in the spreadsheet.
#[derive(Debug, Clone, PartialEq)]
pub struct DataSource {
    /// The spreadsheet-scoped unique ID that identifies the data source.
    pub data_source_id: Option<String>,
    /// The specification of the data source.
    pub spec: Option<DataSourceSpec>,
    /// All calculated columns in the data source.
    pub calculated_columns: Option<Vec<DataSourceColumn>>,
    /// The ID of the sheet connected with the data source.
    pub sheet_id: Option<i32>,
}

/// The specification of a Looker data source.
#[derive(Debug, Clone, PartialEq)]
pub struct LookerDataSourceSpec {
    /// The instance URI of the Looker deployment.
    pub instance_uri: Option<String>,
    /// The name of a Looker model.
    pub model: Option<String>,
    /// The name of a Looker explore.
    pub explore: Option<String>,
}

/// The specification of a data source.
#[derive(Debug, Clone, PartialEq)]
pub struct DataSourceSpec {
    /// The parameters of the data source.
    pub parameters: Option<Vec<DataSourceParameter>>,
    /// A BigQuery data source specification.
    pub big_query: Option<BigQueryDataSourceSpec>,
    /// A Looker data source specification.
    pub looker: Option<LookerDataSourceSpec>,
}

/// A parameter of a data source's query.
#[derive(Debug, Clone, PartialEq)]
pub struct DataSourceParameter {
    /// The parameter's name.
    pub name: Option<String>,
    /// The ID of a named range whose value is the parameter's value.
    pub named_range_id: Option<String>,
    /// A range whose value is the parameter's value.
    pub range: Option<GridRange>,
}

/// A column in a data source.
#[derive(Debug, Clone, PartialEq)]
pub struct DataSourceColumn {
    /// The column reference.
    pub reference: Option<DataSourceColumnReference>,
    /// The formula of a calculated column.
    pub formula: Option<String>,
}

/// A schedule for refreshing a data source.
#[derive(Debug, Clone, PartialEq)]
pub struct DataSourceRefreshSchedule {
    /// True if the schedule is enabled.
    pub enabled: Option<bool>,
    /// The scope of the refresh.
    pub refresh_scope: Option<DataSourceRefreshScope>,
    /// The time interval of the next run.
    pub next_run: Option<Interval>,
    /// A daily schedule.
    pub daily_schedule: Option<DataSourceRefreshDailySchedule>,
    /// A weekly schedule.
    pub weekly_schedule: Option<DataSourceRefreshWeeklySchedule>,
    /// A monthly schedule.
    pub monthly_schedule: Option<DataSourceRefreshMonthlySchedule>,
}

/// The scope of a data source refresh.
#[derive(Debug, Clone, PartialEq, Eq)]
pub enum DataSourceRefreshScope {
    Unspecified,
    AllDataSources,
}

/// A daily refresh schedule.
#[derive(Debug, Clone, PartialEq)]
pub struct DataSourceRefreshDailySchedule {
    /// The start time of the refresh window.
    pub start_time: Option<TimeOfDay>,
}

/// A weekly refresh schedule.
#[derive(Debug, Clone, PartialEq)]
pub struct DataSourceRefreshWeeklySchedule {
    /// The start time of the refresh window.
    pub start_time: Option<TimeOfDay>,
    /// The days of the week to run the refresh on.
    pub days_of_week: Option<Vec<DayOfWeek>>,
}

/// A day of the week.
#[derive(Debug, Clone, PartialEq, Eq)]
pub enum DayOfWeek {
    Unspecified,
    Monday,
    Tuesday,
    Wednesday,
    Thursday,
    Friday,
    Saturday,
    Sunday,
}

/// A monthly refresh schedule.
#[derive(Debug, Clone, PartialEq)]
pub struct DataSourceRefreshMonthlySchedule {
    /// The start time of the refresh window.
    pub start_time: Option<TimeOfDay>,
    /// The days of the month to run the refresh on.
    pub days_of_month: Option<Vec<i32>>,
}

/// A time of day.
#[derive(Debug, Clone, PartialEq)]
pub struct TimeOfDay {
    /// Hours of day in 24-hour format.
    pub hours: Option<i32>,
    /// Minutes of the hour.
    pub minutes: Option<i32>,
    /// Seconds of the minute.
    pub seconds: Option<i32>,
    /// Fractions of the second, in nanoseconds.
    pub nanos: Option<i32>,
}

/// A time interval, given as RFC 3339 timestamps.
#[derive(Debug, Clone, PartialEq)]
pub struct Interval {
    /// The inclusive start of the interval.
    pub start_time: Option<String>,
    /// The exclusive end of the interval.
    pub end_time: Option<String>,
}

/// A reference to a data source column by name.
#[derive(Debug, Clone, PartialEq)]
pub struct DataSourceColumnReference {
    /// The display name of the column.
    pub name: Option<String>,
}

/// The specification of a BigQuery data source.
#[derive(Debug, Clone, PartialEq)]
pub struct BigQueryDataSourceSpec {
    /// The ID of the BigQuery-enabled Google Cloud project.
    pub project_id: Option<String>,
    /// A query specification.
    pub query_spec: Option<BigQueryQuerySpec>,
    /// A table specification.
    pub table_spec: Option<BigQueryTableSpec>,
}

/// A BigQuery query.
#[derive(Debug, Clone, PartialEq)]
pub struct BigQueryQuerySpec {
    /// The raw query string.
    pub raw_query: Option<String>,
}

/// A BigQuery table reference.
#[derive(Debug, Clone, PartialEq)]
pub struct BigQueryTableSpec {
    /// The ID of the project the table belongs to.
    pub table_project_id: Option<String>,
    /// The ID of the table.
    pub table_id: Option<String>,
    /// The ID of the dataset the table belongs to.
    pub dataset_id: Option<String>,
}

/// How columns of a data source table are selected.
#[derive(Debug, Clone, PartialEq, Eq)]
pub enum DataSourceTableColumnSelectionType {
    Unspecified,
    Selected,
    SyncAll,
}

/// A data source formula.
#[derive(Debug, Clone, PartialEq)]
pub struct DataSourceFormula {
    /// The ID of the data source the formula is associated with.
    pub data_source_id: Option<String>,
    /// The status of the formula's data execution.
    pub data_execution_status: Option<DataExecutionStatus>,
}

} // verus!
