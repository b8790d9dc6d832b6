//! Chart models: chart kinds, axes, legends, labels and grouping rules.

use vstd::prelude::*;

use crate::models::common::DataExecutionStatus;
use crate::models::formatting::HorizontalAlign;
use crate::models::grid::GridRange;

verus! {

/// The position of text within a chart.
#[derive(Debug, Clone, PartialEq)]
pub struct TextPosition {
    /// The horizontal alignment of the text.
    pub horizontal_alignment: Option<HorizontalAlign>,
}

/// Properties for a chart that uses a data source.
#[derive(Debug, Clone, PartialEq)]
pub struct DataSourceChartProperties {
    /// The ID of the data source that the chart is associated with.
    pub data_source_id: Option<String>,
    /// The status of the data execution for the chart.
    pub data_execution_status: Option<DataExecutionStatus>,
}

/// The kind of a basic chart.
#[derive(Debug, Clone, PartialEq, Eq)]
pub enum BasicChartType {
    Unspecified,
    Bar,
    Line,
    Area,
    Column,
    Scatter,
    Combo,
    SteppedArea,
}

/// Where the legend of a basic chart is positioned.
#[derive(Debug, Clone, PartialEq, Eq)]
pub enum BasicChartLegendPosition {
    Unspecified,
    BottomLegend,
    LeftLegend,
    RightLegend,
    TopLegend,
    NoLegend,
}

/// The position of a basic chart axis.
#[derive(Debug, Clone, PartialEq, Eq)]
pub enum BasicChartAxisPosition {
    Unspecified,
    BottomAxis,
    LeftAxis,
    RightAxis,
}

/// How an axis view window is determined.
#[derive(Debug, Clone, PartialEq, Eq)]
pub enum ViewWindowMode {
    DefaultViewWindowMode,
    ViewWindowModeUnsupported,
    Explicit,
    Pretty,
}

/// The source ranges of a chart's data.
#[derive(Debug, Clone, PartialEq)]
pub struct ChartSourceRange {
    /// The ranges of data for a series or domain.
    pub sources: Option<Vec<GridRange>>,
}

/// Groups dates and times along a chart's domain.
#[derive(Debug, Clone, PartialEq)]
pub struct ChartDateTimeRule {
    /// The kind of date-time grouping to apply.
    pub type_: Option<ChartDateTimeRuleType>,
}

/// The available kinds of date-time grouping rules.
#[derive(Debug, Clone, PartialEq, Eq)]
pub enum ChartDateTimeRuleType {
    Unspecified,
    Second,
    Minute,
    Hour,
    HourMinute,
    HourMinuteAmpm,
    DayOfWeek,
    DayOfYear,
    DayOfMonth,
    DayMonth,
    Month,
    Quarter,
    Year,
    YearMonth,
    YearQuarter,
    YearMonthDay,
}

/// How chart data is aggregated.
#[derive(Debug, Clone, PartialEq, Eq)]
pub enum ChartAggregateType {
    Unspecified,
    Average,
    Count,
    Max,
    Median,
    Min,
    Sum,
}

/// The style of a line in a chart.
#[derive(Debug, Clone, PartialEq)]
pub struct LineStyle {
    /// The thickness of the line, in pixels.
    pub width: Option<i32>,
    /// The dash kind of the line.
    pub type_: Option<LineDashType>,
}

/// The dash kind of a line.
#[derive(Debug, Clone, PartialEq, Eq)]
pub enum LineDashType {
    Unspecified,
    Invisible,
    Custom,
    Solid,
    Dotted,
    MediumDashed,
    MediumDashedDotted,
    LongDashed,
    LongDashedDotted,
}

/// The kind of a data label.
#[derive(Debug, Clone, PartialEq, Eq)]
pub enum DataLabelType {
    Unspecified,
    /// The data label is not displayed.
    NoLabel,
    Data,
    Custom,
}

/// Where a data label is placed relative to its data point.
#[derive(Debug, Clone, PartialEq, Eq)]
pub enum DataLabelPlacement {
    Unspecified,
    Center,
    Left,
    Right,
    Above,
    Below,
    InsideEnd,
    InsideBase,
    OutsideEnd,
}

/// The shape of a point in a chart.
#[derive(Debug, Clone, PartialEq, Eq)]
pub enum PointShape {
    Unspecified,
    Circle,
    Diamond,
    Hexagon,
    Pentagon,
    Square,
    Star,
    Triangle,
    XMark,
}

/// How series of a basic chart are stacked.
#[derive(Debug, Clone, PartialEq, Eq)]
pub enum BasicChartStackedType {
    Unspecified,
    NotStacked,
    Stacked,
    PercentStacked,
}

/// The compare mode of a basic chart's tooltips.
#[derive(Debug, Clone, PartialEq, Eq)]
pub enum BasicChartCompareMode {
    Unspecified,
    Datum,
    Category,
}

/// Where the legend of a pie chart is positioned.
#[derive(Debug, Clone, PartialEq, Eq)]
pub enum PieChartLegendPosition {
    Unspecified,
    BottomLegend,
    LeftLegend,
    RightLegend,
    TopLegend,
    NoLegend,
    LabeledLegend,
}

/// Where the legend of a bubble chart is positioned.
#[derive(Debug, Clone, PartialEq, Eq)]
pub enum BubbleChartLegendPosition {
    Unspecified,
    BottomLegend,
    LeftLegend,
    RightLegend,
    TopLegend,
    NoLegend,
    InsideLegend,
}

/// The size of an org chart's nodes.
#[derive(Debug, Clone, PartialEq, Eq)]
pub enum OrgChartNodeSize {
    Unspecified,
    Small,
    Medium,
    Large,
}

/// Where the legend of a histogram chart is positioned.
#[derive(Debug, Clone, PartialEq, Eq)]
pub enum HistogramChartLegendPosition {
    Unspecified,
    BottomLegend,
    LeftLegend,
    RightLegend,
    TopLegend,
    NoLegend,
    InsideLegend,
}

/// A custom subtotal column of a waterfall chart.
#[derive(Debug, Clone, PartialEq)]
pub struct WaterfallChartCustomSubtotal {
    /// The zero-based index of the data point the subtotal applies to.
    pub subtotal_index: Option<i32>,
    /// A label for the subtotal column.
    pub label: Option<String>,
    /// True if the data point at `subtotal_index` is the subtotal itself.
    pub data_is_subtotal: Option<bool>,
}

/// How a waterfall chart's series are stacked.
#[derive(Debug, Clone, PartialEq, Eq)]
pub enum WaterfallChartStackedType {
    Unspecified,
    Stacked,
    Sequential,
}

/// How a scorecard's key value is compared to its baseline.
#[derive(Debug, Clone, PartialEq, Eq)]
pub enum ComparisonType {
    Undefined,
    AbsoluteDifference,
    PercentageDifference,
}

/// Where a scorecard chart's number format comes from.
#[derive(Debug, Clone, PartialEq, Eq)]
pub enum ChartNumberFormatSource {
    Undefined,
    FromData,
    Custom,
}

/// Custom number formatting options for a scorecard chart.
#[derive(Debug, Clone, PartialEq)]
pub struct ChartCustomNumberFormatOptions {
    /// A prefix appended before the chart's value.
    pub prefix: Option<String>,
    /// A suffix appended after the chart's value.
    pub suffix: Option<String>,
}

/// How dimensions hidden in the data source are displayed in a chart.
#[derive(Debug, Clone, PartialEq, Eq)]
pub enum ChartHiddenDimensionStrategy {
    Unspecified,
    SkipHiddenRowsAndColumns,
    SkipHiddenRows,
    SkipHiddenColumns,
    ShowAll,
}

} // verus!
