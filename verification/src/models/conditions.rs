//! Conditions used by conditional formatting and data validation.

use vstd::prelude::*;

verus! {

/// A condition that can evaluate to true or false.
#[derive(Debug, Clone, PartialEq)]
pub struct BooleanCondition {
    /// The kind of condition.
    pub type_: Option<ConditionType>,
    /// The values of the condition; the number of supported values depends
    /// on the condition kind.
    pub values: Option<Vec<ConditionValue>>,
}

/// The kind of a boolean condition.
#[derive(Debug, Clone, PartialEq, Eq)]
pub enum ConditionType {
    Unspecified,
    NumberGreater,
    NumberGreaterThanEq,
    NumberLess,
    NumberLessThanEq,
    NumberEq,
    NumberNotEq,
    NumberBetween,
    NumberNotBetween,
    TextContains,
    TextNotContains,
    TextStartsWith,
    TextEndsWith,
    TextEq,
    TextIsEmail,
    TextIsUrl,
    DateEq,
    DateBefore,
    DateAfter,
    DateOnOrBefore,
    DateOnOrAfter,
    DateBetween,
    DateNotBetween,
    DateIsValid,
    OneOfRange,
    OneOfList,
    Blank,
    NotBlank,
    CustomFormula,
    Boolean,
    TextNotEq,
    DateNotEq,
    FilterExpression,
}

/// One value of a boolean condition.
#[derive(Debug, Clone, PartialEq)]
pub struct ConditionValue {
    /// A relative date, for date conditions only.
    pub relative_date: Option<RelativeDate>,
    /// A value the condition is based on, as the user would enter it.
    pub user_entered_value: Option<String>,
}

/// Controls how a date condition is evaluated relative to today.
#[derive(Debug, Clone, PartialEq, Eq)]
pub enum RelativeDate {
    Unspecified,
    PastYear,
    PastMonth,
    PastWeek,
    Yesterday,
    Today,
    Tomorrow,
}

/// The kind of an interpolation point of a gradient rule.
#[derive(Debug, Clone, PartialEq, Eq)]
pub enum InterpolationPointType {
    Unspecified,
    Min,
    Max,
    Number,
    Percent,
    Percentile,
}

/// A data validation rule on a cell.
#[derive(Debug, Clone, PartialEq)]
pub struct DataValidationRule {
    /// The condition that data in the cell must match.
    pub condition: Option<BooleanCondition>,
    /// A message to show the user when adding data to the cell.
    pub input_message: Option<String>,
    /// True if invalid data should be rejected rather than flagged.
    pub strict: Option<bool>,
    /// True if the UI should offer custom input help.
    pub show_custom_ui: Option<bool>,
}

} // verus!
