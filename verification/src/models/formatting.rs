//! Number, text and layout formatting models.

use vstd::prelude::*;

verus! {

/// The kind of a number format.
#[derive(Debug, Clone, PartialEq, Eq)]
pub enum NumberFormatType {
    Unspecified,
    Text,
    Number,
    Percent,
    Currency,
    Date,
    Time,
    DateTime,
    Scientific,
}

/// The number format of a cell.
#[derive(Debug, Clone, PartialEq)]
pub struct NumberFormat {
    /// The kind of the number format.
    pub type_: Option<NumberFormatType>,
    /// Pattern string used for formatting.
    pub pattern: Option<String>,
}

/// The style of a border.
#[derive(Debug, Clone, PartialEq, Eq)]
pub enum Style {
    Unspecified,
    Dotted,
    Dashed,
    Solid,
    SolidMedium,
    SolidThick,
    /// No border is drawn.
    NoBorder,
    Double,
}

/// The amount of padding around a cell's content, in pixels.
#[derive(Debug, Clone, PartialEq)]
pub struct Padding {
    pub top: Option<i32>,
    pub right: Option<i32>,
    pub bottom: Option<i32>,
    pub left: Option<i32>,
}

/// The rotation applied to text in a cell.
#[derive(Debug, Clone, PartialEq)]
pub struct TextRotation {
    /// The angle between the standard and the desired orientation, in degrees.
    pub angle: Option<i32>,
    /// True if the text is stacked vertically.
    pub vertical: Option<bool>,
}

/// The horizontal alignment of text in a cell.
#[derive(Debug, Clone, PartialEq, Eq)]
pub enum HorizontalAlign {
    Unspecified,
    Left,
    Center,
    Right,
}

/// The vertical alignment of text in a cell.
#[derive(Debug, Clone, PartialEq, Eq)]
pub enum VerticalAlign {
    Unspecified,
    Top,
    Middle,
    Bottom,
}

/// How to wrap text in a cell.
#[derive(Debug, Clone, PartialEq, Eq)]
pub enum WrapStrategy {
    Unspecified,
    OverflowCell,
    LegacyWrap,
    Clip,
    Wrap,
}

/// The direction of text in a cell.
#[derive(Debug, Clone, PartialEq, Eq)]
pub enum TextDirection {
    Unspecified,
    LeftToRight,
    RightToLeft,
}

/// How a hyperlink should be displayed in a cell.
#[derive(Debug, Clone, PartialEq, Eq)]
pub enum HyperlinkDisplayType {
    Unspecified,
    Linked,
    PlainText,
}

/// An external or internal link.
#[derive(Debug, Clone, PartialEq)]
pub struct Link {
    /// The link's destination URI.
    pub uri: Option<String>,
}

/// The display format of a person chip.
#[derive(Debug, Clone, PartialEq, Eq)]
pub enum DisplayFormat {
    Unspecified,
    Default,
    LastNameCommaFirstName,
    Email,
}

} // verus!
