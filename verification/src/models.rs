//! Data models mirroring the spreadsheet service's wire format.
//!
//! These are plain data containers: the request layer fills them from JSON
//! and hands them to the verified core. Fields that the wire format may omit
//! are `Option`s.

pub mod cell;
pub mod charts;
pub mod common;
pub mod conditions;
pub mod data_source;
pub mod filters;
pub mod formatting;
pub mod grid;
pub mod range;
pub mod sheet;
pub mod value;
