//! A typed client binding for the Google Sheets HTTP API.
//!
//! The verified core of the library is the A1-notation coordinate codec and
//! the grid reconciler in [`utils`]: conversion between textual cell
//! references such as `"B3"` or `"Sheet1!A1:B10"` and numeric one-based
//! `(column, row)` indices, and the materialization of every coordinate of a
//! parsed range into an addressed [`models::cell::Cell`] — either as a flat
//! row-major list or as a map grouped by column letter. The mathematical
//! model those functions are specified against, together with the round-trip
//! laws of the notation, lives in [`codec`].
//!
//! The data models mirror the wire format of the spreadsheet service
//! ([`models`]), and [`auth`] holds the token bookkeeping that the request
//! layer builds on. Transport, JSON serialization and credential exchange
//! live in the surrounding application layer, not here.

pub mod auth;
pub mod codec;
pub mod error;
pub mod models;
pub mod utils;
