//! Runtime checks of the A1 coordinate codec.

use gsheet_api::error::GSheetError;
use gsheet_api::utils::{a1_to_grid_range, col_index_to_a1, parse_a1_cell, split_sheet_range};

#[test]
fn known_cell_mappings() {
    assert_eq!(parse_a1_cell("A1").unwrap(), (1, 1));
    assert_eq!(parse_a1_cell("B3").unwrap(), (2, 3));
    assert_eq!(parse_a1_cell("AA10").unwrap(), (27, 10));
    assert_eq!(parse_a1_cell("Z99").unwrap(), (26, 99));
}

#[test]
fn known_column_letters() {
    assert_eq!(col_index_to_a1(1).unwrap(), "A");
    assert_eq!(col_index_to_a1(26).unwrap(), "Z");
    assert_eq!(col_index_to_a1(27).unwrap(), "AA");
    assert_eq!(col_index_to_a1(52).unwrap(), "AZ");
    assert_eq!(col_index_to_a1(53).unwrap(), "BA");
    assert_eq!(col_index_to_a1(702).unwrap(), "ZZ");
    assert_eq!(col_index_to_a1(703).unwrap(), "AAA");
}

#[test]
fn parse_is_case_insensitive() {
    assert_eq!(parse_a1_cell("b3").unwrap(), (2, 3));
    assert_eq!(parse_a1_cell("aa10").unwrap(), (27, 10));
    assert_eq!(parse_a1_cell("aB7").unwrap(), (28, 7));
}

#[test]
fn column_round_trip_to_one_thousand() {
    for n in 1..=1000usize {
        let letters = col_index_to_a1(n).unwrap();
        let reference = format!("{}1", letters);
        let (col, row) = parse_a1_cell(&reference).unwrap();
        assert_eq!(col, n);
        assert_eq!(row, 1);
    }
}

#[test]
fn invalid_references_are_rejected() {
    assert_eq!(parse_a1_cell("1A"), Err(GSheetError::InvalidReference));
    assert_eq!(parse_a1_cell(""), Err(GSheetError::InvalidReference));
    assert_eq!(parse_a1_cell("A"), Err(GSheetError::InvalidReference));
    assert_eq!(parse_a1_cell("A0"), Err(GSheetError::InvalidReference));
    assert_eq!(parse_a1_cell("7"), Err(GSheetError::InvalidReference));
    assert_eq!(parse_a1_cell("A1B"), Err(GSheetError::InvalidReference));
    assert_eq!(parse_a1_cell("A-1"), Err(GSheetError::InvalidReference));
    assert_eq!(parse_a1_cell("Ä1"), Err(GSheetError::InvalidReference));
}

#[test]
fn zero_column_is_rejected() {
    assert_eq!(col_index_to_a1(0), Err(GSheetError::InvalidReference));
}

#[test]
fn oversized_column_is_rejected() {
    // Twenty letters denote an index far beyond usize.
    assert_eq!(
        parse_a1_cell("ZZZZZZZZZZZZZZZZZZZZ1"),
        Err(GSheetError::InvalidReference)
    );
}

#[test]
fn oversized_row_is_rejected() {
    // Two to the sixty-fourth does not fit in usize.
    assert_eq!(
        parse_a1_cell("A18446744073709551616"),
        Err(GSheetError::InvalidReference)
    );
}

#[test]
fn whitespace_is_not_part_of_the_grammar() {
    assert_eq!(parse_a1_cell(" A1"), Err(GSheetError::InvalidReference));
    assert_eq!(parse_a1_cell("A1 "), Err(GSheetError::InvalidReference));
}

#[test]
fn bare_range_parses() {
    let gr = a1_to_grid_range("A1:B10").unwrap();
    assert_eq!(gr.sheet_id, None);
    assert_eq!(gr.start_row_index, Some(1));
    assert_eq!(gr.end_row_index, Some(10));
    assert_eq!(gr.start_column_index, Some(1));
    assert_eq!(gr.end_column_index, Some(2));
}

#[test]
fn single_cell_parses_as_unit_range() {
    let gr = a1_to_grid_range("C7").unwrap();
    assert_eq!(gr.start_row_index, Some(7));
    assert_eq!(gr.end_row_index, Some(7));
    assert_eq!(gr.start_column_index, Some(3));
    assert_eq!(gr.end_column_index, Some(3));
}

#[test]
fn sheet_qualifier_is_stripped() {
    let gr = a1_to_grid_range("Sheet1!A1:Z100").unwrap();
    assert_eq!(gr.start_row_index, Some(1));
    assert_eq!(gr.end_row_index, Some(100));
    assert_eq!(gr.start_column_index, Some(1));
    assert_eq!(gr.end_column_index, Some(26));
}

#[test]
fn invalid_ranges_are_rejected() {
    assert_eq!(a1_to_grid_range("A1:B2:C3"), Err(GSheetError::InvalidRange));
    assert_eq!(
        a1_to_grid_range("Sheet1!Sheet2!A1"),
        Err(GSheetError::InvalidRange)
    );
    assert_eq!(a1_to_grid_range(""), Err(GSheetError::InvalidReference));
    assert_eq!(a1_to_grid_range("A1:"), Err(GSheetError::InvalidReference));
}

#[test]
fn reversed_ranges_are_rejected() {
    assert_eq!(a1_to_grid_range("B10:A1"), Err(GSheetError::InvalidRange));
    assert_eq!(a1_to_grid_range("A10:A1"), Err(GSheetError::InvalidRange));
    assert_eq!(a1_to_grid_range("B1:A1"), Err(GSheetError::InvalidRange));
}

#[test]
fn sheet_range_splits_on_single_separator() {
    let (sheet, range) = split_sheet_range("Sheet1!A1:B10").unwrap();
    assert_eq!(sheet, "Sheet1");
    assert_eq!(range, "A1:B10");
}

#[test]
fn sheet_range_requires_exactly_one_separator() {
    assert_eq!(split_sheet_range("A1:B10"), Err(GSheetError::InvalidRange));
    assert_eq!(
        split_sheet_range("a!b!c"),
        Err(GSheetError::InvalidRange)
    );
}

#[test]
fn error_messages_name_the_failure() {
    assert_eq!(
        GSheetError::InvalidReference.message(),
        "invalid cell reference"
    );
    assert_eq!(GSheetError::InvalidRange.message(), "invalid range");
    assert_eq!(
        GSheetError::MissingRange.message(),
        "value range has no range string"
    );
}
