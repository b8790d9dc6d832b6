//! Runtime checks of the grid reconciler.

use gsheet_api::error::GSheetError;
use gsheet_api::models::value::{Dimension, ValueRange};
use gsheet_api::utils::{qualified_range, value_range_to_cells, value_range_to_hash_cell_map};

fn payload(range: Option<&str>, values: Option<Vec<Vec<&str>>>) -> ValueRange {
    ValueRange {
        range: range.map(|s| s.to_string()),
        major_dimension: Some(Dimension::Rows),
        values: values.map(|rows| {
            rows.into_iter()
                .map(|row| row.into_iter().map(|v| v.to_string()).collect())
                .collect()
        }),
    }
}

#[test]
fn two_by_two_range_yields_four_addressed_cells() {
    let vr = payload(
        Some("A1:B2"),
        Some(vec![vec!["1", "2"], vec!["3", "4"]]),
    );
    let cells = value_range_to_cells("sid", "Sheet1", &vr).unwrap();
    assert_eq!(cells.len(), 4);
    let addresses: Vec<&str> = cells.iter().map(|c| c.address.as_str()).collect();
    assert_eq!(addresses, vec!["A1", "B1", "A2", "B2"]);
    for cell in &cells {
        assert_eq!(cell.sheet_id, "sid");
        assert_eq!(cell.sheet_title, "Sheet1");
    }
    let by_address: Vec<(&str, Option<&str>)> = cells
        .iter()
        .map(|c| (c.address.as_str(), c.value.as_deref()))
        .collect();
    assert_eq!(
        by_address,
        vec![
            ("A1", Some("1")),
            ("B1", Some("2")),
            ("A2", Some("3")),
            ("B2", Some("4")),
        ]
    );
    assert_eq!(cells[0].col, "A");
    assert_eq!(cells[0].col_index, 1);
    assert_eq!(cells[0].row_index, 1);
    assert_eq!(cells[3].col, "B");
    assert_eq!(cells[3].col_index, 2);
    assert_eq!(cells[3].row_index, 2);
}

#[test]
fn ragged_values_stand_for_blank_cells() {
    let vr = payload(Some("A1:C1"), Some(vec![vec!["x"]]));
    let cells = value_range_to_cells("sid", "s", &vr).unwrap();
    assert_eq!(cells.len(), 3);
    assert_eq!(cells[0].address, "A1");
    assert_eq!(cells[0].value.as_deref(), Some("x"));
    assert_eq!(cells[1].address, "B1");
    assert_eq!(cells[1].value, None);
    assert_eq!(cells[2].address, "C1");
    assert_eq!(cells[2].value, None);
}

#[test]
fn absent_values_yield_an_all_blank_grid() {
    let vr = payload(Some("A1:B2"), None);
    let cells = value_range_to_cells("sid", "s", &vr).unwrap();
    assert_eq!(cells.len(), 4);
    assert!(cells.iter().all(|c| c.value.is_none()));
}

#[test]
fn missing_range_fails_closed() {
    let vr = payload(None, Some(vec![vec!["1", "2"], vec!["3", "4"]]));
    assert_eq!(
        value_range_to_cells("sid", "s", &vr),
        Err(GSheetError::MissingRange)
    );
    assert!(matches!(
        value_range_to_hash_cell_map("sid", "s", &vr),
        Err(GSheetError::MissingRange)
    ));
}

#[test]
fn bad_range_aborts_before_any_cell() {
    let vr = payload(Some("B2:A1"), Some(vec![vec!["1"]]));
    assert_eq!(
        value_range_to_cells("sid", "s", &vr),
        Err(GSheetError::InvalidRange)
    );
    let vr = payload(Some("A0:B2"), Some(vec![vec!["1"]]));
    assert_eq!(
        value_range_to_cells("sid", "s", &vr),
        Err(GSheetError::InvalidReference)
    );
}

#[test]
fn grouped_map_covers_every_column_and_row() {
    let vr = payload(
        Some("A1:B2"),
        Some(vec![vec!["1", "2"], vec!["3", "4"]]),
    );
    let map = value_range_to_hash_cell_map("sid", "Sheet1", &vr).unwrap();
    assert_eq!(map.len(), 2);
    assert!(map.contains_key("A"));
    assert!(map.contains_key("B"));

    let flat = value_range_to_cells("sid", "Sheet1", &vr).unwrap();
    for column in ["A", "B"] {
        let inner = map.get(column).unwrap();
        assert_eq!(inner.len(), 2);
        for row in [1usize, 2usize] {
            let cell = inner.get(&row).unwrap();
            let flat_cell = flat
                .iter()
                .find(|c| c.col == column && c.row_index == row)
                .unwrap();
            assert_eq!(cell, flat_cell);
        }
    }
}

#[test]
fn grouped_map_keeps_rows_with_absent_values() {
    let vr = payload(Some("A1:A3"), Some(vec![vec!["top"]]));
    let map = value_range_to_hash_cell_map("sid", "s", &vr).unwrap();
    let inner = map.get("A").unwrap();
    assert_eq!(inner.len(), 3);
    assert_eq!(inner.get(&1).unwrap().value.as_deref(), Some("top"));
    assert_eq!(inner.get(&2).unwrap().value, None);
    assert_eq!(inner.get(&3).unwrap().value, None);
}

#[test]
fn addresses_are_unique_across_a_wide_range() {
    let vr = payload(Some("Y1:AB3"), None);
    let cells = value_range_to_cells("sid", "s", &vr).unwrap();
    assert_eq!(cells.len(), 12);
    let mut addresses: Vec<String> = cells.iter().map(|c| c.address.clone()).collect();
    addresses.sort();
    addresses.dedup();
    assert_eq!(addresses.len(), 12);
}

#[test]
fn ranges_qualify_with_sheet_titles() {
    assert_eq!(qualified_range("Sheet1", "A1:B2"), "Sheet1!A1:B2");
    assert_eq!(qualified_range("", "A1"), "!A1");
}
