//! The executable A1 coordinate codec and grid reconciler.
//!
//! The functions here are verified against the mathematical model in
//! [`crate::codec`]: parsing a cell reference or a range string, formatting
//! a column index, and materializing a `ValueRange` payload into addressed
//! cells.

use std::collections::HashMap;

use vstd::hash_map::StringHashMap;
use vstd::prelude::*;
use vstd::string::StrSliceExecFns;
use vstd::string::StringExecFns;

use crate::codec::{
    cell_fits, cell_col, cell_row, col_letters, col_value, count_char, dec_digits, digit_val,
    digit_char, idx_of, is_ref_digit, is_ref_letter, letter_char, letter_rank, letter_run, range_body,
    range_end, range_error, range_fits, range_shape_ok,
    range_start, row_value, valid_cell, valid_range, cell_address, start_token, end_token,
    lemma_col_value_step, lemma_row_value_step, lemma_col_value_prefix_mono,
    lemma_row_value_mono, lemma_letter_run_is, lemma_letter_run_at_least,
    lemma_letter_run_bounds, lemma_count_char_step, lemma_count_char_once, lemma_address_parse_back,
    lemma_valid_cell_positive, lemma_col_round_trip,
};
use crate::models::cell::{Cell, CellView};
use crate::models::grid::GridRange;
use crate::models::value::ValueRange;
use crate::error::GSheetError;

verus! {

broadcast use vstd::std_specs::hash::group_hash_axioms, vstd::hash_map::group_hash_map_axioms;

// ---------------------------------------------------------------------------
// Character helpers
// ---------------------------------------------------------------------------

/// Whether `c` may appear in the column part of a cell reference.
fn is_letter_char(c: char) -> (b: bool)
    ensures
        b == is_ref_letter(c),
{
    let u = c as u32;
    (65 <= u && u <= 90) || (97 <= u && u <= 122)
}

/// Whether `c` may appear in the row part of a cell reference.
fn is_digit_char(c: char) -> (b: bool)
    ensures
        b == is_ref_digit(c),
{
    let u = c as u32;
    48 <= u && u <= 57
}

/// The rank of a column letter: `A = a = 1`, ..., `Z = z = 26`.
fn letter_rank_of(c: char) -> (r: usize)
    requires
        is_ref_letter(c),
    ensures
        r == letter_rank(c),
        1 <= r <= 26,
{
    let u = c as u32;
    if u >= 97 {
        (u - 96) as usize
    } else {
        (u - 64) as usize
    }
}

/// The value of a digit character.
fn digit_of(c: char) -> (r: usize)
    requires
        is_ref_digit(c),
    ensures
        r == digit_val(c),
        r <= 9,
{
    let u = c as u32;
    (u - 48) as usize
}

// ---------------------------------------------------------------------------
// Cell references
// ---------------------------------------------------------------------------

/// Parses an A1 cell reference such as `"A1"`, `"b3"` or `"AA10"` into
/// one-based `(column, row)` indices.
///
/// Column letters are read case-insensitively in bijective base 26
/// (`A = 1`, ..., `Z = 26`, `AA = 27`) and the row as a plain decimal
/// number. The reference must be one or more letters followed by one or
/// more digits, nothing else, and the row must not be zero; anything else —
/// including an index too large for `usize` — is rejected with
/// [`GSheetError::InvalidReference`].
pub fn parse_a1_cell(a1: &str) -> (r: Result<(usize, usize), GSheetError>)
    ensures
        r is Ok <==> valid_cell(a1@) && cell_fits(a1@),
        r matches Ok(cr) ==> cr.0 == cell_col(a1@) && cr.1 == cell_row(a1@),
        r is Err ==> r == Err::<(usize, usize), GSheetError>(GSheetError::InvalidReference),
{
    let n = a1.unicode_len();
    let mut i: usize = 0;
    let mut col: usize = 0;
    loop
        invariant
            i <= n,
            n == a1@.len(),
            forall|m: int| 0 <= m < i ==> is_ref_letter(#[trigger] a1@[m]),
            col == col_value(a1@.take(i as int)),
        ensures
            i <= n,
            n == a1@.len(),
            forall|m: int| 0 <= m < i ==> is_ref_letter(#[trigger] a1@[m]),
            col == col_value(a1@.take(i as int)),
            i == n || !is_ref_letter(a1@[i as int]),
        decreases n - i,
    {
        if i == n {
            break;
        }
        let c = a1.get_char(i);
        if !is_letter_char(c) {
            break;
        }
        let rank = letter_rank_of(c);
        let stretched = match col.checked_mul(26) {
            Some(x) => x,
            None => {
                proof {
                    lemma_col_overflow(a1@, i as int, col as int, letter_rank(c));
                }
                return Err(GSheetError::InvalidReference);
            },
        };
        let widened = match stretched.checked_add(rank) {
            Some(x) => x,
            None => {
                proof {
                    lemma_col_overflow(a1@, i as int, col as int, letter_rank(c));
                }
                return Err(GSheetError::InvalidReference);
            },
        };
        proof {
            lemma_col_value_step(a1@, i as int);
        }
        col = widened;
        i = i + 1;
    }
    proof {
        lemma_letter_run_is(a1@, i as int);
    }
    let letters = i;
    let mut j: usize = i;
    let mut row: usize = 0;
    while j < n
        invariant
            letters <= j <= n,
            n == a1@.len(),
            letter_run(a1@) == letters as int,
            col == col_value(a1@.take(letters as int)),
            row == row_value(a1@.subrange(letters as int, j as int)),
            forall|m: int| letters <= m < j ==> is_ref_digit(#[trigger] a1@[m]),
        decreases n - j,
    {
        let c = a1.get_char(j);
        if !is_digit_char(c) {
            return Err(GSheetError::InvalidReference);
        }
        let d = digit_of(c);
        let stretched = match row.checked_mul(10) {
            Some(x) => x,
            None => {
                proof {
                    lemma_row_overflow(a1@, letters as int, j as int, row as int, digit_val(c));
                }
                return Err(GSheetError::InvalidReference);
            },
        };
        let widened = match stretched.checked_add(d) {
            Some(x) => x,
            None => {
                proof {
                    lemma_row_overflow(a1@, letters as int, j as int, row as int, digit_val(c));
                }
                return Err(GSheetError::InvalidReference);
            },
        };
        proof {
            lemma_row_value_step(a1@, letters as int, j as int);
        }
        row = widened;
        j = j + 1;
    }
    proof {
        assert(a1@.skip(letters as int) =~= a1@.subrange(letters as int, n as int));
    }
    if 1 <= letters && letters < n && row >= 1 {
        Ok((col, row))
    } else {
        Err(GSheetError::InvalidReference)
    }
}

/// At a multiply or add overflow while accumulating the column value, the
/// column index of the token (if it is a valid cell at all) cannot fit in
/// `usize`.
proof fn lemma_col_overflow(s: Seq<char>, i: int, col: int, rank: int)
    requires
        0 <= i < s.len(),
        forall|m: int| 0 <= m < i ==> is_ref_letter(#[trigger] s[m]),
        is_ref_letter(s[i]),
        rank == letter_rank(s[i]),
        col == col_value(s.take(i)),
        col * 26 > usize::MAX || col * 26 + rank > usize::MAX,
    ensures
        !(valid_cell(s) && cell_fits(s)),
{
    lemma_col_value_step(s, i);
    assert(1 <= rank <= 26);
    lemma_letter_run_bounds(s);
    lemma_letter_run_at_least(s, i + 1);
    let k = letter_run(s);
    lemma_col_value_prefix_mono(s, i + 1, k);
    assert(col_value(s.take(i + 1)) > usize::MAX);
    assert(cell_col(s) > usize::MAX);
}

/// At a multiply or add overflow while accumulating the row value, the row
/// index of the token (if it is a valid cell at all) cannot fit in `usize`.
proof fn lemma_row_overflow(s: Seq<char>, k: int, j: int, row: int, d: int)
    requires
        0 <= k <= j < s.len(),
        letter_run(s) == k,
        is_ref_digit(s[j]),
        d == digit_val(s[j]),
        forall|m: int| k <= m < j ==> is_ref_digit(#[trigger] s[m]),
        row == row_value(s.subrange(k, j)),
        row * 10 > usize::MAX || row * 10 + d > usize::MAX,
    ensures
        !(valid_cell(s) && cell_fits(s)),
{
    if valid_cell(s) {
        lemma_row_value_step(s, k, j);
        assert(0 <= d <= 9);
        lemma_row_value_mono(s, k, j, j + 1);
        assert(row >= 0);
        lemma_row_value_mono(s, k, j + 1, s.len() as int);
        assert(s.skip(k) =~= s.subrange(k, s.len() as int));
        assert(cell_row(s) > usize::MAX);
    }
}

// ---------------------------------------------------------------------------
// Column formatting
// ---------------------------------------------------------------------------

/// The single-character string of the uppercase column letter with rank
/// offset `r`.
fn letter_str(r: usize) -> (t: &'static str)
    requires
        r < 26,
    ensures
        t@ =~= seq![letter_char(r as int)],
{
    proof {
        reveal_strlit("A");
        reveal_strlit("B");
        reveal_strlit("C");
        reveal_strlit("D");
        reveal_strlit("E");
        reveal_strlit("F");
        reveal_strlit("G");
        reveal_strlit("H");
        reveal_strlit("I");
        reveal_strlit("J");
        reveal_strlit("K");
        reveal_strlit("L");
        reveal_strlit("M");
        reveal_strlit("N");
        reveal_strlit("O");
        reveal_strlit("P");
        reveal_strlit("Q");
        reveal_strlit("R");
        reveal_strlit("S");
        reveal_strlit("T");
        reveal_strlit("U");
        reveal_strlit("V");
        reveal_strlit("W");
        reveal_strlit("X");
        reveal_strlit("Y");
        reveal_strlit("Z");
    }
    match r {
        0 => "A",
        1 => "B",
        2 => "C",
        3 => "D",
        4 => "E",
        5 => "F",
        6 => "G",
        7 => "H",
        8 => "I",
        9 => "J",
        10 => "K",
        11 => "L",
        12 => "M",
        13 => "N",
        14 => "O",
        15 => "P",
        16 => "Q",
        17 => "R",
        18 => "S",
        19 => "T",
        20 => "U",
        21 => "V",
        22 => "W",
        23 => "X",
        24 => "Y",
        _ => "Z",
    }
}

/// Converts a one-based column index to its A1 column letters
/// (`1 -> "A"`, `26 -> "Z"`, `27 -> "AA"`).
///
/// A column index of 0 is rejected with [`GSheetError::InvalidReference`].
pub fn col_index_to_a1(col_index: usize) -> (r: Result<String, GSheetError>)
    ensures
        r is Ok <==> col_index >= 1,
        r matches Ok(s) ==> s@ == col_letters(col_index as int),
        r is Err ==> r == Err::<String, GSheetError>(GSheetError::InvalidReference),
{
    if col_index == 0 {
        return Err(GSheetError::InvalidReference);
    }
    let mut n = col_index;
    let mut col_str = String::new();
    while n > 0
        invariant
            col_letters(col_index as int) =~= col_letters(n as int) + col_str@,
        decreases n,
    {
        let rem = (n - 1) % 26;
        let head = letter_str(rem);
        proof {
            assert(col_letters(n as int) =~= col_letters((n - 1) as int / 26).push(
                letter_char((n - 1) as int % 26),
            ));
            assert(col_letters((n - 1) as int / 26) + (seq![letter_char((n - 1) as int % 26)]
                + col_str@) =~= col_letters(n as int) + col_str@);
        }
        col_str = head.to_owned().concat(col_str.as_str());
        n = (n - 1) / 26;
    }
    proof {
        assert(col_letters(0int) =~= Seq::<char>::empty());
        assert(col_letters(col_index as int) =~= col_str@);
    }
    Ok(col_str)
}

// ---------------------------------------------------------------------------
// Ranges
// ---------------------------------------------------------------------------

/// Qualifies a range with a sheet title, as the API's request paths and
/// payloads expect it: `"Sheet1" + "A1:B2" -> "Sheet1!A1:B2"`.
pub fn qualified_range(sheet_title: &str, range: &str) -> (r: String)
    ensures
        r@ == sheet_title@ + seq!['!'] + range@,
{
    proof {
        reveal_strlit("!");
    }
    sheet_title.to_owned().concat("!").concat(range)
}

/// Counts the occurrences of `c` in `s` and finds the first one.
fn scan_char(s: &str, c: char) -> (r: (usize, usize))
    ensures
        r.0 as int == count_char(s@, c),
        r.0 >= 1 ==> r.1 < s@.len() && s@[r.1 as int] == c,
{
    let n = s.unicode_len();
    let mut cnt: usize = 0;
    let mut first: usize = 0;
    let mut i: usize = 0;
    while i < n
        invariant
            i <= n,
            n == s@.len(),
            cnt <= i,
            cnt as int == count_char(s@.take(i as int), c),
            cnt >= 1 ==> first < i && s@[first as int] == c,
        decreases n - i,
    {
        let ch = s.get_char(i);
        proof {
            lemma_count_char_step(s@, c, i as int);
        }
        if ch == c {
            if cnt == 0 {
                first = i;
            }
            cnt = cnt + 1;
        }
        i = i + 1;
    }
    proof {
        assert(s@.take(n as int) =~= s@);
    }
    (cnt, first)
}

/// Splits a sheet-qualified range such as `"Sheet1!A1:B10"` into the sheet
/// name (`"Sheet1"`) and the range part (`"A1:B10"`).
///
/// The input must hold exactly one `!` separator; anything else is rejected
/// with [`GSheetError::InvalidRange`].
pub fn split_sheet_range<'a>(a1: &'a str) -> (r: Result<(&'a str, &'a str), GSheetError>)
    ensures
        r is Ok <==> count_char(a1@, '!') == 1,
        r matches Ok(p) ==> {
            &&& p.0@ == a1@.take(idx_of(a1@, '!'))
            &&& p.1@ == a1@.skip(idx_of(a1@, '!') + 1)
            &&& a1@ == p.0@ + seq!['!'] + p.1@
        },
        r is Err ==> r == Err::<(&'a str, &'a str), GSheetError>(GSheetError::InvalidRange),
{
    let n = a1.unicode_len();
    let (cnt, first) = scan_char(a1, '!');
    if cnt != 1 {
        return Err(GSheetError::InvalidRange);
    }
    proof {
        lemma_count_char_once(a1@, '!', first as int);
    }
    let sheet = a1.substring_char(0, first);
    let rest = a1.substring_char(first + 1, n);
    proof {
        assert(sheet@ =~= a1@.take(first as int));
        assert(rest@ =~= a1@.skip(first as int + 1));
        assert(a1@ =~= sheet@ + seq!['!'] + rest@);
    }
    Ok((sheet, rest))
}

/// Converts an A1 range — a bare range (`"A1:B10"`), a single cell standing
/// for a 1x1 range (`"A1"`), or a sheet-qualified range
/// (`"Sheet1!A1:B10"`, whose sheet name is stripped unvalidated) — into a
/// one-based inclusive [`GridRange`].
///
/// More than one `!` or `:`, or a range whose start lies below or to the
/// right of its end, is rejected with [`GSheetError::InvalidRange`]; a cell
/// token that fails to parse is rejected with
/// [`GSheetError::InvalidReference`].
pub fn a1_to_grid_range(a1: &str) -> (r: Result<GridRange, GSheetError>)
    ensures
        r is Ok <==> valid_range(a1@) && range_fits(a1@),
        r matches Ok(gr) ==> {
            &&& gr.well_formed()
            &&& gr.sheet_id is None
            &&& gr.start_row_index == Some(cell_row(range_start(a1@)) as usize)
            &&& gr.end_row_index == Some(cell_row(range_end(a1@)) as usize)
            &&& gr.start_column_index == Some(cell_col(range_start(a1@)) as usize)
            &&& gr.end_column_index == Some(cell_col(range_end(a1@)) as usize)
        },
        r matches Err(e) ==> e == range_error(a1@),
{
    let n = a1.unicode_len();
    let (bang_count, bang_at) = scan_char(a1, '!');
    let body: &str = if bang_count == 0 {
        a1
    } else if bang_count == 1 {
        proof {
            lemma_count_char_once(a1@, '!', bang_at as int);
        }
        a1.substring_char(bang_at + 1, n)
    } else {
        return Err(GSheetError::InvalidRange);
    };
    proof {
        assert(range_body(a1@) == Some(body@)) by {
            if count_char(a1@, '!') == 1 {
                assert(body@ =~= a1@.skip(idx_of(a1@, '!') + 1));
            }
        }
    }
    let m = body.unicode_len();
    let (colon_count, colon_at) = scan_char(body, ':');
    let (start_tok, end_tok): (&str, &str) = if colon_count == 0 {
        (body, body)
    } else if colon_count == 1 {
        proof {
            lemma_count_char_once(body@, ':', colon_at as int);
        }
        (body.substring_char(0, colon_at), body.substring_char(colon_at + 1, m))
    } else {
        return Err(GSheetError::InvalidRange);
    };
    proof {
        assert(start_token(body@) == Some(start_tok@) && end_token(body@) == Some(end_tok@)) by {
            if count_char(body@, ':') == 1 {
                assert(start_tok@ =~= body@.take(idx_of(body@, ':')));
                assert(end_tok@ =~= body@.skip(idx_of(body@, ':') + 1));
            }
        }
        assert(range_shape_ok(a1@));
        assert(range_start(a1@) == start_tok@);
        assert(range_end(a1@) == end_tok@);
    }
    let (start_col, start_row) = match parse_a1_cell(start_tok) {
        Ok(p) => p,
        Err(_) => {
            return Err(GSheetError::InvalidReference);
        },
    };
    let (end_col, end_row) = match parse_a1_cell(end_tok) {
        Ok(p) => p,
        Err(_) => {
            return Err(GSheetError::InvalidReference);
        },
    };
    if start_col > end_col || start_row > end_row {
        return Err(GSheetError::InvalidRange);
    }
    proof {
        lemma_valid_cell_positive(start_tok@);
    }
    Ok(
        GridRange {
            sheet_id: None,
            start_row_index: Some(start_row),
            end_row_index: Some(end_row),
            start_column_index: Some(start_col),
            end_column_index: Some(end_col),
        },
    )
}

// ---------------------------------------------------------------------------
// Grid reconciliation
// ---------------------------------------------------------------------------

/// The value at zero-based offset `(i, j)` of a possibly short or ragged
/// grid: `None` whenever the offset is out of bounds on either axis.
pub open spec fn grid_value(vals: Seq<Seq<Seq<char>>>, i: int, j: int) -> Option<Seq<char>> {
    if 0 <= i < vals.len() && 0 <= j < vals[i].len() {
        Some(vals[i][j])
    } else {
        None
    }
}

/// The reconciled cell at coordinate `(row, col)` of a range whose top-left
/// corner is `(start_row, start_col)`, drawing its value from `vals` at the
/// coordinate's zero-based offset into the range.
pub open spec fn spec_cell(
    sheet_id: Seq<char>,
    sheet_title: Seq<char>,
    vals: Seq<Seq<Seq<char>>>,
    start_row: int,
    start_col: int,
    row: int,
    col: int,
) -> CellView {
    CellView {
        address: cell_address(col, row),
        sheet_id: sheet_id,
        sheet_title: sheet_title,
        value: grid_value(vals, row - start_row, col - start_col),
        col_index: col,
        col: col_letters(col),
        row_index: row,
    }
}

/// The single-character string of the digit with value `d`.
fn digit_str(d: usize) -> (t: &'static str)
    requires
        d < 10,
    ensures
        t@ =~= seq![digit_char(d as int)],
{
    proof {
        reveal_strlit("0");
        reveal_strlit("1");
        reveal_strlit("2");
        reveal_strlit("3");
        reveal_strlit("4");
        reveal_strlit("5");
        reveal_strlit("6");
        reveal_strlit("7");
        reveal_strlit("8");
        reveal_strlit("9");
    }
    match d {
        0 => "0",
        1 => "1",
        2 => "2",
        3 => "3",
        4 => "4",
        5 => "5",
        6 => "6",
        7 => "7",
        8 => "8",
        _ => "9",
    }
}

/// The decimal digits of a positive number, as a string.
fn dec_string(n: usize) -> (s: String)
    requires
        n >= 1,
    ensures
        s@ == dec_digits(n as int),
{
    let mut m = n;
    let mut s = String::new();
    while m > 0
        invariant
            dec_digits(n as int) =~= dec_digits(m as int) + s@,
        decreases m,
    {
        let d = m % 10;
        let head = digit_str(d);
        proof {
            assert(dec_digits(m as int) =~= dec_digits(m as int / 10).push(
                digit_char(m as int % 10),
            ));
            assert(dec_digits(m as int / 10) + (seq![digit_char(m as int % 10)] + s@)
                =~= dec_digits(m as int) + s@);
        }
        s = head.to_owned().concat(s.as_str());
        m = m / 10;
    }
    proof {
        assert(dec_digits(0int) =~= Seq::<char>::empty());
        assert(dec_digits(n as int) =~= s@);
    }
    s
}

/// Builds the one cell of a reconciled range, looking its value up in the
/// payload's value array.
fn build_cell(
    sheet_id: &str,
    sheet_title: &str,
    value_range: &ValueRange,
    sr: usize,
    sc: usize,
    row: usize,
    col: usize,
) -> (cell: Cell)
    requires
        1 <= sr <= row,
        1 <= sc <= col,
    ensures
        cell@ == spec_cell(
            sheet_id@,
            sheet_title@,
            value_range.grid(),
            sr as int,
            sc as int,
            row as int,
            col as int,
        ),
{
    let ri = row - sr;
    let ci = col - sc;
    let col_str = match col_index_to_a1(col) {
        Ok(s) => s,
        Err(_) => vstd::pervasive::unreached(),
    };
    let row_str = dec_string(row);
    let address = col_str.clone().concat(row_str.as_str());
    let value: Option<String> = match &value_range.values {
        Some(rows) => {
            if ri < rows.len() {
                let values_row = &rows[ri];
                if ci < values_row.len() {
                    Some(values_row[ci].clone())
                } else {
                    None
                }
            } else {
                None
            }
        },
        None => None,
    };
    Cell {
        address,
        sheet_id: sheet_id.to_owned(),
        sheet_title: sheet_title.to_owned(),
        value,
        col_index: col,
        col: col_str,
        row_index: row,
    }
}

/// Parses the payload's range and hands back its four one-based bounds.
fn reconcile_bounds(value_range: &ValueRange) -> (r: Result<
    (usize, usize, usize, usize),
    GSheetError,
>)
    ensures
        r is Ok <==> value_range.has_range() && valid_range(value_range.spec_range())
            && range_fits(value_range.spec_range()),
        r matches Ok(b) ==> {
            let rs = value_range.spec_range();
            &&& b.0 == cell_row(range_start(rs)) && b.1 == cell_row(range_end(rs))
            &&& b.2 == cell_col(range_start(rs)) && b.3 == cell_col(range_end(rs))
            &&& 1 <= b.0 <= b.1 && 1 <= b.2 <= b.3
        },
        r matches Err(e) ==> e == (if !value_range.has_range() {
            GSheetError::MissingRange
        } else {
            range_error(value_range.spec_range())
        }),
{
    let range_str: &String = match &value_range.range {
        Some(s) => s,
        None => {
            return Err(GSheetError::MissingRange);
        },
    };
    let gr = match a1_to_grid_range(range_str.as_str()) {
        Ok(g) => g,
        Err(e) => {
            return Err(e);
        },
    };
    let sr = gr.start_row_index.unwrap();
    let er = gr.end_row_index.unwrap();
    let sc = gr.start_column_index.unwrap();
    let ec = gr.end_column_index.unwrap();
    proof {
        let rs = value_range.spec_range();
        assert(rs == range_str@);
        lemma_valid_cell_positive(range_start(rs));
        lemma_valid_cell_positive(range_end(rs));
        assert(sr == cell_row(range_start(rs)) && er == cell_row(range_end(rs)));
        assert(sc == cell_col(range_start(rs)) && ec == cell_col(range_end(rs)));
    }
    Ok((sr, er, sc, ec))
}

/// Converts a `ValueRange` payload into a flat, row-major list of addressed
/// cells covering every coordinate of its range.
///
/// The payload's range must be present (otherwise
/// [`GSheetError::MissingRange`]) and parseable (otherwise the codec's
/// error). The value array may be absent, short or ragged: any coordinate
/// whose offset lies outside it yields a cell with an absent value, never an
/// error. Rows are walked outer, columns inner, regardless of the payload's
/// major-dimension tag; the result holds exactly one cell per coordinate, in
/// that order, and every cell's address is unique.
pub fn value_range_to_cells(sheet_id: &str, sheet_title: &str, value_range: &ValueRange) -> (r:
    Result<Vec<Cell>, GSheetError>)
    ensures
        r is Ok <==> value_range.has_range() && valid_range(value_range.spec_range())
            && range_fits(value_range.spec_range()),
        r matches Err(e) ==> e == (if !value_range.has_range() {
            GSheetError::MissingRange
        } else {
            range_error(value_range.spec_range())
        }),
        r matches Ok(cells) ==> {
            let rs = value_range.spec_range();
            let sr = cell_row(range_start(rs));
            let sc = cell_col(range_start(rs));
            let width = cell_col(range_end(rs)) - sc + 1;
            &&& cells@.len() == (cell_row(range_end(rs)) - sr + 1) * width
            &&& forall|k: int| 0 <= k < cells@.len() ==> #[trigger] cells@[k]@ == spec_cell(
                sheet_id@,
                sheet_title@,
                value_range.grid(),
                sr,
                sc,
                sr + k / width,
                sc + k % width,
            )
            &&& forall|k1: int, k2: int|
                0 <= k1 < k2 < cells@.len() ==> #[trigger] cells@[k1]@.address
                    != #[trigger] cells@[k2]@.address
        },
{
    let (sr, er, sc, ec) = match reconcile_bounds(value_range) {
        Ok(b) => b,
        Err(e) => {
            return Err(e);
        },
    };
    let n_rows = er - sr + 1;
    let n_cols = ec - sc + 1;
    let ghost width = n_cols as int;
    let mut cells: Vec<Cell> = Vec::new();
    let mut ri: usize = 0;
    while ri < n_rows
        invariant
            value_range.has_range(),
            valid_range(value_range.spec_range()),
            range_fits(value_range.spec_range()),
            sr == cell_row(range_start(value_range.spec_range())),
            er == cell_row(range_end(value_range.spec_range())),
            sc == cell_col(range_start(value_range.spec_range())),
            ec == cell_col(range_end(value_range.spec_range())),
            1 <= sr <= er,
            1 <= sc <= ec,
            n_rows == er - sr + 1,
            n_cols == ec - sc + 1,
            width == n_cols as int,
            ri <= n_rows,
            cells@.len() == ri * width,
            forall|k: int| 0 <= k < cells@.len() ==> #[trigger] cells@[k]@ == spec_cell(
                sheet_id@,
                sheet_title@,
                value_range.grid(),
                sr as int,
                sc as int,
                sr + k / width,
                sc + k % width,
            ),
        decreases n_rows - ri,
    {
        let mut ci: usize = 0;
        while ci < n_cols
            invariant
                value_range.has_range(),
                valid_range(value_range.spec_range()),
                range_fits(value_range.spec_range()),
                sr == cell_row(range_start(value_range.spec_range())),
                er == cell_row(range_end(value_range.spec_range())),
                sc == cell_col(range_start(value_range.spec_range())),
                ec == cell_col(range_end(value_range.spec_range())),
                1 <= sr <= er,
                1 <= sc <= ec,
                n_rows == er - sr + 1,
                n_cols == ec - sc + 1,
                width == n_cols as int,
                ri < n_rows,
                ci <= n_cols,
                cells@.len() == ri * width + ci,
                forall|k: int| 0 <= k < cells@.len() ==> #[trigger] cells@[k]@ == spec_cell(
                    sheet_id@,
                    sheet_title@,
                    value_range.grid(),
                    sr as int,
                    sc as int,
                    sr + k / width,
                    sc + k % width,
                ),
            decreases n_cols - ci,
        {
            let row = sr + ri;
            let col = sc + ci;
            let cell = build_cell(sheet_id, sheet_title, value_range, sr, sc, row, col);
            proof {
                vstd::arithmetic::div_mod::lemma_fundamental_div_mod_converse(
                    cells@.len() as int,
                    width,
                    ri as int,
                    ci as int,
                );
            }
            cells.push(cell);
            ci = ci + 1;
        }
        proof {
            assert((ri + 1) * width == ri * width + width) by (nonlinear_arith);
        }
        ri = ri + 1;
    }
    proof {
        let rs = value_range.spec_range();
        let grid = value_range.grid();
        assert forall|k1: int, k2: int|
            0 <= k1 < k2 < cells@.len() implies #[trigger] cells@[k1]@.address
            != #[trigger] cells@[k2]@.address by {
            vstd::arithmetic::div_mod::lemma_fundamental_div_mod(k1, width);
            vstd::arithmetic::div_mod::lemma_fundamental_div_mod(k2, width);
            vstd::arithmetic::div_mod::lemma_mod_bound(k1, width);
            vstd::arithmetic::div_mod::lemma_mod_bound(k2, width);
            let r1 = sr + k1 / width;
            let c1 = sc + k1 % width;
            let r2 = sr + k2 / width;
            let c2 = sc + k2 % width;
            lemma_address_parse_back(c1, r1);
            lemma_address_parse_back(c2, r2);
            if cells@[k1]@.address == cells@[k2]@.address {
                assert(cell_col(cell_address(c1, r1)) == cell_col(cell_address(c2, r2)));
                assert(c1 == c2 && r1 == r2);
                assert(k1 == width * (k1 / width) + k1 % width);
                assert(k2 == width * (k2 / width) + k2 % width);
                assert(false);
            }
        }
    }
    Ok(cells)
}

/// A column-grouped view of a reconciled range: column letters to maps from
/// one-based row index to the cell there. Built by
/// [`value_range_to_hash_cell_map`]; gives O(1) access by `(column, row)`
/// without rescanning a list.
pub struct CellMap {
    columns: StringHashMap<HashMap<usize, Cell>>,
}

impl View for CellMap {
    type V = Map<Seq<char>, HashMap<usize, Cell>>;

    closed spec fn view(&self) -> Map<Seq<char>, HashMap<usize, Cell>> {
        self.columns@
    }
}

impl CellMap {
    /// A map with no columns.
    fn new() -> (r: Self)
        ensures
            r@ == Map::<Seq<char>, HashMap<usize, Cell>>::empty(),
    {
        CellMap { columns: StringHashMap::new() }
    }

    /// Adds one column's cells.
    fn insert(&mut self, column: String, rows: HashMap<usize, Cell>)
        ensures
            final(self)@ == old(self)@.insert(column@, rows),
    {
        self.columns.insert(column, rows);
    }

    /// The number of columns held.
    pub fn len(&self) -> (r: usize)
        ensures
            r == self@.len(),
    {
        self.columns.len()
    }

    /// Whether the map holds the given column letters.
    pub fn contains_key(&self, column: &str) -> (r: bool)
        ensures
            r == self@.contains_key(column@),
    {
        self.columns.contains_key(column)
    }

    /// The cells of the given column, by one-based row index.
    pub fn get<'a>(&'a self, column: &str) -> (r: Option<&'a HashMap<usize, Cell>>)
        ensures
            match r {
                Some(rows) => self@.contains_key(column@) && *rows == self@[column@],
                None => !self@.contains_key(column@),
            },
    {
        self.columns.get(column)
    }
}

/// Converts a `ValueRange` payload into a two-level map keyed first by
/// column letter, then by one-based row index.
///
/// The failure rules and the cell at each coordinate are exactly those of
/// [`value_range_to_cells`]; only the shape differs. The outer map holds one
/// key per column of the range, and every inner map's key set is the full
/// row range — no row is skipped, including rows whose value is absent.
pub fn value_range_to_hash_cell_map(
    sheet_id: &str,
    sheet_title: &str,
    value_range: &ValueRange,
) -> (r: Result<CellMap, GSheetError>)
    ensures
        r is Ok <==> value_range.has_range() && valid_range(value_range.spec_range())
            && range_fits(value_range.spec_range()),
        r matches Err(e) ==> e == (if !value_range.has_range() {
            GSheetError::MissingRange
        } else {
            range_error(value_range.spec_range())
        }),
        r matches Ok(m) ==> {
            let rs = value_range.spec_range();
            let sr = cell_row(range_start(rs));
            let er = cell_row(range_end(rs));
            let sc = cell_col(range_start(rs));
            let ec = cell_col(range_end(rs));
            &&& forall|c: int| sc <= c <= ec ==> m@.contains_key(#[trigger] col_letters(c))
            &&& forall|k: Seq<char>|
                m@.contains_key(k) ==> exists|c: int| sc <= c <= ec && k == col_letters(c)
            &&& forall|c: int, w: int|
                sc <= c <= ec && sr <= w <= er ==> {
                    &&& m@[col_letters(c)]@.contains_key(w as usize)
                    &&& (#[trigger] m@[col_letters(c)]@[w as usize])@ == spec_cell(
                        sheet_id@,
                        sheet_title@,
                        value_range.grid(),
                        sr,
                        sc,
                        w,
                        c,
                    )
                }
            &&& forall|c: int, w: usize|
                sc <= c <= ec && (#[trigger] m@[col_letters(c)]@.contains_key(w)) ==> sr <= w
                    <= er
        },
{
    let (sr, er, sc, ec) = match reconcile_bounds(value_range) {
        Ok(b) => b,
        Err(e) => {
            return Err(e);
        },
    };
    let n_rows = er - sr + 1;
    let n_cols = ec - sc + 1;
    let mut map: CellMap = CellMap::new();
    let mut ci: usize = 0;
    while ci < n_cols
        invariant
            value_range.has_range(),
            valid_range(value_range.spec_range()),
            range_fits(value_range.spec_range()),
            sr == cell_row(range_start(value_range.spec_range())),
            er == cell_row(range_end(value_range.spec_range())),
            sc == cell_col(range_start(value_range.spec_range())),
            ec == cell_col(range_end(value_range.spec_range())),
            1 <= sr <= er,
            1 <= sc <= ec,
            n_rows == er - sr + 1,
            n_cols == ec - sc + 1,
            ci <= n_cols,
            forall|c: int| sc <= c < sc + ci ==> map@.contains_key(#[trigger] col_letters(c)),
            forall|k: Seq<char>|
                map@.contains_key(k) ==> exists|c: int| sc <= c < sc + ci && k == col_letters(c),
            forall|c: int, w: int|
                sc <= c < sc + ci && sr <= w <= er ==> {
                    &&& map@[col_letters(c)]@.contains_key(w as usize)
                    &&& (#[trigger] map@[col_letters(c)]@[w as usize])@ == spec_cell(
                        sheet_id@,
                        sheet_title@,
                        value_range.grid(),
                        sr as int,
                        sc as int,
                        w,
                        c,
                    )
                },
            forall|c: int, w: usize|
                sc <= c < sc + ci && (#[trigger] map@[col_letters(c)]@.contains_key(w)) ==> sr
                    <= w <= er,
        decreases n_cols - ci,
    {
        let col = sc + ci;
        let col_str = match col_index_to_a1(col) {
            Ok(s) => s,
            Err(_) => vstd::pervasive::unreached(),
        };
        let mut inner: HashMap<usize, Cell> = HashMap::new();
        let mut ri: usize = 0;
        while ri < n_rows
            invariant
                value_range.has_range(),
                valid_range(value_range.spec_range()),
                range_fits(value_range.spec_range()),
                sr == cell_row(range_start(value_range.spec_range())),
                er == cell_row(range_end(value_range.spec_range())),
                sc == cell_col(range_start(value_range.spec_range())),
                ec == cell_col(range_end(value_range.spec_range())),
                1 <= sr <= er,
                1 <= sc <= ec,
                n_rows == er - sr + 1,
                n_cols == ec - sc + 1,
                ci < n_cols,
                col == sc + ci,
                ri <= n_rows,
                forall|w: int|
                    sr <= w < sr + ri ==> {
                        &&& inner@.contains_key(w as usize)
                        &&& (#[trigger] inner@[w as usize])@ == spec_cell(
                            sheet_id@,
                            sheet_title@,
                            value_range.grid(),
                            sr as int,
                            sc as int,
                            w,
                            col as int,
                        )
                    },
                forall|w: usize| #[trigger] inner@.contains_key(w) ==> sr <= w < sr + ri,
            decreases n_rows - ri,
        {
            let row = sr + ri;
            let cell = build_cell(sheet_id, sheet_title, value_range, sr, sc, row, col);
            inner.insert(row, cell);
            ri = ri + 1;
        }
        proof {
            assert(col_str@ == col_letters(col as int));
        }
        map.insert(col_str, inner);
        proof {
            assert forall|c: int| sc <= c < sc + ci + 1 && c < col implies col_letters(c)
                != col_letters(col as int) by {
                lemma_col_round_trip(c);
                lemma_col_round_trip(col as int);
            }
        }
        ci = ci + 1;
    }
    Ok(map)
}

} // verus!
