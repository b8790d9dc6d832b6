//! Mathematical model of A1 notation.
//!
//! Everything here is specification-level: character classes, the value of a
//! letter run (bijective base 26, `A = 1`), the value of a digit run, the
//! canonical letter and digit sequences of an index, and the grammar of cell
//! and range references. The executable codec in `utils` is verified against
//! these definitions, and the round-trip lemmas at the bottom relate the two
//! directions of the conversion.

use vstd::prelude::*;
use crate::error::GSheetError;

verus! {

// ---------------------------------------------------------------------------
// Character classes
// ---------------------------------------------------------------------------

/// An ASCII letter, the only characters allowed in the column part of a
/// cell reference (case-insensitive).
pub open spec fn is_ref_letter(c: char) -> bool {
    ('A' <= c && c <= 'Z') || ('a' <= c && c <= 'z')
}

/// An ASCII decimal digit, the only characters allowed in the row part.
pub open spec fn is_ref_digit(c: char) -> bool {
    '0' <= c && c <= '9'
}

/// Rank of a column letter: `A = 1`, ..., `Z = 26`, case-insensitive.
pub open spec fn letter_rank(c: char) -> int {
    if 'a' <= c && c <= 'z' {
        c as int - 'a' as int + 1
    } else {
        c as int - 'A' as int + 1
    }
}

/// Value of a decimal digit character.
pub open spec fn digit_val(c: char) -> int {
    c as int - '0' as int
}

/// The uppercase column letter of rank offset `r` (`0 -> 'A'`, ..., `25 -> 'Z'`).
pub open spec fn letter_char(r: int) -> char {
    (('A' as int + r) as u8) as char
}

/// The digit character of value `d` (`0 -> '0'`, ..., `9 -> '9'`).
pub open spec fn digit_char(d: int) -> char {
    (('0' as int + d) as u8) as char
}

// ---------------------------------------------------------------------------
// Values of letter and digit runs
// ---------------------------------------------------------------------------

/// Number of leading column letters of a cell token.
pub open spec fn letter_run(s: Seq<char>) -> int
    decreases s.len(),
{
    if s.len() == 0 || !is_ref_letter(s[0]) {
        0
    } else {
        1 + letter_run(s.drop_first())
    }
}

/// Column index denoted by a letter sequence, read most-significant first:
/// each letter contributes `value * 26 + rank`, so `A = 1`, `Z = 26`, `AA = 27`.
pub open spec fn col_value(s: Seq<char>) -> int
    decreases s.len(),
{
    if s.len() == 0 {
        0
    } else {
        col_value(s.drop_last()) * 26 + letter_rank(s.last())
    }
}

/// Row index denoted by a digit sequence, read as a plain base-10 integer.
pub open spec fn row_value(s: Seq<char>) -> int
    decreases s.len(),
{
    if s.len() == 0 {
        0
    } else {
        row_value(s.drop_last()) * 10 + digit_val(s.last())
    }
}

// ---------------------------------------------------------------------------
// Canonical text of an index
// ---------------------------------------------------------------------------

/// The canonical uppercase letters of a positive column index
/// (bijective base 26: no zero digit).
pub open spec fn col_letters(n: int) -> Seq<char>
    decreases n,
{
    if n <= 0 {
        Seq::empty()
    } else {
        col_letters((n - 1) / 26).push(letter_char((n - 1) % 26))
    }
}

/// The decimal digits of a positive number, most significant first.
pub open spec fn dec_digits(n: int) -> Seq<char>
    decreases n,
{
    if n <= 0 {
        Seq::empty()
    } else {
        dec_digits(n / 10).push(digit_char(n % 10))
    }
}

/// The A1 address of a cell: column letters followed by the decimal row.
pub open spec fn cell_address(col: int, row: int) -> Seq<char> {
    col_letters(col) + dec_digits(row)
}

// ---------------------------------------------------------------------------
// The cell-reference grammar
// ---------------------------------------------------------------------------

/// A well-formed single-cell token: one or more letters, then one or more
/// digits, nothing else, and a positive row value.
pub open spec fn valid_cell(s: Seq<char>) -> bool {
    let k = letter_run(s);
    &&& 1 <= k < s.len()
    &&& forall|i: int| k <= i < s.len() ==> is_ref_digit(#[trigger] s[i])
    &&& row_value(s.skip(k)) >= 1
}

/// The column index denoted by a cell token (meaningful when `valid_cell`).
pub open spec fn cell_col(s: Seq<char>) -> int {
    col_value(s.take(letter_run(s)))
}

/// The row index denoted by a cell token (meaningful when `valid_cell`).
pub open spec fn cell_row(s: Seq<char>) -> int {
    row_value(s.skip(letter_run(s)))
}

/// Both indices of a cell token fit in `usize`.
pub open spec fn cell_fits(s: Seq<char>) -> bool {
    cell_col(s) <= usize::MAX && cell_row(s) <= usize::MAX
}

// ---------------------------------------------------------------------------
// Basic lemmas about letter runs and run values
// ---------------------------------------------------------------------------

/// The letter run is exactly the position of the first non-letter.
pub proof fn lemma_letter_run_is(s: Seq<char>, k: int)
    requires
        0 <= k <= s.len(),
        forall|i: int| 0 <= i < k ==> is_ref_letter(#[trigger] s[i]),
        k < s.len() ==> !is_ref_letter(s[k]),
    ensures
        letter_run(s) == k,
    decreases s.len(),
{
    if k > 0 {
        let t = s.drop_first();
        assert forall|i: int| 0 <= i < k - 1 implies is_ref_letter(#[trigger] t[i]) by {
            assert(t[i] == s[i + 1]);
        }
        assert(k - 1 < t.len() ==> !is_ref_letter(t[k - 1])) by {
            assert(k - 1 < t.len() ==> t[k - 1] == s[k]);
        }
        lemma_letter_run_is(t, k - 1);
    }
}

/// A prefix of letters bounds the letter run from below.
pub proof fn lemma_letter_run_at_least(s: Seq<char>, k: int)
    requires
        0 <= k <= s.len(),
        forall|i: int| 0 <= i < k ==> is_ref_letter(#[trigger] s[i]),
    ensures
        letter_run(s) >= k,
    decreases s.len(),
{
    if k > 0 {
        assert(is_ref_letter(s[0]));
        let t = s.drop_first();
        assert forall|i: int| 0 <= i < k - 1 implies is_ref_letter(#[trigger] t[i]) by {
            assert(t[i] == s[i + 1]);
        }
        lemma_letter_run_at_least(t, k - 1);
        assert(letter_run(s) == 1 + letter_run(t));
    } else {
        lemma_letter_run_bounds(s);
    }
}

/// Every position before the letter run holds a letter, the run is within
/// bounds, and the character just past a proper run is not a letter.
pub proof fn lemma_letter_run_bounds(s: Seq<char>)
    ensures
        0 <= letter_run(s) <= s.len(),
        forall|i: int| 0 <= i < letter_run(s) ==> is_ref_letter(#[trigger] s[i]),
        letter_run(s) < s.len() ==> !is_ref_letter(s[letter_run(s)]),
    decreases s.len(),
{
    if s.len() != 0 && is_ref_letter(s[0]) {
        let t = s.drop_first();
        lemma_letter_run_bounds(t);
        assert forall|i: int| 0 <= i < letter_run(s) implies is_ref_letter(#[trigger] s[i]) by {
            if i > 0 {
                assert(t[i - 1] == s[i]);
            }
        }
        assert(letter_run(s) < s.len() ==> !is_ref_letter(s[letter_run(s)])) by {
            if letter_run(s) < s.len() {
                assert(t[letter_run(s) - 1] == s[letter_run(s)]);
            }
        }
    }
}

/// Extending a prefix of letters by one letter multiplies its value by 26
/// and adds the new letter's rank.
pub proof fn lemma_col_value_step(s: Seq<char>, i: int)
    requires
        0 <= i < s.len(),
    ensures
        col_value(s.take(i + 1)) == col_value(s.take(i)) * 26 + letter_rank(s[i]),
{
    assert(s.take(i + 1).drop_last() =~= s.take(i));
    assert(s.take(i + 1).last() == s[i]);
}

/// Extending a digit segment by one digit multiplies its value by 10 and
/// adds the new digit.
pub proof fn lemma_row_value_step(s: Seq<char>, k: int, j: int)
    requires
        0 <= k <= j < s.len(),
    ensures
        row_value(s.subrange(k, j + 1)) == row_value(s.subrange(k, j)) * 10 + digit_val(s[j]),
{
    assert(s.subrange(k, j + 1).drop_last() =~= s.subrange(k, j));
    assert(s.subrange(k, j + 1).last() == s[j]);
}

/// The value of a letter prefix is nonnegative, positive when nonempty, and
/// never shrinks as the prefix grows.
pub proof fn lemma_col_value_prefix_mono(s: Seq<char>, j: int, k: int)
    requires
        0 <= j <= k <= s.len(),
        forall|i: int| 0 <= i < k ==> is_ref_letter(#[trigger] s[i]),
    ensures
        0 <= col_value(s.take(j)),
        j >= 1 ==> 1 <= col_value(s.take(j)),
        col_value(s.take(j)) <= col_value(s.take(k)),
    decreases k - j,
{
    if j == k {
        lemma_col_value_nonneg_letters(s, j);
    } else {
        lemma_col_value_prefix_mono(s, j, k - 1);
        lemma_col_value_step(s, k - 1);
        lemma_col_value_nonneg_letters(s, j);
    }
}

/// The value of a letter prefix is nonnegative, and at least 1 when nonempty.
proof fn lemma_col_value_nonneg_letters(s: Seq<char>, j: int)
    requires
        0 <= j <= s.len(),
        forall|i: int| 0 <= i < j ==> is_ref_letter(#[trigger] s[i]),
    ensures
        0 <= col_value(s.take(j)),
        j >= 1 ==> 1 <= col_value(s.take(j)),
    decreases j,
{
    if j > 0 {
        lemma_col_value_nonneg_letters(s, j - 1);
        lemma_col_value_step(s, j - 1);
    } else {
        assert(s.take(0) =~= Seq::<char>::empty());
    }
}

/// The value of a digit segment is nonnegative and never shrinks as the
/// segment grows to the right.
pub proof fn lemma_row_value_mono(s: Seq<char>, k: int, j: int, m: int)
    requires
        0 <= k <= j <= m <= s.len(),
        forall|i: int| k <= i < m ==> is_ref_digit(#[trigger] s[i]),
    ensures
        0 <= row_value(s.subrange(k, j)),
        row_value(s.subrange(k, j)) <= row_value(s.subrange(k, m)),
    decreases m - j,
{
    if j == m {
        lemma_row_value_nonneg_digits(s, k, j);
    } else {
        lemma_row_value_mono(s, k, j, m - 1);
        lemma_row_value_step(s, k, m - 1);
        lemma_row_value_nonneg_digits(s, k, j);
    }
}

// ---------------------------------------------------------------------------
// Round trips between indices and their canonical text
// ---------------------------------------------------------------------------

/// The uppercase form of a column letter; other characters are unchanged.
pub open spec fn upper_letter(c: char) -> char {
    if 'a' <= c && c <= 'z' {
        ((c as int - 32) as u8) as char
    } else {
        c
    }
}

/// `letter_char` produces uppercase letters of the intended rank.
pub proof fn lemma_letter_char(r: int)
    requires
        0 <= r < 26,
    ensures
        'A' <= letter_char(r) && letter_char(r) <= 'Z',
        is_ref_letter(letter_char(r)),
        letter_rank(letter_char(r)) == r + 1,
        upper_letter(letter_char(r)) == letter_char(r),
{
}

/// `digit_char` produces digits of the intended value.
pub proof fn lemma_digit_char(d: int)
    requires
        0 <= d < 10,
    ensures
        is_ref_digit(digit_char(d)),
        !is_ref_letter(digit_char(d)),
        digit_val(digit_char(d)) == d,
{
}

/// The canonical letters of a positive column index are a nonempty run of
/// uppercase letters.
pub proof fn lemma_col_letters_wf(n: int)
    requires
        n >= 1,
    ensures
        col_letters(n).len() >= 1,
        forall|i: int| 0 <= i < col_letters(n).len() ==> 'A' <= #[trigger] col_letters(n)[i]
            && col_letters(n)[i] <= 'Z',
    decreases n,
{
    let m = (n - 1) / 26;
    let d = (n - 1) % 26;
    lemma_letter_char(d);
    if m >= 1 {
        lemma_col_letters_wf(m);
    } else {
        assert(col_letters(m) =~= Seq::<char>::empty());
    }
    let l = col_letters(n);
    assert forall|i: int| 0 <= i < l.len() implies 'A' <= #[trigger] l[i] && l[i] <= 'Z' by {
        if i < l.len() - 1 {
            assert(l[i] == col_letters(m)[i]);
        } else {
            assert(l[i] == letter_char(d));
        }
    }
}

/// Parsing the canonical letters of a column index gives the index back.
pub proof fn lemma_col_round_trip(n: int)
    requires
        n >= 1,
    ensures
        col_value(col_letters(n)) == n,
    decreases n,
{
    let m = (n - 1) / 26;
    let d = (n - 1) % 26;
    lemma_letter_char(d);
    vstd::arithmetic::div_mod::lemma_fundamental_div_mod(n - 1, 26);
    assert(col_letters(n).drop_last() =~= col_letters(m));
    assert(col_letters(n).last() == letter_char(d));
    if m >= 1 {
        lemma_col_round_trip(m);
    } else {
        assert(col_letters(m) =~= Seq::<char>::empty());
    }
    assert(col_value(col_letters(n)) == col_value(col_letters(m)) * 26 + (d + 1));
}

/// Formatting the value of a run of column letters gives the run back, in
/// uppercase; the value of such a run is positive.
pub proof fn lemma_col_letters_inverse(s: Seq<char>)
    requires
        s.len() >= 1,
        forall|i: int| 0 <= i < s.len() ==> is_ref_letter(#[trigger] s[i]),
    ensures
        col_value(s) >= 1,
        col_letters(col_value(s)) =~= s.map_values(|c: char| upper_letter(c)),
    decreases s.len(),
{
    let t = s.drop_last();
    let c = s.last();
    let rank = letter_rank(c);
    let v = col_value(t);
    let n = v * 26 + rank;
    assert(1 <= rank <= 26);
    if t.len() >= 1 {
        assert forall|i: int| 0 <= i < t.len() implies is_ref_letter(#[trigger] t[i]) by {
            assert(t[i] == s[i]);
        }
        lemma_col_letters_inverse(t);
    } else {
        assert(t =~= Seq::<char>::empty());
    }
    assert(v >= 0);
    vstd::arithmetic::div_mod::lemma_fundamental_div_mod_converse(n - 1, 26, v, rank - 1);
    lemma_letter_char(rank - 1);
    assert(letter_char(rank - 1) == upper_letter(c));
    assert(col_letters(n) =~= col_letters(v).push(upper_letter(c)));
    assert(s.map_values(|x: char| upper_letter(x)) =~= t.map_values(
        |x: char| upper_letter(x),
    ).push(upper_letter(c)));
}

/// Formatting the column index parsed from a valid cell reference gives the
/// reference's column letters back, uppercased: the two halves of the codec
/// are inverse on the column axis.
pub proof fn lemma_format_parsed_column(s: Seq<char>)
    requires
        valid_cell(s),
    ensures
        col_letters(cell_col(s)) =~= s.take(letter_run(s)).map_values(|c: char| upper_letter(c)),
{
    lemma_letter_run_bounds(s);
    let letters = s.take(letter_run(s));
    assert forall|i: int| 0 <= i < letters.len() implies is_ref_letter(#[trigger] letters[i]) by {
        assert(letters[i] == s[i]);
    }
    lemma_col_letters_inverse(letters);
}

/// The canonical decimal digits of a positive number are a nonempty digit run.
pub proof fn lemma_dec_digits_wf(n: int)
    requires
        n >= 1,
    ensures
        dec_digits(n).len() >= 1,
        forall|i: int| 0 <= i < dec_digits(n).len() ==> is_ref_digit(#[trigger] dec_digits(n)[i]),
    decreases n,
{
    let m = n / 10;
    lemma_digit_char(n % 10);
    if m >= 1 {
        lemma_dec_digits_wf(m);
    } else {
        assert(dec_digits(m) =~= Seq::<char>::empty());
    }
    let l = dec_digits(n);
    assert forall|i: int| 0 <= i < l.len() implies is_ref_digit(#[trigger] l[i]) by {
        if i < l.len() - 1 {
            assert(l[i] == dec_digits(m)[i]);
        } else {
            assert(l[i] == digit_char(n % 10));
        }
    }
}

/// Parsing the canonical decimal digits of a positive number gives it back.
pub proof fn lemma_dec_round_trip(n: int)
    requires
        n >= 1,
    ensures
        row_value(dec_digits(n)) == n,
    decreases n,
{
    let m = n / 10;
    lemma_digit_char(n % 10);
    vstd::arithmetic::div_mod::lemma_fundamental_div_mod(n, 10);
    assert(dec_digits(n).drop_last() =~= dec_digits(m));
    if m >= 1 {
        lemma_dec_round_trip(m);
    } else {
        assert(dec_digits(m) =~= Seq::<char>::empty());
    }
}

/// The canonical A1 address of a cell parses back to exactly that cell:
/// it is a valid cell token whose column and row are the given indices.
/// In particular distinct coordinates always have distinct addresses.
pub proof fn lemma_address_parse_back(col: int, row: int)
    requires
        col >= 1,
        row >= 1,
    ensures
        valid_cell(cell_address(col, row)),
        letter_run(cell_address(col, row)) == col_letters(col).len(),
        cell_col(cell_address(col, row)) == col,
        cell_row(cell_address(col, row)) == row,
{
    let letters = col_letters(col);
    let digits = dec_digits(row);
    let s = cell_address(col, row);
    let k = letters.len() as int;
    lemma_col_letters_wf(col);
    lemma_dec_digits_wf(row);
    assert forall|i: int| 0 <= i < k implies is_ref_letter(#[trigger] s[i]) by {
        assert(s[i] == letters[i]);
    }
    assert(!is_ref_letter(s[k])) by {
        assert(s[k] == digits[0]);
    }
    lemma_letter_run_is(s, k);
    assert(s.take(k) =~= letters);
    assert(s.skip(k) =~= digits);
    lemma_col_round_trip(col);
    lemma_dec_round_trip(row);
    assert forall|i: int| k <= i < s.len() implies is_ref_digit(#[trigger] s[i]) by {
        assert(s[i] == digits[i - k]);
    }
}

/// A valid cell token denotes strictly positive one-based indices.
pub proof fn lemma_valid_cell_positive(s: Seq<char>)
    requires
        valid_cell(s),
    ensures
        cell_col(s) >= 1,
        cell_row(s) >= 1,
{
    lemma_letter_run_bounds(s);
    lemma_col_value_prefix_mono(s, letter_run(s), letter_run(s));
}

// ---------------------------------------------------------------------------
// The range grammar
// ---------------------------------------------------------------------------

/// Number of occurrences of `c` in `s`.
pub open spec fn count_char(s: Seq<char>, c: char) -> int
    decreases s.len(),
{
    if s.len() == 0 {
        0
    } else {
        count_char(s.drop_last(), c) + if s.last() == c {
            1int
        } else {
            0int
        }
    }
}

/// An index at which `c` occurs in `s`; when `c` occurs exactly once this is
/// that unique position.
pub open spec fn idx_of(s: Seq<char>, c: char) -> int {
    choose|i: int| 0 <= i < s.len() && s[i] == c
}

/// Counting over a prefix, one character at a time.
pub proof fn lemma_count_char_step(s: Seq<char>, c: char, i: int)
    requires
        0 <= i < s.len(),
    ensures
        count_char(s.take(i + 1), c) == count_char(s.take(i), c) + if s[i] == c {
            1int
        } else {
            0int
        },
{
    assert(s.take(i + 1).drop_last() =~= s.take(i));
    assert(s.take(i + 1).last() == s[i]);
}

/// A character that occurs nowhere has count zero, and conversely.
proof fn lemma_count_char_zero(s: Seq<char>, c: char)
    requires
        count_char(s, c) == 0,
    ensures
        forall|i: int| 0 <= i < s.len() ==> #[trigger] s[i] != c,
    decreases s.len(),
{
    if s.len() > 0 {
        lemma_count_char_nonneg(s.drop_last(), c);
        lemma_count_char_zero(s.drop_last(), c);
        assert forall|i: int| 0 <= i < s.len() implies #[trigger] s[i] != c by {
            if i < s.len() - 1 {
                assert(s.drop_last()[i] == s[i]);
            }
        }
    }
}

/// Counts are nonnegative.
proof fn lemma_count_char_nonneg(s: Seq<char>, c: char)
    ensures
        count_char(s, c) >= 0,
    decreases s.len(),
{
    if s.len() > 0 {
        lemma_count_char_nonneg(s.drop_last(), c);
    }
}

/// A character that occurs exactly once occurs at exactly one position.
pub proof fn lemma_count_char_once(s: Seq<char>, c: char, i: int)
    requires
        count_char(s, c) == 1,
        0 <= i < s.len(),
        s[i] == c,
    ensures
        forall|j: int| 0 <= j < s.len() && #[trigger] s[j] == c ==> j == i,
        idx_of(s, c) == i,
    decreases s.len(),
{
    lemma_count_char_unique(s, c, i);
    assert(0 <= idx_of(s, c) < s.len() && s[idx_of(s, c)] == c);
}

proof fn lemma_count_char_unique(s: Seq<char>, c: char, i: int)
    requires
        count_char(s, c) == 1,
        0 <= i < s.len(),
        s[i] == c,
    ensures
        forall|j: int| 0 <= j < s.len() && #[trigger] s[j] == c ==> j == i,
    decreases s.len(),
{
    let t = s.drop_last();
    lemma_count_char_nonneg(t, c);
    if s.last() == c {
        lemma_count_char_zero(t, c);
        assert forall|j: int| 0 <= j < s.len() && #[trigger] s[j] == c implies j == i by {
            if j < s.len() - 1 {
                assert(t[j] == s[j]);
            }
            if i < s.len() - 1 {
                assert(t[i] == s[i]);
            }
        }
    } else {
        assert(i < s.len() - 1) by {
            assert(s[s.len() - 1] != c);
        }
        assert(t[i] == s[i]);
        lemma_count_char_unique(t, c, i);
        assert forall|j: int| 0 <= j < s.len() && #[trigger] s[j] == c implies j == i by {
            assert(j < s.len() - 1);
            assert(t[j] == s[j]);
        }
    }
}

/// The range text after stripping an optional sheet qualifier: everything
/// after the single `!`, or the whole string when there is none. `None` when
/// the string holds more than one `!`.
pub open spec fn range_body(s: Seq<char>) -> Option<Seq<char>> {
    if count_char(s, '!') == 0 {
        Some(s)
    } else if count_char(s, '!') == 1 {
        Some(s.skip(idx_of(s, '!') + 1))
    } else {
        None
    }
}

/// The start token of a range body: the part before the single `:`, or the
/// whole body when there is none (a single cell stands for a 1x1 range).
/// `None` when the body holds more than one `:`.
pub open spec fn start_token(t: Seq<char>) -> Option<Seq<char>> {
    if count_char(t, ':') == 0 {
        Some(t)
    } else if count_char(t, ':') == 1 {
        Some(t.take(idx_of(t, ':')))
    } else {
        None
    }
}

/// The end token of a range body: the part after the single `:`, or the
/// whole body when there is none.
pub open spec fn end_token(t: Seq<char>) -> Option<Seq<char>> {
    if count_char(t, ':') == 0 {
        Some(t)
    } else if count_char(t, ':') == 1 {
        Some(t.skip(idx_of(t, ':') + 1))
    } else {
        None
    }
}

/// The separator structure of a range string is acceptable: at most one `!`
/// and at most one `:` after the sheet qualifier.
pub open spec fn range_shape_ok(s: Seq<char>) -> bool {
    range_body(s) is Some && start_token(range_body(s).unwrap()) is Some
}

/// The start cell token of a range string (meaningful when `range_shape_ok`).
pub open spec fn range_start(s: Seq<char>) -> Seq<char> {
    start_token(range_body(s).unwrap()).unwrap()
}

/// The end cell token of a range string (meaningful when `range_shape_ok`).
pub open spec fn range_end(s: Seq<char>) -> Seq<char> {
    end_token(range_body(s).unwrap()).unwrap()
}

/// Both cell tokens of the range parse.
pub open spec fn range_cells_ok(s: Seq<char>) -> bool {
    valid_cell(range_start(s)) && valid_cell(range_end(s))
}

/// Both cell tokens denote indices that fit in `usize`.
pub open spec fn range_fits(s: Seq<char>) -> bool {
    cell_fits(range_start(s)) && cell_fits(range_end(s))
}

/// The start cell lies at or before the end cell on both axes; ranges given
/// backwards are rejected rather than reordered.
pub open spec fn range_ordered(s: Seq<char>) -> bool {
    cell_col(range_start(s)) <= cell_col(range_end(s)) && cell_row(range_start(s)) <= cell_row(
        range_end(s),
    )
}

/// A range string that parses to a well-formed rectangular bound.
pub open spec fn valid_range(s: Seq<char>) -> bool {
    range_shape_ok(s) && range_cells_ok(s) && range_ordered(s)
}

/// The error a malformed or oversized range string is rejected with:
/// separator problems and reversed bounds are range errors, while a cell
/// token that fails to parse (or does not fit) is a reference error.
pub open spec fn range_error(s: Seq<char>) -> GSheetError {
    if !range_shape_ok(s) {
        GSheetError::InvalidRange
    } else if !(range_cells_ok(s) && range_fits(s)) {
        GSheetError::InvalidReference
    } else {
        GSheetError::InvalidRange
    }
}

/// The value of a digit segment is nonnegative.
proof fn lemma_row_value_nonneg_digits(s: Seq<char>, k: int, j: int)
    requires
        0 <= k <= j <= s.len(),
        forall|i: int| k <= i < j ==> is_ref_digit(#[trigger] s[i]),
    ensures
        0 <= row_value(s.subrange(k, j)),
    decreases j - k,
{
    if j > k {
        lemma_row_value_nonneg_digits(s, k, j - 1);
        lemma_row_value_step(s, k, j - 1);
    } else {
        assert(s.subrange(k, k) =~= Seq::<char>::empty());
    }
}

} // verus!
