//! Extraction of an ordered numeric series from worksheet rows.
//!
//! Given rows of typed cells, a name-column index and a value-column index,
//! [`extract`] produces the ordered sequence of (x, y) points to plot. A row
//! too short to contain the value column is skipped. The cell at the name
//! column coerces to x and the cell at the value column coerces to y; a cell
//! with no numeric value (including a cell past the end of the row) coerces
//! to `0.0` rather than failing. A row whose x and y both equal exactly
//! `0.0` is dropped as semantically empty — a deliberate, lossy heuristic
//! that also drops a genuine (0, 0) data point. Every other row contributes
//! its point, in row order.

use vstd::prelude::*;

use crate::binary32::Binary32;
use crate::cell::{RawCell, RawRow};

verus! {

/// One point of a plotted series.
#[derive(Clone, Copy, PartialEq, Eq, Structural, Debug)]
pub struct Point {
    pub x: Binary32,
    pub y: Binary32,
}

/// An ordered sequence of (x, y) points, in source-row order, not
/// deduplicated, possibly empty.
pub type Series = Vec<Point>;

/// The cell a row presents at a column: the stored cell inside the row, or
/// an empty cell past its end.
pub open spec fn cell_at(row: Seq<RawCell>, column: int) -> RawCell {
    if 0 <= column < row.len() {
        row[column]
    } else {
        RawCell::Empty
    }
}

/// The coerced value of the cell at a column: its numeric value if it has
/// one, `0.0` otherwise.
pub open spec fn coerced(row: Seq<RawCell>, column: int) -> Binary32 {
    match cell_at(row, column).spec_numeric_value() {
        Some(v) => v,
        None => Binary32 { bits: 0 },
    }
}

/// The point a row would contribute.
pub open spec fn row_point(row: Seq<RawCell>, name_col: int, value_col: int) -> Point {
    Point { x: coerced(row, name_col), y: coerced(row, value_col) }
}

/// Whether a row contributes a point: it must reach the value column, and
/// its coerced x and y must not both equal exactly `0.0`.
pub open spec fn row_kept(row: Seq<RawCell>, name_col: int, value_col: int) -> bool {
    &&& row.len() > value_col
    &&& !(coerced(row, name_col).spec_is_zero() && coerced(row, value_col).spec_is_zero())
}

/// What one row adds to the series: its point if it is kept, nothing
/// otherwise.
pub open spec fn row_contribution(name_col: int, value_col: int) -> spec_fn(Seq<RawCell>) -> Option<
    Point,
> {
    |row: Seq<RawCell>|
        if row_kept(row, name_col, value_col) {
            Some(row_point(row, name_col, value_col))
        } else {
            None
        }
}

/// The rows as mathematical sequences of cells.
pub open spec fn rows_view(rows: Seq<RawRow>) -> Seq<Seq<RawCell>> {
    rows.map_values(|row: RawRow| row@)
}

/// The extracted series: each kept row contributes its point, in row order.
pub open spec fn extract_spec(rows: Seq<Seq<RawCell>>, name_col: int, value_col: int) -> Seq<
    Point,
> {
    rows.filter_map(row_contribution(name_col, value_col))
}

/// `filter_map` over a concatenation is the concatenation of the
/// `filter_map`s.
pub proof fn lemma_filter_map_distributes_over_add<A, B>(
    a: Seq<A>,
    b: Seq<A>,
    f: spec_fn(A) -> Option<B>,
)
    ensures
        (a + b).filter_map(f) == a.filter_map(f) + b.filter_map(f),
    decreases b.len(),
{
    if b.len() == 0 {
        assert(a + b =~= a);
        assert(b.filter_map(f) =~= Seq::<B>::empty());
        assert((a + b).filter_map(f) =~= a.filter_map(f) + b.filter_map(f));
    } else {
        lemma_filter_map_distributes_over_add(a, b.drop_last(), f);
        assert((a + b).drop_last() =~= a + b.drop_last());
        assert((a + b).last() == b.last());
        assert((a + b).filter_map(f) =~= a.filter_map(f) + b.filter_map(f));
    }
}

/// The extracted series decomposes around any row: the part from the rows
/// before it, then that row's own contribution, then the part from the rows
/// after it. In particular, extraction keeps row order and never reorders or
/// deduplicates points.
pub proof fn lemma_extract_decomposes(
    rows: Seq<Seq<RawCell>>,
    name_col: int,
    value_col: int,
    i: int,
)
    requires
        0 <= i < rows.len(),
    ensures
        extract_spec(rows, name_col, value_col) == extract_spec(rows.take(i), name_col, value_col)
            + (match row_contribution(name_col, value_col)(rows[i]) {
            Some(p) => seq![p],
            None => Seq::<Point>::empty(),
        }) + extract_spec(rows.skip(i + 1), name_col, value_col),
{
    let f = row_contribution(name_col, value_col);
    assert(rows =~= (rows.take(i) + seq![rows[i]]) + rows.skip(i + 1));
    lemma_filter_map_distributes_over_add(rows.take(i) + seq![rows[i]], rows.skip(i + 1), f);
    lemma_filter_map_distributes_over_add(rows.take(i), seq![rows[i]], f);
    Seq::lemma_filter_map_singleton(rows[i], f);
}

/// A row that is not kept — too short to reach the value column, or with x
/// and y both exactly `0.0` — contributes nothing: extraction gives the same
/// series with or without it.
pub proof fn lemma_dropped_row_contributes_nothing(
    rows: Seq<Seq<RawCell>>,
    name_col: int,
    value_col: int,
    i: int,
)
    requires
        0 <= i < rows.len(),
        !row_kept(rows[i], name_col, value_col),
    ensures
        extract_spec(rows, name_col, value_col) == extract_spec(
            rows.remove(i),
            name_col,
            value_col,
        ),
{
    let f = row_contribution(name_col, value_col);
    lemma_extract_decomposes(rows, name_col, value_col, i);
    assert(f(rows[i]) is None);
    assert(rows.remove(i) =~= rows.take(i) + rows.skip(i + 1));
    lemma_filter_map_distributes_over_add(rows.take(i), rows.skip(i + 1), f);
    assert(extract_spec(rows, name_col, value_col) =~= extract_spec(
        rows.remove(i),
        name_col,
        value_col,
    ));
}

/// A row whose x coerces to `0.0` — because the name-column cell is zero,
/// has no numeric value, or lies past the end of the row — is still kept
/// whenever its y is non-zero, with x defaulted to the `+0.0` pattern when
/// the cell had no numeric value.
pub proof fn lemma_defaulted_x_keeps_row(row: Seq<RawCell>, name_col: int, value_col: int)
    requires
        row.len() > value_col,
        coerced(row, name_col).spec_is_zero(),
        !coerced(row, value_col).spec_is_zero(),
    ensures
        row_kept(row, name_col, value_col),
        cell_at(row, name_col).spec_numeric_value() is None ==> row_point(
            row,
            name_col,
            value_col,
        ).x == (Binary32 { bits: 0 }),
{
}

/// Reads the coerced value of the cell a row presents at a column.
fn coerce_at(row: &RawRow, column: usize) -> (r: Binary32)
    ensures
        r == coerced(row@, column as int),
{
    if column < row.len() {
        match row[column].numeric_value() {
            Some(v) => v,
            None => Binary32::zero(),
        }
    } else {
        Binary32::zero()
    }
}

/// Converts rows of typed cells into the series of points to plot, applying
/// the coercion and filtering rules of this module. Extraction never fails:
/// malformed cells degrade to `0.0`, and the result is empty when every row
/// was skipped or dropped.
pub fn extract(rows: &Vec<RawRow>, name_col: usize, value_col: usize) -> (series: Series)
    ensures
        series@ == extract_spec(rows_view(rows@), name_col as int, value_col as int),
{
    let ghost rview = rows_view(rows@);
    let ghost contribution = row_contribution(name_col as int, value_col as int);
    let mut series: Series = Vec::new();
    let mut i: usize = 0;
    while i < rows.len()
        invariant
            i <= rows.len(),
            rview == rows_view(rows@),
            rview.len() == rows@.len(),
            contribution == row_contribution(name_col as int, value_col as int),
            series@ == rview.take(i as int).filter_map(contribution),
        decreases rows.len() - i,
    {
        let row: &RawRow = &rows[i];
        proof {
            rview.lemma_filter_map_take_succ(contribution, i as int);
            assert(rview[i as int] == row@);
        }
        if value_col < row.len() {
            let x = coerce_at(row, name_col);
            let y = coerce_at(row, value_col);
            if !(x.is_zero() && y.is_zero()) {
                series.push(Point { x, y });
            }
        }
        assert(series@ =~= rview.take(i as int + 1).filter_map(contribution));
        i = i + 1;
    }
    proof {
        assert(rview.take(rows@.len() as int) =~= rview);
    }
    series
}

} // verus!
