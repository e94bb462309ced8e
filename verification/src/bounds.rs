//! Axis bounds of a series: the minimum and maximum of its x and y
//! components.
//!
//! Each bound is found by a single forward pass that compares the encoded
//! values with the IEEE `<` relation ([`Binary32::spec_lt`]) — never by an
//! integer sort key, which would misorder fractional and negative values. An
//! empty series has no bounds: [`bounds`] then fails with
//! [`EmptySeriesError`], and the caller must pick a fallback range or skip
//! rendering.

use vstd::prelude::*;

use crate::binary32::Binary32;
use crate::series::Point;

verus! {

/// The derived axis ranges of a non-empty series.
#[derive(Clone, Copy, PartialEq, Eq, Structural, Debug)]
pub struct AxisBounds {
    pub min_x: Binary32,
    pub max_x: Binary32,
    pub min_y: Binary32,
    pub max_y: Binary32,
}

/// The error of asking an empty series for its bounds.
#[derive(Clone, Copy, PartialEq, Eq, Structural, Debug)]
pub struct EmptySeriesError;

/// The x components of a series, in order.
pub open spec fn xs_of(series: Seq<Point>) -> Seq<Binary32> {
    series.map_values(|p: Point| p.x)
}

/// The y components of a series, in order.
pub open spec fn ys_of(series: Seq<Point>) -> Seq<Binary32> {
    series.map_values(|p: Point| p.y)
}

/// The result of a forward minimum pass over a non-empty sequence: start at
/// the first element and replace the running value whenever a later element
/// is IEEE-less than it.
pub open spec fn fold_min(values: Seq<Binary32>) -> Binary32
    recommends
        values.len() > 0,
    decreases values.len(),
{
    if values.len() <= 1 {
        values[0]
    } else {
        let rest = fold_min(values.drop_last());
        if values.last().spec_lt(rest) {
            values.last()
        } else {
            rest
        }
    }
}

/// The result of a forward maximum pass over a non-empty sequence: start at
/// the first element and replace the running value whenever it is
/// IEEE-less than a later element.
pub open spec fn fold_max(values: Seq<Binary32>) -> Binary32
    recommends
        values.len() > 0,
    decreases values.len(),
{
    if values.len() <= 1 {
        values[0]
    } else {
        let rest = fold_max(values.drop_last());
        if rest.spec_lt(values.last()) {
            values.last()
        } else {
            rest
        }
    }
}

/// The bounds of a series: an error when it is empty, otherwise the minimum
/// and maximum of each component.
pub open spec fn bounds_spec(series: Seq<Point>) -> Result<AxisBounds, EmptySeriesError> {
    if series.len() == 0 {
        Err(EmptySeriesError)
    } else {
        Ok(
            AxisBounds {
                min_x: fold_min(xs_of(series)),
                max_x: fold_max(xs_of(series)),
                min_y: fold_min(ys_of(series)),
                max_y: fold_max(ys_of(series)),
            },
        )
    }
}

/// A minimum pass selects an element of the sequence, and no element of the
/// sequence is IEEE-less than it.
pub proof fn lemma_fold_min_is_least(values: Seq<Binary32>)
    requires
        values.len() > 0,
    ensures
        values.contains(fold_min(values)),
        forall|i: int| 0 <= i < values.len() ==> !values[i].spec_lt(fold_min(values)),
    decreases values.len(),
{
    if values.len() > 1 {
        lemma_fold_min_is_least(values.drop_last());
        assert(values.drop_last().contains(fold_min(values.drop_last())));
        let j = choose|j: int|
            0 <= j < values.drop_last().len() && values.drop_last()[j] == fold_min(
                values.drop_last(),
            );
        assert(values[j] == fold_min(values.drop_last()));
        assert(forall|i: int|
            0 <= i < values.len() - 1 ==> values.drop_last()[i] == values[i]);
    }
}

/// A maximum pass selects an element of the sequence, and it is IEEE-less
/// than no element of the sequence.
pub proof fn lemma_fold_max_is_greatest(values: Seq<Binary32>)
    requires
        values.len() > 0,
    ensures
        values.contains(fold_max(values)),
        forall|i: int| 0 <= i < values.len() ==> !fold_max(values).spec_lt(values[i]),
    decreases values.len(),
{
    if values.len() > 1 {
        lemma_fold_max_is_greatest(values.drop_last());
        assert(values.drop_last().contains(fold_max(values.drop_last())));
        let j = choose|j: int|
            0 <= j < values.drop_last().len() && values.drop_last()[j] == fold_max(
                values.drop_last(),
            );
        assert(values[j] == fold_max(values.drop_last()));
        assert(forall|i: int|
            0 <= i < values.len() - 1 ==> values.drop_last()[i] == values[i]);
    }
}

/// The bounds of a non-empty series are attained by its points: each bound
/// is a component of some point, no x component is IEEE-less than `min_x`,
/// `max_x` is IEEE-less than no x component, and likewise for y.
pub proof fn lemma_bounds_attained(series: Seq<Point>)
    requires
        series.len() > 0,
    ensures
        bounds_spec(series) matches Ok(b) && {
            &&& xs_of(series).contains(b.min_x)
            &&& xs_of(series).contains(b.max_x)
            &&& ys_of(series).contains(b.min_y)
            &&& ys_of(series).contains(b.max_y)
            &&& forall|i: int| 0 <= i < series.len() ==> !xs_of(series)[i].spec_lt(b.min_x)
            &&& forall|i: int| 0 <= i < series.len() ==> !b.max_x.spec_lt(xs_of(series)[i])
            &&& forall|i: int| 0 <= i < series.len() ==> !ys_of(series)[i].spec_lt(b.min_y)
            &&& forall|i: int| 0 <= i < series.len() ==> !b.max_y.spec_lt(ys_of(series)[i])
        },
{
    lemma_fold_min_is_least(xs_of(series));
    lemma_fold_max_is_greatest(xs_of(series));
    lemma_fold_min_is_least(ys_of(series));
    lemma_fold_max_is_greatest(ys_of(series));
}

/// Derives the axis bounds of a series in one pass per axis rule: minimum
/// and maximum of the x components and of the y components, compared as IEEE
/// values. Fails with [`EmptySeriesError`] exactly when the series is empty.
pub fn bounds(series: &Vec<Point>) -> (r: Result<AxisBounds, EmptySeriesError>)
    ensures
        r == bounds_spec(series@),
        r is Err <==> series@.len() == 0,
{
    if series.len() == 0 {
        return Err(EmptySeriesError);
    }
    let ghost xs = xs_of(series@);
    let ghost ys = ys_of(series@);
    let first = series[0];
    let mut min_x = first.x;
    let mut max_x = first.x;
    let mut min_y = first.y;
    let mut max_y = first.y;
    let mut i: usize = 1;
    while i < series.len()
        invariant
            1 <= i <= series.len(),
            xs == xs_of(series@),
            ys == ys_of(series@),
            xs.len() == series@.len() && ys.len() == series@.len(),
            min_x == fold_min(xs.take(i as int)),
            max_x == fold_max(xs.take(i as int)),
            min_y == fold_min(ys.take(i as int)),
            max_y == fold_max(ys.take(i as int)),
        decreases series.len() - i,
    {
        let p = series[i];
        proof {
            assert(xs.take(i as int + 1).drop_last() =~= xs.take(i as int));
            assert(ys.take(i as int + 1).drop_last() =~= ys.take(i as int));
            assert(xs.take(i as int + 1).last() == p.x);
            assert(ys.take(i as int + 1).last() == p.y);
        }
        if p.x.lt(min_x) {
            min_x = p.x;
        }
        if max_x.lt(p.x) {
            max_x = p.x;
        }
        if p.y.lt(min_y) {
            min_y = p.y;
        }
        if max_y.lt(p.y) {
            max_y = p.y;
        }
        i = i + 1;
    }
    proof {
        assert(xs.take(series@.len() as int) =~= xs);
        assert(ys.take(series@.len() as int) =~= ys);
    }
    Ok(AxisBounds { min_x, max_x, min_y, max_y })
}

} // verus!
