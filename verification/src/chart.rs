//! The data behind the price chart: the points built from a chart reply,
//! the offsets of the grid lines, and what setting new points does.

use vstd::prelude::*;

verus! {

#[verifier::external_type_specification]
#[verifier::external_body]
pub struct ExNaiveDateTime(chrono::NaiveDateTime);

/// The earliest second, counted from the Unix epoch, that chrono can hold as
/// a date and time: 1 January of the year -262143, 00:00:00.
pub const MIN_TIMESTAMP: i64 = -8_334_601_228_800;

/// The latest second, counted from the Unix epoch, that chrono can hold as a
/// date and time: 31 December of the year 262142, 23:59:59.
pub const MAX_TIMESTAMP: i64 = 8_210_266_876_799;

/// Whether chrono can turn `secs` seconds from the Unix epoch into a date
/// and time.
pub open spec fn timestamp_in_range(secs: i64) -> bool {
    MIN_TIMESTAMP <= secs <= MAX_TIMESTAMP
}

/// Calls `chrono::NaiveDateTime::from_timestamp_opt` with no nanoseconds.
/// The contract claims that it gives a value exactly for the seconds within
/// the years that chrono's dates span (year -262143 to year 262142, as its
/// source sets `MIN_YEAR` and `MAX_YEAR`); it says nothing of which date and
/// time that value holds.
#[verifier::external_body]
#[allow(deprecated)]
fn naive_from_timestamp(secs: i64) -> (r: Option<chrono::NaiveDateTime>)
    ensures
        r is Some <==> timestamp_in_range(secs),
{
    chrono::NaiveDateTime::from_timestamp_opt(secs, 0)
}

/// A point of the chart: the closing value of a quote at a second counted
/// from the Unix epoch, in UTC.
#[derive(Debug, PartialEq, Eq)]
pub struct QuotePoint<V> {
    pub timestamp: i64,
    pub value: V,
}

impl<V> QuotePoint<V> {
    pub fn new(timestamp: i64, value: V) -> (r: Self)
        ensures
            r.timestamp == timestamp,
            r.value == value,
    {
        QuotePoint { timestamp, value }
    }
}

/// Why a chart reply gives no points.
#[derive(Debug, Clone, Copy, PartialEq, Eq, Structural)]
pub enum ChartError {
    /// There are timestamps but no indicator with closing values.
    NoIndicators,
    /// The closing values end before the timestamp at `index`.
    MissingClose { index: usize },
    /// The timestamp at `index` is not a date and time that chrono can hold.
    InvalidTimestamp { index: usize },
    /// The closing value at `index` is absent.
    NoClose { index: usize },
}

/// What stops the point at index `i` from being built, in the order in which
/// it is checked, or `None` if nothing does.
pub open spec fn point_error<V>(
    timestamps: Seq<i64>,
    closes: Option<Seq<Option<V>>>,
    i: int,
) -> Option<ChartError> {
    match closes {
        None => Some(ChartError::NoIndicators),
        Some(c) => {
            if i >= c.len() {
                Some(ChartError::MissingClose { index: i as usize })
            } else if !timestamp_in_range(timestamps[i]) {
                Some(ChartError::InvalidTimestamp { index: i as usize })
            } else if c[i] is None {
                Some(ChartError::NoClose { index: i as usize })
            } else {
                None
            }
        },
    }
}

/// A point fails to be built only for a fault of its own: with no closing
/// values at all, with the closing values ending at or before it, with its
/// timestamp outside chrono's range, or with its closing value absent. At
/// any index where none of these holds, at any length, nothing stops it.
pub proof fn lemma_point_error_only_on_a_fault<V>(
    timestamps: Seq<i64>,
    closes: Option<Seq<Option<V>>>,
)
    requires
        timestamps.len() <= usize::MAX,
    ensures
        forall|i: int|
            0 <= i < timestamps.len() ==> match #[trigger] point_error(timestamps, closes, i) {
                None => closes matches Some(c) && i < c.len() && MIN_TIMESTAMP <= timestamps[i]
                    <= MAX_TIMESTAMP && c[i] is Some,
                Some(ChartError::NoIndicators) => closes is None,
                Some(ChartError::MissingClose { index }) => index == i && (closes matches Some(c)
                    && i >= c.len()),
                Some(ChartError::InvalidTimestamp { index }) => index == i && (closes matches Some(
                    c,
                ) && i < c.len() && !(MIN_TIMESTAMP <= timestamps[i] <= MAX_TIMESTAMP)),
                Some(ChartError::NoClose { index }) => index == i && (closes matches Some(c) && i
                    < c.len() && MIN_TIMESTAMP <= timestamps[i] <= MAX_TIMESTAMP && c[i] is None),
            },
{
    assert forall|i: int| 0 <= i < timestamps.len() implies match #[trigger] point_error(
        timestamps,
        closes,
        i,
    ) {
        None => closes matches Some(c) && i < c.len() && MIN_TIMESTAMP <= timestamps[i]
            <= MAX_TIMESTAMP && c[i] is Some,
        Some(ChartError::NoIndicators) => closes is None,
        Some(ChartError::MissingClose { index }) => index == i && (closes matches Some(c) && i
            >= c.len()),
        Some(ChartError::InvalidTimestamp { index }) => index == i && (closes matches Some(c) && i
            < c.len() && !(MIN_TIMESTAMP <= timestamps[i] <= MAX_TIMESTAMP)),
        Some(ChartError::NoClose { index }) => index == i && (closes matches Some(c) && i < c.len()
            && MIN_TIMESTAMP <= timestamps[i] <= MAX_TIMESTAMP && c[i] is None),
    } by {
        assert(i < usize::MAX);
    }
}

/// The closing values as a sequence, if there are any.
pub open spec fn closes_view<V>(closes: Option<&Vec<Option<V>>>) -> Option<Seq<Option<V>>> {
    match closes {
        Some(c) => Some(c@),
        None => None,
    }
}

/// Builds the points of the chart from the timestamps of a chart reply and
/// the closing values of its first indicator (`None` where it has none):
/// one point per timestamp, with the closing value at the same index.
/// Where a point cannot be built, the reply gives the error of the first
/// such index.
pub fn points_from_chart<V: Copy>(timestamps: &Vec<i64>, closes: Option<&Vec<Option<V>>>) -> (r:
    Result<Vec<QuotePoint<V>>, ChartError>)
    ensures
        r is Ok <==> (forall|i: int|
            0 <= i < timestamps@.len() ==> point_error(timestamps@, closes_view(closes), i) is None),
        r matches Ok(points) ==> {
            &&& points@.len() == timestamps@.len()
            &&& forall|i: int|
                0 <= i < points@.len() ==> points@[i] == (QuotePoint {
                    timestamp: timestamps@[i],
                    value: closes_view(closes)->Some_0[i]->Some_0,
                })
        },
        r matches Err(e) ==> exists|i: int|
            0 <= i < timestamps@.len() && point_error(timestamps@, closes_view(closes), i) == Some(e)
                && forall|j: int|
                0 <= j < i ==> point_error(timestamps@, closes_view(closes), j) is None,
        (closes matches Some(c) && c@.len() >= timestamps@.len() && forall|i: int|
            0 <= i < timestamps@.len() ==> MIN_TIMESTAMP <= #[trigger] timestamps@[i]
                <= MAX_TIMESTAMP && c@[i] is Some) ==> r is Ok,
        r matches Err(ChartError::NoIndicators) ==> closes is None && timestamps@.len() > 0,
        r matches Err(ChartError::MissingClose { index }) ==> (closes matches Some(c) && c@.len()
            <= index < timestamps@.len()),
        r matches Err(ChartError::InvalidTimestamp { index }) ==> index < timestamps@.len() && !(
        MIN_TIMESTAMP <= timestamps@[index as int] <= MAX_TIMESTAMP),
        r matches Err(ChartError::NoClose { index }) ==> (closes matches Some(c) && index
            < timestamps@.len() && index < c@.len() && c@[index as int] is None),
{
    let ghost cv = closes_view(closes);
    let mut points: Vec<QuotePoint<V>> = Vec::new();
    let n = timestamps.len();
    proof {
        lemma_point_error_only_on_a_fault(timestamps@, cv);
    }
    let mut idx: usize = 0;
    while idx < n
        invariant
            n == timestamps@.len(),
            cv == closes_view(closes),
            idx <= n,
            points@.len() == idx,
            forall|j: int| 0 <= j < idx ==> point_error(timestamps@, cv, j) is None,
            forall|j: int|
                0 <= j < idx ==> points@[j] == (QuotePoint {
                    timestamp: timestamps@[j],
                    value: cv->Some_0[j]->Some_0,
                }),
        decreases n - idx,
    {
        let timestamp = timestamps[idx];
        let close_values = match closes {
            Some(c) => c,
            None => {
                assert(point_error(timestamps@, cv, idx as int) == Some(ChartError::NoIndicators));
                return Err(ChartError::NoIndicators);
            },
        };
        if idx >= close_values.len() {
            return Err(ChartError::MissingClose { index: idx });
        }
        let close = close_values[idx];
        if naive_from_timestamp(timestamp).is_none() {
            return Err(ChartError::InvalidTimestamp { index: idx });
        }
        match close {
            Some(value) => {
                points.push(QuotePoint { timestamp, value });
            },
            None => {
                return Err(ChartError::NoClose { index: idx });
            },
        }
        idx = idx + 1;
    }
    Ok(points)
}

/// The distance between grid lines on a side of `extent` pixels: the extent
/// less the two-pixel line, in four parts, as integer division gives it.
pub open spec fn grid_step(extent: i32) -> int {
    (extent - 2) / 4
}

/// The grid step is the extent less the line, divided into four: four
/// steps fit in it and five do not, at every extent of at least six pixels.
pub proof fn lemma_grid_step_is_a_quarter(extent: i32)
    ensures
        extent >= 6 ==> grid_step(extent) >= 1 && 4 * grid_step(extent) <= extent - 2 < 4
            * grid_step(extent) + 4,
        grid_step(extent) == (extent - 2) / 4,
{
}

/// Whether drawing the grid on a side of `extent` pixels would step by
/// zero, which `Iterator::step_by` refuses with a panic: that is the case
/// where the extent less two, divided by four toward zero, is zero.
pub open spec fn grid_step_is_zero(extent: i32) -> bool {
    -1 <= extent <= 5
}

/// The offsets at which the grid lines on a side of `extent` pixels are
/// drawn: from 0, every `grid_step(extent)` pixels, while inside the extent.
/// A negative extent has none.
pub fn grid_offsets(extent: i32) -> (r: Vec<i32>)
    requires
        !grid_step_is_zero(extent),
        extent >= i32::MIN + 2,
    ensures
        extent < 0 ==> r@.len() == 0,
        extent > 0 ==> {
            &&& r@.len() >= 1
            &&& forall|k: int| 0 <= k < r@.len() ==> r@[k] == k * grid_step(extent)
            &&& forall|k: int| 0 <= k < r@.len() ==> 0 <= #[trigger] r@[k] < extent
            &&& r@.len() * grid_step(extent) >= extent
            &&& forall|k: int| 0 <= k < r@.len() ==> r@[k] == k * ((extent - 2) / 4)
            &&& r@.len() * ((extent - 2) / 4) >= extent
        },
{
    proof {
        lemma_grid_step_is_a_quarter(extent);
    }
    let mut offsets: Vec<i32> = Vec::new();
    if extent < 0 {
        return offsets;
    }
    let step: i32 = (extent - 2) / 4;
    assert(step == grid_step(extent));
    assert(step >= 1);
    let mut x: i32 = 0;
    loop
        invariant_except_break
            step == grid_step(extent),
            step >= 1,
            extent >= 6,
            0 <= x < extent,
            x == offsets@.len() * step,
            forall|k: int| 0 <= k < offsets@.len() ==> offsets@[k] == k * step,
            forall|k: int| 0 <= k < offsets@.len() ==> 0 <= #[trigger] offsets@[k] < extent,
        ensures
            offsets@.len() >= 1,
            forall|k: int| 0 <= k < offsets@.len() ==> offsets@[k] == k * step,
            forall|k: int| 0 <= k < offsets@.len() ==> 0 <= #[trigger] offsets@[k] < extent,
            offsets@.len() * step >= extent,
        decreases extent - x,
    {
        let ghost n = offsets@.len();
        offsets.push(x);
        assert((n + 1) * step == n * step + step) by (nonlinear_arith);
        if step >= extent - x {
            break;
        }
        x = x + step;
    }
    offsets
}

/// What setting new points on the chart does.
#[derive(Debug, Clone, Copy, PartialEq, Eq, Structural)]
pub struct SetPointsPlan {
    /// Remove the pending animation tick.
    pub remove_tick: bool,
    /// Replace the shown points by the new ones.
    pub store_points: bool,
    /// Ask for the chart to be laid out and drawn again.
    pub queue_resize: bool,
}

/// Plans the setting of new points: a pending animation tick is removed in
/// every case; without animations the points are replaced and the chart is
/// redrawn; with animations nothing more happens, since animating is not
/// done.
pub fn plan_set_points(has_tick: bool, animations_enabled: bool) -> (r: SetPointsPlan)
    ensures
        r.remove_tick == has_tick,
        r.store_points == !animations_enabled,
        r.queue_resize == !animations_enabled,
{
    if !animations_enabled {
        SetPointsPlan { remove_tick: has_tick, store_points: true, queue_resize: true }
    } else {
        SetPointsPlan { remove_tick: has_tick, store_points: false, queue_resize: false }
    }
}

} // verus!
