//! The stretch of the hole that each survey station answers for.
//!
//! A station answers for the depths from halfway up to the station before it
//! to halfway down to the station after it; the first station starts at its
//! own depth and the last one ends at its own depth. Each stretch leaves its
//! upper end out and takes its lower end in. Halfway between two depths need
//! not be a whole number, so the ends are kept doubled.
use vstd::prelude::*;
use crate::survey::{survey_is_valid, BHOrientation};

verus! {

/// A stretch of the hole, open at the shallow end and closed at the deep end.
#[derive(Clone, Copy, Debug, PartialEq, Eq, Structural)]
pub struct DepthInterval {
    /// Twice the depth above which the stretch begins.
    pub low: i128,
    /// Twice the depth at which the stretch ends.
    pub high: i128,
}

impl DepthInterval {
    /// Whether `depth` lies in the stretch.
    pub open spec fn holds(self, depth: int) -> bool {
        self.low < 2 * depth <= self.high
    }
}

/// Twice the depth above which the stretch of station `i` begins.
pub open spec fn low_of(stations: Seq<BHOrientation>, i: int) -> int {
    if i == 0 {
        2 * stations[0].depth
    } else {
        stations[i - 1].depth + stations[i].depth
    }
}

/// Twice the depth at which the stretch of station `i` ends.
pub open spec fn high_of(stations: Seq<BHOrientation>, i: int) -> int {
    if i == stations.len() - 1 {
        2 * stations[i].depth
    } else {
        stations[i].depth + stations[i + 1].depth
    }
}

/// The stretch of station `i`.
pub open spec fn interval_of(stations: Seq<BHOrientation>, i: int) -> DepthInterval {
    DepthInterval { low: low_of(stations, i) as i128, high: high_of(stations, i) as i128 }
}

/// Whether station `i` answers for `depth`.
pub open spec fn station_holds(stations: Seq<BHOrientation>, i: int, depth: int) -> bool {
    &&& 0 <= i < stations.len()
    &&& low_of(stations, i) < 2 * depth <= high_of(stations, i)
}

/// The station that answers for `depth`, if there is one.
pub open spec fn station_of(stations: Seq<BHOrientation>, depth: int) -> Option<int> {
    if exists|i: int| station_holds(stations, i, depth) {
        Some(choose|i: int| station_holds(stations, i, depth))
    } else {
        None
    }
}

/// Whether the stretches follow one another from shallow to deep without
/// lying over one another.
pub open spec fn intervals_ordered(intervals: Seq<DepthInterval>) -> bool {
    &&& forall|i: int| 0 <= i < intervals.len() ==> (#[trigger] intervals[i]).low <= intervals[i].high
    &&& forall|i: int, j: int|
        0 <= i < j < intervals.len() ==> (#[trigger] intervals[i]).high <= (
        #[trigger] intervals[j]).low
}

/// Whether `intervals` are the stretches of `stations`, station by station.
pub open spec fn intervals_match(
    intervals: Seq<DepthInterval>,
    stations: Seq<BHOrientation>,
) -> bool {
    &&& intervals.len() == stations.len()
    &&& forall|i: int|
        0 <= i < intervals.len() ==> #[trigger] intervals[i] == interval_of(stations, i)
}

/// The stretch of every station, in the order of the stations.
pub fn depth_intervals(stations: &Vec<BHOrientation>) -> (intervals: Vec<DepthInterval>)
    ensures
        intervals_match(intervals@, stations@),
{
    let n: usize = stations.len();
    let mut intervals: Vec<DepthInterval> = Vec::new();
    let mut i: usize = 0;
    while i < n
        invariant
            n == stations.len(),
            i <= n,
            intervals.len() == i,
            forall|k: int| 0 <= k < i ==> #[trigger] intervals@[k] == interval_of(stations@, k),
        decreases n - i,
    {
        let here: i128 = stations[i].depth as i128;
        let low: i128 = if i == 0 {
            2 * here
        } else {
            stations[i - 1].depth as i128 + here
        };
        let high: i128 = if i == n - 1 {
            2 * here
        } else {
            here + stations[i + 1].depth as i128
        };
        intervals.push(DepthInterval { low, high });
        i = i + 1;
    }
    intervals
}

/// Searches ordered stretches for the one that holds `depth`, halving the
/// stretches still in question at each step. Ordered stretches do not lie
/// over one another, so at most one of them holds the depth.
pub fn find_interval(intervals: &Vec<DepthInterval>, depth: i64) -> (found: Option<usize>)
    requires
        intervals_ordered(intervals@),
    ensures
        match found {
            Some(i) => {
                &&& i < intervals.len()
                &&& intervals@[i as int].holds(depth as int)
                &&& forall|j: int|
                    0 <= j < intervals.len() && (#[trigger] intervals@[j]).holds(depth as int)
                        ==> j == i
            },
            None => forall|i: int|
                0 <= i < intervals.len() ==> !(#[trigger] intervals@[i]).holds(depth as int),
        },
{
    let doubled: i128 = 2 * (depth as i128);
    let mut lo: usize = 0;
    let mut hi: usize = intervals.len();
    while lo < hi
        invariant
            lo <= hi <= intervals.len(),
            doubled == 2 * depth,
            intervals_ordered(intervals@),
            forall|i: int| 0 <= i < lo ==> !(#[trigger] intervals@[i]).holds(depth as int),
            forall|i: int|
                hi <= i < intervals.len() ==> !(#[trigger] intervals@[i]).holds(depth as int),
        decreases hi - lo,
    {
        let mid: usize = lo + (hi - lo) / 2;
        let stretch: DepthInterval = intervals[mid];
        if doubled > stretch.low && doubled <= stretch.high {
            return Some(mid);
        } else if doubled <= stretch.low {
            hi = mid;
        } else {
            lo = mid + 1;
        }
    }
    None
}

/// The stretches of a survey are ordered.
pub proof fn lemma_survey_intervals_ordered(
    intervals: Seq<DepthInterval>,
    stations: Seq<BHOrientation>,
)
    requires
        survey_is_valid(stations),
        intervals_match(intervals, stations),
    ensures
        intervals_ordered(intervals),
{
    assert forall|i: int| 0 <= i < intervals.len() implies (#[trigger] intervals[i]).low
        <= intervals[i].high by {
        assert(intervals[i] == interval_of(stations, i));
    }
    assert forall|i: int, j: int| 0 <= i < j < intervals.len() implies (
    #[trigger] intervals[i]).high <= (#[trigger] intervals[j]).low by {
        assert(intervals[i] == interval_of(stations, i));
        assert(intervals[j] == interval_of(stations, j));
        assert(stations[i + 1].depth <= stations[j - 1].depth || i + 1 == j);
    }
}

/// What a search of the stretches of a survey finds for a depth is the
/// station that answers for the depth.
pub proof fn lemma_found_is_station_of(
    intervals: Seq<DepthInterval>,
    stations: Seq<BHOrientation>,
    depth: i64,
    found: Option<usize>,
)
    requires
        survey_is_valid(stations),
        intervals_match(intervals, stations),
        match found {
            Some(i) => i < intervals.len() && intervals[i as int].holds(depth as int),
            None => forall|i: int|
                0 <= i < intervals.len() ==> !(#[trigger] intervals[i]).holds(depth as int),
        },
    ensures
        match found {
            Some(i) => station_of(stations, depth as int) == Some(i as int),
            None => station_of(stations, depth as int) is None,
        },
        found is Some <==> stations[0].depth < depth <= stations.last().depth,
{
    lemma_intervals_partition(stations, depth as int);
    match found {
        Some(i) => {
            assert(intervals[i as int] == interval_of(stations, i as int));
            assert(station_holds(stations, i as int, depth as int));
        },
        None => {
            assert forall|i: int| !station_holds(stations, i, depth as int) by {
                if 0 <= i < stations.len() {
                    assert(intervals[i] == interval_of(stations, i));
                    assert(!intervals[i].holds(depth as int));
                }
            }
        },
    }
}

/// Each stretch of a survey begins where the one before it ends; the first
/// begins at the first station and the last ends at the last station.
pub proof fn lemma_intervals_contiguous(stations: Seq<BHOrientation>, i: int)
    requires
        survey_is_valid(stations),
        0 <= i < stations.len(),
    ensures
        low_of(stations, i) <= high_of(stations, i),
        i + 1 < stations.len() ==> high_of(stations, i) == low_of(stations, i + 1),
        low_of(stations, 0) == 2 * stations[0].depth,
        high_of(stations, stations.len() - 1) == 2 * stations.last().depth,
{
}

/// No depth lies in the stretches of two stations of a survey.
pub proof fn lemma_station_unique(stations: Seq<BHOrientation>, depth: int, i: int, j: int)
    requires
        survey_is_valid(stations),
        station_holds(stations, i, depth),
        station_holds(stations, j, depth),
    ensures
        i == j,
{
    if i < j {
        assert(stations[i + 1].depth <= stations[j - 1].depth || i + 1 == j);
    } else if j < i {
        assert(stations[j + 1].depth <= stations[i - 1].depth || j + 1 == i);
    }
}

/// A depth below the first station of a survey and not below the stretch of
/// station `k` lies in the stretch of a station up to `k`.
proof fn lemma_covered_up_to(stations: Seq<BHOrientation>, depth: int, k: int)
    requires
        survey_is_valid(stations),
        0 <= k < stations.len(),
        low_of(stations, 0) < 2 * depth <= high_of(stations, k),
    ensures
        exists|i: int| station_holds(stations, i, depth),
    decreases k,
{
    if low_of(stations, k) < 2 * depth {
        assert(station_holds(stations, k, depth));
    } else {
        lemma_covered_up_to(stations, depth, k - 1);
    }
}

/// The stretches of a survey cover the hole from the first station, which is
/// left out, to the last, which is taken in, and nothing else: a depth has a
/// station exactly if it lies there, and then it has one station only.
pub proof fn lemma_intervals_partition(stations: Seq<BHOrientation>, depth: int)
    requires
        survey_is_valid(stations),
    ensures
        station_of(stations, depth) is Some <==> stations[0].depth < depth
            <= stations.last().depth,
        station_of(stations, depth) matches Some(i) ==> station_holds(stations, i, depth),
        forall|i: int|
            station_holds(stations, i, depth) ==> station_of(stations, depth) == Some(i),
{
    if stations[0].depth < depth <= stations.last().depth {
        lemma_covered_up_to(stations, depth, stations.len() - 1);
    }
    if exists|i: int| station_holds(stations, i, depth) {
        let w = choose|i: int| station_holds(stations, i, depth);
        assert(stations[0].depth <= stations[w].depth <= stations.last().depth);
        if w > 0 {
            assert(stations[0].depth <= stations[w - 1].depth);
        }
        if w + 1 < stations.len() {
            assert(stations[w + 1].depth <= stations.last().depth);
        }
    }
    assert forall|i: int| station_holds(stations, i, depth) implies station_of(stations, depth)
        == Some(i) by {
        lemma_station_unique(
            stations,
            depth,
            i,
            choose|w: int| station_holds(stations, w, depth),
        );
    }
}

/// A measurement taken at the depth of a station belongs to that station,
/// where the station lies deeper than the one before it. The first station
/// has no such measurement: its own depth is left out of its stretch.
pub proof fn lemma_station_depth_is_its_own(stations: Seq<BHOrientation>, i: int)
    requires
        survey_is_valid(stations),
        0 < i < stations.len(),
        stations[i - 1].depth < stations[i].depth,
    ensures
        station_of(stations, stations[i].depth as int) == Some(i),
        station_of(stations, stations[0].depth as int) is None,
{
    assert(stations[i].depth <= stations[i + 1].depth || i + 1 == stations.len());
    assert(station_holds(stations, i, stations[i].depth as int));
    lemma_intervals_partition(stations, stations[i].depth as int);
    lemma_intervals_partition(stations, stations[0].depth as int);
}

/// A measurement taken halfway between two stations of different depths
/// belongs to the shallower of the two.
pub proof fn lemma_midpoint_is_shallower(stations: Seq<BHOrientation>, i: int, depth: int)
    requires
        survey_is_valid(stations),
        0 <= i < stations.len() - 1,
        stations[i].depth < stations[i + 1].depth,
        2 * depth == stations[i].depth + stations[i + 1].depth,
    ensures
        station_of(stations, depth) == Some(i),
{
    assert(i > 0 ==> stations[i - 1].depth <= stations[i].depth);
    assert(station_holds(stations, i, depth));
    lemma_intervals_partition(stations, depth);
}

} // verus!
