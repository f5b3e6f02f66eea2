//! The records of a borehole survey and of the measurements taken on its core.
use vstd::prelude::*;
use crate::error::GeoError;

verus! {

/// One structure measured on the core.
#[derive(Clone, Copy, Debug, PartialEq, Eq, Structural)]
pub struct RawMeasurement {
    /// Depth along the hole at which the structure was measured.
    pub depth: i64,
    /// Angle between the structure and the axis of the core.
    pub alpha: i64,
    /// Angle around the core from the orientation line to the lowest point
    /// of the structure's trace.
    pub beta: i64,
}

/// One station of the survey: the course of the hole at a depth.
#[derive(Clone, Copy, Debug, PartialEq, Eq, Structural)]
pub struct BHOrientation {
    /// Depth along the hole at which the course was surveyed.
    pub depth: i64,
    /// Compass direction of the hole at that depth.
    pub bearing: i64,
    /// Angle of the hole above the horizontal at that depth.
    pub inclination: i64,
}

/// A survey station, named for what it records of the hole.
pub type HoleOrientation = BHOrientation;

/// Whether the stations make a survey: there is one at least, the first is
/// at depth zero, and no station is shallower than one before it.
pub open spec fn survey_is_valid(stations: Seq<BHOrientation>) -> bool {
    &&& stations.len() > 0
    &&& stations[0].depth == 0
    &&& forall|i: int, j: int|
        0 <= i <= j < stations.len() ==> stations[i].depth <= stations[j].depth
}

/// Accepts the stations that make a survey and reports all others.
pub fn check_survey(stations: &Vec<BHOrientation>) -> (checked: Result<(), GeoError>)
    ensures
        survey_is_valid(stations@) ==> checked == Ok::<(), GeoError>(()),
        !survey_is_valid(stations@) ==> checked == Err::<(), GeoError>(GeoError::InvalidSurveyData),
{
    if stations.len() == 0 {
        return Err(GeoError::InvalidSurveyData);
    }
    if stations[0].depth != 0 {
        return Err(GeoError::InvalidSurveyData);
    }
    let mut k: usize = 1;
    while k < stations.len()
        invariant
            1 <= k <= stations.len(),
            stations@[0].depth == 0,
            forall|i: int, j: int| 0 <= i <= j < k ==> stations@[i].depth <= stations@[j].depth,
        decreases stations.len() - k,
    {
        if stations[k].depth < stations[k - 1].depth {
            return Err(GeoError::InvalidSurveyData);
        }
        k = k + 1;
    }
    Ok(())
}

} // verus!
