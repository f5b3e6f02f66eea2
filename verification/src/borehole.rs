//! A borehole: its survey, and the planes measured on its core.
//!
//! Each measurement is oriented with the course of the hole at the station
//! that answers for the measurement's depth. The planes come out in the order
//! of the measurements.
use vstd::prelude::*;
use crate::error::GeoError;
use crate::interval::{
    depth_intervals, find_interval, intervals_match, lemma_found_is_station_of,
    lemma_survey_intervals_ordered, station_of, DepthInterval,
};
use crate::orient::{BHOrientationLine, NormalReading, Orient, OrientAngles};
use crate::structure::Plane;
use crate::survey::{check_survey, survey_is_valid, BHOrientation, RawMeasurement};

verus! {

/// The angles with which a measurement is oriented: its own alpha and beta
/// and the course of the hole at the station that answers for its depth. A
/// measurement that no station answers for is reported, and so is the first
/// angle out of range.
pub open spec fn orient_of(
    orientation_line: BHOrientationLine,
    measurement: RawMeasurement,
    stations: Seq<BHOrientation>,
) -> Result<OrientAngles, GeoError> {
    match station_of(stations, measurement.depth as int) {
        None => Err(GeoError::DepthOutOfSurveyRange { depth: measurement.depth }),
        Some(i) => Orient::spec_new(
            stations[i].bearing,
            stations[i].inclination,
            measurement.alpha,
            measurement.beta,
            orientation_line,
        ),
    }
}

/// [`orient_of`] for measurement `i` of a list.
pub open spec fn orient_at(
    orientation_line: BHOrientationLine,
    measurements: Seq<RawMeasurement>,
    stations: Seq<BHOrientation>,
    i: int,
) -> Result<OrientAngles, GeoError> {
    orient_of(orientation_line, measurements[i], stations)
}

/// The plane that a measurement stands for, given what was read off its
/// normal; what [`orient_of`] reports comes first.
pub open spec fn plane_of(
    orientation_line: BHOrientationLine,
    measurement: RawMeasurement,
    stations: Seq<BHOrientation>,
    normal: NormalReading,
) -> Result<Plane, GeoError> {
    match orient_of(orientation_line, measurement, stations) {
        Err(e) => Err(e),
        Ok(_) => Orient::spec_into_plane(normal),
    }
}

/// [`plane_of`] for measurement `i` of a list and reading `i` of a list.
pub open spec fn plane_at(
    orientation_line: BHOrientationLine,
    measurements: Seq<RawMeasurement>,
    stations: Seq<BHOrientation>,
    normals: Seq<NormalReading>,
    i: int,
) -> Result<Plane, GeoError> {
    plane_of(orientation_line, measurements[i], stations, normals[i])
}

/// Whether `orients` are the angles of the measurements, one for one.
pub open spec fn orients_are(
    orientation_line: BHOrientationLine,
    measurements: Seq<RawMeasurement>,
    stations: Seq<BHOrientation>,
    orients: Seq<OrientAngles>,
) -> bool {
    &&& survey_is_valid(stations)
    &&& orients.len() == measurements.len()
    &&& forall|i: int|
        0 <= i < measurements.len() ==> #[trigger] orient_at(
            orientation_line,
            measurements,
            stations,
            i,
        ) == Ok::<OrientAngles, GeoError>(orients[i])
}

/// Whether orienting the measurements fails with `error`: the stations make
/// no survey, or `error` is what the first measurement that cannot be
/// oriented is reported with.
pub open spec fn orienting_fails_with(
    orientation_line: BHOrientationLine,
    measurements: Seq<RawMeasurement>,
    stations: Seq<BHOrientation>,
    error: GeoError,
) -> bool {
    if !survey_is_valid(stations) {
        error == GeoError::InvalidSurveyData
    } else {
        exists|k: int|
            {
                &&& 0 <= k < measurements.len()
                &&& #[trigger] orient_at(orientation_line, measurements, stations, k) == Err::<
                    OrientAngles,
                    GeoError,
                >(error)
                &&& forall|j: int|
                    0 <= j < k ==> (#[trigger] orient_at(
                        orientation_line,
                        measurements,
                        stations,
                        j,
                    )) is Ok
            }
    }
}

/// Whether `planes` are the planes of the measurements, one for one.
pub open spec fn planes_are(
    orientation_line: BHOrientationLine,
    measurements: Seq<RawMeasurement>,
    stations: Seq<BHOrientation>,
    normals: Seq<NormalReading>,
    planes: Seq<Plane>,
) -> bool {
    &&& survey_is_valid(stations)
    &&& normals.len() == measurements.len()
    &&& planes.len() == measurements.len()
    &&& forall|i: int|
        0 <= i < measurements.len() ==> #[trigger] plane_at(
            orientation_line,
            measurements,
            stations,
            normals,
            i,
        ) == Ok::<Plane, GeoError>(planes[i])
}

/// Whether building the planes fails with `error`: the stations make no
/// survey; or else there are not as many readings as measurements; or else
/// `error` is what the first measurement without a plane is reported with.
pub open spec fn planes_fail_with(
    orientation_line: BHOrientationLine,
    measurements: Seq<RawMeasurement>,
    stations: Seq<BHOrientation>,
    normals: Seq<NormalReading>,
    error: GeoError,
) -> bool {
    if !survey_is_valid(stations) {
        error == GeoError::InvalidSurveyData
    } else if normals.len() != measurements.len() {
        error == (GeoError::NormalCountMismatch {
            measurements: measurements.len() as usize,
            normals: normals.len() as usize,
        })
    } else {
        exists|k: int|
            {
                &&& 0 <= k < measurements.len()
                &&& #[trigger] plane_at(orientation_line, measurements, stations, normals, k)
                    == Err::<Plane, GeoError>(error)
                &&& forall|j: int|
                    0 <= j < k ==> (#[trigger] plane_at(
                        orientation_line,
                        measurements,
                        stations,
                        normals,
                        j,
                    )) is Ok
            }
    }
}

/// The station of a survey that answers for `depth`.
pub fn station_for_depth(stations: &Vec<BHOrientation>, depth: i64) -> (station: Result<
    usize,
    GeoError,
>)
    ensures
        !survey_is_valid(stations@) ==> station == Err::<usize, GeoError>(
            GeoError::InvalidSurveyData,
        ),
        survey_is_valid(stations@) ==> match station {
            Ok(i) => station_of(stations@, depth as int) == Some(i as int),
            Err(e) => station_of(stations@, depth as int) is None && e == (
            GeoError::DepthOutOfSurveyRange { depth }),
        },
        station is Ok <==> survey_is_valid(stations@) && stations@[0].depth < depth
            <= stations@.last().depth,
{
    match check_survey(stations) {
        Err(e) => { return Err(e); },
        Ok(_) => {},
    }
    let intervals: Vec<DepthInterval> = depth_intervals(stations);
    proof {
        lemma_survey_intervals_ordered(intervals@, stations@);
    }
    let found: Option<usize> = find_interval(&intervals, depth);
    proof {
        lemma_found_is_station_of(intervals@, stations@, depth, found);
    }
    match found {
        Some(i) => Ok(i),
        None => Err(GeoError::DepthOutOfSurveyRange { depth }),
    }
}

/// Orients one measurement of a survey whose stretches are at hand.
fn orient_measurement(
    orientation_line: BHOrientationLine,
    measurement: &RawMeasurement,
    stations: &Vec<BHOrientation>,
    intervals: &Vec<DepthInterval>,
) -> (orient: Result<Orient, GeoError>)
    requires
        survey_is_valid(stations@),
        intervals_match(intervals@, stations@),
    ensures
        match orient {
            Ok(o) => orient_of(orientation_line, *measurement, stations@) == Ok::<
                OrientAngles,
                GeoError,
            >(o@),
            Err(e) => orient_of(orientation_line, *measurement, stations@) == Err::<
                OrientAngles,
                GeoError,
            >(e),
        },
{
    proof {
        lemma_survey_intervals_ordered(intervals@, stations@);
    }
    let found: Option<usize> = find_interval(intervals, measurement.depth);
    proof {
        lemma_found_is_station_of(intervals@, stations@, measurement.depth, found);
    }
    match found {
        None => Err(GeoError::DepthOutOfSurveyRange { depth: measurement.depth }),
        Some(i) => {
            let station: &BHOrientation = &stations[i];
            Orient::new(
                station.bearing,
                station.inclination,
                measurement.alpha,
                measurement.beta,
                orientation_line,
            )
        },
    }
}

/// The checked angles of every measurement, in the order of the
/// measurements: what is to be rotated before the planes can be built.
pub fn orient_measurements(
    orientation_line: BHOrientationLine,
    raw_measurements: &Vec<RawMeasurement>,
    raw_orientation: &Vec<BHOrientation>,
) -> (orients: Result<Vec<Orient>, GeoError>)
    ensures
        match orients {
            Ok(found) => orients_are(
                orientation_line,
                raw_measurements@,
                raw_orientation@,
                found@.map_values(|o: Orient| o@),
            ),
            Err(e) => orienting_fails_with(orientation_line, raw_measurements@, raw_orientation@, e),
        },
        !survey_is_valid(raw_orientation@) ==> (orients matches Err(e) && e
            == GeoError::InvalidSurveyData),
{
    match check_survey(raw_orientation) {
        Err(e) => { return Err(e); },
        Ok(_) => {},
    }
    let intervals: Vec<DepthInterval> = depth_intervals(raw_orientation);
    let n: usize = raw_measurements.len();
    let mut found: Vec<Orient> = Vec::new();
    let mut i: usize = 0;
    while i < n
        invariant
            n == raw_measurements.len(),
            i <= n,
            found.len() == i,
            survey_is_valid(raw_orientation@),
            intervals_match(intervals@, raw_orientation@),
            forall|j: int|
                0 <= j < i ==> #[trigger] orient_at(
                    orientation_line,
                    raw_measurements@,
                    raw_orientation@,
                    j,
                ) == Ok::<OrientAngles, GeoError>(found@[j]@),
        decreases n - i,
    {
        match orient_measurement(orientation_line, &raw_measurements[i], raw_orientation, &intervals) {
            Err(e) => {
                assert(orient_at(orientation_line, raw_measurements@, raw_orientation@, i as int)
                    == Err::<OrientAngles, GeoError>(e));
                return Err(e);
            },
            Ok(o) => {
                found.push(o);
            },
        }
        i = i + 1;
    }
    Ok(found)
}

/// The plane of every measurement, in the order of the measurements. Reading
/// `i` of `normals` is what was read off the normal of measurement `i`.
pub fn map_measurements_to_depths(
    raw_measurements: Vec<RawMeasurement>,
    raw_orientation: &Vec<BHOrientation>,
    orientation_line: &BHOrientationLine,
    normals: &Vec<NormalReading>,
) -> (planes: Result<Vec<Plane>, GeoError>)
    ensures
        match planes {
            Ok(built) => planes_are(
                *orientation_line,
                raw_measurements@,
                raw_orientation@,
                normals@,
                built@,
            ),
            Err(e) => planes_fail_with(
                *orientation_line,
                raw_measurements@,
                raw_orientation@,
                normals@,
                e,
            ),
        },
        !survey_is_valid(raw_orientation@) ==> (planes matches Err(e) && e
            == GeoError::InvalidSurveyData),
        planes matches Ok(built) ==> forall|i: int|
            0 <= i < built.len() ==> (#[trigger] built@[i]).is_valid(),
{
    match check_survey(raw_orientation) {
        Err(e) => { return Err(e); },
        Ok(_) => {},
    }
    let n: usize = raw_measurements.len();
    if normals.len() != n {
        return Err(GeoError::NormalCountMismatch { measurements: n, normals: normals.len() });
    }
    let intervals: Vec<DepthInterval> = depth_intervals(raw_orientation);
    let mut built: Vec<Plane> = Vec::new();
    let mut i: usize = 0;
    while i < n
        invariant
            n == raw_measurements.len(),
            n == normals.len(),
            i <= n,
            built.len() == i,
            survey_is_valid(raw_orientation@),
            intervals_match(intervals@, raw_orientation@),
            forall|j: int|
                0 <= j < i ==> #[trigger] plane_at(
                    *orientation_line,
                    raw_measurements@,
                    raw_orientation@,
                    normals@,
                    j,
                ) == Ok::<Plane, GeoError>(built@[j]),
            forall|j: int| 0 <= j < i ==> (#[trigger] built@[j]).is_valid(),
        decreases n - i,
    {
        let orient: Orient = match orient_measurement(
            *orientation_line,
            &raw_measurements[i],
            raw_orientation,
            &intervals,
        ) {
            Ok(o) => o,
            Err(e) => {
                assert(plane_at(
                    *orientation_line,
                    raw_measurements@,
                    raw_orientation@,
                    normals@,
                    i as int,
                ) == Err::<Plane, GeoError>(e));
                return Err(e);
            },
        };
        match orient.into_plane(&normals[i]) {
            Ok(plane) => {
                built.push(plane);
            },
            Err(e) => {
                assert(plane_at(
                    *orientation_line,
                    raw_measurements@,
                    raw_orientation@,
                    normals@,
                    i as int,
                ) == Err::<Plane, GeoError>(e));
                return Err(e);
            },
        }
        i = i + 1;
    }
    Ok(built)
}

/// A surveyed hole and the planes measured on its core.
#[derive(Debug)]
pub struct Borehole {
    /// The plane of every measurement, in the order of the measurements.
    pub oriented_measurements: Vec<Plane>,
    /// The side of the core on which the orientation line was drawn.
    pub orientation_line: BHOrientationLine,
    /// The survey: the course of the hole, station by station, from depth
    /// zero downward.
    pub hole_orientation: Vec<BHOrientation>,
}

impl Borehole {
    /// Whether the stations make a survey and every angle of every plane
    /// lies in its range.
    pub open spec fn is_valid(self) -> bool {
        &&& survey_is_valid(self.hole_orientation@)
        &&& forall|i: int|
            0 <= i < self.oriented_measurements.len() ==> (
            #[trigger] self.oriented_measurements@[i]).is_valid()
    }

    /// The borehole with the given survey and the planes of the given
    /// measurements. Reading `i` of `normals` is what was read off the
    /// normal of measurement `i`. Either every measurement gets its plane or
    /// no borehole is built.
    pub fn new(
        orientation_line: BHOrientationLine,
        raw_measurements: Vec<RawMeasurement>,
        hole_orientation: Vec<BHOrientation>,
        normals: Vec<NormalReading>,
    ) -> (borehole: Result<Borehole, GeoError>)
        ensures
            match borehole {
                Ok(b) => {
                    &&& b.is_valid()
                    &&& b.orientation_line == orientation_line
                    &&& b.hole_orientation@ == hole_orientation@
                    &&& planes_are(
                        orientation_line,
                        raw_measurements@,
                        hole_orientation@,
                        normals@,
                        b.oriented_measurements@,
                    )
                },
                Err(e) => planes_fail_with(
                    orientation_line,
                    raw_measurements@,
                    hole_orientation@,
                    normals@,
                    e,
                ),
            },
            !survey_is_valid(hole_orientation@) ==> (borehole matches Err(e) && e
                == GeoError::InvalidSurveyData),
    {
        match map_measurements_to_depths(
            raw_measurements,
            &hole_orientation,
            &orientation_line,
            &normals,
        ) {
            Err(e) => Err(e),
            Ok(oriented_measurements) => Ok(
                Borehole { oriented_measurements, orientation_line, hole_orientation },
            ),
        }
    }
}

/// What the measurements, the survey and the readings give is settled by
/// them: they have one list of planes or one error, never both.
pub proof fn lemma_outcome_is_settled(
    orientation_line: BHOrientationLine,
    measurements: Seq<RawMeasurement>,
    stations: Seq<BHOrientation>,
    normals: Seq<NormalReading>,
    planes: Seq<Plane>,
    other_planes: Seq<Plane>,
    error: GeoError,
    other_error: GeoError,
)
    ensures
        planes_are(orientation_line, measurements, stations, normals, planes) && planes_are(
            orientation_line,
            measurements,
            stations,
            normals,
            other_planes,
        ) ==> planes == other_planes,
        planes_fail_with(orientation_line, measurements, stations, normals, error)
            && planes_fail_with(orientation_line, measurements, stations, normals, other_error)
            ==> error == other_error,
        !(planes_are(orientation_line, measurements, stations, normals, planes)
            && planes_fail_with(orientation_line, measurements, stations, normals, error)),
{
    if planes_are(orientation_line, measurements, stations, normals, planes) && planes_are(
        orientation_line,
        measurements,
        stations,
        normals,
        other_planes,
    ) {
        assert forall|i: int| 0 <= i < planes.len() implies planes[i] == other_planes[i] by {
            assert(plane_at(orientation_line, measurements, stations, normals, i) == Ok::<
                Plane,
                GeoError,
            >(planes[i]));
            assert(plane_at(orientation_line, measurements, stations, normals, i) == Ok::<
                Plane,
                GeoError,
            >(other_planes[i]));
        }
        assert(planes =~= other_planes);
    }
    if planes_fail_with(orientation_line, measurements, stations, normals, error)
        && planes_fail_with(orientation_line, measurements, stations, normals, other_error)
        && survey_is_valid(stations) && normals.len() == measurements.len() {
        let k = choose|k: int|
            {
                &&& 0 <= k < measurements.len()
                &&& #[trigger] plane_at(orientation_line, measurements, stations, normals, k)
                    == Err::<Plane, GeoError>(error)
                &&& forall|j: int|
                    0 <= j < k ==> (#[trigger] plane_at(
                        orientation_line,
                        measurements,
                        stations,
                        normals,
                        j,
                    )) is Ok
            };
        let m = choose|k: int|
            {
                &&& 0 <= k < measurements.len()
                &&& #[trigger] plane_at(orientation_line, measurements, stations, normals, k)
                    == Err::<Plane, GeoError>(other_error)
                &&& forall|j: int|
                    0 <= j < k ==> (#[trigger] plane_at(
                        orientation_line,
                        measurements,
                        stations,
                        normals,
                        j,
                    )) is Ok
            };
        assert(k == m);
    }
}

/// A survey whose first station is not at depth zero gives no borehole,
/// whatever was measured and read.
pub proof fn lemma_first_station_at_zero(
    orientation_line: BHOrientationLine,
    measurements: Seq<RawMeasurement>,
    stations: Seq<BHOrientation>,
    normals: Seq<NormalReading>,
    planes: Seq<Plane>,
    error: GeoError,
)
    requires
        stations.len() == 0 || stations[0].depth != 0,
    ensures
        !planes_are(orientation_line, measurements, stations, normals, planes),
        planes_fail_with(orientation_line, measurements, stations, normals, error) <==> error
            == GeoError::InvalidSurveyData,
{
}

} // verus!
