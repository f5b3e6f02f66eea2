use geocalc::error::GeoError;
use geocalc::interval::{depth_intervals, find_interval, DepthInterval};
use geocalc::borehole::station_for_depth;
use geocalc::survey::{check_survey, BHOrientation};

const UNIT: i64 = 1_000_000;

fn station(depth: i64) -> BHOrientation {
    BHOrientation { depth, bearing: 0, inclination: -45_000_000 }
}

fn survey() -> Vec<BHOrientation> {
    vec![
        station(0),
        station(12_500_000),
        station(16 * UNIT),
        station(22 * UNIT),
        station(30 * UNIT),
    ]
}

#[test]
fn intervals_run_from_midpoint_to_midpoint() {
    assert_eq!(
        depth_intervals(&survey()),
        vec![
            DepthInterval { low: 0, high: 12_500_000 },
            DepthInterval { low: 12_500_000, high: 28_500_000 },
            DepthInterval { low: 28_500_000, high: 38_000_000 },
            DepthInterval { low: 38_000_000, high: 52_000_000 },
            DepthInterval { low: 52_000_000, high: 60_000_000 },
        ]
    );
}

#[test]
fn intervals_of_one_station_and_of_none() {
    assert_eq!(depth_intervals(&vec![station(0)]), vec![DepthInterval { low: 0, high: 0 }]);
    assert_eq!(depth_intervals(&Vec::new()), Vec::new());
}

#[test]
fn midpoints_between_odd_depths_are_exact() {
    let stations = vec![station(0), station(3), station(4)];
    assert_eq!(station_for_depth(&stations, 1), Ok(0));
    assert_eq!(station_for_depth(&stations, 2), Ok(1));
    assert_eq!(station_for_depth(&stations, 3), Ok(1));
    assert_eq!(station_for_depth(&stations, 4), Ok(2));
}

#[test]
fn search_finds_the_holding_interval() {
    let intervals = depth_intervals(&survey());
    assert_eq!(find_interval(&intervals, 1), Some(0));
    assert_eq!(find_interval(&intervals, 10 * UNIT), Some(1));
    assert_eq!(find_interval(&intervals, 14 * UNIT), Some(1));
    assert_eq!(find_interval(&intervals, 16 * UNIT), Some(2));
    assert_eq!(find_interval(&intervals, 20 * UNIT), Some(3));
    assert_eq!(find_interval(&intervals, 30 * UNIT), Some(4));
    assert_eq!(find_interval(&intervals, 0), None);
    assert_eq!(find_interval(&intervals, 30 * UNIT + 1), None);
    assert_eq!(find_interval(&Vec::new(), 5), None);
}

#[test]
fn measurement_at_a_station_belongs_to_it() {
    let stations = survey();
    assert_eq!(station_for_depth(&stations, 12_500_000), Ok(1));
    assert_eq!(station_for_depth(&stations, 16 * UNIT), Ok(2));
    assert_eq!(station_for_depth(&stations, 22 * UNIT), Ok(3));
    assert_eq!(station_for_depth(&stations, 30 * UNIT), Ok(4));
}

#[test]
fn measurement_at_a_midpoint_belongs_to_the_shallower_station() {
    let stations = survey();
    assert_eq!(station_for_depth(&stations, 6_250_000), Ok(0));
    assert_eq!(station_for_depth(&stations, 6_250_001), Ok(1));
    assert_eq!(station_for_depth(&stations, 14_250_000), Ok(1));
    assert_eq!(station_for_depth(&stations, 14_250_001), Ok(2));
    assert_eq!(station_for_depth(&stations, 19 * UNIT), Ok(2));
    assert_eq!(station_for_depth(&stations, 26 * UNIT), Ok(3));
    assert_eq!(station_for_depth(&stations, 26 * UNIT + 1), Ok(4));
}

#[test]
fn every_depth_in_the_hole_has_one_station() {
    let stations = survey();
    let intervals = depth_intervals(&stations);
    let mut depth: i64 = 1;
    while depth <= 30 * UNIT {
        let holding: Vec<usize> = (0..intervals.len())
            .filter(|&i| intervals[i].low < 2 * depth as i128 && 2 * depth as i128 <= intervals[i].high)
            .collect();
        assert_eq!(holding.len(), 1);
        assert_eq!(station_for_depth(&stations, depth), Ok(holding[0]));
        depth += 137_501;
    }
}

#[test]
fn depth_outside_the_survey_has_no_station() {
    let stations = survey();
    assert_eq!(
        station_for_depth(&stations, 0),
        Err(GeoError::DepthOutOfSurveyRange { depth: 0 })
    );
    assert_eq!(
        station_for_depth(&stations, -UNIT),
        Err(GeoError::DepthOutOfSurveyRange { depth: -UNIT })
    );
    assert_eq!(
        station_for_depth(&stations, 30 * UNIT + 1),
        Err(GeoError::DepthOutOfSurveyRange { depth: 30 * UNIT + 1 })
    );
    assert_eq!(
        station_for_depth(&stations, i64::MAX),
        Err(GeoError::DepthOutOfSurveyRange { depth: i64::MAX })
    );
}

#[test]
fn single_station_answers_for_no_depth() {
    let stations = vec![station(0)];
    assert_eq!(check_survey(&stations), Ok(()));
    assert_eq!(
        station_for_depth(&stations, 0),
        Err(GeoError::DepthOutOfSurveyRange { depth: 0 })
    );
    assert_eq!(
        station_for_depth(&stations, 1),
        Err(GeoError::DepthOutOfSurveyRange { depth: 1 })
    );
}

#[test]
fn stations_at_one_depth_split_the_stretch_around_them() {
    let stations = vec![station(0), station(10), station(10), station(20)];
    assert_eq!(check_survey(&stations), Ok(()));
    assert_eq!(station_for_depth(&stations, 5), Ok(0));
    assert_eq!(station_for_depth(&stations, 10), Ok(1));
    assert_eq!(station_for_depth(&stations, 11), Ok(2));
    assert_eq!(station_for_depth(&stations, 15), Ok(2));
    assert_eq!(station_for_depth(&stations, 16), Ok(3));
}

#[test]
fn survey_must_start_at_depth_zero() {
    assert_eq!(
        check_survey(&vec![station(5 * UNIT), station(10 * UNIT)]),
        Err(GeoError::InvalidSurveyData)
    );
    assert_eq!(
        station_for_depth(&vec![station(5 * UNIT), station(10 * UNIT)], 7 * UNIT),
        Err(GeoError::InvalidSurveyData)
    );
}

#[test]
fn survey_must_have_a_station() {
    assert_eq!(check_survey(&Vec::new()), Err(GeoError::InvalidSurveyData));
}

#[test]
fn survey_must_not_descend() {
    assert_eq!(
        check_survey(&vec![station(0), station(10), station(9), station(20)]),
        Err(GeoError::InvalidSurveyData)
    );
    assert_eq!(check_survey(&vec![station(0), station(10), station(20)]), Ok(()));
}
