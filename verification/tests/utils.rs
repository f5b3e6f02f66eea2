use geocalc::angle::{DEGREE, FULL_TURN, HALF_TURN, QUARTER_TURN, THREE_QUARTER_TURN};
use geocalc::error::{Field, GeoError, RangeError};
use geocalc::utils::{
    clockwise_from_input, dip_direction_from_strike, dip_from_plunge, get_perpendicular_angle,
    plunge_from_dip, strike_from_trend, trend_from_strike,
};

#[test]
fn angle_units() {
    assert_eq!(QUARTER_TURN, 90 * DEGREE);
    assert_eq!(HALF_TURN, 180 * DEGREE);
    assert_eq!(THREE_QUARTER_TURN, 270 * DEGREE);
    assert_eq!(FULL_TURN, 360 * DEGREE);
}

#[test]
fn dip_direction_is_a_quarter_turn_on() {
    assert_eq!(dip_direction_from_strike(0), Ok(90 * DEGREE));
    assert_eq!(dip_direction_from_strike(16 * DEGREE), Ok(106 * DEGREE));
    assert_eq!(dip_direction_from_strike(300 * DEGREE), Ok(30 * DEGREE));
    assert_eq!(dip_direction_from_strike(FULL_TURN), Ok(90 * DEGREE));
}

#[test]
fn dip_direction_of_exactly_a_full_turn_is_kept() {
    assert_eq!(dip_direction_from_strike(270 * DEGREE), Ok(FULL_TURN));
    assert_eq!(dip_direction_from_strike(270 * DEGREE + 1), Ok(1));
}

#[test]
fn strike_is_a_quarter_turn_on_from_trend() {
    assert_eq!(strike_from_trend(0), Ok(90 * DEGREE));
    assert_eq!(strike_from_trend(286 * DEGREE), Ok(16 * DEGREE));
    assert_eq!(strike_from_trend(270 * DEGREE), Ok(FULL_TURN));
}

#[test]
fn trend_is_three_quarter_turns_on_from_strike() {
    assert_eq!(trend_from_strike(0), Ok(270 * DEGREE));
    assert_eq!(trend_from_strike(16 * DEGREE), Ok(286 * DEGREE));
    assert_eq!(trend_from_strike(90 * DEGREE), Ok(FULL_TURN));
    assert_eq!(trend_from_strike(91 * DEGREE), Ok(DEGREE));
    assert_eq!(trend_from_strike(FULL_TURN), Ok(270 * DEGREE));
}

#[test]
fn compass_conversions_report_their_input() {
    assert_eq!(
        dip_direction_from_strike(FULL_TURN + 1),
        Err(GeoError::OutOfRange {
            field: Field::Strike,
            value: FULL_TURN + 1,
            min: 0,
            max: FULL_TURN
        })
    );
    assert_eq!(
        trend_from_strike(-1),
        Err(GeoError::OutOfRange { field: Field::Strike, value: -1, min: 0, max: FULL_TURN })
    );
    assert_eq!(
        strike_from_trend(361 * DEGREE),
        Err(GeoError::OutOfRange {
            field: Field::Trend,
            value: 361 * DEGREE,
            min: 0,
            max: FULL_TURN
        })
    );
}

#[test]
fn clockwise_turn_with_other_bounds() {
    assert_eq!(clockwise_from_input(10, 5, 0, 12), Ok(3));
    assert_eq!(clockwise_from_input(7, 5, 0, 12), Ok(12));
    assert_eq!(clockwise_from_input(2, 5, 0, 12), Ok(7));
    assert_eq!(clockwise_from_input(13, 5, 0, 12), Err(RangeError { value: 13, min: 0, max: 12 }));
    assert_eq!(
        clockwise_from_input(i64::MAX, i64::MAX, 0, i64::MAX),
        Ok(i64::MAX)
    );
}

#[test]
fn perpendicular_angle() {
    assert_eq!(get_perpendicular_angle(0), Ok(QUARTER_TURN));
    assert_eq!(get_perpendicular_angle(QUARTER_TURN), Ok(0));
    assert_eq!(get_perpendicular_angle(36 * DEGREE), Ok(54 * DEGREE));
    assert_eq!(
        get_perpendicular_angle(QUARTER_TURN + 1),
        Err(RangeError { value: QUARTER_TURN + 1, min: 0, max: QUARTER_TURN })
    );
}

#[test]
fn dip_and_plunge_make_a_quarter_turn() {
    assert_eq!(dip_from_plunge(36 * DEGREE), Ok(54 * DEGREE));
    assert_eq!(plunge_from_dip(54 * DEGREE), Ok(36 * DEGREE));
    assert_eq!(
        dip_from_plunge(-DEGREE),
        Err(GeoError::OutOfRange { field: Field::Plunge, value: -DEGREE, min: 0, max: QUARTER_TURN })
    );
    assert_eq!(
        plunge_from_dip(91 * DEGREE),
        Err(GeoError::OutOfRange {
            field: Field::Dip,
            value: 91 * DEGREE,
            min: 0,
            max: QUARTER_TURN
        })
    );
}

#[test]
fn dip_plunge_round_trip() {
    let mut dip: i64 = 0;
    while dip <= QUARTER_TURN {
        let plunge = plunge_from_dip(dip).unwrap();
        assert_eq!(dip_from_plunge(plunge), Ok(dip));
        dip += 1_234_567;
    }
    assert_eq!(dip_from_plunge(plunge_from_dip(QUARTER_TURN).unwrap()), Ok(QUARTER_TURN));
}

#[test]
fn strike_trend_round_trip() {
    let mut strike: i64 = 1;
    while strike <= FULL_TURN {
        let trend = trend_from_strike(strike).unwrap();
        assert_eq!(strike_from_trend(trend), Ok(strike));
        let other = strike_from_trend(strike).unwrap();
        assert_eq!(trend_from_strike(other), Ok(strike));
        strike += 7_654_321;
    }
}

#[test]
fn round_trip_from_north_ends_at_a_full_turn() {
    assert_eq!(strike_from_trend(trend_from_strike(0).unwrap()), Ok(FULL_TURN));
    assert_eq!(trend_from_strike(strike_from_trend(0).unwrap()), Ok(FULL_TURN));
}
