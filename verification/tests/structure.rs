use geocalc::angle::{DEGREE, FULL_TURN, QUARTER_TURN};
use geocalc::error::{Field, GeoError};
use geocalc::structure::{Lineation, Plane};

#[test]
fn lineation_keeps_its_angles() {
    assert_eq!(
        Lineation::new(286 * DEGREE, 36 * DEGREE),
        Ok(Lineation { trend: 286 * DEGREE, plunge: 36 * DEGREE })
    );
    assert_eq!(
        Lineation::new(FULL_TURN, QUARTER_TURN),
        Ok(Lineation { trend: FULL_TURN, plunge: QUARTER_TURN })
    );
}

#[test]
fn lineation_reports_trend_before_plunge() {
    assert_eq!(
        Lineation::new(FULL_TURN + 1, QUARTER_TURN + 1),
        Err(GeoError::OutOfRange {
            field: Field::Trend,
            value: FULL_TURN + 1,
            min: 0,
            max: FULL_TURN
        })
    );
    assert_eq!(
        Lineation::new(0, QUARTER_TURN + 1),
        Err(GeoError::OutOfRange {
            field: Field::Plunge,
            value: QUARTER_TURN + 1,
            min: 0,
            max: QUARTER_TURN
        })
    );
}

#[test]
fn plane_from_strike_and_dip() {
    let plane = Plane::new(16 * DEGREE, 54 * DEGREE, None, None, None).unwrap();
    assert_eq!(plane.strike, 16 * DEGREE);
    assert_eq!(plane.dip, 54 * DEGREE);
    assert_eq!(plane.dip_direction, 106 * DEGREE);
    assert_eq!(plane.pole.trend, 286 * DEGREE);
    assert_eq!(plane.pole.plunge, 36 * DEGREE);
}

#[test]
fn plane_fields_follow_strike_and_dip() {
    let mut strike: i64 = 0;
    while strike <= FULL_TURN {
        let mut dip: i64 = 0;
        while dip <= QUARTER_TURN {
            let plane = Plane::new(strike, dip, None, None, None).unwrap();
            assert_eq!(plane.dip_direction % FULL_TURN, (strike + 90 * DEGREE) % FULL_TURN);
            assert_eq!(plane.pole.trend % FULL_TURN, (strike + 270 * DEGREE) % FULL_TURN);
            assert_eq!(plane.pole.plunge, 90 * DEGREE - dip);
            dip += 7_500_000;
        }
        strike += 11_250_000;
    }
}

#[test]
fn plane_wraps_past_a_full_turn() {
    let plane = Plane::new(300 * DEGREE, 0, None, None, None).unwrap();
    assert_eq!(plane.dip_direction, 30 * DEGREE);
    assert_eq!(plane.pole.trend, 210 * DEGREE);
    assert_eq!(plane.pole.plunge, QUARTER_TURN);
}

#[test]
fn plane_keeps_a_sum_of_exactly_a_full_turn() {
    let plane = Plane::new(270 * DEGREE, 10 * DEGREE, None, None, None).unwrap();
    assert_eq!(plane.dip_direction, FULL_TURN);
    let plane = Plane::new(90 * DEGREE, 10 * DEGREE, None, None, None).unwrap();
    assert_eq!(plane.pole.trend, FULL_TURN);
}

#[test]
fn plane_stores_what_is_given() {
    let plane =
        Plane::new(10 * DEGREE, 20 * DEGREE, Some(5 * DEGREE), Some(6 * DEGREE), Some(7 * DEGREE))
            .unwrap();
    assert_eq!(
        plane,
        Plane {
            strike: 10 * DEGREE,
            dip: 20 * DEGREE,
            dip_direction: 5 * DEGREE,
            pole: Lineation { trend: 6 * DEGREE, plunge: 7 * DEGREE },
        }
    );
}

#[test]
fn plane_derives_only_what_is_missing() {
    let plane = Plane::new(10 * DEGREE, 20 * DEGREE, None, Some(6 * DEGREE), None).unwrap();
    assert_eq!(plane.dip_direction, 100 * DEGREE);
    assert_eq!(plane.pole.trend, 6 * DEGREE);
    assert_eq!(plane.pole.plunge, 70 * DEGREE);
}

#[test]
fn plane_rejects_strike_beyond_a_full_turn() {
    assert_eq!(
        Plane::new(360_001_000, 0, None, None, None),
        Err(GeoError::OutOfRange {
            field: Field::Strike,
            value: 360_001_000,
            min: 0,
            max: FULL_TURN
        })
    );
}

#[test]
fn plane_rejects_dip_beyond_a_quarter_turn() {
    assert_eq!(
        Plane::new(0, 90_500_000, None, None, None),
        Err(GeoError::OutOfRange {
            field: Field::Dip,
            value: 90_500_000,
            min: 0,
            max: QUARTER_TURN
        })
    );
    assert_eq!(
        Plane::new(0, -1, None, None, None),
        Err(GeoError::OutOfRange { field: Field::Dip, value: -1, min: 0, max: QUARTER_TURN })
    );
}

#[test]
fn plane_rejects_given_angles_out_of_range() {
    assert_eq!(
        Plane::new(0, 0, Some(FULL_TURN + 1), None, None),
        Err(GeoError::OutOfRange {
            field: Field::DipDirection,
            value: FULL_TURN + 1,
            min: 0,
            max: FULL_TURN
        })
    );
    assert_eq!(
        Plane::new(0, 0, None, Some(-1), None),
        Err(GeoError::OutOfRange { field: Field::Trend, value: -1, min: 0, max: FULL_TURN })
    );
    assert_eq!(
        Plane::new(0, 0, None, None, Some(QUARTER_TURN + 1)),
        Err(GeoError::OutOfRange {
            field: Field::Plunge,
            value: QUARTER_TURN + 1,
            min: 0,
            max: QUARTER_TURN
        })
    );
}

#[test]
fn plane_reports_plunge_before_trend() {
    assert_eq!(
        Plane::new(0, 0, None, Some(-1), Some(-2)),
        Err(GeoError::OutOfRange { field: Field::Plunge, value: -2, min: 0, max: QUARTER_TURN })
    );
}
