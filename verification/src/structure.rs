//! Planes and the lines that stand for their poles.
use vstd::prelude::*;
use crate::angle::{FULL_TURN, QUARTER_TURN, THREE_QUARTER_TURN};
use crate::error::{Field, GeoError};
use crate::orient::{BHOrientationLine, NormalReading, Orient};
use crate::utils::{
    dip_direction_from_strike, plunge_from_dip, trend_from_strike, wrap_sum,
};
use crate::validation::{in_range, validate_field};

verus! {

/// A line in space, given by the compass direction it points to and by its
/// angle below the horizontal.
#[derive(Clone, Copy, Debug, PartialEq, Eq, Structural)]
pub struct Lineation {
    /// Compass direction of the line, clockwise from north, in
    /// `[0, FULL_TURN]`.
    pub trend: i64,
    /// Angle between the horizontal and the line, in `[0, QUARTER_TURN]`.
    pub plunge: i64,
}

impl Lineation {
    /// Whether both angles lie in their ranges.
    pub open spec fn is_valid(self) -> bool {
        &&& 0 <= self.trend <= FULL_TURN
        &&& 0 <= self.plunge <= QUARTER_TURN
    }

    /// What [`Lineation::new`] returns: the trend is looked at first.
    pub open spec fn spec_new(trend: i64, plunge: i64) -> Result<Lineation, GeoError> {
        if !in_range(trend as int, 0, FULL_TURN as int) {
            Err(GeoError::OutOfRange { field: Field::Trend, value: trend, min: 0, max: FULL_TURN })
        } else if !in_range(plunge as int, 0, QUARTER_TURN as int) {
            Err(
                GeoError::OutOfRange {
                    field: Field::Plunge,
                    value: plunge,
                    min: 0,
                    max: QUARTER_TURN,
                },
            )
        } else {
            Ok(Lineation { trend, plunge })
        }
    }

    /// The line with the given trend and plunge, where both are in range.
    #[verifier::when_used_as_spec(spec_new)]
    pub fn new(trend: i64, plunge: i64) -> (line: Result<Lineation, GeoError>)
        ensures
            line == Lineation::spec_new(trend, plunge),
            line is Ok <==> 0 <= trend <= FULL_TURN && 0 <= plunge <= QUARTER_TURN,
            line matches Ok(l) ==> l.is_valid() && l.trend == trend && l.plunge == plunge,
    {
        match validate_field(Field::Trend, trend, 0, FULL_TURN) {
            Err(e) => Err(e),
            Ok(_) => match validate_field(Field::Plunge, plunge, 0, QUARTER_TURN) {
                Err(e) => Err(e),
                Ok(_) => Ok(Lineation { trend, plunge }),
            },
        }
    }
}

/// A plane, given by its strike and dip, together with its dip direction and
/// its pole.
#[derive(Clone, Copy, Debug, PartialEq, Eq, Structural)]
pub struct Plane {
    /// Compass direction of the plane's horizontal line, in `[0, FULL_TURN]`.
    pub strike: i64,
    /// Angle between the horizontal and the plane, in `[0, QUARTER_TURN]`.
    pub dip: i64,
    /// Compass direction in which the plane falls, in `[0, FULL_TURN]`.
    pub dip_direction: i64,
    /// The downward normal of the plane.
    pub pole: Lineation,
}

impl Plane {
    /// Whether every angle of the plane lies in its range.
    pub open spec fn is_valid(self) -> bool {
        &&& 0 <= self.strike <= FULL_TURN
        &&& 0 <= self.dip <= QUARTER_TURN
        &&& 0 <= self.dip_direction <= FULL_TURN
        &&& self.pole.is_valid()
    }

    /// Whether dip direction, trend and plunge are the ones that strike and
    /// dip give.
    pub open spec fn is_consistent(self) -> bool {
        &&& self.dip_direction == wrap_sum(
            self.strike as int,
            QUARTER_TURN as int,
            FULL_TURN as int,
        )
        &&& self.pole.trend == wrap_sum(
            self.strike as int,
            THREE_QUARTER_TURN as int,
            FULL_TURN as int,
        )
        &&& self.pole.plunge == QUARTER_TURN - self.dip
    }

    /// The dip direction that [`Plane::new`] stores: the one given, or the
    /// one that the strike gives.
    pub open spec fn chosen_dip_direction(strike: i64, dip_direction: Option<i64>) -> i64 {
        match dip_direction {
            Some(d) => d,
            None => wrap_sum(strike as int, QUARTER_TURN as int, FULL_TURN as int) as i64,
        }
    }

    /// The trend that [`Plane::new`] stores: the one given, or the one that
    /// the strike gives.
    pub open spec fn chosen_trend(strike: i64, trend: Option<i64>) -> i64 {
        match trend {
            Some(t) => t,
            None => wrap_sum(strike as int, THREE_QUARTER_TURN as int, FULL_TURN as int) as i64,
        }
    }

    /// The plunge that [`Plane::new`] stores: the one given, or the one that
    /// the dip gives.
    pub open spec fn chosen_plunge(dip: i64, plunge: Option<i64>) -> i64 {
        match plunge {
            Some(p) => p,
            None => (QUARTER_TURN - dip) as i64,
        }
    }

    /// What [`Plane::new`] returns. The values are looked at in the order
    /// strike, dip, dip direction, plunge, trend, and the first one out of
    /// range is reported.
    pub open spec fn spec_new(
        strike: i64,
        dip: i64,
        dip_direction: Option<i64>,
        trend: Option<i64>,
        plunge: Option<i64>,
    ) -> Result<Plane, GeoError> {
        let d = Plane::chosen_dip_direction(strike, dip_direction);
        let t = Plane::chosen_trend(strike, trend);
        let p = Plane::chosen_plunge(dip, plunge);
        if !in_range(strike as int, 0, FULL_TURN as int) {
            Err(GeoError::OutOfRange { field: Field::Strike, value: strike, min: 0, max: FULL_TURN })
        } else if !in_range(dip as int, 0, QUARTER_TURN as int) {
            Err(GeoError::OutOfRange { field: Field::Dip, value: dip, min: 0, max: QUARTER_TURN })
        } else if !in_range(d as int, 0, FULL_TURN as int) {
            Err(
                GeoError::OutOfRange {
                    field: Field::DipDirection,
                    value: d,
                    min: 0,
                    max: FULL_TURN,
                },
            )
        } else if !in_range(p as int, 0, QUARTER_TURN as int) {
            Err(GeoError::OutOfRange { field: Field::Plunge, value: p, min: 0, max: QUARTER_TURN })
        } else if !in_range(t as int, 0, FULL_TURN as int) {
            Err(GeoError::OutOfRange { field: Field::Trend, value: t, min: 0, max: FULL_TURN })
        } else {
            Ok(Plane { strike, dip, dip_direction: d, pole: Lineation { trend: t, plunge: p } })
        }
    }

    /// The plane with the given strike and dip. A dip direction, trend or
    /// plunge that is not given is the one that strike and dip give; one that
    /// is given is held to its own range and stored as it is, whether or not
    /// it agrees with strike and dip.
    #[verifier::when_used_as_spec(spec_new)]
    pub fn new(
        strike: i64,
        dip: i64,
        dip_direction: Option<i64>,
        trend: Option<i64>,
        plunge: Option<i64>,
    ) -> (plane: Result<Plane, GeoError>)
        ensures
            plane == Plane::spec_new(strike, dip, dip_direction, trend, plunge),
            plane is Ok <==> {
                &&& 0 <= strike <= FULL_TURN
                &&& 0 <= dip <= QUARTER_TURN
                &&& dip_direction matches Some(d) ==> 0 <= d <= FULL_TURN
                &&& trend matches Some(t) ==> 0 <= t <= FULL_TURN
                &&& plunge matches Some(p) ==> 0 <= p <= QUARTER_TURN
            },
            plane matches Ok(p) ==> p.is_valid() && p.strike == strike && p.dip == dip,
            plane matches Ok(p) ==> (dip_direction is None && trend is None && plunge is None
                ==> p.is_consistent()),
    {
        match validate_field(Field::Strike, strike, 0, FULL_TURN) {
            Err(e) => { return Err(e); },
            Ok(_) => {},
        }
        match validate_field(Field::Dip, dip, 0, QUARTER_TURN) {
            Err(e) => { return Err(e); },
            Ok(_) => {},
        }
        let dip_direction: i64 = match dip_direction {
            Some(d) => d,
            None => match dip_direction_from_strike(strike) {
                Ok(d) => d,
                Err(e) => { return Err(e); },
            },
        };
        match validate_field(Field::DipDirection, dip_direction, 0, FULL_TURN) {
            Err(e) => { return Err(e); },
            Ok(_) => {},
        }
        let plunge: i64 = match plunge {
            Some(p) => p,
            None => match plunge_from_dip(dip) {
                Ok(p) => p,
                Err(e) => { return Err(e); },
            },
        };
        match validate_field(Field::Plunge, plunge, 0, QUARTER_TURN) {
            Err(e) => { return Err(e); },
            Ok(_) => {},
        }
        let trend: i64 = match trend {
            Some(t) => t,
            None => match trend_from_strike(strike) {
                Ok(t) => t,
                Err(e) => { return Err(e); },
            },
        };
        match Lineation::new(trend, plunge) {
            Err(e) => Err(e),
            Ok(pole) => Ok(Plane { strike, dip, dip_direction, pole }),
        }
    }

    /// What [`Plane::alpha_beta`] returns: what the check of the four angles
    /// reports, or else what the reading gives.
    pub open spec fn spec_alpha_beta(
        bearing: i64,
        inclination: i64,
        alpha: i64,
        beta: i64,
        orientation_line: BHOrientationLine,
        normal: NormalReading,
    ) -> Result<Plane, GeoError> {
        match Orient::spec_new(bearing, inclination, alpha, beta, orientation_line) {
            Err(e) => Err(e),
            Ok(_) => Orient::spec_into_plane(normal),
        }
    }

    /// The plane of one oriented-core measurement, where `normal` is what
    /// was read off the plane's normal for these angles: [`Orient::new`]
    /// followed by [`Orient::into_plane`].
    pub fn alpha_beta(
        bearing: i64,
        inclination: i64,
        alpha: i64,
        beta: i64,
        orientation_line: BHOrientationLine,
        normal: &NormalReading,
    ) -> (plane: Result<Plane, GeoError>)
        ensures
            plane == Plane::spec_alpha_beta(
                bearing,
                inclination,
                alpha,
                beta,
                orientation_line,
                *normal,
            ),
            plane matches Ok(p) ==> p.is_valid(),
    {
        match Orient::new(bearing, inclination, alpha, beta, orientation_line) {
            Err(e) => Err(e),
            Ok(orient) => orient.into_plane(normal),
        }
    }
}

/// A plane built from strike and dip alone has the dip direction a quarter
/// turn clockwise of the strike, the trend three quarters of a turn clockwise
/// of it, and the plunge that makes a quarter turn with the dip. Each compass
/// angle is the remainder of its sum modulo a full turn, but for the sum of
/// exactly a full turn, which is stored as `FULL_TURN`.
pub proof fn lemma_plane_from_strike_and_dip(strike: i64, dip: i64)
    requires
        0 <= strike <= FULL_TURN,
        0 <= dip <= QUARTER_TURN,
    ensures
        Plane::spec_new(strike, dip, None, None, None) matches Ok(plane) && {
            &&& plane.is_valid()
            &&& plane.is_consistent()
            &&& plane.strike == strike
            &&& plane.dip == dip
            &&& plane.pole.plunge == QUARTER_TURN - dip
            &&& plane.dip_direction % FULL_TURN == (strike + QUARTER_TURN) % (FULL_TURN as int)
            &&& plane.pole.trend % FULL_TURN == (strike + THREE_QUARTER_TURN) % (FULL_TURN as int)
            &&& strike != THREE_QUARTER_TURN ==> plane.dip_direction == (strike + QUARTER_TURN) % (
            FULL_TURN as int)
            &&& strike == THREE_QUARTER_TURN ==> plane.dip_direction == FULL_TURN
            &&& strike != QUARTER_TURN ==> plane.pole.trend == (strike + THREE_QUARTER_TURN) % (
            FULL_TURN as int)
            &&& strike == QUARTER_TURN ==> plane.pole.trend == FULL_TURN
        },
{
}

} // verus!
