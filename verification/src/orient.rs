//! One oriented-core measurement: from the angles read on the core and the
//! course of the hole to the plane they stand for.
//!
//! The way runs in three steps. [`Orient::new`] checks the four angles and
//! refers beta to the top of the hole. The caller then rotates the normal of
//! the measured plane from the frame of the hole into the global frame (east,
//! north, up) and reads three things off it, which make a [`NormalReading`].
//! [`Orient::into_plane`] takes the reading and gives the plane.
use vstd::prelude::*;
use crate::angle::{FULL_TURN, HALF_TURN, QUARTER_TURN};
use crate::error::{Field, GeoError};
use crate::structure::{Lineation, Plane};
use crate::utils::{
    clockwise_from_input, dip_direction_from_strike, dip_from_plunge, strike_from_trend, wrap_sum,
};
use crate::validation::{in_range, validate_field};

verus! {

/// The side of the core on which the line that beta is measured from was
/// drawn.
#[derive(Clone, Copy, Debug, PartialEq, Eq, Structural)]
pub enum BHOrientationLine {
    /// The line runs along the top of the hole.
    Top,
    /// The line runs along the bottom of the hole, half a turn from the top.
    Bottom,
}

/// The orientation line of a borehole, under its shorter name.
pub type OrientationLine = BHOrientationLine;

impl Default for BHOrientationLine {
    fn default() -> (line: Self)
        ensures
            line == BHOrientationLine::Top,
    {
        BHOrientationLine::Top
    }
}

/// The four angles of an [`Orient`], as numbers.
pub struct OrientAngles {
    /// Compass direction of the hole, in `[0, FULL_TURN]`.
    pub bearing: int,
    /// Angle of the hole above the horizontal, in
    /// `[-QUARTER_TURN, QUARTER_TURN]`; negative for a hole that goes down.
    pub inclination: int,
    /// Angle between the plane and the axis of the core, in
    /// `[0, QUARTER_TURN]`.
    pub alpha: int,
    /// Angle around the core from the top of the hole to the lowest point of
    /// the plane's trace, clockwise looking down the hole, in
    /// `[0, FULL_TURN]`.
    pub beta: int,
}

impl OrientAngles {
    /// Whether every angle lies in its range.
    pub open spec fn is_valid(self) -> bool {
        &&& 0 <= self.bearing <= FULL_TURN
        &&& -QUARTER_TURN <= self.inclination <= QUARTER_TURN
        &&& 0 <= self.alpha <= QUARTER_TURN
        &&& 0 <= self.beta <= FULL_TURN
    }
}

/// The checked angles of one measurement, with beta referred to the top of
/// the hole.
#[derive(Clone, Copy, Debug, PartialEq, Eq)]
pub struct Orient {
    bearing: i64,
    inclination: i64,
    alpha: i64,
    beta: i64,
}

impl View for Orient {
    type V = OrientAngles;

    closed spec fn view(&self) -> OrientAngles {
        OrientAngles {
            bearing: self.bearing as int,
            inclination: self.inclination as int,
            alpha: self.alpha as int,
            beta: self.beta as int,
        }
    }
}

/// What is read off the normal of the measured plane once it stands in the
/// global frame.
#[derive(Clone, Copy, Debug, PartialEq, Eq)]
pub struct NormalReading {
    /// Angle between east and the horizontal part of the normal, in
    /// `[0, HALF_TURN]`; `None` where the normal has no horizontal part.
    pub apparent_trend: Option<i64>,
    /// Whether the normal points north of the east-west line.
    pub northward: bool,
    /// Angle of the normal above the horizontal, in
    /// `[-QUARTER_TURN, QUARTER_TURN]`.
    pub elevation: i64,
}

impl NormalReading {
    /// The apparent trend that is worked with: the one read, or zero where
    /// the normal is vertical and any direction serves.
    pub open spec fn apparent_trend_or_zero(self) -> i64 {
        match self.apparent_trend {
            Some(a) => a,
            None => 0,
        }
    }

    /// Whether both angles of the reading lie in their ranges.
    pub open spec fn is_valid(self) -> bool {
        &&& 0 <= self.apparent_trend_or_zero() <= HALF_TURN
        &&& -QUARTER_TURN <= self.elevation <= QUARTER_TURN
    }

    /// The trend of the normal: a quarter turn less the apparent trend where
    /// the normal points north, a quarter turn more where it does not; a
    /// negative difference is raised by a full turn.
    pub open spec fn trend(self) -> int {
        let a = self.apparent_trend_or_zero();
        if !self.northward {
            QUARTER_TURN + a
        } else if QUARTER_TURN - a < 0 {
            QUARTER_TURN - a + FULL_TURN
        } else {
            QUARTER_TURN - a
        }
    }

    /// The plunge of the normal: as far below the horizontal as the
    /// elevation is above it.
    pub open spec fn plunge(self) -> int {
        -self.elevation
    }
}

impl Orient {
    #[verifier::type_invariant]
    spec fn well_formed(self) -> bool {
        self@.is_valid()
    }

    /// Beta referred to the top of the hole: as given for a line along the
    /// top, half a turn further for a line along the bottom.
    pub open spec fn top_beta(beta: i64, orientation_line: BHOrientationLine) -> int {
        match orientation_line {
            BHOrientationLine::Top => beta as int,
            BHOrientationLine::Bottom => wrap_sum(beta as int, HALF_TURN as int, FULL_TURN as int),
        }
    }

    /// The angles that [`Orient::new`] stores, or the first of bearing,
    /// inclination, alpha and beta that is out of range.
    pub open spec fn spec_new(
        bearing: i64,
        inclination: i64,
        alpha: i64,
        beta: i64,
        orientation_line: BHOrientationLine,
    ) -> Result<OrientAngles, GeoError> {
        if !in_range(bearing as int, 0, FULL_TURN as int) {
            Err(
                GeoError::OutOfRange {
                    field: Field::Bearing,
                    value: bearing,
                    min: 0,
                    max: FULL_TURN,
                },
            )
        } else if !in_range(inclination as int, -QUARTER_TURN as int, QUARTER_TURN as int) {
            Err(
                GeoError::OutOfRange {
                    field: Field::Inclination,
                    value: inclination,
                    min: (-QUARTER_TURN) as i64,
                    max: QUARTER_TURN,
                },
            )
        } else if !in_range(alpha as int, 0, QUARTER_TURN as int) {
            Err(GeoError::OutOfRange { field: Field::Alpha, value: alpha, min: 0, max: QUARTER_TURN })
        } else if !in_range(beta as int, 0, FULL_TURN as int) {
            Err(GeoError::OutOfRange { field: Field::Beta, value: beta, min: 0, max: FULL_TURN })
        } else {
            Ok(
                OrientAngles {
                    bearing: bearing as int,
                    inclination: inclination as int,
                    alpha: alpha as int,
                    beta: Orient::top_beta(beta, orientation_line),
                },
            )
        }
    }

    /// Checks the four angles and refers beta to the top of the hole.
    pub fn new(
        bearing: i64,
        inclination: i64,
        alpha: i64,
        beta: i64,
        orientation_line: BHOrientationLine,
    ) -> (orient: Result<Orient, GeoError>)
        ensures
            match orient {
                Ok(o) => Orient::spec_new(bearing, inclination, alpha, beta, orientation_line)
                    == Ok::<OrientAngles, GeoError>(o@) && o@.is_valid(),
                Err(e) => Orient::spec_new(bearing, inclination, alpha, beta, orientation_line)
                    == Err::<OrientAngles, GeoError>(e),
            },
            orient is Ok <==> {
                &&& 0 <= bearing <= FULL_TURN
                &&& -QUARTER_TURN <= inclination <= QUARTER_TURN
                &&& 0 <= alpha <= QUARTER_TURN
                &&& 0 <= beta <= FULL_TURN
            },
    {
        match validate_field(Field::Bearing, bearing, 0, FULL_TURN) {
            Err(e) => { return Err(e); },
            Ok(_) => {},
        }
        match validate_field(Field::Inclination, inclination, -QUARTER_TURN, QUARTER_TURN) {
            Err(e) => { return Err(e); },
            Ok(_) => {},
        }
        match validate_field(Field::Alpha, alpha, 0, QUARTER_TURN) {
            Err(e) => { return Err(e); },
            Ok(_) => {},
        }
        match validate_field(Field::Beta, beta, 0, FULL_TURN) {
            Err(e) => { return Err(e); },
            Ok(_) => {},
        }
        let beta: i64 = match orientation_line {
            BHOrientationLine::Top => beta,
            BHOrientationLine::Bottom => match clockwise_from_input(beta, HALF_TURN, 0, FULL_TURN) {
                Ok(b) => b,
                Err(e) => { return Err(e.for_field(Field::Beta)); },
            },
        };
        Ok(Orient { bearing, inclination, alpha, beta })
    }

    /// Compass direction of the hole.
    pub fn bearing(&self) -> (bearing: i64)
        ensures
            bearing == self@.bearing,
            0 <= bearing <= FULL_TURN,
    {
        proof {
            use_type_invariant(self);
        }
        self.bearing
    }

    /// Angle of the hole above the horizontal.
    pub fn inclination(&self) -> (inclination: i64)
        ensures
            inclination == self@.inclination,
            -QUARTER_TURN <= inclination <= QUARTER_TURN,
    {
        proof {
            use_type_invariant(self);
        }
        self.inclination
    }

    /// Angle between the plane and the axis of the core.
    pub fn alpha(&self) -> (alpha: i64)
        ensures
            alpha == self@.alpha,
            0 <= alpha <= QUARTER_TURN,
    {
        proof {
            use_type_invariant(self);
        }
        self.alpha
    }

    /// Beta, referred to the top of the hole.
    pub fn beta(&self) -> (beta: i64)
        ensures
            beta == self@.beta,
            0 <= beta <= FULL_TURN,
    {
        proof {
            use_type_invariant(self);
        }
        self.beta
    }

    /// What [`Orient::trend_and_plunge`] returns: trend and plunge of the
    /// normal, or the first angle of the reading that is out of range.
    pub open spec fn spec_trend_and_plunge(normal: NormalReading) -> Result<(i64, i64), GeoError> {
        if !in_range(normal.apparent_trend_or_zero() as int, 0, HALF_TURN as int) {
            Err(
                GeoError::OutOfRange {
                    field: Field::ApparentTrend,
                    value: normal.apparent_trend_or_zero(),
                    min: 0,
                    max: HALF_TURN,
                },
            )
        } else if !in_range(normal.elevation as int, -QUARTER_TURN as int, QUARTER_TURN as int) {
            Err(
                GeoError::OutOfRange {
                    field: Field::Elevation,
                    value: normal.elevation,
                    min: (-QUARTER_TURN) as i64,
                    max: QUARTER_TURN,
                },
            )
        } else {
            Ok((normal.trend() as i64, normal.plunge() as i64))
        }
    }

    /// Trend and plunge of the pole of the measured plane, where `normal` is
    /// what was read off the plane's normal for these angles.
    pub fn trend_and_plunge(&self, normal: &NormalReading) -> (pole: Result<(i64, i64), GeoError>)
        ensures
            pole == Orient::spec_trend_and_plunge(*normal),
            pole is Ok <==> normal.is_valid(),
            pole matches Ok((trend, plunge)) ==> {
                &&& trend == normal.trend()
                &&& plunge == normal.plunge()
                &&& 0 <= trend <= FULL_TURN
                &&& -QUARTER_TURN <= plunge <= QUARTER_TURN
            },
    {
        let apparent_trend: i64 = match normal.apparent_trend {
            Some(a) => a,
            None => 0,
        };
        match validate_field(Field::ApparentTrend, apparent_trend, 0, HALF_TURN) {
            Err(e) => { return Err(e); },
            Ok(_) => {},
        }
        match validate_field(Field::Elevation, normal.elevation, -QUARTER_TURN, QUARTER_TURN) {
            Err(e) => { return Err(e); },
            Ok(_) => {},
        }
        let mut trend: i64 = if normal.northward {
            QUARTER_TURN - apparent_trend
        } else {
            QUARTER_TURN + apparent_trend
        };
        if trend < 0 {
            trend = trend + FULL_TURN;
        }
        Ok((trend, -normal.elevation))
    }

    /// What [`Orient::into_plane`] returns. A normal that points upward has a
    /// negative plunge, which is reported.
    pub open spec fn spec_into_plane(normal: NormalReading) -> Result<Plane, GeoError> {
        match Orient::spec_trend_and_plunge(normal) {
            Err(e) => Err(e),
            Ok((trend, plunge)) => {
                if plunge < 0 {
                    Err(
                        GeoError::OutOfRange {
                            field: Field::Plunge,
                            value: plunge,
                            min: 0,
                            max: QUARTER_TURN,
                        },
                    )
                } else {
                    let strike = wrap_sum(trend as int, QUARTER_TURN as int, FULL_TURN as int);
                    Ok(
                        Plane {
                            strike: strike as i64,
                            dip: (QUARTER_TURN - plunge) as i64,
                            dip_direction: wrap_sum(
                                strike,
                                QUARTER_TURN as int,
                                FULL_TURN as int,
                            ) as i64,
                            pole: Lineation { trend, plunge },
                        },
                    )
                }
            },
        }
    }

    /// The measured plane, where `normal` is what was read off the plane's
    /// normal for these angles: its pole has the trend and plunge of the
    /// normal, its strike lies a quarter turn clockwise of the trend, its
    /// dip direction a quarter turn clockwise of the strike.
    pub fn into_plane(self, normal: &NormalReading) -> (plane: Result<Plane, GeoError>)
        ensures
            plane == Orient::spec_into_plane(*normal),
            plane is Ok <==> normal.is_valid() && normal.elevation <= 0,
            plane matches Ok(p) ==> {
                &&& p.is_valid()
                &&& p.pole.trend == normal.trend()
                &&& p.pole.plunge == normal.plunge()
                &&& p.dip == QUARTER_TURN - p.pole.plunge
                &&& p.strike == wrap_sum(p.pole.trend as int, QUARTER_TURN as int, FULL_TURN as int)
                &&& p.dip_direction == wrap_sum(
                    p.strike as int,
                    QUARTER_TURN as int,
                    FULL_TURN as int,
                )
            },
    {
        let (trend, plunge) = match self.trend_and_plunge(normal) {
            Ok(pole) => pole,
            Err(e) => { return Err(e); },
        };
        let strike: i64 = match strike_from_trend(trend) {
            Ok(s) => s,
            Err(e) => { return Err(e); },
        };
        let dip: i64 = match dip_from_plunge(plunge) {
            Ok(d) => d,
            Err(e) => { return Err(e); },
        };
        let dip_direction: i64 = match dip_direction_from_strike(strike) {
            Ok(d) => d,
            Err(e) => { return Err(e); },
        };
        Plane::new(strike, dip, Some(dip_direction), Some(trend), Some(plunge))
    }
}

/// A measurement taken from a line along the bottom of the hole is the
/// measurement with beta half a turn further taken from a line along the top:
/// both store the same angles, so whatever is worked out from them agrees.
pub proof fn lemma_bottom_is_top_half_a_turn_on(
    bearing: i64,
    inclination: i64,
    alpha: i64,
    beta: i64,
)
    requires
        0 <= beta <= FULL_TURN,
    ensures
        0 < wrap_sum(beta as int, HALF_TURN as int, FULL_TURN as int) <= FULL_TURN,
        Orient::spec_new(bearing, inclination, alpha, beta, BHOrientationLine::Bottom)
            == Orient::spec_new(
            bearing,
            inclination,
            alpha,
            wrap_sum(beta as int, HALF_TURN as int, FULL_TURN as int) as i64,
            BHOrientationLine::Top,
        ),
        beta != HALF_TURN ==> wrap_sum(beta as int, HALF_TURN as int, FULL_TURN as int) == (beta
            + HALF_TURN) % (FULL_TURN as int),
        beta == HALF_TURN ==> wrap_sum(beta as int, HALF_TURN as int, FULL_TURN as int)
            == FULL_TURN,
{
}

} // verus!
