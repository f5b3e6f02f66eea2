//! The ways in which a construction can fail.
use vstd::prelude::*;

verus! {

/// The quantity that a rejected value was given for.
#[derive(Clone, Copy, Debug, PartialEq, Eq, Structural)]
pub enum Field {
    Strike,
    Dip,
    DipDirection,
    Trend,
    Plunge,
    Bearing,
    Inclination,
    Alpha,
    Beta,
    ApparentTrend,
    Elevation,
}

/// A value that lies outside the closed interval `[min, max]`.
#[derive(Clone, Copy, Debug, PartialEq, Eq, Structural)]
pub struct RangeError {
    pub value: i64,
    pub min: i64,
    pub max: i64,
}

/// Why an angle, a plane or a borehole could not be built.
#[derive(Clone, Copy, Debug, PartialEq, Eq, Structural)]
pub enum GeoError {
    /// `value` was given for `field` and lies outside `[min, max]`.
    OutOfRange { field: Field, value: i64, min: i64, max: i64 },
    /// The survey has no station, its depths descend somewhere, or its first
    /// station is not at depth zero.
    InvalidSurveyData,
    /// No station's interval holds the measurement taken at `depth`.
    DepthOutOfSurveyRange { depth: i64 },
    /// The number of normal readings differs from the number of measurements.
    NormalCountMismatch { measurements: usize, normals: usize },
}

impl RangeError {
    /// This violation, reported for `field`.
    pub open spec fn spec_for_field(self, field: Field) -> GeoError {
        GeoError::OutOfRange { field, value: self.value, min: self.min, max: self.max }
    }

    /// This violation, reported for `field`.
    #[verifier::when_used_as_spec(spec_for_field)]
    pub fn for_field(self, field: Field) -> (named: GeoError)
        ensures
            named == self.spec_for_field(field),
    {
        GeoError::OutOfRange { field, value: self.value, min: self.min, max: self.max }
    }
}

} // verus!
