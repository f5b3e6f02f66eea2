//! Orientation of planar structures measured on oriented drill core.
//!
//! Every angle is a whole number of microdegrees and every depth a whole
//! number of depth units, so that all bookkeeping in this crate is exact:
//! range checks, the conversions between strike, dip, dip direction, trend and
//! plunge, the choice of the survey station a measurement belongs to, and the
//! assembly of the oriented planes of a borehole.
//!
//! The trigonometry that turns the angles of an [`Orient`] into the direction
//! of the plane's normal is left to the caller, who hands the outcome back as
//! a [`NormalReading`].
pub mod angle;
pub mod borehole;
pub mod error;
pub mod interval;
pub mod orient;
pub mod structure;
pub mod survey;
pub mod utils;
pub mod validation;

pub use crate::error::{Field, GeoError, RangeError};
pub use crate::validation::{error_if_out_of_range, validate_field};
pub use crate::utils::{
    clockwise_from_input, dip_direction_from_strike, dip_from_plunge, get_perpendicular_angle,
    plunge_from_dip, strike_from_trend, trend_from_strike,
};
pub use crate::structure::{Lineation, Plane};
pub use crate::orient::{
    BHOrientationLine, NormalReading, Orient, OrientAngles, OrientationLine,
};
pub use crate::interval::{depth_intervals, find_interval, DepthInterval};
pub use crate::survey::{check_survey, BHOrientation, HoleOrientation, RawMeasurement};
pub use crate::borehole::{
    map_measurements_to_depths, orient_measurements, station_for_depth, Borehole,
};
