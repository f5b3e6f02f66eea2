//! Range checks.
use vstd::prelude::*;
use crate::error::{Field, GeoError, RangeError};

verus! {

/// Whether `value` lies in the closed interval `[min, max]`.
pub open spec fn in_range(value: int, min: int, max: int) -> bool {
    min <= value <= max
}

/// What [`error_if_out_of_range`] returns.
pub open spec fn spec_error_if_out_of_range(value: i64, min: i64, max: i64) -> Result<
    i64,
    RangeError,
> {
    if in_range(value as int, min as int, max as int) {
        Ok(value)
    } else {
        Err(RangeError { value, min, max })
    }
}

/// Hands `value` back if it lies in `[min, max]`, both bounds included, and
/// reports it otherwise.
#[verifier::when_used_as_spec(spec_error_if_out_of_range)]
pub fn error_if_out_of_range(value: i64, min: i64, max: i64) -> (checked: Result<i64, RangeError>)
    ensures
        checked == spec_error_if_out_of_range(value, min, max),
        in_range(value as int, min as int, max as int) <==> checked is Ok,
{
    if value < min || value > max {
        Err(RangeError { value, min, max })
    } else {
        Ok(value)
    }
}

/// What [`validate_field`] returns.
pub open spec fn spec_validate_field(field: Field, value: i64, min: i64, max: i64) -> Result<
    i64,
    GeoError,
> {
    if in_range(value as int, min as int, max as int) {
        Ok(value)
    } else {
        Err(GeoError::OutOfRange { field, value, min, max })
    }
}

/// The range check of [`error_if_out_of_range`], with a failure reported for
/// `field`.
#[verifier::when_used_as_spec(spec_validate_field)]
pub fn validate_field(field: Field, value: i64, min: i64, max: i64) -> (checked: Result<
    i64,
    GeoError,
>)
    ensures
        checked == spec_validate_field(field, value, min, max),
        in_range(value as int, min as int, max as int) <==> checked is Ok,
{
    match error_if_out_of_range(value, min, max) {
        Ok(v) => Ok(v),
        Err(e) => Err(e.for_field(field)),
    }
}

} // verus!
