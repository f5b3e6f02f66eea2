//! Conversions between the angles that describe a plane and its pole.
//!
//! A sum of two compass angles is brought back into `[0, FULL_TURN]` by taking
//! one full turn off it where it exceeds a full turn. A sum of exactly one
//! full turn is therefore kept as it is: north is then written as
//! `FULL_TURN`, not as zero.
use vstd::prelude::*;
use crate::angle::{FULL_TURN, QUARTER_TURN, THREE_QUARTER_TURN};
use crate::error::{Field, GeoError, RangeError};
use crate::validation::{error_if_out_of_range, in_range};

verus! {

/// `input + add`, less `max` where the sum exceeds `max`.
pub open spec fn wrap_sum(input: int, add: int, max: int) -> int {
    if input + add > max {
        input + add - max
    } else {
        input + add
    }
}

/// What [`clockwise_from_input`] returns.
pub open spec fn spec_clockwise_from_input(input: i64, add: i64, min: i64, max: i64) -> Result<
    i64,
    RangeError,
> {
    if in_range(input as int, min as int, max as int) {
        Ok(wrap_sum(input as int, add as int, max as int) as i64)
    } else {
        Err(RangeError { value: input, min, max })
    }
}

/// Turns `input` clockwise by `add`: the sum, less `max` where it exceeds
/// `max`. An `input` outside `[min, max]` is reported.
#[verifier::when_used_as_spec(spec_clockwise_from_input)]
pub fn clockwise_from_input(input: i64, add: i64, min: i64, max: i64) -> (turned: Result<
    i64,
    RangeError,
>)
    requires
        in_range(input as int, min as int, max as int) ==> i64::MIN <= input + add,
    ensures
        turned == spec_clockwise_from_input(input, add, min, max),
        turned matches Ok(angle) ==> angle == wrap_sum(input as int, add as int, max as int),
        turned is Ok <==> in_range(input as int, min as int, max as int),
{
    match error_if_out_of_range(input, min, max) {
        Err(e) => Err(e),
        Ok(_) => {
            let sum: i128 = input as i128 + add as i128;
            if sum > max as i128 {
                Ok((sum - max as i128) as i64)
            } else {
                Ok(sum as i64)
            }
        },
    }
}

/// What [`get_perpendicular_angle`] returns.
pub open spec fn spec_get_perpendicular_angle(angle: i64) -> Result<i64, RangeError> {
    if in_range(angle as int, 0, QUARTER_TURN as int) {
        Ok((QUARTER_TURN - angle) as i64)
    } else {
        Err(RangeError { value: angle, min: 0, max: QUARTER_TURN })
    }
}

/// The angle that makes a quarter turn together with `angle`. An `angle`
/// outside `[0, QUARTER_TURN]` is reported.
#[verifier::when_used_as_spec(spec_get_perpendicular_angle)]
pub fn get_perpendicular_angle(angle: i64) -> (across: Result<i64, RangeError>)
    ensures
        across == spec_get_perpendicular_angle(angle),
        across matches Ok(a) ==> a == QUARTER_TURN - angle && 0 <= a <= QUARTER_TURN,
        across is Ok <==> 0 <= angle <= QUARTER_TURN,
{
    match error_if_out_of_range(angle, 0, QUARTER_TURN) {
        Err(e) => Err(e),
        Ok(_) => Ok(QUARTER_TURN - angle),
    }
}

/// What the conversions between compass angles return: `angle` turned by
/// `add`, or the report that `angle`, given for `field`, is no compass angle.
pub open spec fn spec_turn(field: Field, angle: i64, add: i64) -> Result<i64, GeoError> {
    if in_range(angle as int, 0, FULL_TURN as int) {
        Ok(wrap_sum(angle as int, add as int, FULL_TURN as int) as i64)
    } else {
        Err(GeoError::OutOfRange { field, value: angle, min: 0, max: FULL_TURN })
    }
}

/// What [`dip_direction_from_strike`] returns.
pub open spec fn spec_dip_direction_from_strike(strike: i64) -> Result<i64, GeoError> {
    spec_turn(Field::Strike, strike, QUARTER_TURN)
}

/// The dip direction of a plane with the given strike: a quarter turn
/// clockwise of the strike.
#[verifier::when_used_as_spec(spec_dip_direction_from_strike)]
pub fn dip_direction_from_strike(strike: i64) -> (dip_direction: Result<i64, GeoError>)
    ensures
        dip_direction == spec_dip_direction_from_strike(strike),
        dip_direction is Ok <==> 0 <= strike <= FULL_TURN,
        dip_direction matches Ok(d) ==> d == wrap_sum(
            strike as int,
            QUARTER_TURN as int,
            FULL_TURN as int,
        ) && 0 < d <= FULL_TURN,
{
    match clockwise_from_input(strike, QUARTER_TURN, 0, FULL_TURN) {
        Ok(angle) => Ok(angle),
        Err(e) => Err(e.for_field(Field::Strike)),
    }
}

/// What [`strike_from_trend`] returns.
pub open spec fn spec_strike_from_trend(trend: i64) -> Result<i64, GeoError> {
    spec_turn(Field::Trend, trend, QUARTER_TURN)
}

/// The strike of the plane whose pole has the given trend: a quarter turn
/// clockwise of the trend.
#[verifier::when_used_as_spec(spec_strike_from_trend)]
pub fn strike_from_trend(trend: i64) -> (strike: Result<i64, GeoError>)
    ensures
        strike == spec_strike_from_trend(trend),
        strike is Ok <==> 0 <= trend <= FULL_TURN,
        strike matches Ok(s) ==> s == wrap_sum(trend as int, QUARTER_TURN as int, FULL_TURN as int)
            && 0 < s <= FULL_TURN,
{
    match clockwise_from_input(trend, QUARTER_TURN, 0, FULL_TURN) {
        Ok(angle) => Ok(angle),
        Err(e) => Err(e.for_field(Field::Trend)),
    }
}

/// What [`trend_from_strike`] returns.
pub open spec fn spec_trend_from_strike(strike: i64) -> Result<i64, GeoError> {
    spec_turn(Field::Strike, strike, THREE_QUARTER_TURN)
}

/// The trend of the pole of a plane with the given strike: three quarters of
/// a turn clockwise of the strike, which is a quarter turn against the clock.
#[verifier::when_used_as_spec(spec_trend_from_strike)]
pub fn trend_from_strike(strike: i64) -> (trend: Result<i64, GeoError>)
    ensures
        trend == spec_trend_from_strike(strike),
        trend is Ok <==> 0 <= strike <= FULL_TURN,
        trend matches Ok(t) ==> t == wrap_sum(
            strike as int,
            THREE_QUARTER_TURN as int,
            FULL_TURN as int,
        ) && 0 < t <= FULL_TURN,
{
    match clockwise_from_input(strike, THREE_QUARTER_TURN, 0, FULL_TURN) {
        Ok(angle) => Ok(angle),
        Err(e) => Err(e.for_field(Field::Strike)),
    }
}

/// What the conversions between dip and plunge return: the angle across from
/// `angle`, or the report that `angle`, given for `field`, is out of range.
pub open spec fn spec_across(field: Field, angle: i64) -> Result<i64, GeoError> {
    if in_range(angle as int, 0, QUARTER_TURN as int) {
        Ok((QUARTER_TURN - angle) as i64)
    } else {
        Err(GeoError::OutOfRange { field, value: angle, min: 0, max: QUARTER_TURN })
    }
}

/// What [`dip_from_plunge`] returns.
pub open spec fn spec_dip_from_plunge(plunge: i64) -> Result<i64, GeoError> {
    spec_across(Field::Plunge, plunge)
}

/// The dip of the plane whose pole has the given plunge.
#[verifier::when_used_as_spec(spec_dip_from_plunge)]
pub fn dip_from_plunge(plunge: i64) -> (dip: Result<i64, GeoError>)
    ensures
        dip == spec_dip_from_plunge(plunge),
        dip is Ok <==> 0 <= plunge <= QUARTER_TURN,
        dip matches Ok(d) ==> d == QUARTER_TURN - plunge && 0 <= d <= QUARTER_TURN,
{
    match get_perpendicular_angle(plunge) {
        Ok(angle) => Ok(angle),
        Err(e) => Err(e.for_field(Field::Plunge)),
    }
}

/// What [`plunge_from_dip`] returns.
pub open spec fn spec_plunge_from_dip(dip: i64) -> Result<i64, GeoError> {
    spec_across(Field::Dip, dip)
}

/// The plunge of the pole of a plane with the given dip.
#[verifier::when_used_as_spec(spec_plunge_from_dip)]
pub fn plunge_from_dip(dip: i64) -> (plunge: Result<i64, GeoError>)
    ensures
        plunge == spec_plunge_from_dip(dip),
        plunge is Ok <==> 0 <= dip <= QUARTER_TURN,
        plunge matches Ok(p) ==> p == QUARTER_TURN - dip && 0 <= p <= QUARTER_TURN,
{
    match get_perpendicular_angle(dip) {
        Ok(angle) => Ok(angle),
        Err(e) => Err(e.for_field(Field::Dip)),
    }
}

/// Turning a compass angle by less than a full turn gives a compass angle
/// again, which differs from the plain sum by no or one full turn; it is the
/// sum's remainder modulo a full turn unless the sum is exactly a full turn.
pub proof fn lemma_wrap_sum_is_remainder(angle: int, add: int)
    requires
        0 <= angle <= FULL_TURN,
        0 < add < FULL_TURN,
    ensures
        0 < wrap_sum(angle, add, FULL_TURN as int) <= FULL_TURN,
        wrap_sum(angle, add, FULL_TURN as int) % (FULL_TURN as int) == (angle + add) % (
        FULL_TURN as int),
        angle + add != FULL_TURN ==> wrap_sum(angle, add, FULL_TURN as int) == (angle + add) % (
        FULL_TURN as int),
        angle + add == FULL_TURN ==> wrap_sum(angle, add, FULL_TURN as int) == FULL_TURN,
{
}

/// Dip to plunge and back gives the dip again, and so does plunge to dip and
/// back, for every angle in `[0, QUARTER_TURN]`.
pub proof fn lemma_dip_plunge_round_trip(angle: i64)
    requires
        0 <= angle <= QUARTER_TURN,
    ensures
        spec_plunge_from_dip(angle) matches Ok(plunge) && spec_dip_from_plunge(plunge) == Ok::<
            i64,
            GeoError,
        >(angle),
        spec_dip_from_plunge(angle) matches Ok(dip) && spec_plunge_from_dip(dip) == Ok::<
            i64,
            GeoError,
        >(angle),
{
}

/// Strike to trend and back gives the strike again, and so does trend to
/// strike and back, for every compass angle but zero. From zero the way there
/// and back ends at `FULL_TURN`, the other name of north.
pub proof fn lemma_strike_trend_round_trip(angle: i64)
    requires
        0 <= angle <= FULL_TURN,
    ensures
        spec_trend_from_strike(angle) matches Ok(trend) && spec_strike_from_trend(trend) == Ok::<
            i64,
            GeoError,
        >(if angle == 0 { FULL_TURN } else { angle }),
        spec_strike_from_trend(angle) matches Ok(strike) && spec_trend_from_strike(strike) == Ok::<
            i64,
            GeoError,
        >(if angle == 0 { FULL_TURN } else { angle }),
{
}

} // verus!
