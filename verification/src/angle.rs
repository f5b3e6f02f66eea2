//! The angle unit and the bounds that the angles of this crate are held to.
use vstd::prelude::*;

verus! {

/// One degree, in microdegrees.
pub const DEGREE: i64 = 1_000_000;

/// A quarter turn (90 degrees), in microdegrees.
pub const QUARTER_TURN: i64 = 90_000_000;

/// A half turn (180 degrees), in microdegrees.
pub const HALF_TURN: i64 = 180_000_000;

/// Three quarters of a turn (270 degrees), in microdegrees.
pub const THREE_QUARTER_TURN: i64 = 270_000_000;

/// A full turn (360 degrees), in microdegrees.
pub const FULL_TURN: i64 = 360_000_000;

} // verus!
