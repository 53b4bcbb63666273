//! Regularly sampled curves: `n` samples taken at `x0 + k * s`, queried
//! forward (the value at a position) and inversely (the position of a value
//! in [0, 1]).
//!
//! Samples are held in their stored representation, as bit patterns whose
//! order key agrees with the order of the values they stand for. The library
//! decides every query by that order: which end clamps a forward query, which
//! samples bracket a fractional index, and where an inverse scan stops.
//! Interpolating between the samples it hands back is left to the caller's
//! arithmetic.
use vstd::prelude::*;

pub mod curve;
pub mod lookup;
pub mod order;

pub use curve::{Bracket, CurveError, RegularDynamicCurve};
pub use lookup::{locate, locate_with, region, InverseHit, LookupError, Region, TieBreak};
pub use order::{F16Bits, F32Bits, Ordered, U1F15Bits, U1F7Bits};

verus! {

} // verus!
