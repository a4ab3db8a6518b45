//! Plain carrier types for the handle's parameters: opaque 32-bit scalar
//! encodings, 3D vectors of them, and microsecond durations.

use vstd::prelude::*;

verus! {

/// One scalar output parameter of a voice (a pitch multiplier, a volume, one
/// coordinate of a position, a minimum distance, an attenuation factor),
/// carried as the raw 32-bit encoding of the engine's scalar value.
///
/// This layer performs no validation and no arithmetic on scalar parameters:
/// a value is stored as set and handed back bit-for-bit, out-of-range values
/// included. Interpreting the encoding (for instance as an IEEE 754 single)
/// is left to the caller at the boundary where real output hardware is
/// driven.
#[derive(Clone, Copy, Debug, PartialEq, Eq, Structural)]
pub struct Scalar {
    /// The raw 32-bit encoding.
    pub bits: u32,
}

impl Scalar {
    /// Wraps a raw 32-bit encoding.
    pub fn from_bits(bits: u32) -> (s: Scalar)
        ensures
            s.bits == bits,
    {
        Scalar { bits }
    }
}

/// A position in 3D space: three scalar coordinates, stored uninterpreted
/// like every other scalar parameter.
#[derive(Clone, Copy, Debug, PartialEq, Eq, Structural)]
pub struct Vector3 {
    /// The first coordinate.
    pub x: Scalar,
    /// The second coordinate.
    pub y: Scalar,
    /// The third coordinate.
    pub z: Scalar,
}

impl Vector3 {
    /// Builds a vector from its three coordinates.
    pub fn new(x: Scalar, y: Scalar, z: Scalar) -> (v: Vector3)
        ensures
            v == (Vector3 { x, y, z }),
    {
        Vector3 { x, y, z }
    }
}

/// A non-negative span of time, in whole microseconds. Play-head offsets and
/// buffer durations are expressed in this unit.
#[derive(Clone, Copy, Debug, PartialEq, Eq, Structural)]
pub struct Time {
    /// The span in microseconds.
    pub micros: u64,
}

impl Time {
    /// Builds a span from a number of microseconds.
    pub fn from_micros(micros: u64) -> (t: Time)
        ensures
            t.micros == micros,
    {
        Time { micros }
    }
}

} // verus!
