//! Real-valued quantities, carried by their bit patterns.
//!
//! The registry stores positions, rotations and colours and hands them back;
//! it never adds or multiplies them. A number is therefore kept as the bit
//! pattern of its IEEE-754 single-precision form, and whoever consumes a
//! frame turns the patterns back into numbers.

use vstd::prelude::*;

verus! {

/// Bit pattern of `0.0`.
pub const ZERO_BITS: u32 = 0x0000_0000;

/// Bit pattern of `1.0`.
pub const ONE_BITS: u32 = 0x3F80_0000;

/// A single-precision number, held as its bit pattern.
#[derive(Clone, Copy, Debug, PartialEq, Eq, Hash, Structural)]
pub struct Scalar {
    pub bits: u32,
}

/// A position in space.
#[derive(Clone, Copy, Debug, PartialEq, Eq, Hash, Structural)]
pub struct Point {
    pub x: Scalar,
    pub y: Scalar,
    pub z: Scalar,
}

/// A direction or an extent in space.
#[derive(Clone, Copy, Debug, PartialEq, Eq, Hash, Structural)]
pub struct Vector3 {
    pub x: Scalar,
    pub y: Scalar,
    pub z: Scalar,
}

/// A texture coordinate.
#[derive(Clone, Copy, Debug, PartialEq, Eq, Hash, Structural)]
pub struct Vector2 {
    pub x: Scalar,
    pub y: Scalar,
}

/// A rotation, as the four components of a quaternion. Keeping it of unit
/// length is the business of whoever computes it.
#[derive(Clone, Copy, Debug, PartialEq, Eq, Hash, Structural)]
pub struct Orientation {
    pub x: Scalar,
    pub y: Scalar,
    pub z: Scalar,
    pub w: Scalar,
}

/// A colour with opacity.
#[derive(Clone, Copy, Debug, PartialEq, Eq, Hash, Structural)]
pub struct Color {
    pub r: Scalar,
    pub g: Scalar,
    pub b: Scalar,
    pub a: Scalar,
}

impl Scalar {
    /// The number `0.0`.
    pub open spec fn spec_zero() -> Scalar {
        Scalar { bits: ZERO_BITS }
    }

    /// The number `1.0`.
    pub open spec fn spec_one() -> Scalar {
        Scalar { bits: ONE_BITS }
    }

    /// The number whose pattern is `bits`.
    pub fn from_bits(bits: u32) -> (s: Scalar)
        ensures
            s == (Scalar { bits }),
    {
        Scalar { bits }
    }

    /// The pattern of this number.
    pub fn to_bits(self) -> (bits: u32)
        ensures
            bits == self.bits,
    {
        self.bits
    }

    /// The number `0.0`.
    #[verifier::when_used_as_spec(spec_zero)]
    pub fn zero() -> (s: Scalar)
        ensures
            s == Scalar::spec_zero(),
    {
        Scalar { bits: ZERO_BITS }
    }

    /// The number `1.0`.
    #[verifier::when_used_as_spec(spec_one)]
    pub fn one() -> (s: Scalar)
        ensures
            s == Scalar::spec_one(),
    {
        Scalar { bits: ONE_BITS }
    }
}

impl Point {
    /// The origin of space.
    pub open spec fn spec_origin() -> Point {
        Point { x: Scalar::zero(), y: Scalar::zero(), z: Scalar::zero() }
    }

    /// The point with the given coordinates.
    pub fn new(x: Scalar, y: Scalar, z: Scalar) -> (p: Point)
        ensures
            p == (Point { x, y, z }),
    {
        Point { x, y, z }
    }

    /// The origin of space.
    #[verifier::when_used_as_spec(spec_origin)]
    pub fn origin() -> (p: Point)
        ensures
            p == Point::spec_origin(),
    {
        Point { x: Scalar::zero(), y: Scalar::zero(), z: Scalar::zero() }
    }
}

impl Vector3 {
    /// The vector `(1, 1, 1)`: as a scale it changes nothing.
    pub open spec fn spec_one() -> Vector3 {
        Vector3 { x: Scalar::one(), y: Scalar::one(), z: Scalar::one() }
    }

    /// The vector with the given components.
    pub fn new(x: Scalar, y: Scalar, z: Scalar) -> (v: Vector3)
        ensures
            v == (Vector3 { x, y, z }),
    {
        Vector3 { x, y, z }
    }

    /// The vector `(1, 1, 1)`.
    #[verifier::when_used_as_spec(spec_one)]
    pub fn one() -> (v: Vector3)
        ensures
            v == Vector3::spec_one(),
    {
        Vector3 { x: Scalar::one(), y: Scalar::one(), z: Scalar::one() }
    }
}

impl Vector2 {
    /// The vector with the given components.
    pub fn new(x: Scalar, y: Scalar) -> (v: Vector2)
        ensures
            v == (Vector2 { x, y }),
    {
        Vector2 { x, y }
    }
}

impl Orientation {
    /// The rotation that turns nothing: `(0, 0, 0, 1)`.
    pub open spec fn spec_identity() -> Orientation {
        Orientation { x: Scalar::zero(), y: Scalar::zero(), z: Scalar::zero(), w: Scalar::one() }
    }

    /// The rotation with the given quaternion components.
    pub fn new(x: Scalar, y: Scalar, z: Scalar, w: Scalar) -> (o: Orientation)
        ensures
            o == (Orientation { x, y, z, w }),
    {
        Orientation { x, y, z, w }
    }

    /// The rotation that turns nothing.
    #[verifier::when_used_as_spec(spec_identity)]
    pub fn identity() -> (o: Orientation)
        ensures
            o == Orientation::spec_identity(),
    {
        Orientation { x: Scalar::zero(), y: Scalar::zero(), z: Scalar::zero(), w: Scalar::one() }
    }
}

impl Color {
    /// The colour with the given channels and opacity.
    pub fn new(r: Scalar, g: Scalar, b: Scalar, a: Scalar) -> (c: Color)
        ensures
            c == (Color { r, g, b, a }),
    {
        Color { r, g, b, a }
    }

    /// The fully opaque colour with the given channels.
    pub fn rgb(r: Scalar, g: Scalar, b: Scalar) -> (c: Color)
        ensures
            c == (Color { r, g, b, a: Scalar::one() }),
    {
        Color { r, g, b, a: Scalar::one() }
    }
}

} // verus!
