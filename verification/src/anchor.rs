//! Anchors: where a thing stands in the world.

use vstd::prelude::*;
use crate::math::{Orientation, Point, Vector3};

verus! {

/// Identifies an anchor held by the renderer.
#[derive(Debug, Clone, Copy, PartialEq, Eq, Hash, Structural)]
pub struct AnchorId(pub usize);

/// The placement of one object in world space: where it stands, how it is
/// turned and how it is scaled. Cameras, lights and mesh instances refer to an
/// anchor by its identifier and never own it.
#[derive(Debug, Clone, Copy, PartialEq, Eq, Hash, Structural)]
pub struct Anchor {
    pub position: Point,
    pub orientation: Orientation,
    pub scale: Vector3,
}

/// A pose in world space, as its three factors. It stands for the matrix
/// `T * R * S` on column vectors: a point is scaled first, then rotated, and
/// moved last. The order is part of the value's meaning.
#[derive(Debug, Clone, Copy, PartialEq, Eq, Hash, Structural)]
pub struct Transform {
    pub translation: Point,
    pub rotation: Orientation,
    pub scale: Vector3,
}

impl Transform {
    /// The pose that an anchor describes by itself.
    pub open spec fn spec_of(anchor: Anchor) -> Transform {
        Transform {
            translation: anchor.position,
            rotation: anchor.orientation,
            scale: anchor.scale,
        }
    }

    /// The pose that leaves everything where it is.
    pub open spec fn spec_identity() -> Transform {
        Transform {
            translation: Point::origin(),
            rotation: Orientation::identity(),
            scale: Vector3::one(),
        }
    }

    /// The pose that an anchor describes by itself.
    #[verifier::when_used_as_spec(spec_of)]
    pub fn of(anchor: Anchor) -> (transform: Transform)
        ensures
            transform == Transform::spec_of(anchor),
    {
        Transform {
            translation: anchor.position,
            rotation: anchor.orientation,
            scale: anchor.scale,
        }
    }

    /// The pose that leaves everything where it is.
    #[verifier::when_used_as_spec(spec_identity)]
    pub fn identity() -> (transform: Transform)
        ensures
            transform == Transform::spec_identity(),
    {
        Transform {
            translation: Point::origin(),
            rotation: Orientation::identity(),
            scale: Vector3::one(),
        }
    }
}

impl Anchor {
    /// An anchor at the origin, not turned and not scaled.
    pub open spec fn spec_new() -> Anchor {
        Anchor {
            position: Point::origin(),
            orientation: Orientation::identity(),
            scale: Vector3::one(),
        }
    }

    /// An anchor at the origin, not turned and not scaled.
    #[verifier::when_used_as_spec(spec_new)]
    pub fn new() -> (anchor: Anchor)
        ensures
            anchor == Anchor::spec_new(),
    {
        Anchor {
            position: Point::origin(),
            orientation: Orientation::identity(),
            scale: Vector3::one(),
        }
    }

    /// Where the anchor stands.
    pub fn position(&self) -> (position: Point)
        ensures
            position == self.position,
    {
        self.position
    }

    /// Moves the anchor to `position`.
    pub fn set_position(&mut self, position: Point)
        ensures
            *final(self) == (Anchor { position, ..*old(self) }),
    {
        self.position = position;
    }

    /// How the anchor is turned.
    pub fn orientation(&self) -> (orientation: Orientation)
        ensures
            orientation == self.orientation,
    {
        self.orientation
    }

    /// Turns the anchor to `orientation`.
    pub fn set_orientation(&mut self, orientation: Orientation)
        ensures
            *final(self) == (Anchor { orientation, ..*old(self) }),
    {
        self.orientation = orientation;
    }

    /// How the anchor is scaled.
    pub fn scale(&self) -> (scale: Vector3)
        ensures
            scale == self.scale,
    {
        self.scale
    }

    /// Scales the anchor by `scale`.
    pub fn set_scale(&mut self, scale: Vector3)
        ensures
            *final(self) == (Anchor { scale, ..*old(self) }),
    {
        self.scale = scale;
    }
}

} // verus!
