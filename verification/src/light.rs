//! Lights.

use vstd::prelude::*;
use crate::anchor::AnchorId;
use crate::math::{Color, Scalar, Vector3};

verus! {

/// Identifies a light held by the renderer.
#[derive(Debug, Clone, Copy, PartialEq, Eq, Hash, Structural)]
pub struct LightId(pub usize);

/// What tells one sort of light from another.
#[derive(Debug, Clone, Copy, PartialEq, Eq, Hash, Structural)]
pub enum LightData {
    /// Light that falls along `direction` everywhere. It has no place, so
    /// its anchor is never looked at.
    Directional { direction: Vector3 },
    /// Light that spreads from the place of its anchor as far as `radius`.
    Point { radius: Scalar },
}

/// A light: its sort, its colour, its strength, and the anchor that places
/// it where its sort needs a place.
#[derive(Debug, Clone, Copy, PartialEq, Eq, Hash, Structural)]
pub struct Light {
    pub data: LightData,
    pub color: Color,
    pub strength: Scalar,
    pub anchor: Option<AnchorId>,
}

impl Light {
    /// A light that falls along `direction` everywhere.
    pub fn directional(direction: Vector3, strength: Scalar, color: Color) -> (light: Light)
        ensures
            light == (Light {
                data: LightData::Directional { direction },
                color,
                strength,
                anchor: None,
            }),
    {
        Light { data: LightData::Directional { direction }, color, strength, anchor: None }
    }

    /// A light that spreads from one place as far as `radius`. It lights
    /// nothing until it has an anchor.
    pub fn point(radius: Scalar, strength: Scalar, color: Color) -> (light: Light)
        ensures
            light == (Light { data: LightData::Point { radius }, color, strength, anchor: None }),
    {
        Light { data: LightData::Point { radius }, color, strength, anchor: None }
    }

    /// The anchor that places the light, if it has been given one.
    pub fn anchor(&self) -> (anchor: Option<AnchorId>)
        ensures
            anchor == self.anchor,
    {
        self.anchor
    }

    /// Places the light at `anchor`.
    pub fn set_anchor(&mut self, anchor: AnchorId)
        ensures
            *final(self) == (Light { anchor: Some(anchor), ..*old(self) }),
    {
        self.anchor = Some(anchor);
    }
}

} // verus!
