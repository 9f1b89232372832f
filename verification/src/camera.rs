//! Cameras: the eye through which a frame is seen.

use vstd::prelude::*;
use crate::anchor::AnchorId;
use crate::math::{Scalar, ONE_BITS};

verus! {

/// Identifies a camera held by the renderer.
#[derive(Debug, Clone, Copy, PartialEq, Eq, Hash, Structural)]
pub struct CameraId(pub usize);

/// Bit pattern of a third of pi, the default field of view in radians.
pub const DEFAULT_FOV_BITS: u32 = 0x3F86_0A92;

/// Bit pattern of `0.001`, the default distance of the near plane.
pub const DEFAULT_NEAR_BITS: u32 = 0x3A83_126F;

/// Bit pattern of `1000.0`, the default distance of the far plane.
pub const DEFAULT_FAR_BITS: u32 = 0x447A_0000;

/// A perspective projection and the anchor from which it looks. A camera
/// without an anchor, or with one that the renderer does not hold, shows
/// nothing.
#[derive(Debug, Clone, Copy, PartialEq, Eq, Hash, Structural)]
pub struct Camera {
    pub fov: Scalar,
    pub aspect: Scalar,
    pub near: Scalar,
    pub far: Scalar,
    pub anchor: Option<AnchorId>,
}

impl Camera {
    /// The camera that `default` makes: a field of view of a third of pi, a
    /// square picture, planes at `0.001` and `1000`, and no anchor.
    pub open spec fn spec_default() -> Camera {
        Camera {
            fov: Scalar { bits: DEFAULT_FOV_BITS },
            aspect: Scalar { bits: ONE_BITS },
            near: Scalar { bits: DEFAULT_NEAR_BITS },
            far: Scalar { bits: DEFAULT_FAR_BITS },
            anchor: None,
        }
    }

    /// A camera with the given projection and no anchor.
    pub fn new(fov: Scalar, aspect: Scalar, near: Scalar, far: Scalar) -> (camera: Camera)
        ensures
            camera == (Camera { fov, aspect, near, far, anchor: None }),
    {
        Camera { fov, aspect, near, far, anchor: None }
    }

    /// The anchor from which the camera looks, if it has been given one.
    pub fn anchor(&self) -> (anchor: Option<AnchorId>)
        ensures
            anchor == self.anchor,
    {
        self.anchor
    }

    /// Makes the camera look from `anchor`.
    pub fn set_anchor(&mut self, anchor: AnchorId)
        ensures
            *final(self) == (Camera { anchor: Some(anchor), ..*old(self) }),
    {
        self.anchor = Some(anchor);
    }
}

impl Default for Camera {
    fn default() -> (camera: Camera)
        ensures
            camera == Camera::spec_default(),
    {
        Camera {
            fov: Scalar { bits: DEFAULT_FOV_BITS },
            aspect: Scalar { bits: ONE_BITS },
            near: Scalar { bits: DEFAULT_NEAR_BITS },
            far: Scalar { bits: DEFAULT_FAR_BITS },
            anchor: None,
        }
    }
}

} // verus!
