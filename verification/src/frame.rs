//! What a frame is made of: the eye, the lights, and one draw call for each
//! instance that can be drawn.
//!
//! A frame holds poses, not matrices. Whoever issues the draw calls turns
//! each pose into the matrix `T * R * S`, takes the inverse of the eye's for
//! the view matrix, and multiplies `Projection * View * World` for each call.

use vstd::prelude::*;
use crate::anchor::Transform;
use crate::camera::{Camera, CameraId};
use crate::light::LightId;
use crate::math::{Color, Point, Scalar, Vector3};
use crate::mesh::GpuMesh;
use crate::mesh_instance::MeshInstanceId;
use crate::texture::GpuTexture;

verus! {

/// The camera that a frame is seen through, and where it stands.
#[derive(Debug, Clone, Copy, PartialEq, Eq, Hash, Structural)]
pub struct Eye {
    pub camera: CameraId,
    pub projection: Camera,
    pub pose: Transform,
}

/// Where the light of a light comes from.
#[derive(Debug, Clone, Copy, PartialEq, Eq, Hash, Structural)]
pub enum LightSource {
    Directional { direction: Vector3 },
    Point { position: Point, radius: Scalar },
}

/// A light as a frame sees it, with its place resolved.
#[derive(Debug, Clone, Copy, PartialEq, Eq, Hash, Structural)]
pub struct FrameLight {
    pub light: LightId,
    pub source: LightSource,
    pub color: Color,
    pub strength: Scalar,
}

/// What one input of a shader is bound to for one draw call.
#[derive(Debug, Clone, Copy, PartialEq, Eq, Hash, Structural)]
pub enum BoundValue {
    Color(Color),
    F32(Scalar),
    Texture(GpuTexture),
    /// The input is left to the shader: the material does not override it,
    /// or it overrides it with a texture that the renderer does not hold.
    Default,
}

/// One input of a shader and what it is bound to.
#[derive(Debug, Clone, PartialEq, Eq)]
pub struct Binding {
    pub name: String,
    pub value: BoundValue,
}

/// One input of a shader and what it is bound to.
pub struct BindingView {
    pub name: Seq<char>,
    pub value: BoundValue,
}

impl View for Binding {
    type V = BindingView;

    open spec fn view(&self) -> BindingView {
        BindingView { name: self.name@, value: self.value }
    }
}

/// Everything that drawing one mesh instance takes.
#[derive(Debug, Clone, PartialEq, Eq)]
pub struct DrawCall {
    pub instance: MeshInstanceId,
    pub mesh: GpuMesh,
    /// How many indices of the mesh to draw, from its first.
    pub index_count: usize,
    /// The pose of the instance in the world.
    pub world: Transform,
    pub shader: String,
    /// One binding for each input of the shader, in the order in which the
    /// shader declares them.
    pub bindings: Vec<Binding>,
}

/// Everything that drawing one mesh instance takes.
pub struct DrawCallView {
    pub instance: MeshInstanceId,
    pub mesh: GpuMesh,
    pub index_count: usize,
    pub world: Transform,
    pub shader: Seq<char>,
    pub bindings: Seq<BindingView>,
}

impl View for DrawCall {
    type V = DrawCallView;

    open spec fn view(&self) -> DrawCallView {
        DrawCallView {
            instance: self.instance,
            mesh: self.mesh,
            index_count: self.index_count,
            world: self.world,
            shader: self.shader@,
            bindings: Seq::new(self.bindings@.len(), |i: int| self.bindings@[i]@),
        }
    }
}

/// One frame: what to draw, seen from where, in which light. Without an
/// eye there is nothing to draw, and the frame is only cleared and shown.
#[derive(Debug, Clone, PartialEq, Eq)]
pub struct Frame {
    pub eye: Option<Eye>,
    pub ambient: Color,
    pub lights: Vec<FrameLight>,
    pub draws: Vec<DrawCall>,
}

/// One frame.
pub struct FrameView {
    pub eye: Option<Eye>,
    pub ambient: Color,
    pub lights: Seq<FrameLight>,
    pub draws: Seq<DrawCallView>,
}

impl View for Frame {
    type V = FrameView;

    open spec fn view(&self) -> FrameView {
        FrameView {
            eye: self.eye,
            ambient: self.ambient,
            lights: self.lights@,
            draws: Seq::new(self.draws@.len(), |i: int| self.draws@[i]@),
        }
    }
}

} // verus!
