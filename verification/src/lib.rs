//! Resource registry and frame compiler of a small real-time 3D renderer.
//!
//! Client code registers meshes, textures, anchors, materials, mesh
//! instances, cameras and lights with a [`renderer::Renderer`] and holds only
//! the identifiers it gets back. Once per frame it asks the renderer to
//! `draw`, which compiles what is registered into a [`frame::Frame`]: the
//! eye, the lights, and one draw call for each instance that can be drawn.
//! What such a frame is, for every state of a renderer, is said in
//! [`scene`].

pub mod anchor;
pub mod arena;
pub mod camera;
pub mod context;
pub mod frame;
pub mod light;
pub mod material;
pub mod math;
pub mod mesh;
pub mod mesh_instance;
pub mod renderer;
pub mod scene;
pub mod texture;
