//! Mesh instances: one drawable occurrence of a mesh in the scene.

use vstd::prelude::*;
use crate::anchor::AnchorId;
use crate::material::{Material, MaterialView};
use crate::mesh::GpuMesh;

verus! {

/// Identifies a mesh instance held by the renderer.
#[derive(Debug, Clone, Copy, PartialEq, Eq, Hash, Structural)]
pub struct MeshInstanceId(pub usize);

/// Identifies a material that the renderer holds for several mesh instances
/// to share.
#[derive(Debug, Clone, Copy, PartialEq, Eq, Hash, Structural)]
pub struct MaterialId(pub usize);

/// The material of a mesh instance: one of its own, which moves with it, or
/// one that the renderer holds and others may use too.
#[derive(Debug, Clone, PartialEq, Eq)]
pub enum MaterialType {
    Owned(Material),
    Shared(MaterialId),
}

/// What the material of a mesh instance is.
pub enum MaterialTypeView {
    Owned(MaterialView),
    Shared(MaterialId),
}

impl View for MaterialType {
    type V = MaterialTypeView;

    open spec fn view(&self) -> MaterialTypeView {
        match self {
            MaterialType::Owned(material) => MaterialTypeView::Owned(material@),
            MaterialType::Shared(id) => MaterialTypeView::Shared(*id),
        }
    }
}

/// What a mesh instance is: a mesh, a material, and the anchor that places
/// it, once it has been given one.
pub struct MeshInstanceView {
    pub mesh: GpuMesh,
    pub material: MaterialTypeView,
    pub anchor: Option<AnchorId>,
}

/// One drawable occurrence of a mesh: the mesh, the material to draw it
/// with, and the anchor that places it in the world.
#[derive(Debug, Clone, PartialEq, Eq)]
pub struct MeshInstance {
    mesh: GpuMesh,
    material: MaterialType,
    anchor: Option<AnchorId>,
}

impl View for MeshInstance {
    type V = MeshInstanceView;

    closed spec fn view(&self) -> MeshInstanceView {
        MeshInstanceView { mesh: self.mesh, material: self.material@, anchor: self.anchor }
    }
}

impl MeshInstance {
    /// An instance of `mesh` with a material of its own and no anchor yet.
    pub fn with_owned_material(mesh: GpuMesh, material: Material) -> (instance: MeshInstance)
        ensures
            instance@ == (MeshInstanceView {
                mesh,
                material: MaterialTypeView::Owned(material@),
                anchor: None,
            }),
    {
        MeshInstance { mesh, material: MaterialType::Owned(material), anchor: None }
    }

    /// An instance of `mesh` that uses a material held by the renderer, with
    /// no anchor yet.
    pub fn with_shared_material(mesh: GpuMesh, material: MaterialId) -> (instance: MeshInstance)
        ensures
            instance@ == (MeshInstanceView {
                mesh,
                material: MaterialTypeView::Shared(material),
                anchor: None,
            }),
    {
        MeshInstance { mesh, material: MaterialType::Shared(material), anchor: None }
    }

    /// The mesh that the instance draws.
    pub fn mesh(&self) -> (mesh: GpuMesh)
        ensures
            mesh == self@.mesh,
    {
        self.mesh
    }

    /// Makes the instance draw `mesh`.
    pub fn set_mesh(&mut self, mesh: GpuMesh)
        ensures
            final(self)@ == (MeshInstanceView { mesh, ..old(self)@ }),
    {
        self.mesh = mesh;
    }

    /// The anchor that places the instance, if it has been given one.
    pub fn anchor(&self) -> (anchor: Option<AnchorId>)
        ensures
            anchor == self@.anchor,
    {
        self.anchor
    }

    /// Places the instance at `anchor`.
    pub fn set_anchor(&mut self, anchor: AnchorId)
        ensures
            final(self)@ == (MeshInstanceView { anchor: Some(anchor), ..old(self)@ }),
    {
        self.anchor = Some(anchor);
    }

    /// The material of the instance.
    pub fn material(&self) -> (material: &MaterialType)
        ensures
            material@ == self@.material,
    {
        &self.material
    }

    /// Exclusive access to the instance's own material; nothing where the
    /// material is a shared one. What the caller leaves behind the reference
    /// is the instance's material afterwards.
    pub fn material_mut(&mut self) -> (material: Option<&mut Material>)
        ensures
            match material {
                Some(material) => {
                    &&& old(self)@.material == MaterialTypeView::Owned(material@)
                    &&& final(self)@ == (MeshInstanceView {
                        material: MaterialTypeView::Owned(final(material)@),
                        ..old(self)@
                    })
                },
                None => old(self)@.material is Shared && final(self)@ == old(self)@,
            },
    {
        match &mut self.material {
            MaterialType::Owned(material) => Some(material),
            MaterialType::Shared(_) => None,
        }
    }
}

} // verus!
