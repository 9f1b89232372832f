//! Meshes in memory, and the identifier of a mesh handed to the GPU.

use vstd::prelude::*;
use vstd::slice::slice_to_vec;
use crate::math::{Point, Vector2, Vector3};

verus! {

/// Represents mesh data that has been sent to the GPU.
#[derive(Debug, Clone, Copy, PartialEq, Eq, Hash, Structural)]
pub struct GpuMesh(pub usize);

/// A per-vertex attribute that a mesh may carry besides its positions.
#[derive(Debug, Clone, Copy, PartialEq, Eq, Hash, Structural)]
pub enum VertexAttribute {
    Normal,
    Texcoord,
}

/// Why a mesh could not be built.
#[derive(Debug, Clone, Copy, PartialEq, Eq, Hash, Structural)]
pub enum BuildMeshError {
    /// An attribute is given, but not once for every vertex.
    IncorrectAttributeCount { attribute: VertexAttribute, expected: usize, actual: usize },
    /// There is no index, so there is nothing to draw.
    EmptyIndices,
}

/// What a mesh is: one position per vertex, each optional attribute either
/// absent or given once per vertex, and the indices that pick the vertices
/// of its triangles.
pub struct MeshView {
    pub positions: Seq<Point>,
    pub normals: Seq<Vector3>,
    pub texcoords: Seq<Vector2>,
    pub indices: Seq<u32>,
}

/// What the renderer keeps of a mesh once its data is with the GPU.
#[derive(Debug, Clone, Copy, PartialEq, Eq, Hash, Structural)]
pub struct MeshInfo {
    pub vertex_count: usize,
    pub index_count: usize,
    pub has_normals: bool,
    pub has_texcoords: bool,
}

impl MeshView {
    /// What the renderer keeps of this mesh.
    pub open spec fn info(self) -> MeshInfo {
        MeshInfo {
            vertex_count: self.positions.len() as usize,
            index_count: self.indices.len() as usize,
            has_normals: self.normals.len() > 0,
            has_texcoords: self.texcoords.len() > 0,
        }
    }

    /// The attributes agree with the positions in number, and there is
    /// something to draw.
    pub open spec fn well_formed(self) -> bool {
        &&& self.normals.len() == 0 || self.normals.len() == self.positions.len()
        &&& self.texcoords.len() == 0 || self.texcoords.len() == self.positions.len()
        &&& self.indices.len() > 0
    }
}

/// The first fault of the given mesh data, in the order in which the
/// builder looks for them: normals, texture coordinates, indices.
pub open spec fn mesh_fault(data: MeshView) -> Option<BuildMeshError> {
    if data.normals.len() != 0 && data.normals.len() != data.positions.len() {
        Some(
            BuildMeshError::IncorrectAttributeCount {
                attribute: VertexAttribute::Normal,
                expected: data.positions.len() as usize,
                actual: data.normals.len() as usize,
            },
        )
    } else if data.texcoords.len() != 0 && data.texcoords.len() != data.positions.len() {
        Some(
            BuildMeshError::IncorrectAttributeCount {
                attribute: VertexAttribute::Texcoord,
                expected: data.positions.len() as usize,
                actual: data.texcoords.len() as usize,
            },
        )
    } else if data.indices.len() == 0 {
        Some(BuildMeshError::EmptyIndices)
    } else {
        None
    }
}

/// A mesh ready to be handed to the GPU. Every value of the type is well
/// formed in the sense of [`MeshView::well_formed`].
#[derive(Debug)]
pub struct Mesh {
    positions: Vec<Point>,
    normals: Vec<Vector3>,
    texcoords: Vec<Vector2>,
    indices: Vec<u32>,
}

impl View for Mesh {
    type V = MeshView;

    closed spec fn view(&self) -> MeshView {
        MeshView {
            positions: self.positions@,
            normals: self.normals@,
            texcoords: self.texcoords@,
            indices: self.indices@,
        }
    }
}

impl Mesh {
    #[verifier::type_invariant]
    spec fn inv(self) -> bool {
        self@.well_formed()
    }

    /// What the renderer keeps of this mesh.
    pub fn info(&self) -> (info: MeshInfo)
        ensures
            info == self@.info(),
            info.index_count > 0,
    {
        proof {
            use_type_invariant(self);
        }
        MeshInfo {
            vertex_count: self.positions.len(),
            index_count: self.indices.len(),
            has_normals: self.normals.len() > 0,
            has_texcoords: self.texcoords.len() > 0,
        }
    }

    /// The position of every vertex.
    pub fn positions(&self) -> (positions: &Vec<Point>)
        ensures
            positions@ == self@.positions,
    {
        &self.positions
    }

    /// The normal of every vertex, or nothing where the mesh has no normals.
    pub fn normals(&self) -> (normals: &Vec<Vector3>)
        ensures
            normals@ == self@.normals,
    {
        &self.normals
    }

    /// The texture coordinate of every vertex, or nothing where the mesh has
    /// none.
    pub fn texcoords(&self) -> (texcoords: &Vec<Vector2>)
        ensures
            texcoords@ == self@.texcoords,
    {
        &self.texcoords
    }

    /// The indices of the mesh; there is at least one.
    pub fn indices(&self) -> (indices: &Vec<u32>)
        ensures
            indices@ == self@.indices,
            self@.well_formed(),
    {
        proof {
            use_type_invariant(self);
        }
        &self.indices
    }
}

/// Collects the data of a mesh and checks it on `build`.
#[derive(Debug, Clone)]
pub struct MeshBuilder {
    positions: Vec<Point>,
    normals: Vec<Vector3>,
    texcoords: Vec<Vector2>,
    indices: Vec<u32>,
}

impl View for MeshBuilder {
    type V = MeshView;

    closed spec fn view(&self) -> MeshView {
        MeshView {
            positions: self.positions@,
            normals: self.normals@,
            texcoords: self.texcoords@,
            indices: self.indices@,
        }
    }
}

impl MeshBuilder {
    /// A builder that holds no data yet.
    pub fn new() -> (builder: MeshBuilder)
        ensures
            builder@ == (MeshView {
                positions: Seq::empty(),
                normals: Seq::empty(),
                texcoords: Seq::empty(),
                indices: Seq::empty(),
            }),
    {
        MeshBuilder {
            positions: Vec::new(),
            normals: Vec::new(),
            texcoords: Vec::new(),
            indices: Vec::new(),
        }
    }

    /// Replaces the positions.
    pub fn set_position_data(self, positions: &[Point]) -> (builder: MeshBuilder)
        ensures
            builder@ == (MeshView { positions: positions@, ..self@ }),
    {
        MeshBuilder {
            positions: slice_to_vec(positions),
            normals: self.normals,
            texcoords: self.texcoords,
            indices: self.indices,
        }
    }

    /// Replaces the normals.
    pub fn set_normal_data(self, normals: &[Vector3]) -> (builder: MeshBuilder)
        ensures
            builder@ == (MeshView { normals: normals@, ..self@ }),
    {
        MeshBuilder {
            positions: self.positions,
            normals: slice_to_vec(normals),
            texcoords: self.texcoords,
            indices: self.indices,
        }
    }

    /// Replaces the texture coordinates.
    pub fn set_texcoord_data(self, texcoords: &[Vector2]) -> (builder: MeshBuilder)
        ensures
            builder@ == (MeshView { texcoords: texcoords@, ..self@ }),
    {
        MeshBuilder {
            positions: self.positions,
            normals: self.normals,
            texcoords: slice_to_vec(texcoords),
            indices: self.indices,
        }
    }

    /// Replaces the indices.
    pub fn set_indices(self, indices: &[u32]) -> (builder: MeshBuilder)
        ensures
            builder@ == (MeshView { indices: indices@, ..self@ }),
    {
        MeshBuilder {
            positions: self.positions,
            normals: self.normals,
            texcoords: self.texcoords,
            indices: slice_to_vec(indices),
        }
    }

    /// The mesh made of the collected data, or the first fault found in it.
    pub fn build(self) -> (built: Result<Mesh, BuildMeshError>)
        ensures
            match built {
                Ok(mesh) => mesh_fault(self@) is None && mesh@ == self@,
                Err(error) => mesh_fault(self@) == Some(error),
            },
    {
        let vertices = self.positions.len();
        let normals = self.normals.len();
        let texcoords = self.texcoords.len();
        if normals != 0 && normals != vertices {
            return Err(
                BuildMeshError::IncorrectAttributeCount {
                    attribute: VertexAttribute::Normal,
                    expected: vertices,
                    actual: normals,
                },
            );
        }
        if texcoords != 0 && texcoords != vertices {
            return Err(
                BuildMeshError::IncorrectAttributeCount {
                    attribute: VertexAttribute::Texcoord,
                    expected: vertices,
                    actual: texcoords,
                },
            );
        }
        if self.indices.len() == 0 {
            return Err(BuildMeshError::EmptyIndices);
        }
        Ok(
            Mesh {
                positions: self.positions,
                normals: self.normals,
                texcoords: self.texcoords,
                indices: self.indices,
            },
        )
    }
}

} // verus!
