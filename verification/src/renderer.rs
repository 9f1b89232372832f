//! The renderer: the registry of everything that can be drawn, and the
//! compiler of frames.
//!
//! Client code registers resources and gets identifiers back; it never holds
//! a reference into the renderer beyond one call. Lookups by an identifier
//! that names nothing give nothing; they are no error.

use vstd::prelude::*;
use crate::anchor::{Anchor, AnchorId, Transform};
use crate::arena::{lemma_last_live, lemma_views_push, lemma_views_update, live, views, Arena};
use crate::camera::{Camera, CameraId};
use crate::frame::{Binding, BoundValue, DrawCall, DrawCallView, Eye, Frame, FrameLight};
use crate::frame::LightSource;
use crate::light::{Light, LightData, LightId};
use crate::material::{Material, MaterialBuildError, MaterialProperty, MaterialSource};
use crate::material::MaterialView;
use crate::math::Color;
use crate::mesh::{GpuMesh, Mesh, MeshInfo};
use crate::mesh_instance::{MaterialId, MaterialType, MeshInstance, MeshInstanceId};
use crate::scene::{bindings_of, Scene};
use crate::texture::{GpuTexture, Texture2d, TextureInfo};

verus! {

/// Owns every resource of a scene and compiles frames from them.
pub struct Renderer {
    anchors: Arena<Anchor>,
    meshes: Arena<MeshInfo>,
    textures: Arena<TextureInfo>,
    materials: Arena<Material>,
    instances: Arena<MeshInstance>,
    cameras: Arena<Camera>,
    lights: Arena<Light>,
    shaders: Vec<String>,
    ambient: Color,
}

impl View for Renderer {
    type V = Scene;

    closed spec fn view(&self) -> Scene {
        Scene {
            anchors: self.anchors@,
            meshes: self.meshes@,
            textures: self.textures@,
            materials: views(self.materials@),
            instances: views(self.instances@),
            cameras: self.cameras@,
            lights: self.lights@,
            shaders: Seq::new(self.shaders@.len(), |i: int| self.shaders@[i]@),
            ambient: self.ambient,
        }
    }
}

impl Renderer {
    /// A renderer that holds nothing yet. It knows the baseline shader, and
    /// its ambient light is black.
    pub fn new() -> (renderer: Renderer)
        ensures
            renderer@ == Scene::empty(),
    {
        let mut shaders: Vec<String> = Vec::new();
        shaders.push("default".to_owned());
        let renderer = Renderer {
            anchors: Arena::new(),
            meshes: Arena::new(),
            textures: Arena::new(),
            materials: Arena::new(),
            instances: Arena::new(),
            cameras: Arena::new(),
            lights: Arena::new(),
            shaders,
            ambient: Color::rgb(
                crate::math::Scalar::zero(),
                crate::math::Scalar::zero(),
                crate::math::Scalar::zero(),
            ),
        };
        proof {
            assert(renderer@.shaders =~= Scene::empty().shaders);
            assert(renderer@.materials =~= Scene::empty().materials);
            assert(renderer@.instances =~= Scene::empty().instances);
        }
        renderer
    }

    /// The scene of a renderer is always well formed.
    pub proof fn lemma_well_formed(&self)
        ensures
            self@.well_formed(),
    {
        self.anchors.lemma_bounded();
        self.meshes.lemma_bounded();
        self.textures.lemma_bounded();
        self.materials.lemma_bounded();
        self.instances.lemma_bounded();
        self.cameras.lemma_bounded();
        self.lights.lemma_bounded();
    }

    // Anchors

    /// Registers `anchor` and returns the identifier under which it stands
    /// from now on.
    pub fn register_anchor(&mut self, anchor: Anchor) -> (id: AnchorId)
        ensures
            id == old(self)@.next_anchor(),
            final(self)@ == old(self)@.with_anchor(anchor),
    {
        AnchorId(self.anchors.insert(anchor))
    }

    /// Removes the anchor under `id` and hands it back. Whatever refers to
    /// it is not drawn from now on.
    pub fn remove_anchor(&mut self, id: AnchorId) -> (removed: Option<Anchor>)
        ensures
            removed == old(self)@.anchor(id),
            final(self)@ == old(self)@.without_anchor(id),
    {
        self.anchors.remove(id.0)
    }

    /// The anchor under `id`.
    pub fn get_anchor(&self, id: AnchorId) -> (found: Option<&Anchor>)
        ensures
            found == match self@.anchor(id) {
                Some(anchor) => Some(&anchor),
                None => None,
            },
    {
        self.anchors.get(id.0)
    }

    /// Exclusive access to the anchor under `id`. What the caller leaves
    /// behind the reference is the anchor from now on.
    pub fn get_anchor_mut(&mut self, id: AnchorId) -> (found: Option<&mut Anchor>)
        ensures
            match found {
                Some(anchor) => {
                    &&& old(self)@.anchor(id) == Some(*anchor)
                    &&& final(self)@ == (Scene {
                        anchors: old(self)@.anchors.update(id.0 as int, Some(*final(anchor))),
                        ..old(self)@
                    })
                },
                None => old(self)@.anchor(id) is None && final(self)@ == old(self)@,
            },
    {
        self.anchors.get_mut(id.0)
    }

    /// The pose in the world of the anchor under `id`.
    pub fn world_transform(&self, id: AnchorId) -> (pose: Option<Transform>)
        ensures
            pose == self@.world_transform(id),
    {
        match self.anchors.get(id.0) {
            Some(anchor) => Some(Transform::of(*anchor)),
            None => None,
        }
    }

    // Meshes and textures

    /// Registers a mesh whose data is with the GPU, and returns the
    /// identifier under which mesh instances refer to it.
    pub fn register_mesh(&mut self, mesh: &Mesh) -> (id: GpuMesh)
        ensures
            id == old(self)@.next_mesh(),
            final(self)@ == old(self)@.with_mesh(mesh@.info()),
    {
        GpuMesh(self.meshes.insert(mesh.info()))
    }

    /// What is kept of the mesh under `id`.
    pub fn mesh_info(&self, id: GpuMesh) -> (found: Option<MeshInfo>)
        ensures
            found == self@.mesh(id),
    {
        match self.meshes.get(id.0) {
            Some(info) => Some(*info),
            None => None,
        }
    }

    /// Registers a texture whose data is with the GPU, and returns the
    /// identifier under which materials refer to it.
    pub fn register_texture(&mut self, texture: &Texture2d) -> (id: GpuTexture)
        ensures
            id == old(self)@.next_texture(),
            final(self)@ == old(self)@.with_texture(texture@.info()),
    {
        GpuTexture(self.textures.insert(texture.info()))
    }

    /// What is kept of the texture under `id`.
    pub fn texture_info(&self, id: GpuTexture) -> (found: Option<TextureInfo>)
        ensures
            found == self@.texture(id),
    {
        match self.textures.get(id.0) {
            Some(info) => Some(*info),
            None => None,
        }
    }

    // Shaders and materials

    /// Whether materials can be built for the shader called `shader`.
    pub fn knows_shader(&self, shader: &str) -> (known: bool)
        ensures
            known == self@.knows_shader(shader@),
    {
        let wanted = shader.to_owned();
        let mut index: usize = 0;
        while index < self.shaders.len()
            invariant
                index <= self.shaders@.len(),
                wanted@ == shader@,
                forall|i: int| 0 <= i < index ==> self@.shaders[i] != shader@,
            decreases self.shaders@.len() - index,
        {
            if self.shaders[index] == wanted {
                assert(self@.shaders[index as int] == shader@);
                return true;
            }
            index += 1;
        }
        false
    }

    /// Makes the shader called `shader` known, so that materials can be
    /// built for it. The result says whether it was new.
    pub fn register_shader(&mut self, shader: &str) -> (added: bool)
        ensures
            added == !old(self)@.knows_shader(shader@),
            final(self)@ == old(self)@.with_shader(shader@),
    {
        if self.knows_shader(shader) {
            false
        } else {
            self.shaders.push(shader.to_owned());
            assert(self@.shaders =~= old(self)@.shaders.push(shader@));
            true
        }
    }

    /// A material for the baseline shader, every slot at its default.
    pub fn default_material(&self) -> (material: Material)
        ensures
            material@ == MaterialView::baseline(),
    {
        Material::baseline()
    }

    /// Builds the material that `source` describes, every slot at its
    /// default. Fails where the renderer does not know the shader, and
    /// otherwise where a declaration has no name or repeats an earlier one.
    pub fn build_material(&self, source: MaterialSource) -> (built: Result<
        Material,
        MaterialBuildError,
    >)
        ensures
            match built {
                Ok(material) => self@.build_fault(source@) is None && material@
                    == MaterialView::fresh(source@),
                Err(error) => self@.build_fault(source@) == Some(error),
            },
    {
        if !self.knows_shader(source.shader.as_str()) {
            return Err(MaterialBuildError::UnknownShader);
        }
        Material::from_source(&source)
    }

    /// Registers `material` for mesh instances to share.
    pub fn register_material(&mut self, material: Material) -> (id: MaterialId)
        ensures
            id == old(self)@.next_material(),
            final(self)@ == old(self)@.with_material(material@),
    {
        proof {
            lemma_views_push(self.materials@, material);
        }
        MaterialId(self.materials.insert(material))
    }

    /// Removes the shared material under `id` and hands it back. Instances
    /// that use it are not drawn from now on.
    pub fn remove_material(&mut self, id: MaterialId) -> (removed: Option<Material>)
        ensures
            match removed {
                Some(material) => old(self)@.material(id) == Some(material@),
                None => old(self)@.material(id) is None,
            },
            final(self)@ == old(self)@.without_material(id),
    {
        proof {
            if live(self.materials@, id.0 as int) {
                lemma_views_update(self.materials@, id.0 as int, None);
            }
        }
        self.materials.remove(id.0)
    }

    /// The shared material under `id`.
    pub fn get_material(&self, id: MaterialId) -> (found: Option<&Material>)
        ensures
            match found {
                Some(material) => self@.material(id) == Some(material@),
                None => self@.material(id) is None,
            },
    {
        self.materials.get(id.0)
    }

    /// Exclusive access to the shared material under `id`. What the caller
    /// leaves behind the reference is the material from now on.
    pub fn get_material_mut(&mut self, id: MaterialId) -> (found: Option<&mut Material>)
        ensures
            match found {
                Some(material) => {
                    &&& old(self)@.material(id) == Some(material@)
                    &&& final(self)@ == (Scene {
                        materials: old(self)@.materials.update(
                            id.0 as int,
                            Some(final(material)@),
                        ),
                        ..old(self)@
                    })
                },
                None => old(self)@.material(id) is None && final(self)@ == old(self)@,
            },
    {
        match self.materials.get_mut(id.0) {
            Some(material) => {
                proof {
                    lemma_views_update(old(self).materials@, id.0 as int, Some(*final(material)));
                }
                Some(material)
            },
            None => None,
        }
    }

    // Mesh instances

    /// Registers `instance` and returns the identifier under which it is
    /// drawn from now on.
    pub fn register_mesh_instance(&mut self, instance: MeshInstance) -> (id: MeshInstanceId)
        ensures
            id == old(self)@.next_instance(),
            final(self)@ == old(self)@.with_instance(instance@),
    {
        proof {
            lemma_views_push(self.instances@, instance);
        }
        MeshInstanceId(self.instances.insert(instance))
    }

    /// Removes the mesh instance under `id` and hands it back, whole, with
    /// its own material if it has one. It is not drawn from now on, and can
    /// be registered again.
    pub fn remove_mesh_instance(&mut self, id: MeshInstanceId) -> (removed: Option<MeshInstance>)
        ensures
            match removed {
                Some(instance) => old(self)@.instance(id) == Some(instance@),
                None => old(self)@.instance(id) is None,
            },
            final(self)@ == old(self)@.without_instance(id),
    {
        proof {
            if live(self.instances@, id.0 as int) {
                lemma_views_update(self.instances@, id.0 as int, None);
            }
        }
        self.instances.remove(id.0)
    }

    /// The mesh instance under `id`.
    pub fn get_mesh_instance(&self, id: MeshInstanceId) -> (found: Option<&MeshInstance>)
        ensures
            match found {
                Some(instance) => self@.instance(id) == Some(instance@),
                None => self@.instance(id) is None,
            },
    {
        self.instances.get(id.0)
    }

    /// Exclusive access to the mesh instance under `id`. What the caller
    /// leaves behind the reference is the instance from now on.
    pub fn get_mesh_instance_mut(&mut self, id: MeshInstanceId) -> (found: Option<
        &mut MeshInstance,
    >)
        ensures
            match found {
                Some(instance) => {
                    &&& old(self)@.instance(id) == Some(instance@)
                    &&& final(self)@ == (Scene {
                        instances: old(self)@.instances.update(
                            id.0 as int,
                            Some(final(instance)@),
                        ),
                        ..old(self)@
                    })
                },
                None => old(self)@.instance(id) is None && final(self)@ == old(self)@,
            },
    {
        match self.instances.get_mut(id.0) {
            Some(instance) => {
                proof {
                    lemma_views_update(old(self).instances@, id.0 as int, Some(*final(instance)));
                }
                Some(instance)
            },
            None => None,
        }
    }

    // Cameras and lights

    /// Registers `camera`. Of the cameras that are registered, the one
    /// registered last is the one that frames are seen through.
    pub fn register_camera(&mut self, camera: Camera) -> (id: CameraId)
        ensures
            id == old(self)@.next_camera(),
            final(self)@ == old(self)@.with_camera(camera),
    {
        CameraId(self.cameras.insert(camera))
    }

    /// Removes the camera under `id` and hands it back.
    pub fn remove_camera(&mut self, id: CameraId) -> (removed: Option<Camera>)
        ensures
            removed == old(self)@.camera(id),
            final(self)@ == old(self)@.without_camera(id),
    {
        self.cameras.remove(id.0)
    }

    /// The camera under `id`.
    pub fn get_camera(&self, id: CameraId) -> (found: Option<&Camera>)
        ensures
            found == match self@.camera(id) {
                Some(camera) => Some(&camera),
                None => None,
            },
    {
        self.cameras.get(id.0)
    }

    /// Exclusive access to the camera under `id`.
    pub fn get_camera_mut(&mut self, id: CameraId) -> (found: Option<&mut Camera>)
        ensures
            match found {
                Some(camera) => {
                    &&& old(self)@.camera(id) == Some(*camera)
                    &&& final(self)@ == (Scene {
                        cameras: old(self)@.cameras.update(id.0 as int, Some(*final(camera))),
                        ..old(self)@
                    })
                },
                None => old(self)@.camera(id) is None && final(self)@ == old(self)@,
            },
    {
        self.cameras.get_mut(id.0)
    }

    /// The camera that frames are seen through.
    pub fn active_camera(&self) -> (active: Option<CameraId>)
        ensures
            active == self@.active_camera(),
    {
        match self.cameras.last() {
            Some(id) => Some(CameraId(id)),
            None => None,
        }
    }

    /// Registers `light`. Every registered light lights every frame.
    pub fn register_light(&mut self, light: Light) -> (id: LightId)
        ensures
            id == old(self)@.next_light(),
            final(self)@ == old(self)@.with_light(light),
    {
        LightId(self.lights.insert(light))
    }

    /// Removes the light under `id` and hands it back.
    pub fn remove_light(&mut self, id: LightId) -> (removed: Option<Light>)
        ensures
            removed == old(self)@.light(id),
            final(self)@ == old(self)@.without_light(id),
    {
        self.lights.remove(id.0)
    }

    /// The light under `id`.
    pub fn get_light(&self, id: LightId) -> (found: Option<&Light>)
        ensures
            found == match self@.light(id) {
                Some(light) => Some(&light),
                None => None,
            },
    {
        self.lights.get(id.0)
    }

    /// Exclusive access to the light under `id`.
    pub fn get_light_mut(&mut self, id: LightId) -> (found: Option<&mut Light>)
        ensures
            match found {
                Some(light) => {
                    &&& old(self)@.light(id) == Some(*light)
                    &&& final(self)@ == (Scene {
                        lights: old(self)@.lights.update(id.0 as int, Some(*final(light))),
                        ..old(self)@
                    })
                },
                None => old(self)@.light(id) is None && final(self)@ == old(self)@,
            },
    {
        self.lights.get_mut(id.0)
    }

    // Frames

    /// The pose that a reference to an anchor resolves to.
    fn resolve(&self, anchor: Option<AnchorId>) -> (pose: Option<Transform>)
        ensures
            pose == self@.resolve(anchor),
    {
        match anchor {
            Some(id) => self.world_transform(id),
            None => None,
        }
    }

    /// The eye of the next frame: the active camera and the pose of its
    /// anchor, or nothing where there is no camera or its anchor does not
    /// resolve.
    pub fn eye(&self) -> (eye: Option<Eye>)
        ensures
            eye == self@.eye(),
    {
        match self.cameras.last() {
            Some(id) => {
                proof {
                    lemma_last_live(self.cameras@);
                }
                match self.cameras.get(id) {
                    Some(camera) => match self.resolve(camera.anchor) {
                        Some(pose) => Some(
                            Eye { camera: CameraId(id), projection: *camera, pose },
                        ),
                        None => None,
                    },
                    None => None,
                }
            },
            None => None,
        }
    }

    /// The light under `id` as the next frame sees it, or nothing where it
    /// takes no part in the frame.
    pub fn frame_light(&self, id: LightId) -> (seen: Option<FrameLight>)
        ensures
            seen == self@.frame_light(id.0 as int),
    {
        match self.lights.get(id.0) {
            Some(light) => match light.data {
                LightData::Directional { direction } => Some(
                    FrameLight {
                        light: id,
                        source: LightSource::Directional { direction },
                        color: light.color,
                        strength: light.strength,
                    },
                ),
                LightData::Point { radius } => match self.resolve(light.anchor) {
                    Some(pose) => Some(
                        FrameLight {
                            light: id,
                            source: LightSource::Point { position: pose.translation, radius },
                            color: light.color,
                            strength: light.strength,
                        },
                    ),
                    None => None,
                },
            },
            None => None,
        }
    }

    /// What each slot of `material` is bound to when drawn by this renderer.
    pub fn bindings(&self, material: &Material) -> (bindings: Vec<Binding>)
        ensures
            Seq::new(bindings@.len(), |i: int| bindings@[i]@) == bindings_of(
                self@.textures,
                material@,
            ),
    {
        let count = material.slot_count();
        let mut bindings: Vec<Binding> = Vec::new();
        let mut index: usize = 0;
        while index < count
            invariant
                index <= count,
                count == material@.slots.len(),
                bindings@.len() == index,
                forall|i: int|
                    0 <= i < index ==> (#[trigger] bindings@[i])@ == bindings_of(
                        self@.textures,
                        material@,
                    )[i],
            decreases count - index,
        {
            let value = match material.slot_value(index) {
                None => BoundValue::Default,
                Some(MaterialProperty::Color(color)) => BoundValue::Color(color),
                Some(MaterialProperty::F32(value)) => BoundValue::F32(value),
                Some(MaterialProperty::Texture(texture)) => if self.textures.contains(texture.0) {
                    BoundValue::Texture(texture)
                } else {
                    BoundValue::Default
                },
            };
            bindings.push(Binding { name: material.slot_name(index).to_owned(), value });
            index += 1;
        }
        assert(Seq::new(bindings@.len(), |i: int| bindings@[i]@) =~= bindings_of(
            self@.textures,
            material@,
        ));
        bindings
    }

    /// The draw call for the mesh instance under `id`, or nothing where the
    /// instance is not drawn: because there is none, because its anchor, its
    /// mesh or its shared material does not resolve, or because its material
    /// is made for a shader that the renderer does not know.
    pub fn draw_call(&self, id: MeshInstanceId) -> (call: Option<DrawCall>)
        ensures
            match call {
                Some(call) => self@.draw_call(id.0 as int) == Some(call@),
                None => self@.draw_call(id.0 as int) is None,
            },
    {
        let instance = match self.instances.get(id.0) {
            Some(instance) => instance,
            None => {
                return None;
            },
        };
        let world = match self.resolve(instance.anchor()) {
            Some(world) => world,
            None => {
                return None;
            },
        };
        let mesh = match self.meshes.get(instance.mesh().0) {
            Some(mesh) => mesh,
            None => {
                return None;
            },
        };
        let material = match instance.material() {
            MaterialType::Owned(material) => material,
            MaterialType::Shared(shared) => match self.materials.get(shared.0) {
                Some(material) => material,
                None => {
                    return None;
                },
            },
        };
        if !self.knows_shader(material.shader()) {
            return None;
        }
        Some(
            DrawCall {
                instance: id,
                mesh: instance.mesh(),
                index_count: mesh.index_count,
                world,
                shader: material.shader().to_owned(),
                bindings: self.bindings(material),
            },
        )
    }

    /// Compiles the next frame. In this order: finds the eye; resolves the
    /// lights; and, where there is an eye, goes through the mesh instances in
    /// the order of their registration and makes a draw call for each that
    /// can be drawn. An instance that can not be drawn is passed over; a
    /// missing eye leaves the frame without geometry. Nothing is changed.
    pub fn draw(&self) -> (frame: Frame)
        ensures
            frame@ == self@.frame(),
    {
        let eye = self.eye();
        let mut lights: Vec<FrameLight> = Vec::new();
        let light_count = self.lights.issued();
        let mut light: usize = 0;
        while light < light_count
            invariant
                light <= light_count,
                light_count == self@.lights.len(),
                lights@ == self@.frame_lights_below(light as nat),
            decreases light_count - light,
        {
            if let Some(seen) = self.frame_light(LightId(light)) {
                lights.push(seen);
            }
            light += 1;
        }
        let mut draws: Vec<DrawCall> = Vec::new();
        if eye.is_some() {
            let instance_count = self.instances.issued();
            let mut instance: usize = 0;
            while instance < instance_count
                invariant
                    instance <= instance_count,
                    instance_count == self@.instances.len(),
                    Seq::new(draws@.len(), |i: int| draws@[i]@) == self@.draw_calls_below(
                        instance as nat,
                    ),
                decreases instance_count - instance,
            {
                let ghost before = Seq::new(draws@.len(), |i: int| draws@[i]@);
                if let Some(call) = self.draw_call(MeshInstanceId(instance)) {
                    draws.push(call);
                    assert(Seq::new(draws@.len(), |i: int| draws@[i]@) =~= before.push(call@));
                }
                instance += 1;
            }
        } else {
            assert(Seq::new(draws@.len(), |i: int| draws@[i]@) =~= Seq::<DrawCallView>::empty());
        }
        Frame { eye, ambient: self.ambient, lights, draws }
    }

    /// The light that falls on everything from everywhere.
    pub fn ambient_light(&self) -> (ambient: Color)
        ensures
            ambient == self@.ambient,
    {
        self.ambient
    }

    /// Sets the light that falls on everything from everywhere.
    pub fn set_ambient_light(&mut self, ambient: Color)
        ensures
            final(self)@ == (Scene { ambient, ..old(self)@ }),
    {
        self.ambient = ambient;
    }
}

} // verus!
