//! The state of a renderer as mathematics, and what a frame of it is.
//!
//! Everything here is ghost code. A [`Scene`] says what a renderer holds;
//! its functions say what each operation of the renderer does to it and which
//! frame it gives. The laws at the end are proved of these functions, and so
//! hold of every renderer.

use vstd::prelude::*;
use crate::anchor::{Anchor, AnchorId, Transform};
use crate::arena::{gather, last_live, lemma_gather_agrees, lemma_gather_sources, live, lookup};
use crate::arena::{release, yields};
use crate::camera::{Camera, CameraId};
use crate::frame::{BindingView, BoundValue, DrawCallView, Eye, FrameLight, FrameView, LightSource};
use crate::light::{Light, LightData, LightId};
use crate::material::{MaterialBuildError, MaterialProperty, MaterialView, SlotView, SourceView};
use crate::material::source_fault;
use crate::math::Color;
use crate::mesh::MeshInfo;
use crate::mesh_instance::{MaterialId, MaterialTypeView, MeshInstanceId, MeshInstanceView};
use crate::texture::{GpuTexture, TextureInfo};

verus! {

/// What a renderer holds. Each sequence has one entry per identifier issued
/// so far for its kind of resource: what is registered under the identifier,
/// or nothing once it has been removed.
pub struct Scene {
    pub anchors: Seq<Option<Anchor>>,
    pub meshes: Seq<Option<MeshInfo>>,
    pub textures: Seq<Option<TextureInfo>>,
    pub materials: Seq<Option<MaterialView>>,
    pub instances: Seq<Option<MeshInstanceView>>,
    pub cameras: Seq<Option<Camera>>,
    pub lights: Seq<Option<Light>>,
    /// The identifiers of the shaders that materials can be built for.
    pub shaders: Seq<Seq<char>>,
    pub ambient: Color,
}

/// What a slot of a material is bound to when the textures are `textures`.
/// An override with a texture that is not among them binds the default.
pub open spec fn bound_value(textures: Seq<Option<TextureInfo>>, slot: SlotView) -> BoundValue {
    match slot.value {
        None => BoundValue::Default,
        Some(MaterialProperty::Color(color)) => BoundValue::Color(color),
        Some(MaterialProperty::F32(value)) => BoundValue::F32(value),
        Some(MaterialProperty::Texture(texture)) => if live(textures, texture.0 as int) {
            BoundValue::Texture(texture)
        } else {
            BoundValue::Default
        },
    }
}

/// The bindings of a material when the textures are `textures`: one for
/// each slot, in the order of the slots.
pub open spec fn bindings_of(textures: Seq<Option<TextureInfo>>, material: MaterialView) -> Seq<
    BindingView,
> {
    Seq::new(
        material.slots.len(),
        |i: int|
            BindingView {
                name: material.slots[i].name,
                value: bound_value(textures, material.slots[i]),
            },
    )
}

impl Scene {
    /// The scene of a renderer that was just made: nothing is registered,
    /// only the baseline shader is known, and the ambient light is black.
    pub open spec fn empty() -> Scene {
        Scene {
            anchors: Seq::empty(),
            meshes: Seq::empty(),
            textures: Seq::empty(),
            materials: Seq::empty(),
            instances: Seq::empty(),
            cameras: Seq::empty(),
            lights: Seq::empty(),
            shaders: seq!["default"@],
            ambient: Color {
                r: crate::math::Scalar::zero(),
                g: crate::math::Scalar::zero(),
                b: crate::math::Scalar::zero(),
                a: crate::math::Scalar::one(),
            },
        }
    }

    /// Every identifier issued so far fits the type of an identifier. This
    /// holds of the scene of every renderer.
    pub open spec fn well_formed(self) -> bool {
        &&& self.anchors.len() <= usize::MAX
        &&& self.meshes.len() <= usize::MAX
        &&& self.textures.len() <= usize::MAX
        &&& self.materials.len() <= usize::MAX
        &&& self.instances.len() <= usize::MAX
        &&& self.cameras.len() <= usize::MAX
        &&& self.lights.len() <= usize::MAX
    }

    // Anchors

    /// The anchor registered under `id`.
    pub open spec fn anchor(self, id: AnchorId) -> Option<Anchor> {
        lookup(self.anchors, id.0 as int)
    }

    /// The identifier that the next anchor will get.
    pub open spec fn next_anchor(self) -> AnchorId {
        AnchorId(self.anchors.len() as usize)
    }

    /// The scene after `anchor` was registered.
    pub open spec fn with_anchor(self, anchor: Anchor) -> Scene {
        Scene { anchors: self.anchors.push(Some(anchor)), ..self }
    }

    /// The scene after the anchor under `id` was removed.
    pub open spec fn without_anchor(self, id: AnchorId) -> Scene {
        Scene { anchors: release(self.anchors, id.0 as int), ..self }
    }

    /// The pose in the world of the anchor under `id`: the anchor's own
    /// position, orientation and scale, as the factors of `T * R * S`.
    pub open spec fn world_transform(self, id: AnchorId) -> Option<Transform> {
        match self.anchor(id) {
            Some(anchor) => Some(Transform::of(anchor)),
            None => None,
        }
    }

    /// The pose that a reference to an anchor resolves to. A reference that
    /// is not set, or that names no anchor, resolves to nothing.
    pub open spec fn resolve(self, anchor: Option<AnchorId>) -> Option<Transform> {
        match anchor {
            Some(id) => self.world_transform(id),
            None => None,
        }
    }

    // Meshes and textures

    /// What is kept of the mesh registered under `id`.
    pub open spec fn mesh(self, id: crate::mesh::GpuMesh) -> Option<MeshInfo> {
        lookup(self.meshes, id.0 as int)
    }

    /// The identifier that the next mesh will get.
    pub open spec fn next_mesh(self) -> crate::mesh::GpuMesh {
        crate::mesh::GpuMesh(self.meshes.len() as usize)
    }

    /// The scene after a mesh with the given description was registered.
    pub open spec fn with_mesh(self, mesh: MeshInfo) -> Scene {
        Scene { meshes: self.meshes.push(Some(mesh)), ..self }
    }

    /// What is kept of the texture registered under `id`.
    pub open spec fn texture(self, id: GpuTexture) -> Option<TextureInfo> {
        lookup(self.textures, id.0 as int)
    }

    /// The identifier that the next texture will get.
    pub open spec fn next_texture(self) -> GpuTexture {
        GpuTexture(self.textures.len() as usize)
    }

    /// The scene after a texture with the given description was registered.
    pub open spec fn with_texture(self, texture: TextureInfo) -> Scene {
        Scene { textures: self.textures.push(Some(texture)), ..self }
    }

    // Shaders and materials

    /// Whether materials can be built for the shader called `shader`.
    pub open spec fn knows_shader(self, shader: Seq<char>) -> bool {
        self.shaders.contains(shader)
    }

    /// The scene after the shader called `shader` was made known. A shader
    /// that was known already changes nothing.
    pub open spec fn with_shader(self, shader: Seq<char>) -> Scene {
        if self.knows_shader(shader) {
            self
        } else {
            Scene { shaders: self.shaders.push(shader), ..self }
        }
    }

    /// Why no material can be built from `source`, if none can: its shader
    /// is not known, or else its declarations are at fault.
    pub open spec fn build_fault(self, source: SourceView) -> Option<MaterialBuildError> {
        if !self.knows_shader(source.shader) {
            Some(MaterialBuildError::UnknownShader)
        } else {
            source_fault(source)
        }
    }

    /// The shared material registered under `id`.
    pub open spec fn material(self, id: MaterialId) -> Option<MaterialView> {
        lookup(self.materials, id.0 as int)
    }

    /// The identifier that the next shared material will get.
    pub open spec fn next_material(self) -> MaterialId {
        MaterialId(self.materials.len() as usize)
    }

    /// The scene after `material` was registered for sharing.
    pub open spec fn with_material(self, material: MaterialView) -> Scene {
        Scene { materials: self.materials.push(Some(material)), ..self }
    }

    /// The scene after the shared material under `id` was removed.
    pub open spec fn without_material(self, id: MaterialId) -> Scene {
        Scene { materials: release(self.materials, id.0 as int), ..self }
    }

    /// The material that a mesh instance's material stands for: its own, or
    /// the shared one that it names, if that is registered.
    pub open spec fn material_of(self, material: MaterialTypeView) -> Option<MaterialView> {
        match material {
            MaterialTypeView::Owned(material) => Some(material),
            MaterialTypeView::Shared(id) => self.material(id),
        }
    }

    /// The material that a mesh instance is drawn with: the one that its
    /// material stands for, if the renderer knows the shader it is made for.
    pub open spec fn drawable_material(self, material: MaterialTypeView) -> Option<MaterialView> {
        match self.material_of(material) {
            Some(material) => if self.knows_shader(material.shader) {
                Some(material)
            } else {
                None
            },
            None => None,
        }
    }

    // Mesh instances

    /// The mesh instance registered under `id`.
    pub open spec fn instance(self, id: MeshInstanceId) -> Option<MeshInstanceView> {
        lookup(self.instances, id.0 as int)
    }

    /// The identifier that the next mesh instance will get.
    pub open spec fn next_instance(self) -> MeshInstanceId {
        MeshInstanceId(self.instances.len() as usize)
    }

    /// The scene after `instance` was registered.
    pub open spec fn with_instance(self, instance: MeshInstanceView) -> Scene {
        Scene { instances: self.instances.push(Some(instance)), ..self }
    }

    /// The scene after the mesh instance under `id` was removed.
    pub open spec fn without_instance(self, id: MeshInstanceId) -> Scene {
        Scene { instances: release(self.instances, id.0 as int), ..self }
    }

    // Cameras and lights

    /// The camera registered under `id`.
    pub open spec fn camera(self, id: CameraId) -> Option<Camera> {
        lookup(self.cameras, id.0 as int)
    }

    /// The identifier that the next camera will get.
    pub open spec fn next_camera(self) -> CameraId {
        CameraId(self.cameras.len() as usize)
    }

    /// The scene after `camera` was registered.
    pub open spec fn with_camera(self, camera: Camera) -> Scene {
        Scene { cameras: self.cameras.push(Some(camera)), ..self }
    }

    /// The scene after the camera under `id` was removed.
    pub open spec fn without_camera(self, id: CameraId) -> Scene {
        Scene { cameras: release(self.cameras, id.0 as int), ..self }
    }

    /// The camera that frames are seen through: of the cameras that are
    /// registered, the one that was registered last.
    pub open spec fn active_camera(self) -> Option<CameraId> {
        match last_live(self.cameras) {
            Some(id) => Some(CameraId(id as usize)),
            None => None,
        }
    }

    /// The light registered under `id`.
    pub open spec fn light(self, id: LightId) -> Option<Light> {
        lookup(self.lights, id.0 as int)
    }

    /// The identifier that the next light will get.
    pub open spec fn next_light(self) -> LightId {
        LightId(self.lights.len() as usize)
    }

    /// The scene after `light` was registered.
    pub open spec fn with_light(self, light: Light) -> Scene {
        Scene { lights: self.lights.push(Some(light)), ..self }
    }

    /// The scene after the light under `id` was removed.
    pub open spec fn without_light(self, id: LightId) -> Scene {
        Scene { lights: release(self.lights, id.0 as int), ..self }
    }

    // Frames

    /// The eye of a frame: the active camera and the pose of its anchor.
    /// There is none where no camera is registered, or where the anchor of
    /// the active camera does not resolve.
    pub open spec fn eye(self) -> Option<Eye> {
        match self.active_camera() {
            Some(id) => match self.resolve(self.cameras[id.0 as int]->0.anchor) {
                Some(pose) => Some(
                    Eye { camera: id, projection: self.cameras[id.0 as int]->0, pose },
                ),
                None => None,
            },
            None => None,
        }
    }

    /// The light under `id` as a frame sees it. A directional light needs no
    /// anchor. A point light stands where its anchor is, and is left out of
    /// the frame where its anchor does not resolve.
    pub open spec fn frame_light(self, id: int) -> Option<FrameLight> {
        match lookup(self.lights, id) {
            Some(light) => match light.data {
                LightData::Directional { direction } => Some(
                    FrameLight {
                        light: LightId(id as usize),
                        source: LightSource::Directional { direction },
                        color: light.color,
                        strength: light.strength,
                    },
                ),
                LightData::Point { radius } => match self.resolve(light.anchor) {
                    Some(pose) => Some(
                        FrameLight {
                            light: LightId(id as usize),
                            source: LightSource::Point { position: pose.translation, radius },
                            color: light.color,
                            strength: light.strength,
                        },
                    ),
                    None => None,
                },
            },
            None => None,
        }
    }

    /// The draw call for the mesh instance under `id`. There is none where
    /// no instance is registered under `id`, where its anchor, its mesh or
    /// its shared material does not resolve, or where its material is made
    /// for a shader that the renderer does not know.
    pub open spec fn draw_call(self, id: int) -> Option<DrawCallView> {
        match lookup(self.instances, id) {
            Some(instance) => match (
                self.resolve(instance.anchor),
                self.mesh(instance.mesh),
                self.drawable_material(instance.material),
            ) {
                (Some(world), Some(mesh), Some(material)) => Some(
                    DrawCallView {
                        instance: MeshInstanceId(id as usize),
                        mesh: instance.mesh,
                        index_count: mesh.index_count,
                        world,
                        shader: material.shader,
                        bindings: bindings_of(self.textures, material),
                    },
                ),
                _ => None,
            },
            None => None,
        }
    }

    /// The lights of a frame that come from the identifiers below `count`.
    pub open spec fn frame_lights_below(self, count: nat) -> Seq<FrameLight> {
        gather(count, |id: int| self.frame_light(id))
    }

    /// The lights of a frame, in the order in which they were registered.
    pub open spec fn frame_lights(self) -> Seq<FrameLight> {
        self.frame_lights_below(self.lights.len())
    }

    /// The draw calls for the instances whose identifiers are below `count`.
    pub open spec fn draw_calls_below(self, count: nat) -> Seq<DrawCallView> {
        gather(count, |id: int| self.draw_call(id))
    }

    /// The draw calls of a frame that has an eye, in the order in which the
    /// instances were registered.
    pub open spec fn draw_calls(self) -> Seq<DrawCallView> {
        self.draw_calls_below(self.instances.len())
    }

    /// The frame of this scene. Without an eye it has no draw calls.
    pub open spec fn frame(self) -> FrameView {
        FrameView {
            eye: self.eye(),
            ambient: self.ambient,
            lights: self.frame_lights(),
            draws: if self.eye() is Some {
                self.draw_calls()
            } else {
                Seq::empty()
            },
        }
    }
}

/// An anchor that was just registered stands in the world exactly as it
/// was described: its pose is made of its own position, orientation and
/// scale and of nothing else.
pub proof fn law_registered_anchor_keeps_its_pose(scene: Scene, anchor: Anchor)
    requires
        scene.well_formed(),
    ensures
        scene.with_anchor(anchor).world_transform(scene.next_anchor()) == Some(
            Transform::of(anchor),
        ),
        scene.with_anchor(anchor).anchor(scene.next_anchor()) == Some(anchor),
{
}

/// Registering an anchor moves no other anchor: every identifier issued
/// before resolves as it did.
pub proof fn law_registering_anchor_moves_nothing(scene: Scene, anchor: Anchor, other: AnchorId)
    requires
        scene.well_formed(),
        other != scene.next_anchor(),
    ensures
        scene.with_anchor(anchor).world_transform(other) == scene.world_transform(other),
{
}

/// A mesh instance that is registered and then removed comes back as it
/// went in, and the scene draws what it drew before the two steps.
pub proof fn law_instance_round_trip(scene: Scene, instance: MeshInstanceView)
    requires
        scene.well_formed(),
    ensures
        scene.with_instance(instance).instance(scene.next_instance()) == Some(instance),
        scene.with_instance(instance).without_instance(scene.next_instance()).instance(
            scene.next_instance(),
        ) is None,
        scene.with_instance(instance).without_instance(scene.next_instance()).frame()
            == scene.frame(),
{
    let id = scene.next_instance();
    let after = scene.with_instance(instance).without_instance(id);
    assert(after.instances == scene.instances.push(None));
    assert(after.draw_call(scene.instances.len() as int) is None);
    let pick_after = |id: int| after.draw_call(id);
    let pick_before = |id: int| scene.draw_call(id);
    assert forall|k: int| 0 <= k < scene.instances.len() implies #[trigger] pick_after(k)
        == pick_before(k) by {
        assert(lookup(after.instances, k) == lookup(scene.instances, k));
    }
    lemma_gather_agrees(scene.instances.len(), pick_after, pick_before);
    assert(after.eye() == scene.eye());
    let light_after = |id: int| after.frame_light(id);
    let light_before = |id: int| scene.frame_light(id);
    assert forall|k: int| 0 <= k < scene.lights.len() implies #[trigger] light_after(k)
        == light_before(k) by {}
    lemma_gather_agrees(scene.lights.len(), light_after, light_before);
}

/// An identifier under which nothing is registered finds nothing, and
/// removing it changes nothing: asking again gives the same answer.
pub proof fn law_stale_instance_finds_nothing(scene: Scene, id: MeshInstanceId)
    requires
        scene.instance(id) is None,
    ensures
        scene.without_instance(id) == scene,
        scene.without_instance(id).instance(id) is None,
{
    assert(!live(scene.instances, id.0 as int));
}

/// An identifier under which no anchor is registered finds nothing, and
/// removing it changes nothing: asking again gives the same answer.
pub proof fn law_stale_anchor_finds_nothing(scene: Scene, id: AnchorId)
    requires
        scene.anchor(id) is None,
    ensures
        scene.world_transform(id) is None,
        scene.without_anchor(id) == scene,
        scene.without_anchor(id).anchor(id) is None,
{
    assert(!live(scene.anchors, id.0 as int));
}

/// Once removed, an identifier names nothing, and it stays so whatever is
/// registered afterwards: identifiers are not issued twice.
pub proof fn law_removed_instance_stays_removed(
    scene: Scene,
    id: MeshInstanceId,
    later: MeshInstanceView,
)
    requires
        scene.well_formed(),
    ensures
        scene.without_instance(id).instance(id) is None,
        scene.without_instance(id).with_instance(later).instance(id) is None || id
            == scene.next_instance(),
{
}

/// The frame of a scene depends on the scene alone: two frames compiled
/// from the same scene are the same, draw call for draw call.
pub proof fn law_frame_depends_on_scene_alone(scene: Scene, first: FrameView, second: FrameView)
    requires
        first == scene.frame(),
        second == scene.frame(),
    ensures
        first == second,
        first.draws.len() == second.draws.len(),
        forall|k: int| 0 <= k < first.draws.len() ==> first.draws[k] == second.draws[k],
{
}

/// The draw calls of a frame follow the order in which the instances were
/// registered; each is the draw call of a registered instance, and no
/// instance that has one is left out.
pub proof fn law_draw_calls_in_registration_order(scene: Scene)
    requires
        scene.well_formed(),
    ensures
        forall|k: int|
            0 <= k < scene.draw_calls().len() ==> scene.draw_call(
                (#[trigger] scene.draw_calls()[k]).instance.0 as int,
            ) == Some(scene.draw_calls()[k]),
        forall|k: int, l: int|
            0 <= k < l < scene.draw_calls().len() ==> scene.draw_calls()[k].instance.0
                < scene.draw_calls()[l].instance.0,
        forall|id: int|
            0 <= id < scene.instances.len() && #[trigger] scene.draw_call(id) is Some
                ==> scene.draw_calls().contains(scene.draw_call(id)->0),
{
    let pick = |id: int| scene.draw_call(id);
    let sources = lemma_gather_sources(scene.instances.len(), pick);
    let calls = scene.draw_calls();
    assert forall|k: int| 0 <= k < calls.len() implies (#[trigger] calls[k]).instance.0
        == sources[k] by {
        assert(pick(sources[k]) == Some(calls[k]));
    }
    assert forall|id: int|
        0 <= id < scene.instances.len() && #[trigger] scene.draw_call(id) is Some implies calls.contains(
        scene.draw_call(id)->0,
    ) by {
        assert(yields(pick, id));
        let k = choose|k: int| 0 <= k < sources.len() && #[trigger] sources[k] == id;
        assert(pick(sources[k]) == Some(calls[k]));
        assert(calls[k] == scene.draw_call(id)->0);
    }
}

/// A mesh instance that is removed and registered again is drawn as it was
/// drawn before: with the same mesh, the same pose and the same bindings.
/// Only the identifier in its draw call is the new one.
pub proof fn law_reregistered_instance_draws_the_same(scene: Scene, id: MeshInstanceId)
    requires
        scene.well_formed(),
        scene.instance(id) is Some,
    ensures
        ({
            let instance = scene.instance(id)->0;
            let again = scene.without_instance(id).with_instance(instance);
            let new_id = scene.without_instance(id).next_instance();
            &&& again.instance(new_id) == Some(instance)
            &&& again.instance(id) is None
            &&& match scene.draw_call(id.0 as int) {
                Some(call) => again.draw_call(new_id.0 as int) == Some(
                    DrawCallView { instance: new_id, ..call },
                ),
                None => again.draw_call(new_id.0 as int) is None,
            }
        }),
{
}

/// Every draw call of a frame names a registered mesh, an instance that is
/// registered, and a shader that the renderer knows; its pose is the pose of
/// the instance's anchor, and it has one binding for each slot of the
/// instance's material.
pub proof fn law_draw_calls_resolve(scene: Scene, k: int)
    requires
        scene.well_formed(),
        0 <= k < scene.draw_calls().len(),
    ensures
        ({
            let call = scene.draw_calls()[k];
            &&& scene.instance(call.instance) matches Some(instance)
            &&& instance.mesh == call.mesh
            &&& scene.mesh(call.mesh) matches Some(mesh)
            &&& mesh.index_count == call.index_count
            &&& scene.resolve(instance.anchor) == Some(call.world)
            &&& scene.knows_shader(call.shader)
            &&& scene.material_of(instance.material) matches Some(material)
            &&& material.shader == call.shader
            &&& call.bindings.len() == material.slots.len()
        }),
{
    law_draw_calls_in_registration_order(scene);
    let call = scene.draw_calls()[k];
    assert(scene.draw_call(call.instance.0 as int) == Some(call));
}

/// Moving an anchor moves what stands on it, in the next frame: the draw
/// call of an instance on that anchor has the anchor's new pose, and the draw
/// call of an instance on another anchor is what it was.
pub proof fn law_moved_anchor_moves_its_instances(
    scene: Scene,
    anchor: AnchorId,
    moved: Anchor,
    instance: MeshInstanceId,
)
    requires
        scene.well_formed(),
        scene.anchor(anchor) is Some,
    ensures
        ({
            let after = Scene {
                anchors: scene.anchors.update(anchor.0 as int, Some(moved)),
                ..scene
            };
            match scene.draw_call(instance.0 as int) {
                Some(call) => after.draw_call(instance.0 as int) == Some(
                    if scene.instance(instance)->0.anchor == Some(anchor) {
                        DrawCallView { world: Transform::of(moved), ..call }
                    } else {
                        call
                    },
                ),
                None => after.draw_call(instance.0 as int) is None,
            }
        }),
{
}

/// A value set on the material of an instance shows in the next frame: the
/// draw call of the instance binds what the changed material holds, and is
/// otherwise what it was.
pub proof fn law_changed_material_shows_in_next_frame(
    scene: Scene,
    instance: MeshInstanceId,
    name: Seq<char>,
    value: MaterialProperty,
)
    requires
        scene.well_formed(),
        scene.instance(instance) matches Some(found) && found.material is Owned,
    ensures
        ({
            let before = scene.instance(instance)->0;
            let material = before.material->Owned_0.set(name, value);
            let after = Scene {
                instances: scene.instances.update(
                    instance.0 as int,
                    Some(
                        MeshInstanceView { material: MaterialTypeView::Owned(material), ..before },
                    ),
                ),
                ..scene
            };
            match scene.draw_call(instance.0 as int) {
                Some(call) => after.draw_call(instance.0 as int) == Some(
                    DrawCallView { bindings: bindings_of(scene.textures, material), ..call },
                ),
                None => after.draw_call(instance.0 as int) is None,
            }
        }),
{
}

/// A slot that is overridden with a texture which the renderer does not
/// hold is bound to the shader's default, like a slot that is not
/// overridden at all.
pub proof fn law_unknown_texture_binds_default(scene: Scene, slot: SlotView, texture: GpuTexture)
    requires
        slot.value == Some(MaterialProperty::Texture(texture)),
        scene.texture(texture) is None,
    ensures
        bound_value(scene.textures, slot) == BoundValue::Default,
{
}

} // verus!
