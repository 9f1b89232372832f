use polygon::anchor::{Anchor, AnchorId, Transform};
use polygon::camera::{Camera, CameraId};
use polygon::context::CreationError;
use polygon::frame::{BoundValue, FrameLight, LightSource};
use polygon::light::{Light, LightId};
use polygon::material::{Material, MaterialProperty, MaterialSource, PropertyDecl, PropertyKind};
use polygon::math::{Color, Orientation, Point, Scalar, Vector3};
use polygon::mesh::{GpuMesh, Mesh, MeshBuilder};
use polygon::mesh_instance::{MaterialId, MaterialType, MeshInstance, MeshInstanceId};
use polygon::renderer::Renderer;
use polygon::texture::{DataFormat, GpuTexture, Texture2d, TextureData};

fn num(value: f32) -> Scalar {
    Scalar::from_bits(value.to_bits())
}

fn number(value: Scalar) -> f32 {
    f32::from_bits(value.to_bits())
}

fn point(x: f32, y: f32, z: f32) -> Point {
    Point::new(num(x), num(y), num(z))
}

fn red() -> Color {
    Color::rgb(num(1.0), num(0.0), num(0.0))
}

fn white() -> Color {
    Color::rgb(num(1.0), num(1.0), num(1.0))
}

fn triangle() -> Mesh {
    MeshBuilder::new()
        .set_position_data(&[point(-1.0, -1.0, 0.0), point(1.0, -1.0, 0.0), point(0.0, 1.0, 0.0)])
        .set_indices(&[0, 1, 2])
        .build()
        .unwrap()
}

fn anchor_at(x: f32, y: f32, z: f32) -> Anchor {
    let mut anchor = Anchor::new();
    anchor.set_position(point(x, y, z));
    anchor
}

fn red_material() -> Material {
    let mut material = Material::baseline();
    assert!(material.set_color("surface_color", red()));
    material
}

/// A renderer with a camera at `(0, 0, 10)` and white ambient light.
fn stage() -> (Renderer, GpuMesh, AnchorId) {
    let mut renderer = Renderer::new();
    let mesh = renderer.register_mesh(&triangle());
    let origin = renderer.register_anchor(Anchor::new());
    let camera_anchor = renderer.register_anchor(anchor_at(0.0, 0.0, 10.0));
    let mut camera = Camera::default();
    camera.set_anchor(camera_anchor);
    renderer.register_camera(camera);
    renderer.set_ambient_light(white());
    (renderer, mesh, origin)
}

fn red_instance(mesh: GpuMesh, anchor: AnchorId) -> MeshInstance {
    let mut instance = MeshInstance::with_owned_material(mesh, red_material());
    instance.set_anchor(anchor);
    instance
}

#[test]
fn a_new_renderer_holds_nothing() {
    let renderer = Renderer::new();
    assert!(renderer.get_anchor(AnchorId(0)).is_none());
    assert!(renderer.get_mesh_instance(MeshInstanceId(0)).is_none());
    assert!(renderer.get_camera(CameraId(0)).is_none());
    assert!(renderer.get_light(LightId(0)).is_none());
    assert!(renderer.get_material(MaterialId(0)).is_none());
    assert!(renderer.mesh_info(GpuMesh(0)).is_none());
    assert!(renderer.texture_info(GpuTexture(0)).is_none());
    assert!(renderer.active_camera().is_none());
    assert_eq!(renderer.ambient_light(), Color::rgb(num(0.0), num(0.0), num(0.0)));
}

#[test]
fn identifiers_are_issued_in_order() {
    let mut renderer = Renderer::new();
    assert_eq!(renderer.register_anchor(Anchor::new()), AnchorId(0));
    assert_eq!(renderer.register_anchor(Anchor::new()), AnchorId(1));
    assert_eq!(renderer.remove_anchor(AnchorId(0)), Some(Anchor::new()));
    assert_eq!(renderer.register_anchor(Anchor::new()), AnchorId(2));
    assert_eq!(renderer.register_mesh(&triangle()), GpuMesh(0));
    assert_eq!(renderer.register_mesh(&triangle()), GpuMesh(1));
    assert_eq!(renderer.register_camera(Camera::default()), CameraId(0));
    assert_eq!(renderer.register_light(Light::point(num(1.0), num(1.0), white())), LightId(0));
    assert_eq!(renderer.register_material(Material::baseline()), MaterialId(0));
}

#[test]
fn a_registered_anchor_keeps_its_pose() {
    let mut renderer = Renderer::new();
    let mut anchor = anchor_at(1.5, -2.0, 3.25);
    anchor.set_orientation(Orientation::new(num(0.0), num(1.0), num(0.0), num(0.0)));
    anchor.set_scale(Vector3::new(num(2.0), num(2.0), num(0.5)));
    let id = renderer.register_anchor(anchor);
    let pose = renderer.world_transform(id).unwrap();
    assert_eq!(pose, Transform::of(anchor));
    assert_eq!(number(pose.translation.x), 1.5);
    assert_eq!(number(pose.translation.y), -2.0);
    assert_eq!(number(pose.translation.z), 3.25);
    assert_eq!(number(pose.rotation.y), 1.0);
    assert_eq!(number(pose.rotation.w), 0.0);
    assert_eq!(number(pose.scale.z), 0.5);
    assert_eq!(renderer.get_anchor(id), Some(&anchor));
}

#[test]
fn a_new_anchor_is_the_identity() {
    let anchor = Anchor::new();
    assert_eq!(Transform::of(anchor), Transform::identity());
    assert_eq!(number(anchor.position().x), 0.0);
    assert_eq!(number(anchor.orientation().w), 1.0);
    assert_eq!(number(anchor.scale().x), 1.0);
    assert_eq!(number(anchor.scale().y), 1.0);
    assert_eq!(number(anchor.scale().z), 1.0);
}

#[test]
fn an_anchor_can_be_moved_in_place() {
    let mut renderer = Renderer::new();
    let first = renderer.register_anchor(Anchor::new());
    let second = renderer.register_anchor(anchor_at(1.0, 1.0, 1.0));
    renderer.get_anchor_mut(first).unwrap().set_position(point(4.0, 5.0, 6.0));
    assert_eq!(renderer.get_anchor(first), Some(&anchor_at(4.0, 5.0, 6.0)));
    assert_eq!(renderer.get_anchor(second), Some(&anchor_at(1.0, 1.0, 1.0)));
    assert_eq!(
        renderer.world_transform(first),
        Some(Transform::of(anchor_at(4.0, 5.0, 6.0)))
    );
}

#[test]
fn a_stale_anchor_identifier_finds_nothing_twice() {
    let mut renderer = Renderer::new();
    let id = renderer.register_anchor(anchor_at(1.0, 2.0, 3.0));
    assert_eq!(renderer.remove_anchor(id), Some(anchor_at(1.0, 2.0, 3.0)));
    for _ in 0..2 {
        assert!(renderer.get_anchor(id).is_none());
        assert!(renderer.get_anchor_mut(id).is_none());
        assert!(renderer.world_transform(id).is_none());
        assert!(renderer.remove_anchor(id).is_none());
    }
    assert!(renderer.get_anchor(AnchorId(usize::MAX)).is_none());
    assert!(renderer.remove_anchor(AnchorId(usize::MAX)).is_none());
}

#[test]
fn a_stale_instance_identifier_finds_nothing_twice() {
    let (mut renderer, mesh, origin) = stage();
    let id = renderer.register_mesh_instance(red_instance(mesh, origin));
    assert!(renderer.remove_mesh_instance(id).is_some());
    for _ in 0..2 {
        assert!(renderer.get_mesh_instance(id).is_none());
        assert!(renderer.get_mesh_instance_mut(id).is_none());
        assert!(renderer.remove_mesh_instance(id).is_none());
        assert!(renderer.draw_call(id).is_none());
    }
    assert!(renderer.remove_mesh_instance(MeshInstanceId(77)).is_none());
    assert!(renderer.remove_camera(CameraId(77)).is_none());
    assert!(renderer.remove_light(LightId(77)).is_none());
    assert!(renderer.remove_material(MaterialId(77)).is_none());
    assert!(renderer.get_camera_mut(CameraId(77)).is_none());
    assert!(renderer.get_light_mut(LightId(77)).is_none());
    assert!(renderer.get_material_mut(MaterialId(77)).is_none());
}

#[test]
fn a_removed_identifier_is_not_issued_again() {
    let (mut renderer, mesh, origin) = stage();
    let first = renderer.register_mesh_instance(red_instance(mesh, origin));
    renderer.remove_mesh_instance(first).unwrap();
    let second = renderer.register_mesh_instance(red_instance(mesh, origin));
    assert_ne!(first, second);
    assert!(renderer.get_mesh_instance(first).is_none());
    assert!(renderer.get_mesh_instance(second).is_some());
}

#[test]
fn an_instance_comes_back_as_it_went_in() {
    let (mut renderer, mesh, origin) = stage();
    let id = renderer.register_mesh_instance(red_instance(mesh, origin));
    let removed = renderer.remove_mesh_instance(id).unwrap();
    assert_eq!(removed, red_instance(mesh, origin));
    assert_eq!(removed.mesh(), mesh);
    assert_eq!(removed.anchor(), Some(origin));
    match removed.material() {
        MaterialType::Owned(material) => {
            assert_eq!(material, &red_material());
            assert_eq!(material.get("surface_color"), Some(MaterialProperty::Color(red())));
        }
        MaterialType::Shared(_) => panic!("the material is the instance's own"),
    }
}

#[test]
fn one_red_triangle() {
    let (mut renderer, mesh, origin) = stage();
    let id = renderer.register_mesh_instance(red_instance(mesh, origin));
    let frame = renderer.draw();

    assert_eq!(frame.ambient, white());
    assert!(frame.lights.is_empty());

    let eye = frame.eye.unwrap();
    assert_eq!(eye.camera, CameraId(0));
    assert_eq!(eye.pose, Transform::of(anchor_at(0.0, 0.0, 10.0)));
    assert_eq!(number(eye.pose.translation.z), 10.0);
    assert_eq!(eye.pose.rotation, Orientation::identity());
    assert_eq!(number(eye.projection.aspect), 1.0);
    assert_eq!(number(eye.projection.near), 0.001);
    assert_eq!(number(eye.projection.far), 1000.0);
    assert_eq!(number(eye.projection.fov), std::f32::consts::PI / 3.0);

    assert_eq!(frame.draws.len(), 1);
    let call = &frame.draws[0];
    assert_eq!(call.instance, id);
    assert_eq!(call.mesh, mesh);
    assert_eq!(call.index_count, 3);
    assert_eq!(call.world, Transform::identity());
    assert_eq!(call.shader, "default");
    assert_eq!(call.bindings.len(), 3);
    assert_eq!(call.bindings[0].name, "surface_color");
    assert_eq!(call.bindings[0].value, BoundValue::Color(red()));
    assert_eq!(call.bindings[1].name, "surface_specular");
    assert_eq!(call.bindings[1].value, BoundValue::Default);
    assert_eq!(call.bindings[2].name, "surface_shininess");
    assert_eq!(call.bindings[2].value, BoundValue::Default);
}

#[test]
fn two_frames_of_one_state_are_the_same() {
    let (mut renderer, mesh, origin) = stage();
    let elsewhere = renderer.register_anchor(anchor_at(3.0, 0.0, 0.0));
    renderer.register_mesh_instance(red_instance(mesh, origin));
    renderer.register_mesh_instance(red_instance(mesh, elsewhere));
    renderer.register_light(Light::directional(
        Vector3::new(num(1.0), num(-1.0), num(-1.0)),
        num(0.25),
        white(),
    ));
    let first = renderer.draw();
    let second = renderer.draw();
    assert_eq!(first, second);
    assert_eq!(first.draws.len(), 2);
}

#[test]
fn instances_are_drawn_in_the_order_of_registration() {
    let (mut renderer, mesh, origin) = stage();
    let a = renderer.register_mesh_instance(red_instance(mesh, origin));
    let b = renderer.register_mesh_instance(red_instance(mesh, origin));
    let c = renderer.register_mesh_instance(red_instance(mesh, origin));
    renderer.remove_mesh_instance(b).unwrap();
    let d = renderer.register_mesh_instance(red_instance(mesh, origin));
    let frame = renderer.draw();
    let order: Vec<MeshInstanceId> = frame.draws.iter().map(|call| call.instance).collect();
    assert_eq!(order, vec![a, c, d]);
}

#[test]
fn a_toggled_instance_is_drawn_as_before() {
    let (mut renderer, mesh, origin) = stage();
    let id = renderer.register_mesh_instance(red_instance(mesh, origin));
    let before = renderer.draw();

    let hidden = renderer.remove_mesh_instance(id).unwrap();
    let empty = renderer.draw();
    assert!(empty.draws.is_empty());
    assert_eq!(empty.eye, before.eye);

    let again = renderer.register_mesh_instance(hidden);
    assert_ne!(again, id);
    let after = renderer.draw();
    assert_eq!(after.draws.len(), 1);
    assert_eq!(after.draws[0].instance, again);
    assert_eq!(after.draws[0].mesh, before.draws[0].mesh);
    assert_eq!(after.draws[0].index_count, before.draws[0].index_count);
    assert_eq!(after.draws[0].world, before.draws[0].world);
    assert_eq!(after.draws[0].shader, before.draws[0].shader);
    assert_eq!(after.draws[0].bindings, before.draws[0].bindings);
    assert_eq!(after.eye, before.eye);
    assert_eq!(after.lights, before.lights);
    assert_eq!(after.ambient, before.ambient);
}

#[test]
fn a_texture_that_was_never_registered_binds_the_default() {
    let (mut renderer, mesh, origin) = stage();
    assert!(renderer.register_shader("textured"));
    let source = MaterialSource {
        shader: "textured".to_string(),
        properties: vec![
            PropertyDecl { name: "surface_diffuse".to_string(), kind: PropertyKind::Texture },
            PropertyDecl { name: "surface_color".to_string(), kind: PropertyKind::Color },
        ],
    };
    let mut material = renderer.build_material(source).unwrap();
    assert!(material.set_texture("surface_diffuse", GpuTexture::default()));
    assert!(material.set_color("surface_color", white()));
    let mut instance = MeshInstance::with_owned_material(mesh, material);
    instance.set_anchor(origin);
    let id = renderer.register_mesh_instance(instance);

    let frame = renderer.draw();
    assert_eq!(frame.draws.len(), 1);
    assert_eq!(frame.draws[0].shader, "textured");
    assert_eq!(frame.draws[0].bindings[0].name, "surface_diffuse");
    assert_eq!(frame.draws[0].bindings[0].value, BoundValue::Default);
    assert_eq!(frame.draws[0].bindings[1].value, BoundValue::Color(white()));

    let texture = Texture2d::new(1, 1, DataFormat::Rgba, TextureData::U8(vec![1, 2, 3, 4])).unwrap();
    let gpu_texture = renderer.register_texture(&texture);
    assert_eq!(gpu_texture, GpuTexture::default());
    assert_eq!(renderer.texture_info(gpu_texture), Some(texture.info()));
    let frame = renderer.draw();
    assert_eq!(frame.draws[0].instance, id);
    assert_eq!(frame.draws[0].bindings[0].value, BoundValue::Texture(gpu_texture));
}

#[test]
fn without_a_camera_nothing_is_drawn() {
    let mut renderer = Renderer::new();
    let mesh = renderer.register_mesh(&triangle());
    let origin = renderer.register_anchor(Anchor::new());
    renderer.register_mesh_instance(red_instance(mesh, origin));
    renderer.set_ambient_light(white());
    let frame = renderer.draw();
    assert!(frame.eye.is_none());
    assert!(frame.draws.is_empty());
    assert_eq!(frame.ambient, white());
    assert!(renderer.eye().is_none());
}

#[test]
fn a_camera_without_an_anchor_shows_nothing() {
    let mut renderer = Renderer::new();
    let mesh = renderer.register_mesh(&triangle());
    let origin = renderer.register_anchor(Anchor::new());
    renderer.register_mesh_instance(red_instance(mesh, origin));
    let camera = renderer.register_camera(Camera::default());
    assert_eq!(renderer.active_camera(), Some(camera));
    assert!(renderer.draw().eye.is_none());
    assert!(renderer.draw().draws.is_empty());

    renderer.get_camera_mut(camera).unwrap().set_anchor(AnchorId(9));
    assert!(renderer.draw().draws.is_empty());

    renderer.get_camera_mut(camera).unwrap().set_anchor(origin);
    let frame = renderer.draw();
    assert_eq!(frame.eye.unwrap().pose, Transform::identity());
    assert_eq!(frame.draws.len(), 1);
}

#[test]
fn the_camera_registered_last_is_the_active_one() {
    let (mut renderer, _, origin) = stage();
    assert_eq!(renderer.active_camera(), Some(CameraId(0)));
    let mut wide = Camera::new(num(2.0), num(1.5), num(0.1), num(50.0));
    wide.set_anchor(origin);
    let second = renderer.register_camera(wide);
    assert_eq!(renderer.active_camera(), Some(second));
    let eye = renderer.draw().eye.unwrap();
    assert_eq!(eye.camera, second);
    assert_eq!(eye.projection, wide);
    assert_eq!(eye.pose, Transform::identity());

    assert_eq!(renderer.remove_camera(second), Some(wide));
    assert_eq!(renderer.active_camera(), Some(CameraId(0)));
    let eye = renderer.draw().eye.unwrap();
    assert_eq!(eye.camera, CameraId(0));
    assert_eq!(number(eye.pose.translation.z), 10.0);

    assert!(renderer.remove_camera(CameraId(0)).is_some());
    assert_eq!(renderer.active_camera(), None);
    assert!(renderer.draw().eye.is_none());
}

#[test]
fn an_instance_without_an_anchor_is_passed_over() {
    let (mut renderer, mesh, origin) = stage();
    let floating = renderer.register_mesh_instance(MeshInstance::with_owned_material(
        mesh,
        red_material(),
    ));
    let placed = renderer.register_mesh_instance(red_instance(mesh, origin));
    let frame = renderer.draw();
    assert_eq!(frame.draws.len(), 1);
    assert_eq!(frame.draws[0].instance, placed);
    assert!(renderer.draw_call(floating).is_none());

    renderer.get_mesh_instance_mut(floating).unwrap().set_anchor(origin);
    assert_eq!(renderer.draw().draws.len(), 2);
}

#[test]
fn an_instance_on_a_removed_anchor_is_passed_over() {
    let (mut renderer, mesh, origin) = stage();
    let elsewhere = renderer.register_anchor(anchor_at(1.0, 0.0, 0.0));
    let first = renderer.register_mesh_instance(red_instance(mesh, elsewhere));
    let second = renderer.register_mesh_instance(red_instance(mesh, origin));
    assert_eq!(renderer.draw().draws.len(), 2);
    renderer.remove_anchor(elsewhere).unwrap();
    let frame = renderer.draw();
    assert_eq!(frame.draws.len(), 1);
    assert_eq!(frame.draws[0].instance, second);
    assert!(renderer.get_mesh_instance(first).is_some());
}

#[test]
fn an_instance_of_an_unknown_mesh_is_passed_over() {
    let (mut renderer, mesh, origin) = stage();
    renderer.register_mesh_instance(red_instance(GpuMesh(5), origin));
    let known = renderer.register_mesh_instance(red_instance(mesh, origin));
    let frame = renderer.draw();
    assert_eq!(frame.draws.len(), 1);
    assert_eq!(frame.draws[0].instance, known);
}

#[test]
fn instances_share_a_material() {
    let (mut renderer, mesh, origin) = stage();
    let shared = renderer.register_material(Material::baseline());
    let mut first = MeshInstance::with_shared_material(mesh, shared);
    first.set_anchor(origin);
    let mut second = MeshInstance::with_shared_material(mesh, shared);
    second.set_anchor(origin);
    assert!(first.material_mut().is_none());
    assert_eq!(first.material(), &MaterialType::Shared(shared));
    renderer.register_mesh_instance(first);
    renderer.register_mesh_instance(second);

    let frame = renderer.draw();
    assert_eq!(frame.draws.len(), 2);
    assert_eq!(frame.draws[0].bindings[0].value, BoundValue::Default);
    assert_eq!(frame.draws[1].bindings[0].value, BoundValue::Default);

    assert!(renderer.get_material_mut(shared).unwrap().set_color("surface_color", red()));
    assert_eq!(renderer.get_material(shared), Some(&red_material()));
    let frame = renderer.draw();
    assert_eq!(frame.draws[0].bindings[0].value, BoundValue::Color(red()));
    assert_eq!(frame.draws[1].bindings[0].value, BoundValue::Color(red()));

    assert_eq!(renderer.remove_material(shared), Some(red_material()));
    assert!(renderer.draw().draws.is_empty());
}

#[test]
fn an_owned_material_can_be_changed_in_place() {
    let (mut renderer, mesh, origin) = stage();
    let id = renderer.register_mesh_instance(red_instance(mesh, origin));
    let blue = Color::rgb(num(0.0), num(0.0), num(1.0));
    let instance = renderer.get_mesh_instance_mut(id).unwrap();
    assert!(instance.material_mut().unwrap().set_color("surface_color", blue));
    assert!(instance.material_mut().unwrap().set_f32("surface_shininess", num(4.0)));
    let frame = renderer.draw();
    assert_eq!(frame.draws[0].bindings[0].value, BoundValue::Color(blue));
    assert_eq!(frame.draws[0].bindings[2].value, BoundValue::F32(num(4.0)));
}

#[test]
fn an_instance_can_change_its_mesh() {
    let (mut renderer, mesh, origin) = stage();
    let quad = MeshBuilder::new()
        .set_position_data(&[
            point(0.0, 0.0, 0.0),
            point(1.0, 0.0, 0.0),
            point(1.0, 1.0, 0.0),
            point(0.0, 1.0, 0.0),
        ])
        .set_indices(&[0, 1, 2, 0, 2, 3])
        .build()
        .unwrap();
    let quad_id = renderer.register_mesh(&quad);
    assert_eq!(renderer.mesh_info(quad_id), Some(quad.info()));
    let id = renderer.register_mesh_instance(red_instance(mesh, origin));
    assert_eq!(renderer.draw().draws[0].index_count, 3);
    renderer.get_mesh_instance_mut(id).unwrap().set_mesh(quad_id);
    let frame = renderer.draw();
    assert_eq!(frame.draws[0].mesh, quad_id);
    assert_eq!(frame.draws[0].index_count, 6);
}

#[test]
fn lights_of_a_frame() {
    let (mut renderer, _, origin) = stage();
    let down = Vector3::new(num(1.0), num(-1.0), num(-1.0));
    let sun = renderer.register_light(Light::directional(down, num(0.25), white()));
    let lost = renderer.register_light(Light::point(num(5.0), num(1.0), red()));
    let mut lamp = Light::point(num(2.0), num(0.5), red());
    let lamp_anchor = renderer.register_anchor(anchor_at(0.75, 0.0, 2.0));
    lamp.set_anchor(lamp_anchor);
    let lamp_id = renderer.register_light(lamp);

    let frame = renderer.draw();
    assert_eq!(
        frame.lights,
        vec![
            FrameLight {
                light: sun,
                source: LightSource::Directional { direction: down },
                color: white(),
                strength: num(0.25),
            },
            FrameLight {
                light: lamp_id,
                source: LightSource::Point { position: point(0.75, 0.0, 2.0), radius: num(2.0) },
                color: red(),
                strength: num(0.5),
            },
        ]
    );
    assert!(renderer.frame_light(lost).is_none());

    renderer.get_light_mut(lost).unwrap().set_anchor(origin);
    renderer.get_anchor_mut(lamp_anchor).unwrap().set_position(point(1.0, 1.0, 1.0));
    let frame = renderer.draw();
    assert_eq!(frame.lights.len(), 3);
    assert_eq!(frame.lights[1].light, lost);
    assert_eq!(
        frame.lights[1].source,
        LightSource::Point { position: point(0.0, 0.0, 0.0), radius: num(5.0) }
    );
    assert_eq!(
        frame.lights[2].source,
        LightSource::Point { position: point(1.0, 1.0, 1.0), radius: num(2.0) }
    );

    assert_eq!(renderer.remove_light(sun).map(|light| light.anchor()), Some(None));
    assert_eq!(renderer.draw().lights.len(), 2);
    assert_eq!(renderer.get_light(lamp_id), Some(&lamp));
}

#[test]
fn a_directional_light_needs_no_camera() {
    let mut renderer = Renderer::new();
    let down = Vector3::new(num(0.0), num(-1.0), num(0.0));
    renderer.register_light(Light::directional(down, num(1.0), white()));
    let frame = renderer.draw();
    assert!(frame.eye.is_none());
    assert_eq!(frame.lights.len(), 1);
}

#[test]
fn numbers_keep_their_bits() {
    assert_eq!(Scalar::zero().to_bits(), 0.0f32.to_bits());
    assert_eq!(Scalar::one().to_bits(), 1.0f32.to_bits());
    assert_eq!(number(num(-0.0)).to_bits(), (-0.0f32).to_bits());
    assert!(number(num(f32::NAN)).is_nan());
    assert_eq!(Point::origin(), point(0.0, 0.0, 0.0));
    assert_eq!(Vector3::one(), Vector3::new(num(1.0), num(1.0), num(1.0)));
    assert_eq!(number(Color::rgb(num(0.5), num(0.25), num(0.125)).a), 1.0);
    assert_eq!(number(Color::new(num(0.5), num(0.25), num(0.125), num(0.75)).a), 0.75);
}

#[test]
fn a_creation_error_is_a_value() {
    let error = CreationError;
    assert_eq!(error, error.clone());
    assert_eq!(format!("{:?}", error), "CreationError");
}

#[test]
fn an_instance_for_an_unknown_shader_is_passed_over() {
    let (mut renderer, mesh, origin) = stage();
    let source = MaterialSource {
        shader: "glow".to_string(),
        properties: vec![PropertyDecl {
            name: "surface_color".to_string(),
            kind: PropertyKind::Color,
        }],
    };
    let mut instance =
        MeshInstance::with_owned_material(mesh, Material::from_source(&source).unwrap());
    instance.set_anchor(origin);
    let id = renderer.register_mesh_instance(instance);
    assert!(renderer.draw_call(id).is_none());
    assert!(renderer.draw().draws.is_empty());

    assert!(renderer.register_shader("glow"));
    let frame = renderer.draw();
    assert_eq!(frame.draws.len(), 1);
    assert_eq!(frame.draws[0].instance, id);
    assert_eq!(frame.draws[0].shader, "glow");
    assert_eq!(frame.draws[0].bindings.len(), 1);
}

#[test]
fn a_copy_of_an_instance_is_drawn_like_it() {
    let (mut renderer, mesh, origin) = stage();
    let instance = red_instance(mesh, origin);
    let first = renderer.register_mesh_instance(instance.clone());
    let second = renderer.register_mesh_instance(instance);
    let frame = renderer.draw();
    assert_eq!(frame.draws.len(), 2);
    assert_eq!(frame.draws[0].instance, first);
    assert_eq!(frame.draws[1].instance, second);
    assert_eq!(frame.draws[0].bindings, frame.draws[1].bindings);
    assert_eq!(frame.draws[0].world, frame.draws[1].world);
}

#[test]
fn the_draw_call_of_one_instance() {
    let (mut renderer, mesh, origin) = stage();
    let id = renderer.register_mesh_instance(red_instance(mesh, origin));
    let call = renderer.draw_call(id).unwrap();
    assert_eq!(renderer.draw().draws, vec![call.clone()]);
    assert_eq!(call.bindings, renderer.bindings(&red_material()));
    assert_eq!(renderer.eye(), renderer.draw().eye);
}
