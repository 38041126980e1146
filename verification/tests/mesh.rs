use wgpu_sandbox::pipeline::mesh::{
    BindGroup, Binding, BufferWrite, CapacityError, DrawCall, Mesh,
};
use wgpu_sandbox::pipeline::{
    create_storage_buffer, create_uniform_buffer, BufferDescriptor, BufferUsage,
};
use wgpu_sandbox::scene::{InitData, KeyStates, Model, Scene};

#[derive(Clone, Copy, Debug)]
struct Vertex {
    position: [f32; 3],
    normal: [f32; 3],
    uv: [f32; 2],
}

#[derive(Clone, Copy, Debug)]
struct PointLight {
    position: [f32; 3],
    padding: f32,
    color: [f32; 3],
    strength: f32,
}

#[derive(Clone, Copy, Debug)]
struct DirectionalLight {
    position: [f32; 3],
    padding0: f32,
    direction: [f32; 3],
    padding1: f32,
    color: [f32; 3],
    strength: f32,
}

#[derive(Clone, Copy, Debug)]
struct Object {
    model: [[f32; 4]; 4],
    metallic: f32,
    padding: [f32; 3],
}

#[derive(Clone, Copy, Debug)]
struct CameraUniform {
    position: [f32; 3],
    padding: f32,
    view_proj: [[f32; 4]; 4],
}

#[derive(Clone, Copy, Debug)]
struct Camera {
    uniform: CameraUniform,
    speed: f32,
}

type TestScene = Scene<Object, PointLight, DirectionalLight, Camera>;

fn vertex() -> Vertex {
    Vertex { position: [0.0; 3], normal: [0.0, 1.0, 0.0], uv: [0.5, 0.5] }
}

fn object(metallic: f32) -> Object {
    Object { model: [[0.0; 4]; 4], metallic, padding: [0.0; 3] }
}

fn light() -> PointLight {
    PointLight { position: [0.0, 2.0, -2.0], padding: 0.0, color: [1.0; 3], strength: 1.0 }
}

fn camera() -> Camera {
    Camera {
        uniform: CameraUniform { position: [0.0; 3], padding: 0.0, view_proj: [[0.0; 4]; 4] },
        speed: 2.5,
    }
}

fn model(vertices: usize, indices: usize) -> Model<Vertex> {
    Model { vertex_buffer: vec![vertex(); vertices], index_buffer: vec![0; indices] }
}

fn scene(objects: usize, lights: usize) -> TestScene {
    Scene::new(vec![object(0.5); objects], vec![light(); lights], Vec::new(), camera())
}

fn mesh(models: Vec<Model<Vertex>>, scene: &TestScene) -> Mesh {
    let init_data = InitData { models };
    match Mesh::new::<Vertex, Object, PointLight, DirectionalLight, Camera, CameraUniform>(
        &init_data, scene,
    ) {
        Ok(mesh) => mesh,
        Err(()) => panic!("the layout fits"),
    }
}

fn buffer(size: u64, usage: BufferUsage) -> BufferDescriptor {
    BufferDescriptor { size, usage, mapped_at_creation: false }
}

#[test]
fn uniform_buffer_for_one_value_has_its_size() {
    assert_eq!(create_uniform_buffer::<Object>(None), buffer(80, BufferUsage::Uniform));
    assert_eq!(create_uniform_buffer::<CameraUniform>(None), buffer(80, BufferUsage::Uniform));
    assert_eq!(create_uniform_buffer::<u8>(None), buffer(1, BufferUsage::Uniform));
}

#[test]
fn uniform_buffer_for_a_count_multiplies() {
    assert_eq!(create_uniform_buffer::<Object>(Some(3)), buffer(240, BufferUsage::Uniform));
    assert_eq!(create_uniform_buffer::<Object>(Some(0)), buffer(0, BufferUsage::Uniform));
    assert_eq!(create_uniform_buffer::<Object>(Some(1)), buffer(80, BufferUsage::Uniform));
}

#[test]
fn storage_buffer_for_one_value_has_its_size() {
    assert_eq!(create_storage_buffer::<PointLight>(None), buffer(32, BufferUsage::Storage));
    assert_eq!(create_storage_buffer::<DirectionalLight>(None), buffer(48, BufferUsage::Storage));
}

#[test]
fn storage_buffer_for_a_count_multiplies() {
    assert_eq!(create_storage_buffer::<PointLight>(Some(5)), buffer(160, BufferUsage::Storage));
    assert_eq!(create_storage_buffer::<PointLight>(Some(0)), buffer(0, BufferUsage::Storage));
    assert_eq!(
        create_storage_buffer::<u8>(Some(u64::MAX)),
        buffer(u64::MAX, BufferUsage::Storage)
    );
}

#[test]
fn buffers_are_never_mapped_at_creation() {
    assert!(!create_uniform_buffer::<u32>(Some(2)).mapped_at_creation);
    assert!(!create_storage_buffer::<u32>(None).mapped_at_creation);
}

#[test]
fn mesh_new_sizes_every_buffer() {
    let scene = scene(3, 2);
    let mesh = mesh(vec![model(8, 36), model(5, 9)], &scene);
    let layout = mesh.layout();
    assert_eq!(layout.light_count, 2);
    assert_eq!(layout.lights_buffer, buffer(64, BufferUsage::Storage));
    assert_eq!(layout.camera_buffer, buffer(80, BufferUsage::Uniform));
    assert_eq!(layout.object_buffers, vec![buffer(80, BufferUsage::Uniform); 3]);
    assert_eq!(
        layout.vertex_buffers,
        vec![buffer(256, BufferUsage::Vertex), buffer(160, BufferUsage::Vertex)]
    );
    assert_eq!(
        layout.index_buffers,
        vec![buffer(144, BufferUsage::Index), buffer(36, BufferUsage::Index)]
    );
    assert_eq!(layout.index_lengths, vec![36, 9]);
}

#[test]
fn mesh_new_binds_camera_and_object_per_object_and_lights_once() {
    let scene = scene(3, 1);
    let mesh = mesh(vec![model(3, 3)], &scene);
    let layout = mesh.layout();
    assert_eq!(
        layout.uniform_groups,
        vec![
            BindGroup { entries: vec![Binding::Camera, Binding::Object(0)] },
            BindGroup { entries: vec![Binding::Camera, Binding::Object(1)] },
            BindGroup { entries: vec![Binding::Camera, Binding::Object(2)] },
        ]
    );
    assert_eq!(layout.storage_group, BindGroup { entries: vec![Binding::Lights] });
}

#[test]
fn mesh_new_of_an_empty_scene_has_only_the_shared_buffers() {
    let scene = scene(0, 0);
    let mesh = mesh(Vec::new(), &scene);
    let layout = mesh.layout();
    assert_eq!(layout.light_count, 0);
    assert_eq!(layout.lights_buffer, buffer(0, BufferUsage::Storage));
    assert_eq!(layout.camera_buffer, buffer(80, BufferUsage::Uniform));
    assert!(layout.object_buffers.is_empty());
    assert!(layout.uniform_groups.is_empty());
    assert!(layout.vertex_buffers.is_empty());
    assert!(layout.index_buffers.is_empty());
    assert!(layout.index_lengths.is_empty());
    assert!(mesh.draw().is_empty());
}

#[test]
fn mesh_new_takes_a_model_without_geometry() {
    let scene = scene(1, 1);
    let mesh = mesh(vec![model(0, 0)], &scene);
    let layout = mesh.layout();
    assert_eq!(layout.vertex_buffers, vec![buffer(0, BufferUsage::Vertex)]);
    assert_eq!(layout.index_buffers, vec![buffer(0, BufferUsage::Index)]);
    assert_eq!(layout.index_lengths, vec![0]);
}

#[test]
fn update_of_a_new_scene_writes_lights_camera_and_every_object_in_order() {
    let scene = scene(3, 2);
    let mesh = mesh(vec![model(3, 3)], &scene);
    let plan = match mesh.update(&scene) {
        Ok(plan) => plan,
        Err(error) => panic!("the scene has the mesh's capacity: {:?}", error),
    };
    assert!(plan.lights);
    assert!(plan.camera);
    assert!(plan.objects);
    assert_eq!(
        plan.writes,
        vec![
            BufferWrite::Lights,
            BufferWrite::Camera,
            BufferWrite::Object(0),
            BufferWrite::Object(1),
            BufferWrite::Object(2),
        ]
    );
}

#[test]
fn update_leaves_the_flags_for_clear() {
    let scene = scene(2, 1);
    let mesh = mesh(vec![model(3, 3)], &scene);
    assert!(mesh.update(&scene).is_ok());
    assert!(scene.point_lights.is_dirty());
    assert!(scene.camera.is_dirty());
    assert!(scene.objects.is_dirty());
    let again = mesh.update(&scene);
    assert_eq!(again.map(|plan| plan.writes.len()), Ok(4));
}

#[test]
fn clear_after_the_writes_leaves_nothing_to_write() {
    let mut scene = scene(2, 1);
    let mesh = mesh(vec![model(3, 3)], &scene);
    let plan = mesh.update(&scene).expect("capacity");
    plan.clear(&mut scene);
    assert!(!scene.point_lights.is_dirty());
    assert!(!scene.camera.is_dirty());
    assert!(!scene.objects.is_dirty());
    assert!(scene.directional_lights.is_dirty());
    assert_eq!(scene.objects.values.len(), 2);
    let next = mesh.update(&scene).expect("capacity");
    assert!(!next.lights && !next.camera && !next.objects);
    assert_eq!(next.writes, Vec::new());
}

#[test]
fn update_after_a_tick_writes_the_camera_only() {
    let mut scene = scene(2, 1);
    let mesh = mesh(vec![model(3, 3)], &scene);
    mesh.update(&scene).expect("capacity").clear(&mut scene);
    let keys = KeyStates { key_w: Some(true), key_s: None, key_d: None, key_a: None };
    let mut mouse: Vec<(f32, f32)> = Vec::new();
    scene.update(&keys, &mut mouse);
    let plan = mesh.update(&scene).expect("capacity");
    assert_eq!(plan.writes, vec![BufferWrite::Camera]);
    assert!(plan.camera && !plan.lights && !plan.objects);
}

#[test]
fn update_writes_what_the_owner_marked() {
    let mut scene = scene(2, 1);
    let mesh = mesh(vec![model(3, 3)], &scene);
    mesh.update(&scene).expect("capacity").clear(&mut scene);
    scene.objects.values[1].metallic = 0.9;
    scene.objects.dirty = true;
    let objects = mesh.update(&scene).expect("capacity");
    assert_eq!(objects.writes, vec![BufferWrite::Object(0), BufferWrite::Object(1)]);
    objects.clear(&mut scene);
    scene.point_lights.values[0].strength = 3.0;
    scene.point_lights.dirty = true;
    let lights = mesh.update(&scene).expect("capacity");
    assert_eq!(lights.writes, vec![BufferWrite::Lights]);
}

#[test]
fn clear_keeps_the_flag_of_what_the_plan_did_not_write() {
    let mut scene = scene(1, 1);
    let mesh = mesh(vec![model(3, 3)], &scene);
    mesh.update(&scene).expect("capacity").clear(&mut scene);
    scene.camera.dirty = true;
    let plan = mesh.update(&scene).expect("capacity");
    scene.objects.dirty = true;
    plan.clear(&mut scene);
    assert!(!scene.camera.is_dirty());
    assert!(scene.objects.is_dirty());
    assert!(!scene.point_lights.is_dirty());
}

#[test]
fn update_refuses_a_scene_with_more_objects() {
    let made_for = scene(2, 1);
    let mesh = mesh(vec![model(3, 3)], &made_for);
    let larger = scene(3, 1);
    assert_eq!(mesh.update(&larger), Err(CapacityError::Objects));
}

#[test]
fn update_refuses_a_scene_with_fewer_objects() {
    let made_for = scene(2, 1);
    let mesh = mesh(vec![model(3, 3)], &made_for);
    let smaller = scene(1, 1);
    assert_eq!(mesh.update(&smaller), Err(CapacityError::Objects));
    let none = scene(0, 1);
    assert_eq!(mesh.update(&none), Err(CapacityError::Objects));
}

#[test]
fn update_refuses_a_clean_scene_of_another_size_too() {
    let made_for = scene(2, 1);
    let mesh = mesh(vec![model(3, 3)], &made_for);
    let mut other = scene(4, 1);
    other.objects.clear();
    other.camera.clear();
    other.point_lights.clear();
    assert_eq!(mesh.update(&other), Err(CapacityError::Objects));
}

#[test]
fn update_refuses_a_scene_with_another_number_of_lights() {
    let made_for = scene(2, 2);
    let mesh = mesh(vec![model(3, 3)], &made_for);
    assert_eq!(mesh.update(&scene(2, 3)), Err(CapacityError::Lights));
    assert_eq!(mesh.update(&scene(2, 0)), Err(CapacityError::Lights));
}

#[test]
fn update_reports_the_lights_first_where_both_differ() {
    let made_for = scene(2, 2);
    let mesh = mesh(vec![model(3, 3)], &made_for);
    assert_eq!(mesh.update(&scene(5, 1)), Err(CapacityError::Lights));
}

#[test]
fn draw_issues_one_call_per_object_in_order() {
    let scene = scene(2, 1);
    let mesh = mesh(vec![model(8, 36), model(5, 9)], &scene);
    assert_eq!(
        mesh.draw(),
        vec![
            DrawCall { vertex_buffer: 0, index_buffer: 0, uniform_group: 0, index_count: 36 },
            DrawCall { vertex_buffer: 1, index_buffer: 1, uniform_group: 1, index_count: 9 },
        ]
    );
}

#[test]
fn draw_leaves_out_an_object_without_a_model() {
    let scene = scene(3, 1);
    let mesh = mesh(vec![model(8, 36), model(5, 9)], &scene);
    let calls = mesh.draw();
    assert_eq!(calls.len(), 2);
    assert_eq!(calls[1].uniform_group, 1);
    assert_eq!(calls[1].index_count, 9);
}

#[test]
fn draw_leaves_out_a_model_without_an_object() {
    let scene = scene(1, 1);
    let mesh = mesh(vec![model(8, 36), model(5, 9)], &scene);
    assert_eq!(
        mesh.draw(),
        vec![DrawCall { vertex_buffer: 0, index_buffer: 0, uniform_group: 0, index_count: 36 }]
    );
}

#[test]
fn draw_is_the_same_every_frame() {
    let mut scene = scene(2, 1);
    let mesh = mesh(vec![model(8, 36), model(5, 9)], &scene);
    let first = mesh.draw();
    mesh.update(&scene).expect("capacity").clear(&mut scene);
    assert_eq!(mesh.draw(), first);
}
