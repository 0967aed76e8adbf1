use scene_render::bounding_box::{edge_prism, wireframe_transforms, BoundingBox};
use scene_render::context::Context;
use scene_render::draw::{Attribute, Camera, RenderError, Viewport};
use scene_render::geometry::{compute_aabb, Aabb, Mat3, Mat4, Vec3};
use scene_render::instanced::InstancedModel;
use scene_render::light::{AmbientLight, DirectionalLight, LightKind, Lights, PointLight, SpotLight};
use scene_render::material::{Color, ColorMaterial, LightingModel, Material, PhysicalMaterial, Texture, UvMaterial};
use scene_render::mesh::CpuMesh;
use scene_render::model::Model;
use scene_render::render_states::{Blend, Cull, DepthTest};

fn v(x: i32, y: i32, z: i32) -> Vec3 {
    Vec3 { x, y, z }
}

fn triangle_mesh() -> CpuMesh {
    CpuMesh {
        positions: vec![v(1, -2, 3), v(-4, 5, 0), v(2, 7, -6)],
        indices: Some(vec![0, 1, 2]),
        normals: Some(vec![v(0, 0, 1), v(0, 0, 1), v(0, 0, 1)]),
        uvs: None,
        colors: None,
    }
}

fn camera() -> Camera {
    Camera { viewport: Viewport::new_at_origin(800, 600) }
}

fn opaque_color() -> Material {
    Material::Color(ColorMaterial::new(Color { r: 10, g: 20, b: 30, a: 255 }))
}

fn translation(x: i64, y: i64, z: i64) -> Mat4 {
    Mat4 { rows: [[1, 0, 0, x], [0, 1, 0, y], [0, 0, 1, z], [0, 0, 0, 1]] }
}

#[test]
fn local_box_is_componentwise_min_max() {
    let b = compute_aabb(&vec![v(1, -2, 3), v(-4, 5, 0), v(2, 7, -6)]);
    assert_eq!(b.min, v(-4, -2, -6));
    assert_eq!(b.max, v(2, 7, 3));
}

#[test]
fn single_vertex_box_is_a_point() {
    let b = compute_aabb(&vec![v(3, 3, 3)]);
    assert_eq!(b.min, v(3, 3, 3));
    assert_eq!(b.max, v(3, 3, 3));
}

#[test]
fn new_model_world_box_equals_local_box() {
    let m = Model::new(triangle_mesh(), opaque_color()).unwrap();
    assert_eq!(m.aabb(), Aabb { min: v(-4, -2, -6), max: v(2, 7, 3) });
    assert_eq!(m.transformation(), Mat4::identity());
}

#[test]
fn identity_transform_keeps_world_box() {
    let mut m = Model::new(triangle_mesh(), opaque_color()).unwrap();
    let before = m.aabb();
    assert_eq!(m.set_transformation(Mat4::identity()), Ok(()));
    assert_eq!(m.aabb(), before);
}

#[test]
fn translated_world_box() {
    let mut m = Model::new(triangle_mesh(), opaque_color()).unwrap();
    assert_eq!(m.set_transformation(translation(10, 0, -1)), Ok(()));
    assert_eq!(m.aabb(), Aabb { min: v(6, -2, -7), max: v(12, 7, 2) });
}

#[test]
fn rotated_and_scaled_world_box() {
    let mut m = Model::new(triangle_mesh(), opaque_color()).unwrap();
    // Quarter turn about z: (x, y, z) -> (-y, x, z), then z doubled.
    let t = Mat4 { rows: [[0, -1, 0, 0], [1, 0, 0, 0], [0, 0, 2, 0], [0, 0, 0, 1]] };
    assert_eq!(m.set_transformation(t), Ok(()));
    assert_eq!(m.aabb(), Aabb { min: v(-7, -4, -12), max: v(2, 2, 6) });
}

#[test]
fn sheared_world_box_uses_all_corners() {
    let mut m = Model::new(triangle_mesh(), opaque_color()).unwrap();
    // x' = x + y: the corners of the local box reach from -6 to 9.
    let t = Mat4 { rows: [[1, 1, 0, 0], [0, 1, 0, 0], [0, 0, 1, 0], [0, 0, 0, 1]] };
    assert_eq!(m.set_transformation(t), Ok(()));
    assert_eq!(m.aabb(), Aabb { min: v(-6, -2, -6), max: v(9, 7, 3) });
}

#[test]
fn transform_out_of_range_is_rejected() {
    let mut m = Model::new(triangle_mesh(), opaque_color()).unwrap();
    let before = m.aabb();
    let t = Mat4 { rows: [[1_000_000_000, 0, 0, 0], [0, 1, 0, 0], [0, 0, 1, 0], [0, 0, 0, 1]] };
    assert_eq!(m.set_transformation(t), Err(RenderError::InvalidTransform));
    assert_eq!(m.aabb(), before);
    assert_eq!(m.transformation(), Mat4::identity());
}

#[test]
fn planar_transform_keeps_z() {
    let mut m = Model::new(triangle_mesh(), opaque_color()).unwrap();
    let t = Mat3 { rows: [[1, 0, 5], [0, 1, 6], [0, 0, 1]] };
    assert_eq!(m.set_transformation_2d(t), Ok(()));
    assert_eq!(m.aabb(), Aabb { min: v(1, 4, -6), max: v(7, 13, 3) });
    assert_eq!(m.transformation().rows[2], [0, 0, 1, 0]);
}

#[test]
fn zero_vertices_is_invalid_geometry() {
    let mesh = CpuMesh { positions: vec![], indices: None, normals: None, uvs: None, colors: None };
    assert_eq!(Model::new(mesh, opaque_color()).err(), Some(RenderError::InvalidGeometry));
}

#[test]
fn index_out_of_range_is_invalid_geometry() {
    let mut mesh = triangle_mesh();
    mesh.indices = Some(vec![0, 1, 3]);
    assert_eq!(Model::new(mesh, opaque_color()).err(), Some(RenderError::InvalidGeometry));
}

#[test]
fn attribute_count_mismatch_is_invalid_geometry() {
    let mut mesh = triangle_mesh();
    mesh.normals = Some(vec![v(0, 0, 1)]);
    assert_eq!(Model::new(mesh, opaque_color()).err(), Some(RenderError::InvalidGeometry));
}

#[test]
fn empty_instance_list_is_rejected() {
    let r = InstancedModel::new_with_material(vec![], triangle_mesh(), opaque_color());
    assert_eq!(r.err(), Some(RenderError::EmptyInstanceList));
}

#[test]
fn empty_mesh_is_rejected_before_instances() {
    let mesh = CpuMesh { positions: vec![], indices: None, normals: None, uvs: None, colors: None };
    let r = InstancedModel::new_with_material(vec![], mesh, opaque_color());
    assert_eq!(r.err(), Some(RenderError::InvalidGeometry));
}

#[test]
fn instanced_world_box_is_union_of_instances() {
    let r = InstancedModel::new_with_material(
        vec![translation(0, 0, 0), translation(100, 0, 0)],
        triangle_mesh(),
        opaque_color(),
    )
    .unwrap();
    assert_eq!(r.aabb(), Aabb { min: v(-4, -2, -6), max: v(102, 7, 3) });
    assert_eq!(r.instances().len(), 2);
}

#[test]
fn wireframe_of_box_has_twelve_edges() {
    // Scene units of a thousandth: the box from (0, 0, 0) to (2, 4, 6), edges 0.12 thick.
    let b = Aabb { min: v(0, 0, 0), max: v(2000, 4000, 6000) };
    let ts = wireframe_transforms(&b);
    assert_eq!(ts.len(), 12);
    let t = 120;
    let x_edge = |x: i64, y: i64, z: i64| Mat4 { rows: [[2000, 0, 0, x], [0, t, 0, y], [0, 0, t, z], [0, 0, 0, 1]] };
    let y_edge = |x: i64, y: i64, z: i64| Mat4 { rows: [[0, -t, 0, x], [4000, 0, 0, y], [0, 0, t, z], [0, 0, 0, 1]] };
    let z_edge = |x: i64, y: i64, z: i64| Mat4 { rows: [[0, 0, -t, x], [0, t, 0, y], [6000, 0, 0, z], [0, 0, 0, 1]] };
    let expected = vec![
        x_edge(0, 0, 0),
        x_edge(0, 4000, 6000),
        x_edge(0, 0, 6000),
        x_edge(0, 4000, 0),
        y_edge(0, 0, 0),
        y_edge(2000, 0, 6000),
        y_edge(0, 0, 6000),
        y_edge(2000, 0, 0),
        z_edge(0, 0, 0),
        z_edge(2000, 4000, 0),
        z_edge(0, 4000, 0),
        z_edge(2000, 0, 0),
    ];
    assert_eq!(ts, expected);
}

#[test]
fn bounding_box_keeps_its_box_and_instances() {
    let b = Aabb { min: v(0, 0, 0), max: v(2000, 4000, 6000) };
    let bb = BoundingBox::new_with_material(b, opaque_color()).unwrap();
    assert_eq!(bb.aabb(), b);
    assert_eq!(bb.instances(), &wireframe_transforms(&b));
    assert_eq!(bb.transformation(), Mat4::identity());
    assert!(!bb.is_transparent());
}

#[test]
fn edge_prism_is_valid() {
    let m = edge_prism();
    assert!(m.is_valid());
    assert_eq!(m.positions.len(), 8);
}

#[test]
fn transparent_forward_draw_blends_without_depth_writes() {
    let m = Model::new(triangle_mesh(), opaque_color()).unwrap();
    let mut ctx = Context::new();
    let glass = Material::Color(ColorMaterial::new(Color { r: 255, g: 255, b: 255, a: 100 }));
    let d = m.render_forward(&glass, &camera(), &Lights::none(), &mut ctx).unwrap();
    assert!(matches!(d.render_states.blend, Blend::Enabled(_)));
    assert!(!d.render_states.write_mask.depth);
    assert_eq!(d.render_states.blend, Blend::transparency());
}

#[test]
fn opaque_forward_draw_writes_depth_without_blending() {
    let m = Model::new(triangle_mesh(), opaque_color()).unwrap();
    let mut ctx = Context::new();
    let d = m.render_forward(&opaque_color(), &camera(), &Lights::none(), &mut ctx).unwrap();
    assert_eq!(d.render_states.blend, Blend::Disabled);
    assert!(d.render_states.write_mask.depth);
    assert_eq!(d.render_states.depth_test, DepthTest::Less);
    assert_eq!(d.viewport, Viewport { x: 0, y: 0, width: 800, height: 600 });
}

#[test]
fn transparent_texture_makes_material_transparent() {
    let tex = Texture { id: 1, width: 4, height: 4, has_alpha: true };
    let m = Material::Color(ColorMaterial::new_with_texture(Color::white(), tex));
    assert!(m.is_transparent());
    assert!(!opaque_color().is_transparent());
}

#[test]
fn identical_sources_share_one_program() {
    let mut ctx = Context::new();
    let (a, first) = ctx.program("vertex", "fragment");
    let (b, again) = ctx.program("vertex", "fragment");
    let (c, other) = ctx.program("vertex", "other fragment");
    assert!(first);
    assert!(!again);
    assert!(other);
    assert_eq!(a, b);
    assert_ne!(a, c);
    assert_eq!(ctx.program_count(), 2);
}

#[test]
fn repeated_draws_compile_once() {
    let m = Model::new(triangle_mesh(), opaque_color()).unwrap();
    let mut ctx = Context::new();
    let d1 = m.render(&camera(), &Lights::none(), &mut ctx).unwrap();
    let d2 = m.render(&camera(), &Lights::none(), &mut ctx).unwrap();
    assert_eq!(d1.program, d2.program);
    assert_eq!(ctx.program_count(), 1);
    let d3 = m.render_normals(&camera(), &mut ctx).unwrap();
    assert_ne!(d3.program, d1.program);
    assert_eq!(ctx.program_count(), 2);
}

#[test]
fn uv_material_on_mesh_without_uvs_fails() {
    let m = Model::new(triangle_mesh(), opaque_color()).unwrap();
    let mut ctx = Context::new();
    let r = m.render_forward(&Material::Uv(UvMaterial::new()), &camera(), &Lights::none(), &mut ctx);
    assert_eq!(r, Err(RenderError::MissingAttribute(Attribute::Uv)));
    assert_eq!(ctx.program_count(), 0);
    assert_eq!(m.render_uvs(&camera(), &mut ctx), Err(RenderError::MissingAttribute(Attribute::Uv)));
}

#[test]
fn render_color_needs_vertex_colors() {
    let m = Model::new(triangle_mesh(), opaque_color()).unwrap();
    let mut ctx = Context::new();
    assert_eq!(m.render_color(&camera(), &mut ctx), Err(RenderError::MissingAttribute(Attribute::Color)));
    let mut mesh = triangle_mesh();
    mesh.colors = Some(vec![Color::white(), Color::white(), Color::white()]);
    let m = Model::new(mesh, opaque_color()).unwrap();
    assert!(m.render_color(&camera(), &mut ctx).is_ok());
}

#[test]
fn physical_material_needs_normals() {
    let mut mesh = triangle_mesh();
    mesh.normals = None;
    let m = Model::new(mesh, opaque_color()).unwrap();
    let mut ctx = Context::new();
    let p = PhysicalMaterial::new(Color::white(), 0, 128, LightingModel::Blinn);
    let r = m.render_deferred(&p, &camera(), Viewport::new_at_origin(4, 4), &mut ctx);
    assert_eq!(r, Err(RenderError::MissingAttribute(Attribute::Normal)));
    assert_eq!(m.render_normals(&camera(), &mut ctx), Err(RenderError::MissingAttribute(Attribute::Normal)));
}

#[test]
fn deferred_draw_uses_model_culling() {
    let mut m = Model::new(triangle_mesh(), opaque_color()).unwrap();
    m.set_cull(Cull::Back);
    let mut ctx = Context::new();
    let p = PhysicalMaterial::new(Color::white(), 0, 128, LightingModel::CookTorrance);
    let d = m.render_deferred(&p, &camera(), Viewport::new_at_origin(4, 4), &mut ctx).unwrap();
    assert_eq!(d.render_states.cull, Cull::Back);
    assert_eq!(d.viewport, Viewport::new_at_origin(4, 4));
    let g = m.geometry_pass(&camera(), Viewport::new_at_origin(4, 4), &p, &mut ctx).unwrap();
    assert_eq!(g.program, d.program);
}

#[test]
fn depth_draws_write_masks() {
    let m = Model::new(triangle_mesh(), opaque_color()).unwrap();
    let mut ctx = Context::new();
    let d = m.render_depth(&camera(), &mut ctx).unwrap();
    assert!(d.render_states.write_mask.depth && !d.render_states.write_mask.red);
    let r = m.render_depth_to_red(&camera(), 100, &mut ctx).unwrap();
    assert!(r.render_states.write_mask.depth && r.render_states.write_mask.red);
    assert!(!r.render_states.write_mask.green);
}

#[test]
fn render_with_color_and_texture() {
    let mut mesh = triangle_mesh();
    mesh.uvs = Some(vec![(0, 0), (65536, 0), (0, 65536)]);
    let m = Model::new(mesh, opaque_color()).unwrap();
    let mut ctx = Context::new();
    let d = m.render_with_color(Color { r: 1, g: 2, b: 3, a: 4 }, &camera(), &mut ctx).unwrap();
    assert!(!d.render_states.write_mask.depth);
    let tex = Texture { id: 7, width: 2, height: 2, has_alpha: false };
    let t = m.render_with_texture(&tex, &camera(), &mut ctx).unwrap();
    assert!(t.render_states.write_mask.depth);
    assert_eq!(t.render_states.blend, Blend::Disabled);
}

fn lights() -> Lights {
    let c = Color::white();
    Lights {
        ambient: Some(AmbientLight { color: c, intensity: 10 }),
        directional: vec![DirectionalLight { color: c, intensity: 1, direction: v(0, -1, 0) }],
        spot: vec![SpotLight { color: c, intensity: 1, position: v(0, 5, 0), direction: v(0, -1, 0), cutoff_degrees: 30 }],
        point: vec![
            PointLight { color: c, intensity: 1, position: v(1, 1, 1) },
            PointLight { color: c, intensity: 2, position: v(2, 2, 2) },
        ],
    }
}

#[test]
fn lights_are_ordered_ambient_directional_spot_point() {
    assert_eq!(
        lights().light_kinds(),
        vec![LightKind::Ambient, LightKind::Directional, LightKind::Spot, LightKind::Point, LightKind::Point]
    );
}

#[test]
fn lit_shader_lists_each_light_in_order() {
    let p = Material::Physical(PhysicalMaterial::new(Color::white(), 0, 128, LightingModel::Phong));
    let s = p.fragment_shader_source(false, &lights());
    assert!(s.starts_with("LIGHT(ambient)\nLIGHT(directional)\nLIGHT(spot)\nLIGHT(point)\nLIGHT(point)\n#define PHONG\n"));
    let unlit = p.fragment_shader_source(true, &Lights::none());
    assert!(unlit.starts_with("#define PHONG\n#define USE_VERTEX_COLORS\n"));
}

#[test]
fn lit_draw_on_model() {
    let m = Model::new(triangle_mesh(), opaque_color()).unwrap();
    let mut ctx = Context::new();
    let p = PhysicalMaterial::new(Color { r: 9, g: 9, b: 9, a: 200 }, 0, 128, LightingModel::Phong);
    let d = m.render_with_lighting(&camera(), &p, LightingModel::Blinn, &lights(), &mut ctx).unwrap();
    assert!(matches!(d.render_states.blend, Blend::Enabled(_)));
}

#[test]
fn wireframe_draws_in_one_call() {
    let b = Aabb { min: v(0, 0, 0), max: v(2000, 4000, 6000) };
    let bb = BoundingBox::new_with_material(b, opaque_color()).unwrap();
    let mut ctx = Context::new();
    let d = bb.render(&camera(), &Lights::none(), &mut ctx).unwrap();
    assert_eq!(d.transformation, Mat4::identity());
    let f = bb.render_forward(&opaque_color(), &camera(), &Lights::none(), &mut ctx).unwrap();
    assert_eq!(f.program, d.program);
    let p = PhysicalMaterial::new(Color::white(), 0, 128, LightingModel::Phong);
    let g = bb.render_deferred(&p, &camera(), Viewport::new_at_origin(8, 8), &mut ctx).unwrap();
    assert_ne!(g.program, d.program);
    assert_eq!(ctx.program_count(), 2);
}

#[test]
fn instanced_and_single_draws_use_different_programs() {
    let m = Model::new(triangle_mesh(), opaque_color()).unwrap();
    let i = InstancedModel::new_with_material(vec![translation(1, 2, 3)], triangle_mesh(), opaque_color()).unwrap();
    let mut ctx = Context::new();
    let a = m.render(&camera(), &Lights::none(), &mut ctx).unwrap();
    let b = i.render(&camera(), &Lights::none(), &mut ctx).unwrap();
    assert_ne!(a.program, b.program);
    assert_eq!(i.aabb(), Aabb { min: v(-3, 0, -3), max: v(3, 9, 6) });
}

#[test]
fn forward_draw_uses_model_culling() {
    let mut m = Model::new(triangle_mesh(), opaque_color()).unwrap();
    m.set_cull(Cull::Front);
    let mut ctx = Context::new();
    let d = m.render_forward(&opaque_color(), &camera(), &Lights::none(), &mut ctx).unwrap();
    assert_eq!(d.render_states.cull, Cull::Front);
    let i = InstancedModel::new_with_material(vec![translation(0, 0, 0)], triangle_mesh(), opaque_color());
    let mut i = i.unwrap();
    i.set_cull(Cull::Back);
    let e = i.render(&camera(), &Lights::none(), &mut ctx).unwrap();
    assert_eq!(e.render_states.cull, Cull::Back);
}

#[test]
fn deferred_draw_keeps_a_depth_test() {
    let m = Model::new(triangle_mesh(), opaque_color()).unwrap();
    let mut ctx = Context::new();
    let mut p = PhysicalMaterial::new(Color::white(), 0, 128, LightingModel::Blinn);
    p.opaque_render_states.depth_test = DepthTest::Always;
    let d = m.render_deferred(&p, &camera(), Viewport::new_at_origin(4, 4), &mut ctx).unwrap();
    assert_eq!(d.render_states.depth_test, DepthTest::Less);
    p.opaque_render_states.depth_test = DepthTest::Greater;
    let g = m.render_deferred(&p, &camera(), Viewport::new_at_origin(4, 4), &mut ctx).unwrap();
    assert_eq!(g.render_states.depth_test, DepthTest::Greater);
    assert_eq!(g.material, Material::Physical(p));
    assert!(g.lights.is_empty());
}

#[test]
fn draw_call_carries_material_and_lights() {
    let mut mesh = triangle_mesh();
    mesh.uvs = Some(vec![(0, 0), (65536, 0), (0, 65536)]);
    let m = Model::new(mesh, opaque_color()).unwrap();
    let mut ctx = Context::new();
    let c = Color { r: 1, g: 2, b: 3, a: 4 };
    let d = m.render_with_color(c, &camera(), &mut ctx).unwrap();
    assert!(matches!(d.material, Material::Color(cm) if cm.color == c && cm.texture.is_none()));
    let tex = Texture { id: 7, width: 2, height: 2, has_alpha: false };
    let t = m.render_with_texture(&tex, &camera(), &mut ctx).unwrap();
    assert!(matches!(t.material, Material::Color(cm) if cm.texture == Some(tex)));
    let r = m.render_depth_to_red(&camera(), 100, &mut ctx).unwrap();
    assert!(matches!(r.material, Material::Depth(dm) if dm.max_distance == Some(100)));
    let p = PhysicalMaterial::new(Color::white(), 0, 128, LightingModel::Phong);
    let l = m.render_with_lighting(&camera(), &p, LightingModel::Phong, &lights(), &mut ctx).unwrap();
    assert_eq!(
        l.lights,
        vec![LightKind::Ambient, LightKind::Directional, LightKind::Spot, LightKind::Point, LightKind::Point]
    );
}

#[test]
fn failed_compile_leaves_cache_clean() {
    let mut ctx = Context::new();
    let (a, _) = ctx.program("vertex", "fragment");
    let (bad, fresh) = ctx.program("vertex", "broken");
    assert!(fresh);
    let e = ctx.reject_program(bad, "syntax error".to_string());
    assert_eq!(e, RenderError::ShaderCompile("syntax error".to_string()));
    assert_eq!(ctx.program_count(), 1);
    let (again, _) = ctx.program("vertex", "fragment");
    assert_eq!(again, a);
}
