use vstd::prelude::*;
use crate::context::{Context, SourcePair};
use crate::draw::{request_program, requested, Attribute, Camera, DrawCall, RenderError, Viewport};
use crate::geometry::{
    compute_aabb, fits_i32, is_bounds_of, lower_corner, point_of, row_dot, upper_corner, bounds_of_coordinates,
    Aabb, Mat4, Point, Vec3,
};
use crate::light::{LightKind, Lights};
use crate::material::{deferred_source, Material, PhysicalMaterial};
use crate::render_states::{Cull, DepthTest};
use crate::mesh::{vertex_shader_source, vertex_source, CpuMesh};
use crate::model::missing_attribute;

verus! {

/// The corners of the box `b` moved by each of `instances`: corner `j` of instance `i`
/// stands at `8 * i + j`.
pub open spec fn instance_corners(b: Aabb, instances: Seq<Mat4>) -> Seq<Point> {
    Seq::new((8 * instances.len()) as nat, |k: int| instances[k / 8].apply(b.corners()[k % 8]))
}

/// One mesh drawn once per instance transformation, in a single draw call.
pub struct InstancedModel {
    mesh: CpuMesh,
    instances: Vec<Mat4>,
    aabb: Aabb,
    aabb_local: Aabb,
    material: Material,
    cull: Cull,
}

impl InstancedModel {
    pub closed spec fn mesh_data(&self) -> CpuMesh {
        self.mesh
    }

    pub closed spec fn instance_list(&self) -> Seq<Mat4> {
        self.instances@
    }

    /// The union of the instances' boxes.
    pub closed spec fn world_box(&self) -> Aabb {
        self.aabb
    }

    pub closed spec fn local_box(&self) -> Aabb {
        self.aabb_local
    }

    pub closed spec fn own_material(&self) -> Material {
        self.material
    }

    /// Face culling that every draw of the instances uses.
    pub closed spec fn cull_mode(&self) -> Cull {
        self.cull
    }

    pub open spec fn wf(&self) -> bool {
        &&& self.mesh_data().valid()
        &&& self.instance_list().len() > 0
        &&& self.local_box().wf()
        &&& self.world_box().wf()
        &&& is_bounds_of(self.local_box(), self.mesh_data().positions@.map_values(|v: Vec3| point_of(v)))
        &&& is_bounds_of(self.world_box(), instance_corners(self.local_box(), self.instance_list()))
    }

    /// An instanced model of `cpu_mesh`. Fails on an invalid mesh, then on an empty
    /// instance list, then where the union of the instances' boxes leaves the coordinate
    /// range.
    pub fn new_with_material(instances: Vec<Mat4>, cpu_mesh: CpuMesh, material: Material) -> (r: Result<
        InstancedModel,
        RenderError,
    >)
        ensures
            !cpu_mesh.valid() ==> r == Err::<InstancedModel, RenderError>(RenderError::InvalidGeometry),
            cpu_mesh.valid() && instances.len() == 0 ==> r == Err::<InstancedModel, RenderError>(
                RenderError::EmptyInstanceList,
            ),
            cpu_mesh.valid() && instances.len() > 0 ==> {
                let local = compute_aabb_spec(cpu_mesh.positions@);
                let ps = instance_corners(local, instances@);
                &&& r is Ok <==> fits_i32(lower_corner(ps)) && fits_i32(upper_corner(ps))
                &&& r is Err ==> r == Err::<InstancedModel, RenderError>(RenderError::InvalidTransform)
            },
            r matches Ok(m) ==> {
                &&& m.wf()
                &&& m.mesh_data() == cpu_mesh
                &&& m.instance_list() == instances@
                &&& m.own_material() == material
                &&& m.cull_mode() == Cull::Disabled
            },
    {
        if !cpu_mesh.is_valid() {
            return Err(RenderError::InvalidGeometry);
        }
        if instances.len() == 0 {
            return Err(RenderError::EmptyInstanceList);
        }
        let local = compute_aabb(&cpu_mesh.positions);
        proof {
            lemma_bounds_unique(local, cpu_mesh.positions@);
        }
        match union_of_instances(&local, &instances) {
            Some(aabb) => Ok(InstancedModel { mesh: cpu_mesh, instances, aabb, aabb_local: local, material, cull: Cull::Disabled }),
            None => Err(RenderError::InvalidTransform),
        }
    }

    pub fn aabb(&self) -> (r: Aabb)
        ensures
            r == self.world_box(),
    {
        self.aabb
    }

    pub fn instances(&self) -> (r: &Vec<Mat4>)
        ensures
            r@ == self.instance_list(),
    {
        &self.instances
    }

    pub fn mesh(&self) -> (r: &CpuMesh)
        ensures
            *r == self.mesh_data(),
    {
        &self.mesh
    }

    pub fn material(&self) -> (r: &Material)
        ensures
            *r == self.own_material(),
    {
        &self.material
    }

    pub fn cull(&self) -> (r: Cull)
        ensures
            r == self.cull_mode(),
    {
        self.cull
    }

    pub fn set_cull(&mut self, cull: Cull)
        requires
            old(self).wf(),
        ensures
            final(self).wf(),
            final(self).cull_mode() == cull,
            final(self).own_material() == old(self).own_material(),
            final(self).mesh_data() == old(self).mesh_data(),
            final(self).instance_list() == old(self).instance_list(),
            final(self).local_box() == old(self).local_box(),
            final(self).world_box() == old(self).world_box(),
    {
        self.cull = cull;
    }

    pub fn is_transparent(&self) -> (r: bool)
        ensures
            r == self.own_material().transparent(),
    {
        self.material.is_transparent()
    }

    /// What a forward draw of all instances with `material` returns and does to the
    /// program cache: the material's states under this model's culling, the material
    /// and the light kinds to bind; the draw's own transformation is the identity.
    pub open spec fn forward_result(
        &self,
        material: Material,
        camera: Camera,
        kinds: Seq<LightKind>,
        before: Seq<SourcePair>,
        after: Seq<SourcePair>,
        r: Result<DrawCall, RenderError>,
    ) -> bool {
        match missing_attribute(self.mesh_data(), material) {
            Some(a) => r == Err::<DrawCall, RenderError>(RenderError::MissingAttribute(a)) && after == before,
            None => r matches Ok(d) && {
                &&& requested(
                    before,
                    after,
                    (
                        vertex_source(self.mesh_data().shape(true)),
                        material.source(self.mesh_data().colors is Some, kinds),
                    ),
                    d.program.id,
                )
                &&& d.render_states == material.states().with_cull_spec(self.cull_mode())
                &&& d.material == material
                &&& d.lights@ == kinds
                &&& d.viewport == camera.viewport
                &&& d.transformation.is_identity()
            },
        }
    }

    /// One draw call for all instances, with `material` lit by `lights`.
    pub fn render_with_material(
        &self,
        material: &Material,
        camera: &Camera,
        lights: &Lights,
        context: &mut Context,
    ) -> (r: Result<DrawCall, RenderError>)
        requires
            self.wf(),
            old(context).wf(),
        ensures
            final(context).wf(),
            self.forward_result(*material, *camera, lights.kinds(), old(context).sources(), final(context).sources(), r),
    {
        if material.requires_normals() && self.mesh.normals.is_none() {
            return Err(RenderError::MissingAttribute(Attribute::Normal));
        }
        if material.requires_uvs() && self.mesh.uvs.is_none() {
            return Err(RenderError::MissingAttribute(Attribute::Uv));
        }
        let fragment = material.fragment_shader_source(self.mesh.colors.is_some(), lights);
        let vertex = vertex_shader_source(self.mesh.vertex_shape(true));
        let program = request_program(context, &vertex, &fragment);
        Ok(
            DrawCall {
                program,
                material: *material,
                lights: lights.light_kinds(),
                render_states: material.render_states().with_cull(self.cull),
                viewport: camera.viewport,
                transformation: Mat4::identity(),
            },
        )
    }

    /// What a geometry-buffer draw of all instances with `material` returns and does to
    /// the program cache; its render states are the material's opaque ones under this
    /// model's culling, with a depth test that is never `Always`.
    pub open spec fn deferred_result(
        &self,
        material: PhysicalMaterial,
        viewport: Viewport,
        before: Seq<SourcePair>,
        after: Seq<SourcePair>,
        r: Result<DrawCall, RenderError>,
    ) -> bool {
        match missing_attribute(self.mesh_data(), Material::Physical(material)) {
            Some(a) => r == Err::<DrawCall, RenderError>(RenderError::MissingAttribute(a)) && after == before,
            None => r matches Ok(d) && {
                &&& requested(
                    before,
                    after,
                    (
                        vertex_source(self.mesh_data().shape(true)),
                        deferred_source(material, self.mesh_data().colors is Some),
                    ),
                    d.program.id,
                )
                &&& d.render_states == material.opaque_render_states.geometry_pass_spec(self.cull_mode())
                &&& d.render_states.depth_test != DepthTest::Always
                &&& d.material == Material::Physical(material)
                &&& d.lights@.len() == 0
                &&& d.viewport == viewport
                &&& d.transformation.is_identity()
            },
        }
    }

    /// One geometry-buffer draw call for all instances.
    pub fn render_deferred(
        &self,
        material: &PhysicalMaterial,
        camera: &Camera,
        viewport: Viewport,
        context: &mut Context,
    ) -> (r: Result<DrawCall, RenderError>)
        requires
            self.wf(),
            old(context).wf(),
        ensures
            final(context).wf(),
            self.deferred_result(*material, viewport, old(context).sources(), final(context).sources(), r),
    {
        if self.mesh.normals.is_none() {
            return Err(RenderError::MissingAttribute(Attribute::Normal));
        }
        if material.albedo_texture.is_some() && self.mesh.uvs.is_none() {
            return Err(RenderError::MissingAttribute(Attribute::Uv));
        }
        let fragment = material.fragment_shader_source_deferred(self.mesh.colors.is_some());
        let vertex = vertex_shader_source(self.mesh.vertex_shape(true));
        let program = request_program(context, &vertex, &fragment);
        Ok(
            DrawCall {
                program,
                material: Material::Physical(*material),
                lights: Vec::new(),
                render_states: material.opaque_render_states.geometry_pass(self.cull),
                viewport,
                transformation: Mat4::identity(),
            },
        )
    }

    /// Draws all instances with the model's own material.
    pub fn render(&self, camera: &Camera, lights: &Lights, context: &mut Context) -> (r: Result<DrawCall, RenderError>)
        requires
            self.wf(),
            old(context).wf(),
        ensures
            final(context).wf(),
            self.forward_result(
                self.own_material(),
                *camera,
                lights.kinds(),
                old(context).sources(),
                final(context).sources(),
                r,
            ),
    {
        self.render_with_material(&self.material, camera, lights, context)
    }
}

/// The tightest box around a non-empty list of points.
pub open spec fn compute_aabb_spec(ps: Seq<Vec3>) -> Aabb {
    let ps = ps.map_values(|v: Vec3| point_of(v));
    let lo = lower_corner(ps);
    let hi = upper_corner(ps);
    Aabb {
        min: Vec3 { x: lo.0 as i32, y: lo.1 as i32, z: lo.2 as i32 },
        max: Vec3 { x: hi.0 as i32, y: hi.1 as i32, z: hi.2 as i32 },
    }
}

/// The tightest box around points is the one `compute_aabb_spec` describes.
pub proof fn lemma_bounds_unique(b: Aabb, ps: Seq<Vec3>)
    requires
        is_bounds_of(b, ps.map_values(|v: Vec3| point_of(v))),
    ensures
        b == compute_aabb_spec(ps),
{
}

/// The tightest box around the corners of `local` moved by every instance, or `None`
/// where it leaves the `i32` range.
fn union_of_instances(local: &Aabb, instances: &Vec<Mat4>) -> (r: Option<Aabb>)
    requires
        instances.len() > 0,
    ensures
        r is Some <==> fits_i32(lower_corner(instance_corners(*local, instances@)))
            && fits_i32(upper_corner(instance_corners(*local, instances@))),
        r matches Some(b) ==> is_bounds_of(b, instance_corners(*local, instances@)) && b.wf(),
{
    let ghost pts = instance_corners(*local, instances@);
    let cs = local.corner_list();
    assert(cs@.len() == 8) by {
        assert(cs@.map_values(|v: Vec3| point_of(v)).len() == 8);
    }
    let mut xs: Vec<i128> = Vec::new();
    let mut ys: Vec<i128> = Vec::new();
    let mut zs: Vec<i128> = Vec::new();
    let mut i: usize = 0;
    while i < instances.len()
        invariant
            0 <= i <= instances.len(),
            cs@.len() == 8,
            pts == instance_corners(*local, instances@),
            cs@.map_values(|v: Vec3| point_of(v)) == local.corners(),
            xs.len() == 8 * i && ys.len() == 8 * i && zs.len() == 8 * i,
            forall|k: int| 0 <= k < 8 * i ==> #[trigger] xs[k] == pts[k].0,
            forall|k: int| 0 <= k < 8 * i ==> #[trigger] ys[k] == pts[k].1,
            forall|k: int| 0 <= k < 8 * i ==> #[trigger] zs[k] == pts[k].2,
        decreases instances.len() - i,
    {
        let m = &instances[i];
        let mut j: usize = 0;
        while j < 8
            invariant
                0 <= i < instances.len(),
                0 <= j <= 8,
                cs@.len() == 8,
                *m == instances@[i as int],
                pts == instance_corners(*local, instances@),
                cs@.map_values(|v: Vec3| point_of(v)) == local.corners(),
                xs.len() == 8 * i + j && ys.len() == 8 * i + j && zs.len() == 8 * i + j,
                forall|k: int| 0 <= k < 8 * i + j ==> #[trigger] xs[k] == pts[k].0,
                forall|k: int| 0 <= k < 8 * i + j ==> #[trigger] ys[k] == pts[k].1,
                forall|k: int| 0 <= k < 8 * i + j ==> #[trigger] zs[k] == pts[k].2,
            decreases 8 - j,
        {
            let c = cs[j];
            let ghost k = 8 * i + j;
            assert(k / 8 == i && k % 8 == j) by (nonlinear_arith)
                requires
                    k == 8 * i + j,
                    0 <= j < 8,
            ;
            assert(point_of(c) == local.corners()[j as int]);
            assert(pts[k] == m.apply(point_of(c)));
            xs.push(row_dot(&m.rows[0], c));
            ys.push(row_dot(&m.rows[1], c));
            zs.push(row_dot(&m.rows[2], c));
            j = j + 1;
        }
        i = i + 1;
    }
    assert(xs@.map_values(|a: i128| a as int) =~= pts.map_values(|p: Point| p.0));
    assert(ys@.map_values(|a: i128| a as int) =~= pts.map_values(|p: Point| p.1));
    assert(zs@.map_values(|a: i128| a as int) =~= pts.map_values(|p: Point| p.2));
    bounds_of_coordinates(&xs, &ys, &zs, Ghost(pts))
}

} // verus!
