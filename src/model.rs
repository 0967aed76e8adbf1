use vstd::prelude::*;
use crate::context::{Context, SourcePair};
use crate::draw::{request_program, requested, Attribute, Camera, DrawCall, RenderError, Viewport};
use crate::geometry::{
    compute_aabb, fits_i32, is_bounds_of, lemma_identity_keeps_bounds, lower_corner, point_of, upper_corner,
    Aabb, Mat3, Mat4, Vec3,
};
use crate::light::{LightKind, Lights};
use crate::material::{
    deferred_source, lemma_transparency_states, Color, ColorMaterial, DepthMaterial, LightingModel, Material, NormalMaterial,
    PhysicalMaterial, Texture, UvMaterial,
};
use crate::mesh::{vertex_shader_source, vertex_source, CpuMesh};
use crate::render_states::{Cull, DepthTest, RenderStates, WriteMask};

verus! {

/// The first attribute, in the order normal, uv, that `m` needs and `mesh` lacks.
pub open spec fn missing_attribute(mesh: CpuMesh, m: Material) -> Option<Attribute> {
    if m.needs_normals() && mesh.normals is None {
        Some(Attribute::Normal)
    } else if m.needs_uvs() && mesh.uvs is None {
        Some(Attribute::Uv)
    } else {
        None
    }
}

/// A triangle mesh placed in the scene by a transformation, drawn with a material.
pub struct Model {
    mesh: CpuMesh,
    cull: Cull,
    aabb: Aabb,
    aabb_local: Aabb,
    transformation: Mat4,
    material: Material,
}

impl Model {
    pub closed spec fn mesh_data(&self) -> CpuMesh {
        self.mesh
    }

    /// The bounding box in world space.
    pub closed spec fn world_box(&self) -> Aabb {
        self.aabb
    }

    /// The bounding box of the vertex positions.
    pub closed spec fn local_box(&self) -> Aabb {
        self.aabb_local
    }

    pub closed spec fn transform(&self) -> Mat4 {
        self.transformation
    }

    /// The material `render` draws with.
    pub closed spec fn own_material(&self) -> Material {
        self.material
    }

    /// Face culling that the fixed-material draws and the deferred draw use.
    pub closed spec fn cull_mode(&self) -> Cull {
        self.cull
    }

    /// The local box bounds the vertices, and the world box bounds the local box's
    /// corners moved by the transformation.
    pub open spec fn wf(&self) -> bool {
        &&& self.mesh_data().valid()
        &&& self.local_box().wf()
        &&& self.world_box().wf()
        &&& is_bounds_of(self.local_box(), self.mesh_data().positions@.map_values(|v: Vec3| point_of(v)))
        &&& is_bounds_of(self.world_box(), self.local_box().transformed_corners(self.transform()))
    }

    /// A model of the mesh, untransformed. Fails on a mesh that is not valid.
    pub fn new(cpu_mesh: CpuMesh, material: Material) -> (r: Result<Model, RenderError>)
        ensures
            r is Ok <==> cpu_mesh.valid(),
            r is Err ==> r == Err::<Model, RenderError>(RenderError::InvalidGeometry),
            r matches Ok(m) ==> {
                &&& m.wf()
                &&& m.mesh_data() == cpu_mesh
                &&& m.own_material() == material
                &&& m.cull_mode() == Cull::Disabled
                &&& m.transform().is_identity()
                &&& m.world_box() == m.local_box()
            },
    {
        if !cpu_mesh.is_valid() {
            return Err(RenderError::InvalidGeometry);
        }
        let aabb = compute_aabb(&cpu_mesh.positions);
        let t = Mat4::identity();
        proof {
            lemma_identity_keeps_bounds(aabb, t);
        }
        Ok(
            Model {
                mesh: cpu_mesh,
                cull: Cull::Disabled,
                aabb,
                aabb_local: aabb,
                transformation: t,
                material,
            },
        )
    }

    pub fn mesh(&self) -> (r: &CpuMesh)
        ensures
            *r == self.mesh_data(),
    {
        &self.mesh
    }

    pub fn material(&self) -> (r: &Material)
        ensures
            *r == self.own_material(),
    {
        &self.material
    }

    pub fn set_material(&mut self, material: Material)
        requires
            old(self).wf(),
        ensures
            final(self).wf(),
            final(self).own_material() == material,
            final(self).cull_mode() == old(self).cull_mode(),
            final(self).mesh_data() == old(self).mesh_data(),
            final(self).local_box() == old(self).local_box(),
            final(self).world_box() == old(self).world_box(),
            final(self).transform() == old(self).transform(),
    {
        self.material = material;
    }

    pub fn cull(&self) -> (r: Cull)
        ensures
            r == self.cull_mode(),
    {
        self.cull
    }

    pub fn set_cull(&mut self, cull: Cull)
        requires
            old(self).wf(),
        ensures
            final(self).wf(),
            final(self).cull_mode() == cull,
            final(self).own_material() == old(self).own_material(),
            final(self).mesh_data() == old(self).mesh_data(),
            final(self).local_box() == old(self).local_box(),
            final(self).world_box() == old(self).world_box(),
            final(self).transform() == old(self).transform(),
    {
        self.cull = cull;
    }

    pub fn aabb(&self) -> (r: Aabb)
        ensures
            r == self.world_box(),
    {
        self.aabb
    }

    pub fn transformation(&self) -> (r: Mat4)
        ensures
            r == self.transform(),
    {
        self.transformation
    }

    pub fn is_transparent(&self) -> (r: bool)
        ensures
            r == self.own_material().transparent(),
    {
        self.material.is_transparent()
    }

    /// Places the model by `transformation` and recomputes the world box from the eight
    /// corners of the local box. Where that box leaves the coordinate range the model is
    /// left as it was.
    pub fn set_transformation(&mut self, transformation: Mat4) -> (r: Result<(), RenderError>)
        requires
            old(self).wf(),
            transformation.determinant() != 0,
        ensures
            final(self).wf(),
            r is Ok <==> fits_i32(lower_corner(old(self).local_box().transformed_corners(transformation)))
                && fits_i32(upper_corner(old(self).local_box().transformed_corners(transformation))),
            r is Err ==> r == Err::<(), RenderError>(RenderError::InvalidTransform) && *final(self) == *old(self),
            r is Ok ==> {
                &&& final(self).transform() == transformation
                &&& is_bounds_of(final(self).world_box(), final(self).local_box().transformed_corners(transformation))
                &&& final(self).local_box() == old(self).local_box()
                &&& final(self).mesh_data() == old(self).mesh_data()
                &&& final(self).own_material() == old(self).own_material()
                &&& final(self).cull_mode() == old(self).cull_mode()
            },
    {
        match self.aabb_local.transformed(&transformation) {
            Some(b) => {
                self.transformation = transformation;
                self.aabb = b;
                Ok(())
            },
            None => Err(RenderError::InvalidTransform),
        }
    }

    /// Places the model by a transformation of the xy plane that keeps z.
    pub fn set_transformation_2d(&mut self, transformation: Mat3) -> (r: Result<(), RenderError>)
        requires
            old(self).wf(),
            transformation.determinant() != 0,
        ensures
            final(self).wf(),
            r is Ok <==> fits_i32(
                lower_corner(old(self).local_box().transformed_corners(Mat4::from_planar_spec(transformation))),
            ) && fits_i32(
                upper_corner(old(self).local_box().transformed_corners(Mat4::from_planar_spec(transformation))),
            ),
            r is Err ==> r == Err::<(), RenderError>(RenderError::InvalidTransform) && *final(self) == *old(self),
            r is Ok ==> {
                &&& final(self).transform() == Mat4::from_planar_spec(transformation)
                &&& final(self).local_box() == old(self).local_box()
                &&& final(self).mesh_data() == old(self).mesh_data()
                &&& final(self).own_material() == old(self).own_material()
                &&& final(self).cull_mode() == old(self).cull_mode()
            },
    {
        let m = Mat4::from_planar(&transformation);
        self.set_transformation(m)
    }

    /// What a forward draw of this model with `material`, lit by lights of the kinds
    /// `kinds`, returns and does to the program cache (`before` to `after`): the first
    /// missing attribute, with the cache untouched, or a draw call with the material's
    /// render states under this model's culling, the material and the light kinds to
    /// bind, and the program of the mesh's vertex shader and the material's fragment
    /// shader.
    pub open spec fn forward_result(
        &self,
        material: Material,
        camera: Camera,
        kinds: Seq<LightKind>,
        before: Seq<SourcePair>,
        after: Seq<SourcePair>,
        r: Result<DrawCall, RenderError>,
    ) -> bool {
        match missing_attribute(self.mesh_data(), material) {
            Some(a) => r == Err::<DrawCall, RenderError>(RenderError::MissingAttribute(a)) && after == before,
            None => r matches Ok(d) && {
                &&& requested(
                    before,
                    after,
                    (
                        vertex_source(self.mesh_data().shape(false)),
                        material.source(self.mesh_data().colors is Some, kinds),
                    ),
                    d.program.id,
                )
                &&& d.render_states == material.states().with_cull_spec(self.cull_mode())
                &&& d.material == material
                &&& d.lights@ == kinds
                &&& d.viewport == camera.viewport
                &&& d.transformation == self.transform()
            },
        }
    }

    /// The forward draw: the material's fragment shader lit by `lights`, with the
    /// material's render states under this model's culling.
    pub fn render_forward(&self, material: &Material, camera: &Camera, lights: &Lights, context: &mut Context) -> (r:
        Result<DrawCall, RenderError>)
        requires
            self.wf(),
            old(context).wf(),
        ensures
            final(context).wf(),
            self.forward_result(*material, *camera, lights.kinds(), old(context).sources(), final(context).sources(), r),
    {
        if material.requires_normals() && self.mesh.normals.is_none() {
            return Err(RenderError::MissingAttribute(Attribute::Normal));
        }
        if material.requires_uvs() && self.mesh.uvs.is_none() {
            return Err(RenderError::MissingAttribute(Attribute::Uv));
        }
        let fragment = material.fragment_shader_source(self.mesh.colors.is_some(), lights);
        let vertex = vertex_shader_source(self.mesh.vertex_shape(false));
        let program = request_program(context, &vertex, &fragment);
        Ok(
            DrawCall {
                program,
                material: *material,
                lights: lights.light_kinds(),
                render_states: material.render_states().with_cull(self.cull),
                viewport: camera.viewport,
                transformation: self.transformation,
            },
        )
    }

    /// Draws the model with its own material.
    pub fn render(&self, camera: &Camera, lights: &Lights, context: &mut Context) -> (r: Result<DrawCall, RenderError>)
        requires
            self.wf(),
            old(context).wf(),
        ensures
            final(context).wf(),
            self.forward_result(
                self.own_material(),
                *camera,
                lights.kinds(),
                old(context).sources(),
                final(context).sources(),
                r,
            ),
    {
        self.render_forward(&self.material, camera, lights, context)
    }

    /// The geometry-buffer draw: the material's surface attributes, no lighting, with its
    /// opaque render states, this model's culling and a depth test that is never
    /// `Always`.
    pub fn render_deferred(
        &self,
        material: &PhysicalMaterial,
        camera: &Camera,
        viewport: Viewport,
        context: &mut Context,
    ) -> (r: Result<DrawCall, RenderError>)
        requires
            self.wf(),
            old(context).wf(),
        ensures
            final(context).wf(),
            match missing_attribute(self.mesh_data(), Material::Physical(*material)) {
                Some(a) => r == Err::<DrawCall, RenderError>(RenderError::MissingAttribute(a))
                    && final(context).sources() == old(context).sources(),
                None => r matches Ok(d) && {
                    &&& requested(
                        old(context).sources(),
                        final(context).sources(),
                        (
                            vertex_source(self.mesh_data().shape(false)),
                            deferred_source(*material, self.mesh_data().colors is Some),
                        ),
                        d.program.id,
                    )
                    &&& d.render_states == material.opaque_render_states.geometry_pass_spec(self.cull_mode())
                    &&& d.render_states.depth_test != DepthTest::Always
                    &&& d.material == Material::Physical(*material)
                    &&& d.lights@.len() == 0
                    &&& d.viewport == viewport
                    &&& d.transformation == self.transform()
                },
            },
    {
        if self.mesh.normals.is_none() {
            return Err(RenderError::MissingAttribute(Attribute::Normal));
        }
        if material.albedo_texture.is_some() && self.mesh.uvs.is_none() {
            return Err(RenderError::MissingAttribute(Attribute::Uv));
        }
        let fragment = material.fragment_shader_source_deferred(self.mesh.colors.is_some());
        let vertex = vertex_shader_source(self.mesh.vertex_shape(false));
        let program = request_program(context, &vertex, &fragment);
        Ok(
            DrawCall {
                program,
                material: Material::Physical(*material),
                lights: Vec::new(),
                render_states: material.opaque_render_states.geometry_pass(self.cull),
                viewport,
                transformation: self.transformation,
            },
        )
    }

    /// The geometry-buffer pass of deferred shading; the same draw as `render_deferred`.
    pub fn geometry_pass(
        &self,
        camera: &Camera,
        viewport: Viewport,
        material: &PhysicalMaterial,
        context: &mut Context,
    ) -> (r: Result<DrawCall, RenderError>)
        requires
            self.wf(),
            old(context).wf(),
        ensures
            final(context).wf(),
            match missing_attribute(self.mesh_data(), Material::Physical(*material)) {
                Some(a) => r == Err::<DrawCall, RenderError>(RenderError::MissingAttribute(a))
                    && final(context).sources() == old(context).sources(),
                None => r matches Ok(d) && {
                    &&& requested(
                        old(context).sources(),
                        final(context).sources(),
                        (
                            vertex_source(self.mesh_data().shape(false)),
                            deferred_source(*material, self.mesh_data().colors is Some),
                        ),
                        d.program.id,
                    )
                    &&& d.render_states == material.opaque_render_states.geometry_pass_spec(self.cull_mode())
                    &&& d.render_states.depth_test != DepthTest::Always
                    &&& d.material == Material::Physical(*material)
                    &&& d.lights@.len() == 0
                    &&& d.viewport == viewport
                    &&& d.transformation == self.transform()
                },
            },
    {
        self.render_deferred(material, camera, viewport, context)
    }

    /// The color material the fixed-material draws use: `color` times `texture`, with
    /// the default opaque and transparent render states and this model's culling.
    pub open spec fn fixed_color_material(&self, color: Color, texture: Option<Texture>) -> Material {
        Material::Color(
            ColorMaterial {
                color,
                texture,
                opaque_render_states: RenderStates::opaque_spec().with_cull_spec(self.cull_mode()),
                transparent_render_states: RenderStates::transparent_spec().with_cull_spec(self.cull_mode()),
            },
        )
    }

    fn fixed_color(&self, color: Color, texture: Option<Texture>) -> (r: Material)
        ensures
            r == self.fixed_color_material(color, texture),
    {
        Material::Color(
            ColorMaterial {
                color,
                texture,
                opaque_render_states: RenderStates::opaque().with_cull(self.cull),
                transparent_render_states: RenderStates::transparent().with_cull(self.cull),
            },
        )
    }

    /// Draws the vertex colors, unlit. Fails on a mesh without colors.
    pub fn render_color(&self, camera: &Camera, context: &mut Context) -> (r: Result<DrawCall, RenderError>)
        requires
            self.wf(),
            old(context).wf(),
        ensures
            final(context).wf(),
            self.mesh_data().colors is None ==> r == Err::<DrawCall, RenderError>(
                RenderError::MissingAttribute(Attribute::Color),
            ) && final(context).sources() == old(context).sources(),
            self.mesh_data().colors is Some ==> self.forward_result(
                self.fixed_color_material(Color::white_spec(), None),
                *camera,
                Seq::empty(),
                old(context).sources(),
                final(context).sources(),
                r,
            ),
    {
        if self.mesh.colors.is_none() {
            return Err(RenderError::MissingAttribute(Attribute::Color));
        }
        let m = self.fixed_color(Color::white(), None);
        self.render_forward(&m, camera, &Lights::none(), context)
    }

    /// Draws the whole mesh in one color, unlit.
    pub fn render_with_color(&self, color: Color, camera: &Camera, context: &mut Context) -> (r: Result<
        DrawCall,
        RenderError,
    >)
        requires
            self.wf(),
            old(context).wf(),
        ensures
            final(context).wf(),
            self.forward_result(
                self.fixed_color_material(color, None),
                *camera,
                Seq::empty(),
                old(context).sources(),
                final(context).sources(),
                r,
            ),
    {
        let m = self.fixed_color(color, None);
        self.render_forward(&m, camera, &Lights::none(), context)
    }

    /// Draws the mesh with `texture`, unlit; blended where the texture has an alpha channel.
    /// Fails on a mesh without uv coordinates.
    pub fn render_with_texture(&self, texture: &Texture, camera: &Camera, context: &mut Context) -> (r: Result<
        DrawCall,
        RenderError,
    >)
        requires
            self.wf(),
            old(context).wf(),
        ensures
            final(context).wf(),
            self.forward_result(
                self.fixed_color_material(Color::white_spec(), Some(*texture)),
                *camera,
                Seq::empty(),
                old(context).sources(),
                final(context).sources(),
                r,
            ),
    {
        let m = self.fixed_color(Color::white(), Some(*texture));
        self.render_forward(&m, camera, &Lights::none(), context)
    }

    pub open spec fn fixed_states(&self) -> RenderStates {
        RenderStates::opaque_spec().with_cull_spec(self.cull_mode())
    }

    /// Draws the uv coordinates in red (u) and green (v). Fails on a mesh without them.
    pub fn render_uvs(&self, camera: &Camera, context: &mut Context) -> (r: Result<DrawCall, RenderError>)
        requires
            self.wf(),
            old(context).wf(),
        ensures
            final(context).wf(),
            self.forward_result(
                Material::Uv(UvMaterial { render_states: self.fixed_states() }),
                *camera,
                Seq::empty(),
                old(context).sources(),
                final(context).sources(),
                r,
            ),
    {
        let m = Material::Uv(UvMaterial { render_states: RenderStates::opaque().with_cull(self.cull) });
        self.render_forward(&m, camera, &Lights::none(), context)
    }

    /// Draws the normals as colors. Fails on a mesh without them.
    pub fn render_normals(&self, camera: &Camera, context: &mut Context) -> (r: Result<DrawCall, RenderError>)
        requires
            self.wf(),
            old(context).wf(),
        ensures
            final(context).wf(),
            self.forward_result(
                Material::Normal(NormalMaterial { render_states: self.fixed_states() }),
                *camera,
                Seq::empty(),
                old(context).sources(),
                final(context).sources(),
                r,
            ),
    {
        let m = Material::Normal(NormalMaterial { render_states: RenderStates::opaque().with_cull(self.cull) });
        self.render_forward(&m, camera, &Lights::none(), context)
    }

    /// The states of a depth-only draw.
    pub open spec fn depth_states(&self) -> RenderStates {
        RenderStates {
            write_mask: WriteMask { red: false, green: false, blue: false, alpha: false, depth: true },
            ..self.fixed_states()
        }
    }

    /// Writes the depth only, as for a shadow map or a depth pre-pass.
    pub fn render_depth(&self, camera: &Camera, context: &mut Context) -> (r: Result<DrawCall, RenderError>)
        requires
            self.wf(),
            old(context).wf(),
        ensures
            final(context).wf(),
            self.forward_result(
                Material::Depth(DepthMaterial { max_distance: None, render_states: self.depth_states() }),
                *camera,
                Seq::empty(),
                old(context).sources(),
                final(context).sources(),
                r,
            ),
    {
        let states = RenderStates { write_mask: WriteMask::depth(), ..RenderStates::opaque().with_cull(self.cull) };
        let m = Material::Depth(DepthMaterial { max_distance: None, render_states: states });
        self.render_forward(&m, camera, &Lights::none(), context)
    }

    /// Writes the depth, scaled so that `max_depth` maps to one, into the red channel
    /// and the depth buffer, as for picking.
    pub fn render_depth_to_red(&self, camera: &Camera, max_depth: u32, context: &mut Context) -> (r: Result<
        DrawCall,
        RenderError,
    >)
        requires
            self.wf(),
            old(context).wf(),
        ensures
            final(context).wf(),
            self.forward_result(
                Material::Depth(
                    DepthMaterial {
                        max_distance: Some(max_depth),
                        render_states: RenderStates {
                            write_mask: WriteMask { red: true, ..self.depth_states().write_mask },
                            ..self.depth_states()
                        },
                    },
                ),
                *camera,
                Seq::empty(),
                old(context).sources(),
                final(context).sources(),
                r,
            ),
    {
        let mask = WriteMask { red: true, ..WriteMask::depth() };
        let states = RenderStates { write_mask: mask, ..RenderStates::opaque().with_cull(self.cull) };
        let m = Material::Depth(DepthMaterial { max_distance: Some(max_depth), render_states: states });
        self.render_forward(&m, camera, &Lights::none(), context)
    }

    /// Draws with a physically based material lit by `lights` under `lighting_model`,
    /// with this model's culling.
    pub fn render_with_lighting(
        &self,
        camera: &Camera,
        material: &PhysicalMaterial,
        lighting_model: LightingModel,
        lights: &Lights,
        context: &mut Context,
    ) -> (r: Result<DrawCall, RenderError>)
        requires
            self.wf(),
            old(context).wf(),
        ensures
            final(context).wf(),
            self.forward_result(
                Material::Physical(
                    PhysicalMaterial {
                        lighting_model,
                        opaque_render_states: material.opaque_render_states.with_cull_spec(self.cull_mode()),
                        transparent_render_states: material.transparent_render_states.with_cull_spec(
                            self.cull_mode(),
                        ),
                        ..*material
                    },
                ),
                *camera,
                lights.kinds(),
                old(context).sources(),
                final(context).sources(),
                r,
            ),
    {
        let m = Material::Physical(
            PhysicalMaterial {
                lighting_model,
                opaque_render_states: material.opaque_render_states.with_cull(self.cull),
                transparent_render_states: material.transparent_render_states.with_cull(self.cull),
                ..*material
            },
        );
        self.render_forward(&m, camera, lights, context)
    }
}


/// A forward draw with a transparent material of default states has blending on and
/// depth writes off; with an opaque one, blending off and depth writes on.
pub proof fn lemma_forward_transparency(
    model: &Model,
    material: Material,
    camera: Camera,
    kinds: Seq<LightKind>,
    before: Seq<SourcePair>,
    after: Seq<SourcePair>,
    r: Result<DrawCall, RenderError>,
)
    requires
        model.forward_result(material, camera, kinds, before, after, r),
        material.standard_states(),
        r is Ok,
    ensures
        r->Ok_0.render_states.blends() == material.transparent(),
        r->Ok_0.render_states.write_mask.depth == !material.transparent(),
        r->Ok_0.render_states.cull == model.cull_mode(),
{
    lemma_transparency_states(material);
}

} // verus!
