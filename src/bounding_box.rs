use vstd::prelude::*;
use crate::draw::{Camera, DrawCall, RenderError, Viewport};
use crate::context::Context;
use crate::geometry::{fits_i32, lower_corner, upper_corner, Aabb, Mat4, Vec3};
use crate::instanced::{compute_aabb_spec, instance_corners, InstancedModel};
use crate::light::Lights;
use crate::material::{Material, PhysicalMaterial};
use crate::mesh::CpuMesh;

verus! {

/// The edge thickness of the wireframe of a box: two percent of its largest side,
/// rounded down to whole coordinate units. It is zero for a box whose largest side is
/// under 50 units (0.05 scene units).
pub open spec fn edge_thickness(b: Aabb) -> int {
    let sx = b.max.x - b.min.x;
    let sy = b.max.y - b.min.y;
    let sz = b.max.z - b.min.z;
    let m = if sx >= sy && sx >= sz { sx } else if sy >= sz { sy } else { sz };
    2 * m / 100
}

/// Places the unit edge from `(0, 0, 0)` to `(1, 0, 0)` along `axis` (0, 1 or 2) with
/// length `len`, cross-section `t`, starting at `p`.
pub open spec fn edge_transform(axis: int, len: int, t: int, p: (int, int, int)) -> Mat4 {
    if axis == 0 {
        Mat4 { rows: [[len as i64, 0, 0, p.0 as i64], [0, t as i64, 0, p.1 as i64], [0, 0, t as i64, p.2 as i64], [0, 0, 0, 1]] }
    } else if axis == 1 {
        Mat4 { rows: [[0, -t as i64, 0, p.0 as i64], [len as i64, 0, 0, p.1 as i64], [0, 0, t as i64, p.2 as i64], [0, 0, 0, 1]] }
    } else {
        Mat4 { rows: [[0, 0, -t as i64, p.0 as i64], [0, t as i64, 0, p.1 as i64], [len as i64, 0, 0, p.2 as i64], [0, 0, 0, 1]] }
    }
}

/// The twelve edges of the box `b`: four along x, then four along y, then four along z,
/// each starting on the face of smallest coordinate along its axis.
pub open spec fn edge_transforms(b: Aabb) -> Seq<Mat4> {
    let (lo, hi) = (b.min, b.max);
    let t = edge_thickness(b);
    let (sx, sy, sz) = (hi.x - lo.x, hi.y - lo.y, hi.z - lo.z);
    seq![
        edge_transform(0, sx, t, (lo.x as int, lo.y as int, lo.z as int)),
        edge_transform(0, sx, t, (lo.x as int, hi.y as int, hi.z as int)),
        edge_transform(0, sx, t, (lo.x as int, lo.y as int, hi.z as int)),
        edge_transform(0, sx, t, (lo.x as int, hi.y as int, lo.z as int)),
        edge_transform(1, sy, t, (lo.x as int, lo.y as int, lo.z as int)),
        edge_transform(1, sy, t, (hi.x as int, lo.y as int, hi.z as int)),
        edge_transform(1, sy, t, (lo.x as int, lo.y as int, hi.z as int)),
        edge_transform(1, sy, t, (hi.x as int, lo.y as int, lo.z as int)),
        edge_transform(2, sz, t, (lo.x as int, lo.y as int, lo.z as int)),
        edge_transform(2, sz, t, (hi.x as int, hi.y as int, lo.z as int)),
        edge_transform(2, sz, t, (lo.x as int, hi.y as int, lo.z as int)),
        edge_transform(2, sz, t, (hi.x as int, lo.y as int, lo.z as int)),
    ]
}

fn edge(axis: u8, len: i64, t: i64, p: (i32, i32, i32)) -> (r: Mat4)
    requires
        axis < 3,
        -0x7fff_ffff_ffff_ffff <= t,
    ensures
        r == edge_transform(axis as int, len as int, t as int, (p.0 as int, p.1 as int, p.2 as int)),
{
    let (x, y, z) = (p.0 as i64, p.1 as i64, p.2 as i64);
    if axis == 0 {
        Mat4 { rows: [[len, 0, 0, x], [0, t, 0, y], [0, 0, t, z], [0, 0, 0, 1]] }
    } else if axis == 1 {
        Mat4 { rows: [[0, -t, 0, x], [len, 0, 0, y], [0, 0, t, z], [0, 0, 0, 1]] }
    } else {
        Mat4 { rows: [[0, 0, -t, x], [0, t, 0, y], [len, 0, 0, z], [0, 0, 0, 1]] }
    }
}

/// The instance transformations of the wireframe of `b`.
pub fn wireframe_transforms(b: &Aabb) -> (r: Vec<Mat4>)
    requires
        b.wf(),
    ensures
        r@ == edge_transforms(*b),
{
    let (lo, hi) = (b.min, b.max);
    let sx = hi.x as i64 - lo.x as i64;
    let sy = hi.y as i64 - lo.y as i64;
    let sz = hi.z as i64 - lo.z as i64;
    let m = if sx >= sy && sx >= sz {
        sx
    } else if sy >= sz {
        sy
    } else {
        sz
    };
    let t = 2 * m / 100;
    let r = vec![
        edge(0, sx, t, (lo.x, lo.y, lo.z)),
        edge(0, sx, t, (lo.x, hi.y, hi.z)),
        edge(0, sx, t, (lo.x, lo.y, hi.z)),
        edge(0, sx, t, (lo.x, hi.y, lo.z)),
        edge(1, sy, t, (lo.x, lo.y, lo.z)),
        edge(1, sy, t, (hi.x, lo.y, hi.z)),
        edge(1, sy, t, (lo.x, lo.y, hi.z)),
        edge(1, sy, t, (hi.x, lo.y, lo.z)),
        edge(2, sz, t, (lo.x, lo.y, lo.z)),
        edge(2, sz, t, (hi.x, hi.y, lo.z)),
        edge(2, sz, t, (lo.x, hi.y, lo.z)),
        edge(2, sz, t, (hi.x, lo.y, lo.z)),
    ];
    assert(r@ =~= edge_transforms(*b));
    r
}

/// A square prism of length one along x, its cross-section the points at distance one
/// from the axis on y and z: the edge that the wireframe instances.
pub fn edge_prism() -> (r: CpuMesh)
    ensures
        r.valid(),
        r.normals is Some,
        r.positions@ == edge_prism_positions(),
{
    let positions = vec![
        Vec3 { x: 0, y: 1, z: 0 },
        Vec3 { x: 0, y: 0, z: 1 },
        Vec3 { x: 0, y: -1, z: 0 },
        Vec3 { x: 0, y: 0, z: -1 },
        Vec3 { x: 1, y: 1, z: 0 },
        Vec3 { x: 1, y: 0, z: 1 },
        Vec3 { x: 1, y: -1, z: 0 },
        Vec3 { x: 1, y: 0, z: -1 },
    ];
    let normals = vec![
        Vec3 { x: 0, y: 1, z: 0 },
        Vec3 { x: 0, y: 0, z: 1 },
        Vec3 { x: 0, y: -1, z: 0 },
        Vec3 { x: 0, y: 0, z: -1 },
        Vec3 { x: 0, y: 1, z: 0 },
        Vec3 { x: 0, y: 0, z: 1 },
        Vec3 { x: 0, y: -1, z: 0 },
        Vec3 { x: 0, y: 0, z: -1 },
    ];
    let indices: Vec<u32> = vec![
        0, 4, 1, 1, 4, 5,
        1, 5, 2, 2, 5, 6,
        2, 6, 3, 3, 6, 7,
        3, 7, 0, 0, 7, 4,
    ];
    let r = CpuMesh { positions, indices: Some(indices), normals: Some(normals), uvs: None, colors: None };
    assert(r.positions@ =~= edge_prism_positions());
    r
}

pub open spec fn edge_prism_positions() -> Seq<Vec3> {
    seq![
        Vec3 { x: 0, y: 1, z: 0 },
        Vec3 { x: 0, y: 0, z: 1 },
        Vec3 { x: 0, y: -1i32, z: 0 },
        Vec3 { x: 0, y: 0, z: -1i32 },
        Vec3 { x: 1, y: 1, z: 0 },
        Vec3 { x: 1, y: 0, z: 1 },
        Vec3 { x: 1, y: -1i32, z: 0 },
        Vec3 { x: 1, y: 0, z: -1i32 },
    ]
}

/// `p` is a corner of `b`.
pub open spec fn is_corner(b: Aabb, p: (int, int, int)) -> bool {
    &&& p.0 == b.min.x || p.0 == b.max.x
    &&& p.1 == b.min.y || p.1 == b.max.y
    &&& p.2 == b.min.z || p.2 == b.max.z
}

/// `(p, q)` is an edge of `b` along `axis`, from its low face to its high face.
pub open spec fn is_box_edge(b: Aabb, p: (int, int, int), q: (int, int, int), axis: int) -> bool {
    &&& is_corner(b, p)
    &&& is_corner(b, q)
    &&& if axis == 0 {
        p.0 == b.min.x && q.0 == b.max.x && p.1 == q.1 && p.2 == q.2
    } else if axis == 1 {
        p.1 == b.min.y && q.1 == b.max.y && p.0 == q.0 && p.2 == q.2
    } else {
        p.2 == b.min.z && q.2 == b.max.z && p.0 == q.0 && p.1 == q.1
    }
}

/// The unit edge placed along `axis` starts at `p` and ends `len` further along the axis.
proof fn lemma_edge_ends(axis: int, len: int, t: int, p: (int, int, int))
    requires
        0 <= axis < 3,
        0 <= len < 0x1_0000_0000,
        0 <= t < 0x1_0000_0000,
        i32::MIN <= p.0 <= i32::MAX,
        i32::MIN <= p.1 <= i32::MAX,
        i32::MIN <= p.2 <= i32::MAX,
    ensures
        edge_transform(axis, len, t, p).apply((0, 0, 0)) == p,
        edge_transform(axis, len, t, p).apply((1, 0, 0)) == if axis == 0 {
            (p.0 + len, p.1, p.2)
        } else if axis == 1 {
            (p.0, p.1 + len, p.2)
        } else {
            (p.0, p.1, p.2 + len)
        },
{
    let m = edge_transform(axis, len, t, p);
    assert(m.at(0, 3) == p.0 && m.at(1, 3) == p.1 && m.at(2, 3) == p.2);
    assert(m.at(0, 0) == if axis == 0 { len } else { 0 });
    assert(m.at(1, 0) == if axis == 1 { len } else { 0 });
    assert(m.at(2, 0) == if axis == 2 { len } else { 0 });
    assert forall|r: int, c: int| #[trigger] (m.at(r, c) * 0) == 0 && m.at(r, c) * 1 == m.at(r, c) by {}
    assert(m.apply((0, 0, 0)) == (m.at(0, 3), m.at(1, 3), m.at(2, 3)));
    assert(m.apply((1, 0, 0)) == (m.at(0, 0) + m.at(0, 3), m.at(1, 0) + m.at(1, 3), m.at(2, 0) + m.at(2, 3)));
}

/// There are twelve wireframe instances, and instance `i` carries the unit edge from
/// `(0, 0, 0)` to `(1, 0, 0)` onto an edge of the box along axis `i / 4`.
pub proof fn lemma_wireframe_edges(b: Aabb)
    requires
        b.wf(),
    ensures
        edge_transforms(b).len() == 12,
        forall|i: int|
            0 <= i < 12 ==> is_box_edge(
                b,
                #[trigger] edge_transforms(b)[i].apply((0, 0, 0)),
                edge_transforms(b)[i].apply((1, 0, 0)),
                i / 4,
            ),
{
    let es = edge_transforms(b);
    let (lo, hi) = (b.min, b.max);
    let t = edge_thickness(b);
    let (sx, sy, sz) = (hi.x - lo.x, hi.y - lo.y, hi.z - lo.z);
    let (l0, l1, l2) = (lo.x as int, lo.y as int, lo.z as int);
    let (h0, h1, h2) = (hi.x as int, hi.y as int, hi.z as int);
    lemma_edge_ends(0, sx, t, (l0, l1, l2));
    lemma_edge_ends(0, sx, t, (l0, h1, h2));
    lemma_edge_ends(0, sx, t, (l0, l1, h2));
    lemma_edge_ends(0, sx, t, (l0, h1, l2));
    lemma_edge_ends(1, sy, t, (l0, l1, l2));
    lemma_edge_ends(1, sy, t, (h0, l1, h2));
    lemma_edge_ends(1, sy, t, (l0, l1, h2));
    lemma_edge_ends(1, sy, t, (h0, l1, l2));
    lemma_edge_ends(2, sz, t, (l0, l1, l2));
    lemma_edge_ends(2, sz, t, (h0, h1, l2));
    lemma_edge_ends(2, sz, t, (l0, h1, l2));
    lemma_edge_ends(2, sz, t, (h0, l1, l2));
    assert forall|i: int|
        0 <= i < 12 implies is_box_edge(b, #[trigger] es[i].apply((0, 0, 0)), es[i].apply((1, 0, 0)), i / 4) by {
        if i == 0 {
        } else if i == 1 {
        } else if i == 2 {
        } else if i == 3 {
        } else if i == 4 {
        } else if i == 5 {
        } else if i == 6 {
        } else if i == 7 {
        } else if i == 8 {
        } else if i == 9 {
        } else if i == 10 {
        } else {
        }
    }
}

/// The wireframe of an axis-aligned box: its twelve edges, drawn as instances of one
/// thin prism.
pub struct BoundingBox {
    model: InstancedModel,
    aabb: Aabb,
}

impl BoundingBox {
    pub closed spec fn instanced(&self) -> InstancedModel {
        self.model
    }

    /// The box the wireframe outlines.
    pub closed spec fn outlined(&self) -> Aabb {
        self.aabb
    }

    pub open spec fn wf(&self) -> bool {
        self.instanced().wf()
    }

    /// The wireframe of `aabb`, drawn with `material`. Fails where the prisms around the
    /// edges reach out of the coordinate range.
    pub fn new_with_material(aabb: Aabb, material: Material) -> (r: Result<BoundingBox, RenderError>)
        requires
            aabb.wf(),
        ensures
            r is Ok <==> fits_i32(
                lower_corner(instance_corners(compute_aabb_spec(edge_prism_positions()), edge_transforms(aabb))),
            ) && fits_i32(
                upper_corner(instance_corners(compute_aabb_spec(edge_prism_positions()), edge_transforms(aabb))),
            ),
            r is Err ==> r == Err::<BoundingBox, RenderError>(RenderError::InvalidTransform),
            r matches Ok(b) ==> {
                &&& b.wf()
                &&& b.outlined() == aabb
                &&& b.instanced().instance_list() == edge_transforms(aabb)
                &&& b.instanced().own_material() == material
            },
    {
        let transformations = wireframe_transforms(&aabb);
        let mesh = edge_prism();
        match InstancedModel::new_with_material(transformations, mesh, material) {
            Ok(model) => Ok(BoundingBox { model, aabb }),
            Err(e) => Err(e),
        }
    }

    /// The outlined box.
    pub fn aabb(&self) -> (r: Aabb)
        ensures
            r == self.outlined(),
    {
        self.aabb
    }

    /// The wireframe is placed by its instances alone.
    pub fn transformation(&self) -> (r: Mat4)
        ensures
            r.is_identity(),
    {
        Mat4::identity()
    }

    pub fn instances(&self) -> (r: &Vec<Mat4>)
        ensures
            r@ == self.instanced().instance_list(),
    {
        self.model.instances()
    }

    pub fn is_transparent(&self) -> (r: bool)
        ensures
            !r,
    {
        false
    }

    /// One draw call of all edges with `material`.
    pub fn render_with_material(
        &self,
        material: &Material,
        camera: &Camera,
        lights: &Lights,
        context: &mut Context,
    ) -> (r: Result<DrawCall, RenderError>)
        requires
            self.wf(),
            old(context).wf(),
        ensures
            final(context).wf(),
            self.instanced().forward_result(
                *material,
                *camera,
                lights.kinds(),
                old(context).sources(),
                final(context).sources(),
                r,
            ),
    {
        self.model.render_with_material(material, camera, lights, context)
    }

    /// The forward draw of all edges with `material`; the same as `render_with_material`.
    pub fn render_forward(
        &self,
        material: &Material,
        camera: &Camera,
        lights: &Lights,
        context: &mut Context,
    ) -> (r: Result<DrawCall, RenderError>)
        requires
            self.wf(),
            old(context).wf(),
        ensures
            final(context).wf(),
            self.instanced().forward_result(
                *material,
                *camera,
                lights.kinds(),
                old(context).sources(),
                final(context).sources(),
                r,
            ),
    {
        self.render_with_material(material, camera, lights, context)
    }

    /// One geometry-buffer draw call of all edges.
    pub fn render_deferred(
        &self,
        material: &PhysicalMaterial,
        camera: &Camera,
        viewport: Viewport,
        context: &mut Context,
    ) -> (r: Result<DrawCall, RenderError>)
        requires
            self.wf(),
            old(context).wf(),
        ensures
            final(context).wf(),
            self.instanced().deferred_result(*material, viewport, old(context).sources(), final(context).sources(), r),
    {
        self.model.render_deferred(material, camera, viewport, context)
    }

    /// One draw call of all edges with the wireframe's own material.
    pub fn render(&self, camera: &Camera, lights: &Lights, context: &mut Context) -> (r: Result<DrawCall, RenderError>)
        requires
            self.wf(),
            old(context).wf(),
        ensures
            final(context).wf(),
            self.instanced().forward_result(
                self.instanced().own_material(),
                *camera,
                lights.kinds(),
                old(context).sources(),
                final(context).sources(),
                r,
            ),
    {
        self.model.render(camera, lights, context)
    }
}

} // verus!
