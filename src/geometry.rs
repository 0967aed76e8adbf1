use vstd::prelude::*;

verus! {

/// A point or a direction in fixed point: one coordinate unit is a thousandth of a
/// scene unit, so `2000` stands for `2.0`.
#[derive(Clone, Copy, Debug, PartialEq, Eq, Structural)]
pub struct Vec3 {
    pub x: i32,
    pub y: i32,
    pub z: i32,
}

/// Smallest element of a non-empty sequence.
pub open spec fn seq_min(s: Seq<int>) -> int
    decreases s.len(),
{
    if s.len() <= 1 {
        s[0]
    } else {
        let m = seq_min(s.drop_last());
        if s.last() < m { s.last() } else { m }
    }
}

/// Largest element of a non-empty sequence.
pub open spec fn seq_max(s: Seq<int>) -> int
    decreases s.len(),
{
    if s.len() <= 1 {
        s[0]
    } else {
        let m = seq_max(s.drop_last());
        if s.last() > m { s.last() } else { m }
    }
}

/// Every bound that all elements meet is met by the minimum and the maximum.
pub proof fn lemma_min_max_within(s: Seq<int>, lo: int, hi: int)
    requires
        s.len() > 0,
        forall|i: int| 0 <= i < s.len() ==> lo <= #[trigger] s[i] <= hi,
    ensures
        lo <= seq_min(s) <= hi,
        lo <= seq_max(s) <= hi,
    decreases s.len(),
{
    if s.len() > 1 {
        let t = s.drop_last();
        assert forall|i: int| 0 <= i < t.len() implies lo <= #[trigger] t[i] <= hi by {
            assert(t[i] == s[i]);
        }
        lemma_min_max_within(t, lo, hi);
    }
}

/// Every element lies between the minimum and the maximum.
pub proof fn lemma_min_max_bound(s: Seq<int>)
    requires
        s.len() > 0,
    ensures
        forall|i: int| 0 <= i < s.len() ==> seq_min(s) <= #[trigger] s[i] <= seq_max(s),
    decreases s.len(),
{
    if s.len() > 1 {
        let t = s.drop_last();
        lemma_min_max_bound(t);
        assert forall|i: int| 0 <= i < s.len() implies seq_min(s) <= #[trigger] s[i] <= seq_max(s) by {
            if i < t.len() {
                assert(t[i] == s[i]);
            }
        }
    }
}

/// Minimum and maximum of the values of `v`.
pub fn min_max(v: &Vec<i128>) -> (r: (i128, i128))
    requires
        v.len() > 0,
    ensures
        r.0 as int == seq_min(v@.map_values(|a: i128| a as int)),
        r.1 as int == seq_max(v@.map_values(|a: i128| a as int)),
{
    let ghost s = v@.map_values(|a: i128| a as int);
    let mut lo: i128 = v[0];
    let mut hi: i128 = v[0];
    let mut i: usize = 1;
    assert(s.take(1).len() == 1);
    while i < v.len()
        invariant
            1 <= i <= v.len(),
            s == v@.map_values(|a: i128| a as int),
            lo as int == seq_min(s.take(i as int)),
            hi as int == seq_max(s.take(i as int)),
        decreases v.len() - i,
    {
        assert(s.take(i as int + 1).drop_last() =~= s.take(i as int));
        let a = v[i];
        if a < lo {
            lo = a;
        }
        if a > hi {
            hi = a;
        }
        i = i + 1;
    }
    assert(s.take(i as int) =~= s);
    (lo, hi)
}


/// An axis-aligned bounding box given by its two extreme corners.
#[derive(Clone, Copy, Debug, PartialEq, Eq, Structural)]
pub struct Aabb {
    pub min: Vec3,
    pub max: Vec3,
}

/// A point with unbounded integer coordinates.
pub type Point = (int, int, int);

pub open spec fn point_of(v: Vec3) -> Point {
    (v.x as int, v.y as int, v.z as int)
}

impl Aabb {
    /// The box holds no point below `min` or above `max`.
    pub open spec fn wf(self) -> bool {
        self.min.x <= self.max.x && self.min.y <= self.max.y && self.min.z <= self.max.z
    }

    /// The eight corners of the box.
    pub open spec fn corners(self) -> Seq<Point> {
        let (a, b) = (self.min, self.max);
        seq![
            (a.x as int, a.y as int, a.z as int),
            (b.x as int, a.y as int, a.z as int),
            (a.x as int, b.y as int, a.z as int),
            (b.x as int, b.y as int, a.z as int),
            (a.x as int, a.y as int, b.z as int),
            (b.x as int, a.y as int, b.z as int),
            (a.x as int, b.y as int, b.z as int),
            (b.x as int, b.y as int, b.z as int),
        ]
    }
}

/// The componentwise smallest coordinates of a non-empty set of points.
pub open spec fn lower_corner(ps: Seq<Point>) -> Point {
    (
        seq_min(ps.map_values(|p: Point| p.0)),
        seq_min(ps.map_values(|p: Point| p.1)),
        seq_min(ps.map_values(|p: Point| p.2)),
    )
}

/// The componentwise largest coordinates of a non-empty set of points.
pub open spec fn upper_corner(ps: Seq<Point>) -> Point {
    (
        seq_max(ps.map_values(|p: Point| p.0)),
        seq_max(ps.map_values(|p: Point| p.1)),
        seq_max(ps.map_values(|p: Point| p.2)),
    )
}

/// `b` is the tightest box around the points `ps`.
pub open spec fn is_bounds_of(b: Aabb, ps: Seq<Point>) -> bool {
    &&& point_of(b.min) == lower_corner(ps)
    &&& point_of(b.max) == upper_corner(ps)
}

/// A 4x4 affine or projective transformation, stored row by row; points are column vectors.
#[derive(Clone, Copy, Debug, PartialEq, Eq)]
pub struct Mat4 {
    pub rows: [[i64; 4]; 4],
}

impl Mat4 {
    pub open spec fn at(self, r: int, c: int) -> int {
        self.rows[r][c] as int
    }

    /// The image of the point `p`, taken as `(x, y, z, 1)`, without the fourth coordinate.
    pub open spec fn apply(self, p: Point) -> Point {
        (
            self.at(0, 0) * p.0 + self.at(0, 1) * p.1 + self.at(0, 2) * p.2 + self.at(0, 3),
            self.at(1, 0) * p.0 + self.at(1, 1) * p.1 + self.at(1, 2) * p.2 + self.at(1, 3),
            self.at(2, 0) * p.0 + self.at(2, 1) * p.1 + self.at(2, 2) * p.2 + self.at(2, 3),
        )
    }

    pub open spec fn is_identity(self) -> bool {
        forall|r: int, c: int| 0 <= r < 4 && 0 <= c < 4 ==> #[trigger] self.at(r, c) == if r == c { 1int } else { 0int }
    }

    pub fn identity() -> (r: Mat4)
        ensures
            r.is_identity(),
    {
        Mat4 { rows: [[1, 0, 0, 0], [0, 1, 0, 0], [0, 0, 1, 0], [0, 0, 0, 1]] }
    }
}


pub open spec fn fits_i32(p: Point) -> bool {
    &&& i32::MIN <= p.0 <= i32::MAX
    &&& i32::MIN <= p.1 <= i32::MAX
    &&& i32::MIN <= p.2 <= i32::MAX
}

proof fn lemma_product_bound(a: int, b: int)
    requires
        -0x8000_0000_0000_0000 <= a <= 0x7fff_ffff_ffff_ffff,
        -0x8000_0000 <= b <= 0x7fff_ffff,
    ensures
        -0x4000_0000_0000_0000_0000_0000 <= a * b <= 0x4000_0000_0000_0000_0000_0000,
{
    assert(-0x4000_0000_0000_0000_0000_0000 <= a * b <= 0x4000_0000_0000_0000_0000_0000) by (nonlinear_arith)
        requires
            -0x8000_0000_0000_0000 <= a <= 0x7fff_ffff_ffff_ffff,
            -0x8000_0000 <= b <= 0x7fff_ffff,
    ;
}

/// One row of a transformation applied to `(x, y, z, 1)`.
pub(crate) fn row_dot(row: &[i64; 4], p: Vec3) -> (r: i128)
    ensures
        r == row[0] * p.x + row[1] * p.y + row[2] * p.z + row[3],
{
    proof {
        lemma_product_bound(row[0] as int, p.x as int);
        lemma_product_bound(row[1] as int, p.y as int);
        lemma_product_bound(row[2] as int, p.z as int);
    }
    (row[0] as i128) * (p.x as i128) + (row[1] as i128) * (p.y as i128) + (row[2] as i128) * (p.z as i128)
        + (row[3] as i128)
}

fn narrow(a: i128) -> (r: i32)
    requires
        i32::MIN <= a <= i32::MAX,
    ensures
        r == a,
{
    a as i32
}

/// The tightest box around points given by their three coordinate lists.
pub(crate) fn bounds_of_coordinates(xs: &Vec<i128>, ys: &Vec<i128>, zs: &Vec<i128>, ps: Ghost<Seq<Point>>) -> (r: Option<Aabb>)
    requires
        ps@.len() > 0,
        xs@.map_values(|a: i128| a as int) == ps@.map_values(|p: Point| p.0),
        ys@.map_values(|a: i128| a as int) == ps@.map_values(|p: Point| p.1),
        zs@.map_values(|a: i128| a as int) == ps@.map_values(|p: Point| p.2),
    ensures
        r is Some <==> fits_i32(lower_corner(ps@)) && fits_i32(upper_corner(ps@)),
        r matches Some(b) ==> is_bounds_of(b, ps@) && b.wf(),
{
    assert(xs@.map_values(|a: i128| a as int).len() == ps@.len());
    assert(ys@.map_values(|a: i128| a as int).len() == ps@.len());
    assert(zs@.map_values(|a: i128| a as int).len() == ps@.len());
    let (x0, x1) = min_max(xs);
    let (y0, y1) = min_max(ys);
    let (z0, z1) = min_max(zs);
    proof {
        let s = ps@.map_values(|p: Point| p.0);
        let t = ps@.map_values(|p: Point| p.1);
        let u = ps@.map_values(|p: Point| p.2);
        lemma_min_max_bound(s);
        lemma_min_max_bound(t);
        lemma_min_max_bound(u);
        assert(s[0] == s[0] && t[0] == t[0] && u[0] == u[0]);
    }
    if x0 < i32::MIN as i128 || x1 > i32::MAX as i128 || y0 < i32::MIN as i128 || y1 > i32::MAX as i128
        || z0 < i32::MIN as i128 || z1 > i32::MAX as i128 {
        return None;
    }
    Some(
        Aabb {
            min: Vec3 { x: narrow(x0), y: narrow(y0), z: narrow(z0) },
            max: Vec3 { x: narrow(x1), y: narrow(y1), z: narrow(z1) },
        },
    )
}

/// The tightest box around a non-empty list of points.
pub fn compute_aabb(ps: &Vec<Vec3>) -> (r: Aabb)
    requires
        ps.len() > 0,
    ensures
        is_bounds_of(r, ps@.map_values(|v: Vec3| point_of(v))),
        r.wf(),
{
    let ghost pts = ps@.map_values(|v: Vec3| point_of(v));
    let mut xs: Vec<i128> = Vec::new();
    let mut ys: Vec<i128> = Vec::new();
    let mut zs: Vec<i128> = Vec::new();
    let mut i: usize = 0;
    while i < ps.len()
        invariant
            0 <= i <= ps.len(),
            pts == ps@.map_values(|v: Vec3| point_of(v)),
            xs.len() == i && ys.len() == i && zs.len() == i,
            forall|j: int| 0 <= j < i ==> #[trigger] xs[j] == ps[j].x,
            forall|j: int| 0 <= j < i ==> #[trigger] ys[j] == ps[j].y,
            forall|j: int| 0 <= j < i ==> #[trigger] zs[j] == ps[j].z,
        decreases ps.len() - i,
    {
        xs.push(ps[i].x as i128);
        ys.push(ps[i].y as i128);
        zs.push(ps[i].z as i128);
        i = i + 1;
    }
    assert(xs@.map_values(|a: i128| a as int) =~= pts.map_values(|p: Point| p.0));
    assert(ys@.map_values(|a: i128| a as int) =~= pts.map_values(|p: Point| p.1));
    assert(zs@.map_values(|a: i128| a as int) =~= pts.map_values(|p: Point| p.2));
    proof {
        let s0 = pts.map_values(|p: Point| p.0);
        let s1 = pts.map_values(|p: Point| p.1);
        let s2 = pts.map_values(|p: Point| p.2);
        assert forall|j: int| 0 <= j < pts.len() implies i32::MIN <= #[trigger] s0[j] <= i32::MAX by {}
        assert forall|j: int| 0 <= j < pts.len() implies i32::MIN <= #[trigger] s1[j] <= i32::MAX by {}
        assert forall|j: int| 0 <= j < pts.len() implies i32::MIN <= #[trigger] s2[j] <= i32::MAX by {}
        lemma_min_max_within(s0, i32::MIN as int, i32::MAX as int);
        lemma_min_max_within(s1, i32::MIN as int, i32::MAX as int);
        lemma_min_max_within(s2, i32::MIN as int, i32::MAX as int);
    }
    let r = bounds_of_coordinates(&xs, &ys, &zs, Ghost(pts));
    r.unwrap()
}


impl Aabb {
    /// The corners of the box after `m`, within the `i32` range.
    pub open spec fn transformed_corners(self, m: Mat4) -> Seq<Point> {
        self.corners().map_values(|p: Point| m.apply(p))
    }

    /// The eight corners, in the order of `corners`.
    pub(crate) fn corner_list(&self) -> (r: Vec<Vec3>)
        ensures
            r@.map_values(|v: Vec3| point_of(v)) == self.corners(),
    {
        let (a, b) = (self.min, self.max);
        let r = vec![
            Vec3 { x: a.x, y: a.y, z: a.z },
            Vec3 { x: b.x, y: a.y, z: a.z },
            Vec3 { x: a.x, y: b.y, z: a.z },
            Vec3 { x: b.x, y: b.y, z: a.z },
            Vec3 { x: a.x, y: a.y, z: b.z },
            Vec3 { x: b.x, y: a.y, z: b.z },
            Vec3 { x: a.x, y: b.y, z: b.z },
            Vec3 { x: b.x, y: b.y, z: b.z },
        ];
        assert(r@.map_values(|v: Vec3| point_of(v)) =~= self.corners());
        r
    }

    /// The tightest box around the eight corners of this box moved by `m`, or `None`
    /// where that box leaves the `i32` range.
    pub fn transformed(&self, m: &Mat4) -> (r: Option<Aabb>)
        ensures
            r is Some <==> fits_i32(lower_corner(self.transformed_corners(*m)))
                && fits_i32(upper_corner(self.transformed_corners(*m))),
            r matches Some(b) ==> is_bounds_of(b, self.transformed_corners(*m)) && b.wf(),
    {
        let ghost pts = self.transformed_corners(*m);
        let cs = self.corner_list();
        assert(cs@.len() == 8) by {
            assert(cs@.map_values(|v: Vec3| point_of(v)).len() == 8);
        }
        let mut xs: Vec<i128> = Vec::new();
        let mut ys: Vec<i128> = Vec::new();
        let mut zs: Vec<i128> = Vec::new();
        let mut i: usize = 0;
        while i < cs.len()
            invariant
                0 <= i <= cs.len(),
                cs@.len() == 8,
                pts == self.transformed_corners(*m),
                cs@.map_values(|v: Vec3| point_of(v)) == self.corners(),
                xs.len() == i && ys.len() == i && zs.len() == i,
                forall|j: int| 0 <= j < i ==> #[trigger] xs[j] == pts[j].0,
                forall|j: int| 0 <= j < i ==> #[trigger] ys[j] == pts[j].1,
                forall|j: int| 0 <= j < i ==> #[trigger] zs[j] == pts[j].2,
            decreases cs.len() - i,
        {
            let c = cs[i];
            assert(point_of(c) == self.corners()[i as int]);
            xs.push(row_dot(&m.rows[0], c));
            ys.push(row_dot(&m.rows[1], c));
            zs.push(row_dot(&m.rows[2], c));
            i = i + 1;
        }
        assert(xs@.map_values(|a: i128| a as int) =~= pts.map_values(|p: Point| p.0));
        assert(ys@.map_values(|a: i128| a as int) =~= pts.map_values(|p: Point| p.1));
        assert(zs@.map_values(|a: i128| a as int) =~= pts.map_values(|p: Point| p.2));
        bounds_of_coordinates(&xs, &ys, &zs, Ghost(pts))
    }
}


/// The identity moves no corner of a well-formed box, so the box recomputed from the
/// moved corners is that box again, and it is in range.
pub proof fn lemma_identity_keeps_bounds(b: Aabb, m: Mat4)
    requires
        b.wf(),
        m.is_identity(),
    ensures
        b.transformed_corners(m) == b.corners(),
        is_bounds_of(b, b.transformed_corners(m)),
        fits_i32(lower_corner(b.transformed_corners(m))),
        fits_i32(upper_corner(b.transformed_corners(m))),
        forall|c: Aabb| #[trigger] is_bounds_of(c, b.transformed_corners(m)) ==> c == b,
{
    let cs = b.corners();
    assert forall|i: int| 0 <= i < 8 implies #[trigger] m.apply(cs[i]) == cs[i] by {
        assert(m.at(0, 0) == 1 && m.at(0, 1) == 0 && m.at(0, 2) == 0 && m.at(0, 3) == 0);
        assert(m.at(1, 0) == 0 && m.at(1, 1) == 1 && m.at(1, 2) == 0 && m.at(1, 3) == 0);
        assert(m.at(2, 0) == 0 && m.at(2, 1) == 0 && m.at(2, 2) == 1 && m.at(2, 3) == 0);
    }
    assert(b.transformed_corners(m) =~= cs);
    let s0 = cs.map_values(|p: Point| p.0);
    let s1 = cs.map_values(|p: Point| p.1);
    let s2 = cs.map_values(|p: Point| p.2);
    lemma_min_max_bound(s0);
    lemma_min_max_bound(s1);
    lemma_min_max_bound(s2);
    lemma_min_max_within(s0, b.min.x as int, b.max.x as int);
    lemma_min_max_within(s1, b.min.y as int, b.max.y as int);
    lemma_min_max_within(s2, b.min.z as int, b.max.z as int);
    assert(s0[0] == b.min.x && s0[7] == b.max.x);
    assert(s1[0] == b.min.y && s1[7] == b.max.y);
    assert(s2[0] == b.min.z && s2[7] == b.max.z);
}

/// A 3x3 homogeneous transformation of the plane, stored row by row.
#[derive(Clone, Copy, Debug, PartialEq, Eq)]
pub struct Mat3 {
    pub rows: [[i64; 3]; 3],
}

pub open spec fn det3(a: int, b: int, c: int, d: int, e: int, f: int, g: int, h: int, i: int) -> int {
    a * (e * i - f * h) - b * (d * i - f * g) + c * (d * h - e * g)
}

impl Mat3 {
    pub open spec fn at(self, r: int, c: int) -> int {
        self.rows[r][c] as int
    }

    pub open spec fn determinant(self) -> int {
        det3(
            self.at(0, 0), self.at(0, 1), self.at(0, 2),
            self.at(1, 0), self.at(1, 1), self.at(1, 2),
            self.at(2, 0), self.at(2, 1), self.at(2, 2),
        )
    }
}

impl Mat4 {
    /// The minor that leaves out row 0 and column `c`.
    pub open spec fn minor0(self, c: int) -> int {
        let k0 = if c == 0 { 1int } else { 0int };
        let k1 = if c <= 1 { 2int } else { 1int };
        let k2 = if c <= 2 { 3int } else { 2int };
        det3(
            self.at(1, k0), self.at(1, k1), self.at(1, k2),
            self.at(2, k0), self.at(2, k1), self.at(2, k2),
            self.at(3, k0), self.at(3, k1), self.at(3, k2),
        )
    }

    /// The determinant, expanded along the first row.
    pub open spec fn determinant(self) -> int {
        self.at(0, 0) * self.minor0(0) - self.at(0, 1) * self.minor0(1) + self.at(0, 2) * self.minor0(2)
            - self.at(0, 3) * self.minor0(3)
    }

    /// The 3D transformation that applies `t` to the x and y coordinates and keeps z.
    pub open spec fn from_planar_spec(t: Mat3) -> Mat4 {
        Mat4 {
            rows: [
                [t.rows[0][0], t.rows[0][1], 0, t.rows[0][2]],
                [t.rows[1][0], t.rows[1][1], 0, t.rows[1][2]],
                [0, 0, 1, 0],
                [t.rows[2][0], t.rows[2][1], 0, t.rows[2][2]],
            ],
        }
    }

    pub fn from_planar(t: &Mat3) -> (r: Mat4)
        ensures
            r == Mat4::from_planar_spec(*t),
            r.determinant() == t.determinant(),
    {
        let r = Mat4 {
            rows: [
                [t.rows[0][0], t.rows[0][1], 0, t.rows[0][2]],
                [t.rows[1][0], t.rows[1][1], 0, t.rows[1][2]],
                [0, 0, 1, 0],
                [t.rows[2][0], t.rows[2][1], 0, t.rows[2][2]],
            ],
        };
        proof {
            let (a, b, c) = (t.at(0, 0), t.at(0, 1), t.at(0, 2));
            let (d, e, f) = (t.at(1, 0), t.at(1, 1), t.at(1, 2));
            let (g, h, i) = (t.at(2, 0), t.at(2, 1), t.at(2, 2));
            assert(r.determinant() == t.determinant()) by (nonlinear_arith)
                requires
                    r.determinant() == a * r.minor0(0) - b * r.minor0(1) + 0 * r.minor0(2) - c * r.minor0(3),
                    r.minor0(0) == det3(e, 0, f, 0, 1, 0, h, 0, i),
                    r.minor0(1) == det3(d, 0, f, 0, 1, 0, g, 0, i),
                    r.minor0(3) == det3(d, e, 0, 0, 0, 1, g, h, 0),
                    t.determinant() == det3(a, b, c, d, e, f, g, h, i),
            ;
        }
        r
    }
}

} // verus!
