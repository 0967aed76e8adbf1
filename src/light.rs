use vstd::prelude::*;
use crate::geometry::Vec3;
use crate::material::Color;

verus! {

#[derive(Clone, Copy, Debug, PartialEq, Eq, Structural)]
pub struct AmbientLight {
    pub color: Color,
    pub intensity: u8,
}

#[derive(Clone, Copy, Debug, PartialEq, Eq, Structural)]
pub struct DirectionalLight {
    pub color: Color,
    pub intensity: u8,
    pub direction: Vec3,
}

#[derive(Clone, Copy, Debug, PartialEq, Eq, Structural)]
pub struct SpotLight {
    pub color: Color,
    pub intensity: u8,
    pub position: Vec3,
    pub direction: Vec3,
    pub cutoff_degrees: u16,
}

#[derive(Clone, Copy, Debug, PartialEq, Eq, Structural)]
pub struct PointLight {
    pub color: Color,
    pub intensity: u8,
    pub position: Vec3,
}

#[derive(Clone, Copy, Debug, PartialEq, Eq, Structural)]
pub enum LightKind {
    Ambient,
    Directional,
    Spot,
    Point,
}

/// The lights a forward draw is lit by.
pub struct Lights {
    pub ambient: Option<AmbientLight>,
    pub directional: Vec<DirectionalLight>,
    pub spot: Vec<SpotLight>,
    pub point: Vec<PointLight>,
}

impl Lights {
    /// No light at all.
    pub fn none() -> (r: Lights)
        ensures
            r.kinds().len() == 0,
    {
        let r = Lights { ambient: None, directional: Vec::new(), spot: Vec::new(), point: Vec::new() };
        assert(r.kinds() =~= Seq::empty());
        r
    }

    /// The kind of each light in the order the lights are numbered for the shader:
    /// the ambient light first, then the directional, spot and point lights, each group
    /// in its own order.
    pub open spec fn kinds(&self) -> Seq<LightKind> {
        (if self.ambient is Some { seq![LightKind::Ambient] } else { Seq::empty() })
            + Seq::new(self.directional.len() as nat, |i: int| LightKind::Directional)
            + Seq::new(self.spot.len() as nat, |i: int| LightKind::Spot)
            + Seq::new(self.point.len() as nat, |i: int| LightKind::Point)
    }

    /// The kinds of the lights, in shader order.
    pub fn light_kinds(&self) -> (r: Vec<LightKind>)
        ensures
            r@ == self.kinds(),
    {
        let mut r: Vec<LightKind> = Vec::new();
        if self.ambient.is_some() {
            r.push(LightKind::Ambient);
        }
        let ghost head = r@;
        let mut i: usize = 0;
        while i < self.directional.len()
            invariant
                i <= self.directional.len(),
                r@ == head + Seq::new(i as nat, |j: int| LightKind::Directional),
            decreases self.directional.len() - i,
        {
            r.push(LightKind::Directional);
            i = i + 1;
            assert(r@ =~= head + Seq::new(i as nat, |j: int| LightKind::Directional));
        }
        let ghost head = r@;
        let mut i: usize = 0;
        while i < self.spot.len()
            invariant
                i <= self.spot.len(),
                r@ == head + Seq::new(i as nat, |j: int| LightKind::Spot),
            decreases self.spot.len() - i,
        {
            r.push(LightKind::Spot);
            i = i + 1;
            assert(r@ =~= head + Seq::new(i as nat, |j: int| LightKind::Spot));
        }
        let ghost head = r@;
        let mut i: usize = 0;
        while i < self.point.len()
            invariant
                i <= self.point.len(),
                r@ == head + Seq::new(i as nat, |j: int| LightKind::Point),
            decreases self.point.len() - i,
        {
            r.push(LightKind::Point);
            i = i + 1;
            assert(r@ =~= head + Seq::new(i as nat, |j: int| LightKind::Point));
        }
        assert(r@ =~= self.kinds());
        r
    }
}

} // verus!
