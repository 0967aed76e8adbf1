use vstd::prelude::*;
use vstd::string::StringExecFns;
use crate::light::{LightKind, Lights};
use crate::render_states::RenderStates;

verus! {

/// A color in gamma (sRGB) space with straight alpha; alpha 255 is opaque.
#[derive(Clone, Copy, Debug, PartialEq, Eq, Structural)]
pub struct Color {
    pub r: u8,
    pub g: u8,
    pub b: u8,
    pub a: u8,
}

impl Color {
    pub open spec fn white_spec() -> Color {
        Color { r: 255, g: 255, b: 255, a: 255 }
    }

    pub fn white() -> (r: Color)
        ensures
            r == Color::white_spec(),
    {
        Color { r: 255, g: 255, b: 255, a: 255 }
    }
}

/// What the dispatch needs to know of a texture that lives on the GPU.
#[derive(Clone, Copy, Debug, PartialEq, Eq, Structural)]
pub struct Texture {
    pub id: u64,
    pub width: u32,
    pub height: u32,
    pub has_alpha: bool,
}

/// The shading equations a physically based material is lit with.
#[derive(Clone, Copy, Debug, PartialEq, Eq, Structural)]
pub enum LightingModel {
    Phong,
    Blinn,
    CookTorrance,
}

/// A plain color, optionally multiplied with a texture and with the vertex colors.
#[derive(Clone, Copy, Debug, PartialEq, Eq, Structural)]
pub struct ColorMaterial {
    pub color: Color,
    pub texture: Option<Texture>,
    pub opaque_render_states: RenderStates,
    pub transparent_render_states: RenderStates,
}

/// Shows the uv coordinates in red (u) and green (v).
#[derive(Clone, Copy, Debug, PartialEq, Eq, Structural)]
pub struct UvMaterial {
    pub render_states: RenderStates,
}

/// Shows the normals as colors.
#[derive(Clone, Copy, Debug, PartialEq, Eq, Structural)]
pub struct NormalMaterial {
    pub render_states: RenderStates,
}

/// Writes the distance to the camera, scaled so that `max_distance` maps to one.
#[derive(Clone, Copy, Debug, PartialEq, Eq, Structural)]
pub struct DepthMaterial {
    pub max_distance: Option<u32>,
    pub render_states: RenderStates,
}

/// A physically based surface, drawn lit (forward) or into the geometry buffer (deferred).
#[derive(Clone, Copy, Debug, PartialEq, Eq, Structural)]
pub struct PhysicalMaterial {
    pub albedo: Color,
    pub albedo_texture: Option<Texture>,
    pub metallic: u8,
    pub roughness: u8,
    pub lighting_model: LightingModel,
    pub opaque_render_states: RenderStates,
    pub transparent_render_states: RenderStates,
}

/// The closed set of materials an object can be drawn with.
#[derive(Clone, Copy, Debug, PartialEq, Eq, Structural)]
pub enum Material {
    Color(ColorMaterial),
    Uv(UvMaterial),
    Normal(NormalMaterial),
    Depth(DepthMaterial),
    Physical(PhysicalMaterial),
}

pub const VERTEX_COLORS_DEFINE: &'static str = "#define USE_VERTEX_COLORS\n";

pub const TEXTURE_DEFINE: &'static str = "#define USE_TEXTURE\n";

pub const COLOR_BODY: &'static str = "uniform vec4 surfaceColor;
#ifdef USE_TEXTURE
uniform sampler2D tex;
#endif
in vec2 uvs;
in vec4 col;
layout (location = 0) out vec4 outColor;
void main() {
    outColor = surfaceColor;
#ifdef USE_VERTEX_COLORS
    outColor *= col;
#endif
#ifdef USE_TEXTURE
    outColor *= texture(tex, uvs);
#endif
}
";

pub const UV_BODY: &'static str = "in vec2 uvs;
layout (location = 0) out vec4 outColor;
void main() {
    outColor = vec4(uvs, 0.0, 1.0);
}
";

pub const NORMAL_BODY: &'static str = "in vec3 nor;
layout (location = 0) out vec4 outColor;
void main() {
    outColor = vec4(0.5 + 0.5 * normalize(gl_FrontFacing ? nor : -nor), 1.0);
}
";

pub const DEPTH_BODY: &'static str = "uniform vec3 eye;
uniform float maxDistance;
in vec3 pos;
layout (location = 0) out vec4 outColor;
void main() {
    float dist = distance(pos, eye) / maxDistance;
    outColor = vec4(dist, dist, dist, 1.0);
    gl_FragDepth = gl_FragCoord.z;
}
";

pub const PHONG_DEFINE: &'static str = "#define PHONG\n";

pub const BLINN_DEFINE: &'static str = "#define BLINN\n";

pub const COOK_TORRANCE_DEFINE: &'static str = "#define COOK_TORRANCE\n";

pub const AMBIENT_LIGHT: &'static str = "LIGHT(ambient)\n";

pub const DIRECTIONAL_LIGHT: &'static str = "LIGHT(directional)\n";

pub const SPOT_LIGHT: &'static str = "LIGHT(spot)\n";

pub const POINT_LIGHT: &'static str = "LIGHT(point)\n";

pub const PHYSICAL_BODY: &'static str = "uniform vec4 albedo;
uniform float metallic;
uniform float roughness;
#ifdef USE_TEXTURE
uniform sampler2D albedoTexture;
#endif
in vec3 pos;
in vec3 nor;
in vec2 uvs;
in vec4 col;
layout (location = 0) out vec4 outColor;
void main() {
    vec4 surface = albedo;
#ifdef USE_VERTEX_COLORS
    surface *= col;
#endif
#ifdef USE_TEXTURE
    surface *= texture(albedoTexture, uvs);
#endif
    outColor = vec4(shade_lights(surface.rgb, pos, normalize(nor), metallic, roughness), surface.a);
}
";

pub const PHYSICAL_DEFERRED_BODY: &'static str = "uniform vec4 albedo;
uniform float metallic;
uniform float roughness;
#ifdef USE_TEXTURE
uniform sampler2D albedoTexture;
#endif
in vec3 nor;
in vec2 uvs;
in vec4 col;
layout (location = 0) out vec4 outColor;
layout (location = 1) out vec4 outNormal;
void main() {
    vec4 surface = albedo;
#ifdef USE_VERTEX_COLORS
    surface *= col;
#endif
#ifdef USE_TEXTURE
    surface *= texture(albedoTexture, uvs);
#endif
    outColor = vec4(surface.rgb, metallic);
    outNormal = vec4(0.5 + 0.5 * normalize(nor), roughness);
}
";

pub open spec fn light_snippet(k: LightKind) -> Seq<char> {
    match k {
        LightKind::Ambient => AMBIENT_LIGHT@,
        LightKind::Directional => DIRECTIONAL_LIGHT@,
        LightKind::Spot => SPOT_LIGHT@,
        LightKind::Point => POINT_LIGHT@,
    }
}

/// The lighting part of a fragment shader: one line per light, in light order.
pub open spec fn lights_source(ks: Seq<LightKind>) -> Seq<char>
    decreases ks.len(),
{
    if ks.len() == 0 {
        Seq::empty()
    } else {
        lights_source(ks.drop_last()) + light_snippet(ks.last())
    }
}

pub open spec fn lighting_model_define(m: LightingModel) -> Seq<char> {
    match m {
        LightingModel::Phong => PHONG_DEFINE@,
        LightingModel::Blinn => BLINN_DEFINE@,
        LightingModel::CookTorrance => COOK_TORRANCE_DEFINE@,
    }
}

pub open spec fn optional(on: bool, s: Seq<char>) -> Seq<char> {
    if on { s } else { Seq::empty() }
}

/// The fragment shader of a physically based material in the geometry-buffer pass.
pub open spec fn deferred_source(m: PhysicalMaterial, has_vertex_colors: bool) -> Seq<char> {
    optional(has_vertex_colors, VERTEX_COLORS_DEFINE@) + optional(m.albedo_texture is Some, TEXTURE_DEFINE@)
        + PHYSICAL_DEFERRED_BODY@
}

impl Material {
    /// The material is drawn blended over what is behind it.
    pub open spec fn transparent(self) -> bool {
        match self {
            Material::Color(m) => m.color.a < 255 || (m.texture matches Some(t) && t.has_alpha),
            Material::Physical(m) => m.albedo.a < 255 || (m.albedo_texture matches Some(t) && t.has_alpha),
            _ => false,
        }
    }

    /// The render states a draw with this material uses.
    pub open spec fn states(self) -> RenderStates {
        match self {
            Material::Color(m) => if self.transparent() {
                m.transparent_render_states
            } else {
                m.opaque_render_states
            },
            Material::Physical(m) => if self.transparent() {
                m.transparent_render_states
            } else {
                m.opaque_render_states
            },
            Material::Uv(m) => m.render_states,
            Material::Normal(m) => m.render_states,
            Material::Depth(m) => m.render_states,
        }
    }

    /// The mesh must carry uv coordinates.
    pub open spec fn needs_uvs(self) -> bool {
        match self {
            Material::Color(m) => m.texture is Some,
            Material::Physical(m) => m.albedo_texture is Some,
            Material::Uv(_) => true,
            _ => false,
        }
    }

    /// The mesh must carry normals.
    pub open spec fn needs_normals(self) -> bool {
        self is Normal || self is Physical
    }

    /// The fragment shader of a forward draw.
    pub open spec fn source(self, has_vertex_colors: bool, lights: Seq<LightKind>) -> Seq<char> {
        match self {
            Material::Color(m) => optional(has_vertex_colors, VERTEX_COLORS_DEFINE@) + optional(
                m.texture is Some,
                TEXTURE_DEFINE@,
            ) + COLOR_BODY@,
            Material::Uv(_) => UV_BODY@,
            Material::Normal(_) => NORMAL_BODY@,
            Material::Depth(_) => DEPTH_BODY@,
            Material::Physical(m) => lights_source(lights) + lighting_model_define(m.lighting_model)
                + optional(has_vertex_colors, VERTEX_COLORS_DEFINE@) + optional(
                m.albedo_texture is Some,
                TEXTURE_DEFINE@,
            ) + PHYSICAL_BODY@,
        }
    }

    pub fn is_transparent(&self) -> (r: bool)
        ensures
            r == self.transparent(),
    {
        match self {
            Material::Color(m) => m.color.a < 255 || match m.texture {
                Some(t) => t.has_alpha,
                None => false,
            },
            Material::Physical(m) => m.albedo.a < 255 || match m.albedo_texture {
                Some(t) => t.has_alpha,
                None => false,
            },
            _ => false,
        }
    }

    pub fn render_states(&self) -> (r: RenderStates)
        ensures
            r == self.states(),
    {
        let transparent = self.is_transparent();
        match self {
            Material::Color(m) => if transparent {
                m.transparent_render_states
            } else {
                m.opaque_render_states
            },
            Material::Physical(m) => if transparent {
                m.transparent_render_states
            } else {
                m.opaque_render_states
            },
            Material::Uv(m) => m.render_states,
            Material::Normal(m) => m.render_states,
            Material::Depth(m) => m.render_states,
        }
    }

    pub fn requires_uvs(&self) -> (r: bool)
        ensures
            r == self.needs_uvs(),
    {
        match self {
            Material::Color(m) => m.texture.is_some(),
            Material::Physical(m) => m.albedo_texture.is_some(),
            Material::Uv(_) => true,
            _ => false,
        }
    }

    pub fn requires_normals(&self) -> (r: bool)
        ensures
            r == self.needs_normals(),
    {
        match self {
            Material::Normal(_) | Material::Physical(_) => true,
            _ => false,
        }
    }

    /// The fragment shader source of a forward draw with this material.
    pub fn fragment_shader_source(&self, has_vertex_colors: bool, lights: &Lights) -> (r: String)
        ensures
            r@ == self.source(has_vertex_colors, lights.kinds()),
    {
        let mut s = String::new();
        match self {
            Material::Color(m) => {
                push_optional(&mut s, has_vertex_colors, VERTEX_COLORS_DEFINE);
                push_optional(&mut s, m.texture.is_some(), TEXTURE_DEFINE);
                s.append(COLOR_BODY);
            },
            Material::Uv(_) => s.append(UV_BODY),
            Material::Normal(_) => s.append(NORMAL_BODY),
            Material::Depth(_) => s.append(DEPTH_BODY),
            Material::Physical(m) => {
                let kinds = lights.light_kinds();
                push_lights(&mut s, &kinds);
                match m.lighting_model {
                    LightingModel::Phong => s.append(PHONG_DEFINE),
                    LightingModel::Blinn => s.append(BLINN_DEFINE),
                    LightingModel::CookTorrance => s.append(COOK_TORRANCE_DEFINE),
                }
                push_optional(&mut s, has_vertex_colors, VERTEX_COLORS_DEFINE);
                push_optional(&mut s, m.albedo_texture.is_some(), TEXTURE_DEFINE);
                s.append(PHYSICAL_BODY);
            },
        }
        assert(s@ =~= self.source(has_vertex_colors, lights.kinds()));
        s
    }
}

impl PhysicalMaterial {
    /// The fragment shader source of the geometry-buffer pass.
    pub fn fragment_shader_source_deferred(&self, has_vertex_colors: bool) -> (r: String)
        ensures
            r@ == deferred_source(*self, has_vertex_colors),
    {
        let mut s = String::new();
        push_optional(&mut s, has_vertex_colors, VERTEX_COLORS_DEFINE);
        push_optional(&mut s, self.albedo_texture.is_some(), TEXTURE_DEFINE);
        s.append(PHYSICAL_DEFERRED_BODY);
        assert(s@ =~= deferred_source(*self, has_vertex_colors));
        s
    }
}

fn push_optional(s: &mut String, on: bool, text: &str)
    ensures
        final(s)@ == old(s)@ + optional(on, text@),
{
    if on {
        s.append(text);
    } else {
        assert(old(s)@ + optional(on, text@) =~= old(s)@);
    }
}

fn push_lights(s: &mut String, kinds: &Vec<LightKind>)
    ensures
        final(s)@ == old(s)@ + lights_source(kinds@),
{
    let ghost start = s@;
    let mut i: usize = 0;
    assert(kinds@.take(0) =~= Seq::empty());
    while i < kinds.len()
        invariant
            i <= kinds.len(),
            s@ == start + lights_source(kinds@.take(i as int)),
        decreases kinds.len() - i,
    {
        let ghost before = s@;
        match kinds[i] {
            LightKind::Ambient => s.append(AMBIENT_LIGHT),
            LightKind::Directional => s.append(DIRECTIONAL_LIGHT),
            LightKind::Spot => s.append(SPOT_LIGHT),
            LightKind::Point => s.append(POINT_LIGHT),
        }
        assert(kinds@.take(i as int + 1).drop_last() =~= kinds@.take(i as int));
        assert(s@ =~= start + lights_source(kinds@.take(i as int + 1)));
        i = i + 1;
    }
    assert(kinds@.take(i as int) =~= kinds@);
}


/// `s` are the default opaque or transparent states, whatever their culling.
pub open spec fn is_standard(s: RenderStates, transparent: bool) -> bool {
    if transparent {
        s == RenderStates::transparent_spec().with_cull_spec(s.cull)
    } else {
        s == RenderStates::opaque_spec().with_cull_spec(s.cull)
    }
}

impl Material {
    /// A color or physically based material whose two state sets are the defaults.
    pub open spec fn standard_states(self) -> bool {
        match self {
            Material::Color(m) => is_standard(m.opaque_render_states, false) && is_standard(
                m.transparent_render_states,
                true,
            ),
            Material::Physical(m) => is_standard(m.opaque_render_states, false) && is_standard(
                m.transparent_render_states,
                true,
            ),
            _ => false,
        }
    }
}

/// A material with the default state sets blends and leaves the depth buffer alone
/// exactly when it is transparent.
pub proof fn lemma_transparency_states(m: Material)
    requires
        m.standard_states(),
    ensures
        m.states().blends() == m.transparent(),
        m.states().write_mask.depth == !m.transparent(),
{
}

impl ColorMaterial {
    /// A color material with the default opaque and transparent states.
    pub fn new(color: Color) -> (r: ColorMaterial)
        ensures
            r == (ColorMaterial {
                color,
                texture: None,
                opaque_render_states: RenderStates::opaque_spec(),
                transparent_render_states: RenderStates::transparent_spec(),
            }),
    {
        ColorMaterial {
            color,
            texture: None,
            opaque_render_states: RenderStates::opaque(),
            transparent_render_states: RenderStates::transparent(),
        }
    }

    /// A color material multiplied with `texture`, with the default states.
    pub fn new_with_texture(color: Color, texture: Texture) -> (r: ColorMaterial)
        ensures
            r == (ColorMaterial {
                color,
                texture: Some(texture),
                opaque_render_states: RenderStates::opaque_spec(),
                transparent_render_states: RenderStates::transparent_spec(),
            }),
    {
        ColorMaterial {
            color,
            texture: Some(texture),
            opaque_render_states: RenderStates::opaque(),
            transparent_render_states: RenderStates::transparent(),
        }
    }
}

impl PhysicalMaterial {
    /// A physically based material with the default states and no texture.
    pub fn new(albedo: Color, metallic: u8, roughness: u8, lighting_model: LightingModel) -> (r: PhysicalMaterial)
        ensures
            r == (PhysicalMaterial {
                albedo,
                albedo_texture: None,
                metallic,
                roughness,
                lighting_model,
                opaque_render_states: RenderStates::opaque_spec(),
                transparent_render_states: RenderStates::transparent_spec(),
            }),
    {
        PhysicalMaterial {
            albedo,
            albedo_texture: None,
            metallic,
            roughness,
            lighting_model,
            opaque_render_states: RenderStates::opaque(),
            transparent_render_states: RenderStates::transparent(),
        }
    }
}

impl UvMaterial {
    pub fn new() -> (r: UvMaterial)
        ensures
            r.render_states == RenderStates::opaque_spec(),
    {
        UvMaterial { render_states: RenderStates::opaque() }
    }
}

impl NormalMaterial {
    pub fn new() -> (r: NormalMaterial)
        ensures
            r.render_states == RenderStates::opaque_spec(),
    {
        NormalMaterial { render_states: RenderStates::opaque() }
    }
}

impl DepthMaterial {
    pub fn new(max_distance: Option<u32>) -> (r: DepthMaterial)
        ensures
            r.max_distance == max_distance,
            r.render_states == RenderStates::opaque_spec(),
    {
        DepthMaterial { max_distance, render_states: RenderStates::opaque() }
    }
}

} // verus!
