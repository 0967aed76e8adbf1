use vstd::prelude::*;
use vstd::string::StringExecFns;
use crate::geometry::Vec3;
use crate::material::{optional, Color};

verus! {

/// Vertex and index data of a triangle mesh, kept on the CPU side.
/// Texture coordinates are fixed-point, 65536 per texture side.
#[derive(Debug)]
pub struct CpuMesh {
    pub positions: Vec<Vec3>,
    pub indices: Option<Vec<u32>>,
    pub normals: Option<Vec<Vec3>>,
    pub uvs: Option<Vec<(i32, i32)>>,
    pub colors: Option<Vec<Color>>,
}

impl CpuMesh {
    /// At least one vertex; every attribute has one entry per vertex; the indices form
    /// whole triangles of existing vertices.
    pub open spec fn valid(&self) -> bool {
        let n = self.positions.len();
        &&& n > 0
        &&& self.normals matches Some(v) ==> v.len() == n
        &&& self.uvs matches Some(v) ==> v.len() == n
        &&& self.colors matches Some(v) ==> v.len() == n
        &&& self.indices matches Some(ix) ==> ix.len() % 3 == 0 && forall|i: int|
            0 <= i < ix.len() ==> (#[trigger] ix[i]) < n
    }

    pub fn is_valid(&self) -> (r: bool)
        ensures
            r == self.valid(),
    {
        let n = self.positions.len();
        if n == 0 {
            return false;
        }
        if let Some(v) = &self.normals {
            if v.len() != n {
                return false;
            }
        }
        if let Some(v) = &self.uvs {
            if v.len() != n {
                return false;
            }
        }
        if let Some(v) = &self.colors {
            if v.len() != n {
                return false;
            }
        }
        if let Some(ix) = &self.indices {
            if ix.len() % 3 != 0 {
                return false;
            }
            let mut i: usize = 0;
            while i < ix.len()
                invariant
                    i <= ix.len(),
                    self.indices == Some(*ix),
                    n == self.positions.len(),
                    forall|j: int| 0 <= j < i ==> (#[trigger] ix[j]) < n,
                decreases ix.len() - i,
            {
                if ix[i] as usize >= n {
                    assert(!(ix[i as int] < n));
                    return false;
                }
                i = i + 1;
            }
        }
        true
    }
}

/// Which vertex attributes a mesh feeds to the vertex shader.
#[derive(Clone, Copy, Debug, PartialEq, Eq, Structural)]
pub struct VertexShape {
    pub normals: bool,
    pub uvs: bool,
    pub colors: bool,
    pub instanced: bool,
}

impl CpuMesh {
    pub open spec fn shape(&self, instanced: bool) -> VertexShape {
        VertexShape {
            normals: self.normals is Some,
            uvs: self.uvs is Some,
            colors: self.colors is Some,
            instanced,
        }
    }

    pub fn vertex_shape(&self, instanced: bool) -> (r: VertexShape)
        ensures
            r == self.shape(instanced),
    {
        VertexShape {
            normals: self.normals.is_some(),
            uvs: self.uvs.is_some(),
            colors: self.colors.is_some(),
            instanced,
        }
    }
}

pub const NORMALS_DEFINE: &'static str = "#define USE_NORMALS\n";

pub const UVS_DEFINE: &'static str = "#define USE_UVS\n";

pub const COLORS_DEFINE: &'static str = "#define USE_COLORS\n";

pub const INSTANCED_DEFINE: &'static str = "#define INSTANCED\n";

pub const VERTEX_BODY: &'static str = "layout (std140) uniform Camera {
    mat4 viewProjection;
    mat4 view;
    mat4 projection;
    vec3 position;
} camera;
uniform mat4 modelMatrix;
in vec3 position;
#ifdef INSTANCED
in vec4 row1;
in vec4 row2;
in vec4 row3;
#endif
out vec3 pos;
#ifdef USE_NORMALS
in vec3 normal;
out vec3 nor;
#endif
#ifdef USE_UVS
in vec2 uv_coordinates;
out vec2 uvs;
#endif
#ifdef USE_COLORS
in vec4 color;
out vec4 col;
#endif
void main() {
    mat4 local = mat4(1.0);
#ifdef INSTANCED
    local = transpose(mat4(row1, row2, row3, vec4(0.0, 0.0, 0.0, 1.0)));
#endif
    vec4 world = modelMatrix * local * vec4(position, 1.0);
    pos = world.xyz;
#ifdef USE_NORMALS
    nor = normalize(mat3(transpose(inverse(modelMatrix * local))) * normal);
#endif
#ifdef USE_UVS
    uvs = uv_coordinates;
#endif
#ifdef USE_COLORS
    col = color / 255.0;
#endif
    gl_Position = camera.viewProjection * world;
}
";

/// The vertex shader for meshes of the given shape.
pub open spec fn vertex_source(s: VertexShape) -> Seq<char> {
    optional(s.normals, NORMALS_DEFINE@) + optional(s.uvs, UVS_DEFINE@) + optional(s.colors, COLORS_DEFINE@)
        + optional(s.instanced, INSTANCED_DEFINE@) + VERTEX_BODY@
}

pub fn vertex_shader_source(s: VertexShape) -> (r: String)
    ensures
        r@ == vertex_source(s),
{
    let mut r = String::new();
    if s.normals {
        r.append(NORMALS_DEFINE);
    }
    if s.uvs {
        r.append(UVS_DEFINE);
    }
    if s.colors {
        r.append(COLORS_DEFINE);
    }
    if s.instanced {
        r.append(INSTANCED_DEFINE);
    }
    r.append(VERTEX_BODY);
    assert(r@ =~= vertex_source(s));
    r
}

} // verus!
