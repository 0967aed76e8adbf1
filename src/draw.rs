use vstd::prelude::*;
use crate::context::{Context, Program, SourcePair};
use crate::geometry::Mat4;
use crate::light::LightKind;
use crate::material::Material;
use crate::render_states::RenderStates;

verus! {

/// A vertex attribute a material can need from a mesh.
#[derive(Clone, Copy, Debug, PartialEq, Eq, Structural)]
pub enum Attribute {
    Normal,
    Uv,
    Color,
}

/// The errors of constructing and drawing objects.
#[derive(Clone, Debug, PartialEq, Eq)]
pub enum RenderError {
    /// The GPU layer could not compile a program; holds the compiler's diagnostic.
    ShaderCompile(String),
    /// The material needs a vertex attribute the mesh does not have.
    MissingAttribute(Attribute),
    /// The mesh has no vertex, or its attributes or indices do not fit its vertices.
    InvalidGeometry,
    /// The transformation moves the bounding box out of the coordinate range.
    InvalidTransform,
    /// An instanced object was given no instance.
    EmptyInstanceList,
}

/// The rectangle of the render target a draw covers, in pixels.
#[derive(Clone, Copy, Debug, PartialEq, Eq, Structural)]
pub struct Viewport {
    pub x: i32,
    pub y: i32,
    pub width: u32,
    pub height: u32,
}

impl Viewport {
    pub fn new_at_origin(width: u32, height: u32) -> (r: Viewport)
        ensures
            r == (Viewport { x: 0, y: 0, width, height }),
    {
        Viewport { x: 0, y: 0, width, height }
    }
}

/// What a draw needs of the camera; its matrices live in the GPU layer's uniform block.
#[derive(Clone, Copy, Debug, PartialEq, Eq, Structural)]
pub struct Camera {
    pub viewport: Viewport,
}

/// One draw call, ready to be issued by the GPU layer: the program, the material whose
/// uniforms it binds, the kinds of the lights it binds, in the order the shader numbers
/// them, and the pipeline state.
#[derive(Clone, Debug, PartialEq, Eq)]
pub struct DrawCall {
    pub program: Program,
    pub material: Material,
    pub lights: Vec<LightKind>,
    pub render_states: RenderStates,
    pub viewport: Viewport,
    pub transformation: Mat4,
}

/// `after` is the program cache `before` once the program of `key` was requested and
/// got the handle `id`.
pub open spec fn requested(before: Seq<SourcePair>, after: Seq<SourcePair>, key: SourcePair, id: usize) -> bool {
    &&& id < after.len()
    &&& after[id as int] == key
    &&& before.contains(key) ==> after == before
    &&& !before.contains(key) ==> after == before.push(key)
}

/// Requests the program of the two sources.
pub fn request_program(context: &mut Context, vertex: &String, fragment: &String) -> (r: Program)
    requires
        old(context).wf(),
    ensures
        final(context).wf(),
        requested(old(context).sources(), final(context).sources(), (vertex@, fragment@), r.id),
{
    let (p, _) = context.program(vertex.as_str(), fragment.as_str());
    p
}

} // verus!
