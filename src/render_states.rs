use vstd::prelude::*;

verus! {

/// Which faces of a triangle are discarded.
#[derive(Clone, Copy, Debug, PartialEq, Eq, Structural)]
pub enum Cull {
    Disabled,
    Back,
    Front,
    FrontAndBack,
}

/// Which channels of the render target a draw writes.
#[derive(Clone, Copy, Debug, PartialEq, Eq, Structural)]
pub struct WriteMask {
    pub red: bool,
    pub green: bool,
    pub blue: bool,
    pub alpha: bool,
    pub depth: bool,
}

impl WriteMask {
    /// All color channels and depth.
    pub fn color_and_depth() -> (r: WriteMask)
        ensures
            r == (WriteMask { red: true, green: true, blue: true, alpha: true, depth: true }),
    {
        WriteMask { red: true, green: true, blue: true, alpha: true, depth: true }
    }

    /// All color channels, no depth.
    pub fn color() -> (r: WriteMask)
        ensures
            r == (WriteMask { red: true, green: true, blue: true, alpha: true, depth: false }),
    {
        WriteMask { red: true, green: true, blue: true, alpha: true, depth: false }
    }

    /// Depth only.
    pub fn depth() -> (r: WriteMask)
        ensures
            r == (WriteMask { red: false, green: false, blue: false, alpha: false, depth: true }),
    {
        WriteMask { red: false, green: false, blue: false, alpha: false, depth: true }
    }
}

/// When a fragment passes the depth test.
#[derive(Clone, Copy, Debug, PartialEq, Eq, Structural)]
pub enum DepthTest {
    Never,
    Less,
    Equal,
    LessOrEqual,
    Greater,
    NotEqual,
    GreaterOrEqual,
    Always,
}

/// A weight of the blend function.
#[derive(Clone, Copy, Debug, PartialEq, Eq, Structural)]
pub enum BlendMultiplier {
    Zero,
    One,
    SrcColor,
    OneMinusSrcColor,
    DstColor,
    OneMinusDstColor,
    SrcAlpha,
    OneMinusSrcAlpha,
    DstAlpha,
    OneMinusDstAlpha,
    SrcAlphaSaturate,
}

/// How the weighted source and destination are combined.
#[derive(Clone, Copy, Debug, PartialEq, Eq, Structural)]
pub enum BlendEquation {
    Add,
    Subtract,
    ReverseSubtract,
    Max,
    Min,
}

#[derive(Clone, Copy, Debug, PartialEq, Eq, Structural)]
pub struct BlendParameters {
    pub source_rgb_multiplier: BlendMultiplier,
    pub source_alpha_multiplier: BlendMultiplier,
    pub destination_rgb_multiplier: BlendMultiplier,
    pub destination_alpha_multiplier: BlendMultiplier,
    pub rgb_equation: BlendEquation,
    pub alpha_equation: BlendEquation,
}

#[derive(Clone, Copy, Debug, PartialEq, Eq, Structural)]
pub enum Blend {
    Disabled,
    Enabled(BlendParameters),
}

impl Blend {
    /// Standard alpha blending: `src * a + dst * (1 - a)`.
    pub open spec fn transparency_spec() -> Blend {
        Blend::Enabled(
            BlendParameters {
                source_rgb_multiplier: BlendMultiplier::SrcAlpha,
                source_alpha_multiplier: BlendMultiplier::Zero,
                destination_rgb_multiplier: BlendMultiplier::OneMinusSrcAlpha,
                destination_alpha_multiplier: BlendMultiplier::One,
                rgb_equation: BlendEquation::Add,
                alpha_equation: BlendEquation::Add,
            },
        )
    }

    pub fn transparency() -> (r: Blend)
        ensures
            r == Blend::transparency_spec(),
    {
        Blend::Enabled(
            BlendParameters {
                source_rgb_multiplier: BlendMultiplier::SrcAlpha,
                source_alpha_multiplier: BlendMultiplier::Zero,
                destination_rgb_multiplier: BlendMultiplier::OneMinusSrcAlpha,
                destination_alpha_multiplier: BlendMultiplier::One,
                rgb_equation: BlendEquation::Add,
                alpha_equation: BlendEquation::Add,
            },
        )
    }
}

/// The pipeline configuration a draw call is issued with.
#[derive(Clone, Copy, Debug, PartialEq, Eq, Structural)]
pub struct RenderStates {
    pub cull: Cull,
    pub write_mask: WriteMask,
    pub depth_test: DepthTest,
    pub blend: Blend,
}

impl RenderStates {
    /// Opaque drawing: no culling, depth written and tested with `Less`, no blending.
    pub open spec fn opaque_spec() -> RenderStates {
        RenderStates {
            cull: Cull::Disabled,
            write_mask: WriteMask { red: true, green: true, blue: true, alpha: true, depth: true },
            depth_test: DepthTest::Less,
            blend: Blend::Disabled,
        }
    }

    /// Transparent drawing: colors blended by alpha, depth tested but not written.
    pub open spec fn transparent_spec() -> RenderStates {
        RenderStates {
            cull: Cull::Disabled,
            write_mask: WriteMask { red: true, green: true, blue: true, alpha: true, depth: false },
            depth_test: DepthTest::Less,
            blend: Blend::transparency_spec(),
        }
    }

    pub fn opaque() -> (r: RenderStates)
        ensures
            r == RenderStates::opaque_spec(),
    {
        RenderStates {
            cull: Cull::Disabled,
            write_mask: WriteMask::color_and_depth(),
            depth_test: DepthTest::Less,
            blend: Blend::Disabled,
        }
    }

    pub fn transparent() -> (r: RenderStates)
        ensures
            r == RenderStates::transparent_spec(),
    {
        RenderStates {
            cull: Cull::Disabled,
            write_mask: WriteMask::color(),
            depth_test: DepthTest::Less,
            blend: Blend::transparency(),
        }
    }

    /// Blending is on.
    pub open spec fn blends(self) -> bool {
        self.blend is Enabled
    }

    pub open spec fn with_cull_spec(self, cull: Cull) -> RenderStates {
        RenderStates { cull, ..self }
    }

    /// The states of a geometry-buffer draw: these states with the given culling, and a
    /// depth test that always passing is replaced by `Less`, since that pass needs one.
    pub open spec fn geometry_pass_spec(self, cull: Cull) -> RenderStates {
        RenderStates {
            cull,
            depth_test: if self.depth_test == DepthTest::Always {
                DepthTest::Less
            } else {
                self.depth_test
            },
            ..self
        }
    }

    #[verifier::when_used_as_spec(geometry_pass_spec)]
    pub fn geometry_pass(self, cull: Cull) -> (r: RenderStates)
        ensures
            r == self.geometry_pass_spec(cull),
            r.depth_test != DepthTest::Always,
    {
        let depth_test = match self.depth_test {
            DepthTest::Always => DepthTest::Less,
            other => other,
        };
        RenderStates { cull, depth_test, ..self }
    }

    /// These states with the given face culling.
    #[verifier::when_used_as_spec(with_cull_spec)]
    pub fn with_cull(self, cull: Cull) -> (r: RenderStates)
        ensures
            r == self.with_cull_spec(cull),
    {
        RenderStates { cull, ..self }
    }
}

} // verus!
