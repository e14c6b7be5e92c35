use vstd::prelude::*;

use crate::error::FatalError;

verus! {

/// How vertices are assembled. Engine policy is a triangle list.
#[derive(Clone, Copy, Debug, PartialEq, Eq, Structural)]
pub enum Topology {
    TriangleList,
    TriangleStrip,
    LineList,
    PointList,
}

/// Which winding order counts as front-facing. Engine policy is
/// counter-clockwise.
#[derive(Clone, Copy, Debug, PartialEq, Eq, Structural)]
pub enum FrontFace {
    Ccw,
    Cw,
}

/// Which faces are culled. Engine policy is no culling.
#[derive(Clone, Copy, Debug, PartialEq, Eq, Structural)]
pub enum CullMode {
    Disabled,
    Front,
    Back,
}

/// What a compiled shader module declares about its single uniform block:
/// the binding slot, the block's byte size, and the stages that read it.
#[derive(Clone, Copy, Debug, PartialEq, Eq, Structural)]
pub struct ShaderInterface {
    pub uniform_binding: u32,
    pub uniform_size: u64,
    pub reads_in_vertex: bool,
    pub reads_in_fragment: bool,
}

/// The one uniform-buffer binding a pipeline declares: slot, minimum bound
/// size, and the stages it is visible to.
#[derive(Clone, Copy, Debug, PartialEq, Eq, Structural)]
pub struct BindingLayout {
    pub binding: u32,
    pub min_size: u64,
    pub visible_vertex: bool,
    pub visible_fragment: bool,
}

/// The binding layout is in lock-step with what the shader declares: same
/// slot, same block size, and the binding visible to every stage that reads
/// it. Pipeline creation fails otherwise.
pub open spec fn layout_matches(shader: ShaderInterface, layout: BindingLayout) -> bool {
    &&& layout.binding == shader.uniform_binding
    &&& layout.min_size == shader.uniform_size
    &&& (shader.reads_in_vertex ==> layout.visible_vertex)
    &&& (shader.reads_in_fragment ==> layout.visible_fragment)
}

/// A compiled pipeline: immutable after creation, carrying the binding
/// layout it was built against and the fixed-function draw policy.
#[derive(Clone, Copy, Debug, PartialEq, Eq, Structural)]
pub struct Pipeline {
    pub layout: BindingLayout,
    pub topology: Topology,
    pub front_face: FrontFace,
    pub cull_mode: CullMode,
}

/// Builds a pipeline from the outcome of shader compilation and the binding
/// layout the engine declares. `compiled` is `None` when the shader module
/// failed to compile; that and a layout out of lock-step with the shader are
/// both fatal at startup. Topology, winding order and cull mode are fixed
/// engine policy, not configurable per call.
pub fn build_pipeline(compiled: Option<ShaderInterface>, layout: BindingLayout) -> (r: Result<
    Pipeline,
    FatalError,
>)
    ensures
        match r {
            Ok(p) => {
                &&& compiled matches Some(s) && layout_matches(s, layout)
                &&& p.layout == layout
                &&& p.topology == Topology::TriangleList
                &&& p.front_face == FrontFace::Ccw
                &&& p.cull_mode == CullMode::Disabled
            },
            Err(e) => {
                &&& compiled is None ==> e == FatalError::ShaderCompileFailure
                &&& (compiled matches Some(s) ==> {
                    &&& !layout_matches(s, layout)
                    &&& e == FatalError::PipelineLayoutMismatch
                })
            },
        },
        r is Ok <==> (compiled matches Some(s) && layout_matches(s, layout)),
{
    match compiled {
        None => Err(FatalError::ShaderCompileFailure),
        Some(s) => {
            let slot_ok: bool = layout.binding == s.uniform_binding && layout.min_size
                == s.uniform_size;
            let visibility_ok: bool = (!s.reads_in_vertex || layout.visible_vertex)
                && (!s.reads_in_fragment || layout.visible_fragment);
            if slot_ok && visibility_ok {
                Ok(
                    Pipeline {
                        layout,
                        topology: Topology::TriangleList,
                        front_face: FrontFace::Ccw,
                        cull_mode: CullMode::Disabled,
                    },
                )
            } else {
                Err(FatalError::PipelineLayoutMismatch)
            }
        },
    }
}

/// What the engine's procedural cube shader declares: one 16-byte uniform
/// block at binding 0, read by both the vertex and the fragment stage.
pub open spec fn spec_engine_shader_interface() -> ShaderInterface {
    ShaderInterface {
        uniform_binding: 0,
        uniform_size: 16,
        reads_in_vertex: true,
        reads_in_fragment: true,
    }
}

/// The interface of the engine's own shader module.
pub fn engine_shader_interface() -> (r: ShaderInterface)
    ensures
        r == spec_engine_shader_interface(),
{
    ShaderInterface {
        uniform_binding: 0,
        uniform_size: 16,
        reads_in_vertex: true,
        reads_in_fragment: true,
    }
}

/// The binding layout the engine declares for its uniform block.
pub open spec fn spec_engine_binding_layout() -> BindingLayout {
    BindingLayout { binding: 0, min_size: 16, visible_vertex: true, visible_fragment: true }
}

/// The engine's own uniform binding layout.
pub fn engine_binding_layout() -> (r: BindingLayout)
    ensures
        r == spec_engine_binding_layout(),
{
    BindingLayout { binding: 0, min_size: 16, visible_vertex: true, visible_fragment: true }
}

/// The engine's declared layout is in lock-step with its own shader, so
/// building the engine pipeline from a compiled module always succeeds.
pub proof fn lemma_engine_layout_in_lockstep()
    ensures
        layout_matches(spec_engine_shader_interface(), spec_engine_binding_layout()),
{
}

} // verus!
