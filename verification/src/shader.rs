//! Shaders: entries of the context's pipeline table.

use vstd::prelude::*;
use crate::context::{ContextView, GraphicsContext};

verus! {

/// Shaders are used to change how objects are drawn.
///
/// A shader names one entry of the pipeline table of the context that made it.
pub struct Shader {
    pipeline_id: usize,
}

impl Shader {
    /// The entry of the pipeline table that this shader names.
    pub closed spec fn id(&self) -> usize {
        self.pipeline_id
    }

    /// Creates a new shader: the next entry of the context's pipeline table.
    pub fn new(ctx: &mut GraphicsContext) -> (shader: Shader)
        requires
            old(ctx).wf(),
            old(ctx)@.pipelines < usize::MAX,
        ensures
            shader.id() == old(ctx)@.pipelines,
            final(ctx)@ == (ContextView { pipelines: old(ctx)@.pipelines + 1, ..old(ctx)@ }),
            final(ctx).wf(),
    {
        Shader { pipeline_id: ctx.register_pipeline() }
    }

    /// The entry of the pipeline table that this shader names.
    pub fn pipeline_id(&self) -> (id: usize)
        ensures
            id == self.id(),
    {
        self.pipeline_id
    }
}

/// A shader with a pipeline layout of its own.
pub struct CustomShader {}

impl CustomShader {
    /// Creates a new custom shader. Its pipeline is not entered into the
    /// context's pipeline table, so no draw can select it.
    pub fn new(ctx: &GraphicsContext) -> (shader: CustomShader) {
        CustomShader {  }
    }
}

/// Whether, and how, a custom pipeline samples a texture.
#[derive(Clone, Copy)]
pub struct TextureConfig {}

} // verus!
