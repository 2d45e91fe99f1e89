//! A shader: the pipeline built from its two source files, plus the binding
//! layouts it declares.

use vstd::prelude::*;

use crate::binding::ShaderBinding;
use crate::context::{RenderContext, DEFAULT_RENDERPASS_HANDLE};
use crate::pipeline::{shader_desc_matches, Pipeline, PipelineBuilder};

verus! {

/// A pipeline together with the binding descriptors its shader stages
/// declare.
pub struct Shader {
    /// The pipeline created for this shader pair.
    pub pipeline: Pipeline,
    /// The binding descriptors declared so far, in slot order.
    pub binding_layouts: Vec<ShaderBinding>,
}

impl Shader {
    /// Build the shader's pipeline against the default renderpass from the
    /// two source paths and their texts (read by the caller: this layer
    /// does no I/O), starting with no declared binding layouts.
    pub fn new(
        ctx: &mut RenderContext,
        name: String,
        vs_path: &str,
        fs_path: &str,
        vertex_code: String,
        fragment_code: String,
    ) -> (r: Self)
        ensures
            final(ctx).created@.len() == old(ctx).created@.len() + 1,
            final(ctx).created@.subrange(0, old(ctx).created@.len() as int) == old(ctx).created@,
            final(ctx).created@.last().renderpass == DEFAULT_RENDERPASS_HANDLE,
            final(ctx).created@.last().desc.debug_name@ == name@,
            shader_desc_matches(final(ctx).created@.last().desc.vs, vs_path@, vertex_code@),
            shader_desc_matches(final(ctx).created@.last().desc.fs, fs_path@, fragment_code@),
            r.pipeline.raw == old(ctx).created@.len(),
            r.binding_layouts@ == Seq::<ShaderBinding>::empty(),
            final(ctx).begun == old(ctx).begun,
            final(ctx).ended == old(ctx).ended,
    {
        let builder = PipelineBuilder::new(name).add_shader_src(vs_path, fs_path);
        let pipeline = match builder.build(ctx, vertex_code, fragment_code) {
            Ok(p) => p,
            Err(_) => unreached(),
        };
        Shader { pipeline, binding_layouts: Vec::new() }
    }

    /// Append one binding descriptor, returning the shader for chaining.
    pub fn add_layout(&mut self, binding: ShaderBinding) -> (r: &mut Self)
        ensures
            (*r).binding_layouts@ == old(self).binding_layouts@.push(binding),
            (*r).pipeline == old(self).pipeline,
            *final(self) == *final(r),
    {
        self.binding_layouts.push(binding);
        self
    }
}

} // verus!
