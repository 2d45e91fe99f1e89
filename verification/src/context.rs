//! The render context and render-encoder scopes.
//!
//! The context stands for the driver side of the boundary: it hands out the
//! ambient default renderpass, accepts pipeline creation requests, and
//! observes every begin and end of a render-encoding scope. Threading it
//! explicitly through each operation keeps the core testable without a live
//! driver and makes the scope-pairing guarantee a stated, checkable fact.

use vstd::prelude::*;

use crate::binding::BufferHandle;
use crate::layout::{EncodeError, ShaderData};
use crate::pipeline::Pipeline;
use crate::wire::{encodes, GraphicsPipelineDesc, WireShaderDataLayout};

verus! {

/// Handle of the process-wide default renderpass the driver supplies.
pub const DEFAULT_RENDERPASS_HANDLE: usize = 0;

/// Non-owning reference to a driver-managed renderpass.
#[derive(Clone, Copy, Debug, PartialEq, Eq, Structural)]
pub struct RenderPass(pub usize);

/// One pipeline creation the context has accepted: the full request and the
/// renderpass it targeted.
pub struct PipelineRecord {
    /// The creation request as handed to the driver.
    pub desc: GraphicsPipelineDesc,
    /// Handle of the renderpass the pipeline was created against.
    pub renderpass: usize,
}

/// The driver-side state this layer talks to: accepted pipeline creations
/// and the begin/end counts of render-encoding scopes.
pub struct RenderContext {
    /// Every accepted pipeline creation, in order; a pipeline's handle is
    /// its index here.
    pub created: Vec<PipelineRecord>,
    /// Number of begin-render calls observed.
    pub begun: u64,
    /// Number of end-render calls observed.
    pub ended: u64,
}

/// The transition a scope acquisition makes on the context: one more begin,
/// nothing else touched.
pub open spec fn begin_step(pre: RenderContext, post: RenderContext) -> bool {
    &&& post.begun == pre.begun + 1
    &&& post.ended == pre.ended
    &&& post.created == pre.created
}

/// The transition a scope release makes on the context: one more end,
/// nothing else touched.
pub open spec fn end_step(pre: RenderContext, post: RenderContext) -> bool {
    &&& post.ended == pre.ended + 1
    &&& post.begun == pre.begun
    &&& post.created == pre.created
}

impl RenderContext {
    /// Every end was preceded by a begin.
    pub open spec fn wf(self) -> bool {
        self.ended <= self.begun
    }

    /// Scopes begun and not yet ended.
    pub open spec fn open_scopes(self) -> int {
        self.begun - self.ended
    }

    /// A fresh context: nothing created, no scope begun.
    pub fn new() -> (r: Self)
        ensures
            r.created@ == Seq::<PipelineRecord>::empty(),
            r.begun == 0,
            r.ended == 0,
    {
        RenderContext { created: Vec::new(), begun: 0, ended: 0 }
    }

    /// The ambient default renderpass.
    pub fn default_renderpass(&self) -> (r: RenderPass)
        ensures
            r.0 == DEFAULT_RENDERPASS_HANDLE,
    {
        RenderPass(DEFAULT_RENDERPASS_HANDLE)
    }

    /// Accept a pipeline creation request against the given renderpass and
    /// hand back the new pipeline, whose handle indexes the recorded
    /// request.
    pub fn create_graphics_pipeline(
        &mut self,
        desc: GraphicsPipelineDesc,
        renderpass: &RenderPass,
    ) -> (r: Pipeline)
        ensures
            final(self).created@ == old(self).created@.push(
                PipelineRecord { desc, renderpass: renderpass.0 },
            ),
            final(self).begun == old(self).begun,
            final(self).ended == old(self).ended,
            r.raw == old(self).created@.len(),
    {
        let raw = self.created.len();
        self.created.push(PipelineRecord { desc, renderpass: renderpass.0 });
        Pipeline { raw }
    }
}

/// One command recorded into a render-encoder scope.
#[derive(Clone, Debug, PartialEq)]
pub enum RenderCommand {
    /// Use the given buffer as the vertex buffer.
    SetVertexBuffer(BufferHandle),
    /// Use the given buffer as the index buffer.
    SetIndexBuffer(BufferHandle),
    /// Bind one encoded shader-data layout at a binding-group slot.
    BindShaderData { group: u32, layout: WireShaderDataLayout },
}

/// A single-use render-encoding scope over one renderpass. Acquiring it
/// issues the begin-render call; [`FrameRenderEncoder::end`] consumes it and
/// issues the matching end-render call, so a scope can never end twice. No
/// two scopes may be live for the same renderpass at once; that is a caller
/// error this layer does not defend against.
pub struct FrameRenderEncoder {
    /// Handle of the renderpass being recorded.
    pub renderpass: usize,
    /// The commands recorded so far, in order.
    pub commands: Vec<RenderCommand>,
}

impl FrameRenderEncoder {
    /// Acquire a scope for the given renderpass, issuing the begin-render
    /// call on the context.
    pub fn new(ctx: &mut RenderContext, renderpass: &RenderPass) -> (r: Self)
        requires
            old(ctx).begun < u64::MAX,
        ensures
            begin_step(*old(ctx), *final(ctx)),
            r.renderpass == renderpass.0,
            r.commands@ == Seq::<RenderCommand>::empty(),
    {
        ctx.begun = ctx.begun + 1;
        FrameRenderEncoder { renderpass: renderpass.0, commands: Vec::new() }
    }

    /// Release the scope, issuing the matching end-render call. Consuming
    /// the encoder makes the scope single-use: a new frame needs a new
    /// scope.
    pub fn end(self, ctx: &mut RenderContext)
        requires
            old(ctx).ended < old(ctx).begun,
        ensures
            end_step(*old(ctx), *final(ctx)),
    {
        ctx.ended = ctx.ended + 1;
    }

    /// Record the vertex buffer to draw from.
    pub fn set_vertex_buffer(&mut self, buf: BufferHandle)
        ensures
            final(self).commands@ == old(self).commands@.push(
                RenderCommand::SetVertexBuffer(buf),
            ),
            final(self).renderpass == old(self).renderpass,
    {
        self.commands.push(RenderCommand::SetVertexBuffer(buf));
    }

    /// Record the index buffer to draw from.
    pub fn set_index_buffer(&mut self, buf: BufferHandle)
        ensures
            final(self).commands@ == old(self).commands@.push(
                RenderCommand::SetIndexBuffer(buf),
            ),
            final(self).renderpass == old(self).renderpass,
    {
        self.commands.push(RenderCommand::SetIndexBuffer(buf));
    }

    /// Populate the bundle's layout from the live instance, encode it, and
    /// record the bind at binding-group slot zero. A byte-blob binding left
    /// without its data address refuses to encode and leaves the scope
    /// unchanged.
    pub fn bind<S: ShaderData>(&mut self, data: &S) -> (r: Result<(), EncodeError>)
        ensures
            r is Ok ==> final(self).commands@.len() == old(self).commands@.len() + 1,
            r is Ok ==> final(self).commands@.subrange(0, old(self).commands@.len() as int)
                == old(self).commands@,
            r is Ok ==> (final(self).commands@.last() matches RenderCommand::BindShaderData {
                group,
                layout,
            } && group == 0 && exists|m: Seq<crate::binding::ShaderBinding>| encodes(m, layout)),
            r is Err ==> *final(self) == *old(self),
            final(self).renderpass == old(self).renderpass,
    {
        let populated = data.bind();
        let ghost populated_model = populated@;
        match populated.into_ffi_type() {
            Ok(w) => {
                proof {
                    assert(encodes(populated_model, w));
                }
                let cmd = RenderCommand::BindShaderData { group: 0, layout: w };
                let ghost pushed = cmd;
                self.commands.push(cmd);
                proof {
                    assert(self.commands@.last() == pushed);
                    assert(pushed matches RenderCommand::BindShaderData { group, layout }
                        && group == 0 && encodes(populated_model, layout));
                }
                Ok(())
            },
            Err(e) => Err(e),
        }
    }
}

/// Run one render-encoding scope to completion: acquire an encoder for the
/// renderpass, hand it to `body`, and release it on the way out — also when
/// `body` comes back with an error — so every begin is paired with exactly
/// one end.
pub fn with_render_scope<T, E, F: FnOnce(FrameRenderEncoder) -> (FrameRenderEncoder, Result<T, E>)>(
    ctx: &mut RenderContext,
    renderpass: &RenderPass,
    body: F,
) -> (r: Result<T, E>)
    requires
        old(ctx).wf(),
        old(ctx).begun < u64::MAX,
        forall|enc: FrameRenderEncoder|
            enc.renderpass == renderpass.0 && enc.commands@ == Seq::<RenderCommand>::empty()
                ==> body.requires((enc,)),
    ensures
        final(ctx).begun == old(ctx).begun + 1,
        final(ctx).ended == old(ctx).ended + 1,
        final(ctx).created == old(ctx).created,
        final(ctx).wf(),
        final(ctx).open_scopes() == old(ctx).open_scopes(),
        exists|enc: FrameRenderEncoder, out: (FrameRenderEncoder, Result<T, E>)|
            enc.renderpass == renderpass.0 && enc.commands@ == Seq::<RenderCommand>::empty()
                && body.ensures((enc,), out) && r == out.1,
{
    let enc = FrameRenderEncoder::new(ctx, renderpass);
    let ghost enc_in = enc;
    let (enc, r) = body(enc);
    let ghost out = (enc, r);
    enc.end(ctx);
    proof {
        assert(enc_in.renderpass == renderpass.0 && enc_in.commands@ == Seq::<
            RenderCommand,
        >::empty() && body.ensures((enc_in,), out) && r == out.1);
    }
    r
}

/// Law: every successful acquisition of a render-encoder scope is paired
/// with exactly one release. A begin transition followed by its end
/// transition advances both counters by exactly one, leaves the recorded
/// pipeline creations untouched, and restores the number of open scopes.
pub proof fn lemma_scope_pairing(c0: RenderContext, c1: RenderContext, c2: RenderContext)
    requires
        begin_step(c0, c1),
        end_step(c1, c2),
    ensures
        c2.begun == c0.begun + 1,
        c2.ended == c0.ended + 1,
        c2.open_scopes() == c0.open_scopes(),
        c0.wf() ==> c2.wf(),
        c2.created == c0.created,
{
}

} // verus!
