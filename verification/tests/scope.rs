use celeritas_ral::binding::{BufferHandle, ShaderBinding, ShaderBindingKind};
use celeritas_ral::context::{
    with_render_scope, FrameRenderEncoder, RenderCommand, RenderContext,
};
use celeritas_ral::layout::{EncodeError, ShaderData, ShaderDataLayout};
use celeritas_ral::wire::WireBindingTag;

struct Blob {
    _payload: [u8; 16],
}

impl ShaderData for Blob {
    fn layout() -> ShaderDataLayout {
        ShaderDataLayout::from_slice(vec![ShaderBinding::new(
            "blob".to_owned(),
            ShaderBindingKind::Bytes { size: 16, data: None },
        )])
    }

    fn bind(&self) -> ShaderDataLayout {
        ShaderDataLayout::from_slice(vec![ShaderBinding::new(
            "blob".to_owned(),
            ShaderBindingKind::Bytes { size: 16, data: Some(0x7000) },
        )])
    }
}

struct BrokenBlob;

impl ShaderData for BrokenBlob {
    fn layout() -> ShaderDataLayout {
        ShaderDataLayout::default()
    }

    fn bind(&self) -> ShaderDataLayout {
        ShaderDataLayout::from_slice(vec![ShaderBinding::new(
            "broken".to_owned(),
            ShaderBindingKind::Bytes { size: 16, data: None },
        )])
    }
}

#[test]
fn begin_and_end_are_paired() {
    let mut ctx = RenderContext::new();
    let rp = ctx.default_renderpass();
    let enc = FrameRenderEncoder::new(&mut ctx, &rp);
    assert_eq!(ctx.begun, 1);
    assert_eq!(ctx.ended, 0);
    enc.end(&mut ctx);
    assert_eq!(ctx.begun, 1);
    assert_eq!(ctx.ended, 1);
}

#[test]
fn scope_releases_even_on_early_error_return() {
    let mut ctx = RenderContext::new();
    let rp = ctx.default_renderpass();
    let r: Result<(), &str> = with_render_scope(&mut ctx, &rp, |enc| {
        // Simulate a failure inside the scope's usage window.
        (enc, Err("draw failed"))
    });
    assert_eq!(r, Err("draw failed"));
    assert_eq!(ctx.begun, 1);
    assert_eq!(ctx.ended, 1);
}

#[test]
fn scope_releases_on_success_too() {
    let mut ctx = RenderContext::new();
    let rp = ctx.default_renderpass();
    let r: Result<u32, ()> = with_render_scope(&mut ctx, &rp, |mut enc| {
        enc.set_vertex_buffer(BufferHandle(3));
        (enc, Ok(17))
    });
    assert_eq!(r, Ok(17));
    assert_eq!(ctx.begun, 1);
    assert_eq!(ctx.ended, 1);
}

#[test]
fn consecutive_scopes_stay_balanced() {
    let mut ctx = RenderContext::new();
    let rp = ctx.default_renderpass();
    for _ in 0..3 {
        let enc = FrameRenderEncoder::new(&mut ctx, &rp);
        enc.end(&mut ctx);
    }
    assert_eq!(ctx.begun, 3);
    assert_eq!(ctx.ended, 3);
}

#[test]
fn encoder_records_buffer_commands_in_order() {
    let mut ctx = RenderContext::new();
    let rp = ctx.default_renderpass();
    let mut enc = FrameRenderEncoder::new(&mut ctx, &rp);
    enc.set_vertex_buffer(BufferHandle(3));
    enc.set_index_buffer(BufferHandle(4));
    assert_eq!(
        enc.commands,
        vec![
            RenderCommand::SetVertexBuffer(BufferHandle(3)),
            RenderCommand::SetIndexBuffer(BufferHandle(4)),
        ]
    );
    enc.end(&mut ctx);
}

#[test]
fn bind_records_encoded_layout_at_group_zero() {
    let mut ctx = RenderContext::new();
    let rp = ctx.default_renderpass();
    let mut enc = FrameRenderEncoder::new(&mut ctx, &rp);
    let blob = Blob { _payload: [0; 16] };
    enc.bind(&blob).expect("the blob carries its data address");
    assert_eq!(enc.commands.len(), 1);
    match &enc.commands[0] {
        RenderCommand::BindShaderData { group, layout } => {
            assert_eq!(*group, 0);
            assert_eq!(layout.bindings[0].kind, WireBindingTag::Bytes);
            assert_eq!(layout.bindings[0].label, "blob");
            assert_eq!(layout.bindings[0].bytes_size, 16);
            assert_eq!(layout.bindings[0].bytes_data, 0x7000);
        }
        other => panic!("expected a bind command, got {:?}", other),
    }
    enc.end(&mut ctx);
}

#[test]
fn bind_refuses_populated_layout_without_data() {
    let mut ctx = RenderContext::new();
    let rp = ctx.default_renderpass();
    let mut enc = FrameRenderEncoder::new(&mut ctx, &rp);
    let err = enc.bind(&BrokenBlob).expect_err("the blob never set its data address");
    assert_eq!(err, EncodeError::MissingBytesData { slot: 0 });
    assert!(enc.commands.is_empty());
    enc.end(&mut ctx);
}
