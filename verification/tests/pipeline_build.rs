use celeritas_ral::binding::{ShaderBinding, ShaderBindingKind};
use celeritas_ral::context::{RenderContext, RenderPass, DEFAULT_RENDERPASS_HANDLE};
use celeritas_ral::layout::{ShaderData, ShaderDataLayout};
use celeritas_ral::pipeline::{
    PipelineBuilder, PrimitiveTopology, RALError, MAX_SHADER_DATA_LAYOUTS,
};
use celeritas_ral::shader::Shader;
use celeritas_ral::vertex::{VertexAttrKind, VertexDesc};
use celeritas_ral::wire::{WireBindingTag, WIRE_SLOT_COUNT};

struct TestData {
    _a: [f32; 2],
    _b: [f32; 4],
}

impl ShaderData for TestData {
    fn layout() -> ShaderDataLayout {
        ShaderDataLayout::from_slice(vec![ShaderBinding::new(
            "TestData".to_owned(),
            ShaderBindingKind::Bytes { size: 24, data: Some(0x1000) },
        )])
    }

    fn bind(&self) -> ShaderDataLayout {
        ShaderDataLayout::from_slice(vec![ShaderBinding::new(
            "TestData".to_owned(),
            ShaderBindingKind::Bytes { size: 24, data: Some(0x1000) },
        )])
    }
}

struct MVPData;

impl ShaderData for MVPData {
    fn layout() -> ShaderDataLayout {
        ShaderDataLayout::from_slice(vec![ShaderBinding::new(
            "MVP".to_owned(),
            ShaderBindingKind::Bytes { size: 192, data: Some(0x2000) },
        )])
    }

    fn bind(&self) -> ShaderDataLayout {
        ShaderDataLayout::from_slice(vec![ShaderBinding::new(
            "MVP".to_owned(),
            ShaderBindingKind::Bytes { size: 192, data: Some(0x2000) },
        )])
    }
}

#[test]
fn typecheck_pipeline_create() {
    let vertex_desc = VertexDesc::new("Empty".into())
        .add_attr("position", VertexAttrKind::Floatx2)
        .add_attr("color", VertexAttrKind::Floatx4);

    let builder = PipelineBuilder::new("Test Pipeline".into())
        .add_shader_layout::<TestData>()
        .add_vertex_desc(vertex_desc)
        .add_shader_src("shaders/triangle.vert", "shaders/triangle.frag");

    let mut ctx = RenderContext::new();
    let vertex_code = "void main() {}".to_owned();
    let fragment_code = "void main() {}".to_owned();
    let _pipeline = builder.build(&mut ctx, vertex_code, fragment_code).expect("Should be valid");
}

#[test]
fn two_attribute_pipeline_builds_against_default_renderpass() {
    let vertex_desc = VertexDesc::new("demo".into())
        .add_attr("position", VertexAttrKind::Floatx2)
        .add_attr("color", VertexAttrKind::Floatx4);

    let mut ctx = RenderContext::new();
    let pipeline = PipelineBuilder::new("demo pipeline".into())
        .add_vertex_desc(vertex_desc)
        .add_shader_layout::<MVPData>()
        .add_shader_src("shaders/demo.vert", "shaders/demo.frag")
        .build(&mut ctx, "vs src".to_owned(), "fs src".to_owned())
        .expect("two attributes and one layout are within capacity");

    assert_eq!(ctx.created.len(), 1);
    let record = &ctx.created[0];
    assert_eq!(record.renderpass, DEFAULT_RENDERPASS_HANDLE);
    assert_eq!(record.desc.debug_name, "demo pipeline");
    assert_eq!(record.desc.vertex_desc.attr_names, vec!["position", "color"]);
    assert_eq!(
        record.desc.vertex_desc.attributes,
        vec![VertexAttrKind::Floatx2, VertexAttrKind::Floatx4]
    );
    assert_eq!(record.desc.vertex_desc.attributes_count, 2);
    assert_eq!(record.desc.vs.filepath, "shaders/demo.vert");
    assert_eq!(record.desc.vs.code, "vs src");
    assert!(!record.desc.vs.is_spirv);
    assert!(!record.desc.vs.is_combined_vert_frag);
    assert_eq!(record.desc.fs.filepath, "shaders/demo.frag");
    assert_eq!(record.desc.fs.code, "fs src");
    assert_eq!(record.desc.data_layouts.len(), WIRE_SLOT_COUNT);
    let mvp_slot = &record.desc.data_layouts[0].bindings[0];
    assert_eq!(mvp_slot.kind, WireBindingTag::Bytes);
    assert_eq!(mvp_slot.label, "MVP");
    assert_eq!(mvp_slot.bytes_size, 192);
    assert_eq!(mvp_slot.bytes_data, 0x2000);
    for blank in &record.desc.data_layouts[1..] {
        assert_eq!(blank.binding_count, 0);
        for slot in &blank.bindings {
            assert_eq!(slot.kind, WireBindingTag::Unused);
        }
    }
    assert!(!record.desc.wireframe);
    assert!(record.desc.depth_test);
    assert_eq!(pipeline.raw_handle(), 0);
}

#[test]
fn nine_layouts_fail_with_capacity_error_and_create_nothing() {
    let mut builder =
        PipelineBuilder::new("crowded".into()).add_shader_src("a.vert", "a.frag");
    for _ in 0..9 {
        builder = builder.add_shader_layout::<MVPData>();
    }
    let mut ctx = RenderContext::new();
    let err = builder
        .build(&mut ctx, String::new(), String::new())
        .expect_err("nine layouts exceed the capacity");
    assert_eq!(err, RALError::TooManyShaderDataLayouts);
    assert_eq!(ctx.created.len(), 0);
}

#[test]
fn eight_layouts_build_fine() {
    let mut builder = PipelineBuilder::new("full".into()).add_shader_src("a.vert", "a.frag");
    for _ in 0..MAX_SHADER_DATA_LAYOUTS {
        builder = builder.add_shader_layout::<MVPData>();
    }
    let mut ctx = RenderContext::new();
    builder
        .build(&mut ctx, String::new(), String::new())
        .expect("eight layouts are exactly at capacity");
    assert_eq!(ctx.created.len(), 1);
}

#[test]
fn builder_derives_vertex_description_label() {
    let builder = PipelineBuilder::new("Forward".into());
    assert_eq!(builder.vertex_description.debug_label, "Forward Vertex Description");
    assert!(builder.vertex_description.attributes.is_empty());
    assert!(builder.renderpass.is_none());
    assert!(builder.shader_paths.is_none());
}

#[test]
fn builder_records_explicit_renderpass() {
    let mut ctx = RenderContext::new();
    let mut builder =
        PipelineBuilder::new("offscreen".into()).add_shader_src("o.vert", "o.frag");
    builder.renderpass = Some(RenderPass(41));
    builder
        .build(&mut ctx, String::new(), String::new())
        .expect("no layouts at all");
    assert_eq!(ctx.created[0].renderpass, 41);
}

#[test]
fn shader_src_paths_round_trip() {
    let builder = PipelineBuilder::new("p".into()).add_shader_src("v.glsl", "f.glsl");
    let (v, f) = builder.shader_src_paths().expect("paths were just set");
    assert_eq!(v, "v.glsl");
    assert_eq!(f, "f.glsl");
    assert!(PipelineBuilder::new("q".into()).shader_src_paths().is_none());
}

#[test]
fn capacity_error_message() {
    assert_eq!(
        RALError::TooManyShaderDataLayouts.message(),
        "exceeded maximum of 8 layouts for a pipeline"
    );
    assert_eq!(RALError::MissingShaderPaths.message(), "shader paths must be provided");
    assert_eq!(
        RALError::MissingBytesData { layout: 0, slot: 0 }.message(),
        "a byte-blob binding is missing its data address"
    );
}

struct ShapeOnly;

impl ShaderData for ShapeOnly {
    fn layout() -> ShaderDataLayout {
        ShaderDataLayout::from_slice(vec![
            ShaderBinding::new("bound".to_owned(), ShaderBindingKind::Bytes {
                size: 4,
                data: Some(0x6000),
            }),
            ShaderBinding::new("unbound".to_owned(), ShaderBindingKind::Bytes {
                size: 8,
                data: None,
            }),
        ])
    }

    fn bind(&self) -> ShaderDataLayout {
        ShaderDataLayout::default()
    }
}

#[test]
fn build_refuses_layout_whose_bytes_binding_lacks_data() {
    let mut ctx = RenderContext::new();
    let err = PipelineBuilder::new("shapes".into())
        .add_shader_src("s.vert", "s.frag")
        .add_shader_layout::<MVPData>()
        .add_shader_layout::<ShapeOnly>()
        .build(&mut ctx, String::new(), String::new())
        .expect_err("the second layout's second binding has no data");
    assert_eq!(err, RALError::MissingBytesData { layout: 1, slot: 1 });
    assert_eq!(ctx.created.len(), 0);
}

#[test]
fn build_without_shader_paths_fails_with_typed_error() {
    let mut ctx = RenderContext::new();
    let err = PipelineBuilder::new("pathless".into())
        .build(&mut ctx, String::new(), String::new())
        .expect_err("no shader paths were supplied");
    assert_eq!(err, RALError::MissingShaderPaths);
    assert_eq!(ctx.created.len(), 0);
}

#[test]
fn shader_new_builds_pipeline_and_chains_layouts() {
    let mut ctx = RenderContext::new();
    let mut shader = Shader::new(
        &mut ctx,
        "pbr".to_owned(),
        "pbr.vert",
        "pbr.frag",
        "vs".to_owned(),
        "fs".to_owned(),
    );
    assert_eq!(ctx.created.len(), 1);
    assert_eq!(ctx.created[0].desc.debug_name, "pbr");
    assert_eq!(ctx.created[0].desc.vs.filepath, "pbr.vert");
    assert_eq!(ctx.created[0].desc.fs.filepath, "pbr.frag");
    assert_eq!(shader.pipeline.raw_handle(), 0);
    shader
        .add_layout(ShaderBinding::new("a".to_owned(), ShaderBindingKind::Buffer(None)))
        .add_layout(ShaderBinding::new("b".to_owned(), ShaderBindingKind::Texture(None)));
    assert_eq!(shader.binding_layouts.len(), 2);
    assert_eq!(shader.binding_layouts[0].label, "a");
    assert_eq!(shader.binding_layouts[1].label, "b");
}

#[test]
fn primitive_topology_from_raw_tags() {
    assert_eq!(PrimitiveTopology::from_raw(0), Some(PrimitiveTopology::Point));
    assert_eq!(PrimitiveTopology::from_raw(1), Some(PrimitiveTopology::Line));
    assert_eq!(PrimitiveTopology::from_raw(2), Some(PrimitiveTopology::Triangle));
    assert_eq!(PrimitiveTopology::from_raw(3), None);
    assert_eq!(PrimitiveTopology::from_raw(u32::MAX), None);
}
