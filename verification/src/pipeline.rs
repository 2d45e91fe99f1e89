//! Pipeline construction: the builder, its capacity rule, and the creation
//! request it issues.

use vstd::prelude::*;
use vstd::string::StringExecFns;

use crate::context::{RenderContext, RenderPass, DEFAULT_RENDERPASS_HANDLE};
use crate::layout::{EncodeError, ShaderData, ShaderDataLayout};
use crate::vertex::{vertex_wire_matches, VertexAttrKind, VertexDesc};
use crate::wire::{
    binding_encodable, encodes, is_blank_wire_layout, layout_encodable, GraphicsPipelineDesc,
    ShaderDesc, WireShaderDataLayout,
};

verus! {

/// The driver accepts at most this many shader-data layouts per pipeline.
pub const MAX_SHADER_DATA_LAYOUTS: usize = 8;

/// Non-owning reference to a driver-managed pipeline; the handle indexes the
/// creation record in the context that issued it.
#[derive(Clone, Copy, Debug, PartialEq, Eq, Structural)]
pub struct Pipeline {
    /// The pipeline's handle.
    pub raw: usize,
}

impl Pipeline {
    /// The raw handle, for handing back across the driver boundary.
    pub fn raw_handle(&self) -> (r: usize)
        ensures
            r == self.raw,
    {
        self.raw
    }
}

/// How vertices are assembled into primitives.
#[derive(Clone, Copy, Debug, PartialEq, Eq, Hash, Structural)]
pub enum PrimitiveTopology {
    /// Each vertex is its own point.
    Point,
    /// Each pair of vertices forms a line.
    Line,
    /// Each triple of vertices forms a triangle.
    Triangle,
}

impl PrimitiveTopology {
    /// The topology a driver-side tag denotes; `None` for a tag the driver
    /// does not define.
    pub fn from_raw(value: u32) -> (r: Option<PrimitiveTopology>)
        ensures
            value == 0 ==> r == Some(PrimitiveTopology::Point),
            value == 1 ==> r == Some(PrimitiveTopology::Line),
            value == 2 ==> r == Some(PrimitiveTopology::Triangle),
            value > 2 ==> r is None,
    {
        match value {
            0 => Some(PrimitiveTopology::Point),
            1 => Some(PrimitiveTopology::Line),
            2 => Some(PrimitiveTopology::Triangle),
            _ => None,
        }
    }
}

/// Failure of a pipeline build.
#[derive(Clone, Copy, Debug, PartialEq, Eq, Structural)]
pub enum RALError {
    /// More shader-data layouts were added than the driver accepts.
    TooManyShaderDataLayouts,
    /// No shader source paths were supplied before the build.
    MissingShaderPaths,
    /// The layout at index `layout` holds, at `slot`, a byte-blob binding
    /// without its data address, so it cannot be encoded into the creation
    /// request.
    MissingBytesData { layout: usize, slot: usize },
}

impl RALError {
    /// A human-readable description of the error.
    pub fn message(&self) -> (r: &'static str)
        ensures
            self is TooManyShaderDataLayouts ==> r@ == "exceeded maximum of 8 layouts for a pipeline"@,
            self is MissingShaderPaths ==> r@ == "shader paths must be provided"@,
            self is MissingBytesData ==> r@ == "a byte-blob binding is missing its data address"@,
    {
        match self {
            RALError::TooManyShaderDataLayouts => "exceeded maximum of 8 layouts for a pipeline",
            RALError::MissingShaderPaths => "shader paths must be provided",
            RALError::MissingBytesData { .. } => "a byte-blob binding is missing its data address",
        }
    }
}

/// The correspondence between a wire shader-stage descriptor and the path
/// and source text it was built from: the name is left empty and both the
/// SPIR-V and the combined-stage flag are off.
pub open spec fn shader_desc_matches(s: ShaderDesc, path: Seq<char>, code: Seq<char>) -> bool {
    &&& s.debug_name@ == Seq::<char>::empty()
    &&& s.filepath@ == path
    &&& s.code@ == code
    &&& !s.is_spirv
    &&& !s.is_combined_vert_frag
}

/// The correspondence between the layout slots of a creation request and
/// the shader-data layouts added to the builder: each added layout stands
/// encoded at its own position, and the slots past them are blank.
pub open spec fn layouts_encoded(ls: Seq<ShaderDataLayout>, ws: Seq<WireShaderDataLayout>) -> bool {
    &&& ws.len() == MAX_SHADER_DATA_LAYOUTS
    &&& ls.len() <= ws.len()
    &&& forall|i: int| 0 <= i < ls.len() ==> encodes(ls[i]@, #[trigger] ws[i])
    &&& forall|i: int| ls.len() <= i < ws.len() ==> is_blank_wire_layout(#[trigger] ws[i])
}

/// The correspondence between a pipeline creation request and the builder
/// state it was built from: the builder's name, its vertex description in
/// wire form, one stage descriptor per shader path, the added layouts
/// encoded in order and zero-padded to the full array, wireframe off and
/// depth test on.
pub open spec fn desc_matches(
    d: GraphicsPipelineDesc,
    name: Seq<char>,
    vdesc: VertexDesc,
    layouts: Seq<ShaderDataLayout>,
    vs_path: Seq<char>,
    fs_path: Seq<char>,
    vcode: Seq<char>,
    fcode: Seq<char>,
) -> bool {
    &&& d.debug_name@ == name
    &&& vertex_wire_matches(
        d.vertex_desc,
        vdesc.spec_label(),
        vdesc.spec_names(),
        vdesc.spec_kinds(),
    )
    &&& shader_desc_matches(d.vs, vs_path, vcode)
    &&& shader_desc_matches(d.fs, fs_path, fcode)
    &&& layouts_encoded(layouts, d.data_layouts@)
    &&& d.data_layouts_count == MAX_SHADER_DATA_LAYOUTS
    &&& !d.wireframe
    &&& d.depth_test
}

/// Accumulates a pipeline creation request: a name, an optional target
/// renderpass (the ambient default is used if none is given), a vertex
/// description, up to [`MAX_SHADER_DATA_LAYOUTS`] shader-data layouts, and
/// the two shader source paths. Validation is deferred to
/// [`PipelineBuilder::build`].
pub struct PipelineBuilder {
    /// Display name of the pipeline being built.
    pub name: String,
    /// The target renderpass; the default renderpass when absent.
    pub renderpass: Option<RenderPass>,
    /// The vertex description.
    pub vertex_description: VertexDesc,
    /// The shader-data layouts added so far, in order.
    pub data_layouts: Vec<ShaderDataLayout>,
    /// Paths of the vertex and fragment shader sources.
    pub shader_paths: Option<(String, String)>,
}

impl PipelineBuilder {
    /// An empty builder whose vertex description carries an auto-derived
    /// label.
    pub fn new(name: String) -> (r: Self)
        ensures
            r.name == name,
            r.renderpass is None,
            r.vertex_description.spec_label() == name@ + " Vertex Description"@,
            r.vertex_description.spec_names() == Seq::<Seq<char>>::empty(),
            r.vertex_description.spec_kinds() == Seq::<VertexAttrKind>::empty(),
            r.data_layouts@ == Seq::<ShaderDataLayout>::empty(),
            r.shader_paths is None,
    {
        let label = name.clone().concat(" Vertex Description");
        let vertex_description = VertexDesc::new(label);
        PipelineBuilder {
            name,
            renderpass: None,
            vertex_description,
            data_layouts: Vec::new(),
            shader_paths: None,
        }
    }

    /// Replace the vertex description.
    pub fn add_vertex_desc(self, vertex_desc: VertexDesc) -> (r: Self)
        ensures
            r.vertex_description == vertex_desc,
            r.name == self.name,
            r.renderpass == self.renderpass,
            r.data_layouts == self.data_layouts,
            r.shader_paths == self.shader_paths,
    {
        PipelineBuilder { vertex_description: vertex_desc, ..self }
    }

    /// Append the layout the bundle type describes. No validation happens
    /// here; the capacity rule is checked by [`PipelineBuilder::build`].
    pub fn add_shader_layout<S: ShaderData>(self) -> (r: Self)
        ensures
            r.data_layouts@.len() == self.data_layouts@.len() + 1,
            r.data_layouts@.subrange(0, self.data_layouts@.len() as int) == self.data_layouts@,
            r.name == self.name,
            r.renderpass == self.renderpass,
            r.vertex_description == self.vertex_description,
            r.shader_paths == self.shader_paths,
    {
        let layout = S::layout();
        let mut data_layouts = self.data_layouts;
        data_layouts.push(layout);
        let r = PipelineBuilder { data_layouts, ..self };
        proof {
            assert(r.data_layouts@.subrange(0, self.data_layouts@.len() as int)
                =~= self.data_layouts@);
        }
        r
    }

    /// Record the two shader source paths.
    pub fn add_shader_src(self, vertex_path: &str, fragment_path: &str) -> (r: Self)
        ensures
            r.shader_paths matches Some(p) && p.0@ == vertex_path@ && p.1@ == fragment_path@,
            r.name == self.name,
            r.renderpass == self.renderpass,
            r.vertex_description == self.vertex_description,
            r.data_layouts == self.data_layouts,
    {
        PipelineBuilder {
            shader_paths: Some((vertex_path.to_owned(), fragment_path.to_owned())),
            ..self
        }
    }

    /// The recorded shader source paths, for the caller that reads the
    /// source text before [`PipelineBuilder::build`].
    pub fn shader_src_paths(&self) -> (r: Option<(String, String)>)
        ensures
            r is Some <==> self.shader_paths is Some,
            r matches Some(p) ==> (self.shader_paths matches Some(q) && p.0@ == q.0@ && p.1@
                == q.1@),
    {
        match &self.shader_paths {
            Some(p) => Some((p.0.clone(), p.1.clone())),
            None => None,
        }
    }

    /// Validate the request and issue the pipeline creation.
    ///
    /// Fails with the capacity error exactly when more than
    /// [`MAX_SHADER_DATA_LAYOUTS`] layouts were added; otherwise with the
    /// missing-paths error exactly when no shader paths were supplied;
    /// otherwise with the missing-data error, naming the first layout and
    /// slot whose byte-blob binding lacks its data address. Every failure
    /// creates nothing. On success the context accepts one request built
    /// from this builder and the two source texts — the added layouts
    /// encoded in order and zero-padded to the full slot array — against
    /// the chosen or the default renderpass, and the new pipeline's handle
    /// indexes that record. The caller reads the source texts from the
    /// recorded paths, since this layer does no I/O.
    #[verifier::loop_isolation(false)]
    pub fn build(
        self,
        ctx: &mut RenderContext,
        vertex_code: String,
        fragment_code: String,
    ) -> (r: Result<Pipeline, RALError>)
        ensures
            r is Err ==> *final(ctx) == *old(ctx),
            (r == Result::<Pipeline, RALError>::Err(RALError::TooManyShaderDataLayouts))
                <==> self.data_layouts@.len() > MAX_SHADER_DATA_LAYOUTS,
            (r == Result::<Pipeline, RALError>::Err(RALError::MissingShaderPaths)) <==> (
            self.data_layouts@.len() <= MAX_SHADER_DATA_LAYOUTS && self.shader_paths is None),
            r matches Err(RALError::MissingBytesData { layout, slot }) ==> {
                &&& self.data_layouts@.len() <= MAX_SHADER_DATA_LAYOUTS
                &&& self.shader_paths is Some
                &&& 0 <= layout < self.data_layouts@.len()
                &&& 0 <= slot < self.data_layouts@[layout as int]@.len()
                &&& !binding_encodable(self.data_layouts@[layout as int]@[slot as int])
                &&& forall|j: int|
                    0 <= j < slot ==> binding_encodable(
                        #[trigger] self.data_layouts@[layout as int]@[j],
                    )
                &&& forall|j: int|
                    0 <= j < layout ==> layout_encodable((#[trigger] self.data_layouts@[j])@)
            },
            r is Ok <==> {
                &&& self.data_layouts@.len() <= MAX_SHADER_DATA_LAYOUTS
                &&& self.shader_paths is Some
                &&& forall|i: int|
                    0 <= i < self.data_layouts@.len() ==> layout_encodable(
                        (#[trigger] self.data_layouts@[i])@,
                    )
            },
            r matches Ok(p) ==> {
                &&& final(ctx).created@.len() == old(ctx).created@.len() + 1
                &&& final(ctx).created@.subrange(0, old(ctx).created@.len() as int) == old(
                    ctx,
                ).created@
                &&& final(ctx).created@.last().renderpass == (match self.renderpass {
                    Some(target) => target.0,
                    None => DEFAULT_RENDERPASS_HANDLE,
                })
                &&& desc_matches(
                    final(ctx).created@.last().desc,
                    self.name@,
                    self.vertex_description,
                    self.data_layouts@,
                    (self.shader_paths->0).0@,
                    (self.shader_paths->0).1@,
                    vertex_code@,
                    fragment_code@,
                )
                &&& p.raw == old(ctx).created@.len()
                &&& final(ctx).begun == old(ctx).begun
                &&& final(ctx).ended == old(ctx).ended
            },
    {
        if self.data_layouts.len() > MAX_SHADER_DATA_LAYOUTS {
            return Err(RALError::TooManyShaderDataLayouts);
        }
        let PipelineBuilder { name, renderpass, vertex_description, data_layouts, shader_paths } =
            self;
        let (vert_path, frag_path) = match shader_paths {
            Some(p) => p,
            None => {
                return Err(RALError::MissingShaderPaths);
            },
        };
        let ghost all_layouts = data_layouts@;
        let mut data_layouts = data_layouts;
        let k = data_layouts.len();
        let mut layouts: Vec<WireShaderDataLayout> = Vec::new();
        let mut i: usize = 0;
        while i < k
            invariant
                0 <= i <= k,
                k == all_layouts.len() <= MAX_SHADER_DATA_LAYOUTS,
                data_layouts@ == all_layouts.subrange(i as int, k as int),
                layouts@.len() == i,
                forall|j: int| 0 <= j < i ==> layout_encodable((#[trigger] all_layouts[j])@),
                forall|j: int| 0 <= j < i ==> encodes(all_layouts[j]@, #[trigger] layouts@[j]),
            decreases k - i,
        {
            let l = data_layouts.remove(0);
            proof {
                assert(l == all_layouts[i as int]);
                assert(data_layouts@ =~= all_layouts.subrange(i + 1, k as int));
            }
            match l.into_ffi_type() {
                Ok(w) => {
                    layouts.push(w);
                },
                Err(EncodeError::MissingBytesData { slot }) => {
                    return Err(RALError::MissingBytesData { layout: i, slot });
                },
            }
            i = i + 1;
        }
        while layouts.len() < MAX_SHADER_DATA_LAYOUTS
            invariant
                k <= layouts@.len() <= MAX_SHADER_DATA_LAYOUTS,
                forall|j: int| 0 <= j < k ==> encodes(all_layouts[j]@, #[trigger] layouts@[j]),
                forall|j: int|
                    k <= j < layouts@.len() ==> is_blank_wire_layout(#[trigger] layouts@[j]),
            decreases MAX_SHADER_DATA_LAYOUTS - layouts.len(),
        {
            layouts.push(WireShaderDataLayout::default());
        }
        let vs = ShaderDesc {
            debug_name: String::new(),
            filepath: vert_path,
            code: vertex_code,
            is_spirv: false,
            is_combined_vert_frag: false,
        };
        let fs = ShaderDesc {
            debug_name: String::new(),
            filepath: frag_path,
            code: fragment_code,
            is_spirv: false,
            is_combined_vert_frag: false,
        };
        let desc = GraphicsPipelineDesc {
            debug_name: name,
            vertex_desc: vertex_description.to_wire(),
            vs,
            fs,
            data_layouts: layouts,
            data_layouts_count: MAX_SHADER_DATA_LAYOUTS,
            wireframe: false,
            depth_test: true,
        };
        let rp = match renderpass {
            Some(rp) => rp,
            None => ctx.default_renderpass(),
        };
        let p = ctx.create_graphics_pipeline(desc, &rp);
        Ok(p)
    }
}

} // verus!
