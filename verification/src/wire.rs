//! The driver-facing wire format.
//!
//! The driver parses these representations positionally: a shader-data layout
//! is always exactly [`WIRE_SLOT_COUNT`] slots, each a tagged record whose
//! payload is read according to the tag. Slots past the used prefix carry the
//! inert unused tag and zeroed payloads so the driver's fixed-count loop never
//! reads an undefined payload. Wire values are one-way, write-only messages to
//! the driver; the conversion is not reversible.

use vstd::prelude::*;

use crate::binding::{ShaderBinding, ShaderBindingKind};
use crate::vertex::VertexAttrKind;

verus! {

/// Number of binding slots in every encoded shader-data layout.
pub const WIRE_SLOT_COUNT: usize = 8;

/// Tag telling the driver how to read a wire binding's payload.
#[derive(Clone, Copy, Debug, PartialEq, Eq, Structural)]
pub enum WireBindingTag {
    /// The payload is a byte-blob size and address.
    Bytes,
    /// The payload is a buffer handle.
    Buffer,
    /// The payload is a texture handle.
    Texture,
    /// The slot is inert; the payload is zeroed and must not be read.
    Unused,
}

/// One binding slot as the driver consumes it: a label for display, a kind
/// tag, a visibility bitmask, and a payload sized for the largest variant
/// (byte blobs use `bytes_size` and `bytes_data`; buffers and textures use
/// `handle`).
#[derive(Clone, Debug, PartialEq)]
pub struct WireShaderBinding {
    /// Display label, forwarded from the safe description.
    pub label: String,
    /// How the driver reads the payload.
    pub kind: WireBindingTag,
    /// Visibility bitmask over the shader stages.
    pub vis: u32,
    /// Size of the byte blob; meaningful only under the bytes tag.
    pub bytes_size: u32,
    /// Address of the byte blob; meaningful only under the bytes tag.
    pub bytes_data: usize,
    /// Resource handle; meaningful only under the buffer and texture tags.
    pub handle: u32,
}

/// An inert slot: unused tag, no visibility, zeroed payload, empty label.
pub open spec fn is_unused_binding(w: WireShaderBinding) -> bool {
    &&& w.label@ == Seq::<char>::empty()
    &&& w.kind is Unused
    &&& w.vis == 0
    &&& w.bytes_size == 0
    &&& w.bytes_data == 0
    &&& w.handle == 0
}

impl WireShaderBinding {
    /// The inert slot value used to pad a layout out to the fixed slot count.
    pub fn unused() -> (r: Self)
        ensures
            is_unused_binding(r),
    {
        WireShaderBinding {
            label: String::new(),
            kind: WireBindingTag::Unused,
            vis: 0,
            bytes_size: 0,
            bytes_data: 0,
            handle: 0,
        }
    }
}

/// True when the binding can be encoded: a byte blob must carry its data
/// address. Encoding must never hand the driver a null address with a
/// nonzero size.
pub open spec fn binding_encodable(b: ShaderBinding) -> bool {
    !(b.kind matches ShaderBindingKind::Bytes { data: Option::None, .. })
}

/// True when every binding of the sequence can be encoded.
pub open spec fn layout_encodable(m: Seq<ShaderBinding>) -> bool {
    forall|i: int| 0 <= i < m.len() ==> binding_encodable(#[trigger] m[i])
}

/// The wire slot an encodable binding maps to. The blob size is truncated to
/// the driver's 32-bit size field; an unbound buffer or texture slot carries
/// the null handle.
pub open spec fn spec_encode_binding(b: ShaderBinding) -> WireShaderBinding {
    match b.kind {
        ShaderBindingKind::Bytes { size, data } => WireShaderBinding {
            label: b.label,
            kind: WireBindingTag::Bytes,
            vis: b.vis.spec_bits(),
            bytes_size: size as u32,
            bytes_data: data->0,
            handle: 0,
        },
        ShaderBindingKind::Buffer(h) => WireShaderBinding {
            label: b.label,
            kind: WireBindingTag::Buffer,
            vis: b.vis.spec_bits(),
            bytes_size: 0,
            bytes_data: 0,
            handle: if h is Some {
                (h->0).0
            } else {
                0
            },
        },
        ShaderBindingKind::Texture(h) => WireShaderBinding {
            label: b.label,
            kind: WireBindingTag::Texture,
            vis: b.vis.spec_bits(),
            bytes_size: 0,
            bytes_data: 0,
            handle: if h is Some {
                (h->0).0
            } else {
                0
            },
        },
    }
}

/// A shader-data layout as the driver consumes it: exactly
/// [`WIRE_SLOT_COUNT`] slots regardless of how many are used, plus a separate
/// count field.
#[derive(Clone, Debug, PartialEq)]
pub struct WireShaderDataLayout {
    /// The fixed-size slot array.
    pub bindings: Vec<WireShaderBinding>,
    /// The count the driver-side loop iterates; always the full slot count.
    pub binding_count: usize,
}

/// A wire layout left entirely blank, as the builder pads its layout slots:
/// every slot inert and the count zeroed.
pub open spec fn is_blank_wire_layout(l: WireShaderDataLayout) -> bool {
    &&& l.bindings@.len() == WIRE_SLOT_COUNT
    &&& forall|i: int| 0 <= i < l.bindings@.len() ==> is_unused_binding(#[trigger] l.bindings@[i])
    &&& l.binding_count == 0
}

impl Default for WireShaderDataLayout {
    /// The blank layout: the fixed slot array with every slot inert, and the
    /// count zeroed.
    fn default() -> (r: Self)
        ensures
            is_blank_wire_layout(r),
    {
        let mut bindings: Vec<WireShaderBinding> = Vec::new();
        while bindings.len() < WIRE_SLOT_COUNT
            invariant
                bindings@.len() <= WIRE_SLOT_COUNT,
                forall|i: int|
                    0 <= i < bindings@.len() ==> is_unused_binding(#[trigger] bindings@[i]),
            decreases WIRE_SLOT_COUNT - bindings.len(),
        {
            bindings.push(WireShaderBinding::unused());
        }
        WireShaderDataLayout { bindings, binding_count: 0 }
    }
}

/// The encoding relation between an ordered binding sequence and its wire
/// form: the used prefix is the slot-by-slot encoding of the sequence, the
/// remaining slots are inert, and the count field covers the full array.
pub open spec fn encodes(m: Seq<ShaderBinding>, w: WireShaderDataLayout) -> bool {
    &&& m.len() <= WIRE_SLOT_COUNT
    &&& w.bindings@.len() == WIRE_SLOT_COUNT
    &&& w.binding_count == WIRE_SLOT_COUNT
    &&& forall|i: int| 0 <= i < m.len() ==> #[trigger] w.bindings@[i] == spec_encode_binding(m[i])
    &&& forall|i: int|
        m.len() <= i < WIRE_SLOT_COUNT ==> is_unused_binding(#[trigger] w.bindings@[i])
}

/// Slot-for-slot sameness of two wire bindings, as the driver observes them:
/// the same label text, tag, visibility and payload.
pub open spec fn wire_binding_same(a: WireShaderBinding, b: WireShaderBinding) -> bool {
    &&& a.label@ == b.label@
    &&& a.kind == b.kind
    &&& a.vis == b.vis
    &&& a.bytes_size == b.bytes_size
    &&& a.bytes_data == b.bytes_data
    &&& a.handle == b.handle
}

/// Law: encoding is positionally stable and deterministic. Any two wire
/// layouts that encode the same ordered binding sequence are identical slot
/// for slot, and carry the same count.
pub proof fn lemma_encode_deterministic(
    m: Seq<ShaderBinding>,
    w1: WireShaderDataLayout,
    w2: WireShaderDataLayout,
)
    requires
        encodes(m, w1),
        encodes(m, w2),
    ensures
        w1.bindings@.len() == w2.bindings@.len(),
        forall|i: int|
            0 <= i < w1.bindings@.len() ==> wire_binding_same(
                #[trigger] w1.bindings@[i],
                w2.bindings@[i],
            ),
        w1.binding_count == w2.binding_count,
{
    assert forall|i: int| 0 <= i < w1.bindings@.len() implies wire_binding_same(
        #[trigger] w1.bindings@[i],
        w2.bindings@[i],
    ) by {
        if i < m.len() {
            assert(w1.bindings@[i] == spec_encode_binding(m[i]));
            assert(w2.bindings@[i] == spec_encode_binding(m[i]));
        } else {
            assert(is_unused_binding(w1.bindings@[i]));
            assert(is_unused_binding(w2.bindings@[i]));
        }
    }
}

/// One shader stage's source as the driver consumes it.
#[derive(Clone, Debug, PartialEq)]
pub struct ShaderDesc {
    /// Display name; the builder leaves it empty.
    pub debug_name: String,
    /// Path the source was supplied under.
    pub filepath: String,
    /// The source text itself.
    pub code: String,
    /// Whether `code` is SPIR-V rather than textual source.
    pub is_spirv: bool,
    /// Whether `code` holds both the vertex and the fragment stage.
    pub is_combined_vert_frag: bool,
}

/// A vertex layout as the driver consumes it: attribute names, attribute
/// kinds, their count, and the full-vertex-size flag.
#[derive(Clone, Debug, PartialEq)]
pub struct VertexDescription {
    /// Display label.
    pub debug_label: String,
    /// One name per attribute, in order.
    pub attr_names: Vec<String>,
    /// One kind per attribute, in order.
    pub attributes: Vec<VertexAttrKind>,
    /// Number of attributes.
    pub attributes_count: usize,
    /// Whether the driver derives the stride from the full vertex size.
    pub use_full_vertex_size: bool,
}

/// A pipeline creation request as the driver consumes it.
#[derive(Clone, Debug, PartialEq)]
pub struct GraphicsPipelineDesc {
    /// Display name of the pipeline.
    pub debug_name: String,
    /// The vertex layout.
    pub vertex_desc: VertexDescription,
    /// The vertex stage source.
    pub vs: ShaderDesc,
    /// The fragment stage source.
    pub fs: ShaderDesc,
    /// The shader-data layout slots; always [`WIRE_SLOT_COUNT`] entries.
    pub data_layouts: Vec<WireShaderDataLayout>,
    /// The count the driver iterates over `data_layouts`.
    pub data_layouts_count: usize,
    /// Wireframe rendering; off by default.
    pub wireframe: bool,
    /// Depth testing; on by default.
    pub depth_test: bool,
}

} // verus!
