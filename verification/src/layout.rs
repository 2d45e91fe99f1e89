//! Shader-data layouts: fixed-capacity ordered sequences of binding
//! descriptors, and their encoding into the driver wire format.

use vstd::prelude::*;

use crate::binding::{ShaderBinding, ShaderBindingKind};
use crate::wire::{
    binding_encodable, encodes, is_unused_binding, layout_encodable, spec_encode_binding,
    WireBindingTag, WireShaderBinding, WireShaderDataLayout, WIRE_SLOT_COUNT,
};

verus! {

/// The capacity of a shader-data layout: the driver accepts at most this
/// many bindings per layout.
pub const MAX_BINDINGS: usize = 8;

/// Declares heapless::Vec, the fixed-capacity vector that stores a layout's
/// bindings without allocation; its values are opaque here and are reached
/// only through the wrappers below.
#[verifier::external_type_specification]
#[verifier::external_body]
#[verifier::reject_recursive_types(T)]
pub struct ExHeaplessVec<T, const N: usize>(heapless::Vec<T, N>);

/// The ordered contents of a layout's fixed-capacity binding vector.
pub uninterp spec fn bindings_model(v: heapless::Vec<ShaderBinding, 8>) -> Seq<ShaderBinding>;

/// Relies on heapless::Vec::new: a freshly constructed vector is empty.
#[verifier::external_body]
fn hvec_new() -> (r: heapless::Vec<ShaderBinding, 8>)
    ensures
        bindings_model(r) == Seq::<ShaderBinding>::empty(),
{
    heapless::Vec::new()
}

/// Relies on heapless::Vec::push: below the capacity of 8 the item is
/// appended and `Ok(())` returned; at capacity the vector is unchanged and
/// the item comes back in the `Err`.
#[verifier::external_body]
fn hvec_push(
    v: &mut heapless::Vec<ShaderBinding, 8>,
    b: ShaderBinding,
) -> (r: Result<(), ShaderBinding>)
    ensures
        bindings_model(*old(v)).len() < 8 ==> r is Ok,
        bindings_model(*old(v)).len() < 8 ==> bindings_model(*final(v)) == bindings_model(
            *old(v),
        ).push(b),
        bindings_model(*old(v)).len() >= 8 ==> (r matches Err(x) && x == b),
        bindings_model(*old(v)).len() >= 8 ==> *final(v) == *old(v),
{
    v.push(b)
}

/// Relies on heapless::Vec::into_iter: hands the elements out in order; the
/// length never exceeds the capacity of 8.
#[verifier::external_body]
fn hvec_into_vec(v: heapless::Vec<ShaderBinding, 8>) -> (r: Vec<ShaderBinding>)
    ensures
        r@ == bindings_model(v),
        r@.len() <= 8,
{
    v.into_iter().collect()
}

/// Failure of a layout encoding.
#[derive(Clone, Copy, Debug, PartialEq, Eq, Structural)]
pub enum EncodeError {
    /// The binding at `slot` is a byte blob whose data address is absent;
    /// encoding it would hand the driver a null address with a nonzero size.
    MissingBytesData { slot: usize },
}

/// An ordered sequence of binding descriptors, capacity-bounded at
/// [`MAX_BINDINGS`]. The position of a descriptor is the binding slot index
/// the driver consumes positionally: reordering changes the program-side
/// binding semantics.
pub struct ShaderDataLayout {
    /// The bindings, in slot order.
    pub bindings: heapless::Vec<ShaderBinding, 8>,
}

impl View for ShaderDataLayout {
    type V = Seq<ShaderBinding>;

    open spec fn view(&self) -> Seq<ShaderBinding> {
        bindings_model(self.bindings)
    }
}

impl ShaderDataLayout {
    /// Build a layout from the given bindings, kept in order.
    pub fn from_slice(bindings: Vec<ShaderBinding>) -> (r: Self)
        requires
            bindings@.len() <= MAX_BINDINGS,
        ensures
            r@ == bindings@,
    {
        let ghost all = bindings@;
        let mut bindings = bindings;
        let mut store = hvec_new();
        let ghost n = all.len();
        let mut i: usize = 0;
        while i < bindings.len()
            invariant
                0 <= i <= n,
                bindings@ == all,
                n == all.len() <= 8,
                bindings_model(store) == all.subrange(0, i as int),
            decreases n - i,
        {
            let b = clone_binding(&bindings[i]);
            match hvec_push(&mut store, b) {
                Ok(()) => (),
                Err(_) => unreached(),
            }
            proof {
                assert(bindings_model(store) =~= all.subrange(0, i + 1));
            }
            i = i + 1;
        }
        proof {
            assert(all.subrange(0, n as int) =~= all);
        }
        ShaderDataLayout { bindings: store }
    }
}

/// Field-by-field copy of a binding descriptor.
fn clone_binding(b: &ShaderBinding) -> (r: ShaderBinding)
    ensures
        r == *b,
{
    ShaderBinding { label: b.label.clone(), kind: b.kind, vis: b.vis }
}

impl Default for ShaderDataLayout {
    /// An empty layout.
    fn default() -> (r: Self)
        ensures
            r@ == Seq::<ShaderBinding>::empty(),
    {
        ShaderDataLayout { bindings: hvec_new() }
    }
}

impl ShaderDataLayout {
    /// Encode into the wire form the driver consumes: each binding becomes
    /// the tagged slot at its own position, and the remaining slots up to the
    /// fixed count are inert. A byte-blob binding without a data address is
    /// refused, naming the first such slot.
    #[verifier::loop_isolation(false)]
    pub fn into_ffi_type(self) -> (r: Result<WireShaderDataLayout, EncodeError>)
        ensures
            r is Ok <==> layout_encodable(self@),
            r matches Ok(w) ==> encodes(self@, w),
            r matches Err(e) ==> {
                &&& e matches EncodeError::MissingBytesData { slot }
                &&& 0 <= slot < self@.len()
                &&& !binding_encodable(self@[slot as int])
                &&& forall|j: int| 0 <= j < slot ==> binding_encodable(#[trigger] self@[j])
            },
    {
        let ghost m = self@;
        let bs = hvec_into_vec(self.bindings);
        let n = bs.len();
        let mut out: Vec<WireShaderBinding> = Vec::new();
        let mut i: usize = 0;
        let mut bs = bs;
        while i < n
            invariant
                0 <= i <= n,
                n == m.len() <= 8,
                bs@ == m.subrange(i as int, n as int),
                out@.len() == i,
                forall|j: int| 0 <= j < i ==> binding_encodable(#[trigger] m[j]),
                forall|j: int| 0 <= j < i ==> out@[j] == spec_encode_binding(#[trigger] m[j]),
            decreases n - i,
        {
            let b = bs.remove(0);
            proof {
                assert(b == m[i as int]);
                assert(bs@ =~= m.subrange(i + 1, n as int));
            }
            let ShaderBinding { label, kind, vis } = b;
            let wire = match kind {
                ShaderBindingKind::Bytes { size, data } => {
                    match data {
                        Some(p) => WireShaderBinding {
                            label,
                            kind: WireBindingTag::Bytes,
                            vis: vis.bits(),
                            bytes_size: #[verifier::truncate] (size as u32),
                            bytes_data: p,
                            handle: 0,
                        },
                        None => {
                            proof {
                                assert(!binding_encodable(self@[i as int]));
                                assert(forall|j: int|
                                    0 <= j < i ==> binding_encodable(#[trigger] self@[j]));
                            }
                            return Err(EncodeError::MissingBytesData { slot: i });
                        },
                    }
                },
                ShaderBindingKind::Buffer(h) => WireShaderBinding {
                    label,
                    kind: WireBindingTag::Buffer,
                    vis: vis.bits(),
                    bytes_size: 0,
                    bytes_data: 0,
                    handle: match h {
                        Some(bh) => bh.0,
                        None => 0,
                    },
                },
                ShaderBindingKind::Texture(h) => WireShaderBinding {
                    label,
                    kind: WireBindingTag::Texture,
                    vis: vis.bits(),
                    bytes_size: 0,
                    bytes_data: 0,
                    handle: match h {
                        Some(th) => th.0,
                        None => 0,
                    },
                },
            };
            out.push(wire);
            i = i + 1;
        }
        while out.len() < WIRE_SLOT_COUNT
            invariant
                n == m.len() <= 8,
                n <= out@.len() <= WIRE_SLOT_COUNT,
                forall|j: int| 0 <= j < n ==> binding_encodable(#[trigger] m[j]),
                forall|j: int| 0 <= j < n ==> out@[j] == spec_encode_binding(#[trigger] m[j]),
                forall|j: int| n <= j < out@.len() ==> is_unused_binding(#[trigger] out@[j]),
            decreases WIRE_SLOT_COUNT - out.len(),
        {
            out.push(WireShaderBinding::unused());
        }
        Ok(WireShaderDataLayout { bindings: out, binding_count: WIRE_SLOT_COUNT })
    }
}

/// The two-operation capability a resource-bundle type implements so its
/// data can be handed to shaders.
pub trait ShaderData {
    /// Describe the shape of the bundle — slot names, kinds, visibility —
    /// without requiring a live instance. Pure and deterministic; a fresh
    /// layout is constructed on every call.
    fn layout() -> ShaderDataLayout;

    /// Produce the fully-populated layout for this instance: each byte-blob
    /// binding carries the address of the instance's relevant bytes, valid
    /// only for the duration of the encode call that consumes it. The result
    /// is handed to the active render encoder, which must only be done
    /// inside an open render-encoder scope.
    fn bind(&self) -> ShaderDataLayout;
}

} // verus!
