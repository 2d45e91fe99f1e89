//! Binding descriptors: the safe description of one shader-visible resource
//! slot.

use vstd::prelude::*;

use crate::visibility::ShaderVisibility;

verus! {

/// Opaque handle to a device buffer resource, owned by the driver.
#[derive(Clone, Copy, Debug, PartialEq, Eq, Structural)]
pub struct BufferHandle(pub u32);

/// Opaque handle to a device texture resource, owned by the driver.
#[derive(Clone, Copy, Debug, PartialEq, Eq, Structural)]
pub struct TextureHandle(pub u32);

/// The kind of resource a binding slot carries.
#[derive(Clone, Copy, Debug, PartialEq, Eq, Structural)]
pub enum ShaderBindingKind {
    /// A raw byte blob of known size. `data`, when present, is the address of
    /// caller-owned memory that must stay valid for the duration of the one
    /// encode call that consumes it; the encoder never retains it.
    Bytes { size: usize, data: Option<usize> },
    /// A device buffer resource; `None` leaves the slot unbound.
    Buffer(Option<BufferHandle>),
    /// A device texture resource; `None` leaves the slot unbound.
    Texture(Option<TextureHandle>),
}

/// Describes one shader-visible resource slot: a label for display and
/// debugging (not a lookup key), the kind of resource, and the stages the
/// slot is visible to.
#[derive(Clone, Debug)]
pub struct ShaderBinding {
    /// Human-readable name, forwarded to the wire format for debugging.
    pub label: String,
    /// What the slot carries.
    pub kind: ShaderBindingKind,
    /// The stages the slot is visible to.
    pub vis: ShaderVisibility,
}

impl ShaderBinding {
    /// A binding with the default visibility: all three stages.
    pub fn new(label: String, kind: ShaderBindingKind) -> (r: Self)
        ensures
            r.label == label,
            r.kind == kind,
            r.vis.spec_is_all(),
    {
        ShaderBinding { label, kind, vis: ShaderVisibility::default() }
    }
}

} // verus!
