//! Safety and ergonomics layer over a render abstraction layer (RAL).
//!
//! The crate describes shader-visible resources in a memory-safe form
//! ([`binding::ShaderBinding`], [`layout::ShaderDataLayout`]), converts that
//! form into the fixed-capacity, positionally-parsed wire representation the
//! driver consumes ([`wire`]), composes pipeline creation requests
//! ([`pipeline::PipelineBuilder`]), and pairs every begin of a render-encoding
//! scope with exactly one end ([`context`]).

use vstd::prelude::*;

pub mod binding;
pub mod context;
pub mod layout;
pub mod pipeline;
pub mod shader;
pub mod vertex;
pub mod visibility;
pub mod wire;

verus! {

/// Conversion from a safe description into the driver-facing wire form.
pub trait IntoFFI {
    /// The wire type the conversion produces.
    type FFIType;

    /// Consume the safe description and produce its wire form.
    fn into_ffi(self) -> Self::FFIType;
}

/// Path to a gltf model, relative to the configured assets folder.
#[derive(Debug, Clone)]
pub struct ModelPath(pub String);

} // verus!
