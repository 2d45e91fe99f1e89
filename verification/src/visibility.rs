//! Shader stage visibility masks.

use vstd::prelude::*;

verus! {

/// Bit assigned to the vertex stage in the wire-format visibility mask.
pub const VISIBILITY_VERTEX_BIT: u32 = 1;

/// Bit assigned to the fragment stage in the wire-format visibility mask.
pub const VISIBILITY_FRAGMENT_BIT: u32 = 2;

/// Bit assigned to the compute stage in the wire-format visibility mask.
pub const VISIBILITY_COMPUTE_BIT: u32 = 4;

/// The set of shader stages a binding is visible to.
///
/// The default visibility is all three stages.
#[derive(Clone, Copy, Debug, PartialEq, Eq, Structural)]
pub struct ShaderVisibility {
    /// Visible to the vertex stage.
    pub vertex: bool,
    /// Visible to the fragment stage.
    pub fragment: bool,
    /// Visible to the compute stage.
    pub compute: bool,
}

impl ShaderVisibility {
    /// The wire-format bitmask for this visibility set.
    pub open spec fn spec_bits(self) -> u32 {
        ((if self.vertex {
            VISIBILITY_VERTEX_BIT as int
        } else {
            0
        }) + (if self.fragment {
            VISIBILITY_FRAGMENT_BIT as int
        } else {
            0
        }) + (if self.compute {
            VISIBILITY_COMPUTE_BIT as int
        } else {
            0
        })) as u32
    }

    /// True when every stage is visible.
    pub open spec fn spec_is_all(self) -> bool {
        self.vertex && self.fragment && self.compute
    }

    /// Visibility covering all stages.
    pub fn all() -> (r: Self)
        ensures
            r.spec_is_all(),
    {
        ShaderVisibility { vertex: true, fragment: true, compute: true }
    }

    /// Visibility covering no stage.
    pub fn none() -> (r: Self)
        ensures
            !r.vertex && !r.fragment && !r.compute,
    {
        ShaderVisibility { vertex: false, fragment: false, compute: false }
    }

    /// Visibility covering only the vertex stage.
    pub fn only_vertex() -> (r: Self)
        ensures
            r.vertex && !r.fragment && !r.compute,
    {
        ShaderVisibility { vertex: true, fragment: false, compute: false }
    }

    /// Visibility covering only the fragment stage.
    pub fn only_fragment() -> (r: Self)
        ensures
            !r.vertex && r.fragment && !r.compute,
    {
        ShaderVisibility { vertex: false, fragment: true, compute: false }
    }

    /// Visibility covering only the compute stage.
    pub fn only_compute() -> (r: Self)
        ensures
            !r.vertex && !r.fragment && r.compute,
    {
        ShaderVisibility { vertex: false, fragment: false, compute: true }
    }

    /// The stages visible in `self`, in `other`, or in both.
    pub fn union(self, other: Self) -> (r: Self)
        ensures
            r.vertex == (self.vertex || other.vertex),
            r.fragment == (self.fragment || other.fragment),
            r.compute == (self.compute || other.compute),
    {
        ShaderVisibility {
            vertex: self.vertex || other.vertex,
            fragment: self.fragment || other.fragment,
            compute: self.compute || other.compute,
        }
    }

    /// True when every stage visible in `other` is visible in `self`.
    pub fn contains(self, other: Self) -> (r: bool)
        ensures
            r == ((other.vertex ==> self.vertex) && (other.fragment ==> self.fragment) && (
            other.compute ==> self.compute)),
    {
        (!other.vertex || self.vertex) && (!other.fragment || self.fragment) && (!other.compute
            || self.compute)
    }

    /// The wire-format bitmask for this visibility set.
    pub fn bits(self) -> (r: u32)
        ensures
            r == self.spec_bits(),
    {
        let mut r: u32 = 0;
        if self.vertex {
            r = r + VISIBILITY_VERTEX_BIT;
        }
        if self.fragment {
            r = r + VISIBILITY_FRAGMENT_BIT;
        }
        if self.compute {
            r = r + VISIBILITY_COMPUTE_BIT;
        }
        r
    }
}

impl Default for ShaderVisibility {
    /// A binding constructed without an explicit visibility mask is visible
    /// to all three stages.
    fn default() -> (r: Self)
        ensures
            r.spec_is_all(),
    {
        ShaderVisibility::all()
    }
}

} // verus!
