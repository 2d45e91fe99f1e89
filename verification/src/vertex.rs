//! Vertex attribute descriptions and their wire conversion.

use vstd::prelude::*;

use crate::wire::VertexDescription;

verus! {

/// Scalar or vector kind of one vertex attribute: float, unsigned or signed
/// 32-bit components, one to four of them.
#[derive(Clone, Copy, Debug, PartialEq, Eq, Hash, Structural)]
pub enum VertexAttrKind {
    /// One 32-bit float component.
    Floatx1,
    /// Two 32-bit float components.
    Floatx2,
    /// Three 32-bit float components.
    Floatx3,
    /// Four 32-bit float components.
    Floatx4,
    /// One unsigned 32-bit component.
    U32x1,
    /// Two unsigned 32-bit components.
    U32x2,
    /// Three unsigned 32-bit components.
    U32x3,
    /// Four unsigned 32-bit components.
    U32x4,
    /// One signed 32-bit component.
    I32x1,
    /// Two signed 32-bit components.
    I32x2,
    /// Three signed 32-bit components.
    I32x3,
    /// Four signed 32-bit components.
    I32x4,
}

/// One named vertex attribute.
#[derive(Clone, Debug)]
pub struct VertexAttribute {
    /// The attribute's name in the shader.
    pub name: String,
    /// The attribute's scalar or vector kind.
    pub kind: VertexAttrKind,
}

impl VertexAttribute {
    /// The attribute's name.
    pub open spec fn spec_name(self) -> Seq<char> {
        self.name@
    }

    /// The attribute's kind.
    pub open spec fn spec_kind(self) -> VertexAttrKind {
        self.kind
    }
}

/// A named, ordered sequence of vertex attributes. The attribute set must
/// match the vertex shader's expected input signature; a mismatch surfaces as
/// a driver-level failure, not here.
#[derive(Clone, Debug)]
pub struct VertexDesc {
    /// Display label of the description.
    pub debug_label: String,
    /// The attributes, in binding order.
    pub attributes: Vec<VertexAttribute>,
}

impl VertexDesc {
    /// The description's debug label.
    pub open spec fn spec_label(self) -> Seq<char> {
        self.debug_label@
    }

    /// The attribute names, in order.
    pub open spec fn spec_names(self) -> Seq<Seq<char>> {
        self.attributes@.map_values(|a: VertexAttribute| a.spec_name())
    }

    /// The attribute kinds, in order.
    pub open spec fn spec_kinds(self) -> Seq<VertexAttrKind> {
        self.attributes@.map_values(|a: VertexAttribute| a.spec_kind())
    }

    /// An empty description under the given label.
    pub fn new(name: String) -> (r: Self)
        ensures
            r.spec_label() == name@,
            r.spec_names() == Seq::<Seq<char>>::empty(),
            r.spec_kinds() == Seq::<VertexAttrKind>::empty(),
    {
        let r = VertexDesc { debug_label: name, attributes: Vec::new() };
        proof {
            assert(r.spec_names() =~= Seq::<Seq<char>>::empty());
            assert(r.spec_kinds() =~= Seq::<VertexAttrKind>::empty());
        }
        r
    }

    /// Append one attribute; position in the sequence is the attribute's
    /// location in the vertex layout.
    pub fn add_attr(self, attr_name: &str, kind: VertexAttrKind) -> (r: Self)
        ensures
            r.spec_label() == self.spec_label(),
            r.spec_names() == self.spec_names().push(attr_name@),
            r.spec_kinds() == self.spec_kinds().push(kind),
    {
        let mut attributes = self.attributes;
        attributes.push(VertexAttribute { name: attr_name.to_owned(), kind });
        let r = VertexDesc { debug_label: self.debug_label, attributes };
        proof {
            assert(r.spec_names() =~= self.spec_names().push(attr_name@));
            assert(r.spec_kinds() =~= self.spec_kinds().push(kind));
        }
        r
    }
}

/// The correspondence between a wire vertex layout and a safe description
/// with the given label, attribute names and attribute kinds.
pub open spec fn vertex_wire_matches(
    w: VertexDescription,
    label: Seq<char>,
    names: Seq<Seq<char>>,
    kinds: Seq<VertexAttrKind>,
) -> bool {
    &&& w.debug_label@ == label
    &&& w.attr_names@.map_values(|s: String| s@) == names
    &&& w.attributes@ == kinds
    &&& w.attributes_count == kinds.len()
    &&& names.len() == kinds.len()
    &&& w.use_full_vertex_size
}

impl VertexDesc {
    /// Convert into the wire vertex layout: the names and kinds in order,
    /// their count, and the full-vertex-size flag set.
    pub fn to_wire(self) -> (r: VertexDescription)
        ensures
            vertex_wire_matches(r, self.spec_label(), self.spec_names(), self.spec_kinds()),
    {
        let mut attr_names: Vec<String> = Vec::new();
        let mut attributes: Vec<VertexAttrKind> = Vec::new();
        let n = self.attributes.len();
        let mut i: usize = 0;
        while i < n
            invariant
                i <= n,
                n == self.attributes@.len(),
                attr_names@.len() == i,
                attributes@.len() == i,
                forall|j: int|
                    0 <= j < i ==> (#[trigger] attr_names@[j])@ == self.attributes@[j].spec_name(),
                forall|j: int|
                    0 <= j < i ==> #[trigger] attributes@[j] == self.attributes@[j].spec_kind(),
            decreases n - i,
        {
            let a = &self.attributes[i];
            attr_names.push(a.name.clone());
            attributes.push(a.kind);
            i = i + 1;
        }
        let r = VertexDescription {
            debug_label: self.debug_label,
            attr_names,
            attributes,
            attributes_count: n,
            use_full_vertex_size: true,
        };
        proof {
            assert(r.attr_names@.map_values(|s: String| s@) =~= self.spec_names());
            assert(r.attributes@ =~= self.spec_kinds());
        }
        r
    }
}

impl crate::IntoFFI for VertexDesc {
    type FFIType = VertexDescription;

    /// The wire vertex layout: the names and kinds in order, their count,
    /// and the full-vertex-size flag set.
    fn into_ffi(self) -> (r: VertexDescription)
        ensures
            vertex_wire_matches(r, self.spec_label(), self.spec_names(), self.spec_kinds()),
    {
        self.to_wire()
    }
}

} // verus!
