use celeritas_ral::vertex::{VertexAttrKind, VertexDesc};
use celeritas_ral::{IntoFFI, ModelPath};

#[test]
fn vertex_desc_converts_to_wire_form() {
    let desc = VertexDesc::new("mesh".to_owned())
        .add_attr("position", VertexAttrKind::Floatx3)
        .add_attr("normal", VertexAttrKind::Floatx3)
        .add_attr("uv", VertexAttrKind::Floatx2);
    let wire = desc.to_wire();
    assert_eq!(wire.debug_label, "mesh");
    assert_eq!(wire.attr_names, vec!["position", "normal", "uv"]);
    assert_eq!(
        wire.attributes,
        vec![VertexAttrKind::Floatx3, VertexAttrKind::Floatx3, VertexAttrKind::Floatx2]
    );
    assert_eq!(wire.attributes_count, 3);
    assert!(wire.use_full_vertex_size);
}

#[test]
fn empty_vertex_desc_has_no_attributes() {
    let wire = VertexDesc::new("bare".to_owned()).into_ffi();
    assert_eq!(wire.debug_label, "bare");
    assert!(wire.attr_names.is_empty());
    assert!(wire.attributes.is_empty());
    assert_eq!(wire.attributes_count, 0);
}

#[test]
fn model_path_carries_relative_path() {
    let p = ModelPath("models/helmet.gltf".to_owned());
    assert_eq!(p.0, "models/helmet.gltf");
}
