use bevy_gltf::GltfPlugin;
use bevy_mesh::{MeshVertexAttribute, VertexFormat};

const BARYCENTRIC: MeshVertexAttribute = MeshVertexAttribute::new("Barycentric", 2137464976, VertexFormat::Float32x3);

#[test]
fn default_plugin_has_no_custom_attributes() {
    let plugin = GltfPlugin::default();
    assert_eq!(plugin.custom_vertex_attributes().len(), 0);
}

#[test]
fn registered_attribute_is_found_by_name() {
    let plugin = GltfPlugin::default().add_custom_vertex_attribute("_BARYCENTRIC", BARYCENTRIC);
    let map = plugin.custom_vertex_attributes();
    assert_eq!(map.len(), 1);
    let found = map.get("_BARYCENTRIC").expect("registered");
    assert_eq!(found.name, "Barycentric");
    assert_eq!(found.id, BARYCENTRIC.id);
    assert!(map.get("_OTHER").is_none());
}

#[test]
fn registering_a_name_again_replaces_the_attribute() {
    let other = MeshVertexAttribute::new("Other", 99, VertexFormat::Float32);
    let plugin = GltfPlugin::default()
        .add_custom_vertex_attribute("_A", BARYCENTRIC)
        .add_custom_vertex_attribute("_B", other.clone())
        .add_custom_vertex_attribute("_A", other.clone());
    let map = plugin.custom_vertex_attributes();
    assert_eq!(map.len(), 2);
    assert_eq!(map.get("_A").unwrap().id, other.id);
    assert_eq!(map.get("_B").unwrap().name, "Other");
}

#[test]
fn registration_order_of_distinct_names_does_not_matter() {
    let other = MeshVertexAttribute::new("Other", 99, VertexFormat::Float32);
    let ab = GltfPlugin::default()
        .add_custom_vertex_attribute("_A", BARYCENTRIC)
        .add_custom_vertex_attribute("_B", other.clone());
    let ba = GltfPlugin::default()
        .add_custom_vertex_attribute("_B", other.clone())
        .add_custom_vertex_attribute("_A", BARYCENTRIC);
    for name in ["_A", "_B"] {
        assert_eq!(
            ab.custom_vertex_attributes().get(name).map(|a| a.id),
            ba.custom_vertex_attributes().get(name).map(|a| a.id)
        );
    }
    assert_eq!(ab.custom_vertex_attributes().len(), ba.custom_vertex_attributes().len());
}
