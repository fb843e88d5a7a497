use bevy_asset::uuid::Uuid;
use bevy_asset::{AssetId, Handle, UntypedHandle};
use bevy_gltf::{
    GltfAssetLabel, GltfExtras, GltfMaterialExtras, GltfMaterialName, GltfMesh, GltfMeshExtras, GltfNode,
    GltfPrimitive, GltfSceneExtras, GltfSkin, MeshDef, NodeDef, PrimitiveDef, SkinDef,
};
use bevy_mesh::Mesh;
use bevy_transform::components::Transform;

fn handle(n: u128) -> UntypedHandle {
    Handle::<Mesh>::Weak(AssetId::Uuid { uuid: Uuid::from_u128(n) }).untyped()
}

fn extras(text: &str) -> Option<GltfExtras> {
    Some(GltfExtras { value: text.to_string() })
}

#[test]
fn node_keeps_its_given_name() {
    let def = NodeDef { index: 4, name: Some("Helmet".to_string()) };
    let transform = Transform::from_xyz(1.0, 2.0, 3.0);
    let node = GltfNode::new(&def, vec![handle(1), handle(2)], Some(handle(3)), transform, None, extras("{}"));
    assert_eq!(node.index, 4);
    assert_eq!(node.name, "Helmet");
    assert_eq!(node.children, vec![handle(1), handle(2)]);
    assert_eq!(node.mesh, Some(handle(3)));
    assert_eq!(node.skin, None);
    assert_eq!(node.transform, transform);
    assert!(!node.is_animation_root);
    assert_eq!(node.extras.unwrap().value, "{}");
}

#[test]
fn unnamed_records_get_generated_names() {
    let node = GltfNode::new(&NodeDef { index: 17, name: None }, vec![], None, Transform::IDENTITY, None, None);
    assert_eq!(node.name, "GltfNode17");
    let skin = GltfSkin::new(&SkinDef { index: 0, name: None }, vec![], handle(9), None);
    assert_eq!(skin.name, "GltfSkin0");
    let mesh = GltfMesh::new(&MeshDef { index: 305, name: None, primitive_count: 1 }, vec![], None);
    assert_eq!(mesh.name, "GltfMesh305");
}

#[test]
fn generated_names_are_distinct() {
    let a = GltfNode::new(&NodeDef { index: 1, name: None }, vec![], None, Transform::IDENTITY, None, None);
    let b = GltfNode::new(&NodeDef { index: 11, name: None }, vec![], None, Transform::IDENTITY, None, None);
    assert_ne!(a.name, b.name);
}

#[test]
fn node_with_animation_root_changes_only_the_mark() {
    let def = NodeDef { index: 2, name: Some("root".to_string()) };
    let node = GltfNode::new(&def, vec![handle(5)], None, Transform::IDENTITY, Some(handle(6)), None);
    let marked = node.clone().with_animation_root(true);
    assert!(marked.is_animation_root);
    assert_eq!(marked.index, node.index);
    assert_eq!(marked.name, node.name);
    assert_eq!(marked.children, node.children);
    assert_eq!(marked.skin, node.skin);
    let unmarked = marked.with_animation_root(false);
    assert!(!unmarked.is_animation_root);
}

#[test]
fn skin_keeps_its_parts() {
    let skin = GltfSkin::new(
        &SkinDef { index: 3, name: Some("Armature".to_string()) },
        vec![handle(1)],
        handle(2),
        extras("x"),
    );
    assert_eq!(skin.index, 3);
    assert_eq!(skin.name, "Armature");
    assert_eq!(skin.joints, vec![handle(1)]);
    assert_eq!(skin.inverse_bind_matrices, handle(2));
    assert_eq!(skin.asset_label(), GltfAssetLabel::Skin(3));
}

#[test]
fn single_primitive_takes_the_mesh_name() {
    let mesh_def = MeshDef { index: 6, name: Some("Lenses_low".to_string()), primitive_count: 1 };
    let primitive = GltfPrimitive::new(&mesh_def, &PrimitiveDef { index: 0 }, handle(1), None, None, None);
    assert_eq!(primitive.name, "Lenses_low");
    assert_eq!(primitive.index, 0);
    assert_eq!(primitive.parent_mesh_index, 6);
    assert_eq!(primitive.mesh, handle(1));
    assert_eq!(primitive.material, None);
}

#[test]
fn primitives_of_a_mesh_with_several_are_numbered() {
    let mesh_def = MeshDef { index: 6, name: Some("Body".to_string()), primitive_count: 3 };
    let p0 = GltfPrimitive::new(&mesh_def, &PrimitiveDef { index: 0 }, handle(1), Some(handle(2)), extras("a"), extras("b"));
    let p2 = GltfPrimitive::new(&mesh_def, &PrimitiveDef { index: 2 }, handle(1), None, None, None);
    assert_eq!(p0.name, "Body.0");
    assert_eq!(p2.name, "Body.2");
    assert_eq!(p0.material, Some(handle(2)));
    assert_eq!(p0.extras.unwrap().value, "a");
    assert_eq!(p0.material_extras.unwrap().value, "b");
}

#[test]
fn primitive_of_an_unnamed_mesh() {
    let single = MeshDef { index: 0, name: None, primitive_count: 1 };
    let several = MeshDef { index: 0, name: None, primitive_count: 2 };
    let a = GltfPrimitive::new(&single, &PrimitiveDef { index: 0 }, handle(1), None, None, None);
    let b = GltfPrimitive::new(&several, &PrimitiveDef { index: 1 }, handle(1), None, None, None);
    assert_eq!(a.name, "Mesh.0");
    assert_eq!(b.name, "Mesh.1");
    let c = GltfPrimitive::new(&single, &PrimitiveDef { index: 7 }, handle(1), None, None, None);
    assert_eq!(c.name, "Mesh.7");
    assert_ne!(a.name, c.name);
}

#[test]
fn primitive_of_a_mesh_without_primitives_count() {
    let empty = MeshDef { index: 1, name: Some("M".to_string()), primitive_count: 0 };
    let p = GltfPrimitive::new(&empty, &PrimitiveDef { index: 4 }, handle(1), None, None, None);
    assert_eq!(p.name, "M");
}

#[test]
fn records_give_their_labels() {
    let node = GltfNode::new(&NodeDef { index: 8, name: None }, vec![], None, Transform::IDENTITY, None, None);
    assert_eq!(node.asset_label(), GltfAssetLabel::Node(8));
    assert_eq!(node.asset_label().to_string(), "Node8");
    let mesh_def = MeshDef { index: 3, name: None, primitive_count: 2 };
    let primitive = GltfPrimitive::new(&mesh_def, &PrimitiveDef { index: 1 }, handle(1), None, None, None);
    let mesh = GltfMesh::new(&mesh_def, vec![primitive.clone()], None);
    assert_eq!(mesh.asset_label(), GltfAssetLabel::Mesh(3));
    assert_eq!(mesh.primitives.len(), 1);
    assert_eq!(primitive.asset_label(), GltfAssetLabel::Primitive { mesh: 3, primitive: 1 });
    assert_eq!(primitive.asset_label().to_string(), "Mesh3/Primitive1");
}

#[test]
fn extras_default_to_empty() {
    assert_eq!(GltfExtras::default().value, "");
    assert_eq!(GltfSceneExtras::default().value, "");
    assert_eq!(GltfMeshExtras::default().value, "");
    assert_eq!(GltfMaterialExtras::default().value, "");
    assert_eq!(GltfMaterialName::default().0, "");
}
