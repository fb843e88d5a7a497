//! The records made of a glTF file's nodes, skins, meshes and primitives, and their names.
use vstd::prelude::*;

use bevy_asset::UntypedHandle;
use bevy_transform::components::Transform;

use crate::decimal::{decimal, lemma_decimal_injective, push_decimal};
use crate::extras::GltfExtras;
use crate::label::GltfAssetLabel;

verus! {

/// What a glTF node definition tells about itself: its index in the document and
/// its optional user-defined name.
#[derive(Clone, Debug)]
pub struct NodeDef {
    /// Index of the node in the document.
    pub index: usize,
    /// Name given to the node in the glTF data, if any.
    pub name: Option<String>,
}

/// What a glTF skin definition tells about itself.
#[derive(Clone, Debug)]
pub struct SkinDef {
    /// Index of the skin in the document.
    pub index: usize,
    /// Name given to the skin in the glTF data, if any.
    pub name: Option<String>,
}

/// What a glTF mesh definition tells about itself.
#[derive(Clone, Debug)]
pub struct MeshDef {
    /// Index of the mesh in the document.
    pub index: usize,
    /// Name given to the mesh in the glTF data, if any.
    pub name: Option<String>,
    /// Number of primitives of the mesh.
    pub primitive_count: usize,
}

/// What a glTF primitive definition tells about itself.
#[derive(Clone, Debug)]
pub struct PrimitiveDef {
    /// Index of the primitive inside its mesh.
    pub index: usize,
}

/// The name a node, skin or mesh gets: the name given in the glTF data, or else
/// the word for its kind followed by the decimal text of its index.
pub open spec fn record_name(given: Option<String>, kind: Seq<char>, index: nat) -> Seq<char> {
    match given {
        Some(name) => name@,
        None => kind + decimal(index),
    }
}

/// The name a primitive gets. Of a mesh with a user-defined name: that name, followed
/// by a dot and the primitive's index when the mesh has more than one primitive. Of a
/// mesh without a name: a name generated from the primitive's index, `Mesh.` followed
/// by the index.
pub open spec fn primitive_name(mesh_name: Option<String>, primitive_count: nat, index: nat) -> Seq<char> {
    match mesh_name {
        Some(name) => if primitive_count > 1 {
            name@ + "."@ + decimal(index)
        } else {
            name@
        },
        None => "Mesh"@ + "."@ + decimal(index),
    }
}

/// A record whose definition carries a name is named exactly that, whatever its kind
/// and index; a record without one is named by its kind followed by its index.
pub proof fn lemma_record_name_rule(given: Option<String>, kind: Seq<char>, index: nat)
    ensures
        given is Some ==> record_name(given, kind, index) == given.unwrap()@,
        given is None ==> record_name(given, kind, index) == kind + decimal(index),
{
}

/// A primitive of a named mesh with several primitives is named by the mesh's name, a
/// dot and the primitive's index; of a named mesh with at most one primitive, by the
/// mesh's name alone; of an unnamed mesh, by `Mesh`, a dot and the primitive's index.
pub proof fn lemma_primitive_name_rule(mesh_name: Option<String>, primitive_count: nat, index: nat)
    ensures
        mesh_name is Some && primitive_count > 1 ==> primitive_name(mesh_name, primitive_count, index)
            == mesh_name.unwrap()@ + "."@ + decimal(index),
        mesh_name is Some && primitive_count <= 1 ==> primitive_name(mesh_name, primitive_count, index)
            == mesh_name.unwrap()@,
        mesh_name is None ==> primitive_name(mesh_name, primitive_count, index) == "Mesh"@ + "."@
            + decimal(index),
{
}

/// Computes [`record_name`].
fn name_or_generated(given: &Option<String>, kind: &str, index: usize) -> (s: String)
    ensures
        s@ == record_name(*given, kind@, index as nat),
{
    match given {
        Some(name) => name.clone(),
        None => {
            let mut s = String::new();
            s.append(kind);
            push_decimal(&mut s, index);
            assert(s@ =~= kind@ + decimal(index as nat));
            s
        },
    }
}

/// Two records of one kind without a given name, at distinct indices, get distinct names.
pub proof fn lemma_generated_names_distinct(kind: Seq<char>, a: nat, b: nat)
    requires
        a != b,
    ensures
        record_name(None, kind, a) != record_name(None, kind, b),
{
    if kind + decimal(a) == kind + decimal(b) {
        assert(decimal(a) =~= (kind + decimal(a)).subrange(kind.len() as int, (kind + decimal(a)).len() as int));
        assert(decimal(b) =~= (kind + decimal(b)).subrange(kind.len() as int, (kind + decimal(b)).len() as int));
        lemma_decimal_injective(a, b);
    }
}

/// Distinct primitives of one mesh get distinct names whenever their names are
/// generated from their indices: when the mesh has no name or more than one primitive.
pub proof fn lemma_primitive_names_distinct(mesh_name: Option<String>, primitive_count: nat, a: nat, b: nat)
    requires
        primitive_count > 1 || mesh_name is None,
        a != b,
    ensures
        primitive_name(mesh_name, primitive_count, a) != primitive_name(mesh_name, primitive_count, b),
{
    let base = match mesh_name {
        Some(name) => name@,
        None => "Mesh"@,
    };
    let p = base + "."@;
    assert(primitive_name(mesh_name, primitive_count, a) =~= p + decimal(a));
    assert(primitive_name(mesh_name, primitive_count, b) =~= p + decimal(b));
    lemma_generated_names_distinct(p, a, b);
}

/// A glTF node with all of its child nodes, its mesh, local transform, optional skin
/// and optional extras.
#[derive(Clone, Debug)]
pub struct GltfNode {
    /// Index of the node inside the scene
    pub index: usize,
    /// Computed name for a node - either a user defined node name from glTF or a generated name from index
    pub name: String,
    /// Direct children of the node.
    pub children: Vec<UntypedHandle>,
    /// Mesh of the node.
    pub mesh: Option<UntypedHandle>,
    /// Skin of the node.
    pub skin: Option<UntypedHandle>,
    /// Local transform.
    pub transform: Transform,
    /// Is this node used as an animation root
    pub is_animation_root: bool,
    /// Additional data.
    pub extras: Option<GltfExtras>,
}

impl GltfNode {
    /// Create a node extracting name and index from glTF def
    pub fn new(
        node: &NodeDef,
        children: Vec<UntypedHandle>,
        mesh: Option<UntypedHandle>,
        transform: Transform,
        skin: Option<UntypedHandle>,
        extras: Option<GltfExtras>,
    ) -> (r: Self)
        ensures
            r.index == node.index,
            r.name@ == record_name(node.name, "GltfNode"@, node.index as nat),
            node.name is Some ==> r.name@ == node.name.unwrap()@,
            node.name is None ==> r.name@ == "GltfNode"@ + decimal(node.index as nat),
            r.children == children,
            r.mesh == mesh,
            r.skin == skin,
            r.transform == transform,
            !r.is_animation_root,
            r.extras == extras,
    {
        GltfNode {
            index: node.index,
            name: name_or_generated(&node.name, "GltfNode", node.index),
            children,
            mesh,
            skin,
            transform,
            is_animation_root: false,
            extras,
        }
    }

    /// Create a node with animation root mark
    pub fn with_animation_root(self, is_animation_root: bool) -> (r: Self)
        ensures
            r.is_animation_root == is_animation_root,
            r.index == self.index,
            r.name == self.name,
            r.children == self.children,
            r.mesh == self.mesh,
            r.skin == self.skin,
            r.transform == self.transform,
            r.extras == self.extras,
    {
        GltfNode { is_animation_root, ..self }
    }

    /// Subasset label for this node within the glTF parent asset.
    pub fn asset_label(&self) -> (r: GltfAssetLabel)
        ensures
            r == GltfAssetLabel::Node(self.index),
    {
        GltfAssetLabel::Node(self.index)
    }
}

/// A glTF skin with all of its joint nodes, its inverse-bind matrices and optional extras.
#[derive(Clone, Debug)]
pub struct GltfSkin {
    /// Index of the skin inside the scene
    pub index: usize,
    /// Computed name for a skin - either a user defined skin name from glTF or a generated name from index
    pub name: String,
    /// All the nodes that form this skin.
    pub joints: Vec<UntypedHandle>,
    /// Inverse-bind matrices of this skin.
    pub inverse_bind_matrices: UntypedHandle,
    /// Additional data.
    pub extras: Option<GltfExtras>,
}

impl GltfSkin {
    /// Create a skin extracting name and index from glTF def
    pub fn new(
        skin: &SkinDef,
        joints: Vec<UntypedHandle>,
        inverse_bind_matrices: UntypedHandle,
        extras: Option<GltfExtras>,
    ) -> (r: Self)
        ensures
            r.index == skin.index,
            r.name@ == record_name(skin.name, "GltfSkin"@, skin.index as nat),
            skin.name is Some ==> r.name@ == skin.name.unwrap()@,
            skin.name is None ==> r.name@ == "GltfSkin"@ + decimal(skin.index as nat),
            r.joints == joints,
            r.inverse_bind_matrices == inverse_bind_matrices,
            r.extras == extras,
    {
        GltfSkin {
            index: skin.index,
            name: name_or_generated(&skin.name, "GltfSkin", skin.index),
            joints,
            inverse_bind_matrices,
            extras,
        }
    }

    /// Subasset label for this skin within the glTF parent asset.
    pub fn asset_label(&self) -> (r: GltfAssetLabel)
        ensures
            r == GltfAssetLabel::Skin(self.index),
    {
        GltfAssetLabel::Skin(self.index)
    }
}

/// A glTF mesh, which may consist of multiple primitives and an optional extras.
#[derive(Clone, Debug)]
pub struct GltfMesh {
    /// Index of the mesh inside the scene
    pub index: usize,
    /// Computed name for a mesh - either a user defined mesh name from glTF or a generated name from index
    pub name: String,
    /// Primitives of the glTF mesh.
    pub primitives: Vec<GltfPrimitive>,
    /// Additional data.
    pub extras: Option<GltfExtras>,
}

impl GltfMesh {
    /// Create a mesh extracting name and index from glTF def
    pub fn new(mesh: &MeshDef, primitives: Vec<GltfPrimitive>, extras: Option<GltfExtras>) -> (r: Self)
        ensures
            r.index == mesh.index,
            r.name@ == record_name(mesh.name, "GltfMesh"@, mesh.index as nat),
            mesh.name is Some ==> r.name@ == mesh.name.unwrap()@,
            mesh.name is None ==> r.name@ == "GltfMesh"@ + decimal(mesh.index as nat),
            r.primitives == primitives,
            r.extras == extras,
    {
        GltfMesh {
            index: mesh.index,
            name: name_or_generated(&mesh.name, "GltfMesh", mesh.index),
            primitives,
            extras,
        }
    }

    /// Subasset label for this mesh within the glTF parent asset.
    pub fn asset_label(&self) -> (r: GltfAssetLabel)
        ensures
            r == GltfAssetLabel::Mesh(self.index),
    {
        GltfAssetLabel::Mesh(self.index)
    }
}

/// Part of a [`GltfMesh`] that consists of a mesh, an optional material and extras.
#[derive(Clone, Debug)]
pub struct GltfPrimitive {
    /// Index of the primitive inside the mesh
    pub index: usize,
    /// Index of the parent [`GltfMesh`] of this primitive
    pub parent_mesh_index: usize,
    /// Computed name for a primitive - either a user defined primitive name from glTF or a generated name from index
    pub name: String,
    /// Topology to be rendered.
    pub mesh: UntypedHandle,
    /// Material to apply to the `mesh`.
    pub material: Option<UntypedHandle>,
    /// Additional data.
    pub extras: Option<GltfExtras>,
    /// Additional data of the `material`.
    pub material_extras: Option<GltfExtras>,
}

impl GltfPrimitive {
    /// Create a primitive extracting name and index from glTF def
    pub fn new(
        gltf_mesh: &MeshDef,
        gltf_primitive: &PrimitiveDef,
        mesh: UntypedHandle,
        material: Option<UntypedHandle>,
        extras: Option<GltfExtras>,
        material_extras: Option<GltfExtras>,
    ) -> (r: Self)
        ensures
            r.index == gltf_primitive.index,
            r.parent_mesh_index == gltf_mesh.index,
            r.name@ == primitive_name(
                gltf_mesh.name,
                gltf_mesh.primitive_count as nat,
                gltf_primitive.index as nat,
            ),
            gltf_mesh.name is Some && gltf_mesh.primitive_count > 1 ==> r.name@ == gltf_mesh.name.unwrap()@
                + "."@ + decimal(gltf_primitive.index as nat),
            gltf_mesh.name is Some && gltf_mesh.primitive_count <= 1 ==> r.name@ == gltf_mesh.name.unwrap()@,
            gltf_mesh.name is None ==> r.name@ == "Mesh"@ + "."@ + decimal(gltf_primitive.index as nat),
            r.mesh == mesh,
            r.material == material,
            r.extras == extras,
            r.material_extras == material_extras,
    {
        let name = match &gltf_mesh.name {
            Some(mesh_name) => {
                let mut name = mesh_name.clone();
                if gltf_mesh.primitive_count > 1 {
                    name.append(".");
                    push_decimal(&mut name, gltf_primitive.index);
                }
                name
            },
            None => {
                let mut name = String::from_str("Mesh");
                name.append(".");
                push_decimal(&mut name, gltf_primitive.index);
                name
            },
        };
        GltfPrimitive {
            index: gltf_primitive.index,
            parent_mesh_index: gltf_mesh.index,
            name,
            mesh,
            material,
            extras,
            material_extras,
        }
    }

    /// Subasset label for this primitive within its parent [`GltfMesh`] within the glTF parent asset.
    pub fn asset_label(&self) -> (r: GltfAssetLabel)
        ensures
            r == (GltfAssetLabel::Primitive { mesh: self.parent_mesh_index, primitive: self.index }),
    {
        GltfAssetLabel::Primitive { mesh: self.parent_mesh_index, primitive: self.index }
    }
}

} // verus!
