//! Engine types that the library carries or calls, and what it relies on about them.
use vstd::prelude::*;

use bevy_asset::{AssetPath, UntypedHandle};
use bevy_mesh::MeshVertexAttribute;
use bevy_platform::collections::HashMap;
use bevy_platform::hash::FixedHasher;
use bevy_transform::components::Transform;

verus! {

/// A reference to an asset whose type is only known at run time; carried through unchanged.
#[verifier::external_type_specification]
#[verifier::external_body]
pub struct ExUntypedHandle(UntypedHandle);

/// A local transform; carried through unchanged.
#[verifier::external_type_specification]
#[verifier::external_body]
pub struct ExTransform(Transform);

/// The description of a mesh vertex attribute.
#[verifier::external_type_specification]
#[verifier::external_body]
pub struct ExMeshVertexAttribute(MeshVertexAttribute);

/// `Clone::clone` of an untyped handle, derived by the engine: the same strong
/// reference (sharing its count) or the same weak id.
pub assume_specification[ <UntypedHandle as Clone>::clone ](h: &UntypedHandle) -> (res: UntypedHandle)
    ensures
        res == *h,
;

/// `Clone::clone` of a transform, which is `Copy`: a copy of it.
pub assume_specification[ <Transform as Clone>::clone ](t: &Transform) -> (res: Transform)
    ensures
        res == *t,
;

/// A path to an asset, with its source and an optional sub-asset label.
#[verifier::external_type_specification]
#[verifier::external_body]
pub struct ExAssetPath<'a>(AssetPath<'a>);

/// What `AssetPath::with_label` returns for a path and a label text.
pub uninterp spec fn path_with_label(path: AssetPath<'static>, label: Seq<char>) -> AssetPath<'static>;

/// The text that `AssetPath::label` returns for a path, if it has a label.
pub uninterp spec fn asset_path_label(path: AssetPath<'static>) -> Option<Seq<char>>;

/// What `AssetPath::without_label` returns for a path: its source and location, with no label.
pub uninterp spec fn asset_path_without_label(path: AssetPath<'static>) -> AssetPath<'static>;

/// Calls `AssetPath::with_label`, which keeps the path's source and location and
/// replaces its label by `label`. Claimed: the result is the named result of the
/// call; its label (as `AssetPath::label` reads it) is `label`; and without its label
/// (as `AssetPath::without_label` gives it) it is the given path without its label,
/// that is, the source and the location are kept.
#[verifier::external_body]
pub(crate) fn asset_path_with_label(path: AssetPath<'static>, label: String) -> (res: AssetPath<'static>)
    ensures
        res == path_with_label(path, label@),
        asset_path_label(res) == Some(label@),
        asset_path_without_label(res) == asset_path_without_label(path),
{
    path.with_label(label)
}

/// A hash map with a fixed hasher.
#[verifier::external_type_specification]
#[verifier::external_body]
#[verifier::reject_recursive_types(K)]
#[verifier::reject_recursive_types(V)]
#[verifier::reject_recursive_types(S)]
pub struct ExHashMap<K, V, S>(HashMap<K, V, S>);

/// The fixed hasher that the engine's hash maps use by default.
#[verifier::external_type_specification]
#[verifier::external_body]
pub struct ExFixedHasher(FixedHasher);

/// Custom vertex attributes, keyed by the name found in glTF data.
pub type VertexAttributeMap = HashMap<Box<str>, MeshVertexAttribute>;

/// The entries of a map of vertex attributes, each keyed by the text of its name.
pub uninterp spec fn vertex_attribute_entries(map: VertexAttributeMap) -> Map<Seq<char>, MeshVertexAttribute>;

/// Calls `HashMap::default`, which makes an empty map.
#[verifier::external_body]
pub(crate) fn empty_vertex_attribute_map() -> (res: VertexAttributeMap)
    ensures
        vertex_attribute_entries(res).dom() == Set::<Seq<char>>::empty(),
{
    HashMap::default()
}

/// Calls `HashMap::insert` with the boxed text of `name` as key: afterwards `name`
/// maps to `attribute` and every other key keeps its entry.
#[verifier::external_body]
pub(crate) fn insert_vertex_attribute(
    map: &mut VertexAttributeMap,
    name: &str,
    attribute: MeshVertexAttribute,
)
    ensures
        vertex_attribute_entries(*final(map)) == vertex_attribute_entries(*old(map)).insert(name@, attribute),
{
    map.insert(name.into(), attribute);
}

} // verus!
