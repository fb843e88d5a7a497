//! The plugin settings: custom vertex attributes recognized when loading.
use vstd::prelude::*;

use bevy_mesh::MeshVertexAttribute;

use crate::engine::{empty_vertex_attribute_map, insert_vertex_attribute, vertex_attribute_entries, VertexAttributeMap};

verus! {

/// Adds support for glTF file loading to the app.
pub struct GltfPlugin {
    custom_vertex_attributes: VertexAttributeMap,
}

impl GltfPlugin {
    /// The custom vertex attributes registered so far, keyed by their glTF names.
    pub closed spec fn custom_attributes(self) -> Map<Seq<char>, MeshVertexAttribute> {
        vertex_attribute_entries(self.custom_vertex_attributes)
    }

    /// Register a custom vertex attribute so that it is recognized when loading a glTF file.
    ///
    /// `name` must be the attribute name as found in the glTF data, which must start with an
    /// underscore. Registering a name again replaces the attribute registered before.
    pub fn add_custom_vertex_attribute(self, name: &str, attribute: MeshVertexAttribute) -> (r: Self)
        ensures
            r.custom_attributes() == self.custom_attributes().insert(name@, attribute),
    {
        let mut plugin = self;
        insert_vertex_attribute(&mut plugin.custom_vertex_attributes, name, attribute);
        plugin
    }

    /// The custom vertex attributes registered so far, keyed by their glTF names.
    pub fn custom_vertex_attributes(&self) -> (r: &VertexAttributeMap)
        ensures
            vertex_attribute_entries(*r) == self.custom_attributes(),
    {
        &self.custom_vertex_attributes
    }
}

/// After registering `name` with `attribute`, looking `name` up gives `attribute`; the
/// registered names are the earlier ones together with `name`, and every other name
/// keeps its attribute.
pub proof fn lemma_registration_found(plugin: GltfPlugin, name: Seq<char>, attribute: MeshVertexAttribute)
    ensures
        ({
            let after = plugin.custom_attributes().insert(name, attribute);
            &&& after.dom().contains(name)
            &&& after[name] == attribute
            &&& after.dom() == plugin.custom_attributes().dom().insert(name)
            &&& forall|other: Seq<char>|
                other != name && plugin.custom_attributes().dom().contains(other) ==> after[other]
                    == plugin.custom_attributes()[other]
        }),
{
    assert(plugin.custom_attributes().insert(name, attribute).dom() =~= plugin.custom_attributes().dom().insert(name));
}

/// Registering a name a second time replaces the attribute registered first, whatever it was.
pub proof fn lemma_registration_replaces(
    plugin: GltfPlugin,
    name: Seq<char>,
    first: MeshVertexAttribute,
    second: MeshVertexAttribute,
)
    ensures
        plugin.custom_attributes().insert(name, first).insert(name, second)
            == plugin.custom_attributes().insert(name, second),
{
    assert(plugin.custom_attributes().insert(name, first).insert(name, second)
        =~= plugin.custom_attributes().insert(name, second));
}

/// Registering two distinct names gives the same attributes in either order.
pub proof fn lemma_registration_order(
    plugin: GltfPlugin,
    name_a: Seq<char>,
    a: MeshVertexAttribute,
    name_b: Seq<char>,
    b: MeshVertexAttribute,
)
    requires
        name_a != name_b,
    ensures
        plugin.custom_attributes().insert(name_a, a).insert(name_b, b)
            == plugin.custom_attributes().insert(name_b, b).insert(name_a, a),
{
    assert(plugin.custom_attributes().insert(name_a, a).insert(name_b, b)
        =~= plugin.custom_attributes().insert(name_b, b).insert(name_a, a));
}

impl Default for GltfPlugin {
    /// A plugin without custom vertex attributes.
    fn default() -> (r: Self)
        ensures
            r.custom_attributes().dom() == Set::<Seq<char>>::empty(),
    {
        GltfPlugin { custom_vertex_attributes: empty_vertex_attribute_map() }
    }
}

} // verus!
