//! Extra glTF data attached to scenes, meshes, materials and primitives.
use vstd::prelude::*;

verus! {

/// Additional untyped data that can be present on most glTF types at the primitive level.
#[derive(Clone, Debug)]
pub struct GltfExtras {
    /// Content of the extra data.
    pub value: String,
}

/// Additional untyped data that can be present on most glTF types at the scene level.
#[derive(Clone, Debug)]
pub struct GltfSceneExtras {
    /// Content of the extra data.
    pub value: String,
}

/// Additional untyped data that can be present on most glTF types at the mesh level.
#[derive(Clone, Debug)]
pub struct GltfMeshExtras {
    /// Content of the extra data.
    pub value: String,
}

/// Additional untyped data that can be present on most glTF types at the material level.
#[derive(Clone, Debug)]
pub struct GltfMaterialExtras {
    /// Content of the extra data.
    pub value: String,
}

/// The material name of a glTF primitive.
#[derive(Clone, Debug)]
pub struct GltfMaterialName(pub String);

impl Default for GltfExtras {
    /// Empty extra data.
    fn default() -> (r: Self)
        ensures
            r.value@ == Seq::<char>::empty(),
    {
        GltfExtras { value: String::new() }
    }
}

impl Default for GltfSceneExtras {
    /// Empty extra data.
    fn default() -> (r: Self)
        ensures
            r.value@ == Seq::<char>::empty(),
    {
        GltfSceneExtras { value: String::new() }
    }
}

impl Default for GltfMeshExtras {
    /// Empty extra data.
    fn default() -> (r: Self)
        ensures
            r.value@ == Seq::<char>::empty(),
    {
        GltfMeshExtras { value: String::new() }
    }
}

impl Default for GltfMaterialExtras {
    /// Empty extra data.
    fn default() -> (r: Self)
        ensures
            r.value@ == Seq::<char>::empty(),
    {
        GltfMaterialExtras { value: String::new() }
    }
}

impl Default for GltfMaterialName {
    /// An empty material name.
    fn default() -> (r: Self)
        ensures
            r.0@ == Seq::<char>::empty(),
    {
        GltfMaterialName(String::new())
    }
}

} // verus!
