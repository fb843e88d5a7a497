//! glTF 2.0 support for the engine: sub-asset labels, the records made of the
//! nodes, skins, meshes and primitives of a glTF file, and the plugin settings.
//!
//! The library's own functions are verified: a label's text, the names given to
//! records and the plugin's registry of custom vertex attributes are stated exactly in
//! the functions' contracts. The engine calls they make (`engine`) are trusted: their
//! contracts are taken from the engine's source, not proved.
pub mod assets;
pub mod decimal;
pub mod engine;
pub mod extras;
pub mod label;
pub mod plugin;

pub use assets::{GltfMesh, GltfNode, GltfPrimitive, GltfSkin, MeshDef, NodeDef, PrimitiveDef, SkinDef};
pub use extras::{GltfExtras, GltfMaterialExtras, GltfMaterialName, GltfMeshExtras, GltfSceneExtras};
pub use label::GltfAssetLabel;
pub use plugin::GltfPlugin;
