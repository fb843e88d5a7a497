# bevy_gltf

glTF 2.0 support for the Bevy engine, written in Verus.

- `src/` is the verified library: sub-asset labels and their text (`label`), the
  decimal text of indices (`decimal`), the node, skin, mesh and primitive records
  and their names (`assets`), extra data (`extras`), the plugin's registry of
  custom vertex attributes (`plugin`), and the engine types and calls the library
  relies on (`engine`).
- `app/` holds the engine integration: asset and component types with the
  engine's derives, the `Plugin` implementation, and the reading of `gltf`
  document items into the library's definitions.
- `tests/` runs the library on concrete values.
