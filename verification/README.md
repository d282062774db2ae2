# bevy_smud

Signed-distance-field 2d shape rendering for Bevy, with its decisions proved.

- `src/` is the verified library: the pipeline key and what a specialised
  pipeline is made of (`pipeline_key`, `pipeline_spec`), the batching of a
  view's shapes into instanced draws (`batching`), the WGSL sources it writes
  and the import paths it gives shaders (`shaders`, `shader_id`,
  `generation`), which built-in shader is which primitive (`primitives`), the
  picking rules (`picking`), the set of entities a view sees (`visibility`),
  and the shape editor's state (`editor`, with `text`). The generated
  fragment shaders are kept in `shader_table`, and the shape pipeline
  (`shader_table::SmudPipeline`) takes each specialised pipeline's fragment
  shader from there.
- The generated shaders are keyed by a pair of asset identifiers, a struct.
  Verus proves nothing of a `HashMap` with such a key (its lookups rest on a
  derived `Hash` and `Eq` that Verus does not read), so `ShaderTable` is a
  list of entries with the invariant that no pair occurs twice; its contract
  is stated over the map that the list stands for.
- `app/` is the Bevy plugin around it: ECS systems, GPU resources, the
  floating-point distance functions and vertex data, and the egui editor.
- `tests/` runs the library on concrete values.
