# cap-narrative-types

Protocol-core types of the CAP Narrative Profile, verified with Verus.

- `src/` is the library. Every function in it carries a `requires`/`ensures`
  contract that Verus proves. The modules cover the closed vocabularies
  (`enums`, `vocabulary`), the tag-key ontology (`ontology`), the annotation
  tag system, its parser and the read-back of written tags (`tags`,
  `tag_parser`, `round_trip`), the tag constraint graph
  (`constraints`), the declared entities and their registry (`entities`),
  voice contracts (`voice`), catalog entry shapes (`catalogs`), the profile
  overlay layers (`overlay`), the multi-artifact corpus (`corpus`), the
  profile validator (`validate_narrative`) and the corpus views (`views`).
  Public proof functions state the laws that hold across calls.
- `tests/` runs the library on concrete values.
- `app/` holds what Verus does not take: the `serde`/`schemars` copies of the
  library's types, catalog loading, JSON Schema generation, the bridge to CAP
  artifacts, and the floating-point tension curve.

Keyed collections. Where a type holds entities keyed by slug (the entity
registry's eleven kinds, a voice contract's character signatures), the
library holds a list of `(slug, value)` pairs rather than a `HashMap`: Verus
specifies a `String`-keyed `HashMap` too weakly to prove lookups against. A
lookup answers the first entry carrying the slug. The fields stay public, as
the map fields are, so uniqueness of slugs is not a type invariant; it is the
predicate `EntityRegistry::well_formed` (and `VoiceContract::keys_distinct`),
which `EntityRegistry::new` establishes. Under it the entry a lookup finds is
the only one with its slug.
