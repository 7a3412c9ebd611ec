use cap_narrative_types::ontology::{
    canonical_documented_tag_keys, canonical_tag_keys, canonicalize_tag_key, core_primitives,
    tag_key_mappings, DeprecationLevel, OntologyLayer, PrimitiveKind, ProjectionType,
};

#[test]
fn canonicalize_maps_aliases_and_case() {
    assert_eq!(canonicalize_tag_key("character"), "character");
    assert_eq!(canonicalize_tag_key("  Characters "), "character");
    assert_eq!(canonicalize_tag_key("LOCATION"), "setting");
    assert_eq!(canonicalize_tag_key("scene_id"), "scene");
    assert_eq!(canonicalize_tag_key("motif_stage"), "stage");
    assert_eq!(canonicalize_tag_key(" Unknown_Key"), "unknown_key");
    assert_eq!(canonicalize_tag_key(""), "");
    for raw in [" Characters ", "LOCATION", " Mood ", "stage", "Motif_Stage"] {
        let once = canonicalize_tag_key(raw);
        assert_eq!(canonicalize_tag_key(&once), once);
    }
    assert_eq!(canonicalize_tag_key(" Mood "), "mood");
}

#[test]
fn key_table_rows() {
    let ms = tag_key_mappings();
    assert_eq!(ms.len(), 38);
    assert_eq!(ms[0].canonical_key, "character");
    assert_eq!(ms[0].alias_key, None);
    assert_eq!(ms[0].layer, OntologyLayer::NarrativeDomain);
    assert_eq!(ms[0].kind, PrimitiveKind::Entity);
    assert!(ms[0].expected_in_docs_heading);
    let location = ms.iter().find(|m| m.alias_key.as_deref() == Some("location")).unwrap();
    assert_eq!(location.canonical_key, "setting");
    assert_eq!(location.deprecation, DeprecationLevel::Hard);
    assert!(!location.expected_in_docs_heading);
}

#[test]
fn canonical_key_lists_are_sorted_and_distinct() {
    let keys = canonical_tag_keys();
    assert_eq!(keys.len(), 34);
    for w in keys.windows(2) {
        assert!(w[0] < w[1]);
    }
    assert_eq!(keys[0], "actant");
    assert!(keys.iter().any(|k| k == "stage"));
    assert!(!keys.iter().any(|k| k == "characters"));

    let documented = canonical_documented_tag_keys();
    assert_eq!(documented.len(), 33);
    for w in documented.windows(2) {
        assert!(w[0] < w[1]);
    }
    assert!(!documented.iter().any(|k| k == "stage"));
    assert!(documented.iter().all(|k| keys.contains(k)));
    let without_stage: Vec<String> = keys.iter().filter(|k| k.as_str() != "stage").cloned().collect();
    assert_eq!(documented, without_stage);
}

#[test]
fn primitive_registry() {
    let ps = core_primitives();
    assert_eq!(ps.len(), 50);
    let first = &ps[0];
    assert_eq!(first.id, "entity.character");
    assert_eq!(first.label, "Character entity");
    assert_eq!(first.layer, OntologyLayer::NarrativeDomain);
    assert_eq!(first.kind, PrimitiveKind::Entity);
    assert_eq!(first.canonical_symbol, "Character");
    assert_eq!(first.invariants, vec!["id is a stable snake_case slug", "refs resolve through EntityRegistry"]);
    assert_eq!(first.projections.len(), 3);
    assert_eq!(first.projections[0].projection_type, ProjectionType::RustType);
    assert_eq!(first.projections[0].target, "grimoire-types/src/entities.rs::Character");
    assert_eq!(first.projections[1].projection_type, ProjectionType::MarkdownTag);
    assert_eq!(first.projections[1].target, "character:<slug>");
    assert_eq!(first.projections[2].projection_type, ProjectionType::JsonSchema);
    assert_eq!(first.projections[2].target, "entities.Character");
    let mut ids: Vec<&str> = ps.iter().map(|p| p.id.as_str()).collect();
    ids.sort();
    ids.dedup();
    assert_eq!(ids.len(), 50);
    let entity_ref = ps.iter().find(|p| p.id == "reference.entity_ref").unwrap();
    assert_eq!(entity_ref.layer, OntologyLayer::AnnotationEvent);
    assert_eq!(entity_ref.kind, PrimitiveKind::Reference);
    assert_eq!(entity_ref.canonical_symbol, "tags::EntityRef");
}
