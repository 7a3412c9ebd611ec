use cap_narrative_types::corpus::{
    AntagonistDesign, ArtifactRecord, EntityRecord, NarrativeCorpus, ParticipantStateRecord,
    ProtagonistArc, StateRecord, StateValue, StepRecord, StoryArchitecture, StructureRecord,
    UnitRecord,
};
use cap_narrative_types::validate_narrative::{
    validate_corpus, ConformanceLevel, NarrativeValidator, ValidationSeverity,
};
use cap_narrative_types::views::{build_causal_chain_view, build_entity_trajectory_view};

fn make_entity(id: &str, entity_type: &str) -> EntityRecord {
    EntityRecord {
        entity_id: id.to_owned(),
        entity_type: entity_type.to_owned(),
        display_name: id.to_owned(),
        observable_descriptors: None,
        structural_properties: None,
        interpretations: None,
    }
}

fn text_value(s: &str) -> StateValue {
    StateValue { json: format!("{:?}", s), text: Some(s.to_owned()) }
}

fn unit(focalizer: Option<&str>, pov: Option<&str>) -> UnitRecord {
    UnitRecord {
        participants: vec!["nadia".to_owned()],
        focalizer: focalizer.map(|s| s.to_owned()),
        pov: pov.map(|s| s.to_owned()),
        setting: None,
        participant_states: Vec::new(),
        structure: None,
    }
}

fn minimal_artifact(u: UnitRecord) -> ArtifactRecord {
    ArtifactRecord {
        artifact_id: "test_scene".to_owned(),
        entities: vec![make_entity("nadia", "character"), make_entity("house", "location")],
        units: vec![u],
    }
}

#[test]
fn corpus_new_is_empty() {
    let corpus = NarrativeCorpus::new("my_book");
    assert_eq!(corpus.corpus_id, "my_book");
    assert!(corpus.artifacts.is_empty());
    assert!(corpus.shared_entities.is_empty());
}

#[test]
fn declare_shared_entity_replaces_existing() {
    let mut corpus = NarrativeCorpus::new("book");
    corpus.declare_shared_entity(make_entity("nadia", "character"));
    corpus.declare_shared_entity(make_entity("nadia", "character"));
    assert_eq!(corpus.shared_entities.len(), 1);
}

#[test]
fn shared_entity_lookup() {
    let mut corpus = NarrativeCorpus::new("book");
    corpus.declare_shared_entity(make_entity("nadia", "character"));
    assert!(corpus.shared_entity("nadia").is_some());
    assert!(corpus.shared_entity("ghost").is_none());
}

#[test]
fn redeclaring_replaces_the_entity() {
    let mut corpus = NarrativeCorpus::new("book");
    corpus.declare_shared_entity(make_entity("nadia", "character"));
    corpus.declare_shared_entity(make_entity("house", "location"));
    corpus.declare_shared_entity(make_entity("nadia", "narrator"));
    assert_eq!(corpus.shared_entities.len(), 2);
    assert_eq!(corpus.shared_entity("nadia").unwrap().entity_type, "narrator");
    assert_eq!(corpus.shared_entities[0].entity_id, "nadia");
}

#[test]
fn unit_count_sums_across_artifacts() {
    let mut corpus = NarrativeCorpus::new("book");
    let mut a = minimal_artifact(unit(Some("nadia"), Some("first_person")));
    a.units.push(unit(Some("nadia"), Some("first_person")));
    corpus.add_artifact(a);
    corpus.add_artifact(minimal_artifact(unit(Some("nadia"), Some("first_person"))));
    assert_eq!(corpus.unit_count(), 3);
    assert_eq!(corpus.artifacts_in_order().len(), 2);
}

#[test]
fn all_entity_ids_without_repeats() {
    let mut corpus = NarrativeCorpus::new("book");
    corpus.add_artifact(minimal_artifact(unit(None, None)));
    corpus.declare_shared_entity(make_entity("nadia", "character"));
    corpus.declare_shared_entity(make_entity("omar", "character"));
    assert_eq!(corpus.all_entity_ids(), vec!["nadia", "house", "omar"]);
}

#[test]
fn valid_narrative_no_errors() {
    let artifact = minimal_artifact(unit(Some("nadia"), Some("third_person_limited")));
    let issues = NarrativeValidator.validate(&artifact, ConformanceLevel::Referential);
    assert!(issues.iter().all(|i| i.severity != ValidationSeverity::Error));
    assert!(issues.is_empty());
}

#[test]
fn missing_focalizer_detected() {
    let artifact = minimal_artifact(unit(None, Some("third_person_limited")));
    let issues = NarrativeValidator.validate(&artifact, ConformanceLevel::Schema);
    assert!(
        issues.iter().any(|i| i.code == "NL1:FOCALIZER_MISSING"),
        "expected NL1:FOCALIZER_MISSING"
    );
    assert_eq!(issues[0].path, "units[0].observables.context.focalizer");
}

#[test]
fn missing_pov_detected() {
    let artifact = minimal_artifact(unit(Some("nadia"), None));
    let issues = NarrativeValidator.validate(&artifact, ConformanceLevel::Schema);
    assert!(issues.iter().any(|i| i.code == "NL1:POV_MISSING"), "expected NL1:POV_MISSING");
}

#[test]
fn state_value_type_validation() {
    let value = StateValue { json: "123".to_owned(), text: None };
    let issues = NarrativeValidator.validate_state_value("emotional", &value, "test.state");
    assert!(
        issues.iter().any(|i| i.code == "NL1:EMOTIONAL_STATE_TYPE"),
        "expected NL1:EMOTIONAL_STATE_TYPE"
    );
    assert!(NarrativeValidator.validate_state_value("emotional", &text_value("calm"), "p").is_empty());
    assert_eq!(
        NarrativeValidator.validate_state_value("value_charge", &text_value(""), "p")[0].code,
        "NL1:VALUE_CHARGE_TYPE"
    );
    assert!(NarrativeValidator.validate_state_value("other", &value, "p").is_empty());
}

#[test]
fn focalizer_must_be_a_character() {
    let artifact = minimal_artifact(unit(Some("house"), Some("first_person")));
    let issues = NarrativeValidator.validate(&artifact, ConformanceLevel::Referential);
    assert_eq!(issues.len(), 1);
    assert_eq!(issues[0].code, "NL2:FOCALIZER_NOT_CHARACTER");
    assert_eq!(issues[0].severity, ValidationSeverity::Warning);
    assert_eq!(
        issues[0].message,
        "focalizer \"house\" does not resolve to a declared character entity"
    );
    let mut u = unit(Some("ghost"), Some("first_person"));
    u.setting = Some("moon".to_owned());
    let issues = NarrativeValidator.validate(&minimal_artifact(u), ConformanceLevel::Referential);
    assert_eq!(issues.len(), 2);
    assert_eq!(issues[0].severity, ValidationSeverity::Error);
    assert_eq!(issues[1].code, "NL2:SETTING_NOT_LOCATION");
    assert_eq!(issues[1].path, "units[0].observables.context.setting");
    // Referential checks do not run at the schema level.
    let u = unit(Some("ghost"), Some("first_person"));
    assert!(NarrativeValidator.validate(&minimal_artifact(u), ConformanceLevel::Schema).is_empty());
}

#[test]
fn round_trip_checks() {
    let mut u = unit(Some("nadia"), Some("first_person"));
    u.structure = Some(StructureRecord {
        steps: vec![StepRecord { agent: "Omar".to_owned(), essential: false }],
        transition_values: Some((text_value("calm"), text_value("calm"))),
        semantic_fingerprint: Some("  Nadia opens the door".to_owned()),
        causal_role: None,
    });
    let artifact = minimal_artifact(u);
    let issues = NarrativeValidator.validate(&artifact, ConformanceLevel::RoundTrip);
    let codes: Vec<&str> = issues.iter().map(|i| i.code.as_str()).collect();
    assert_eq!(
        codes,
        vec!["NL3:NO_ESSENTIAL_STEP", "NL3:TRANSITION_UNCHANGED", "NL3:FINGERPRINT_AGENT_MISMATCH"]
    );
    assert_eq!(issues[2].message, "fingerprint agent \"nadia\" does not match any step agent");
    assert!(NarrativeValidator.validate(&artifact, ConformanceLevel::Referential).is_empty());
}

fn state(entity: &str, pre: Option<&str>, post: Option<&str>) -> ParticipantStateRecord {
    ParticipantStateRecord {
        entity_ref: entity.to_owned(),
        pre_state: pre.map(|v| StateRecord { state_type: "emotional".to_owned(), value: text_value(v) }),
        post_state: post.map(|v| StateRecord { state_type: "emotional".to_owned(), value: text_value(v) }),
        objective_action: None,
        interpretations: None,
    }
}

#[test]
fn corpus_checks() {
    let mut corpus = NarrativeCorpus::new("book");
    corpus.declare_shared_entity(make_entity("nadia", "character"));
    corpus.story_architecture = Some(StoryArchitecture {
        protagonist_arc: Some(ProtagonistArc {
            wound_slug: Some("betrayal".to_owned()),
            ..Default::default()
        }),
        antagonist: Some(AntagonistDesign { entity_slug: Some("self".to_owned()), ..Default::default() }),
        ..Default::default()
    });
    let mut a1 = minimal_artifact(unit(Some("nadia"), Some("first_person")));
    a1.artifact_id = "s1".to_owned();
    a1.units[0].participant_states = vec![state("nadia", None, Some("afraid"))];
    let mut a2 = minimal_artifact(unit(Some("nadia"), Some("first_person")));
    a2.artifact_id = "s2".to_owned();
    a2.units[0].participant_states = vec![state("nadia", Some("calm"), None)];
    corpus.add_artifact(a1);
    corpus.add_artifact(a2);
    let issues = validate_corpus(&corpus, ConformanceLevel::RoundTrip);
    assert_eq!(issues.len(), 2);
    assert_eq!(issues[0].code, "NCC1:WOUND_SLUG_UNRESOLVED");
    assert_eq!(
        issues[0].message,
        "story_architecture.protagonist_arc.wound_slug \"betrayal\" not found in shared_entities"
    );
    assert_eq!(issues[1].code, "NCC2:STATE_CONTINUITY_GAP");
    assert_eq!(
        issues[1].message,
        "participant 'nadia': post_state in 's1' (\"afraid\") does not match pre_state in 's2' (\"calm\")"
    );
    assert_eq!(issues[1].path, "artifacts[1].participant_states[entity=nadia].pre_state");
    assert_eq!(validate_corpus(&corpus, ConformanceLevel::Schema).len(), 0);
    assert_eq!(validate_corpus(&corpus, ConformanceLevel::Referential).len(), 1);
}

#[test]
fn trajectory_and_causal_chain() {
    let mut corpus = NarrativeCorpus::new("book");
    let mut a1 = minimal_artifact(unit(Some("nadia"), Some("first_person")));
    a1.artifact_id = "s1".to_owned();
    a1.units[0].participant_states = vec![ParticipantStateRecord {
        objective_action: Some("flee".to_owned()),
        ..state("nadia", Some("afraid"), None)
    }];
    a1.units[0].structure = Some(StructureRecord {
        steps: Vec::new(),
        transition_values: None,
        semantic_fingerprint: Some("nadia flees".to_owned()),
        causal_role: Some("setup".to_owned()),
    });
    let mut a2 = minimal_artifact(unit(Some("omar"), Some("first_person")));
    a2.artifact_id = "s2".to_owned();
    a2.units[0].participants = vec!["omar".to_owned()];
    let mut a3 = minimal_artifact(unit(Some("omar"), Some("first_person")));
    a3.artifact_id = "s3".to_owned();
    let mut a4 = minimal_artifact(unit(Some("omar"), Some("first_person")));
    a4.artifact_id = "s4".to_owned();
    a4.units[0].participants = vec!["omar".to_owned()];
    a4.units[0].structure = Some(StructureRecord {
        steps: Vec::new(),
        transition_values: None,
        semantic_fingerprint: None,
        causal_role: Some("trigger".to_owned()),
    });
    corpus.add_artifact(a1);
    corpus.add_artifact(a2);
    corpus.add_artifact(a3);
    corpus.add_artifact(a4);

    let t = build_entity_trajectory_view(&corpus, "nadia");
    assert_eq!(t.view_type, "entity_trajectory");
    assert_eq!(t.points.len(), 2);
    assert_eq!(t.points[0].artifact_id, "s1");
    assert_eq!(t.points[0].emotional_state.as_deref(), Some("afraid"));
    assert_eq!(t.points[0].objective.as_deref(), Some("flee"));
    assert!(t.points[0].is_focalizer);
    assert_eq!(t.points[1].corpus_index, 2);
    assert!(!t.points[1].is_focalizer);

    let chain = build_causal_chain_view(&corpus);
    assert_eq!(chain.view_type, "causal_chain");
    assert_eq!(chain.nodes.len(), 4);
    assert_eq!(chain.nodes[0].causal_role.as_deref(), Some("setup"));
    assert_eq!(chain.nodes[0].fingerprint.as_deref(), Some("nadia flees"));
    assert!(chain.nodes[0].follows_from.is_empty());
    assert_eq!(chain.nodes[1].follows_from, vec!["s1".to_owned()]);
    assert_eq!(chain.nodes[2].follows_from, vec!["s2".to_owned()]);
    assert_eq!(chain.nodes[3].causal_role.as_deref(), Some("trigger"));
    assert!(chain.nodes[3].follows_from.is_empty());
}

#[test]
fn deeper_levels_keep_shallower_issues() {
    let mut u = unit(Some("house"), None);
    u.structure = Some(StructureRecord {
        steps: vec![StepRecord { agent: "nadia".to_owned(), essential: false }],
        transition_values: None,
        semantic_fingerprint: None,
        causal_role: None,
    });
    let artifact = minimal_artifact(u);
    let levels = [ConformanceLevel::Schema, ConformanceLevel::Referential, ConformanceLevel::RoundTrip];
    let codes: Vec<Vec<String>> = levels
        .iter()
        .map(|l| NarrativeValidator.validate(&artifact, *l).into_iter().map(|i| i.code).collect())
        .collect();
    assert_eq!(codes[0], vec!["NL1:POV_MISSING"]);
    assert_eq!(codes[1], vec!["NL1:POV_MISSING", "NL2:FOCALIZER_NOT_CHARACTER"]);
    assert_eq!(
        codes[2],
        vec!["NL1:POV_MISSING", "NL2:FOCALIZER_NOT_CHARACTER", "NL3:NO_ESSENTIAL_STEP"]
    );
    for w in codes.windows(2) {
        assert!(w[0].iter().all(|c| w[1].contains(c)));
    }
}
