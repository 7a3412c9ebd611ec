use cap_narrative_types::constraints::{
    ConstraintGraph, ConstraintKind, ConstraintSeverity, TagConstraint, TagPredicate,
};

fn pairs<'a>(raw: &'a [(&'a str, &'a str)]) -> Vec<(&'a str, &'a str)> {
    raw.to_vec()
}

#[test]
fn pd5_excludes_quoted_monologue_fires() {
    let graph = ConstraintGraph::default();
    let tags = pairs(&[("psychic_distance", "5"), ("consciousness", "quoted_monologue")]);
    let viols = graph.errors(&tags);
    assert!(
        viols.iter().any(|v| v.constraint_id == "pd5_excludes_quoted_monologue"),
        "expected pd5_excludes_quoted_monologue violation"
    );
}

#[test]
fn pd5_and_psychonarration_is_clean() {
    let graph = ConstraintGraph::default();
    let tags = pairs(&[("psychic_distance", "5"), ("consciousness", "psychonarration")]);
    let errors = graph.errors(&tags);
    assert!(errors.is_empty(), "pd5 + psychonarration should produce no errors");
}

#[test]
fn speech_act_without_character_is_error() {
    let graph = ConstraintGraph::default();
    let tags = pairs(&[("speech_act", "directive")]);
    let errors = graph.errors(&tags);
    assert!(
        errors.iter().any(|v| v.constraint_id == "speech_act_requires_character"),
        "speech_act without character should be an error"
    );
}

#[test]
fn speech_act_with_character_is_clean() {
    let graph = ConstraintGraph::default();
    let tags = pairs(&[("speech_act", "directive"), ("character", "alice")]);
    let errors = graph.errors(&tags);
    assert!(errors.is_empty());
}

#[test]
fn autofiction_implies_first_person_warning() {
    let graph = ConstraintGraph::default();
    let tags = pairs(&[("pact", "autofictional")]);
    let warns = graph.warnings(&tags);
    assert!(
        warns.iter().any(|v| v.constraint_id == "autofiction_implies_first_person"),
        "autofiction without pov should warn"
    );
}

#[test]
fn pd1_with_correct_consciousness_no_pd5_violation() {
    let graph = ConstraintGraph::default();
    let tags = pairs(&[("psychic_distance", "1"), ("consciousness", "narrated_monologue")]);
    let errors = graph.errors(&tags);
    // pd5 excludes should NOT fire for pd1
    assert!(
        !errors.iter().any(|v| v.constraint_id.starts_with("pd5")),
        "pd5 constraints should not fire for pd1"
    );
}

#[test]
fn custom_constraint_push() {
    let mut graph = ConstraintGraph::new();
    graph.push(TagConstraint {
        id: "custom_test".into(),
        kind: ConstraintKind::Excludes,
        antecedent: TagPredicate::exact("pov", "first_person"),
        consequent: TagPredicate::exact("pov", "third_person_omniscient"),
        severity: ConstraintSeverity::Error,
        rationale: "Cannot have two POV modes simultaneously.".into(),
        theory_source: None,
    });
    let tags = pairs(&[("pov", "first_person"), ("pov", "third_person_omniscient")]);
    let errors = graph.errors(&tags);
    assert!(errors.iter().any(|v| v.constraint_id == "custom_test"));
}

// ── Further scenarios ─────────────────────────────────────────────────────────

#[test]
fn seed_graph_has_twenty_constraints() {
    let graph = ConstraintGraph::new();
    assert_eq!(graph.constraints.len(), 20);
    assert_eq!(graph.constraints[0].id, "pd1_implies_consciousness");
    assert_eq!(graph.constraints[19].id, "visual_verbal_requires_panel_transition");
}

#[test]
fn implies_message_and_related_tag() {
    let graph = ConstraintGraph::new();
    let tags = pairs(&[("pact", "autofictional"), ("pov", "third_person_limited")]);
    let warns = graph.warnings(&tags);
    assert_eq!(warns.len(), 1);
    let w = &warns[0];
    assert_eq!(w.kind, ConstraintKind::Implies);
    assert_eq!(w.severity, ConstraintSeverity::Warning);
    assert_eq!(w.triggering_tag, ("pact".to_string(), "autofictional".to_string()));
    assert_eq!(w.related_tag, ("pov".to_string(), "first_person".to_string()));
    assert_eq!(
        w.message,
        "Tag 'pact:autofictional' implies 'pov:first_person' should also be set — \
         Autofictional pact (Doubrovsky/Lejeune) conventionally uses first-person narration."
    );
}

#[test]
fn requires_message_has_empty_related_value() {
    let graph = ConstraintGraph::new();
    let tags = pairs(&[("propp", "villainy")]);
    let errors = graph.errors(&tags);
    assert_eq!(errors.len(), 1);
    assert_eq!(errors[0].constraint_id, "propp_requires_beat");
    assert_eq!(errors[0].related_tag, ("beat".to_string(), String::new()));
    assert!(errors[0].message.starts_with("Tag 'propp:villainy' requires 'beat' to also be set — "));
}

#[test]
fn excludes_reports_each_conflicting_pair() {
    let graph = ConstraintGraph::new();
    let tags = pairs(&[
        ("psychic_distance", "5"),
        ("consciousness", "quoted_monologue"),
        ("consciousness", "narrated_monologue"),
    ]);
    let errors = graph.errors(&tags);
    let ids: Vec<&str> = errors.iter().map(|v| v.constraint_id.as_str()).collect();
    assert_eq!(ids, vec!["pd5_excludes_quoted_monologue", "pd5_excludes_narrated_monologue"]);
    assert_eq!(
        errors[0].message,
        "Tags 'psychic_distance:5' and 'consciousness:quoted_monologue' are incompatible — \
         Psychic distance 5 (panoramic/summary) is incompatible with quoted_monologue \
         (direct interior speech — a close interiority marker)."
    );
}

#[test]
fn correlates_never_reports() {
    let graph = ConstraintGraph::new();
    let tags = pairs(&[("tension", "9")]);
    let all = graph.validate(&tags);
    assert!(all.is_empty());
}

#[test]
fn errors_and_warnings_split_validation() {
    let graph = ConstraintGraph::new();
    let tags = pairs(&[("psychic_distance", "1"), ("speech_act", "directive"), ("gaze", "male_gaze")]);
    let all = graph.validate(&tags);
    let errors = graph.errors(&tags);
    let warnings = graph.warnings(&tags);
    assert_eq!(all.len(), errors.len() + warnings.len());
    assert!(errors.iter().all(|v| v.severity == ConstraintSeverity::Error));
    assert!(warnings.iter().all(|v| v.severity == ConstraintSeverity::Warning));
    // pd1 → consciousness, pd1 → pov, male gaze → feminist
    assert_eq!(warnings.len(), 3);
    // speech act and gaze both need a character
    assert_eq!(errors.len(), 2);
}

#[test]
fn get_finds_constraint_by_id() {
    let graph = ConstraintGraph::new();
    let c = graph.get("gaze_requires_character").expect("seed constraint");
    assert_eq!(c.kind, ConstraintKind::Requires);
    assert_eq!(c.consequent, TagPredicate::key("character"));
    assert!(graph.get("no_such_rule").is_none());
}

#[test]
fn predicate_matching() {
    let any = TagPredicate::key("pov");
    let exact = TagPredicate::exact("pov", "first_person");
    assert!(any.matches("pov", "second_person"));
    assert!(exact.matches("pov", "first_person"));
    assert!(!exact.matches("pov", "second_person"));
    assert!(!any.matches("gaze", "first_person"));
}
