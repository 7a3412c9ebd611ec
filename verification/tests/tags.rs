use cap_narrative_types::constraints::ConstraintGraph;
use cap_narrative_types::enums::{
    ArcType, ConsciousnessMode, DominantSense, DriveModel, GriceanMaxim, MotifStage, PostcolonialMode, PovType, PsychicDistance, RevisionFlag,
    SceneFunction, VoiceTone,
};
use cap_narrative_types::tag_parser::parse_tag_pairs;
use cap_narrative_types::tags::{
    annotation_to_pair, parse_annotation_comment, parse_thread_id, tokenize_pairs, Annotation,
    AnnotationChannel, AnnotationKey, EntityRef, ParagraphAnnotations, Tension, ThreadId,
};

fn owned_pairs(raw: &[(&str, &str)]) -> Vec<(String, String)> {
    raw.iter().map(|(k, v)| (k.to_string(), v.to_string())).collect()
}

#[test]
fn parse_psychic_distance() {
    let (anns, warns) = parse_annotation_comment("<!-- psychic_distance:3 -->");
    assert!(warns.is_empty());
    assert_eq!(anns.len(), 1);
    assert!(matches!(anns[0], Annotation::PsychicDistance(_)));
}

#[test]
fn parse_compound_motif() {
    let (anns, warns) = parse_annotation_comment("<!-- motif:water stage:payoff -->");
    assert!(warns.is_empty());
    let motif = anns.iter().find(|a| matches!(a, Annotation::Motif { .. }));
    assert!(motif.is_some(), "should have parsed a motif annotation");
    if let Some(Annotation::Motif { slug, stage }) = motif {
        assert_eq!(slug.slug, "water");
        assert_eq!(*stage, Some(MotifStage::Payoff));
    }
}

#[test]
fn parse_out_of_range_tension() {
    let (anns, warns) = parse_annotation_comment("<!-- tension:11 -->");
    assert!(anns.is_empty());
    assert!(!warns.is_empty());
}

#[test]
fn parse_flag() {
    let (anns, warns) = parse_annotation_comment("<!-- flag:telling_not_showing -->");
    assert!(warns.is_empty());
    assert_eq!(anns.len(), 1);
    assert!(matches!(anns[0], Annotation::Flag(RevisionFlag::TellingNotShowing)));
}

#[test]
fn out_of_range_tension_warning_text() {
    let (_, warns) = parse_annotation_comment("<!-- tension:11 -->");
    assert_eq!(warns, vec!["Tension must be 1–10, got 11".to_string()]);
    let (_, warns) = parse_annotation_comment("<!-- psychic_distance:0 -->");
    assert_eq!(warns, vec!["PsychicDistance must be 1–5, got 0".to_string()]);
}

#[test]
fn unknown_and_invalid_values_warn() {
    let (anns, warns) = parse_annotation_comment("<!-- pov:sideways tension:high chapter:x -->");
    assert!(anns.is_empty());
    assert_eq!(
        warns,
        vec![
            "invalid tension: \"high\"".to_string(),
            "invalid chapter number: \"x\"".to_string(),
            "unknown pov: \"sideways\"".to_string(),
        ]
    );
}

#[test]
fn annotations_come_in_key_order() {
    let (anns, warns) =
        parse_annotation_comment("<!-- pov:first_person character:nadia tension:7 -->");
    assert!(warns.is_empty());
    assert_eq!(anns.len(), 3);
    assert_eq!(anns[0], Annotation::Character(EntityRef::new("nadia")));
    assert!(matches!(anns[1], Annotation::Tension(t) if t.value() == 7));
    assert_eq!(anns[2], Annotation::Pov(PovType::FirstPerson));
}

#[test]
fn later_value_of_a_key_wins() {
    let (anns, _) = parse_annotation_comment("<!-- tension:3 tension:9 -->");
    assert_eq!(anns.len(), 1);
    assert!(matches!(anns[0], Annotation::Tension(t) if t.value() == 9));
}

#[test]
fn quoted_values_keep_spaces() {
    let (anns, warns) = parse_annotation_comment("<!-- subtext:\"what she never said\" -->");
    assert!(warns.is_empty());
    assert_eq!(anns, vec![Annotation::Subtext("what she never said".to_string())]);
}

#[test]
fn alias_keys_are_canonicalized() {
    let pairs = tokenize_pairs("Characters: nadia  location:harbor");
    assert_eq!(
        pairs,
        owned_pairs(&[("character", "nadia"), ("setting", "harbor")])
    );
}

#[test]
fn tokenize_skips_empty_keys_and_values() {
    let pairs = tokenize_pairs(":x a: b:\"\" c:d");
    assert_eq!(pairs, owned_pairs(&[("a", "b:\"\""), ("c", "d")]));
    assert!(tokenize_pairs("no colon here").is_empty());
}

#[test]
fn motif_stage_stays_unset_when_unknown() {
    let (anns, warns) = parse_annotation_comment("<!-- motif:rain stage:later -->");
    assert_eq!(warns, vec!["unknown stage: \"later\"".to_string()]);
    assert_eq!(
        anns,
        vec![Annotation::Motif { slug: EntityRef::new("rain"), stage: None }]
    );
}

#[test]
fn drive_model_tags_read_back() {
    let (anns, warns) = parse_annotation_comment("<!-- drive_model:wound -->");
    assert!(warns.is_empty());
    assert_eq!(anns, vec![Annotation::DriveModel(DriveModel::Wound)]);
    let a = Annotation::DriveModel(DriveModel::Wound);
    assert_eq!(annotation_to_pair(&a), Some(("drive_model".to_string(), "wound".to_string())));
    let (_, warns) = parse_annotation_comment("<!-- drive_model:nope -->");
    assert_eq!(warns, vec!["unknown drive_model: \"nope\"".to_string()]);
}

#[test]
fn chapter_numbers_parse() {
    let (anns, _) = parse_annotation_comment("<!-- chapter:+12 -->");
    assert_eq!(anns, vec![Annotation::Chapter { number: 12, title: None }]);
}

#[test]
fn thread_ids() {
    assert_eq!(parse_thread_id("main"), ThreadId::Main);
    assert_eq!(parse_thread_id("frame_narrator"), ThreadId::FrameNarrator);
    assert_eq!(parse_thread_id("embedded_story"), ThreadId::EmbeddedStory);
    assert_eq!(parse_thread_id("subplot_heist"), ThreadId::Subplot("heist".to_string()));
    assert_eq!(parse_thread_id("subplot_subplot_x"), ThreadId::Subplot("subplot_x".to_string()));
    assert_eq!(parse_thread_id("dual_pov_ana"), ThreadId::DualPov("ana".to_string()));
    assert_eq!(parse_thread_id("other"), ThreadId::Custom("other".to_string()));
    assert_eq!(ThreadId::Subplot("heist".to_string()).text(), "subplot_heist");
}

#[test]
fn thread_text_reads_back() {
    let threads = vec![
        ThreadId::Main,
        ThreadId::FrameNarrator,
        ThreadId::EmbeddedStory,
        ThreadId::Subplot("heist".to_string()),
        ThreadId::DualPov("ana".to_string()),
        ThreadId::Subplot("subplot_a".to_string()),
        ThreadId::DualPov("dual_pov_b".to_string()),
        ThreadId::Custom("b_plot".to_string()),
    ];
    for t in threads {
        assert_eq!(parse_thread_id(&t.text()), t);
    }
    // A custom name that is also a reserved name reads back as the reserved thread.
    assert_eq!(parse_thread_id(&ThreadId::Custom("main".to_string()).text()), ThreadId::Main);
}

#[test]
fn parse_tag_pairs_reads_known_keys() {
    let pairs = owned_pairs(&[("postcolonial", "hybridity"), ("sense", "nope"), ("zzz", "1")]);
    let (anns, warns) = parse_tag_pairs(&pairs);
    assert_eq!(anns, vec![Annotation::PostcolonialMode(PostcolonialMode::Hybridity)]);
    assert_eq!(warns, vec!["unknown sense: \"nope\"".to_string()]);
}

#[test]
fn annotation_pairs() {
    let pd = PsychicDistance::new(4).unwrap();
    assert_eq!(
        annotation_to_pair(&Annotation::PsychicDistance(pd)),
        Some(("psychic_distance".to_string(), "4".to_string()))
    );
    assert_eq!(
        annotation_to_pair(&Annotation::Thread(ThreadId::DualPov("b".to_string()))),
        Some(("thread".to_string(), "dual_pov_b".to_string()))
    );
    assert_eq!(
        annotation_to_pair(&Annotation::SceneType(SceneFunction::Climax)),
        Some(("scene_type".to_string(), "climax".to_string()))
    );
    assert_eq!(
        annotation_to_pair(&Annotation::Pov(PovType::SecondPerson)),
        Some(("pov".to_string(), "second_person".to_string()))
    );
    assert_eq!(annotation_to_pair(&Annotation::Speaker { name: "x".to_string() }), None);
    assert_eq!(PovType::FirstPerson.to_pair(), ("pov".to_string(), "first_person".to_string()));
}

#[test]
fn channels() {
    assert_eq!(Annotation::Pov(PovType::FirstPerson).channel(), AnnotationChannel::Craft);
    assert!(Annotation::Character(EntityRef::new("a")).is_context());
    assert!(Annotation::PostcolonialMode(PostcolonialMode::Hybridity).is_theory());
    assert!(Annotation::Flag(RevisionFlag::TellingNotShowing).is_governance());
    assert!(!Annotation::Flag(RevisionFlag::TellingNotShowing).is_craft());
    assert_eq!(Annotation::DominantSense(DominantSense::Visual).channel(), AnnotationChannel::Craft);
    assert_eq!(<DominantSense as AnnotationKey>::channel(), AnnotationChannel::Craft);
    assert_eq!(Annotation::GriceanMaxim(GriceanMaxim::Quality).channel(), AnnotationChannel::Theory);
    assert_eq!(<GriceanMaxim as AnnotationKey>::channel(), AnnotationChannel::Theory);
}

#[test]
fn extras_split_by_channel() {
    let mut pa = ParagraphAnnotations::default();
    pa.extra = vec![
        Annotation::PostcolonialMode(PostcolonialMode::Hybridity),
        Annotation::Flag(RevisionFlag::TellingNotShowing),
        Annotation::GriceanMaxim(GriceanMaxim::Quality),
        Annotation::DominantSense(DominantSense::Visual),
    ];
    let governance = pa.extra.iter().filter(|a| a.is_governance()).count();
    assert_eq!(pa.context_extras().len(), 0);
    assert_eq!(pa.craft_extras().len(), 1);
    assert_eq!(pa.theory_extras().len(), 2);
    assert_eq!(
        pa.context_extras().len() + pa.craft_extras().len() + pa.theory_extras().len() + governance,
        pa.extra.len()
    );
}

#[test]
fn tension_bounds() {
    assert!(Tension::new(0).is_err());
    assert_eq!(Tension::new(10).unwrap().value(), 10);
    assert_eq!(Tension::new(11).unwrap_err(), "Tension must be 1–10, got 11");
}

#[test]
fn paragraph_routing_keeps_last_value() {
    let anns = vec![
        Annotation::Tension(Tension::new(2).unwrap()),
        Annotation::Flag(RevisionFlag::TellingNotShowing),
        Annotation::Motif { slug: EntityRef::new("water"), stage: Some(MotifStage::Payoff) },
        Annotation::Tension(Tension::new(8).unwrap()),
        Annotation::Motif { slug: EntityRef::new("fire"), stage: None },
        Annotation::PostcolonialMode(PostcolonialMode::Hybridity),
        Annotation::Tone(VoiceTone::Tense),
    ];
    let pa = ParagraphAnnotations::from_annotations(&anns);
    assert_eq!(pa.tension.map(|t| t.value()), Some(8));
    assert_eq!(pa.flags, vec![RevisionFlag::TellingNotShowing]);
    assert_eq!(pa.motif, Some(EntityRef::new("fire")));
    assert_eq!(pa.motif_stage, Some(MotifStage::Payoff));
    assert_eq!(pa.tone, Some(VoiceTone::Tense));
    assert_eq!(pa.extra, vec![Annotation::PostcolonialMode(PostcolonialMode::Hybridity)]);
    assert_eq!(pa.theory_annotations().len(), 1);
    assert!(pa.craft_extras().is_empty());
    assert!(pa.context_extras().is_empty());
    assert_eq!(pa.theory_extras().len(), 1);
}

#[test]
fn paragraph_pairs_use_parser_keys() {
    let anns = vec![
        Annotation::DominantSense(DominantSense::Visual),
        Annotation::Arc(ArcType::Flat),
    ];
    let pa = ParagraphAnnotations::from_annotations(&anns);
    assert_eq!(pa.to_constraint_pairs(), owned_pairs(&[("sense", "visual"), ("arc", "flat")]));
    let (parsed, warns) = parse_annotation_comment("<!-- sense:visual arc:flat -->");
    assert!(warns.is_empty());
    assert_eq!(ParagraphAnnotations::from_annotations(&parsed).to_constraint_pairs(), pa.to_constraint_pairs());
}

#[test]
fn paragraph_constraint_pairs() {
    let anns = vec![
        Annotation::PsychicDistance(PsychicDistance::new(5).unwrap()),
        Annotation::Consciousness(ConsciousnessMode::QuotedMonologue),
        Annotation::PostcolonialMode(PostcolonialMode::Hybridity),
        Annotation::Speaker { name: "nadia".to_string() },
    ];
    let pa = ParagraphAnnotations::from_annotations(&anns);
    assert_eq!(
        pa.to_constraint_pairs(),
        owned_pairs(&[
            ("psychic_distance", "5"),
            ("consciousness", "quoted_monologue"),
            ("postcolonial", "hybridity"),
        ])
    );
    let graph = ConstraintGraph::default();
    let viols = graph.validate_paragraph(&pa);
    assert!(viols.iter().any(|v| v.constraint_id == "pd5_excludes_quoted_monologue"));
    let scene = graph.validate_scene_annotations(&[ParagraphAnnotations::default(), pa.clone()]);
    assert!(scene.iter().any(|v| v.constraint_id == "para_1/pd5_excludes_quoted_monologue"));
    assert!(scene.iter().all(|v| v.constraint_id.starts_with("para_1/")));
    assert_eq!(
        ConstraintGraph::pairs_from_extra(&pa.extra),
        owned_pairs(&[("postcolonial", "hybridity")])
    );
}

#[test]
fn entity_ref_from_string() {
    let r: EntityRef = EntityRef::from("nadia".to_string());
    assert_eq!(r, EntityRef::new("nadia"));
    assert_eq!(r.to_string(), "nadia");
}

#[test]
fn try_parse_reports_unclosed_quotes() {
    use_try_parse();
}

fn use_try_parse() {
    assert!(cap_narrative_types::tags::try_parse_annotation_comment("<!-- beat:\"open -->").is_none());
    assert!(cap_narrative_types::tags::try_tokenize_pairs("beat:\"open").is_none());
    let got = cap_narrative_types::tags::try_parse_annotation_comment("<!-- psychic_distance:3 -->").unwrap();
    assert_eq!(got, parse_annotation_comment("<!-- psychic_distance:3 -->"));
    assert_eq!(
        cap_narrative_types::tags::try_tokenize_pairs(" a:\"x y\" b:z ").unwrap(),
        vec![("a".to_string(), "x y".to_string()), ("b".to_string(), "z".to_string())]
    );
}

#[test]
fn unspaced_comment_delimiters() {
    let (anns, warns) = parse_annotation_comment("<!--flag:telling_not_showing-->");
    assert!(warns.is_empty());
    assert_eq!(anns, vec![Annotation::Flag(RevisionFlag::TellingNotShowing)]);
    let (anns, warns) = parse_annotation_comment("<!--psychic_distance:2 tension:7-->");
    assert!(warns.is_empty());
    assert_eq!(anns.len(), 2);
}

#[test]
fn rendered_comments_read_back_exactly() {
    let anns = vec![
        Annotation::Character(EntityRef::new("nadia")),
        Annotation::DriveModel(DriveModel::Wound),
        Annotation::DominantSense(DominantSense::Visual),
        Annotation::GriceanMaxim(GriceanMaxim::Quality),
        Annotation::Arc(ArcType::Flat),
        Annotation::PsychicDistance(PsychicDistance::new(4).unwrap()),
        Annotation::Tension(Tension::new(9).unwrap()),
        Annotation::Flag(RevisionFlag::TellingNotShowing),
        Annotation::Thread(ThreadId::Subplot("subplot_a".to_string())),
    ];
    for a in anns {
        let (k, v) = annotation_to_pair(&a).unwrap();
        let raw = format!("<!-- {k}:{v} -->");
        assert_eq!(parse_annotation_comment(&raw), (vec![a], Vec::<String>::new()));
    }
}
