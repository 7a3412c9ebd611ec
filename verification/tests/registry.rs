use cap_narrative_types::catalogs::{
    split_legacy_roles_catalog, ArchetypeCatalogEntry, DriveCatalogEntry, IncitingIncidentCategory,
    IncitingIncidentEntry, IncitingIncidentsCatalog, RoleCatalogEntry, WoundCatalogEntry,
};
use cap_narrative_types::entities::{Character, Chapter, EntityRegistry, Scene};
use cap_narrative_types::enums::{Archetype, DriveModel, PromiseStatus, Role, Wound};
use cap_narrative_types::entities::{Leitmotif, Promise, Symbol, Thread};
use cap_narrative_types::tags::EntityRef;
use cap_narrative_types::voice::{TtsVoiceProfile, VoiceContract, VoiceSignature};

fn character(id: &str) -> Character {
    Character {
        id: id.to_owned(),
        name: id.to_owned(),
        slot: None,
        archetype: None,
        wound: None,
        alignment: None,
        role: None,
        drive_model: None,
        arc_type: None,
        actant: None,
        ghost_origin: None,
        want: None,
        need: None,
        flaw: None,
        voice_signature: None,
    }
}

fn scene(id: &str, pov: Option<&str>, attending: &[&str], setting: Option<&str>) -> Scene {
    Scene {
        id: id.to_owned(),
        working_title: None,
        story_position: None,
        pov_character: pov.map(EntityRef::new),
        attending_characters: attending.iter().map(|s| EntityRef::new(s)).collect(),
        setting: setting.map(EntityRef::new),
        time_of_day: None,
        weather: None,
        goal: None,
        why_goal_matters: None,
        plan: None,
        opponent_or_obstacle: None,
        conflict_type: Vec::new(),
        escalation_beats: Vec::new(),
        dialogue_strategy: None,
        action_strategy: None,
        emotional_escalation: None,
        outcome_type: None,
        what_changed: None,
        new_information: None,
        plant_or_setup: None,
        sequel: None,
        dominant_sense: None,
        key_sensory_details: Vec::new(),
        emotional_weather: None,
        scene_unique_image: None,
        pacing_notes: None,
        target_word_count: None,
        complexity: None,
        priority: None,
        narrative_threads: Vec::new(),
        sequence_id: None,
        scene_type: None,
        tension_level: None,
    }
}

fn chapter(id: &str, pov: &[&str], beats: &[&str]) -> Chapter {
    Chapter {
        id: id.to_owned(),
        number: 1,
        title: None,
        word_count_target: None,
        pov_characters: pov.iter().map(|s| EntityRef::new(s)).collect(),
        time_and_setting: None,
        story_position_pct: None,
        act_section: None,
        beats_covered: beats.iter().map(|s| EntityRef::new(s)).collect(),
        scenes: Vec::new(),
        plot_goals: Vec::new(),
        character_goals: Vec::new(),
        information_goals: Vec::new(),
        thematic_goals: Vec::new(),
        must_include: Vec::new(),
        must_avoid: Vec::new(),
        continuity_notes: Vec::new(),
        assessment: None,
    }
}

#[test]
fn registry_resolves_and_validates_refs() {
    let mut reg = EntityRegistry::new();
    reg.characters.push(("nadia".to_owned(), character("nadia")));
    assert_eq!(reg.resolve_character(&EntityRef::new("nadia")).unwrap().id, "nadia");
    assert!(reg.resolve_character(&EntityRef::new("omar")).is_none());
    assert!(reg.validate_refs().is_empty());

    reg.scenes.push(("s1".to_owned(), scene("s1", Some("omar"), &["nadia", "zed"], Some("moon"))));
    reg.chapters.push(("c1".to_owned(), chapter("c1", &["nadia"], &["midpoint"])));
    assert_eq!(
        reg.validate_refs(),
        vec![
            "scene 's1': pov_character 'omar' not in registry".to_owned(),
            "scene 's1': attending character 'zed' not in registry".to_owned(),
            "scene 's1': setting 'moon' not in registry".to_owned(),
            "chapter 'c1': beat 'midpoint' not in registry".to_owned(),
        ]
    );
    assert!(reg.resolve_scene(&EntityRef::new("s1")).is_some());
    assert!(reg.resolve_chapter(&EntityRef::new("c1")).is_some());
    assert!(reg.resolve_setting(&EntityRef::new("moon")).is_none());
    assert!(reg.resolve_beat(&EntityRef::new("midpoint")).is_none());
    assert!(reg.resolve_motif(&EntityRef::new("water")).is_none());
    assert!(reg.resolve_leitmotif(&EntityRef::new("water")).is_none());
}

#[test]
fn every_entity_reference_is_checked() {
    let mut reg = EntityRegistry::new();
    reg.leitmotifs.push((
        "lm".to_owned(),
        Leitmotif {
            id: "lm".to_owned(),
            character: EntityRef::new("ghost"),
            associated_element: "bells".to_owned(),
            introduced_in: None,
            appears_in: Vec::new(),
            emotional_function: None,
        },
    ));
    assert_eq!(reg.validate_refs(), vec!["leitmotif 'lm': character 'ghost' not in registry".to_owned()]);

    reg.characters.push(("ghost".to_owned(), character("ghost")));
    reg.threads.push((
        "t1".to_owned(),
        Thread {
            id: "t1".to_owned(),
            label: "Heist".to_owned(),
            characters: vec![EntityRef::new("ghost"), EntityRef::new("omar")],
            description: None,
        },
    ));
    reg.symbols.push((
        "sym".to_owned(),
        Symbol {
            id: "sym".to_owned(),
            object_or_image: "key".to_owned(),
            literal_meaning: None,
            symbolic_meaning: None,
            key_scenes: vec![EntityRef::new("s9")],
            when_established: None,
        },
    ));
    let mut s1 = scene("s1", None, &[], None);
    s1.narrative_threads = vec![EntityRef::new("t1"), EntityRef::new("t2")];
    reg.scenes.push(("s1".to_owned(), s1));
    reg.promises.push((
        "p".to_owned(),
        Promise {
            id: "p".to_owned(),
            question: "Who?".to_owned(),
            phase: None,
            status: PromiseStatus::Open,
            planted_in: Some(EntityRef::new("s1")),
            paid_off_in: Some(EntityRef::new("s2")),
        },
    ));
    assert_eq!(
        reg.validate_refs(),
        vec![
            "scene 's1': narrative thread 't2' not in registry".to_owned(),
            "symbol 'sym': key scene 's9' not in registry".to_owned(),
            "thread 't1': character 'omar' not in registry".to_owned(),
            "promise 'p': paid_off_in scene 's2' not in registry".to_owned(),
        ]
    );
}

#[test]
fn entity_refs_use_ids() {
    assert_eq!(character("nadia").entity_ref(), EntityRef::new("nadia"));
    assert_eq!(scene("s9", None, &[], None).entity_ref().slug, "s9");
    let p = Promise {
        id: "who_did_it".to_owned(),
        question: "Who did it?".to_owned(),
        phase: None,
        status: PromiseStatus::Open,
        planted_in: None,
        paid_off_in: None,
    };
    assert_eq!(p.entity_ref().slug, "who_did_it");
}

#[test]
fn catalog_slugs_name_terms() {
    let a = ArchetypeCatalogEntry {
        slug: "hero".to_owned(),
        name: "Hero".to_owned(),
        family: None,
        structural_function: None,
        core_desire: None,
        core_fear: None,
        story_role: None,
        typical_arc_pattern: None,
        shadow_form: None,
        strengths: Vec::new(),
        weaknesses: Vec::new(),
        common_surface_expressions: Vec::new(),
        romance_affinity: Vec::new(),
    };
    assert_eq!(a.archetype(), Some(Archetype::Hero));
    let mut b = a.clone();
    b.slug = "nobody".to_owned();
    assert_eq!(b.archetype(), None);
    let r = RoleCatalogEntry {
        slug: "protagonist".to_owned(),
        name: "Protagonist".to_owned(),
        structural_function: None,
        max_per_story: None,
        min_per_story: None,
        required: None,
        relationship_to_plot: None,
        typical_archetype_affinity: Vec::new(),
        notes: None,
    };
    assert_eq!(r.role(), Some(Role::Protagonist));
    let d = DriveCatalogEntry {
        slug: "desire".to_owned(),
        name: "Desire".to_owned(),
        source_theory: Vec::new(),
        summary: None,
        fields: Vec::new(),
        arc_template: None,
        genre_affinity: Vec::new(),
        limitations: None,
        canonical_examples: Vec::new(),
    };
    assert_eq!(d.drive_model(), Some(DriveModel::Desire));
    let wound = WoundCatalogEntry {
        slug: "abandonment".to_owned(),
        name: "Abandonment".to_owned(),
        category: None,
        description: None,
        lie_template: None,
        need_template: None,
        want_template: None,
        behavioral_patterns: Vec::new(),
        ghost_event_examples: Vec::new(),
        archetype_affinity: Vec::new(),
        alignment_tendency: Vec::new(),
        genre_affinity: Vec::new(),
        romance_tension: None,
    };
    assert_eq!(wound.wound(), Some(Wound::Abandonment));
}

fn incident(slug: &str) -> IncitingIncidentEntry {
    IncitingIncidentEntry {
        slug: slug.to_owned(),
        name: slug.to_owned(),
        description: None,
        collision_affinity: Vec::new(),
        compatible_plot_types: Vec::new(),
        compatible_collision_patterns: Vec::new(),
    }
}

#[test]
fn all_incidents_flattens_categories() {
    let catalog = IncitingIncidentsCatalog {
        categories: vec![
            (
                "loss".to_owned(),
                IncitingIncidentCategory { description: None, incidents: vec![incident("death"), incident("exile")] },
            ),
            ("empty".to_owned(), IncitingIncidentCategory { description: None, incidents: Vec::new() }),
            ("gain".to_owned(), IncitingIncidentCategory { description: None, incidents: vec![incident("windfall")] }),
        ],
    };
    let slugs: Vec<&str> = catalog.all_incidents().iter().map(|e| e.slug.as_str()).collect();
    assert_eq!(slugs, vec!["death", "exile", "windfall"]);
}

#[test]
fn legacy_roles_catalog_split() {
    let content = "- slug: mentor\n  name: Mentor\ndynamics:\n  - power\n";
    let (roles, dynamics) = split_legacy_roles_catalog(content).unwrap();
    assert_eq!(roles, "- slug: mentor\n  name: Mentor");
    assert_eq!(dynamics, "dynamics:\n  - power\n");
    assert!(split_legacy_roles_catalog("roles: []\n").is_none());
}

#[test]
fn voice_contract_lookup() {
    let mut contract = VoiceContract::default();
    let sig = VoiceSignature { character_id: "nadia".to_owned(), ..Default::default() };
    contract.character_signatures.push(("nadia".to_owned(), sig.clone()));
    assert_eq!(contract.voice_signature("nadia"), Some(&sig));
    assert!(contract.voice_signature("omar").is_none());
}

#[test]
fn tts_profile_default() {
    let p = TtsVoiceProfile::default();
    assert_eq!(p.name, "");
    assert_eq!(p.language, "en");
    assert_eq!(p.fallback_tone, "neutral");
    assert!(p.reference_wavs.is_empty());
    assert!(p.character_ref.is_none());
    assert!(p.checkpoint.is_none());
}

#[test]
fn catalog_slug_checks() {
    let slugs = cap_narrative_types::catalogs::CatalogSlugs {
        plot_types: vec!["quest".to_owned(), "rebirth".to_owned()],
        collision_patterns: vec!["triangle".to_owned()],
        tropes: Vec::new(),
    };
    assert!(slugs.validate_plot_type_slug("rebirth"));
    assert!(!slugs.validate_plot_type_slug("Quest"));
    assert!(slugs.validate_collision_pattern_slug("triangle"));
    assert!(!slugs.validate_trope_slug("triangle"));
}
