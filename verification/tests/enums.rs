use cap_narrative_types::enums::{
    CulturalStructure, MarxistNarrativeMode, PsychicDistance, SentenceArchitecture, SentenceType,
    Wound, WoundCategory,
};
use cap_narrative_types::vocabulary::SnakeName;

#[test]
fn psychic_distance_range() {
    assert_eq!(PsychicDistance::new(1).unwrap().value(), 1);
    assert_eq!(PsychicDistance::new(5).unwrap().value(), 5);
    assert_eq!(PsychicDistance::new(0).unwrap_err(), "PsychicDistance must be 1–5, got 0");
    assert_eq!(PsychicDistance::new(6).unwrap_err(), "PsychicDistance must be 1–5, got 6");
    assert_eq!(PsychicDistance::new(200).unwrap_err(), "PsychicDistance must be 1–5, got 200");
}

#[test]
fn wound_categories() {
    assert_eq!(Wound::Abandonment.category(), WoundCategory::Abandonment);
    assert_eq!(Wound::ParentalAbandonment.category(), WoundCategory::Abandonment);
    assert_eq!(Wound::SocialExile.category(), WoundCategory::Displacement);
    assert_eq!(Wound::InstitutionalBetrayal.category(), WoundCategory::Betrayal);
    assert_eq!(Wound::IdentityShame.category(), WoundCategory::Shame);
    assert_eq!(Wound::MoralCompromise.category(), WoundCategory::GuiltAndFailure);
    assert_eq!(Wound::Smothering.category(), WoundCategory::Powerlessness);
}

#[test]
fn sentence_architecture() {
    assert_eq!(SentenceType::Additive.architecture(), SentenceArchitecture::Additive);
    assert_eq!(SentenceType::Subordinative.architecture(), SentenceArchitecture::Subordinative);
    assert_eq!(SentenceType::Periodic.architecture(), SentenceArchitecture::Mixed);
    assert_eq!(SentenceType::Fragment.architecture(), SentenceArchitecture::Mixed);
    assert_eq!(SentenceArchitecture::from(SentenceType::Cumulative), SentenceArchitecture::Mixed);
}

#[test]
fn cultural_structure_and_marxist_mode() {
    assert_eq!(
        MarxistNarrativeMode::DominantStructure.as_cultural_structure(),
        Some(CulturalStructure::Dominant)
    );
    assert_eq!(
        MarxistNarrativeMode::EmergentStructure.as_cultural_structure(),
        Some(CulturalStructure::Emergent)
    );
    assert_eq!(MarxistNarrativeMode::Reification.as_cultural_structure(), None);
    for c in [CulturalStructure::Dominant, CulturalStructure::Residual, CulturalStructure::Emergent] {
        assert_eq!(MarxistNarrativeMode::from(c).as_cultural_structure(), Some(c));
    }
}

#[test]
fn snake_case_names() {
    assert_eq!(Wound::ParentalAbandonment.name(), "parental_abandonment");
    assert_eq!(Wound::from_name("parental_abandonment"), Some(Wound::ParentalAbandonment));
    assert_eq!(Wound::from_name("Parental_Abandonment"), None);
    assert_eq!(SentenceType::AbsolutePhrase.name(), "absolute_phrase");
    assert_eq!(SentenceType::from_name("absolute_phrase"), Some(SentenceType::AbsolutePhrase));
    assert_eq!(SentenceType::from_name(""), None);
}
