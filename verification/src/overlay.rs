//! The narrative profile's overlay types: the narrative-specific shapes of
//! the context, grouping, interpretation and participant layers of a CAP
//! artifact.  Open-ended JSON sections are held as JSON text.

use vstd::prelude::*;

verus! {

/// Typed form of `unit.observables.context` for the GBR narrative profile.
///
/// All fields are optional; unknown fields are ignored during deserialization.
/// (PROFILE.md §5, §7.3)
#[derive(Debug, Clone, PartialEq, Eq, Default)]
pub struct NarrativeContext {
    /// The character that perceives and filters the unit (entity ref slug).
    pub focalizer: Option<String>,
    /// Point-of-view type (PROFILE.md §5, `narrative_voice.json → pov_type`).
    pub pov: Option<String>,
    /// Genette diegetic level (e.g. `"extradiegetic"`, `"intradiegetic"`).
    pub diegetic_level: Option<String>,
    /// Location entity ref slug.
    pub setting: Option<String>,
    /// When the unit occurs (`setting.json → time_of_day`).
    pub time_of_day: Option<String>,
    /// Environmental mood (`setting.json → atmosphere`).
    pub atmosphere: Option<String>,
    /// Spatial configuration (`setting.json → spatial_structure`).
    pub spatial_structure: Option<String>,
    /// Genette narrative-time fields (order, duration_mode, frequency).
    /// Held as JSON text.
    pub narrative_time: Option<String>,
}

/// Typed form of `unit.structure.grouping` for the GBR narrative profile.
/// (PROFILE.md §7.4–§7.5)
#[derive(Debug, Clone, PartialEq, Eq, Default)]
pub struct NarrativeGrouping {
    /// Macro-arc position (e.g. `"status_quo"`, `"revelation"`, `"climax"`).
    pub beat: Option<String>,
    /// Scene function within the sequence (`scene_structure.json → scene_function`).
    pub scene_function: Option<String>,
    /// 1-based position of this scene within its chapter.
    pub scene_number_in_chapter: Option<u32>,
}

/// Summary of the unit's core narrative want, obstacle, and outcome.
#[derive(Debug, Clone, PartialEq, Eq, Default)]
pub struct CanonicalSummary {
    /// What the focalizer wants to achieve in this unit.
    pub want: Option<String>,
    /// What prevents achievement.
    pub obstacle: Option<String>,
    /// How the want resolves (`"achieved"`, `"blocked"`, `"partially_achieved"`, …).
    pub outcome: Option<String>,
}

/// Typed form of `unit.interpretations` for the GBR narrative profile.
/// (PROFILE.md §7.7)
#[derive(Debug, Clone, PartialEq, Eq, Default)]
pub struct NarrativeUnitInterpretations {
    /// Point-of-view type (redundant with context.pov; kept for flat-access convenience).
    pub pov: Option<String>,
    /// Genette focalization type.
    pub focalization: Option<String>,
    /// Dorrit Cohn consciousness mode.
    pub consciousness_mode: Option<String>,
    /// Gardner psychic distance (1 = very close, 5 = very distant).
    pub psychic_distance: Option<u8>,
    /// Narrator reliability flag or degree.
    pub narrator_reliability: Option<String>,
    /// Domain of the scene's primary stakes.
    pub stakes_domain: Option<String>,
    /// Structured quality metrics (word count, sentence entropy, …).
    /// Held as JSON text.
    pub canonical_metrics: Option<String>,
    /// Free-form motif tag annotations.
    /// Held as JSON text.
    pub motif_tags: Option<String>,
    /// Literary / theoretical annotations (PROFILE.md §7.7).
    /// Held as JSON text.
    pub theory_notes: Option<String>,
    /// Want / obstacle / outcome for this unit.
    pub canonical_summary: Option<CanonicalSummary>,
    /// Arc type moment for the primary character in this unit.
    pub arc_type: Option<String>,
}

/// Typed form of `participant_state.observables` for the GBR narrative profile.
#[derive(Debug, Clone, PartialEq, Eq, Default)]
pub struct NarrativeParticipantObservables {
    /// Micro-tactical action the character takes to advance their objective.
    pub tactic: Option<String>,
}

/// Typed form of `participant_state.structure` for the GBR narrative profile.
#[derive(Debug, Clone, PartialEq, Eq, Default)]
pub struct NarrativeParticipantStructure {
    /// Where on the character arc this unit falls (e.g. `"crack"`, `"pivot"`, `"break"`).
    pub arc_beat: Option<String>,
    /// What triggered this participant's tactical shift.
    pub trigger_type: Option<String>,
}

/// Typed form of `participant_state.interpretations` for the GBR narrative profile.
#[derive(Debug, Clone, PartialEq, Eq, Default)]
pub struct NarrativeParticipantInterpretations {
    /// Character arc trajectory for this unit (`ArcType` value).
    pub arc_type: Option<String>,
    /// Active drive model (`DriveModel` value).
    pub drive_model: Option<String>,
    /// Concealed emotional state beneath the surface action.
    pub masked_emotion: Option<String>,
}

/// Typed form of `step.interpretations` for the GBR narrative profile.
#[derive(Debug, Clone, PartialEq, Eq, Default)]
pub struct NarrativeStepInterpretations {
    /// Emotional state of the acting character at this step.
    pub emotional_state: Option<String>,
    /// Concealed emotion underneath the observable action.
    pub masked_emotion: Option<String>,
    /// Significance of the step (`"essential"` / `"supplementary"`).
    pub significance: Option<String>,
}

/// Observable descriptors shared by all character entities (name + narrative slot).
#[derive(Debug, Clone, PartialEq, Eq, Default)]
pub struct NarrativeCharacterObservables {
    /// Canonical display name.
    pub name: Option<String>,
    /// Narrative function slot (e.g. `"protagonist"`, `"ally"`, `"foil"`).
    pub slot: Option<String>,
}

/// Structural role of a character in the story architecture.
#[derive(Debug, Clone, PartialEq, Eq, Default)]
pub struct NarrativeCharacterStructure {
    /// Narrative role string (e.g. `"protagonist"`, `"antagonist"`, `"mentor"`).
    pub role: Option<String>,
    /// Idiosyncratic voice tag used for prose consistency.
    pub voice_signature: Option<String>,
}

/// Interpretive design layer for a character (archetype, wound, arc, actant, etc.).
#[derive(Debug, Clone, PartialEq, Eq, Default)]
pub struct NarrativeCharacterInterpretations {
    /// Jungian / Campbell archetype label.
    pub archetype: Option<String>,
    /// Deep psychological wound shaping behaviour.
    pub wound: Option<String>,
    /// D&D-style alignment (e.g. `"neutral_good"`).
    pub alignment: Option<String>,
    /// Primary motivational system (`DriveModel`).
    pub drive_model: Option<String>,
    /// Macro arc direction (e.g. `"positive_change"`, `"disillusionment"`).
    pub arc_type: Option<String>,
    /// Greimas actantial role.
    pub actant: Option<String>,
    /// The haunting ghost (backstory wound expressed as image or memory).
    pub ghost_origin: Option<String>,
    /// What the character consciously wants.
    pub want: Option<String>,
    /// What the character unconsciously needs.
    pub need: Option<String>,
    /// The dominant character flaw.
    pub flaw: Option<String>,
}

/// Observable descriptors for a location / setting entity.
#[derive(Debug, Clone, PartialEq, Eq, Default)]
pub struct NarrativeLocationObservables {
    /// Canonical display name.
    pub name: Option<String>,
}

/// Structural classification of a setting / location.
#[derive(Debug, Clone, PartialEq, Eq, Default)]
pub struct NarrativeLocationStructure {
    /// Setting type (enum from `setting.json`, e.g. `"interior_domestic"`).
    pub setting_type: Option<String>,
}

/// Interpretive atmosphere and sensory design of a setting.
#[derive(Debug, Clone, PartialEq, Eq, Default)]
pub struct NarrativeLocationInterpretations {
    /// Dominant emotional atmosphere (e.g. `"oppressive"`, `"liminal"`).
    pub general_vibe: Option<String>,
    /// Sensory signature: list of sensory-detail tags.
    pub sensory_signature: Vec<String>,
}

/// Interpretations layer for a relationship between two characters.
#[derive(Debug, Clone, PartialEq, Eq, Default)]
pub struct NarrativeRelationshipInterpretations {
    /// Human-readable description of the relationship.
    pub description: Option<String>,
    /// Relational dynamic when the story begins.
    pub dynamic_at_start: Option<String>,
    /// Relational dynamic at story end (or last observed point).
    pub dynamic_at_end: Option<String>,
    /// Who holds structural power in the relationship.
    pub power_balance: Option<String>,
    /// Trust level between the two parties.
    pub trust: Option<String>,
    /// Intimacy / closeness level.
    pub intimacy: Option<String>,
    /// How stable / volatile the relationship is.
    pub stability: Option<String>,
}

/// Marker struct: the GBR narrative profile.
///
/// It names the profile whose overlay types are the ones in this module: the
/// context, grouping, interpretations, craft targets and participant layers.
#[derive(Debug, Clone, Copy, PartialEq, Eq, Default, Structural)]
pub struct GbrNarrativeProfile;

} // verus!
