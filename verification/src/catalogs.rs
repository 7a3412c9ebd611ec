//! Typed catalog entry shapes.
//!
//! Each reference catalog has an implicit schema; these structs make every
//! field explicit.  Catalog files use a `slug` field as the primary
//! identifier, and the slug names a vocabulary term (e.g. `"hero"` names
//! `Archetype::Hero`); helpers such as [`ArchetypeCatalogEntry::archetype`]
//! read the slug on demand.

use vstd::prelude::*;

use crate::enums::{Alignment, Archetype, DriveModel, Genre, Role, Wound};
use crate::text::{find_string, str_eq, string_at};
use crate::vocabulary::{lemma_from_name_exact, parse_name, SnakeName};

verus! {

/// Matches the structure of `03-characters/references/character-archetypes.yaml`.
#[derive(Debug, Clone, PartialEq, Eq)]
pub struct ArchetypeCatalogEntry {
    pub slug: String,
    pub name: String,
    pub family: Option<String>,
    pub structural_function: Option<String>,
    pub core_desire: Option<String>,
    pub core_fear: Option<String>,
    pub story_role: Option<String>,
    pub typical_arc_pattern: Option<String>,
    pub shadow_form: Option<String>,
    pub strengths: Vec<String>,
    pub weaknesses: Vec<String>,
    pub common_surface_expressions: Vec<String>,
    pub romance_affinity: Vec<String>,
}

impl ArchetypeCatalogEntry {
    /// The Archetype vocabulary term the slug names, if any.
    pub fn archetype(&self) -> (r: Option<Archetype>)
        ensures
            r == parse_name::<Archetype>(self.slug@),
    {
        let r = Archetype::from_name(self.slug.as_str());
        proof {
            lemma_from_name_exact::<Archetype>(self.slug@, r);
        }
        r
    }
}

/// Matches the structure of `03-characters/references/character-wounds.yaml`.
#[derive(Debug, Clone, PartialEq, Eq)]
pub struct WoundCatalogEntry {
    pub slug: String,
    pub name: String,
    pub category: Option<String>,
    pub description: Option<String>,
    pub lie_template: Option<String>,
    pub need_template: Option<String>,
    pub want_template: Option<String>,
    pub behavioral_patterns: Vec<String>,
    pub ghost_event_examples: Vec<String>,
    pub archetype_affinity: Vec<String>,
    pub alignment_tendency: Vec<String>,
    pub genre_affinity: Vec<String>,
    pub romance_tension: Option<String>,
}

impl WoundCatalogEntry {
    /// The Wound vocabulary term the slug names, if any.
    pub fn wound(&self) -> (r: Option<Wound>)
        ensures
            r == parse_name::<Wound>(self.slug@),
    {
        let r = Wound::from_name(self.slug.as_str());
        proof {
            lemma_from_name_exact::<Wound>(self.slug@, r);
        }
        r
    }
}

/// Deprecated flat stub — the actual YAML uses `AlignmentSystemCatalog`.
/// Retained only for `CatalogSet.alignments` backward compat; prefer loading
/// via `AlignmentSystemCatalog` directly.
#[derive(Debug, Clone, PartialEq, Eq)]
pub struct AlignmentCatalogEntry {
    pub slug: String,
    /// The normalized enum value
    pub alignment: Alignment,
    /// Human-readable label (e.g. "Rule-bound Prosocial" for lawful_good)
    pub label: String,
    pub description: Option<String>,
    pub motivations: Vec<String>,
    pub shadow: Option<String>,
}

/// Matches the structure of `03-characters/references/character-roles.yaml`.
#[derive(Debug, Clone, PartialEq, Eq)]
pub struct RoleCatalogEntry {
    pub slug: String,
    pub name: String,
    pub structural_function: Option<String>,
    pub max_per_story: Option<u32>,
    pub min_per_story: Option<u32>,
    pub required: Option<bool>,
    pub relationship_to_plot: Option<String>,
    pub typical_archetype_affinity: Vec<String>,
    pub notes: Option<String>,
}

impl RoleCatalogEntry {
    /// The Role vocabulary term the slug names, if any.
    pub fn role(&self) -> (r: Option<Role>)
        ensures
            r == parse_name::<Role>(self.slug@),
    {
        let r = Role::from_name(self.slug.as_str());
        proof {
            lemma_from_name_exact::<Role>(self.slug@, r);
        }
        r
    }
}

/// Matches the structure of `03-characters/references/character-drives.yaml`.
#[derive(Debug, Clone, PartialEq, Eq)]
pub struct DriveCatalogEntry {
    pub slug: String,
    pub name: String,
    pub source_theory: Vec<String>,
    pub summary: Option<String>,
    pub fields: Vec<String>,
    pub arc_template: Option<String>,
    pub genre_affinity: Vec<String>,
    pub limitations: Option<String>,
    pub canonical_examples: Vec<String>,
}

impl DriveCatalogEntry {
    /// The drive-model vocabulary term the slug names, if any.
    pub fn drive_model(&self) -> (r: Option<DriveModel>)
        ensures
            r == parse_name::<DriveModel>(self.slug@),
    {
        let r = DriveModel::from_name(self.slug.as_str());
        proof {
            lemma_from_name_exact::<DriveModel>(self.slug@, r);
        }
        r
    }
}

/// A single cast-slot declaration inside a collision pattern.
#[derive(Debug, Clone, PartialEq, Eq)]
pub struct CastSlot {
    pub slot: String,
    pub circle: Option<String>,
    pub membership: Option<String>,
    pub archetype_constraint: Vec<String>,
    pub role: Option<String>,
    pub min: Option<u32>,
    pub max: Option<u32>,
}

/// One incident entry nested inside a category.
#[derive(Debug, Clone, PartialEq, Eq)]
pub struct IncitingIncidentEntry {
    pub slug: String,
    pub name: String,
    pub description: Option<String>,
    pub collision_affinity: Vec<String>,
    pub compatible_plot_types: Vec<String>,
    pub compatible_collision_patterns: Vec<String>,
}

/// One category block containing multiple incidents.
#[derive(Debug, Clone, PartialEq, Eq)]
pub struct IncitingIncidentCategory {
    pub description: Option<String>,
    pub incidents: Vec<IncitingIncidentEntry>,
}

/// Top-level wrapper for `02-collision/references/inciting-incidents.yaml`.
#[derive(Debug, Clone, PartialEq, Eq)]
pub struct IncitingIncidentsCatalog {
    /// The incident categories, keyed by category name.
    pub categories: Vec<(String, IncitingIncidentCategory)>,
}

/// The incidents of a list of categories, category after category.
pub open spec fn incidents_of(cats: Seq<(String, IncitingIncidentCategory)>) -> Seq<
    IncitingIncidentEntry,
>
    decreases cats.len(),
{
    if cats.len() == 0 {
        Seq::empty()
    } else {
        incidents_of(cats.drop_last()) + cats.last().1.incidents@
    }
}

impl IncitingIncidentsCatalog {
    /// Every incident of every category, flattened in category order.
    pub fn all_incidents(&self) -> (r: Vec<&IncitingIncidentEntry>)
        ensures
            r@.map_values(|e: &IncitingIncidentEntry| *e) == incidents_of(self.categories@),
    {
        let mut out: Vec<&IncitingIncidentEntry> = Vec::new();
        let mut i: usize = 0;
        while i < self.categories.len()
            invariant
                i <= self.categories@.len(),
                out@.map_values(|e: &IncitingIncidentEntry| *e) == incidents_of(
                    self.categories@.take(i as int),
                ),
            decreases self.categories.len() - i,
        {
            let incidents = &self.categories[i].1.incidents;
            let ghost base = out@.map_values(|e: &IncitingIncidentEntry| *e);
            let mut j: usize = 0;
            while j < incidents.len()
                invariant
                    j <= incidents@.len(),
                    out@.map_values(|e: &IncitingIncidentEntry| *e) == base + incidents@.take(
                        j as int,
                    ),
                decreases incidents.len() - j,
            {
                let ghost prev = out@;
                out.push(&incidents[j]);
                assert(out@ == prev.push(&incidents@[j as int]));
                assert(incidents@.take(j + 1) =~= incidents@.take(j as int).push(incidents@[j as int]));
                assert(out@.map_values(|e: &IncitingIncidentEntry| *e) =~= prev.map_values(
                    |e: &IncitingIncidentEntry| *e,
                ).push(incidents@[j as int]));
                j = j + 1;
            }
            assert(incidents@.take(incidents@.len() as int) =~= incidents@);
            assert(self.categories@.take(i + 1).drop_last() =~= self.categories@.take(i as int));
            i = i + 1;
        }
        assert(self.categories@.take(self.categories@.len() as int) =~= self.categories@);
        out
    }
}

/// A `{work: "...", note: "..."}` example entry reused across theory catalogs.
#[derive(Debug, Clone, PartialEq, Eq)]
pub struct CatalogExample {
    pub work: String,
    pub note: Option<String>,
}

/// Matches `05-plot-and-structure/references/narrative-time-modes.yaml`.
/// Covers Genette's three temporal axes: order, duration, frequency.
#[derive(Debug, Clone, PartialEq, Eq)]
pub struct NarrativeTimeModeEntry {
    pub slug: String,
    pub axis: String,
    pub name: String,
    pub description: Option<String>,
    pub craft_effect: Option<String>,
    pub when_to_use: Option<String>,
    pub risk: Option<String>,
    pub canonical_examples: Vec<CatalogExample>,
}

/// Matches `07-drafting/references/irony-types.yaml`.
/// Booth *A Rhetoric of Irony* / Hutcheon *A Theory of Parody*.
#[derive(Debug, Clone, PartialEq, Eq)]
pub struct IronyTypeCatalogEntry {
    pub slug: String,
    pub name: String,
    pub definition: String,
    pub how_it_works: Option<String>,
    pub tone_range: Vec<String>,
    pub distinction: Option<String>,
    pub risks: Vec<String>,
    pub craft_notes: Vec<String>,
    pub craft_note: Option<String>,
    pub canonical_examples: Vec<CatalogExample>,
}

/// Matches `07-drafting/references/comic-modes.yaml`.
/// Bergson, Morreall, Frye; covers both modes and comedy theories.
#[derive(Debug, Clone, PartialEq, Eq)]
pub struct ComicModeCatalogEntry {
    pub slug: String,
    pub category: String,
    pub name: String,
    pub definition: Option<String>,
    pub target: Option<String>,
    pub tone_range: Vec<String>,
    pub techniques: Vec<String>,
    pub risk: Option<String>,
    pub craft_note: Option<String>,
    // For comedy theory entries
    pub theorists: Vec<String>,
    pub narrative_application: Option<String>,
    pub craft_tool: Option<String>,
    pub bergson_addition: Option<String>,
    pub freud_addition: Option<String>,
    pub relationship_to_source: Option<String>,
    pub canonical_examples: Vec<CatalogExample>,
}

/// Matches `07-drafting/references/metaphor-types.yaml`.
/// Lakoff/Johnson, Richards, Black, Jakobson.
#[derive(Debug, Clone, PartialEq, Eq)]
pub struct MetaphorTypeCatalogEntry {
    pub slug: String,
    pub name: String,
    pub definition: String,
    pub theoretical_source: Option<String>,
    pub craft_function: Option<String>,
    pub detection_signal: Option<String>,
    pub craft_notes: Vec<String>,
    pub craft_note: Option<String>,
    pub how_it_works: Option<String>,
    pub risk: Option<String>,
    pub difference_from_metaphor: Option<String>,
    pub difference_from_synecdoche: Option<String>,
    pub relationship_to_source: Option<String>,
    pub canonical_examples: Vec<CatalogExample>,
}

/// Matches `07-drafting/references/trauma-modes.yaml`.
/// Caruth, LaCapra, Herman, van der Kolk, Felman/Laub.
#[derive(Debug, Clone, PartialEq, Eq)]
pub struct TraumaModeEntry {
    pub slug: String,
    pub category: String,
    pub name: String,
    pub definition: Option<String>,
    pub narrative_applications: Vec<String>,
    pub psychic_distance_note: Option<String>,
    pub temporal_structures: Vec<String>,
    pub difference_from_working_through: Option<String>,
    pub difference_from_acting_out: Option<String>,
    pub craft_notes: Vec<String>,
    // For Herman recovery stage entries
    pub stage_number: Option<u32>,
    // For van der Kolk entry
    pub canonical_examples: Vec<CatalogExample>,
}

/// A brief `{source: "...", note: "..."}` entry in revision-passes canonical_sources.
#[derive(Debug, Clone, PartialEq, Eq)]
pub struct CanonicalSource {
    pub source: String,
    pub note: Option<String>,
}

/// Matches `08-revision/references/revision-passes.yaml`.
/// Murray, Elbow, Lamott six-pass system.
#[derive(Debug, Clone, PartialEq, Eq)]
pub struct RevisionPassEntry {
    pub slug: String,
    pub pass_number: u32,
    pub name: String,
    pub focus: String,
    pub guiding_question: String,
    pub what_to_look_for: Vec<String>,
    pub tools: Vec<String>,
    pub do_not_yet: Option<String>,
    pub canonical_sources: Vec<CanonicalSource>,
    pub warning: Option<String>,
}

/// Matches `07-drafting/references/pentad-elements.yaml`.
/// Burke *A Grammar of Motives* (1945).
/// Both `type: element` and `type: ratio` entries share this struct.
#[derive(Debug, Clone, PartialEq, Eq)]
pub struct PentadElementEntry {
    pub slug: String,
    /// "element" or "ratio"
    pub entry_type: String,
    pub name: String,
    pub burke_definition: Option<String>,
    pub core_question: Option<String>,
    pub narrative_function: Option<String>,
    pub character_design_questions: Vec<String>,
    pub craft_notes: Vec<String>,
    // Ratio-specific fields
    pub dominant_explanation: Option<String>,
    pub philosophy: Option<String>,
    pub character_type: Option<String>,
    pub narrative_mode: Option<String>,
    pub worldview: Option<String>,
    pub craft_application: Option<String>,
}

/// Entry in `07-drafting/references/speech-act-types.yaml`
/// Austin *How to Do Things with Words* (1962); Searle *Speech Acts* (1969)
#[derive(Debug, Clone, PartialEq, Eq)]
pub struct SpeechActEntry {
    pub slug: String,
    /// "austin_dimension" | "searle_category" | "pragmatic_extension"
    pub category: String,
    pub name: String,
    pub austin_dimension: Option<String>,
    pub definition: Option<String>,
    pub felicity_conditions: Vec<String>,
    pub subtypes: Vec<String>,
    pub narrative_applications: Vec<String>,
    pub craft_question: Option<String>,
    pub canonical_examples: Vec<CatalogExample>,
    // Searle-specific
    pub illocutionary_point: Option<String>,
    pub direction_of_fit: Option<String>,
    pub psychological_state: Option<String>,
    pub propositional_content: Option<String>,
    pub narrative_function: Option<String>,
    // Austin-specific
    pub act_type: Option<String>,
    pub force_markers: Vec<String>,
}

/// Entry in `07-drafting/references/focalization-modes.yaml`
/// Genette *Narrative Discourse* (1972); Bal *Narratology* (1985);
/// Gardner *The Art of Fiction* (1983); Cohn *Transparent Minds* (1978)
#[derive(Debug, Clone, PartialEq, Eq)]
pub struct FocalizationModeEntry {
    pub slug: String,
    /// "genette_focalization" | "bal_focalization" | "gardner_psychic_distance"
    /// | "cohn_consciousness"
    pub category: String,
    pub name: String,
    pub genette_formula: Option<String>,
    pub definition: Option<String>,
    pub craft_characteristics: Vec<String>,
    pub psychic_distance_range: Option<String>,
    pub risk: Option<String>,
    pub canonical_examples: Vec<CatalogExample>,
    // Gardner psychic distance
    pub level: Option<u8>,
    pub example_sentence: Option<String>,
    // Cohn consciousness modes
    pub narrator_type: Option<String>,
    pub technique_example: Option<String>,
    pub craft_note: Option<String>,
    // Bal
    pub distinction_from_narrator: Option<String>,
    pub internal_vs_external: Option<String>,
}

/// Entry in `01-concept/references/intertextual-relations.yaml`
/// Genette *Palimpsests / Paratexts* (1982/87); Bloom *Anxiety of Influence* (1973)
#[derive(Debug, Clone, PartialEq, Eq)]
pub struct IntertextualRelationEntry {
    pub slug: String,
    /// "genette_transtextuality" | "bloom_ratio"
    pub category: String,
    pub rank: Option<u8>,
    pub name: String,
    pub genette_definition: Option<String>,
    pub definition: Option<String>,
    pub subtypes: Vec<String>,
    pub craft_notes: Vec<String>,
    pub canonical_examples: Vec<CatalogExample>,
    // Bloom-specific
    pub greek_term: Option<String>,
    pub revisionary_ratio: Option<String>,
    pub narrative_manifestation: Option<String>,
}

/// Entry in `07-drafting/references/psychoanalytic-mechanisms.yaml`
/// Freud; Lacan *Écrits* (1966); Kristeva *Powers of Horror* (1980);
/// Mulvey "Visual Pleasure" (1975)
#[derive(Debug, Clone, PartialEq, Eq)]
pub struct PsychoanalyticMechanismEntry {
    pub slug: String,
    /// "freudian" | "lacan_register" | "kristeva" | "mulvey_gaze"
    pub category: String,
    pub mechanism_type: Option<String>,
    pub name: String,
    pub definition: Option<String>,
    pub narrative_applications: Vec<String>,
    pub detection_signal: Option<String>,
    pub craft_notes: Vec<String>,
    pub canonical_examples: Vec<CatalogExample>,
    // Lacan register fields
    pub register: Option<String>,
    pub lacanian_term: Option<String>,
    pub failure_mode: Option<String>,
    // Freud mechanism fields
    pub freudian_process: Option<String>,
    pub scene_audit_question: Option<String>,
}

/// Entry in `08-revision/references/postcolonial-modes.yaml`
/// Said *Orientalism* (1978); Bhabha *Location of Culture* (1994);
/// Spivak "Can the Subaltern Speak?" (1988); Fanon; Achebe; Ngũgĩ
#[derive(Debug, Clone, PartialEq, Eq)]
pub struct PostcolonialModeEntry {
    pub slug: String,
    pub name: String,
    pub theorist: Option<String>,
    pub theorists: Vec<String>,
    pub definition: Option<String>,
    pub textual_markers: Vec<String>,
    pub narrative_audit_questions: Vec<String>,
    pub distinction_from_synthesis: Option<String>,
    pub narrative_applications: Vec<String>,
    pub craft_notes: Vec<String>,
    pub canonical_examples: Vec<CatalogExample>,
}

/// Entry in `05-plot-and-structure/references/emplotment-types.yaml`
/// Hayden White *Metahistory* (1973); Northrop Frye *Anatomy of Criticism* (1957)
#[derive(Debug, Clone, PartialEq, Eq)]
pub struct EmplotmentTypeEntry {
    pub slug: String,
    /// "white_emplotment" | "frye_mythos" | "white_extended"
    pub category: String,
    pub name: String,
    pub white_definition: Option<String>,
    pub frye_definition: Option<String>,
    pub hutcheon_definition: Option<String>,
    pub narrative_structure: Option<String>,
    pub ideological_tendency: Option<String>,
    pub craft_application: Option<String>,
    pub risk: Option<String>,
    pub canonical_examples: Vec<CatalogExample>,
    // Frye-specific
    pub season: Option<String>,
    pub frye_parallel: Option<String>,
    pub dramatic_structure: Vec<String>,
    pub narrative_correspondence: Option<String>,
    // Extended White
    pub relationship_to_white: Option<String>,
    pub craft_applications: Vec<String>,
    pub historiographic_use: Option<String>,
}

/// Helper: common_lie_pair sub-structure used in genre trope files
#[derive(Debug, Clone, PartialEq, Eq)]
pub struct CommonLiePair {
    pub protagonist: Option<String>,
    pub antagonist_force: Option<String>,
    pub antagonist: Option<String>,
}

/// Entry in `01-concept/references/{genre}-tropes.yaml`
/// Covers horror, scifi, fantasy, mystery, thriller, literary-fiction, historical-fiction.
/// Generic fields are shared across all 7 files; genre-specific fields are `Option`.
#[derive(Debug, Clone, PartialEq, Eq)]
pub struct GenreTropeCatalogEntry {
    pub slug: String,
    pub name: String,
    pub description: Option<String>,
    pub collision_pattern_affinity: Vec<String>,
    pub required_tension_beats: Vec<String>,
    pub wound_affinity: Vec<String>,
    pub key_tension_mechanic: Option<String>,
    pub ticking_clock: Option<String>,
    pub common_lie_pair: Option<CommonLiePair>,
    pub reader_promise: Option<String>,
    pub genre_affinity: Vec<String>,
    // Horror-specific (Carroll)
    pub carroll_violation: Option<String>,
    // Sci-fi-specific (Suvin)
    pub novum: Option<String>,
    pub suvin_estrangement: Option<String>,
    // Fantasy-specific
    pub world_building_demand: Option<String>,
    // Mystery-specific
    pub fair_play_rule: Option<String>,
    // Literary-fiction-specific
    pub narrative_technique: Option<String>,
    pub exemplars: Vec<String>,
    // Historical-fiction-specific (Lukács)
    pub lukacs_principle: Option<String>,
}

/// Entry in `07-drafting/references/image-schemas.yaml`
#[derive(Debug, Clone, PartialEq, Eq)]
pub struct ImageSchemaEntry {
    pub slug: String,
    pub name: String,
    pub theorist: Option<String>,
    pub definition: Option<String>,
    pub core_structure: Option<String>,
    pub primary_mappings: Vec<String>,
    pub narrative_applications: Vec<String>,
    pub prose_technique: Option<String>,
    pub canonical_examples: Vec<CatalogExample>,
}

/// Entry in `07-drafting/references/subtext-modes.yaml`
#[derive(Debug, Clone, PartialEq, Eq)]
pub struct SubtextModeEntry {
    pub slug: String,
    pub category: Option<String>,
    pub name: String,
    pub grice_formulation: Option<String>,
    pub violation_produces: Option<String>,
    pub subtext_applications: Vec<String>,
    pub craft_question: Option<String>,
    pub signal: Option<String>,
    pub subtext_function: Option<String>,
    pub function: Option<String>,
    pub canonical_examples: Vec<CatalogExample>,
}

/// Entry in `07-drafting/references/adaptation-modes.yaml`
#[derive(Debug, Clone, PartialEq, Eq)]
pub struct AdaptationModeEntry {
    pub slug: String,
    pub category: Option<String>,
    pub name: String,
    pub hutcheon_definition: Option<String>,
    pub jenkins_definition: Option<String>,
    pub definition: Option<String>,
    pub canonical_media: Vec<String>,
    pub adaptation_notes: Vec<String>,
    pub craft_question: Option<String>,
    pub craft_implications: Vec<String>,
    pub tension_with: Option<String>,
    pub canonical_examples: Vec<CatalogExample>,
}

/// Entry in `07-drafting/references/autofiction-modes.yaml`
#[derive(Debug, Clone, PartialEq, Eq)]
pub struct AutofictionModeEntry {
    pub slug: String,
    pub category: Option<String>,
    pub name: String,
    pub lejeune_definition: Option<String>,
    pub doubrovsky_definition: Option<String>,
    pub ernaux_definition: Option<String>,
    pub barthes_definition: Option<String>,
    pub definition: Option<String>,
    pub pact_signals: Vec<String>,
    pub craft_implications: Vec<String>,
    pub risks: Vec<String>,
    pub canonical_examples: Vec<CatalogExample>,
}

/// Entry in `07-drafting/references/experimental-narration-modes.yaml`
#[derive(Debug, Clone, PartialEq, Eq)]
pub struct ExperimentalNarrationEntry {
    pub slug: String,
    pub category: Option<String>,
    pub name: String,
    pub booth_definition: Option<String>,
    pub waugh_definition: Option<String>,
    pub definition: Option<String>,
    pub unreliability_types: Vec<String>,
    pub metafictional_strategies: Vec<String>,
    pub functional_modes: Vec<String>,
    pub structural_types: Vec<String>,
    pub effects: Vec<String>,
    pub craft_notes: Vec<String>,
    pub craft_implications: Vec<String>,
    pub canonical_examples: Vec<CatalogExample>,
}

/// Entry in `07-drafting/references/philosophy-fiction-modes.yaml`
#[derive(Debug, Clone, PartialEq, Eq)]
pub struct PhilosophyFictionEntry {
    pub slug: String,
    pub category: Option<String>,
    pub name: String,
    pub ricoeur_definition: Option<String>,
    pub eco_definition: Option<String>,
    pub walton_definition: Option<String>,
    pub dolezal_definition: Option<String>,
    pub definition: Option<String>,
    pub craft_relevance: Vec<String>,
    pub make_believe_structure: Vec<String>,
    pub distinction: Option<String>,
    pub narrative_function: Option<String>,
    pub craft_question: Option<String>,
    pub craft_implications: Vec<String>,
    pub canonical_examples: Vec<CatalogExample>,
}

/// Entry in `07-drafting/references/verse-prosody.yaml`
#[derive(Debug, Clone, PartialEq, Eq)]
pub struct VerseProsodyEntry {
    pub slug: String,
    pub category: Option<String>,
    pub name: String,
    pub pattern: Option<String>,
    pub symbol: Option<String>,
    pub dominant_meter: Option<String>,
    pub craft_quality: Option<String>,
    pub fussell_note: Option<String>,
    pub definition: Option<String>,
    pub affective_function: Option<String>,
    pub craft_notes: Vec<String>,
    pub types: Vec<String>,
    pub forms: Vec<String>,
    pub canonical_examples: Vec<CatalogExample>,
}

/// Entry in `08-revision/references/ecocriticism-modes.yaml`
#[derive(Debug, Clone, PartialEq, Eq)]
pub struct EcocriticalModeEntry {
    pub slug: String,
    pub category: Option<String>,
    pub name: String,
    pub nixon_definition: Option<String>,
    pub morton_definition: Option<String>,
    pub buell_haraway_basis: Option<String>,
    pub definition: Option<String>,
    pub craft_challenge: Option<String>,
    pub narrative_strategies: Vec<String>,
    pub audit_questions: Vec<String>,
    pub craft_implications: Vec<String>,
    pub canonical_examples: Vec<CatalogExample>,
}

/// Entry in `08-revision/references/feminist-narrative-types.yaml`
#[derive(Debug, Clone, PartialEq, Eq)]
pub struct FeministNarrativeEntry {
    pub slug: String,
    pub category: Option<String>,
    pub name: String,
    pub duplessis_definition: Option<String>,
    pub lanser_definition: Option<String>,
    pub warhol_definition: Option<String>,
    pub fetterley_definition: Option<String>,
    pub miller_definition: Option<String>,
    pub definition: Option<String>,
    pub traditional_plot_types_resisted: Vec<String>,
    pub counter_plot_strategies: Vec<String>,
    pub audit_questions: Vec<String>,
    pub craft_notes: Vec<String>,
    pub craft_implications: Vec<String>,
    pub canonical_examples: Vec<CatalogExample>,
}

/// Entry in `08-revision/references/posthuman-modes.yaml`
#[derive(Debug, Clone, PartialEq, Eq)]
pub struct PosthumanModeEntry {
    pub slug: String,
    pub category: Option<String>,
    pub name: String,
    pub wolfe_definition: Option<String>,
    pub haraway_definition: Option<String>,
    pub hayles_definition: Option<String>,
    pub braidotti_definition: Option<String>,
    pub definition: Option<String>,
    pub contrast_with: Option<String>,
    pub craft_implications: Vec<String>,
    pub audit_questions: Vec<String>,
    pub philosophical_crux: Option<String>,
    pub canonical_examples: Vec<CatalogExample>,
}

/// Entry in `08-revision/references/queer-narrative-modes.yaml`
#[derive(Debug, Clone, PartialEq, Eq)]
pub struct QueerNarrativeModeEntry {
    pub slug: String,
    pub category: Option<String>,
    pub name: String,
    pub edelman_definition: Option<String>,
    pub halberstam_definition: Option<String>,
    pub munoz_definition: Option<String>,
    pub butler_definition: Option<String>,
    pub sedgwick_definition: Option<String>,
    pub definition: Option<String>,
    pub narrative_manifestations: Vec<String>,
    pub craft_implications: Vec<String>,
    pub queer_critique: Option<String>,
    pub audit_questions: Vec<String>,
    pub audit_question: Option<String>,
    pub canonical_examples: Vec<CatalogExample>,
    pub intersectional_instances: Vec<String>,
}

/// Entry in `08-revision/references/disability-rep-modes.yaml`
#[derive(Debug, Clone, PartialEq, Eq)]
pub struct DisabilityRepModeEntry {
    pub slug: String,
    pub category: Option<String>,
    pub name: String,
    pub mitchell_snyder_definition: Option<String>,
    pub garland_thomson_definition: Option<String>,
    pub siebers_definition: Option<String>,
    pub kafer_definition: Option<String>,
    pub definition: Option<String>,
    pub prosthesis_patterns: Vec<String>,
    pub audit_patterns: Vec<String>,
    pub audit_questions: Vec<String>,
    pub craft_implications: Vec<String>,
    pub canonical_examples: Vec<CatalogExample>,
    pub connection_to_reproductive_futurism: Option<String>,
}

/// Entry in `08-revision/references/marxist-narrative-modes.yaml`
#[derive(Debug, Clone, PartialEq, Eq)]
pub struct MarxistNarrativeModeEntry {
    pub slug: String,
    pub category: Option<String>,
    pub name: String,
    pub jameson_definition: Option<String>,
    pub goldmann_definition: Option<String>,
    pub eagleton_definition: Option<String>,
    pub lukacs_definition: Option<String>,
    pub williams_definition: Option<String>,
    pub definition: Option<String>,
    pub three_horizons: Vec<String>,
    pub late_lukacs_critique: Option<String>,
    pub narrative_function: Option<String>,
    pub craft_implications: Vec<String>,
    pub audit_questions: Vec<String>,
    pub canonical_examples: Vec<CatalogExample>,
}

/// Entry in `08-revision/references/indigenous-narrative-modes.yaml`
#[derive(Debug, Clone, PartialEq, Eq)]
pub struct IndigenousNarrativeModeEntry {
    pub slug: String,
    pub category: Option<String>,
    pub name: String,
    pub vizenor_definition: Option<String>,
    pub archibald_definition: Option<String>,
    pub womack_definition: Option<String>,
    pub silko_definition: Option<String>,
    pub definition: Option<String>,
    pub victimry_contrast: Option<String>,
    pub red_on_red: Option<String>,
    pub hurston_example: Option<String>,
    pub signifying_modes: Vec<String>,
    pub craft_implications: Vec<String>,
    pub audit_questions: Vec<String>,
    pub canonical_examples: Vec<CatalogExample>,
}

/// Entry in `08-revision/references/affect-modes.yaml`
#[derive(Debug, Clone, PartialEq, Eq)]
pub struct AffectModeEntry {
    pub slug: String,
    pub category: Option<String>,
    pub name: String,
    pub ahmed_definition: Option<String>,
    pub berlant_definition: Option<String>,
    pub berlant_freud_connection: Option<String>,
    pub definition: Option<String>,
    pub good_life_fantasies: Vec<String>,
    pub historical_context: Option<String>,
    pub craft_implications: Vec<String>,
    pub audit_questions: Vec<String>,
    pub canonical_examples: Vec<CatalogExample>,
}

/// Entry in `08-revision/references/narrative-ethics-modes.yaml`
#[derive(Debug, Clone, PartialEq, Eq)]
pub struct NarrativeEthicsModeEntry {
    pub slug: String,
    pub category: Option<String>,
    pub name: String,
    pub booth_definition: Option<String>,
    pub keen_definition: Option<String>,
    pub nussbaum_definition: Option<String>,
    pub definition: Option<String>,
    pub implied_author: Option<String>,
    pub risks: Vec<String>,
    pub craft_implications: Vec<String>,
    pub audit_questions: Vec<String>,
    pub audit_checklist: Vec<String>,
    pub mulvey_basis: Option<String>,
    pub canonical_examples: Vec<CatalogExample>,
}

/// Entry in `references/cognitive-narrative-modes.yaml`
#[derive(Debug, Clone, PartialEq, Eq)]
pub struct CognitiveNarrativeModeEntry {
    pub slug: String,
    pub category: Option<String>,
    pub name: String,
    pub fludernik_definition: Option<String>,
    pub palmer_definition: Option<String>,
    pub hogan_definition: Option<String>,
    pub nunning_definition: Option<String>,
    pub definition: Option<String>,
    pub natural_narratology: Option<String>,
    pub intermental_thought: Option<String>,
    pub universal_plots: Vec<String>,
    pub craft_implications: Vec<String>,
    pub audit_questions: Vec<String>,
    pub canonical_examples: Vec<CatalogExample>,
}

/// Entry in `references/signifying-modes.yaml`
#[derive(Debug, Clone, PartialEq, Eq)]
pub struct SignifyingModeEntry {
    pub slug: String,
    pub category: Option<String>,
    pub name: String,
    pub gates_definition: Option<String>,
    pub baker_definition: Option<String>,
    pub morrison_definition: Option<String>,
    pub hurston_definition: Option<String>,
    pub gates_dubois_synthesis: Option<String>,
    pub definition: Option<String>,
    pub signifying_modes: Vec<String>,
    pub formal_features: Vec<String>,
    pub craft_implications: Vec<String>,
    pub audit_questions: Vec<String>,
    pub canonical_examples: Vec<CatalogExample>,
}

/// Entry in `04-world-building/references/spatial-modes.yaml`
#[derive(Debug, Clone, PartialEq, Eq)]
pub struct SpatialModeEntry {
    pub slug: String,
    pub category: Option<String>,
    pub name: String,
    pub bachelard_definition: Option<String>,
    pub de_certeau_definition: Option<String>,
    pub definition: Option<String>,
    pub phenomenological_quality: Option<String>,
    pub narrative_function: Option<String>,
    pub contrast_pair: Option<String>,
    pub psychoanalytic_resonance: Option<String>,
    pub craft_implications: Vec<String>,
    pub canonical_examples: Vec<CatalogExample>,
}

/// Entry in `05-plot-and-structure/references/seriality-types.yaml`
#[derive(Debug, Clone, PartialEq, Eq)]
pub struct SerialityTypeEntry {
    pub slug: String,
    pub category: Option<String>,
    pub name: String,
    pub definition: String,
    pub craft_implications: Vec<String>,
    pub reader_contract: Option<String>,
    pub canonical_examples: Vec<CatalogExample>,
}

/// Entry in `07-drafting/references/translation-modes.yaml`
#[derive(Debug, Clone, PartialEq, Eq)]
pub struct TranslationModeEntry {
    pub slug: String,
    pub category: Option<String>,
    pub name: String,
    pub venuti_definition: Option<String>,
    pub definition: Option<String>,
    pub ideological_risk: Option<String>,
    pub craft_implications: Vec<String>,
    pub audit_questions: Vec<String>,
    pub canonical_examples: Vec<CatalogExample>,
}

/// Entry in `07-drafting/references/graphic-narrative-modes.yaml`
#[derive(Debug, Clone, PartialEq, Eq)]
pub struct GraphicNarrativeModeEntry {
    pub slug: String,
    pub category: Option<String>,
    pub name: String,
    pub mccloud_definition: Option<String>,
    pub chute_definition: Option<String>,
    pub definition: Option<String>,
    pub closure_demand: Option<String>,
    pub temporal_effect: Option<String>,
    pub craft_implications: Vec<String>,
    pub canonical_examples: Vec<CatalogExample>,
}

/// Entry in `07-drafting/references/ya-narrative-modes.yaml`
#[derive(Debug, Clone, PartialEq, Eq)]
pub struct YaNarrativeModeEntry {
    pub slug: String,
    pub category: Option<String>,
    pub name: String,
    pub nikolajeva_definition: Option<String>,
    pub trites_definition: Option<String>,
    pub nodelman_definition: Option<String>,
    pub definition: Option<String>,
    pub aetonormativity_note: Option<String>,
    pub nodelman_note: Option<String>,
    pub trites_power_note: Option<String>,
    pub power_paradox: Option<String>,
    pub craft_implications: Vec<String>,
    pub audit_questions: Vec<String>,
    pub canonical_examples: Vec<CatalogExample>,
}

/// Entry in `09-polish-and-publish/references/paratext-zones.yaml`
#[derive(Debug, Clone, PartialEq, Eq)]
pub struct ParatextZoneEntry {
    pub slug: String,
    pub category: Option<String>,
    pub name: String,
    pub genette_definition: Option<String>,
    pub definition: Option<String>,
    pub design_considerations: Vec<String>,
    pub dedication_modes: Vec<String>,
    pub craft_implications: Vec<String>,
    pub audit_questions: Vec<String>,
    pub canonical_examples: Vec<CatalogExample>,
}

/// Entry in `references/semio-linguistic-functions.yaml`
#[derive(Debug, Clone, PartialEq, Eq)]
pub struct SemioLinguisticFunctionEntry {
    pub slug: String,
    pub category: Option<String>,
    pub name: String,
    pub jakobson_definition: Option<String>,
    pub halliday_definition: Option<String>,
    pub peirce_definition: Option<String>,
    pub definition: Option<String>,
    pub efferent_contrast: Option<String>,
    pub craft_implications: Vec<String>,
    pub audit_questions: Vec<String>,
    pub canonical_examples: Vec<CatalogExample>,
}

/// Entry in `01-concept/references/genre-reading-modes.yaml`
#[derive(Debug, Clone, PartialEq, Eq)]
pub struct GenreReadingModeEntry {
    pub slug: String,
    pub category: Option<String>,
    pub name: String,
    pub derrida_definition: Option<String>,
    pub culler_definition: Option<String>,
    pub rosenblatt_definition: Option<String>,
    pub fish_definition: Option<String>,
    pub definition: Option<String>,
    pub efferent_contrast: Option<String>,
    pub craft_implications: Vec<String>,
    pub audit_questions: Vec<String>,
    pub canonical_examples: Vec<CatalogExample>,
}

/// A cell in the 9-cell alignment grid (`03-characters/references/alignment-system.yaml`).
#[derive(Debug, Clone, PartialEq, Eq)]
pub struct AlignmentCellEntry {
    pub slug: String,
    pub order: String,
    pub ethics: String,
    pub label: String,
    pub dnd_equivalent: Option<String>,
    pub moral_rigidity_range: Vec<u8>,
    pub description: String,
    pub internal_conflict: Option<String>,
    pub archetype_affinity: Vec<String>,
    pub example: Option<String>,
    pub arc_pressure: Option<String>,
}

/// An arc pattern entry in `alignment-system.yaml`.
#[derive(Debug, Clone, PartialEq, Eq)]
pub struct AlignmentArcPatternEntry {
    pub slug: String,
    pub name: String,
    pub direction: String,
    pub description: String,
    pub typical_trigger: Option<String>,
    pub genre_affinity: Vec<String>,
}

/// Top-level catalog for `03-characters/references/alignment-system.yaml`.
/// Contains `cells:` (the 9-cell grid) and `arc_patterns:`; the `axes:` section is skipped.
#[derive(Debug, Clone, PartialEq, Eq)]
pub struct AlignmentSystemCatalog {
    pub cells: Vec<AlignmentCellEntry>,
    pub arc_patterns: Vec<AlignmentArcPatternEntry>,
}

/// Entry in `07-drafting/references/dramatic-theory-modes.yaml`
/// Aristotle *Poetics* (c. 335 BCE); Stanislavski *An Actor Prepares* (1936);
/// Brecht *Brecht on Theatre* (ed. Willett, 1964); Artaud *The Theatre and Its Double* (1938);
/// Syd Field *Screenplay* (1979)
#[derive(Debug, Clone, PartialEq, Eq)]
pub struct DramaticTheoryModeEntry {
    pub slug: String,
    /// "aristotle" | "stanislavski" | "brecht" | "artaud" | "field"
    pub category: String,
    pub name: String,
    pub definition: Option<String>,
    // Aristotle
    pub related_concepts: Vec<String>,
    // Stanislavski
    pub craft_principles: Vec<String>,
    // Brecht
    pub fiction_equivalents: Vec<String>,
    // Artaud
    pub fiction_translations: Vec<String>,
    pub when_to_deploy: Vec<String>,
    // shared
    pub audit_questions: Vec<String>,
    pub canonical_examples: Vec<CatalogExample>,
}

/// Entry in `07-drafting/references/nonfiction-narrative-modes.yaml`
/// Vivian Gornick *The Situation and the Story* (2001); John McPhee *Draft No. 4* (2017);
/// Mary Karr *The Art of Memoir* (2015); Joan Didion (essays/memoir);
/// Phillip Lopate *To Show and to Tell* (2013)
#[derive(Debug, Clone, PartialEq, Eq)]
pub struct NonfictionNarrativeModeEntry {
    pub slug: String,
    /// "gornick" | "mcphee" | "karr" | "didion" | "lopate"
    pub category: String,
    pub name: String,
    pub definition: Option<String>,
    pub craft_principles: Vec<String>,
    /// McPhee's six structural types
    pub structural_repertoire: Vec<String>,
    /// Karr's five voice principles
    pub voice_principles: Vec<String>,
    /// Didion's five techniques
    pub techniques: Vec<String>,
    pub audit_questions: Vec<String>,
    pub canonical_examples: Vec<CatalogExample>,
}

/// Entry in `08-revision/references/intersectional-modes.yaml`
/// Kimberlé Crenshaw (1989, 1991); Patricia Hill Collins *Black Feminist Thought* (2000);
/// bell hooks *Feminist Theory: From Margin to Center* (1984); Chimamanda Ngozi Adichie
#[derive(Debug, Clone, PartialEq, Eq)]
pub struct IntersectionalModeEntry {
    pub slug: String,
    /// "crenshaw" | "collins" | "hooks" | "failure_patterns"
    pub category: String,
    pub name: String,
    pub definition: Option<String>,
    // Crenshaw
    pub narrative_applications: Vec<String>,
    // Collins
    pub four_domains: Vec<String>,
    // failure_patterns
    pub signs_in_fiction: Vec<String>,
    pub fix: Option<String>,
    // shared
    pub audit_questions: Vec<String>,
    pub canonical_examples: Vec<CatalogExample>,
}

/// Entry in `07-drafting/references/screenwriting-modes.yaml`
/// Syd Field *Screenplay* (1979); Michael Hauge *Writing Screenplays That Sell* (1988/2011);
/// David Bordwell *Narration in the Fiction Film* (1985); Robert McKee *Story* (1997);
/// Paul Joseph Gulino *Screenwriting: The Sequence Approach* (2004);
/// Linda Seger *Making a Good Script Great* (3rd ed. 2010)
#[derive(Debug, Clone, PartialEq, Eq)]
pub struct ScreenwritingModeEntry {
    pub slug: String,
    /// "field" | "hauge" | "bordwell" | "mckee" | "gulino" | "seger"
    pub category: String,
    pub name: String,
    pub definition: Option<String>,
    // Field
    pub structural_proportions: Vec<String>,
    pub fiction_translation: Vec<String>,
    // Hauge
    pub stages: Vec<String>,
    pub turning_points: Vec<String>,
    pub identity_markers: Vec<String>,
    pub essence_markers: Vec<String>,
    // Bordwell
    pub craft_implications: Vec<String>,
    pub scale: Vec<String>,
    /// bordwell_suppressive_narration "cheat test" questions
    pub cheat_test: Vec<String>,
    pub examples_in_fiction: Vec<String>,
    // McKee
    pub craft_principles: Vec<String>,
    pub value_examples: Vec<String>,
    pub charge_tracking: Vec<String>,
    pub gap_types: Vec<String>,
    pub archplot_markers: Vec<String>,
    pub miniplot_markers: Vec<String>,
    pub antiplot_markers: Vec<String>,
    pub hierarchy: Vec<String>,
    // Gulino
    pub eight_sequences: Vec<String>,
    // Seger
    pub function_types: Vec<String>,
    pub warning_signs: Vec<String>,
    pub five_stages: Vec<String>,
    pub thematic_mirror_principle: Vec<String>,
    pub subplot_functions: Vec<String>,
    // shared
    pub audit_questions: Vec<String>,
    pub canonical_examples: Vec<CatalogExample>,
}

// ── Relationship roles catalog ────────────────────────────────────────────────

/// The line that opens the dynamics section of a relationship-roles catalog
/// written in the older mixed shape.
pub open spec fn dynamics_marker() -> Seq<char> {
    "\ndynamics:"@
}

/// The two halves of a relationship-roles catalog in the older mixed shape:
/// the role list before the first `\ndynamics:` line, and the dynamics
/// section from `dynamics:` on.  `None` when there is no dynamics section.
pub open spec fn legacy_sections(content: Seq<char>) -> Option<(Seq<char>, Seq<char>)> {
    match crate::text::find_seq(content, dynamics_marker()) {
        Some(p) => Some((content.take(p), content.skip(p + 1))),
        None => None,
    }
}

/// Splits a relationship-roles catalog in the older mixed shape into its role
/// list and its dynamics section (see [`legacy_sections`]).
pub fn split_legacy_roles_catalog(content: &str) -> (r: Option<(String, String)>)
    ensures
        match r {
            Some((roles, dynamics)) => legacy_sections(content@) == Some((roles@, dynamics@)),
            None => legacy_sections(content@) is None,
        },
{
    proof {
        reveal_strlit("\ndynamics:");
    }
    assert("\ndynamics:"@.len() == 10);
    match find_string(content, "\ndynamics:") {
        Some(p) => {
            let n = content.unicode_len();
            let roles = string_at(content, 0, p);
            let dynamics = string_at(content, p + 1, n);
            assert(roles@ =~= content@.take(p as int));
            assert(dynamics@ =~= content@.skip(p + 1));
            Some((roles, dynamics))
        },
        None => None,
    }
}

// ── Catalog slugs ─────────────────────────────────────────────────────────────

/// The slugs under which the plot-type, collision-pattern and trope catalogs
/// file their entries.
#[derive(Debug, Clone, Default)]
pub struct CatalogSlugs {
    pub plot_types: Vec<String>,
    pub collision_patterns: Vec<String>,
    pub tropes: Vec<String>,
}

/// The characters of a list of slugs.
pub open spec fn slugs_view(v: Seq<String>) -> Seq<Seq<char>> {
    v.map_values(|s: String| s@)
}

/// Is `slug` one of `slugs`?
fn has_slug(slugs: &Vec<String>, slug: &str) -> (r: bool)
    ensures
        r == slugs_view(slugs@).contains(slug@),
{
    let ghost sv = slugs_view(slugs@);
    let mut i: usize = 0;
    while i < slugs.len()
        invariant
            i <= slugs@.len(),
            sv == slugs_view(slugs@),
            forall|j: int| 0 <= j < i ==> sv[j] != slug@,
        decreases slugs.len() - i,
    {
        if str_eq(slugs[i].as_str(), slug) {
            assert(sv[i as int] == slug@);
            return true;
        }
        i = i + 1;
    }
    assert forall|j: int| 0 <= j < sv.len() implies sv[j] != slug@ by {}
    false
}

impl CatalogSlugs {
    /// Is `slug` a known plot type?
    pub fn validate_plot_type_slug(&self, slug: &str) -> (r: bool)
        ensures
            r == slugs_view(self.plot_types@).contains(slug@),
    {
        has_slug(&self.plot_types, slug)
    }

    /// Is `slug` a known collision pattern?
    pub fn validate_collision_pattern_slug(&self, slug: &str) -> (r: bool)
        ensures
            r == slugs_view(self.collision_patterns@).contains(slug@),
    {
        has_slug(&self.collision_patterns, slug)
    }

    /// Is `slug` a known trope?
    pub fn validate_trope_slug(&self, slug: &str) -> (r: bool)
        ensures
            r == slugs_view(self.tropes@).contains(slug@),
    {
        has_slug(&self.tropes, slug)
    }
}

} // verus!
