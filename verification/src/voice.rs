//! Voice contract and voice signature types.
//!
//! The [`VoiceContract`] encodes the author's stylistic choices: narrator
//! identity, authority and reliability; sentence craft, vocabulary and affect;
//! and the focalization frameworks in force.
//!
//! [`VoiceSignature`] is a per-character prose fingerprint: how a character's
//! voice sounds in free indirect discourse and dialogue.

use vstd::prelude::*;

use crate::enums::{
    ConsciousnessMode, DiegeticLevel, EngagementMode, FocalizationType, GazeType, KnowledgeScope,
    NarrativeDistance, PactType, PovType, ProfanityLevel, PsychicDistance, ReliabilitySpectrum,
    SentenceArchitecture, SentenceLength, SentenceType, VocabularyLevel, VoiceStructure,
};
use crate::tags::EntityRef;
use crate::text::{owned, str_eq};

verus! {

// ── Voice signature (per character) ───────────────────────────────────────────

/// The prose fingerprint of a single character: how this character's voice
/// bleeds into the narrative through free indirect discourse (FID), dialogue
/// cadence, recurring diction and signature metaphors.
#[derive(Debug, Clone, PartialEq, Eq, Default)]
pub struct VoiceSignature {
    pub character_id: String,
    /// Words, phrases or constructions that signal this character's FID.
    pub fid_markers: Vec<String>,
    /// Characteristic verbal tics or speech patterns.
    pub verbal_tics: Vec<String>,
    /// Default sentence length tendency.
    pub sentence_length: Option<SentenceLength>,
    /// Domain of vocabulary (specialist diction, street slang, archaisms, ...).
    pub vocabulary_domain: Option<String>,
    /// Recurring metaphor or image clusters.
    pub signature_metaphors: Vec<String>,
    /// Words or constructions this character would never use.
    pub diction_exclusions: Vec<String>,
    /// Tonal register range: (minimum, maximum) on a free-text scale.
    pub tonal_range: Option<(String, String)>,
    /// Typical psychic distance when this character is the focalizer.
    pub default_psychic_distance: Option<PsychicDistance>,
    /// Consciousness mode used when rendering this character's interiority.
    pub consciousness_mode: Option<ConsciousnessMode>,
    /// Example of this character's most distinctive passage.
    pub exemplar_passage: Option<String>,
}

// ── Per-character FID table entry ─────────────────────────────────────────────

/// The free-indirect-discourse markers of one character.
#[derive(Debug, Clone, PartialEq, Eq)]
pub struct FidTableEntry {
    pub character: EntityRef,
    pub markers: Vec<String>,
    pub example: Option<String>,
}

// ── Tonal shift map ───────────────────────────────────────────────────────────

/// A shift of tone and the event that triggers it.
#[derive(Debug, Clone, PartialEq, Eq)]
pub struct TonalShift {
    pub triggering_event: String,
    pub shift_description: String,
    pub prose_marker: Option<String>,
}

// ── Sentence type distribution ────────────────────────────────────────────────

/// The share of one sentence type in the prose.
#[derive(Debug, Clone, PartialEq, Eq)]
pub struct SentenceTypeShare {
    pub sentence_type: SentenceType,
    /// Approximate percentage of sentences of this type (0–100).
    pub percentage: u8,
}

// ── Affect palette ────────────────────────────────────────────────────────────

/// The affect targeted in one type of scene, and the technique for it.
#[derive(Debug, Clone, PartialEq, Eq)]
pub struct AffectPaletteEntry {
    pub scene_type: String,
    pub target_affect: String,
    pub technique: String,
}

// ── Prose style guide ─────────────────────────────────────────────────────────

/// Sentence-level and paragraph-level craft specifications.
#[derive(Debug, Clone, PartialEq, Eq, Default)]
pub struct ProseStyleGuide {
    pub overall_voice_character: Option<String>,
    pub tonal_range: Option<String>,
    pub narrative_distance: Option<NarrativeDistance>,
    pub pov_type: Option<PovType>,
    pub tense: Option<String>,
    // Sentence craft
    pub default_sentence_length: Option<SentenceLength>,
    pub rhythm_pattern: Option<String>,
    pub paragraph_length_tendency: Option<String>,
    pub sentence_type_distribution: Vec<SentenceTypeShare>,
    pub default_sentence_construction: Option<SentenceType>,
    pub asyndeton_polysyndeton_policy: Option<String>,
    // Vocabulary
    pub vocabulary_level: Option<VocabularyLevel>,
    pub vocabulary_embrace: Vec<String>,
    pub vocabulary_avoid: Vec<String>,
    pub archaisms_policy: Option<String>,
    pub profanity: Option<ProfanityLevel>,
    // Affect and atmosphere
    pub affect_palette: Vec<AffectPaletteEntry>,
    pub dominant_minor_affect: Option<String>,
    pub never_feel_like: Vec<String>,
    pub primary_atmospheric_quality: Option<String>,
    pub atmosphere_techniques: Vec<String>,
    pub atmosphere_exception_zones: Vec<String>,
    // Oral performance
    pub sentence_architecture_default: Option<SentenceArchitecture>,
    pub max_pronoun_distance: Option<u8>,
}

// ── Narrative voice ───────────────────────────────────────────────────────────

/// Narrator-level configuration.
#[derive(Debug, Clone, PartialEq, Eq, Default)]
pub struct NarrativeVoice {
    // Narrator identity
    pub narrator_type: Option<String>,
    pub named_or_nameable: Option<bool>,
    pub temporal_position: Option<String>,
    pub existence_implies: Option<String>,
    // Authority
    pub knowledge_scope: Option<KnowledgeScope>,
    pub how_claims_knowledge: Option<String>,
    pub suspicious_knowledge: Vec<String>,
    pub suspicious_gaps: Vec<String>,
    // Reliability
    pub reliability: Option<ReliabilitySpectrum>,
    pub evidence_for_reliability: Vec<String>,
    pub gap_between_claims_and_evidence: Option<String>,
    pub resolvable: Option<bool>,
    // Narrator–reader dynamic
    pub engagement_mode: Option<EngagementMode>,
    pub tonal_attitude: Option<String>,
    pub addresses_reader_directly: Option<bool>,
    pub assumed_reader_knowledge: Option<String>,
    // Tonal range
    pub default_register: Option<String>,
    pub upper_range: Option<String>,
    pub lower_range: Option<String>,
    pub tonal_shifts: Vec<TonalShift>,
    pub violations_to_avoid: Vec<String>,
    // Narrator voice against the characters' FID
    pub narrator_signals: Vec<String>,
    pub character_fid_table: Vec<FidTableEntry>,
    // Implied author
    pub implied_author_profile: Option<String>,
    pub matches_author_intention: Option<bool>,
}

// ── Focalization config ───────────────────────────────────────────────────────

/// Active focalization settings at document or scene level.
#[derive(Debug, Clone, Copy, PartialEq, Eq, Default)]
pub struct FocalizationConfig {
    pub focalization_type: Option<FocalizationType>,
    pub default_psychic_distance: Option<PsychicDistance>,
    pub consciousness_mode: Option<ConsciousnessMode>,
    pub diegetic_level: Option<DiegeticLevel>,
    pub voice_structure: Option<VoiceStructure>,
    pub pact_type: Option<PactType>,
    pub gaze_default: Option<GazeType>,
}

// ── Full voice contract ───────────────────────────────────────────────────────

/// The complete voice contract: narrative voice, prose style and
/// focalization, plus a voice signature per character.
#[derive(Debug, Clone, PartialEq, Eq, Default)]
pub struct VoiceContract {
    /// Project-level narrative voice specification.
    pub narrative_voice: NarrativeVoice,
    /// Sentence-level and paragraph-level style guide.
    pub prose_style: ProseStyleGuide,
    /// Focalization and POV configuration.
    pub focalization: FocalizationConfig,
    /// Per-character voice signatures, keyed by character slug.  A slug keys
    /// at most one signature (see [`VoiceContract::keys_distinct`]).
    pub character_signatures: Vec<(String, VoiceSignature)>,
}

/// The index of the first entry of `entries` keyed by `key`, if any.
pub open spec fn first_keyed<T>(entries: Seq<(String, T)>, key: Seq<char>) -> Option<int>
    decreases entries.len(),
{
    if entries.len() == 0 {
        None
    } else if entries[0].0@ == key {
        Some(0)
    } else {
        match first_keyed(entries.drop_first(), key) {
            Some(i) => Some(i + 1),
            None => None,
        }
    }
}

/// `first_keyed` answers with the first entry carrying the key.
pub proof fn lemma_first_keyed<T>(entries: Seq<(String, T)>, key: Seq<char>)
    ensures
        match first_keyed(entries, key) {
            Some(i) => 0 <= i < entries.len() && entries[i].0@ == key && forall|j: int|
                0 <= j < i ==> #[trigger] entries[j].0@ != key,
            None => forall|j: int| 0 <= j < entries.len() ==> #[trigger] entries[j].0@ != key,
        },
    decreases entries.len(),
{
    if entries.len() > 0 && entries[0].0@ != key {
        lemma_first_keyed(entries.drop_first(), key);
        assert forall|j: int| 0 < j < entries.len() implies entries[j] == entries.drop_first()[j
            - 1] by {}
    }
}

/// No two entries share a key.
pub open spec fn keys_distinct<T>(entries: Seq<(String, T)>) -> bool {
    forall|i: int, j: int|
        0 <= i < j < entries.len() ==> #[trigger] entries[i].0@ != #[trigger] entries[j].0@
}

/// The value keyed by `key`: the first entry carrying it, which is the only
/// one when keys are distinct.
pub fn find_keyed<'a, T>(entries: &'a Vec<(String, T)>, key: &str) -> (r: Option<&'a T>)
    ensures
        match first_keyed(entries@, key@) {
            Some(i) => r == Some(&entries@[i].1),
            None => r is None,
        },
{
    proof {
        lemma_first_keyed(entries@, key@);
    }
    let mut i: usize = 0;
    while i < entries.len()
        invariant
            i <= entries@.len(),
            forall|j: int| 0 <= j < i ==> #[trigger] entries@[j].0@ != key@,
            match first_keyed(entries@, key@) {
                Some(k) => 0 <= k < entries@.len() && entries@[k].0@ == key@ && forall|j: int|
                    0 <= j < k ==> #[trigger] entries@[j].0@ != key@,
                None => forall|j: int| 0 <= j < entries@.len() ==> #[trigger] entries@[j].0@ != key@,
            },
        decreases entries.len() - i,
    {
        if str_eq(entries[i].0.as_str(), key) {
            return Some(&entries[i].1);
        }
        i = i + 1;
    }
    None
}

impl VoiceContract {
    /// Each character slug keys at most one signature.
    pub open spec fn keys_distinct(&self) -> bool {
        keys_distinct(self.character_signatures@)
    }

    /// The voice signature of the character with this slug.
    pub fn voice_signature(&self, character_slug: &str) -> (r: Option<&VoiceSignature>)
        ensures
            match first_keyed(self.character_signatures@, character_slug@) {
                Some(i) => r == Some(&self.character_signatures@[i].1),
                None => r is None,
            },
    {
        find_keyed(&self.character_signatures, character_slug)
    }
}

/// With distinct keys, the signature found for a slug is the one entry keyed
/// by it.
pub proof fn lemma_keyed_entry_unique<T>(entries: Seq<(String, T)>, key: Seq<char>, i: int)
    requires
        keys_distinct(entries),
        0 <= i < entries.len(),
        entries[i].0@ == key,
    ensures
        first_keyed(entries, key) == Some(i),
{
    lemma_first_keyed(entries, key);
    match first_keyed(entries, key) {
        Some(k) => {
            if k < i {
                assert(entries[k].0@ != entries[i].0@);
            } else if k > i {
                assert(entries[i].0@ != key);
            }
        },
        None => {
            assert(entries[i].0@ != key);
        },
    }
}

// ── TTS voice profile ─────────────────────────────────────────────────────────

/// Audio voice profile for text-to-speech synthesis, linked to the character
/// it voices.
#[derive(Debug, Clone, PartialEq, Eq)]
pub struct TtsVoiceProfile {
    /// Speaker directory name.
    pub name: String,
    /// Character entity this voice belongs to (a narrator may not be one).
    pub character_ref: Option<EntityRef>,
    pub language: String,
    /// Tone → relative path to a reference recording, keyed by tone.
    pub reference_wavs: Vec<(String, String)>,
    pub fallback_tone: String,
    /// Path to a fine-tuned checkpoint, if one exists.
    pub checkpoint: Option<String>,
}

impl Default for TtsVoiceProfile {
    /// An unnamed English profile with no recordings, falling back to the
    /// neutral tone.
    fn default() -> (r: Self)
        ensures
            r.name@ == Seq::<char>::empty(),
            r.character_ref is None,
            r.language@ == "en"@,
            r.reference_wavs@.len() == 0,
            r.fallback_tone@ == "neutral"@,
            r.checkpoint is None,
    {
        TtsVoiceProfile {
            name: String::new(),
            character_ref: None,
            language: owned("en"),
            reference_wavs: Vec::new(),
            fallback_tone: owned("neutral"),
            checkpoint: None,
        }
    }
}

} // verus!
