//! Core declared entities and their registry.
//!
//! These are the named things that exist in the story world and are referenced
//! throughout via `<!-- key:slug -->` annotation tags.  Each entity type has an
//! explicit schema; there are no catch-all dictionaries.
//!
//! The [`EntityRegistry`] is a typed, multi-kind store; every [`EntityRef`]
//! slug can be checked against it ([`EntityRegistry::validate_refs`]).

use vstd::prelude::*;

use indexmap::IndexMap;

use crate::enums::{
    Act, Actant, Alignment, ArcPattern, ArcType, Archetype, ConflictType,
    CraftRating, DominantSense, DriveModel, MotifStage, OutcomeType, PromisePhase,
    PromiseStatus, RevisionFlag, Role, SceneFunction, SceneType, TensionLevel, TimeOfDay,
    Weather, Wound,
};
/// Thread complexity and promise priority, as the entities use them.
pub use crate::enums::{Complexity, Priority};
use crate::tags::{opt_ref_view, refs_view, EntityRef};
use crate::text::owned;
use crate::voice::{find_keyed, first_keyed, keys_distinct, lemma_first_keyed, VoiceSignature};

verus! {

/// An insertion-ordered map of the `indexmap` crate, carried through
/// unchanged: no logic of this library reads inside one.
#[verifier::external_type_specification]
#[verifier::external_body]
#[verifier::reject_recursive_types(K)]
#[verifier::reject_recursive_types(V)]
#[verifier::reject_recursive_types(S)]
pub struct ExIndexMap<K, V, S>(IndexMap<K, V, S>);

// ── Character ─────────────────────────────────────────────────────────────────

/// A declared character entity.  Its voice fingerprint lives in
/// `voice_signature`.
#[derive(Debug, Clone, PartialEq, Eq)]
pub struct Character {
    /// Snake-case identifier used in `<!-- character:slug -->` tags.
    pub id: String,
    pub name: String,
    pub slot: Option<String>,
    pub archetype: Option<Archetype>,
    pub wound: Option<Wound>,
    pub alignment: Option<Alignment>,
    pub role: Option<Role>,
    pub drive_model: Option<DriveModel>,
    pub arc_type: Option<ArcType>,
    /// Greimas actantial role in the story.
    pub actant: Option<Actant>,
    /// The character's ghost: the origin of the internal wound.  (Written
    /// `ghost` in documents; the field is named apart from the keyword.)
    pub ghost_origin: Option<String>,
    /// The character's want (external goal).
    pub want: Option<String>,
    /// The character's need (thematic truth).
    pub need: Option<String>,
    /// The character's flaw.
    pub flaw: Option<String>,
    /// Voice fingerprint.
    pub voice_signature: Option<VoiceSignature>,
}

impl Character {
    /// A reference to this character, by its id.
    pub fn entity_ref(&self) -> (r: EntityRef)
        ensures
            r@ == self.id@,
    {
        EntityRef::new(self.id.as_str())
    }
}

// ── Relationship ──────────────────────────────────────────────────────────────

/// A declared relationship between two entities.
#[derive(Debug, Clone, PartialEq, Eq)]
pub struct Relationship {
    pub source: EntityRef,
    pub target: EntityRef,
    pub rel_type: String,
    pub description: Option<String>,
    pub dynamic_at_start: Option<String>,
    pub dynamic_at_end: Option<String>,
    pub power_balance: Option<String>,
}

// ── Setting ───────────────────────────────────────────────────────────────────

/// A declared setting (location) entity.
#[derive(Debug)]
pub struct Setting {
    pub id: String,
    pub name: String,
    pub general_vibe: Option<String>,
    pub sensory: Option<SensoryPalette>,
    /// Three go-to sensory details that define this place.
    pub sensory_signature: Option<[String; 3]>,
}

impl Setting {
    /// A reference to this setting, by its id.
    pub fn entity_ref(&self) -> (r: EntityRef)
        ensures
            r@ == self.id@,
    {
        EntityRef::new(self.id.as_str())
    }
}

/// The sensory palette of a setting, sense by sense.
#[derive(Debug)]
pub struct SensoryPalette {
    pub visual: Option<VisualDetails>,
    pub sounds: Option<SoundDetails>,
    pub smells: Option<SmellDetails>,
    pub textures: Option<TextureDetails>,
    pub tastes: Option<TasteDetails>,
}

/// What a setting looks like.
#[derive(Debug)]
pub struct VisualDetails {
    pub light_quality: Option<String>,
    pub dominant_colors: Vec<String>,
    pub movement: Option<String>,
    pub visual_textures: Option<String>,
    pub points_of_focus: Option<String>,
    pub contrast: Option<String>,
    pub by_time_of_day: IndexMap<TimeOfDay, String>,
    pub by_weather: IndexMap<Weather, String>,
}

/// What a setting sounds like.
#[derive(Debug)]
pub struct SoundDetails {
    pub ambient_soundscape: Option<String>,
    pub specific_sounds: Vec<String>,
    pub volume_and_rhythm: Option<String>,
    pub human_voices: Option<String>,
    pub silence_qualities: Option<String>,
    pub by_time_of_day: IndexMap<TimeOfDay, String>,
}

/// What a setting smells like.
#[derive(Debug)]
pub struct SmellDetails {
    pub dominant_scent: Option<String>,
    pub layered_scents: Vec<String>,
    pub pleasant_vs_unpleasant: Option<String>,
    pub olfactory_associations: Option<String>,
    pub by_season_or_weather: IndexMap<String, String>,
}

/// What a setting feels like to the touch.
#[derive(Debug, Clone, PartialEq, Eq)]
pub struct TextureDetails {
    pub surfaces: Vec<String>,
    pub temperature: Option<String>,
    pub air_quality: Option<String>,
    pub typical_contact: Option<String>,
}

/// What a setting tastes like.
#[derive(Debug, Clone, PartialEq, Eq)]
pub struct TasteDetails {
    pub food_drink: Option<String>,
    pub air_taste: Option<String>,
    pub common_flavors: Option<String>,
}

// ── Beat ──────────────────────────────────────────────────────────────────────

/// A structural beat of the story.
#[derive(Debug, Clone, PartialEq, Eq)]
pub struct Beat {
    pub id: String,
    pub label: String,
    pub description: Option<String>,
    pub act: Option<Act>,
    pub order: u32,
    /// The position in the story, a fraction 0–1, held as the bit pattern
    /// of its IEEE-754 single-precision value.
    pub story_position: Option<u32>,
    pub associated_threads: Vec<EntityRef>,
}

impl Beat {
    /// A reference to this beat, by its id.
    pub fn entity_ref(&self) -> (r: EntityRef)
        ensures
            r@ == self.id@,
    {
        EntityRef::new(self.id.as_str())
    }
}

// ── Motif / Symbol ────────────────────────────────────────────────────────────

/// One appearance of a motif.
#[derive(Debug, Clone, PartialEq, Eq)]
pub struct MotifAppearance {
    pub chapter: Option<String>,
    pub scene: Option<EntityRef>,
    pub context: String,
    pub meaning_shift: Option<String>,
}

/// A declared motif and its evolution.
#[derive(Debug, Clone, PartialEq, Eq)]
pub struct Motif {
    pub id: String,
    pub associated_theme: Option<String>,
    pub first_appearance: Option<MotifAppearance>,
    pub subsequent_appearances: Vec<MotifAppearance>,
    pub evolution: Option<String>,
    pub final_payoff: Option<String>,
    pub cliche_risk: Option<String>,
    pub current_stage: Option<MotifStage>,
}

impl Motif {
    /// A reference to this motif, by its id.
    pub fn entity_ref(&self) -> (r: EntityRef)
        ensures
            r@ == self.id@,
    {
        EntityRef::new(self.id.as_str())
    }
}

/// A declared symbol: an object or image and its meanings.
#[derive(Debug, Clone, PartialEq, Eq)]
pub struct Symbol {
    pub id: String,
    pub object_or_image: String,
    pub literal_meaning: Option<String>,
    pub symbolic_meaning: Option<String>,
    pub key_scenes: Vec<EntityRef>,
    pub when_established: Option<String>,
}

impl Symbol {
    /// A reference to this symbol, by its id.
    pub fn entity_ref(&self) -> (r: EntityRef)
        ensures
            r@ == self.id@,
    {
        EntityRef::new(self.id.as_str())
    }
}

/// A leitmotif: an element tied to a character.
#[derive(Debug, Clone, PartialEq, Eq)]
pub struct Leitmotif {
    pub id: String,
    pub character: EntityRef,
    pub associated_element: String,
    pub introduced_in: Option<String>,
    pub appears_in: Vec<String>,
    pub emotional_function: Option<String>,
}

// ── Thread / Subplot ──────────────────────────────────────────────────────────

/// A narrative thread (subplot) and the characters in it.
#[derive(Debug, Clone, PartialEq, Eq)]
pub struct Thread {
    pub id: String,
    pub label: String,
    pub characters: Vec<EntityRef>,
    pub description: Option<String>,
}

impl Thread {
    /// A reference to this thread, by its id.
    pub fn entity_ref(&self) -> (r: EntityRef)
        ensures
            r@ == self.id@,
    {
        EntityRef::new(self.id.as_str())
    }
}

// ── Promise (hermeneutic code) ────────────────────────────────────────────────

/// A narrative promise: a question raised and, eventually, answered.
#[derive(Debug, Clone, PartialEq, Eq)]
pub struct Promise {
    pub id: String,
    pub question: String,
    pub phase: Option<PromisePhase>,
    pub status: PromiseStatus,
    pub planted_in: Option<EntityRef>,
    pub paid_off_in: Option<EntityRef>,
}

impl Promise {
    /// A reference to this promise, by its id.
    pub fn entity_ref(&self) -> (r: EntityRef)
        ensures
            r@ == self.id@,
    {
        EntityRef::new(self.id.as_str())
    }
}

// ── Scene ─────────────────────────────────────────────────────────────────────

/// A declared scene card.
#[derive(Debug, Clone, PartialEq, Eq)]
pub struct Scene {
    pub id: String,
    pub working_title: Option<String>,
    pub story_position: Option<String>,
    pub pov_character: Option<EntityRef>,
    pub attending_characters: Vec<EntityRef>,
    pub setting: Option<EntityRef>,
    pub time_of_day: Option<String>,
    pub weather: Option<String>,
    // Scene proper
    pub goal: Option<String>,
    pub why_goal_matters: Option<String>,
    pub plan: Option<String>,
    pub opponent_or_obstacle: Option<String>,
    pub conflict_type: Vec<ConflictType>,
    pub escalation_beats: Vec<String>,
    pub dialogue_strategy: Option<String>,
    pub action_strategy: Option<String>,
    pub emotional_escalation: Option<String>,
    pub outcome_type: Option<OutcomeType>,
    pub what_changed: Option<SceneChanges>,
    pub new_information: Option<String>,
    pub plant_or_setup: Option<String>,
    // Sequel
    pub sequel: Option<SceneSequel>,
    // Sensory grounding
    pub dominant_sense: Option<DominantSense>,
    pub key_sensory_details: Vec<String>,
    pub emotional_weather: Option<String>,
    pub scene_unique_image: Option<String>,
    pub pacing_notes: Option<String>,
    // Meta
    pub target_word_count: Option<u32>,
    pub complexity: Option<Complexity>,
    pub priority: Option<Priority>,
    pub narrative_threads: Vec<EntityRef>,
    // Sequence context (set when the scene is resolved within a sequence)
    pub sequence_id: Option<EntityRef>,
    pub scene_type: Option<SceneType>,
    pub tension_level: Option<u8>,
}

/// What a scene changed.
#[derive(Debug, Clone, PartialEq, Eq)]
pub struct SceneChanges {
    pub plot: Option<String>,
    pub character: Option<String>,
    pub stakes: Option<String>,
}

/// The sequel half of a scene: reaction, dilemma, decision.
#[derive(Debug, Clone, PartialEq, Eq)]
pub struct SceneSequel {
    pub immediate_emotional_response: Option<String>,
    pub physical_reaction: Option<String>,
    pub processing_duration: Option<String>,
    pub the_problem: Option<String>,
    pub options: Vec<SequelOption>,
    pub why_difficult: Option<String>,
    pub internal_conflict: Option<String>,
    pub choice: Option<String>,
    pub why_this_choice: Option<String>,
    pub new_goal: Option<String>,
}

/// One option weighed in a sequel.
#[derive(Debug, Clone, PartialEq, Eq)]
pub struct SequelOption {
    pub label: String,
    pub description: Option<String>,
    pub consequence: Option<String>,
}

impl Scene {
    /// A reference to this scene, by its id.
    pub fn entity_ref(&self) -> (r: EntityRef)
        ensures
            r@ == self.id@,
    {
        EntityRef::new(self.id.as_str())
    }
}

// ── Scene sequence ────────────────────────────────────────────────────────────

/// A sequence of scenes with a shared question.
#[derive(Debug, Clone, PartialEq, Eq)]
pub struct SceneSequence {
    pub id: String,
    pub name: String,
    pub story_position: Option<String>,
    pub function: Vec<SceneFunction>,
    pub central_question: Option<String>,
    pub tension_level: Option<TensionLevel>,
    pub arc_pattern: Option<ArcPattern>,
    pub scenes: Vec<SequenceScene>,
    // Analysis
    pub tension_progression: Option<String>,
    pub causality_chain: Option<String>,
    pub emotional_arc_start: Option<String>,
    pub emotional_arc_end: Option<String>,
    pub transition_in: Option<String>,
    pub transition_out: Option<String>,
}

/// A scene's place in a sequence.
#[derive(Debug, Clone, PartialEq, Eq)]
pub struct SequenceScene {
    pub scene_ref: EntityRef,
    pub scene_type: Option<SceneType>,
    pub goal: Option<String>,
    pub outcome: Option<String>,
    pub tension: Option<u8>,
    pub causality_from_previous: Option<String>,
    pub causality_to_next: Option<String>,
    pub key_function: Option<String>,
    pub threads: Vec<EntityRef>,
}

// ── Chapter ───────────────────────────────────────────────────────────────────

/// A chapter plan and its post-draft assessment.
#[derive(Debug, Clone, PartialEq, Eq)]
pub struct Chapter {
    pub id: String,
    pub number: u32,
    pub title: Option<String>,
    pub word_count_target: Option<u32>,
    pub pov_characters: Vec<EntityRef>,
    pub time_and_setting: Option<String>,
    /// The position in the story as a percentage, held as the bit pattern of
    /// its IEEE-754 single-precision value.
    pub story_position_pct: Option<u32>,
    pub act_section: Option<String>,
    pub beats_covered: Vec<EntityRef>,
    pub scenes: Vec<ChapterScene>,
    // Goals
    pub plot_goals: Vec<String>,
    pub character_goals: Vec<String>,
    pub information_goals: Vec<String>,
    pub thematic_goals: Vec<String>,
    // Constraints
    pub must_include: Vec<String>,
    pub must_avoid: Vec<String>,
    pub continuity_notes: Vec<String>,
    // Post-draft assessment
    pub assessment: Option<ChapterAssessment>,
}

/// One scene planned in a chapter.
#[derive(Debug, Clone, PartialEq, Eq)]
pub struct ChapterScene {
    pub goal: String,
    pub conflict: Option<String>,
    pub outcome: Option<String>,
    pub transition: Option<String>,
}

/// The post-draft assessment of a chapter.
#[derive(Debug, Clone, PartialEq, Eq)]
pub struct ChapterAssessment {
    pub word_count_actual: Option<u32>,
    pub opening_hook: Option<CraftRating>,
    pub ending: Option<CraftRating>,
    pub pacing: Option<CraftRating>,
    pub tension: Option<CraftRating>,
    pub dialogue: Option<CraftRating>,
    pub description: Option<CraftRating>,
    pub pov_consistency: Option<CraftRating>,
    pub style_compliance: Option<CraftRating>,
    pub problem_areas: Vec<ProblemArea>,
    pub discoveries: Option<String>,
    pub revision_flags: Vec<RevisionFlag>,
}

/// A problem found in a drafted chapter.
#[derive(Debug, Clone, PartialEq, Eq)]
pub struct ProblemArea {
    pub lines: String,
    pub description: String,
}

// ── Entity registry ───────────────────────────────────────────────────────────

/// A typed, multi-kind store of declared entities, each kind keyed by slug.
#[derive(Debug, Default)]
pub struct EntityRegistry {
    pub characters: Vec<(String, Character)>,
    pub settings: Vec<(String, Setting)>,
    pub beats: Vec<(String, Beat)>,
    pub motifs: Vec<(String, Motif)>,
    pub symbols: Vec<(String, Symbol)>,
    pub leitmotifs: Vec<(String, Leitmotif)>,
    pub threads: Vec<(String, Thread)>,
    pub promises: Vec<(String, Promise)>,
    pub scenes: Vec<(String, Scene)>,
    pub sequences: Vec<(String, SceneSequence)>,
    pub chapters: Vec<(String, Chapter)>,
}

/// The keys of a keyed list, in order.
pub open spec fn registry_keys<T>(entries: Seq<(String, T)>) -> Seq<Seq<char>> {
    entries.map_values(|e: (String, T)| e.0@)
}

/// A one-element list for a present value, an empty one otherwise.
pub open spec fn opt_list(o: Option<Seq<char>>) -> Seq<Seq<char>> {
    match o {
        Some(x) => seq![x],
        None => Seq::empty(),
    }
}

/// One report line `before + slug + after` for each slug missing from `keys`,
/// in order.
pub open spec fn unresolved(
    keys: Seq<Seq<char>>,
    slugs: Seq<Seq<char>>,
    before: Seq<char>,
    after: Seq<char>,
) -> Seq<Seq<char>>
    decreases slugs.len(),
{
    if slugs.len() == 0 {
        Seq::empty()
    } else {
        unresolved(keys, slugs.drop_last(), before, after) + if keys.contains(slugs.last()) {
            Seq::empty()
        } else {
            seq![before + slugs.last() + after]
        }
    }
}

/// The scene an appearance names, if any.
pub open spec fn appearance_scene(a: MotifAppearance) -> Seq<Seq<char>> {
    opt_list(opt_ref_view(a.scene))
}

/// The scenes named by a list of appearances, in order.
pub open spec fn appearances_scenes(s: Seq<MotifAppearance>) -> Seq<Seq<char>>
    decreases s.len(),
{
    if s.len() == 0 {
        Seq::empty()
    } else {
        appearances_scenes(s.drop_last()) + appearance_scene(s.last())
    }
}

/// The scenes a motif's appearances name: the first appearance, then the
/// subsequent ones.
pub open spec fn motif_scenes(m: Motif) -> Seq<Seq<char>> {
    (match m.first_appearance {
        Some(a) => appearance_scene(a),
        None => Seq::empty(),
    }) + appearances_scenes(m.subsequent_appearances@)
}

/// The scenes of a sequence, in order.
pub open spec fn sequence_scenes(ss: Seq<SequenceScene>) -> Seq<Seq<char>>
    decreases ss.len(),
{
    if ss.len() == 0 {
        Seq::empty()
    } else {
        sequence_scenes(ss.drop_last()) + seq![ss.last().scene_ref@]
    }
}

/// The threads the scenes of a sequence name, scene by scene.
pub open spec fn sequence_threads(ss: Seq<SequenceScene>) -> Seq<Seq<char>>
    decreases ss.len(),
{
    if ss.len() == 0 {
        Seq::empty()
    } else {
        sequence_threads(ss.drop_last()) + refs_view(ss.last().threads@)
    }
}

/// Is some entry keyed by `key`?
fn has_entry<T>(entries: &Vec<(String, T)>, key: &str) -> (r: bool)
    ensures
        r == registry_keys(entries@).contains(key@),
{
    let found = find_keyed(entries, key);
    proof {
        lemma_first_keyed(entries@, key@);
        let keys = registry_keys(entries@);
        match first_keyed(entries@, key@) {
            Some(i) => {
                assert(keys[i] == key@);
            },
            None => {
                assert forall|j: int| 0 <= j < keys.len() implies keys[j] != key@ by {
                    assert(entries@[j].0@ != key@);
                }
            },
        }
    }
    found.is_some()
}

/// The strings of a list of report lines.
pub open spec fn lines_view(v: Seq<String>) -> Seq<Seq<char>> {
    v.map_values(|s: String| s@)
}

/// Appends `before + slug + after` when `slug` keys no entry.
fn report_missing<T>(
    errors: &mut Vec<String>,
    entries: &Vec<(String, T)>,
    slug: &str,
    before: &str,
    after: &str,
)
    ensures
        lines_view(final(errors)@) == lines_view(old(errors)@) + if registry_keys(
            entries@,
        ).contains(slug@) {
            Seq::<Seq<char>>::empty()
        } else {
            seq![before@ + slug@ + after@]
        },
{
    let ghost prev = errors@;
    if has_entry(entries, slug) {
        assert(lines_view(errors@) =~= lines_view(prev) + Seq::<Seq<char>>::empty());
    } else {
        let mut line = owned(before);
        line.append(slug);
        line.append(after);
        errors.push(line);
        assert(errors@ == prev.push(line));
        assert(lines_view(errors@) =~= lines_view(prev) + seq![before@ + slug@ + after@]);
    }
}

/// Appends a line for each slug of `refs` that keys no entry.
fn report_missing_all<T>(
    errors: &mut Vec<String>,
    entries: &Vec<(String, T)>,
    refs: &Vec<EntityRef>,
    before: &str,
    after: &str,
)
    ensures
        lines_view(final(errors)@) == lines_view(old(errors)@) + unresolved(
            registry_keys(entries@),
            refs_view(refs@),
            before@,
            after@,
        ),
{
    let ghost base = lines_view(errors@);
    let ghost slugs = refs_view(refs@);
    let mut i: usize = 0;
    while i < refs.len()
        invariant
            i <= refs@.len(),
            slugs == refs_view(refs@),
            lines_view(errors@) == base + unresolved(
                registry_keys(entries@),
                slugs.take(i as int),
                before@,
                after@,
            ),
        decreases refs.len() - i,
    {
        assert(slugs.take(i + 1).drop_last() =~= slugs.take(i as int));
        assert(slugs.take(i + 1).last() == refs@[i as int]@);
        report_missing(errors, entries, refs[i].slug.as_str(), before, after);
        i = i + 1;
        assert(lines_view(errors@) =~= base + unresolved(
            registry_keys(entries@),
            slugs.take(i as int),
            before@,
            after@,
        ));
    }
    assert(slugs.take(refs@.len() as int) =~= slugs);
}

/// Appends a line when the optional reference is present and keys no entry.
fn report_missing_opt<T>(
    errors: &mut Vec<String>,
    entries: &Vec<(String, T)>,
    r: &Option<EntityRef>,
    before: &str,
    after: &str,
)
    ensures
        lines_view(final(errors)@) == lines_view(old(errors)@) + unresolved(
            registry_keys(entries@),
            opt_list(opt_ref_view(*r)),
            before@,
            after@,
        ),
{
    match r {
        Some(x) => {
            let ghost one = opt_list(opt_ref_view(*r));
            let ghost keys = registry_keys(entries@);
            let ghost line: Seq<Seq<char>> = if keys.contains(x@) {
                Seq::empty()
            } else {
                seq![before@ + x@ + after@]
            };
            assert(one =~= seq![x@]);
            assert(one.drop_last() =~= Seq::<Seq<char>>::empty());
            assert(unresolved(keys, Seq::<Seq<char>>::empty(), before@, after@)
                =~= Seq::<Seq<char>>::empty());
            assert(one.last() == x@);
            assert(unresolved(keys, one, before@, after@) =~= line);
            report_missing(errors, entries, x.slug.as_str(), before, after);
        },
        None => {
            assert(lines_view(errors@) =~= lines_view(old(errors)@) + Seq::<Seq<char>>::empty());
        },
    }
}

/// `prefix + id + middle`, the start of a report line.
fn line_head(prefix: &str, id: &str, middle: &str) -> (r: String)
    ensures
        r@ == prefix@ + id@ + middle@,
{
    let mut s = owned(prefix);
    s.append(id);
    s.append(middle);
    s
}

/// Appends a line when the reference keys no entry.
fn report_missing_one<T>(
    errors: &mut Vec<String>,
    entries: &Vec<(String, T)>,
    r: &EntityRef,
    before: &str,
    after: &str,
)
    ensures
        lines_view(final(errors)@) == lines_view(old(errors)@) + unresolved(
            registry_keys(entries@),
            seq![r@],
            before@,
            after@,
        ),
{
    let ghost one = seq![r@];
    let ghost keys = registry_keys(entries@);
    assert(one.drop_last() =~= Seq::<Seq<char>>::empty());
    assert(unresolved(keys, Seq::<Seq<char>>::empty(), before@, after@) =~= Seq::<Seq<char>>::empty());
    assert(one.last() == r@);
    report_missing(errors, entries, r.slug.as_str(), before, after);
    assert(unresolved(keys, one, before@, after@) =~= (if keys.contains(r@) {
        Seq::<Seq<char>>::empty()
    } else {
        seq![before@ + r@ + after@]
    }));
}

/// Appends a line for each slug of `slugs` that keys no entry.
fn report_missing_strs<T>(
    errors: &mut Vec<String>,
    entries: &Vec<(String, T)>,
    slugs: &Vec<String>,
    before: &str,
    after: &str,
)
    ensures
        lines_view(final(errors)@) == lines_view(old(errors)@) + unresolved(
            registry_keys(entries@),
            lines_view(slugs@),
            before@,
            after@,
        ),
{
    let ghost base = lines_view(errors@);
    let ghost sv = lines_view(slugs@);
    let mut i: usize = 0;
    while i < slugs.len()
        invariant
            i <= slugs@.len(),
            sv == lines_view(slugs@),
            lines_view(errors@) == base + unresolved(
                registry_keys(entries@),
                sv.take(i as int),
                before@,
                after@,
            ),
        decreases slugs.len() - i,
    {
        assert(sv.take(i + 1).drop_last() =~= sv.take(i as int));
        assert(sv.take(i + 1).last() == slugs@[i as int]@);
        report_missing(errors, entries, slugs[i].as_str(), before, after);
        i = i + 1;
        assert(lines_view(errors@) =~= base + unresolved(
            registry_keys(entries@),
            sv.take(i as int),
            before@,
            after@,
        ));
    }
    assert(sv.take(slugs@.len() as int) =~= sv);
}

/// Pushes the scene an appearance names, if any.
fn push_appearance_scene(out: &mut Vec<String>, a: &MotifAppearance)
    ensures
        lines_view(final(out)@) == lines_view(old(out)@) + appearance_scene(*a),
{
    match &a.scene {
        Some(x) => {
            out.push(x.slug.clone());
            assert(lines_view(out@) =~= lines_view(old(out)@) + appearance_scene(*a));
        },
        None => {
            assert(lines_view(out@) =~= lines_view(old(out)@) + appearance_scene(*a));
        },
    }
}

/// The slugs of the scenes a motif's appearances name.
fn motif_scene_slugs(m: &Motif) -> (r: Vec<String>)
    ensures
        lines_view(r@) == motif_scenes(*m),
{
    let mut out: Vec<String> = Vec::new();
    match &m.first_appearance {
        Some(a) => push_appearance_scene(&mut out, a),
        None => {},
    }
    let ghost head = lines_view(out@);
    assert(head =~= (match m.first_appearance {
        Some(a) => appearance_scene(a),
        None => Seq::<Seq<char>>::empty(),
    }));
    let subs = &m.subsequent_appearances;
    let mut i: usize = 0;
    while i < subs.len()
        invariant
            i <= subs@.len(),
            lines_view(out@) == head + appearances_scenes(subs@.take(i as int)),
        decreases subs.len() - i,
    {
        push_appearance_scene(&mut out, &subs[i]);
        assert(subs@.take(i + 1).drop_last() =~= subs@.take(i as int));
        i = i + 1;
    }
    assert(subs@.take(subs@.len() as int) =~= subs@);
    out
}

/// The slugs of the scenes of a sequence.
fn sequence_scene_slugs(ss: &Vec<SequenceScene>) -> (r: Vec<String>)
    ensures
        lines_view(r@) == sequence_scenes(ss@),
{
    let mut out: Vec<String> = Vec::new();
    let mut i: usize = 0;
    while i < ss.len()
        invariant
            i <= ss@.len(),
            lines_view(out@) == sequence_scenes(ss@.take(i as int)),
        decreases ss.len() - i,
    {
        out.push(ss[i].scene_ref.slug.clone());
        assert(ss@.take(i + 1).drop_last() =~= ss@.take(i as int));
        assert(lines_view(out@) =~= sequence_scenes(ss@.take(i + 1)));
        i = i + 1;
    }
    assert(ss@.take(ss@.len() as int) =~= ss@);
    out
}

/// The slugs of the threads the scenes of a sequence name.
fn sequence_thread_slugs(ss: &Vec<SequenceScene>) -> (r: Vec<String>)
    ensures
        lines_view(r@) == sequence_threads(ss@),
{
    let mut out: Vec<String> = Vec::new();
    let mut i: usize = 0;
    while i < ss.len()
        invariant
            i <= ss@.len(),
            lines_view(out@) == sequence_threads(ss@.take(i as int)),
        decreases ss.len() - i,
    {
        let ts = &ss[i].threads;
        let ghost before = lines_view(out@);
        let mut j: usize = 0;
        while j < ts.len()
            invariant
                j <= ts@.len(),
                lines_view(out@) == before + refs_view(ts@.take(j as int)),
            decreases ts.len() - j,
        {
            let ghost prev = out@;
            let x = ts[j].slug.clone();
            assert(x@ == ts@[j as int]@);
            out.push(x);
            assert(lines_view(out@) =~= lines_view(prev).push(x@));
            assert(refs_view(ts@.take(j + 1)) =~= refs_view(ts@.take(j as int)).push(ts@[j as int]@));
            assert(lines_view(out@) =~= before + refs_view(ts@.take(j + 1)));
            j = j + 1;
        }
        assert(ts@.take(ts@.len() as int) =~= ts@);
        assert(ss@.take(i + 1).drop_last() =~= ss@.take(i as int));
        assert(lines_view(out@) =~= sequence_threads(ss@.take(i + 1)));
        i = i + 1;
    }
    assert(ss@.take(ss@.len() as int) =~= ss@);
    out
}

impl EntityRegistry {
    /// Well-formed: within each kind, every slug keys at most one entity, as
    /// in a map keyed by slug.
    pub open spec fn well_formed(&self) -> bool {
        &&& keys_distinct(self.characters@)
        &&& keys_distinct(self.settings@)
        &&& keys_distinct(self.beats@)
        &&& keys_distinct(self.motifs@)
        &&& keys_distinct(self.symbols@)
        &&& keys_distinct(self.leitmotifs@)
        &&& keys_distinct(self.threads@)
        &&& keys_distinct(self.promises@)
        &&& keys_distinct(self.scenes@)
        &&& keys_distinct(self.sequences@)
        &&& keys_distinct(self.chapters@)
    }

    /// An empty registry.
    pub fn new() -> (r: Self)
        ensures
            r.well_formed(),
            r.characters@.len() == 0,
            r.settings@.len() == 0,
            r.beats@.len() == 0,
            r.motifs@.len() == 0,
            r.symbols@.len() == 0,
            r.leitmotifs@.len() == 0,
            r.threads@.len() == 0,
            r.promises@.len() == 0,
            r.scenes@.len() == 0,
            r.sequences@.len() == 0,
            r.chapters@.len() == 0,
    {
        EntityRegistry {
            characters: Vec::new(),
            settings: Vec::new(),
            beats: Vec::new(),
            motifs: Vec::new(),
            symbols: Vec::new(),
            leitmotifs: Vec::new(),
            threads: Vec::new(),
            promises: Vec::new(),
            scenes: Vec::new(),
            sequences: Vec::new(),
            chapters: Vec::new(),
        }
    }

    /// The character a reference names.
    pub fn resolve_character(&self, r: &EntityRef) -> (c: Option<&Character>)
        ensures
            match first_keyed(self.characters@, r@) {
                Some(i) => c == Some(&self.characters@[i].1),
                None => c is None,
            },
    {
        find_keyed(&self.characters, r.slug.as_str())
    }

    /// The setting a reference names.
    pub fn resolve_setting(&self, r: &EntityRef) -> (s: Option<&Setting>)
        ensures
            match first_keyed(self.settings@, r@) {
                Some(i) => s == Some(&self.settings@[i].1),
                None => s is None,
            },
    {
        find_keyed(&self.settings, r.slug.as_str())
    }

    /// The beat a reference names.
    pub fn resolve_beat(&self, r: &EntityRef) -> (b: Option<&Beat>)
        ensures
            match first_keyed(self.beats@, r@) {
                Some(i) => b == Some(&self.beats@[i].1),
                None => b is None,
            },
    {
        find_keyed(&self.beats, r.slug.as_str())
    }

    /// The motif a reference names.
    pub fn resolve_motif(&self, r: &EntityRef) -> (m: Option<&Motif>)
        ensures
            match first_keyed(self.motifs@, r@) {
                Some(i) => m == Some(&self.motifs@[i].1),
                None => m is None,
            },
    {
        find_keyed(&self.motifs, r.slug.as_str())
    }

    /// The leitmotif a reference names.
    pub fn resolve_leitmotif(&self, r: &EntityRef) -> (m: Option<&Leitmotif>)
        ensures
            match first_keyed(self.leitmotifs@, r@) {
                Some(i) => m == Some(&self.leitmotifs@[i].1),
                None => m is None,
            },
    {
        find_keyed(&self.leitmotifs, r.slug.as_str())
    }

    /// The scene a reference names.
    pub fn resolve_scene(&self, r: &EntityRef) -> (s: Option<&Scene>)
        ensures
            match first_keyed(self.scenes@, r@) {
                Some(i) => s == Some(&self.scenes@[i].1),
                None => s is None,
            },
    {
        find_keyed(&self.scenes, r.slug.as_str())
    }

    /// The chapter a reference names.
    pub fn resolve_chapter(&self, r: &EntityRef) -> (c: Option<&Chapter>)
        ensures
            match first_keyed(self.chapters@, r@) {
                Some(i) => c == Some(&self.chapters@[i].1),
                None => c is None,
            },
    {
        find_keyed(&self.chapters, r.slug.as_str())
    }
}

// ── Reference resolution ──────────────────────────────────────────────────────

/// Every slug of `slugs` is one of `keys`.
pub open spec fn all_listed(keys: Seq<Seq<char>>, slugs: Seq<Seq<char>>) -> bool {
    forall|i: int| 0 <= i < slugs.len() ==> keys.contains(#[trigger] slugs[i])
}

/// No report line comes out exactly when every slug resolves.
pub proof fn lemma_unresolved_empty(
    keys: Seq<Seq<char>>,
    slugs: Seq<Seq<char>>,
    before: Seq<char>,
    after: Seq<char>,
)
    ensures
        (unresolved(keys, slugs, before, after).len() == 0) == all_listed(keys, slugs),
    decreases slugs.len(),
{
    if slugs.len() > 0 {
        lemma_unresolved_empty(keys, slugs.drop_last(), before, after);
        if all_listed(keys, slugs) {
            assert forall|i: int| 0 <= i < slugs.drop_last().len() implies keys.contains(
                #[trigger] slugs.drop_last()[i],
            ) by {
                assert(slugs.drop_last()[i] == slugs[i]);
            }
            assert(keys.contains(slugs[slugs.len() - 1]));
        } else {
            let k = choose|k: int| 0 <= k < slugs.len() && !keys.contains(#[trigger] slugs[k]);
            if k < slugs.len() - 1 {
                assert(slugs.drop_last()[k] == slugs[k]);
            }
        }
        if all_listed(keys, slugs.drop_last()) && keys.contains(slugs.last()) {
            assert forall|i: int| 0 <= i < slugs.len() implies keys.contains(#[trigger] slugs[i]) by {
                if i < slugs.len() - 1 {
                    assert(slugs.drop_last()[i] == slugs[i]);
                }
            }
        }
    }
}

/// The dangling references of one scene, in field order.
pub open spec fn scene_ref_errors(reg: EntityRegistry, e: Scene) -> Seq<Seq<char>> {
    unresolved(
        registry_keys(reg.characters@),
        opt_list(opt_ref_view(e.pov_character)),
        "scene '"@ + e.id@ + "': pov_character '"@,
        "' not in registry"@,
    ) + unresolved(
        registry_keys(reg.characters@),
        refs_view(e.attending_characters@),
        "scene '"@ + e.id@ + "': attending character '"@,
        "' not in registry"@,
    ) + unresolved(
        registry_keys(reg.settings@),
        opt_list(opt_ref_view(e.setting)),
        "scene '"@ + e.id@ + "': setting '"@,
        "' not in registry"@,
    ) + unresolved(
        registry_keys(reg.threads@),
        refs_view(e.narrative_threads@),
        "scene '"@ + e.id@ + "': narrative thread '"@,
        "' not in registry"@,
    ) + unresolved(
        registry_keys(reg.sequences@),
        opt_list(opt_ref_view(e.sequence_id)),
        "scene '"@ + e.id@ + "': sequence '"@,
        "' not in registry"@,
    )
}

/// The dangling references of the stored scenes, in stored order.
pub open spec fn scenes_ref_errors(reg: EntityRegistry, es: Seq<(String, Scene)>) -> Seq<Seq<char>>
    decreases es.len(),
{
    if es.len() == 0 {
        Seq::empty()
    } else {
        scenes_ref_errors(reg, es.drop_last()) + scene_ref_errors(reg, es.last().1)
    }
}

/// Every reference of a scene names a declared entity of its kind.
pub open spec fn scene_refs_resolve(reg: EntityRegistry, e: Scene) -> bool {
    all_listed(registry_keys(reg.characters@), opt_list(opt_ref_view(e.pov_character)))
    && all_listed(registry_keys(reg.characters@), refs_view(e.attending_characters@))
    && all_listed(registry_keys(reg.settings@), opt_list(opt_ref_view(e.setting)))
    && all_listed(registry_keys(reg.threads@), refs_view(e.narrative_threads@))
    && all_listed(registry_keys(reg.sequences@), opt_list(opt_ref_view(e.sequence_id)))
}

/// The dangling references of one chapter, in field order.
pub open spec fn chapter_ref_errors(reg: EntityRegistry, e: Chapter) -> Seq<Seq<char>> {
    unresolved(
        registry_keys(reg.characters@),
        refs_view(e.pov_characters@),
        "chapter '"@ + e.id@ + "': pov character '"@,
        "' not in registry"@,
    ) + unresolved(
        registry_keys(reg.beats@),
        refs_view(e.beats_covered@),
        "chapter '"@ + e.id@ + "': beat '"@,
        "' not in registry"@,
    )
}

/// The dangling references of the stored chapters, in stored order.
pub open spec fn chapters_ref_errors(reg: EntityRegistry, es: Seq<(String, Chapter)>) -> Seq<Seq<char>>
    decreases es.len(),
{
    if es.len() == 0 {
        Seq::empty()
    } else {
        chapters_ref_errors(reg, es.drop_last()) + chapter_ref_errors(reg, es.last().1)
    }
}

/// Every reference of a chapter names a declared entity of its kind.
pub open spec fn chapter_refs_resolve(reg: EntityRegistry, e: Chapter) -> bool {
    all_listed(registry_keys(reg.characters@), refs_view(e.pov_characters@))
    && all_listed(registry_keys(reg.beats@), refs_view(e.beats_covered@))
}

/// The dangling references of one beat, in field order.
pub open spec fn beat_ref_errors(reg: EntityRegistry, e: Beat) -> Seq<Seq<char>> {
    unresolved(
        registry_keys(reg.threads@),
        refs_view(e.associated_threads@),
        "beat '"@ + e.id@ + "': thread '"@,
        "' not in registry"@,
    )
}

/// The dangling references of the stored beats, in stored order.
pub open spec fn beats_ref_errors(reg: EntityRegistry, es: Seq<(String, Beat)>) -> Seq<Seq<char>>
    decreases es.len(),
{
    if es.len() == 0 {
        Seq::empty()
    } else {
        beats_ref_errors(reg, es.drop_last()) + beat_ref_errors(reg, es.last().1)
    }
}

/// Every reference of a beat names a declared entity of its kind.
pub open spec fn beat_refs_resolve(reg: EntityRegistry, e: Beat) -> bool {
    all_listed(registry_keys(reg.threads@), refs_view(e.associated_threads@))
}

/// The dangling references of one motif, in field order.
pub open spec fn motif_ref_errors(reg: EntityRegistry, e: Motif) -> Seq<Seq<char>> {
    unresolved(
        registry_keys(reg.scenes@),
        motif_scenes(e),
        "motif '"@ + e.id@ + "': appearance scene '"@,
        "' not in registry"@,
    )
}

/// The dangling references of the stored motifs, in stored order.
pub open spec fn motifs_ref_errors(reg: EntityRegistry, es: Seq<(String, Motif)>) -> Seq<Seq<char>>
    decreases es.len(),
{
    if es.len() == 0 {
        Seq::empty()
    } else {
        motifs_ref_errors(reg, es.drop_last()) + motif_ref_errors(reg, es.last().1)
    }
}

/// Every reference of a motif names a declared entity of its kind.
pub open spec fn motif_refs_resolve(reg: EntityRegistry, e: Motif) -> bool {
    all_listed(registry_keys(reg.scenes@), motif_scenes(e))
}

/// The dangling references of one symbol, in field order.
pub open spec fn symbol_ref_errors(reg: EntityRegistry, e: Symbol) -> Seq<Seq<char>> {
    unresolved(
        registry_keys(reg.scenes@),
        refs_view(e.key_scenes@),
        "symbol '"@ + e.id@ + "': key scene '"@,
        "' not in registry"@,
    )
}

/// The dangling references of the stored symbols, in stored order.
pub open spec fn symbols_ref_errors(reg: EntityRegistry, es: Seq<(String, Symbol)>) -> Seq<Seq<char>>
    decreases es.len(),
{
    if es.len() == 0 {
        Seq::empty()
    } else {
        symbols_ref_errors(reg, es.drop_last()) + symbol_ref_errors(reg, es.last().1)
    }
}

/// Every reference of a symbol names a declared entity of its kind.
pub open spec fn symbol_refs_resolve(reg: EntityRegistry, e: Symbol) -> bool {
    all_listed(registry_keys(reg.scenes@), refs_view(e.key_scenes@))
}

/// The dangling references of one leitmotif, in field order.
pub open spec fn leitmotif_ref_errors(reg: EntityRegistry, e: Leitmotif) -> Seq<Seq<char>> {
    unresolved(
        registry_keys(reg.characters@),
        seq![e.character@],
        "leitmotif '"@ + e.id@ + "': character '"@,
        "' not in registry"@,
    )
}

/// The dangling references of the stored leitmotifs, in stored order.
pub open spec fn leitmotifs_ref_errors(reg: EntityRegistry, es: Seq<(String, Leitmotif)>) -> Seq<Seq<char>>
    decreases es.len(),
{
    if es.len() == 0 {
        Seq::empty()
    } else {
        leitmotifs_ref_errors(reg, es.drop_last()) + leitmotif_ref_errors(reg, es.last().1)
    }
}

/// Every reference of a leitmotif names a declared entity of its kind.
pub open spec fn leitmotif_refs_resolve(reg: EntityRegistry, e: Leitmotif) -> bool {
    all_listed(registry_keys(reg.characters@), seq![e.character@])
}

/// The dangling references of one thread, in field order.
pub open spec fn thread_ref_errors(reg: EntityRegistry, e: Thread) -> Seq<Seq<char>> {
    unresolved(
        registry_keys(reg.characters@),
        refs_view(e.characters@),
        "thread '"@ + e.id@ + "': character '"@,
        "' not in registry"@,
    )
}

/// The dangling references of the stored threads, in stored order.
pub open spec fn threads_ref_errors(reg: EntityRegistry, es: Seq<(String, Thread)>) -> Seq<Seq<char>>
    decreases es.len(),
{
    if es.len() == 0 {
        Seq::empty()
    } else {
        threads_ref_errors(reg, es.drop_last()) + thread_ref_errors(reg, es.last().1)
    }
}

/// Every reference of a thread names a declared entity of its kind.
pub open spec fn thread_refs_resolve(reg: EntityRegistry, e: Thread) -> bool {
    all_listed(registry_keys(reg.characters@), refs_view(e.characters@))
}

/// The dangling references of one promise, in field order.
pub open spec fn promise_ref_errors(reg: EntityRegistry, e: Promise) -> Seq<Seq<char>> {
    unresolved(
        registry_keys(reg.scenes@),
        opt_list(opt_ref_view(e.planted_in)),
        "promise '"@ + e.id@ + "': planted_in scene '"@,
        "' not in registry"@,
    ) + unresolved(
        registry_keys(reg.scenes@),
        opt_list(opt_ref_view(e.paid_off_in)),
        "promise '"@ + e.id@ + "': paid_off_in scene '"@,
        "' not in registry"@,
    )
}

/// The dangling references of the stored promises, in stored order.
pub open spec fn promises_ref_errors(reg: EntityRegistry, es: Seq<(String, Promise)>) -> Seq<Seq<char>>
    decreases es.len(),
{
    if es.len() == 0 {
        Seq::empty()
    } else {
        promises_ref_errors(reg, es.drop_last()) + promise_ref_errors(reg, es.last().1)
    }
}

/// Every reference of a promise names a declared entity of its kind.
pub open spec fn promise_refs_resolve(reg: EntityRegistry, e: Promise) -> bool {
    all_listed(registry_keys(reg.scenes@), opt_list(opt_ref_view(e.planted_in)))
    && all_listed(registry_keys(reg.scenes@), opt_list(opt_ref_view(e.paid_off_in)))
}

/// The dangling references of one sequence, in field order.
pub open spec fn sequence_ref_errors(reg: EntityRegistry, e: SceneSequence) -> Seq<Seq<char>> {
    unresolved(
        registry_keys(reg.scenes@),
        sequence_scenes(e.scenes@),
        "sequence '"@ + e.id@ + "': scene '"@,
        "' not in registry"@,
    ) + unresolved(
        registry_keys(reg.threads@),
        sequence_threads(e.scenes@),
        "sequence '"@ + e.id@ + "': thread '"@,
        "' not in registry"@,
    )
}

/// The dangling references of the stored sequences, in stored order.
pub open spec fn sequences_ref_errors(reg: EntityRegistry, es: Seq<(String, SceneSequence)>) -> Seq<Seq<char>>
    decreases es.len(),
{
    if es.len() == 0 {
        Seq::empty()
    } else {
        sequences_ref_errors(reg, es.drop_last()) + sequence_ref_errors(reg, es.last().1)
    }
}

/// Every reference of a sequence names a declared entity of its kind.
pub open spec fn sequence_refs_resolve(reg: EntityRegistry, e: SceneSequence) -> bool {
    all_listed(registry_keys(reg.scenes@), sequence_scenes(e.scenes@))
    && all_listed(registry_keys(reg.threads@), sequence_threads(e.scenes@))
}

impl EntityRegistry {
    /// Every reference held by a registered entity that names no declared
    /// entity of its kind: scenes, chapters, beats, motifs, symbols,
    /// leitmotifs, threads, promises, then sequences, each in stored order.
    pub open spec fn ref_errors(&self) -> Seq<Seq<char>> {
        scenes_ref_errors(*self, self.scenes@)
            + chapters_ref_errors(*self, self.chapters@)
            + beats_ref_errors(*self, self.beats@)
            + motifs_ref_errors(*self, self.motifs@)
            + symbols_ref_errors(*self, self.symbols@)
            + leitmotifs_ref_errors(*self, self.leitmotifs@)
            + threads_ref_errors(*self, self.threads@)
            + promises_ref_errors(*self, self.promises@)
            + sequences_ref_errors(*self, self.sequences@)
    }

    /// Every reference held by every registered entity names a declared
    /// entity of its kind.
    pub open spec fn refs_resolve(&self) -> bool {
        &&& forall|i: int| 0 <= i < self.scenes@.len() ==> scene_refs_resolve(*self, #[trigger] self.scenes@[i].1)
        &&& forall|i: int| 0 <= i < self.chapters@.len() ==> chapter_refs_resolve(*self, #[trigger] self.chapters@[i].1)
        &&& forall|i: int| 0 <= i < self.beats@.len() ==> beat_refs_resolve(*self, #[trigger] self.beats@[i].1)
        &&& forall|i: int| 0 <= i < self.motifs@.len() ==> motif_refs_resolve(*self, #[trigger] self.motifs@[i].1)
        &&& forall|i: int| 0 <= i < self.symbols@.len() ==> symbol_refs_resolve(*self, #[trigger] self.symbols@[i].1)
        &&& forall|i: int| 0 <= i < self.leitmotifs@.len() ==> leitmotif_refs_resolve(*self, #[trigger] self.leitmotifs@[i].1)
        &&& forall|i: int| 0 <= i < self.threads@.len() ==> thread_refs_resolve(*self, #[trigger] self.threads@[i].1)
        &&& forall|i: int| 0 <= i < self.promises@.len() ==> promise_refs_resolve(*self, #[trigger] self.promises@[i].1)
        &&& forall|i: int| 0 <= i < self.sequences@.len() ==> sequence_refs_resolve(*self, #[trigger] self.sequences@[i].1)
    }

    fn report_scene(&self, errors: &mut Vec<String>, e: &Scene)
        ensures
            lines_view(final(errors)@) == lines_view(old(errors)@) + scene_ref_errors(*self, *e),
    {
        let ghost base = lines_view(errors@);
        let id = e.id.as_str();
        let h0 = line_head("scene '", id, "': pov_character '");
        report_missing_opt(errors, &self.characters, &e.pov_character, h0.as_str(), "' not in registry");
        let h1 = line_head("scene '", id, "': attending character '");
        report_missing_all(errors, &self.characters, &e.attending_characters, h1.as_str(), "' not in registry");
        let h2 = line_head("scene '", id, "': setting '");
        report_missing_opt(errors, &self.settings, &e.setting, h2.as_str(), "' not in registry");
        let h3 = line_head("scene '", id, "': narrative thread '");
        report_missing_all(errors, &self.threads, &e.narrative_threads, h3.as_str(), "' not in registry");
        let h4 = line_head("scene '", id, "': sequence '");
        report_missing_opt(errors, &self.sequences, &e.sequence_id, h4.as_str(), "' not in registry");
        assert(lines_view(errors@) =~= base + scene_ref_errors(*self, *e));
    }

    fn report_chapter(&self, errors: &mut Vec<String>, e: &Chapter)
        ensures
            lines_view(final(errors)@) == lines_view(old(errors)@) + chapter_ref_errors(*self, *e),
    {
        let ghost base = lines_view(errors@);
        let id = e.id.as_str();
        let h0 = line_head("chapter '", id, "': pov character '");
        report_missing_all(errors, &self.characters, &e.pov_characters, h0.as_str(), "' not in registry");
        let h1 = line_head("chapter '", id, "': beat '");
        report_missing_all(errors, &self.beats, &e.beats_covered, h1.as_str(), "' not in registry");
        assert(lines_view(errors@) =~= base + chapter_ref_errors(*self, *e));
    }

    fn report_beat(&self, errors: &mut Vec<String>, e: &Beat)
        ensures
            lines_view(final(errors)@) == lines_view(old(errors)@) + beat_ref_errors(*self, *e),
    {
        let ghost base = lines_view(errors@);
        let id = e.id.as_str();
        let h0 = line_head("beat '", id, "': thread '");
        report_missing_all(errors, &self.threads, &e.associated_threads, h0.as_str(), "' not in registry");
        assert(lines_view(errors@) =~= base + beat_ref_errors(*self, *e));
    }

    fn report_motif(&self, errors: &mut Vec<String>, e: &Motif)
        ensures
            lines_view(final(errors)@) == lines_view(old(errors)@) + motif_ref_errors(*self, *e),
    {
        let ghost base = lines_view(errors@);
        let id = e.id.as_str();
        let h0 = line_head("motif '", id, "': appearance scene '");
        let s0 = motif_scene_slugs(e);
        report_missing_strs(errors, &self.scenes, &s0, h0.as_str(), "' not in registry");
        assert(lines_view(errors@) =~= base + motif_ref_errors(*self, *e));
    }

    fn report_symbol(&self, errors: &mut Vec<String>, e: &Symbol)
        ensures
            lines_view(final(errors)@) == lines_view(old(errors)@) + symbol_ref_errors(*self, *e),
    {
        let ghost base = lines_view(errors@);
        let id = e.id.as_str();
        let h0 = line_head("symbol '", id, "': key scene '");
        report_missing_all(errors, &self.scenes, &e.key_scenes, h0.as_str(), "' not in registry");
        assert(lines_view(errors@) =~= base + symbol_ref_errors(*self, *e));
    }

    fn report_leitmotif(&self, errors: &mut Vec<String>, e: &Leitmotif)
        ensures
            lines_view(final(errors)@) == lines_view(old(errors)@) + leitmotif_ref_errors(*self, *e),
    {
        let ghost base = lines_view(errors@);
        let id = e.id.as_str();
        let h0 = line_head("leitmotif '", id, "': character '");
        report_missing_one(errors, &self.characters, &e.character, h0.as_str(), "' not in registry");
        assert(lines_view(errors@) =~= base + leitmotif_ref_errors(*self, *e));
    }

    fn report_thread(&self, errors: &mut Vec<String>, e: &Thread)
        ensures
            lines_view(final(errors)@) == lines_view(old(errors)@) + thread_ref_errors(*self, *e),
    {
        let ghost base = lines_view(errors@);
        let id = e.id.as_str();
        let h0 = line_head("thread '", id, "': character '");
        report_missing_all(errors, &self.characters, &e.characters, h0.as_str(), "' not in registry");
        assert(lines_view(errors@) =~= base + thread_ref_errors(*self, *e));
    }

    fn report_promise(&self, errors: &mut Vec<String>, e: &Promise)
        ensures
            lines_view(final(errors)@) == lines_view(old(errors)@) + promise_ref_errors(*self, *e),
    {
        let ghost base = lines_view(errors@);
        let id = e.id.as_str();
        let h0 = line_head("promise '", id, "': planted_in scene '");
        report_missing_opt(errors, &self.scenes, &e.planted_in, h0.as_str(), "' not in registry");
        let h1 = line_head("promise '", id, "': paid_off_in scene '");
        report_missing_opt(errors, &self.scenes, &e.paid_off_in, h1.as_str(), "' not in registry");
        assert(lines_view(errors@) =~= base + promise_ref_errors(*self, *e));
    }

    fn report_sequence(&self, errors: &mut Vec<String>, e: &SceneSequence)
        ensures
            lines_view(final(errors)@) == lines_view(old(errors)@) + sequence_ref_errors(*self, *e),
    {
        let ghost base = lines_view(errors@);
        let id = e.id.as_str();
        let h0 = line_head("sequence '", id, "': scene '");
        let s0 = sequence_scene_slugs(&e.scenes);
        report_missing_strs(errors, &self.scenes, &s0, h0.as_str(), "' not in registry");
        let h1 = line_head("sequence '", id, "': thread '");
        let s1 = sequence_thread_slugs(&e.scenes);
        report_missing_strs(errors, &self.threads, &s1, h1.as_str(), "' not in registry");
        assert(lines_view(errors@) =~= base + sequence_ref_errors(*self, *e));
    }

    /// Checks every reference held by a registered entity and returns a
    /// report line for each that names no declared entity of its kind (see
    /// [`EntityRegistry::ref_errors`]).
    pub fn validate_refs(&self) -> (r: Vec<String>)
        ensures
            lines_view(r@) == self.ref_errors(),
    {
        let mut errors: Vec<String> = Vec::new();
        let ghost before_scenes = lines_view(errors@);
        let mut i: usize = 0;
        while i < self.scenes.len()
            invariant
                i <= self.scenes@.len(),
                lines_view(errors@) == before_scenes + scenes_ref_errors(*self, self.scenes@.take(i as int)),
            decreases self.scenes.len() - i,
        {
            self.report_scene(&mut errors, &self.scenes[i].1);
            assert(self.scenes@.take(i + 1).drop_last() =~= self.scenes@.take(i as int));
            i = i + 1;
        }
        assert(self.scenes@.take(self.scenes@.len() as int) =~= self.scenes@);
        let ghost before_chapters = lines_view(errors@);
        let mut i: usize = 0;
        while i < self.chapters.len()
            invariant
                i <= self.chapters@.len(),
                lines_view(errors@) == before_chapters + chapters_ref_errors(*self, self.chapters@.take(i as int)),
            decreases self.chapters.len() - i,
        {
            self.report_chapter(&mut errors, &self.chapters[i].1);
            assert(self.chapters@.take(i + 1).drop_last() =~= self.chapters@.take(i as int));
            i = i + 1;
        }
        assert(self.chapters@.take(self.chapters@.len() as int) =~= self.chapters@);
        let ghost before_beats = lines_view(errors@);
        let mut i: usize = 0;
        while i < self.beats.len()
            invariant
                i <= self.beats@.len(),
                lines_view(errors@) == before_beats + beats_ref_errors(*self, self.beats@.take(i as int)),
            decreases self.beats.len() - i,
        {
            self.report_beat(&mut errors, &self.beats[i].1);
            assert(self.beats@.take(i + 1).drop_last() =~= self.beats@.take(i as int));
            i = i + 1;
        }
        assert(self.beats@.take(self.beats@.len() as int) =~= self.beats@);
        let ghost before_motifs = lines_view(errors@);
        let mut i: usize = 0;
        while i < self.motifs.len()
            invariant
                i <= self.motifs@.len(),
                lines_view(errors@) == before_motifs + motifs_ref_errors(*self, self.motifs@.take(i as int)),
            decreases self.motifs.len() - i,
        {
            self.report_motif(&mut errors, &self.motifs[i].1);
            assert(self.motifs@.take(i + 1).drop_last() =~= self.motifs@.take(i as int));
            i = i + 1;
        }
        assert(self.motifs@.take(self.motifs@.len() as int) =~= self.motifs@);
        let ghost before_symbols = lines_view(errors@);
        let mut i: usize = 0;
        while i < self.symbols.len()
            invariant
                i <= self.symbols@.len(),
                lines_view(errors@) == before_symbols + symbols_ref_errors(*self, self.symbols@.take(i as int)),
            decreases self.symbols.len() - i,
        {
            self.report_symbol(&mut errors, &self.symbols[i].1);
            assert(self.symbols@.take(i + 1).drop_last() =~= self.symbols@.take(i as int));
            i = i + 1;
        }
        assert(self.symbols@.take(self.symbols@.len() as int) =~= self.symbols@);
        let ghost before_leitmotifs = lines_view(errors@);
        let mut i: usize = 0;
        while i < self.leitmotifs.len()
            invariant
                i <= self.leitmotifs@.len(),
                lines_view(errors@) == before_leitmotifs + leitmotifs_ref_errors(*self, self.leitmotifs@.take(i as int)),
            decreases self.leitmotifs.len() - i,
        {
            self.report_leitmotif(&mut errors, &self.leitmotifs[i].1);
            assert(self.leitmotifs@.take(i + 1).drop_last() =~= self.leitmotifs@.take(i as int));
            i = i + 1;
        }
        assert(self.leitmotifs@.take(self.leitmotifs@.len() as int) =~= self.leitmotifs@);
        let ghost before_threads = lines_view(errors@);
        let mut i: usize = 0;
        while i < self.threads.len()
            invariant
                i <= self.threads@.len(),
                lines_view(errors@) == before_threads + threads_ref_errors(*self, self.threads@.take(i as int)),
            decreases self.threads.len() - i,
        {
            self.report_thread(&mut errors, &self.threads[i].1);
            assert(self.threads@.take(i + 1).drop_last() =~= self.threads@.take(i as int));
            i = i + 1;
        }
        assert(self.threads@.take(self.threads@.len() as int) =~= self.threads@);
        let ghost before_promises = lines_view(errors@);
        let mut i: usize = 0;
        while i < self.promises.len()
            invariant
                i <= self.promises@.len(),
                lines_view(errors@) == before_promises + promises_ref_errors(*self, self.promises@.take(i as int)),
            decreases self.promises.len() - i,
        {
            self.report_promise(&mut errors, &self.promises[i].1);
            assert(self.promises@.take(i + 1).drop_last() =~= self.promises@.take(i as int));
            i = i + 1;
        }
        assert(self.promises@.take(self.promises@.len() as int) =~= self.promises@);
        let ghost before_sequences = lines_view(errors@);
        let mut i: usize = 0;
        while i < self.sequences.len()
            invariant
                i <= self.sequences@.len(),
                lines_view(errors@) == before_sequences + sequences_ref_errors(*self, self.sequences@.take(i as int)),
            decreases self.sequences.len() - i,
        {
            self.report_sequence(&mut errors, &self.sequences[i].1);
            assert(self.sequences@.take(i + 1).drop_last() =~= self.sequences@.take(i as int));
            i = i + 1;
        }
        assert(self.sequences@.take(self.sequences@.len() as int) =~= self.sequences@);
        assert(lines_view(errors@) =~= scenes_ref_errors(*self, self.scenes@) + chapters_ref_errors(*self, self.chapters@) + beats_ref_errors(*self, self.beats@) + motifs_ref_errors(*self, self.motifs@) + symbols_ref_errors(*self, self.symbols@) + leitmotifs_ref_errors(*self, self.leitmotifs@) + threads_ref_errors(*self, self.threads@) + promises_ref_errors(*self, self.promises@) + sequences_ref_errors(*self, self.sequences@));
        errors
    }
}

proof fn lemma_scenes_clean(reg: EntityRegistry, es: Seq<(String, Scene)>)
    ensures
        (scenes_ref_errors(reg, es).len() == 0) == (forall|i: int| 0 <= i < es.len() ==> scene_refs_resolve(reg, #[trigger] es[i].1)),
    decreases es.len(),
{
    if es.len() > 0 {
        lemma_scenes_clean(reg, es.drop_last());
        let e = es.last().1;
        lemma_unresolved_empty(registry_keys(reg.characters@), opt_list(opt_ref_view(e.pov_character)), "scene '"@ + e.id@ + "': pov_character '"@, "' not in registry"@);
        lemma_unresolved_empty(registry_keys(reg.characters@), refs_view(e.attending_characters@), "scene '"@ + e.id@ + "': attending character '"@, "' not in registry"@);
        lemma_unresolved_empty(registry_keys(reg.settings@), opt_list(opt_ref_view(e.setting)), "scene '"@ + e.id@ + "': setting '"@, "' not in registry"@);
        lemma_unresolved_empty(registry_keys(reg.threads@), refs_view(e.narrative_threads@), "scene '"@ + e.id@ + "': narrative thread '"@, "' not in registry"@);
        lemma_unresolved_empty(registry_keys(reg.sequences@), opt_list(opt_ref_view(e.sequence_id)), "scene '"@ + e.id@ + "': sequence '"@, "' not in registry"@);
        assert forall|i: int| 0 <= i < es.len() - 1 implies es.drop_last()[i] == es[i] by {}
    }
}

proof fn lemma_chapters_clean(reg: EntityRegistry, es: Seq<(String, Chapter)>)
    ensures
        (chapters_ref_errors(reg, es).len() == 0) == (forall|i: int| 0 <= i < es.len() ==> chapter_refs_resolve(reg, #[trigger] es[i].1)),
    decreases es.len(),
{
    if es.len() > 0 {
        lemma_chapters_clean(reg, es.drop_last());
        let e = es.last().1;
        lemma_unresolved_empty(registry_keys(reg.characters@), refs_view(e.pov_characters@), "chapter '"@ + e.id@ + "': pov character '"@, "' not in registry"@);
        lemma_unresolved_empty(registry_keys(reg.beats@), refs_view(e.beats_covered@), "chapter '"@ + e.id@ + "': beat '"@, "' not in registry"@);
        assert forall|i: int| 0 <= i < es.len() - 1 implies es.drop_last()[i] == es[i] by {}
    }
}

proof fn lemma_beats_clean(reg: EntityRegistry, es: Seq<(String, Beat)>)
    ensures
        (beats_ref_errors(reg, es).len() == 0) == (forall|i: int| 0 <= i < es.len() ==> beat_refs_resolve(reg, #[trigger] es[i].1)),
    decreases es.len(),
{
    if es.len() > 0 {
        lemma_beats_clean(reg, es.drop_last());
        let e = es.last().1;
        lemma_unresolved_empty(registry_keys(reg.threads@), refs_view(e.associated_threads@), "beat '"@ + e.id@ + "': thread '"@, "' not in registry"@);
        assert forall|i: int| 0 <= i < es.len() - 1 implies es.drop_last()[i] == es[i] by {}
    }
}

proof fn lemma_motifs_clean(reg: EntityRegistry, es: Seq<(String, Motif)>)
    ensures
        (motifs_ref_errors(reg, es).len() == 0) == (forall|i: int| 0 <= i < es.len() ==> motif_refs_resolve(reg, #[trigger] es[i].1)),
    decreases es.len(),
{
    if es.len() > 0 {
        lemma_motifs_clean(reg, es.drop_last());
        let e = es.last().1;
        lemma_unresolved_empty(registry_keys(reg.scenes@), motif_scenes(e), "motif '"@ + e.id@ + "': appearance scene '"@, "' not in registry"@);
        assert forall|i: int| 0 <= i < es.len() - 1 implies es.drop_last()[i] == es[i] by {}
    }
}

proof fn lemma_symbols_clean(reg: EntityRegistry, es: Seq<(String, Symbol)>)
    ensures
        (symbols_ref_errors(reg, es).len() == 0) == (forall|i: int| 0 <= i < es.len() ==> symbol_refs_resolve(reg, #[trigger] es[i].1)),
    decreases es.len(),
{
    if es.len() > 0 {
        lemma_symbols_clean(reg, es.drop_last());
        let e = es.last().1;
        lemma_unresolved_empty(registry_keys(reg.scenes@), refs_view(e.key_scenes@), "symbol '"@ + e.id@ + "': key scene '"@, "' not in registry"@);
        assert forall|i: int| 0 <= i < es.len() - 1 implies es.drop_last()[i] == es[i] by {}
    }
}

proof fn lemma_leitmotifs_clean(reg: EntityRegistry, es: Seq<(String, Leitmotif)>)
    ensures
        (leitmotifs_ref_errors(reg, es).len() == 0) == (forall|i: int| 0 <= i < es.len() ==> leitmotif_refs_resolve(reg, #[trigger] es[i].1)),
    decreases es.len(),
{
    if es.len() > 0 {
        lemma_leitmotifs_clean(reg, es.drop_last());
        let e = es.last().1;
        lemma_unresolved_empty(registry_keys(reg.characters@), seq![e.character@], "leitmotif '"@ + e.id@ + "': character '"@, "' not in registry"@);
        assert forall|i: int| 0 <= i < es.len() - 1 implies es.drop_last()[i] == es[i] by {}
    }
}

proof fn lemma_threads_clean(reg: EntityRegistry, es: Seq<(String, Thread)>)
    ensures
        (threads_ref_errors(reg, es).len() == 0) == (forall|i: int| 0 <= i < es.len() ==> thread_refs_resolve(reg, #[trigger] es[i].1)),
    decreases es.len(),
{
    if es.len() > 0 {
        lemma_threads_clean(reg, es.drop_last());
        let e = es.last().1;
        lemma_unresolved_empty(registry_keys(reg.characters@), refs_view(e.characters@), "thread '"@ + e.id@ + "': character '"@, "' not in registry"@);
        assert forall|i: int| 0 <= i < es.len() - 1 implies es.drop_last()[i] == es[i] by {}
    }
}

proof fn lemma_promises_clean(reg: EntityRegistry, es: Seq<(String, Promise)>)
    ensures
        (promises_ref_errors(reg, es).len() == 0) == (forall|i: int| 0 <= i < es.len() ==> promise_refs_resolve(reg, #[trigger] es[i].1)),
    decreases es.len(),
{
    if es.len() > 0 {
        lemma_promises_clean(reg, es.drop_last());
        let e = es.last().1;
        lemma_unresolved_empty(registry_keys(reg.scenes@), opt_list(opt_ref_view(e.planted_in)), "promise '"@ + e.id@ + "': planted_in scene '"@, "' not in registry"@);
        lemma_unresolved_empty(registry_keys(reg.scenes@), opt_list(opt_ref_view(e.paid_off_in)), "promise '"@ + e.id@ + "': paid_off_in scene '"@, "' not in registry"@);
        assert forall|i: int| 0 <= i < es.len() - 1 implies es.drop_last()[i] == es[i] by {}
    }
}

proof fn lemma_sequences_clean(reg: EntityRegistry, es: Seq<(String, SceneSequence)>)
    ensures
        (sequences_ref_errors(reg, es).len() == 0) == (forall|i: int| 0 <= i < es.len() ==> sequence_refs_resolve(reg, #[trigger] es[i].1)),
    decreases es.len(),
{
    if es.len() > 0 {
        lemma_sequences_clean(reg, es.drop_last());
        let e = es.last().1;
        lemma_unresolved_empty(registry_keys(reg.scenes@), sequence_scenes(e.scenes@), "sequence '"@ + e.id@ + "': scene '"@, "' not in registry"@);
        lemma_unresolved_empty(registry_keys(reg.threads@), sequence_threads(e.scenes@), "sequence '"@ + e.id@ + "': thread '"@, "' not in registry"@);
        assert forall|i: int| 0 <= i < es.len() - 1 implies es.drop_last()[i] == es[i] by {}
    }
}

/// Registry-first: reference validation reports nothing exactly when every
/// reference held by every registered entity names a declared entity of
/// its kind.
pub proof fn lemma_no_ref_errors_iff_resolved(reg: EntityRegistry)
    ensures
        (reg.ref_errors().len() == 0) == reg.refs_resolve(),
{
    lemma_scenes_clean(reg, reg.scenes@);
    lemma_chapters_clean(reg, reg.chapters@);
    lemma_beats_clean(reg, reg.beats@);
    lemma_motifs_clean(reg, reg.motifs@);
    lemma_symbols_clean(reg, reg.symbols@);
    lemma_leitmotifs_clean(reg, reg.leitmotifs@);
    lemma_threads_clean(reg, reg.threads@);
    lemma_promises_clean(reg, reg.promises@);
    lemma_sequences_clean(reg, reg.sequences@);
}


// ── Every dangling reference is reported ──────────────────────────────────────

proof fn lemma_concat_has(a: Seq<Seq<char>>, b: Seq<Seq<char>>, x: Seq<char>)
    ensures
        a.contains(x) ==> (a + b).contains(x),
        b.contains(x) ==> (a + b).contains(x),
{
    if a.contains(x) {
        let i = choose|i: int| 0 <= i < a.len() && a[i] == x;
        assert((a + b)[i] == x);
    }
    if b.contains(x) {
        let i = choose|i: int| 0 <= i < b.len() && b[i] == x;
        assert((a + b)[a.len() + i] == x);
    }
}

proof fn lemma_unresolved_has(
    keys: Seq<Seq<char>>,
    slugs: Seq<Seq<char>>,
    before: Seq<char>,
    after: Seq<char>,
    j: int,
)
    requires
        0 <= j < slugs.len(),
        !keys.contains(slugs[j]),
    ensures
        unresolved(keys, slugs, before, after).contains(before + slugs[j] + after),
    decreases slugs.len(),
{
    let line = before + slugs[j] + after;
    let last = if keys.contains(slugs.last()) {
        Seq::<Seq<char>>::empty()
    } else {
        seq![before + slugs.last() + after]
    };
    if j < slugs.len() - 1 {
        assert(slugs.drop_last()[j] == slugs[j]);
        lemma_unresolved_has(keys, slugs.drop_last(), before, after, j);
        lemma_concat_has(unresolved(keys, slugs.drop_last(), before, after), last, line);
    } else {
        assert(last[0] == line);
        lemma_concat_has(unresolved(keys, slugs.drop_last(), before, after), last, line);
    }
}

proof fn lemma_scenes_ref_errors_has(reg: EntityRegistry, es: Seq<(String, Scene)>, i: int, x: Seq<char>)
    requires
        0 <= i < es.len(),
        scene_ref_errors(reg, es[i].1).contains(x),
    ensures
        scenes_ref_errors(reg, es).contains(x),
    decreases es.len(),
{
    if i < es.len() - 1 {
        assert(es.drop_last()[i] == es[i]);
        lemma_scenes_ref_errors_has(reg, es.drop_last(), i, x);
    }
    lemma_concat_has(scenes_ref_errors(reg, es.drop_last()), scene_ref_errors(reg, es.last().1), x);
}

proof fn lemma_chapters_ref_errors_has(reg: EntityRegistry, es: Seq<(String, Chapter)>, i: int, x: Seq<char>)
    requires
        0 <= i < es.len(),
        chapter_ref_errors(reg, es[i].1).contains(x),
    ensures
        chapters_ref_errors(reg, es).contains(x),
    decreases es.len(),
{
    if i < es.len() - 1 {
        assert(es.drop_last()[i] == es[i]);
        lemma_chapters_ref_errors_has(reg, es.drop_last(), i, x);
    }
    lemma_concat_has(chapters_ref_errors(reg, es.drop_last()), chapter_ref_errors(reg, es.last().1), x);
}

proof fn lemma_beats_ref_errors_has(reg: EntityRegistry, es: Seq<(String, Beat)>, i: int, x: Seq<char>)
    requires
        0 <= i < es.len(),
        beat_ref_errors(reg, es[i].1).contains(x),
    ensures
        beats_ref_errors(reg, es).contains(x),
    decreases es.len(),
{
    if i < es.len() - 1 {
        assert(es.drop_last()[i] == es[i]);
        lemma_beats_ref_errors_has(reg, es.drop_last(), i, x);
    }
    lemma_concat_has(beats_ref_errors(reg, es.drop_last()), beat_ref_errors(reg, es.last().1), x);
}

proof fn lemma_motifs_ref_errors_has(reg: EntityRegistry, es: Seq<(String, Motif)>, i: int, x: Seq<char>)
    requires
        0 <= i < es.len(),
        motif_ref_errors(reg, es[i].1).contains(x),
    ensures
        motifs_ref_errors(reg, es).contains(x),
    decreases es.len(),
{
    if i < es.len() - 1 {
        assert(es.drop_last()[i] == es[i]);
        lemma_motifs_ref_errors_has(reg, es.drop_last(), i, x);
    }
    lemma_concat_has(motifs_ref_errors(reg, es.drop_last()), motif_ref_errors(reg, es.last().1), x);
}

proof fn lemma_symbols_ref_errors_has(reg: EntityRegistry, es: Seq<(String, Symbol)>, i: int, x: Seq<char>)
    requires
        0 <= i < es.len(),
        symbol_ref_errors(reg, es[i].1).contains(x),
    ensures
        symbols_ref_errors(reg, es).contains(x),
    decreases es.len(),
{
    if i < es.len() - 1 {
        assert(es.drop_last()[i] == es[i]);
        lemma_symbols_ref_errors_has(reg, es.drop_last(), i, x);
    }
    lemma_concat_has(symbols_ref_errors(reg, es.drop_last()), symbol_ref_errors(reg, es.last().1), x);
}

proof fn lemma_leitmotifs_ref_errors_has(reg: EntityRegistry, es: Seq<(String, Leitmotif)>, i: int, x: Seq<char>)
    requires
        0 <= i < es.len(),
        leitmotif_ref_errors(reg, es[i].1).contains(x),
    ensures
        leitmotifs_ref_errors(reg, es).contains(x),
    decreases es.len(),
{
    if i < es.len() - 1 {
        assert(es.drop_last()[i] == es[i]);
        lemma_leitmotifs_ref_errors_has(reg, es.drop_last(), i, x);
    }
    lemma_concat_has(leitmotifs_ref_errors(reg, es.drop_last()), leitmotif_ref_errors(reg, es.last().1), x);
}

proof fn lemma_threads_ref_errors_has(reg: EntityRegistry, es: Seq<(String, Thread)>, i: int, x: Seq<char>)
    requires
        0 <= i < es.len(),
        thread_ref_errors(reg, es[i].1).contains(x),
    ensures
        threads_ref_errors(reg, es).contains(x),
    decreases es.len(),
{
    if i < es.len() - 1 {
        assert(es.drop_last()[i] == es[i]);
        lemma_threads_ref_errors_has(reg, es.drop_last(), i, x);
    }
    lemma_concat_has(threads_ref_errors(reg, es.drop_last()), thread_ref_errors(reg, es.last().1), x);
}

proof fn lemma_promises_ref_errors_has(reg: EntityRegistry, es: Seq<(String, Promise)>, i: int, x: Seq<char>)
    requires
        0 <= i < es.len(),
        promise_ref_errors(reg, es[i].1).contains(x),
    ensures
        promises_ref_errors(reg, es).contains(x),
    decreases es.len(),
{
    if i < es.len() - 1 {
        assert(es.drop_last()[i] == es[i]);
        lemma_promises_ref_errors_has(reg, es.drop_last(), i, x);
    }
    lemma_concat_has(promises_ref_errors(reg, es.drop_last()), promise_ref_errors(reg, es.last().1), x);
}

proof fn lemma_sequences_ref_errors_has(reg: EntityRegistry, es: Seq<(String, SceneSequence)>, i: int, x: Seq<char>)
    requires
        0 <= i < es.len(),
        sequence_ref_errors(reg, es[i].1).contains(x),
    ensures
        sequences_ref_errors(reg, es).contains(x),
    decreases es.len(),
{
    if i < es.len() - 1 {
        assert(es.drop_last()[i] == es[i]);
        lemma_sequences_ref_errors_has(reg, es.drop_last(), i, x);
    }
    lemma_concat_has(sequences_ref_errors(reg, es.drop_last()), sequence_ref_errors(reg, es.last().1), x);
}

proof fn lemma_ref_errors_has_list(reg: EntityRegistry, x: Seq<char>)
    ensures
        scenes_ref_errors(reg, reg.scenes@).contains(x) ==> reg.ref_errors().contains(x),
        chapters_ref_errors(reg, reg.chapters@).contains(x) ==> reg.ref_errors().contains(x),
        beats_ref_errors(reg, reg.beats@).contains(x) ==> reg.ref_errors().contains(x),
        motifs_ref_errors(reg, reg.motifs@).contains(x) ==> reg.ref_errors().contains(x),
        symbols_ref_errors(reg, reg.symbols@).contains(x) ==> reg.ref_errors().contains(x),
        leitmotifs_ref_errors(reg, reg.leitmotifs@).contains(x) ==> reg.ref_errors().contains(x),
        threads_ref_errors(reg, reg.threads@).contains(x) ==> reg.ref_errors().contains(x),
        promises_ref_errors(reg, reg.promises@).contains(x) ==> reg.ref_errors().contains(x),
        sequences_ref_errors(reg, reg.sequences@).contains(x) ==> reg.ref_errors().contains(x),
{
    if scenes_ref_errors(reg, reg.scenes@).contains(x) {
        lemma_concat_has(scenes_ref_errors(reg, reg.scenes@), chapters_ref_errors(reg, reg.chapters@), x);
        lemma_concat_has(scenes_ref_errors(reg, reg.scenes@) + chapters_ref_errors(reg, reg.chapters@), beats_ref_errors(reg, reg.beats@), x);
        lemma_concat_has(scenes_ref_errors(reg, reg.scenes@) + chapters_ref_errors(reg, reg.chapters@) + beats_ref_errors(reg, reg.beats@), motifs_ref_errors(reg, reg.motifs@), x);
        lemma_concat_has(scenes_ref_errors(reg, reg.scenes@) + chapters_ref_errors(reg, reg.chapters@) + beats_ref_errors(reg, reg.beats@) + motifs_ref_errors(reg, reg.motifs@), symbols_ref_errors(reg, reg.symbols@), x);
        lemma_concat_has(scenes_ref_errors(reg, reg.scenes@) + chapters_ref_errors(reg, reg.chapters@) + beats_ref_errors(reg, reg.beats@) + motifs_ref_errors(reg, reg.motifs@) + symbols_ref_errors(reg, reg.symbols@), leitmotifs_ref_errors(reg, reg.leitmotifs@), x);
        lemma_concat_has(scenes_ref_errors(reg, reg.scenes@) + chapters_ref_errors(reg, reg.chapters@) + beats_ref_errors(reg, reg.beats@) + motifs_ref_errors(reg, reg.motifs@) + symbols_ref_errors(reg, reg.symbols@) + leitmotifs_ref_errors(reg, reg.leitmotifs@), threads_ref_errors(reg, reg.threads@), x);
        lemma_concat_has(scenes_ref_errors(reg, reg.scenes@) + chapters_ref_errors(reg, reg.chapters@) + beats_ref_errors(reg, reg.beats@) + motifs_ref_errors(reg, reg.motifs@) + symbols_ref_errors(reg, reg.symbols@) + leitmotifs_ref_errors(reg, reg.leitmotifs@) + threads_ref_errors(reg, reg.threads@), promises_ref_errors(reg, reg.promises@), x);
        lemma_concat_has(scenes_ref_errors(reg, reg.scenes@) + chapters_ref_errors(reg, reg.chapters@) + beats_ref_errors(reg, reg.beats@) + motifs_ref_errors(reg, reg.motifs@) + symbols_ref_errors(reg, reg.symbols@) + leitmotifs_ref_errors(reg, reg.leitmotifs@) + threads_ref_errors(reg, reg.threads@) + promises_ref_errors(reg, reg.promises@), sequences_ref_errors(reg, reg.sequences@), x);
    }
    if chapters_ref_errors(reg, reg.chapters@).contains(x) {
        lemma_concat_has(scenes_ref_errors(reg, reg.scenes@), chapters_ref_errors(reg, reg.chapters@), x);
        lemma_concat_has(scenes_ref_errors(reg, reg.scenes@) + chapters_ref_errors(reg, reg.chapters@), beats_ref_errors(reg, reg.beats@), x);
        lemma_concat_has(scenes_ref_errors(reg, reg.scenes@) + chapters_ref_errors(reg, reg.chapters@) + beats_ref_errors(reg, reg.beats@), motifs_ref_errors(reg, reg.motifs@), x);
        lemma_concat_has(scenes_ref_errors(reg, reg.scenes@) + chapters_ref_errors(reg, reg.chapters@) + beats_ref_errors(reg, reg.beats@) + motifs_ref_errors(reg, reg.motifs@), symbols_ref_errors(reg, reg.symbols@), x);
        lemma_concat_has(scenes_ref_errors(reg, reg.scenes@) + chapters_ref_errors(reg, reg.chapters@) + beats_ref_errors(reg, reg.beats@) + motifs_ref_errors(reg, reg.motifs@) + symbols_ref_errors(reg, reg.symbols@), leitmotifs_ref_errors(reg, reg.leitmotifs@), x);
        lemma_concat_has(scenes_ref_errors(reg, reg.scenes@) + chapters_ref_errors(reg, reg.chapters@) + beats_ref_errors(reg, reg.beats@) + motifs_ref_errors(reg, reg.motifs@) + symbols_ref_errors(reg, reg.symbols@) + leitmotifs_ref_errors(reg, reg.leitmotifs@), threads_ref_errors(reg, reg.threads@), x);
        lemma_concat_has(scenes_ref_errors(reg, reg.scenes@) + chapters_ref_errors(reg, reg.chapters@) + beats_ref_errors(reg, reg.beats@) + motifs_ref_errors(reg, reg.motifs@) + symbols_ref_errors(reg, reg.symbols@) + leitmotifs_ref_errors(reg, reg.leitmotifs@) + threads_ref_errors(reg, reg.threads@), promises_ref_errors(reg, reg.promises@), x);
        lemma_concat_has(scenes_ref_errors(reg, reg.scenes@) + chapters_ref_errors(reg, reg.chapters@) + beats_ref_errors(reg, reg.beats@) + motifs_ref_errors(reg, reg.motifs@) + symbols_ref_errors(reg, reg.symbols@) + leitmotifs_ref_errors(reg, reg.leitmotifs@) + threads_ref_errors(reg, reg.threads@) + promises_ref_errors(reg, reg.promises@), sequences_ref_errors(reg, reg.sequences@), x);
    }
    if beats_ref_errors(reg, reg.beats@).contains(x) {
        lemma_concat_has(scenes_ref_errors(reg, reg.scenes@) + chapters_ref_errors(reg, reg.chapters@), beats_ref_errors(reg, reg.beats@), x);
        lemma_concat_has(scenes_ref_errors(reg, reg.scenes@) + chapters_ref_errors(reg, reg.chapters@) + beats_ref_errors(reg, reg.beats@), motifs_ref_errors(reg, reg.motifs@), x);
        lemma_concat_has(scenes_ref_errors(reg, reg.scenes@) + chapters_ref_errors(reg, reg.chapters@) + beats_ref_errors(reg, reg.beats@) + motifs_ref_errors(reg, reg.motifs@), symbols_ref_errors(reg, reg.symbols@), x);
        lemma_concat_has(scenes_ref_errors(reg, reg.scenes@) + chapters_ref_errors(reg, reg.chapters@) + beats_ref_errors(reg, reg.beats@) + motifs_ref_errors(reg, reg.motifs@) + symbols_ref_errors(reg, reg.symbols@), leitmotifs_ref_errors(reg, reg.leitmotifs@), x);
        lemma_concat_has(scenes_ref_errors(reg, reg.scenes@) + chapters_ref_errors(reg, reg.chapters@) + beats_ref_errors(reg, reg.beats@) + motifs_ref_errors(reg, reg.motifs@) + symbols_ref_errors(reg, reg.symbols@) + leitmotifs_ref_errors(reg, reg.leitmotifs@), threads_ref_errors(reg, reg.threads@), x);
        lemma_concat_has(scenes_ref_errors(reg, reg.scenes@) + chapters_ref_errors(reg, reg.chapters@) + beats_ref_errors(reg, reg.beats@) + motifs_ref_errors(reg, reg.motifs@) + symbols_ref_errors(reg, reg.symbols@) + leitmotifs_ref_errors(reg, reg.leitmotifs@) + threads_ref_errors(reg, reg.threads@), promises_ref_errors(reg, reg.promises@), x);
        lemma_concat_has(scenes_ref_errors(reg, reg.scenes@) + chapters_ref_errors(reg, reg.chapters@) + beats_ref_errors(reg, reg.beats@) + motifs_ref_errors(reg, reg.motifs@) + symbols_ref_errors(reg, reg.symbols@) + leitmotifs_ref_errors(reg, reg.leitmotifs@) + threads_ref_errors(reg, reg.threads@) + promises_ref_errors(reg, reg.promises@), sequences_ref_errors(reg, reg.sequences@), x);
    }
    if motifs_ref_errors(reg, reg.motifs@).contains(x) {
        lemma_concat_has(scenes_ref_errors(reg, reg.scenes@) + chapters_ref_errors(reg, reg.chapters@) + beats_ref_errors(reg, reg.beats@), motifs_ref_errors(reg, reg.motifs@), x);
        lemma_concat_has(scenes_ref_errors(reg, reg.scenes@) + chapters_ref_errors(reg, reg.chapters@) + beats_ref_errors(reg, reg.beats@) + motifs_ref_errors(reg, reg.motifs@), symbols_ref_errors(reg, reg.symbols@), x);
        lemma_concat_has(scenes_ref_errors(reg, reg.scenes@) + chapters_ref_errors(reg, reg.chapters@) + beats_ref_errors(reg, reg.beats@) + motifs_ref_errors(reg, reg.motifs@) + symbols_ref_errors(reg, reg.symbols@), leitmotifs_ref_errors(reg, reg.leitmotifs@), x);
        lemma_concat_has(scenes_ref_errors(reg, reg.scenes@) + chapters_ref_errors(reg, reg.chapters@) + beats_ref_errors(reg, reg.beats@) + motifs_ref_errors(reg, reg.motifs@) + symbols_ref_errors(reg, reg.symbols@) + leitmotifs_ref_errors(reg, reg.leitmotifs@), threads_ref_errors(reg, reg.threads@), x);
        lemma_concat_has(scenes_ref_errors(reg, reg.scenes@) + chapters_ref_errors(reg, reg.chapters@) + beats_ref_errors(reg, reg.beats@) + motifs_ref_errors(reg, reg.motifs@) + symbols_ref_errors(reg, reg.symbols@) + leitmotifs_ref_errors(reg, reg.leitmotifs@) + threads_ref_errors(reg, reg.threads@), promises_ref_errors(reg, reg.promises@), x);
        lemma_concat_has(scenes_ref_errors(reg, reg.scenes@) + chapters_ref_errors(reg, reg.chapters@) + beats_ref_errors(reg, reg.beats@) + motifs_ref_errors(reg, reg.motifs@) + symbols_ref_errors(reg, reg.symbols@) + leitmotifs_ref_errors(reg, reg.leitmotifs@) + threads_ref_errors(reg, reg.threads@) + promises_ref_errors(reg, reg.promises@), sequences_ref_errors(reg, reg.sequences@), x);
    }
    if symbols_ref_errors(reg, reg.symbols@).contains(x) {
        lemma_concat_has(scenes_ref_errors(reg, reg.scenes@) + chapters_ref_errors(reg, reg.chapters@) + beats_ref_errors(reg, reg.beats@) + motifs_ref_errors(reg, reg.motifs@), symbols_ref_errors(reg, reg.symbols@), x);
        lemma_concat_has(scenes_ref_errors(reg, reg.scenes@) + chapters_ref_errors(reg, reg.chapters@) + beats_ref_errors(reg, reg.beats@) + motifs_ref_errors(reg, reg.motifs@) + symbols_ref_errors(reg, reg.symbols@), leitmotifs_ref_errors(reg, reg.leitmotifs@), x);
        lemma_concat_has(scenes_ref_errors(reg, reg.scenes@) + chapters_ref_errors(reg, reg.chapters@) + beats_ref_errors(reg, reg.beats@) + motifs_ref_errors(reg, reg.motifs@) + symbols_ref_errors(reg, reg.symbols@) + leitmotifs_ref_errors(reg, reg.leitmotifs@), threads_ref_errors(reg, reg.threads@), x);
        lemma_concat_has(scenes_ref_errors(reg, reg.scenes@) + chapters_ref_errors(reg, reg.chapters@) + beats_ref_errors(reg, reg.beats@) + motifs_ref_errors(reg, reg.motifs@) + symbols_ref_errors(reg, reg.symbols@) + leitmotifs_ref_errors(reg, reg.leitmotifs@) + threads_ref_errors(reg, reg.threads@), promises_ref_errors(reg, reg.promises@), x);
        lemma_concat_has(scenes_ref_errors(reg, reg.scenes@) + chapters_ref_errors(reg, reg.chapters@) + beats_ref_errors(reg, reg.beats@) + motifs_ref_errors(reg, reg.motifs@) + symbols_ref_errors(reg, reg.symbols@) + leitmotifs_ref_errors(reg, reg.leitmotifs@) + threads_ref_errors(reg, reg.threads@) + promises_ref_errors(reg, reg.promises@), sequences_ref_errors(reg, reg.sequences@), x);
    }
    if leitmotifs_ref_errors(reg, reg.leitmotifs@).contains(x) {
        lemma_concat_has(scenes_ref_errors(reg, reg.scenes@) + chapters_ref_errors(reg, reg.chapters@) + beats_ref_errors(reg, reg.beats@) + motifs_ref_errors(reg, reg.motifs@) + symbols_ref_errors(reg, reg.symbols@), leitmotifs_ref_errors(reg, reg.leitmotifs@), x);
        lemma_concat_has(scenes_ref_errors(reg, reg.scenes@) + chapters_ref_errors(reg, reg.chapters@) + beats_ref_errors(reg, reg.beats@) + motifs_ref_errors(reg, reg.motifs@) + symbols_ref_errors(reg, reg.symbols@) + leitmotifs_ref_errors(reg, reg.leitmotifs@), threads_ref_errors(reg, reg.threads@), x);
        lemma_concat_has(scenes_ref_errors(reg, reg.scenes@) + chapters_ref_errors(reg, reg.chapters@) + beats_ref_errors(reg, reg.beats@) + motifs_ref_errors(reg, reg.motifs@) + symbols_ref_errors(reg, reg.symbols@) + leitmotifs_ref_errors(reg, reg.leitmotifs@) + threads_ref_errors(reg, reg.threads@), promises_ref_errors(reg, reg.promises@), x);
        lemma_concat_has(scenes_ref_errors(reg, reg.scenes@) + chapters_ref_errors(reg, reg.chapters@) + beats_ref_errors(reg, reg.beats@) + motifs_ref_errors(reg, reg.motifs@) + symbols_ref_errors(reg, reg.symbols@) + leitmotifs_ref_errors(reg, reg.leitmotifs@) + threads_ref_errors(reg, reg.threads@) + promises_ref_errors(reg, reg.promises@), sequences_ref_errors(reg, reg.sequences@), x);
    }
    if threads_ref_errors(reg, reg.threads@).contains(x) {
        lemma_concat_has(scenes_ref_errors(reg, reg.scenes@) + chapters_ref_errors(reg, reg.chapters@) + beats_ref_errors(reg, reg.beats@) + motifs_ref_errors(reg, reg.motifs@) + symbols_ref_errors(reg, reg.symbols@) + leitmotifs_ref_errors(reg, reg.leitmotifs@), threads_ref_errors(reg, reg.threads@), x);
        lemma_concat_has(scenes_ref_errors(reg, reg.scenes@) + chapters_ref_errors(reg, reg.chapters@) + beats_ref_errors(reg, reg.beats@) + motifs_ref_errors(reg, reg.motifs@) + symbols_ref_errors(reg, reg.symbols@) + leitmotifs_ref_errors(reg, reg.leitmotifs@) + threads_ref_errors(reg, reg.threads@), promises_ref_errors(reg, reg.promises@), x);
        lemma_concat_has(scenes_ref_errors(reg, reg.scenes@) + chapters_ref_errors(reg, reg.chapters@) + beats_ref_errors(reg, reg.beats@) + motifs_ref_errors(reg, reg.motifs@) + symbols_ref_errors(reg, reg.symbols@) + leitmotifs_ref_errors(reg, reg.leitmotifs@) + threads_ref_errors(reg, reg.threads@) + promises_ref_errors(reg, reg.promises@), sequences_ref_errors(reg, reg.sequences@), x);
    }
    if promises_ref_errors(reg, reg.promises@).contains(x) {
        lemma_concat_has(scenes_ref_errors(reg, reg.scenes@) + chapters_ref_errors(reg, reg.chapters@) + beats_ref_errors(reg, reg.beats@) + motifs_ref_errors(reg, reg.motifs@) + symbols_ref_errors(reg, reg.symbols@) + leitmotifs_ref_errors(reg, reg.leitmotifs@) + threads_ref_errors(reg, reg.threads@), promises_ref_errors(reg, reg.promises@), x);
        lemma_concat_has(scenes_ref_errors(reg, reg.scenes@) + chapters_ref_errors(reg, reg.chapters@) + beats_ref_errors(reg, reg.beats@) + motifs_ref_errors(reg, reg.motifs@) + symbols_ref_errors(reg, reg.symbols@) + leitmotifs_ref_errors(reg, reg.leitmotifs@) + threads_ref_errors(reg, reg.threads@) + promises_ref_errors(reg, reg.promises@), sequences_ref_errors(reg, reg.sequences@), x);
    }
    if sequences_ref_errors(reg, reg.sequences@).contains(x) {
        lemma_concat_has(scenes_ref_errors(reg, reg.scenes@) + chapters_ref_errors(reg, reg.chapters@) + beats_ref_errors(reg, reg.beats@) + motifs_ref_errors(reg, reg.motifs@) + symbols_ref_errors(reg, reg.symbols@) + leitmotifs_ref_errors(reg, reg.leitmotifs@) + threads_ref_errors(reg, reg.threads@) + promises_ref_errors(reg, reg.promises@), sequences_ref_errors(reg, reg.sequences@), x);
    }
}

/// Every pov_character reference held as `pov_character` by a registered scene that names no
/// declared entity is reported: `scene '<id>': pov_character '<slug>' not in registry`.
pub proof fn lemma_scene_pov_character_reported(reg: EntityRegistry, i: int)
    requires
        0 <= i < reg.scenes@.len(),
        reg.scenes@[i].1.pov_character is Some,
        !registry_keys(reg.characters@).contains(reg.scenes@[i].1.pov_character->0@),
    ensures
        reg.ref_errors().contains(
            "scene '"@ + reg.scenes@[i].1.id@ + "': pov_character '"@ + reg.scenes@[i].1.pov_character->0@ + "' not in registry"@,
        ),
{
    let e = reg.scenes@[i].1;
    let b = "scene '"@ + e.id@ + "': pov_character '"@;
    let a = "' not in registry"@;
    let line = b + e.pov_character->0@ + a;
    assert(line == "scene '"@ + e.id@ + "': pov_character '"@ + e.pov_character->0@ + "' not in registry"@);
    lemma_unresolved_has(registry_keys(reg.characters@), opt_list(opt_ref_view(e.pov_character)), b, a, 0);
    lemma_concat_has(unresolved(registry_keys(reg.characters@), opt_list(opt_ref_view(e.pov_character)), "scene '"@ + e.id@ + "': pov_character '"@, "' not in registry"@), unresolved(registry_keys(reg.characters@), refs_view(e.attending_characters@), "scene '"@ + e.id@ + "': attending character '"@, "' not in registry"@), line);
    lemma_concat_has(unresolved(registry_keys(reg.characters@), opt_list(opt_ref_view(e.pov_character)), "scene '"@ + e.id@ + "': pov_character '"@, "' not in registry"@) + unresolved(registry_keys(reg.characters@), refs_view(e.attending_characters@), "scene '"@ + e.id@ + "': attending character '"@, "' not in registry"@), unresolved(registry_keys(reg.settings@), opt_list(opt_ref_view(e.setting)), "scene '"@ + e.id@ + "': setting '"@, "' not in registry"@), line);
    lemma_concat_has(unresolved(registry_keys(reg.characters@), opt_list(opt_ref_view(e.pov_character)), "scene '"@ + e.id@ + "': pov_character '"@, "' not in registry"@) + unresolved(registry_keys(reg.characters@), refs_view(e.attending_characters@), "scene '"@ + e.id@ + "': attending character '"@, "' not in registry"@) + unresolved(registry_keys(reg.settings@), opt_list(opt_ref_view(e.setting)), "scene '"@ + e.id@ + "': setting '"@, "' not in registry"@), unresolved(registry_keys(reg.threads@), refs_view(e.narrative_threads@), "scene '"@ + e.id@ + "': narrative thread '"@, "' not in registry"@), line);
    lemma_concat_has(unresolved(registry_keys(reg.characters@), opt_list(opt_ref_view(e.pov_character)), "scene '"@ + e.id@ + "': pov_character '"@, "' not in registry"@) + unresolved(registry_keys(reg.characters@), refs_view(e.attending_characters@), "scene '"@ + e.id@ + "': attending character '"@, "' not in registry"@) + unresolved(registry_keys(reg.settings@), opt_list(opt_ref_view(e.setting)), "scene '"@ + e.id@ + "': setting '"@, "' not in registry"@) + unresolved(registry_keys(reg.threads@), refs_view(e.narrative_threads@), "scene '"@ + e.id@ + "': narrative thread '"@, "' not in registry"@), unresolved(registry_keys(reg.sequences@), opt_list(opt_ref_view(e.sequence_id)), "scene '"@ + e.id@ + "': sequence '"@, "' not in registry"@), line);
    assert(scene_ref_errors(reg, e) == unresolved(registry_keys(reg.characters@), opt_list(opt_ref_view(e.pov_character)), "scene '"@ + e.id@ + "': pov_character '"@, "' not in registry"@) + unresolved(registry_keys(reg.characters@), refs_view(e.attending_characters@), "scene '"@ + e.id@ + "': attending character '"@, "' not in registry"@) + unresolved(registry_keys(reg.settings@), opt_list(opt_ref_view(e.setting)), "scene '"@ + e.id@ + "': setting '"@, "' not in registry"@) + unresolved(registry_keys(reg.threads@), refs_view(e.narrative_threads@), "scene '"@ + e.id@ + "': narrative thread '"@, "' not in registry"@) + unresolved(registry_keys(reg.sequences@), opt_list(opt_ref_view(e.sequence_id)), "scene '"@ + e.id@ + "': sequence '"@, "' not in registry"@));
    lemma_scenes_ref_errors_has(reg, reg.scenes@, i, line);
    lemma_ref_errors_has_list(reg, line);
}

/// Every attending character reference held as `attending_characters` by a registered scene that names no
/// declared entity is reported: `scene '<id>': attending character '<slug>' not in registry`.
pub proof fn lemma_scene_attending_characters_reported(reg: EntityRegistry, i: int, j: int)
    requires
        0 <= i < reg.scenes@.len(),
        0 <= j < reg.scenes@[i].1.attending_characters@.len(),
        !registry_keys(reg.characters@).contains(reg.scenes@[i].1.attending_characters@[j]@),
    ensures
        reg.ref_errors().contains(
            "scene '"@ + reg.scenes@[i].1.id@ + "': attending character '"@ + reg.scenes@[i].1.attending_characters@[j]@ + "' not in registry"@,
        ),
{
    let e = reg.scenes@[i].1;
    let b = "scene '"@ + e.id@ + "': attending character '"@;
    let a = "' not in registry"@;
    let line = b + e.attending_characters@[j]@ + a;
    assert(line == "scene '"@ + e.id@ + "': attending character '"@ + e.attending_characters@[j]@ + "' not in registry"@);
    lemma_unresolved_has(registry_keys(reg.characters@), refs_view(e.attending_characters@), b, a, j);
    lemma_concat_has(unresolved(registry_keys(reg.characters@), opt_list(opt_ref_view(e.pov_character)), "scene '"@ + e.id@ + "': pov_character '"@, "' not in registry"@), unresolved(registry_keys(reg.characters@), refs_view(e.attending_characters@), "scene '"@ + e.id@ + "': attending character '"@, "' not in registry"@), line);
    lemma_concat_has(unresolved(registry_keys(reg.characters@), opt_list(opt_ref_view(e.pov_character)), "scene '"@ + e.id@ + "': pov_character '"@, "' not in registry"@) + unresolved(registry_keys(reg.characters@), refs_view(e.attending_characters@), "scene '"@ + e.id@ + "': attending character '"@, "' not in registry"@), unresolved(registry_keys(reg.settings@), opt_list(opt_ref_view(e.setting)), "scene '"@ + e.id@ + "': setting '"@, "' not in registry"@), line);
    lemma_concat_has(unresolved(registry_keys(reg.characters@), opt_list(opt_ref_view(e.pov_character)), "scene '"@ + e.id@ + "': pov_character '"@, "' not in registry"@) + unresolved(registry_keys(reg.characters@), refs_view(e.attending_characters@), "scene '"@ + e.id@ + "': attending character '"@, "' not in registry"@) + unresolved(registry_keys(reg.settings@), opt_list(opt_ref_view(e.setting)), "scene '"@ + e.id@ + "': setting '"@, "' not in registry"@), unresolved(registry_keys(reg.threads@), refs_view(e.narrative_threads@), "scene '"@ + e.id@ + "': narrative thread '"@, "' not in registry"@), line);
    lemma_concat_has(unresolved(registry_keys(reg.characters@), opt_list(opt_ref_view(e.pov_character)), "scene '"@ + e.id@ + "': pov_character '"@, "' not in registry"@) + unresolved(registry_keys(reg.characters@), refs_view(e.attending_characters@), "scene '"@ + e.id@ + "': attending character '"@, "' not in registry"@) + unresolved(registry_keys(reg.settings@), opt_list(opt_ref_view(e.setting)), "scene '"@ + e.id@ + "': setting '"@, "' not in registry"@) + unresolved(registry_keys(reg.threads@), refs_view(e.narrative_threads@), "scene '"@ + e.id@ + "': narrative thread '"@, "' not in registry"@), unresolved(registry_keys(reg.sequences@), opt_list(opt_ref_view(e.sequence_id)), "scene '"@ + e.id@ + "': sequence '"@, "' not in registry"@), line);
    assert(scene_ref_errors(reg, e) == unresolved(registry_keys(reg.characters@), opt_list(opt_ref_view(e.pov_character)), "scene '"@ + e.id@ + "': pov_character '"@, "' not in registry"@) + unresolved(registry_keys(reg.characters@), refs_view(e.attending_characters@), "scene '"@ + e.id@ + "': attending character '"@, "' not in registry"@) + unresolved(registry_keys(reg.settings@), opt_list(opt_ref_view(e.setting)), "scene '"@ + e.id@ + "': setting '"@, "' not in registry"@) + unresolved(registry_keys(reg.threads@), refs_view(e.narrative_threads@), "scene '"@ + e.id@ + "': narrative thread '"@, "' not in registry"@) + unresolved(registry_keys(reg.sequences@), opt_list(opt_ref_view(e.sequence_id)), "scene '"@ + e.id@ + "': sequence '"@, "' not in registry"@));
    lemma_scenes_ref_errors_has(reg, reg.scenes@, i, line);
    lemma_ref_errors_has_list(reg, line);
}

/// Every setting reference held as `setting` by a registered scene that names no
/// declared entity is reported: `scene '<id>': setting '<slug>' not in registry`.
pub proof fn lemma_scene_setting_reported(reg: EntityRegistry, i: int)
    requires
        0 <= i < reg.scenes@.len(),
        reg.scenes@[i].1.setting is Some,
        !registry_keys(reg.settings@).contains(reg.scenes@[i].1.setting->0@),
    ensures
        reg.ref_errors().contains(
            "scene '"@ + reg.scenes@[i].1.id@ + "': setting '"@ + reg.scenes@[i].1.setting->0@ + "' not in registry"@,
        ),
{
    let e = reg.scenes@[i].1;
    let b = "scene '"@ + e.id@ + "': setting '"@;
    let a = "' not in registry"@;
    let line = b + e.setting->0@ + a;
    assert(line == "scene '"@ + e.id@ + "': setting '"@ + e.setting->0@ + "' not in registry"@);
    lemma_unresolved_has(registry_keys(reg.settings@), opt_list(opt_ref_view(e.setting)), b, a, 0);
    lemma_concat_has(unresolved(registry_keys(reg.characters@), opt_list(opt_ref_view(e.pov_character)), "scene '"@ + e.id@ + "': pov_character '"@, "' not in registry"@), unresolved(registry_keys(reg.characters@), refs_view(e.attending_characters@), "scene '"@ + e.id@ + "': attending character '"@, "' not in registry"@), line);
    lemma_concat_has(unresolved(registry_keys(reg.characters@), opt_list(opt_ref_view(e.pov_character)), "scene '"@ + e.id@ + "': pov_character '"@, "' not in registry"@) + unresolved(registry_keys(reg.characters@), refs_view(e.attending_characters@), "scene '"@ + e.id@ + "': attending character '"@, "' not in registry"@), unresolved(registry_keys(reg.settings@), opt_list(opt_ref_view(e.setting)), "scene '"@ + e.id@ + "': setting '"@, "' not in registry"@), line);
    lemma_concat_has(unresolved(registry_keys(reg.characters@), opt_list(opt_ref_view(e.pov_character)), "scene '"@ + e.id@ + "': pov_character '"@, "' not in registry"@) + unresolved(registry_keys(reg.characters@), refs_view(e.attending_characters@), "scene '"@ + e.id@ + "': attending character '"@, "' not in registry"@) + unresolved(registry_keys(reg.settings@), opt_list(opt_ref_view(e.setting)), "scene '"@ + e.id@ + "': setting '"@, "' not in registry"@), unresolved(registry_keys(reg.threads@), refs_view(e.narrative_threads@), "scene '"@ + e.id@ + "': narrative thread '"@, "' not in registry"@), line);
    lemma_concat_has(unresolved(registry_keys(reg.characters@), opt_list(opt_ref_view(e.pov_character)), "scene '"@ + e.id@ + "': pov_character '"@, "' not in registry"@) + unresolved(registry_keys(reg.characters@), refs_view(e.attending_characters@), "scene '"@ + e.id@ + "': attending character '"@, "' not in registry"@) + unresolved(registry_keys(reg.settings@), opt_list(opt_ref_view(e.setting)), "scene '"@ + e.id@ + "': setting '"@, "' not in registry"@) + unresolved(registry_keys(reg.threads@), refs_view(e.narrative_threads@), "scene '"@ + e.id@ + "': narrative thread '"@, "' not in registry"@), unresolved(registry_keys(reg.sequences@), opt_list(opt_ref_view(e.sequence_id)), "scene '"@ + e.id@ + "': sequence '"@, "' not in registry"@), line);
    assert(scene_ref_errors(reg, e) == unresolved(registry_keys(reg.characters@), opt_list(opt_ref_view(e.pov_character)), "scene '"@ + e.id@ + "': pov_character '"@, "' not in registry"@) + unresolved(registry_keys(reg.characters@), refs_view(e.attending_characters@), "scene '"@ + e.id@ + "': attending character '"@, "' not in registry"@) + unresolved(registry_keys(reg.settings@), opt_list(opt_ref_view(e.setting)), "scene '"@ + e.id@ + "': setting '"@, "' not in registry"@) + unresolved(registry_keys(reg.threads@), refs_view(e.narrative_threads@), "scene '"@ + e.id@ + "': narrative thread '"@, "' not in registry"@) + unresolved(registry_keys(reg.sequences@), opt_list(opt_ref_view(e.sequence_id)), "scene '"@ + e.id@ + "': sequence '"@, "' not in registry"@));
    lemma_scenes_ref_errors_has(reg, reg.scenes@, i, line);
    lemma_ref_errors_has_list(reg, line);
}

/// Every narrative thread reference held as `narrative_threads` by a registered scene that names no
/// declared entity is reported: `scene '<id>': narrative thread '<slug>' not in registry`.
pub proof fn lemma_scene_narrative_threads_reported(reg: EntityRegistry, i: int, j: int)
    requires
        0 <= i < reg.scenes@.len(),
        0 <= j < reg.scenes@[i].1.narrative_threads@.len(),
        !registry_keys(reg.threads@).contains(reg.scenes@[i].1.narrative_threads@[j]@),
    ensures
        reg.ref_errors().contains(
            "scene '"@ + reg.scenes@[i].1.id@ + "': narrative thread '"@ + reg.scenes@[i].1.narrative_threads@[j]@ + "' not in registry"@,
        ),
{
    let e = reg.scenes@[i].1;
    let b = "scene '"@ + e.id@ + "': narrative thread '"@;
    let a = "' not in registry"@;
    let line = b + e.narrative_threads@[j]@ + a;
    assert(line == "scene '"@ + e.id@ + "': narrative thread '"@ + e.narrative_threads@[j]@ + "' not in registry"@);
    lemma_unresolved_has(registry_keys(reg.threads@), refs_view(e.narrative_threads@), b, a, j);
    lemma_concat_has(unresolved(registry_keys(reg.characters@), opt_list(opt_ref_view(e.pov_character)), "scene '"@ + e.id@ + "': pov_character '"@, "' not in registry"@), unresolved(registry_keys(reg.characters@), refs_view(e.attending_characters@), "scene '"@ + e.id@ + "': attending character '"@, "' not in registry"@), line);
    lemma_concat_has(unresolved(registry_keys(reg.characters@), opt_list(opt_ref_view(e.pov_character)), "scene '"@ + e.id@ + "': pov_character '"@, "' not in registry"@) + unresolved(registry_keys(reg.characters@), refs_view(e.attending_characters@), "scene '"@ + e.id@ + "': attending character '"@, "' not in registry"@), unresolved(registry_keys(reg.settings@), opt_list(opt_ref_view(e.setting)), "scene '"@ + e.id@ + "': setting '"@, "' not in registry"@), line);
    lemma_concat_has(unresolved(registry_keys(reg.characters@), opt_list(opt_ref_view(e.pov_character)), "scene '"@ + e.id@ + "': pov_character '"@, "' not in registry"@) + unresolved(registry_keys(reg.characters@), refs_view(e.attending_characters@), "scene '"@ + e.id@ + "': attending character '"@, "' not in registry"@) + unresolved(registry_keys(reg.settings@), opt_list(opt_ref_view(e.setting)), "scene '"@ + e.id@ + "': setting '"@, "' not in registry"@), unresolved(registry_keys(reg.threads@), refs_view(e.narrative_threads@), "scene '"@ + e.id@ + "': narrative thread '"@, "' not in registry"@), line);
    lemma_concat_has(unresolved(registry_keys(reg.characters@), opt_list(opt_ref_view(e.pov_character)), "scene '"@ + e.id@ + "': pov_character '"@, "' not in registry"@) + unresolved(registry_keys(reg.characters@), refs_view(e.attending_characters@), "scene '"@ + e.id@ + "': attending character '"@, "' not in registry"@) + unresolved(registry_keys(reg.settings@), opt_list(opt_ref_view(e.setting)), "scene '"@ + e.id@ + "': setting '"@, "' not in registry"@) + unresolved(registry_keys(reg.threads@), refs_view(e.narrative_threads@), "scene '"@ + e.id@ + "': narrative thread '"@, "' not in registry"@), unresolved(registry_keys(reg.sequences@), opt_list(opt_ref_view(e.sequence_id)), "scene '"@ + e.id@ + "': sequence '"@, "' not in registry"@), line);
    assert(scene_ref_errors(reg, e) == unresolved(registry_keys(reg.characters@), opt_list(opt_ref_view(e.pov_character)), "scene '"@ + e.id@ + "': pov_character '"@, "' not in registry"@) + unresolved(registry_keys(reg.characters@), refs_view(e.attending_characters@), "scene '"@ + e.id@ + "': attending character '"@, "' not in registry"@) + unresolved(registry_keys(reg.settings@), opt_list(opt_ref_view(e.setting)), "scene '"@ + e.id@ + "': setting '"@, "' not in registry"@) + unresolved(registry_keys(reg.threads@), refs_view(e.narrative_threads@), "scene '"@ + e.id@ + "': narrative thread '"@, "' not in registry"@) + unresolved(registry_keys(reg.sequences@), opt_list(opt_ref_view(e.sequence_id)), "scene '"@ + e.id@ + "': sequence '"@, "' not in registry"@));
    lemma_scenes_ref_errors_has(reg, reg.scenes@, i, line);
    lemma_ref_errors_has_list(reg, line);
}

/// Every sequence reference held as `sequence_id` by a registered scene that names no
/// declared entity is reported: `scene '<id>': sequence '<slug>' not in registry`.
pub proof fn lemma_scene_sequence_id_reported(reg: EntityRegistry, i: int)
    requires
        0 <= i < reg.scenes@.len(),
        reg.scenes@[i].1.sequence_id is Some,
        !registry_keys(reg.sequences@).contains(reg.scenes@[i].1.sequence_id->0@),
    ensures
        reg.ref_errors().contains(
            "scene '"@ + reg.scenes@[i].1.id@ + "': sequence '"@ + reg.scenes@[i].1.sequence_id->0@ + "' not in registry"@,
        ),
{
    let e = reg.scenes@[i].1;
    let b = "scene '"@ + e.id@ + "': sequence '"@;
    let a = "' not in registry"@;
    let line = b + e.sequence_id->0@ + a;
    assert(line == "scene '"@ + e.id@ + "': sequence '"@ + e.sequence_id->0@ + "' not in registry"@);
    lemma_unresolved_has(registry_keys(reg.sequences@), opt_list(opt_ref_view(e.sequence_id)), b, a, 0);
    lemma_concat_has(unresolved(registry_keys(reg.characters@), opt_list(opt_ref_view(e.pov_character)), "scene '"@ + e.id@ + "': pov_character '"@, "' not in registry"@), unresolved(registry_keys(reg.characters@), refs_view(e.attending_characters@), "scene '"@ + e.id@ + "': attending character '"@, "' not in registry"@), line);
    lemma_concat_has(unresolved(registry_keys(reg.characters@), opt_list(opt_ref_view(e.pov_character)), "scene '"@ + e.id@ + "': pov_character '"@, "' not in registry"@) + unresolved(registry_keys(reg.characters@), refs_view(e.attending_characters@), "scene '"@ + e.id@ + "': attending character '"@, "' not in registry"@), unresolved(registry_keys(reg.settings@), opt_list(opt_ref_view(e.setting)), "scene '"@ + e.id@ + "': setting '"@, "' not in registry"@), line);
    lemma_concat_has(unresolved(registry_keys(reg.characters@), opt_list(opt_ref_view(e.pov_character)), "scene '"@ + e.id@ + "': pov_character '"@, "' not in registry"@) + unresolved(registry_keys(reg.characters@), refs_view(e.attending_characters@), "scene '"@ + e.id@ + "': attending character '"@, "' not in registry"@) + unresolved(registry_keys(reg.settings@), opt_list(opt_ref_view(e.setting)), "scene '"@ + e.id@ + "': setting '"@, "' not in registry"@), unresolved(registry_keys(reg.threads@), refs_view(e.narrative_threads@), "scene '"@ + e.id@ + "': narrative thread '"@, "' not in registry"@), line);
    lemma_concat_has(unresolved(registry_keys(reg.characters@), opt_list(opt_ref_view(e.pov_character)), "scene '"@ + e.id@ + "': pov_character '"@, "' not in registry"@) + unresolved(registry_keys(reg.characters@), refs_view(e.attending_characters@), "scene '"@ + e.id@ + "': attending character '"@, "' not in registry"@) + unresolved(registry_keys(reg.settings@), opt_list(opt_ref_view(e.setting)), "scene '"@ + e.id@ + "': setting '"@, "' not in registry"@) + unresolved(registry_keys(reg.threads@), refs_view(e.narrative_threads@), "scene '"@ + e.id@ + "': narrative thread '"@, "' not in registry"@), unresolved(registry_keys(reg.sequences@), opt_list(opt_ref_view(e.sequence_id)), "scene '"@ + e.id@ + "': sequence '"@, "' not in registry"@), line);
    assert(scene_ref_errors(reg, e) == unresolved(registry_keys(reg.characters@), opt_list(opt_ref_view(e.pov_character)), "scene '"@ + e.id@ + "': pov_character '"@, "' not in registry"@) + unresolved(registry_keys(reg.characters@), refs_view(e.attending_characters@), "scene '"@ + e.id@ + "': attending character '"@, "' not in registry"@) + unresolved(registry_keys(reg.settings@), opt_list(opt_ref_view(e.setting)), "scene '"@ + e.id@ + "': setting '"@, "' not in registry"@) + unresolved(registry_keys(reg.threads@), refs_view(e.narrative_threads@), "scene '"@ + e.id@ + "': narrative thread '"@, "' not in registry"@) + unresolved(registry_keys(reg.sequences@), opt_list(opt_ref_view(e.sequence_id)), "scene '"@ + e.id@ + "': sequence '"@, "' not in registry"@));
    lemma_scenes_ref_errors_has(reg, reg.scenes@, i, line);
    lemma_ref_errors_has_list(reg, line);
}

/// Every pov character reference held as `pov_characters` by a registered chapter that names no
/// declared entity is reported: `chapter '<id>': pov character '<slug>' not in registry`.
pub proof fn lemma_chapter_pov_characters_reported(reg: EntityRegistry, i: int, j: int)
    requires
        0 <= i < reg.chapters@.len(),
        0 <= j < reg.chapters@[i].1.pov_characters@.len(),
        !registry_keys(reg.characters@).contains(reg.chapters@[i].1.pov_characters@[j]@),
    ensures
        reg.ref_errors().contains(
            "chapter '"@ + reg.chapters@[i].1.id@ + "': pov character '"@ + reg.chapters@[i].1.pov_characters@[j]@ + "' not in registry"@,
        ),
{
    let e = reg.chapters@[i].1;
    let b = "chapter '"@ + e.id@ + "': pov character '"@;
    let a = "' not in registry"@;
    let line = b + e.pov_characters@[j]@ + a;
    assert(line == "chapter '"@ + e.id@ + "': pov character '"@ + e.pov_characters@[j]@ + "' not in registry"@);
    lemma_unresolved_has(registry_keys(reg.characters@), refs_view(e.pov_characters@), b, a, j);
    lemma_concat_has(unresolved(registry_keys(reg.characters@), refs_view(e.pov_characters@), "chapter '"@ + e.id@ + "': pov character '"@, "' not in registry"@), unresolved(registry_keys(reg.beats@), refs_view(e.beats_covered@), "chapter '"@ + e.id@ + "': beat '"@, "' not in registry"@), line);
    assert(chapter_ref_errors(reg, e) == unresolved(registry_keys(reg.characters@), refs_view(e.pov_characters@), "chapter '"@ + e.id@ + "': pov character '"@, "' not in registry"@) + unresolved(registry_keys(reg.beats@), refs_view(e.beats_covered@), "chapter '"@ + e.id@ + "': beat '"@, "' not in registry"@));
    lemma_chapters_ref_errors_has(reg, reg.chapters@, i, line);
    lemma_ref_errors_has_list(reg, line);
}

/// Every beat reference held as `beats_covered` by a registered chapter that names no
/// declared entity is reported: `chapter '<id>': beat '<slug>' not in registry`.
pub proof fn lemma_chapter_beats_covered_reported(reg: EntityRegistry, i: int, j: int)
    requires
        0 <= i < reg.chapters@.len(),
        0 <= j < reg.chapters@[i].1.beats_covered@.len(),
        !registry_keys(reg.beats@).contains(reg.chapters@[i].1.beats_covered@[j]@),
    ensures
        reg.ref_errors().contains(
            "chapter '"@ + reg.chapters@[i].1.id@ + "': beat '"@ + reg.chapters@[i].1.beats_covered@[j]@ + "' not in registry"@,
        ),
{
    let e = reg.chapters@[i].1;
    let b = "chapter '"@ + e.id@ + "': beat '"@;
    let a = "' not in registry"@;
    let line = b + e.beats_covered@[j]@ + a;
    assert(line == "chapter '"@ + e.id@ + "': beat '"@ + e.beats_covered@[j]@ + "' not in registry"@);
    lemma_unresolved_has(registry_keys(reg.beats@), refs_view(e.beats_covered@), b, a, j);
    lemma_concat_has(unresolved(registry_keys(reg.characters@), refs_view(e.pov_characters@), "chapter '"@ + e.id@ + "': pov character '"@, "' not in registry"@), unresolved(registry_keys(reg.beats@), refs_view(e.beats_covered@), "chapter '"@ + e.id@ + "': beat '"@, "' not in registry"@), line);
    assert(chapter_ref_errors(reg, e) == unresolved(registry_keys(reg.characters@), refs_view(e.pov_characters@), "chapter '"@ + e.id@ + "': pov character '"@, "' not in registry"@) + unresolved(registry_keys(reg.beats@), refs_view(e.beats_covered@), "chapter '"@ + e.id@ + "': beat '"@, "' not in registry"@));
    lemma_chapters_ref_errors_has(reg, reg.chapters@, i, line);
    lemma_ref_errors_has_list(reg, line);
}

/// Every thread reference held as `associated_threads` by a registered beat that names no
/// declared entity is reported: `beat '<id>': thread '<slug>' not in registry`.
pub proof fn lemma_beat_associated_threads_reported(reg: EntityRegistry, i: int, j: int)
    requires
        0 <= i < reg.beats@.len(),
        0 <= j < reg.beats@[i].1.associated_threads@.len(),
        !registry_keys(reg.threads@).contains(reg.beats@[i].1.associated_threads@[j]@),
    ensures
        reg.ref_errors().contains(
            "beat '"@ + reg.beats@[i].1.id@ + "': thread '"@ + reg.beats@[i].1.associated_threads@[j]@ + "' not in registry"@,
        ),
{
    let e = reg.beats@[i].1;
    let b = "beat '"@ + e.id@ + "': thread '"@;
    let a = "' not in registry"@;
    let line = b + e.associated_threads@[j]@ + a;
    assert(line == "beat '"@ + e.id@ + "': thread '"@ + e.associated_threads@[j]@ + "' not in registry"@);
    lemma_unresolved_has(registry_keys(reg.threads@), refs_view(e.associated_threads@), b, a, j);
    
    assert(beat_ref_errors(reg, e) == unresolved(registry_keys(reg.threads@), refs_view(e.associated_threads@), "beat '"@ + e.id@ + "': thread '"@, "' not in registry"@));
    lemma_beats_ref_errors_has(reg, reg.beats@, i, line);
    lemma_ref_errors_has_list(reg, line);
}

/// Every appearance scene reference held as `appearance scene` by a registered motif that names no
/// declared entity is reported: `motif '<id>': appearance scene '<slug>' not in registry`.
pub proof fn lemma_motif_motif_reported(reg: EntityRegistry, i: int, j: int)
    requires
        0 <= i < reg.motifs@.len(),
        0 <= j < motif_scenes(reg.motifs@[i].1).len(),
        !registry_keys(reg.scenes@).contains(motif_scenes(reg.motifs@[i].1)[j]),
    ensures
        reg.ref_errors().contains(
            "motif '"@ + reg.motifs@[i].1.id@ + "': appearance scene '"@ + motif_scenes(reg.motifs@[i].1)[j] + "' not in registry"@,
        ),
{
    let e = reg.motifs@[i].1;
    let b = "motif '"@ + e.id@ + "': appearance scene '"@;
    let a = "' not in registry"@;
    let line = b + motif_scenes(e)[j] + a;
    assert(line == "motif '"@ + e.id@ + "': appearance scene '"@ + motif_scenes(e)[j] + "' not in registry"@);
    lemma_unresolved_has(registry_keys(reg.scenes@), motif_scenes(e), b, a, j);
    
    assert(motif_ref_errors(reg, e) == unresolved(registry_keys(reg.scenes@), motif_scenes(e), "motif '"@ + e.id@ + "': appearance scene '"@, "' not in registry"@));
    lemma_motifs_ref_errors_has(reg, reg.motifs@, i, line);
    lemma_ref_errors_has_list(reg, line);
}

/// Every key scene reference held as `key_scenes` by a registered symbol that names no
/// declared entity is reported: `symbol '<id>': key scene '<slug>' not in registry`.
pub proof fn lemma_symbol_key_scenes_reported(reg: EntityRegistry, i: int, j: int)
    requires
        0 <= i < reg.symbols@.len(),
        0 <= j < reg.symbols@[i].1.key_scenes@.len(),
        !registry_keys(reg.scenes@).contains(reg.symbols@[i].1.key_scenes@[j]@),
    ensures
        reg.ref_errors().contains(
            "symbol '"@ + reg.symbols@[i].1.id@ + "': key scene '"@ + reg.symbols@[i].1.key_scenes@[j]@ + "' not in registry"@,
        ),
{
    let e = reg.symbols@[i].1;
    let b = "symbol '"@ + e.id@ + "': key scene '"@;
    let a = "' not in registry"@;
    let line = b + e.key_scenes@[j]@ + a;
    assert(line == "symbol '"@ + e.id@ + "': key scene '"@ + e.key_scenes@[j]@ + "' not in registry"@);
    lemma_unresolved_has(registry_keys(reg.scenes@), refs_view(e.key_scenes@), b, a, j);
    
    assert(symbol_ref_errors(reg, e) == unresolved(registry_keys(reg.scenes@), refs_view(e.key_scenes@), "symbol '"@ + e.id@ + "': key scene '"@, "' not in registry"@));
    lemma_symbols_ref_errors_has(reg, reg.symbols@, i, line);
    lemma_ref_errors_has_list(reg, line);
}

/// Every character reference held as `character` by a registered leitmotif that names no
/// declared entity is reported: `leitmotif '<id>': character '<slug>' not in registry`.
pub proof fn lemma_leitmotif_character_reported(reg: EntityRegistry, i: int)
    requires
        0 <= i < reg.leitmotifs@.len(),
        !registry_keys(reg.characters@).contains(reg.leitmotifs@[i].1.character@),
    ensures
        reg.ref_errors().contains(
            "leitmotif '"@ + reg.leitmotifs@[i].1.id@ + "': character '"@ + reg.leitmotifs@[i].1.character@ + "' not in registry"@,
        ),
{
    let e = reg.leitmotifs@[i].1;
    let b = "leitmotif '"@ + e.id@ + "': character '"@;
    let a = "' not in registry"@;
    let line = b + e.character@ + a;
    assert(line == "leitmotif '"@ + e.id@ + "': character '"@ + e.character@ + "' not in registry"@);
    lemma_unresolved_has(registry_keys(reg.characters@), seq![e.character@], b, a, 0);
    
    assert(leitmotif_ref_errors(reg, e) == unresolved(registry_keys(reg.characters@), seq![e.character@], "leitmotif '"@ + e.id@ + "': character '"@, "' not in registry"@));
    lemma_leitmotifs_ref_errors_has(reg, reg.leitmotifs@, i, line);
    lemma_ref_errors_has_list(reg, line);
}

/// Every character reference held as `characters` by a registered thread that names no
/// declared entity is reported: `thread '<id>': character '<slug>' not in registry`.
pub proof fn lemma_thread_characters_reported(reg: EntityRegistry, i: int, j: int)
    requires
        0 <= i < reg.threads@.len(),
        0 <= j < reg.threads@[i].1.characters@.len(),
        !registry_keys(reg.characters@).contains(reg.threads@[i].1.characters@[j]@),
    ensures
        reg.ref_errors().contains(
            "thread '"@ + reg.threads@[i].1.id@ + "': character '"@ + reg.threads@[i].1.characters@[j]@ + "' not in registry"@,
        ),
{
    let e = reg.threads@[i].1;
    let b = "thread '"@ + e.id@ + "': character '"@;
    let a = "' not in registry"@;
    let line = b + e.characters@[j]@ + a;
    assert(line == "thread '"@ + e.id@ + "': character '"@ + e.characters@[j]@ + "' not in registry"@);
    lemma_unresolved_has(registry_keys(reg.characters@), refs_view(e.characters@), b, a, j);
    
    assert(thread_ref_errors(reg, e) == unresolved(registry_keys(reg.characters@), refs_view(e.characters@), "thread '"@ + e.id@ + "': character '"@, "' not in registry"@));
    lemma_threads_ref_errors_has(reg, reg.threads@, i, line);
    lemma_ref_errors_has_list(reg, line);
}

/// Every planted_in scene reference held as `planted_in` by a registered promise that names no
/// declared entity is reported: `promise '<id>': planted_in scene '<slug>' not in registry`.
pub proof fn lemma_promise_planted_in_reported(reg: EntityRegistry, i: int)
    requires
        0 <= i < reg.promises@.len(),
        reg.promises@[i].1.planted_in is Some,
        !registry_keys(reg.scenes@).contains(reg.promises@[i].1.planted_in->0@),
    ensures
        reg.ref_errors().contains(
            "promise '"@ + reg.promises@[i].1.id@ + "': planted_in scene '"@ + reg.promises@[i].1.planted_in->0@ + "' not in registry"@,
        ),
{
    let e = reg.promises@[i].1;
    let b = "promise '"@ + e.id@ + "': planted_in scene '"@;
    let a = "' not in registry"@;
    let line = b + e.planted_in->0@ + a;
    assert(line == "promise '"@ + e.id@ + "': planted_in scene '"@ + e.planted_in->0@ + "' not in registry"@);
    lemma_unresolved_has(registry_keys(reg.scenes@), opt_list(opt_ref_view(e.planted_in)), b, a, 0);
    lemma_concat_has(unresolved(registry_keys(reg.scenes@), opt_list(opt_ref_view(e.planted_in)), "promise '"@ + e.id@ + "': planted_in scene '"@, "' not in registry"@), unresolved(registry_keys(reg.scenes@), opt_list(opt_ref_view(e.paid_off_in)), "promise '"@ + e.id@ + "': paid_off_in scene '"@, "' not in registry"@), line);
    assert(promise_ref_errors(reg, e) == unresolved(registry_keys(reg.scenes@), opt_list(opt_ref_view(e.planted_in)), "promise '"@ + e.id@ + "': planted_in scene '"@, "' not in registry"@) + unresolved(registry_keys(reg.scenes@), opt_list(opt_ref_view(e.paid_off_in)), "promise '"@ + e.id@ + "': paid_off_in scene '"@, "' not in registry"@));
    lemma_promises_ref_errors_has(reg, reg.promises@, i, line);
    lemma_ref_errors_has_list(reg, line);
}

/// Every paid_off_in scene reference held as `paid_off_in` by a registered promise that names no
/// declared entity is reported: `promise '<id>': paid_off_in scene '<slug>' not in registry`.
pub proof fn lemma_promise_paid_off_in_reported(reg: EntityRegistry, i: int)
    requires
        0 <= i < reg.promises@.len(),
        reg.promises@[i].1.paid_off_in is Some,
        !registry_keys(reg.scenes@).contains(reg.promises@[i].1.paid_off_in->0@),
    ensures
        reg.ref_errors().contains(
            "promise '"@ + reg.promises@[i].1.id@ + "': paid_off_in scene '"@ + reg.promises@[i].1.paid_off_in->0@ + "' not in registry"@,
        ),
{
    let e = reg.promises@[i].1;
    let b = "promise '"@ + e.id@ + "': paid_off_in scene '"@;
    let a = "' not in registry"@;
    let line = b + e.paid_off_in->0@ + a;
    assert(line == "promise '"@ + e.id@ + "': paid_off_in scene '"@ + e.paid_off_in->0@ + "' not in registry"@);
    lemma_unresolved_has(registry_keys(reg.scenes@), opt_list(opt_ref_view(e.paid_off_in)), b, a, 0);
    lemma_concat_has(unresolved(registry_keys(reg.scenes@), opt_list(opt_ref_view(e.planted_in)), "promise '"@ + e.id@ + "': planted_in scene '"@, "' not in registry"@), unresolved(registry_keys(reg.scenes@), opt_list(opt_ref_view(e.paid_off_in)), "promise '"@ + e.id@ + "': paid_off_in scene '"@, "' not in registry"@), line);
    assert(promise_ref_errors(reg, e) == unresolved(registry_keys(reg.scenes@), opt_list(opt_ref_view(e.planted_in)), "promise '"@ + e.id@ + "': planted_in scene '"@, "' not in registry"@) + unresolved(registry_keys(reg.scenes@), opt_list(opt_ref_view(e.paid_off_in)), "promise '"@ + e.id@ + "': paid_off_in scene '"@, "' not in registry"@));
    lemma_promises_ref_errors_has(reg, reg.promises@, i, line);
    lemma_ref_errors_has_list(reg, line);
}

/// Every scene reference held as `scene` by a registered sequence that names no
/// declared entity is reported: `sequence '<id>': scene '<slug>' not in registry`.
pub proof fn lemma_sequence_seqscenes_reported(reg: EntityRegistry, i: int, j: int)
    requires
        0 <= i < reg.sequences@.len(),
        0 <= j < sequence_scenes(reg.sequences@[i].1.scenes@).len(),
        !registry_keys(reg.scenes@).contains(sequence_scenes(reg.sequences@[i].1.scenes@)[j]),
    ensures
        reg.ref_errors().contains(
            "sequence '"@ + reg.sequences@[i].1.id@ + "': scene '"@ + sequence_scenes(reg.sequences@[i].1.scenes@)[j] + "' not in registry"@,
        ),
{
    let e = reg.sequences@[i].1;
    let b = "sequence '"@ + e.id@ + "': scene '"@;
    let a = "' not in registry"@;
    let line = b + sequence_scenes(e.scenes@)[j] + a;
    assert(line == "sequence '"@ + e.id@ + "': scene '"@ + sequence_scenes(e.scenes@)[j] + "' not in registry"@);
    lemma_unresolved_has(registry_keys(reg.scenes@), sequence_scenes(e.scenes@), b, a, j);
    lemma_concat_has(unresolved(registry_keys(reg.scenes@), sequence_scenes(e.scenes@), "sequence '"@ + e.id@ + "': scene '"@, "' not in registry"@), unresolved(registry_keys(reg.threads@), sequence_threads(e.scenes@), "sequence '"@ + e.id@ + "': thread '"@, "' not in registry"@), line);
    assert(sequence_ref_errors(reg, e) == unresolved(registry_keys(reg.scenes@), sequence_scenes(e.scenes@), "sequence '"@ + e.id@ + "': scene '"@, "' not in registry"@) + unresolved(registry_keys(reg.threads@), sequence_threads(e.scenes@), "sequence '"@ + e.id@ + "': thread '"@, "' not in registry"@));
    lemma_sequences_ref_errors_has(reg, reg.sequences@, i, line);
    lemma_ref_errors_has_list(reg, line);
}

/// Every thread reference held as `thread` by a registered sequence that names no
/// declared entity is reported: `sequence '<id>': thread '<slug>' not in registry`.
pub proof fn lemma_sequence_seqthreads_reported(reg: EntityRegistry, i: int, j: int)
    requires
        0 <= i < reg.sequences@.len(),
        0 <= j < sequence_threads(reg.sequences@[i].1.scenes@).len(),
        !registry_keys(reg.threads@).contains(sequence_threads(reg.sequences@[i].1.scenes@)[j]),
    ensures
        reg.ref_errors().contains(
            "sequence '"@ + reg.sequences@[i].1.id@ + "': thread '"@ + sequence_threads(reg.sequences@[i].1.scenes@)[j] + "' not in registry"@,
        ),
{
    let e = reg.sequences@[i].1;
    let b = "sequence '"@ + e.id@ + "': thread '"@;
    let a = "' not in registry"@;
    let line = b + sequence_threads(e.scenes@)[j] + a;
    assert(line == "sequence '"@ + e.id@ + "': thread '"@ + sequence_threads(e.scenes@)[j] + "' not in registry"@);
    lemma_unresolved_has(registry_keys(reg.threads@), sequence_threads(e.scenes@), b, a, j);
    lemma_concat_has(unresolved(registry_keys(reg.scenes@), sequence_scenes(e.scenes@), "sequence '"@ + e.id@ + "': scene '"@, "' not in registry"@), unresolved(registry_keys(reg.threads@), sequence_threads(e.scenes@), "sequence '"@ + e.id@ + "': thread '"@, "' not in registry"@), line);
    assert(sequence_ref_errors(reg, e) == unresolved(registry_keys(reg.scenes@), sequence_scenes(e.scenes@), "sequence '"@ + e.id@ + "': scene '"@, "' not in registry"@) + unresolved(registry_keys(reg.threads@), sequence_threads(e.scenes@), "sequence '"@ + e.id@ + "': thread '"@, "' not in registry"@));
    lemma_sequences_ref_errors_has(reg, reg.sequences@, i, line);
    lemma_ref_errors_has_list(reg, line);
}

} // verus!
