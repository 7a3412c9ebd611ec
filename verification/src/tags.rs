//! Strongly-typed annotations.
//!
//! Prose is tagged with inline `<!-- key:value -->` HTML comments.  This module
//! holds the typed form of those tags: the [`Annotation`] enum, the channel each
//! tag feeds, the paragraph-level state that a run of tags resolves to, and the
//! flattening of annotations back into `(key, value)` pairs for the constraint
//! graph.  Parsing the comments lives in [`crate::tag_parser`].
//!
//! **Placement rule**: an annotation at the start of a paragraph governs that
//! paragraph and holds until the next annotation of the same type overrides it.

use vstd::prelude::*;

use crate::constraints::PairView;

use crate::enums::{
    AbjectCategory,
    AccessibilityRelation,
    Act,
    Actant,
    AdaptationMode,
    AffectMode,
    ArcPattern,
    ArcType,
    AutofictionMode,
    BloomInfluenceMode,
    BurkeFormType,
    CognitiveNarrativeMode,
    ComedyTheory,
    ComicMode,
    Complexity,
    ConflictType,
    ConsciousnessMode,
    CulturalStructure,
    DefamiliarizationMode,
    DiegeticLevel,
    DisabilityRepMode,
    DisplacementGap,
    DominantSense,
    DriveModel,
    EcocriticalMode,
    EmplotmentType,
    EngagementMode,
    EthicsAuditCategory,
    ExperimentalNarrationMode,
    FeministNarrativeType,
    FocalizationType,
    FreudianMechanism,
    GazeType,
    Genre,
    GenreReadingMode,
    GriceanMaxim,
    HermanRecoveryStage,
    ImageSchema,
    IntertextualRelation,
    IntimateSpaceType,
    IronyType,
    JakobsonFunction,
    JenkinsTransmediaType,
    KnowledgeScope,
    LacanRegister,
    MarxistNarrativeMode,
    MetaphorType,
    MimesisPhase,
    MotifStage,
    MultilingualStrategy,
    NarrativeDistance,
    NarrativeEthicsMode,
    NonResponseType,
    OpeningType,
    OutcomeType,
    PactType,
    PanelTransitionType,
    ParatextZone,
    PentadElement,
    PentadRatio,
    PerformativityMode,
    PostcolonialMode,
    PosthumanMode,
    PovType,
    ProfanityLevel,
    PromisePhase,
    PromiseStatus,
    ProppFunction,
    ProsodicElement,
    PsychicDistance,
    QueerTimeMode,
    QuestionDelivery,
    ReaderExperienceEffect,
    ReliabilitySpectrum,
    RevisionFlag,
    RevisionPassType,
    SceneFunction,
    SceneType,
    SemioticSquarePosition,
    SentenceArchitecture,
    SentenceLength,
    SentenceType,
    SerialArcType,
    SignType,
    SignifyingMode,
    SpatialPractice,
    SpeechAct,
    StoryworkProtocol,
    SurvivranceMode,
    TemporalDuration,
    TemporalFrequency,
    TemporalOrder,
    TimeOfDay,
    TransitivityProcess,
    TranslationStrategy,
    TraumaMode,
    VisualVerbalRelation,
    VocabularyLevel,
    VoiceStructure,
    VoiceTone,
    Weather,
    WorldDeliveryMethod,
    YaNarratorType,
};
use crate::text::{decimal, owned, u32_to_string};
use crate::vocabulary::SnakeName;

pub use crate::tag_parser::{
    parse_annotation_comment, parse_thread_id, tokenize_pairs, try_parse_annotation_comment,
    try_tokenize_pairs,
};

verus! {

// ── Annotation channel ────────────────────────────────────────────────────────

/// Semantic channel for an annotation: which input channel the tag contributes
/// to when a scene context is assembled.
///
/// The two primary channels are kept separate so that a model can attend to
/// *what is happening* (narrative situation) apart from *how to render it*
/// (prose technique).
#[derive(Debug, Clone, Copy, PartialEq, Eq, Hash, Structural)]
pub enum AnnotationChannel {
    /// Entity references and narrative-structure metadata: who, where and what
    /// is happening in the story world.
    Context,
    /// Prose-technique instructions: how to write the passage (psychic
    /// distance, tension, rhythm, focalization mode, ...).
    Craft,
    /// Scholarly and critical-theory framework tags, mainly for analysis.
    Theory,
    /// Revision flags, source citations and audiobook control tags.
    Governance,
}

// ── AnnotationKey ─────────────────────────────────────────────────────────────

/// A vocabulary whose variants appear as values of one `<!-- key:value -->` tag.
///
/// It records the canonical tag key and the channel the tag belongs to; the
/// [`AnnotationKey::to_pair`] method derives the `(key, value)` pair that the
/// constraint graph validates.
pub trait AnnotationKey: SnakeName {
    /// The canonical Markdown annotation key, e.g. `"postcolonial"`, `"pov"`.
    spec fn spec_tag_key() -> Seq<char>;

    /// The channel this annotation contributes to.
    spec fn spec_channel() -> AnnotationChannel;

    /// The canonical Markdown annotation key.
    fn tag_key() -> (r: &'static str)
        ensures
            r@ == Self::spec_tag_key(),
    ;

    /// The channel this annotation contributes to.
    fn channel() -> (r: AnnotationChannel)
        ensures
            r == Self::spec_channel(),
    ;

    /// The `(key, value)` pair for constraint-graph validation: the tag key
    /// and the snake-case name of the value.
    fn to_pair(self) -> (r: (String, String))
        ensures
            r.0@ == Self::spec_tag_key(),
            r.1@ == self.spec_name(),
    {
        (owned(Self::tag_key()), owned(self.name()))
    }
}

// ── Entity reference ──────────────────────────────────────────────────────────

/// A slug reference to an entity.
///
/// The slug is a `snake_case` string matching the entity's `id` field in its
/// registry.  Checking it against the registry happens elsewhere; the type is
/// a transparent wrapper.
#[derive(Debug, PartialEq, Eq, Hash)]
pub struct EntityRef {
    pub slug: String,
}

impl View for EntityRef {
    type V = Seq<char>;

    open spec fn view(&self) -> Seq<char> {
        self.slug@
    }
}

impl EntityRef {
    /// A reference to the entity with this slug.
    pub fn new(slug: &str) -> (r: Self)
        ensures
            r@ == slug@,
    {
        EntityRef { slug: owned(slug) }
    }

    /// The display form of the reference: its slug.
    pub fn to_string(&self) -> (r: String)
        ensures
            r@ == self@,
    {
        self.slug.clone()
    }
}

impl Clone for EntityRef {
    fn clone(&self) -> (r: Self)
        ensures
            r == *self,
    {
        EntityRef { slug: self.slug.clone() }
    }
}

impl From<String> for EntityRef {
    fn from(s: String) -> (r: Self) {
        EntityRef { slug: s }
    }
}

impl vstd::std_specs::convert::FromSpecImpl<String> for EntityRef {
    open spec fn obeys_from_spec() -> bool {
        true
    }

    open spec fn from_spec(v: String) -> Self {
        EntityRef { slug: v }
    }
}

/// The slugs of a list of references.
pub open spec fn refs_view(v: Seq<EntityRef>) -> Seq<Seq<char>> {
    v.map_values(|r: EntityRef| r@)
}

/// The slug of an optional reference.
pub open spec fn opt_ref_view(o: Option<EntityRef>) -> Option<Seq<char>> {
    match o {
        Some(r) => Some(r@),
        None => None,
    }
}

/// The characters of an optional string.
pub open spec fn opt_text_view(o: Option<String>) -> Option<Seq<char>> {
    match o {
        Some(s) => Some(s@),
        None => None,
    }
}

fn clone_opt_string(o: &Option<String>) -> (r: Option<String>)
    ensures
        r == *o,
{
    match o {
        Some(s) => Some(s.clone()),
        None => None,
    }
}

fn clone_opt_ref(o: &Option<EntityRef>) -> (r: Option<EntityRef>)
    ensures
        r == *o,
{
    match o {
        Some(s) => Some(s.clone()),
        None => None,
    }
}

fn clone_refs(v: &Vec<EntityRef>) -> (r: Vec<EntityRef>)
    ensures
        refs_view(r@) == refs_view(v@),
{
    let mut out: Vec<EntityRef> = Vec::new();
    let mut i: usize = 0;
    while i < v.len()
        invariant
            i <= v@.len(),
            refs_view(out@) == refs_view(v@.take(i as int)),
        decreases v.len() - i,
    {
        let c = v[i].clone();
        let ghost prev = out@;
        out.push(c);
        assert(out@ == prev.push(v@[i as int]));
        assert(v@.take(i + 1) =~= v@.take(i as int).push(v@[i as int]));
        assert(refs_view(out@) =~= refs_view(prev).push(v@[i as int]@));
        i = i + 1;
    }
    assert(v@.take(v@.len() as int) =~= v@);
    out
}

// ── Tension ───────────────────────────────────────────────────────────────────

/// A 1–10 tension score.
#[derive(Debug, Clone, Copy, PartialEq, Eq, Hash, Structural)]
pub struct Tension(u8);

impl Tension {
    #[verifier::type_invariant]
    spec fn in_range(self) -> bool {
        1 <= self.0 <= 10
    }

    /// The score on the 1–10 scale.
    pub closed spec fn spec_value(self) -> u8 {
        self.0
    }

    /// The error text for an out-of-range score.
    pub open spec fn range_error(value: u8) -> Seq<char> {
        "Tension must be 1–10, got "@ + decimal(value as nat)
    }

    /// A tension of `value`, which must lie in 1–10.
    pub fn new(value: u8) -> (r: Result<Self, String>)
        ensures
            match r {
                Ok(t) => 1 <= value <= 10 && t.spec_value() == value,
                Err(e) => !(1 <= value <= 10) && e@ == Self::range_error(value),
            },
    {
        if 1 <= value && value <= 10 {
            Ok(Tension(value))
        } else {
            let mut e = String::from_str("Tension must be 1–10, got ");
            let n = u32_to_string(value as u32);
            e.append(n.as_str());
            Err(e)
        }
    }

    /// The score on the 1–10 scale.
    pub fn value(self) -> (r: u8)
        ensures
            r == self.spec_value(),
            1 <= r <= 10,
    {
        proof {
            use_type_invariant(&self);
        }
        self.0
    }
}

// ── Source citation ───────────────────────────────────────────────────────────

/// A `<!-- source: ch3.p12 "…quote…" -->` citation used in analysis mode.
#[derive(Debug, PartialEq, Eq)]
pub struct SourceCitation {
    pub raw: String,
    pub chapter: Option<u32>,
    pub paragraph: Option<u32>,
    pub page: Option<u32>,
    pub quote: Option<String>,
}

/// The content of a [`SourceCitation`].
pub struct SourceCitationView {
    pub raw: Seq<char>,
    pub chapter: Option<u32>,
    pub paragraph: Option<u32>,
    pub page: Option<u32>,
    pub quote: Option<Seq<char>>,
}

impl View for SourceCitation {
    type V = SourceCitationView;

    open spec fn view(&self) -> SourceCitationView {
        SourceCitationView {
            raw: self.raw@,
            chapter: self.chapter,
            paragraph: self.paragraph,
            page: self.page,
            quote: opt_text_view(self.quote),
        }
    }
}

impl Clone for SourceCitation {
    fn clone(&self) -> (r: Self)
        ensures
            r == *self,
    {
        SourceCitation {
            raw: self.raw.clone(),
            chapter: self.chapter,
            paragraph: self.paragraph,
            page: self.page,
            quote: clone_opt_string(&self.quote),
        }
    }
}

/// Top-level document source declaration.
#[derive(Debug, PartialEq, Eq)]
pub struct SourceTextMeta {
    pub title: String,
    pub author: String,
    pub edition: Option<String>,
    pub year: Option<u32>,
}

/// The content of a [`SourceTextMeta`].
pub struct SourceTextMetaView {
    pub title: Seq<char>,
    pub author: Seq<char>,
    pub edition: Option<Seq<char>>,
    pub year: Option<u32>,
}

impl View for SourceTextMeta {
    type V = SourceTextMetaView;

    open spec fn view(&self) -> SourceTextMetaView {
        SourceTextMetaView {
            title: self.title@,
            author: self.author@,
            edition: opt_text_view(self.edition),
            year: self.year,
        }
    }
}

impl Clone for SourceTextMeta {
    fn clone(&self) -> (r: Self)
        ensures
            r == *self,
    {
        SourceTextMeta {
            title: self.title.clone(),
            author: self.author.clone(),
            edition: clone_opt_string(&self.edition),
            year: self.year,
        }
    }
}

// ── Relationship tag data ─────────────────────────────────────────────────────

/// A relationship between two entities, with an optional relationship type.
#[derive(Debug, PartialEq, Eq)]
pub struct RelationshipTag {
    pub from: EntityRef,
    pub to: EntityRef,
    pub rel_type: Option<String>,
}

/// The content of a [`RelationshipTag`].
pub struct RelationshipTagView {
    pub from: Seq<char>,
    pub to: Seq<char>,
    pub rel_type: Option<Seq<char>>,
}

impl View for RelationshipTag {
    type V = RelationshipTagView;

    open spec fn view(&self) -> RelationshipTagView {
        RelationshipTagView {
            from: self.from@,
            to: self.to@,
            rel_type: opt_text_view(self.rel_type),
        }
    }
}

impl Clone for RelationshipTag {
    fn clone(&self) -> (r: Self)
        ensures
            r == *self,
    {
        RelationshipTag {
            from: self.from.clone(),
            to: self.to.clone(),
            rel_type: clone_opt_string(&self.rel_type),
        }
    }
}

// ── Scene compound tag ────────────────────────────────────────────────────────

/// A `<!-- scene:slug beat:X pov:Y setting:Z -->` compound tag.
#[derive(Debug, PartialEq, Eq)]
pub struct SceneTagData {
    pub scene_id: EntityRef,
    pub beat: Option<EntityRef>,
    pub pov: Option<EntityRef>,
    pub setting: Option<EntityRef>,
}

/// The content of a [`SceneTagData`].
pub struct SceneTagDataView {
    pub scene_id: Seq<char>,
    pub beat: Option<Seq<char>>,
    pub pov: Option<Seq<char>>,
    pub setting: Option<Seq<char>>,
}

impl View for SceneTagData {
    type V = SceneTagDataView;

    open spec fn view(&self) -> SceneTagDataView {
        SceneTagDataView {
            scene_id: self.scene_id@,
            beat: opt_ref_view(self.beat),
            pov: opt_ref_view(self.pov),
            setting: opt_ref_view(self.setting),
        }
    }
}

impl Clone for SceneTagData {
    fn clone(&self) -> (r: Self)
        ensures
            r == *self,
    {
        SceneTagData {
            scene_id: self.scene_id.clone(),
            beat: clone_opt_ref(&self.beat),
            pov: clone_opt_ref(&self.pov),
            setting: clone_opt_ref(&self.setting),
        }
    }
}

// ── Promise tag ───────────────────────────────────────────────────────────────

/// A hermeneutic promise tag: the promise's slug, phase and status.
#[derive(Debug, PartialEq, Eq)]
pub struct PromiseTagData {
    pub slug: EntityRef,
    pub phase: Option<PromisePhase>,
    pub status: Option<PromiseStatus>,
}

/// The content of a [`PromiseTagData`].
pub struct PromiseTagDataView {
    pub slug: Seq<char>,
    pub phase: Option<PromisePhase>,
    pub status: Option<PromiseStatus>,
}

impl View for PromiseTagData {
    type V = PromiseTagDataView;

    open spec fn view(&self) -> PromiseTagDataView {
        PromiseTagDataView { slug: self.slug@, phase: self.phase, status: self.status }
    }
}

impl Clone for PromiseTagData {
    fn clone(&self) -> (r: Self)
        ensures
            r == *self,
    {
        PromiseTagData { slug: self.slug.clone(), phase: self.phase, status: self.status }
    }
}

// ── Thread tag ────────────────────────────────────────────────────────────────

/// The narrative thread a passage belongs to.
#[derive(Debug, PartialEq, Eq)]
pub enum ThreadId {
    Main,
    Subplot(String),
    FrameNarrator,
    EmbeddedStory,
    DualPov(String),
    Custom(String),
}

/// The content of a [`ThreadId`].
pub enum ThreadIdView {
    Main,
    Subplot(Seq<char>),
    FrameNarrator,
    EmbeddedStory,
    DualPov(Seq<char>),
    Custom(Seq<char>),
}

impl View for ThreadId {
    type V = ThreadIdView;

    open spec fn view(&self) -> ThreadIdView {
        match self {
            ThreadId::Main => ThreadIdView::Main,
            ThreadId::Subplot(s) => ThreadIdView::Subplot(s@),
            ThreadId::FrameNarrator => ThreadIdView::FrameNarrator,
            ThreadId::EmbeddedStory => ThreadIdView::EmbeddedStory,
            ThreadId::DualPov(s) => ThreadIdView::DualPov(s@),
            ThreadId::Custom(s) => ThreadIdView::Custom(s@),
        }
    }
}

impl Clone for ThreadId {
    fn clone(&self) -> (r: Self)
        ensures
            r == *self,
    {
        match self {
            ThreadId::Main => ThreadId::Main,
            ThreadId::Subplot(s) => ThreadId::Subplot(s.clone()),
            ThreadId::FrameNarrator => ThreadId::FrameNarrator,
            ThreadId::EmbeddedStory => ThreadId::EmbeddedStory,
            ThreadId::DualPov(s) => ThreadId::DualPov(s.clone()),
            ThreadId::Custom(s) => ThreadId::Custom(s.clone()),
        }
    }
}

/// The single value a thread is written as in a `thread:` tag.
pub open spec fn thread_text(t: ThreadIdView) -> Seq<char> {
    match t {
        ThreadIdView::Main => "main"@,
        ThreadIdView::FrameNarrator => "frame_narrator"@,
        ThreadIdView::EmbeddedStory => "embedded_story"@,
        ThreadIdView::Subplot(v) => "subplot_"@ + v,
        ThreadIdView::DualPov(v) => "dual_pov_"@ + v,
        ThreadIdView::Custom(v) => v,
    }
}

impl ThreadId {
    /// The single value this thread is written as in a `thread:` tag.
    pub fn text(&self) -> (r: String)
        ensures
            r@ == thread_text(self@),
    {
        match self {
            ThreadId::Main => owned("main"),
            ThreadId::FrameNarrator => owned("frame_narrator"),
            ThreadId::EmbeddedStory => owned("embedded_story"),
            ThreadId::Subplot(v) => {
                let mut s = owned("subplot_");
                s.append(v.as_str());
                s
            },
            ThreadId::DualPov(v) => {
                let mut s = owned("dual_pov_");
                s.append(v.as_str());
                s
            },
            ThreadId::Custom(v) => v.clone(),
        }
    }
}

// ── Subplot compound tag ──────────────────────────────────────────────────────

/// A subplot and the characters it involves.
#[derive(Debug, PartialEq, Eq)]
pub struct SubplotTagData {
    pub slug: EntityRef,
    pub characters: Vec<EntityRef>,
}

/// The content of a [`SubplotTagData`].
pub struct SubplotTagDataView {
    pub slug: Seq<char>,
    pub characters: Seq<Seq<char>>,
}

impl View for SubplotTagData {
    type V = SubplotTagDataView;

    open spec fn view(&self) -> SubplotTagDataView {
        SubplotTagDataView { slug: self.slug@, characters: refs_view(self.characters@) }
    }
}

impl Clone for SubplotTagData {
    fn clone(&self) -> (r: Self)
        ensures
            r@ == self@,
    {
        SubplotTagData { slug: self.slug.clone(), characters: clone_refs(&self.characters) }
    }
}

// ── The central Annotation type ───────────────────────────────────────────────

/// Every annotation tag type, as a strongly-typed enum.
///
/// Each variant corresponds to one (or a family of) `<!-- key:value -->` tags.
/// Compound tags (e.g. `<!-- scene:slug beat:X pov:Y -->`) are held in the
/// matching structured variant.
#[derive(Debug, PartialEq, Eq)]
pub enum Annotation {
    // ── Entity references
    Character(EntityRef),
    Setting(EntityRef),
    Beat(EntityRef),
    Chapter { number: u32, title: Option<String> },

    // ── Relationship
    Relationship(RelationshipTag),

    // ── Scene compound
    Scene(SceneTagData),

    // ── Narrative thread
    Thread(ThreadId),

    // ── Subplot
    Subplot(SubplotTagData),

    // ── Structural
    DiegeticLevel(DiegeticLevel),
    Genre(Genre),
    Act(Act),

    // ── Character attributes (in-scene state)
    Archetype(EntityRef),
    Role(EntityRef),
    Alignment(EntityRef),
    Wound(EntityRef),
    SocialCircle(EntityRef),
    PlotType(EntityRef),
    CollisionPattern(EntityRef),
    Trope(EntityRef),
    DriveModel(DriveModel),
    Actant(Actant),

    // ── Prose-level craft instructions (key input for voice fine-tuning)
    PsychicDistance(PsychicDistance),
    Consciousness(ConsciousnessMode),
    Subtext(String),
    Tension(Tension),
    SpeechAct(SpeechAct),
    Gaze(GazeType),
    Pact(PactType),

    // ── Motif
    Motif { slug: EntityRef, stage: Option<MotifStage> },

    // ── Hermeneutic code
    Promise(PromiseTagData),

    // ── Revision
    Flag(RevisionFlag),

    // ── Analysis mode
    Source(SourceCitation),
    SourceText(SourceTextMeta),

    // ── Paratext
    ParatextZone(ParatextZone),

    // ── TTS / audiobook
    Speaker { name: String },
    Tone(VoiceTone),
    Ambience(String),
    Music(String),
    Delivery(String),
    Sfx(String),

    // ── Genette narrative time
    TemporalOrder(TemporalOrder),
    TemporalDuration(TemporalDuration),
    TemporalFrequency(TemporalFrequency),

    // ── Reader experience (Sternberg / Iser)
    ReaderEffect(ReaderExperienceEffect),

    // ── Intertextuality (Genette / Bloom)
    Intertextual(IntertextualRelation),
    BloomMode(BloomInfluenceMode),

    // ── Metaphor and figurative language
    Metaphor(MetaphorType),

    // ── Comedy and irony
    Irony(IronyType),
    Comic(ComicMode),
    ComedyGrounds(ComedyTheory),

    // ── Trauma narratology
    TraumaMode(TraumaMode),
    RecoveryStage(HermanRecoveryStage),

    // ── Burke's Pentad
    PentadElement(PentadElement),
    PentadRatio(PentadRatio),
    BurkeForm(BurkeFormType),

    // ── Emplotment (Hayden White / Frye)
    Emplotment(EmplotmentType),

    // ── Ricoeur mimesis
    Mimesis(MimesisPhase),

    // ── Space (Bachelard / de Certeau)
    SpatialPractice(SpatialPractice),

    // ── Critical theory audit flags
    EthicsCategory(EthicsAuditCategory),
    CulturalStructure(CulturalStructure),
    SurvivranceMode(SurvivranceMode),
    QueerTime(QueerTimeMode),
    DisabilityRep(DisabilityRepMode),
    AffectMode(AffectMode),

    // ── Linguistics
    Transitivity(TransitivityProcess),
    JakobsonFn(JakobsonFunction),
    Sign(SignType),

    // ── YA narrative
    YaNarrator(YaNarratorType),

    // ── Craft tracking
    RevisionPass(RevisionPassType),
    SerialArc(SerialArcType),

    // ── Psychoanalytic narratology
    FreudianMechanism(FreudianMechanism),
    LacanRegister(LacanRegister),
    Abject(AbjectCategory),

    // ── Postcolonial
    PostcolonialMode(PostcolonialMode),

    // ── Ecocriticism
    EcocriticalMode(EcocriticalMode),

    // ── Embodied cognition
    ImageSchema(ImageSchema),

    // ── Prose linguistics
    Defamiliarization(DefamiliarizationMode),

    // ── Structuralist / semiotic
    SemioticPosition(SemioticSquarePosition),

    // ── Experimental narration
    ExperimentalMode(ExperimentalNarrationMode),

    // ── Posthumanism
    PosthumanMode(PosthumanMode),

    // ── Marxist narratology
    MarxistMode(MarxistNarrativeMode),

    // ── Feminist narratology
    FeministNarrative(FeministNarrativeType),

    // ── African-American narrative tradition
    Signifying(SignifyingMode),

    // ── Cognitive narratology
    CognitiveModeTag(CognitiveNarrativeMode),

    // ── Prosody
    ProsodicElement(ProsodicElement),

    // ── Propp morphological functions
    ProppFunction(ProppFunction),

    // ── Butler performativity
    Performativity(PerformativityMode),

    // ── Autofiction / life-writing mode
    AutofictionMode(AutofictionMode),

    // ── Narrative ethics
    NarrativeEthics(NarrativeEthicsMode),

    // ── Jenkins transmedia principles
    TransmediaType(JenkinsTransmediaType),

    // ── Doležel accessibility relation (possible-worlds)
    AccessibilityRelation(AccessibilityRelation),

    // ── Hutcheon / Stam adaptation mode
    Adaptation(AdaptationMode),

    // ── Grice cooperative maxim
    GriceanMaxim(GriceanMaxim),

    // ── Bachelard intimate space type
    IntimateSpace(IntimateSpaceType),

    // ── Multilingual rendering strategy
    Multilingual(MultilingualStrategy),

    // ── McCloud panel transition type
    PanelTransition(PanelTransitionType),

    // ── Archibald storywork protocol
    Storywork(StoryworkProtocol),

    // ── Venuti translation strategy
    TranslationStrategy(TranslationStrategy),

    // ── Chute visual-verbal relation
    VisualVerbal(VisualVerbalRelation),

    // ── Genre reading contract
    GenreReading(GenreReadingMode),

    // ── Scene-level structural tags
    SceneFunction(SceneFunction),
    SceneType(SceneType),
    Conflict(ConflictType),
    Arc(ArcType),
    ArcPattern(ArcPattern),
    Outcome(OutcomeType),

    // ── Environment / sensory
    DominantSense(DominantSense),
    TimeOfDay(TimeOfDay),
    Weather(Weather),
    WorldDelivery(WorldDeliveryMethod),

    // ── Narrator / focalization
    Pov(PovType),
    FocalizationType(FocalizationType),
    Knowledge(KnowledgeScope),
    Reliability(ReliabilitySpectrum),
    Engagement(EngagementMode),
    Distance(NarrativeDistance),
    Voice(VoiceStructure),

    // ── Prose style
    SentenceLength(SentenceLength),
    SentenceType(SentenceType),
    SentenceArch(SentenceArchitecture),
    Vocabulary(VocabularyLevel),
    Profanity(ProfanityLevel),

    // ── Narrative craft
    OpeningType(OpeningType),
    QuestionDelivery(QuestionDelivery),
    Complexity(Complexity),
    Displacement(DisplacementGap),
    NonResponse(NonResponseType),
}

/// The content of an [`Annotation`]: strings and slugs as character
/// sequences, bounded scores as their values.
pub enum AnnotationView {
    Character(Seq<char>),
    Setting(Seq<char>),
    Beat(Seq<char>),
    Chapter { number: u32, title: Option<Seq<char>> },
    Relationship(RelationshipTagView),
    Scene(SceneTagDataView),
    Thread(ThreadIdView),
    Subplot(SubplotTagDataView),
    DiegeticLevel(DiegeticLevel),
    Genre(Genre),
    Act(Act),
    Archetype(Seq<char>),
    Role(Seq<char>),
    Alignment(Seq<char>),
    Wound(Seq<char>),
    SocialCircle(Seq<char>),
    PlotType(Seq<char>),
    CollisionPattern(Seq<char>),
    Trope(Seq<char>),
    DriveModel(DriveModel),
    Actant(Actant),
    PsychicDistance(u8),
    Consciousness(ConsciousnessMode),
    Subtext(Seq<char>),
    Tension(u8),
    SpeechAct(SpeechAct),
    Gaze(GazeType),
    Pact(PactType),
    Motif { slug: Seq<char>, stage: Option<MotifStage> },
    Promise(PromiseTagDataView),
    Flag(RevisionFlag),
    Source(SourceCitationView),
    SourceText(SourceTextMetaView),
    ParatextZone(ParatextZone),
    Speaker { name: Seq<char> },
    Tone(VoiceTone),
    Ambience(Seq<char>),
    Music(Seq<char>),
    Delivery(Seq<char>),
    Sfx(Seq<char>),
    TemporalOrder(TemporalOrder),
    TemporalDuration(TemporalDuration),
    TemporalFrequency(TemporalFrequency),
    ReaderEffect(ReaderExperienceEffect),
    Intertextual(IntertextualRelation),
    BloomMode(BloomInfluenceMode),
    Metaphor(MetaphorType),
    Irony(IronyType),
    Comic(ComicMode),
    ComedyGrounds(ComedyTheory),
    TraumaMode(TraumaMode),
    RecoveryStage(HermanRecoveryStage),
    PentadElement(PentadElement),
    PentadRatio(PentadRatio),
    BurkeForm(BurkeFormType),
    Emplotment(EmplotmentType),
    Mimesis(MimesisPhase),
    SpatialPractice(SpatialPractice),
    EthicsCategory(EthicsAuditCategory),
    CulturalStructure(CulturalStructure),
    SurvivranceMode(SurvivranceMode),
    QueerTime(QueerTimeMode),
    DisabilityRep(DisabilityRepMode),
    AffectMode(AffectMode),
    Transitivity(TransitivityProcess),
    JakobsonFn(JakobsonFunction),
    Sign(SignType),
    YaNarrator(YaNarratorType),
    RevisionPass(RevisionPassType),
    SerialArc(SerialArcType),
    FreudianMechanism(FreudianMechanism),
    LacanRegister(LacanRegister),
    Abject(AbjectCategory),
    PostcolonialMode(PostcolonialMode),
    EcocriticalMode(EcocriticalMode),
    ImageSchema(ImageSchema),
    Defamiliarization(DefamiliarizationMode),
    SemioticPosition(SemioticSquarePosition),
    ExperimentalMode(ExperimentalNarrationMode),
    PosthumanMode(PosthumanMode),
    MarxistMode(MarxistNarrativeMode),
    FeministNarrative(FeministNarrativeType),
    Signifying(SignifyingMode),
    CognitiveModeTag(CognitiveNarrativeMode),
    ProsodicElement(ProsodicElement),
    ProppFunction(ProppFunction),
    Performativity(PerformativityMode),
    AutofictionMode(AutofictionMode),
    NarrativeEthics(NarrativeEthicsMode),
    TransmediaType(JenkinsTransmediaType),
    AccessibilityRelation(AccessibilityRelation),
    Adaptation(AdaptationMode),
    GriceanMaxim(GriceanMaxim),
    IntimateSpace(IntimateSpaceType),
    Multilingual(MultilingualStrategy),
    PanelTransition(PanelTransitionType),
    Storywork(StoryworkProtocol),
    TranslationStrategy(TranslationStrategy),
    VisualVerbal(VisualVerbalRelation),
    GenreReading(GenreReadingMode),
    SceneFunction(SceneFunction),
    SceneType(SceneType),
    Conflict(ConflictType),
    Arc(ArcType),
    ArcPattern(ArcPattern),
    Outcome(OutcomeType),
    DominantSense(DominantSense),
    TimeOfDay(TimeOfDay),
    Weather(Weather),
    WorldDelivery(WorldDeliveryMethod),
    Pov(PovType),
    FocalizationType(FocalizationType),
    Knowledge(KnowledgeScope),
    Reliability(ReliabilitySpectrum),
    Engagement(EngagementMode),
    Distance(NarrativeDistance),
    Voice(VoiceStructure),
    SentenceLength(SentenceLength),
    SentenceType(SentenceType),
    SentenceArch(SentenceArchitecture),
    Vocabulary(VocabularyLevel),
    Profanity(ProfanityLevel),
    OpeningType(OpeningType),
    QuestionDelivery(QuestionDelivery),
    Complexity(Complexity),
    Displacement(DisplacementGap),
    NonResponse(NonResponseType),
}

impl View for Annotation {
    type V = AnnotationView;

    open spec fn view(&self) -> AnnotationView {
        match self {
            Annotation::Character(x) => AnnotationView::Character(x@),
            Annotation::Setting(x) => AnnotationView::Setting(x@),
            Annotation::Beat(x) => AnnotationView::Beat(x@),
            Annotation::Chapter { number, title } => AnnotationView::Chapter {
                number: *number,
                title: opt_text_view(*title),
            },
            Annotation::Relationship(x) => AnnotationView::Relationship(x@),
            Annotation::Scene(x) => AnnotationView::Scene(x@),
            Annotation::Thread(x) => AnnotationView::Thread(x@),
            Annotation::Subplot(x) => AnnotationView::Subplot(x@),
            Annotation::DiegeticLevel(x) => AnnotationView::DiegeticLevel(*x),
            Annotation::Genre(x) => AnnotationView::Genre(*x),
            Annotation::Act(x) => AnnotationView::Act(*x),
            Annotation::Archetype(x) => AnnotationView::Archetype(x@),
            Annotation::Role(x) => AnnotationView::Role(x@),
            Annotation::Alignment(x) => AnnotationView::Alignment(x@),
            Annotation::Wound(x) => AnnotationView::Wound(x@),
            Annotation::SocialCircle(x) => AnnotationView::SocialCircle(x@),
            Annotation::PlotType(x) => AnnotationView::PlotType(x@),
            Annotation::CollisionPattern(x) => AnnotationView::CollisionPattern(x@),
            Annotation::Trope(x) => AnnotationView::Trope(x@),
            Annotation::DriveModel(x) => AnnotationView::DriveModel(*x),
            Annotation::Actant(x) => AnnotationView::Actant(*x),
            Annotation::PsychicDistance(x) => AnnotationView::PsychicDistance(x.spec_value()),
            Annotation::Consciousness(x) => AnnotationView::Consciousness(*x),
            Annotation::Subtext(x) => AnnotationView::Subtext(x@),
            Annotation::Tension(x) => AnnotationView::Tension(x.spec_value()),
            Annotation::SpeechAct(x) => AnnotationView::SpeechAct(*x),
            Annotation::Gaze(x) => AnnotationView::Gaze(*x),
            Annotation::Pact(x) => AnnotationView::Pact(*x),
            Annotation::Motif { slug, stage } => AnnotationView::Motif {
                slug: slug@,
                stage: *stage,
            },
            Annotation::Promise(x) => AnnotationView::Promise(x@),
            Annotation::Flag(x) => AnnotationView::Flag(*x),
            Annotation::Source(x) => AnnotationView::Source(x@),
            Annotation::SourceText(x) => AnnotationView::SourceText(x@),
            Annotation::ParatextZone(x) => AnnotationView::ParatextZone(*x),
            Annotation::Speaker { name } => AnnotationView::Speaker { name: name@ },
            Annotation::Tone(x) => AnnotationView::Tone(*x),
            Annotation::Ambience(x) => AnnotationView::Ambience(x@),
            Annotation::Music(x) => AnnotationView::Music(x@),
            Annotation::Delivery(x) => AnnotationView::Delivery(x@),
            Annotation::Sfx(x) => AnnotationView::Sfx(x@),
            Annotation::TemporalOrder(x) => AnnotationView::TemporalOrder(*x),
            Annotation::TemporalDuration(x) => AnnotationView::TemporalDuration(*x),
            Annotation::TemporalFrequency(x) => AnnotationView::TemporalFrequency(*x),
            Annotation::ReaderEffect(x) => AnnotationView::ReaderEffect(*x),
            Annotation::Intertextual(x) => AnnotationView::Intertextual(*x),
            Annotation::BloomMode(x) => AnnotationView::BloomMode(*x),
            Annotation::Metaphor(x) => AnnotationView::Metaphor(*x),
            Annotation::Irony(x) => AnnotationView::Irony(*x),
            Annotation::Comic(x) => AnnotationView::Comic(*x),
            Annotation::ComedyGrounds(x) => AnnotationView::ComedyGrounds(*x),
            Annotation::TraumaMode(x) => AnnotationView::TraumaMode(*x),
            Annotation::RecoveryStage(x) => AnnotationView::RecoveryStage(*x),
            Annotation::PentadElement(x) => AnnotationView::PentadElement(*x),
            Annotation::PentadRatio(x) => AnnotationView::PentadRatio(*x),
            Annotation::BurkeForm(x) => AnnotationView::BurkeForm(*x),
            Annotation::Emplotment(x) => AnnotationView::Emplotment(*x),
            Annotation::Mimesis(x) => AnnotationView::Mimesis(*x),
            Annotation::SpatialPractice(x) => AnnotationView::SpatialPractice(*x),
            Annotation::EthicsCategory(x) => AnnotationView::EthicsCategory(*x),
            Annotation::CulturalStructure(x) => AnnotationView::CulturalStructure(*x),
            Annotation::SurvivranceMode(x) => AnnotationView::SurvivranceMode(*x),
            Annotation::QueerTime(x) => AnnotationView::QueerTime(*x),
            Annotation::DisabilityRep(x) => AnnotationView::DisabilityRep(*x),
            Annotation::AffectMode(x) => AnnotationView::AffectMode(*x),
            Annotation::Transitivity(x) => AnnotationView::Transitivity(*x),
            Annotation::JakobsonFn(x) => AnnotationView::JakobsonFn(*x),
            Annotation::Sign(x) => AnnotationView::Sign(*x),
            Annotation::YaNarrator(x) => AnnotationView::YaNarrator(*x),
            Annotation::RevisionPass(x) => AnnotationView::RevisionPass(*x),
            Annotation::SerialArc(x) => AnnotationView::SerialArc(*x),
            Annotation::FreudianMechanism(x) => AnnotationView::FreudianMechanism(*x),
            Annotation::LacanRegister(x) => AnnotationView::LacanRegister(*x),
            Annotation::Abject(x) => AnnotationView::Abject(*x),
            Annotation::PostcolonialMode(x) => AnnotationView::PostcolonialMode(*x),
            Annotation::EcocriticalMode(x) => AnnotationView::EcocriticalMode(*x),
            Annotation::ImageSchema(x) => AnnotationView::ImageSchema(*x),
            Annotation::Defamiliarization(x) => AnnotationView::Defamiliarization(*x),
            Annotation::SemioticPosition(x) => AnnotationView::SemioticPosition(*x),
            Annotation::ExperimentalMode(x) => AnnotationView::ExperimentalMode(*x),
            Annotation::PosthumanMode(x) => AnnotationView::PosthumanMode(*x),
            Annotation::MarxistMode(x) => AnnotationView::MarxistMode(*x),
            Annotation::FeministNarrative(x) => AnnotationView::FeministNarrative(*x),
            Annotation::Signifying(x) => AnnotationView::Signifying(*x),
            Annotation::CognitiveModeTag(x) => AnnotationView::CognitiveModeTag(*x),
            Annotation::ProsodicElement(x) => AnnotationView::ProsodicElement(*x),
            Annotation::ProppFunction(x) => AnnotationView::ProppFunction(*x),
            Annotation::Performativity(x) => AnnotationView::Performativity(*x),
            Annotation::AutofictionMode(x) => AnnotationView::AutofictionMode(*x),
            Annotation::NarrativeEthics(x) => AnnotationView::NarrativeEthics(*x),
            Annotation::TransmediaType(x) => AnnotationView::TransmediaType(*x),
            Annotation::AccessibilityRelation(x) => AnnotationView::AccessibilityRelation(*x),
            Annotation::Adaptation(x) => AnnotationView::Adaptation(*x),
            Annotation::GriceanMaxim(x) => AnnotationView::GriceanMaxim(*x),
            Annotation::IntimateSpace(x) => AnnotationView::IntimateSpace(*x),
            Annotation::Multilingual(x) => AnnotationView::Multilingual(*x),
            Annotation::PanelTransition(x) => AnnotationView::PanelTransition(*x),
            Annotation::Storywork(x) => AnnotationView::Storywork(*x),
            Annotation::TranslationStrategy(x) => AnnotationView::TranslationStrategy(*x),
            Annotation::VisualVerbal(x) => AnnotationView::VisualVerbal(*x),
            Annotation::GenreReading(x) => AnnotationView::GenreReading(*x),
            Annotation::SceneFunction(x) => AnnotationView::SceneFunction(*x),
            Annotation::SceneType(x) => AnnotationView::SceneType(*x),
            Annotation::Conflict(x) => AnnotationView::Conflict(*x),
            Annotation::Arc(x) => AnnotationView::Arc(*x),
            Annotation::ArcPattern(x) => AnnotationView::ArcPattern(*x),
            Annotation::Outcome(x) => AnnotationView::Outcome(*x),
            Annotation::DominantSense(x) => AnnotationView::DominantSense(*x),
            Annotation::TimeOfDay(x) => AnnotationView::TimeOfDay(*x),
            Annotation::Weather(x) => AnnotationView::Weather(*x),
            Annotation::WorldDelivery(x) => AnnotationView::WorldDelivery(*x),
            Annotation::Pov(x) => AnnotationView::Pov(*x),
            Annotation::FocalizationType(x) => AnnotationView::FocalizationType(*x),
            Annotation::Knowledge(x) => AnnotationView::Knowledge(*x),
            Annotation::Reliability(x) => AnnotationView::Reliability(*x),
            Annotation::Engagement(x) => AnnotationView::Engagement(*x),
            Annotation::Distance(x) => AnnotationView::Distance(*x),
            Annotation::Voice(x) => AnnotationView::Voice(*x),
            Annotation::SentenceLength(x) => AnnotationView::SentenceLength(*x),
            Annotation::SentenceType(x) => AnnotationView::SentenceType(*x),
            Annotation::SentenceArch(x) => AnnotationView::SentenceArch(*x),
            Annotation::Vocabulary(x) => AnnotationView::Vocabulary(*x),
            Annotation::Profanity(x) => AnnotationView::Profanity(*x),
            Annotation::OpeningType(x) => AnnotationView::OpeningType(*x),
            Annotation::QuestionDelivery(x) => AnnotationView::QuestionDelivery(*x),
            Annotation::Complexity(x) => AnnotationView::Complexity(*x),
            Annotation::Displacement(x) => AnnotationView::Displacement(*x),
            Annotation::NonResponse(x) => AnnotationView::NonResponse(*x),
        }
    }
}

impl Clone for Annotation {
    fn clone(&self) -> (r: Self)
        ensures
            r@ == self@,
    {
        match self {
            Annotation::Character(x) => Annotation::Character(x.clone()),
            Annotation::Setting(x) => Annotation::Setting(x.clone()),
            Annotation::Beat(x) => Annotation::Beat(x.clone()),
            Annotation::Chapter { number, title } => Annotation::Chapter {
                number: *number,
                title: clone_opt_string(title),
            },
            Annotation::Relationship(x) => Annotation::Relationship(x.clone()),
            Annotation::Scene(x) => Annotation::Scene(x.clone()),
            Annotation::Thread(x) => Annotation::Thread(x.clone()),
            Annotation::Subplot(x) => Annotation::Subplot(x.clone()),
            Annotation::DiegeticLevel(x) => Annotation::DiegeticLevel(*x),
            Annotation::Genre(x) => Annotation::Genre(*x),
            Annotation::Act(x) => Annotation::Act(*x),
            Annotation::Archetype(x) => Annotation::Archetype(x.clone()),
            Annotation::Role(x) => Annotation::Role(x.clone()),
            Annotation::Alignment(x) => Annotation::Alignment(x.clone()),
            Annotation::Wound(x) => Annotation::Wound(x.clone()),
            Annotation::SocialCircle(x) => Annotation::SocialCircle(x.clone()),
            Annotation::PlotType(x) => Annotation::PlotType(x.clone()),
            Annotation::CollisionPattern(x) => Annotation::CollisionPattern(x.clone()),
            Annotation::Trope(x) => Annotation::Trope(x.clone()),
            Annotation::DriveModel(x) => Annotation::DriveModel(*x),
            Annotation::Actant(x) => Annotation::Actant(*x),
            Annotation::PsychicDistance(x) => Annotation::PsychicDistance(*x),
            Annotation::Consciousness(x) => Annotation::Consciousness(*x),
            Annotation::Subtext(x) => Annotation::Subtext(x.clone()),
            Annotation::Tension(x) => Annotation::Tension(*x),
            Annotation::SpeechAct(x) => Annotation::SpeechAct(*x),
            Annotation::Gaze(x) => Annotation::Gaze(*x),
            Annotation::Pact(x) => Annotation::Pact(*x),
            Annotation::Motif { slug, stage } => Annotation::Motif {
                slug: slug.clone(),
                stage: *stage,
            },
            Annotation::Promise(x) => Annotation::Promise(x.clone()),
            Annotation::Flag(x) => Annotation::Flag(*x),
            Annotation::Source(x) => Annotation::Source(x.clone()),
            Annotation::SourceText(x) => Annotation::SourceText(x.clone()),
            Annotation::ParatextZone(x) => Annotation::ParatextZone(*x),
            Annotation::Speaker { name } => Annotation::Speaker { name: name.clone() },
            Annotation::Tone(x) => Annotation::Tone(*x),
            Annotation::Ambience(x) => Annotation::Ambience(x.clone()),
            Annotation::Music(x) => Annotation::Music(x.clone()),
            Annotation::Delivery(x) => Annotation::Delivery(x.clone()),
            Annotation::Sfx(x) => Annotation::Sfx(x.clone()),
            Annotation::TemporalOrder(x) => Annotation::TemporalOrder(*x),
            Annotation::TemporalDuration(x) => Annotation::TemporalDuration(*x),
            Annotation::TemporalFrequency(x) => Annotation::TemporalFrequency(*x),
            Annotation::ReaderEffect(x) => Annotation::ReaderEffect(*x),
            Annotation::Intertextual(x) => Annotation::Intertextual(*x),
            Annotation::BloomMode(x) => Annotation::BloomMode(*x),
            Annotation::Metaphor(x) => Annotation::Metaphor(*x),
            Annotation::Irony(x) => Annotation::Irony(*x),
            Annotation::Comic(x) => Annotation::Comic(*x),
            Annotation::ComedyGrounds(x) => Annotation::ComedyGrounds(*x),
            Annotation::TraumaMode(x) => Annotation::TraumaMode(*x),
            Annotation::RecoveryStage(x) => Annotation::RecoveryStage(*x),
            Annotation::PentadElement(x) => Annotation::PentadElement(*x),
            Annotation::PentadRatio(x) => Annotation::PentadRatio(*x),
            Annotation::BurkeForm(x) => Annotation::BurkeForm(*x),
            Annotation::Emplotment(x) => Annotation::Emplotment(*x),
            Annotation::Mimesis(x) => Annotation::Mimesis(*x),
            Annotation::SpatialPractice(x) => Annotation::SpatialPractice(*x),
            Annotation::EthicsCategory(x) => Annotation::EthicsCategory(*x),
            Annotation::CulturalStructure(x) => Annotation::CulturalStructure(*x),
            Annotation::SurvivranceMode(x) => Annotation::SurvivranceMode(*x),
            Annotation::QueerTime(x) => Annotation::QueerTime(*x),
            Annotation::DisabilityRep(x) => Annotation::DisabilityRep(*x),
            Annotation::AffectMode(x) => Annotation::AffectMode(*x),
            Annotation::Transitivity(x) => Annotation::Transitivity(*x),
            Annotation::JakobsonFn(x) => Annotation::JakobsonFn(*x),
            Annotation::Sign(x) => Annotation::Sign(*x),
            Annotation::YaNarrator(x) => Annotation::YaNarrator(*x),
            Annotation::RevisionPass(x) => Annotation::RevisionPass(*x),
            Annotation::SerialArc(x) => Annotation::SerialArc(*x),
            Annotation::FreudianMechanism(x) => Annotation::FreudianMechanism(*x),
            Annotation::LacanRegister(x) => Annotation::LacanRegister(*x),
            Annotation::Abject(x) => Annotation::Abject(*x),
            Annotation::PostcolonialMode(x) => Annotation::PostcolonialMode(*x),
            Annotation::EcocriticalMode(x) => Annotation::EcocriticalMode(*x),
            Annotation::ImageSchema(x) => Annotation::ImageSchema(*x),
            Annotation::Defamiliarization(x) => Annotation::Defamiliarization(*x),
            Annotation::SemioticPosition(x) => Annotation::SemioticPosition(*x),
            Annotation::ExperimentalMode(x) => Annotation::ExperimentalMode(*x),
            Annotation::PosthumanMode(x) => Annotation::PosthumanMode(*x),
            Annotation::MarxistMode(x) => Annotation::MarxistMode(*x),
            Annotation::FeministNarrative(x) => Annotation::FeministNarrative(*x),
            Annotation::Signifying(x) => Annotation::Signifying(*x),
            Annotation::CognitiveModeTag(x) => Annotation::CognitiveModeTag(*x),
            Annotation::ProsodicElement(x) => Annotation::ProsodicElement(*x),
            Annotation::ProppFunction(x) => Annotation::ProppFunction(*x),
            Annotation::Performativity(x) => Annotation::Performativity(*x),
            Annotation::AutofictionMode(x) => Annotation::AutofictionMode(*x),
            Annotation::NarrativeEthics(x) => Annotation::NarrativeEthics(*x),
            Annotation::TransmediaType(x) => Annotation::TransmediaType(*x),
            Annotation::AccessibilityRelation(x) => Annotation::AccessibilityRelation(*x),
            Annotation::Adaptation(x) => Annotation::Adaptation(*x),
            Annotation::GriceanMaxim(x) => Annotation::GriceanMaxim(*x),
            Annotation::IntimateSpace(x) => Annotation::IntimateSpace(*x),
            Annotation::Multilingual(x) => Annotation::Multilingual(*x),
            Annotation::PanelTransition(x) => Annotation::PanelTransition(*x),
            Annotation::Storywork(x) => Annotation::Storywork(*x),
            Annotation::TranslationStrategy(x) => Annotation::TranslationStrategy(*x),
            Annotation::VisualVerbal(x) => Annotation::VisualVerbal(*x),
            Annotation::GenreReading(x) => Annotation::GenreReading(*x),
            Annotation::SceneFunction(x) => Annotation::SceneFunction(*x),
            Annotation::SceneType(x) => Annotation::SceneType(*x),
            Annotation::Conflict(x) => Annotation::Conflict(*x),
            Annotation::Arc(x) => Annotation::Arc(*x),
            Annotation::ArcPattern(x) => Annotation::ArcPattern(*x),
            Annotation::Outcome(x) => Annotation::Outcome(*x),
            Annotation::DominantSense(x) => Annotation::DominantSense(*x),
            Annotation::TimeOfDay(x) => Annotation::TimeOfDay(*x),
            Annotation::Weather(x) => Annotation::Weather(*x),
            Annotation::WorldDelivery(x) => Annotation::WorldDelivery(*x),
            Annotation::Pov(x) => Annotation::Pov(*x),
            Annotation::FocalizationType(x) => Annotation::FocalizationType(*x),
            Annotation::Knowledge(x) => Annotation::Knowledge(*x),
            Annotation::Reliability(x) => Annotation::Reliability(*x),
            Annotation::Engagement(x) => Annotation::Engagement(*x),
            Annotation::Distance(x) => Annotation::Distance(*x),
            Annotation::Voice(x) => Annotation::Voice(*x),
            Annotation::SentenceLength(x) => Annotation::SentenceLength(*x),
            Annotation::SentenceType(x) => Annotation::SentenceType(*x),
            Annotation::SentenceArch(x) => Annotation::SentenceArch(*x),
            Annotation::Vocabulary(x) => Annotation::Vocabulary(*x),
            Annotation::Profanity(x) => Annotation::Profanity(*x),
            Annotation::OpeningType(x) => Annotation::OpeningType(*x),
            Annotation::QuestionDelivery(x) => Annotation::QuestionDelivery(*x),
            Annotation::Complexity(x) => Annotation::Complexity(*x),
            Annotation::Displacement(x) => Annotation::Displacement(*x),
            Annotation::NonResponse(x) => Annotation::NonResponse(*x),
        }
    }
}

/// The contents of a list of annotations.
pub open spec fn annotations_view(v: Seq<Annotation>) -> Seq<AnnotationView> {
    v.map_values(|a: Annotation| a@)
}

impl AnnotationView {
    /// The semantic channel of an annotation.
    pub open spec fn channel(self) -> AnnotationChannel {
        match self {
            AnnotationView::Character(_)
            | AnnotationView::Setting(_)
            | AnnotationView::Beat(_)
            | AnnotationView::Chapter { .. }
            | AnnotationView::Relationship(_)
            | AnnotationView::Scene(_)
            | AnnotationView::Thread(_)
            | AnnotationView::Subplot(_)
            | AnnotationView::DiegeticLevel(_)
            | AnnotationView::Genre(_)
            | AnnotationView::Act(_)
            | AnnotationView::Archetype(_)
            | AnnotationView::Role(_)
            | AnnotationView::Alignment(_)
            | AnnotationView::Wound(_)
            | AnnotationView::SocialCircle(_)
            | AnnotationView::PlotType(_)
            | AnnotationView::CollisionPattern(_)
            | AnnotationView::Trope(_)
            | AnnotationView::DriveModel(_)
            | AnnotationView::Actant(_)
            | AnnotationView::Motif { .. }
            | AnnotationView::Promise(_)
            | AnnotationView::TemporalOrder(_)
            | AnnotationView::TemporalDuration(_)
            | AnnotationView::TemporalFrequency(_)
            | AnnotationView::SpatialPractice(_)
            | AnnotationView::SerialArc(_)
            | AnnotationView::IntimateSpace(_)
            | AnnotationView::SceneFunction(_)
            | AnnotationView::SceneType(_)
            | AnnotationView::Conflict(_)
            | AnnotationView::Arc(_)
            | AnnotationView::ArcPattern(_)
            | AnnotationView::Outcome(_)
            | AnnotationView::TimeOfDay(_)
            | AnnotationView::Weather(_)
            | AnnotationView::WorldDelivery(_) => AnnotationChannel::Context,
            AnnotationView::PsychicDistance(_)
            | AnnotationView::Consciousness(_)
            | AnnotationView::Subtext(_)
            | AnnotationView::Tension(_)
            | AnnotationView::SpeechAct(_)
            | AnnotationView::Gaze(_)
            | AnnotationView::Pact(_)
            | AnnotationView::ReaderEffect(_)
            | AnnotationView::Metaphor(_)
            | AnnotationView::Irony(_)
            | AnnotationView::Comic(_)
            | AnnotationView::ComedyGrounds(_)
            | AnnotationView::ImageSchema(_)
            | AnnotationView::Defamiliarization(_)
            | AnnotationView::ProsodicElement(_)
            | AnnotationView::GenreReading(_)
            | AnnotationView::Pov(_)
            | AnnotationView::FocalizationType(_)
            | AnnotationView::Knowledge(_)
            | AnnotationView::Reliability(_)
            | AnnotationView::Engagement(_)
            | AnnotationView::Distance(_)
            | AnnotationView::Voice(_)
            | AnnotationView::SentenceLength(_)
            | AnnotationView::SentenceType(_)
            | AnnotationView::SentenceArch(_)
            | AnnotationView::Vocabulary(_)
            | AnnotationView::Profanity(_)
            | AnnotationView::OpeningType(_)
            | AnnotationView::QuestionDelivery(_)
            | AnnotationView::Complexity(_)
            | AnnotationView::Displacement(_)
            | AnnotationView::DominantSense(_)
            | AnnotationView::NonResponse(_) => AnnotationChannel::Craft,
            AnnotationView::Intertextual(_)
            | AnnotationView::BloomMode(_)
            | AnnotationView::TraumaMode(_)
            | AnnotationView::RecoveryStage(_)
            | AnnotationView::PentadElement(_)
            | AnnotationView::PentadRatio(_)
            | AnnotationView::BurkeForm(_)
            | AnnotationView::Emplotment(_)
            | AnnotationView::Mimesis(_)
            | AnnotationView::EthicsCategory(_)
            | AnnotationView::CulturalStructure(_)
            | AnnotationView::SurvivranceMode(_)
            | AnnotationView::QueerTime(_)
            | AnnotationView::DisabilityRep(_)
            | AnnotationView::AffectMode(_)
            | AnnotationView::Transitivity(_)
            | AnnotationView::JakobsonFn(_)
            | AnnotationView::Sign(_)
            | AnnotationView::YaNarrator(_)
            | AnnotationView::FreudianMechanism(_)
            | AnnotationView::LacanRegister(_)
            | AnnotationView::Abject(_)
            | AnnotationView::PostcolonialMode(_)
            | AnnotationView::EcocriticalMode(_)
            | AnnotationView::SemioticPosition(_)
            | AnnotationView::ExperimentalMode(_)
            | AnnotationView::PosthumanMode(_)
            | AnnotationView::MarxistMode(_)
            | AnnotationView::FeministNarrative(_)
            | AnnotationView::Signifying(_)
            | AnnotationView::CognitiveModeTag(_)
            | AnnotationView::ProppFunction(_)
            | AnnotationView::Performativity(_)
            | AnnotationView::AutofictionMode(_)
            | AnnotationView::NarrativeEthics(_)
            | AnnotationView::TransmediaType(_)
            | AnnotationView::AccessibilityRelation(_)
            | AnnotationView::Adaptation(_)
            | AnnotationView::Multilingual(_)
            | AnnotationView::PanelTransition(_)
            | AnnotationView::Storywork(_)
            | AnnotationView::TranslationStrategy(_)
            | AnnotationView::GriceanMaxim(_)
            | AnnotationView::VisualVerbal(_) => AnnotationChannel::Theory,
            AnnotationView::Flag(_)
            | AnnotationView::Source(_)
            | AnnotationView::SourceText(_)
            | AnnotationView::ParatextZone(_)
            | AnnotationView::Speaker { .. }
            | AnnotationView::Tone(_)
            | AnnotationView::Ambience(_)
            | AnnotationView::Music(_)
            | AnnotationView::Delivery(_)
            | AnnotationView::Sfx(_)
            | AnnotationView::RevisionPass(_) => AnnotationChannel::Governance,
        }
    }
}

impl Annotation {
    /// Classify this annotation into one of the four semantic channels.
    ///
    /// Used to route tags into the context and craft channels of a scene
    /// context, and to filter the theory tier.
    pub fn channel(&self) -> (r: AnnotationChannel)
        ensures
            r == self@.channel(),
    {
        match self {
            Annotation::Character(_)
            | Annotation::Setting(_)
            | Annotation::Beat(_)
            | Annotation::Chapter { .. }
            | Annotation::Relationship(_)
            | Annotation::Scene(_)
            | Annotation::Thread(_)
            | Annotation::Subplot(_)
            | Annotation::DiegeticLevel(_)
            | Annotation::Genre(_)
            | Annotation::Act(_)
            | Annotation::Archetype(_)
            | Annotation::Role(_)
            | Annotation::Alignment(_)
            | Annotation::Wound(_)
            | Annotation::SocialCircle(_)
            | Annotation::PlotType(_)
            | Annotation::CollisionPattern(_)
            | Annotation::Trope(_)
            | Annotation::DriveModel(_)
            | Annotation::Actant(_)
            | Annotation::Motif { .. }
            | Annotation::Promise(_)
            | Annotation::TemporalOrder(_)
            | Annotation::TemporalDuration(_)
            | Annotation::TemporalFrequency(_)
            | Annotation::SpatialPractice(_)
            | Annotation::SerialArc(_)
            | Annotation::IntimateSpace(_)
            | Annotation::SceneFunction(_)
            | Annotation::SceneType(_)
            | Annotation::Conflict(_)
            | Annotation::Arc(_)
            | Annotation::ArcPattern(_)
            | Annotation::Outcome(_)
            | Annotation::TimeOfDay(_)
            | Annotation::Weather(_)
            | Annotation::WorldDelivery(_) => AnnotationChannel::Context,
            Annotation::PsychicDistance(_)
            | Annotation::Consciousness(_)
            | Annotation::Subtext(_)
            | Annotation::Tension(_)
            | Annotation::SpeechAct(_)
            | Annotation::Gaze(_)
            | Annotation::Pact(_)
            | Annotation::ReaderEffect(_)
            | Annotation::Metaphor(_)
            | Annotation::Irony(_)
            | Annotation::Comic(_)
            | Annotation::ComedyGrounds(_)
            | Annotation::ImageSchema(_)
            | Annotation::Defamiliarization(_)
            | Annotation::ProsodicElement(_)
            | Annotation::GenreReading(_)
            | Annotation::Pov(_)
            | Annotation::FocalizationType(_)
            | Annotation::Knowledge(_)
            | Annotation::Reliability(_)
            | Annotation::Engagement(_)
            | Annotation::Distance(_)
            | Annotation::Voice(_)
            | Annotation::SentenceLength(_)
            | Annotation::SentenceType(_)
            | Annotation::SentenceArch(_)
            | Annotation::Vocabulary(_)
            | Annotation::Profanity(_)
            | Annotation::OpeningType(_)
            | Annotation::QuestionDelivery(_)
            | Annotation::Complexity(_)
            | Annotation::Displacement(_)
            | Annotation::DominantSense(_)
            | Annotation::NonResponse(_) => AnnotationChannel::Craft,
            Annotation::Intertextual(_)
            | Annotation::BloomMode(_)
            | Annotation::TraumaMode(_)
            | Annotation::RecoveryStage(_)
            | Annotation::PentadElement(_)
            | Annotation::PentadRatio(_)
            | Annotation::BurkeForm(_)
            | Annotation::Emplotment(_)
            | Annotation::Mimesis(_)
            | Annotation::EthicsCategory(_)
            | Annotation::CulturalStructure(_)
            | Annotation::SurvivranceMode(_)
            | Annotation::QueerTime(_)
            | Annotation::DisabilityRep(_)
            | Annotation::AffectMode(_)
            | Annotation::Transitivity(_)
            | Annotation::JakobsonFn(_)
            | Annotation::Sign(_)
            | Annotation::YaNarrator(_)
            | Annotation::FreudianMechanism(_)
            | Annotation::LacanRegister(_)
            | Annotation::Abject(_)
            | Annotation::PostcolonialMode(_)
            | Annotation::EcocriticalMode(_)
            | Annotation::SemioticPosition(_)
            | Annotation::ExperimentalMode(_)
            | Annotation::PosthumanMode(_)
            | Annotation::MarxistMode(_)
            | Annotation::FeministNarrative(_)
            | Annotation::Signifying(_)
            | Annotation::CognitiveModeTag(_)
            | Annotation::ProppFunction(_)
            | Annotation::Performativity(_)
            | Annotation::AutofictionMode(_)
            | Annotation::NarrativeEthics(_)
            | Annotation::TransmediaType(_)
            | Annotation::AccessibilityRelation(_)
            | Annotation::Adaptation(_)
            | Annotation::Multilingual(_)
            | Annotation::PanelTransition(_)
            | Annotation::Storywork(_)
            | Annotation::TranslationStrategy(_)
            | Annotation::GriceanMaxim(_)
            | Annotation::VisualVerbal(_) => AnnotationChannel::Theory,
            Annotation::Flag(_)
            | Annotation::Source(_)
            | Annotation::SourceText(_)
            | Annotation::ParatextZone(_)
            | Annotation::Speaker { .. }
            | Annotation::Tone(_)
            | Annotation::Ambience(_)
            | Annotation::Music(_)
            | Annotation::Delivery(_)
            | Annotation::Sfx(_)
            | Annotation::RevisionPass(_) => AnnotationChannel::Governance,
        }
    }

    /// Is this a context-channel annotation?
    pub fn is_context(&self) -> (r: bool)
        ensures
            r == (self@.channel() == AnnotationChannel::Context),
    {
        self.channel() == AnnotationChannel::Context
    }

    /// Is this a craft-channel annotation?
    pub fn is_craft(&self) -> (r: bool)
        ensures
            r == (self@.channel() == AnnotationChannel::Craft),
    {
        self.channel() == AnnotationChannel::Craft
    }

    /// Is this a theory-channel annotation?
    pub fn is_theory(&self) -> (r: bool)
        ensures
            r == (self@.channel() == AnnotationChannel::Theory),
    {
        self.channel() == AnnotationChannel::Theory
    }

    /// Is this a governance-channel annotation?
    pub fn is_governance(&self) -> (r: bool)
        ensures
            r == (self@.channel() == AnnotationChannel::Governance),
    {
        self.channel() == AnnotationChannel::Governance
    }
}

// ── Flattening to (key, value) pairs ──────────────────────────────────────────

/// The `(key, value)` pair an annotation is validated as, if it reduces to a
/// single pair.  Simple enum-valued tags use their [`AnnotationKey`] key and
/// value name (see [`vocabulary_pair`]); compound tags (motif, chapter, scene,
/// relationship, ...) do not reduce to one pair.
pub open spec fn pair_of(a: AnnotationView) -> Option<PairView> {
    match a {
        AnnotationView::PsychicDistance(v) => Some(("psychic_distance"@, decimal(v as nat))),
        AnnotationView::Tension(v) => Some(("tension"@, decimal(v as nat))),
        AnnotationView::Subtext(v) => Some(("subtext"@, v)),
        AnnotationView::Beat(v) => Some(("beat"@, v)),
        AnnotationView::Character(v) => Some(("character"@, v)),
        AnnotationView::Setting(v) => Some(("setting"@, v)),
        AnnotationView::Thread(v) => Some(("thread"@, thread_text(v))),
        AnnotationView::SceneType(v) => Some(("scene_type"@, v.spec_name())),
        _ => vocabulary_pair(a),
    }
}

/// The pair of an annotation whose value is a vocabulary term: the tag key of
/// its [`AnnotationKey`] and the term's snake-case name.
pub open spec fn vocabulary_pair(a: AnnotationView) -> Option<PairView> {
    match a {
        AnnotationView::DiegeticLevel(v) => Some(("diegetic_level"@, v.spec_name())),
        AnnotationView::TemporalOrder(v) => Some(("temporal_order"@, v.spec_name())),
        AnnotationView::TemporalDuration(v) => Some(("temporal_duration"@, v.spec_name())),
        AnnotationView::TemporalFrequency(v) => Some(("temporal_frequency"@, v.spec_name())),
        AnnotationView::SceneFunction(v) => Some(("scene_function"@, v.spec_name())),
        AnnotationView::Conflict(v) => Some(("conflict"@, v.spec_name())),
        AnnotationView::Arc(v) => Some(("arc"@, v.spec_name())),
        AnnotationView::ArcPattern(v) => Some(("arc_pattern"@, v.spec_name())),
        AnnotationView::Outcome(v) => Some(("outcome"@, v.spec_name())),
        AnnotationView::DominantSense(v) => Some(("sense"@, v.spec_name())),
        AnnotationView::TimeOfDay(v) => Some(("time_of_day"@, v.spec_name())),
        AnnotationView::Weather(v) => Some(("weather"@, v.spec_name())),
        AnnotationView::WorldDelivery(v) => Some(("world_delivery"@, v.spec_name())),
        AnnotationView::SpatialPractice(v) => Some(("spatial_practice"@, v.spec_name())),
        AnnotationView::IntimateSpace(v) => Some(("intimate_space"@, v.spec_name())),
        AnnotationView::SerialArc(v) => Some(("serial_arc"@, v.spec_name())),
        AnnotationView::DriveModel(v) => Some(("drive_model"@, v.spec_name())),
        AnnotationView::Actant(v) => Some(("actant"@, v.spec_name())),
        AnnotationView::Consciousness(v) => Some(("consciousness"@, v.spec_name())),
        AnnotationView::SpeechAct(v) => Some(("speech_act"@, v.spec_name())),
        AnnotationView::Gaze(v) => Some(("gaze"@, v.spec_name())),
        AnnotationView::Pact(v) => Some(("pact"@, v.spec_name())),
        AnnotationView::Pov(v) => Some(("pov"@, v.spec_name())),
        AnnotationView::FocalizationType(v) => Some(("focalization_type"@, v.spec_name())),
        _ => vocabulary_pair_1(a),
    }
}

fn vocabulary_pair_of(ann: &Annotation) -> (r: Option<(String, String)>)
    ensures
        match r {
            Some(p) => vocabulary_pair(ann@) == Some((p.0@, p.1@)),
            None => vocabulary_pair(ann@) is None,
        },
{
    match ann {
        Annotation::DiegeticLevel(v) => Some(v.to_pair()),
        Annotation::TemporalOrder(v) => Some(v.to_pair()),
        Annotation::TemporalDuration(v) => Some(v.to_pair()),
        Annotation::TemporalFrequency(v) => Some(v.to_pair()),
        Annotation::SceneFunction(v) => Some(v.to_pair()),
        Annotation::Conflict(v) => Some(v.to_pair()),
        Annotation::Arc(v) => Some(v.to_pair()),
        Annotation::ArcPattern(v) => Some(v.to_pair()),
        Annotation::Outcome(v) => Some(v.to_pair()),
        Annotation::DominantSense(v) => Some(v.to_pair()),
        Annotation::TimeOfDay(v) => Some(v.to_pair()),
        Annotation::Weather(v) => Some(v.to_pair()),
        Annotation::WorldDelivery(v) => Some(v.to_pair()),
        Annotation::SpatialPractice(v) => Some(v.to_pair()),
        Annotation::IntimateSpace(v) => Some(v.to_pair()),
        Annotation::SerialArc(v) => Some(v.to_pair()),
        Annotation::DriveModel(v) => Some(v.to_pair()),
        Annotation::Actant(v) => Some(v.to_pair()),
        Annotation::Consciousness(v) => Some(v.to_pair()),
        Annotation::SpeechAct(v) => Some(v.to_pair()),
        Annotation::Gaze(v) => Some(v.to_pair()),
        Annotation::Pact(v) => Some(v.to_pair()),
        Annotation::Pov(v) => Some(v.to_pair()),
        Annotation::FocalizationType(v) => Some(v.to_pair()),
        _ => vocabulary_pair_of_1(ann),
    }
}

/// [`vocabulary_pair`], continued.
pub open spec fn vocabulary_pair_1(a: AnnotationView) -> Option<PairView> {
    match a {
        AnnotationView::Knowledge(v) => Some(("knowledge"@, v.spec_name())),
        AnnotationView::Reliability(v) => Some(("reliability"@, v.spec_name())),
        AnnotationView::Engagement(v) => Some(("engagement"@, v.spec_name())),
        AnnotationView::Distance(v) => Some(("narrative_distance"@, v.spec_name())),
        AnnotationView::Voice(v) => Some(("voice_structure"@, v.spec_name())),
        AnnotationView::SentenceLength(v) => Some(("sentence_length"@, v.spec_name())),
        AnnotationView::SentenceType(v) => Some(("sentence_type"@, v.spec_name())),
        AnnotationView::SentenceArch(v) => Some(("sentence_arch"@, v.spec_name())),
        AnnotationView::Vocabulary(v) => Some(("vocabulary"@, v.spec_name())),
        AnnotationView::Profanity(v) => Some(("profanity"@, v.spec_name())),
        AnnotationView::OpeningType(v) => Some(("opening_type"@, v.spec_name())),
        AnnotationView::QuestionDelivery(v) => Some(("question_delivery"@, v.spec_name())),
        AnnotationView::Complexity(v) => Some(("complexity"@, v.spec_name())),
        AnnotationView::Displacement(v) => Some(("displacement"@, v.spec_name())),
        AnnotationView::NonResponse(v) => Some(("non_response"@, v.spec_name())),
        AnnotationView::Metaphor(v) => Some(("metaphor"@, v.spec_name())),
        AnnotationView::Irony(v) => Some(("irony"@, v.spec_name())),
        AnnotationView::Comic(v) => Some(("comic_mode"@, v.spec_name())),
        AnnotationView::ComedyGrounds(v) => Some(("comedy_theory"@, v.spec_name())),
        AnnotationView::ProsodicElement(v) => Some(("prosodic"@, v.spec_name())),
        AnnotationView::ImageSchema(v) => Some(("image_schema"@, v.spec_name())),
        AnnotationView::Defamiliarization(v) => Some(("defamiliarize"@, v.spec_name())),
        AnnotationView::ReaderEffect(v) => Some(("reader_effect"@, v.spec_name())),
        AnnotationView::GenreReading(v) => Some(("genre_reading"@, v.spec_name())),
        _ => vocabulary_pair_2(a),
    }
}

fn vocabulary_pair_of_1(ann: &Annotation) -> (r: Option<(String, String)>)
    ensures
        match r {
            Some(p) => vocabulary_pair_1(ann@) == Some((p.0@, p.1@)),
            None => vocabulary_pair_1(ann@) is None,
        },
{
    match ann {
        Annotation::Knowledge(v) => Some(v.to_pair()),
        Annotation::Reliability(v) => Some(v.to_pair()),
        Annotation::Engagement(v) => Some(v.to_pair()),
        Annotation::Distance(v) => Some(v.to_pair()),
        Annotation::Voice(v) => Some(v.to_pair()),
        Annotation::SentenceLength(v) => Some(v.to_pair()),
        Annotation::SentenceType(v) => Some(v.to_pair()),
        Annotation::SentenceArch(v) => Some(v.to_pair()),
        Annotation::Vocabulary(v) => Some(v.to_pair()),
        Annotation::Profanity(v) => Some(v.to_pair()),
        Annotation::OpeningType(v) => Some(v.to_pair()),
        Annotation::QuestionDelivery(v) => Some(v.to_pair()),
        Annotation::Complexity(v) => Some(v.to_pair()),
        Annotation::Displacement(v) => Some(v.to_pair()),
        Annotation::NonResponse(v) => Some(v.to_pair()),
        Annotation::Metaphor(v) => Some(v.to_pair()),
        Annotation::Irony(v) => Some(v.to_pair()),
        Annotation::Comic(v) => Some(v.to_pair()),
        Annotation::ComedyGrounds(v) => Some(v.to_pair()),
        Annotation::ProsodicElement(v) => Some(v.to_pair()),
        Annotation::ImageSchema(v) => Some(v.to_pair()),
        Annotation::Defamiliarization(v) => Some(v.to_pair()),
        Annotation::ReaderEffect(v) => Some(v.to_pair()),
        Annotation::GenreReading(v) => Some(v.to_pair()),
        _ => vocabulary_pair_of_2(ann),
    }
}

/// [`vocabulary_pair`], continued.
pub open spec fn vocabulary_pair_2(a: AnnotationView) -> Option<PairView> {
    match a {
        AnnotationView::GriceanMaxim(v) => Some(("gricean"@, v.spec_name())),
        AnnotationView::Intertextual(v) => Some(("intertextual"@, v.spec_name())),
        AnnotationView::BloomMode(v) => Some(("bloom_mode"@, v.spec_name())),
        AnnotationView::TraumaMode(v) => Some(("trauma_mode"@, v.spec_name())),
        AnnotationView::RecoveryStage(v) => Some(("recovery_stage"@, v.spec_name())),
        AnnotationView::PentadElement(v) => Some(("pentad_element"@, v.spec_name())),
        AnnotationView::PentadRatio(v) => Some(("pentad_ratio"@, v.spec_name())),
        AnnotationView::BurkeForm(v) => Some(("burke_form"@, v.spec_name())),
        AnnotationView::Emplotment(v) => Some(("emplotment"@, v.spec_name())),
        AnnotationView::Mimesis(v) => Some(("mimesis"@, v.spec_name())),
        AnnotationView::EthicsCategory(v) => Some(("ethics"@, v.spec_name())),
        AnnotationView::CulturalStructure(v) => Some(("cultural_structure"@, v.spec_name())),
        AnnotationView::SurvivranceMode(v) => Some(("survivrance"@, v.spec_name())),
        AnnotationView::QueerTime(v) => Some(("queer_time"@, v.spec_name())),
        AnnotationView::DisabilityRep(v) => Some(("disability_rep"@, v.spec_name())),
        AnnotationView::AffectMode(v) => Some(("affect"@, v.spec_name())),
        AnnotationView::Transitivity(v) => Some(("transitivity"@, v.spec_name())),
        AnnotationView::JakobsonFn(v) => Some(("jakobson"@, v.spec_name())),
        AnnotationView::Sign(v) => Some(("sign_type"@, v.spec_name())),
        AnnotationView::YaNarrator(v) => Some(("ya_narrator"@, v.spec_name())),
        AnnotationView::FreudianMechanism(v) => Some(("freudian"@, v.spec_name())),
        AnnotationView::LacanRegister(v) => Some(("lacan_register"@, v.spec_name())),
        AnnotationView::Abject(v) => Some(("abject"@, v.spec_name())),
        AnnotationView::PostcolonialMode(v) => Some(("postcolonial"@, v.spec_name())),
        _ => vocabulary_pair_3(a),
    }
}

fn vocabulary_pair_of_2(ann: &Annotation) -> (r: Option<(String, String)>)
    ensures
        match r {
            Some(p) => vocabulary_pair_2(ann@) == Some((p.0@, p.1@)),
            None => vocabulary_pair_2(ann@) is None,
        },
{
    match ann {
        Annotation::GriceanMaxim(v) => Some(v.to_pair()),
        Annotation::Intertextual(v) => Some(v.to_pair()),
        Annotation::BloomMode(v) => Some(v.to_pair()),
        Annotation::TraumaMode(v) => Some(v.to_pair()),
        Annotation::RecoveryStage(v) => Some(v.to_pair()),
        Annotation::PentadElement(v) => Some(v.to_pair()),
        Annotation::PentadRatio(v) => Some(v.to_pair()),
        Annotation::BurkeForm(v) => Some(v.to_pair()),
        Annotation::Emplotment(v) => Some(v.to_pair()),
        Annotation::Mimesis(v) => Some(v.to_pair()),
        Annotation::EthicsCategory(v) => Some(v.to_pair()),
        Annotation::CulturalStructure(v) => Some(v.to_pair()),
        Annotation::SurvivranceMode(v) => Some(v.to_pair()),
        Annotation::QueerTime(v) => Some(v.to_pair()),
        Annotation::DisabilityRep(v) => Some(v.to_pair()),
        Annotation::AffectMode(v) => Some(v.to_pair()),
        Annotation::Transitivity(v) => Some(v.to_pair()),
        Annotation::JakobsonFn(v) => Some(v.to_pair()),
        Annotation::Sign(v) => Some(v.to_pair()),
        Annotation::YaNarrator(v) => Some(v.to_pair()),
        Annotation::FreudianMechanism(v) => Some(v.to_pair()),
        Annotation::LacanRegister(v) => Some(v.to_pair()),
        Annotation::Abject(v) => Some(v.to_pair()),
        Annotation::PostcolonialMode(v) => Some(v.to_pair()),
        _ => vocabulary_pair_of_3(ann),
    }
}

/// [`vocabulary_pair`], continued.
pub open spec fn vocabulary_pair_3(a: AnnotationView) -> Option<PairView> {
    match a {
        AnnotationView::EcocriticalMode(v) => Some(("ecocritical"@, v.spec_name())),
        AnnotationView::SemioticPosition(v) => Some(("semiotic_pos"@, v.spec_name())),
        AnnotationView::ExperimentalMode(v) => Some(("experimental"@, v.spec_name())),
        AnnotationView::PosthumanMode(v) => Some(("posthuman"@, v.spec_name())),
        AnnotationView::MarxistMode(v) => Some(("marxist_mode"@, v.spec_name())),
        AnnotationView::FeministNarrative(v) => Some(("feminist"@, v.spec_name())),
        AnnotationView::Signifying(v) => Some(("signifying"@, v.spec_name())),
        AnnotationView::CognitiveModeTag(v) => Some(("cognitive"@, v.spec_name())),
        AnnotationView::ProppFunction(v) => Some(("propp"@, v.spec_name())),
        AnnotationView::Performativity(v) => Some(("performativity"@, v.spec_name())),
        AnnotationView::AutofictionMode(v) => Some(("autofiction"@, v.spec_name())),
        AnnotationView::NarrativeEthics(v) => Some(("narrative_ethics"@, v.spec_name())),
        AnnotationView::TransmediaType(v) => Some(("transmedia"@, v.spec_name())),
        AnnotationView::AccessibilityRelation(v) => Some(("accessibility"@, v.spec_name())),
        AnnotationView::Adaptation(v) => Some(("adaptation"@, v.spec_name())),
        AnnotationView::Multilingual(v) => Some(("multilingual"@, v.spec_name())),
        AnnotationView::PanelTransition(v) => Some(("panel_transition"@, v.spec_name())),
        AnnotationView::Storywork(v) => Some(("storywork"@, v.spec_name())),
        AnnotationView::TranslationStrategy(v) => Some(("translation"@, v.spec_name())),
        AnnotationView::VisualVerbal(v) => Some(("visual_verbal"@, v.spec_name())),
        AnnotationView::Flag(v) => Some(("flag"@, v.spec_name())),
        AnnotationView::RevisionPass(v) => Some(("revision_pass"@, v.spec_name())),
        AnnotationView::ParatextZone(v) => Some(("paratext_zone"@, v.spec_name())),
        _ => None,
    }
}

fn vocabulary_pair_of_3(ann: &Annotation) -> (r: Option<(String, String)>)
    ensures
        match r {
            Some(p) => vocabulary_pair_3(ann@) == Some((p.0@, p.1@)),
            None => vocabulary_pair_3(ann@) is None,
        },
{
    match ann {
        Annotation::EcocriticalMode(v) => Some(v.to_pair()),
        Annotation::SemioticPosition(v) => Some(v.to_pair()),
        Annotation::ExperimentalMode(v) => Some(v.to_pair()),
        Annotation::PosthumanMode(v) => Some(v.to_pair()),
        Annotation::MarxistMode(v) => Some(v.to_pair()),
        Annotation::FeministNarrative(v) => Some(v.to_pair()),
        Annotation::Signifying(v) => Some(v.to_pair()),
        Annotation::CognitiveModeTag(v) => Some(v.to_pair()),
        Annotation::ProppFunction(v) => Some(v.to_pair()),
        Annotation::Performativity(v) => Some(v.to_pair()),
        Annotation::AutofictionMode(v) => Some(v.to_pair()),
        Annotation::NarrativeEthics(v) => Some(v.to_pair()),
        Annotation::TransmediaType(v) => Some(v.to_pair()),
        Annotation::AccessibilityRelation(v) => Some(v.to_pair()),
        Annotation::Adaptation(v) => Some(v.to_pair()),
        Annotation::Multilingual(v) => Some(v.to_pair()),
        Annotation::PanelTransition(v) => Some(v.to_pair()),
        Annotation::Storywork(v) => Some(v.to_pair()),
        Annotation::TranslationStrategy(v) => Some(v.to_pair()),
        Annotation::VisualVerbal(v) => Some(v.to_pair()),
        Annotation::Flag(v) => Some(v.to_pair()),
        Annotation::RevisionPass(v) => Some(v.to_pair()),
        Annotation::ParatextZone(v) => Some(v.to_pair()),
        _ => None,
    }
}

/// Convert a single `Annotation` into a `(key, value)` string pair for
/// constraint-graph validation.
///
/// Each simple single-value variant uses its [`AnnotationKey::to_pair`], so the
/// emitted key is the key the annotation parser reads.  Complex multi-field
/// variants (motif, chapter, scene, relationship, ...) give `None`; they are
/// handled by [`ParagraphAnnotations::to_constraint_pairs`].
pub fn annotation_to_pair(ann: &Annotation) -> (r: Option<(String, String)>)
    ensures
        match r {
            Some(p) => pair_of(ann@) == Some((p.0@, p.1@)),
            None => pair_of(ann@) is None,
        },
{
    match ann {
        Annotation::PsychicDistance(v) => Some(
            (owned("psychic_distance"), u32_to_string(v.value() as u32)),
        ),
        Annotation::Tension(v) => Some((owned("tension"), u32_to_string(v.value() as u32))),
        Annotation::Subtext(s) => Some((owned("subtext"), s.clone())),
        Annotation::Beat(r) => Some((owned("beat"), r.slug.clone())),
        Annotation::Character(r) => Some((owned("character"), r.slug.clone())),
        Annotation::Setting(r) => Some((owned("setting"), r.slug.clone())),
        Annotation::Thread(t) => Some((owned("thread"), t.text())),
        Annotation::SceneType(v) => Some((owned("scene_type"), owned(v.name()))),
        _ => vocabulary_pair_of(ann),
    }
}

/// A one-element list for a present pair, an empty one otherwise.
pub open spec fn pair_list(p: Option<PairView>) -> Seq<PairView> {
    match p {
        Some(x) => seq![x],
        None => Seq::empty(),
    }
}

/// The pairs that a list of annotations flattens to, in order; annotations
/// that reduce to no single pair are skipped.
pub open spec fn extra_pairs(s: Seq<AnnotationView>) -> Seq<PairView>
    decreases s.len(),
{
    if s.len() == 0 {
        Seq::empty()
    } else {
        extra_pairs(s.drop_last()) + pair_list(pair_of(s.last()))
    }
}

/// The characters of a list of owned string pairs.
pub open spec fn owned_pairs_view(v: Seq<(String, String)>) -> Seq<PairView> {
    v.map_values(|p: (String, String)| (p.0@, p.1@))
}

fn push_pair_of(pairs: &mut Vec<(String, String)>, ann: &Annotation)
    ensures
        owned_pairs_view(final(pairs)@) == owned_pairs_view(old(pairs)@) + pair_list(pair_of(ann@)),
{
    let ghost prev = pairs@;
    match annotation_to_pair(ann) {
        Some(p) => {
            pairs.push(p);
            assert(pairs@ == prev.push(p));
            assert(owned_pairs_view(pairs@) =~= owned_pairs_view(prev) + seq![(p.0@, p.1@)]);
        },
        None => {
            assert(owned_pairs_view(pairs@) =~= owned_pairs_view(prev) + Seq::empty());
        },
    }
}

/// Appends to `pairs` the pairs that `anns` flatten to.
pub(crate) fn push_annotation_pairs(pairs: &mut Vec<(String, String)>, anns: &[Annotation])
    ensures
        owned_pairs_view(final(pairs)@) == owned_pairs_view(old(pairs)@) + extra_pairs(
            annotations_view(anns@),
        ),
{
    let ghost base = owned_pairs_view(pairs@);
    let ghost views = annotations_view(anns@);
    let mut i: usize = 0;
    while i < anns.len()
        invariant
            i <= anns@.len(),
            views == annotations_view(anns@),
            owned_pairs_view(pairs@) == base + extra_pairs(views.take(i as int)),
        decreases anns.len() - i,
    {
        assert(views.take(i + 1).drop_last() =~= views.take(i as int));
        assert(views.take(i + 1).last() == anns@[i as int]@);
        push_pair_of(pairs, &anns[i]);
        i = i + 1;
        assert(owned_pairs_view(pairs@) =~= base + extra_pairs(views.take(i as int)));
    }
    assert(views.take(anns@.len() as int) =~= views);
}

// ── Paragraph-level annotation context ────────────────────────────────────────

/// The resolved annotation state at a paragraph boundary.
///
/// It holds the annotation values that are active at the start of a paragraph
/// (set by the most recent tag of each type).  Fields come in three tiers:
/// core craft (always present), narrative structure (when available), and
/// theory enrichment, which lives in `extra` together with any other tag.
#[derive(Debug, PartialEq, Eq)]
pub struct ParagraphAnnotations {
    // ── Tier 1: core craft
    pub psychic_distance: Option<PsychicDistance>,
    pub consciousness: Option<ConsciousnessMode>,
    pub subtext: Option<String>,
    pub tension: Option<Tension>,
    pub speech_act: Option<SpeechAct>,
    pub gaze: Option<GazeType>,
    pub dominant_sense: Option<DominantSense>,
    pub pov: Option<PovType>,
    pub focalization_type: Option<FocalizationType>,

    // ── Tier 2: narrative structure
    pub beat: Option<EntityRef>,
    pub motif: Option<EntityRef>,
    pub motif_stage: Option<MotifStage>,
    pub scene_function: Option<SceneFunction>,
    pub conflict: Option<ConflictType>,
    pub outcome: Option<OutcomeType>,
    pub temporal_order: Option<TemporalOrder>,
    pub reader_effect: Option<ReaderExperienceEffect>,
    pub arc_type: Option<ArcType>,

    // ── Governance
    pub flags: Vec<RevisionFlag>,
    pub speaker: Option<String>,
    pub tone: Option<VoiceTone>,

    // ── Tier 3 (theory enrichment) and any other tag
    pub extra: Vec<Annotation>,
}

/// The content of a [`ParagraphAnnotations`].
pub struct ParagraphAnnotationsView {
    pub psychic_distance: Option<u8>,
    pub consciousness: Option<ConsciousnessMode>,
    pub subtext: Option<Seq<char>>,
    pub tension: Option<u8>,
    pub speech_act: Option<SpeechAct>,
    pub gaze: Option<GazeType>,
    pub dominant_sense: Option<DominantSense>,
    pub pov: Option<PovType>,
    pub focalization_type: Option<FocalizationType>,
    pub beat: Option<Seq<char>>,
    pub motif: Option<Seq<char>>,
    pub motif_stage: Option<MotifStage>,
    pub scene_function: Option<SceneFunction>,
    pub conflict: Option<ConflictType>,
    pub outcome: Option<OutcomeType>,
    pub temporal_order: Option<TemporalOrder>,
    pub reader_effect: Option<ReaderExperienceEffect>,
    pub arc_type: Option<ArcType>,
    pub flags: Seq<RevisionFlag>,
    pub speaker: Option<Seq<char>>,
    pub tone: Option<VoiceTone>,
    pub extra: Seq<AnnotationView>,
}

/// The value of an optional psychic distance.
pub open spec fn opt_pd_view(o: Option<PsychicDistance>) -> Option<u8> {
    match o {
        Some(d) => Some(d.spec_value()),
        None => None,
    }
}

/// The value of an optional tension.
pub open spec fn opt_tension_view(o: Option<Tension>) -> Option<u8> {
    match o {
        Some(t) => Some(t.spec_value()),
        None => None,
    }
}

impl View for ParagraphAnnotations {
    type V = ParagraphAnnotationsView;

    open spec fn view(&self) -> ParagraphAnnotationsView {
        ParagraphAnnotationsView {
            psychic_distance: opt_pd_view(self.psychic_distance),
            consciousness: self.consciousness,
            subtext: opt_text_view(self.subtext),
            tension: opt_tension_view(self.tension),
            speech_act: self.speech_act,
            gaze: self.gaze,
            dominant_sense: self.dominant_sense,
            pov: self.pov,
            focalization_type: self.focalization_type,
            beat: opt_ref_view(self.beat),
            motif: opt_ref_view(self.motif),
            motif_stage: self.motif_stage,
            scene_function: self.scene_function,
            conflict: self.conflict,
            outcome: self.outcome,
            temporal_order: self.temporal_order,
            reader_effect: self.reader_effect,
            arc_type: self.arc_type,
            flags: self.flags@,
            speaker: opt_text_view(self.speaker),
            tone: self.tone,
            extra: annotations_view(self.extra@),
        }
    }
}

impl ParagraphAnnotationsView {
    /// The state before any annotation: nothing set.
    pub open spec fn empty() -> Self {
        ParagraphAnnotationsView {
            psychic_distance: None,
            consciousness: None,
            subtext: None,
            tension: None,
            speech_act: None,
            gaze: None,
            dominant_sense: None,
            pov: None,
            focalization_type: None,
            beat: None,
            motif: None,
            motif_stage: None,
            scene_function: None,
            conflict: None,
            outcome: None,
            temporal_order: None,
            reader_effect: None,
            arc_type: None,
            flags: Seq::empty(),
            speaker: None,
            tone: None,
            extra: Seq::empty(),
        }
    }

    /// The state after one more annotation: a known craft or structure tag
    /// overrides its field (revision flags accumulate, a motif keeps the
    /// previous stage when it names none); every other tag joins `extra`.
    pub open spec fn routed(self, a: AnnotationView) -> Self {
        match a {
            AnnotationView::PsychicDistance(v) => ParagraphAnnotationsView { psychic_distance: Some(v), ..self },
            AnnotationView::Consciousness(v) => ParagraphAnnotationsView { consciousness: Some(v), ..self },
            AnnotationView::Subtext(v) => ParagraphAnnotationsView { subtext: Some(v), ..self },
            AnnotationView::Tension(v) => ParagraphAnnotationsView { tension: Some(v), ..self },
            AnnotationView::SpeechAct(v) => ParagraphAnnotationsView { speech_act: Some(v), ..self },
            AnnotationView::Gaze(v) => ParagraphAnnotationsView { gaze: Some(v), ..self },
            AnnotationView::DominantSense(v) => ParagraphAnnotationsView { dominant_sense: Some(v), ..self },
            AnnotationView::Pov(v) => ParagraphAnnotationsView { pov: Some(v), ..self },
            AnnotationView::FocalizationType(v) => ParagraphAnnotationsView { focalization_type: Some(v), ..self },
            AnnotationView::Beat(v) => ParagraphAnnotationsView { beat: Some(v), ..self },
            AnnotationView::SceneFunction(v) => ParagraphAnnotationsView { scene_function: Some(v), ..self },
            AnnotationView::Conflict(v) => ParagraphAnnotationsView { conflict: Some(v), ..self },
            AnnotationView::Outcome(v) => ParagraphAnnotationsView { outcome: Some(v), ..self },
            AnnotationView::TemporalOrder(v) => ParagraphAnnotationsView { temporal_order: Some(v), ..self },
            AnnotationView::ReaderEffect(v) => ParagraphAnnotationsView { reader_effect: Some(v), ..self },
            AnnotationView::Arc(v) => ParagraphAnnotationsView { arc_type: Some(v), ..self },
            AnnotationView::Motif { slug, stage } => ParagraphAnnotationsView {
                motif: Some(slug),
                motif_stage: match stage {
                    Some(s) => Some(s),
                    None => self.motif_stage,
                },
                ..self
            },
            AnnotationView::Flag(v) => ParagraphAnnotationsView { flags: self.flags.push(v), ..self },
            AnnotationView::Speaker { name } => ParagraphAnnotationsView {
                speaker: Some(name),
                ..self
            },
            AnnotationView::Tone(v) => ParagraphAnnotationsView { tone: Some(v), ..self },
            _ => ParagraphAnnotationsView { extra: self.extra.push(a), ..self },
        }
    }

    /// The pairs of the typed fields, in field order.
    pub open spec fn typed_pairs(self) -> Seq<PairView> {
        opt_pair("psychic_distance"@, decimal_opt(self.psychic_distance))
            + opt_pair("consciousness"@, name_opt(self.consciousness))
            + opt_pair("subtext"@, self.subtext)
            + opt_pair("tension"@, decimal_opt(self.tension))
            + opt_pair("speech_act"@, name_opt(self.speech_act))
            + opt_pair("gaze"@, name_opt(self.gaze))
            + opt_pair("sense"@, name_opt(self.dominant_sense))
            + opt_pair("pov"@, name_opt(self.pov))
            + opt_pair("focalization_type"@, name_opt(self.focalization_type))
            + opt_pair("beat"@, self.beat)
            + opt_pair("scene_function"@, name_opt(self.scene_function))
            + opt_pair("conflict"@, name_opt(self.conflict))
            + opt_pair("outcome"@, name_opt(self.outcome))
            + opt_pair("temporal_order"@, name_opt(self.temporal_order))
            + opt_pair("reader_effect"@, name_opt(self.reader_effect))
            + opt_pair("arc"@, name_opt(self.arc_type))
    }

    /// The pairs this paragraph state is validated as: the typed fields, then
    /// every extra annotation that reduces to a single pair.
    pub open spec fn constraint_pairs(self) -> Seq<PairView> {
        self.typed_pairs() + extra_pairs(self.extra)
    }
}

/// The paragraph state that a run of annotations resolves to, folding from the
/// first annotation to the last.
pub open spec fn resolved(s: Seq<AnnotationView>) -> ParagraphAnnotationsView
    decreases s.len(),
{
    if s.len() == 0 {
        ParagraphAnnotationsView::empty()
    } else {
        resolved(s.drop_last()).routed(s.last())
    }
}

/// A one-pair list when the value is present.
pub open spec fn opt_pair(key: Seq<char>, value: Option<Seq<char>>) -> Seq<PairView> {
    match value {
        Some(v) => seq![(key, v)],
        None => Seq::empty(),
    }
}

/// The snake-case name of an optional vocabulary value.
pub open spec fn name_opt<T: SnakeName>(o: Option<T>) -> Option<Seq<char>> {
    match o {
        Some(v) => Some(v.spec_name()),
        None => None,
    }
}

/// The decimal form of an optional score.
pub open spec fn decimal_opt(o: Option<u8>) -> Option<Seq<char>> {
    match o {
        Some(n) => Some(decimal(n as nat)),
        None => None,
    }
}

fn push_opt(pairs: &mut Vec<(String, String)>, key: &str, value: Option<String>)
    ensures
        owned_pairs_view(final(pairs)@) == owned_pairs_view(old(pairs)@) + opt_pair(
            key@,
            opt_text_view(value),
        ),
{
    match value {
        Some(v) => {
            pairs.push((owned(key), v));
        },
        None => {},
    }
    assert(owned_pairs_view(pairs@) =~= owned_pairs_view(old(pairs)@) + opt_pair(
        key@,
        opt_text_view(value),
    ));
}

fn opt_name<T: SnakeName>(o: Option<T>) -> (r: Option<String>)
    ensures
        opt_text_view(r) == name_opt(o),
{
    match o {
        Some(v) => Some(owned(v.name())),
        None => None,
    }
}

fn opt_ref_slug(o: &Option<EntityRef>) -> (r: Option<String>)
    ensures
        opt_text_view(r) == opt_ref_view(*o),
{
    match o {
        Some(e) => Some(e.slug.clone()),
        None => None,
    }
}

fn clone_annotations(v: &Vec<Annotation>) -> (r: Vec<Annotation>)
    ensures
        annotations_view(r@) == annotations_view(v@),
{
    let mut out: Vec<Annotation> = Vec::new();
    let mut i: usize = 0;
    while i < v.len()
        invariant
            i <= v@.len(),
            annotations_view(out@) == annotations_view(v@.take(i as int)),
        decreases v.len() - i,
    {
        let c = v[i].clone();
        let ghost prev = out@;
        out.push(c);
        assert(out@ == prev.push(c));
        assert(v@.take(i + 1) =~= v@.take(i as int).push(v@[i as int]));
        assert(annotations_view(out@) =~= annotations_view(prev).push(v@[i as int]@));
        i = i + 1;
    }
    assert(v@.take(v@.len() as int) =~= v@);
    out
}

impl Default for ParagraphAnnotations {
    fn default() -> (r: Self)
        ensures
            r@ == ParagraphAnnotationsView::empty(),
    {
        let r = ParagraphAnnotations {
            psychic_distance: None,
            consciousness: None,
            subtext: None,
            tension: None,
            speech_act: None,
            gaze: None,
            dominant_sense: None,
            pov: None,
            focalization_type: None,
            beat: None,
            motif: None,
            motif_stage: None,
            scene_function: None,
            conflict: None,
            outcome: None,
            temporal_order: None,
            reader_effect: None,
            arc_type: None,
            flags: Vec::new(),
            speaker: None,
            tone: None,
            extra: Vec::new(),
        };
        assert(r@.extra =~= Seq::<AnnotationView>::empty());
        r
    }
}

impl Clone for ParagraphAnnotations {
    fn clone(&self) -> (r: Self)
        ensures
            r@ == self@,
    {
        ParagraphAnnotations {
            psychic_distance: self.psychic_distance,
            consciousness: self.consciousness,
            subtext: clone_opt_string(&self.subtext),
            tension: self.tension,
            speech_act: self.speech_act,
            gaze: self.gaze,
            dominant_sense: self.dominant_sense,
            pov: self.pov,
            focalization_type: self.focalization_type,
            beat: clone_opt_ref(&self.beat),
            motif: clone_opt_ref(&self.motif),
            motif_stage: self.motif_stage,
            scene_function: self.scene_function,
            conflict: self.conflict,
            outcome: self.outcome,
            temporal_order: self.temporal_order,
            reader_effect: self.reader_effect,
            arc_type: self.arc_type,
            flags: self.flags.clone(),
            speaker: clone_opt_string(&self.speaker),
            tone: self.tone,
            extra: clone_annotations(&self.extra),
        }
    }
}

impl ParagraphAnnotations {
    /// Build the paragraph state from a run of annotations, in order.  Known
    /// craft and structure tags are routed to their typed fields, a later tag
    /// overriding an earlier one of the same type; all remaining annotations
    /// land in `extra`.
    pub fn from_annotations(anns: &[Annotation]) -> (r: Self)
        ensures
            r@ == resolved(annotations_view(anns@)),
    {
        let mut pa = ParagraphAnnotations::default();
        let ghost views = annotations_view(anns@);
        let mut i: usize = 0;
        while i < anns.len()
            invariant
                i <= anns@.len(),
                views == annotations_view(anns@),
                pa@ == resolved(views.take(i as int)),
            decreases anns.len() - i,
        {
            assert(views.take(i + 1).drop_last() =~= views.take(i as int));
            let ghost before = pa@;
            match &anns[i] {
                Annotation::PsychicDistance(v) => {
                    pa.psychic_distance = Some(*v);
                },
                Annotation::Consciousness(v) => {
                    pa.consciousness = Some(*v);
                },
                Annotation::Subtext(v) => {
                    pa.subtext = Some(v.clone());
                },
                Annotation::Tension(v) => {
                    pa.tension = Some(*v);
                },
                Annotation::SpeechAct(v) => {
                    pa.speech_act = Some(*v);
                },
                Annotation::Gaze(v) => {
                    pa.gaze = Some(*v);
                },
                Annotation::DominantSense(v) => {
                    pa.dominant_sense = Some(*v);
                },
                Annotation::Pov(v) => {
                    pa.pov = Some(*v);
                },
                Annotation::FocalizationType(v) => {
                    pa.focalization_type = Some(*v);
                },
                Annotation::Beat(v) => {
                    pa.beat = Some(v.clone());
                },
                Annotation::SceneFunction(v) => {
                    pa.scene_function = Some(*v);
                },
                Annotation::Conflict(v) => {
                    pa.conflict = Some(*v);
                },
                Annotation::Outcome(v) => {
                    pa.outcome = Some(*v);
                },
                Annotation::TemporalOrder(v) => {
                    pa.temporal_order = Some(*v);
                },
                Annotation::ReaderEffect(v) => {
                    pa.reader_effect = Some(*v);
                },
                Annotation::Arc(v) => {
                    pa.arc_type = Some(*v);
                },
                Annotation::Motif { slug, stage } => {
                    pa.motif = Some(slug.clone());
                    match stage {
                        Some(s) => {
                            pa.motif_stage = Some(*s);
                        },
                        None => {},
                    }
                },
                Annotation::Flag(v) => {
                    pa.flags.push(*v);
                },
                Annotation::Speaker { name } => {
                    pa.speaker = Some(name.clone());
                },
                Annotation::Tone(v) => {
                    pa.tone = Some(*v);
                },
                other => {
                    pa.extra.push(other.clone());
                    assert(annotations_view(pa.extra@) =~= before.extra.push(other@));
                },
            }
            assert(pa@ == before.routed(anns@[i as int]@));
            i = i + 1;
        }
        assert(views.take(anns@.len() as int) =~= views);
        pa
    }

    /// Flatten the paragraph state into `(key, value)` string pairs for
    /// constraint-graph validation: the typed fields first, then the extra
    /// annotations that reduce to a single pair.
    pub fn to_constraint_pairs(&self) -> (r: Vec<(String, String)>)
        ensures
            owned_pairs_view(r@) == self@.constraint_pairs(),
    {
        let mut pairs: Vec<(String, String)> = Vec::new();
        push_opt(
            &mut pairs,
            "psychic_distance",
            match self.psychic_distance {
                Some(x) => Some(u32_to_string(x.value() as u32)),
                None => None,
            },
        );
        push_opt(
            &mut pairs,
            "consciousness",
            opt_name(self.consciousness),
        );
        push_opt(
            &mut pairs,
            "subtext",
            clone_opt_string(&self.subtext),
        );
        push_opt(
            &mut pairs,
            "tension",
            match self.tension {
                Some(x) => Some(u32_to_string(x.value() as u32)),
                None => None,
            },
        );
        push_opt(
            &mut pairs,
            "speech_act",
            opt_name(self.speech_act),
        );
        push_opt(
            &mut pairs,
            "gaze",
            opt_name(self.gaze),
        );
        push_opt(
            &mut pairs,
            "sense",
            opt_name(self.dominant_sense),
        );
        push_opt(
            &mut pairs,
            "pov",
            opt_name(self.pov),
        );
        push_opt(
            &mut pairs,
            "focalization_type",
            opt_name(self.focalization_type),
        );
        push_opt(
            &mut pairs,
            "beat",
            opt_ref_slug(&self.beat),
        );
        push_opt(
            &mut pairs,
            "scene_function",
            opt_name(self.scene_function),
        );
        push_opt(
            &mut pairs,
            "conflict",
            opt_name(self.conflict),
        );
        push_opt(
            &mut pairs,
            "outcome",
            opt_name(self.outcome),
        );
        push_opt(
            &mut pairs,
            "temporal_order",
            opt_name(self.temporal_order),
        );
        push_opt(
            &mut pairs,
            "reader_effect",
            opt_name(self.reader_effect),
        );
        push_opt(
            &mut pairs,
            "arc",
            opt_name(self.arc_type),
        );
        assert(owned_pairs_view(pairs@) =~= self@.typed_pairs());
        push_annotation_pairs(&mut pairs, self.extra.as_slice());
        pairs
    }

    fn extras_in(&self, c: AnnotationChannel) -> (r: Vec<&Annotation>)
        ensures
            annotation_refs_view(r@) == self@.extra.filter(|a: AnnotationView| a.channel() == c),
    {
        let ghost views = self@.extra;
        let ghost pred = |a: AnnotationView| a.channel() == c;
        let mut out: Vec<&Annotation> = Vec::new();
        let mut i: usize = 0;
        while i < self.extra.len()
            invariant
                i <= self.extra@.len(),
                views == annotations_view(self.extra@),
                pred == (|a: AnnotationView| a.channel() == c),
                annotation_refs_view(out@) == views.take(i as int).filter(pred),
            decreases self.extra.len() - i,
        {
            proof {
                reveal(Seq::filter);
                assert(views.take(i + 1).drop_last() =~= views.take(i as int));
            }
            let a = &self.extra[i];
            if a.channel() == c {
                out.push(a);
            }
            i = i + 1;
            assert(annotation_refs_view(out@) =~= views.take(i as int).filter(pred));
        }
        assert(views.take(self.extra@.len() as int) =~= views);
        out
    }

    /// The context-channel annotations of `extra`, in order.
    pub fn context_extras(&self) -> (r: Vec<&Annotation>)
        ensures
            annotation_refs_view(r@) == self@.extra.filter(
                |a: AnnotationView| a.channel() == AnnotationChannel::Context,
            ),
    {
        self.extras_in(AnnotationChannel::Context)
    }

    /// The craft-channel annotations of `extra`, in order.
    pub fn craft_extras(&self) -> (r: Vec<&Annotation>)
        ensures
            annotation_refs_view(r@) == self@.extra.filter(
                |a: AnnotationView| a.channel() == AnnotationChannel::Craft,
            ),
    {
        self.extras_in(AnnotationChannel::Craft)
    }

    /// The theory-channel annotations of `extra`, in order.
    pub fn theory_extras(&self) -> (r: Vec<&Annotation>)
        ensures
            annotation_refs_view(r@) == self@.extra.filter(
                |a: AnnotationView| a.channel() == AnnotationChannel::Theory,
            ),
    {
        self.extras_in(AnnotationChannel::Theory)
    }

    /// All tier-3 (theory) annotations: the extras in the theory channel.
    pub fn theory_annotations(&self) -> (r: Vec<&Annotation>)
        ensures
            annotation_refs_view(r@) == self@.extra.filter(
                |a: AnnotationView| a.channel() == AnnotationChannel::Theory,
            ),
    {
        self.extras_in(AnnotationChannel::Theory)
    }
}

/// The contents of a list of borrowed annotations.
pub open spec fn annotation_refs_view(v: Seq<&Annotation>) -> Seq<AnnotationView> {
    v.map_values(|a: &Annotation| a@)
}

/// The value of the last tension annotation of a run, if any.
pub open spec fn last_tension(s: Seq<AnnotationView>) -> Option<u8>
    decreases s.len(),
{
    if s.len() == 0 {
        None
    } else {
        match s.last() {
            AnnotationView::Tension(n) => Some(n),
            _ => last_tension(s.drop_last()),
        }
    }
}

/// The value of the last psychic-distance annotation of a run, if any.
pub open spec fn last_psychic_distance(s: Seq<AnnotationView>) -> Option<u8>
    decreases s.len(),
{
    if s.len() == 0 {
        None
    } else {
        match s.last() {
            AnnotationView::PsychicDistance(n) => Some(n),
            _ => last_psychic_distance(s.drop_last()),
        }
    }
}

/// The revision flags of a run, in order.
pub open spec fn flags_of(s: Seq<AnnotationView>) -> Seq<RevisionFlag>
    decreases s.len(),
{
    if s.len() == 0 {
        Seq::empty()
    } else {
        flags_of(s.drop_last()) + match s.last() {
            AnnotationView::Flag(f) => seq![f],
            _ => Seq::empty(),
        }
    }
}

/// A paragraph's tension is that of the last tension annotation: a later
/// annotation of the same type overrides an earlier one.
pub proof fn lemma_last_tension_holds(s: Seq<AnnotationView>)
    ensures
        resolved(s).tension == last_tension(s),
    decreases s.len(),
{
    if s.len() > 0 {
        lemma_last_tension_holds(s.drop_last());
    }
}

/// A paragraph's psychic distance is that of the last psychic-distance
/// annotation.
pub proof fn lemma_last_psychic_distance_holds(s: Seq<AnnotationView>)
    ensures
        resolved(s).psychic_distance == last_psychic_distance(s),
    decreases s.len(),
{
    if s.len() > 0 {
        lemma_last_psychic_distance_holds(s.drop_last());
    }
}

/// Revision flags accumulate: a paragraph carries every flag of the run, in
/// order.
pub proof fn lemma_flags_accumulate(s: Seq<AnnotationView>)
    ensures
        resolved(s).flags == flags_of(s),
    decreases s.len(),
{
    if s.len() > 0 {
        lemma_flags_accumulate(s.drop_last());
        let prev = resolved(s.drop_last());
        match s.last() {
            AnnotationView::Flag(f) => {
                assert(resolved(s).flags =~= prev.flags + seq![f]);
            },
            _ => {
                assert(resolved(s).flags =~= prev.flags + Seq::<RevisionFlag>::empty());
            },
        }
    }
}

// ── Sentence-level annotation context ─────────────────────────────────────────

/// Annotation state at the grain of a single sentence.
///
/// Sentence-level tags are the craft properties that can change sentence by
/// sentence.  Many can be derived from the surface text, so `auto_derived`
/// records whether the annotation was authored or inferred.
#[derive(Debug, Clone, Copy, PartialEq, Eq, Structural)]
pub struct SentenceAnnotations {
    /// 0-based index of this sentence within its paragraph.
    pub index: u32,
    // ── Syntactic structure
    pub sentence_length: Option<SentenceLength>,
    pub sentence_type: Option<SentenceType>,
    pub sentence_architecture: Option<SentenceArchitecture>,
    // ── Craft technique
    pub speech_act: Option<SpeechAct>,
    pub dominant_sense: Option<DominantSense>,
    pub image_schema: Option<ImageSchema>,
    pub prosodic_element: Option<ProsodicElement>,
    pub defamiliarization: Option<DefamiliarizationMode>,
    pub displacement_gap: Option<DisplacementGap>,
    pub gricean_maxim: Option<GriceanMaxim>,
    pub non_response: Option<NonResponseType>,
    pub metaphor: Option<MetaphorType>,
    pub irony: Option<IronyType>,
    /// True if this sentence is part of a dialogue exchange.
    pub contains_dialogue: bool,
    /// True when this annotation was derived automatically rather than
    /// hand-authored.
    pub auto_derived: bool,
}

impl Default for SentenceAnnotations {
    fn default() -> (r: Self)
        ensures
            r.index == 0,
            r.sentence_length is None,
            r.sentence_type is None,
            r.sentence_architecture is None,
            r.speech_act is None,
            r.dominant_sense is None,
            r.image_schema is None,
            r.prosodic_element is None,
            r.defamiliarization is None,
            r.displacement_gap is None,
            r.gricean_maxim is None,
            r.non_response is None,
            r.metaphor is None,
            r.irony is None,
            !r.contains_dialogue,
            !r.auto_derived,
    {
        SentenceAnnotations {
            index: 0,
            sentence_length: None,
            sentence_type: None,
            sentence_architecture: None,
            speech_act: None,
            dominant_sense: None,
            image_schema: None,
            prosodic_element: None,
            defamiliarization: None,
            displacement_gap: None,
            gricean_maxim: None,
            non_response: None,
            metaphor: None,
            irony: None,
            contains_dialogue: false,
            auto_derived: false,
        }
    }
}

// ── AnnotationKey impls ───────────────────────────────────────────────────────

impl AnnotationKey for TemporalOrder {
    open spec fn spec_tag_key() -> Seq<char> {
        "temporal_order"@
    }

    open spec fn spec_channel() -> AnnotationChannel {
        AnnotationChannel::Context
    }

    fn tag_key() -> (r: &'static str) {
        "temporal_order"
    }

    fn channel() -> (r: AnnotationChannel) {
        AnnotationChannel::Context
    }
}

impl AnnotationKey for TemporalDuration {
    open spec fn spec_tag_key() -> Seq<char> {
        "temporal_duration"@
    }

    open spec fn spec_channel() -> AnnotationChannel {
        AnnotationChannel::Context
    }

    fn tag_key() -> (r: &'static str) {
        "temporal_duration"
    }

    fn channel() -> (r: AnnotationChannel) {
        AnnotationChannel::Context
    }
}

impl AnnotationKey for TemporalFrequency {
    open spec fn spec_tag_key() -> Seq<char> {
        "temporal_frequency"@
    }

    open spec fn spec_channel() -> AnnotationChannel {
        AnnotationChannel::Context
    }

    fn tag_key() -> (r: &'static str) {
        "temporal_frequency"
    }

    fn channel() -> (r: AnnotationChannel) {
        AnnotationChannel::Context
    }
}

impl AnnotationKey for SceneFunction {
    open spec fn spec_tag_key() -> Seq<char> {
        "scene_function"@
    }

    open spec fn spec_channel() -> AnnotationChannel {
        AnnotationChannel::Context
    }

    fn tag_key() -> (r: &'static str) {
        "scene_function"
    }

    fn channel() -> (r: AnnotationChannel) {
        AnnotationChannel::Context
    }
}

impl AnnotationKey for ArcType {
    open spec fn spec_tag_key() -> Seq<char> {
        "arc"@
    }

    open spec fn spec_channel() -> AnnotationChannel {
        AnnotationChannel::Context
    }

    fn tag_key() -> (r: &'static str) {
        "arc"
    }

    fn channel() -> (r: AnnotationChannel) {
        AnnotationChannel::Context
    }
}

impl AnnotationKey for ArcPattern {
    open spec fn spec_tag_key() -> Seq<char> {
        "arc_pattern"@
    }

    open spec fn spec_channel() -> AnnotationChannel {
        AnnotationChannel::Context
    }

    fn tag_key() -> (r: &'static str) {
        "arc_pattern"
    }

    fn channel() -> (r: AnnotationChannel) {
        AnnotationChannel::Context
    }
}

impl AnnotationKey for ConflictType {
    open spec fn spec_tag_key() -> Seq<char> {
        "conflict"@
    }

    open spec fn spec_channel() -> AnnotationChannel {
        AnnotationChannel::Context
    }

    fn tag_key() -> (r: &'static str) {
        "conflict"
    }

    fn channel() -> (r: AnnotationChannel) {
        AnnotationChannel::Context
    }
}

impl AnnotationKey for OutcomeType {
    open spec fn spec_tag_key() -> Seq<char> {
        "outcome"@
    }

    open spec fn spec_channel() -> AnnotationChannel {
        AnnotationChannel::Context
    }

    fn tag_key() -> (r: &'static str) {
        "outcome"
    }

    fn channel() -> (r: AnnotationChannel) {
        AnnotationChannel::Context
    }
}

impl AnnotationKey for DominantSense {
    open spec fn spec_tag_key() -> Seq<char> {
        "sense"@
    }

    open spec fn spec_channel() -> AnnotationChannel {
        AnnotationChannel::Craft
    }

    fn tag_key() -> (r: &'static str) {
        "sense"
    }

    fn channel() -> (r: AnnotationChannel) {
        AnnotationChannel::Craft
    }
}

impl AnnotationKey for TimeOfDay {
    open spec fn spec_tag_key() -> Seq<char> {
        "time_of_day"@
    }

    open spec fn spec_channel() -> AnnotationChannel {
        AnnotationChannel::Context
    }

    fn tag_key() -> (r: &'static str) {
        "time_of_day"
    }

    fn channel() -> (r: AnnotationChannel) {
        AnnotationChannel::Context
    }
}

impl AnnotationKey for Weather {
    open spec fn spec_tag_key() -> Seq<char> {
        "weather"@
    }

    open spec fn spec_channel() -> AnnotationChannel {
        AnnotationChannel::Context
    }

    fn tag_key() -> (r: &'static str) {
        "weather"
    }

    fn channel() -> (r: AnnotationChannel) {
        AnnotationChannel::Context
    }
}

impl AnnotationKey for WorldDeliveryMethod {
    open spec fn spec_tag_key() -> Seq<char> {
        "world_delivery"@
    }

    open spec fn spec_channel() -> AnnotationChannel {
        AnnotationChannel::Context
    }

    fn tag_key() -> (r: &'static str) {
        "world_delivery"
    }

    fn channel() -> (r: AnnotationChannel) {
        AnnotationChannel::Context
    }
}

impl AnnotationKey for SpatialPractice {
    open spec fn spec_tag_key() -> Seq<char> {
        "spatial_practice"@
    }

    open spec fn spec_channel() -> AnnotationChannel {
        AnnotationChannel::Context
    }

    fn tag_key() -> (r: &'static str) {
        "spatial_practice"
    }

    fn channel() -> (r: AnnotationChannel) {
        AnnotationChannel::Context
    }
}

impl AnnotationKey for IntimateSpaceType {
    open spec fn spec_tag_key() -> Seq<char> {
        "intimate_space"@
    }

    open spec fn spec_channel() -> AnnotationChannel {
        AnnotationChannel::Context
    }

    fn tag_key() -> (r: &'static str) {
        "intimate_space"
    }

    fn channel() -> (r: AnnotationChannel) {
        AnnotationChannel::Context
    }
}

impl AnnotationKey for DiegeticLevel {
    open spec fn spec_tag_key() -> Seq<char> {
        "diegetic_level"@
    }

    open spec fn spec_channel() -> AnnotationChannel {
        AnnotationChannel::Context
    }

    fn tag_key() -> (r: &'static str) {
        "diegetic_level"
    }

    fn channel() -> (r: AnnotationChannel) {
        AnnotationChannel::Context
    }
}

impl AnnotationKey for SerialArcType {
    open spec fn spec_tag_key() -> Seq<char> {
        "serial_arc"@
    }

    open spec fn spec_channel() -> AnnotationChannel {
        AnnotationChannel::Context
    }

    fn tag_key() -> (r: &'static str) {
        "serial_arc"
    }

    fn channel() -> (r: AnnotationChannel) {
        AnnotationChannel::Context
    }
}

impl AnnotationKey for PovType {
    open spec fn spec_tag_key() -> Seq<char> {
        "pov"@
    }

    open spec fn spec_channel() -> AnnotationChannel {
        AnnotationChannel::Craft
    }

    fn tag_key() -> (r: &'static str) {
        "pov"
    }

    fn channel() -> (r: AnnotationChannel) {
        AnnotationChannel::Craft
    }
}

impl AnnotationKey for FocalizationType {
    open spec fn spec_tag_key() -> Seq<char> {
        "focalization_type"@
    }

    open spec fn spec_channel() -> AnnotationChannel {
        AnnotationChannel::Craft
    }

    fn tag_key() -> (r: &'static str) {
        "focalization_type"
    }

    fn channel() -> (r: AnnotationChannel) {
        AnnotationChannel::Craft
    }
}

impl AnnotationKey for KnowledgeScope {
    open spec fn spec_tag_key() -> Seq<char> {
        "knowledge"@
    }

    open spec fn spec_channel() -> AnnotationChannel {
        AnnotationChannel::Craft
    }

    fn tag_key() -> (r: &'static str) {
        "knowledge"
    }

    fn channel() -> (r: AnnotationChannel) {
        AnnotationChannel::Craft
    }
}

impl AnnotationKey for ReliabilitySpectrum {
    open spec fn spec_tag_key() -> Seq<char> {
        "reliability"@
    }

    open spec fn spec_channel() -> AnnotationChannel {
        AnnotationChannel::Craft
    }

    fn tag_key() -> (r: &'static str) {
        "reliability"
    }

    fn channel() -> (r: AnnotationChannel) {
        AnnotationChannel::Craft
    }
}

impl AnnotationKey for EngagementMode {
    open spec fn spec_tag_key() -> Seq<char> {
        "engagement"@
    }

    open spec fn spec_channel() -> AnnotationChannel {
        AnnotationChannel::Craft
    }

    fn tag_key() -> (r: &'static str) {
        "engagement"
    }

    fn channel() -> (r: AnnotationChannel) {
        AnnotationChannel::Craft
    }
}

impl AnnotationKey for NarrativeDistance {
    open spec fn spec_tag_key() -> Seq<char> {
        "narrative_distance"@
    }

    open spec fn spec_channel() -> AnnotationChannel {
        AnnotationChannel::Craft
    }

    fn tag_key() -> (r: &'static str) {
        "narrative_distance"
    }

    fn channel() -> (r: AnnotationChannel) {
        AnnotationChannel::Craft
    }
}

impl AnnotationKey for VoiceStructure {
    open spec fn spec_tag_key() -> Seq<char> {
        "voice_structure"@
    }

    open spec fn spec_channel() -> AnnotationChannel {
        AnnotationChannel::Craft
    }

    fn tag_key() -> (r: &'static str) {
        "voice_structure"
    }

    fn channel() -> (r: AnnotationChannel) {
        AnnotationChannel::Craft
    }
}

impl AnnotationKey for SentenceLength {
    open spec fn spec_tag_key() -> Seq<char> {
        "sentence_length"@
    }

    open spec fn spec_channel() -> AnnotationChannel {
        AnnotationChannel::Craft
    }

    fn tag_key() -> (r: &'static str) {
        "sentence_length"
    }

    fn channel() -> (r: AnnotationChannel) {
        AnnotationChannel::Craft
    }
}

impl AnnotationKey for SentenceType {
    open spec fn spec_tag_key() -> Seq<char> {
        "sentence_type"@
    }

    open spec fn spec_channel() -> AnnotationChannel {
        AnnotationChannel::Craft
    }

    fn tag_key() -> (r: &'static str) {
        "sentence_type"
    }

    fn channel() -> (r: AnnotationChannel) {
        AnnotationChannel::Craft
    }
}

impl AnnotationKey for SentenceArchitecture {
    open spec fn spec_tag_key() -> Seq<char> {
        "sentence_arch"@
    }

    open spec fn spec_channel() -> AnnotationChannel {
        AnnotationChannel::Craft
    }

    fn tag_key() -> (r: &'static str) {
        "sentence_arch"
    }

    fn channel() -> (r: AnnotationChannel) {
        AnnotationChannel::Craft
    }
}

impl AnnotationKey for VocabularyLevel {
    open spec fn spec_tag_key() -> Seq<char> {
        "vocabulary"@
    }

    open spec fn spec_channel() -> AnnotationChannel {
        AnnotationChannel::Craft
    }

    fn tag_key() -> (r: &'static str) {
        "vocabulary"
    }

    fn channel() -> (r: AnnotationChannel) {
        AnnotationChannel::Craft
    }
}

impl AnnotationKey for ProfanityLevel {
    open spec fn spec_tag_key() -> Seq<char> {
        "profanity"@
    }

    open spec fn spec_channel() -> AnnotationChannel {
        AnnotationChannel::Craft
    }

    fn tag_key() -> (r: &'static str) {
        "profanity"
    }

    fn channel() -> (r: AnnotationChannel) {
        AnnotationChannel::Craft
    }
}

impl AnnotationKey for OpeningType {
    open spec fn spec_tag_key() -> Seq<char> {
        "opening_type"@
    }

    open spec fn spec_channel() -> AnnotationChannel {
        AnnotationChannel::Craft
    }

    fn tag_key() -> (r: &'static str) {
        "opening_type"
    }

    fn channel() -> (r: AnnotationChannel) {
        AnnotationChannel::Craft
    }
}

impl AnnotationKey for QuestionDelivery {
    open spec fn spec_tag_key() -> Seq<char> {
        "question_delivery"@
    }

    open spec fn spec_channel() -> AnnotationChannel {
        AnnotationChannel::Craft
    }

    fn tag_key() -> (r: &'static str) {
        "question_delivery"
    }

    fn channel() -> (r: AnnotationChannel) {
        AnnotationChannel::Craft
    }
}

impl AnnotationKey for Complexity {
    open spec fn spec_tag_key() -> Seq<char> {
        "complexity"@
    }

    open spec fn spec_channel() -> AnnotationChannel {
        AnnotationChannel::Craft
    }

    fn tag_key() -> (r: &'static str) {
        "complexity"
    }

    fn channel() -> (r: AnnotationChannel) {
        AnnotationChannel::Craft
    }
}

impl AnnotationKey for DisplacementGap {
    open spec fn spec_tag_key() -> Seq<char> {
        "displacement"@
    }

    open spec fn spec_channel() -> AnnotationChannel {
        AnnotationChannel::Craft
    }

    fn tag_key() -> (r: &'static str) {
        "displacement"
    }

    fn channel() -> (r: AnnotationChannel) {
        AnnotationChannel::Craft
    }
}

impl AnnotationKey for NonResponseType {
    open spec fn spec_tag_key() -> Seq<char> {
        "non_response"@
    }

    open spec fn spec_channel() -> AnnotationChannel {
        AnnotationChannel::Craft
    }

    fn tag_key() -> (r: &'static str) {
        "non_response"
    }

    fn channel() -> (r: AnnotationChannel) {
        AnnotationChannel::Craft
    }
}

impl AnnotationKey for MetaphorType {
    open spec fn spec_tag_key() -> Seq<char> {
        "metaphor"@
    }

    open spec fn spec_channel() -> AnnotationChannel {
        AnnotationChannel::Craft
    }

    fn tag_key() -> (r: &'static str) {
        "metaphor"
    }

    fn channel() -> (r: AnnotationChannel) {
        AnnotationChannel::Craft
    }
}

impl AnnotationKey for IronyType {
    open spec fn spec_tag_key() -> Seq<char> {
        "irony"@
    }

    open spec fn spec_channel() -> AnnotationChannel {
        AnnotationChannel::Craft
    }

    fn tag_key() -> (r: &'static str) {
        "irony"
    }

    fn channel() -> (r: AnnotationChannel) {
        AnnotationChannel::Craft
    }
}

impl AnnotationKey for ComicMode {
    open spec fn spec_tag_key() -> Seq<char> {
        "comic_mode"@
    }

    open spec fn spec_channel() -> AnnotationChannel {
        AnnotationChannel::Craft
    }

    fn tag_key() -> (r: &'static str) {
        "comic_mode"
    }

    fn channel() -> (r: AnnotationChannel) {
        AnnotationChannel::Craft
    }
}

impl AnnotationKey for ComedyTheory {
    open spec fn spec_tag_key() -> Seq<char> {
        "comedy_theory"@
    }

    open spec fn spec_channel() -> AnnotationChannel {
        AnnotationChannel::Craft
    }

    fn tag_key() -> (r: &'static str) {
        "comedy_theory"
    }

    fn channel() -> (r: AnnotationChannel) {
        AnnotationChannel::Craft
    }
}

impl AnnotationKey for ProsodicElement {
    open spec fn spec_tag_key() -> Seq<char> {
        "prosodic"@
    }

    open spec fn spec_channel() -> AnnotationChannel {
        AnnotationChannel::Craft
    }

    fn tag_key() -> (r: &'static str) {
        "prosodic"
    }

    fn channel() -> (r: AnnotationChannel) {
        AnnotationChannel::Craft
    }
}

impl AnnotationKey for ImageSchema {
    open spec fn spec_tag_key() -> Seq<char> {
        "image_schema"@
    }

    open spec fn spec_channel() -> AnnotationChannel {
        AnnotationChannel::Craft
    }

    fn tag_key() -> (r: &'static str) {
        "image_schema"
    }

    fn channel() -> (r: AnnotationChannel) {
        AnnotationChannel::Craft
    }
}

impl AnnotationKey for DefamiliarizationMode {
    open spec fn spec_tag_key() -> Seq<char> {
        "defamiliarize"@
    }

    open spec fn spec_channel() -> AnnotationChannel {
        AnnotationChannel::Craft
    }

    fn tag_key() -> (r: &'static str) {
        "defamiliarize"
    }

    fn channel() -> (r: AnnotationChannel) {
        AnnotationChannel::Craft
    }
}

impl AnnotationKey for ReaderExperienceEffect {
    open spec fn spec_tag_key() -> Seq<char> {
        "reader_effect"@
    }

    open spec fn spec_channel() -> AnnotationChannel {
        AnnotationChannel::Craft
    }

    fn tag_key() -> (r: &'static str) {
        "reader_effect"
    }

    fn channel() -> (r: AnnotationChannel) {
        AnnotationChannel::Craft
    }
}

impl AnnotationKey for GenreReadingMode {
    open spec fn spec_tag_key() -> Seq<char> {
        "genre_reading"@
    }

    open spec fn spec_channel() -> AnnotationChannel {
        AnnotationChannel::Craft
    }

    fn tag_key() -> (r: &'static str) {
        "genre_reading"
    }

    fn channel() -> (r: AnnotationChannel) {
        AnnotationChannel::Craft
    }
}

impl AnnotationKey for SpeechAct {
    open spec fn spec_tag_key() -> Seq<char> {
        "speech_act"@
    }

    open spec fn spec_channel() -> AnnotationChannel {
        AnnotationChannel::Craft
    }

    fn tag_key() -> (r: &'static str) {
        "speech_act"
    }

    fn channel() -> (r: AnnotationChannel) {
        AnnotationChannel::Craft
    }
}

impl AnnotationKey for GriceanMaxim {
    open spec fn spec_tag_key() -> Seq<char> {
        "gricean"@
    }

    open spec fn spec_channel() -> AnnotationChannel {
        AnnotationChannel::Theory
    }

    fn tag_key() -> (r: &'static str) {
        "gricean"
    }

    fn channel() -> (r: AnnotationChannel) {
        AnnotationChannel::Theory
    }
}

impl AnnotationKey for IntertextualRelation {
    open spec fn spec_tag_key() -> Seq<char> {
        "intertextual"@
    }

    open spec fn spec_channel() -> AnnotationChannel {
        AnnotationChannel::Theory
    }

    fn tag_key() -> (r: &'static str) {
        "intertextual"
    }

    fn channel() -> (r: AnnotationChannel) {
        AnnotationChannel::Theory
    }
}

impl AnnotationKey for BloomInfluenceMode {
    open spec fn spec_tag_key() -> Seq<char> {
        "bloom_mode"@
    }

    open spec fn spec_channel() -> AnnotationChannel {
        AnnotationChannel::Theory
    }

    fn tag_key() -> (r: &'static str) {
        "bloom_mode"
    }

    fn channel() -> (r: AnnotationChannel) {
        AnnotationChannel::Theory
    }
}

impl AnnotationKey for TraumaMode {
    open spec fn spec_tag_key() -> Seq<char> {
        "trauma_mode"@
    }

    open spec fn spec_channel() -> AnnotationChannel {
        AnnotationChannel::Theory
    }

    fn tag_key() -> (r: &'static str) {
        "trauma_mode"
    }

    fn channel() -> (r: AnnotationChannel) {
        AnnotationChannel::Theory
    }
}

impl AnnotationKey for HermanRecoveryStage {
    open spec fn spec_tag_key() -> Seq<char> {
        "recovery_stage"@
    }

    open spec fn spec_channel() -> AnnotationChannel {
        AnnotationChannel::Theory
    }

    fn tag_key() -> (r: &'static str) {
        "recovery_stage"
    }

    fn channel() -> (r: AnnotationChannel) {
        AnnotationChannel::Theory
    }
}

impl AnnotationKey for PentadElement {
    open spec fn spec_tag_key() -> Seq<char> {
        "pentad_element"@
    }

    open spec fn spec_channel() -> AnnotationChannel {
        AnnotationChannel::Theory
    }

    fn tag_key() -> (r: &'static str) {
        "pentad_element"
    }

    fn channel() -> (r: AnnotationChannel) {
        AnnotationChannel::Theory
    }
}

impl AnnotationKey for PentadRatio {
    open spec fn spec_tag_key() -> Seq<char> {
        "pentad_ratio"@
    }

    open spec fn spec_channel() -> AnnotationChannel {
        AnnotationChannel::Theory
    }

    fn tag_key() -> (r: &'static str) {
        "pentad_ratio"
    }

    fn channel() -> (r: AnnotationChannel) {
        AnnotationChannel::Theory
    }
}

impl AnnotationKey for BurkeFormType {
    open spec fn spec_tag_key() -> Seq<char> {
        "burke_form"@
    }

    open spec fn spec_channel() -> AnnotationChannel {
        AnnotationChannel::Theory
    }

    fn tag_key() -> (r: &'static str) {
        "burke_form"
    }

    fn channel() -> (r: AnnotationChannel) {
        AnnotationChannel::Theory
    }
}

impl AnnotationKey for EmplotmentType {
    open spec fn spec_tag_key() -> Seq<char> {
        "emplotment"@
    }

    open spec fn spec_channel() -> AnnotationChannel {
        AnnotationChannel::Theory
    }

    fn tag_key() -> (r: &'static str) {
        "emplotment"
    }

    fn channel() -> (r: AnnotationChannel) {
        AnnotationChannel::Theory
    }
}

impl AnnotationKey for MimesisPhase {
    open spec fn spec_tag_key() -> Seq<char> {
        "mimesis"@
    }

    open spec fn spec_channel() -> AnnotationChannel {
        AnnotationChannel::Theory
    }

    fn tag_key() -> (r: &'static str) {
        "mimesis"
    }

    fn channel() -> (r: AnnotationChannel) {
        AnnotationChannel::Theory
    }
}

impl AnnotationKey for CulturalStructure {
    open spec fn spec_tag_key() -> Seq<char> {
        "cultural_structure"@
    }

    open spec fn spec_channel() -> AnnotationChannel {
        AnnotationChannel::Theory
    }

    fn tag_key() -> (r: &'static str) {
        "cultural_structure"
    }

    fn channel() -> (r: AnnotationChannel) {
        AnnotationChannel::Theory
    }
}

impl AnnotationKey for SurvivranceMode {
    open spec fn spec_tag_key() -> Seq<char> {
        "survivrance"@
    }

    open spec fn spec_channel() -> AnnotationChannel {
        AnnotationChannel::Theory
    }

    fn tag_key() -> (r: &'static str) {
        "survivrance"
    }

    fn channel() -> (r: AnnotationChannel) {
        AnnotationChannel::Theory
    }
}

impl AnnotationKey for QueerTimeMode {
    open spec fn spec_tag_key() -> Seq<char> {
        "queer_time"@
    }

    open spec fn spec_channel() -> AnnotationChannel {
        AnnotationChannel::Theory
    }

    fn tag_key() -> (r: &'static str) {
        "queer_time"
    }

    fn channel() -> (r: AnnotationChannel) {
        AnnotationChannel::Theory
    }
}

impl AnnotationKey for DisabilityRepMode {
    open spec fn spec_tag_key() -> Seq<char> {
        "disability_rep"@
    }

    open spec fn spec_channel() -> AnnotationChannel {
        AnnotationChannel::Theory
    }

    fn tag_key() -> (r: &'static str) {
        "disability_rep"
    }

    fn channel() -> (r: AnnotationChannel) {
        AnnotationChannel::Theory
    }
}

impl AnnotationKey for AffectMode {
    open spec fn spec_tag_key() -> Seq<char> {
        "affect"@
    }

    open spec fn spec_channel() -> AnnotationChannel {
        AnnotationChannel::Theory
    }

    fn tag_key() -> (r: &'static str) {
        "affect"
    }

    fn channel() -> (r: AnnotationChannel) {
        AnnotationChannel::Theory
    }
}

impl AnnotationKey for TransitivityProcess {
    open spec fn spec_tag_key() -> Seq<char> {
        "transitivity"@
    }

    open spec fn spec_channel() -> AnnotationChannel {
        AnnotationChannel::Theory
    }

    fn tag_key() -> (r: &'static str) {
        "transitivity"
    }

    fn channel() -> (r: AnnotationChannel) {
        AnnotationChannel::Theory
    }
}

impl AnnotationKey for SignType {
    open spec fn spec_tag_key() -> Seq<char> {
        "sign_type"@
    }

    open spec fn spec_channel() -> AnnotationChannel {
        AnnotationChannel::Theory
    }

    fn tag_key() -> (r: &'static str) {
        "sign_type"
    }

    fn channel() -> (r: AnnotationChannel) {
        AnnotationChannel::Theory
    }
}

impl AnnotationKey for YaNarratorType {
    open spec fn spec_tag_key() -> Seq<char> {
        "ya_narrator"@
    }

    open spec fn spec_channel() -> AnnotationChannel {
        AnnotationChannel::Theory
    }

    fn tag_key() -> (r: &'static str) {
        "ya_narrator"
    }

    fn channel() -> (r: AnnotationChannel) {
        AnnotationChannel::Theory
    }
}

impl AnnotationKey for FreudianMechanism {
    open spec fn spec_tag_key() -> Seq<char> {
        "freudian"@
    }

    open spec fn spec_channel() -> AnnotationChannel {
        AnnotationChannel::Theory
    }

    fn tag_key() -> (r: &'static str) {
        "freudian"
    }

    fn channel() -> (r: AnnotationChannel) {
        AnnotationChannel::Theory
    }
}

impl AnnotationKey for LacanRegister {
    open spec fn spec_tag_key() -> Seq<char> {
        "lacan_register"@
    }

    open spec fn spec_channel() -> AnnotationChannel {
        AnnotationChannel::Theory
    }

    fn tag_key() -> (r: &'static str) {
        "lacan_register"
    }

    fn channel() -> (r: AnnotationChannel) {
        AnnotationChannel::Theory
    }
}

impl AnnotationKey for AbjectCategory {
    open spec fn spec_tag_key() -> Seq<char> {
        "abject"@
    }

    open spec fn spec_channel() -> AnnotationChannel {
        AnnotationChannel::Theory
    }

    fn tag_key() -> (r: &'static str) {
        "abject"
    }

    fn channel() -> (r: AnnotationChannel) {
        AnnotationChannel::Theory
    }
}

impl AnnotationKey for PostcolonialMode {
    open spec fn spec_tag_key() -> Seq<char> {
        "postcolonial"@
    }

    open spec fn spec_channel() -> AnnotationChannel {
        AnnotationChannel::Theory
    }

    fn tag_key() -> (r: &'static str) {
        "postcolonial"
    }

    fn channel() -> (r: AnnotationChannel) {
        AnnotationChannel::Theory
    }
}

impl AnnotationKey for EcocriticalMode {
    open spec fn spec_tag_key() -> Seq<char> {
        "ecocritical"@
    }

    open spec fn spec_channel() -> AnnotationChannel {
        AnnotationChannel::Theory
    }

    fn tag_key() -> (r: &'static str) {
        "ecocritical"
    }

    fn channel() -> (r: AnnotationChannel) {
        AnnotationChannel::Theory
    }
}

impl AnnotationKey for SemioticSquarePosition {
    open spec fn spec_tag_key() -> Seq<char> {
        "semiotic_pos"@
    }

    open spec fn spec_channel() -> AnnotationChannel {
        AnnotationChannel::Theory
    }

    fn tag_key() -> (r: &'static str) {
        "semiotic_pos"
    }

    fn channel() -> (r: AnnotationChannel) {
        AnnotationChannel::Theory
    }
}

impl AnnotationKey for ExperimentalNarrationMode {
    open spec fn spec_tag_key() -> Seq<char> {
        "experimental"@
    }

    open spec fn spec_channel() -> AnnotationChannel {
        AnnotationChannel::Theory
    }

    fn tag_key() -> (r: &'static str) {
        "experimental"
    }

    fn channel() -> (r: AnnotationChannel) {
        AnnotationChannel::Theory
    }
}

impl AnnotationKey for PosthumanMode {
    open spec fn spec_tag_key() -> Seq<char> {
        "posthuman"@
    }

    open spec fn spec_channel() -> AnnotationChannel {
        AnnotationChannel::Theory
    }

    fn tag_key() -> (r: &'static str) {
        "posthuman"
    }

    fn channel() -> (r: AnnotationChannel) {
        AnnotationChannel::Theory
    }
}

impl AnnotationKey for MarxistNarrativeMode {
    open spec fn spec_tag_key() -> Seq<char> {
        "marxist_mode"@
    }

    open spec fn spec_channel() -> AnnotationChannel {
        AnnotationChannel::Theory
    }

    fn tag_key() -> (r: &'static str) {
        "marxist_mode"
    }

    fn channel() -> (r: AnnotationChannel) {
        AnnotationChannel::Theory
    }
}

impl AnnotationKey for FeministNarrativeType {
    open spec fn spec_tag_key() -> Seq<char> {
        "feminist"@
    }

    open spec fn spec_channel() -> AnnotationChannel {
        AnnotationChannel::Theory
    }

    fn tag_key() -> (r: &'static str) {
        "feminist"
    }

    fn channel() -> (r: AnnotationChannel) {
        AnnotationChannel::Theory
    }
}

impl AnnotationKey for SignifyingMode {
    open spec fn spec_tag_key() -> Seq<char> {
        "signifying"@
    }

    open spec fn spec_channel() -> AnnotationChannel {
        AnnotationChannel::Theory
    }

    fn tag_key() -> (r: &'static str) {
        "signifying"
    }

    fn channel() -> (r: AnnotationChannel) {
        AnnotationChannel::Theory
    }
}

impl AnnotationKey for CognitiveNarrativeMode {
    open spec fn spec_tag_key() -> Seq<char> {
        "cognitive"@
    }

    open spec fn spec_channel() -> AnnotationChannel {
        AnnotationChannel::Theory
    }

    fn tag_key() -> (r: &'static str) {
        "cognitive"
    }

    fn channel() -> (r: AnnotationChannel) {
        AnnotationChannel::Theory
    }
}

impl AnnotationKey for ProppFunction {
    open spec fn spec_tag_key() -> Seq<char> {
        "propp"@
    }

    open spec fn spec_channel() -> AnnotationChannel {
        AnnotationChannel::Theory
    }

    fn tag_key() -> (r: &'static str) {
        "propp"
    }

    fn channel() -> (r: AnnotationChannel) {
        AnnotationChannel::Theory
    }
}

impl AnnotationKey for PerformativityMode {
    open spec fn spec_tag_key() -> Seq<char> {
        "performativity"@
    }

    open spec fn spec_channel() -> AnnotationChannel {
        AnnotationChannel::Theory
    }

    fn tag_key() -> (r: &'static str) {
        "performativity"
    }

    fn channel() -> (r: AnnotationChannel) {
        AnnotationChannel::Theory
    }
}

impl AnnotationKey for AutofictionMode {
    open spec fn spec_tag_key() -> Seq<char> {
        "autofiction"@
    }

    open spec fn spec_channel() -> AnnotationChannel {
        AnnotationChannel::Theory
    }

    fn tag_key() -> (r: &'static str) {
        "autofiction"
    }

    fn channel() -> (r: AnnotationChannel) {
        AnnotationChannel::Theory
    }
}

impl AnnotationKey for NarrativeEthicsMode {
    open spec fn spec_tag_key() -> Seq<char> {
        "narrative_ethics"@
    }

    open spec fn spec_channel() -> AnnotationChannel {
        AnnotationChannel::Theory
    }

    fn tag_key() -> (r: &'static str) {
        "narrative_ethics"
    }

    fn channel() -> (r: AnnotationChannel) {
        AnnotationChannel::Theory
    }
}

impl AnnotationKey for JenkinsTransmediaType {
    open spec fn spec_tag_key() -> Seq<char> {
        "transmedia"@
    }

    open spec fn spec_channel() -> AnnotationChannel {
        AnnotationChannel::Theory
    }

    fn tag_key() -> (r: &'static str) {
        "transmedia"
    }

    fn channel() -> (r: AnnotationChannel) {
        AnnotationChannel::Theory
    }
}

impl AnnotationKey for AccessibilityRelation {
    open spec fn spec_tag_key() -> Seq<char> {
        "accessibility"@
    }

    open spec fn spec_channel() -> AnnotationChannel {
        AnnotationChannel::Theory
    }

    fn tag_key() -> (r: &'static str) {
        "accessibility"
    }

    fn channel() -> (r: AnnotationChannel) {
        AnnotationChannel::Theory
    }
}

impl AnnotationKey for AdaptationMode {
    open spec fn spec_tag_key() -> Seq<char> {
        "adaptation"@
    }

    open spec fn spec_channel() -> AnnotationChannel {
        AnnotationChannel::Theory
    }

    fn tag_key() -> (r: &'static str) {
        "adaptation"
    }

    fn channel() -> (r: AnnotationChannel) {
        AnnotationChannel::Theory
    }
}

impl AnnotationKey for MultilingualStrategy {
    open spec fn spec_tag_key() -> Seq<char> {
        "multilingual"@
    }

    open spec fn spec_channel() -> AnnotationChannel {
        AnnotationChannel::Theory
    }

    fn tag_key() -> (r: &'static str) {
        "multilingual"
    }

    fn channel() -> (r: AnnotationChannel) {
        AnnotationChannel::Theory
    }
}

impl AnnotationKey for PanelTransitionType {
    open spec fn spec_tag_key() -> Seq<char> {
        "panel_transition"@
    }

    open spec fn spec_channel() -> AnnotationChannel {
        AnnotationChannel::Theory
    }

    fn tag_key() -> (r: &'static str) {
        "panel_transition"
    }

    fn channel() -> (r: AnnotationChannel) {
        AnnotationChannel::Theory
    }
}

impl AnnotationKey for StoryworkProtocol {
    open spec fn spec_tag_key() -> Seq<char> {
        "storywork"@
    }

    open spec fn spec_channel() -> AnnotationChannel {
        AnnotationChannel::Theory
    }

    fn tag_key() -> (r: &'static str) {
        "storywork"
    }

    fn channel() -> (r: AnnotationChannel) {
        AnnotationChannel::Theory
    }
}

impl AnnotationKey for TranslationStrategy {
    open spec fn spec_tag_key() -> Seq<char> {
        "translation"@
    }

    open spec fn spec_channel() -> AnnotationChannel {
        AnnotationChannel::Theory
    }

    fn tag_key() -> (r: &'static str) {
        "translation"
    }

    fn channel() -> (r: AnnotationChannel) {
        AnnotationChannel::Theory
    }
}

impl AnnotationKey for VisualVerbalRelation {
    open spec fn spec_tag_key() -> Seq<char> {
        "visual_verbal"@
    }

    open spec fn spec_channel() -> AnnotationChannel {
        AnnotationChannel::Theory
    }

    fn tag_key() -> (r: &'static str) {
        "visual_verbal"
    }

    fn channel() -> (r: AnnotationChannel) {
        AnnotationChannel::Theory
    }
}

impl AnnotationKey for RevisionFlag {
    open spec fn spec_tag_key() -> Seq<char> {
        "flag"@
    }

    open spec fn spec_channel() -> AnnotationChannel {
        AnnotationChannel::Governance
    }

    fn tag_key() -> (r: &'static str) {
        "flag"
    }

    fn channel() -> (r: AnnotationChannel) {
        AnnotationChannel::Governance
    }
}

impl AnnotationKey for RevisionPassType {
    open spec fn spec_tag_key() -> Seq<char> {
        "revision_pass"@
    }

    open spec fn spec_channel() -> AnnotationChannel {
        AnnotationChannel::Governance
    }

    fn tag_key() -> (r: &'static str) {
        "revision_pass"
    }

    fn channel() -> (r: AnnotationChannel) {
        AnnotationChannel::Governance
    }
}

impl AnnotationKey for ParatextZone {
    open spec fn spec_tag_key() -> Seq<char> {
        "paratext_zone"@
    }

    open spec fn spec_channel() -> AnnotationChannel {
        AnnotationChannel::Governance
    }

    fn tag_key() -> (r: &'static str) {
        "paratext_zone"
    }

    fn channel() -> (r: AnnotationChannel) {
        AnnotationChannel::Governance
    }
}

impl AnnotationKey for PactType {
    open spec fn spec_tag_key() -> Seq<char> {
        "pact"@
    }

    open spec fn spec_channel() -> AnnotationChannel {
        AnnotationChannel::Craft
    }

    fn tag_key() -> (r: &'static str) {
        "pact"
    }

    fn channel() -> (r: AnnotationChannel) {
        AnnotationChannel::Craft
    }
}

impl AnnotationKey for GazeType {
    open spec fn spec_tag_key() -> Seq<char> {
        "gaze"@
    }

    open spec fn spec_channel() -> AnnotationChannel {
        AnnotationChannel::Craft
    }

    fn tag_key() -> (r: &'static str) {
        "gaze"
    }

    fn channel() -> (r: AnnotationChannel) {
        AnnotationChannel::Craft
    }
}

impl AnnotationKey for EthicsAuditCategory {
    open spec fn spec_tag_key() -> Seq<char> {
        "ethics"@
    }

    open spec fn spec_channel() -> AnnotationChannel {
        AnnotationChannel::Theory
    }

    fn tag_key() -> (r: &'static str) {
        "ethics"
    }

    fn channel() -> (r: AnnotationChannel) {
        AnnotationChannel::Theory
    }
}

impl AnnotationKey for JakobsonFunction {
    open spec fn spec_tag_key() -> Seq<char> {
        "jakobson"@
    }

    open spec fn spec_channel() -> AnnotationChannel {
        AnnotationChannel::Theory
    }

    fn tag_key() -> (r: &'static str) {
        "jakobson"
    }

    fn channel() -> (r: AnnotationChannel) {
        AnnotationChannel::Theory
    }
}

impl AnnotationKey for DriveModel {
    open spec fn spec_tag_key() -> Seq<char> {
        "drive_model"@
    }

    open spec fn spec_channel() -> AnnotationChannel {
        AnnotationChannel::Context
    }

    fn tag_key() -> (r: &'static str) {
        "drive_model"
    }

    fn channel() -> (r: AnnotationChannel) {
        AnnotationChannel::Context
    }
}

impl AnnotationKey for Actant {
    open spec fn spec_tag_key() -> Seq<char> {
        "actant"@
    }

    open spec fn spec_channel() -> AnnotationChannel {
        AnnotationChannel::Context
    }

    fn tag_key() -> (r: &'static str) {
        "actant"
    }

    fn channel() -> (r: AnnotationChannel) {
        AnnotationChannel::Context
    }
}

impl AnnotationKey for ConsciousnessMode {
    open spec fn spec_tag_key() -> Seq<char> {
        "consciousness"@
    }

    open spec fn spec_channel() -> AnnotationChannel {
        AnnotationChannel::Craft
    }

    fn tag_key() -> (r: &'static str) {
        "consciousness"
    }

    fn channel() -> (r: AnnotationChannel) {
        AnnotationChannel::Craft
    }
}

/// The channel that the tag key of an annotation's vocabulary is filed
/// under, for the annotations that carry a vocabulary term.
pub open spec fn key_channel(a: AnnotationView) -> Option<AnnotationChannel> {
    match a {
        AnnotationView::DiegeticLevel(_) => Some(DiegeticLevel::spec_channel()),
        AnnotationView::DriveModel(_) => Some(DriveModel::spec_channel()),
        AnnotationView::Actant(_) => Some(Actant::spec_channel()),
        AnnotationView::Consciousness(_) => Some(ConsciousnessMode::spec_channel()),
        AnnotationView::SpeechAct(_) => Some(SpeechAct::spec_channel()),
        AnnotationView::Gaze(_) => Some(GazeType::spec_channel()),
        AnnotationView::Pact(_) => Some(PactType::spec_channel()),
        AnnotationView::Flag(_) => Some(RevisionFlag::spec_channel()),
        AnnotationView::ParatextZone(_) => Some(ParatextZone::spec_channel()),
        AnnotationView::TemporalOrder(_) => Some(TemporalOrder::spec_channel()),
        AnnotationView::TemporalDuration(_) => Some(TemporalDuration::spec_channel()),
        AnnotationView::TemporalFrequency(_) => Some(TemporalFrequency::spec_channel()),
        AnnotationView::ReaderEffect(_) => Some(ReaderExperienceEffect::spec_channel()),
        AnnotationView::Intertextual(_) => Some(IntertextualRelation::spec_channel()),
        AnnotationView::BloomMode(_) => Some(BloomInfluenceMode::spec_channel()),
        AnnotationView::Metaphor(_) => Some(MetaphorType::spec_channel()),
        AnnotationView::Irony(_) => Some(IronyType::spec_channel()),
        AnnotationView::Comic(_) => Some(ComicMode::spec_channel()),
        AnnotationView::ComedyGrounds(_) => Some(ComedyTheory::spec_channel()),
        AnnotationView::TraumaMode(_) => Some(TraumaMode::spec_channel()),
        AnnotationView::RecoveryStage(_) => Some(HermanRecoveryStage::spec_channel()),
        AnnotationView::PentadElement(_) => Some(PentadElement::spec_channel()),
        AnnotationView::PentadRatio(_) => Some(PentadRatio::spec_channel()),
        AnnotationView::BurkeForm(_) => Some(BurkeFormType::spec_channel()),
        AnnotationView::Emplotment(_) => Some(EmplotmentType::spec_channel()),
        AnnotationView::Mimesis(_) => Some(MimesisPhase::spec_channel()),
        AnnotationView::SpatialPractice(_) => Some(SpatialPractice::spec_channel()),
        AnnotationView::EthicsCategory(_) => Some(EthicsAuditCategory::spec_channel()),
        AnnotationView::CulturalStructure(_) => Some(CulturalStructure::spec_channel()),
        AnnotationView::SurvivranceMode(_) => Some(SurvivranceMode::spec_channel()),
        AnnotationView::QueerTime(_) => Some(QueerTimeMode::spec_channel()),
        AnnotationView::DisabilityRep(_) => Some(DisabilityRepMode::spec_channel()),
        AnnotationView::AffectMode(_) => Some(AffectMode::spec_channel()),
        AnnotationView::Transitivity(_) => Some(TransitivityProcess::spec_channel()),
        AnnotationView::JakobsonFn(_) => Some(JakobsonFunction::spec_channel()),
        AnnotationView::Sign(_) => Some(SignType::spec_channel()),
        AnnotationView::YaNarrator(_) => Some(YaNarratorType::spec_channel()),
        AnnotationView::RevisionPass(_) => Some(RevisionPassType::spec_channel()),
        AnnotationView::SerialArc(_) => Some(SerialArcType::spec_channel()),
        AnnotationView::FreudianMechanism(_) => Some(FreudianMechanism::spec_channel()),
        AnnotationView::LacanRegister(_) => Some(LacanRegister::spec_channel()),
        AnnotationView::Abject(_) => Some(AbjectCategory::spec_channel()),
        AnnotationView::PostcolonialMode(_) => Some(PostcolonialMode::spec_channel()),
        AnnotationView::EcocriticalMode(_) => Some(EcocriticalMode::spec_channel()),
        AnnotationView::ImageSchema(_) => Some(ImageSchema::spec_channel()),
        AnnotationView::Defamiliarization(_) => Some(DefamiliarizationMode::spec_channel()),
        AnnotationView::SemioticPosition(_) => Some(SemioticSquarePosition::spec_channel()),
        AnnotationView::ExperimentalMode(_) => Some(ExperimentalNarrationMode::spec_channel()),
        AnnotationView::PosthumanMode(_) => Some(PosthumanMode::spec_channel()),
        AnnotationView::MarxistMode(_) => Some(MarxistNarrativeMode::spec_channel()),
        AnnotationView::FeministNarrative(_) => Some(FeministNarrativeType::spec_channel()),
        AnnotationView::Signifying(_) => Some(SignifyingMode::spec_channel()),
        AnnotationView::CognitiveModeTag(_) => Some(CognitiveNarrativeMode::spec_channel()),
        AnnotationView::ProsodicElement(_) => Some(ProsodicElement::spec_channel()),
        AnnotationView::ProppFunction(_) => Some(ProppFunction::spec_channel()),
        AnnotationView::Performativity(_) => Some(PerformativityMode::spec_channel()),
        AnnotationView::AutofictionMode(_) => Some(AutofictionMode::spec_channel()),
        AnnotationView::NarrativeEthics(_) => Some(NarrativeEthicsMode::spec_channel()),
        AnnotationView::TransmediaType(_) => Some(JenkinsTransmediaType::spec_channel()),
        AnnotationView::AccessibilityRelation(_) => Some(AccessibilityRelation::spec_channel()),
        AnnotationView::Adaptation(_) => Some(AdaptationMode::spec_channel()),
        AnnotationView::GriceanMaxim(_) => Some(GriceanMaxim::spec_channel()),
        AnnotationView::IntimateSpace(_) => Some(IntimateSpaceType::spec_channel()),
        AnnotationView::Multilingual(_) => Some(MultilingualStrategy::spec_channel()),
        AnnotationView::PanelTransition(_) => Some(PanelTransitionType::spec_channel()),
        AnnotationView::Storywork(_) => Some(StoryworkProtocol::spec_channel()),
        AnnotationView::TranslationStrategy(_) => Some(TranslationStrategy::spec_channel()),
        AnnotationView::VisualVerbal(_) => Some(VisualVerbalRelation::spec_channel()),
        AnnotationView::GenreReading(_) => Some(GenreReadingMode::spec_channel()),
        AnnotationView::SceneFunction(_) => Some(SceneFunction::spec_channel()),
        AnnotationView::Conflict(_) => Some(ConflictType::spec_channel()),
        AnnotationView::Arc(_) => Some(ArcType::spec_channel()),
        AnnotationView::ArcPattern(_) => Some(ArcPattern::spec_channel()),
        AnnotationView::Outcome(_) => Some(OutcomeType::spec_channel()),
        AnnotationView::DominantSense(_) => Some(DominantSense::spec_channel()),
        AnnotationView::TimeOfDay(_) => Some(TimeOfDay::spec_channel()),
        AnnotationView::Weather(_) => Some(Weather::spec_channel()),
        AnnotationView::WorldDelivery(_) => Some(WorldDeliveryMethod::spec_channel()),
        AnnotationView::Pov(_) => Some(PovType::spec_channel()),
        AnnotationView::FocalizationType(_) => Some(FocalizationType::spec_channel()),
        AnnotationView::Knowledge(_) => Some(KnowledgeScope::spec_channel()),
        AnnotationView::Reliability(_) => Some(ReliabilitySpectrum::spec_channel()),
        AnnotationView::Engagement(_) => Some(EngagementMode::spec_channel()),
        AnnotationView::Distance(_) => Some(NarrativeDistance::spec_channel()),
        AnnotationView::Voice(_) => Some(VoiceStructure::spec_channel()),
        AnnotationView::SentenceLength(_) => Some(SentenceLength::spec_channel()),
        AnnotationView::SentenceType(_) => Some(SentenceType::spec_channel()),
        AnnotationView::SentenceArch(_) => Some(SentenceArchitecture::spec_channel()),
        AnnotationView::Vocabulary(_) => Some(VocabularyLevel::spec_channel()),
        AnnotationView::Profanity(_) => Some(ProfanityLevel::spec_channel()),
        AnnotationView::OpeningType(_) => Some(OpeningType::spec_channel()),
        AnnotationView::QuestionDelivery(_) => Some(QuestionDelivery::spec_channel()),
        AnnotationView::Complexity(_) => Some(Complexity::spec_channel()),
        AnnotationView::Displacement(_) => Some(DisplacementGap::spec_channel()),
        AnnotationView::NonResponse(_) => Some(NonResponseType::spec_channel()),
        _ => None,
    }
}

/// The channel of an annotation is the one its vocabulary's tag key is filed
/// under: the key table and [`Annotation::channel`] agree.
pub proof fn lemma_channel_follows_key(a: AnnotationView)
    ensures
        key_channel(a) matches Some(c) ==> a.channel() == c,
{
}

proof fn lemma_channels_partition(s: Seq<AnnotationView>)
    ensures
        s.filter(|a: AnnotationView| a.channel() == AnnotationChannel::Context).len()
            + s.filter(|a: AnnotationView| a.channel() == AnnotationChannel::Craft).len()
            + s.filter(|a: AnnotationView| a.channel() == AnnotationChannel::Theory).len()
            + s.filter(|a: AnnotationView| a.channel() == AnnotationChannel::Governance).len()
            == s.len(),
    decreases s.len(),
{
    reveal(Seq::filter);
    if s.len() > 0 {
        lemma_channels_partition(s.drop_last());
    }
}

/// The channel queries split a paragraph's extras: the context, craft and
/// theory extras and the governance extras together number exactly the
/// extras.
pub proof fn lemma_extras_partition(p: ParagraphAnnotationsView)
    ensures
        p.extra.filter(|a: AnnotationView| a.channel() == AnnotationChannel::Context).len()
            + p.extra.filter(|a: AnnotationView| a.channel() == AnnotationChannel::Craft).len()
            + p.extra.filter(|a: AnnotationView| a.channel() == AnnotationChannel::Theory).len()
            + p.extra.filter(|a: AnnotationView| a.channel() == AnnotationChannel::Governance).len()
            == p.extra.len(),
{
    lemma_channels_partition(p.extra);
}

/// The value of the last annotation of a run that sets `consciousness`, if any.
pub open spec fn last_consciousness(s: Seq<AnnotationView>) -> Option<ConsciousnessMode>
    decreases s.len(),
{
    if s.len() == 0 {
        None
    } else {
        match s.last() {
            AnnotationView::Consciousness(v) => Some(v),
            _ => last_consciousness(s.drop_last()),
        }
    }
}

/// A paragraph's `consciousness` is that of the last annotation of the run that sets
/// it: a later annotation of the same type overrides an earlier one.
pub proof fn lemma_last_consciousness_holds(s: Seq<AnnotationView>)
    ensures
        resolved(s).consciousness == last_consciousness(s),
    decreases s.len(),
{
    if s.len() > 0 {
        lemma_last_consciousness_holds(s.drop_last());
    }
}

/// The value of the last annotation of a run that sets `subtext`, if any.
pub open spec fn last_subtext(s: Seq<AnnotationView>) -> Option<Seq<char>>
    decreases s.len(),
{
    if s.len() == 0 {
        None
    } else {
        match s.last() {
            AnnotationView::Subtext(v) => Some(v),
            _ => last_subtext(s.drop_last()),
        }
    }
}

/// A paragraph's `subtext` is that of the last annotation of the run that sets
/// it: a later annotation of the same type overrides an earlier one.
pub proof fn lemma_last_subtext_holds(s: Seq<AnnotationView>)
    ensures
        resolved(s).subtext == last_subtext(s),
    decreases s.len(),
{
    if s.len() > 0 {
        lemma_last_subtext_holds(s.drop_last());
    }
}

/// The value of the last annotation of a run that sets `speech_act`, if any.
pub open spec fn last_speech_act(s: Seq<AnnotationView>) -> Option<SpeechAct>
    decreases s.len(),
{
    if s.len() == 0 {
        None
    } else {
        match s.last() {
            AnnotationView::SpeechAct(v) => Some(v),
            _ => last_speech_act(s.drop_last()),
        }
    }
}

/// A paragraph's `speech_act` is that of the last annotation of the run that sets
/// it: a later annotation of the same type overrides an earlier one.
pub proof fn lemma_last_speech_act_holds(s: Seq<AnnotationView>)
    ensures
        resolved(s).speech_act == last_speech_act(s),
    decreases s.len(),
{
    if s.len() > 0 {
        lemma_last_speech_act_holds(s.drop_last());
    }
}

/// The value of the last annotation of a run that sets `gaze`, if any.
pub open spec fn last_gaze(s: Seq<AnnotationView>) -> Option<GazeType>
    decreases s.len(),
{
    if s.len() == 0 {
        None
    } else {
        match s.last() {
            AnnotationView::Gaze(v) => Some(v),
            _ => last_gaze(s.drop_last()),
        }
    }
}

/// A paragraph's `gaze` is that of the last annotation of the run that sets
/// it: a later annotation of the same type overrides an earlier one.
pub proof fn lemma_last_gaze_holds(s: Seq<AnnotationView>)
    ensures
        resolved(s).gaze == last_gaze(s),
    decreases s.len(),
{
    if s.len() > 0 {
        lemma_last_gaze_holds(s.drop_last());
    }
}

/// The value of the last annotation of a run that sets `dominant_sense`, if any.
pub open spec fn last_dominant_sense(s: Seq<AnnotationView>) -> Option<DominantSense>
    decreases s.len(),
{
    if s.len() == 0 {
        None
    } else {
        match s.last() {
            AnnotationView::DominantSense(v) => Some(v),
            _ => last_dominant_sense(s.drop_last()),
        }
    }
}

/// A paragraph's `dominant_sense` is that of the last annotation of the run that sets
/// it: a later annotation of the same type overrides an earlier one.
pub proof fn lemma_last_dominant_sense_holds(s: Seq<AnnotationView>)
    ensures
        resolved(s).dominant_sense == last_dominant_sense(s),
    decreases s.len(),
{
    if s.len() > 0 {
        lemma_last_dominant_sense_holds(s.drop_last());
    }
}

/// The value of the last annotation of a run that sets `pov`, if any.
pub open spec fn last_pov(s: Seq<AnnotationView>) -> Option<PovType>
    decreases s.len(),
{
    if s.len() == 0 {
        None
    } else {
        match s.last() {
            AnnotationView::Pov(v) => Some(v),
            _ => last_pov(s.drop_last()),
        }
    }
}

/// A paragraph's `pov` is that of the last annotation of the run that sets
/// it: a later annotation of the same type overrides an earlier one.
pub proof fn lemma_last_pov_holds(s: Seq<AnnotationView>)
    ensures
        resolved(s).pov == last_pov(s),
    decreases s.len(),
{
    if s.len() > 0 {
        lemma_last_pov_holds(s.drop_last());
    }
}

/// The value of the last annotation of a run that sets `focalization_type`, if any.
pub open spec fn last_focalization_type(s: Seq<AnnotationView>) -> Option<FocalizationType>
    decreases s.len(),
{
    if s.len() == 0 {
        None
    } else {
        match s.last() {
            AnnotationView::FocalizationType(v) => Some(v),
            _ => last_focalization_type(s.drop_last()),
        }
    }
}

/// A paragraph's `focalization_type` is that of the last annotation of the run that sets
/// it: a later annotation of the same type overrides an earlier one.
pub proof fn lemma_last_focalization_type_holds(s: Seq<AnnotationView>)
    ensures
        resolved(s).focalization_type == last_focalization_type(s),
    decreases s.len(),
{
    if s.len() > 0 {
        lemma_last_focalization_type_holds(s.drop_last());
    }
}

/// The value of the last annotation of a run that sets `beat`, if any.
pub open spec fn last_beat(s: Seq<AnnotationView>) -> Option<Seq<char>>
    decreases s.len(),
{
    if s.len() == 0 {
        None
    } else {
        match s.last() {
            AnnotationView::Beat(v) => Some(v),
            _ => last_beat(s.drop_last()),
        }
    }
}

/// A paragraph's `beat` is that of the last annotation of the run that sets
/// it: a later annotation of the same type overrides an earlier one.
pub proof fn lemma_last_beat_holds(s: Seq<AnnotationView>)
    ensures
        resolved(s).beat == last_beat(s),
    decreases s.len(),
{
    if s.len() > 0 {
        lemma_last_beat_holds(s.drop_last());
    }
}

/// The value of the last annotation of a run that sets `motif`, if any.
pub open spec fn last_motif(s: Seq<AnnotationView>) -> Option<Seq<char>>
    decreases s.len(),
{
    if s.len() == 0 {
        None
    } else {
        match s.last() {
            AnnotationView::Motif { slug: v, .. } => Some(v),
            _ => last_motif(s.drop_last()),
        }
    }
}

/// A paragraph's `motif` is that of the last annotation of the run that sets
/// it: a later annotation of the same type overrides an earlier one.
pub proof fn lemma_last_motif_holds(s: Seq<AnnotationView>)
    ensures
        resolved(s).motif == last_motif(s),
    decreases s.len(),
{
    if s.len() > 0 {
        lemma_last_motif_holds(s.drop_last());
    }
}

/// The value of the last annotation of a run that sets `motif_stage`, if any.
pub open spec fn last_motif_stage(s: Seq<AnnotationView>) -> Option<MotifStage>
    decreases s.len(),
{
    if s.len() == 0 {
        None
    } else {
        match s.last() {
            AnnotationView::Motif { stage: Some(v), .. } => Some(v),
            _ => last_motif_stage(s.drop_last()),
        }
    }
}

/// A paragraph's `motif_stage` is that of the last annotation of the run that sets
/// it: a later annotation of the same type overrides an earlier one.
pub proof fn lemma_last_motif_stage_holds(s: Seq<AnnotationView>)
    ensures
        resolved(s).motif_stage == last_motif_stage(s),
    decreases s.len(),
{
    if s.len() > 0 {
        lemma_last_motif_stage_holds(s.drop_last());
    }
}

/// The value of the last annotation of a run that sets `scene_function`, if any.
pub open spec fn last_scene_function(s: Seq<AnnotationView>) -> Option<SceneFunction>
    decreases s.len(),
{
    if s.len() == 0 {
        None
    } else {
        match s.last() {
            AnnotationView::SceneFunction(v) => Some(v),
            _ => last_scene_function(s.drop_last()),
        }
    }
}

/// A paragraph's `scene_function` is that of the last annotation of the run that sets
/// it: a later annotation of the same type overrides an earlier one.
pub proof fn lemma_last_scene_function_holds(s: Seq<AnnotationView>)
    ensures
        resolved(s).scene_function == last_scene_function(s),
    decreases s.len(),
{
    if s.len() > 0 {
        lemma_last_scene_function_holds(s.drop_last());
    }
}

/// The value of the last annotation of a run that sets `conflict`, if any.
pub open spec fn last_conflict(s: Seq<AnnotationView>) -> Option<ConflictType>
    decreases s.len(),
{
    if s.len() == 0 {
        None
    } else {
        match s.last() {
            AnnotationView::Conflict(v) => Some(v),
            _ => last_conflict(s.drop_last()),
        }
    }
}

/// A paragraph's `conflict` is that of the last annotation of the run that sets
/// it: a later annotation of the same type overrides an earlier one.
pub proof fn lemma_last_conflict_holds(s: Seq<AnnotationView>)
    ensures
        resolved(s).conflict == last_conflict(s),
    decreases s.len(),
{
    if s.len() > 0 {
        lemma_last_conflict_holds(s.drop_last());
    }
}

/// The value of the last annotation of a run that sets `outcome`, if any.
pub open spec fn last_outcome(s: Seq<AnnotationView>) -> Option<OutcomeType>
    decreases s.len(),
{
    if s.len() == 0 {
        None
    } else {
        match s.last() {
            AnnotationView::Outcome(v) => Some(v),
            _ => last_outcome(s.drop_last()),
        }
    }
}

/// A paragraph's `outcome` is that of the last annotation of the run that sets
/// it: a later annotation of the same type overrides an earlier one.
pub proof fn lemma_last_outcome_holds(s: Seq<AnnotationView>)
    ensures
        resolved(s).outcome == last_outcome(s),
    decreases s.len(),
{
    if s.len() > 0 {
        lemma_last_outcome_holds(s.drop_last());
    }
}

/// The value of the last annotation of a run that sets `temporal_order`, if any.
pub open spec fn last_temporal_order(s: Seq<AnnotationView>) -> Option<TemporalOrder>
    decreases s.len(),
{
    if s.len() == 0 {
        None
    } else {
        match s.last() {
            AnnotationView::TemporalOrder(v) => Some(v),
            _ => last_temporal_order(s.drop_last()),
        }
    }
}

/// A paragraph's `temporal_order` is that of the last annotation of the run that sets
/// it: a later annotation of the same type overrides an earlier one.
pub proof fn lemma_last_temporal_order_holds(s: Seq<AnnotationView>)
    ensures
        resolved(s).temporal_order == last_temporal_order(s),
    decreases s.len(),
{
    if s.len() > 0 {
        lemma_last_temporal_order_holds(s.drop_last());
    }
}

/// The value of the last annotation of a run that sets `reader_effect`, if any.
pub open spec fn last_reader_effect(s: Seq<AnnotationView>) -> Option<ReaderExperienceEffect>
    decreases s.len(),
{
    if s.len() == 0 {
        None
    } else {
        match s.last() {
            AnnotationView::ReaderEffect(v) => Some(v),
            _ => last_reader_effect(s.drop_last()),
        }
    }
}

/// A paragraph's `reader_effect` is that of the last annotation of the run that sets
/// it: a later annotation of the same type overrides an earlier one.
pub proof fn lemma_last_reader_effect_holds(s: Seq<AnnotationView>)
    ensures
        resolved(s).reader_effect == last_reader_effect(s),
    decreases s.len(),
{
    if s.len() > 0 {
        lemma_last_reader_effect_holds(s.drop_last());
    }
}

/// The value of the last annotation of a run that sets `arc_type`, if any.
pub open spec fn last_arc_type(s: Seq<AnnotationView>) -> Option<ArcType>
    decreases s.len(),
{
    if s.len() == 0 {
        None
    } else {
        match s.last() {
            AnnotationView::Arc(v) => Some(v),
            _ => last_arc_type(s.drop_last()),
        }
    }
}

/// A paragraph's `arc_type` is that of the last annotation of the run that sets
/// it: a later annotation of the same type overrides an earlier one.
pub proof fn lemma_last_arc_type_holds(s: Seq<AnnotationView>)
    ensures
        resolved(s).arc_type == last_arc_type(s),
    decreases s.len(),
{
    if s.len() > 0 {
        lemma_last_arc_type_holds(s.drop_last());
    }
}

/// The value of the last annotation of a run that sets `speaker`, if any.
pub open spec fn last_speaker(s: Seq<AnnotationView>) -> Option<Seq<char>>
    decreases s.len(),
{
    if s.len() == 0 {
        None
    } else {
        match s.last() {
            AnnotationView::Speaker { name: v } => Some(v),
            _ => last_speaker(s.drop_last()),
        }
    }
}

/// A paragraph's `speaker` is that of the last annotation of the run that sets
/// it: a later annotation of the same type overrides an earlier one.
pub proof fn lemma_last_speaker_holds(s: Seq<AnnotationView>)
    ensures
        resolved(s).speaker == last_speaker(s),
    decreases s.len(),
{
    if s.len() > 0 {
        lemma_last_speaker_holds(s.drop_last());
    }
}

/// The value of the last annotation of a run that sets `tone`, if any.
pub open spec fn last_tone(s: Seq<AnnotationView>) -> Option<VoiceTone>
    decreases s.len(),
{
    if s.len() == 0 {
        None
    } else {
        match s.last() {
            AnnotationView::Tone(v) => Some(v),
            _ => last_tone(s.drop_last()),
        }
    }
}

/// A paragraph's `tone` is that of the last annotation of the run that sets
/// it: a later annotation of the same type overrides an earlier one.
pub proof fn lemma_last_tone_holds(s: Seq<AnnotationView>)
    ensures
        resolved(s).tone == last_tone(s),
    decreases s.len(),
{
    if s.len() > 0 {
        lemma_last_tone_holds(s.drop_last());
    }
}

/// Does an annotation set a typed field of a paragraph (rather than being
/// kept among the extras)?
pub open spec fn sets_typed_field(a: AnnotationView) -> bool {
    match a {
        AnnotationView::PsychicDistance(_)
        | AnnotationView::Consciousness(_)
        | AnnotationView::Subtext(_)
        | AnnotationView::Tension(_)
        | AnnotationView::SpeechAct(_)
        | AnnotationView::Gaze(_)
        | AnnotationView::DominantSense(_)
        | AnnotationView::Pov(_)
        | AnnotationView::FocalizationType(_)
        | AnnotationView::Beat(_)
        | AnnotationView::SceneFunction(_)
        | AnnotationView::Conflict(_)
        | AnnotationView::Outcome(_)
        | AnnotationView::TemporalOrder(_)
        | AnnotationView::ReaderEffect(_)
        | AnnotationView::Arc(_)
        | AnnotationView::Motif { .. }
        | AnnotationView::Flag(_)
        | AnnotationView::Speaker { .. }
        | AnnotationView::Tone(_) => true,
        _ => false,
    }
}

/// The annotations of a run that set no typed field, in order.
pub open spec fn untyped_of(s: Seq<AnnotationView>) -> Seq<AnnotationView>
    decreases s.len(),
{
    if s.len() == 0 {
        Seq::empty()
    } else if sets_typed_field(s.last()) {
        untyped_of(s.drop_last())
    } else {
        untyped_of(s.drop_last()).push(s.last())
    }
}

/// A paragraph's extras are exactly the annotations of the run that set no
/// typed field, in the order they came.
pub proof fn lemma_extras_kept_in_order(s: Seq<AnnotationView>)
    ensures
        resolved(s).extra == untyped_of(s),
    decreases s.len(),
{
    if s.len() > 0 {
        lemma_extras_kept_in_order(s.drop_last());
    }
}

/// The pair an annotation carrying a vocabulary term is written as,
/// according to its vocabulary's entry in the key table: the table's tag key
/// and the term's snake-case name.
pub open spec fn key_pair(a: AnnotationView) -> Option<PairView> {
    match a {
        AnnotationView::DiegeticLevel(v) => Some((DiegeticLevel::spec_tag_key(), v.spec_name())),
        AnnotationView::DriveModel(v) => Some((DriveModel::spec_tag_key(), v.spec_name())),
        AnnotationView::Actant(v) => Some((Actant::spec_tag_key(), v.spec_name())),
        AnnotationView::Consciousness(v) => Some((ConsciousnessMode::spec_tag_key(), v.spec_name())),
        AnnotationView::SpeechAct(v) => Some((SpeechAct::spec_tag_key(), v.spec_name())),
        AnnotationView::Gaze(v) => Some((GazeType::spec_tag_key(), v.spec_name())),
        AnnotationView::Pact(v) => Some((PactType::spec_tag_key(), v.spec_name())),
        AnnotationView::Flag(v) => Some((RevisionFlag::spec_tag_key(), v.spec_name())),
        AnnotationView::ParatextZone(v) => Some((ParatextZone::spec_tag_key(), v.spec_name())),
        AnnotationView::TemporalOrder(v) => Some((TemporalOrder::spec_tag_key(), v.spec_name())),
        AnnotationView::TemporalDuration(v) => Some((TemporalDuration::spec_tag_key(), v.spec_name())),
        AnnotationView::TemporalFrequency(v) => Some((TemporalFrequency::spec_tag_key(), v.spec_name())),
        AnnotationView::ReaderEffect(v) => Some((ReaderExperienceEffect::spec_tag_key(), v.spec_name())),
        AnnotationView::Intertextual(v) => Some((IntertextualRelation::spec_tag_key(), v.spec_name())),
        AnnotationView::BloomMode(v) => Some((BloomInfluenceMode::spec_tag_key(), v.spec_name())),
        AnnotationView::Metaphor(v) => Some((MetaphorType::spec_tag_key(), v.spec_name())),
        AnnotationView::Irony(v) => Some((IronyType::spec_tag_key(), v.spec_name())),
        AnnotationView::Comic(v) => Some((ComicMode::spec_tag_key(), v.spec_name())),
        AnnotationView::ComedyGrounds(v) => Some((ComedyTheory::spec_tag_key(), v.spec_name())),
        AnnotationView::TraumaMode(v) => Some((TraumaMode::spec_tag_key(), v.spec_name())),
        AnnotationView::RecoveryStage(v) => Some((HermanRecoveryStage::spec_tag_key(), v.spec_name())),
        AnnotationView::PentadElement(v) => Some((PentadElement::spec_tag_key(), v.spec_name())),
        AnnotationView::PentadRatio(v) => Some((PentadRatio::spec_tag_key(), v.spec_name())),
        AnnotationView::BurkeForm(v) => Some((BurkeFormType::spec_tag_key(), v.spec_name())),
        AnnotationView::Emplotment(v) => Some((EmplotmentType::spec_tag_key(), v.spec_name())),
        AnnotationView::Mimesis(v) => Some((MimesisPhase::spec_tag_key(), v.spec_name())),
        AnnotationView::SpatialPractice(v) => Some((SpatialPractice::spec_tag_key(), v.spec_name())),
        AnnotationView::EthicsCategory(v) => Some((EthicsAuditCategory::spec_tag_key(), v.spec_name())),
        AnnotationView::CulturalStructure(v) => Some((CulturalStructure::spec_tag_key(), v.spec_name())),
        AnnotationView::SurvivranceMode(v) => Some((SurvivranceMode::spec_tag_key(), v.spec_name())),
        AnnotationView::QueerTime(v) => Some((QueerTimeMode::spec_tag_key(), v.spec_name())),
        AnnotationView::DisabilityRep(v) => Some((DisabilityRepMode::spec_tag_key(), v.spec_name())),
        AnnotationView::AffectMode(v) => Some((AffectMode::spec_tag_key(), v.spec_name())),
        AnnotationView::Transitivity(v) => Some((TransitivityProcess::spec_tag_key(), v.spec_name())),
        AnnotationView::JakobsonFn(v) => Some((JakobsonFunction::spec_tag_key(), v.spec_name())),
        AnnotationView::Sign(v) => Some((SignType::spec_tag_key(), v.spec_name())),
        AnnotationView::YaNarrator(v) => Some((YaNarratorType::spec_tag_key(), v.spec_name())),
        AnnotationView::RevisionPass(v) => Some((RevisionPassType::spec_tag_key(), v.spec_name())),
        AnnotationView::SerialArc(v) => Some((SerialArcType::spec_tag_key(), v.spec_name())),
        AnnotationView::FreudianMechanism(v) => Some((FreudianMechanism::spec_tag_key(), v.spec_name())),
        AnnotationView::LacanRegister(v) => Some((LacanRegister::spec_tag_key(), v.spec_name())),
        AnnotationView::Abject(v) => Some((AbjectCategory::spec_tag_key(), v.spec_name())),
        AnnotationView::PostcolonialMode(v) => Some((PostcolonialMode::spec_tag_key(), v.spec_name())),
        AnnotationView::EcocriticalMode(v) => Some((EcocriticalMode::spec_tag_key(), v.spec_name())),
        AnnotationView::ImageSchema(v) => Some((ImageSchema::spec_tag_key(), v.spec_name())),
        AnnotationView::Defamiliarization(v) => Some((DefamiliarizationMode::spec_tag_key(), v.spec_name())),
        AnnotationView::SemioticPosition(v) => Some((SemioticSquarePosition::spec_tag_key(), v.spec_name())),
        AnnotationView::ExperimentalMode(v) => Some((ExperimentalNarrationMode::spec_tag_key(), v.spec_name())),
        AnnotationView::PosthumanMode(v) => Some((PosthumanMode::spec_tag_key(), v.spec_name())),
        AnnotationView::MarxistMode(v) => Some((MarxistNarrativeMode::spec_tag_key(), v.spec_name())),
        AnnotationView::FeministNarrative(v) => Some((FeministNarrativeType::spec_tag_key(), v.spec_name())),
        AnnotationView::Signifying(v) => Some((SignifyingMode::spec_tag_key(), v.spec_name())),
        AnnotationView::CognitiveModeTag(v) => Some((CognitiveNarrativeMode::spec_tag_key(), v.spec_name())),
        AnnotationView::ProsodicElement(v) => Some((ProsodicElement::spec_tag_key(), v.spec_name())),
        AnnotationView::ProppFunction(v) => Some((ProppFunction::spec_tag_key(), v.spec_name())),
        AnnotationView::Performativity(v) => Some((PerformativityMode::spec_tag_key(), v.spec_name())),
        AnnotationView::AutofictionMode(v) => Some((AutofictionMode::spec_tag_key(), v.spec_name())),
        AnnotationView::NarrativeEthics(v) => Some((NarrativeEthicsMode::spec_tag_key(), v.spec_name())),
        AnnotationView::TransmediaType(v) => Some((JenkinsTransmediaType::spec_tag_key(), v.spec_name())),
        AnnotationView::AccessibilityRelation(v) => Some((AccessibilityRelation::spec_tag_key(), v.spec_name())),
        AnnotationView::Adaptation(v) => Some((AdaptationMode::spec_tag_key(), v.spec_name())),
        AnnotationView::GriceanMaxim(v) => Some((GriceanMaxim::spec_tag_key(), v.spec_name())),
        AnnotationView::IntimateSpace(v) => Some((IntimateSpaceType::spec_tag_key(), v.spec_name())),
        AnnotationView::Multilingual(v) => Some((MultilingualStrategy::spec_tag_key(), v.spec_name())),
        AnnotationView::PanelTransition(v) => Some((PanelTransitionType::spec_tag_key(), v.spec_name())),
        AnnotationView::Storywork(v) => Some((StoryworkProtocol::spec_tag_key(), v.spec_name())),
        AnnotationView::TranslationStrategy(v) => Some((TranslationStrategy::spec_tag_key(), v.spec_name())),
        AnnotationView::VisualVerbal(v) => Some((VisualVerbalRelation::spec_tag_key(), v.spec_name())),
        AnnotationView::GenreReading(v) => Some((GenreReadingMode::spec_tag_key(), v.spec_name())),
        AnnotationView::SceneFunction(v) => Some((SceneFunction::spec_tag_key(), v.spec_name())),
        AnnotationView::Conflict(v) => Some((ConflictType::spec_tag_key(), v.spec_name())),
        AnnotationView::Arc(v) => Some((ArcType::spec_tag_key(), v.spec_name())),
        AnnotationView::ArcPattern(v) => Some((ArcPattern::spec_tag_key(), v.spec_name())),
        AnnotationView::Outcome(v) => Some((OutcomeType::spec_tag_key(), v.spec_name())),
        AnnotationView::DominantSense(v) => Some((DominantSense::spec_tag_key(), v.spec_name())),
        AnnotationView::TimeOfDay(v) => Some((TimeOfDay::spec_tag_key(), v.spec_name())),
        AnnotationView::Weather(v) => Some((Weather::spec_tag_key(), v.spec_name())),
        AnnotationView::WorldDelivery(v) => Some((WorldDeliveryMethod::spec_tag_key(), v.spec_name())),
        AnnotationView::Pov(v) => Some((PovType::spec_tag_key(), v.spec_name())),
        AnnotationView::FocalizationType(v) => Some((FocalizationType::spec_tag_key(), v.spec_name())),
        AnnotationView::Knowledge(v) => Some((KnowledgeScope::spec_tag_key(), v.spec_name())),
        AnnotationView::Reliability(v) => Some((ReliabilitySpectrum::spec_tag_key(), v.spec_name())),
        AnnotationView::Engagement(v) => Some((EngagementMode::spec_tag_key(), v.spec_name())),
        AnnotationView::Distance(v) => Some((NarrativeDistance::spec_tag_key(), v.spec_name())),
        AnnotationView::Voice(v) => Some((VoiceStructure::spec_tag_key(), v.spec_name())),
        AnnotationView::SentenceLength(v) => Some((SentenceLength::spec_tag_key(), v.spec_name())),
        AnnotationView::SentenceType(v) => Some((SentenceType::spec_tag_key(), v.spec_name())),
        AnnotationView::SentenceArch(v) => Some((SentenceArchitecture::spec_tag_key(), v.spec_name())),
        AnnotationView::Vocabulary(v) => Some((VocabularyLevel::spec_tag_key(), v.spec_name())),
        AnnotationView::Profanity(v) => Some((ProfanityLevel::spec_tag_key(), v.spec_name())),
        AnnotationView::OpeningType(v) => Some((OpeningType::spec_tag_key(), v.spec_name())),
        AnnotationView::QuestionDelivery(v) => Some((QuestionDelivery::spec_tag_key(), v.spec_name())),
        AnnotationView::Complexity(v) => Some((Complexity::spec_tag_key(), v.spec_name())),
        AnnotationView::Displacement(v) => Some((DisplacementGap::spec_tag_key(), v.spec_name())),
        AnnotationView::NonResponse(v) => Some((NonResponseType::spec_tag_key(), v.spec_name())),
        _ => None,
    }
}

/// Every annotation carrying a vocabulary term flattens to a pair, and that
/// pair is the key table's tag key for the vocabulary with the term's name.
pub proof fn lemma_vocabulary_annotations_flatten(a: AnnotationView)
    ensures
        key_pair(a) matches Some(p) ==> pair_of(a) == Some(p),
{
}

} // verus!
