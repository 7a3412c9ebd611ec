//! Parsing `<!-- key:value ... -->` annotation comments into typed
//! [`Annotation`]s.
//!
//! A comment is stripped of its delimiters, split into `key:value` pairs (a
//! value may be double-quoted to hold spaces), and each known tag key is read
//! in a fixed order.  Values that fail to parse become warnings rather than
//! errors, so that unknown tags are tolerated.

use vstd::prelude::*;

use crate::constraints::PairView;
use crate::enums::{
    AbjectCategory,
    AccessibilityRelation,
    Actant,
    AdaptationMode,
    AffectMode,
    ArcPattern,
    ArcType,
    AutofictionMode,
    BloomInfluenceMode,
    BurkeFormType,
    CognitiveNarrativeMode,
    ComedyTheory,
    ComicMode,
    Complexity,
    ConflictType,
    ConsciousnessMode,
    CulturalStructure,
    DefamiliarizationMode,
    DiegeticLevel,
    DisabilityRepMode,
    DisplacementGap,
    DominantSense,
    DriveModel,
    EcocriticalMode,
    EmplotmentType,
    EngagementMode,
    EthicsAuditCategory,
    ExperimentalNarrationMode,
    FeministNarrativeType,
    FocalizationType,
    FreudianMechanism,
    GazeType,
    GenreReadingMode,
    GriceanMaxim,
    HermanRecoveryStage,
    ImageSchema,
    IntertextualRelation,
    IntimateSpaceType,
    IronyType,
    JakobsonFunction,
    JenkinsTransmediaType,
    KnowledgeScope,
    LacanRegister,
    MarxistNarrativeMode,
    MetaphorType,
    MimesisPhase,
    MotifStage,
    MultilingualStrategy,
    NarrativeDistance,
    NarrativeEthicsMode,
    NonResponseType,
    OpeningType,
    OutcomeType,
    PactType,
    PanelTransitionType,
    ParatextZone,
    PentadElement,
    PentadRatio,
    PerformativityMode,
    PostcolonialMode,
    PosthumanMode,
    PovType,
    ProfanityLevel,
    ProppFunction,
    ProsodicElement,
    PsychicDistance,
    QueerTimeMode,
    QuestionDelivery,
    ReaderExperienceEffect,
    ReliabilitySpectrum,
    RevisionFlag,
    RevisionPassType,
    SceneFunction,
    SceneType,
    SemioticSquarePosition,
    SentenceArchitecture,
    SentenceLength,
    SentenceType,
    SerialArcType,
    SignType,
    SignifyingMode,
    SpatialPractice,
    SpeechAct,
    StoryworkProtocol,
    SurvivranceMode,
    TemporalDuration,
    TemporalFrequency,
    TemporalOrder,
    TimeOfDay,
    TransitivityProcess,
    TranslationStrategy,
    TraumaMode,
    VisualVerbalRelation,
    VocabularyLevel,
    VoiceStructure,
    VoiceTone,
    Weather,
    WorldDeliveryMethod,
    YaNarratorType,
};
use crate::ontology::{canonical_tag_key, canonicalize_tag_key, strings_view};
use crate::tags::{
    annotations_view, owned_pairs_view, pair_of, Annotation, AnnotationView, EntityRef, Tension, ThreadId,
    ThreadIdView, thread_text,
};
use crate::text::{
    chars_of, debug_quoted, debug_string, find_char, find_char_in, find_white_space, find_white_space_in, has_prefix,
    lemma_find_char, lemma_find_white_space, lemma_parse_decimal, owned, parse_unsigned, parse_unsigned_str,
    skip_whitespace, str_eq, str_starts_with, string_from_chars, strip_leading, strip_trailing,
    trim, trim_bounds, trim_start,
};
use crate::vocabulary::{lemma_from_name_exact, lemma_parse_name_of_name, parse_name, SnakeName};

verus! {

// ── Comment delimiters ────────────────────────────────────────────────────────

/// The text of an annotation comment inside its delimiters: leading `<`, `!`
/// and `-` runs removed, then the trailing `>` run and the `-` run before it,
/// then whitespace trimmed.
pub open spec fn comment_body(raw: Seq<char>) -> Seq<char> {
    let opened = strip_leading(
        strip_leading(strip_leading(strip_leading(raw, '<'), '!'), '-'),
        '-',
    );
    trim(strip_trailing(strip_trailing(opened, '>'), '-'))
}

fn skip_char(v: &Vec<char>, lo: usize, hi: usize, c: char) -> (r: usize)
    requires
        lo <= hi <= v@.len(),
    ensures
        lo <= r <= hi,
        strip_leading(v@.subrange(lo as int, hi as int), c) == v@.subrange(r as int, hi as int),
{
    let mut i = lo;
    while i < hi && v[i] == c
        invariant
            lo <= i <= hi,
            hi <= v@.len(),
            strip_leading(v@.subrange(lo as int, hi as int), c) == strip_leading(
                v@.subrange(i as int, hi as int),
                c,
            ),
        decreases hi - i,
    {
        assert(v@.subrange(i as int, hi as int).drop_first() =~= v@.subrange(i + 1, hi as int));
        i = i + 1;
    }
    i
}

fn drop_char_back(v: &Vec<char>, lo: usize, hi: usize, c: char) -> (r: usize)
    requires
        lo <= hi <= v@.len(),
    ensures
        lo <= r <= hi,
        strip_trailing(v@.subrange(lo as int, hi as int), c) == v@.subrange(lo as int, r as int),
{
    let mut j = hi;
    while j > lo && v[j - 1] == c
        invariant
            lo <= j <= hi,
            hi <= v@.len(),
            strip_trailing(v@.subrange(lo as int, hi as int), c) == strip_trailing(
                v@.subrange(lo as int, j as int),
                c,
            ),
        decreases j - lo,
    {
        assert(v@.subrange(lo as int, j as int).drop_last() =~= v@.subrange(lo as int, j - 1));
        j = j - 1;
    }
    j
}

fn comment_bounds(v: &Vec<char>) -> (r: (usize, usize))
    ensures
        r.0 <= r.1 <= v@.len(),
        v@.subrange(r.0 as int, r.1 as int) == comment_body(v@),
{
    let n = v.len();
    assert(v@.subrange(0, n as int) =~= v@);
    let a = skip_char(v, 0, n, '<');
    let a = skip_char(v, a, n, '!');
    let a = skip_char(v, a, n, '-');
    let a = skip_char(v, a, n, '-');
    let b = drop_char_back(v, a, n, '>');
    let b = drop_char_back(v, a, b, '-');
    trim_bounds(v, a, b)
}

// ── Tokenizing ────────────────────────────────────────────────────────────────

/// The value at the start of `after` and the text that follows it.  A value
/// opening with `"` runs to the next `"` (`None` when there is none); any
/// other value runs to the next whitespace or the end.
pub open spec fn token_value(after: Seq<char>) -> Option<(Seq<char>, Seq<char>)> {
    if after.len() > 0 && after[0] == '"' {
        match find_char(after.drop_first(), '"') {
            Some(e) => Some((after.subrange(1, e + 1), after.skip(e + 2))),
            None => None,
        }
    } else {
        match find_white_space(after) {
            Some(e) => Some((after.take(e), after.skip(e))),
            None => Some((after, Seq::empty())),
        }
    }
}

/// Trimming leading whitespace never lengthens a sequence.
pub proof fn lemma_trim_start_len(s: Seq<char>)
    ensures
        trim_start(s).len() <= s.len(),
    decreases s.len(),
{
    if s.len() > 0 && crate::text::is_white_space(s[0]) {
        lemma_trim_start_len(s.drop_first());
    }
}

/// The text after a token value is no longer than the text it was read from.
pub proof fn lemma_token_value_len(after: Seq<char>)
    ensures
        token_value(after) matches Some(t) ==> t.1.len() <= after.len(),
{
    if after.len() > 0 && after[0] == '"' {
        lemma_find_char(after.drop_first(), '"');
    } else {
        lemma_find_white_space(after);
    }
}

/// The `(key, value)` pairs of a comment body, scanned left to right: a key
/// runs up to the next `:` (trimmed, then canonicalized), its value follows
/// after optional whitespace.  Pairs with an empty key or value are dropped;
/// scanning stops where no `:` is left.  `None` when a quoted value is never
/// closed.
pub open spec fn scan_pairs(rest: Seq<char>) -> Option<Seq<PairView>>
    decreases rest.len(),
{
    if rest.len() == 0 {
        Some(Seq::empty())
    } else {
        match find_char(rest, ':') {
            None => Some(Seq::empty()),
            Some(c) => {
                let key = canonical_tag_key(trim(rest.take(c)));
                let after = trim_start(rest.skip(c + 1));
                match token_value(after) {
                    None => None,
                    Some(t) => {
                        proof {
                            lemma_find_char(rest, ':');
                            lemma_trim_start_len(rest.skip(c + 1));
                            lemma_token_value_len(after);
                            lemma_trim_start_len(t.1);
                        }
                        match scan_pairs(trim_start(t.1)) {
                            None => None,
                            Some(tail) => if key.len() > 0 && t.0.len() > 0 {
                                Some(seq![(key, t.0)] + tail)
                            } else {
                                Some(tail)
                            },
                        }
                    },
                }
            },
        }
    }
}

/// The pairs of an annotation comment, `None` when a quoted value is never
/// closed.
pub open spec fn comment_pairs(raw: Seq<char>) -> Option<Seq<PairView>> {
    scan_pairs(trim(comment_body(raw)))
}

/// The characters of an optional pair, as a list of at most one pair.
pub open spec fn owned_pair_list(p: Option<(String, String)>) -> Seq<PairView> {
    match p {
        Some(q) => seq![(q.0@, q.1@)],
        None => Seq::empty(),
    }
}

/// Reads the token starting at `v[lo]`: `Err` on a quoted value that is
/// never closed, `Ok(None)` when no `:` is left, otherwise the pair (if its
/// key and value are both non-empty) and where the next token starts.
fn next_token(v: &Vec<char>, lo: usize, hi: usize) -> (r: Result<Option<(Option<(String, String)>, usize)>, ()>)
    requires
        lo < hi <= v@.len(),
    ensures
        match r {
            Err(_) => scan_pairs(v@.subrange(lo as int, hi as int)) is None,
            Ok(None) => find_char(v@.subrange(lo as int, hi as int), ':') is None,
            Ok(Some((p, next))) => {
                &&& lo < next <= hi
                &&& scan_pairs(v@.subrange(lo as int, hi as int)) == match scan_pairs(
                    v@.subrange(next as int, hi as int),
                ) {
                    None => None,
                    Some(tail) => Some(owned_pair_list(p) + tail),
                }
            },
        },
{
    let ghost rest = v@.subrange(lo as int, hi as int);
    let c = match find_char_in(v, lo, hi, ':') {
        None => {
            return Ok(None);
        },
        Some(c) => c,
    };
    proof {
        lemma_find_char(rest, ':');
    }
    assert(rest.take(c as int) =~= v@.subrange(lo as int, lo + c));
    assert(rest.skip(c + 1) =~= v@.subrange(lo + c + 1, hi as int));
    let kb = trim_bounds(v, lo, lo + c);
    let raw_key = string_from_chars(v, kb.0, kb.1);
    let key = canonicalize_tag_key(raw_key.as_str());
    let a = skip_whitespace(v, lo + c + 1, hi);
    let ghost after = v@.subrange(a as int, hi as int);
    let vs: usize;
    let ve: usize;
    let next: usize;
    if a < hi && v[a] == '"' {
        assert(after.drop_first() =~= v@.subrange(a + 1, hi as int));
        match find_char_in(v, a + 1, hi, '"') {
            Some(e) => {
                proof {
                    lemma_find_char(after.drop_first(), '"');
                }
                vs = a + 1;
                ve = a + 1 + e;
                next = a + e + 2;
                assert(after.subrange(1, e + 1) =~= v@.subrange(vs as int, ve as int));
                assert(after.skip(e + 2) =~= v@.subrange(next as int, hi as int));
            },
            None => {
                assert(token_value(after) is None);
                return Err(());
            },
        }
    } else {
        match find_white_space_in(v, a, hi) {
            Some(e) => {
                proof {
                    lemma_find_white_space(after);
                }
                vs = a;
                ve = a + e;
                next = a + e;
                assert(after.take(e as int) =~= v@.subrange(vs as int, ve as int));
                assert(after.skip(e as int) =~= v@.subrange(next as int, hi as int));
            },
            None => {
                vs = a;
                ve = hi;
                next = hi;
                assert(v@.subrange(next as int, hi as int) =~= Seq::<char>::empty());
            },
        }
    }
    let start = skip_whitespace(v, next, hi);
    let value = string_from_chars(v, vs, ve);
    let p = if key.as_str().unicode_len() > 0 && ve > vs {
        Some((key, value))
    } else {
        None
    };
    Ok(Some((p, start)))
}

/// Tokenizes a flat string of `key:value` pairs, handling quoted values.
/// Keys are canonicalized; pairs with an empty key or value are dropped.
pub fn tokenize_pairs(input: &str) -> (r: Vec<(String, String)>)
    requires
        scan_pairs(trim(input@)) is Some,
    ensures
        Some(owned_pairs_view(r@)) == scan_pairs(trim(input@)),
{
    let v = chars_of(input);
    let n = v.len();
    assert(v@.subrange(0, n as int) =~= input@);
    let (mut lo, hi) = trim_bounds(&v, 0, n);
    let mut out: Vec<(String, String)> = Vec::new();
    while lo < hi
        invariant
            lo <= hi <= v@.len(),
            scan_pairs(v@.subrange(lo as int, hi as int)) is Some,
            scan_pairs(trim(input@)) == Some(
                owned_pairs_view(out@) + scan_pairs(v@.subrange(lo as int, hi as int))->0,
            ),
        decreases hi - lo,
    {
        let ghost before = owned_pairs_view(out@);
        match next_token(&v, lo, hi) {
            Err(_) => {
                lo = hi;
            },
            Ok(None) => {
                assert(v@.subrange(hi as int, hi as int) =~= Seq::<char>::empty());
                assert(before + Seq::<PairView>::empty() =~= before);
                lo = hi;
            },
            Ok(Some((p, next))) => {
                let ghost pl = owned_pair_list(p);
                let ghost tail = scan_pairs(v@.subrange(next as int, hi as int))->0;
                match p {
                    Some(q) => {
                        let ghost prev = out@;
                        out.push(q);
                        assert(out@ == prev.push(q));
                        assert(owned_pairs_view(out@) =~= before + pl);
                    },
                    None => {
                        assert(owned_pairs_view(out@) =~= before + pl);
                    },
                }
                assert(before + (pl + tail) =~= owned_pairs_view(out@) + tail);
                lo = next;
            },
        }
    }
    assert(scan_pairs(v@.subrange(lo as int, hi as int)) == Some(Seq::<PairView>::empty()));
    assert(owned_pairs_view(out@) + Seq::<PairView>::empty() =~= owned_pairs_view(out@));
    out
}

// ── Looking up a key ──────────────────────────────────────────────────────────

/// The value of the last pair with key `key`: later pairs override earlier
/// ones.
pub open spec fn lookup(pairs: Seq<PairView>, key: Seq<char>) -> Option<Seq<char>>
    decreases pairs.len(),
{
    if pairs.len() == 0 {
        None
    } else if pairs.last().0 == key {
        Some(pairs.last().1)
    } else {
        lookup(pairs.drop_last(), key)
    }
}

fn lookup_value<'a>(pairs: &'a Vec<(String, String)>, key: &str) -> (r: Option<&'a String>)
    ensures
        match r {
            Some(v) => lookup(owned_pairs_view(pairs@), key@) == Some(v@),
            None => lookup(owned_pairs_view(pairs@), key@) is None,
        },
{
    let ghost kv = owned_pairs_view(pairs@);
    let mut i = pairs.len();
    assert(kv.take(i as int) =~= kv);
    while i > 0
        invariant
            i <= pairs@.len(),
            kv == owned_pairs_view(pairs@),
            lookup(kv, key@) == lookup(kv.take(i as int), key@),
        decreases i,
    {
        assert(kv.take(i as int).drop_last() =~= kv.take(i - 1));
        if str_eq(pairs[i - 1].0.as_str(), key) {
            return Some(&pairs[i - 1].1);
        }
        i = i - 1;
    }
    None
}

// ── Thread ids ────────────────────────────────────────────────────────────────

/// The thread a `thread:` tag value names.
pub open spec fn thread_of(s: Seq<char>) -> ThreadIdView {
    if s == "main"@ {
        ThreadIdView::Main
    } else if s == "frame_narrator"@ {
        ThreadIdView::FrameNarrator
    } else if s == "embedded_story"@ {
        ThreadIdView::EmbeddedStory
    } else if has_prefix(s, "subplot_"@) {
        ThreadIdView::Subplot(s.skip(8))
    } else if has_prefix(s, "dual_pov_"@) {
        ThreadIdView::DualPov(s.skip(9))
    } else {
        ThreadIdView::Custom(s)
    }
}

fn text_after(s: &str, n: usize) -> (r: String)
    requires
        n <= s@.len(),
    ensures
        r@ == s@.skip(n as int),
{
    let v = chars_of(s);
    let r = string_from_chars(&v, n, v.len());
    assert(v@.subrange(n as int, v@.len() as int) =~= s@.skip(n as int));
    r
}

/// The thread named by a `thread:` tag value: `main`, `frame_narrator` and
/// `embedded_story` name the fixed threads, `subplot_X` and `dual_pov_X` name
/// a subplot or dual-POV strand `X`, and anything else is a custom thread.
pub fn parse_thread_id(s: &str) -> (r: ThreadId)
    ensures
        r@ == thread_of(s@),
{
    if str_eq(s, "main") {
        ThreadId::Main
    } else if str_eq(s, "frame_narrator") {
        ThreadId::FrameNarrator
    } else if str_eq(s, "embedded_story") {
        ThreadId::EmbeddedStory
    } else if str_starts_with(s, "subplot_") {
        proof {
            reveal_strlit("subplot_");
        }
        ThreadId::Subplot(text_after(s, 8))
    } else if str_starts_with(s, "dual_pov_") {
        proof {
            reveal_strlit("dual_pov_");
        }
        ThreadId::DualPov(text_after(s, 9))
    } else {
        ThreadId::Custom(owned(s))
    }
}

// ── Warnings ──────────────────────────────────────────────────────────────────

/// The warning for a tag value that names no term of its vocabulary.
pub open spec fn unknown_warning(key: Seq<char>, v: Seq<char>) -> Seq<char> {
    "unknown "@ + key + ": "@ + debug_quoted(v)
}

/// The warning for a value that is not a number where one is expected.
pub open spec fn invalid_warning(what: Seq<char>, v: Seq<char>) -> Seq<char> {
    "invalid "@ + what + ": "@ + debug_quoted(v)
}

fn labelled(prefix: &str, what: &str, v: &str) -> (r: String)
    ensures
        r@ == prefix@ + what@ + ": "@ + debug_quoted(v@),
{
    let mut s = owned(prefix);
    s.append(what);
    s.append(": ");
    let d = debug_string(v);
    s.append(d.as_str());
    s
}

// ── Reading the tags ──────────────────────────────────────────────────────────

/// What reading one tag key gives: nothing (the key is absent), an
/// annotation, or a warning.
pub enum TagOutcome {
    Absent,
    Parsed(AnnotationView),
    Rejected(Seq<char>),
}

/// A free-text or slug tag: its value, wrapped.
pub open spec fn text_outcome(
    v: Option<Seq<char>>,
    f: spec_fn(Seq<char>) -> AnnotationView,
) -> TagOutcome {
    match v {
        Some(s) => TagOutcome::Parsed(f(s)),
        None => TagOutcome::Absent,
    }
}

/// A vocabulary-valued tag: the term its value names, or a warning.
pub open spec fn term_result<T: SnakeName>(kv: Seq<PairView>, key: Seq<char>) -> Option<
    Result<T, Seq<char>>,
> {
    match lookup(kv, key) {
        None => None,
        Some(v) => match parse_name::<T>(v) {
            Some(e) => Some(Ok(e)),
            None => Some(Err(unknown_warning(key, v))),
        },
    }
}

/// A vocabulary-valued tag, wrapped as an annotation.
pub open spec fn term_outcome<T: SnakeName>(
    kv: Seq<PairView>,
    key: Seq<char>,
    f: spec_fn(T) -> AnnotationView,
) -> TagOutcome {
    match term_result::<T>(kv, key) {
        None => TagOutcome::Absent,
        Some(Ok(e)) => TagOutcome::Parsed(f(e)),
        Some(Err(w)) => TagOutcome::Rejected(w),
    }
}

/// The `psychic_distance` tag: a number that must lie in 1–5.
pub open spec fn psychic_distance_outcome(kv: Seq<PairView>) -> TagOutcome {
    match lookup(kv, "psychic_distance"@) {
        None => TagOutcome::Absent,
        Some(v) => match parse_unsigned(v, 255) {
            Some(n) => if 1 <= n <= 5 {
                TagOutcome::Parsed(AnnotationView::PsychicDistance(n as u8))
            } else {
                TagOutcome::Rejected(PsychicDistance::range_error(n as u8))
            },
            None => TagOutcome::Rejected(invalid_warning("psychic_distance"@, v)),
        },
    }
}

/// The `tension` tag: a number that must lie in 1–10.
pub open spec fn tension_outcome(kv: Seq<PairView>) -> TagOutcome {
    match lookup(kv, "tension"@) {
        None => TagOutcome::Absent,
        Some(v) => match parse_unsigned(v, 255) {
            Some(n) => if 1 <= n <= 10 {
                TagOutcome::Parsed(AnnotationView::Tension(n as u8))
            } else {
                TagOutcome::Rejected(Tension::range_error(n as u8))
            },
            None => TagOutcome::Rejected(invalid_warning("tension"@, v)),
        },
    }
}

/// The `motif` tag, with the stage named by a `stage` tag when it names one.
pub open spec fn motif_outcome(kv: Seq<PairView>) -> TagOutcome {
    match lookup(kv, "motif"@) {
        None => TagOutcome::Absent,
        Some(slug) => TagOutcome::Parsed(
            AnnotationView::Motif {
                slug,
                stage: match lookup(kv, "stage"@) {
                    Some(s) => parse_name::<MotifStage>(s),
                    None => None,
                },
            },
        ),
    }
}

/// The `chapter` tag: a chapter number, without a title.
pub open spec fn chapter_outcome(kv: Seq<PairView>) -> TagOutcome {
    match lookup(kv, "chapter"@) {
        None => TagOutcome::Absent,
        Some(v) => match parse_unsigned(v, u32::MAX as nat) {
            Some(n) => TagOutcome::Parsed(AnnotationView::Chapter { number: n as u32, title: None }),
            None => TagOutcome::Rejected(invalid_warning("chapter number"@, v)),
        },
    }
}

/// The number of tag keys read from a comment.
pub const TAG_KEY_COUNT: usize = 115;

/// Reading the `i`-th tag key, in the fixed order in which keys are read.
pub open spec fn tag_outcome(kv: Seq<PairView>, i: int) -> TagOutcome {
    if i < 8 {
        tag_outcome_0(kv, i)
    }
    else if i < 16 {
        tag_outcome_1(kv, i)
    }
    else if i < 24 {
        tag_outcome_2(kv, i)
    }
    else if i < 32 {
        tag_outcome_3(kv, i)
    }
    else if i < 40 {
        tag_outcome_4(kv, i)
    }
    else if i < 48 {
        tag_outcome_5(kv, i)
    }
    else if i < 56 {
        tag_outcome_6(kv, i)
    }
    else if i < 64 {
        tag_outcome_7(kv, i)
    }
    else if i < 72 {
        tag_outcome_8(kv, i)
    }
    else if i < 80 {
        tag_outcome_9(kv, i)
    }
    else if i < 88 {
        tag_outcome_10(kv, i)
    }
    else if i < 96 {
        tag_outcome_11(kv, i)
    }
    else if i < 104 {
        tag_outcome_12(kv, i)
    }
    else if i < 112 {
        tag_outcome_13(kv, i)
    }
    else {
        tag_outcome_14(kv, i)
    }
}

/// [`tag_outcome`] for keys 0 to 7.
pub open spec fn tag_outcome_0(kv: Seq<PairView>, i: int) -> TagOutcome {
    if i == 0 {
        text_outcome(lookup(kv, "character"@), |s: Seq<char>| AnnotationView::Character(s))
    }
    else if i == 1 {
        text_outcome(lookup(kv, "setting"@), |s: Seq<char>| AnnotationView::Setting(s))
    }
    else if i == 2 {
        text_outcome(lookup(kv, "beat"@), |s: Seq<char>| AnnotationView::Beat(s))
    }
    else if i == 3 {
        text_outcome(lookup(kv, "thread"@), |s: Seq<char>| AnnotationView::Thread(thread_of(s)))
    }
    else if i == 4 {
        text_outcome(lookup(kv, "plot_type"@), |s: Seq<char>| AnnotationView::PlotType(s))
    }
    else if i == 5 {
        text_outcome(lookup(kv, "collision_pattern"@), |s: Seq<char>| AnnotationView::CollisionPattern(s))
    }
    else if i == 6 {
        text_outcome(lookup(kv, "trope"@), |s: Seq<char>| AnnotationView::Trope(s))
    }
    else {
        term_outcome::<DiegeticLevel>(kv, "diegetic_level"@, |e: DiegeticLevel| AnnotationView::DiegeticLevel(e))
    }
}

/// [`tag_outcome`] for keys 8 to 15.
pub open spec fn tag_outcome_1(kv: Seq<PairView>, i: int) -> TagOutcome {
    if i == 8 {
        term_outcome::<ConsciousnessMode>(kv, "consciousness"@, |e: ConsciousnessMode| AnnotationView::Consciousness(e))
    }
    else if i == 9 {
        term_outcome::<SpeechAct>(kv, "speech_act"@, |e: SpeechAct| AnnotationView::SpeechAct(e))
    }
    else if i == 10 {
        term_outcome::<GazeType>(kv, "gaze"@, |e: GazeType| AnnotationView::Gaze(e))
    }
    else if i == 11 {
        term_outcome::<PactType>(kv, "pact"@, |e: PactType| AnnotationView::Pact(e))
    }
    else if i == 12 {
        term_outcome::<Actant>(kv, "actant"@, |e: Actant| AnnotationView::Actant(e))
    }
    else if i == 13 {
        psychic_distance_outcome(kv)
    }
    else if i == 14 {
        tension_outcome(kv)
    }
    else {
        text_outcome(lookup(kv, "subtext"@), |s: Seq<char>| AnnotationView::Subtext(s))
    }
}

/// [`tag_outcome`] for keys 16 to 23.
pub open spec fn tag_outcome_2(kv: Seq<PairView>, i: int) -> TagOutcome {
    if i == 16 {
        term_outcome::<RevisionFlag>(kv, "flag"@, |e: RevisionFlag| AnnotationView::Flag(e))
    }
    else if i == 17 {
        motif_outcome(kv)
    }
    else if i == 18 {
        chapter_outcome(kv)
    }
    else if i == 19 {
        text_outcome(lookup(kv, "speaker"@), |s: Seq<char>| AnnotationView::Speaker { name: s })
    }
    else if i == 20 {
        term_outcome::<VoiceTone>(kv, "tone"@, |e: VoiceTone| AnnotationView::Tone(e))
    }
    else if i == 21 {
        text_outcome(lookup(kv, "ambience"@), |s: Seq<char>| AnnotationView::Ambience(s))
    }
    else if i == 22 {
        text_outcome(lookup(kv, "music"@), |s: Seq<char>| AnnotationView::Music(s))
    }
    else {
        text_outcome(lookup(kv, "sfx"@), |s: Seq<char>| AnnotationView::Sfx(s))
    }
}

/// [`tag_outcome`] for keys 24 to 31.
pub open spec fn tag_outcome_3(kv: Seq<PairView>, i: int) -> TagOutcome {
    if i == 24 {
        text_outcome(lookup(kv, "delivery"@), |s: Seq<char>| AnnotationView::Delivery(s))
    }
    else if i == 25 {
        term_outcome::<ParatextZone>(kv, "paratext_zone"@, |e: ParatextZone| AnnotationView::ParatextZone(e))
    }
    else if i == 26 {
        term_outcome::<TemporalOrder>(kv, "temporal_order"@, |e: TemporalOrder| AnnotationView::TemporalOrder(e))
    }
    else if i == 27 {
        term_outcome::<TemporalDuration>(kv, "temporal_duration"@, |e: TemporalDuration| AnnotationView::TemporalDuration(e))
    }
    else if i == 28 {
        term_outcome::<TemporalFrequency>(kv, "temporal_frequency"@, |e: TemporalFrequency| AnnotationView::TemporalFrequency(e))
    }
    else if i == 29 {
        term_outcome::<ReaderExperienceEffect>(kv, "reader_effect"@, |e: ReaderExperienceEffect| AnnotationView::ReaderEffect(e))
    }
    else if i == 30 {
        term_outcome::<IntertextualRelation>(kv, "intertextual"@, |e: IntertextualRelation| AnnotationView::Intertextual(e))
    }
    else {
        term_outcome::<BloomInfluenceMode>(kv, "bloom_mode"@, |e: BloomInfluenceMode| AnnotationView::BloomMode(e))
    }
}

/// [`tag_outcome`] for keys 32 to 39.
pub open spec fn tag_outcome_4(kv: Seq<PairView>, i: int) -> TagOutcome {
    if i == 32 {
        term_outcome::<MetaphorType>(kv, "metaphor"@, |e: MetaphorType| AnnotationView::Metaphor(e))
    }
    else if i == 33 {
        term_outcome::<IronyType>(kv, "irony"@, |e: IronyType| AnnotationView::Irony(e))
    }
    else if i == 34 {
        term_outcome::<ComicMode>(kv, "comic_mode"@, |e: ComicMode| AnnotationView::Comic(e))
    }
    else if i == 35 {
        term_outcome::<ComedyTheory>(kv, "comedy_theory"@, |e: ComedyTheory| AnnotationView::ComedyGrounds(e))
    }
    else if i == 36 {
        term_outcome::<TraumaMode>(kv, "trauma_mode"@, |e: TraumaMode| AnnotationView::TraumaMode(e))
    }
    else if i == 37 {
        term_outcome::<HermanRecoveryStage>(kv, "recovery_stage"@, |e: HermanRecoveryStage| AnnotationView::RecoveryStage(e))
    }
    else if i == 38 {
        term_outcome::<PentadElement>(kv, "pentad_element"@, |e: PentadElement| AnnotationView::PentadElement(e))
    }
    else {
        term_outcome::<PentadRatio>(kv, "pentad_ratio"@, |e: PentadRatio| AnnotationView::PentadRatio(e))
    }
}

/// [`tag_outcome`] for keys 40 to 47.
pub open spec fn tag_outcome_5(kv: Seq<PairView>, i: int) -> TagOutcome {
    if i == 40 {
        term_outcome::<BurkeFormType>(kv, "burke_form"@, |e: BurkeFormType| AnnotationView::BurkeForm(e))
    }
    else if i == 41 {
        term_outcome::<EmplotmentType>(kv, "emplotment"@, |e: EmplotmentType| AnnotationView::Emplotment(e))
    }
    else if i == 42 {
        term_outcome::<MimesisPhase>(kv, "mimesis"@, |e: MimesisPhase| AnnotationView::Mimesis(e))
    }
    else if i == 43 {
        term_outcome::<SpatialPractice>(kv, "spatial_practice"@, |e: SpatialPractice| AnnotationView::SpatialPractice(e))
    }
    else if i == 44 {
        term_outcome::<EthicsAuditCategory>(kv, "ethics"@, |e: EthicsAuditCategory| AnnotationView::EthicsCategory(e))
    }
    else if i == 45 {
        term_outcome::<CulturalStructure>(kv, "cultural_structure"@, |e: CulturalStructure| AnnotationView::CulturalStructure(e))
    }
    else if i == 46 {
        term_outcome::<SurvivranceMode>(kv, "survivrance"@, |e: SurvivranceMode| AnnotationView::SurvivranceMode(e))
    }
    else {
        term_outcome::<QueerTimeMode>(kv, "queer_time"@, |e: QueerTimeMode| AnnotationView::QueerTime(e))
    }
}

/// [`tag_outcome`] for keys 48 to 55.
pub open spec fn tag_outcome_6(kv: Seq<PairView>, i: int) -> TagOutcome {
    if i == 48 {
        term_outcome::<DisabilityRepMode>(kv, "disability_rep"@, |e: DisabilityRepMode| AnnotationView::DisabilityRep(e))
    }
    else if i == 49 {
        term_outcome::<AffectMode>(kv, "affect"@, |e: AffectMode| AnnotationView::AffectMode(e))
    }
    else if i == 50 {
        term_outcome::<TransitivityProcess>(kv, "transitivity"@, |e: TransitivityProcess| AnnotationView::Transitivity(e))
    }
    else if i == 51 {
        term_outcome::<JakobsonFunction>(kv, "jakobson"@, |e: JakobsonFunction| AnnotationView::JakobsonFn(e))
    }
    else if i == 52 {
        term_outcome::<SignType>(kv, "sign_type"@, |e: SignType| AnnotationView::Sign(e))
    }
    else if i == 53 {
        term_outcome::<YaNarratorType>(kv, "ya_narrator"@, |e: YaNarratorType| AnnotationView::YaNarrator(e))
    }
    else if i == 54 {
        term_outcome::<RevisionPassType>(kv, "revision_pass"@, |e: RevisionPassType| AnnotationView::RevisionPass(e))
    }
    else {
        term_outcome::<SerialArcType>(kv, "serial_arc"@, |e: SerialArcType| AnnotationView::SerialArc(e))
    }
}

/// [`tag_outcome`] for keys 56 to 63.
pub open spec fn tag_outcome_7(kv: Seq<PairView>, i: int) -> TagOutcome {
    if i == 56 {
        term_outcome::<FreudianMechanism>(kv, "freudian"@, |e: FreudianMechanism| AnnotationView::FreudianMechanism(e))
    }
    else if i == 57 {
        term_outcome::<LacanRegister>(kv, "lacan_register"@, |e: LacanRegister| AnnotationView::LacanRegister(e))
    }
    else if i == 58 {
        term_outcome::<AbjectCategory>(kv, "abject"@, |e: AbjectCategory| AnnotationView::Abject(e))
    }
    else if i == 59 {
        term_outcome::<PostcolonialMode>(kv, "postcolonial"@, |e: PostcolonialMode| AnnotationView::PostcolonialMode(e))
    }
    else if i == 60 {
        term_outcome::<EcocriticalMode>(kv, "ecocritical"@, |e: EcocriticalMode| AnnotationView::EcocriticalMode(e))
    }
    else if i == 61 {
        term_outcome::<ImageSchema>(kv, "image_schema"@, |e: ImageSchema| AnnotationView::ImageSchema(e))
    }
    else if i == 62 {
        term_outcome::<DefamiliarizationMode>(kv, "defamiliarize"@, |e: DefamiliarizationMode| AnnotationView::Defamiliarization(e))
    }
    else {
        term_outcome::<SemioticSquarePosition>(kv, "semiotic_pos"@, |e: SemioticSquarePosition| AnnotationView::SemioticPosition(e))
    }
}

/// [`tag_outcome`] for keys 64 to 71.
pub open spec fn tag_outcome_8(kv: Seq<PairView>, i: int) -> TagOutcome {
    if i == 64 {
        term_outcome::<ExperimentalNarrationMode>(kv, "experimental"@, |e: ExperimentalNarrationMode| AnnotationView::ExperimentalMode(e))
    }
    else if i == 65 {
        term_outcome::<PosthumanMode>(kv, "posthuman"@, |e: PosthumanMode| AnnotationView::PosthumanMode(e))
    }
    else if i == 66 {
        term_outcome::<MarxistNarrativeMode>(kv, "marxist_mode"@, |e: MarxistNarrativeMode| AnnotationView::MarxistMode(e))
    }
    else if i == 67 {
        term_outcome::<FeministNarrativeType>(kv, "feminist"@, |e: FeministNarrativeType| AnnotationView::FeministNarrative(e))
    }
    else if i == 68 {
        term_outcome::<SignifyingMode>(kv, "signifying"@, |e: SignifyingMode| AnnotationView::Signifying(e))
    }
    else if i == 69 {
        term_outcome::<CognitiveNarrativeMode>(kv, "cognitive"@, |e: CognitiveNarrativeMode| AnnotationView::CognitiveModeTag(e))
    }
    else if i == 70 {
        term_outcome::<ProsodicElement>(kv, "prosodic"@, |e: ProsodicElement| AnnotationView::ProsodicElement(e))
    }
    else {
        term_outcome::<ProppFunction>(kv, "propp"@, |e: ProppFunction| AnnotationView::ProppFunction(e))
    }
}

/// [`tag_outcome`] for keys 72 to 79.
pub open spec fn tag_outcome_9(kv: Seq<PairView>, i: int) -> TagOutcome {
    if i == 72 {
        term_outcome::<PerformativityMode>(kv, "performativity"@, |e: PerformativityMode| AnnotationView::Performativity(e))
    }
    else if i == 73 {
        term_outcome::<AutofictionMode>(kv, "autofiction"@, |e: AutofictionMode| AnnotationView::AutofictionMode(e))
    }
    else if i == 74 {
        term_outcome::<NarrativeEthicsMode>(kv, "narrative_ethics"@, |e: NarrativeEthicsMode| AnnotationView::NarrativeEthics(e))
    }
    else if i == 75 {
        term_outcome::<JenkinsTransmediaType>(kv, "transmedia"@, |e: JenkinsTransmediaType| AnnotationView::TransmediaType(e))
    }
    else if i == 76 {
        term_outcome::<AccessibilityRelation>(kv, "accessibility"@, |e: AccessibilityRelation| AnnotationView::AccessibilityRelation(e))
    }
    else if i == 77 {
        term_outcome::<AdaptationMode>(kv, "adaptation"@, |e: AdaptationMode| AnnotationView::Adaptation(e))
    }
    else if i == 78 {
        term_outcome::<GriceanMaxim>(kv, "gricean"@, |e: GriceanMaxim| AnnotationView::GriceanMaxim(e))
    }
    else {
        term_outcome::<IntimateSpaceType>(kv, "intimate_space"@, |e: IntimateSpaceType| AnnotationView::IntimateSpace(e))
    }
}

/// [`tag_outcome`] for keys 80 to 87.
pub open spec fn tag_outcome_10(kv: Seq<PairView>, i: int) -> TagOutcome {
    if i == 80 {
        term_outcome::<MultilingualStrategy>(kv, "multilingual"@, |e: MultilingualStrategy| AnnotationView::Multilingual(e))
    }
    else if i == 81 {
        term_outcome::<PanelTransitionType>(kv, "panel_transition"@, |e: PanelTransitionType| AnnotationView::PanelTransition(e))
    }
    else if i == 82 {
        term_outcome::<StoryworkProtocol>(kv, "storywork"@, |e: StoryworkProtocol| AnnotationView::Storywork(e))
    }
    else if i == 83 {
        term_outcome::<TranslationStrategy>(kv, "translation"@, |e: TranslationStrategy| AnnotationView::TranslationStrategy(e))
    }
    else if i == 84 {
        term_outcome::<VisualVerbalRelation>(kv, "visual_verbal"@, |e: VisualVerbalRelation| AnnotationView::VisualVerbal(e))
    }
    else if i == 85 {
        term_outcome::<GenreReadingMode>(kv, "genre_reading"@, |e: GenreReadingMode| AnnotationView::GenreReading(e))
    }
    else if i == 86 {
        term_outcome::<SceneFunction>(kv, "scene_function"@, |e: SceneFunction| AnnotationView::SceneFunction(e))
    }
    else {
        term_outcome::<SceneType>(kv, "scene_type"@, |e: SceneType| AnnotationView::SceneType(e))
    }
}

/// [`tag_outcome`] for keys 88 to 95.
pub open spec fn tag_outcome_11(kv: Seq<PairView>, i: int) -> TagOutcome {
    if i == 88 {
        term_outcome::<ConflictType>(kv, "conflict"@, |e: ConflictType| AnnotationView::Conflict(e))
    }
    else if i == 89 {
        term_outcome::<ArcType>(kv, "arc"@, |e: ArcType| AnnotationView::Arc(e))
    }
    else if i == 90 {
        term_outcome::<ArcPattern>(kv, "arc_pattern"@, |e: ArcPattern| AnnotationView::ArcPattern(e))
    }
    else if i == 91 {
        term_outcome::<OutcomeType>(kv, "outcome"@, |e: OutcomeType| AnnotationView::Outcome(e))
    }
    else if i == 92 {
        term_outcome::<DominantSense>(kv, "sense"@, |e: DominantSense| AnnotationView::DominantSense(e))
    }
    else if i == 93 {
        term_outcome::<TimeOfDay>(kv, "time_of_day"@, |e: TimeOfDay| AnnotationView::TimeOfDay(e))
    }
    else if i == 94 {
        term_outcome::<Weather>(kv, "weather"@, |e: Weather| AnnotationView::Weather(e))
    }
    else {
        term_outcome::<WorldDeliveryMethod>(kv, "world_delivery"@, |e: WorldDeliveryMethod| AnnotationView::WorldDelivery(e))
    }
}

/// [`tag_outcome`] for keys 96 to 103.
pub open spec fn tag_outcome_12(kv: Seq<PairView>, i: int) -> TagOutcome {
    if i == 96 {
        term_outcome::<PovType>(kv, "pov"@, |e: PovType| AnnotationView::Pov(e))
    }
    else if i == 97 {
        term_outcome::<FocalizationType>(kv, "focalization_type"@, |e: FocalizationType| AnnotationView::FocalizationType(e))
    }
    else if i == 98 {
        term_outcome::<KnowledgeScope>(kv, "knowledge"@, |e: KnowledgeScope| AnnotationView::Knowledge(e))
    }
    else if i == 99 {
        term_outcome::<ReliabilitySpectrum>(kv, "reliability"@, |e: ReliabilitySpectrum| AnnotationView::Reliability(e))
    }
    else if i == 100 {
        term_outcome::<EngagementMode>(kv, "engagement"@, |e: EngagementMode| AnnotationView::Engagement(e))
    }
    else if i == 101 {
        term_outcome::<NarrativeDistance>(kv, "narrative_distance"@, |e: NarrativeDistance| AnnotationView::Distance(e))
    }
    else if i == 102 {
        term_outcome::<VoiceStructure>(kv, "voice_structure"@, |e: VoiceStructure| AnnotationView::Voice(e))
    }
    else {
        term_outcome::<SentenceLength>(kv, "sentence_length"@, |e: SentenceLength| AnnotationView::SentenceLength(e))
    }
}

/// [`tag_outcome`] for keys 104 to 111.
pub open spec fn tag_outcome_13(kv: Seq<PairView>, i: int) -> TagOutcome {
    if i == 104 {
        term_outcome::<SentenceType>(kv, "sentence_type"@, |e: SentenceType| AnnotationView::SentenceType(e))
    }
    else if i == 105 {
        term_outcome::<SentenceArchitecture>(kv, "sentence_arch"@, |e: SentenceArchitecture| AnnotationView::SentenceArch(e))
    }
    else if i == 106 {
        term_outcome::<VocabularyLevel>(kv, "vocabulary"@, |e: VocabularyLevel| AnnotationView::Vocabulary(e))
    }
    else if i == 107 {
        term_outcome::<ProfanityLevel>(kv, "profanity"@, |e: ProfanityLevel| AnnotationView::Profanity(e))
    }
    else if i == 108 {
        term_outcome::<OpeningType>(kv, "opening_type"@, |e: OpeningType| AnnotationView::OpeningType(e))
    }
    else if i == 109 {
        term_outcome::<QuestionDelivery>(kv, "question_delivery"@, |e: QuestionDelivery| AnnotationView::QuestionDelivery(e))
    }
    else if i == 110 {
        term_outcome::<Complexity>(kv, "complexity"@, |e: Complexity| AnnotationView::Complexity(e))
    }
    else {
        term_outcome::<DisplacementGap>(kv, "displacement"@, |e: DisplacementGap| AnnotationView::Displacement(e))
    }
}

/// [`tag_outcome`] for keys 112 to 112.
pub open spec fn tag_outcome_14(kv: Seq<PairView>, i: int) -> TagOutcome {
    if i == 112 {
        term_outcome::<NonResponseType>(kv, "non_response"@, |e: NonResponseType| AnnotationView::NonResponse(e))
    } else if i == 113 {
        term_outcome::<DriveModel>(kv, "drive_model"@, |e: DriveModel| AnnotationView::DriveModel(e))
    } else {
        stage_outcome(kv)
    }
}

/// The `stage` tag on its own: the motif reads a stage that names a term,
/// and a stage that names none is reported here.
pub open spec fn stage_outcome(kv: Seq<PairView>) -> TagOutcome {
    match term_result::<MotifStage>(kv, "stage"@) {
        Some(Err(w)) => TagOutcome::Rejected(w),
        _ => TagOutcome::Absent,
    }
}

/// Reading every tag key, in order.
pub open spec fn tag_outcomes(kv: Seq<PairView>) -> Seq<TagOutcome> {
    Seq::new(TAG_KEY_COUNT as nat, |i: int| tag_outcome(kv, i))
}

/// The annotations among a list of outcomes, in order.
pub open spec fn outcome_annotations(os: Seq<TagOutcome>) -> Seq<AnnotationView>
    decreases os.len(),
{
    if os.len() == 0 {
        Seq::empty()
    } else {
        outcome_annotations(os.drop_last()) + match os.last() {
            TagOutcome::Parsed(a) => seq![a],
            _ => Seq::empty(),
        }
    }
}

/// The warnings among a list of outcomes, in order.
pub open spec fn outcome_warnings(os: Seq<TagOutcome>) -> Seq<Seq<char>>
    decreases os.len(),
{
    if os.len() == 0 {
        Seq::empty()
    } else {
        outcome_warnings(os.drop_last()) + match os.last() {
            TagOutcome::Rejected(w) => seq![w],
            _ => Seq::empty(),
        }
    }
}

/// The outcome an executable entry reader reports.
pub open spec fn outcome_of(r: Option<Result<Annotation, String>>) -> TagOutcome {
    match r {
        None => TagOutcome::Absent,
        Some(Ok(a)) => TagOutcome::Parsed(a@),
        Some(Err(w)) => TagOutcome::Rejected(w@),
    }
}

/// The spec form of what [`term_value`] returns.
pub open spec fn term_result_view<T>(r: Option<Result<T, String>>) -> Option<Result<T, Seq<char>>> {
    match r {
        None => None,
        Some(Ok(e)) => Some(Ok(e)),
        Some(Err(w)) => Some(Err(w@)),
    }
}

fn term_value<T: SnakeName>(pairs: &Vec<(String, String)>, key: &str) -> (r: Option<Result<T, String>>)
    ensures
        term_result_view(r) == term_result::<T>(owned_pairs_view(pairs@), key@),
{
    match lookup_value(pairs, key) {
        None => None,
        Some(v) => match T::from_name(v.as_str()) {
            Some(e) => {
                proof {
                    lemma_from_name_exact::<T>(v@, Some(e));
                }
                Some(Ok(e))
            },
            None => {
                proof {
                    lemma_from_name_exact::<T>(v@, None);
                }
                Some(Err(labelled("unknown ", key, v.as_str())))
            },
        },
    }
}

fn psychic_distance_entry(pairs: &Vec<(String, String)>) -> (r: Option<Result<Annotation, String>>)
    ensures
        outcome_of(r) == psychic_distance_outcome(owned_pairs_view(pairs@)),
{
    match lookup_value(pairs, "psychic_distance") {
        None => None,
        Some(v) => match parse_unsigned_str(v.as_str(), 255) {
            Some(n) => match PsychicDistance::new(n as u8) {
                Ok(d) => Some(Ok(Annotation::PsychicDistance(d))),
                Err(e) => Some(Err(e)),
            },
            None => Some(Err(labelled("invalid ", "psychic_distance", v.as_str()))),
        },
    }
}

fn tension_entry(pairs: &Vec<(String, String)>) -> (r: Option<Result<Annotation, String>>)
    ensures
        outcome_of(r) == tension_outcome(owned_pairs_view(pairs@)),
{
    match lookup_value(pairs, "tension") {
        None => None,
        Some(v) => match parse_unsigned_str(v.as_str(), 255) {
            Some(n) => match Tension::new(n as u8) {
                Ok(t) => Some(Ok(Annotation::Tension(t))),
                Err(e) => Some(Err(e)),
            },
            None => Some(Err(labelled("invalid ", "tension", v.as_str()))),
        },
    }
}

fn motif_entry(pairs: &Vec<(String, String)>) -> (r: Option<Result<Annotation, String>>)
    ensures
        outcome_of(r) == motif_outcome(owned_pairs_view(pairs@)),
{
    match lookup_value(pairs, "motif") {
        None => None,
        Some(slug) => {
            let stage = match lookup_value(pairs, "stage") {
                Some(s) => {
                    let st = MotifStage::from_name(s.as_str());
                    proof {
                        lemma_from_name_exact::<MotifStage>(s@, st);
                    }
                    st
                },
                None => None,
            };
            Some(Ok(Annotation::Motif { slug: EntityRef::new(slug.as_str()), stage }))
        },
    }
}

fn chapter_entry(pairs: &Vec<(String, String)>) -> (r: Option<Result<Annotation, String>>)
    ensures
        outcome_of(r) == chapter_outcome(owned_pairs_view(pairs@)),
{
    match lookup_value(pairs, "chapter") {
        None => None,
        Some(v) => match parse_unsigned_str(v.as_str(), u32::MAX) {
            Some(n) => Some(Ok(Annotation::Chapter { number: n, title: None })),
            None => Some(Err(labelled("invalid ", "chapter number", v.as_str()))),
        },
    }
}

#[verifier::rlimit(40)]
fn read_entry_0(pairs: &Vec<(String, String)>, i: usize) -> (r: Option<Result<Annotation, String>>)
    requires
        0 <= i < 8,
    ensures
        outcome_of(r) == tag_outcome_0(owned_pairs_view(pairs@), i as int),
{
    if i == 0 {
        match lookup_value(pairs, "character") {
                Some(v) => Some(Ok(Annotation::Character(EntityRef::new(v.as_str())))),
                None => None,
            }
    }
    else if i == 1 {
        match lookup_value(pairs, "setting") {
                Some(v) => Some(Ok(Annotation::Setting(EntityRef::new(v.as_str())))),
                None => None,
            }
    }
    else if i == 2 {
        match lookup_value(pairs, "beat") {
                Some(v) => Some(Ok(Annotation::Beat(EntityRef::new(v.as_str())))),
                None => None,
            }
    }
    else if i == 3 {
        match lookup_value(pairs, "thread") {
                Some(v) => Some(Ok(Annotation::Thread(parse_thread_id(v.as_str())))),
                None => None,
            }
    }
    else if i == 4 {
        match lookup_value(pairs, "plot_type") {
                Some(v) => Some(Ok(Annotation::PlotType(EntityRef::new(v.as_str())))),
                None => None,
            }
    }
    else if i == 5 {
        match lookup_value(pairs, "collision_pattern") {
                Some(v) => Some(Ok(Annotation::CollisionPattern(EntityRef::new(v.as_str())))),
                None => None,
            }
    }
    else if i == 6 {
        match lookup_value(pairs, "trope") {
                Some(v) => Some(Ok(Annotation::Trope(EntityRef::new(v.as_str())))),
                None => None,
            }
    }
    else {
        match term_value::<DiegeticLevel>(pairs, "diegetic_level") {
                Some(Ok(e)) => Some(Ok(Annotation::DiegeticLevel(e))),
                Some(Err(w)) => Some(Err(w)),
                None => None,
            }
    }
}

#[verifier::rlimit(40)]
fn read_entry_1(pairs: &Vec<(String, String)>, i: usize) -> (r: Option<Result<Annotation, String>>)
    requires
        8 <= i < 16,
    ensures
        outcome_of(r) == tag_outcome_1(owned_pairs_view(pairs@), i as int),
{
    if i == 8 {
        match term_value::<ConsciousnessMode>(pairs, "consciousness") {
                Some(Ok(e)) => Some(Ok(Annotation::Consciousness(e))),
                Some(Err(w)) => Some(Err(w)),
                None => None,
            }
    }
    else if i == 9 {
        match term_value::<SpeechAct>(pairs, "speech_act") {
                Some(Ok(e)) => Some(Ok(Annotation::SpeechAct(e))),
                Some(Err(w)) => Some(Err(w)),
                None => None,
            }
    }
    else if i == 10 {
        match term_value::<GazeType>(pairs, "gaze") {
                Some(Ok(e)) => Some(Ok(Annotation::Gaze(e))),
                Some(Err(w)) => Some(Err(w)),
                None => None,
            }
    }
    else if i == 11 {
        match term_value::<PactType>(pairs, "pact") {
                Some(Ok(e)) => Some(Ok(Annotation::Pact(e))),
                Some(Err(w)) => Some(Err(w)),
                None => None,
            }
    }
    else if i == 12 {
        match term_value::<Actant>(pairs, "actant") {
                Some(Ok(e)) => Some(Ok(Annotation::Actant(e))),
                Some(Err(w)) => Some(Err(w)),
                None => None,
            }
    }
    else if i == 13 {
        psychic_distance_entry(pairs)
    }
    else if i == 14 {
        tension_entry(pairs)
    }
    else {
        match lookup_value(pairs, "subtext") {
                Some(v) => Some(Ok(Annotation::Subtext(v.clone()))),
                None => None,
            }
    }
}

#[verifier::rlimit(40)]
fn read_entry_2(pairs: &Vec<(String, String)>, i: usize) -> (r: Option<Result<Annotation, String>>)
    requires
        16 <= i < 24,
    ensures
        outcome_of(r) == tag_outcome_2(owned_pairs_view(pairs@), i as int),
{
    if i == 16 {
        match term_value::<RevisionFlag>(pairs, "flag") {
                Some(Ok(e)) => Some(Ok(Annotation::Flag(e))),
                Some(Err(w)) => Some(Err(w)),
                None => None,
            }
    }
    else if i == 17 {
        motif_entry(pairs)
    }
    else if i == 18 {
        chapter_entry(pairs)
    }
    else if i == 19 {
        match lookup_value(pairs, "speaker") {
                Some(v) => Some(Ok(Annotation::Speaker { name: v.clone() })),
                None => None,
            }
    }
    else if i == 20 {
        match term_value::<VoiceTone>(pairs, "tone") {
                Some(Ok(e)) => Some(Ok(Annotation::Tone(e))),
                Some(Err(w)) => Some(Err(w)),
                None => None,
            }
    }
    else if i == 21 {
        match lookup_value(pairs, "ambience") {
                Some(v) => Some(Ok(Annotation::Ambience(v.clone()))),
                None => None,
            }
    }
    else if i == 22 {
        match lookup_value(pairs, "music") {
                Some(v) => Some(Ok(Annotation::Music(v.clone()))),
                None => None,
            }
    }
    else {
        match lookup_value(pairs, "sfx") {
                Some(v) => Some(Ok(Annotation::Sfx(v.clone()))),
                None => None,
            }
    }
}

#[verifier::rlimit(40)]
fn read_entry_3(pairs: &Vec<(String, String)>, i: usize) -> (r: Option<Result<Annotation, String>>)
    requires
        24 <= i < 32,
    ensures
        outcome_of(r) == tag_outcome_3(owned_pairs_view(pairs@), i as int),
{
    if i == 24 {
        match lookup_value(pairs, "delivery") {
                Some(v) => Some(Ok(Annotation::Delivery(v.clone()))),
                None => None,
            }
    }
    else if i == 25 {
        match term_value::<ParatextZone>(pairs, "paratext_zone") {
                Some(Ok(e)) => Some(Ok(Annotation::ParatextZone(e))),
                Some(Err(w)) => Some(Err(w)),
                None => None,
            }
    }
    else if i == 26 {
        match term_value::<TemporalOrder>(pairs, "temporal_order") {
                Some(Ok(e)) => Some(Ok(Annotation::TemporalOrder(e))),
                Some(Err(w)) => Some(Err(w)),
                None => None,
            }
    }
    else if i == 27 {
        match term_value::<TemporalDuration>(pairs, "temporal_duration") {
                Some(Ok(e)) => Some(Ok(Annotation::TemporalDuration(e))),
                Some(Err(w)) => Some(Err(w)),
                None => None,
            }
    }
    else if i == 28 {
        match term_value::<TemporalFrequency>(pairs, "temporal_frequency") {
                Some(Ok(e)) => Some(Ok(Annotation::TemporalFrequency(e))),
                Some(Err(w)) => Some(Err(w)),
                None => None,
            }
    }
    else if i == 29 {
        match term_value::<ReaderExperienceEffect>(pairs, "reader_effect") {
                Some(Ok(e)) => Some(Ok(Annotation::ReaderEffect(e))),
                Some(Err(w)) => Some(Err(w)),
                None => None,
            }
    }
    else if i == 30 {
        match term_value::<IntertextualRelation>(pairs, "intertextual") {
                Some(Ok(e)) => Some(Ok(Annotation::Intertextual(e))),
                Some(Err(w)) => Some(Err(w)),
                None => None,
            }
    }
    else {
        match term_value::<BloomInfluenceMode>(pairs, "bloom_mode") {
                Some(Ok(e)) => Some(Ok(Annotation::BloomMode(e))),
                Some(Err(w)) => Some(Err(w)),
                None => None,
            }
    }
}

#[verifier::rlimit(40)]
fn read_entry_4(pairs: &Vec<(String, String)>, i: usize) -> (r: Option<Result<Annotation, String>>)
    requires
        32 <= i < 40,
    ensures
        outcome_of(r) == tag_outcome_4(owned_pairs_view(pairs@), i as int),
{
    if i == 32 {
        match term_value::<MetaphorType>(pairs, "metaphor") {
                Some(Ok(e)) => Some(Ok(Annotation::Metaphor(e))),
                Some(Err(w)) => Some(Err(w)),
                None => None,
            }
    }
    else if i == 33 {
        match term_value::<IronyType>(pairs, "irony") {
                Some(Ok(e)) => Some(Ok(Annotation::Irony(e))),
                Some(Err(w)) => Some(Err(w)),
                None => None,
            }
    }
    else if i == 34 {
        match term_value::<ComicMode>(pairs, "comic_mode") {
                Some(Ok(e)) => Some(Ok(Annotation::Comic(e))),
                Some(Err(w)) => Some(Err(w)),
                None => None,
            }
    }
    else if i == 35 {
        match term_value::<ComedyTheory>(pairs, "comedy_theory") {
                Some(Ok(e)) => Some(Ok(Annotation::ComedyGrounds(e))),
                Some(Err(w)) => Some(Err(w)),
                None => None,
            }
    }
    else if i == 36 {
        match term_value::<TraumaMode>(pairs, "trauma_mode") {
                Some(Ok(e)) => Some(Ok(Annotation::TraumaMode(e))),
                Some(Err(w)) => Some(Err(w)),
                None => None,
            }
    }
    else if i == 37 {
        match term_value::<HermanRecoveryStage>(pairs, "recovery_stage") {
                Some(Ok(e)) => Some(Ok(Annotation::RecoveryStage(e))),
                Some(Err(w)) => Some(Err(w)),
                None => None,
            }
    }
    else if i == 38 {
        match term_value::<PentadElement>(pairs, "pentad_element") {
                Some(Ok(e)) => Some(Ok(Annotation::PentadElement(e))),
                Some(Err(w)) => Some(Err(w)),
                None => None,
            }
    }
    else {
        match term_value::<PentadRatio>(pairs, "pentad_ratio") {
                Some(Ok(e)) => Some(Ok(Annotation::PentadRatio(e))),
                Some(Err(w)) => Some(Err(w)),
                None => None,
            }
    }
}

#[verifier::rlimit(40)]
fn read_entry_5(pairs: &Vec<(String, String)>, i: usize) -> (r: Option<Result<Annotation, String>>)
    requires
        40 <= i < 48,
    ensures
        outcome_of(r) == tag_outcome_5(owned_pairs_view(pairs@), i as int),
{
    if i == 40 {
        match term_value::<BurkeFormType>(pairs, "burke_form") {
                Some(Ok(e)) => Some(Ok(Annotation::BurkeForm(e))),
                Some(Err(w)) => Some(Err(w)),
                None => None,
            }
    }
    else if i == 41 {
        match term_value::<EmplotmentType>(pairs, "emplotment") {
                Some(Ok(e)) => Some(Ok(Annotation::Emplotment(e))),
                Some(Err(w)) => Some(Err(w)),
                None => None,
            }
    }
    else if i == 42 {
        match term_value::<MimesisPhase>(pairs, "mimesis") {
                Some(Ok(e)) => Some(Ok(Annotation::Mimesis(e))),
                Some(Err(w)) => Some(Err(w)),
                None => None,
            }
    }
    else if i == 43 {
        match term_value::<SpatialPractice>(pairs, "spatial_practice") {
                Some(Ok(e)) => Some(Ok(Annotation::SpatialPractice(e))),
                Some(Err(w)) => Some(Err(w)),
                None => None,
            }
    }
    else if i == 44 {
        match term_value::<EthicsAuditCategory>(pairs, "ethics") {
                Some(Ok(e)) => Some(Ok(Annotation::EthicsCategory(e))),
                Some(Err(w)) => Some(Err(w)),
                None => None,
            }
    }
    else if i == 45 {
        match term_value::<CulturalStructure>(pairs, "cultural_structure") {
                Some(Ok(e)) => Some(Ok(Annotation::CulturalStructure(e))),
                Some(Err(w)) => Some(Err(w)),
                None => None,
            }
    }
    else if i == 46 {
        match term_value::<SurvivranceMode>(pairs, "survivrance") {
                Some(Ok(e)) => Some(Ok(Annotation::SurvivranceMode(e))),
                Some(Err(w)) => Some(Err(w)),
                None => None,
            }
    }
    else {
        match term_value::<QueerTimeMode>(pairs, "queer_time") {
                Some(Ok(e)) => Some(Ok(Annotation::QueerTime(e))),
                Some(Err(w)) => Some(Err(w)),
                None => None,
            }
    }
}

#[verifier::rlimit(40)]
fn read_entry_6(pairs: &Vec<(String, String)>, i: usize) -> (r: Option<Result<Annotation, String>>)
    requires
        48 <= i < 56,
    ensures
        outcome_of(r) == tag_outcome_6(owned_pairs_view(pairs@), i as int),
{
    if i == 48 {
        match term_value::<DisabilityRepMode>(pairs, "disability_rep") {
                Some(Ok(e)) => Some(Ok(Annotation::DisabilityRep(e))),
                Some(Err(w)) => Some(Err(w)),
                None => None,
            }
    }
    else if i == 49 {
        match term_value::<AffectMode>(pairs, "affect") {
                Some(Ok(e)) => Some(Ok(Annotation::AffectMode(e))),
                Some(Err(w)) => Some(Err(w)),
                None => None,
            }
    }
    else if i == 50 {
        match term_value::<TransitivityProcess>(pairs, "transitivity") {
                Some(Ok(e)) => Some(Ok(Annotation::Transitivity(e))),
                Some(Err(w)) => Some(Err(w)),
                None => None,
            }
    }
    else if i == 51 {
        match term_value::<JakobsonFunction>(pairs, "jakobson") {
                Some(Ok(e)) => Some(Ok(Annotation::JakobsonFn(e))),
                Some(Err(w)) => Some(Err(w)),
                None => None,
            }
    }
    else if i == 52 {
        match term_value::<SignType>(pairs, "sign_type") {
                Some(Ok(e)) => Some(Ok(Annotation::Sign(e))),
                Some(Err(w)) => Some(Err(w)),
                None => None,
            }
    }
    else if i == 53 {
        match term_value::<YaNarratorType>(pairs, "ya_narrator") {
                Some(Ok(e)) => Some(Ok(Annotation::YaNarrator(e))),
                Some(Err(w)) => Some(Err(w)),
                None => None,
            }
    }
    else if i == 54 {
        match term_value::<RevisionPassType>(pairs, "revision_pass") {
                Some(Ok(e)) => Some(Ok(Annotation::RevisionPass(e))),
                Some(Err(w)) => Some(Err(w)),
                None => None,
            }
    }
    else {
        match term_value::<SerialArcType>(pairs, "serial_arc") {
                Some(Ok(e)) => Some(Ok(Annotation::SerialArc(e))),
                Some(Err(w)) => Some(Err(w)),
                None => None,
            }
    }
}

#[verifier::rlimit(40)]
fn read_entry_7(pairs: &Vec<(String, String)>, i: usize) -> (r: Option<Result<Annotation, String>>)
    requires
        56 <= i < 64,
    ensures
        outcome_of(r) == tag_outcome_7(owned_pairs_view(pairs@), i as int),
{
    if i == 56 {
        match term_value::<FreudianMechanism>(pairs, "freudian") {
                Some(Ok(e)) => Some(Ok(Annotation::FreudianMechanism(e))),
                Some(Err(w)) => Some(Err(w)),
                None => None,
            }
    }
    else if i == 57 {
        match term_value::<LacanRegister>(pairs, "lacan_register") {
                Some(Ok(e)) => Some(Ok(Annotation::LacanRegister(e))),
                Some(Err(w)) => Some(Err(w)),
                None => None,
            }
    }
    else if i == 58 {
        match term_value::<AbjectCategory>(pairs, "abject") {
                Some(Ok(e)) => Some(Ok(Annotation::Abject(e))),
                Some(Err(w)) => Some(Err(w)),
                None => None,
            }
    }
    else if i == 59 {
        match term_value::<PostcolonialMode>(pairs, "postcolonial") {
                Some(Ok(e)) => Some(Ok(Annotation::PostcolonialMode(e))),
                Some(Err(w)) => Some(Err(w)),
                None => None,
            }
    }
    else if i == 60 {
        match term_value::<EcocriticalMode>(pairs, "ecocritical") {
                Some(Ok(e)) => Some(Ok(Annotation::EcocriticalMode(e))),
                Some(Err(w)) => Some(Err(w)),
                None => None,
            }
    }
    else if i == 61 {
        match term_value::<ImageSchema>(pairs, "image_schema") {
                Some(Ok(e)) => Some(Ok(Annotation::ImageSchema(e))),
                Some(Err(w)) => Some(Err(w)),
                None => None,
            }
    }
    else if i == 62 {
        match term_value::<DefamiliarizationMode>(pairs, "defamiliarize") {
                Some(Ok(e)) => Some(Ok(Annotation::Defamiliarization(e))),
                Some(Err(w)) => Some(Err(w)),
                None => None,
            }
    }
    else {
        match term_value::<SemioticSquarePosition>(pairs, "semiotic_pos") {
                Some(Ok(e)) => Some(Ok(Annotation::SemioticPosition(e))),
                Some(Err(w)) => Some(Err(w)),
                None => None,
            }
    }
}

#[verifier::rlimit(40)]
fn read_entry_8(pairs: &Vec<(String, String)>, i: usize) -> (r: Option<Result<Annotation, String>>)
    requires
        64 <= i < 72,
    ensures
        outcome_of(r) == tag_outcome_8(owned_pairs_view(pairs@), i as int),
{
    if i == 64 {
        match term_value::<ExperimentalNarrationMode>(pairs, "experimental") {
                Some(Ok(e)) => Some(Ok(Annotation::ExperimentalMode(e))),
                Some(Err(w)) => Some(Err(w)),
                None => None,
            }
    }
    else if i == 65 {
        match term_value::<PosthumanMode>(pairs, "posthuman") {
                Some(Ok(e)) => Some(Ok(Annotation::PosthumanMode(e))),
                Some(Err(w)) => Some(Err(w)),
                None => None,
            }
    }
    else if i == 66 {
        match term_value::<MarxistNarrativeMode>(pairs, "marxist_mode") {
                Some(Ok(e)) => Some(Ok(Annotation::MarxistMode(e))),
                Some(Err(w)) => Some(Err(w)),
                None => None,
            }
    }
    else if i == 67 {
        match term_value::<FeministNarrativeType>(pairs, "feminist") {
                Some(Ok(e)) => Some(Ok(Annotation::FeministNarrative(e))),
                Some(Err(w)) => Some(Err(w)),
                None => None,
            }
    }
    else if i == 68 {
        match term_value::<SignifyingMode>(pairs, "signifying") {
                Some(Ok(e)) => Some(Ok(Annotation::Signifying(e))),
                Some(Err(w)) => Some(Err(w)),
                None => None,
            }
    }
    else if i == 69 {
        match term_value::<CognitiveNarrativeMode>(pairs, "cognitive") {
                Some(Ok(e)) => Some(Ok(Annotation::CognitiveModeTag(e))),
                Some(Err(w)) => Some(Err(w)),
                None => None,
            }
    }
    else if i == 70 {
        match term_value::<ProsodicElement>(pairs, "prosodic") {
                Some(Ok(e)) => Some(Ok(Annotation::ProsodicElement(e))),
                Some(Err(w)) => Some(Err(w)),
                None => None,
            }
    }
    else {
        match term_value::<ProppFunction>(pairs, "propp") {
                Some(Ok(e)) => Some(Ok(Annotation::ProppFunction(e))),
                Some(Err(w)) => Some(Err(w)),
                None => None,
            }
    }
}

#[verifier::rlimit(40)]
fn read_entry_9(pairs: &Vec<(String, String)>, i: usize) -> (r: Option<Result<Annotation, String>>)
    requires
        72 <= i < 80,
    ensures
        outcome_of(r) == tag_outcome_9(owned_pairs_view(pairs@), i as int),
{
    if i == 72 {
        match term_value::<PerformativityMode>(pairs, "performativity") {
                Some(Ok(e)) => Some(Ok(Annotation::Performativity(e))),
                Some(Err(w)) => Some(Err(w)),
                None => None,
            }
    }
    else if i == 73 {
        match term_value::<AutofictionMode>(pairs, "autofiction") {
                Some(Ok(e)) => Some(Ok(Annotation::AutofictionMode(e))),
                Some(Err(w)) => Some(Err(w)),
                None => None,
            }
    }
    else if i == 74 {
        match term_value::<NarrativeEthicsMode>(pairs, "narrative_ethics") {
                Some(Ok(e)) => Some(Ok(Annotation::NarrativeEthics(e))),
                Some(Err(w)) => Some(Err(w)),
                None => None,
            }
    }
    else if i == 75 {
        match term_value::<JenkinsTransmediaType>(pairs, "transmedia") {
                Some(Ok(e)) => Some(Ok(Annotation::TransmediaType(e))),
                Some(Err(w)) => Some(Err(w)),
                None => None,
            }
    }
    else if i == 76 {
        match term_value::<AccessibilityRelation>(pairs, "accessibility") {
                Some(Ok(e)) => Some(Ok(Annotation::AccessibilityRelation(e))),
                Some(Err(w)) => Some(Err(w)),
                None => None,
            }
    }
    else if i == 77 {
        match term_value::<AdaptationMode>(pairs, "adaptation") {
                Some(Ok(e)) => Some(Ok(Annotation::Adaptation(e))),
                Some(Err(w)) => Some(Err(w)),
                None => None,
            }
    }
    else if i == 78 {
        match term_value::<GriceanMaxim>(pairs, "gricean") {
                Some(Ok(e)) => Some(Ok(Annotation::GriceanMaxim(e))),
                Some(Err(w)) => Some(Err(w)),
                None => None,
            }
    }
    else {
        match term_value::<IntimateSpaceType>(pairs, "intimate_space") {
                Some(Ok(e)) => Some(Ok(Annotation::IntimateSpace(e))),
                Some(Err(w)) => Some(Err(w)),
                None => None,
            }
    }
}

#[verifier::rlimit(40)]
fn read_entry_10(pairs: &Vec<(String, String)>, i: usize) -> (r: Option<Result<Annotation, String>>)
    requires
        80 <= i < 88,
    ensures
        outcome_of(r) == tag_outcome_10(owned_pairs_view(pairs@), i as int),
{
    if i == 80 {
        match term_value::<MultilingualStrategy>(pairs, "multilingual") {
                Some(Ok(e)) => Some(Ok(Annotation::Multilingual(e))),
                Some(Err(w)) => Some(Err(w)),
                None => None,
            }
    }
    else if i == 81 {
        match term_value::<PanelTransitionType>(pairs, "panel_transition") {
                Some(Ok(e)) => Some(Ok(Annotation::PanelTransition(e))),
                Some(Err(w)) => Some(Err(w)),
                None => None,
            }
    }
    else if i == 82 {
        match term_value::<StoryworkProtocol>(pairs, "storywork") {
                Some(Ok(e)) => Some(Ok(Annotation::Storywork(e))),
                Some(Err(w)) => Some(Err(w)),
                None => None,
            }
    }
    else if i == 83 {
        match term_value::<TranslationStrategy>(pairs, "translation") {
                Some(Ok(e)) => Some(Ok(Annotation::TranslationStrategy(e))),
                Some(Err(w)) => Some(Err(w)),
                None => None,
            }
    }
    else if i == 84 {
        match term_value::<VisualVerbalRelation>(pairs, "visual_verbal") {
                Some(Ok(e)) => Some(Ok(Annotation::VisualVerbal(e))),
                Some(Err(w)) => Some(Err(w)),
                None => None,
            }
    }
    else if i == 85 {
        match term_value::<GenreReadingMode>(pairs, "genre_reading") {
                Some(Ok(e)) => Some(Ok(Annotation::GenreReading(e))),
                Some(Err(w)) => Some(Err(w)),
                None => None,
            }
    }
    else if i == 86 {
        match term_value::<SceneFunction>(pairs, "scene_function") {
                Some(Ok(e)) => Some(Ok(Annotation::SceneFunction(e))),
                Some(Err(w)) => Some(Err(w)),
                None => None,
            }
    }
    else {
        match term_value::<SceneType>(pairs, "scene_type") {
                Some(Ok(e)) => Some(Ok(Annotation::SceneType(e))),
                Some(Err(w)) => Some(Err(w)),
                None => None,
            }
    }
}

#[verifier::rlimit(40)]
fn read_entry_11(pairs: &Vec<(String, String)>, i: usize) -> (r: Option<Result<Annotation, String>>)
    requires
        88 <= i < 96,
    ensures
        outcome_of(r) == tag_outcome_11(owned_pairs_view(pairs@), i as int),
{
    if i == 88 {
        match term_value::<ConflictType>(pairs, "conflict") {
                Some(Ok(e)) => Some(Ok(Annotation::Conflict(e))),
                Some(Err(w)) => Some(Err(w)),
                None => None,
            }
    }
    else if i == 89 {
        match term_value::<ArcType>(pairs, "arc") {
                Some(Ok(e)) => Some(Ok(Annotation::Arc(e))),
                Some(Err(w)) => Some(Err(w)),
                None => None,
            }
    }
    else if i == 90 {
        match term_value::<ArcPattern>(pairs, "arc_pattern") {
                Some(Ok(e)) => Some(Ok(Annotation::ArcPattern(e))),
                Some(Err(w)) => Some(Err(w)),
                None => None,
            }
    }
    else if i == 91 {
        match term_value::<OutcomeType>(pairs, "outcome") {
                Some(Ok(e)) => Some(Ok(Annotation::Outcome(e))),
                Some(Err(w)) => Some(Err(w)),
                None => None,
            }
    }
    else if i == 92 {
        match term_value::<DominantSense>(pairs, "sense") {
                Some(Ok(e)) => Some(Ok(Annotation::DominantSense(e))),
                Some(Err(w)) => Some(Err(w)),
                None => None,
            }
    }
    else if i == 93 {
        match term_value::<TimeOfDay>(pairs, "time_of_day") {
                Some(Ok(e)) => Some(Ok(Annotation::TimeOfDay(e))),
                Some(Err(w)) => Some(Err(w)),
                None => None,
            }
    }
    else if i == 94 {
        match term_value::<Weather>(pairs, "weather") {
                Some(Ok(e)) => Some(Ok(Annotation::Weather(e))),
                Some(Err(w)) => Some(Err(w)),
                None => None,
            }
    }
    else {
        match term_value::<WorldDeliveryMethod>(pairs, "world_delivery") {
                Some(Ok(e)) => Some(Ok(Annotation::WorldDelivery(e))),
                Some(Err(w)) => Some(Err(w)),
                None => None,
            }
    }
}

#[verifier::rlimit(40)]
fn read_entry_12(pairs: &Vec<(String, String)>, i: usize) -> (r: Option<Result<Annotation, String>>)
    requires
        96 <= i < 104,
    ensures
        outcome_of(r) == tag_outcome_12(owned_pairs_view(pairs@), i as int),
{
    if i == 96 {
        match term_value::<PovType>(pairs, "pov") {
                Some(Ok(e)) => Some(Ok(Annotation::Pov(e))),
                Some(Err(w)) => Some(Err(w)),
                None => None,
            }
    }
    else if i == 97 {
        match term_value::<FocalizationType>(pairs, "focalization_type") {
                Some(Ok(e)) => Some(Ok(Annotation::FocalizationType(e))),
                Some(Err(w)) => Some(Err(w)),
                None => None,
            }
    }
    else if i == 98 {
        match term_value::<KnowledgeScope>(pairs, "knowledge") {
                Some(Ok(e)) => Some(Ok(Annotation::Knowledge(e))),
                Some(Err(w)) => Some(Err(w)),
                None => None,
            }
    }
    else if i == 99 {
        match term_value::<ReliabilitySpectrum>(pairs, "reliability") {
                Some(Ok(e)) => Some(Ok(Annotation::Reliability(e))),
                Some(Err(w)) => Some(Err(w)),
                None => None,
            }
    }
    else if i == 100 {
        match term_value::<EngagementMode>(pairs, "engagement") {
                Some(Ok(e)) => Some(Ok(Annotation::Engagement(e))),
                Some(Err(w)) => Some(Err(w)),
                None => None,
            }
    }
    else if i == 101 {
        match term_value::<NarrativeDistance>(pairs, "narrative_distance") {
                Some(Ok(e)) => Some(Ok(Annotation::Distance(e))),
                Some(Err(w)) => Some(Err(w)),
                None => None,
            }
    }
    else if i == 102 {
        match term_value::<VoiceStructure>(pairs, "voice_structure") {
                Some(Ok(e)) => Some(Ok(Annotation::Voice(e))),
                Some(Err(w)) => Some(Err(w)),
                None => None,
            }
    }
    else {
        match term_value::<SentenceLength>(pairs, "sentence_length") {
                Some(Ok(e)) => Some(Ok(Annotation::SentenceLength(e))),
                Some(Err(w)) => Some(Err(w)),
                None => None,
            }
    }
}

#[verifier::rlimit(40)]
fn read_entry_13(pairs: &Vec<(String, String)>, i: usize) -> (r: Option<Result<Annotation, String>>)
    requires
        104 <= i < 112,
    ensures
        outcome_of(r) == tag_outcome_13(owned_pairs_view(pairs@), i as int),
{
    if i == 104 {
        match term_value::<SentenceType>(pairs, "sentence_type") {
                Some(Ok(e)) => Some(Ok(Annotation::SentenceType(e))),
                Some(Err(w)) => Some(Err(w)),
                None => None,
            }
    }
    else if i == 105 {
        match term_value::<SentenceArchitecture>(pairs, "sentence_arch") {
                Some(Ok(e)) => Some(Ok(Annotation::SentenceArch(e))),
                Some(Err(w)) => Some(Err(w)),
                None => None,
            }
    }
    else if i == 106 {
        match term_value::<VocabularyLevel>(pairs, "vocabulary") {
                Some(Ok(e)) => Some(Ok(Annotation::Vocabulary(e))),
                Some(Err(w)) => Some(Err(w)),
                None => None,
            }
    }
    else if i == 107 {
        match term_value::<ProfanityLevel>(pairs, "profanity") {
                Some(Ok(e)) => Some(Ok(Annotation::Profanity(e))),
                Some(Err(w)) => Some(Err(w)),
                None => None,
            }
    }
    else if i == 108 {
        match term_value::<OpeningType>(pairs, "opening_type") {
                Some(Ok(e)) => Some(Ok(Annotation::OpeningType(e))),
                Some(Err(w)) => Some(Err(w)),
                None => None,
            }
    }
    else if i == 109 {
        match term_value::<QuestionDelivery>(pairs, "question_delivery") {
                Some(Ok(e)) => Some(Ok(Annotation::QuestionDelivery(e))),
                Some(Err(w)) => Some(Err(w)),
                None => None,
            }
    }
    else if i == 110 {
        match term_value::<Complexity>(pairs, "complexity") {
                Some(Ok(e)) => Some(Ok(Annotation::Complexity(e))),
                Some(Err(w)) => Some(Err(w)),
                None => None,
            }
    }
    else {
        match term_value::<DisplacementGap>(pairs, "displacement") {
                Some(Ok(e)) => Some(Ok(Annotation::Displacement(e))),
                Some(Err(w)) => Some(Err(w)),
                None => None,
            }
    }
}

#[verifier::rlimit(40)]
fn read_entry_14(pairs: &Vec<(String, String)>, i: usize) -> (r: Option<Result<Annotation, String>>)
    requires
        112 <= i < 115,
    ensures
        outcome_of(r) == tag_outcome_14(owned_pairs_view(pairs@), i as int),
{
    if i == 112 {
        match term_value::<NonResponseType>(pairs, "non_response") {
            Some(Ok(e)) => Some(Ok(Annotation::NonResponse(e))),
            Some(Err(w)) => Some(Err(w)),
            None => None,
        }
    } else if i == 113 {
        match term_value::<DriveModel>(pairs, "drive_model") {
            Some(Ok(e)) => Some(Ok(Annotation::DriveModel(e))),
            Some(Err(w)) => Some(Err(w)),
            None => None,
        }
    } else {
        match term_value::<MotifStage>(pairs, "stage") {
            Some(Err(w)) => Some(Err(w)),
            _ => None,
        }
    }
}

fn read_entry(pairs: &Vec<(String, String)>, i: usize) -> (r: Option<Result<Annotation, String>>)
    requires
        i < TAG_KEY_COUNT,
    ensures
        outcome_of(r) == tag_outcome(owned_pairs_view(pairs@), i as int),
{
    if i < 8 {
        read_entry_0(pairs, i)
    }
    else if i < 16 {
        read_entry_1(pairs, i)
    }
    else if i < 24 {
        read_entry_2(pairs, i)
    }
    else if i < 32 {
        read_entry_3(pairs, i)
    }
    else if i < 40 {
        read_entry_4(pairs, i)
    }
    else if i < 48 {
        read_entry_5(pairs, i)
    }
    else if i < 56 {
        read_entry_6(pairs, i)
    }
    else if i < 64 {
        read_entry_7(pairs, i)
    }
    else if i < 72 {
        read_entry_8(pairs, i)
    }
    else if i < 80 {
        read_entry_9(pairs, i)
    }
    else if i < 88 {
        read_entry_10(pairs, i)
    }
    else if i < 96 {
        read_entry_11(pairs, i)
    }
    else if i < 104 {
        read_entry_12(pairs, i)
    }
    else if i < 112 {
        read_entry_13(pairs, i)
    }
    else {
        read_entry_14(pairs, i)
    }
}

/// The annotations the read-back law covers: every one that flattens to a
/// pair, with scores in range and threads whose text is not taken by another
/// reading.
pub open spec fn read_back(a: AnnotationView) -> bool {
    match a {
        AnnotationView::Thread(t) => thread_reads_back(t),
        AnnotationView::PsychicDistance(n) => 1 <= n <= 5,
        AnnotationView::Tension(n) => 1 <= n <= 10,
        _ => pair_of(a) is Some,
    }
}

/// A parsed outcome is among the annotations of the outcomes.
pub proof fn lemma_parsed_listed(os: Seq<TagOutcome>, i: int)
    requires
        0 <= i < os.len(),
        os[i] is Parsed,
    ensures
        outcome_annotations(os).contains(os[i]->Parsed_0),
    decreases os.len(),
{
    let a = os[i]->Parsed_0;
    if i == os.len() - 1 {
        assert(outcome_annotations(os) == outcome_annotations(os.drop_last()) + seq![a]);
        assert(outcome_annotations(os)[outcome_annotations(os).len() - 1] == a);
    } else {
        assert(os.drop_last()[i] == os[i]);
        lemma_parsed_listed(os.drop_last(), i);
        let prefix = outcome_annotations(os.drop_last());
        let k = choose|k: int| 0 <= k < prefix.len() && prefix[k] == a;
        assert(outcome_annotations(os)[k] == a);
    }
}

/// The pair an annotation flattens to reads it back: reading any pair list
/// whose last value for that key is the pair's value yields the annotation.
pub proof fn lemma_pair_read_back(kv: Seq<PairView>, a: AnnotationView)
    requires
        read_back(a),
        pair_of(a) matches Some(p) && lookup(kv, p.0) == Some(p.1),
    ensures
        outcome_annotations(tag_outcomes(kv)).contains(a),
{
    if a is Thread {
        lemma_thread_text_read_back(a->Thread_0);
        lemma_parsed_listed(tag_outcomes(kv), 3);
    } else if a is DriveModel {
        lemma_parse_name_of_name::<DriveModel>(a->DriveModel_0);
        lemma_parsed_listed(tag_outcomes(kv), 113);
    } else if read_back_group_0(a) {
        lemma_read_back_0(kv, a);
    } else if read_back_group_1(a) {
        lemma_read_back_1(kv, a);
    } else if read_back_group_2(a) {
        lemma_read_back_2(kv, a);
    } else if read_back_group_3(a) {
        lemma_read_back_3(kv, a);
    } else if read_back_group_4(a) {
        lemma_read_back_4(kv, a);
    } else if read_back_group_5(a) {
        lemma_read_back_5(kv, a);
    } else if read_back_group_6(a) {
        lemma_read_back_6(kv, a);
    } else if read_back_group_7(a) {
        lemma_read_back_7(kv, a);
    } else if read_back_group_8(a) {
        lemma_read_back_8(kv, a);
    } else if read_back_group_9(a) {
        lemma_read_back_9(kv, a);
    } else if read_back_group_10(a) {
        lemma_read_back_10(kv, a);
    } else if read_back_group_11(a) {
        lemma_read_back_11(kv, a);
    } else if read_back_group_12(a) {
        lemma_read_back_12(kv, a);
    }
}

/// The annotations read back by [`lemma_read_back_0`].
pub open spec fn read_back_group_0(a: AnnotationView) -> bool {
    match a {
        AnnotationView::Character(_)
        | AnnotationView::Setting(_)
        | AnnotationView::Beat(_)
        | AnnotationView::DiegeticLevel(_)
        | AnnotationView::Consciousness(_)
        | AnnotationView::SpeechAct(_)
        | AnnotationView::Gaze(_)
        | AnnotationView::Pact(_) => true,
        _ => false,
    }
}

/// [`lemma_pair_read_back`] for the annotations of [`read_back_group_0`].
pub proof fn lemma_read_back_0(kv: Seq<PairView>, a: AnnotationView)
    requires
        read_back(a),
        read_back_group_0(a),
        pair_of(a) matches Some(p) && lookup(kv, p.0) == Some(p.1),
    ensures
        outcome_annotations(tag_outcomes(kv)).contains(a),
{
    let os = tag_outcomes(kv);
    match a {
        AnnotationView::Character(s) => {
            lemma_parsed_listed(os, 0);
        },
        AnnotationView::Setting(s) => {
            lemma_parsed_listed(os, 1);
        },
        AnnotationView::Beat(s) => {
            lemma_parsed_listed(os, 2);
        },
        AnnotationView::DiegeticLevel(e) => {
            lemma_parse_name_of_name::<DiegeticLevel>(e);
            lemma_parsed_listed(os, 7);
        },
        AnnotationView::Consciousness(e) => {
            lemma_parse_name_of_name::<ConsciousnessMode>(e);
            lemma_parsed_listed(os, 8);
        },
        AnnotationView::SpeechAct(e) => {
            lemma_parse_name_of_name::<SpeechAct>(e);
            lemma_parsed_listed(os, 9);
        },
        AnnotationView::Gaze(e) => {
            lemma_parse_name_of_name::<GazeType>(e);
            lemma_parsed_listed(os, 10);
        },
        AnnotationView::Pact(e) => {
            lemma_parse_name_of_name::<PactType>(e);
            lemma_parsed_listed(os, 11);
        },
        _ => {},
    }
}

/// The annotations read back by [`lemma_read_back_1`].
pub open spec fn read_back_group_1(a: AnnotationView) -> bool {
    match a {
        AnnotationView::Actant(_)
        | AnnotationView::PsychicDistance(_)
        | AnnotationView::Tension(_)
        | AnnotationView::Subtext(_)
        | AnnotationView::Flag(_)
        | AnnotationView::Tone(_)
        | AnnotationView::ParatextZone(_)
        | AnnotationView::TemporalOrder(_) => true,
        _ => false,
    }
}

/// [`lemma_pair_read_back`] for the annotations of [`read_back_group_1`].
pub proof fn lemma_read_back_1(kv: Seq<PairView>, a: AnnotationView)
    requires
        read_back(a),
        read_back_group_1(a),
        pair_of(a) matches Some(p) && lookup(kv, p.0) == Some(p.1),
    ensures
        outcome_annotations(tag_outcomes(kv)).contains(a),
{
    let os = tag_outcomes(kv);
    match a {
        AnnotationView::Actant(e) => {
            lemma_parse_name_of_name::<Actant>(e);
            lemma_parsed_listed(os, 12);
        },
        AnnotationView::PsychicDistance(n) => {
            lemma_parse_decimal(n as nat, 255);
            lemma_parsed_listed(os, 13);
        },
        AnnotationView::Tension(n) => {
            lemma_parse_decimal(n as nat, 255);
            lemma_parsed_listed(os, 14);
        },
        AnnotationView::Subtext(s) => {
            lemma_parsed_listed(os, 15);
        },
        AnnotationView::Flag(e) => {
            lemma_parse_name_of_name::<RevisionFlag>(e);
            lemma_parsed_listed(os, 16);
        },
        AnnotationView::Tone(e) => {
            lemma_parse_name_of_name::<VoiceTone>(e);
            lemma_parsed_listed(os, 20);
        },
        AnnotationView::ParatextZone(e) => {
            lemma_parse_name_of_name::<ParatextZone>(e);
            lemma_parsed_listed(os, 25);
        },
        AnnotationView::TemporalOrder(e) => {
            lemma_parse_name_of_name::<TemporalOrder>(e);
            lemma_parsed_listed(os, 26);
        },
        _ => {},
    }
}

/// The annotations read back by [`lemma_read_back_2`].
pub open spec fn read_back_group_2(a: AnnotationView) -> bool {
    match a {
        AnnotationView::TemporalDuration(_)
        | AnnotationView::TemporalFrequency(_)
        | AnnotationView::ReaderEffect(_)
        | AnnotationView::Intertextual(_)
        | AnnotationView::BloomMode(_)
        | AnnotationView::Metaphor(_)
        | AnnotationView::Irony(_)
        | AnnotationView::Comic(_) => true,
        _ => false,
    }
}

/// [`lemma_pair_read_back`] for the annotations of [`read_back_group_2`].
pub proof fn lemma_read_back_2(kv: Seq<PairView>, a: AnnotationView)
    requires
        read_back(a),
        read_back_group_2(a),
        pair_of(a) matches Some(p) && lookup(kv, p.0) == Some(p.1),
    ensures
        outcome_annotations(tag_outcomes(kv)).contains(a),
{
    let os = tag_outcomes(kv);
    match a {
        AnnotationView::TemporalDuration(e) => {
            lemma_parse_name_of_name::<TemporalDuration>(e);
            lemma_parsed_listed(os, 27);
        },
        AnnotationView::TemporalFrequency(e) => {
            lemma_parse_name_of_name::<TemporalFrequency>(e);
            lemma_parsed_listed(os, 28);
        },
        AnnotationView::ReaderEffect(e) => {
            lemma_parse_name_of_name::<ReaderExperienceEffect>(e);
            lemma_parsed_listed(os, 29);
        },
        AnnotationView::Intertextual(e) => {
            lemma_parse_name_of_name::<IntertextualRelation>(e);
            lemma_parsed_listed(os, 30);
        },
        AnnotationView::BloomMode(e) => {
            lemma_parse_name_of_name::<BloomInfluenceMode>(e);
            lemma_parsed_listed(os, 31);
        },
        AnnotationView::Metaphor(e) => {
            lemma_parse_name_of_name::<MetaphorType>(e);
            lemma_parsed_listed(os, 32);
        },
        AnnotationView::Irony(e) => {
            lemma_parse_name_of_name::<IronyType>(e);
            lemma_parsed_listed(os, 33);
        },
        AnnotationView::Comic(e) => {
            lemma_parse_name_of_name::<ComicMode>(e);
            lemma_parsed_listed(os, 34);
        },
        _ => {},
    }
}

/// The annotations read back by [`lemma_read_back_3`].
pub open spec fn read_back_group_3(a: AnnotationView) -> bool {
    match a {
        AnnotationView::ComedyGrounds(_)
        | AnnotationView::TraumaMode(_)
        | AnnotationView::RecoveryStage(_)
        | AnnotationView::PentadElement(_)
        | AnnotationView::PentadRatio(_)
        | AnnotationView::BurkeForm(_)
        | AnnotationView::Emplotment(_)
        | AnnotationView::Mimesis(_) => true,
        _ => false,
    }
}

/// [`lemma_pair_read_back`] for the annotations of [`read_back_group_3`].
pub proof fn lemma_read_back_3(kv: Seq<PairView>, a: AnnotationView)
    requires
        read_back(a),
        read_back_group_3(a),
        pair_of(a) matches Some(p) && lookup(kv, p.0) == Some(p.1),
    ensures
        outcome_annotations(tag_outcomes(kv)).contains(a),
{
    let os = tag_outcomes(kv);
    match a {
        AnnotationView::ComedyGrounds(e) => {
            lemma_parse_name_of_name::<ComedyTheory>(e);
            lemma_parsed_listed(os, 35);
        },
        AnnotationView::TraumaMode(e) => {
            lemma_parse_name_of_name::<TraumaMode>(e);
            lemma_parsed_listed(os, 36);
        },
        AnnotationView::RecoveryStage(e) => {
            lemma_parse_name_of_name::<HermanRecoveryStage>(e);
            lemma_parsed_listed(os, 37);
        },
        AnnotationView::PentadElement(e) => {
            lemma_parse_name_of_name::<PentadElement>(e);
            lemma_parsed_listed(os, 38);
        },
        AnnotationView::PentadRatio(e) => {
            lemma_parse_name_of_name::<PentadRatio>(e);
            lemma_parsed_listed(os, 39);
        },
        AnnotationView::BurkeForm(e) => {
            lemma_parse_name_of_name::<BurkeFormType>(e);
            lemma_parsed_listed(os, 40);
        },
        AnnotationView::Emplotment(e) => {
            lemma_parse_name_of_name::<EmplotmentType>(e);
            lemma_parsed_listed(os, 41);
        },
        AnnotationView::Mimesis(e) => {
            lemma_parse_name_of_name::<MimesisPhase>(e);
            lemma_parsed_listed(os, 42);
        },
        _ => {},
    }
}

/// The annotations read back by [`lemma_read_back_4`].
pub open spec fn read_back_group_4(a: AnnotationView) -> bool {
    match a {
        AnnotationView::SpatialPractice(_)
        | AnnotationView::EthicsCategory(_)
        | AnnotationView::CulturalStructure(_)
        | AnnotationView::SurvivranceMode(_)
        | AnnotationView::QueerTime(_)
        | AnnotationView::DisabilityRep(_)
        | AnnotationView::AffectMode(_)
        | AnnotationView::Transitivity(_) => true,
        _ => false,
    }
}

/// [`lemma_pair_read_back`] for the annotations of [`read_back_group_4`].
pub proof fn lemma_read_back_4(kv: Seq<PairView>, a: AnnotationView)
    requires
        read_back(a),
        read_back_group_4(a),
        pair_of(a) matches Some(p) && lookup(kv, p.0) == Some(p.1),
    ensures
        outcome_annotations(tag_outcomes(kv)).contains(a),
{
    let os = tag_outcomes(kv);
    match a {
        AnnotationView::SpatialPractice(e) => {
            lemma_parse_name_of_name::<SpatialPractice>(e);
            lemma_parsed_listed(os, 43);
        },
        AnnotationView::EthicsCategory(e) => {
            lemma_parse_name_of_name::<EthicsAuditCategory>(e);
            lemma_parsed_listed(os, 44);
        },
        AnnotationView::CulturalStructure(e) => {
            lemma_parse_name_of_name::<CulturalStructure>(e);
            lemma_parsed_listed(os, 45);
        },
        AnnotationView::SurvivranceMode(e) => {
            lemma_parse_name_of_name::<SurvivranceMode>(e);
            lemma_parsed_listed(os, 46);
        },
        AnnotationView::QueerTime(e) => {
            lemma_parse_name_of_name::<QueerTimeMode>(e);
            lemma_parsed_listed(os, 47);
        },
        AnnotationView::DisabilityRep(e) => {
            lemma_parse_name_of_name::<DisabilityRepMode>(e);
            lemma_parsed_listed(os, 48);
        },
        AnnotationView::AffectMode(e) => {
            lemma_parse_name_of_name::<AffectMode>(e);
            lemma_parsed_listed(os, 49);
        },
        AnnotationView::Transitivity(e) => {
            lemma_parse_name_of_name::<TransitivityProcess>(e);
            lemma_parsed_listed(os, 50);
        },
        _ => {},
    }
}

/// The annotations read back by [`lemma_read_back_5`].
pub open spec fn read_back_group_5(a: AnnotationView) -> bool {
    match a {
        AnnotationView::JakobsonFn(_)
        | AnnotationView::Sign(_)
        | AnnotationView::YaNarrator(_)
        | AnnotationView::RevisionPass(_)
        | AnnotationView::SerialArc(_)
        | AnnotationView::FreudianMechanism(_)
        | AnnotationView::LacanRegister(_)
        | AnnotationView::Abject(_) => true,
        _ => false,
    }
}

/// [`lemma_pair_read_back`] for the annotations of [`read_back_group_5`].
pub proof fn lemma_read_back_5(kv: Seq<PairView>, a: AnnotationView)
    requires
        read_back(a),
        read_back_group_5(a),
        pair_of(a) matches Some(p) && lookup(kv, p.0) == Some(p.1),
    ensures
        outcome_annotations(tag_outcomes(kv)).contains(a),
{
    let os = tag_outcomes(kv);
    match a {
        AnnotationView::JakobsonFn(e) => {
            lemma_parse_name_of_name::<JakobsonFunction>(e);
            lemma_parsed_listed(os, 51);
        },
        AnnotationView::Sign(e) => {
            lemma_parse_name_of_name::<SignType>(e);
            lemma_parsed_listed(os, 52);
        },
        AnnotationView::YaNarrator(e) => {
            lemma_parse_name_of_name::<YaNarratorType>(e);
            lemma_parsed_listed(os, 53);
        },
        AnnotationView::RevisionPass(e) => {
            lemma_parse_name_of_name::<RevisionPassType>(e);
            lemma_parsed_listed(os, 54);
        },
        AnnotationView::SerialArc(e) => {
            lemma_parse_name_of_name::<SerialArcType>(e);
            lemma_parsed_listed(os, 55);
        },
        AnnotationView::FreudianMechanism(e) => {
            lemma_parse_name_of_name::<FreudianMechanism>(e);
            lemma_parsed_listed(os, 56);
        },
        AnnotationView::LacanRegister(e) => {
            lemma_parse_name_of_name::<LacanRegister>(e);
            lemma_parsed_listed(os, 57);
        },
        AnnotationView::Abject(e) => {
            lemma_parse_name_of_name::<AbjectCategory>(e);
            lemma_parsed_listed(os, 58);
        },
        _ => {},
    }
}

/// The annotations read back by [`lemma_read_back_6`].
pub open spec fn read_back_group_6(a: AnnotationView) -> bool {
    match a {
        AnnotationView::PostcolonialMode(_)
        | AnnotationView::EcocriticalMode(_)
        | AnnotationView::ImageSchema(_)
        | AnnotationView::Defamiliarization(_)
        | AnnotationView::SemioticPosition(_)
        | AnnotationView::ExperimentalMode(_)
        | AnnotationView::PosthumanMode(_)
        | AnnotationView::MarxistMode(_) => true,
        _ => false,
    }
}

/// [`lemma_pair_read_back`] for the annotations of [`read_back_group_6`].
pub proof fn lemma_read_back_6(kv: Seq<PairView>, a: AnnotationView)
    requires
        read_back(a),
        read_back_group_6(a),
        pair_of(a) matches Some(p) && lookup(kv, p.0) == Some(p.1),
    ensures
        outcome_annotations(tag_outcomes(kv)).contains(a),
{
    let os = tag_outcomes(kv);
    match a {
        AnnotationView::PostcolonialMode(e) => {
            lemma_parse_name_of_name::<PostcolonialMode>(e);
            lemma_parsed_listed(os, 59);
        },
        AnnotationView::EcocriticalMode(e) => {
            lemma_parse_name_of_name::<EcocriticalMode>(e);
            lemma_parsed_listed(os, 60);
        },
        AnnotationView::ImageSchema(e) => {
            lemma_parse_name_of_name::<ImageSchema>(e);
            lemma_parsed_listed(os, 61);
        },
        AnnotationView::Defamiliarization(e) => {
            lemma_parse_name_of_name::<DefamiliarizationMode>(e);
            lemma_parsed_listed(os, 62);
        },
        AnnotationView::SemioticPosition(e) => {
            lemma_parse_name_of_name::<SemioticSquarePosition>(e);
            lemma_parsed_listed(os, 63);
        },
        AnnotationView::ExperimentalMode(e) => {
            lemma_parse_name_of_name::<ExperimentalNarrationMode>(e);
            lemma_parsed_listed(os, 64);
        },
        AnnotationView::PosthumanMode(e) => {
            lemma_parse_name_of_name::<PosthumanMode>(e);
            lemma_parsed_listed(os, 65);
        },
        AnnotationView::MarxistMode(e) => {
            lemma_parse_name_of_name::<MarxistNarrativeMode>(e);
            lemma_parsed_listed(os, 66);
        },
        _ => {},
    }
}

/// The annotations read back by [`lemma_read_back_7`].
pub open spec fn read_back_group_7(a: AnnotationView) -> bool {
    match a {
        AnnotationView::FeministNarrative(_)
        | AnnotationView::Signifying(_)
        | AnnotationView::CognitiveModeTag(_)
        | AnnotationView::ProsodicElement(_)
        | AnnotationView::ProppFunction(_)
        | AnnotationView::Performativity(_)
        | AnnotationView::AutofictionMode(_)
        | AnnotationView::NarrativeEthics(_) => true,
        _ => false,
    }
}

/// [`lemma_pair_read_back`] for the annotations of [`read_back_group_7`].
pub proof fn lemma_read_back_7(kv: Seq<PairView>, a: AnnotationView)
    requires
        read_back(a),
        read_back_group_7(a),
        pair_of(a) matches Some(p) && lookup(kv, p.0) == Some(p.1),
    ensures
        outcome_annotations(tag_outcomes(kv)).contains(a),
{
    let os = tag_outcomes(kv);
    match a {
        AnnotationView::FeministNarrative(e) => {
            lemma_parse_name_of_name::<FeministNarrativeType>(e);
            lemma_parsed_listed(os, 67);
        },
        AnnotationView::Signifying(e) => {
            lemma_parse_name_of_name::<SignifyingMode>(e);
            lemma_parsed_listed(os, 68);
        },
        AnnotationView::CognitiveModeTag(e) => {
            lemma_parse_name_of_name::<CognitiveNarrativeMode>(e);
            lemma_parsed_listed(os, 69);
        },
        AnnotationView::ProsodicElement(e) => {
            lemma_parse_name_of_name::<ProsodicElement>(e);
            lemma_parsed_listed(os, 70);
        },
        AnnotationView::ProppFunction(e) => {
            lemma_parse_name_of_name::<ProppFunction>(e);
            lemma_parsed_listed(os, 71);
        },
        AnnotationView::Performativity(e) => {
            lemma_parse_name_of_name::<PerformativityMode>(e);
            lemma_parsed_listed(os, 72);
        },
        AnnotationView::AutofictionMode(e) => {
            lemma_parse_name_of_name::<AutofictionMode>(e);
            lemma_parsed_listed(os, 73);
        },
        AnnotationView::NarrativeEthics(e) => {
            lemma_parse_name_of_name::<NarrativeEthicsMode>(e);
            lemma_parsed_listed(os, 74);
        },
        _ => {},
    }
}

/// The annotations read back by [`lemma_read_back_8`].
pub open spec fn read_back_group_8(a: AnnotationView) -> bool {
    match a {
        AnnotationView::TransmediaType(_)
        | AnnotationView::AccessibilityRelation(_)
        | AnnotationView::Adaptation(_)
        | AnnotationView::GriceanMaxim(_)
        | AnnotationView::IntimateSpace(_)
        | AnnotationView::Multilingual(_)
        | AnnotationView::PanelTransition(_)
        | AnnotationView::Storywork(_) => true,
        _ => false,
    }
}

/// [`lemma_pair_read_back`] for the annotations of [`read_back_group_8`].
pub proof fn lemma_read_back_8(kv: Seq<PairView>, a: AnnotationView)
    requires
        read_back(a),
        read_back_group_8(a),
        pair_of(a) matches Some(p) && lookup(kv, p.0) == Some(p.1),
    ensures
        outcome_annotations(tag_outcomes(kv)).contains(a),
{
    let os = tag_outcomes(kv);
    match a {
        AnnotationView::TransmediaType(e) => {
            lemma_parse_name_of_name::<JenkinsTransmediaType>(e);
            lemma_parsed_listed(os, 75);
        },
        AnnotationView::AccessibilityRelation(e) => {
            lemma_parse_name_of_name::<AccessibilityRelation>(e);
            lemma_parsed_listed(os, 76);
        },
        AnnotationView::Adaptation(e) => {
            lemma_parse_name_of_name::<AdaptationMode>(e);
            lemma_parsed_listed(os, 77);
        },
        AnnotationView::GriceanMaxim(e) => {
            lemma_parse_name_of_name::<GriceanMaxim>(e);
            lemma_parsed_listed(os, 78);
        },
        AnnotationView::IntimateSpace(e) => {
            lemma_parse_name_of_name::<IntimateSpaceType>(e);
            lemma_parsed_listed(os, 79);
        },
        AnnotationView::Multilingual(e) => {
            lemma_parse_name_of_name::<MultilingualStrategy>(e);
            lemma_parsed_listed(os, 80);
        },
        AnnotationView::PanelTransition(e) => {
            lemma_parse_name_of_name::<PanelTransitionType>(e);
            lemma_parsed_listed(os, 81);
        },
        AnnotationView::Storywork(e) => {
            lemma_parse_name_of_name::<StoryworkProtocol>(e);
            lemma_parsed_listed(os, 82);
        },
        _ => {},
    }
}

/// The annotations read back by [`lemma_read_back_9`].
pub open spec fn read_back_group_9(a: AnnotationView) -> bool {
    match a {
        AnnotationView::TranslationStrategy(_)
        | AnnotationView::VisualVerbal(_)
        | AnnotationView::GenreReading(_)
        | AnnotationView::SceneFunction(_)
        | AnnotationView::SceneType(_)
        | AnnotationView::Conflict(_)
        | AnnotationView::Arc(_)
        | AnnotationView::ArcPattern(_) => true,
        _ => false,
    }
}

/// [`lemma_pair_read_back`] for the annotations of [`read_back_group_9`].
pub proof fn lemma_read_back_9(kv: Seq<PairView>, a: AnnotationView)
    requires
        read_back(a),
        read_back_group_9(a),
        pair_of(a) matches Some(p) && lookup(kv, p.0) == Some(p.1),
    ensures
        outcome_annotations(tag_outcomes(kv)).contains(a),
{
    let os = tag_outcomes(kv);
    match a {
        AnnotationView::TranslationStrategy(e) => {
            lemma_parse_name_of_name::<TranslationStrategy>(e);
            lemma_parsed_listed(os, 83);
        },
        AnnotationView::VisualVerbal(e) => {
            lemma_parse_name_of_name::<VisualVerbalRelation>(e);
            lemma_parsed_listed(os, 84);
        },
        AnnotationView::GenreReading(e) => {
            lemma_parse_name_of_name::<GenreReadingMode>(e);
            lemma_parsed_listed(os, 85);
        },
        AnnotationView::SceneFunction(e) => {
            lemma_parse_name_of_name::<SceneFunction>(e);
            lemma_parsed_listed(os, 86);
        },
        AnnotationView::SceneType(e) => {
            lemma_parse_name_of_name::<SceneType>(e);
            lemma_parsed_listed(os, 87);
        },
        AnnotationView::Conflict(e) => {
            lemma_parse_name_of_name::<ConflictType>(e);
            lemma_parsed_listed(os, 88);
        },
        AnnotationView::Arc(e) => {
            lemma_parse_name_of_name::<ArcType>(e);
            lemma_parsed_listed(os, 89);
        },
        AnnotationView::ArcPattern(e) => {
            lemma_parse_name_of_name::<ArcPattern>(e);
            lemma_parsed_listed(os, 90);
        },
        _ => {},
    }
}

/// The annotations read back by [`lemma_read_back_10`].
pub open spec fn read_back_group_10(a: AnnotationView) -> bool {
    match a {
        AnnotationView::Outcome(_)
        | AnnotationView::DominantSense(_)
        | AnnotationView::TimeOfDay(_)
        | AnnotationView::Weather(_)
        | AnnotationView::WorldDelivery(_)
        | AnnotationView::Pov(_)
        | AnnotationView::FocalizationType(_)
        | AnnotationView::Knowledge(_) => true,
        _ => false,
    }
}

/// [`lemma_pair_read_back`] for the annotations of [`read_back_group_10`].
pub proof fn lemma_read_back_10(kv: Seq<PairView>, a: AnnotationView)
    requires
        read_back(a),
        read_back_group_10(a),
        pair_of(a) matches Some(p) && lookup(kv, p.0) == Some(p.1),
    ensures
        outcome_annotations(tag_outcomes(kv)).contains(a),
{
    let os = tag_outcomes(kv);
    match a {
        AnnotationView::Outcome(e) => {
            lemma_parse_name_of_name::<OutcomeType>(e);
            lemma_parsed_listed(os, 91);
        },
        AnnotationView::DominantSense(e) => {
            lemma_parse_name_of_name::<DominantSense>(e);
            lemma_parsed_listed(os, 92);
        },
        AnnotationView::TimeOfDay(e) => {
            lemma_parse_name_of_name::<TimeOfDay>(e);
            lemma_parsed_listed(os, 93);
        },
        AnnotationView::Weather(e) => {
            lemma_parse_name_of_name::<Weather>(e);
            lemma_parsed_listed(os, 94);
        },
        AnnotationView::WorldDelivery(e) => {
            lemma_parse_name_of_name::<WorldDeliveryMethod>(e);
            lemma_parsed_listed(os, 95);
        },
        AnnotationView::Pov(e) => {
            lemma_parse_name_of_name::<PovType>(e);
            lemma_parsed_listed(os, 96);
        },
        AnnotationView::FocalizationType(e) => {
            lemma_parse_name_of_name::<FocalizationType>(e);
            lemma_parsed_listed(os, 97);
        },
        AnnotationView::Knowledge(e) => {
            lemma_parse_name_of_name::<KnowledgeScope>(e);
            lemma_parsed_listed(os, 98);
        },
        _ => {},
    }
}

/// The annotations read back by [`lemma_read_back_11`].
pub open spec fn read_back_group_11(a: AnnotationView) -> bool {
    match a {
        AnnotationView::Reliability(_)
        | AnnotationView::Engagement(_)
        | AnnotationView::Distance(_)
        | AnnotationView::Voice(_)
        | AnnotationView::SentenceLength(_)
        | AnnotationView::SentenceType(_)
        | AnnotationView::SentenceArch(_)
        | AnnotationView::Vocabulary(_) => true,
        _ => false,
    }
}

/// [`lemma_pair_read_back`] for the annotations of [`read_back_group_11`].
pub proof fn lemma_read_back_11(kv: Seq<PairView>, a: AnnotationView)
    requires
        read_back(a),
        read_back_group_11(a),
        pair_of(a) matches Some(p) && lookup(kv, p.0) == Some(p.1),
    ensures
        outcome_annotations(tag_outcomes(kv)).contains(a),
{
    let os = tag_outcomes(kv);
    match a {
        AnnotationView::Reliability(e) => {
            lemma_parse_name_of_name::<ReliabilitySpectrum>(e);
            lemma_parsed_listed(os, 99);
        },
        AnnotationView::Engagement(e) => {
            lemma_parse_name_of_name::<EngagementMode>(e);
            lemma_parsed_listed(os, 100);
        },
        AnnotationView::Distance(e) => {
            lemma_parse_name_of_name::<NarrativeDistance>(e);
            lemma_parsed_listed(os, 101);
        },
        AnnotationView::Voice(e) => {
            lemma_parse_name_of_name::<VoiceStructure>(e);
            lemma_parsed_listed(os, 102);
        },
        AnnotationView::SentenceLength(e) => {
            lemma_parse_name_of_name::<SentenceLength>(e);
            lemma_parsed_listed(os, 103);
        },
        AnnotationView::SentenceType(e) => {
            lemma_parse_name_of_name::<SentenceType>(e);
            lemma_parsed_listed(os, 104);
        },
        AnnotationView::SentenceArch(e) => {
            lemma_parse_name_of_name::<SentenceArchitecture>(e);
            lemma_parsed_listed(os, 105);
        },
        AnnotationView::Vocabulary(e) => {
            lemma_parse_name_of_name::<VocabularyLevel>(e);
            lemma_parsed_listed(os, 106);
        },
        _ => {},
    }
}

/// The annotations read back by [`lemma_read_back_12`].
pub open spec fn read_back_group_12(a: AnnotationView) -> bool {
    match a {
        AnnotationView::Profanity(_)
        | AnnotationView::OpeningType(_)
        | AnnotationView::QuestionDelivery(_)
        | AnnotationView::Complexity(_)
        | AnnotationView::Displacement(_)
        | AnnotationView::NonResponse(_) => true,
        _ => false,
    }
}

/// [`lemma_pair_read_back`] for the annotations of [`read_back_group_12`].
pub proof fn lemma_read_back_12(kv: Seq<PairView>, a: AnnotationView)
    requires
        read_back(a),
        read_back_group_12(a),
        pair_of(a) matches Some(p) && lookup(kv, p.0) == Some(p.1),
    ensures
        outcome_annotations(tag_outcomes(kv)).contains(a),
{
    let os = tag_outcomes(kv);
    match a {
        AnnotationView::Profanity(e) => {
            lemma_parse_name_of_name::<ProfanityLevel>(e);
            lemma_parsed_listed(os, 107);
        },
        AnnotationView::OpeningType(e) => {
            lemma_parse_name_of_name::<OpeningType>(e);
            lemma_parsed_listed(os, 108);
        },
        AnnotationView::QuestionDelivery(e) => {
            lemma_parse_name_of_name::<QuestionDelivery>(e);
            lemma_parsed_listed(os, 109);
        },
        AnnotationView::Complexity(e) => {
            lemma_parse_name_of_name::<Complexity>(e);
            lemma_parsed_listed(os, 110);
        },
        AnnotationView::Displacement(e) => {
            lemma_parse_name_of_name::<DisplacementGap>(e);
            lemma_parsed_listed(os, 111);
        },
        AnnotationView::NonResponse(e) => {
            lemma_parse_name_of_name::<NonResponseType>(e);
            lemma_parsed_listed(os, 112);
        },
        _ => {},
    }
}

/// Reads typed annotations from `(key, value)` pairs.
///
/// Each known tag key is read in a fixed order (see [`tag_outcome`]); a key
/// given more than once takes its last value.  Values that fail to parse
/// give a warning instead of an annotation.
pub fn parse_tag_pairs(pairs: &Vec<(String, String)>) -> (r: (Vec<Annotation>, Vec<String>))
    ensures
        annotations_view(r.0@) == outcome_annotations(tag_outcomes(owned_pairs_view(pairs@))),
        strings_view(r.1@) == outcome_warnings(tag_outcomes(owned_pairs_view(pairs@))),
{
    let ghost kv = owned_pairs_view(pairs@);
    let ghost os = tag_outcomes(kv);
    let mut annotations: Vec<Annotation> = Vec::new();
    let mut warnings: Vec<String> = Vec::new();
    let mut i: usize = 0;
    while i < TAG_KEY_COUNT
        invariant
            i <= TAG_KEY_COUNT,
            kv == owned_pairs_view(pairs@),
            os == tag_outcomes(kv),
            annotations_view(annotations@) == outcome_annotations(os.take(i as int)),
            strings_view(warnings@) == outcome_warnings(os.take(i as int)),
        decreases TAG_KEY_COUNT - i,
    {
        assert(os.take(i + 1).drop_last() =~= os.take(i as int));
        assert(os.take(i + 1).last() == tag_outcome(kv, i as int));
        let ghost ann_before = annotations@;
        let ghost warn_before = warnings@;
        match read_entry(pairs, i) {
            Some(Ok(a)) => {
                annotations.push(a);
                assert(annotations_view(annotations@) =~= annotations_view(ann_before).push(a@));
                assert(strings_view(warnings@) =~= strings_view(warn_before));
            },
            Some(Err(w)) => {
                warnings.push(w);
                assert(strings_view(warnings@) =~= strings_view(warn_before).push(w@));
                assert(annotations_view(annotations@) =~= annotations_view(ann_before));
            },
            None => {},
        }
        i = i + 1;
        assert(annotations_view(annotations@) =~= outcome_annotations(os.take(i as int)));
        assert(strings_view(warnings@) =~= outcome_warnings(os.take(i as int)));
    }
    assert(os.take(TAG_KEY_COUNT as int) =~= os);
    (annotations, warnings)
}

/// Parses a raw `<!-- key:value [key:value …] -->` comment into zero or more
/// typed annotations, and a warning for each tag value that fails to parse,
/// so that callers can collect warnings without failing on unknown tags.
///
/// The comment must close every quoted value it opens; for a comment that
/// may not, call [`try_parse_annotation_comment`], which answers `None` there
/// and parses exactly as this function does everywhere else.
pub fn parse_annotation_comment(raw: &str) -> (r: (Vec<Annotation>, Vec<String>))
    requires
        comment_pairs(raw@) is Some,
    ensures
        annotations_view(r.0@) == outcome_annotations(tag_outcomes(comment_pairs(raw@)->0)),
        strings_view(r.1@) == outcome_warnings(tag_outcomes(comment_pairs(raw@)->0)),
{
    let v = chars_of(raw);
    let (lo, hi) = comment_bounds(&v);
    let inner = string_from_chars(&v, lo, hi);
    let pairs = tokenize_pairs(inner.as_str());
    parse_tag_pairs(&pairs)
}

/// Tokenizes like [`tokenize_pairs`], or answers `None` when a quoted value
/// is never closed.
pub fn try_tokenize_pairs(input: &str) -> (r: Option<Vec<(String, String)>>)
    ensures
        match r {
            Some(v) => scan_pairs(trim(input@)) == Some(owned_pairs_view(v@)),
            None => scan_pairs(trim(input@)) is None,
        },
{
    let v = chars_of(input);
    let n = v.len();
    assert(v@.subrange(0, n as int) =~= input@);
    let (mut lo, hi) = trim_bounds(&v, 0, n);
    let mut out: Vec<(String, String)> = Vec::new();
    while lo < hi
        invariant
            lo <= hi <= v@.len(),
            scan_pairs(trim(input@)) == match scan_pairs(v@.subrange(lo as int, hi as int)) {
                None => None,
                Some(t) => Some(owned_pairs_view(out@) + t),
            },
        decreases hi - lo,
    {
        let ghost before = owned_pairs_view(out@);
        match next_token(&v, lo, hi) {
            Err(_) => {
                return None;
            },
            Ok(None) => {
                assert(v@.subrange(hi as int, hi as int) =~= Seq::<char>::empty());
                assert(before + Seq::<PairView>::empty() =~= before);
                lo = hi;
            },
            Ok(Some((p, next))) => {
                let ghost pl = owned_pair_list(p);
                match p {
                    Some(q) => {
                        let ghost prev = out@;
                        out.push(q);
                        assert(out@ == prev.push(q));
                        assert(owned_pairs_view(out@) =~= before + pl);
                    },
                    None => {
                        assert(owned_pairs_view(out@) =~= before + pl);
                    },
                }
                assert forall|t: Seq<PairView>| #[trigger] (before + (pl + t)) =~= owned_pairs_view(out@) + t by {}
                lo = next;
            },
        }
    }
    assert(scan_pairs(v@.subrange(lo as int, hi as int)) == Some(Seq::<PairView>::empty()));
    assert(owned_pairs_view(out@) + Seq::<PairView>::empty() =~= owned_pairs_view(out@));
    Some(out)
}

/// Parses an annotation comment like [`parse_annotation_comment`], or
/// answers `None` when a quoted value in it is never closed.
pub fn try_parse_annotation_comment(raw: &str) -> (r: Option<(Vec<Annotation>, Vec<String>)>)
    ensures
        match r {
            Some(x) => comment_pairs(raw@) is Some && annotations_view(x.0@) == outcome_annotations(
                tag_outcomes(comment_pairs(raw@)->0),
            ) && strings_view(x.1@) == outcome_warnings(tag_outcomes(comment_pairs(raw@)->0)),
            None => comment_pairs(raw@) is None,
        },
{
    let v = chars_of(raw);
    let (lo, hi) = comment_bounds(&v);
    let inner = string_from_chars(&v, lo, hi);
    match try_tokenize_pairs(inner.as_str()) {
        Some(pairs) => Some(parse_tag_pairs(&pairs)),
        None => None,
    }
}

/// The threads whose tag text reads back as themselves: all but a custom
/// thread whose name is a reserved name or carries a reserved prefix.
pub open spec fn thread_reads_back(t: ThreadIdView) -> bool {
    match t {
        ThreadIdView::Custom(v) => v != "main"@ && v != "frame_narrator"@ && v
            != "embedded_story"@ && !has_prefix(v, "subplot_"@) && !has_prefix(v, "dual_pov_"@),
        _ => true,
    }
}

/// Writing a thread as its tag text and parsing that text gives the thread
/// back, for every thread whose text is not taken by another reading.
pub proof fn lemma_thread_text_read_back(t: ThreadIdView)
    requires
        thread_reads_back(t),
    ensures
        thread_of(thread_text(t)) == t,
{
    reveal_strlit("main");
    reveal_strlit("frame_narrator");
    reveal_strlit("embedded_story");
    reveal_strlit("subplot_");
    reveal_strlit("dual_pov_");
    let s = thread_text(t);
    match t {
        ThreadIdView::Subplot(v) => {
            let p = "subplot_"@;
            assert(s.take(p.len() as int) =~= p);
            assert(s.skip(p.len() as int) =~= v);
            assert(s[0] == 's');
            assert(s != "main"@ && s != "frame_narrator"@ && s != "embedded_story"@) by {
                assert("main"@[0] == 'm');
                assert("frame_narrator"@[0] == 'f');
                assert("embedded_story"@[0] == 'e');
            }
            assert(has_prefix(s, p));
        },
        ThreadIdView::DualPov(v) => {
            let p = "dual_pov_"@;
            assert(s.take(p.len() as int) =~= p);
            assert(s.skip(p.len() as int) =~= v);
            assert(s != "main"@ && s != "frame_narrator"@ && s != "embedded_story"@) by {
                assert("main"@[0] == 'm');
                assert("frame_narrator"@[0] == 'f');
                assert("embedded_story"@[0] == 'e');
            }
            assert(!has_prefix(s, "subplot_"@)) by {
                assert(s[0] == 'd' && "subplot_"@[0] == 's');
                if has_prefix(s, "subplot_"@) {
                    assert(s.take(8)[0] == s[0]);
                }
            }
            assert(has_prefix(s, p));
        },
        ThreadIdView::Custom(v) => {},
        ThreadIdView::Main => {},
        ThreadIdView::FrameNarrator => {
            assert("frame_narrator"@.len() != "main"@.len());
        },
        ThreadIdView::EmbeddedStory => {
            assert("embedded_story"@.len() != "main"@.len());
            assert("embedded_story"@[0] != "frame_narrator"@[0]);
        },
    }
}

} // verus!
