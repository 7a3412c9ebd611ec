//! Unified ontology contract.
//!
//! This module defines the abstract data structure that all artifacts
//! describe: entities, controlled vocabularies, annotation facts, constraints,
//! and their projections (Markdown/YAML/JSON Schema/Rust/Python).
//!
//! It gives a stable conceptual spine that loaders, validators, adapters,
//! and migration tooling can refer to.  The tag-key table is the normative
//! key space of the annotation parser: [`canonicalize_tag_key`] maps every
//! raw key, including legacy aliases, onto it.

use vstd::prelude::*;

use crate::text::{
    all_ascii, ascii_lower, is_white_space, lemma_lex_lt_total, lemma_lex_lt_transitive, lex_lt,
    lowercase, owned, str_eq, str_lt, to_lowercase, trim, trim_end, trim_start, trimmed,
};

verus! {

/// Top-level bounded contexts in the ontology.
#[derive(Debug, Clone, Copy, PartialEq, Eq, Hash, Structural)]
pub enum OntologyLayer {
    /// Readiness, gates, phase/sub-phase progression, dependency DAG.
    Governance,
    /// Story-domain entities and relationships (characters, scenes, beats, etc).
    NarrativeDomain,
    /// Theory and narratology concept layer (controlled semantics).
    InterpretiveSemantics,
    /// Tag-based, scoped declarations extracted from annotated text.
    AnnotationEvent,
    /// Canonical catalog entries loaded from YAML references.
    CatalogKnowledge,
    /// Project and character style constraints (voice contract).
    StyleVoice,
    /// Generated recipe/training artifacts for model-facing workflows.
    GenerationTraining,
    /// Schema/export/projection surface derived from canonical types.
    InterchangeSchema,
}

/// Core primitive category represented in the unified ontology.
#[derive(Debug, Clone, Copy, PartialEq, Eq, Hash, Structural)]
pub enum PrimitiveKind {
    Entity,
    Reference,
    VocabularyTerm,
    AnnotationFact,
    Constraint,
    Projection,
}

/// Supported representation surfaces for a canonical primitive.
#[derive(Debug, Clone, Copy, PartialEq, Eq, Hash, Structural)]
pub enum ProjectionType {
    RustType,
    MarkdownTag,
    YamlCatalog,
    JsonSchema,
    PythonAdapter,
    CliOutput,
}

/// Deprecation level for a legacy tag key alias.
#[derive(Debug, Clone, Copy, PartialEq, Eq, Hash, Structural)]
pub enum DeprecationLevel {
    /// Preferred spelling and key (written `none`).
    Preferred,
    /// Legacy alias still accepted and silently canonicalized.
    Soft,
    /// Legacy alias accepted but should be migrated as soon as practical.
    Hard,
}

// ── Tag key mappings ──────────────────────────────────────────────────────────

/// Canonical mapping entry for one annotation tag key.
#[derive(Debug, Clone, PartialEq, Eq)]
pub struct TagKeyMapping {
    /// Canonical key consumed by typed parsing.
    pub canonical_key: String,
    /// Legacy key alias, if any.
    pub alias_key: Option<String>,
    /// Which ontology layer this key primarily belongs to.
    pub layer: OntologyLayer,
    /// Which primitive kind this key contributes.
    pub kind: PrimitiveKind,
    /// Deprecation level for alias usage.
    pub deprecation: DeprecationLevel,
    /// Whether this key is expected to have a heading entry in the public
    /// gate-tag vocabulary document.
    pub expected_in_docs_heading: bool,
}

/// The abstract content of a [`TagKeyMapping`].
pub struct TagKeyMappingView {
    pub canonical_key: Seq<char>,
    pub alias_key: Option<Seq<char>>,
    pub layer: OntologyLayer,
    pub kind: PrimitiveKind,
    pub deprecation: DeprecationLevel,
    pub expected_in_docs_heading: bool,
}

impl View for TagKeyMapping {
    type V = TagKeyMappingView;

    open spec fn view(&self) -> TagKeyMappingView {
        TagKeyMappingView {
            canonical_key: self.canonical_key@,
            alias_key: match self.alias_key {
                Some(a) => Some(a@),
                None => None,
            },
            layer: self.layer,
            kind: self.kind,
            deprecation: self.deprecation,
            expected_in_docs_heading: self.expected_in_docs_heading,
        }
    }
}

/// A canonical key without alias, documented under its own heading.
pub open spec fn canonical_mapping(
    key: Seq<char>,
    layer: OntologyLayer,
    kind: PrimitiveKind,
) -> TagKeyMappingView {
    TagKeyMappingView {
        canonical_key: key,
        alias_key: None,
        layer,
        kind,
        deprecation: DeprecationLevel::Preferred,
        expected_in_docs_heading: true,
    }
}

/// A legacy alias of a canonical key, not documented under its own heading.
pub open spec fn alias_mapping(
    key: Seq<char>,
    alias: Seq<char>,
    layer: OntologyLayer,
    kind: PrimitiveKind,
    deprecation: DeprecationLevel,
) -> TagKeyMappingView {
    TagKeyMappingView {
        canonical_key: key,
        alias_key: Some(alias),
        layer,
        kind,
        deprecation,
        expected_in_docs_heading: false,
    }
}

impl TagKeyMapping {
    /// A canonical key without alias.
    pub fn canonical_only(canonical_key: &str, layer: OntologyLayer, kind: PrimitiveKind) -> (r:
        Self)
        ensures
            r@ == canonical_mapping(canonical_key@, layer, kind),
    {
        TagKeyMapping {
            canonical_key: owned(canonical_key),
            alias_key: None,
            layer,
            kind,
            deprecation: DeprecationLevel::Preferred,
            expected_in_docs_heading: true,
        }
    }

    /// A legacy alias for a canonical key.
    pub fn alias(
        canonical_key: &str,
        alias_key: &str,
        layer: OntologyLayer,
        kind: PrimitiveKind,
        deprecation: DeprecationLevel,
    ) -> (r: Self)
        ensures
            r@ == alias_mapping(canonical_key@, alias_key@, layer, kind, deprecation),
    {
        TagKeyMapping {
            canonical_key: owned(canonical_key),
            alias_key: Some(owned(alias_key)),
            layer,
            kind,
            deprecation,
            expected_in_docs_heading: false,
        }
    }
}

/// The normative key-space table: canonical annotation tag keys and their
/// legacy aliases.
pub open spec fn tag_key_table() -> Seq<TagKeyMappingView> {
    seq![
        canonical_mapping("character"@, OntologyLayer::NarrativeDomain, PrimitiveKind::Entity),
        canonical_mapping("setting"@, OntologyLayer::NarrativeDomain, PrimitiveKind::Entity),
        canonical_mapping("beat"@, OntologyLayer::NarrativeDomain, PrimitiveKind::Entity),
        canonical_mapping("scene"@, OntologyLayer::NarrativeDomain, PrimitiveKind::Entity),
        canonical_mapping("chapter"@, OntologyLayer::NarrativeDomain, PrimitiveKind::Entity),
        canonical_mapping("thread"@, OntologyLayer::NarrativeDomain, PrimitiveKind::Entity),
        canonical_mapping("subplot"@, OntologyLayer::NarrativeDomain, PrimitiveKind::Entity),
        canonical_mapping("relationship"@, OntologyLayer::NarrativeDomain, PrimitiveKind::Entity),
        canonical_mapping("motif"@, OntologyLayer::NarrativeDomain, PrimitiveKind::Entity),
        TagKeyMappingView {
            canonical_key: "stage"@,
            alias_key: None,
            layer: OntologyLayer::NarrativeDomain,
            kind: PrimitiveKind::AnnotationFact,
            deprecation: DeprecationLevel::Preferred,
            expected_in_docs_heading: false,
        },
        canonical_mapping("promise"@, OntologyLayer::NarrativeDomain, PrimitiveKind::Entity),
        canonical_mapping("genre"@, OntologyLayer::InterpretiveSemantics, PrimitiveKind::VocabularyTerm),
        canonical_mapping("archetype"@, OntologyLayer::InterpretiveSemantics, PrimitiveKind::VocabularyTerm),
        canonical_mapping("role"@, OntologyLayer::InterpretiveSemantics, PrimitiveKind::VocabularyTerm),
        canonical_mapping("alignment"@, OntologyLayer::InterpretiveSemantics, PrimitiveKind::VocabularyTerm),
        canonical_mapping("wound"@, OntologyLayer::InterpretiveSemantics, PrimitiveKind::VocabularyTerm),
        canonical_mapping("social_circle"@, OntologyLayer::InterpretiveSemantics, PrimitiveKind::VocabularyTerm),
        canonical_mapping("plot_type"@, OntologyLayer::InterpretiveSemantics, PrimitiveKind::VocabularyTerm),
        canonical_mapping("collision_pattern"@, OntologyLayer::InterpretiveSemantics, PrimitiveKind::VocabularyTerm),
        canonical_mapping("trope"@, OntologyLayer::InterpretiveSemantics, PrimitiveKind::VocabularyTerm),
        canonical_mapping("diegetic_level"@, OntologyLayer::InterpretiveSemantics, PrimitiveKind::VocabularyTerm),
        canonical_mapping("actant"@, OntologyLayer::InterpretiveSemantics, PrimitiveKind::VocabularyTerm),
        canonical_mapping("drive_model"@, OntologyLayer::InterpretiveSemantics, PrimitiveKind::VocabularyTerm),
        canonical_mapping("speech_act"@, OntologyLayer::InterpretiveSemantics, PrimitiveKind::VocabularyTerm),
        canonical_mapping("gaze"@, OntologyLayer::InterpretiveSemantics, PrimitiveKind::VocabularyTerm),
        canonical_mapping("pact"@, OntologyLayer::InterpretiveSemantics, PrimitiveKind::VocabularyTerm),
        canonical_mapping("psychic_distance"@, OntologyLayer::StyleVoice, PrimitiveKind::Constraint),
        canonical_mapping("consciousness"@, OntologyLayer::StyleVoice, PrimitiveKind::Constraint),
        canonical_mapping("subtext"@, OntologyLayer::StyleVoice, PrimitiveKind::AnnotationFact),
        canonical_mapping("tension"@, OntologyLayer::StyleVoice, PrimitiveKind::Constraint),
        canonical_mapping("flag"@, OntologyLayer::Governance, PrimitiveKind::Constraint),
        canonical_mapping("source"@, OntologyLayer::AnnotationEvent, PrimitiveKind::AnnotationFact),
        canonical_mapping("source_text"@, OntologyLayer::AnnotationEvent, PrimitiveKind::AnnotationFact),
        canonical_mapping("paratext_zone"@, OntologyLayer::InterchangeSchema, PrimitiveKind::Projection),
        alias_mapping("character"@, "characters"@, OntologyLayer::NarrativeDomain, PrimitiveKind::Entity, DeprecationLevel::Soft),
        alias_mapping("scene"@, "scene_id"@, OntologyLayer::NarrativeDomain, PrimitiveKind::Entity, DeprecationLevel::Soft),
        alias_mapping("setting"@, "location"@, OntologyLayer::NarrativeDomain, PrimitiveKind::Entity, DeprecationLevel::Hard),
        alias_mapping("stage"@, "motif_stage"@, OntologyLayer::NarrativeDomain, PrimitiveKind::AnnotationFact, DeprecationLevel::Soft),
    ]
}

/// The views of a list of mappings.
pub open spec fn mappings_view(v: Seq<TagKeyMapping>) -> Seq<TagKeyMappingView> {
    v.map_values(|m: TagKeyMapping| m@)
}

/// Canonical annotation tag keys and legacy aliases.
///
/// This list is the normative key space for canonicalizing parsed keys.
pub fn tag_key_mappings() -> (r: Vec<TagKeyMapping>)
    ensures
        mappings_view(r@) == tag_key_table(),
{
    let mut v: Vec<TagKeyMapping> = Vec::new();
    v.push(TagKeyMapping::canonical_only("character", OntologyLayer::NarrativeDomain, PrimitiveKind::Entity));
    v.push(TagKeyMapping::canonical_only("setting", OntologyLayer::NarrativeDomain, PrimitiveKind::Entity));
    v.push(TagKeyMapping::canonical_only("beat", OntologyLayer::NarrativeDomain, PrimitiveKind::Entity));
    v.push(TagKeyMapping::canonical_only("scene", OntologyLayer::NarrativeDomain, PrimitiveKind::Entity));
    v.push(TagKeyMapping::canonical_only("chapter", OntologyLayer::NarrativeDomain, PrimitiveKind::Entity));
    v.push(TagKeyMapping::canonical_only("thread", OntologyLayer::NarrativeDomain, PrimitiveKind::Entity));
    v.push(TagKeyMapping::canonical_only("subplot", OntologyLayer::NarrativeDomain, PrimitiveKind::Entity));
    v.push(TagKeyMapping::canonical_only("relationship", OntologyLayer::NarrativeDomain, PrimitiveKind::Entity));
    v.push(TagKeyMapping::canonical_only("motif", OntologyLayer::NarrativeDomain, PrimitiveKind::Entity));
    // Internal compound attribute key for motif tags; not documented as a
    // top-level vocabulary heading.
    v.push(TagKeyMapping {
        canonical_key: owned("stage"),
        alias_key: None,
        layer: OntologyLayer::NarrativeDomain,
        kind: PrimitiveKind::AnnotationFact,
        deprecation: DeprecationLevel::Preferred,
        expected_in_docs_heading: false,
    });
    v.push(TagKeyMapping::canonical_only("promise", OntologyLayer::NarrativeDomain, PrimitiveKind::Entity));
    v.push(TagKeyMapping::canonical_only("genre", OntologyLayer::InterpretiveSemantics, PrimitiveKind::VocabularyTerm));
    v.push(TagKeyMapping::canonical_only("archetype", OntologyLayer::InterpretiveSemantics, PrimitiveKind::VocabularyTerm));
    v.push(TagKeyMapping::canonical_only("role", OntologyLayer::InterpretiveSemantics, PrimitiveKind::VocabularyTerm));
    v.push(TagKeyMapping::canonical_only("alignment", OntologyLayer::InterpretiveSemantics, PrimitiveKind::VocabularyTerm));
    v.push(TagKeyMapping::canonical_only("wound", OntologyLayer::InterpretiveSemantics, PrimitiveKind::VocabularyTerm));
    v.push(TagKeyMapping::canonical_only("social_circle", OntologyLayer::InterpretiveSemantics, PrimitiveKind::VocabularyTerm));
    v.push(TagKeyMapping::canonical_only("plot_type", OntologyLayer::InterpretiveSemantics, PrimitiveKind::VocabularyTerm));
    v.push(TagKeyMapping::canonical_only("collision_pattern", OntologyLayer::InterpretiveSemantics, PrimitiveKind::VocabularyTerm));
    v.push(TagKeyMapping::canonical_only("trope", OntologyLayer::InterpretiveSemantics, PrimitiveKind::VocabularyTerm));
    v.push(TagKeyMapping::canonical_only("diegetic_level", OntologyLayer::InterpretiveSemantics, PrimitiveKind::VocabularyTerm));
    v.push(TagKeyMapping::canonical_only("actant", OntologyLayer::InterpretiveSemantics, PrimitiveKind::VocabularyTerm));
    v.push(TagKeyMapping::canonical_only("drive_model", OntologyLayer::InterpretiveSemantics, PrimitiveKind::VocabularyTerm));
    v.push(TagKeyMapping::canonical_only("speech_act", OntologyLayer::InterpretiveSemantics, PrimitiveKind::VocabularyTerm));
    v.push(TagKeyMapping::canonical_only("gaze", OntologyLayer::InterpretiveSemantics, PrimitiveKind::VocabularyTerm));
    v.push(TagKeyMapping::canonical_only("pact", OntologyLayer::InterpretiveSemantics, PrimitiveKind::VocabularyTerm));
    v.push(TagKeyMapping::canonical_only("psychic_distance", OntologyLayer::StyleVoice, PrimitiveKind::Constraint));
    v.push(TagKeyMapping::canonical_only("consciousness", OntologyLayer::StyleVoice, PrimitiveKind::Constraint));
    v.push(TagKeyMapping::canonical_only("subtext", OntologyLayer::StyleVoice, PrimitiveKind::AnnotationFact));
    v.push(TagKeyMapping::canonical_only("tension", OntologyLayer::StyleVoice, PrimitiveKind::Constraint));
    v.push(TagKeyMapping::canonical_only("flag", OntologyLayer::Governance, PrimitiveKind::Constraint));
    v.push(TagKeyMapping::canonical_only("source", OntologyLayer::AnnotationEvent, PrimitiveKind::AnnotationFact));
    v.push(TagKeyMapping::canonical_only("source_text", OntologyLayer::AnnotationEvent, PrimitiveKind::AnnotationFact));
    v.push(TagKeyMapping::canonical_only("paratext_zone", OntologyLayer::InterchangeSchema, PrimitiveKind::Projection));
    v.push(
        TagKeyMapping::alias(
            "character",
            "characters",
            OntologyLayer::NarrativeDomain,
            PrimitiveKind::Entity,
            DeprecationLevel::Soft,
        ),
    );
    v.push(
        TagKeyMapping::alias(
            "scene",
            "scene_id",
            OntologyLayer::NarrativeDomain,
            PrimitiveKind::Entity,
            DeprecationLevel::Soft,
        ),
    );
    v.push(
        TagKeyMapping::alias(
            "setting",
            "location",
            OntologyLayer::NarrativeDomain,
            PrimitiveKind::Entity,
            DeprecationLevel::Hard,
        ),
    );
    v.push(
        TagKeyMapping::alias(
            "stage",
            "motif_stage",
            OntologyLayer::NarrativeDomain,
            PrimitiveKind::AnnotationFact,
            DeprecationLevel::Soft,
        ),
    );
    assert(mappings_view(v@) =~= tag_key_table());
    v
}

/// The canonical key that `key` maps to in the table `ms`: the canonical
/// key of the first entry whose canonical key or alias is `key`, or `key`
/// itself when no entry names it.
pub open spec fn mapped_key(key: Seq<char>, ms: Seq<TagKeyMappingView>) -> Seq<char>
    decreases ms.len(),
{
    if ms.len() == 0 {
        key
    } else if ms[0].canonical_key == key || ms[0].alias_key == Some(key) {
        ms[0].canonical_key
    } else {
        mapped_key(key, ms.drop_first())
    }
}

/// The ontology-approved key for a raw tag key: trimmed, lower-cased, then
/// mapped through the key table.
pub open spec fn canonical_tag_key(raw: Seq<char>) -> Seq<char> {
    mapped_key(lowercase(trim(raw)), tag_key_table())
}

/// Canonicalize a raw tag key to the ontology-approved key.
pub fn canonicalize_tag_key(raw_key: &str) -> (r: String)
    ensures
        r@ == canonical_tag_key(raw_key@),
{
    let t = trimmed(raw_key);
    let key = to_lowercase(t.as_str());
    let mappings = tag_key_mappings();
    let ghost table = tag_key_table();
    assert(table.skip(0) =~= table);
    let mut i: usize = 0;
    while i < mappings.len()
        invariant
            i <= mappings@.len(),
            mappings_view(mappings@) == table,
            table == tag_key_table(),
            key@ == lowercase(trim(raw_key@)),
            mapped_key(key@, table) == mapped_key(key@, table.skip(i as int)),
        decreases mappings.len() - i,
    {
        let m = &mappings[i];
        assert(table.skip(i as int)[0] == m@);
        assert(table.skip(i as int).drop_first() =~= table.skip(i + 1));
        if str_eq(m.canonical_key.as_str(), key.as_str()) {
            return m.canonical_key.clone();
        }
        match &m.alias_key {
            Some(a) => {
                if str_eq(a.as_str(), key.as_str()) {
                    return m.canonical_key.clone();
                }
            },
            None => {},
        }
        i = i + 1;
    }
    assert(table.skip(i as int) =~= Seq::<TagKeyMappingView>::empty());
    key
}

// ── Canonical key lists ───────────────────────────────────────────────────────

/// The keys of a strictly increasing list of keys.
pub open spec fn strictly_sorted(s: Seq<Seq<char>>) -> bool {
    forall|i: int, j: int| 0 <= i < j < s.len() ==> lex_lt(#[trigger] s[i], #[trigger] s[j])
}

/// The canonical keys of `ms` carried by entries without alias (and, when
/// `docs_only`, expected under a documentation heading).
pub open spec fn is_listed_key(ms: Seq<TagKeyMappingView>, docs_only: bool, k: Seq<char>) -> bool {
    exists|i: int|
        0 <= i < ms.len() && (#[trigger] ms[i]).alias_key is None && (!docs_only
            || ms[i].expected_in_docs_heading) && ms[i].canonical_key == k
}

/// The views of a list of strings.
pub open spec fn strings_view(v: Seq<String>) -> Seq<Seq<char>> {
    v.map_values(|s: String| s@)
}

/// Inserts `k` into the strictly increasing list `out`, unless present.
fn insert_sorted(out: &mut Vec<String>, k: &String)
    requires
        strictly_sorted(strings_view(old(out)@)),
    ensures
        strictly_sorted(strings_view(final(out)@)),
        forall|x: Seq<char>|
            strings_view(final(out)@).contains(x) <==> (strings_view(old(out)@).contains(x) || x
                == k@),
{
    let ghost s = strings_view(out@);
    let mut p: usize = 0;
    while p < out.len() && str_lt(out[p].as_str(), k.as_str())
        invariant
            p <= out@.len(),
            s == strings_view(out@),
            strictly_sorted(s),
            forall|i: int| 0 <= i < p ==> lex_lt(#[trigger] s[i], k@),
        decreases out.len() - p,
    {
        p = p + 1;
    }
    if p < out.len() && str_eq(out[p].as_str(), k.as_str()) {
        assert(s[p as int] == k@);
        return;
    }
    out.insert(p, k.clone());
    let ghost t = strings_view(out@);
    assert(t =~= s.insert(p as int, k@));
    assert forall|i: int, j: int| 0 <= i < j < t.len() implies lex_lt(#[trigger] t[i], #[trigger] t[j]) by {
        if p < s.len() {
            lemma_lex_lt_total(s[p as int], k@);
            assert(lex_lt(k@, s[p as int]));
        }
        if j < p {
        } else if j == p {
        } else if i < p {
            assert(lex_lt(s[i], k@));
            if j - 1 > p {
                lemma_lex_lt_transitive(k@, s[p as int], s[j - 1]);
            }
            lemma_lex_lt_transitive(s[i], k@, s[j - 1]);
        } else if i == p {
            if j - 1 > p {
                lemma_lex_lt_transitive(k@, s[p as int], s[j - 1]);
            }
        } else {
        }
    }
    assert forall|x: Seq<char>| t.contains(x) <==> (s.contains(x) || x == k@) by {
        if t.contains(x) {
            let i = choose|i: int| 0 <= i < t.len() && t[i] == x;
            if i < p {
                assert(s[i] == x);
            } else if i > p {
                assert(s[i - 1] == x);
            }
        }
        if s.contains(x) {
            let i = choose|i: int| 0 <= i < s.len() && s[i] == x;
            if i < p {
                assert(t[i] == x);
            } else {
                assert(t[i + 1] == x);
            }
        }
        if x == k@ {
            assert(t[p as int] == x);
        }
    }
}

fn sorted_unique_keys(docs_only: bool) -> (r: Vec<String>)
    ensures
        strictly_sorted(strings_view(r@)),
        forall|k: Seq<char>|
            strings_view(r@).contains(k) <==> is_listed_key(tag_key_table(), docs_only, k),
{
    let ms = tag_key_mappings();
    let ghost table = tag_key_table();
    let mut out: Vec<String> = Vec::new();
    let mut i: usize = 0;
    while i < ms.len()
        invariant
            i <= ms@.len(),
            mappings_view(ms@) == table,
            table == tag_key_table(),
            strictly_sorted(strings_view(out@)),
            forall|k: Seq<char>|
                strings_view(out@).contains(k) <==> is_listed_key(table.take(i as int), docs_only, k),
        decreases ms.len() - i,
    {
        let m = &ms[i];
        assert(table[i as int] == m@);
        let ghost before = strings_view(out@);
        if m.alias_key.is_none() && (!docs_only || m.expected_in_docs_heading) {
            insert_sorted(&mut out, &m.canonical_key);
        }
        assert forall|k: Seq<char>|
            strings_view(out@).contains(k) <==> is_listed_key(table.take(i + 1), docs_only, k) by {
            if is_listed_key(table.take(i + 1), docs_only, k) {
                let j = choose|j: int|
                    0 <= j < table.take(i + 1).len() && (#[trigger] table.take(i + 1)[j]).alias_key is None
                        && (!docs_only || table.take(i + 1)[j].expected_in_docs_heading)
                        && table.take(i + 1)[j].canonical_key == k;
                if j < i {
                    assert(table.take(i as int)[j] == table.take(i + 1)[j]);
                }
            }
            if is_listed_key(table.take(i as int), docs_only, k) {
                let j = choose|j: int|
                    0 <= j < table.take(i as int).len() && (#[trigger] table.take(i as int)[j]).alias_key is None
                        && (!docs_only || table.take(i as int)[j].expected_in_docs_heading)
                        && table.take(i as int)[j].canonical_key == k;
                assert(table.take(i + 1)[j] == table.take(i as int)[j]);
            }
            if k == m.canonical_key@ && m.alias_key.is_none() && (!docs_only || m.expected_in_docs_heading) {
                assert(table.take(i + 1)[i as int] == m@);
            }
        }
        i = i + 1;
    }
    assert(table.take(ms@.len() as int) =~= table);
    out
}

proof fn lemma_lex_lt_irreflexive(a: Seq<char>)
    ensures
        !lex_lt(a, a),
    decreases a.len(),
{
    if a.len() > 0 {
        lemma_lex_lt_irreflexive(a.drop_first());
    }
}

/// Two strictly increasing lists with the same members are equal.
proof fn lemma_sorted_same_members(a: Seq<Seq<char>>, b: Seq<Seq<char>>)
    requires
        strictly_sorted(a),
        strictly_sorted(b),
        forall|x: Seq<char>| a.contains(x) <==> b.contains(x),
    ensures
        a == b,
    decreases a.len(),
{
    if a.len() == 0 {
        if b.len() > 0 {
            assert(b.contains(b[0]));
        }
        assert(a =~= b);
    } else {
        assert(a.contains(a[0]));
        assert(b.contains(a[0]));
        let j = choose|j: int| 0 <= j < b.len() && b[j] == a[0];
        assert(b.contains(b[0]));
        let i = choose|i: int| 0 <= i < a.len() && a[i] == b[0];
        if j > 0 {
            assert(lex_lt(b[0], b[j]));
            if i > 0 {
                assert(lex_lt(a[0], a[i]));
                lemma_lex_lt_transitive(a[0], b[0], a[0]);
            }
            lemma_lex_lt_irreflexive(a[0]);
        }
        assert(a[0] == b[0]);
        let a1 = a.drop_first();
        let b1 = b.drop_first();
        assert forall|x: Seq<char>| a1.contains(x) <==> b1.contains(x) by {
            if a1.contains(x) {
                let p = choose|p: int| 0 <= p < a1.len() && a1[p] == x;
                assert(a[p + 1] == x);
                assert(lex_lt(a[0], a[p + 1]));
                lemma_lex_lt_irreflexive(x);
                assert(b.contains(x));
                let q = choose|q: int| 0 <= q < b.len() && b[q] == x;
                assert(q != 0);
                assert(b1[q - 1] == x);
            }
            if b1.contains(x) {
                let p = choose|p: int| 0 <= p < b1.len() && b1[p] == x;
                assert(b[p + 1] == x);
                assert(lex_lt(b[0], b[p + 1]));
                lemma_lex_lt_irreflexive(x);
                assert(a.contains(x));
                let q = choose|q: int| 0 <= q < a.len() && a[q] == x;
                assert(q != 0);
                assert(a1[q - 1] == x);
            }
        }
        assert forall|p: int, q: int| 0 <= p < q < a1.len() implies lex_lt(#[trigger] a1[p], #[trigger] a1[q]) by {
            assert(a1[p] == a[p + 1] && a1[q] == a[q + 1]);
        }
        assert forall|p: int, q: int| 0 <= p < q < b1.len() implies lex_lt(#[trigger] b1[p], #[trigger] b1[q]) by {
            assert(b1[p] == b[p + 1] && b1[q] == b[q + 1]);
        }
        lemma_sorted_same_members(a1, b1);
        assert(a =~= b) by {
            assert forall|p: int| 0 <= p < a.len() implies a[p] == b[p] by {
                if p > 0 {
                    assert(a[p] == a1[p - 1] && b[p] == b1[p - 1]);
                }
            }
        }
    }
}

/// Canonical key set (no aliases), sorted and without duplicates, for
/// drift checks.
pub fn canonical_tag_keys() -> (r: Vec<String>)
    ensures
        strictly_sorted(strings_view(r@)),
        forall|k: Seq<char>| strings_view(r@).contains(k) <==> is_listed_key(tag_key_table(), false, k),
{
    sorted_unique_keys(false)
}

/// Canonical keys expected to have a heading of their own in the tag
/// vocabulary, sorted and without duplicates.
pub fn canonical_documented_tag_keys() -> (r: Vec<String>)
    ensures
        strictly_sorted(strings_view(r@)),
        forall|k: Seq<char>| strings_view(r@).contains(k) <==> is_listed_key(tag_key_table(), true, k),
{
    sorted_unique_keys(true)
}

// ── Ontology primitives ───────────────────────────────────────────────────────

/// Mapping from canonical primitive to one concrete projection surface.
#[derive(Debug, Clone, PartialEq, Eq)]
pub struct PrimitiveProjection {
    pub projection_type: ProjectionType,
    /// Symbol/path/key in the projection surface.
    pub target: String,
    /// Optional migration alias list for backwards compatibility.
    pub aliases: Vec<String>,
}

/// A canonical ontology primitive and where it lives.
#[derive(Debug, Clone, PartialEq, Eq)]
pub struct OntologyPrimitive {
    /// Stable identifier for this primitive, e.g. `entity.character`.
    pub id: String,
    /// Human-readable title.
    pub label: String,
    /// Ontology layer this primitive belongs to.
    pub layer: OntologyLayer,
    /// Primitive category.
    pub kind: PrimitiveKind,
    /// Canonical Rust symbol path, e.g. `entities::Character`.
    pub canonical_symbol: String,
    /// Optional behavioral constraints/invariants.
    pub invariants: Vec<String>,
    /// Known projections of the same concept.
    pub projections: Vec<PrimitiveProjection>,
}

/// The abstract content of a [`PrimitiveProjection`].
pub struct ProjectionView {
    pub projection_type: ProjectionType,
    pub target: Seq<char>,
    pub aliases: Seq<Seq<char>>,
}

/// The abstract content of an [`OntologyPrimitive`].
pub struct OntologyPrimitiveView {
    pub id: Seq<char>,
    pub label: Seq<char>,
    pub layer: OntologyLayer,
    pub kind: PrimitiveKind,
    pub canonical_symbol: Seq<char>,
    pub invariants: Seq<Seq<char>>,
    pub projections: Seq<ProjectionView>,
}

impl View for PrimitiveProjection {
    type V = ProjectionView;

    open spec fn view(&self) -> ProjectionView {
        ProjectionView {
            projection_type: self.projection_type,
            target: self.target@,
            aliases: strings_view(self.aliases@),
        }
    }
}

impl View for OntologyPrimitive {
    type V = OntologyPrimitiveView;

    open spec fn view(&self) -> OntologyPrimitiveView {
        OntologyPrimitiveView {
            id: self.id@,
            label: self.label@,
            layer: self.layer,
            kind: self.kind,
            canonical_symbol: self.canonical_symbol@,
            invariants: strings_view(self.invariants@),
            projections: self.projections@.map_values(|p: PrimitiveProjection| p@),
        }
    }
}

/// The characters of a list of string slices.
pub open spec fn strs_view(v: Seq<&str>) -> Seq<Seq<char>> {
    v.map_values(|s: &str| s@)
}

/// A projection without migration aliases.
pub open spec fn projection_view(t: ProjectionType, target: Seq<char>) -> ProjectionView {
    ProjectionView { projection_type: t, target, aliases: Seq::empty() }
}

/// A primitive from all its parts.
pub open spec fn primitive_view(
    id: Seq<char>,
    label: Seq<char>,
    layer: OntologyLayer,
    kind: PrimitiveKind,
    canonical_symbol: Seq<char>,
    invariants: Seq<Seq<char>>,
    projections: Seq<ProjectionView>,
) -> OntologyPrimitiveView {
    OntologyPrimitiveView { id, label, layer, kind, canonical_symbol, invariants, projections }
}

/// A story-world entity: a Rust type, a `key:<slug>` tag and a schema entry.
pub open spec fn entity_primitive(
    id: Seq<char>,
    label: Seq<char>,
    rust_path: Seq<char>,
    tag_key: Seq<char>,
    invariants: Seq<Seq<char>>,
) -> OntologyPrimitiveView {
    primitive_view(
        id,
        label,
        OntologyLayer::NarrativeDomain,
        PrimitiveKind::Entity,
        rust_path,
        invariants,
        seq![
            projection_view(ProjectionType::RustType, "grimoire-types/src/entities.rs::"@ + rust_path),
            projection_view(ProjectionType::MarkdownTag, tag_key + ":<slug>"@),
            projection_view(ProjectionType::JsonSchema, "entities."@ + rust_path),
        ],
    )
}

/// A craft-instruction tag: a Rust type and a `key:<value>` tag.
pub open spec fn craft_tag_primitive(
    id: Seq<char>,
    label: Seq<char>,
    rust_path: Seq<char>,
    tag_key: Seq<char>,
    invariants: Seq<Seq<char>>,
) -> OntologyPrimitiveView {
    primitive_view(
        id,
        label,
        OntologyLayer::StyleVoice,
        PrimitiveKind::Constraint,
        rust_path,
        invariants,
        seq![
            projection_view(ProjectionType::RustType, rust_path),
            projection_view(ProjectionType::MarkdownTag, tag_key + ":<value>"@),
        ],
    )
}

/// A controlled vocabulary: a Rust type, a `key:<value>` tag and a catalog.
pub open spec fn vocab_term_primitive(
    id: Seq<char>,
    label: Seq<char>,
    rust_path: Seq<char>,
    tag_key: Seq<char>,
    yaml_glob: Seq<char>,
) -> OntologyPrimitiveView {
    primitive_view(
        id,
        label,
        OntologyLayer::InterpretiveSemantics,
        PrimitiveKind::VocabularyTerm,
        rust_path,
        seq![
            "term is a controlled enum variant or catalog slug"@,
            "schema/catalog/tag representations must not drift"@,
        ],
        seq![
            projection_view(ProjectionType::RustType, rust_path),
            projection_view(ProjectionType::MarkdownTag, tag_key + ":<value>"@),
            projection_view(ProjectionType::YamlCatalog, yaml_glob),
        ],
    )
}

/// A generation/training-layer type, known only by its Rust type.
pub open spec fn generation_primitive(
    id: Seq<char>,
    label: Seq<char>,
    rust_path: Seq<char>,
) -> OntologyPrimitiveView {
    primitive_view(
        id,
        label,
        OntologyLayer::GenerationTraining,
        PrimitiveKind::Projection,
        rust_path,
        Seq::empty(),
        seq![projection_view(ProjectionType::RustType, rust_path)],
    )
}

fn owned_all(v: Vec<&str>) -> (r: Vec<String>)
    ensures
        strings_view(r@) == strs_view(v@),
{
    let mut out: Vec<String> = Vec::new();
    let mut i: usize = 0;
    while i < v.len()
        invariant
            i <= v@.len(),
            strings_view(out@) == strs_view(v@.take(i as int)),
        decreases v.len() - i,
    {
        let x = v[i];
        let ghost before = strings_view(out@);
        out.push(owned(x));
        assert(strings_view(out@) =~= before.push(x@));
        assert(strs_view(v@.take(i + 1)) =~= strs_view(v@.take(i as int)).push(x@));
        i = i + 1;
    }
    assert(v@.take(v@.len() as int) =~= v@);
    out
}

fn concat(a: &str, b: &str) -> (r: String)
    ensures
        r@ == a@ + b@,
{
    let mut s = owned(a);
    s.append(b);
    s
}

fn projection(t: ProjectionType, target: &str) -> (r: PrimitiveProjection)
    ensures
        r@ == projection_view(t, target@),
{
    let r = PrimitiveProjection { projection_type: t, target: owned(target), aliases: Vec::new() };
    assert(r@.aliases =~= Seq::<Seq<char>>::empty());
    r
}

fn projection_of(t: ProjectionType, target: String) -> (r: PrimitiveProjection)
    ensures
        r@ == projection_view(t, target@),
{
    let r = PrimitiveProjection { projection_type: t, target, aliases: Vec::new() };
    assert(r@.aliases =~= Seq::<Seq<char>>::empty());
    r
}

fn primitive(
    id: &str,
    label: &str,
    layer: OntologyLayer,
    kind: PrimitiveKind,
    canonical_symbol: &str,
    invariants: Vec<&str>,
    projections: Vec<PrimitiveProjection>,
) -> (r: OntologyPrimitive)
    ensures
        r@ == primitive_view(
            id@,
            label@,
            layer,
            kind,
            canonical_symbol@,
            strs_view(invariants@),
            projections@.map_values(|p: PrimitiveProjection| p@),
        ),
{
    OntologyPrimitive {
        id: owned(id),
        label: owned(label),
        layer,
        kind,
        canonical_symbol: owned(canonical_symbol),
        invariants: owned_all(invariants),
        projections,
    }
}

fn entity(id: &str, label: &str, rust_path: &str, tag_key: &str, invariants: Vec<&str>) -> (r:
    OntologyPrimitive)
    ensures
        r@ == entity_primitive(id@, label@, rust_path@, tag_key@, strs_view(invariants@)),
{
    let projections = vec![
        projection_of(ProjectionType::RustType, concat("grimoire-types/src/entities.rs::", rust_path)),
        projection_of(ProjectionType::MarkdownTag, concat(tag_key, ":<slug>")),
        projection_of(ProjectionType::JsonSchema, concat("entities.", rust_path)),
    ];
    let r = primitive(id, label, OntologyLayer::NarrativeDomain, PrimitiveKind::Entity, rust_path, invariants, projections);
    assert(r@.projections =~= entity_primitive(id@, label@, rust_path@, tag_key@, strs_view(invariants@)).projections);
    r
}

fn craft_tag(id: &str, label: &str, rust_path: &str, tag_key: &str, invariants: Vec<&str>) -> (r:
    OntologyPrimitive)
    ensures
        r@ == craft_tag_primitive(id@, label@, rust_path@, tag_key@, strs_view(invariants@)),
{
    let projections = vec![
        projection(ProjectionType::RustType, rust_path),
        projection_of(ProjectionType::MarkdownTag, concat(tag_key, ":<value>")),
    ];
    let r = primitive(id, label, OntologyLayer::StyleVoice, PrimitiveKind::Constraint, rust_path, invariants, projections);
    assert(r@.projections =~= craft_tag_primitive(id@, label@, rust_path@, tag_key@, strs_view(invariants@)).projections);
    r
}

fn vocab_term(id: &str, label: &str, rust_path: &str, tag_key: &str, yaml_glob: &str) -> (r:
    OntologyPrimitive)
    ensures
        r@ == vocab_term_primitive(id@, label@, rust_path@, tag_key@, yaml_glob@),
{
    let projections = vec![
        projection(ProjectionType::RustType, rust_path),
        projection_of(ProjectionType::MarkdownTag, concat(tag_key, ":<value>")),
        projection(ProjectionType::YamlCatalog, yaml_glob),
    ];
    let invariants = vec![
        "term is a controlled enum variant or catalog slug",
        "schema/catalog/tag representations must not drift",
    ];
    let r = primitive(id, label, OntologyLayer::InterpretiveSemantics, PrimitiveKind::VocabularyTerm, rust_path, invariants, projections);
    assert(r@.projections =~= vocab_term_primitive(id@, label@, rust_path@, tag_key@, yaml_glob@).projections);
    assert(r@.invariants =~= vocab_term_primitive(id@, label@, rust_path@, tag_key@, yaml_glob@).invariants);
    r
}

fn generation_type(id: &str, label: &str, rust_path: &str) -> (r: OntologyPrimitive)
    ensures
        r@ == generation_primitive(id@, label@, rust_path@),
{
    let projections = vec![projection(ProjectionType::RustType, rust_path)];
    let r = primitive(id, label, OntologyLayer::GenerationTraining, PrimitiveKind::Projection, rust_path, Vec::new(), projections);
    assert(r@.projections =~= generation_primitive(id@, label@, rust_path@).projections);
    assert(r@.invariants =~= generation_primitive(id@, label@, rust_path@).invariants);
    r
}

/// Entities (narrative domain).
pub open spec fn entity_primitive_table() -> Seq<OntologyPrimitiveView> {
    seq![
        entity_primitive("entity.character"@, "Character entity"@, "Character"@, "character"@, seq!["id is a stable snake_case slug"@, "refs resolve through EntityRegistry"@]),
        entity_primitive("entity.setting"@, "Setting / location entity"@, "Setting"@, "setting"@, seq!["id is a stable snake_case slug"@, "sensory_signature is three elements"@]),
        entity_primitive("entity.beat"@, "Structural beat"@, "Beat"@, "beat"@, seq!["order is unique within the story"@, "story_position is 0.0–1.0"@]),
        entity_primitive("entity.scene"@, "Scene card"@, "Scene"@, "scene"@, seq!["id is unique across all chapters"@, "tension_level is 1–10 when set"@]),
        entity_primitive("entity.scene_sequence"@, "Scene sequence"@, "SceneSequence"@, "scene_sequence"@, seq!["scenes list is ordered by narrative position"@]),
        entity_primitive("entity.chapter"@, "Chapter draft"@, "Chapter"@, "chapter"@, seq!["number is unique and monotonically increasing"@]),
        entity_primitive("entity.motif"@, "Recurring motif"@, "Motif"@, "motif"@, seq!["first_appearance must precede subsequent_appearances"@]),
        entity_primitive("entity.symbol"@, "Symbolic object / image"@, "Symbol"@, "symbol"@, seq!["object_or_image is a concrete noun phrase"@]),
        entity_primitive("entity.leitmotif"@, "Character leitmotif"@, "Leitmotif"@, "leitmotif"@, seq!["character ref must resolve in EntityRegistry"@]),
        entity_primitive("entity.thread"@, "Narrative thread / subplot"@, "Thread"@, "thread"@, seq!["characters list contains at least one ref"@]),
        entity_primitive("entity.promise"@, "Narrative promise (hermeneutic code)"@, "Promise"@, "promise"@, seq!["planted_in and paid_off_in are EntityRefs to Scene or Chapter"@]),
    ]
}

fn entity_primitives() -> (r: Vec<OntologyPrimitive>)
    ensures
        primitives_view(r@) == entity_primitive_table(),
{
    let mut out: Vec<OntologyPrimitive> = Vec::new();
    let invariants = vec!["id is a stable snake_case slug", "refs resolve through EntityRegistry"];
    assert(strs_view(invariants@) =~= seq!["id is a stable snake_case slug"@, "refs resolve through EntityRegistry"@]);
    out.push(entity("entity.character", "Character entity", "Character", "character", invariants));
    let invariants = vec!["id is a stable snake_case slug", "sensory_signature is three elements"];
    assert(strs_view(invariants@) =~= seq!["id is a stable snake_case slug"@, "sensory_signature is three elements"@]);
    out.push(entity("entity.setting", "Setting / location entity", "Setting", "setting", invariants));
    let invariants = vec!["order is unique within the story", "story_position is 0.0–1.0"];
    assert(strs_view(invariants@) =~= seq!["order is unique within the story"@, "story_position is 0.0–1.0"@]);
    out.push(entity("entity.beat", "Structural beat", "Beat", "beat", invariants));
    let invariants = vec!["id is unique across all chapters", "tension_level is 1–10 when set"];
    assert(strs_view(invariants@) =~= seq!["id is unique across all chapters"@, "tension_level is 1–10 when set"@]);
    out.push(entity("entity.scene", "Scene card", "Scene", "scene", invariants));
    let invariants = vec!["scenes list is ordered by narrative position"];
    assert(strs_view(invariants@) =~= seq!["scenes list is ordered by narrative position"@]);
    out.push(entity("entity.scene_sequence", "Scene sequence", "SceneSequence", "scene_sequence", invariants));
    let invariants = vec!["number is unique and monotonically increasing"];
    assert(strs_view(invariants@) =~= seq!["number is unique and monotonically increasing"@]);
    out.push(entity("entity.chapter", "Chapter draft", "Chapter", "chapter", invariants));
    let invariants = vec!["first_appearance must precede subsequent_appearances"];
    assert(strs_view(invariants@) =~= seq!["first_appearance must precede subsequent_appearances"@]);
    out.push(entity("entity.motif", "Recurring motif", "Motif", "motif", invariants));
    let invariants = vec!["object_or_image is a concrete noun phrase"];
    assert(strs_view(invariants@) =~= seq!["object_or_image is a concrete noun phrase"@]);
    out.push(entity("entity.symbol", "Symbolic object / image", "Symbol", "symbol", invariants));
    let invariants = vec!["character ref must resolve in EntityRegistry"];
    assert(strs_view(invariants@) =~= seq!["character ref must resolve in EntityRegistry"@]);
    out.push(entity("entity.leitmotif", "Character leitmotif", "Leitmotif", "leitmotif", invariants));
    let invariants = vec!["characters list contains at least one ref"];
    assert(strs_view(invariants@) =~= seq!["characters list contains at least one ref"@]);
    out.push(entity("entity.thread", "Narrative thread / subplot", "Thread", "thread", invariants));
    let invariants = vec!["planted_in and paid_off_in are EntityRefs to Scene or Chapter"];
    assert(strs_view(invariants@) =~= seq!["planted_in and paid_off_in are EntityRefs to Scene or Chapter"@]);
    out.push(entity("entity.promise", "Narrative promise (hermeneutic code)", "Promise", "promise", invariants));
    assert(primitives_view(out@) =~= entity_primitive_table());
    out
}

/// Infrastructure and annotation types (annotation events).
pub open spec fn annotation_primitive_table() -> Seq<OntologyPrimitiveView> {
    seq![
        primitive_view(
            "reference.entity_ref"@,
            "Entity reference (slug)"@,
            OntologyLayer::AnnotationEvent,
            PrimitiveKind::Reference,
            "tags::EntityRef"@,
            seq!["slug is non-empty snake_case"@, "must resolve to declared entity in validated workflows"@],
            seq![projection_view(ProjectionType::RustType, "grimoire-types/src/tags.rs::EntityRef"@), projection_view(ProjectionType::JsonSchema, "schemas/_base.schema.json#/$defs/entityRef"@)],
        ),
        primitive_view(
            "annotation.fact"@,
            "Typed annotation fact"@,
            OntologyLayer::AnnotationEvent,
            PrimitiveKind::AnnotationFact,
            "tags::Annotation"@,
            seq!["tag key/value pairs parse into typed variants"@, "unknown values produce warnings, not silent coercion"@, "channel() classifies every variant into Context/Craft/Theory/Governance"@],
            seq![projection_view(ProjectionType::RustType, "grimoire-types/src/tags.rs::Annotation"@), projection_view(ProjectionType::MarkdownTag, "references/gate-tag-vocabulary.md"@)],
        ),
        primitive_view(
            "annotation.channel"@,
            "Annotation channel (Context/Craft/Theory/Governance)"@,
            OntologyLayer::AnnotationEvent,
            PrimitiveKind::Projection,
            "tags::AnnotationChannel"@,
            seq!["every Annotation variant maps to exactly one channel"@, "Context and Craft are the primary training input channels"@],
            seq![projection_view(ProjectionType::RustType, "grimoire-types/src/tags.rs::AnnotationChannel"@)],
        ),
        primitive_view(
            "annotation.paragraph"@,
            "Paragraph-level annotation state"@,
            OntologyLayer::AnnotationEvent,
            PrimitiveKind::AnnotationFact,
            "tags::ParagraphAnnotations"@,
            seq!["Tier 1 fields are always populated when known"@, "extra holds overflow and Tier 3 theory annotations"@],
            seq![projection_view(ProjectionType::RustType, "grimoire-types/src/tags.rs::ParagraphAnnotations"@)],
        ),
        primitive_view(
            "annotation.sentence"@,
            "Sentence-level annotation state"@,
            OntologyLayer::AnnotationEvent,
            PrimitiveKind::AnnotationFact,
            "tags::SentenceAnnotations"@,
            seq!["index is 0-based within the parent Paragraph"@, "auto_derived=true when inferred from surface text"@],
            seq![projection_view(ProjectionType::RustType, "grimoire-types/src/tags.rs::SentenceAnnotations"@)],
        ),
    ]
}

fn annotation_primitives() -> (r: Vec<OntologyPrimitive>)
    ensures
        primitives_view(r@) == annotation_primitive_table(),
{
    let mut out: Vec<OntologyPrimitive> = Vec::new();
    let invariants = vec!["slug is non-empty snake_case", "must resolve to declared entity in validated workflows"];
    assert(strs_view(invariants@) =~= seq!["slug is non-empty snake_case"@, "must resolve to declared entity in validated workflows"@]);
    let projections = vec![
        projection(ProjectionType::RustType, "grimoire-types/src/tags.rs::EntityRef"),
        projection(ProjectionType::JsonSchema, "schemas/_base.schema.json#/$defs/entityRef"),
    ];
    assert(projections@.map_values(|p: PrimitiveProjection| p@) =~= seq![projection_view(ProjectionType::RustType, "grimoire-types/src/tags.rs::EntityRef"@), projection_view(ProjectionType::JsonSchema, "schemas/_base.schema.json#/$defs/entityRef"@)]);
    out.push(
        primitive(
            "reference.entity_ref",
            "Entity reference (slug)",
            OntologyLayer::AnnotationEvent,
            PrimitiveKind::Reference,
            "tags::EntityRef",
            invariants,
            projections,
        ),
    );
    let invariants = vec!["tag key/value pairs parse into typed variants", "unknown values produce warnings, not silent coercion", "channel() classifies every variant into Context/Craft/Theory/Governance"];
    assert(strs_view(invariants@) =~= seq!["tag key/value pairs parse into typed variants"@, "unknown values produce warnings, not silent coercion"@, "channel() classifies every variant into Context/Craft/Theory/Governance"@]);
    let projections = vec![
        projection(ProjectionType::RustType, "grimoire-types/src/tags.rs::Annotation"),
        projection(ProjectionType::MarkdownTag, "references/gate-tag-vocabulary.md"),
    ];
    assert(projections@.map_values(|p: PrimitiveProjection| p@) =~= seq![projection_view(ProjectionType::RustType, "grimoire-types/src/tags.rs::Annotation"@), projection_view(ProjectionType::MarkdownTag, "references/gate-tag-vocabulary.md"@)]);
    out.push(
        primitive(
            "annotation.fact",
            "Typed annotation fact",
            OntologyLayer::AnnotationEvent,
            PrimitiveKind::AnnotationFact,
            "tags::Annotation",
            invariants,
            projections,
        ),
    );
    let invariants = vec!["every Annotation variant maps to exactly one channel", "Context and Craft are the primary training input channels"];
    assert(strs_view(invariants@) =~= seq!["every Annotation variant maps to exactly one channel"@, "Context and Craft are the primary training input channels"@]);
    let projections = vec![
        projection(ProjectionType::RustType, "grimoire-types/src/tags.rs::AnnotationChannel"),
    ];
    assert(projections@.map_values(|p: PrimitiveProjection| p@) =~= seq![projection_view(ProjectionType::RustType, "grimoire-types/src/tags.rs::AnnotationChannel"@)]);
    out.push(
        primitive(
            "annotation.channel",
            "Annotation channel (Context/Craft/Theory/Governance)",
            OntologyLayer::AnnotationEvent,
            PrimitiveKind::Projection,
            "tags::AnnotationChannel",
            invariants,
            projections,
        ),
    );
    let invariants = vec!["Tier 1 fields are always populated when known", "extra holds overflow and Tier 3 theory annotations"];
    assert(strs_view(invariants@) =~= seq!["Tier 1 fields are always populated when known"@, "extra holds overflow and Tier 3 theory annotations"@]);
    let projections = vec![
        projection(ProjectionType::RustType, "grimoire-types/src/tags.rs::ParagraphAnnotations"),
    ];
    assert(projections@.map_values(|p: PrimitiveProjection| p@) =~= seq![projection_view(ProjectionType::RustType, "grimoire-types/src/tags.rs::ParagraphAnnotations"@)]);
    out.push(
        primitive(
            "annotation.paragraph",
            "Paragraph-level annotation state",
            OntologyLayer::AnnotationEvent,
            PrimitiveKind::AnnotationFact,
            "tags::ParagraphAnnotations",
            invariants,
            projections,
        ),
    );
    let invariants = vec!["index is 0-based within the parent Paragraph", "auto_derived=true when inferred from surface text"];
    assert(strs_view(invariants@) =~= seq!["index is 0-based within the parent Paragraph"@, "auto_derived=true when inferred from surface text"@]);
    let projections = vec![
        projection(ProjectionType::RustType, "grimoire-types/src/tags.rs::SentenceAnnotations"),
    ];
    assert(projections@.map_values(|p: PrimitiveProjection| p@) =~= seq![projection_view(ProjectionType::RustType, "grimoire-types/src/tags.rs::SentenceAnnotations"@)]);
    out.push(
        primitive(
            "annotation.sentence",
            "Sentence-level annotation state",
            OntologyLayer::AnnotationEvent,
            PrimitiveKind::AnnotationFact,
            "tags::SentenceAnnotations",
            invariants,
            projections,
        ),
    );
    assert(primitives_view(out@) =~= annotation_primitive_table());
    out
}

/// Craft-instruction tags (style and voice).
pub open spec fn craft_primitive_table() -> Seq<OntologyPrimitiveView> {
    seq![
        craft_tag_primitive("craft.psychic_distance"@, "Psychic distance (Gardner 1–5)"@, "enums::PsychicDistance"@, "psychic_distance"@, seq!["value is 1–5 inclusive"@, "1 = deepest interiority; 5 = panoramic summary"@]),
        craft_tag_primitive("craft.consciousness"@, "Consciousness mode (Cohn)"@, "enums::ConsciousnessMode"@, "consciousness"@, seq!["psychonarration | narrated_monologue | quoted_monologue"@]),
        craft_tag_primitive("craft.tension"@, "Scene tension level (1–10)"@, "tags::Tension"@, "tension"@, seq!["bounded integer 1–10"@, "8+ indicates climactic tension"@]),
        craft_tag_primitive("craft.subtext"@, "Active subtext description"@, "String"@, "subtext"@, seq!["free-text slug describing unstated meaning"@]),
        craft_tag_primitive("craft.speech_act"@, "Speech act type (Searle / Austin)"@, "enums::SpeechAct"@, "speech_act"@, seq!["assertive | directive | commissive | expressive | declarative"@, "requires a character tag to identify the speaker"@]),
        craft_tag_primitive("craft.gaze"@, "Gaze type (Mulvey / Lacan)"@, "enums::GazeType"@, "gaze"@, seq!["male_gaze | female_gaze | queer_gaze | medical_gaze | colonial_gaze"@]),
        craft_tag_primitive("craft.pov"@, "Point-of-view mode"@, "enums::PovType"@, "pov"@, seq!["first_person | second_person | third_person_limited | third_person_omniscient"@]),
        craft_tag_primitive("craft.focalization_type"@, "Focalization type (Genette / Bal)"@, "enums::FocalizationType"@, "focalization_type"@, seq!["zero | internal | external | variable | multiple"@]),
        craft_tag_primitive("craft.sentence_length"@, "Default sentence-length tendency"@, "enums::SentenceLength"@, "sentence_length"@, seq!["short | medium | long | varied"@]),
        craft_tag_primitive("craft.sentence_type"@, "Sentence type (syntax)"@, "enums::SentenceType"@, "sentence_type"@, seq!["simple | compound | complex | compound_complex | fragment | minor"@]),
        craft_tag_primitive("craft.dominant_sense"@, "Dominant sensory channel"@, "enums::DominantSense"@, "sense"@, seq!["visual | auditory | olfactory | tactile | gustatory | kinesthetic"@]),
    ]
}

fn craft_primitives() -> (r: Vec<OntologyPrimitive>)
    ensures
        primitives_view(r@) == craft_primitive_table(),
{
    let mut out: Vec<OntologyPrimitive> = Vec::new();
    let invariants = vec!["value is 1–5 inclusive", "1 = deepest interiority; 5 = panoramic summary"];
    assert(strs_view(invariants@) =~= seq!["value is 1–5 inclusive"@, "1 = deepest interiority; 5 = panoramic summary"@]);
    out.push(craft_tag("craft.psychic_distance", "Psychic distance (Gardner 1–5)", "enums::PsychicDistance", "psychic_distance", invariants));
    let invariants = vec!["psychonarration | narrated_monologue | quoted_monologue"];
    assert(strs_view(invariants@) =~= seq!["psychonarration | narrated_monologue | quoted_monologue"@]);
    out.push(craft_tag("craft.consciousness", "Consciousness mode (Cohn)", "enums::ConsciousnessMode", "consciousness", invariants));
    let invariants = vec!["bounded integer 1–10", "8+ indicates climactic tension"];
    assert(strs_view(invariants@) =~= seq!["bounded integer 1–10"@, "8+ indicates climactic tension"@]);
    out.push(craft_tag("craft.tension", "Scene tension level (1–10)", "tags::Tension", "tension", invariants));
    let invariants = vec!["free-text slug describing unstated meaning"];
    assert(strs_view(invariants@) =~= seq!["free-text slug describing unstated meaning"@]);
    out.push(craft_tag("craft.subtext", "Active subtext description", "String", "subtext", invariants));
    let invariants = vec!["assertive | directive | commissive | expressive | declarative", "requires a character tag to identify the speaker"];
    assert(strs_view(invariants@) =~= seq!["assertive | directive | commissive | expressive | declarative"@, "requires a character tag to identify the speaker"@]);
    out.push(craft_tag("craft.speech_act", "Speech act type (Searle / Austin)", "enums::SpeechAct", "speech_act", invariants));
    let invariants = vec!["male_gaze | female_gaze | queer_gaze | medical_gaze | colonial_gaze"];
    assert(strs_view(invariants@) =~= seq!["male_gaze | female_gaze | queer_gaze | medical_gaze | colonial_gaze"@]);
    out.push(craft_tag("craft.gaze", "Gaze type (Mulvey / Lacan)", "enums::GazeType", "gaze", invariants));
    let invariants = vec!["first_person | second_person | third_person_limited | third_person_omniscient"];
    assert(strs_view(invariants@) =~= seq!["first_person | second_person | third_person_limited | third_person_omniscient"@]);
    out.push(craft_tag("craft.pov", "Point-of-view mode", "enums::PovType", "pov", invariants));
    let invariants = vec!["zero | internal | external | variable | multiple"];
    assert(strs_view(invariants@) =~= seq!["zero | internal | external | variable | multiple"@]);
    out.push(craft_tag("craft.focalization_type", "Focalization type (Genette / Bal)", "enums::FocalizationType", "focalization_type", invariants));
    let invariants = vec!["short | medium | long | varied"];
    assert(strs_view(invariants@) =~= seq!["short | medium | long | varied"@]);
    out.push(craft_tag("craft.sentence_length", "Default sentence-length tendency", "enums::SentenceLength", "sentence_length", invariants));
    let invariants = vec!["simple | compound | complex | compound_complex | fragment | minor"];
    assert(strs_view(invariants@) =~= seq!["simple | compound | complex | compound_complex | fragment | minor"@]);
    out.push(craft_tag("craft.sentence_type", "Sentence type (syntax)", "enums::SentenceType", "sentence_type", invariants));
    let invariants = vec!["visual | auditory | olfactory | tactile | gustatory | kinesthetic"];
    assert(strs_view(invariants@) =~= seq!["visual | auditory | olfactory | tactile | gustatory | kinesthetic"@]);
    out.push(craft_tag("craft.dominant_sense", "Dominant sensory channel", "enums::DominantSense", "sense", invariants));
    assert(primitives_view(out@) =~= craft_primitive_table());
    out
}

/// Vocabulary terms (interpretive semantics).
pub open spec fn vocabulary_primitive_table() -> Seq<OntologyPrimitiveView> {
    seq![
        vocab_term_primitive("vocab.archetype"@, "Character archetype (Campbell / Vogler)"@, "enums::Archetype"@, "archetype"@, "03-characters/references/character-archetypes.yaml"@),
        vocab_term_primitive("vocab.wound"@, "Character psychological wound"@, "enums::Wound"@, "wound"@, "03-characters/references/character-wounds.yaml"@),
        vocab_term_primitive("vocab.drive_model"@, "Character drive model"@, "enums::DriveModel"@, "drive_model"@, "03-characters/references/character-drives.yaml"@),
        vocab_term_primitive("vocab.arc_type"@, "Character arc type"@, "enums::ArcType"@, "arc"@, "03-characters/references/character-arc-types.yaml"@),
        vocab_term_primitive("vocab.actant"@, "Actantial role (Greimas)"@, "enums::Actant"@, "actant"@, "03-characters/cross-refs/actantial-map.md"@),
        vocab_term_primitive("vocab.genre"@, "Story genre"@, "enums::Genre"@, "genre"@, "01-concept/references/genre-patterns.yaml"@),
        vocab_term_primitive("vocab.plot_type"@, "Plot type"@, "enums::PlotType"@, "plot_type"@, "05-plot-and-structure/references/plot-types.yaml"@),
        vocab_term_primitive("vocab.collision_pattern"@, "Collision / inciting-incident pattern"@, "enums::CollisionPattern"@, "collision_pattern"@, "02-collision/references/collision-patterns.yaml"@),
        vocab_term_primitive("vocab.temporal_order"@, "Narrative temporal order (Genette)"@, "enums::TemporalOrder"@, "temporal_order"@, "05-plot-and-structure/references/narrative-time-reference.md"@),
        vocab_term_primitive("vocab.reader_effect"@, "Reader experience effect (Sternberg / Iser)"@, "enums::ReaderExperienceEffect"@, "reader_effect"@, "05-plot-and-structure/reader-experience/reader-experience-map.md"@),
        vocab_term_primitive("vocab.diegetic_level"@, "Diegetic level (Genette)"@, "enums::DiegeticLevel"@, "diegetic_level"@, "05-plot-and-structure/architecture/frame-narrative.md"@),
    ]
}

fn vocabulary_primitives() -> (r: Vec<OntologyPrimitive>)
    ensures
        primitives_view(r@) == vocabulary_primitive_table(),
{
    let mut out: Vec<OntologyPrimitive> = Vec::new();
    out.push(
        vocab_term(
            "vocab.archetype",
            "Character archetype (Campbell / Vogler)",
            "enums::Archetype",
            "archetype",
            "03-characters/references/character-archetypes.yaml",
        ),
    );
    out.push(
        vocab_term(
            "vocab.wound",
            "Character psychological wound",
            "enums::Wound",
            "wound",
            "03-characters/references/character-wounds.yaml",
        ),
    );
    out.push(
        vocab_term(
            "vocab.drive_model",
            "Character drive model",
            "enums::DriveModel",
            "drive_model",
            "03-characters/references/character-drives.yaml",
        ),
    );
    out.push(
        vocab_term(
            "vocab.arc_type",
            "Character arc type",
            "enums::ArcType",
            "arc",
            "03-characters/references/character-arc-types.yaml",
        ),
    );
    out.push(
        vocab_term(
            "vocab.actant",
            "Actantial role (Greimas)",
            "enums::Actant",
            "actant",
            "03-characters/cross-refs/actantial-map.md",
        ),
    );
    out.push(
        vocab_term(
            "vocab.genre",
            "Story genre",
            "enums::Genre",
            "genre",
            "01-concept/references/genre-patterns.yaml",
        ),
    );
    out.push(
        vocab_term(
            "vocab.plot_type",
            "Plot type",
            "enums::PlotType",
            "plot_type",
            "05-plot-and-structure/references/plot-types.yaml",
        ),
    );
    out.push(
        vocab_term(
            "vocab.collision_pattern",
            "Collision / inciting-incident pattern",
            "enums::CollisionPattern",
            "collision_pattern",
            "02-collision/references/collision-patterns.yaml",
        ),
    );
    out.push(
        vocab_term(
            "vocab.temporal_order",
            "Narrative temporal order (Genette)",
            "enums::TemporalOrder",
            "temporal_order",
            "05-plot-and-structure/references/narrative-time-reference.md",
        ),
    );
    out.push(
        vocab_term(
            "vocab.reader_effect",
            "Reader experience effect (Sternberg / Iser)",
            "enums::ReaderExperienceEffect",
            "reader_effect",
            "05-plot-and-structure/reader-experience/reader-experience-map.md",
        ),
    );
    out.push(
        vocab_term(
            "vocab.diegetic_level",
            "Diegetic level (Genette)",
            "enums::DiegeticLevel",
            "diegetic_level",
            "05-plot-and-structure/architecture/frame-narrative.md",
        ),
    );
    assert(primitives_view(out@) =~= vocabulary_primitive_table());
    out
}

/// The constraint graph.
pub open spec fn constraint_primitive_table() -> Seq<OntologyPrimitiveView> {
    seq![
        primitive_view(
            "constraint.tag_constraint"@,
            "Tag constraint (implies / excludes / requires / correlates)"@,
            OntologyLayer::AnnotationEvent,
            PrimitiveKind::Constraint,
            "constraints::TagConstraint"@,
            seq!["antecedent and consequent are TagPredicates over canonical tag keys"@, "Excludes and Requires constraints produce Error-severity violations"@, "Implies constraints produce Warning-severity violations"@],
            seq![projection_view(ProjectionType::RustType, "grimoire-types/src/constraints.rs::TagConstraint"@)],
        ),
    ]
}

fn constraint_primitives() -> (r: Vec<OntologyPrimitive>)
    ensures
        primitives_view(r@) == constraint_primitive_table(),
{
    let mut out: Vec<OntologyPrimitive> = Vec::new();
    let invariants = vec!["antecedent and consequent are TagPredicates over canonical tag keys", "Excludes and Requires constraints produce Error-severity violations", "Implies constraints produce Warning-severity violations"];
    assert(strs_view(invariants@) =~= seq!["antecedent and consequent are TagPredicates over canonical tag keys"@, "Excludes and Requires constraints produce Error-severity violations"@, "Implies constraints produce Warning-severity violations"@]);
    let projections = vec![
        projection(ProjectionType::RustType, "grimoire-types/src/constraints.rs::TagConstraint"),
    ];
    assert(projections@.map_values(|p: PrimitiveProjection| p@) =~= seq![projection_view(ProjectionType::RustType, "grimoire-types/src/constraints.rs::TagConstraint"@)]);
    out.push(
        primitive(
            "constraint.tag_constraint",
            "Tag constraint (implies / excludes / requires / correlates)",
            OntologyLayer::AnnotationEvent,
            PrimitiveKind::Constraint,
            "constraints::TagConstraint",
            invariants,
            projections,
        ),
    );
    assert(primitives_view(out@) =~= constraint_primitive_table());
    out
}

/// Generation and training types.
pub open spec fn generation_primitive_table() -> Seq<OntologyPrimitiveView> {
    seq![
        generation_primitive("gen.tier_config"@, "Training export tier configuration"@, "training::TierConfig"@),
        generation_primitive("gen.prose_intent"@, "Prose intent (tags → instruction intermediate layer)"@, "training::ProseIntent"@),
        generation_primitive("gen.quality_target"@, "Single quality target dimension"@, "training::QualityTarget"@),
        generation_primitive("gen.scene_context"@, "Full structured input for prose generation"@, "training::SceneContext"@),
        generation_primitive("gen.prose_passage"@, "Authored prose output (target side of training pair)"@, "training::ProsePassage"@),
        generation_primitive("gen.paragraph"@, "Paragraph with annotations and optional sentence breakdown"@, "training::Paragraph"@),
        generation_primitive("gen.sentence"@, "Sentence with sentence-level annotations"@, "training::Sentence"@),
        generation_primitive("gen.training_example"@, "Fine-tuning pair (SceneContext → ProsePassage)"@, "training::TrainingExample"@),
        generation_primitive("gen.training_dataset"@, "Collection of training examples with statistics"@, "training::TrainingDataset"@),
    ]
}

fn generation_primitives() -> (r: Vec<OntologyPrimitive>)
    ensures
        primitives_view(r@) == generation_primitive_table(),
{
    let mut out: Vec<OntologyPrimitive> = Vec::new();
    out.push(generation_type("gen.tier_config", "Training export tier configuration", "training::TierConfig"));
    out.push(generation_type("gen.prose_intent", "Prose intent (tags → instruction intermediate layer)", "training::ProseIntent"));
    out.push(generation_type("gen.quality_target", "Single quality target dimension", "training::QualityTarget"));
    out.push(generation_type("gen.scene_context", "Full structured input for prose generation", "training::SceneContext"));
    out.push(generation_type("gen.prose_passage", "Authored prose output (target side of training pair)", "training::ProsePassage"));
    out.push(generation_type("gen.paragraph", "Paragraph with annotations and optional sentence breakdown", "training::Paragraph"));
    out.push(generation_type("gen.sentence", "Sentence with sentence-level annotations", "training::Sentence"));
    out.push(generation_type("gen.training_example", "Fine-tuning pair (SceneContext → ProsePassage)", "training::TrainingExample"));
    out.push(generation_type("gen.training_dataset", "Collection of training examples with statistics", "training::TrainingDataset"));
    assert(primitives_view(out@) =~= generation_primitive_table());
    out
}

/// The voice-contract layer.
pub open spec fn voice_primitive_table() -> Seq<OntologyPrimitiveView> {
    seq![
        primitive_view(
            "voice.contract"@,
            "Author voice contract (style fingerprint)"@,
            OntologyLayer::StyleVoice,
            PrimitiveKind::Constraint,
            "voice::VoiceContract"@,
            seq!["character_signatures keyed by character slug"@, "focalization config may override narrative_voice defaults per-scene"@],
            seq![projection_view(ProjectionType::RustType, "grimoire-types/src/voice.rs::VoiceContract"@), projection_view(ProjectionType::MarkdownTag, "07-drafting/voice-contract/"@)],
        ),
        primitive_view(
            "voice.signature"@,
            "Per-character voice signature (FID / dialogue fingerprint)"@,
            OntologyLayer::StyleVoice,
            PrimitiveKind::Constraint,
            "voice::VoiceSignature"@,
            seq!["character_id matches a declared Character entity slug"@, "exemplar_passage is the key seed text for fine-tuning"@],
            seq![projection_view(ProjectionType::RustType, "grimoire-types/src/voice.rs::VoiceSignature"@)],
        ),
    ]
}

fn voice_primitives() -> (r: Vec<OntologyPrimitive>)
    ensures
        primitives_view(r@) == voice_primitive_table(),
{
    let mut out: Vec<OntologyPrimitive> = Vec::new();
    let invariants = vec!["character_signatures keyed by character slug", "focalization config may override narrative_voice defaults per-scene"];
    assert(strs_view(invariants@) =~= seq!["character_signatures keyed by character slug"@, "focalization config may override narrative_voice defaults per-scene"@]);
    let projections = vec![
        projection(ProjectionType::RustType, "grimoire-types/src/voice.rs::VoiceContract"),
        projection(ProjectionType::MarkdownTag, "07-drafting/voice-contract/"),
    ];
    assert(projections@.map_values(|p: PrimitiveProjection| p@) =~= seq![projection_view(ProjectionType::RustType, "grimoire-types/src/voice.rs::VoiceContract"@), projection_view(ProjectionType::MarkdownTag, "07-drafting/voice-contract/"@)]);
    out.push(
        primitive(
            "voice.contract",
            "Author voice contract (style fingerprint)",
            OntologyLayer::StyleVoice,
            PrimitiveKind::Constraint,
            "voice::VoiceContract",
            invariants,
            projections,
        ),
    );
    let invariants = vec!["character_id matches a declared Character entity slug", "exemplar_passage is the key seed text for fine-tuning"];
    assert(strs_view(invariants@) =~= seq!["character_id matches a declared Character entity slug"@, "exemplar_passage is the key seed text for fine-tuning"@]);
    let projections = vec![
        projection(ProjectionType::RustType, "grimoire-types/src/voice.rs::VoiceSignature"),
    ];
    assert(projections@.map_values(|p: PrimitiveProjection| p@) =~= seq![projection_view(ProjectionType::RustType, "grimoire-types/src/voice.rs::VoiceSignature"@)]);
    out.push(
        primitive(
            "voice.signature",
            "Per-character voice signature (FID / dialogue fingerprint)",
            OntologyLayer::StyleVoice,
            PrimitiveKind::Constraint,
            "voice::VoiceSignature",
            invariants,
            projections,
        ),
    );
    assert(primitives_view(out@) =~= voice_primitive_table());
    out
}

/// The registry of canonical ontology primitives, group by group.
pub open spec fn core_primitive_table() -> Seq<OntologyPrimitiveView> {
    entity_primitive_table() + annotation_primitive_table() + craft_primitive_table() + vocabulary_primitive_table() + constraint_primitive_table() + generation_primitive_table() + voice_primitive_table()
}

/// The views of a list of primitives.
pub open spec fn primitives_view(v: Seq<OntologyPrimitive>) -> Seq<OntologyPrimitiveView> {
    v.map_values(|p: OntologyPrimitive| p@)
}

/// Full registry of canonical ontology primitives.
///
/// Covers all 11 entity types, the complete set of craft-instruction tag keys,
/// key interpretive-semantics vocabulary domains, and the training/generation
/// layer types.
pub fn core_primitives() -> (r: Vec<OntologyPrimitive>)
    ensures
        primitives_view(r@) == core_primitive_table(),
{
    let mut out: Vec<OntologyPrimitive> = Vec::new();
    let mut part = entity_primitives();
    let ghost before = primitives_view(out@);
    out.append(&mut part);
    assert(primitives_view(out@) =~= before + entity_primitive_table());
    let mut part = annotation_primitives();
    let ghost before = primitives_view(out@);
    out.append(&mut part);
    assert(primitives_view(out@) =~= before + annotation_primitive_table());
    let mut part = craft_primitives();
    let ghost before = primitives_view(out@);
    out.append(&mut part);
    assert(primitives_view(out@) =~= before + craft_primitive_table());
    let mut part = vocabulary_primitives();
    let ghost before = primitives_view(out@);
    out.append(&mut part);
    assert(primitives_view(out@) =~= before + vocabulary_primitive_table());
    let mut part = constraint_primitives();
    let ghost before = primitives_view(out@);
    out.append(&mut part);
    assert(primitives_view(out@) =~= before + constraint_primitive_table());
    let mut part = generation_primitives();
    let ghost before = primitives_view(out@);
    out.append(&mut part);
    assert(primitives_view(out@) =~= before + generation_primitive_table());
    let mut part = voice_primitives();
    let ghost before = primitives_view(out@);
    out.append(&mut part);
    assert(primitives_view(out@) =~= before + voice_primitive_table());
    assert(primitives_view(out@) =~= core_primitive_table());
    out
}

/// The documented key list holds exactly the keys of the full canonical key
/// list other than `stage`.
pub proof fn lemma_documented_keys_are_canonical_without_stage(k: Seq<char>)
    ensures
        is_listed_key(tag_key_table(), true, k) <==> (is_listed_key(tag_key_table(), false, k) && k
            != "stage"@),
{
    reveal_strlit("actant");
    reveal_strlit("alignment");
    reveal_strlit("archetype");
    reveal_strlit("beat");
    reveal_strlit("chapter");
    reveal_strlit("character");
    reveal_strlit("characters");
    reveal_strlit("collision_pattern");
    reveal_strlit("consciousness");
    reveal_strlit("diegetic_level");
    reveal_strlit("drive_model");
    reveal_strlit("flag");
    reveal_strlit("gaze");
    reveal_strlit("genre");
    reveal_strlit("location");
    reveal_strlit("motif");
    reveal_strlit("motif_stage");
    reveal_strlit("pact");
    reveal_strlit("paratext_zone");
    reveal_strlit("plot_type");
    reveal_strlit("promise");
    reveal_strlit("psychic_distance");
    reveal_strlit("relationship");
    reveal_strlit("role");
    reveal_strlit("scene");
    reveal_strlit("scene_id");
    reveal_strlit("setting");
    reveal_strlit("social_circle");
    reveal_strlit("source");
    reveal_strlit("source_text");
    reveal_strlit("speech_act");
    reveal_strlit("stage");
    reveal_strlit("subplot");
    reveal_strlit("subtext");
    reveal_strlit("tension");
    reveal_strlit("thread");
    reveal_strlit("trope");
    reveal_strlit("wound");
    let t = tag_key_table();
    assert(t.len() == 38);
    assert(t[9].canonical_key == "stage"@ && t[9].alias_key is None);
    assert forall|i: int|
        0 <= i < t.len() && (#[trigger] t[i]).alias_key is None implies (t[i].expected_in_docs_heading
            <==> t[i].canonical_key != "stage"@) by {
        if i == 0 {
            assert(t[0] == tag_key_table()[0]);
            assert("character"@.len() != "stage"@.len());
        } else if i == 1 {
            assert(t[1] == tag_key_table()[1]);
            assert("setting"@.len() != "stage"@.len());
        } else if i == 2 {
            assert(t[2] == tag_key_table()[2]);
            assert("beat"@.len() != "stage"@.len());
        } else if i == 3 {
            assert(t[3] == tag_key_table()[3]);
            assert("scene"@[1] != "stage"@[1]);
        } else if i == 4 {
            assert(t[4] == tag_key_table()[4]);
            assert("chapter"@.len() != "stage"@.len());
        } else if i == 5 {
            assert(t[5] == tag_key_table()[5]);
            assert("thread"@.len() != "stage"@.len());
        } else if i == 6 {
            assert(t[6] == tag_key_table()[6]);
            assert("subplot"@.len() != "stage"@.len());
        } else if i == 7 {
            assert(t[7] == tag_key_table()[7]);
            assert("relationship"@.len() != "stage"@.len());
        } else if i == 8 {
            assert(t[8] == tag_key_table()[8]);
            assert("motif"@[0] != "stage"@[0]);
        } else if i == 9 {
            assert(t[9] == tag_key_table()[9]);
            
        } else if i == 10 {
            assert(t[10] == tag_key_table()[10]);
            assert("promise"@.len() != "stage"@.len());
        } else if i == 11 {
            assert(t[11] == tag_key_table()[11]);
            assert("genre"@[0] != "stage"@[0]);
        } else if i == 12 {
            assert(t[12] == tag_key_table()[12]);
            assert("archetype"@.len() != "stage"@.len());
        } else if i == 13 {
            assert(t[13] == tag_key_table()[13]);
            assert("role"@.len() != "stage"@.len());
        } else if i == 14 {
            assert(t[14] == tag_key_table()[14]);
            assert("alignment"@.len() != "stage"@.len());
        } else if i == 15 {
            assert(t[15] == tag_key_table()[15]);
            assert("wound"@[0] != "stage"@[0]);
        } else if i == 16 {
            assert(t[16] == tag_key_table()[16]);
            assert("social_circle"@.len() != "stage"@.len());
        } else if i == 17 {
            assert(t[17] == tag_key_table()[17]);
            assert("plot_type"@.len() != "stage"@.len());
        } else if i == 18 {
            assert(t[18] == tag_key_table()[18]);
            assert("collision_pattern"@.len() != "stage"@.len());
        } else if i == 19 {
            assert(t[19] == tag_key_table()[19]);
            assert("trope"@[0] != "stage"@[0]);
        } else if i == 20 {
            assert(t[20] == tag_key_table()[20]);
            assert("diegetic_level"@.len() != "stage"@.len());
        } else if i == 21 {
            assert(t[21] == tag_key_table()[21]);
            assert("actant"@.len() != "stage"@.len());
        } else if i == 22 {
            assert(t[22] == tag_key_table()[22]);
            assert("drive_model"@.len() != "stage"@.len());
        } else if i == 23 {
            assert(t[23] == tag_key_table()[23]);
            assert("speech_act"@.len() != "stage"@.len());
        } else if i == 24 {
            assert(t[24] == tag_key_table()[24]);
            assert("gaze"@.len() != "stage"@.len());
        } else if i == 25 {
            assert(t[25] == tag_key_table()[25]);
            assert("pact"@.len() != "stage"@.len());
        } else if i == 26 {
            assert(t[26] == tag_key_table()[26]);
            assert("psychic_distance"@.len() != "stage"@.len());
        } else if i == 27 {
            assert(t[27] == tag_key_table()[27]);
            assert("consciousness"@.len() != "stage"@.len());
        } else if i == 28 {
            assert(t[28] == tag_key_table()[28]);
            assert("subtext"@.len() != "stage"@.len());
        } else if i == 29 {
            assert(t[29] == tag_key_table()[29]);
            assert("tension"@.len() != "stage"@.len());
        } else if i == 30 {
            assert(t[30] == tag_key_table()[30]);
            assert("flag"@.len() != "stage"@.len());
        } else if i == 31 {
            assert(t[31] == tag_key_table()[31]);
            assert("source"@.len() != "stage"@.len());
        } else if i == 32 {
            assert(t[32] == tag_key_table()[32]);
            assert("source_text"@.len() != "stage"@.len());
        } else if i == 33 {
            assert(t[33] == tag_key_table()[33]);
            assert("paratext_zone"@.len() != "stage"@.len());
        } else if i == 34 {
            assert(t[34] == tag_key_table()[34]);
            
        } else if i == 35 {
            assert(t[35] == tag_key_table()[35]);
            
        } else if i == 36 {
            assert(t[36] == tag_key_table()[36]);
            
        } else if i == 37 {
            assert(t[37] == tag_key_table()[37]);
            
        }
    }
    if is_listed_key(t, false, k) && k != "stage"@ {
        let i = choose|i: int|
            0 <= i < t.len() && (#[trigger] t[i]).alias_key is None && t[i].canonical_key == k;
        assert(t[i].expected_in_docs_heading);
    }
    if is_listed_key(t, true, k) {
        let i = choose|i: int|
            0 <= i < t.len() && (#[trigger] t[i]).alias_key is None && t[i].expected_in_docs_heading
                && t[i].canonical_key == k;
        assert(k != "stage"@);
    }
}


// ── Canonicalization is idempotent ────────────────────────────────────────────

/// A character of a canonical key: a lower-case ASCII letter or `_`.
pub open spec fn is_key_char(c: char) -> bool {
    ('a' <= c && c <= 'z') || c == '_'
}

pub(crate) proof fn lemma_key_chars_fixed(s: Seq<char>)
    requires
        s.len() > 0,
        forall|i: int| 0 <= i < s.len() ==> is_key_char(#[trigger] s[i]),
    ensures
        trim(s) == s,
        lowercase(s) == s,
{
    assert(!is_white_space(s[0]));
    assert(!is_white_space(s.last()));
    assert(trim_start(s) == s);
    assert(trim_end(s) == s);
    assert(all_ascii(s));
    assert(s.map_values(|c: char| ascii_lower(c)) =~= s);
}

/// A key that no entry names maps to itself.
pub(crate) proof fn lemma_mapped_unlisted(key: Seq<char>, ms: Seq<TagKeyMappingView>)
    requires
        forall|i: int|
            0 <= i < ms.len() ==> (#[trigger] ms[i]).canonical_key != key && ms[i].alias_key != Some(key),
    ensures
        mapped_key(key, ms) == key,
    decreases ms.len(),
{
    if ms.len() > 0 {
        assert(ms[0].canonical_key != key && ms[0].alias_key != Some(key));
        assert forall|i: int| 0 <= i < ms.drop_first().len() implies (#[trigger] ms.drop_first()[i]).canonical_key
            != key && ms.drop_first()[i].alias_key != Some(key) by {
            assert(ms.drop_first()[i] == ms[i + 1]);
        }
        lemma_mapped_unlisted(key, ms.drop_first());
    }
}

proof fn lemma_mapped_canonical(key: Seq<char>, ms: Seq<TagKeyMappingView>, j: int)
    requires
        0 <= j < ms.len(),
        ms[j].canonical_key == key,
        forall|i: int| 0 <= i < ms.len() ==> (#[trigger] ms[i]).alias_key != Some(key),
    ensures
        mapped_key(key, ms) == key,
    decreases ms.len(),
{
    if ms[0].canonical_key != key {
        assert(ms.drop_first()[j - 1] == ms[j]);
        assert forall|i: int| 0 <= i < ms.drop_first().len() implies (#[trigger] ms.drop_first()[i]).alias_key
            != Some(key) by {
            assert(ms.drop_first()[i] == ms[i + 1]);
        }
        lemma_mapped_canonical(key, ms.drop_first(), j - 1);
    }
}

pub(crate) proof fn lemma_canonical_fixed_actant()
    ensures
        canonical_tag_key("actant"@) == "actant"@,
        "actant"@.len() > 0,
        forall|i: int| 0 <= i < "actant"@.len() ==> is_key_char(#[trigger] "actant"@[i]),
{
    reveal_strlit("actant");
    reveal_strlit("characters");
    reveal_strlit("scene_id");
    reveal_strlit("location");
    reveal_strlit("motif_stage");
    let k = "actant"@;
    assert forall|i: int| 0 <= i < k.len() implies is_key_char(#[trigger] k[i]) by {
        if i == 0 {} else if i == 1 {} else if i == 2 {} else if i == 3 {} else if i == 4 {} else if i == 5 {}
    }
    lemma_key_chars_fixed(k);
    let t = tag_key_table();
    assert(t[21].canonical_key == k);
    assert forall|i: int| 0 <= i < t.len() implies (#[trigger] t[i]).alias_key != Some(k) by {
        if i < 34 {
            assert(t[i].alias_key is None) by { if i == 0 {} else if i == 1 {} else if i == 2 {} else if i == 3 {} else if i == 4 {} else if i == 5 {} else if i == 6 {} else if i == 7 {} else if i == 8 {} else if i == 9 {} else if i == 10 {} else if i == 11 {} else if i == 12 {} else if i == 13 {} else if i == 14 {} else if i == 15 {} else if i == 16 {} else if i == 17 {} else if i == 18 {} else if i == 19 {} else if i == 20 {} else if i == 21 {} else if i == 22 {} else if i == 23 {} else if i == 24 {} else if i == 25 {} else if i == 26 {} else if i == 27 {} else if i == 28 {} else if i == 29 {} else if i == 30 {} else if i == 31 {} else if i == 32 {} else if i == 33 {} }
        } else if i == 34 {
            assert(t[34].alias_key == Some("characters"@));
            assert("characters"@.len() != "actant"@.len());
        } else if i == 35 {
            assert(t[35].alias_key == Some("scene_id"@));
            assert("scene_id"@.len() != "actant"@.len());
        } else if i == 36 {
            assert(t[36].alias_key == Some("location"@));
            assert("location"@.len() != "actant"@.len());
        } else if i == 37 {
            assert(t[37].alias_key == Some("motif_stage"@));
            assert("motif_stage"@.len() != "actant"@.len());
        }
    }
    lemma_mapped_canonical(k, t, 21);
}

pub(crate) proof fn lemma_canonical_fixed_alignment()
    ensures
        canonical_tag_key("alignment"@) == "alignment"@,
        "alignment"@.len() > 0,
        forall|i: int| 0 <= i < "alignment"@.len() ==> is_key_char(#[trigger] "alignment"@[i]),
{
    reveal_strlit("alignment");
    reveal_strlit("characters");
    reveal_strlit("scene_id");
    reveal_strlit("location");
    reveal_strlit("motif_stage");
    let k = "alignment"@;
    assert forall|i: int| 0 <= i < k.len() implies is_key_char(#[trigger] k[i]) by {
        if i == 0 {} else if i == 1 {} else if i == 2 {} else if i == 3 {} else if i == 4 {} else if i == 5 {} else if i == 6 {} else if i == 7 {} else if i == 8 {}
    }
    lemma_key_chars_fixed(k);
    let t = tag_key_table();
    assert(t[14].canonical_key == k);
    assert forall|i: int| 0 <= i < t.len() implies (#[trigger] t[i]).alias_key != Some(k) by {
        if i < 34 {
            assert(t[i].alias_key is None) by { if i == 0 {} else if i == 1 {} else if i == 2 {} else if i == 3 {} else if i == 4 {} else if i == 5 {} else if i == 6 {} else if i == 7 {} else if i == 8 {} else if i == 9 {} else if i == 10 {} else if i == 11 {} else if i == 12 {} else if i == 13 {} else if i == 14 {} else if i == 15 {} else if i == 16 {} else if i == 17 {} else if i == 18 {} else if i == 19 {} else if i == 20 {} else if i == 21 {} else if i == 22 {} else if i == 23 {} else if i == 24 {} else if i == 25 {} else if i == 26 {} else if i == 27 {} else if i == 28 {} else if i == 29 {} else if i == 30 {} else if i == 31 {} else if i == 32 {} else if i == 33 {} }
        } else if i == 34 {
            assert(t[34].alias_key == Some("characters"@));
            assert("characters"@.len() != "alignment"@.len());
        } else if i == 35 {
            assert(t[35].alias_key == Some("scene_id"@));
            assert("scene_id"@.len() != "alignment"@.len());
        } else if i == 36 {
            assert(t[36].alias_key == Some("location"@));
            assert("location"@.len() != "alignment"@.len());
        } else if i == 37 {
            assert(t[37].alias_key == Some("motif_stage"@));
            assert("motif_stage"@.len() != "alignment"@.len());
        }
    }
    lemma_mapped_canonical(k, t, 14);
}

pub(crate) proof fn lemma_canonical_fixed_archetype()
    ensures
        canonical_tag_key("archetype"@) == "archetype"@,
        "archetype"@.len() > 0,
        forall|i: int| 0 <= i < "archetype"@.len() ==> is_key_char(#[trigger] "archetype"@[i]),
{
    reveal_strlit("archetype");
    reveal_strlit("characters");
    reveal_strlit("scene_id");
    reveal_strlit("location");
    reveal_strlit("motif_stage");
    let k = "archetype"@;
    assert forall|i: int| 0 <= i < k.len() implies is_key_char(#[trigger] k[i]) by {
        if i == 0 {} else if i == 1 {} else if i == 2 {} else if i == 3 {} else if i == 4 {} else if i == 5 {} else if i == 6 {} else if i == 7 {} else if i == 8 {}
    }
    lemma_key_chars_fixed(k);
    let t = tag_key_table();
    assert(t[12].canonical_key == k);
    assert forall|i: int| 0 <= i < t.len() implies (#[trigger] t[i]).alias_key != Some(k) by {
        if i < 34 {
            assert(t[i].alias_key is None) by { if i == 0 {} else if i == 1 {} else if i == 2 {} else if i == 3 {} else if i == 4 {} else if i == 5 {} else if i == 6 {} else if i == 7 {} else if i == 8 {} else if i == 9 {} else if i == 10 {} else if i == 11 {} else if i == 12 {} else if i == 13 {} else if i == 14 {} else if i == 15 {} else if i == 16 {} else if i == 17 {} else if i == 18 {} else if i == 19 {} else if i == 20 {} else if i == 21 {} else if i == 22 {} else if i == 23 {} else if i == 24 {} else if i == 25 {} else if i == 26 {} else if i == 27 {} else if i == 28 {} else if i == 29 {} else if i == 30 {} else if i == 31 {} else if i == 32 {} else if i == 33 {} }
        } else if i == 34 {
            assert(t[34].alias_key == Some("characters"@));
            assert("characters"@.len() != "archetype"@.len());
        } else if i == 35 {
            assert(t[35].alias_key == Some("scene_id"@));
            assert("scene_id"@.len() != "archetype"@.len());
        } else if i == 36 {
            assert(t[36].alias_key == Some("location"@));
            assert("location"@.len() != "archetype"@.len());
        } else if i == 37 {
            assert(t[37].alias_key == Some("motif_stage"@));
            assert("motif_stage"@.len() != "archetype"@.len());
        }
    }
    lemma_mapped_canonical(k, t, 12);
}

pub(crate) proof fn lemma_canonical_fixed_beat()
    ensures
        canonical_tag_key("beat"@) == "beat"@,
        "beat"@.len() > 0,
        forall|i: int| 0 <= i < "beat"@.len() ==> is_key_char(#[trigger] "beat"@[i]),
{
    reveal_strlit("beat");
    reveal_strlit("characters");
    reveal_strlit("scene_id");
    reveal_strlit("location");
    reveal_strlit("motif_stage");
    let k = "beat"@;
    assert forall|i: int| 0 <= i < k.len() implies is_key_char(#[trigger] k[i]) by {
        if i == 0 {} else if i == 1 {} else if i == 2 {} else if i == 3 {}
    }
    lemma_key_chars_fixed(k);
    let t = tag_key_table();
    assert(t[2].canonical_key == k);
    assert forall|i: int| 0 <= i < t.len() implies (#[trigger] t[i]).alias_key != Some(k) by {
        if i < 34 {
            assert(t[i].alias_key is None) by { if i == 0 {} else if i == 1 {} else if i == 2 {} else if i == 3 {} else if i == 4 {} else if i == 5 {} else if i == 6 {} else if i == 7 {} else if i == 8 {} else if i == 9 {} else if i == 10 {} else if i == 11 {} else if i == 12 {} else if i == 13 {} else if i == 14 {} else if i == 15 {} else if i == 16 {} else if i == 17 {} else if i == 18 {} else if i == 19 {} else if i == 20 {} else if i == 21 {} else if i == 22 {} else if i == 23 {} else if i == 24 {} else if i == 25 {} else if i == 26 {} else if i == 27 {} else if i == 28 {} else if i == 29 {} else if i == 30 {} else if i == 31 {} else if i == 32 {} else if i == 33 {} }
        } else if i == 34 {
            assert(t[34].alias_key == Some("characters"@));
            assert("characters"@.len() != "beat"@.len());
        } else if i == 35 {
            assert(t[35].alias_key == Some("scene_id"@));
            assert("scene_id"@.len() != "beat"@.len());
        } else if i == 36 {
            assert(t[36].alias_key == Some("location"@));
            assert("location"@.len() != "beat"@.len());
        } else if i == 37 {
            assert(t[37].alias_key == Some("motif_stage"@));
            assert("motif_stage"@.len() != "beat"@.len());
        }
    }
    lemma_mapped_canonical(k, t, 2);
}

pub(crate) proof fn lemma_canonical_fixed_chapter()
    ensures
        canonical_tag_key("chapter"@) == "chapter"@,
        "chapter"@.len() > 0,
        forall|i: int| 0 <= i < "chapter"@.len() ==> is_key_char(#[trigger] "chapter"@[i]),
{
    reveal_strlit("chapter");
    reveal_strlit("characters");
    reveal_strlit("scene_id");
    reveal_strlit("location");
    reveal_strlit("motif_stage");
    let k = "chapter"@;
    assert forall|i: int| 0 <= i < k.len() implies is_key_char(#[trigger] k[i]) by {
        if i == 0 {} else if i == 1 {} else if i == 2 {} else if i == 3 {} else if i == 4 {} else if i == 5 {} else if i == 6 {}
    }
    lemma_key_chars_fixed(k);
    let t = tag_key_table();
    assert(t[4].canonical_key == k);
    assert forall|i: int| 0 <= i < t.len() implies (#[trigger] t[i]).alias_key != Some(k) by {
        if i < 34 {
            assert(t[i].alias_key is None) by { if i == 0 {} else if i == 1 {} else if i == 2 {} else if i == 3 {} else if i == 4 {} else if i == 5 {} else if i == 6 {} else if i == 7 {} else if i == 8 {} else if i == 9 {} else if i == 10 {} else if i == 11 {} else if i == 12 {} else if i == 13 {} else if i == 14 {} else if i == 15 {} else if i == 16 {} else if i == 17 {} else if i == 18 {} else if i == 19 {} else if i == 20 {} else if i == 21 {} else if i == 22 {} else if i == 23 {} else if i == 24 {} else if i == 25 {} else if i == 26 {} else if i == 27 {} else if i == 28 {} else if i == 29 {} else if i == 30 {} else if i == 31 {} else if i == 32 {} else if i == 33 {} }
        } else if i == 34 {
            assert(t[34].alias_key == Some("characters"@));
            assert("characters"@.len() != "chapter"@.len());
        } else if i == 35 {
            assert(t[35].alias_key == Some("scene_id"@));
            assert("scene_id"@.len() != "chapter"@.len());
        } else if i == 36 {
            assert(t[36].alias_key == Some("location"@));
            assert("location"@.len() != "chapter"@.len());
        } else if i == 37 {
            assert(t[37].alias_key == Some("motif_stage"@));
            assert("motif_stage"@.len() != "chapter"@.len());
        }
    }
    lemma_mapped_canonical(k, t, 4);
}

pub(crate) proof fn lemma_canonical_fixed_character()
    ensures
        canonical_tag_key("character"@) == "character"@,
        "character"@.len() > 0,
        forall|i: int| 0 <= i < "character"@.len() ==> is_key_char(#[trigger] "character"@[i]),
{
    reveal_strlit("character");
    reveal_strlit("characters");
    reveal_strlit("scene_id");
    reveal_strlit("location");
    reveal_strlit("motif_stage");
    let k = "character"@;
    assert forall|i: int| 0 <= i < k.len() implies is_key_char(#[trigger] k[i]) by {
        if i == 0 {} else if i == 1 {} else if i == 2 {} else if i == 3 {} else if i == 4 {} else if i == 5 {} else if i == 6 {} else if i == 7 {} else if i == 8 {}
    }
    lemma_key_chars_fixed(k);
    let t = tag_key_table();
    assert(t[0].canonical_key == k);
    assert forall|i: int| 0 <= i < t.len() implies (#[trigger] t[i]).alias_key != Some(k) by {
        if i < 34 {
            assert(t[i].alias_key is None) by { if i == 0 {} else if i == 1 {} else if i == 2 {} else if i == 3 {} else if i == 4 {} else if i == 5 {} else if i == 6 {} else if i == 7 {} else if i == 8 {} else if i == 9 {} else if i == 10 {} else if i == 11 {} else if i == 12 {} else if i == 13 {} else if i == 14 {} else if i == 15 {} else if i == 16 {} else if i == 17 {} else if i == 18 {} else if i == 19 {} else if i == 20 {} else if i == 21 {} else if i == 22 {} else if i == 23 {} else if i == 24 {} else if i == 25 {} else if i == 26 {} else if i == 27 {} else if i == 28 {} else if i == 29 {} else if i == 30 {} else if i == 31 {} else if i == 32 {} else if i == 33 {} }
        } else if i == 34 {
            assert(t[34].alias_key == Some("characters"@));
            assert("characters"@.len() != "character"@.len());
        } else if i == 35 {
            assert(t[35].alias_key == Some("scene_id"@));
            assert("scene_id"@.len() != "character"@.len());
        } else if i == 36 {
            assert(t[36].alias_key == Some("location"@));
            assert("location"@.len() != "character"@.len());
        } else if i == 37 {
            assert(t[37].alias_key == Some("motif_stage"@));
            assert("motif_stage"@.len() != "character"@.len());
        }
    }
    lemma_mapped_canonical(k, t, 0);
}

pub(crate) proof fn lemma_canonical_fixed_collision_pattern()
    ensures
        canonical_tag_key("collision_pattern"@) == "collision_pattern"@,
        "collision_pattern"@.len() > 0,
        forall|i: int| 0 <= i < "collision_pattern"@.len() ==> is_key_char(#[trigger] "collision_pattern"@[i]),
{
    reveal_strlit("collision_pattern");
    reveal_strlit("characters");
    reveal_strlit("scene_id");
    reveal_strlit("location");
    reveal_strlit("motif_stage");
    let k = "collision_pattern"@;
    assert forall|i: int| 0 <= i < k.len() implies is_key_char(#[trigger] k[i]) by {
        if i == 0 {} else if i == 1 {} else if i == 2 {} else if i == 3 {} else if i == 4 {} else if i == 5 {} else if i == 6 {} else if i == 7 {} else if i == 8 {} else if i == 9 {} else if i == 10 {} else if i == 11 {} else if i == 12 {} else if i == 13 {} else if i == 14 {} else if i == 15 {} else if i == 16 {}
    }
    lemma_key_chars_fixed(k);
    let t = tag_key_table();
    assert(t[18].canonical_key == k);
    assert forall|i: int| 0 <= i < t.len() implies (#[trigger] t[i]).alias_key != Some(k) by {
        if i < 34 {
            assert(t[i].alias_key is None) by { if i == 0 {} else if i == 1 {} else if i == 2 {} else if i == 3 {} else if i == 4 {} else if i == 5 {} else if i == 6 {} else if i == 7 {} else if i == 8 {} else if i == 9 {} else if i == 10 {} else if i == 11 {} else if i == 12 {} else if i == 13 {} else if i == 14 {} else if i == 15 {} else if i == 16 {} else if i == 17 {} else if i == 18 {} else if i == 19 {} else if i == 20 {} else if i == 21 {} else if i == 22 {} else if i == 23 {} else if i == 24 {} else if i == 25 {} else if i == 26 {} else if i == 27 {} else if i == 28 {} else if i == 29 {} else if i == 30 {} else if i == 31 {} else if i == 32 {} else if i == 33 {} }
        } else if i == 34 {
            assert(t[34].alias_key == Some("characters"@));
            assert("characters"@.len() != "collision_pattern"@.len());
        } else if i == 35 {
            assert(t[35].alias_key == Some("scene_id"@));
            assert("scene_id"@.len() != "collision_pattern"@.len());
        } else if i == 36 {
            assert(t[36].alias_key == Some("location"@));
            assert("location"@.len() != "collision_pattern"@.len());
        } else if i == 37 {
            assert(t[37].alias_key == Some("motif_stage"@));
            assert("motif_stage"@.len() != "collision_pattern"@.len());
        }
    }
    lemma_mapped_canonical(k, t, 18);
}

pub(crate) proof fn lemma_canonical_fixed_consciousness()
    ensures
        canonical_tag_key("consciousness"@) == "consciousness"@,
        "consciousness"@.len() > 0,
        forall|i: int| 0 <= i < "consciousness"@.len() ==> is_key_char(#[trigger] "consciousness"@[i]),
{
    reveal_strlit("consciousness");
    reveal_strlit("characters");
    reveal_strlit("scene_id");
    reveal_strlit("location");
    reveal_strlit("motif_stage");
    let k = "consciousness"@;
    assert forall|i: int| 0 <= i < k.len() implies is_key_char(#[trigger] k[i]) by {
        if i == 0 {} else if i == 1 {} else if i == 2 {} else if i == 3 {} else if i == 4 {} else if i == 5 {} else if i == 6 {} else if i == 7 {} else if i == 8 {} else if i == 9 {} else if i == 10 {} else if i == 11 {} else if i == 12 {}
    }
    lemma_key_chars_fixed(k);
    let t = tag_key_table();
    assert(t[27].canonical_key == k);
    assert forall|i: int| 0 <= i < t.len() implies (#[trigger] t[i]).alias_key != Some(k) by {
        if i < 34 {
            assert(t[i].alias_key is None) by { if i == 0 {} else if i == 1 {} else if i == 2 {} else if i == 3 {} else if i == 4 {} else if i == 5 {} else if i == 6 {} else if i == 7 {} else if i == 8 {} else if i == 9 {} else if i == 10 {} else if i == 11 {} else if i == 12 {} else if i == 13 {} else if i == 14 {} else if i == 15 {} else if i == 16 {} else if i == 17 {} else if i == 18 {} else if i == 19 {} else if i == 20 {} else if i == 21 {} else if i == 22 {} else if i == 23 {} else if i == 24 {} else if i == 25 {} else if i == 26 {} else if i == 27 {} else if i == 28 {} else if i == 29 {} else if i == 30 {} else if i == 31 {} else if i == 32 {} else if i == 33 {} }
        } else if i == 34 {
            assert(t[34].alias_key == Some("characters"@));
            assert("characters"@.len() != "consciousness"@.len());
        } else if i == 35 {
            assert(t[35].alias_key == Some("scene_id"@));
            assert("scene_id"@.len() != "consciousness"@.len());
        } else if i == 36 {
            assert(t[36].alias_key == Some("location"@));
            assert("location"@.len() != "consciousness"@.len());
        } else if i == 37 {
            assert(t[37].alias_key == Some("motif_stage"@));
            assert("motif_stage"@.len() != "consciousness"@.len());
        }
    }
    lemma_mapped_canonical(k, t, 27);
}

pub(crate) proof fn lemma_canonical_fixed_diegetic_level()
    ensures
        canonical_tag_key("diegetic_level"@) == "diegetic_level"@,
        "diegetic_level"@.len() > 0,
        forall|i: int| 0 <= i < "diegetic_level"@.len() ==> is_key_char(#[trigger] "diegetic_level"@[i]),
{
    reveal_strlit("diegetic_level");
    reveal_strlit("characters");
    reveal_strlit("scene_id");
    reveal_strlit("location");
    reveal_strlit("motif_stage");
    let k = "diegetic_level"@;
    assert forall|i: int| 0 <= i < k.len() implies is_key_char(#[trigger] k[i]) by {
        if i == 0 {} else if i == 1 {} else if i == 2 {} else if i == 3 {} else if i == 4 {} else if i == 5 {} else if i == 6 {} else if i == 7 {} else if i == 8 {} else if i == 9 {} else if i == 10 {} else if i == 11 {} else if i == 12 {} else if i == 13 {}
    }
    lemma_key_chars_fixed(k);
    let t = tag_key_table();
    assert(t[20].canonical_key == k);
    assert forall|i: int| 0 <= i < t.len() implies (#[trigger] t[i]).alias_key != Some(k) by {
        if i < 34 {
            assert(t[i].alias_key is None) by { if i == 0 {} else if i == 1 {} else if i == 2 {} else if i == 3 {} else if i == 4 {} else if i == 5 {} else if i == 6 {} else if i == 7 {} else if i == 8 {} else if i == 9 {} else if i == 10 {} else if i == 11 {} else if i == 12 {} else if i == 13 {} else if i == 14 {} else if i == 15 {} else if i == 16 {} else if i == 17 {} else if i == 18 {} else if i == 19 {} else if i == 20 {} else if i == 21 {} else if i == 22 {} else if i == 23 {} else if i == 24 {} else if i == 25 {} else if i == 26 {} else if i == 27 {} else if i == 28 {} else if i == 29 {} else if i == 30 {} else if i == 31 {} else if i == 32 {} else if i == 33 {} }
        } else if i == 34 {
            assert(t[34].alias_key == Some("characters"@));
            assert("characters"@.len() != "diegetic_level"@.len());
        } else if i == 35 {
            assert(t[35].alias_key == Some("scene_id"@));
            assert("scene_id"@.len() != "diegetic_level"@.len());
        } else if i == 36 {
            assert(t[36].alias_key == Some("location"@));
            assert("location"@.len() != "diegetic_level"@.len());
        } else if i == 37 {
            assert(t[37].alias_key == Some("motif_stage"@));
            assert("motif_stage"@.len() != "diegetic_level"@.len());
        }
    }
    lemma_mapped_canonical(k, t, 20);
}

pub(crate) proof fn lemma_canonical_fixed_drive_model()
    ensures
        canonical_tag_key("drive_model"@) == "drive_model"@,
        "drive_model"@.len() > 0,
        forall|i: int| 0 <= i < "drive_model"@.len() ==> is_key_char(#[trigger] "drive_model"@[i]),
{
    reveal_strlit("drive_model");
    reveal_strlit("characters");
    reveal_strlit("scene_id");
    reveal_strlit("location");
    reveal_strlit("motif_stage");
    let k = "drive_model"@;
    assert forall|i: int| 0 <= i < k.len() implies is_key_char(#[trigger] k[i]) by {
        if i == 0 {} else if i == 1 {} else if i == 2 {} else if i == 3 {} else if i == 4 {} else if i == 5 {} else if i == 6 {} else if i == 7 {} else if i == 8 {} else if i == 9 {} else if i == 10 {}
    }
    lemma_key_chars_fixed(k);
    let t = tag_key_table();
    assert(t[22].canonical_key == k);
    assert forall|i: int| 0 <= i < t.len() implies (#[trigger] t[i]).alias_key != Some(k) by {
        if i < 34 {
            assert(t[i].alias_key is None) by { if i == 0 {} else if i == 1 {} else if i == 2 {} else if i == 3 {} else if i == 4 {} else if i == 5 {} else if i == 6 {} else if i == 7 {} else if i == 8 {} else if i == 9 {} else if i == 10 {} else if i == 11 {} else if i == 12 {} else if i == 13 {} else if i == 14 {} else if i == 15 {} else if i == 16 {} else if i == 17 {} else if i == 18 {} else if i == 19 {} else if i == 20 {} else if i == 21 {} else if i == 22 {} else if i == 23 {} else if i == 24 {} else if i == 25 {} else if i == 26 {} else if i == 27 {} else if i == 28 {} else if i == 29 {} else if i == 30 {} else if i == 31 {} else if i == 32 {} else if i == 33 {} }
        } else if i == 34 {
            assert(t[34].alias_key == Some("characters"@));
            assert("characters"@.len() != "drive_model"@.len());
        } else if i == 35 {
            assert(t[35].alias_key == Some("scene_id"@));
            assert("scene_id"@.len() != "drive_model"@.len());
        } else if i == 36 {
            assert(t[36].alias_key == Some("location"@));
            assert("location"@.len() != "drive_model"@.len());
        } else if i == 37 {
            assert(t[37].alias_key == Some("motif_stage"@));
            assert("motif_stage"@[0] != "drive_model"@[0]);
        }
    }
    lemma_mapped_canonical(k, t, 22);
}

pub(crate) proof fn lemma_canonical_fixed_flag()
    ensures
        canonical_tag_key("flag"@) == "flag"@,
        "flag"@.len() > 0,
        forall|i: int| 0 <= i < "flag"@.len() ==> is_key_char(#[trigger] "flag"@[i]),
{
    reveal_strlit("flag");
    reveal_strlit("characters");
    reveal_strlit("scene_id");
    reveal_strlit("location");
    reveal_strlit("motif_stage");
    let k = "flag"@;
    assert forall|i: int| 0 <= i < k.len() implies is_key_char(#[trigger] k[i]) by {
        if i == 0 {} else if i == 1 {} else if i == 2 {} else if i == 3 {}
    }
    lemma_key_chars_fixed(k);
    let t = tag_key_table();
    assert(t[30].canonical_key == k);
    assert forall|i: int| 0 <= i < t.len() implies (#[trigger] t[i]).alias_key != Some(k) by {
        if i < 34 {
            assert(t[i].alias_key is None) by { if i == 0 {} else if i == 1 {} else if i == 2 {} else if i == 3 {} else if i == 4 {} else if i == 5 {} else if i == 6 {} else if i == 7 {} else if i == 8 {} else if i == 9 {} else if i == 10 {} else if i == 11 {} else if i == 12 {} else if i == 13 {} else if i == 14 {} else if i == 15 {} else if i == 16 {} else if i == 17 {} else if i == 18 {} else if i == 19 {} else if i == 20 {} else if i == 21 {} else if i == 22 {} else if i == 23 {} else if i == 24 {} else if i == 25 {} else if i == 26 {} else if i == 27 {} else if i == 28 {} else if i == 29 {} else if i == 30 {} else if i == 31 {} else if i == 32 {} else if i == 33 {} }
        } else if i == 34 {
            assert(t[34].alias_key == Some("characters"@));
            assert("characters"@.len() != "flag"@.len());
        } else if i == 35 {
            assert(t[35].alias_key == Some("scene_id"@));
            assert("scene_id"@.len() != "flag"@.len());
        } else if i == 36 {
            assert(t[36].alias_key == Some("location"@));
            assert("location"@.len() != "flag"@.len());
        } else if i == 37 {
            assert(t[37].alias_key == Some("motif_stage"@));
            assert("motif_stage"@.len() != "flag"@.len());
        }
    }
    lemma_mapped_canonical(k, t, 30);
}

pub(crate) proof fn lemma_canonical_fixed_gaze()
    ensures
        canonical_tag_key("gaze"@) == "gaze"@,
        "gaze"@.len() > 0,
        forall|i: int| 0 <= i < "gaze"@.len() ==> is_key_char(#[trigger] "gaze"@[i]),
{
    reveal_strlit("gaze");
    reveal_strlit("characters");
    reveal_strlit("scene_id");
    reveal_strlit("location");
    reveal_strlit("motif_stage");
    let k = "gaze"@;
    assert forall|i: int| 0 <= i < k.len() implies is_key_char(#[trigger] k[i]) by {
        if i == 0 {} else if i == 1 {} else if i == 2 {} else if i == 3 {}
    }
    lemma_key_chars_fixed(k);
    let t = tag_key_table();
    assert(t[24].canonical_key == k);
    assert forall|i: int| 0 <= i < t.len() implies (#[trigger] t[i]).alias_key != Some(k) by {
        if i < 34 {
            assert(t[i].alias_key is None) by { if i == 0 {} else if i == 1 {} else if i == 2 {} else if i == 3 {} else if i == 4 {} else if i == 5 {} else if i == 6 {} else if i == 7 {} else if i == 8 {} else if i == 9 {} else if i == 10 {} else if i == 11 {} else if i == 12 {} else if i == 13 {} else if i == 14 {} else if i == 15 {} else if i == 16 {} else if i == 17 {} else if i == 18 {} else if i == 19 {} else if i == 20 {} else if i == 21 {} else if i == 22 {} else if i == 23 {} else if i == 24 {} else if i == 25 {} else if i == 26 {} else if i == 27 {} else if i == 28 {} else if i == 29 {} else if i == 30 {} else if i == 31 {} else if i == 32 {} else if i == 33 {} }
        } else if i == 34 {
            assert(t[34].alias_key == Some("characters"@));
            assert("characters"@.len() != "gaze"@.len());
        } else if i == 35 {
            assert(t[35].alias_key == Some("scene_id"@));
            assert("scene_id"@.len() != "gaze"@.len());
        } else if i == 36 {
            assert(t[36].alias_key == Some("location"@));
            assert("location"@.len() != "gaze"@.len());
        } else if i == 37 {
            assert(t[37].alias_key == Some("motif_stage"@));
            assert("motif_stage"@.len() != "gaze"@.len());
        }
    }
    lemma_mapped_canonical(k, t, 24);
}

pub(crate) proof fn lemma_canonical_fixed_genre()
    ensures
        canonical_tag_key("genre"@) == "genre"@,
        "genre"@.len() > 0,
        forall|i: int| 0 <= i < "genre"@.len() ==> is_key_char(#[trigger] "genre"@[i]),
{
    reveal_strlit("genre");
    reveal_strlit("characters");
    reveal_strlit("scene_id");
    reveal_strlit("location");
    reveal_strlit("motif_stage");
    let k = "genre"@;
    assert forall|i: int| 0 <= i < k.len() implies is_key_char(#[trigger] k[i]) by {
        if i == 0 {} else if i == 1 {} else if i == 2 {} else if i == 3 {} else if i == 4 {}
    }
    lemma_key_chars_fixed(k);
    let t = tag_key_table();
    assert(t[11].canonical_key == k);
    assert forall|i: int| 0 <= i < t.len() implies (#[trigger] t[i]).alias_key != Some(k) by {
        if i < 34 {
            assert(t[i].alias_key is None) by { if i == 0 {} else if i == 1 {} else if i == 2 {} else if i == 3 {} else if i == 4 {} else if i == 5 {} else if i == 6 {} else if i == 7 {} else if i == 8 {} else if i == 9 {} else if i == 10 {} else if i == 11 {} else if i == 12 {} else if i == 13 {} else if i == 14 {} else if i == 15 {} else if i == 16 {} else if i == 17 {} else if i == 18 {} else if i == 19 {} else if i == 20 {} else if i == 21 {} else if i == 22 {} else if i == 23 {} else if i == 24 {} else if i == 25 {} else if i == 26 {} else if i == 27 {} else if i == 28 {} else if i == 29 {} else if i == 30 {} else if i == 31 {} else if i == 32 {} else if i == 33 {} }
        } else if i == 34 {
            assert(t[34].alias_key == Some("characters"@));
            assert("characters"@.len() != "genre"@.len());
        } else if i == 35 {
            assert(t[35].alias_key == Some("scene_id"@));
            assert("scene_id"@.len() != "genre"@.len());
        } else if i == 36 {
            assert(t[36].alias_key == Some("location"@));
            assert("location"@.len() != "genre"@.len());
        } else if i == 37 {
            assert(t[37].alias_key == Some("motif_stage"@));
            assert("motif_stage"@.len() != "genre"@.len());
        }
    }
    lemma_mapped_canonical(k, t, 11);
}

pub(crate) proof fn lemma_canonical_fixed_motif()
    ensures
        canonical_tag_key("motif"@) == "motif"@,
        "motif"@.len() > 0,
        forall|i: int| 0 <= i < "motif"@.len() ==> is_key_char(#[trigger] "motif"@[i]),
{
    reveal_strlit("motif");
    reveal_strlit("characters");
    reveal_strlit("scene_id");
    reveal_strlit("location");
    reveal_strlit("motif_stage");
    let k = "motif"@;
    assert forall|i: int| 0 <= i < k.len() implies is_key_char(#[trigger] k[i]) by {
        if i == 0 {} else if i == 1 {} else if i == 2 {} else if i == 3 {} else if i == 4 {}
    }
    lemma_key_chars_fixed(k);
    let t = tag_key_table();
    assert(t[8].canonical_key == k);
    assert forall|i: int| 0 <= i < t.len() implies (#[trigger] t[i]).alias_key != Some(k) by {
        if i < 34 {
            assert(t[i].alias_key is None) by { if i == 0 {} else if i == 1 {} else if i == 2 {} else if i == 3 {} else if i == 4 {} else if i == 5 {} else if i == 6 {} else if i == 7 {} else if i == 8 {} else if i == 9 {} else if i == 10 {} else if i == 11 {} else if i == 12 {} else if i == 13 {} else if i == 14 {} else if i == 15 {} else if i == 16 {} else if i == 17 {} else if i == 18 {} else if i == 19 {} else if i == 20 {} else if i == 21 {} else if i == 22 {} else if i == 23 {} else if i == 24 {} else if i == 25 {} else if i == 26 {} else if i == 27 {} else if i == 28 {} else if i == 29 {} else if i == 30 {} else if i == 31 {} else if i == 32 {} else if i == 33 {} }
        } else if i == 34 {
            assert(t[34].alias_key == Some("characters"@));
            assert("characters"@.len() != "motif"@.len());
        } else if i == 35 {
            assert(t[35].alias_key == Some("scene_id"@));
            assert("scene_id"@.len() != "motif"@.len());
        } else if i == 36 {
            assert(t[36].alias_key == Some("location"@));
            assert("location"@.len() != "motif"@.len());
        } else if i == 37 {
            assert(t[37].alias_key == Some("motif_stage"@));
            assert("motif_stage"@.len() != "motif"@.len());
        }
    }
    lemma_mapped_canonical(k, t, 8);
}

pub(crate) proof fn lemma_canonical_fixed_pact()
    ensures
        canonical_tag_key("pact"@) == "pact"@,
        "pact"@.len() > 0,
        forall|i: int| 0 <= i < "pact"@.len() ==> is_key_char(#[trigger] "pact"@[i]),
{
    reveal_strlit("pact");
    reveal_strlit("characters");
    reveal_strlit("scene_id");
    reveal_strlit("location");
    reveal_strlit("motif_stage");
    let k = "pact"@;
    assert forall|i: int| 0 <= i < k.len() implies is_key_char(#[trigger] k[i]) by {
        if i == 0 {} else if i == 1 {} else if i == 2 {} else if i == 3 {}
    }
    lemma_key_chars_fixed(k);
    let t = tag_key_table();
    assert(t[25].canonical_key == k);
    assert forall|i: int| 0 <= i < t.len() implies (#[trigger] t[i]).alias_key != Some(k) by {
        if i < 34 {
            assert(t[i].alias_key is None) by { if i == 0 {} else if i == 1 {} else if i == 2 {} else if i == 3 {} else if i == 4 {} else if i == 5 {} else if i == 6 {} else if i == 7 {} else if i == 8 {} else if i == 9 {} else if i == 10 {} else if i == 11 {} else if i == 12 {} else if i == 13 {} else if i == 14 {} else if i == 15 {} else if i == 16 {} else if i == 17 {} else if i == 18 {} else if i == 19 {} else if i == 20 {} else if i == 21 {} else if i == 22 {} else if i == 23 {} else if i == 24 {} else if i == 25 {} else if i == 26 {} else if i == 27 {} else if i == 28 {} else if i == 29 {} else if i == 30 {} else if i == 31 {} else if i == 32 {} else if i == 33 {} }
        } else if i == 34 {
            assert(t[34].alias_key == Some("characters"@));
            assert("characters"@.len() != "pact"@.len());
        } else if i == 35 {
            assert(t[35].alias_key == Some("scene_id"@));
            assert("scene_id"@.len() != "pact"@.len());
        } else if i == 36 {
            assert(t[36].alias_key == Some("location"@));
            assert("location"@.len() != "pact"@.len());
        } else if i == 37 {
            assert(t[37].alias_key == Some("motif_stage"@));
            assert("motif_stage"@.len() != "pact"@.len());
        }
    }
    lemma_mapped_canonical(k, t, 25);
}

pub(crate) proof fn lemma_canonical_fixed_paratext_zone()
    ensures
        canonical_tag_key("paratext_zone"@) == "paratext_zone"@,
        "paratext_zone"@.len() > 0,
        forall|i: int| 0 <= i < "paratext_zone"@.len() ==> is_key_char(#[trigger] "paratext_zone"@[i]),
{
    reveal_strlit("paratext_zone");
    reveal_strlit("characters");
    reveal_strlit("scene_id");
    reveal_strlit("location");
    reveal_strlit("motif_stage");
    let k = "paratext_zone"@;
    assert forall|i: int| 0 <= i < k.len() implies is_key_char(#[trigger] k[i]) by {
        if i == 0 {} else if i == 1 {} else if i == 2 {} else if i == 3 {} else if i == 4 {} else if i == 5 {} else if i == 6 {} else if i == 7 {} else if i == 8 {} else if i == 9 {} else if i == 10 {} else if i == 11 {} else if i == 12 {}
    }
    lemma_key_chars_fixed(k);
    let t = tag_key_table();
    assert(t[33].canonical_key == k);
    assert forall|i: int| 0 <= i < t.len() implies (#[trigger] t[i]).alias_key != Some(k) by {
        if i < 34 {
            assert(t[i].alias_key is None) by { if i == 0 {} else if i == 1 {} else if i == 2 {} else if i == 3 {} else if i == 4 {} else if i == 5 {} else if i == 6 {} else if i == 7 {} else if i == 8 {} else if i == 9 {} else if i == 10 {} else if i == 11 {} else if i == 12 {} else if i == 13 {} else if i == 14 {} else if i == 15 {} else if i == 16 {} else if i == 17 {} else if i == 18 {} else if i == 19 {} else if i == 20 {} else if i == 21 {} else if i == 22 {} else if i == 23 {} else if i == 24 {} else if i == 25 {} else if i == 26 {} else if i == 27 {} else if i == 28 {} else if i == 29 {} else if i == 30 {} else if i == 31 {} else if i == 32 {} else if i == 33 {} }
        } else if i == 34 {
            assert(t[34].alias_key == Some("characters"@));
            assert("characters"@.len() != "paratext_zone"@.len());
        } else if i == 35 {
            assert(t[35].alias_key == Some("scene_id"@));
            assert("scene_id"@.len() != "paratext_zone"@.len());
        } else if i == 36 {
            assert(t[36].alias_key == Some("location"@));
            assert("location"@.len() != "paratext_zone"@.len());
        } else if i == 37 {
            assert(t[37].alias_key == Some("motif_stage"@));
            assert("motif_stage"@.len() != "paratext_zone"@.len());
        }
    }
    lemma_mapped_canonical(k, t, 33);
}

pub(crate) proof fn lemma_canonical_fixed_plot_type()
    ensures
        canonical_tag_key("plot_type"@) == "plot_type"@,
        "plot_type"@.len() > 0,
        forall|i: int| 0 <= i < "plot_type"@.len() ==> is_key_char(#[trigger] "plot_type"@[i]),
{
    reveal_strlit("plot_type");
    reveal_strlit("characters");
    reveal_strlit("scene_id");
    reveal_strlit("location");
    reveal_strlit("motif_stage");
    let k = "plot_type"@;
    assert forall|i: int| 0 <= i < k.len() implies is_key_char(#[trigger] k[i]) by {
        if i == 0 {} else if i == 1 {} else if i == 2 {} else if i == 3 {} else if i == 4 {} else if i == 5 {} else if i == 6 {} else if i == 7 {} else if i == 8 {}
    }
    lemma_key_chars_fixed(k);
    let t = tag_key_table();
    assert(t[17].canonical_key == k);
    assert forall|i: int| 0 <= i < t.len() implies (#[trigger] t[i]).alias_key != Some(k) by {
        if i < 34 {
            assert(t[i].alias_key is None) by { if i == 0 {} else if i == 1 {} else if i == 2 {} else if i == 3 {} else if i == 4 {} else if i == 5 {} else if i == 6 {} else if i == 7 {} else if i == 8 {} else if i == 9 {} else if i == 10 {} else if i == 11 {} else if i == 12 {} else if i == 13 {} else if i == 14 {} else if i == 15 {} else if i == 16 {} else if i == 17 {} else if i == 18 {} else if i == 19 {} else if i == 20 {} else if i == 21 {} else if i == 22 {} else if i == 23 {} else if i == 24 {} else if i == 25 {} else if i == 26 {} else if i == 27 {} else if i == 28 {} else if i == 29 {} else if i == 30 {} else if i == 31 {} else if i == 32 {} else if i == 33 {} }
        } else if i == 34 {
            assert(t[34].alias_key == Some("characters"@));
            assert("characters"@.len() != "plot_type"@.len());
        } else if i == 35 {
            assert(t[35].alias_key == Some("scene_id"@));
            assert("scene_id"@.len() != "plot_type"@.len());
        } else if i == 36 {
            assert(t[36].alias_key == Some("location"@));
            assert("location"@.len() != "plot_type"@.len());
        } else if i == 37 {
            assert(t[37].alias_key == Some("motif_stage"@));
            assert("motif_stage"@.len() != "plot_type"@.len());
        }
    }
    lemma_mapped_canonical(k, t, 17);
}

pub(crate) proof fn lemma_canonical_fixed_promise()
    ensures
        canonical_tag_key("promise"@) == "promise"@,
        "promise"@.len() > 0,
        forall|i: int| 0 <= i < "promise"@.len() ==> is_key_char(#[trigger] "promise"@[i]),
{
    reveal_strlit("promise");
    reveal_strlit("characters");
    reveal_strlit("scene_id");
    reveal_strlit("location");
    reveal_strlit("motif_stage");
    let k = "promise"@;
    assert forall|i: int| 0 <= i < k.len() implies is_key_char(#[trigger] k[i]) by {
        if i == 0 {} else if i == 1 {} else if i == 2 {} else if i == 3 {} else if i == 4 {} else if i == 5 {} else if i == 6 {}
    }
    lemma_key_chars_fixed(k);
    let t = tag_key_table();
    assert(t[10].canonical_key == k);
    assert forall|i: int| 0 <= i < t.len() implies (#[trigger] t[i]).alias_key != Some(k) by {
        if i < 34 {
            assert(t[i].alias_key is None) by { if i == 0 {} else if i == 1 {} else if i == 2 {} else if i == 3 {} else if i == 4 {} else if i == 5 {} else if i == 6 {} else if i == 7 {} else if i == 8 {} else if i == 9 {} else if i == 10 {} else if i == 11 {} else if i == 12 {} else if i == 13 {} else if i == 14 {} else if i == 15 {} else if i == 16 {} else if i == 17 {} else if i == 18 {} else if i == 19 {} else if i == 20 {} else if i == 21 {} else if i == 22 {} else if i == 23 {} else if i == 24 {} else if i == 25 {} else if i == 26 {} else if i == 27 {} else if i == 28 {} else if i == 29 {} else if i == 30 {} else if i == 31 {} else if i == 32 {} else if i == 33 {} }
        } else if i == 34 {
            assert(t[34].alias_key == Some("characters"@));
            assert("characters"@.len() != "promise"@.len());
        } else if i == 35 {
            assert(t[35].alias_key == Some("scene_id"@));
            assert("scene_id"@.len() != "promise"@.len());
        } else if i == 36 {
            assert(t[36].alias_key == Some("location"@));
            assert("location"@.len() != "promise"@.len());
        } else if i == 37 {
            assert(t[37].alias_key == Some("motif_stage"@));
            assert("motif_stage"@.len() != "promise"@.len());
        }
    }
    lemma_mapped_canonical(k, t, 10);
}

pub(crate) proof fn lemma_canonical_fixed_psychic_distance()
    ensures
        canonical_tag_key("psychic_distance"@) == "psychic_distance"@,
        "psychic_distance"@.len() > 0,
        forall|i: int| 0 <= i < "psychic_distance"@.len() ==> is_key_char(#[trigger] "psychic_distance"@[i]),
{
    reveal_strlit("psychic_distance");
    reveal_strlit("characters");
    reveal_strlit("scene_id");
    reveal_strlit("location");
    reveal_strlit("motif_stage");
    let k = "psychic_distance"@;
    assert forall|i: int| 0 <= i < k.len() implies is_key_char(#[trigger] k[i]) by {
        if i == 0 {} else if i == 1 {} else if i == 2 {} else if i == 3 {} else if i == 4 {} else if i == 5 {} else if i == 6 {} else if i == 7 {} else if i == 8 {} else if i == 9 {} else if i == 10 {} else if i == 11 {} else if i == 12 {} else if i == 13 {} else if i == 14 {} else if i == 15 {}
    }
    lemma_key_chars_fixed(k);
    let t = tag_key_table();
    assert(t[26].canonical_key == k);
    assert forall|i: int| 0 <= i < t.len() implies (#[trigger] t[i]).alias_key != Some(k) by {
        if i < 34 {
            assert(t[i].alias_key is None) by { if i == 0 {} else if i == 1 {} else if i == 2 {} else if i == 3 {} else if i == 4 {} else if i == 5 {} else if i == 6 {} else if i == 7 {} else if i == 8 {} else if i == 9 {} else if i == 10 {} else if i == 11 {} else if i == 12 {} else if i == 13 {} else if i == 14 {} else if i == 15 {} else if i == 16 {} else if i == 17 {} else if i == 18 {} else if i == 19 {} else if i == 20 {} else if i == 21 {} else if i == 22 {} else if i == 23 {} else if i == 24 {} else if i == 25 {} else if i == 26 {} else if i == 27 {} else if i == 28 {} else if i == 29 {} else if i == 30 {} else if i == 31 {} else if i == 32 {} else if i == 33 {} }
        } else if i == 34 {
            assert(t[34].alias_key == Some("characters"@));
            assert("characters"@.len() != "psychic_distance"@.len());
        } else if i == 35 {
            assert(t[35].alias_key == Some("scene_id"@));
            assert("scene_id"@.len() != "psychic_distance"@.len());
        } else if i == 36 {
            assert(t[36].alias_key == Some("location"@));
            assert("location"@.len() != "psychic_distance"@.len());
        } else if i == 37 {
            assert(t[37].alias_key == Some("motif_stage"@));
            assert("motif_stage"@.len() != "psychic_distance"@.len());
        }
    }
    lemma_mapped_canonical(k, t, 26);
}

pub(crate) proof fn lemma_canonical_fixed_relationship()
    ensures
        canonical_tag_key("relationship"@) == "relationship"@,
        "relationship"@.len() > 0,
        forall|i: int| 0 <= i < "relationship"@.len() ==> is_key_char(#[trigger] "relationship"@[i]),
{
    reveal_strlit("relationship");
    reveal_strlit("characters");
    reveal_strlit("scene_id");
    reveal_strlit("location");
    reveal_strlit("motif_stage");
    let k = "relationship"@;
    assert forall|i: int| 0 <= i < k.len() implies is_key_char(#[trigger] k[i]) by {
        if i == 0 {} else if i == 1 {} else if i == 2 {} else if i == 3 {} else if i == 4 {} else if i == 5 {} else if i == 6 {} else if i == 7 {} else if i == 8 {} else if i == 9 {} else if i == 10 {} else if i == 11 {}
    }
    lemma_key_chars_fixed(k);
    let t = tag_key_table();
    assert(t[7].canonical_key == k);
    assert forall|i: int| 0 <= i < t.len() implies (#[trigger] t[i]).alias_key != Some(k) by {
        if i < 34 {
            assert(t[i].alias_key is None) by { if i == 0 {} else if i == 1 {} else if i == 2 {} else if i == 3 {} else if i == 4 {} else if i == 5 {} else if i == 6 {} else if i == 7 {} else if i == 8 {} else if i == 9 {} else if i == 10 {} else if i == 11 {} else if i == 12 {} else if i == 13 {} else if i == 14 {} else if i == 15 {} else if i == 16 {} else if i == 17 {} else if i == 18 {} else if i == 19 {} else if i == 20 {} else if i == 21 {} else if i == 22 {} else if i == 23 {} else if i == 24 {} else if i == 25 {} else if i == 26 {} else if i == 27 {} else if i == 28 {} else if i == 29 {} else if i == 30 {} else if i == 31 {} else if i == 32 {} else if i == 33 {} }
        } else if i == 34 {
            assert(t[34].alias_key == Some("characters"@));
            assert("characters"@.len() != "relationship"@.len());
        } else if i == 35 {
            assert(t[35].alias_key == Some("scene_id"@));
            assert("scene_id"@.len() != "relationship"@.len());
        } else if i == 36 {
            assert(t[36].alias_key == Some("location"@));
            assert("location"@.len() != "relationship"@.len());
        } else if i == 37 {
            assert(t[37].alias_key == Some("motif_stage"@));
            assert("motif_stage"@.len() != "relationship"@.len());
        }
    }
    lemma_mapped_canonical(k, t, 7);
}

pub(crate) proof fn lemma_canonical_fixed_role()
    ensures
        canonical_tag_key("role"@) == "role"@,
        "role"@.len() > 0,
        forall|i: int| 0 <= i < "role"@.len() ==> is_key_char(#[trigger] "role"@[i]),
{
    reveal_strlit("role");
    reveal_strlit("characters");
    reveal_strlit("scene_id");
    reveal_strlit("location");
    reveal_strlit("motif_stage");
    let k = "role"@;
    assert forall|i: int| 0 <= i < k.len() implies is_key_char(#[trigger] k[i]) by {
        if i == 0 {} else if i == 1 {} else if i == 2 {} else if i == 3 {}
    }
    lemma_key_chars_fixed(k);
    let t = tag_key_table();
    assert(t[13].canonical_key == k);
    assert forall|i: int| 0 <= i < t.len() implies (#[trigger] t[i]).alias_key != Some(k) by {
        if i < 34 {
            assert(t[i].alias_key is None) by { if i == 0 {} else if i == 1 {} else if i == 2 {} else if i == 3 {} else if i == 4 {} else if i == 5 {} else if i == 6 {} else if i == 7 {} else if i == 8 {} else if i == 9 {} else if i == 10 {} else if i == 11 {} else if i == 12 {} else if i == 13 {} else if i == 14 {} else if i == 15 {} else if i == 16 {} else if i == 17 {} else if i == 18 {} else if i == 19 {} else if i == 20 {} else if i == 21 {} else if i == 22 {} else if i == 23 {} else if i == 24 {} else if i == 25 {} else if i == 26 {} else if i == 27 {} else if i == 28 {} else if i == 29 {} else if i == 30 {} else if i == 31 {} else if i == 32 {} else if i == 33 {} }
        } else if i == 34 {
            assert(t[34].alias_key == Some("characters"@));
            assert("characters"@.len() != "role"@.len());
        } else if i == 35 {
            assert(t[35].alias_key == Some("scene_id"@));
            assert("scene_id"@.len() != "role"@.len());
        } else if i == 36 {
            assert(t[36].alias_key == Some("location"@));
            assert("location"@.len() != "role"@.len());
        } else if i == 37 {
            assert(t[37].alias_key == Some("motif_stage"@));
            assert("motif_stage"@.len() != "role"@.len());
        }
    }
    lemma_mapped_canonical(k, t, 13);
}

pub(crate) proof fn lemma_canonical_fixed_scene()
    ensures
        canonical_tag_key("scene"@) == "scene"@,
        "scene"@.len() > 0,
        forall|i: int| 0 <= i < "scene"@.len() ==> is_key_char(#[trigger] "scene"@[i]),
{
    reveal_strlit("scene");
    reveal_strlit("characters");
    reveal_strlit("scene_id");
    reveal_strlit("location");
    reveal_strlit("motif_stage");
    let k = "scene"@;
    assert forall|i: int| 0 <= i < k.len() implies is_key_char(#[trigger] k[i]) by {
        if i == 0 {} else if i == 1 {} else if i == 2 {} else if i == 3 {} else if i == 4 {}
    }
    lemma_key_chars_fixed(k);
    let t = tag_key_table();
    assert(t[3].canonical_key == k);
    assert forall|i: int| 0 <= i < t.len() implies (#[trigger] t[i]).alias_key != Some(k) by {
        if i < 34 {
            assert(t[i].alias_key is None) by { if i == 0 {} else if i == 1 {} else if i == 2 {} else if i == 3 {} else if i == 4 {} else if i == 5 {} else if i == 6 {} else if i == 7 {} else if i == 8 {} else if i == 9 {} else if i == 10 {} else if i == 11 {} else if i == 12 {} else if i == 13 {} else if i == 14 {} else if i == 15 {} else if i == 16 {} else if i == 17 {} else if i == 18 {} else if i == 19 {} else if i == 20 {} else if i == 21 {} else if i == 22 {} else if i == 23 {} else if i == 24 {} else if i == 25 {} else if i == 26 {} else if i == 27 {} else if i == 28 {} else if i == 29 {} else if i == 30 {} else if i == 31 {} else if i == 32 {} else if i == 33 {} }
        } else if i == 34 {
            assert(t[34].alias_key == Some("characters"@));
            assert("characters"@.len() != "scene"@.len());
        } else if i == 35 {
            assert(t[35].alias_key == Some("scene_id"@));
            assert("scene_id"@.len() != "scene"@.len());
        } else if i == 36 {
            assert(t[36].alias_key == Some("location"@));
            assert("location"@.len() != "scene"@.len());
        } else if i == 37 {
            assert(t[37].alias_key == Some("motif_stage"@));
            assert("motif_stage"@.len() != "scene"@.len());
        }
    }
    lemma_mapped_canonical(k, t, 3);
}

pub(crate) proof fn lemma_canonical_fixed_setting()
    ensures
        canonical_tag_key("setting"@) == "setting"@,
        "setting"@.len() > 0,
        forall|i: int| 0 <= i < "setting"@.len() ==> is_key_char(#[trigger] "setting"@[i]),
{
    reveal_strlit("setting");
    reveal_strlit("characters");
    reveal_strlit("scene_id");
    reveal_strlit("location");
    reveal_strlit("motif_stage");
    let k = "setting"@;
    assert forall|i: int| 0 <= i < k.len() implies is_key_char(#[trigger] k[i]) by {
        if i == 0 {} else if i == 1 {} else if i == 2 {} else if i == 3 {} else if i == 4 {} else if i == 5 {} else if i == 6 {}
    }
    lemma_key_chars_fixed(k);
    let t = tag_key_table();
    assert(t[1].canonical_key == k);
    assert forall|i: int| 0 <= i < t.len() implies (#[trigger] t[i]).alias_key != Some(k) by {
        if i < 34 {
            assert(t[i].alias_key is None) by { if i == 0 {} else if i == 1 {} else if i == 2 {} else if i == 3 {} else if i == 4 {} else if i == 5 {} else if i == 6 {} else if i == 7 {} else if i == 8 {} else if i == 9 {} else if i == 10 {} else if i == 11 {} else if i == 12 {} else if i == 13 {} else if i == 14 {} else if i == 15 {} else if i == 16 {} else if i == 17 {} else if i == 18 {} else if i == 19 {} else if i == 20 {} else if i == 21 {} else if i == 22 {} else if i == 23 {} else if i == 24 {} else if i == 25 {} else if i == 26 {} else if i == 27 {} else if i == 28 {} else if i == 29 {} else if i == 30 {} else if i == 31 {} else if i == 32 {} else if i == 33 {} }
        } else if i == 34 {
            assert(t[34].alias_key == Some("characters"@));
            assert("characters"@.len() != "setting"@.len());
        } else if i == 35 {
            assert(t[35].alias_key == Some("scene_id"@));
            assert("scene_id"@.len() != "setting"@.len());
        } else if i == 36 {
            assert(t[36].alias_key == Some("location"@));
            assert("location"@.len() != "setting"@.len());
        } else if i == 37 {
            assert(t[37].alias_key == Some("motif_stage"@));
            assert("motif_stage"@.len() != "setting"@.len());
        }
    }
    lemma_mapped_canonical(k, t, 1);
}

pub(crate) proof fn lemma_canonical_fixed_social_circle()
    ensures
        canonical_tag_key("social_circle"@) == "social_circle"@,
        "social_circle"@.len() > 0,
        forall|i: int| 0 <= i < "social_circle"@.len() ==> is_key_char(#[trigger] "social_circle"@[i]),
{
    reveal_strlit("social_circle");
    reveal_strlit("characters");
    reveal_strlit("scene_id");
    reveal_strlit("location");
    reveal_strlit("motif_stage");
    let k = "social_circle"@;
    assert forall|i: int| 0 <= i < k.len() implies is_key_char(#[trigger] k[i]) by {
        if i == 0 {} else if i == 1 {} else if i == 2 {} else if i == 3 {} else if i == 4 {} else if i == 5 {} else if i == 6 {} else if i == 7 {} else if i == 8 {} else if i == 9 {} else if i == 10 {} else if i == 11 {} else if i == 12 {}
    }
    lemma_key_chars_fixed(k);
    let t = tag_key_table();
    assert(t[16].canonical_key == k);
    assert forall|i: int| 0 <= i < t.len() implies (#[trigger] t[i]).alias_key != Some(k) by {
        if i < 34 {
            assert(t[i].alias_key is None) by { if i == 0 {} else if i == 1 {} else if i == 2 {} else if i == 3 {} else if i == 4 {} else if i == 5 {} else if i == 6 {} else if i == 7 {} else if i == 8 {} else if i == 9 {} else if i == 10 {} else if i == 11 {} else if i == 12 {} else if i == 13 {} else if i == 14 {} else if i == 15 {} else if i == 16 {} else if i == 17 {} else if i == 18 {} else if i == 19 {} else if i == 20 {} else if i == 21 {} else if i == 22 {} else if i == 23 {} else if i == 24 {} else if i == 25 {} else if i == 26 {} else if i == 27 {} else if i == 28 {} else if i == 29 {} else if i == 30 {} else if i == 31 {} else if i == 32 {} else if i == 33 {} }
        } else if i == 34 {
            assert(t[34].alias_key == Some("characters"@));
            assert("characters"@.len() != "social_circle"@.len());
        } else if i == 35 {
            assert(t[35].alias_key == Some("scene_id"@));
            assert("scene_id"@.len() != "social_circle"@.len());
        } else if i == 36 {
            assert(t[36].alias_key == Some("location"@));
            assert("location"@.len() != "social_circle"@.len());
        } else if i == 37 {
            assert(t[37].alias_key == Some("motif_stage"@));
            assert("motif_stage"@.len() != "social_circle"@.len());
        }
    }
    lemma_mapped_canonical(k, t, 16);
}

pub(crate) proof fn lemma_canonical_fixed_source()
    ensures
        canonical_tag_key("source"@) == "source"@,
        "source"@.len() > 0,
        forall|i: int| 0 <= i < "source"@.len() ==> is_key_char(#[trigger] "source"@[i]),
{
    reveal_strlit("source");
    reveal_strlit("characters");
    reveal_strlit("scene_id");
    reveal_strlit("location");
    reveal_strlit("motif_stage");
    let k = "source"@;
    assert forall|i: int| 0 <= i < k.len() implies is_key_char(#[trigger] k[i]) by {
        if i == 0 {} else if i == 1 {} else if i == 2 {} else if i == 3 {} else if i == 4 {} else if i == 5 {}
    }
    lemma_key_chars_fixed(k);
    let t = tag_key_table();
    assert(t[31].canonical_key == k);
    assert forall|i: int| 0 <= i < t.len() implies (#[trigger] t[i]).alias_key != Some(k) by {
        if i < 34 {
            assert(t[i].alias_key is None) by { if i == 0 {} else if i == 1 {} else if i == 2 {} else if i == 3 {} else if i == 4 {} else if i == 5 {} else if i == 6 {} else if i == 7 {} else if i == 8 {} else if i == 9 {} else if i == 10 {} else if i == 11 {} else if i == 12 {} else if i == 13 {} else if i == 14 {} else if i == 15 {} else if i == 16 {} else if i == 17 {} else if i == 18 {} else if i == 19 {} else if i == 20 {} else if i == 21 {} else if i == 22 {} else if i == 23 {} else if i == 24 {} else if i == 25 {} else if i == 26 {} else if i == 27 {} else if i == 28 {} else if i == 29 {} else if i == 30 {} else if i == 31 {} else if i == 32 {} else if i == 33 {} }
        } else if i == 34 {
            assert(t[34].alias_key == Some("characters"@));
            assert("characters"@.len() != "source"@.len());
        } else if i == 35 {
            assert(t[35].alias_key == Some("scene_id"@));
            assert("scene_id"@.len() != "source"@.len());
        } else if i == 36 {
            assert(t[36].alias_key == Some("location"@));
            assert("location"@.len() != "source"@.len());
        } else if i == 37 {
            assert(t[37].alias_key == Some("motif_stage"@));
            assert("motif_stage"@.len() != "source"@.len());
        }
    }
    lemma_mapped_canonical(k, t, 31);
}

pub(crate) proof fn lemma_canonical_fixed_source_text()
    ensures
        canonical_tag_key("source_text"@) == "source_text"@,
        "source_text"@.len() > 0,
        forall|i: int| 0 <= i < "source_text"@.len() ==> is_key_char(#[trigger] "source_text"@[i]),
{
    reveal_strlit("source_text");
    reveal_strlit("characters");
    reveal_strlit("scene_id");
    reveal_strlit("location");
    reveal_strlit("motif_stage");
    let k = "source_text"@;
    assert forall|i: int| 0 <= i < k.len() implies is_key_char(#[trigger] k[i]) by {
        if i == 0 {} else if i == 1 {} else if i == 2 {} else if i == 3 {} else if i == 4 {} else if i == 5 {} else if i == 6 {} else if i == 7 {} else if i == 8 {} else if i == 9 {} else if i == 10 {}
    }
    lemma_key_chars_fixed(k);
    let t = tag_key_table();
    assert(t[32].canonical_key == k);
    assert forall|i: int| 0 <= i < t.len() implies (#[trigger] t[i]).alias_key != Some(k) by {
        if i < 34 {
            assert(t[i].alias_key is None) by { if i == 0 {} else if i == 1 {} else if i == 2 {} else if i == 3 {} else if i == 4 {} else if i == 5 {} else if i == 6 {} else if i == 7 {} else if i == 8 {} else if i == 9 {} else if i == 10 {} else if i == 11 {} else if i == 12 {} else if i == 13 {} else if i == 14 {} else if i == 15 {} else if i == 16 {} else if i == 17 {} else if i == 18 {} else if i == 19 {} else if i == 20 {} else if i == 21 {} else if i == 22 {} else if i == 23 {} else if i == 24 {} else if i == 25 {} else if i == 26 {} else if i == 27 {} else if i == 28 {} else if i == 29 {} else if i == 30 {} else if i == 31 {} else if i == 32 {} else if i == 33 {} }
        } else if i == 34 {
            assert(t[34].alias_key == Some("characters"@));
            assert("characters"@.len() != "source_text"@.len());
        } else if i == 35 {
            assert(t[35].alias_key == Some("scene_id"@));
            assert("scene_id"@.len() != "source_text"@.len());
        } else if i == 36 {
            assert(t[36].alias_key == Some("location"@));
            assert("location"@.len() != "source_text"@.len());
        } else if i == 37 {
            assert(t[37].alias_key == Some("motif_stage"@));
            assert("motif_stage"@[0] != "source_text"@[0]);
        }
    }
    lemma_mapped_canonical(k, t, 32);
}

pub(crate) proof fn lemma_canonical_fixed_speech_act()
    ensures
        canonical_tag_key("speech_act"@) == "speech_act"@,
        "speech_act"@.len() > 0,
        forall|i: int| 0 <= i < "speech_act"@.len() ==> is_key_char(#[trigger] "speech_act"@[i]),
{
    reveal_strlit("speech_act");
    reveal_strlit("characters");
    reveal_strlit("scene_id");
    reveal_strlit("location");
    reveal_strlit("motif_stage");
    let k = "speech_act"@;
    assert forall|i: int| 0 <= i < k.len() implies is_key_char(#[trigger] k[i]) by {
        if i == 0 {} else if i == 1 {} else if i == 2 {} else if i == 3 {} else if i == 4 {} else if i == 5 {} else if i == 6 {} else if i == 7 {} else if i == 8 {} else if i == 9 {}
    }
    lemma_key_chars_fixed(k);
    let t = tag_key_table();
    assert(t[23].canonical_key == k);
    assert forall|i: int| 0 <= i < t.len() implies (#[trigger] t[i]).alias_key != Some(k) by {
        if i < 34 {
            assert(t[i].alias_key is None) by { if i == 0 {} else if i == 1 {} else if i == 2 {} else if i == 3 {} else if i == 4 {} else if i == 5 {} else if i == 6 {} else if i == 7 {} else if i == 8 {} else if i == 9 {} else if i == 10 {} else if i == 11 {} else if i == 12 {} else if i == 13 {} else if i == 14 {} else if i == 15 {} else if i == 16 {} else if i == 17 {} else if i == 18 {} else if i == 19 {} else if i == 20 {} else if i == 21 {} else if i == 22 {} else if i == 23 {} else if i == 24 {} else if i == 25 {} else if i == 26 {} else if i == 27 {} else if i == 28 {} else if i == 29 {} else if i == 30 {} else if i == 31 {} else if i == 32 {} else if i == 33 {} }
        } else if i == 34 {
            assert(t[34].alias_key == Some("characters"@));
            assert("characters"@[0] != "speech_act"@[0]);
        } else if i == 35 {
            assert(t[35].alias_key == Some("scene_id"@));
            assert("scene_id"@.len() != "speech_act"@.len());
        } else if i == 36 {
            assert(t[36].alias_key == Some("location"@));
            assert("location"@.len() != "speech_act"@.len());
        } else if i == 37 {
            assert(t[37].alias_key == Some("motif_stage"@));
            assert("motif_stage"@.len() != "speech_act"@.len());
        }
    }
    lemma_mapped_canonical(k, t, 23);
}

pub(crate) proof fn lemma_canonical_fixed_stage()
    ensures
        canonical_tag_key("stage"@) == "stage"@,
        "stage"@.len() > 0,
        forall|i: int| 0 <= i < "stage"@.len() ==> is_key_char(#[trigger] "stage"@[i]),
{
    reveal_strlit("stage");
    reveal_strlit("characters");
    reveal_strlit("scene_id");
    reveal_strlit("location");
    reveal_strlit("motif_stage");
    let k = "stage"@;
    assert forall|i: int| 0 <= i < k.len() implies is_key_char(#[trigger] k[i]) by {
        if i == 0 {} else if i == 1 {} else if i == 2 {} else if i == 3 {} else if i == 4 {}
    }
    lemma_key_chars_fixed(k);
    let t = tag_key_table();
    assert(t[9].canonical_key == k);
    assert forall|i: int| 0 <= i < t.len() implies (#[trigger] t[i]).alias_key != Some(k) by {
        if i < 34 {
            assert(t[i].alias_key is None) by { if i == 0 {} else if i == 1 {} else if i == 2 {} else if i == 3 {} else if i == 4 {} else if i == 5 {} else if i == 6 {} else if i == 7 {} else if i == 8 {} else if i == 9 {} else if i == 10 {} else if i == 11 {} else if i == 12 {} else if i == 13 {} else if i == 14 {} else if i == 15 {} else if i == 16 {} else if i == 17 {} else if i == 18 {} else if i == 19 {} else if i == 20 {} else if i == 21 {} else if i == 22 {} else if i == 23 {} else if i == 24 {} else if i == 25 {} else if i == 26 {} else if i == 27 {} else if i == 28 {} else if i == 29 {} else if i == 30 {} else if i == 31 {} else if i == 32 {} else if i == 33 {} }
        } else if i == 34 {
            assert(t[34].alias_key == Some("characters"@));
            assert("characters"@.len() != "stage"@.len());
        } else if i == 35 {
            assert(t[35].alias_key == Some("scene_id"@));
            assert("scene_id"@.len() != "stage"@.len());
        } else if i == 36 {
            assert(t[36].alias_key == Some("location"@));
            assert("location"@.len() != "stage"@.len());
        } else if i == 37 {
            assert(t[37].alias_key == Some("motif_stage"@));
            assert("motif_stage"@.len() != "stage"@.len());
        }
    }
    lemma_mapped_canonical(k, t, 9);
}

pub(crate) proof fn lemma_canonical_fixed_subplot()
    ensures
        canonical_tag_key("subplot"@) == "subplot"@,
        "subplot"@.len() > 0,
        forall|i: int| 0 <= i < "subplot"@.len() ==> is_key_char(#[trigger] "subplot"@[i]),
{
    reveal_strlit("subplot");
    reveal_strlit("characters");
    reveal_strlit("scene_id");
    reveal_strlit("location");
    reveal_strlit("motif_stage");
    let k = "subplot"@;
    assert forall|i: int| 0 <= i < k.len() implies is_key_char(#[trigger] k[i]) by {
        if i == 0 {} else if i == 1 {} else if i == 2 {} else if i == 3 {} else if i == 4 {} else if i == 5 {} else if i == 6 {}
    }
    lemma_key_chars_fixed(k);
    let t = tag_key_table();
    assert(t[6].canonical_key == k);
    assert forall|i: int| 0 <= i < t.len() implies (#[trigger] t[i]).alias_key != Some(k) by {
        if i < 34 {
            assert(t[i].alias_key is None) by { if i == 0 {} else if i == 1 {} else if i == 2 {} else if i == 3 {} else if i == 4 {} else if i == 5 {} else if i == 6 {} else if i == 7 {} else if i == 8 {} else if i == 9 {} else if i == 10 {} else if i == 11 {} else if i == 12 {} else if i == 13 {} else if i == 14 {} else if i == 15 {} else if i == 16 {} else if i == 17 {} else if i == 18 {} else if i == 19 {} else if i == 20 {} else if i == 21 {} else if i == 22 {} else if i == 23 {} else if i == 24 {} else if i == 25 {} else if i == 26 {} else if i == 27 {} else if i == 28 {} else if i == 29 {} else if i == 30 {} else if i == 31 {} else if i == 32 {} else if i == 33 {} }
        } else if i == 34 {
            assert(t[34].alias_key == Some("characters"@));
            assert("characters"@.len() != "subplot"@.len());
        } else if i == 35 {
            assert(t[35].alias_key == Some("scene_id"@));
            assert("scene_id"@.len() != "subplot"@.len());
        } else if i == 36 {
            assert(t[36].alias_key == Some("location"@));
            assert("location"@.len() != "subplot"@.len());
        } else if i == 37 {
            assert(t[37].alias_key == Some("motif_stage"@));
            assert("motif_stage"@.len() != "subplot"@.len());
        }
    }
    lemma_mapped_canonical(k, t, 6);
}

pub(crate) proof fn lemma_canonical_fixed_subtext()
    ensures
        canonical_tag_key("subtext"@) == "subtext"@,
        "subtext"@.len() > 0,
        forall|i: int| 0 <= i < "subtext"@.len() ==> is_key_char(#[trigger] "subtext"@[i]),
{
    reveal_strlit("subtext");
    reveal_strlit("characters");
    reveal_strlit("scene_id");
    reveal_strlit("location");
    reveal_strlit("motif_stage");
    let k = "subtext"@;
    assert forall|i: int| 0 <= i < k.len() implies is_key_char(#[trigger] k[i]) by {
        if i == 0 {} else if i == 1 {} else if i == 2 {} else if i == 3 {} else if i == 4 {} else if i == 5 {} else if i == 6 {}
    }
    lemma_key_chars_fixed(k);
    let t = tag_key_table();
    assert(t[28].canonical_key == k);
    assert forall|i: int| 0 <= i < t.len() implies (#[trigger] t[i]).alias_key != Some(k) by {
        if i < 34 {
            assert(t[i].alias_key is None) by { if i == 0 {} else if i == 1 {} else if i == 2 {} else if i == 3 {} else if i == 4 {} else if i == 5 {} else if i == 6 {} else if i == 7 {} else if i == 8 {} else if i == 9 {} else if i == 10 {} else if i == 11 {} else if i == 12 {} else if i == 13 {} else if i == 14 {} else if i == 15 {} else if i == 16 {} else if i == 17 {} else if i == 18 {} else if i == 19 {} else if i == 20 {} else if i == 21 {} else if i == 22 {} else if i == 23 {} else if i == 24 {} else if i == 25 {} else if i == 26 {} else if i == 27 {} else if i == 28 {} else if i == 29 {} else if i == 30 {} else if i == 31 {} else if i == 32 {} else if i == 33 {} }
        } else if i == 34 {
            assert(t[34].alias_key == Some("characters"@));
            assert("characters"@.len() != "subtext"@.len());
        } else if i == 35 {
            assert(t[35].alias_key == Some("scene_id"@));
            assert("scene_id"@.len() != "subtext"@.len());
        } else if i == 36 {
            assert(t[36].alias_key == Some("location"@));
            assert("location"@.len() != "subtext"@.len());
        } else if i == 37 {
            assert(t[37].alias_key == Some("motif_stage"@));
            assert("motif_stage"@.len() != "subtext"@.len());
        }
    }
    lemma_mapped_canonical(k, t, 28);
}

pub(crate) proof fn lemma_canonical_fixed_tension()
    ensures
        canonical_tag_key("tension"@) == "tension"@,
        "tension"@.len() > 0,
        forall|i: int| 0 <= i < "tension"@.len() ==> is_key_char(#[trigger] "tension"@[i]),
{
    reveal_strlit("tension");
    reveal_strlit("characters");
    reveal_strlit("scene_id");
    reveal_strlit("location");
    reveal_strlit("motif_stage");
    let k = "tension"@;
    assert forall|i: int| 0 <= i < k.len() implies is_key_char(#[trigger] k[i]) by {
        if i == 0 {} else if i == 1 {} else if i == 2 {} else if i == 3 {} else if i == 4 {} else if i == 5 {} else if i == 6 {}
    }
    lemma_key_chars_fixed(k);
    let t = tag_key_table();
    assert(t[29].canonical_key == k);
    assert forall|i: int| 0 <= i < t.len() implies (#[trigger] t[i]).alias_key != Some(k) by {
        if i < 34 {
            assert(t[i].alias_key is None) by { if i == 0 {} else if i == 1 {} else if i == 2 {} else if i == 3 {} else if i == 4 {} else if i == 5 {} else if i == 6 {} else if i == 7 {} else if i == 8 {} else if i == 9 {} else if i == 10 {} else if i == 11 {} else if i == 12 {} else if i == 13 {} else if i == 14 {} else if i == 15 {} else if i == 16 {} else if i == 17 {} else if i == 18 {} else if i == 19 {} else if i == 20 {} else if i == 21 {} else if i == 22 {} else if i == 23 {} else if i == 24 {} else if i == 25 {} else if i == 26 {} else if i == 27 {} else if i == 28 {} else if i == 29 {} else if i == 30 {} else if i == 31 {} else if i == 32 {} else if i == 33 {} }
        } else if i == 34 {
            assert(t[34].alias_key == Some("characters"@));
            assert("characters"@.len() != "tension"@.len());
        } else if i == 35 {
            assert(t[35].alias_key == Some("scene_id"@));
            assert("scene_id"@.len() != "tension"@.len());
        } else if i == 36 {
            assert(t[36].alias_key == Some("location"@));
            assert("location"@.len() != "tension"@.len());
        } else if i == 37 {
            assert(t[37].alias_key == Some("motif_stage"@));
            assert("motif_stage"@.len() != "tension"@.len());
        }
    }
    lemma_mapped_canonical(k, t, 29);
}

pub(crate) proof fn lemma_canonical_fixed_thread()
    ensures
        canonical_tag_key("thread"@) == "thread"@,
        "thread"@.len() > 0,
        forall|i: int| 0 <= i < "thread"@.len() ==> is_key_char(#[trigger] "thread"@[i]),
{
    reveal_strlit("thread");
    reveal_strlit("characters");
    reveal_strlit("scene_id");
    reveal_strlit("location");
    reveal_strlit("motif_stage");
    let k = "thread"@;
    assert forall|i: int| 0 <= i < k.len() implies is_key_char(#[trigger] k[i]) by {
        if i == 0 {} else if i == 1 {} else if i == 2 {} else if i == 3 {} else if i == 4 {} else if i == 5 {}
    }
    lemma_key_chars_fixed(k);
    let t = tag_key_table();
    assert(t[5].canonical_key == k);
    assert forall|i: int| 0 <= i < t.len() implies (#[trigger] t[i]).alias_key != Some(k) by {
        if i < 34 {
            assert(t[i].alias_key is None) by { if i == 0 {} else if i == 1 {} else if i == 2 {} else if i == 3 {} else if i == 4 {} else if i == 5 {} else if i == 6 {} else if i == 7 {} else if i == 8 {} else if i == 9 {} else if i == 10 {} else if i == 11 {} else if i == 12 {} else if i == 13 {} else if i == 14 {} else if i == 15 {} else if i == 16 {} else if i == 17 {} else if i == 18 {} else if i == 19 {} else if i == 20 {} else if i == 21 {} else if i == 22 {} else if i == 23 {} else if i == 24 {} else if i == 25 {} else if i == 26 {} else if i == 27 {} else if i == 28 {} else if i == 29 {} else if i == 30 {} else if i == 31 {} else if i == 32 {} else if i == 33 {} }
        } else if i == 34 {
            assert(t[34].alias_key == Some("characters"@));
            assert("characters"@.len() != "thread"@.len());
        } else if i == 35 {
            assert(t[35].alias_key == Some("scene_id"@));
            assert("scene_id"@.len() != "thread"@.len());
        } else if i == 36 {
            assert(t[36].alias_key == Some("location"@));
            assert("location"@.len() != "thread"@.len());
        } else if i == 37 {
            assert(t[37].alias_key == Some("motif_stage"@));
            assert("motif_stage"@.len() != "thread"@.len());
        }
    }
    lemma_mapped_canonical(k, t, 5);
}

pub(crate) proof fn lemma_canonical_fixed_trope()
    ensures
        canonical_tag_key("trope"@) == "trope"@,
        "trope"@.len() > 0,
        forall|i: int| 0 <= i < "trope"@.len() ==> is_key_char(#[trigger] "trope"@[i]),
{
    reveal_strlit("trope");
    reveal_strlit("characters");
    reveal_strlit("scene_id");
    reveal_strlit("location");
    reveal_strlit("motif_stage");
    let k = "trope"@;
    assert forall|i: int| 0 <= i < k.len() implies is_key_char(#[trigger] k[i]) by {
        if i == 0 {} else if i == 1 {} else if i == 2 {} else if i == 3 {} else if i == 4 {}
    }
    lemma_key_chars_fixed(k);
    let t = tag_key_table();
    assert(t[19].canonical_key == k);
    assert forall|i: int| 0 <= i < t.len() implies (#[trigger] t[i]).alias_key != Some(k) by {
        if i < 34 {
            assert(t[i].alias_key is None) by { if i == 0 {} else if i == 1 {} else if i == 2 {} else if i == 3 {} else if i == 4 {} else if i == 5 {} else if i == 6 {} else if i == 7 {} else if i == 8 {} else if i == 9 {} else if i == 10 {} else if i == 11 {} else if i == 12 {} else if i == 13 {} else if i == 14 {} else if i == 15 {} else if i == 16 {} else if i == 17 {} else if i == 18 {} else if i == 19 {} else if i == 20 {} else if i == 21 {} else if i == 22 {} else if i == 23 {} else if i == 24 {} else if i == 25 {} else if i == 26 {} else if i == 27 {} else if i == 28 {} else if i == 29 {} else if i == 30 {} else if i == 31 {} else if i == 32 {} else if i == 33 {} }
        } else if i == 34 {
            assert(t[34].alias_key == Some("characters"@));
            assert("characters"@.len() != "trope"@.len());
        } else if i == 35 {
            assert(t[35].alias_key == Some("scene_id"@));
            assert("scene_id"@.len() != "trope"@.len());
        } else if i == 36 {
            assert(t[36].alias_key == Some("location"@));
            assert("location"@.len() != "trope"@.len());
        } else if i == 37 {
            assert(t[37].alias_key == Some("motif_stage"@));
            assert("motif_stage"@.len() != "trope"@.len());
        }
    }
    lemma_mapped_canonical(k, t, 19);
}

pub(crate) proof fn lemma_canonical_fixed_wound()
    ensures
        canonical_tag_key("wound"@) == "wound"@,
        "wound"@.len() > 0,
        forall|i: int| 0 <= i < "wound"@.len() ==> is_key_char(#[trigger] "wound"@[i]),
{
    reveal_strlit("wound");
    reveal_strlit("characters");
    reveal_strlit("scene_id");
    reveal_strlit("location");
    reveal_strlit("motif_stage");
    let k = "wound"@;
    assert forall|i: int| 0 <= i < k.len() implies is_key_char(#[trigger] k[i]) by {
        if i == 0 {} else if i == 1 {} else if i == 2 {} else if i == 3 {} else if i == 4 {}
    }
    lemma_key_chars_fixed(k);
    let t = tag_key_table();
    assert(t[15].canonical_key == k);
    assert forall|i: int| 0 <= i < t.len() implies (#[trigger] t[i]).alias_key != Some(k) by {
        if i < 34 {
            assert(t[i].alias_key is None) by { if i == 0 {} else if i == 1 {} else if i == 2 {} else if i == 3 {} else if i == 4 {} else if i == 5 {} else if i == 6 {} else if i == 7 {} else if i == 8 {} else if i == 9 {} else if i == 10 {} else if i == 11 {} else if i == 12 {} else if i == 13 {} else if i == 14 {} else if i == 15 {} else if i == 16 {} else if i == 17 {} else if i == 18 {} else if i == 19 {} else if i == 20 {} else if i == 21 {} else if i == 22 {} else if i == 23 {} else if i == 24 {} else if i == 25 {} else if i == 26 {} else if i == 27 {} else if i == 28 {} else if i == 29 {} else if i == 30 {} else if i == 31 {} else if i == 32 {} else if i == 33 {} }
        } else if i == 34 {
            assert(t[34].alias_key == Some("characters"@));
            assert("characters"@.len() != "wound"@.len());
        } else if i == 35 {
            assert(t[35].alias_key == Some("scene_id"@));
            assert("scene_id"@.len() != "wound"@.len());
        } else if i == 36 {
            assert(t[36].alias_key == Some("location"@));
            assert("location"@.len() != "wound"@.len());
        } else if i == 37 {
            assert(t[37].alias_key == Some("motif_stage"@));
            assert("motif_stage"@.len() != "wound"@.len());
        }
    }
    lemma_mapped_canonical(k, t, 15);
}

proof fn lemma_table_keys_fixed(j: int)
    requires
        0 <= j < tag_key_table().len(),
    ensures
        canonical_tag_key(tag_key_table()[j].canonical_key) == tag_key_table()[j].canonical_key,
{
    let t = tag_key_table();

    if j == 0 {
        assert(t[0].canonical_key == "character"@);
        lemma_canonical_fixed_character();
    }
    if j == 1 {
        assert(t[1].canonical_key == "setting"@);
        lemma_canonical_fixed_setting();
    }
    if j == 2 {
        assert(t[2].canonical_key == "beat"@);
        lemma_canonical_fixed_beat();
    }
    if j == 3 {
        assert(t[3].canonical_key == "scene"@);
        lemma_canonical_fixed_scene();
    }
    if j == 4 {
        assert(t[4].canonical_key == "chapter"@);
        lemma_canonical_fixed_chapter();
    }
    if j == 5 {
        assert(t[5].canonical_key == "thread"@);
        lemma_canonical_fixed_thread();
    }
    if j == 6 {
        assert(t[6].canonical_key == "subplot"@);
        lemma_canonical_fixed_subplot();
    }
    if j == 7 {
        assert(t[7].canonical_key == "relationship"@);
        lemma_canonical_fixed_relationship();
    }
    if j == 8 {
        assert(t[8].canonical_key == "motif"@);
        lemma_canonical_fixed_motif();
    }
    if j == 9 {
        assert(t[9].canonical_key == "stage"@);
        lemma_canonical_fixed_stage();
    }
    if j == 10 {
        assert(t[10].canonical_key == "promise"@);
        lemma_canonical_fixed_promise();
    }
    if j == 11 {
        assert(t[11].canonical_key == "genre"@);
        lemma_canonical_fixed_genre();
    }
    if j == 12 {
        assert(t[12].canonical_key == "archetype"@);
        lemma_canonical_fixed_archetype();
    }
    if j == 13 {
        assert(t[13].canonical_key == "role"@);
        lemma_canonical_fixed_role();
    }
    if j == 14 {
        assert(t[14].canonical_key == "alignment"@);
        lemma_canonical_fixed_alignment();
    }
    if j == 15 {
        assert(t[15].canonical_key == "wound"@);
        lemma_canonical_fixed_wound();
    }
    if j == 16 {
        assert(t[16].canonical_key == "social_circle"@);
        lemma_canonical_fixed_social_circle();
    }
    if j == 17 {
        assert(t[17].canonical_key == "plot_type"@);
        lemma_canonical_fixed_plot_type();
    }
    if j == 18 {
        assert(t[18].canonical_key == "collision_pattern"@);
        lemma_canonical_fixed_collision_pattern();
    }
    if j == 19 {
        assert(t[19].canonical_key == "trope"@);
        lemma_canonical_fixed_trope();
    }
    if j == 20 {
        assert(t[20].canonical_key == "diegetic_level"@);
        lemma_canonical_fixed_diegetic_level();
    }
    if j == 21 {
        assert(t[21].canonical_key == "actant"@);
        lemma_canonical_fixed_actant();
    }
    if j == 22 {
        assert(t[22].canonical_key == "drive_model"@);
        lemma_canonical_fixed_drive_model();
    }
    if j == 23 {
        assert(t[23].canonical_key == "speech_act"@);
        lemma_canonical_fixed_speech_act();
    }
    if j == 24 {
        assert(t[24].canonical_key == "gaze"@);
        lemma_canonical_fixed_gaze();
    }
    if j == 25 {
        assert(t[25].canonical_key == "pact"@);
        lemma_canonical_fixed_pact();
    }
    if j == 26 {
        assert(t[26].canonical_key == "psychic_distance"@);
        lemma_canonical_fixed_psychic_distance();
    }
    if j == 27 {
        assert(t[27].canonical_key == "consciousness"@);
        lemma_canonical_fixed_consciousness();
    }
    if j == 28 {
        assert(t[28].canonical_key == "subtext"@);
        lemma_canonical_fixed_subtext();
    }
    if j == 29 {
        assert(t[29].canonical_key == "tension"@);
        lemma_canonical_fixed_tension();
    }
    if j == 30 {
        assert(t[30].canonical_key == "flag"@);
        lemma_canonical_fixed_flag();
    }
    if j == 31 {
        assert(t[31].canonical_key == "source"@);
        lemma_canonical_fixed_source();
    }
    if j == 32 {
        assert(t[32].canonical_key == "source_text"@);
        lemma_canonical_fixed_source_text();
    }
    if j == 33 {
        assert(t[33].canonical_key == "paratext_zone"@);
        lemma_canonical_fixed_paratext_zone();
    }
    if j == 34 {
        assert(t[34].canonical_key == "character"@);
        lemma_canonical_fixed_character();
    }
    if j == 35 {
        assert(t[35].canonical_key == "scene"@);
        lemma_canonical_fixed_scene();
    }
    if j == 36 {
        assert(t[36].canonical_key == "setting"@);
        lemma_canonical_fixed_setting();
    }
    if j == 37 {
        assert(t[37].canonical_key == "stage"@);
        lemma_canonical_fixed_stage();
    }
}

proof fn lemma_mapped_key_is_listed(key: Seq<char>, ms: Seq<TagKeyMappingView>)
    ensures
        mapped_key(key, ms) == key || exists|j: int|
            0 <= j < ms.len() && (#[trigger] ms[j]).canonical_key == mapped_key(key, ms),
    decreases ms.len(),
{
    if ms.len() > 0 {
        if !(ms[0].canonical_key == key || ms[0].alias_key == Some(key)) {
            lemma_mapped_key_is_listed(key, ms.drop_first());
            if mapped_key(key, ms) != key {
                let j = choose|j: int|
                    0 <= j < ms.drop_first().len() && (#[trigger] ms.drop_first()[j]).canonical_key
                        == mapped_key(key, ms.drop_first());
                assert(ms[j + 1] == ms.drop_first()[j]);
            }
        } else {
            assert(ms[0].canonical_key == mapped_key(key, ms));
        }
    }
}

proof fn lemma_trim_ends(s: Seq<char>)
    ensures
        trim_start(s).len() == 0 || !is_white_space(trim_start(s)[0]),
        trim_end(s).len() == 0 || !is_white_space(trim_end(s).last()),
        trim_end(s).len() == 0 || (s.len() > 0 && trim_end(s)[0] == s[0]),
        trim_end(s).len() <= s.len(),
        trim_end(s) == s.take(trim_end(s).len() as int),
    decreases s.len(),
{
    if s.len() > 0 && is_white_space(s[0]) {
        lemma_trim_ends(s.drop_first());
    }
    if s.len() > 0 && is_white_space(s.last()) {
        lemma_trim_ends(s.drop_last());
        if trim_end(s).len() > 0 {
            assert(trim_end(s)[0] == s.drop_last()[0]);
        }
        assert(s.drop_last().take(trim_end(s).len() as int) =~= s.take(trim_end(s).len() as int));
    } else {
        assert(s.take(s.len() as int) =~= s);
    }
}

proof fn lemma_trimmed_lower_fixed(raw: Seq<char>)
    requires
        all_ascii(raw),
    ensures
        trim(lowercase(trim(raw))) == lowercase(trim(raw)),
        lowercase(lowercase(trim(raw))) == lowercase(trim(raw)),
{
    let ts = trim_start(raw);
    let t = trim(raw);
    lemma_trim_ends(raw);
    lemma_trim_ends(ts);
    lemma_trim_start_suffix(raw);
    assert(all_ascii(t)) by {
        assert forall|i: int| 0 <= i < t.len() implies #[trigger] t[i] < '\u{80}' by {
            assert(t[i] == ts[i]);
            assert(ts[i] == raw[i + (raw.len() - ts.len())]);
        }
    }
    let k = t.map_values(|c: char| ascii_lower(c));
    assert(lowercase(t) == k);
    assert(all_ascii(k));
    assert(k.map_values(|c: char| ascii_lower(c)) =~= k);
    if k.len() > 0 {
        assert(!is_white_space(t[0]));
        assert(!is_white_space(t.last()));
        assert(k[0] == ascii_lower(t[0]));
        assert(k.last() == ascii_lower(t.last()));
        assert(trim_start(k) == k);
        assert(trim_end(k) == k);
    }
}

proof fn lemma_trim_start_suffix(s: Seq<char>)
    ensures
        trim_start(s) == s.skip(s.len() - trim_start(s).len()),
        trim_start(s).len() <= s.len(),
    decreases s.len(),
{
    if s.len() > 0 && is_white_space(s[0]) {
        lemma_trim_start_suffix(s.drop_first());
        assert(s.drop_first().skip(s.drop_first().len() - trim_start(s).len()) =~= s.skip(
            s.len() - trim_start(s).len(),
        ));
    } else {
        assert(s.skip(0) =~= s);
    }
}

/// Canonicalizing an ASCII tag key twice gives the key of canonicalizing it
/// once.
pub proof fn lemma_canonicalize_idempotent(raw: Seq<char>)
    requires
        all_ascii(raw),
    ensures
        canonical_tag_key(canonical_tag_key(raw)) == canonical_tag_key(raw),
{
    let k = lowercase(trim(raw));
    let t = tag_key_table();
    lemma_mapped_key_is_listed(k, t);
    if mapped_key(k, t) == k {
        lemma_trimmed_lower_fixed(raw);
    } else {
        let j = choose|j: int| 0 <= j < t.len() && (#[trigger] t[j]).canonical_key == mapped_key(k, t);
        lemma_table_keys_fixed(j);
    }
}

/// The documented key list is the canonical key list with `stage` removed:
/// for the lists that [`canonical_tag_keys`] and
/// [`canonical_documented_tag_keys`] return, `stage` stands in the first, and
/// taking it out leaves exactly the second, in the same order.
pub proof fn lemma_documented_list_is_canonical_list_without_stage(
    full: Seq<Seq<char>>,
    doc: Seq<Seq<char>>,
)
    requires
        strictly_sorted(full),
        forall|k: Seq<char>| full.contains(k) <==> is_listed_key(tag_key_table(), false, k),
        strictly_sorted(doc),
        forall|k: Seq<char>| doc.contains(k) <==> is_listed_key(tag_key_table(), true, k),
    ensures
        exists|i: int| 0 <= i < full.len() && full[i] == "stage"@ && doc == full.remove(i),
{
    assert(is_listed_key(tag_key_table(), false, "stage"@)) by {
        reveal_strlit("stage");
        assert(tag_key_table()[9].canonical_key == "stage"@);
        assert(tag_key_table()[9].alias_key is None);
    }
    assert(full.contains("stage"@));
    let i = choose|i: int| 0 <= i < full.len() && full[i] == "stage"@;
    let r = full.remove(i);
    assert forall|p: int, q: int| 0 <= p < q < r.len() implies lex_lt(#[trigger] r[p], #[trigger] r[q]) by {
        let pp = if p < i { p } else { p + 1 };
        let qq = if q < i { q } else { q + 1 };
        assert(r[p] == full[pp] && r[q] == full[qq]);
    }
    assert forall|x: Seq<char>| r.contains(x) <==> doc.contains(x) by {
        lemma_documented_keys_are_canonical_without_stage(x);
        if r.contains(x) {
            let p = choose|p: int| 0 <= p < r.len() && r[p] == x;
            let pp = if p < i { p } else { p + 1 };
            assert(full[pp] == x);
            if x == "stage"@ {
                if pp < i {
                    assert(lex_lt(full[pp], full[i]));
                } else {
                    assert(lex_lt(full[i], full[pp]));
                }
                lemma_lex_lt_irreflexive(x);
            }
            assert(full.contains(x));
        }
        if doc.contains(x) {
            assert(full.contains(x));
            let p = choose|p: int| 0 <= p < full.len() && full[p] == x;
            if p < i {
                assert(r[p] == x);
            } else {
                assert(p != i);
                assert(r[p - 1] == x);
            }
        }
    }
    lemma_sorted_same_members(r, doc);
}

} // verus!
