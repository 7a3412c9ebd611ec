//! Multi-artifact narrative corpus.
//!
//! A corpus holds the ordered scene artifacts of one work, the entities they
//! share, and the work's story architecture.  Artifacts and entities are held
//! by [`ArtifactRecord`] and [`EntityRecord`]: what this library reads of a
//! CAP artifact and a CAP entity, as plain values.

use vstd::prelude::*;

use crate::text::{owned, str_eq};

verus! {

// ── What the library reads of CAP values ──────────────────────────────────────

/// A declared entity: its id and type, its display name, and its descriptive
/// sections as JSON text.
#[derive(Debug, Clone, PartialEq, Eq)]
pub struct EntityRecord {
    pub entity_id: String,
    pub entity_type: String,
    pub display_name: String,
    pub observable_descriptors: Option<String>,
    pub structural_properties: Option<String>,
    pub interpretations: Option<String>,
}

/// A JSON value: its text, and its content when it is a string.
#[derive(Debug, Clone, PartialEq, Eq)]
pub struct StateValue {
    /// The value written as JSON.
    pub json: String,
    /// The string the value holds, when it is a JSON string.
    pub text: Option<String>,
}

/// A typed state of a participant.
#[derive(Debug, Clone, PartialEq, Eq)]
pub struct StateRecord {
    pub state_type: String,
    pub value: StateValue,
}

/// The state of one participant in a unit.
#[derive(Debug, Clone, PartialEq, Eq)]
pub struct ParticipantStateRecord {
    /// The participating entity's id.
    pub entity_ref: String,
    pub pre_state: Option<StateRecord>,
    pub post_state: Option<StateRecord>,
    /// The action of the participant's objective, if it has one.
    pub objective_action: Option<String>,
    /// Profile-defined interpretations, as JSON text.
    pub interpretations: Option<String>,
}

/// One step of a unit's structure.
#[derive(Debug, Clone, PartialEq, Eq)]
pub struct StepRecord {
    pub agent: String,
    /// Whether the step's significance is `essential`.
    pub essential: bool,
}

/// The structure layer of a unit.
#[derive(Debug, Clone, PartialEq, Eq)]
pub struct StructureRecord {
    pub steps: Vec<StepRecord>,
    /// The values before and after the unit's transition, when it records
    /// both.
    pub transition_values: Option<(StateValue, StateValue)>,
    pub semantic_fingerprint: Option<String>,
    /// The causal role, by its lower-case name.
    pub causal_role: Option<String>,
}

/// One unit (scene beat) of an artifact.
#[derive(Debug, Clone, PartialEq, Eq)]
pub struct UnitRecord {
    /// Ids of the entities that participate.
    pub participants: Vec<String>,
    /// The `focalizer` string of the unit's context, if it has one.
    pub focalizer: Option<String>,
    /// The `pov` string of the unit's context, if it has one.
    pub pov: Option<String>,
    /// The `setting` string of the unit's context, if it has one.
    pub setting: Option<String>,
    pub participant_states: Vec<ParticipantStateRecord>,
    pub structure: Option<StructureRecord>,
}

/// One artifact (scene) of the corpus.
#[derive(Debug, Clone, PartialEq, Eq)]
pub struct ArtifactRecord {
    pub artifact_id: String,
    pub entities: Vec<EntityRecord>,
    pub units: Vec<UnitRecord>,
}

// ── Story architecture ────────────────────────────────────────────────────────

/// A relationship between entities of different artifacts.
#[derive(Debug, Clone, PartialEq, Eq)]
pub struct CrossArtifactRelationship {
    pub from: String,
    pub to: String,
    pub relationship_type: String,
    pub description: Option<String>,
    /// Further properties, as JSON text.
    pub properties: Option<String>,
}

/// The incident that sets the story in motion.
#[derive(Debug, Clone, PartialEq, Eq, Default)]
pub struct IncitingIncident {
    pub chapter: Option<u32>,
    pub incident_type: Option<String>,
    pub description: Option<String>,
}

/// The protagonist's arc.
#[derive(Debug, Clone, PartialEq, Eq, Default)]
pub struct ProtagonistArc {
    pub arc_direction: Option<String>,
    pub drive_model: Option<String>,
    pub lie_believed: Option<String>,
    pub truth_needed: Option<String>,
    pub wound_slug: Option<String>,
    pub want_need_alignment: Option<String>,
}

/// The design of the antagonist.
#[derive(Debug, Clone, PartialEq, Eq, Default)]
pub struct AntagonistDesign {
    pub entity_slug: Option<String>,
    pub antagonist_type: Option<String>,
    pub arc_type: Option<String>,
    pub opposition_level: Option<String>,
    pub thematic_mirror: Option<bool>,
}

/// A theme and its controlling idea.
#[derive(Debug, Clone, PartialEq, Eq)]
pub struct ThemeClaim {
    pub theme: String,
    pub controlling_idea: Option<String>,
}

/// A beat and where it lands.
#[derive(Debug, Clone, PartialEq, Eq)]
pub struct BeatSequenceEntry {
    pub beat: String,
    pub chapter: Option<u32>,
    pub scene: Option<u32>,
    pub description: Option<String>,
}

/// A motif of the work.
#[derive(Debug, Clone, PartialEq, Eq)]
pub struct MotifEntry {
    pub motif: String,
    pub description: Option<String>,
}

/// Work-level story architecture.
#[derive(Debug, Clone, PartialEq, Eq, Default)]
pub struct StoryArchitecture {
    pub title: Option<String>,
    pub genre: Option<String>,
    pub genre_secondary: Option<String>,
    pub structure_type: Option<String>,
    pub act_count: Option<u32>,
    pub chapter_count: Option<u32>,
    pub collision_type: Option<String>,
    pub inciting_incident: Option<IncitingIncident>,
    pub protagonist_arc: Option<ProtagonistArc>,
    pub antagonist: Option<AntagonistDesign>,
    pub controlling_idea: Option<String>,
    pub genre_promise: Option<String>,
    pub power_asymmetry: Option<String>,
    pub themes: Vec<ThemeClaim>,
    pub beat_sequence: Vec<BeatSequenceEntry>,
    pub motifs: Vec<MotifEntry>,
    /// The actantial map, as JSON text.
    pub actantial_map: Option<String>,
}

// ── Narrative corpus ──────────────────────────────────────────────────────────

/// The artifacts of one work in reading order, the entities they share, and
/// the work's architecture.
#[derive(Debug, Clone, PartialEq, Eq)]
pub struct NarrativeCorpus {
    pub corpus_id: String,
    /// Entities shared across artifacts, at most one per id.
    pub shared_entities: Vec<EntityRecord>,
    /// Artifacts in reading order.
    pub artifacts: Vec<ArtifactRecord>,
    pub story_architecture: Option<StoryArchitecture>,
    pub cross_artifact_relationships: Vec<CrossArtifactRelationship>,
}

/// The ids of a list of entities, in order.
pub open spec fn entity_ids(v: Seq<EntityRecord>) -> Seq<Seq<char>> {
    v.map_values(|e: EntityRecord| e.entity_id@)
}

/// The index of the first entity of `v` with id `id`, if any.
pub open spec fn first_with_id(v: Seq<EntityRecord>, id: Seq<char>) -> Option<int>
    decreases v.len(),
{
    if v.len() == 0 {
        None
    } else if v[0].entity_id@ == id {
        Some(0)
    } else {
        match first_with_id(v.drop_first(), id) {
            Some(i) => Some(i + 1),
            None => None,
        }
    }
}

/// `first_with_id` answers with the first entity carrying the id.
pub proof fn lemma_first_with_id(v: Seq<EntityRecord>, id: Seq<char>)
    ensures
        match first_with_id(v, id) {
            Some(i) => 0 <= i < v.len() && v[i].entity_id@ == id && forall|j: int|
                0 <= j < i ==> #[trigger] v[j].entity_id@ != id,
            None => forall|j: int| 0 <= j < v.len() ==> #[trigger] v[j].entity_id@ != id,
        },
    decreases v.len(),
{
    if v.len() > 0 && v[0].entity_id@ != id {
        lemma_first_with_id(v.drop_first(), id);
        assert forall|j: int| 0 < j < v.len() implies v[j] == v.drop_first()[j - 1] by {}
    }
}

fn position_of(v: &Vec<EntityRecord>, id: &str) -> (r: Option<usize>)
    ensures
        match r {
            Some(i) => first_with_id(v@, id@) == Some(i as int) && i < v@.len(),
            None => first_with_id(v@, id@) is None,
        },
{
    proof {
        lemma_first_with_id(v@, id@);
    }
    let mut i: usize = 0;
    while i < v.len()
        invariant
            i <= v@.len(),
            forall|j: int| 0 <= j < i ==> #[trigger] v@[j].entity_id@ != id@,
            match first_with_id(v@, id@) {
                Some(k) => 0 <= k < v@.len() && v@[k].entity_id@ == id@ && forall|j: int|
                    0 <= j < k ==> #[trigger] v@[j].entity_id@ != id@,
                None => forall|j: int| 0 <= j < v@.len() ==> #[trigger] v@[j].entity_id@ != id@,
            },
        decreases v.len() - i,
    {
        if str_eq(v[i].entity_id.as_str(), id) {
            proof {
                match first_with_id(v@, id@) {
                    Some(k) => {
                        if k < i {
                            assert(v@[k].entity_id@ != id@);
                        } else if k > i {
                            assert(v@[i as int].entity_id@ != id@);
                        }
                    },
                    None => {
                        assert(v@[i as int].entity_id@ != id@);
                    },
                }
            }
            return Some(i);
        }
        i = i + 1;
    }
    None
}

/// The shared entities after declaring `e`: it replaces the entity with the
/// same id, or joins the end when there is none.
pub open spec fn declared(v: Seq<EntityRecord>, e: EntityRecord) -> Seq<EntityRecord> {
    match first_with_id(v, e.entity_id@) {
        Some(i) => v.update(i, e),
        None => v.push(e),
    }
}

/// The number of units of a list of artifacts.
pub open spec fn total_units(v: Seq<ArtifactRecord>) -> nat
    decreases v.len(),
{
    if v.len() == 0 {
        0
    } else {
        total_units(v.drop_last()) + v.last().units@.len()
    }
}

/// The entity ids of the artifacts, artifact by artifact, then those of the
/// shared entities.
pub open spec fn listed_entity_ids(artifacts: Seq<ArtifactRecord>, shared: Seq<EntityRecord>) -> Seq<
    Seq<char>,
>
    decreases artifacts.len(),
{
    if artifacts.len() == 0 {
        entity_ids(shared)
    } else {
        entity_ids(artifacts[0].entities@) + listed_entity_ids(artifacts.drop_first(), shared)
    }
}

/// `s` without repeats, keeping each element's first occurrence.
pub open spec fn first_occurrences(s: Seq<Seq<char>>) -> Seq<Seq<char>>
    decreases s.len(),
{
    if s.len() == 0 {
        Seq::empty()
    } else if first_occurrences(s.drop_last()).contains(s.last()) {
        first_occurrences(s.drop_last())
    } else {
        first_occurrences(s.drop_last()).push(s.last())
    }
}

impl NarrativeCorpus {
    /// An empty corpus.
    pub fn new(corpus_id: &str) -> (r: Self)
        ensures
            r.corpus_id@ == corpus_id@,
            r.shared_entities@.len() == 0,
            r.artifacts@.len() == 0,
            r.story_architecture is None,
            r.cross_artifact_relationships@.len() == 0,
    {
        NarrativeCorpus {
            corpus_id: owned(corpus_id),
            shared_entities: Vec::new(),
            artifacts: Vec::new(),
            story_architecture: None,
            cross_artifact_relationships: Vec::new(),
        }
    }

    /// Appends an artifact (reading order is insertion order).
    pub fn add_artifact(&mut self, artifact: ArtifactRecord)
        ensures
            final(self).artifacts@ == old(self).artifacts@.push(artifact),
            final(self).corpus_id == old(self).corpus_id,
            final(self).shared_entities@ == old(self).shared_entities@,
            final(self).story_architecture == old(self).story_architecture,
            final(self).cross_artifact_relationships@ == old(self).cross_artifact_relationships@,
    {
        self.artifacts.push(artifact);
    }

    /// Registers a shared entity, replacing any existing one with the same id.
    pub fn declare_shared_entity(&mut self, entity: EntityRecord)
        ensures
            final(self).shared_entities@ == declared(old(self).shared_entities@, entity),
            final(self).corpus_id == old(self).corpus_id,
            final(self).artifacts@ == old(self).artifacts@,
            final(self).story_architecture == old(self).story_architecture,
            final(self).cross_artifact_relationships@ == old(self).cross_artifact_relationships@,
    {
        match position_of(&self.shared_entities, entity.entity_id.as_str()) {
            Some(pos) => {
                self.shared_entities.set(pos, entity);
            },
            None => {
                self.shared_entities.push(entity);
            },
        }
    }

    /// The shared entity with this id.
    pub fn shared_entity(&self, entity_id: &str) -> (r: Option<&EntityRecord>)
        ensures
            match first_with_id(self.shared_entities@, entity_id@) {
                Some(i) => r == Some(&self.shared_entities@[i]),
                None => r is None,
            },
    {
        match position_of(&self.shared_entities, entity_id) {
            Some(i) => Some(&self.shared_entities[i]),
            None => None,
        }
    }

    /// The artifacts in corpus (reading) order.
    pub fn artifacts_in_order(&self) -> (r: &[ArtifactRecord])
        ensures
            r@ == self.artifacts@,
    {
        self.artifacts.as_slice()
    }

    /// The total number of units across all artifacts.
    pub fn unit_count(&self) -> (r: usize)
        requires
            total_units(self.artifacts@) <= usize::MAX,
        ensures
            r == total_units(self.artifacts@),
    {
        let mut total: usize = 0;
        let mut i: usize = 0;
        while i < self.artifacts.len()
            invariant
                i <= self.artifacts@.len(),
                total == total_units(self.artifacts@.take(i as int)),
                total_units(self.artifacts@) <= usize::MAX,
            decreases self.artifacts.len() - i,
        {
            assert(self.artifacts@.take(i + 1).drop_last() =~= self.artifacts@.take(i as int));
            proof {
                lemma_total_units_prefix(self.artifacts@, i + 1);
            }
            total = total + self.artifacts[i].units.len();
            i = i + 1;
        }
        assert(self.artifacts@.take(self.artifacts@.len() as int) =~= self.artifacts@);
        total
    }

    /// Every entity id of the corpus, without repeats: those declared by the
    /// artifacts in order, then the shared entities' ids.
    pub fn all_entity_ids(&self) -> (r: Vec<&str>)
        ensures
            r@.map_values(|s: &str| s@) == first_occurrences(
                listed_entity_ids(self.artifacts@, self.shared_entities@),
            ),
    {
        let ghost listed = listed_entity_ids(self.artifacts@, self.shared_entities@);
        let mut out: Vec<&str> = Vec::new();
        let ghost mut seen: Seq<Seq<char>> = Seq::empty();
        assert(self.artifacts@.skip(0) =~= self.artifacts@);
        assert(listed =~= seen + listed_entity_ids(self.artifacts@.skip(0), self.shared_entities@));
        assert(out@.map_values(|s: &str| s@) =~= first_occurrences(seen));
        let mut i: usize = 0;
        while i < self.artifacts.len()
            invariant
                i <= self.artifacts@.len(),
                listed == listed_entity_ids(self.artifacts@, self.shared_entities@),
                listed == seen + listed_entity_ids(self.artifacts@.skip(i as int), self.shared_entities@),
                out@.map_values(|s: &str| s@) == first_occurrences(seen),
            decreases self.artifacts.len() - i,
        {
            let ents = &self.artifacts[i].entities;
            assert(self.artifacts@.skip(i as int).drop_first() =~= self.artifacts@.skip(i + 1));
            let ghost before_seen = seen;
            push_new_ids(&mut out, ents, Ghost(seen));
            proof {
                seen = seen + entity_ids(ents@);
                assert(listed == seen + listed_entity_ids(
                    self.artifacts@.skip(i + 1),
                    self.shared_entities@,
                ));
            }
            i = i + 1;
        }
        assert(self.artifacts@.skip(self.artifacts@.len() as int) =~= Seq::<ArtifactRecord>::empty());
        push_new_ids(&mut out, &self.shared_entities, Ghost(seen));
        proof {
            seen = seen + entity_ids(self.shared_entities@);
            assert(listed =~= seen);
        }
        out
    }
}

proof fn lemma_total_units_prefix(v: Seq<ArtifactRecord>, k: int)
    requires
        0 <= k <= v.len(),
    ensures
        total_units(v.take(k)) <= total_units(v),
    decreases v.len() - k,
{
    if k < v.len() {
        lemma_total_units_prefix(v, k + 1);
        assert(v.take(k + 1).drop_last() =~= v.take(k));
    } else {
        assert(v.take(k) =~= v);
    }
}

proof fn lemma_first_occurrences_push(s: Seq<Seq<char>>, x: Seq<char>)
    ensures
        first_occurrences(s.push(x)) == if first_occurrences(s).contains(x) {
            first_occurrences(s)
        } else {
            first_occurrences(s).push(x)
        },
{
    assert(s.push(x).drop_last() =~= s);
}

/// Appends the ids of `ents` not listed yet.
fn push_new_ids<'a>(out: &mut Vec<&'a str>, ents: &'a Vec<EntityRecord>, Ghost(seen): Ghost<Seq<Seq<char>>>)
    requires
        old(out)@.map_values(|s: &str| s@) == first_occurrences(seen),
    ensures
        final(out)@.map_values(|s: &str| s@) == first_occurrences(seen + entity_ids(ents@)),
{
    let mut j: usize = 0;
    let ghost mut cur = seen;
    assert(seen + entity_ids(ents@).take(0) =~= seen);
    while j < ents.len()
        invariant
            j <= ents@.len(),
            cur == seen + entity_ids(ents@).take(j as int),
            out@.map_values(|s: &str| s@) == first_occurrences(cur),
        decreases ents.len() - j,
    {
        let id = ents[j].entity_id.as_str();
        let mut known = false;
        let mut k: usize = 0;
        while k < out.len()
            invariant
                k <= out@.len(),
                known == exists|m: int| 0 <= m < k && out@[m]@ == id@,
            decreases out.len() - k,
        {
            if str_eq(out[k], id) {
                known = true;
            }
            k = k + 1;
        }
        let ghost listed = out@.map_values(|s: &str| s@);
        proof {
            lemma_first_occurrences_push(cur, id@);
            if known {
                let m = choose|m: int| 0 <= m < out@.len() && out@[m]@ == id@;
                assert(listed[m] == id@);
            } else {
                assert forall|m: int| 0 <= m < listed.len() implies listed[m] != id@ by {
                    assert(listed[m] == out@[m]@);
                }
            }
        }
        if !known {
            let ghost prev = out@;
            out.push(id);
            assert(out@.map_values(|s: &str| s@) =~= prev.map_values(|s: &str| s@).push(id@));
        }
        proof {
            assert(entity_ids(ents@).take(j + 1) =~= entity_ids(ents@).take(j as int).push(id@));
            assert(cur.push(id@) =~= seen + entity_ids(ents@).take(j + 1));
            cur = cur.push(id@);
        }
        j = j + 1;
    }
    assert(entity_ids(ents@).take(ents@.len() as int) =~= entity_ids(ents@));
}

// ── Shared-entity laws ────────────────────────────────────────────────────────

/// No two entities share an id.
pub open spec fn ids_distinct(v: Seq<EntityRecord>) -> bool {
    forall|i: int, j: int|
        0 <= i < j < v.len() ==> #[trigger] v[i].entity_id@ != #[trigger] v[j].entity_id@
}

/// Declaring a shared entity keeps the ids distinct, adds at most one entity
/// (none when the id was declared already), and leaves the declared entity as
/// the one found under its id.
pub proof fn lemma_declare_shared_entity(v: Seq<EntityRecord>, e: EntityRecord)
    requires
        ids_distinct(v),
    ensures
        ids_distinct(declared(v, e)),
        first_with_id(declared(v, e), e.entity_id@) matches Some(i) && declared(v, e)[i] == e,
        declared(v, e).len() == if first_with_id(v, e.entity_id@) is Some {
            v.len()
        } else {
            v.len() + 1
        },
{
    lemma_first_with_id(v, e.entity_id@);
    let w = declared(v, e);
    match first_with_id(v, e.entity_id@) {
        Some(k) => {
            assert forall|i: int, j: int| 0 <= i < j < w.len() implies #[trigger] w[i].entity_id@
                != #[trigger] w[j].entity_id@ by {
                if i == k {
                    assert(v[j].entity_id@ != v[k].entity_id@);
                } else if j == k {
                    assert(v[i].entity_id@ != v[k].entity_id@);
                }
            }
            lemma_first_with_id(w, e.entity_id@);
            match first_with_id(w, e.entity_id@) {
                Some(m) => {
                    if m < k {
                        assert(v[m].entity_id@ != v[k].entity_id@);
                    } else if m > k {
                        assert(w[k].entity_id@ == e.entity_id@);
                    }
                },
                None => {
                    assert(w[k].entity_id@ == e.entity_id@);
                },
            }
        },
        None => {
            assert forall|i: int, j: int| 0 <= i < j < w.len() implies #[trigger] w[i].entity_id@
                != #[trigger] w[j].entity_id@ by {
                if j == v.len() {
                    assert(v[i].entity_id@ != e.entity_id@);
                }
            }
            lemma_first_with_id(w, e.entity_id@);
            match first_with_id(w, e.entity_id@) {
                Some(m) => {
                    if m < v.len() {
                        assert(w[m] == v[m]);
                    }
                },
                None => {
                    assert(w[v.len() as int].entity_id@ == e.entity_id@);
                },
            }
        },
    }
}

/// Removing repeats keeps exactly the ids of the list, each once: the result
/// holds an id iff the list does, and no id twice.
pub proof fn lemma_first_occurrences(s: Seq<Seq<char>>)
    ensures
        forall|x: Seq<char>| first_occurrences(s).contains(x) <==> s.contains(x),
        forall|i: int, j: int|
            0 <= i < j < first_occurrences(s).len() ==> #[trigger] first_occurrences(s)[i]
                != #[trigger] first_occurrences(s)[j],
    decreases s.len(),
{
    if s.len() > 0 {
        let d = s.drop_last();
        lemma_first_occurrences(d);
        let f = first_occurrences(d);
        assert forall|x: Seq<char>| first_occurrences(s).contains(x) <==> s.contains(x) by {
            if s.contains(x) {
                let k = choose|k: int| 0 <= k < s.len() && s[k] == x;
                if k < s.len() - 1 {
                    assert(d[k] == x);
                    assert(d.contains(x));
                    if !f.contains(s.last()) {
                        let m = choose|m: int| 0 <= m < f.len() && f[m] == x;
                        assert(f.push(s.last())[m] == x);
                    }
                } else if !f.contains(s.last()) {
                    assert(f.push(s.last())[f.len() as int] == x);
                }
            }
            if first_occurrences(s).contains(x) {
                if f.contains(x) {
                    assert(d.contains(x));
                    let k = choose|k: int| 0 <= k < d.len() && d[k] == x;
                    assert(s[k] == x);
                } else {
                    let m = choose|m: int| 0 <= m < f.push(s.last()).len() && f.push(s.last())[m] == x;
                    if m < f.len() {
                        assert(f[m] == x);
                    }
                    assert(s[s.len() - 1] == x);
                }
            }
        }
        if !f.contains(s.last()) {
            assert forall|i: int, j: int|
                0 <= i < j < f.push(s.last()).len() implies #[trigger] f.push(s.last())[i]
                    != #[trigger] f.push(s.last())[j] by {
                if j == f.len() {
                    assert(f[i] == f.push(s.last())[i]);
                } else {
                    assert(f[i] == f.push(s.last())[i] && f[j] == f.push(s.last())[j]);
                }
            }
        }
    }
}

} // verus!
