//! Pre-computed views over a [`NarrativeCorpus`].
//!
//! Views are derived, read-only projections that aggregate cross-artifact
//! data: an entity's trajectory across scenes and the story's causal chain.

use vstd::prelude::*;

use crate::corpus::{ArtifactRecord, NarrativeCorpus, ParticipantStateRecord, UnitRecord};
use crate::tags::opt_text_view;
use crate::text::{owned, str_eq};
use crate::validate_narrative::states_of;

verus! {

// ── Entity trajectory ─────────────────────────────────────────────────────────

/// A single data point in an entity's arc across scenes.
#[derive(Debug, Clone, PartialEq, Eq)]
pub struct EntityTrajectoryPoint {
    /// Artifact (scene) this point belongs to.
    pub artifact_id: String,
    /// Index of the artifact in the corpus (0-based).
    pub corpus_index: usize,
    /// Emotional state at entry to the scene, if recorded.
    pub emotional_state: Option<String>,
    /// Objective action in the scene, if recorded.
    pub objective: Option<String>,
    /// Whether the entity is the focalizer of the scene.
    pub is_focalizer: bool,
    /// Participant interpretations, as JSON text.
    pub interpretations: Option<String>,
}

/// The arc of one entity across all corpus scenes.
#[derive(Debug, Clone, PartialEq, Eq)]
pub struct EntityTrajectoryView {
    /// Profile type identifier: `entity_trajectory`.
    pub view_type: String,
    /// The entity this trajectory tracks.
    pub entity_id: String,
    /// One point per artifact where the entity participates.
    pub points: Vec<EntityTrajectoryPoint>,
}

/// The content of an [`EntityTrajectoryPoint`].
pub struct TrajectoryPointView {
    pub artifact_id: Seq<char>,
    pub corpus_index: nat,
    pub emotional_state: Option<Seq<char>>,
    pub objective: Option<Seq<char>>,
    pub is_focalizer: bool,
    pub interpretations: Option<Seq<char>>,
}

impl View for EntityTrajectoryPoint {
    type V = TrajectoryPointView;

    open spec fn view(&self) -> TrajectoryPointView {
        TrajectoryPointView {
            artifact_id: self.artifact_id@,
            corpus_index: self.corpus_index as nat,
            emotional_state: opt_text_view(self.emotional_state),
            objective: opt_text_view(self.objective),
            is_focalizer: self.is_focalizer,
            interpretations: opt_text_view(self.interpretations),
        }
    }
}

/// The contents of a list of trajectory points.
pub open spec fn points_view(v: Seq<EntityTrajectoryPoint>) -> Seq<TrajectoryPointView> {
    v.map_values(|p: EntityTrajectoryPoint| p@)
}

/// Some unit of the artifact lists the entity among its participants.
pub open spec fn participates(a: ArtifactRecord, entity: Seq<char>) -> bool {
    exists|u: int, k: int|
        0 <= u < a.units@.len() && 0 <= k < a.units@[u].participants@.len()
            && #[trigger] a.units@[u].participants@[k]@ == entity
}

/// Some unit of the artifact has the entity as its focalizer.
pub open spec fn focalizes(a: ArtifactRecord, entity: Seq<char>) -> bool {
    exists|u: int|
        0 <= u < a.units@.len() && #[trigger] opt_text_view(a.units@[u].focalizer) == Some(entity)
}

/// The emotional state a participant state opens with, if its pre-state is
/// an emotional state holding a string.
pub open spec fn emotional_of(ps: ParticipantStateRecord) -> Option<Seq<char>> {
    match ps.pre_state {
        Some(st) => if st.state_type@ == "emotional"@ {
            opt_text_view(st.value.text)
        } else {
            None
        },
        None => None,
    }
}

/// The objective action of a participant state.
pub open spec fn objective_of(ps: ParticipantStateRecord) -> Option<Seq<char>> {
    opt_text_view(ps.objective_action)
}

/// The interpretations of a participant state.
pub open spec fn interpretations_of(ps: ParticipantStateRecord) -> Option<Seq<char>> {
    opt_text_view(ps.interpretations)
}

/// The first value `f` gives among the states of `entity`, in order.
pub open spec fn first_recorded(
    states: Seq<ParticipantStateRecord>,
    entity: Seq<char>,
    f: spec_fn(ParticipantStateRecord) -> Option<Seq<char>>,
) -> Option<Seq<char>>
    decreases states.len(),
{
    if states.len() == 0 {
        None
    } else if states[0].entity_ref@ == entity && f(states[0]) is Some {
        f(states[0])
    } else {
        first_recorded(states.drop_first(), entity, f)
    }
}

/// The trajectory point of an artifact at index `i`.
pub open spec fn trajectory_point(i: nat, a: ArtifactRecord, entity: Seq<char>) -> TrajectoryPointView {
    let states = states_of(a.units@);
    TrajectoryPointView {
        artifact_id: a.artifact_id@,
        corpus_index: i,
        emotional_state: first_recorded(states, entity, |ps: ParticipantStateRecord| emotional_of(ps)),
        objective: first_recorded(states, entity, |ps: ParticipantStateRecord| objective_of(ps)),
        is_focalizer: focalizes(a, entity),
        interpretations: first_recorded(
            states,
            entity,
            |ps: ParticipantStateRecord| interpretations_of(ps),
        ),
    }
}

/// The trajectory points of the first `n` artifacts: one for each artifact
/// the entity participates in, in corpus order.
pub open spec fn trajectory_points(arts: Seq<ArtifactRecord>, entity: Seq<char>, n: int) -> Seq<
    TrajectoryPointView,
>
    decreases n,
{
    if n <= 0 {
        Seq::empty()
    } else {
        trajectory_points(arts, entity, n - 1) + if participates(arts[n - 1], entity) {
            seq![trajectory_point((n - 1) as nat, arts[n - 1], entity)]
        } else {
            Seq::empty()
        }
    }
}

fn participates_in(a: &ArtifactRecord, entity: &str) -> (r: bool)
    ensures
        r == participates(*a, entity@),
{
    let mut u: usize = 0;
    while u < a.units.len()
        invariant
            u <= a.units@.len(),
            forall|x: int, k: int|
                0 <= x < u && 0 <= k < a.units@[x].participants@.len()
                    ==> #[trigger] a.units@[x].participants@[k]@ != entity@,
        decreases a.units.len() - u,
    {
        let ps = &a.units[u].participants;
        let mut k: usize = 0;
        while k < ps.len()
            invariant
                u < a.units@.len(),
                ps@ == a.units@[u as int].participants@,
                k <= ps@.len(),
                forall|x: int, j: int|
                    0 <= x < u && 0 <= j < a.units@[x].participants@.len()
                        ==> #[trigger] a.units@[x].participants@[j]@ != entity@,
                forall|j: int| 0 <= j < k ==> #[trigger] ps@[j]@ != entity@,
            decreases ps.len() - k,
        {
            if str_eq(ps[k].as_str(), entity) {
                assert(a.units@[u as int].participants@[k as int]@ == entity@);
                return true;
            }
            k = k + 1;
        }
        u = u + 1;
    }
    false
}

fn focalizes_in(a: &ArtifactRecord, entity: &str) -> (r: bool)
    ensures
        r == focalizes(*a, entity@),
{
    let mut u: usize = 0;
    while u < a.units.len()
        invariant
            u <= a.units@.len(),
            forall|x: int|
                0 <= x < u ==> #[trigger] opt_text_view(a.units@[x].focalizer) != Some(entity@),
        decreases a.units.len() - u,
    {
        match &a.units[u].focalizer {
            Some(f) => {
                if str_eq(f.as_str(), entity) {
                    assert(opt_text_view(a.units@[u as int].focalizer) == Some(entity@));
                    return true;
                }
            },
            None => {},
        }
        u = u + 1;
    }
    false
}

/// The trajectory point of artifact `idx`.
fn point_for(idx: usize, a: &ArtifactRecord, entity: &str) -> (r: EntityTrajectoryPoint)
    ensures
        r@ == trajectory_point(idx as nat, *a, entity@),
{
    let is_focalizer = focalizes_in(a, entity);
    let mut emotional_state: Option<String> = None;
    let mut objective: Option<String> = None;
    let mut interp: Option<String> = None;
    let ghost all = states_of(a.units@);
    let ghost fe = |ps: ParticipantStateRecord| emotional_of(ps);
    let ghost fo = |ps: ParticipantStateRecord| objective_of(ps);
    let ghost fi = |ps: ParticipantStateRecord| interpretations_of(ps);
    let states = crate::validate_narrative::flat_states(&a.units);
    let ghost sv = states@.map_values(|p: &ParticipantStateRecord| *p);
    let mut j: usize = 0;
    assert(sv.skip(0) =~= sv);
    while j < states.len()
        invariant
            j <= states@.len(),
            sv == states@.map_values(|p: &ParticipantStateRecord| *p),
            sv == all,
            fe == (|ps: ParticipantStateRecord| emotional_of(ps)),
            fo == (|ps: ParticipantStateRecord| objective_of(ps)),
            fi == (|ps: ParticipantStateRecord| interpretations_of(ps)),
            first_recorded(all, entity@, fe) == (match opt_text_view(emotional_state) {
                Some(x) => Some(x),
                None => first_recorded(sv.skip(j as int), entity@, fe),
            }),
            first_recorded(all, entity@, fo) == (match opt_text_view(objective) {
                Some(x) => Some(x),
                None => first_recorded(sv.skip(j as int), entity@, fo),
            }),
            first_recorded(all, entity@, fi) == (match opt_text_view(interp) {
                Some(x) => Some(x),
                None => first_recorded(sv.skip(j as int), entity@, fi),
            }),
        decreases states.len() - j,
    {
        let ps = states[j];
        assert(sv.skip(j as int)[0] == *ps);
        assert(sv.skip(j as int).drop_first() =~= sv.skip(j + 1));
        if str_eq(ps.entity_ref.as_str(), entity) {
            if emotional_state.is_none() {
                emotional_state = match &ps.pre_state {
                    Some(st) => {
                        if str_eq(st.state_type.as_str(), "emotional") {
                            match &st.value.text {
                                Some(t) => Some(t.clone()),
                                None => None,
                            }
                        } else {
                            None
                        }
                    },
                    None => None,
                };
            }
            if objective.is_none() {
                objective = match &ps.objective_action {
                    Some(o) => Some(o.clone()),
                    None => None,
                };
            }
            if interp.is_none() {
                interp = match &ps.interpretations {
                    Some(v) => Some(v.clone()),
                    None => None,
                };
            }
        }
        j = j + 1;
    }
    assert(sv.skip(states@.len() as int) =~= Seq::<ParticipantStateRecord>::empty());
    EntityTrajectoryPoint {
        artifact_id: a.artifact_id.clone(),
        corpus_index: idx,
        emotional_state,
        objective,
        is_focalizer,
        interpretations: interp,
    }
}

/// Builds the trajectory of `entity_id` across all corpus artifacts: one
/// point for each artifact where the entity participates, recording whether
/// it focalizes the scene and the first emotional state, objective and
/// interpretations its participant states record.
pub fn build_entity_trajectory_view(corpus: &NarrativeCorpus, entity_id: &str) -> (r:
    EntityTrajectoryView)
    ensures
        r.view_type@ == "entity_trajectory"@,
        r.entity_id@ == entity_id@,
        points_view(r.points@) == trajectory_points(
            corpus.artifacts@,
            entity_id@,
            corpus.artifacts@.len() as int,
        ),
{
    let mut points: Vec<EntityTrajectoryPoint> = Vec::new();
    let mut idx: usize = 0;
    while idx < corpus.artifacts.len()
        invariant
            idx <= corpus.artifacts@.len(),
            points_view(points@) == trajectory_points(corpus.artifacts@, entity_id@, idx as int),
        decreases corpus.artifacts.len() - idx,
    {
        let artifact = &corpus.artifacts[idx];
        if participates_in(artifact, entity_id) {
            let p = point_for(idx, artifact, entity_id);
            let ghost prev = points@;
            points.push(p);
            assert(points@ == prev.push(p));
            assert(points_view(points@) =~= points_view(prev).push(p@));
        } else {
            assert(points_view(points@) =~= points_view(points@) + Seq::<TrajectoryPointView>::empty());
        }
        idx = idx + 1;
    }
    EntityTrajectoryView {
        view_type: owned("entity_trajectory"),
        entity_id: owned(entity_id),
        points,
    }
}

// ── Causal chain ──────────────────────────────────────────────────────────────

/// A single node in the causal chain of a story.
#[derive(Debug, Clone, PartialEq, Eq)]
pub struct CausalChainNode {
    /// The artifact of the node.
    pub artifact_id: String,
    /// Index of the artifact in the corpus (0-based).
    pub corpus_index: usize,
    /// Causal role at this node (e.g. `setup`, `trigger`, `resolution`).
    pub causal_role: Option<String>,
    /// Semantic fingerprint of the primary scene action.
    pub fingerprint: Option<String>,
    /// The artifacts this node follows from: the preceding artifact, unless
    /// this node is the first or a `setup` (an origin).
    pub follows_from: Vec<String>,
}

/// The story's causal chain across all artifacts.
#[derive(Debug, Clone, PartialEq, Eq)]
pub struct CausalChainView {
    /// Profile type identifier: `causal_chain`.
    pub view_type: String,
    pub nodes: Vec<CausalChainNode>,
}

/// The content of a [`CausalChainNode`].
pub struct ChainNodeView {
    pub artifact_id: Seq<char>,
    pub corpus_index: nat,
    pub causal_role: Option<Seq<char>>,
    pub fingerprint: Option<Seq<char>>,
    pub follows_from: Seq<Seq<char>>,
}

impl View for CausalChainNode {
    type V = ChainNodeView;

    open spec fn view(&self) -> ChainNodeView {
        ChainNodeView {
            artifact_id: self.artifact_id@,
            corpus_index: self.corpus_index as nat,
            causal_role: opt_text_view(self.causal_role),
            fingerprint: opt_text_view(self.fingerprint),
            follows_from: self.follows_from@.map_values(|s: String| s@),
        }
    }
}

/// The contents of a list of chain nodes.
pub open spec fn nodes_view(v: Seq<CausalChainNode>) -> Seq<ChainNodeView> {
    v.map_values(|n: CausalChainNode| n@)
}

/// The causal role of the first unit whose structure records one.
pub open spec fn role_of(units: Seq<UnitRecord>) -> Option<Seq<char>>
    decreases units.len(),
{
    if units.len() == 0 {
        None
    } else {
        match units[0].structure {
            Some(s) if s.causal_role is Some => opt_text_view(s.causal_role),
            _ => role_of(units.drop_first()),
        }
    }
}

/// The fingerprint of the first unit whose structure records one.
pub open spec fn fingerprint_of(units: Seq<UnitRecord>) -> Option<Seq<char>>
    decreases units.len(),
{
    if units.len() == 0 {
        None
    } else {
        match units[0].structure {
            Some(s) if s.semantic_fingerprint is Some => opt_text_view(s.semantic_fingerprint),
            _ => fingerprint_of(units.drop_first()),
        }
    }
}

/// Is a role an origin role, one that follows from nothing?
pub open spec fn is_origin(role: Option<Seq<char>>) -> bool {
    role == Some("setup"@) || role == Some("trigger"@)
}

/// The node of artifact `i`.
pub open spec fn chain_node(arts: Seq<ArtifactRecord>, i: int) -> ChainNodeView {
    let role = role_of(arts[i].units@);
    ChainNodeView {
        artifact_id: arts[i].artifact_id@,
        corpus_index: i as nat,
        causal_role: role,
        fingerprint: fingerprint_of(arts[i].units@),
        follows_from: if i > 0 && !is_origin(role) {
            seq![arts[i - 1].artifact_id@]
        } else {
            Seq::empty()
        },
    }
}

fn first_role(units: &Vec<UnitRecord>) -> (r: Option<String>)
    ensures
        opt_text_view(r) == role_of(units@),
{
    let mut i: usize = 0;
    assert(units@.skip(0) =~= units@);
    while i < units.len()
        invariant
            i <= units@.len(),
            role_of(units@) == role_of(units@.skip(i as int)),
        decreases units.len() - i,
    {
        assert(units@.skip(i as int)[0] == units@[i as int]);
        assert(units@.skip(i as int).drop_first() =~= units@.skip(i + 1));
        match &units[i].structure {
            Some(s) => match &s.causal_role {
                Some(r) => {
                    return Some(r.clone());
                },
                None => {},
            },
            None => {},
        }
        i = i + 1;
    }
    None
}

fn first_fingerprint(units: &Vec<UnitRecord>) -> (r: Option<String>)
    ensures
        opt_text_view(r) == fingerprint_of(units@),
{
    let mut i: usize = 0;
    assert(units@.skip(0) =~= units@);
    while i < units.len()
        invariant
            i <= units@.len(),
            fingerprint_of(units@) == fingerprint_of(units@.skip(i as int)),
        decreases units.len() - i,
    {
        assert(units@.skip(i as int)[0] == units@[i as int]);
        assert(units@.skip(i as int).drop_first() =~= units@.skip(i + 1));
        match &units[i].structure {
            Some(s) => match &s.semantic_fingerprint {
                Some(f) => {
                    return Some(f.clone());
                },
                None => {},
            },
            None => {},
        }
        i = i + 1;
    }
    None
}

/// Builds the causal chain: one node per artifact in reading order, with the
/// causal role and fingerprint of its first unit that records them.  Edges
/// are inferred sequentially: every node after the first follows from the
/// node before it, unless its role is `setup` or `trigger` (an origin).
pub fn build_causal_chain_view(corpus: &NarrativeCorpus) -> (r: CausalChainView)
    ensures
        r.view_type@ == "causal_chain"@,
        nodes_view(r.nodes@).len() == corpus.artifacts@.len(),
        forall|i: int|
            0 <= i < corpus.artifacts@.len() ==> #[trigger] nodes_view(r.nodes@)[i] == chain_node(
                corpus.artifacts@,
                i,
            ),
{
    let arts = &corpus.artifacts;
    let mut nodes: Vec<CausalChainNode> = Vec::new();
    let mut i: usize = 0;
    while i < arts.len()
        invariant
            i <= arts@.len(),
            nodes@.len() == i,
            forall|j: int| 0 <= j < i ==> #[trigger] nodes@[j]@ == chain_node(arts@, j),
        decreases arts.len() - i,
    {
        let role = first_role(&arts[i].units);
        let fingerprint = first_fingerprint(&arts[i].units);
        let origin = match &role {
            Some(r) => str_eq(r.as_str(), "setup") || str_eq(r.as_str(), "trigger"),
            None => false,
        };
        let mut follows_from: Vec<String> = Vec::new();
        if i > 0 && !origin {
            follows_from.push(arts[i - 1].artifact_id.clone());
        }
        let node = CausalChainNode {
            artifact_id: arts[i].artifact_id.clone(),
            corpus_index: i,
            causal_role: role,
            fingerprint,
            follows_from,
        };
        assert(node@.follows_from =~= chain_node(arts@, i as int).follows_from);
        nodes.push(node);
        i = i + 1;
    }
    CausalChainView { view_type: owned("causal_chain"), nodes }
}

// ── Laws ──────────────────────────────────────────────────────────────────────

/// The entity is listed among the participants of some unit of the artifact.
pub open spec fn listed_participant(a: ArtifactRecord, entity: Seq<char>) -> bool {
    exists|u: int|
        0 <= u < a.units@.len() && (#[trigger] a.units@[u]).participants@.map_values(|p: String| p@).contains(
            entity,
        )
}

proof fn lemma_listed_iff_participates(a: ArtifactRecord, entity: Seq<char>)
    ensures
        listed_participant(a, entity) <==> participates(a, entity),
{
    if listed_participant(a, entity) {
        let u = choose|u: int|
            0 <= u < a.units@.len() && (#[trigger] a.units@[u]).participants@.map_values(|p: String| p@).contains(
                entity,
            );
        let ps = a.units@[u].participants@.map_values(|p: String| p@);
        let k = choose|k: int| 0 <= k < ps.len() && ps[k] == entity;
        assert(a.units@[u].participants@[k]@ == entity);
    }
    if participates(a, entity) {
        let (u, k) = choose|u: int, k: int|
            0 <= u < a.units@.len() && 0 <= k < a.units@[u].participants@.len()
                && #[trigger] a.units@[u].participants@[k]@ == entity;
        let ps = a.units@[u].participants@.map_values(|p: String| p@);
        assert(ps[k] == entity);
        assert(a.units@[u].participants@.map_values(|p: String| p@).contains(entity));
    }
}

/// The trajectory of an entity has one point per artifact in which the
/// entity is listed as a participant, in reading order: each point names its
/// artifact and index, and says whether the entity focalizes some unit of it.
pub proof fn lemma_trajectory_points(arts: Seq<ArtifactRecord>, entity: Seq<char>, n: int)
    requires
        0 <= n <= arts.len(),
    ensures
        forall|k: int|
            0 <= k < trajectory_points(arts, entity, n).len() ==> {
                let p = #[trigger] trajectory_points(arts, entity, n)[k];
                &&& p.corpus_index < n
                &&& p.artifact_id == arts[p.corpus_index as int].artifact_id@
                &&& listed_participant(arts[p.corpus_index as int], entity)
                &&& (p.is_focalizer <==> exists|u: int|
                    0 <= u < arts[p.corpus_index as int].units@.len() && opt_text_view(
                        (#[trigger] arts[p.corpus_index as int].units@[u]).focalizer,
                    ) == Some(entity))
            },
        forall|k1: int, k2: int|
            0 <= k1 < k2 < trajectory_points(arts, entity, n).len() ==> (#[trigger] trajectory_points(
                arts,
                entity,
                n,
            )[k1]).corpus_index < (#[trigger] trajectory_points(arts, entity, n)[k2]).corpus_index,
        forall|i: int|
            0 <= i < n && #[trigger] listed_participant(arts[i], entity) ==> exists|k: int|
                0 <= k < trajectory_points(arts, entity, n).len() && trajectory_points(
                    arts,
                    entity,
                    n,
                )[k].corpus_index == i,
    decreases n,
{
    if n > 0 {
        lemma_trajectory_points(arts, entity, n - 1);
        let prev = trajectory_points(arts, entity, n - 1);
        let cur = trajectory_points(arts, entity, n);
        lemma_listed_iff_participates(arts[n - 1], entity);
        assert forall|k: int| 0 <= k < prev.len() implies #[trigger] cur[k] == prev[k] by {}
        assert forall|i: int| 0 <= i < n && #[trigger] listed_participant(arts[i], entity) implies exists|k: int|
            0 <= k < cur.len() && cur[k].corpus_index == i by {
            if i < n - 1 {
                let k = choose|k: int| 0 <= k < prev.len() && prev[k].corpus_index == i;
                assert(cur[k] == prev[k]);
            } else {
                assert(cur[prev.len() as int].corpus_index == i);
            }
        }
    }
}

/// Every node of the causal chain names its artifact and index, and follows
/// from the artifact before it exactly when it is not the first node and its
/// role is neither `setup` nor `trigger`.
pub proof fn lemma_chain_links(arts: Seq<ArtifactRecord>, i: int)
    requires
        0 <= i < arts.len(),
    ensures
        chain_node(arts, i).artifact_id == arts[i].artifact_id@,
        chain_node(arts, i).corpus_index == i,
        chain_node(arts, i).follows_from == if i > 0 && chain_node(arts, i).causal_role != Some(
            "setup"@,
        ) && chain_node(arts, i).causal_role != Some("trigger"@) {
            seq![arts[i - 1].artifact_id@]
        } else {
            Seq::<Seq<char>>::empty()
        },
{
}

} // verus!
