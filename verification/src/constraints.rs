//! Tag constraint graph — formal relationships between annotation tags.
//!
//! The constraint graph encodes four kinds of relationships:
//!
//! | Kind | Meaning |
//! |------|---------|
//! | `Implies`    | If tag A is active, tag B is expected (soft recommendation) |
//! | `Excludes`   | Tags A and B cannot both be active (logical contradiction) |
//! | `Requires`   | Tag A cannot appear without tag B (hard dependency) |
//! | `Correlates` | A and B statistically co-occur (advisory, not validated) |
//!
//! `ConstraintGraph::validate` checks a flat list of `(key, value)` tag pairs
//! against every registered constraint and reports the violations.  The seed
//! graph holds twenty rules grounded in named literary theories; more can be
//! pushed at runtime.

use vstd::prelude::*;

use crate::tags::{
    annotations_view, extra_pairs, owned_pairs_view, push_annotation_pairs, Annotation,
    ParagraphAnnotations, ParagraphAnnotationsView,
};
use crate::text::{decimal, owned, push_decimal_usize, str_eq};

verus! {

/// A `(key, value)` tag pair, by the characters of its two parts.
pub type PairView = (Seq<char>, Seq<char>);

/// The characters of a list of borrowed tag pairs.
pub open spec fn pairs_view(a: Seq<(&str, &str)>) -> Seq<PairView> {
    a.map_values(|p: (&str, &str)| (p.0@, p.1@))
}

/// The characters of an optional string slice.
pub open spec fn opt_str_view(o: Option<&str>) -> Option<Seq<char>> {
    match o {
        Some(s) => Some(s@),
        None => None,
    }
}

/// The characters of an optional string.
pub open spec fn opt_string_view(o: Option<String>) -> Option<Seq<char>> {
    match o {
        Some(s) => Some(s@),
        None => None,
    }
}

fn opt_owned(o: Option<&str>) -> (r: Option<String>)
    ensures
        opt_string_view(r) == opt_str_view(o),
{
    match o {
        Some(s) => Some(owned(s)),
        None => None,
    }
}

// ── Tag predicate ─────────────────────────────────────────────────────────────

/// A predicate that matches a tag by key and optionally by value.
///
/// `TagPredicate { key: "psychic_distance", value: None }` matches any
/// `psychic_distance` tag; `{ key: "consciousness", value: Some("quoted_monologue") }`
/// matches only that exact value.
#[derive(Debug, Clone, PartialEq, Eq)]
pub struct TagPredicate {
    /// Canonical tag key (from the tag vocabulary).
    pub key: String,
    /// Optional value constraint.  `None` = any value of this key.
    pub value: Option<String>,
}

/// The abstract content of a [`TagPredicate`].
pub struct TagPredicateView {
    pub key: Seq<char>,
    pub value: Option<Seq<char>>,
}

impl TagPredicateView {
    /// The predicate holds of the pair `(k, v)`.
    pub open spec fn matches(self, k: Seq<char>, v: Seq<char>) -> bool {
        self.key == k && match self.value {
            Some(x) => x == v,
            None => true,
        }
    }
}

impl View for TagPredicate {
    type V = TagPredicateView;

    open spec fn view(&self) -> TagPredicateView {
        TagPredicateView { key: self.key@, value: opt_string_view(self.value) }
    }
}

impl TagPredicate {
    /// A predicate matching any value of `key`.
    pub fn key(key: &str) -> (r: Self)
        ensures
            r@ == (TagPredicateView { key: key@, value: None }),
    {
        TagPredicate { key: owned(key), value: None }
    }

    /// A predicate matching exactly `key:value`.
    pub fn exact(key: &str, value: &str) -> (r: Self)
        ensures
            r@ == (TagPredicateView { key: key@, value: Some(value@) }),
    {
        TagPredicate { key: owned(key), value: Some(owned(value)) }
    }

    /// Returns `true` when this predicate matches the given (key, value) pair.
    pub fn matches(&self, tag_key: &str, tag_value: &str) -> (r: bool)
        ensures
            r == self@.matches(tag_key@, tag_value@),
    {
        if !str_eq(self.key.as_str(), tag_key) {
            return false;
        }
        match &self.value {
            Some(v) => str_eq(v.as_str(), tag_value),
            None => true,
        }
    }
}

// ── Constraint kind and severity ──────────────────────────────────────────────

/// The semantic relationship expressed by a `TagConstraint`.
#[derive(Debug, Clone, Copy, PartialEq, Eq, Hash, Structural)]
pub enum ConstraintKind {
    /// When the antecedent is active, the consequent is expected to be set.
    /// Violation = warning only.
    Implies,
    /// The antecedent and consequent are logically incompatible.
    /// Violation = error.
    Excludes,
    /// The antecedent cannot appear without the consequent also being set.
    /// Violation = error.
    Requires,
    /// The two predicates frequently co-occur (advisory, never an error).
    Correlates,
}

/// How severely a constraint violation should be treated.
#[derive(Debug, Clone, Copy, PartialEq, Eq, Hash, Structural)]
pub enum ConstraintSeverity {
    /// Hard error — the annotation set is logically inconsistent.
    Error,
    /// Advisory warning — the combination is suspicious but valid.
    Warning,
    /// Informational — worth noting for analysis, not a problem.
    Info,
}

// ── Constraint ────────────────────────────────────────────────────────────────

/// A single formal relationship between two tag predicates.
#[derive(Debug, Clone, PartialEq, Eq)]
pub struct TagConstraint {
    /// Stable identifier (snake_case).
    pub id: String,
    pub kind: ConstraintKind,
    /// The tag that triggers the constraint check.
    pub antecedent: TagPredicate,
    /// The tag that is implied / excluded / required.
    pub consequent: TagPredicate,
    pub severity: ConstraintSeverity,
    /// Human-readable explanation of why this constraint exists.
    pub rationale: String,
    /// Theoretical provenance (e.g. "Gardner psychic distance scale").
    pub theory_source: Option<String>,
}

/// The abstract content of a [`TagConstraint`].
pub struct TagConstraintView {
    pub id: Seq<char>,
    pub kind: ConstraintKind,
    pub antecedent: TagPredicateView,
    pub consequent: TagPredicateView,
    pub severity: ConstraintSeverity,
    pub rationale: Seq<char>,
    pub theory_source: Option<Seq<char>>,
}

impl View for TagConstraint {
    type V = TagConstraintView;

    open spec fn view(&self) -> TagConstraintView {
        TagConstraintView {
            id: self.id@,
            kind: self.kind,
            antecedent: self.antecedent@,
            consequent: self.consequent@,
            severity: self.severity,
            rationale: self.rationale@,
            theory_source: opt_string_view(self.theory_source),
        }
    }
}

/// The constraint that the builders of [`TagConstraint`] produce.
pub open spec fn built_constraint(
    id: Seq<char>,
    kind: ConstraintKind,
    ant_key: Seq<char>,
    ant_val: Option<Seq<char>>,
    con_key: Seq<char>,
    con_val: Option<Seq<char>>,
    severity: ConstraintSeverity,
    rationale: Seq<char>,
    theory_source: Option<Seq<char>>,
) -> TagConstraintView {
    TagConstraintView {
        id,
        kind,
        antecedent: TagPredicateView { key: ant_key, value: ant_val },
        consequent: TagPredicateView { key: con_key, value: con_val },
        severity,
        rationale,
        theory_source,
    }
}

/// The severity a builder gives to each kind of constraint.
pub open spec fn default_severity(kind: ConstraintKind) -> ConstraintSeverity {
    match kind {
        ConstraintKind::Implies => ConstraintSeverity::Warning,
        ConstraintKind::Excludes => ConstraintSeverity::Error,
        ConstraintKind::Requires => ConstraintSeverity::Error,
        ConstraintKind::Correlates => ConstraintSeverity::Info,
    }
}

impl TagConstraint {
    fn build(
        id: &str,
        kind: ConstraintKind,
        ant_key: &str,
        ant_val: Option<&str>,
        con_key: &str,
        con_val: Option<&str>,
        severity: ConstraintSeverity,
        rationale: &str,
        theory_source: Option<&str>,
    ) -> (r: Self)
        ensures
            r@ == built_constraint(
                id@,
                kind,
                ant_key@,
                opt_str_view(ant_val),
                con_key@,
                opt_str_view(con_val),
                severity,
                rationale@,
                opt_str_view(theory_source),
            ),
    {
        TagConstraint {
            id: owned(id),
            kind,
            antecedent: TagPredicate { key: owned(ant_key), value: opt_owned(ant_val) },
            consequent: TagPredicate { key: owned(con_key), value: opt_owned(con_val) },
            severity,
            rationale: owned(rationale),
            theory_source: opt_owned(theory_source),
        }
    }

    /// An `Implies` constraint (violations are warnings).
    fn implies(
        id: &str,
        ant_key: &str,
        ant_val: Option<&str>,
        con_key: &str,
        con_val: Option<&str>,
        rationale: &str,
        theory_source: Option<&str>,
    ) -> (r: Self)
        ensures
            r@ == built_constraint(
                id@,
                ConstraintKind::Implies,
                ant_key@,
                opt_str_view(ant_val),
                con_key@,
                opt_str_view(con_val),
                ConstraintSeverity::Warning,
                rationale@,
                opt_str_view(theory_source),
            ),
    {
        Self::build(
            id,
            ConstraintKind::Implies,
            ant_key,
            ant_val,
            con_key,
            con_val,
            ConstraintSeverity::Warning,
            rationale,
            theory_source,
        )
    }

    /// An `Excludes` constraint (violations are errors).
    fn excludes(
        id: &str,
        ant_key: &str,
        ant_val: Option<&str>,
        con_key: &str,
        con_val: Option<&str>,
        rationale: &str,
        theory_source: Option<&str>,
    ) -> (r: Self)
        ensures
            r@ == built_constraint(
                id@,
                ConstraintKind::Excludes,
                ant_key@,
                opt_str_view(ant_val),
                con_key@,
                opt_str_view(con_val),
                ConstraintSeverity::Error,
                rationale@,
                opt_str_view(theory_source),
            ),
    {
        Self::build(
            id,
            ConstraintKind::Excludes,
            ant_key,
            ant_val,
            con_key,
            con_val,
            ConstraintSeverity::Error,
            rationale,
            theory_source,
        )
    }

    /// A `Requires` constraint (violations are errors).
    fn requiring(
        id: &str,
        ant_key: &str,
        ant_val: Option<&str>,
        con_key: &str,
        con_val: Option<&str>,
        rationale: &str,
        theory_source: Option<&str>,
    ) -> (r: Self)
        ensures
            r@ == built_constraint(
                id@,
                ConstraintKind::Requires,
                ant_key@,
                opt_str_view(ant_val),
                con_key@,
                opt_str_view(con_val),
                ConstraintSeverity::Error,
                rationale@,
                opt_str_view(theory_source),
            ),
    {
        Self::build(
            id,
            ConstraintKind::Requires,
            ant_key,
            ant_val,
            con_key,
            con_val,
            ConstraintSeverity::Error,
            rationale,
            theory_source,
        )
    }

    /// A `Correlates` constraint (advisory only, no theory source).
    fn correlates(
        id: &str,
        ant_key: &str,
        ant_val: Option<&str>,
        con_key: &str,
        con_val: Option<&str>,
        rationale: &str,
    ) -> (r: Self)
        ensures
            r@ == built_constraint(
                id@,
                ConstraintKind::Correlates,
                ant_key@,
                opt_str_view(ant_val),
                con_key@,
                opt_str_view(con_val),
                ConstraintSeverity::Info,
                rationale@,
                None,
            ),
    {
        Self::build(
            id,
            ConstraintKind::Correlates,
            ant_key,
            ant_val,
            con_key,
            con_val,
            ConstraintSeverity::Info,
            rationale,
            None,
        )
    }
}

// ── Constraint violation ──────────────────────────────────────────────────────

/// A constraint violation found during `ConstraintGraph::validate`.
#[derive(Debug, PartialEq, Eq)]
pub struct ConstraintViolation {
    /// The constraint that was violated.
    pub constraint_id: String,
    pub kind: ConstraintKind,
    pub severity: ConstraintSeverity,
    /// The active (key, value) pair that triggered the check.
    pub triggering_tag: (String, String),
    /// The missing or conflicting (key, value) pair.
    pub related_tag: (String, String),
    pub message: String,
}

impl Clone for ConstraintViolation {
    fn clone(&self) -> (r: Self)
        ensures
            r == *self,
    {
        ConstraintViolation {
            constraint_id: self.constraint_id.clone(),
            kind: self.kind,
            severity: self.severity,
            triggering_tag: (self.triggering_tag.0.clone(), self.triggering_tag.1.clone()),
            related_tag: (self.related_tag.0.clone(), self.related_tag.1.clone()),
            message: self.message.clone(),
        }
    }
}

/// The abstract content of a [`ConstraintViolation`].
pub struct ViolationView {
    pub constraint_id: Seq<char>,
    pub kind: ConstraintKind,
    pub severity: ConstraintSeverity,
    pub triggering_tag: PairView,
    pub related_tag: PairView,
    pub message: Seq<char>,
}

impl View for ConstraintViolation {
    type V = ViolationView;

    open spec fn view(&self) -> ViolationView {
        ViolationView {
            constraint_id: self.constraint_id@,
            kind: self.kind,
            severity: self.severity,
            triggering_tag: (self.triggering_tag.0@, self.triggering_tag.1@),
            related_tag: (self.related_tag.0@, self.related_tag.1@),
            message: self.message@,
        }
    }
}

/// The views of a list of violations.
pub open spec fn violations_view(v: Seq<ConstraintViolation>) -> Seq<ViolationView> {
    v.map_values(|x: ConstraintViolation| x@)
}

// ── Validation semantics ──────────────────────────────────────────────────────

/// Some pair of `pairs` satisfies `pred`.
pub open spec fn any_match(pred: TagPredicateView, pairs: Seq<PairView>) -> bool {
    exists|j: int| 0 <= j < pairs.len() && pred.matches(#[trigger] pairs[j].0, pairs[j].1)
}

/// `key` or `key:value` of a predicate, as violation messages print it.
pub open spec fn predicate_text(p: TagPredicateView) -> Seq<char> {
    match p.value {
        Some(v) => p.key + ":"@ + v,
        None => p.key,
    }
}

/// The value a predicate names, or the empty string.
pub open spec fn predicate_value(p: TagPredicateView) -> Seq<char> {
    match p.value {
        Some(v) => v,
        None => Seq::empty(),
    }
}

/// The violation reported when an `Implies` or `Requires` constraint is
/// triggered by `(key, value)` and its consequent is absent.
pub open spec fn missing_violation(
    c: TagConstraintView,
    key: Seq<char>,
    value: Seq<char>,
) -> ViolationView {
    let (verb, tail) = if c.kind == ConstraintKind::Implies {
        ("implies"@, "should also be set"@)
    } else {
        ("requires"@, "to also be set"@)
    };
    ViolationView {
        constraint_id: c.id,
        kind: c.kind,
        severity: c.severity,
        triggering_tag: (key, value),
        related_tag: (c.consequent.key, predicate_value(c.consequent)),
        message: "Tag '"@ + key + ":"@ + value + "' "@ + verb + " '"@ + predicate_text(
            c.consequent,
        ) + "' "@ + tail + " — "@ + c.rationale,
    }
}

/// The violation reported when an `Excludes` constraint is triggered by
/// `(key, value)` while `other` matches its consequent.
pub open spec fn excluded_violation(
    c: TagConstraintView,
    key: Seq<char>,
    value: Seq<char>,
    other: PairView,
) -> ViolationView {
    ViolationView {
        constraint_id: c.id,
        kind: c.kind,
        severity: c.severity,
        triggering_tag: (key, value),
        related_tag: other,
        message: "Tags '"@ + key + ":"@ + value + "' and '"@ + other.0 + ":"@ + other.1
            + "' are incompatible — "@ + c.rationale,
    }
}

/// One exclusion violation per pair of `pairs` (in order) that matches the
/// consequent of `c`.
pub open spec fn excluded_violations(
    c: TagConstraintView,
    key: Seq<char>,
    value: Seq<char>,
    pairs: Seq<PairView>,
) -> Seq<ViolationView>
    decreases pairs.len(),
{
    if pairs.len() == 0 {
        Seq::empty()
    } else {
        let rest = excluded_violations(c, key, value, pairs.drop_last());
        if c.consequent.matches(pairs.last().0, pairs.last().1) {
            rest.push(excluded_violation(c, key, value, pairs.last()))
        } else {
            rest
        }
    }
}

/// The violations of constraint `c` triggered by the pair `(key, value)`
/// within the tag set `pairs`.
pub open spec fn trigger_violations(
    c: TagConstraintView,
    key: Seq<char>,
    value: Seq<char>,
    pairs: Seq<PairView>,
) -> Seq<ViolationView> {
    if !c.antecedent.matches(key, value) {
        Seq::empty()
    } else {
        match c.kind {
            ConstraintKind::Implies | ConstraintKind::Requires => {
                if any_match(c.consequent, pairs) {
                    Seq::empty()
                } else {
                    seq![missing_violation(c, key, value)]
                }
            },
            ConstraintKind::Excludes => excluded_violations(c, key, value, pairs),
            ConstraintKind::Correlates => Seq::empty(),
        }
    }
}

/// The violations of `c` triggered by the first `n` pairs of `pairs`.
pub open spec fn constraint_violations(
    c: TagConstraintView,
    pairs: Seq<PairView>,
    n: int,
) -> Seq<ViolationView>
    decreases n,
{
    if n <= 0 {
        Seq::empty()
    } else {
        constraint_violations(c, pairs, n - 1) + trigger_violations(
            c,
            pairs[n - 1].0,
            pairs[n - 1].1,
            pairs,
        )
    }
}

/// The violations of the first `m` constraints of `cs` on `pairs`, constraint
/// by constraint, each in the order of its triggering pairs.
pub open spec fn graph_violations(
    cs: Seq<TagConstraintView>,
    pairs: Seq<PairView>,
    m: int,
) -> Seq<ViolationView>
    decreases m,
{
    if m <= 0 {
        Seq::empty()
    } else {
        graph_violations(cs, pairs, m - 1) + constraint_violations(cs[m - 1], pairs, pairs.len() as int)
    }
}

/// What `validate` reports for the constraints `cs` on the tag set `pairs`.
pub open spec fn validation(cs: Seq<TagConstraintView>, pairs: Seq<PairView>) -> Seq<ViolationView> {
    graph_violations(cs, pairs, cs.len() as int)
}

/// The violations of `vs` with severity `s`, in order.
pub open spec fn with_severity(vs: Seq<ViolationView>, s: ConstraintSeverity) -> Seq<ViolationView>
    decreases vs.len(),
{
    if vs.len() == 0 {
        Seq::empty()
    } else if vs.last().severity == s {
        with_severity(vs.drop_last(), s).push(vs.last())
    } else {
        with_severity(vs.drop_last(), s)
    }
}

// ── Message building ──────────────────────────────────────────────────────────

fn append_predicate_text(out: &mut String, p: &TagPredicate)
    ensures
        final(out)@ == old(out)@ + predicate_text(p@),
{
    out.append(p.key.as_str());
    match &p.value {
        Some(v) => {
            out.append(":");
            out.append(v.as_str());
            assert(final(out)@ =~= old(out)@ + (p.key@ + ":"@ + v@));
        },
        None => {},
    }
}

fn predicate_value_string(p: &TagPredicate) -> (r: String)
    ensures
        r@ == predicate_value(p@),
{
    match &p.value {
        Some(v) => v.clone(),
        None => String::new(),
    }
}

fn missing(c: &TagConstraint, key: &str, value: &str) -> (r: ConstraintViolation)
    requires
        c.kind == ConstraintKind::Implies || c.kind == ConstraintKind::Requires,
    ensures
        r@ == missing_violation(c@, key@, value@),
{
    let mut message = String::new();
    message.append("Tag '");
    message.append(key);
    message.append(":");
    message.append(value);
    message.append("' ");
    if c.kind == ConstraintKind::Implies {
        message.append("implies");
    } else {
        message.append("requires");
    }
    message.append(" '");
    append_predicate_text(&mut message, &c.consequent);
    message.append("' ");
    if c.kind == ConstraintKind::Implies {
        message.append("should also be set");
    } else {
        message.append("to also be set");
    }
    message.append(" — ");
    message.append(c.rationale.as_str());
    let r = ConstraintViolation {
        constraint_id: c.id.clone(),
        kind: c.kind,
        severity: c.severity,
        triggering_tag: (owned(key), owned(value)),
        related_tag: (c.consequent.key.clone(), predicate_value_string(&c.consequent)),
        message,
    };
    assert(r@.message =~= missing_violation(c@, key@, value@).message);
    r
}

fn excluded(c: &TagConstraint, key: &str, value: &str, k2: &str, v2: &str) -> (r:
    ConstraintViolation)
    ensures
        r@ == excluded_violation(c@, key@, value@, (k2@, v2@)),
{
    let mut message = String::new();
    message.append("Tags '");
    message.append(key);
    message.append(":");
    message.append(value);
    message.append("' and '");
    message.append(k2);
    message.append(":");
    message.append(v2);
    message.append("' are incompatible — ");
    message.append(c.rationale.as_str());
    let r = ConstraintViolation {
        constraint_id: c.id.clone(),
        kind: c.kind,
        severity: c.severity,
        triggering_tag: (owned(key), owned(value)),
        related_tag: (owned(k2), owned(v2)),
        message,
    };
    assert(r@.message =~= excluded_violation(c@, key@, value@, (k2@, v2@)).message);
    r
}

// ── Constraint graph ──────────────────────────────────────────────────────────

/// The full set of tag constraints, with validation logic.
#[derive(Debug, Clone)]
pub struct ConstraintGraph {
    pub constraints: Vec<TagConstraint>,
}

impl View for ConstraintGraph {
    type V = Seq<TagConstraintView>;

    open spec fn view(&self) -> Seq<TagConstraintView> {
        self.constraints@.map_values(|c: TagConstraint| c@)
    }
}

/// Does the predicate match some pair of the list?
fn any_pair_matches(pred: &TagPredicate, pairs: &[(&str, &str)]) -> (r: bool)
    ensures
        r == any_match(pred@, pairs_view(pairs@)),
{
    let ghost pv = pairs_view(pairs@);
    let mut j: usize = 0;
    while j < pairs.len()
        invariant
            j <= pairs@.len(),
            pv == pairs_view(pairs@),
            forall|i: int| 0 <= i < j ==> !pred@.matches(#[trigger] pv[i].0, pv[i].1),
        decreases pairs.len() - j,
    {
        let (k, v) = pairs[j];
        if pred.matches(k, v) {
            assert(pred@.matches(pv[j as int].0, pv[j as int].1));
            return true;
        }
        j = j + 1;
    }
    false
}

impl ConstraintGraph {
    /// The seed graph (same as `default`).
    pub fn new() -> (r: Self)
        ensures
            is_seed_graph(r@),
    {
        Self::default()
    }

    /// Add a custom constraint to the graph.
    pub fn push(&mut self, c: TagConstraint)
        ensures
            final(self)@ == old(self)@.push(c@),
    {
        self.constraints.push(c);
        assert(final(self)@ =~= old(self)@.push(c@));
    }

    /// The violations of one constraint, triggered pair by pair.
    fn check_constraint(c: &TagConstraint, pairs: &[(&str, &str)], out: &mut Vec<ConstraintViolation>)
        ensures
            violations_view(final(out)@) == violations_view(old(out)@) + constraint_violations(
                c@,
                pairs_view(pairs@),
                pairs@.len() as int,
            ),
    {
        let ghost pv = pairs_view(pairs@);
        let mut i: usize = 0;
        while i < pairs.len()
            invariant
                i <= pairs@.len(),
                pv == pairs_view(pairs@),
                violations_view(out@) == violations_view(old(out)@) + constraint_violations(
                    c@,
                    pv,
                    i as int,
                ),
            decreases pairs.len() - i,
        {
            let (key, value) = pairs[i];
            assert(pv[i as int] == (key@, value@));
            let ghost before = violations_view(out@);
            if c.antecedent.matches(key, value) {
                match c.kind {
                    ConstraintKind::Implies | ConstraintKind::Requires => {
                        if !any_pair_matches(&c.consequent, pairs) {
                            let x = missing(c, key, value);
                            out.push(x);
                            assert(violations_view(out@) =~= before.push(x@));
                        }
                    },
                    ConstraintKind::Excludes => {
                        let mut j: usize = 0;
                        while j < pairs.len()
                            invariant
                                j <= pairs@.len(),
                                pv == pairs_view(pairs@),
                                c.antecedent@.matches(key@, value@),
                                c.kind == ConstraintKind::Excludes,
                                violations_view(out@) == before + excluded_violations(
                                    c@,
                                    key@,
                                    value@,
                                    pv.take(j as int),
                                ),
                            decreases pairs.len() - j,
                        {
                            let (k2, v2) = pairs[j];
                            assert(pv[j as int] == (k2@, v2@));
                            assert(pv.take(j + 1).last() == pv[j as int]);
                            let ghost mid = violations_view(out@);
                            if c.consequent.matches(k2, v2) {
                                let x = excluded(c, key, value, k2, v2);
                                out.push(x);
                                assert(violations_view(out@) =~= mid.push(x@));
                            }
                            assert(pv.take(j + 1).drop_last() =~= pv.take(j as int));
                            assert(excluded_violations(c@, key@, value@, pv.take(j + 1)) == if c@.consequent.matches(pv[j as int].0, pv[j as int].1) {
                                excluded_violations(c@, key@, value@, pv.take(j as int)).push(excluded_violation(c@, key@, value@, pv[j as int]))
                            } else {
                                excluded_violations(c@, key@, value@, pv.take(j as int))
                            });
                            assert(violations_view(out@) =~= before + excluded_violations(
                                c@,
                                key@,
                                value@,
                                pv.take(j + 1),
                            ));
                            j = j + 1;
                        }
                        assert(pv.take(pairs@.len() as int) =~= pv);
                    },
                    ConstraintKind::Correlates => {},
                }
            }
            assert(violations_view(out@) =~= before + trigger_violations(c@, key@, value@, pv));
            assert(violations_view(out@) =~= violations_view(old(out)@) + constraint_violations(
                c@,
                pv,
                i + 1,
            ));
            i = i + 1;
        }
    }

    /// Validate a set of (key, value) annotation pairs.
    ///
    /// Returns a list of violations.  An empty list means the annotation set
    /// is consistent with all registered constraints
    /// (see [`lemma_no_violations_iff_consistent`]).
    ///
    /// `annotations` is expected to be a flat list of `(canonical_key, value)`
    /// pairs as emitted by the annotation parser.
    pub fn validate(&self, annotations: &[(&str, &str)]) -> (r: Vec<ConstraintViolation>)
        ensures
            violations_view(r@) == validation(self@, pairs_view(annotations@)),
    {
        let mut violations: Vec<ConstraintViolation> = Vec::new();
        let mut m: usize = 0;
        while m < self.constraints.len()
            invariant
                m <= self.constraints@.len(),
                violations_view(violations@) == graph_violations(
                    self@,
                    pairs_view(annotations@),
                    m as int,
                ),
            decreases self.constraints.len() - m,
        {
            Self::check_constraint(&self.constraints[m], annotations, &mut violations);
            m = m + 1;
        }
        violations
    }

    fn keep_severity(vs: Vec<ConstraintViolation>, s: ConstraintSeverity) -> (r: Vec<
        ConstraintViolation,
    >)
        ensures
            violations_view(r@) == with_severity(violations_view(vs@), s),
    {
        let ghost vv = violations_view(vs@);
        let mut out: Vec<ConstraintViolation> = Vec::new();
        let mut i: usize = 0;
        while i < vs.len()
            invariant
                i <= vs@.len(),
                vv == violations_view(vs@),
                violations_view(out@) == with_severity(vv.take(i as int), s),
            decreases vs.len() - i,
        {
            assert(vv.take(i + 1).drop_last() =~= vv.take(i as int));
            if vs[i].severity == s {
                out.push(vs[i].clone());
            }
            assert(violations_view(out@) =~= with_severity(vv.take(i + 1), s));
            i = i + 1;
        }
        assert(vv.take(vs@.len() as int) =~= vv);
        out
    }

    /// Return only `Error`-severity violations from a validation run.
    pub fn errors(&self, annotations: &[(&str, &str)]) -> (r: Vec<ConstraintViolation>)
        ensures
            violations_view(r@) == with_severity(
                validation(self@, pairs_view(annotations@)),
                ConstraintSeverity::Error,
            ),
    {
        Self::keep_severity(self.validate(annotations), ConstraintSeverity::Error)
    }

    /// Return only `Warning`-severity violations from a validation run.
    pub fn warnings(&self, annotations: &[(&str, &str)]) -> (r: Vec<ConstraintViolation>)
        ensures
            violations_view(r@) == with_severity(
                validation(self@, pairs_view(annotations@)),
                ConstraintSeverity::Warning,
            ),
    {
        Self::keep_severity(self.validate(annotations), ConstraintSeverity::Warning)
    }

    /// Lookup a constraint by its stable ID: the first constraint carrying it.
    pub fn get(&self, id: &str) -> (r: Option<&TagConstraint>)
        ensures
            match r {
                Some(c) => exists|i: int|
                    0 <= i < self@.len() && self.constraints@[i] == *c && self@[i].id == id@
                        && forall|j: int| 0 <= j < i ==> #[trigger] self@[j].id != id@,
                None => forall|i: int| 0 <= i < self@.len() ==> #[trigger] self@[i].id != id@,
            },
    {
        let mut i: usize = 0;
        while i < self.constraints.len()
            invariant
                i <= self.constraints@.len(),
                forall|j: int| 0 <= j < i ==> #[trigger] self@[j].id != id@,
            decreases self.constraints.len() - i,
        {
            if str_eq(self.constraints[i].id.as_str(), id) {
                return Some(&self.constraints[i]);
            }
            i = i + 1;
        }
        None
    }
}

// ── Paragraph and scene validation ────────────────────────────────────────────

/// Borrowed views of a list of owned pairs.
fn borrow_pairs<'a>(pairs: &'a Vec<(String, String)>) -> (r: Vec<(&'a str, &'a str)>)
    ensures
        pairs_view(r@) == owned_pairs_view(pairs@),
{
    let mut out: Vec<(&'a str, &'a str)> = Vec::new();
    let mut i: usize = 0;
    while i < pairs.len()
        invariant
            i <= pairs@.len(),
            pairs_view(out@) == owned_pairs_view(pairs@.take(i as int)),
        decreases pairs.len() - i,
    {
        let ghost prev = out@;
        out.push((pairs[i].0.as_str(), pairs[i].1.as_str()));
        assert(pairs@.take(i + 1) =~= pairs@.take(i as int).push(pairs@[i as int]));
        assert(pairs_view(out@) =~= pairs_view(prev).push((pairs@[i as int].0@, pairs@[i as int].1@)));
        i = i + 1;
    }
    assert(pairs@.take(pairs@.len() as int) =~= pairs@);
    out
}

/// The prefix `para_{i}/` that marks a violation found in paragraph `i`.
pub open spec fn paragraph_prefix(i: nat) -> Seq<char> {
    "para_"@ + decimal(i) + "/"@
}

/// A violation whose constraint id carries a prefix.
pub open spec fn with_id_prefix(v: ViolationView, prefix: Seq<char>) -> ViolationView {
    ViolationView { constraint_id: prefix + v.constraint_id, ..v }
}

/// Every violation of a list, its constraint id prefixed.
pub open spec fn prefixed(vs: Seq<ViolationView>, prefix: Seq<char>) -> Seq<ViolationView> {
    vs.map_values(|v: ViolationView| with_id_prefix(v, prefix))
}

/// The violations of a run of paragraphs: each paragraph's violations in
/// turn, their constraint ids prefixed with `para_{i}/`.
pub open spec fn scene_validation(
    cs: Seq<TagConstraintView>,
    paragraphs: Seq<ParagraphAnnotationsView>,
) -> Seq<ViolationView>
    decreases paragraphs.len(),
{
    if paragraphs.len() == 0 {
        Seq::empty()
    } else {
        let i = (paragraphs.len() - 1) as nat;
        scene_validation(cs, paragraphs.drop_last()) + prefixed(
            validation(cs, paragraphs.last().constraint_pairs()),
            paragraph_prefix(i),
        )
    }
}

/// The contents of a list of paragraph states.
pub open spec fn paragraphs_view(v: Seq<ParagraphAnnotations>) -> Seq<ParagraphAnnotationsView> {
    v.map_values(|p: ParagraphAnnotations| p@)
}

fn prefix_violation(v: &ConstraintViolation, prefix: &str) -> (r: ConstraintViolation)
    ensures
        r@ == with_id_prefix(v@, prefix@),
{
    let mut id = owned(prefix);
    id.append(v.constraint_id.as_str());
    ConstraintViolation {
        constraint_id: id,
        kind: v.kind,
        severity: v.severity,
        triggering_tag: (v.triggering_tag.0.clone(), v.triggering_tag.1.clone()),
        related_tag: (v.related_tag.0.clone(), v.related_tag.1.clone()),
        message: v.message.clone(),
    }
}

impl ConstraintGraph {
    /// Validate a single paragraph state: its typed fields and any `extra`
    /// annotations are flattened into pairs (see
    /// [`ParagraphAnnotations::to_constraint_pairs`]) and run through the
    /// graph.
    pub fn validate_paragraph(&self, ann: &ParagraphAnnotations) -> (r: Vec<ConstraintViolation>)
        ensures
            violations_view(r@) == validation(self@, ann@.constraint_pairs()),
    {
        let pairs = ann.to_constraint_pairs();
        let refs = borrow_pairs(&pairs);
        self.validate(refs.as_slice())
    }

    /// Validate all paragraphs of a scene and return every violation across
    /// them, in paragraph order.  The violations are those of
    /// `validate_paragraph`, with the constraint id prefixed by `para_{i}/`
    /// so that callers can tell which paragraph triggered each one.
    pub fn validate_scene_annotations(&self, paragraphs: &[ParagraphAnnotations]) -> (r: Vec<
        ConstraintViolation,
    >)
        ensures
            violations_view(r@) == scene_validation(self@, paragraphs_view(paragraphs@)),
    {
        let ghost ps = paragraphs_view(paragraphs@);
        let mut all: Vec<ConstraintViolation> = Vec::new();
        let mut i: usize = 0;
        while i < paragraphs.len()
            invariant
                i <= paragraphs@.len(),
                ps == paragraphs_view(paragraphs@),
                violations_view(all@) == scene_validation(self@, ps.take(i as int)),
            decreases paragraphs.len() - i,
        {
            let vs = self.validate_paragraph(&paragraphs[i]);
            let mut prefix = owned("para_");
            push_decimal_usize(&mut prefix, i);
            prefix.append("/");
            let ghost base = violations_view(all@);
            let ghost pv = paragraph_prefix(i as nat);
            assert(prefix@ == pv);
            let mut j: usize = 0;
            while j < vs.len()
                invariant
                    j <= vs@.len(),
                    prefix@ == pv,
                    violations_view(all@) == base + prefixed(violations_view(vs@).take(j as int), pv),
                decreases vs.len() - j,
            {
                let ghost prev = all@;
                let nv = prefix_violation(&vs[j], prefix.as_str());
                let ghost x = violations_view(vs@).take(j as int);
                all.push(nv);
                assert(all@ == prev.push(nv));
                assert(violations_view(all@) =~= violations_view(prev).push(nv@));
                assert(violations_view(vs@).take(j + 1) =~= x.push(vs@[j as int]@));
                assert(prefixed(x.push(vs@[j as int]@), pv) =~= prefixed(x, pv).push(
                    with_id_prefix(vs@[j as int]@, pv),
                ));
                assert(violations_view(all@) =~= base + prefixed(
                    violations_view(vs@).take(j + 1),
                    pv,
                ));
                j = j + 1;
            }
            assert(violations_view(vs@).take(vs@.len() as int) =~= violations_view(vs@));
            assert(ps.take(i + 1).drop_last() =~= ps.take(i as int));
            assert(ps.take(i + 1).last() == paragraphs@[i as int]@);
            i = i + 1;
        }
        assert(ps.take(paragraphs@.len() as int) =~= ps);
        all
    }

    /// The `(key, value)` pairs of a list of annotations, skipping the
    /// complex multi-field variants (see [`crate::tags::annotation_to_pair`]).
    pub fn pairs_from_extra(extra: &[Annotation]) -> (r: Vec<(String, String)>)
        ensures
            owned_pairs_view(r@) == extra_pairs(annotations_view(extra@)),
    {
        let mut pairs: Vec<(String, String)> = Vec::new();
        push_annotation_pairs(&mut pairs, extra);
        assert(owned_pairs_view(pairs@) =~= extra_pairs(annotations_view(extra@)));
        pairs
    }
}

// ── Seed constraints ──────────────────────────────────────────────────────────

/// The identifier, kind, predicates, severity, rationale and theory source of
/// the `i`-th of the twenty core constraints.
pub open spec fn seed_rule(c: TagConstraintView, i: int) -> bool {
    if i == 0 {
        c.id == "pd1_implies_consciousness"@ && c.kind == ConstraintKind::Implies
            && c.antecedent == (TagPredicateView { key: "psychic_distance"@, value: Some("1"@) })
            && c.consequent == (TagPredicateView { key: "consciousness"@, value: None })
            && c.severity == ConstraintSeverity::Warning
            && c.rationale == "Psychic distance 1 (deepest interiority) should specify a Cohn consciousness mode (quoted_monologue or narrated_monologue)."@
            && c.theory_source == Some("Gardner 1983 psychic distance scale; Cohn 1978"@)
    } else if i == 1 {
        c.id == "pd5_excludes_quoted_monologue"@ && c.kind == ConstraintKind::Excludes
            && c.antecedent == (TagPredicateView { key: "psychic_distance"@, value: Some("5"@) })
            && c.consequent == (TagPredicateView { key: "consciousness"@, value: Some("quoted_monologue"@) })
            && c.severity == ConstraintSeverity::Error
            && c.rationale == "Psychic distance 5 (panoramic/summary) is incompatible with quoted_monologue (direct interior speech — a close interiority marker)."@
            && c.theory_source == Some("Gardner 1983; Cohn 1978 Transparent Minds"@)
    } else if i == 2 {
        c.id == "pd5_excludes_narrated_monologue"@ && c.kind == ConstraintKind::Excludes
            && c.antecedent == (TagPredicateView { key: "psychic_distance"@, value: Some("5"@) })
            && c.consequent == (TagPredicateView { key: "consciousness"@, value: Some("narrated_monologue"@) })
            && c.severity == ConstraintSeverity::Error
            && c.rationale == "Psychic distance 5 does not support narrated monologue (deep FID). Use psychonarration instead."@
            && c.theory_source == Some("Gardner 1983; Cohn 1978"@)
    } else if i == 3 {
        c.id == "pd1_implies_pov"@ && c.kind == ConstraintKind::Implies
            && c.antecedent == (TagPredicateView { key: "psychic_distance"@, value: Some("1"@) })
            && c.consequent == (TagPredicateView { key: "pov"@, value: None })
            && c.severity == ConstraintSeverity::Warning
            && c.rationale == "Deep interiority (PD 1) requires an explicit POV declaration."@
            && c.theory_source == Some("Gardner 1983"@)
    } else if i == 4 {
        c.id == "high_tension_correlates_short_sentences"@ && c.kind == ConstraintKind::Correlates
            && c.antecedent == (TagPredicateView { key: "tension"@, value: None })
            && c.consequent == (TagPredicateView { key: "sentence_length"@, value: Some("short"@) })
            && c.severity == ConstraintSeverity::Info
            && c.rationale == "High tension tends to correlate with shorter sentence rhythms."@
            && c.theory_source == None::<Seq<char>>
    } else if i == 5 {
        c.id == "speech_act_requires_character"@ && c.kind == ConstraintKind::Requires
            && c.antecedent == (TagPredicateView { key: "speech_act"@, value: None })
            && c.consequent == (TagPredicateView { key: "character"@, value: None })
            && c.severity == ConstraintSeverity::Error
            && c.rationale == "A speech_act annotation implies a character is performing the act; an active character tag should be present."@
            && c.theory_source == Some("Searle 1969 Speech Acts; Austin 1962 How to Do Things with Words"@)
    } else if i == 6 {
        c.id == "male_gaze_implies_feminist_audit"@ && c.kind == ConstraintKind::Implies
            && c.antecedent == (TagPredicateView { key: "gaze"@, value: Some("male_gaze"@) })
            && c.consequent == (TagPredicateView { key: "feminist"@, value: None })
            && c.severity == ConstraintSeverity::Warning
            && c.rationale == "Deploying the male gaze warrants an explicit feminist narratology audit annotation to signal intentional critical engagement."@
            && c.theory_source == Some("Mulvey 1975; Lanser 1992"@)
    } else if i == 7 {
        c.id == "metadiegetic_implies_embedded_thread"@ && c.kind == ConstraintKind::Implies
            && c.antecedent == (TagPredicateView { key: "diegetic_level"@, value: Some("metadiegetic"@) })
            && c.consequent == (TagPredicateView { key: "thread"@, value: None })
            && c.severity == ConstraintSeverity::Warning
            && c.rationale == "A metadiegetic level (embedded story within story) should reference the embedded thread via a thread tag."@
            && c.theory_source == Some("Genette 1980 Narrative Discourse"@)
    } else if i == 8 {
        c.id == "autofiction_implies_first_person"@ && c.kind == ConstraintKind::Implies
            && c.antecedent == (TagPredicateView { key: "pact"@, value: Some("autofictional"@) })
            && c.consequent == (TagPredicateView { key: "pov"@, value: Some("first_person"@) })
            && c.severity == ConstraintSeverity::Warning
            && c.rationale == "Autofictional pact (Doubrovsky/Lejeune) conventionally uses first-person narration."@
            && c.theory_source == Some("Lejeune 1989; Doubrovsky 1977"@)
    } else if i == 9 {
        c.id == "autobiographical_pact_excludes_third_person"@ && c.kind == ConstraintKind::Excludes
            && c.antecedent == (TagPredicateView { key: "pact"@, value: Some("autobiographical"@) })
            && c.consequent == (TagPredicateView { key: "pov"@, value: Some("third_person_omniscient"@) })
            && c.severity == ConstraintSeverity::Error
            && c.rationale == "Third-person omniscient narration breaks the autobiographical pact (Lejeune name test)."@
            && c.theory_source == Some("Lejeune 1989 On Autobiography"@)
    } else if i == 10 {
        c.id == "second_person_experimental_implies_pov"@ && c.kind == ConstraintKind::Implies
            && c.antecedent == (TagPredicateView { key: "experimental"@, value: Some("second_person"@) })
            && c.consequent == (TagPredicateView { key: "pov"@, value: Some("second_person"@) })
            && c.severity == ConstraintSeverity::Warning
            && c.rationale == "Second-person experimental narration should declare second_person POV."@
            && c.theory_source == Some("McHale 1987 Postmodernist Fiction"@)
    } else if i == 11 {
        c.id == "trauma_implies_recovery_stage"@ && c.kind == ConstraintKind::Implies
            && c.antecedent == (TagPredicateView { key: "trauma_mode"@, value: None })
            && c.consequent == (TagPredicateView { key: "recovery_stage"@, value: None })
            && c.severity == ConstraintSeverity::Warning
            && c.rationale == "Trauma mode annotations are more useful when paired with a Herman recovery stage for clinical-narratological completeness."@
            && c.theory_source == Some("Herman 1997 Trauma and Recovery"@)
    } else if i == 12 {
        c.id == "propp_requires_beat"@ && c.kind == ConstraintKind::Requires
            && c.antecedent == (TagPredicateView { key: "propp"@, value: None })
            && c.consequent == (TagPredicateView { key: "beat"@, value: None })
            && c.severity == ConstraintSeverity::Error
            && c.rationale == "Propp morphological function annotations should be anchored to a structural beat for cross-reference validation."@
            && c.theory_source == Some("Propp 1928 Morphology of the Folktale"@)
    } else if i == 13 {
        c.id == "analepsis_implies_beat"@ && c.kind == ConstraintKind::Implies
            && c.antecedent == (TagPredicateView { key: "temporal_order"@, value: Some("analepsis"@) })
            && c.consequent == (TagPredicateView { key: "beat"@, value: None })
            && c.severity == ConstraintSeverity::Warning
            && c.rationale == "Analepsis (flashback) should reference the beat or scene it returns to, for narrative time tracking."@
            && c.theory_source == Some("Genette 1980 §1 order"@)
    } else if i == 14 {
        c.id == "gaze_requires_character"@ && c.kind == ConstraintKind::Requires
            && c.antecedent == (TagPredicateView { key: "gaze"@, value: None })
            && c.consequent == (TagPredicateView { key: "character"@, value: None })
            && c.severity == ConstraintSeverity::Error
            && c.rationale == "Gaze annotations (Mulvey's apparatus) require an active character context — whose gaze is operating?"@
            && c.theory_source == Some("Mulvey 1975; Lacan mirror stage"@)
    } else if i == 15 {
        c.id == "actant_requires_entity"@ && c.kind == ConstraintKind::Requires
            && c.antecedent == (TagPredicateView { key: "actant"@, value: None })
            && c.consequent == (TagPredicateView { key: "character"@, value: None })
            && c.severity == ConstraintSeverity::Error
            && c.rationale == "Actantial role (Greimas) should be paired with its character entity reference for cross-phase validation."@
            && c.theory_source == Some("Greimas 1966 Structural Semantics"@)
    } else if i == 16 {
        c.id == "third_person_omniscient_excludes_quoted_monologue"@ && c.kind == ConstraintKind::Excludes
            && c.antecedent == (TagPredicateView { key: "pov"@, value: Some("third_person_omniscient"@) })
            && c.consequent == (TagPredicateView { key: "consciousness"@, value: Some("quoted_monologue"@) })
            && c.severity == ConstraintSeverity::Error
            && c.rationale == "Omniscient narration rarely uses quoted interior monologue (Cohn's mode 1 — that is a first-person or close-third technique)."@
            && c.theory_source == Some("Cohn 1978; Stanzel 1984"@)
    } else if i == 17 {
        c.id == "unreliable_narrator_implies_knowledge_scope"@ && c.kind == ConstraintKind::Implies
            && c.antecedent == (TagPredicateView { key: "reliability"@, value: Some("unreliable"@) })
            && c.consequent == (TagPredicateView { key: "knowledge"@, value: None })
            && c.severity == ConstraintSeverity::Warning
            && c.rationale == "An unreliable narrator tag should be paired with a knowledge scope annotation declaring the source of unreliability."@
            && c.theory_source == Some("Booth 1961 Rhetoric of Fiction; Nünning 1999"@)
    } else if i == 18 {
        c.id == "postcolonial_implies_ethics_audit"@ && c.kind == ConstraintKind::Implies
            && c.antecedent == (TagPredicateView { key: "postcolonial"@, value: None })
            && c.consequent == (TagPredicateView { key: "ethics"@, value: None })
            && c.severity == ConstraintSeverity::Warning
            && c.rationale == "Postcolonial mode annotations should pair with a narrative ethics audit tag when deploying frameworks that carry representation stakes."@
            && c.theory_source == Some("Said 1978; Spivak 1988; Achebe 1977"@)
    } else if i == 19 {
        c.id == "visual_verbal_requires_panel_transition"@ && c.kind == ConstraintKind::Requires
            && c.antecedent == (TagPredicateView { key: "visual_verbal"@, value: None })
            && c.consequent == (TagPredicateView { key: "panel_transition"@, value: None })
            && c.severity == ConstraintSeverity::Error
            && c.rationale == "Visual-verbal relation (Chute) is specific to graphic narrative and should pair with a McCloud panel transition type."@
            && c.theory_source == Some("McCloud 1993 Understanding Comics; Chute 2016"@)
    } else {
        false
    }
}

/// A graph holding exactly the twenty core constraints, in order.
pub open spec fn is_seed_graph(cs: Seq<TagConstraintView>) -> bool {
    cs.len() == 20 && forall|i: int| 0 <= i < 20 ==> #[trigger] seed_rule(cs[i], i)
}

impl Default for ConstraintGraph {
    fn default() -> (r: Self)
        ensures
            is_seed_graph(r@),
    {
        ConstraintGraph { constraints: seed_constraints() }
    }
}

/// The twenty core constraints built into every `ConstraintGraph`.
///
/// These are grounded in named literary theories (cited in `theory_source`).
fn seed_constraints() -> (r: Vec<TagConstraint>)
    ensures
        is_seed_graph(r@.map_values(|c: TagConstraint| c@)),
{
    let mut v: Vec<TagConstraint> = Vec::new();
        v.push(
            TagConstraint::implies(
                "pd1_implies_consciousness",
                "psychic_distance",
                Some("1"),
                "consciousness",
                None,
                "Psychic distance 1 (deepest interiority) should specify a Cohn consciousness mode (quoted_monologue or narrated_monologue).",
                Some("Gardner 1983 psychic distance scale; Cohn 1978"),
            ),
        );
        v.push(
            TagConstraint::excludes(
                "pd5_excludes_quoted_monologue",
                "psychic_distance",
                Some("5"),
                "consciousness",
                Some("quoted_monologue"),
                "Psychic distance 5 (panoramic/summary) is incompatible with quoted_monologue (direct interior speech — a close interiority marker).",
                Some("Gardner 1983; Cohn 1978 Transparent Minds"),
            ),
        );
        v.push(
            TagConstraint::excludes(
                "pd5_excludes_narrated_monologue",
                "psychic_distance",
                Some("5"),
                "consciousness",
                Some("narrated_monologue"),
                "Psychic distance 5 does not support narrated monologue (deep FID). Use psychonarration instead.",
                Some("Gardner 1983; Cohn 1978"),
            ),
        );
        v.push(
            TagConstraint::implies(
                "pd1_implies_pov",
                "psychic_distance",
                Some("1"),
                "pov",
                None,
                "Deep interiority (PD 1) requires an explicit POV declaration.",
                Some("Gardner 1983"),
            ),
        );
        v.push(
            TagConstraint::correlates(
                "high_tension_correlates_short_sentences",
                "tension",
                None,
                "sentence_length",
                Some("short"),
                "High tension tends to correlate with shorter sentence rhythms.",
            ),
        );
        v.push(
            TagConstraint::requiring(
                "speech_act_requires_character",
                "speech_act",
                None,
                "character",
                None,
                "A speech_act annotation implies a character is performing the act; an active character tag should be present.",
                Some("Searle 1969 Speech Acts; Austin 1962 How to Do Things with Words"),
            ),
        );
        v.push(
            TagConstraint::implies(
                "male_gaze_implies_feminist_audit",
                "gaze",
                Some("male_gaze"),
                "feminist",
                None,
                "Deploying the male gaze warrants an explicit feminist narratology audit annotation to signal intentional critical engagement.",
                Some("Mulvey 1975; Lanser 1992"),
            ),
        );
        v.push(
            TagConstraint::implies(
                "metadiegetic_implies_embedded_thread",
                "diegetic_level",
                Some("metadiegetic"),
                "thread",
                None,
                "A metadiegetic level (embedded story within story) should reference the embedded thread via a thread tag.",
                Some("Genette 1980 Narrative Discourse"),
            ),
        );
        v.push(
            TagConstraint::implies(
                "autofiction_implies_first_person",
                "pact",
                Some("autofictional"),
                "pov",
                Some("first_person"),
                "Autofictional pact (Doubrovsky/Lejeune) conventionally uses first-person narration.",
                Some("Lejeune 1989; Doubrovsky 1977"),
            ),
        );
        v.push(
            TagConstraint::excludes(
                "autobiographical_pact_excludes_third_person",
                "pact",
                Some("autobiographical"),
                "pov",
                Some("third_person_omniscient"),
                "Third-person omniscient narration breaks the autobiographical pact (Lejeune name test).",
                Some("Lejeune 1989 On Autobiography"),
            ),
        );
        v.push(
            TagConstraint::implies(
                "second_person_experimental_implies_pov",
                "experimental",
                Some("second_person"),
                "pov",
                Some("second_person"),
                "Second-person experimental narration should declare second_person POV.",
                Some("McHale 1987 Postmodernist Fiction"),
            ),
        );
        v.push(
            TagConstraint::implies(
                "trauma_implies_recovery_stage",
                "trauma_mode",
                None,
                "recovery_stage",
                None,
                "Trauma mode annotations are more useful when paired with a Herman recovery stage for clinical-narratological completeness.",
                Some("Herman 1997 Trauma and Recovery"),
            ),
        );
        v.push(
            TagConstraint::requiring(
                "propp_requires_beat",
                "propp",
                None,
                "beat",
                None,
                "Propp morphological function annotations should be anchored to a structural beat for cross-reference validation.",
                Some("Propp 1928 Morphology of the Folktale"),
            ),
        );
        v.push(
            TagConstraint::implies(
                "analepsis_implies_beat",
                "temporal_order",
                Some("analepsis"),
                "beat",
                None,
                "Analepsis (flashback) should reference the beat or scene it returns to, for narrative time tracking.",
                Some("Genette 1980 §1 order"),
            ),
        );
        v.push(
            TagConstraint::requiring(
                "gaze_requires_character",
                "gaze",
                None,
                "character",
                None,
                "Gaze annotations (Mulvey's apparatus) require an active character context — whose gaze is operating?",
                Some("Mulvey 1975; Lacan mirror stage"),
            ),
        );
        v.push(
            TagConstraint::requiring(
                "actant_requires_entity",
                "actant",
                None,
                "character",
                None,
                "Actantial role (Greimas) should be paired with its character entity reference for cross-phase validation.",
                Some("Greimas 1966 Structural Semantics"),
            ),
        );
        v.push(
            TagConstraint::excludes(
                "third_person_omniscient_excludes_quoted_monologue",
                "pov",
                Some("third_person_omniscient"),
                "consciousness",
                Some("quoted_monologue"),
                "Omniscient narration rarely uses quoted interior monologue (Cohn's mode 1 — that is a first-person or close-third technique).",
                Some("Cohn 1978; Stanzel 1984"),
            ),
        );
        v.push(
            TagConstraint::implies(
                "unreliable_narrator_implies_knowledge_scope",
                "reliability",
                Some("unreliable"),
                "knowledge",
                None,
                "An unreliable narrator tag should be paired with a knowledge scope annotation declaring the source of unreliability.",
                Some("Booth 1961 Rhetoric of Fiction; Nünning 1999"),
            ),
        );
        v.push(
            TagConstraint::implies(
                "postcolonial_implies_ethics_audit",
                "postcolonial",
                None,
                "ethics",
                None,
                "Postcolonial mode annotations should pair with a narrative ethics audit tag when deploying frameworks that carry representation stakes.",
                Some("Said 1978; Spivak 1988; Achebe 1977"),
            ),
        );
        v.push(
            TagConstraint::requiring(
                "visual_verbal_requires_panel_transition",
                "visual_verbal",
                None,
                "panel_transition",
                None,
                "Visual-verbal relation (Chute) is specific to graphic narrative and should pair with a McCloud panel transition type.",
                Some("McCloud 1993 Understanding Comics; Chute 2016"),
            ),
        );
    let ghost cs = v@.map_values(|c: TagConstraint| c@);
    assert forall|i: int| 0 <= i < 20 implies #[trigger] seed_rule(cs[i], i) by {}
    v
}

// ── Laws of validation ────────────────────────────────────────────────────────

/// The pair `p` does not break constraint `c` within the tag set `pairs`:
/// if `p` triggers `c`, an `Implies` or `Requires` consequent is present and
/// an `Excludes` consequent is absent.
pub open spec fn satisfies(c: TagConstraintView, pairs: Seq<PairView>, p: PairView) -> bool {
    c.antecedent.matches(p.0, p.1) ==> match c.kind {
        ConstraintKind::Implies | ConstraintKind::Requires => any_match(c.consequent, pairs),
        ConstraintKind::Excludes => !any_match(c.consequent, pairs),
        ConstraintKind::Correlates => true,
    }
}

/// The tag set `pairs` is consistent with every constraint of `cs`.
pub open spec fn consistent(cs: Seq<TagConstraintView>, pairs: Seq<PairView>) -> bool {
    forall|m: int, i: int|
        0 <= m < cs.len() && 0 <= i < pairs.len() ==> #[trigger] satisfies(cs[m], pairs, pairs[i])
}

proof fn lemma_excluded_empty(c: TagConstraintView, k: Seq<char>, v: Seq<char>, pairs: Seq<PairView>)
    ensures
        excluded_violations(c, k, v, pairs).len() == 0 <==> !any_match(c.consequent, pairs),
    decreases pairs.len(),
{
    if pairs.len() > 0 {
        let init = pairs.drop_last();
        lemma_excluded_empty(c, k, v, init);
        if any_match(c.consequent, pairs) && !c.consequent.matches(pairs.last().0, pairs.last().1) {
            let j = choose|j: int| 0 <= j < pairs.len() && c.consequent.matches(#[trigger] pairs[j].0, pairs[j].1);
            assert(init[j] == pairs[j]);
        }
        if any_match(c.consequent, init) {
            let j = choose|j: int| 0 <= j < init.len() && c.consequent.matches(#[trigger] init[j].0, init[j].1);
            assert(init[j] == pairs[j]);
        }
    }
}

proof fn lemma_constraint_empty(c: TagConstraintView, pairs: Seq<PairView>, n: int)
    requires
        0 <= n <= pairs.len(),
    ensures
        constraint_violations(c, pairs, n).len() == 0 <==> forall|i: int|
            0 <= i < n ==> #[trigger] satisfies(c, pairs, pairs[i]),
    decreases n,
{
    if n > 0 {
        lemma_constraint_empty(c, pairs, n - 1);
        lemma_excluded_empty(c, pairs[n - 1].0, pairs[n - 1].1, pairs);
        assert(trigger_violations(c, pairs[n - 1].0, pairs[n - 1].1, pairs).len() == 0
            <==> satisfies(c, pairs, pairs[n - 1]));
    }
}

proof fn lemma_graph_empty(cs: Seq<TagConstraintView>, pairs: Seq<PairView>, m: int)
    requires
        0 <= m <= cs.len(),
    ensures
        graph_violations(cs, pairs, m).len() == 0 <==> forall|j: int, i: int|
            0 <= j < m && 0 <= i < pairs.len() ==> #[trigger] satisfies(cs[j], pairs, pairs[i]),
    decreases m,
{
    if m > 0 {
        lemma_graph_empty(cs, pairs, m - 1);
        lemma_constraint_empty(cs[m - 1], pairs, pairs.len() as int);
    }
}

/// `validate` reports nothing exactly when the tag set is consistent with
/// every registered constraint.
pub proof fn lemma_no_violations_iff_consistent(cs: Seq<TagConstraintView>, pairs: Seq<PairView>)
    ensures
        validation(cs, pairs).len() == 0 <==> consistent(cs, pairs),
{
    lemma_graph_empty(cs, pairs, cs.len() as int);
}

/// A violation `v` comes from constraint `c`, triggered by a pair of
/// `pairs` that matches its antecedent; it never comes from a `Correlates`
/// constraint.
pub open spec fn raised_by(c: TagConstraintView, pairs: Seq<PairView>, v: ViolationView) -> bool {
    &&& v.constraint_id == c.id
    &&& v.kind == c.kind
    &&& v.severity == c.severity
    &&& v.kind != ConstraintKind::Correlates
    &&& c.antecedent.matches(v.triggering_tag.0, v.triggering_tag.1)
    &&& exists|i: int| 0 <= i < pairs.len() && #[trigger] pairs[i] == v.triggering_tag
}

proof fn lemma_excluded_raised(
    c: TagConstraintView,
    pairs: Seq<PairView>,
    i: int,
    prefix: Seq<PairView>,
)
    requires
        0 <= i < pairs.len(),
        c.kind == ConstraintKind::Excludes,
        c.antecedent.matches(pairs[i].0, pairs[i].1),
    ensures
        forall|k: int| 0 <= k < excluded_violations(c, pairs[i].0, pairs[i].1, prefix).len()
            ==> raised_by(c, pairs, #[trigger] excluded_violations(c, pairs[i].0, pairs[i].1, prefix)[k]),
    decreases prefix.len(),
{
    if prefix.len() > 0 {
        lemma_excluded_raised(c, pairs, i, prefix.drop_last());
        let e = excluded_violations(c, pairs[i].0, pairs[i].1, prefix);
        let rest = excluded_violations(c, pairs[i].0, pairs[i].1, prefix.drop_last());
        assert(pairs[i] == (pairs[i].0, pairs[i].1));
        assert forall|k: int| 0 <= k < e.len() implies raised_by(c, pairs, #[trigger] e[k]) by {
            if k < rest.len() {
                assert(e[k] == rest[k]);
            } else {
                assert(e[k].triggering_tag == pairs[i]);
            }
        }
    }
}

proof fn lemma_constraint_raised(c: TagConstraintView, pairs: Seq<PairView>, n: int)
    requires
        0 <= n <= pairs.len(),
    ensures
        forall|k: int| 0 <= k < constraint_violations(c, pairs, n).len()
            ==> raised_by(c, pairs, #[trigger] constraint_violations(c, pairs, n)[k]),
    decreases n,
{
    if n > 0 {
        lemma_constraint_raised(c, pairs, n - 1);
        let i = n - 1;
        if c.antecedent.matches(pairs[i].0, pairs[i].1) && c.kind == ConstraintKind::Excludes {
            lemma_excluded_raised(c, pairs, i, pairs);
        }
        let prev = constraint_violations(c, pairs, n - 1);
        let t = trigger_violations(c, pairs[i].0, pairs[i].1, pairs);
        assert forall|k: int| 0 <= k < (prev + t).len() implies raised_by(c, pairs, #[trigger] (prev + t)[k]) by {
            if k >= prev.len() {
                assert((prev + t)[k] == t[k - prev.len()]);
                assert(pairs[i] == (pairs[i].0, pairs[i].1));
            }
        }
    }
}

proof fn lemma_graph_raised(cs: Seq<TagConstraintView>, pairs: Seq<PairView>, m: int)
    requires
        0 <= m <= cs.len(),
    ensures
        forall|k: int| 0 <= k < graph_violations(cs, pairs, m).len() ==> exists|j: int|
            0 <= j < m && raised_by(cs[j], pairs, #[trigger] graph_violations(cs, pairs, m)[k]),
    decreases m,
{
    if m > 0 {
        lemma_graph_raised(cs, pairs, m - 1);
        lemma_constraint_raised(cs[m - 1], pairs, pairs.len() as int);
        let prev = graph_violations(cs, pairs, m - 1);
        let t = constraint_violations(cs[m - 1], pairs, pairs.len() as int);
        assert forall|k: int| 0 <= k < (prev + t).len() implies exists|j: int|
            0 <= j < m && raised_by(cs[j], pairs, #[trigger] (prev + t)[k]) by {
            if k < prev.len() {
                assert((prev + t)[k] == prev[k]);
            } else {
                assert((prev + t)[k] == t[k - prev.len()]);
            }
        }
    }
}

/// Every reported violation names a registered constraint that raised it,
/// with that constraint's kind and severity, and a triggering pair of the
/// tag set that matches the constraint's antecedent.  `Correlates`
/// constraints are advisory and never produce a violation.
pub proof fn lemma_violations_are_raised(cs: Seq<TagConstraintView>, pairs: Seq<PairView>)
    ensures
        forall|k: int| 0 <= k < validation(cs, pairs).len() ==> exists|j: int|
            0 <= j < cs.len() && raised_by(cs[j], pairs, #[trigger] validation(cs, pairs)[k]),
{
    lemma_graph_raised(cs, pairs, cs.len() as int);
}

/// Every constraint carries the severity its builder gives to its kind.
pub open spec fn default_severities(cs: Seq<TagConstraintView>) -> bool {
    forall|j: int| 0 <= j < cs.len() ==> (#[trigger] cs[j]).severity == default_severity(cs[j].kind)
}

/// With builder severities, `Excludes` and `Requires` violations are errors,
/// `Implies` violations are warnings.
pub proof fn lemma_violation_severity_follows_kind(cs: Seq<TagConstraintView>, pairs: Seq<PairView>)
    requires
        default_severities(cs),
    ensures
        forall|k: int| 0 <= k < validation(cs, pairs).len() ==> (#[trigger] validation(cs, pairs)[k]).severity
            == default_severity(validation(cs, pairs)[k].kind),
{
    lemma_violations_are_raised(cs, pairs);
    assert forall|k: int| 0 <= k < validation(cs, pairs).len() implies (#[trigger] validation(cs, pairs)[k]).severity
        == default_severity(validation(cs, pairs)[k].kind) by {
        let j = choose|j: int| 0 <= j < cs.len() && raised_by(cs[j], pairs, validation(cs, pairs)[k]);
        assert(cs[j].severity == default_severity(cs[j].kind));
    }
}

/// The seed graph gives each constraint the severity of its kind.
pub proof fn lemma_seed_graph_default_severities(cs: Seq<TagConstraintView>)
    requires
        is_seed_graph(cs),
    ensures
        default_severities(cs),
{
    assert forall|j: int| 0 <= j < cs.len() implies (#[trigger] cs[j]).severity == default_severity(cs[j].kind) by {
        assert(seed_rule(cs[j], j));
    }
}

/// Adding a constraint keeps every earlier violation, in order, and appends
/// those of the new constraint.
pub proof fn lemma_push_extends_validation(
    cs: Seq<TagConstraintView>,
    c: TagConstraintView,
    pairs: Seq<PairView>,
)
    ensures
        validation(cs.push(c), pairs) == validation(cs, pairs) + constraint_violations(
            c,
            pairs,
            pairs.len() as int,
        ),
{
    lemma_graph_prefix(cs, c, pairs, cs.len() as int);
    assert(cs.push(c)[cs.len() as int] == c);
}

proof fn lemma_graph_prefix(cs: Seq<TagConstraintView>, c: TagConstraintView, pairs: Seq<PairView>, m: int)
    requires
        0 <= m <= cs.len(),
    ensures
        graph_violations(cs.push(c), pairs, m) == graph_violations(cs, pairs, m),
    decreases m,
{
    if m > 0 {
        lemma_graph_prefix(cs, c, pairs, m - 1);
        assert(cs.push(c)[m - 1] == cs[m - 1]);
    }
}

/// Scene validation of no paragraphs reports nothing.
pub proof fn lemma_scene_validation_empty(cs: Seq<TagConstraintView>)
    ensures
        scene_validation(cs, Seq::<ParagraphAnnotationsView>::empty()) == Seq::<ViolationView>::empty(),
{
}

/// Adding a paragraph to a scene keeps every earlier violation, in order, and
/// appends exactly the violations that validating the new paragraph on its
/// own reports, each with its constraint id prefixed `para_{i}/`, `i` being
/// the paragraph's position.
pub proof fn lemma_scene_validation_push(
    cs: Seq<TagConstraintView>,
    ps: Seq<ParagraphAnnotationsView>,
    p: ParagraphAnnotationsView,
)
    ensures
        scene_validation(cs, ps.push(p)) == scene_validation(cs, ps) + validation(
            cs,
            p.constraint_pairs(),
        ).map_values(
            |v: ViolationView|
                ViolationView { constraint_id: "para_"@ + decimal(ps.len()) + "/"@ + v.constraint_id, ..v },
        ),
{
    assert(ps.push(p).drop_last() =~= ps);
    assert(prefixed(validation(cs, p.constraint_pairs()), paragraph_prefix(ps.len())) =~= validation(
        cs,
        p.constraint_pairs(),
    ).map_values(
        |v: ViolationView|
            ViolationView { constraint_id: "para_"@ + decimal(ps.len()) + "/"@ + v.constraint_id, ..v },
    ));
}

/// The violations of a one-paragraph scene are that paragraph's violations,
/// each with its constraint id prefixed `para_0/`.
pub proof fn lemma_scene_validation_single(cs: Seq<TagConstraintView>, p: ParagraphAnnotationsView)
    ensures
        scene_validation(cs, seq![p]) == validation(cs, p.constraint_pairs()).map_values(
            |v: ViolationView| ViolationView { constraint_id: "para_0/"@ + v.constraint_id, ..v },
        ),
{
    reveal_strlit("para_");
    reveal_strlit("/");
    reveal_strlit("para_0/");
    assert(decimal(0) =~= seq!['0']);
    lemma_scene_validation_push(cs, Seq::empty(), p);
    assert(Seq::<ParagraphAnnotationsView>::empty().push(p) =~= seq![p]);
    assert(scene_validation(cs, Seq::<ParagraphAnnotationsView>::empty()) == Seq::<ViolationView>::empty());
    assert("para_"@ + decimal(0) + "/"@ =~= "para_0/"@);
    assert(Seq::<ViolationView>::empty() + validation(cs, p.constraint_pairs()).map_values(
        |v: ViolationView|
            ViolationView { constraint_id: "para_"@ + decimal(0) + "/"@ + v.constraint_id, ..v },
    ) =~= validation(cs, p.constraint_pairs()).map_values(
        |v: ViolationView| ViolationView { constraint_id: "para_0/"@ + v.constraint_id, ..v },
    ));
}

} // verus!
