//! Narrative profile validation.
//!
//! [`NarrativeValidator`] adds the narrative profile's checks on one artifact
//! (required context, references that must resolve, semantic consistency);
//! [`validate_corpus`] checks consistency across the artifacts of a corpus.
//! Each check belongs to a conformance level and runs only when that level is
//! requested.

use vstd::prelude::*;

use crate::corpus::{
    ArtifactRecord, EntityRecord, NarrativeCorpus, ParticipantStateRecord, StateValue,
    StructureRecord, UnitRecord,
};
use crate::text::{
    chars_of, debug_quoted, debug_string, decimal, find_white_space, find_white_space_in,
    lowercase, owned, push_decimal_usize, skip_whitespace, str_eq, string_from_chars,
    to_lowercase, trim_start,
};

verus! {

// ── Levels and issues ─────────────────────────────────────────────────────────

/// How deep a validation goes: schema shape, then references, then the
/// semantic checks that a lossless round trip relies on.
#[derive(Debug, Clone, Copy, PartialEq, Eq, Hash, Structural)]
pub enum ConformanceLevel {
    Schema,
    Referential,
    RoundTrip,
}

impl ConformanceLevel {
    /// The depth of the level, from 0.
    pub open spec fn depth(self) -> nat {
        match self {
            ConformanceLevel::Schema => 0,
            ConformanceLevel::Referential => 1,
            ConformanceLevel::RoundTrip => 2,
        }
    }

    /// Does this level include the checks of `other`?
    pub fn includes(self, other: ConformanceLevel) -> (r: bool)
        ensures
            r == (self.depth() >= other.depth()),
    {
        let a: u8 = match self {
            ConformanceLevel::Schema => 0,
            ConformanceLevel::Referential => 1,
            ConformanceLevel::RoundTrip => 2,
        };
        let b: u8 = match other {
            ConformanceLevel::Schema => 0,
            ConformanceLevel::Referential => 1,
            ConformanceLevel::RoundTrip => 2,
        };
        a >= b
    }
}

/// How serious a validation issue is.
#[derive(Debug, Clone, Copy, PartialEq, Eq, Hash, Structural)]
pub enum ValidationSeverity {
    Error,
    Warning,
}

/// One problem found by validation.
#[derive(Debug, Clone, PartialEq, Eq)]
pub struct ValidationIssue {
    pub severity: ValidationSeverity,
    /// A stable code such as `NL1:POV_MISSING`.
    pub code: String,
    pub message: String,
    /// Where in the artifact or corpus the problem lies.
    pub path: String,
}

/// The content of a [`ValidationIssue`].
pub struct IssueView {
    pub severity: ValidationSeverity,
    pub code: Seq<char>,
    pub message: Seq<char>,
    pub path: Seq<char>,
}

impl View for ValidationIssue {
    type V = IssueView;

    open spec fn view(&self) -> IssueView {
        IssueView {
            severity: self.severity,
            code: self.code@,
            message: self.message@,
            path: self.path@,
        }
    }
}

/// The contents of a list of issues.
pub open spec fn issues_view(v: Seq<ValidationIssue>) -> Seq<IssueView> {
    v.map_values(|i: ValidationIssue| i@)
}

/// A one-issue list.
pub open spec fn one_issue(
    severity: ValidationSeverity,
    code: Seq<char>,
    message: Seq<char>,
    path: Seq<char>,
) -> Seq<IssueView> {
    seq![IssueView { severity, code, message, path }]
}

fn make_issue(severity: ValidationSeverity, code: &str, message: String, path: String) -> (r:
    ValidationIssue)
    ensures
        r@ == (IssueView { severity, code: code@, message: message@, path: path@ }),
{
    ValidationIssue { severity, code: owned(code), message, path }
}

fn push_issue(issues: &mut Vec<ValidationIssue>, issue: ValidationIssue)
    ensures
        issues_view(final(issues)@) == issues_view(old(issues)@) + seq![issue@],
{
    let ghost prev = issues@;
    issues.push(issue);
    assert(issues@ == prev.push(issue));
    assert(issues_view(issues@) =~= issues_view(prev) + seq![issue@]);
}

/// `a + b + c` as a new string.
fn concat3(a: &str, b: &str, c: &str) -> (r: String)
    ensures
        r@ == a@ + b@ + c@,
{
    let mut s = owned(a);
    s.append(b);
    s.append(c);
    s
}

/// `a + b` as a new string.
fn concat2(a: &str, b: &str) -> (r: String)
    ensures
        r@ == a@ + b@,
{
    let mut s = owned(a);
    s.append(b);
    s
}

// ── Artifact checks ───────────────────────────────────────────────────────────

/// A context value that is absent or empty.
pub open spec fn missing(o: Option<String>) -> bool {
    match o {
        Some(s) => s@.len() == 0,
        None => true,
    }
}

/// Some entity has this id and type.
pub open spec fn declares_typed(es: Seq<EntityRecord>, id: Seq<char>, ty: Seq<char>) -> bool {
    exists|i: int| 0 <= i < es.len() && #[trigger] es[i].entity_id@ == id && es[i].entity_type@ == ty
}

/// Some entity has this id.
pub open spec fn declares_id(es: Seq<EntityRecord>, id: Seq<char>) -> bool {
    exists|i: int| 0 <= i < es.len() && #[trigger] es[i].entity_id@ == id
}

fn find_declared(es: &Vec<EntityRecord>, id: &str, ty: Option<&str>) -> (r: bool)
    ensures
        r == match ty {
            Some(t) => declares_typed(es@, id@, t@),
            None => declares_id(es@, id@),
        },
{
    let mut i: usize = 0;
    while i < es.len()
        invariant
            i <= es@.len(),
            forall|j: int|
                0 <= j < i ==> !(#[trigger] es@[j].entity_id@ == id@ && match ty {
                    Some(t) => es@[j].entity_type@ == t@,
                    None => true,
                }),
        decreases es.len() - i,
    {
        if str_eq(es[i].entity_id.as_str(), id) {
            let hit = match ty {
                Some(t) => str_eq(es[i].entity_type.as_str(), t),
                None => true,
            };
            if hit {
                return true;
            }
        }
        i = i + 1;
    }
    false
}

/// The issue raised when a context reference does not resolve to a declared
/// entity of the expected type: an error, or a warning when an entity of
/// another type has the id.
pub open spec fn reference_issues(
    es: Seq<EntityRecord>,
    value: Option<String>,
    what: Seq<char>,
    kind: Seq<char>,
    code: Seq<char>,
    path: Seq<char>,
) -> Seq<IssueView> {
    match value {
        None => Seq::empty(),
        Some(v) => if declares_typed(es, v@, kind) {
            Seq::empty()
        } else {
            one_issue(
                if declares_id(es, v@) {
                    ValidationSeverity::Warning
                } else {
                    ValidationSeverity::Error
                },
                code,
                what + " "@ + debug_quoted(v@) + " does not resolve to a declared "@ + kind
                    + " entity"@,
                path,
            )
        },
    }
}

/// The first whitespace-separated word of `s`, or nothing.
pub open spec fn first_word(s: Seq<char>) -> Seq<char> {
    let t = trim_start(s);
    match find_white_space(t) {
        Some(e) => t.take(e),
        None => t,
    }
}

/// Some step has an essential significance.
pub open spec fn has_essential(steps: Seq<crate::corpus::StepRecord>) -> bool {
    exists|i: int| 0 <= i < steps.len() && (#[trigger] steps[i]).essential
}

/// Some step's agent, lower-cased, is `agent`.
pub open spec fn agent_matches(steps: Seq<crate::corpus::StepRecord>, agent: Seq<char>) -> bool {
    exists|i: int| 0 <= i < steps.len() && lowercase((#[trigger] steps[i]).agent@) == agent
}

/// The semantic checks of a unit's structure.
pub open spec fn structure_issues(s: StructureRecord, upath: Seq<char>) -> Seq<IssueView> {
    let steps = s.steps@;
    let essential = if steps.len() > 0 && !has_essential(steps) {
        one_issue(
            ValidationSeverity::Warning,
            "NL3:NO_ESSENTIAL_STEP"@,
            "narrative unit should have at least one step with significance: essential"@,
            upath + ".structure.steps"@,
        )
    } else {
        Seq::empty()
    };
    let transition = match s.transition_values {
        Some((before, after)) => if before.json@ == after.json@ {
            one_issue(
                ValidationSeverity::Warning,
                "NL3:TRANSITION_UNCHANGED"@,
                "transition.before and transition.after have the same value — no change recorded"@,
                upath + ".structure.transition"@,
            )
        } else {
            Seq::empty()
        },
        None => Seq::empty(),
    };
    let fingerprint = match s.semantic_fingerprint {
        Some(fp) => {
            let agent = lowercase(first_word(fp@));
            if agent.len() > 0 && !agent_matches(steps, agent) && steps.len() > 0 {
                one_issue(
                    ValidationSeverity::Warning,
                    "NL3:FINGERPRINT_AGENT_MISMATCH"@,
                    "fingerprint agent "@ + debug_quoted(agent) + " does not match any step agent"@,
                    upath + ".structure.semantic_fingerprint"@,
                )
            } else {
                Seq::empty()
            }
        },
        None => Seq::empty(),
    };
    essential + transition + fingerprint
}

/// The path of unit `ui`.
pub open spec fn unit_path(ui: nat) -> Seq<char> {
    "units["@ + decimal(ui) + "]"@
}

/// The schema-level checks of a unit: it needs a focalizer and a POV.
pub open spec fn required_issues(u: UnitRecord, upath: Seq<char>) -> Seq<IssueView> {
    (if missing(u.focalizer) {
        one_issue(
            ValidationSeverity::Error,
            "NL1:FOCALIZER_MISSING"@,
            "narrative unit requires observables.context.focalizer"@,
            upath + ".observables.context.focalizer"@,
        )
    } else {
        Seq::empty()
    }) + (if missing(u.pov) {
        one_issue(
            ValidationSeverity::Error,
            "NL1:POV_MISSING"@,
            "narrative unit requires observables.context.pov"@,
            upath + ".observables.context.pov"@,
        )
    } else {
        Seq::empty()
    })
}

/// The referential checks of a unit: its focalizer names a declared
/// character and its setting a declared location.
pub open spec fn resolution_issues(es: Seq<EntityRecord>, u: UnitRecord, upath: Seq<char>) -> Seq<
    IssueView,
> {
    reference_issues(
        es,
        u.focalizer,
        "focalizer"@,
        "character"@,
        "NL2:FOCALIZER_NOT_CHARACTER"@,
        upath + ".observables.context.focalizer"@,
    ) + reference_issues(
        es,
        u.setting,
        "setting"@,
        "location"@,
        "NL2:SETTING_NOT_LOCATION"@,
        upath + ".observables.context.setting"@,
    )
}

/// The narrative checks of unit `ui` of an artifact declaring `es`, those of
/// each level included in `level`.
pub open spec fn unit_issues(
    es: Seq<EntityRecord>,
    level: ConformanceLevel,
    ui: nat,
    u: UnitRecord,
) -> Seq<IssueView> {
    let upath = unit_path(ui);
    required_issues(u, upath) + (if level.depth() >= 1 {
        resolution_issues(es, u, upath)
    } else {
        Seq::empty()
    }) + (if level.depth() >= 2 {
        match u.structure {
            Some(s) => structure_issues(s, upath),
            None => Seq::empty(),
        }
    } else {
        Seq::empty()
    })
}

/// The narrative checks of the first `n` units of an artifact, in order.
pub open spec fn artifact_issues(a: ArtifactRecord, level: ConformanceLevel, n: int) -> Seq<
    IssueView,
>
    decreases n,
{
    if n <= 0 {
        Seq::empty()
    } else {
        artifact_issues(a, level, n - 1) + unit_issues(
            a.entities@,
            level,
            (n - 1) as nat,
            a.units@[n - 1],
        )
    }
}

fn check_reference(
    issues: &mut Vec<ValidationIssue>,
    es: &Vec<EntityRecord>,
    value: &Option<String>,
    what: &str,
    kind: &str,
    code: &str,
    path: &String,
)
    ensures
        issues_view(final(issues)@) == issues_view(old(issues)@) + reference_issues(
            es@,
            *value,
            what@,
            kind@,
            code@,
            path@,
        ),
{
    match value {
        None => {
            assert(issues_view(issues@) =~= issues_view(old(issues)@) + Seq::<IssueView>::empty());
        },
        Some(v) => {
            if find_declared(es, v.as_str(), Some(kind)) {
                assert(issues_view(issues@) =~= issues_view(old(issues)@) + Seq::<
                    IssueView,
                >::empty());
            } else {
                let severity = if find_declared(es, v.as_str(), None) {
                    ValidationSeverity::Warning
                } else {
                    ValidationSeverity::Error
                };
                let mut message = owned(what);
                message.append(" ");
                let d = debug_string(v.as_str());
                message.append(d.as_str());
                message.append(" does not resolve to a declared ");
                message.append(kind);
                message.append(" entity");
                push_issue(issues, make_issue(severity, code, message, path.clone()));
            }
        },
    }
}

fn first_word_of(s: &str) -> (r: String)
    ensures
        r@ == first_word(s@),
{
    let v = chars_of(s);
    let n = v.len();
    assert(v@.subrange(0, n as int) =~= s@);
    let a = skip_whitespace(&v, 0, n);
    let ghost t = v@.subrange(a as int, n as int);
    proof {
        crate::text::lemma_find_white_space(t);
    }
    match find_white_space_in(&v, a, n) {
        Some(e) => {
            assert(t.take(e as int) =~= v@.subrange(a as int, a + e));
            string_from_chars(&v, a, a + e)
        },
        None => string_from_chars(&v, a, n),
    }
}

fn check_structure(issues: &mut Vec<ValidationIssue>, s: &StructureRecord, upath: &String)
    ensures
        issues_view(final(issues)@) == issues_view(old(issues)@) + structure_issues(*s, upath@),
{
    let ghost base = issues_view(issues@);
    let steps = &s.steps;
    // At least one essential step.
    let mut essential = false;
    let mut i: usize = 0;
    while i < steps.len()
        invariant
            i <= steps@.len(),
            essential == exists|j: int| 0 <= j < i && (#[trigger] steps@[j]).essential,
        decreases steps.len() - i,
    {
        if steps[i].essential {
            essential = true;
        }
        i = i + 1;
    }
    if steps.len() > 0 && !essential {
        push_issue(
            issues,
            make_issue(
                ValidationSeverity::Warning,
                "NL3:NO_ESSENTIAL_STEP",
                owned("narrative unit should have at least one step with significance: essential"),
                concat2(upath.as_str(), ".structure.steps"),
            ),
        );
    }
    let ghost after_essential = issues_view(issues@);
    // Transition consistency.
    match &s.transition_values {
        Some((before, after)) => {
            if str_eq(before.json.as_str(), after.json.as_str()) {
                push_issue(
                    issues,
                    make_issue(
                        ValidationSeverity::Warning,
                        "NL3:TRANSITION_UNCHANGED",
                        owned(
                            "transition.before and transition.after have the same value — no change recorded",
                        ),
                        concat2(upath.as_str(), ".structure.transition"),
                    ),
                );
            }
        },
        None => {},
    }
    let ghost after_transition = issues_view(issues@);
    // Fingerprint agent against the step agents.
    match &s.semantic_fingerprint {
        Some(fp) => {
            let word = first_word_of(fp.as_str());
            let agent = to_lowercase(word.as_str());
            if agent.as_str().unicode_len() > 0 {
                let mut matched = false;
                let mut k: usize = 0;
                while k < steps.len()
                    invariant
                        k <= steps@.len(),
                        matched == exists|j: int|
                            0 <= j < k && lowercase((#[trigger] steps@[j]).agent@) == agent@,
                    decreases steps.len() - k,
                {
                    let lower = to_lowercase(steps[k].agent.as_str());
                    if str_eq(lower.as_str(), agent.as_str()) {
                        matched = true;
                    }
                    k = k + 1;
                }
                if !matched && steps.len() > 0 {
                    let message = concat3(
                        "fingerprint agent ",
                        debug_string(agent.as_str()).as_str(),
                        " does not match any step agent",
                    );
                    push_issue(
                        issues,
                        make_issue(
                            ValidationSeverity::Warning,
                            "NL3:FINGERPRINT_AGENT_MISMATCH",
                            message,
                            concat2(upath.as_str(), ".structure.semantic_fingerprint"),
                        ),
                    );
                }
            }
        },
        None => {},
    }
    assert(issues_view(issues@) =~= base + structure_issues(*s, upath@));
}

fn check_required(issues: &mut Vec<ValidationIssue>, u: &UnitRecord, upath: &String)
    ensures
        issues_view(final(issues)@) == issues_view(old(issues)@) + required_issues(*u, upath@),
{
    let ghost base = issues_view(issues@);
    let focal_missing = match &u.focalizer {
        Some(f) => f.as_str().unicode_len() == 0,
        None => true,
    };
    if focal_missing {
        push_issue(
            issues,
            make_issue(
                ValidationSeverity::Error,
                "NL1:FOCALIZER_MISSING",
                owned("narrative unit requires observables.context.focalizer"),
                concat2(upath.as_str(), ".observables.context.focalizer"),
            ),
        );
    }
    let pov_missing = match &u.pov {
        Some(p) => p.as_str().unicode_len() == 0,
        None => true,
    };
    if pov_missing {
        push_issue(
            issues,
            make_issue(
                ValidationSeverity::Error,
                "NL1:POV_MISSING",
                owned("narrative unit requires observables.context.pov"),
                concat2(upath.as_str(), ".observables.context.pov"),
            ),
        );
    }
    assert(issues_view(issues@) =~= base + required_issues(*u, upath@));
}

fn check_resolution(
    issues: &mut Vec<ValidationIssue>,
    es: &Vec<EntityRecord>,
    u: &UnitRecord,
    upath: &String,
)
    ensures
        issues_view(final(issues)@) == issues_view(old(issues)@) + resolution_issues(
            es@,
            *u,
            upath@,
        ),
{
    let ghost base = issues_view(issues@);
    let focal_path = concat2(upath.as_str(), ".observables.context.focalizer");
    check_reference(
        issues,
        es,
        &u.focalizer,
        "focalizer",
        "character",
        "NL2:FOCALIZER_NOT_CHARACTER",
        &focal_path,
    );
    let setting_path = concat2(upath.as_str(), ".observables.context.setting");
    check_reference(
        issues,
        es,
        &u.setting,
        "setting",
        "location",
        "NL2:SETTING_NOT_LOCATION",
        &setting_path,
    );
    assert(issues_view(issues@) =~= base + resolution_issues(es@, *u, upath@));
}

fn check_unit(
    issues: &mut Vec<ValidationIssue>,
    es: &Vec<EntityRecord>,
    level: ConformanceLevel,
    ui: usize,
    u: &UnitRecord,
)
    ensures
        issues_view(final(issues)@) == issues_view(old(issues)@) + unit_issues(
            es@,
            level,
            ui as nat,
            *u,
        ),
{
    let ghost base = issues_view(issues@);
    let mut upath = owned("units[");
    push_decimal_usize(&mut upath, ui);
    upath.append("]");
    assert(upath@ == unit_path(ui as nat));
    check_required(issues, u, &upath);
    let ghost after_required = issues_view(issues@);
    if level.includes(ConformanceLevel::Referential) {
        check_resolution(issues, es, u, &upath);
    }
    let ghost after_resolution = issues_view(issues@);
    if level.includes(ConformanceLevel::RoundTrip) {
        match &u.structure {
            Some(s) => {
                check_structure(issues, s, &upath);
            },
            None => {},
        }
    }
    assert(issues_view(issues@) =~= base + unit_issues(es@, level, ui as nat, *u));
}

/// The stateless narrative profile validator.
#[derive(Debug, Clone, Copy, PartialEq, Eq, Structural)]
pub struct NarrativeValidator;

impl NarrativeValidator {
    /// The narrative profile's checks on one artifact, unit by unit: the
    /// required focalizer and POV (schema level), the focalizer and setting
    /// resolving to a character and a location (referential level), and the
    /// semantic checks of the unit's structure (round-trip level).
    pub fn validate(&self, artifact: &ArtifactRecord, level: ConformanceLevel) -> (r: Vec<
        ValidationIssue,
    >)
        ensures
            issues_view(r@) == artifact_issues(*artifact, level, artifact.units@.len() as int),
    {
        let mut issues: Vec<ValidationIssue> = Vec::new();
        let mut ui: usize = 0;
        while ui < artifact.units.len()
            invariant
                ui <= artifact.units@.len(),
                issues_view(issues@) == artifact_issues(*artifact, level, ui as int),
            decreases artifact.units.len() - ui,
        {
            check_unit(&mut issues, &artifact.entities, level, ui, &artifact.units[ui]);
            ui = ui + 1;
        }
        issues
    }

    /// The profile's check of a state value: `emotional` and `value_charge`
    /// states need a non-empty string.
    pub fn validate_state_value(&self, state_type: &str, value: &StateValue, path: &str) -> (r: Vec<
        ValidationIssue,
    >)
        ensures
            issues_view(r@) == state_value_issues(state_type@, *value, path@),
    {
        let mut issues: Vec<ValidationIssue> = Vec::new();
        let bad = match &value.text {
            Some(t) => t.as_str().unicode_len() == 0,
            None => true,
        };
        if str_eq(state_type, "emotional") {
            if bad {
                push_issue(
                    &mut issues,
                    make_issue(
                        ValidationSeverity::Error,
                        "NL1:EMOTIONAL_STATE_TYPE",
                        owned("state_type 'emotional' requires a non-empty string value"),
                        owned(path),
                    ),
                );
            }
        } else if str_eq(state_type, "value_charge") {
            if bad {
                push_issue(
                    &mut issues,
                    make_issue(
                        ValidationSeverity::Error,
                        "NL1:VALUE_CHARGE_TYPE",
                        owned("state_type 'value_charge' requires a non-empty string value"),
                        owned(path),
                    ),
                );
            }
        }
        assert(issues_view(issues@) =~= state_value_issues(state_type@, *value, path@));
        issues
    }
}

/// The issues of a state value: an `emotional` or `value_charge` state whose
/// value is not a non-empty string.
pub open spec fn state_value_issues(state_type: Seq<char>, value: StateValue, path: Seq<char>) -> Seq<
    IssueView,
> {
    let bad = missing(value.text);
    if state_type == "emotional"@ && bad {
        one_issue(
            ValidationSeverity::Error,
            "NL1:EMOTIONAL_STATE_TYPE"@,
            "state_type 'emotional' requires a non-empty string value"@,
            path,
        )
    } else if state_type == "value_charge"@ && bad {
        one_issue(
            ValidationSeverity::Error,
            "NL1:VALUE_CHARGE_TYPE"@,
            "state_type 'value_charge' requires a non-empty string value"@,
            path,
        )
    } else {
        Seq::empty()
    }
}

// ── Corpus-level checks ───────────────────────────────────────────────────────

/// The participant states of a list of units, unit by unit.
pub open spec fn states_of(units: Seq<UnitRecord>) -> Seq<ParticipantStateRecord>
    decreases units.len(),
{
    if units.len() == 0 {
        Seq::empty()
    } else {
        states_of(units.drop_last()) + units.last().participant_states@
    }
}

/// The value of the last post-state recorded for `entity` among `states`.
pub open spec fn last_post(states: Seq<ParticipantStateRecord>, entity: Seq<char>) -> Option<
    StateValue,
>
    decreases states.len(),
{
    if states.len() == 0 {
        None
    } else if states.last().entity_ref@ == entity && states.last().post_state is Some {
        Some(states.last().post_state->0.value)
    } else {
        last_post(states.drop_last(), entity)
    }
}

/// The continuity issue of one participant state of artifact `i`: its
/// pre-state differs from the last post-state the previous artifact recorded
/// for the same participant.
pub open spec fn gap_issue(
    i: nat,
    prev: ArtifactRecord,
    cur: ArtifactRecord,
    ps: ParticipantStateRecord,
) -> Seq<IssueView> {
    match ps.pre_state {
        None => Seq::empty(),
        Some(pre) => match last_post(states_of(prev.units@), ps.entity_ref@) {
            None => Seq::empty(),
            Some(v) => if v.json@ != pre.value.json@ {
                one_issue(
                    ValidationSeverity::Warning,
                    "NCC2:STATE_CONTINUITY_GAP"@,
                    "participant '"@ + ps.entity_ref@ + "': post_state in '"@ + prev.artifact_id@
                        + "' ("@ + v.json@ + ") does not match pre_state in '"@ + cur.artifact_id@
                        + "' ("@ + pre.value.json@ + ")"@,
                    "artifacts["@ + decimal(i) + "].participant_states[entity="@ + ps.entity_ref@
                        + "].pre_state"@,
                )
            } else {
                Seq::empty()
            },
        },
    }
}

/// The continuity issues of a list of participant states of artifact `i`.
pub open spec fn gap_issues(
    i: nat,
    prev: ArtifactRecord,
    cur: ArtifactRecord,
    states: Seq<ParticipantStateRecord>,
) -> Seq<IssueView>
    decreases states.len(),
{
    if states.len() == 0 {
        Seq::empty()
    } else {
        gap_issues(i, prev, cur, states.drop_last()) + gap_issue(i, prev, cur, states.last())
    }
}

/// The continuity issues of the first `n` artifacts, each artifact after the
/// first checked against the one before it.
pub open spec fn continuity_issues(arts: Seq<ArtifactRecord>, n: int) -> Seq<IssueView>
    decreases n,
{
    if n <= 1 {
        Seq::empty()
    } else {
        continuity_issues(arts, n - 1) + gap_issues(
            (n - 1) as nat,
            arts[n - 2],
            arts[n - 1],
            states_of(arts[n - 1].units@),
        )
    }
}

/// The issue of a protagonist wound slug that names no shared entity.
pub open spec fn wound_issues(arch: crate::corpus::StoryArchitecture, known: Seq<Seq<char>>) -> Seq<
    IssueView,
> {
    match arch.protagonist_arc {
        Some(arc) => match arc.wound_slug {
            Some(slug) => if known.contains(slug@) {
                Seq::empty()
            } else {
                one_issue(
                    ValidationSeverity::Warning,
                    "NCC1:WOUND_SLUG_UNRESOLVED"@,
                    "story_architecture.protagonist_arc.wound_slug"@ + " "@ + debug_quoted(slug@)
                        + " not found in shared_entities"@,
                    "story_architecture.protagonist_arc.wound_slug"@,
                )
            },
            None => Seq::empty(),
        },
        None => Seq::empty(),
    }
}

/// The issue of an antagonist entity slug that names no shared entity; the
/// abstract antagonists `self` and `society` need none.
pub open spec fn antagonist_issues(
    arch: crate::corpus::StoryArchitecture,
    known: Seq<Seq<char>>,
) -> Seq<IssueView> {
    match arch.antagonist {
        Some(ant) => match ant.entity_slug {
            Some(slug) => if slug@ != "self"@ && slug@ != "society"@ && !known.contains(slug@) {
                one_issue(
                    ValidationSeverity::Warning,
                    "NCC1:ANTAGONIST_SLUG_UNRESOLVED"@,
                    "story_architecture.antagonist.entity_slug"@ + " "@ + debug_quoted(slug@)
                        + " not found in shared_entities"@,
                    "story_architecture.antagonist.entity_slug"@,
                )
            } else {
                Seq::empty()
            },
            None => Seq::empty(),
        },
        None => Seq::empty(),
    }
}

/// The architecture's protagonist wound and antagonist slugs that name no
/// shared entity.
pub open spec fn architecture_issues(
    arch: crate::corpus::StoryArchitecture,
    known: Seq<Seq<char>>,
) -> Seq<IssueView> {
    wound_issues(arch, known) + antagonist_issues(arch, known)
}

/// The corpus-level issues at `level`: unresolved architecture slugs from the
/// referential level on, state-continuity gaps at the round-trip level.
pub open spec fn corpus_issues(c: NarrativeCorpus, level: ConformanceLevel) -> Seq<IssueView> {
    (if level.depth() >= 1 {
        match c.story_architecture {
            Some(arch) => architecture_issues(arch, crate::corpus::entity_ids(c.shared_entities@)),
            None => Seq::empty(),
        }
    } else {
        Seq::empty()
    }) + (if level.depth() >= 2 {
        continuity_issues(c.artifacts@, c.artifacts@.len() as int)
    } else {
        Seq::empty()
    })
}

pub(crate) fn flat_states(units: &Vec<UnitRecord>) -> (r: Vec<&ParticipantStateRecord>)
    ensures
        r@.map_values(|p: &ParticipantStateRecord| *p) == states_of(units@),
{
    let mut out: Vec<&ParticipantStateRecord> = Vec::new();
    let mut i: usize = 0;
    while i < units.len()
        invariant
            i <= units@.len(),
            out@.map_values(|p: &ParticipantStateRecord| *p) == states_of(units@.take(i as int)),
        decreases units.len() - i,
    {
        let states = &units[i].participant_states;
        let ghost base = out@.map_values(|p: &ParticipantStateRecord| *p);
        let mut j: usize = 0;
        while j < states.len()
            invariant
                j <= states@.len(),
                out@.map_values(|p: &ParticipantStateRecord| *p) == base + states@.take(j as int),
            decreases states.len() - j,
        {
            let ghost prev = out@;
            out.push(&states[j]);
            assert(out@ == prev.push(&states@[j as int]));
            assert(states@.take(j + 1) =~= states@.take(j as int).push(states@[j as int]));
            assert(out@.map_values(|p: &ParticipantStateRecord| *p) =~= prev.map_values(
                |p: &ParticipantStateRecord| *p,
            ).push(states@[j as int]));
            j = j + 1;
        }
        assert(states@.take(states@.len() as int) =~= states@);
        assert(units@.take(i + 1).drop_last() =~= units@.take(i as int));
        i = i + 1;
    }
    assert(units@.take(units@.len() as int) =~= units@);
    out
}

fn find_last_post<'a>(states: &Vec<&'a ParticipantStateRecord>, entity: &str) -> (r: Option<
    &'a StateValue,
>)
    ensures
        match r {
            Some(v) => last_post(states@.map_values(|p: &ParticipantStateRecord| *p), entity@)
                == Some(*v),
            None => last_post(states@.map_values(|p: &ParticipantStateRecord| *p), entity@) is None,
        },
{
    let ghost all = states@.map_values(|p: &ParticipantStateRecord| *p);
    let mut k = states.len();
    assert(all.take(k as int) =~= all);
    while k > 0
        invariant
            k <= states@.len(),
            all == states@.map_values(|p: &ParticipantStateRecord| *p),
            last_post(all, entity@) == last_post(all.take(k as int), entity@),
        decreases k,
    {
        assert(all.take(k as int).drop_last() =~= all.take(k - 1));
        let ps = states[k - 1];
        if str_eq(ps.entity_ref.as_str(), entity) {
            match &ps.post_state {
                Some(post) => {
                    return Some(&post.value);
                },
                None => {},
            }
        }
        k = k - 1;
    }
    None
}

fn check_gaps(
    issues: &mut Vec<ValidationIssue>,
    i: usize,
    prev: &ArtifactRecord,
    cur: &ArtifactRecord,
)
    ensures
        issues_view(final(issues)@) == issues_view(old(issues)@) + gap_issues(
            i as nat,
            *prev,
            *cur,
            states_of(cur.units@),
        ),
{
    let prev_states = flat_states(&prev.units);
    let cur_states = flat_states(&cur.units);
    let ghost cs = states_of(cur.units@);
    let ghost base = issues_view(issues@);
    let mut j: usize = 0;
    while j < cur_states.len()
        invariant
            j <= cur_states@.len(),
            cs == cur_states@.map_values(|p: &ParticipantStateRecord| *p),
            prev_states@.map_values(|p: &ParticipantStateRecord| *p) == states_of(prev.units@),
            issues_view(issues@) == base + gap_issues(i as nat, *prev, *cur, cs.take(j as int)),
        decreases cur_states.len() - j,
    {
        let ps = cur_states[j];
        assert(cs.take(j + 1).drop_last() =~= cs.take(j as int));
        assert(cs.take(j + 1).last() == *ps);
        let ghost before = issues_view(issues@);
        match &ps.pre_state {
            Some(pre) => {
                match find_last_post(&prev_states, ps.entity_ref.as_str()) {
                    Some(v) => {
                        if !str_eq(v.json.as_str(), pre.value.json.as_str()) {
                            let mut message = owned("participant '");
                            message.append(ps.entity_ref.as_str());
                            message.append("': post_state in '");
                            message.append(prev.artifact_id.as_str());
                            message.append("' (");
                            message.append(v.json.as_str());
                            message.append(") does not match pre_state in '");
                            message.append(cur.artifact_id.as_str());
                            message.append("' (");
                            message.append(pre.value.json.as_str());
                            message.append(")");
                            let mut path = owned("artifacts[");
                            push_decimal_usize(&mut path, i);
                            path.append("].participant_states[entity=");
                            path.append(ps.entity_ref.as_str());
                            path.append("].pre_state");
                            push_issue(
                                issues,
                                make_issue(
                                    ValidationSeverity::Warning,
                                    "NCC2:STATE_CONTINUITY_GAP",
                                    message,
                                    path,
                                ),
                            );
                        }
                    },
                    None => {},
                }
            },
            None => {},
        }
        assert(issues_view(issues@) =~= before + gap_issue(i as nat, *prev, *cur, *ps));
        j = j + 1;
    }
    assert(cs.take(cur_states@.len() as int) =~= cs);
}

fn check_slug(
    issues: &mut Vec<ValidationIssue>,
    known: &Vec<EntityRecord>,
    slug: &String,
    code: &str,
    field: &str,
)
    ensures
        issues_view(final(issues)@) == issues_view(old(issues)@) + if crate::corpus::entity_ids(
            known@,
        ).contains(slug@) {
            Seq::<IssueView>::empty()
        } else {
            one_issue(
                ValidationSeverity::Warning,
                code@,
                field@ + " "@ + debug_quoted(slug@) + " not found in shared_entities"@,
                field@,
            )
        },
{
    let found = find_declared(known, slug.as_str(), None);
    proof {
        let ids = crate::corpus::entity_ids(known@);
        if found {
            let k = choose|k: int| 0 <= k < known@.len() && #[trigger] known@[k].entity_id@ == slug@;
            assert(ids[k] == slug@);
        } else {
            assert forall|k: int| 0 <= k < ids.len() implies ids[k] != slug@ by {
                assert(ids[k] == known@[k].entity_id@);
            }
        }
    }
    if found {
        assert(issues_view(issues@) =~= issues_view(old(issues)@) + Seq::<IssueView>::empty());
    } else {
        let mut message = owned(field);
        message.append(" ");
        let d = debug_string(slug.as_str());
        message.append(d.as_str());
        message.append(" not found in shared_entities");
        push_issue(issues, make_issue(ValidationSeverity::Warning, code, message, owned(field)));
    }
}

/// Validates a corpus for cross-artifact consistency.
///
/// From the referential level on, the protagonist's wound slug and the
/// antagonist's entity slug of the story architecture must name shared
/// entities; at the round-trip level, each participant's pre-state in an
/// artifact must match its last post-state in the artifact before (a
/// warning only, since post-states are often missing).  An empty result
/// means the corpus passes every corpus-level check at `level`.
pub fn validate_corpus(corpus: &NarrativeCorpus, level: ConformanceLevel) -> (r: Vec<
    ValidationIssue,
>)
    ensures
        issues_view(r@) == corpus_issues(*corpus, level),
{
    let mut issues: Vec<ValidationIssue> = Vec::new();
    assert(issues_view(issues@) =~= Seq::<IssueView>::empty());
    if level.includes(ConformanceLevel::Referential) {
        match &corpus.story_architecture {
            Some(arch) => {
                let ghost known = crate::corpus::entity_ids(corpus.shared_entities@);
                match &arch.protagonist_arc {
                    Some(arc) => match &arc.wound_slug {
                        Some(slug) => {
                            check_slug(
                                &mut issues,
                                &corpus.shared_entities,
                                slug,
                                "NCC1:WOUND_SLUG_UNRESOLVED",
                                "story_architecture.protagonist_arc.wound_slug",
                            );
                        },
                        None => {},
                    },
                    None => {},
                }
                let ghost after_wound = issues_view(issues@);
                assert(after_wound =~= wound_issues(*arch, known));
                match &arch.antagonist {
                    Some(ant) => match &ant.entity_slug {
                        Some(slug) => {
                            if !str_eq(slug.as_str(), "self") && !str_eq(slug.as_str(), "society") {
                                check_slug(
                                    &mut issues,
                                    &corpus.shared_entities,
                                    slug,
                                    "NCC1:ANTAGONIST_SLUG_UNRESOLVED",
                                    "story_architecture.antagonist.entity_slug",
                                );
                            }
                        },
                        None => {},
                    },
                    None => {},
                }
                assert(issues_view(issues@) =~= after_wound + antagonist_issues(*arch, known));
            },
            None => {},
        }
    }
    let ghost after_architecture = issues_view(issues@);
    if level.includes(ConformanceLevel::RoundTrip) {
        let arts = &corpus.artifacts;
        let mut i: usize = 1;
        assert(continuity_issues(arts@, 1) =~= Seq::<IssueView>::empty());
        while i < arts.len()
            invariant
                1 <= i,
                i <= arts@.len() || i == 1,
                issues_view(issues@) == after_architecture + continuity_issues(arts@, i as int),
            decreases arts.len() - i,
        {
            check_gaps(&mut issues, i, &arts[i - 1], &arts[i]);
            i = i + 1;
        }
        proof {
            if arts@.len() == 0 {
                assert(continuity_issues(arts@, 0) =~= Seq::<IssueView>::empty());
                assert(continuity_issues(arts@, 1) =~= Seq::<IssueView>::empty());
                assert(issues_view(issues@) =~= after_architecture + continuity_issues(
                    arts@,
                    arts@.len() as int,
                ));
            } else {
                assert(i == arts@.len());
            }
        }
    }
    assert(issues_view(issues@) =~= corpus_issues(*corpus, level));
    issues
}

// ── Laws ──────────────────────────────────────────────────────────────────────

proof fn lemma_concat_contains(a: Seq<IssueView>, b: Seq<IssueView>, x: IssueView)
    ensures
        (a + b).contains(x) <==> (a.contains(x) || b.contains(x)),
{
    if (a + b).contains(x) {
        let i = choose|i: int| 0 <= i < (a + b).len() && (a + b)[i] == x;
        if i < a.len() {
            assert(a[i] == x);
        } else {
            assert(b[i - a.len()] == x);
        }
    }
    if a.contains(x) {
        let i = choose|i: int| 0 <= i < a.len() && a[i] == x;
        assert((a + b)[i] == x);
    }
    if b.contains(x) {
        let i = choose|i: int| 0 <= i < b.len() && b[i] == x;
        assert((a + b)[a.len() + i] == x);
    }
}

proof fn lemma_unit_issues_grow(
    es: Seq<EntityRecord>,
    shallow: ConformanceLevel,
    deep: ConformanceLevel,
    ui: nat,
    u: UnitRecord,
    x: IssueView,
)
    requires
        deep.depth() >= shallow.depth(),
        unit_issues(es, shallow, ui, u).contains(x),
    ensures
        unit_issues(es, deep, ui, u).contains(x),
{
    let upath = unit_path(ui);
    let r = required_issues(u, upath);
    let res = |l: ConformanceLevel| if l.depth() >= 1 {
        resolution_issues(es, u, upath)
    } else {
        Seq::<IssueView>::empty()
    };
    let st = |l: ConformanceLevel| if l.depth() >= 2 {
        match u.structure {
            Some(s) => structure_issues(s, upath),
            None => Seq::<IssueView>::empty(),
        }
    } else {
        Seq::<IssueView>::empty()
    };
    assert(unit_issues(es, shallow, ui, u) == r + res(shallow) + st(shallow));
    assert(unit_issues(es, deep, ui, u) == r + res(deep) + st(deep));
    lemma_concat_contains(r + res(shallow), st(shallow), x);
    lemma_concat_contains(r, res(shallow), x);
    lemma_concat_contains(r + res(deep), st(deep), x);
    lemma_concat_contains(r, res(deep), x);
}

/// Conformance levels are cumulative: every issue that validating an
/// artifact reports at one level is reported again at any deeper level.
pub proof fn lemma_artifact_issues_cumulative(
    a: ArtifactRecord,
    shallow: ConformanceLevel,
    deep: ConformanceLevel,
    n: int,
)
    requires
        deep.depth() >= shallow.depth(),
    ensures
        forall|x: IssueView| #[trigger]
            artifact_issues(a, shallow, n).contains(x) ==> artifact_issues(a, deep, n).contains(x),
    decreases n,
{
    if n > 0 {
        lemma_artifact_issues_cumulative(a, shallow, deep, n - 1);
        assert forall|x: IssueView| #[trigger]
            artifact_issues(a, shallow, n).contains(x) implies artifact_issues(a, deep, n).contains(x) by {
            let us = unit_issues(a.entities@, shallow, (n - 1) as nat, a.units@[n - 1]);
            let ud = unit_issues(a.entities@, deep, (n - 1) as nat, a.units@[n - 1]);
            lemma_concat_contains(artifact_issues(a, shallow, n - 1), us, x);
            lemma_concat_contains(artifact_issues(a, deep, n - 1), ud, x);
            if us.contains(x) {
                lemma_unit_issues_grow(a.entities@, shallow, deep, (n - 1) as nat, a.units@[n - 1], x);
            }
        }
    }
}

/// Conformance levels are cumulative for a corpus too: every issue reported
/// at one level is reported again at any deeper level.
pub proof fn lemma_corpus_issues_cumulative(
    c: NarrativeCorpus,
    shallow: ConformanceLevel,
    deep: ConformanceLevel,
)
    requires
        deep.depth() >= shallow.depth(),
    ensures
        forall|x: IssueView| #[trigger]
            corpus_issues(c, shallow).contains(x) ==> corpus_issues(c, deep).contains(x),
{
    let arch = |l: ConformanceLevel| if l.depth() >= 1 {
        match c.story_architecture {
            Some(arch) => architecture_issues(arch, crate::corpus::entity_ids(c.shared_entities@)),
            None => Seq::<IssueView>::empty(),
        }
    } else {
        Seq::<IssueView>::empty()
    };
    let cont = |l: ConformanceLevel| if l.depth() >= 2 {
        continuity_issues(c.artifacts@, c.artifacts@.len() as int)
    } else {
        Seq::<IssueView>::empty()
    };
    assert forall|x: IssueView| #[trigger]
        corpus_issues(c, shallow).contains(x) implies corpus_issues(c, deep).contains(x) by {
        assert(corpus_issues(c, shallow) == arch(shallow) + cont(shallow));
        assert(corpus_issues(c, deep) == arch(deep) + cont(deep));
        lemma_concat_contains(arch(shallow), cont(shallow), x);
        lemma_concat_contains(arch(deep), cont(deep), x);
    }
}

/// The fingerprint-agent check ignores case on both sides: when some step's
/// agent, lower-cased, is the lower-cased first word of the fingerprint, the
/// structure checks of the unit raise no `NL3:FINGERPRINT_AGENT_MISMATCH`.
pub proof fn lemma_fingerprint_agent_case_insensitive(s: StructureRecord, upath: Seq<char>, i: int)
    requires
        s.semantic_fingerprint is Some,
        0 <= i < s.steps@.len(),
        lowercase(s.steps@[i].agent@) == lowercase(first_word(s.semantic_fingerprint->0@)),
    ensures
        forall|k: int|
            0 <= k < structure_issues(s, upath).len() ==> (#[trigger] structure_issues(s, upath)[k]).code
                != "NL3:FINGERPRINT_AGENT_MISMATCH"@,
{
    reveal_strlit("NL3:FINGERPRINT_AGENT_MISMATCH");
    reveal_strlit("NL3:NO_ESSENTIAL_STEP");
    reveal_strlit("NL3:TRANSITION_UNCHANGED");
    assert("NL3:FINGERPRINT_AGENT_MISMATCH"@.len() != "NL3:NO_ESSENTIAL_STEP"@.len());
    assert("NL3:FINGERPRINT_AGENT_MISMATCH"@.len() != "NL3:TRANSITION_UNCHANGED"@.len());
    let agent = lowercase(first_word(s.semantic_fingerprint->0@));
    assert(agent_matches(s.steps@, agent));
}

proof fn lemma_artifact_issues_has(a: ArtifactRecord, level: ConformanceLevel, n: int, ui: int, x: IssueView)
    requires
        0 <= ui < n <= a.units@.len(),
        unit_issues(a.entities@, level, ui as nat, a.units@[ui]).contains(x),
    ensures
        artifact_issues(a, level, n).contains(x),
    decreases n,
{
    if ui < n - 1 {
        lemma_artifact_issues_has(a, level, n - 1, ui, x);
    }
    lemma_concat_contains(
        artifact_issues(a, level, n - 1),
        unit_issues(a.entities@, level, (n - 1) as nat, a.units@[n - 1]),
        x,
    );
}

/// At every level, a unit without a focalizer (absent or empty) is reported
/// as the error `NL1:FOCALIZER_MISSING` at that unit's focalizer path.
pub proof fn lemma_missing_focalizer_reported(a: ArtifactRecord, level: ConformanceLevel, ui: int)
    requires
        0 <= ui < a.units@.len(),
        a.units@[ui].focalizer matches Some(f) ==> f@.len() == 0,
    ensures
        artifact_issues(a, level, a.units@.len() as int).contains(
            IssueView {
                severity: ValidationSeverity::Error,
                code: "NL1:FOCALIZER_MISSING"@,
                message: "narrative unit requires observables.context.focalizer"@,
                path: "units["@ + decimal(ui as nat) + "]"@ + ".observables.context.focalizer"@,
            },
        ),
{
    let u = a.units@[ui];
    let upath = unit_path(ui as nat);
    let x = IssueView {
        severity: ValidationSeverity::Error,
        code: "NL1:FOCALIZER_MISSING"@,
        message: "narrative unit requires observables.context.focalizer"@,
        path: "units["@ + decimal(ui as nat) + "]"@ + ".observables.context.focalizer"@,
    };
    let r = required_issues(u, upath);
    assert(r[0] == x);
    let rest = (if level.depth() >= 1 {
        resolution_issues(a.entities@, u, upath)
    } else {
        Seq::empty()
    }) + (if level.depth() >= 2 {
        match u.structure {
            Some(s) => structure_issues(s, upath),
            None => Seq::empty(),
        }
    } else {
        Seq::empty()
    });
    assert(unit_issues(a.entities@, level, ui as nat, u) =~= r + rest);
    lemma_concat_contains(r, rest, x);
    lemma_artifact_issues_has(a, level, a.units@.len() as int, ui, x);
}

/// At every level, a unit without a POV (absent or empty) is reported as the
/// error `NL1:POV_MISSING` at that unit's POV path.
pub proof fn lemma_missing_pov_reported(a: ArtifactRecord, level: ConformanceLevel, ui: int)
    requires
        0 <= ui < a.units@.len(),
        a.units@[ui].pov matches Some(f) ==> f@.len() == 0,
    ensures
        artifact_issues(a, level, a.units@.len() as int).contains(
            IssueView {
                severity: ValidationSeverity::Error,
                code: "NL1:POV_MISSING"@,
                message: "narrative unit requires observables.context.pov"@,
                path: "units["@ + decimal(ui as nat) + "]"@ + ".observables.context.pov"@,
            },
        ),
{
    let u = a.units@[ui];
    let upath = unit_path(ui as nat);
    let x = IssueView {
        severity: ValidationSeverity::Error,
        code: "NL1:POV_MISSING"@,
        message: "narrative unit requires observables.context.pov"@,
        path: "units["@ + decimal(ui as nat) + "]"@ + ".observables.context.pov"@,
    };
    let f = if missing(u.focalizer) {
        one_issue(
            ValidationSeverity::Error,
            "NL1:FOCALIZER_MISSING"@,
            "narrative unit requires observables.context.focalizer"@,
            upath + ".observables.context.focalizer"@,
        )
    } else {
        Seq::empty()
    };
    let pv = one_issue(
        ValidationSeverity::Error,
        "NL1:POV_MISSING"@,
        "narrative unit requires observables.context.pov"@,
        upath + ".observables.context.pov"@,
    );
    assert(pv[0] == x);
    let r = required_issues(u, upath);
    assert(r == f + pv);
    lemma_concat_contains(f, pv, x);
    let rest = (if level.depth() >= 1 {
        resolution_issues(a.entities@, u, upath)
    } else {
        Seq::empty()
    }) + (if level.depth() >= 2 {
        match u.structure {
            Some(s) => structure_issues(s, upath),
            None => Seq::empty(),
        }
    } else {
        Seq::empty()
    });
    assert(unit_issues(a.entities@, level, ui as nat, u) =~= r + rest);
    lemma_concat_contains(r, rest, x);
    lemma_artifact_issues_has(a, level, a.units@.len() as int, ui, x);
}

} // verus!
