//! All enumerations used across the data model.
//!
//! Each vocabulary is a closed enumeration; its variants are written in
//! annotations, catalogs and schemas by their `snake_case` names (see
//! [`SnakeName`]).

use vstd::prelude::*;

use crate::text::{decimal, push_decimal, str_eq};
use crate::vocabulary::SnakeName;

verus! {

#[derive(Debug, Clone, Copy, PartialEq, Eq, Hash, Structural)]
pub enum Severity {
    Required,
    Recommended,
}

impl SnakeName for Severity {
    open spec fn spec_name(self) -> Seq<char> {
        match self {
            Severity::Required => "required"@,
            Severity::Recommended => "recommended"@,
        }
    }

    fn name(&self) -> (r: &'static str) {
        match self {
            Severity::Required => "required",
            Severity::Recommended => "recommended",
        }
    }

    fn from_name(s: &str) -> (r: Option<Self>) {
        let r = if str_eq(s, "required") {
            Some(Severity::Required)
        } else if str_eq(s, "recommended") {
            Some(Severity::Recommended)
        } else {
            None
        };
        r
    }

    proof fn lemma_name_injective(a: Self, b: Self) {
        reveal_strlit("required");
        reveal_strlit("recommended");
        assert("required"@.len() == 8);
        assert("recommended"@.len() == 11);
    }
}

#[derive(Debug, Clone, Copy, PartialEq, Eq, Hash, Structural)]
pub enum GateStatus {
    Green,
    Yellow,
    Red,
    Locked,
    Unknown,
}

impl SnakeName for GateStatus {
    open spec fn spec_name(self) -> Seq<char> {
        match self {
            GateStatus::Green => "green"@,
            GateStatus::Yellow => "yellow"@,
            GateStatus::Red => "red"@,
            GateStatus::Locked => "locked"@,
            GateStatus::Unknown => "unknown"@,
        }
    }

    fn name(&self) -> (r: &'static str) {
        match self {
            GateStatus::Green => "green",
            GateStatus::Yellow => "yellow",
            GateStatus::Red => "red",
            GateStatus::Locked => "locked",
            GateStatus::Unknown => "unknown",
        }
    }

    fn from_name(s: &str) -> (r: Option<Self>) {
        let r = if str_eq(s, "green") {
            Some(GateStatus::Green)
        } else if str_eq(s, "yellow") {
            Some(GateStatus::Yellow)
        } else if str_eq(s, "red") {
            Some(GateStatus::Red)
        } else if str_eq(s, "locked") {
            Some(GateStatus::Locked)
        } else if str_eq(s, "unknown") {
            Some(GateStatus::Unknown)
        } else {
            None
        };
        r
    }

    proof fn lemma_name_injective(a: Self, b: Self) {
        reveal_strlit("green");
        reveal_strlit("yellow");
        reveal_strlit("red");
        reveal_strlit("locked");
        reveal_strlit("unknown");
        assert("green"@.len() == 5);
        assert("yellow"@.len() == 6 && "yellow"@[0] == 'y');
        assert("red"@.len() == 3);
        assert("locked"@.len() == 6 && "locked"@[0] == 'l');
        assert("unknown"@.len() == 7);
    }
}

#[derive(Debug, Clone, Copy, PartialEq, Eq, Hash, Structural)]
pub enum SubPhaseStatus {
    Locked,
    Ready,
    InProgress,
    Complete,
}

impl SnakeName for SubPhaseStatus {
    open spec fn spec_name(self) -> Seq<char> {
        match self {
            SubPhaseStatus::Locked => "locked"@,
            SubPhaseStatus::Ready => "ready"@,
            SubPhaseStatus::InProgress => "in_progress"@,
            SubPhaseStatus::Complete => "complete"@,
        }
    }

    fn name(&self) -> (r: &'static str) {
        match self {
            SubPhaseStatus::Locked => "locked",
            SubPhaseStatus::Ready => "ready",
            SubPhaseStatus::InProgress => "in_progress",
            SubPhaseStatus::Complete => "complete",
        }
    }

    fn from_name(s: &str) -> (r: Option<Self>) {
        let r = if str_eq(s, "locked") {
            Some(SubPhaseStatus::Locked)
        } else if str_eq(s, "ready") {
            Some(SubPhaseStatus::Ready)
        } else if str_eq(s, "in_progress") {
            Some(SubPhaseStatus::InProgress)
        } else if str_eq(s, "complete") {
            Some(SubPhaseStatus::Complete)
        } else {
            None
        };
        r
    }

    proof fn lemma_name_injective(a: Self, b: Self) {
        reveal_strlit("locked");
        reveal_strlit("ready");
        reveal_strlit("in_progress");
        reveal_strlit("complete");
        assert("locked"@.len() == 6);
        assert("ready"@.len() == 5);
        assert("in_progress"@.len() == 11);
        assert("complete"@.len() == 8);
    }
}

#[derive(Debug, Clone, Copy, PartialEq, Eq, Hash, Structural)]
pub enum CheckType {
    FileExists,
    PlaceholderRatio,
    CheckboxCompletion,
    WordCountMin,
    TagCrossRef,
    EntityCoverage,
    SchemaValid,
    SourceCoverage,
}

impl SnakeName for CheckType {
    open spec fn spec_name(self) -> Seq<char> {
        match self {
            CheckType::FileExists => "file_exists"@,
            CheckType::PlaceholderRatio => "placeholder_ratio"@,
            CheckType::CheckboxCompletion => "checkbox_completion"@,
            CheckType::WordCountMin => "word_count_min"@,
            CheckType::TagCrossRef => "tag_cross_ref"@,
            CheckType::EntityCoverage => "entity_coverage"@,
            CheckType::SchemaValid => "schema_valid"@,
            CheckType::SourceCoverage => "source_coverage"@,
        }
    }

    fn name(&self) -> (r: &'static str) {
        match self {
            CheckType::FileExists => "file_exists",
            CheckType::PlaceholderRatio => "placeholder_ratio",
            CheckType::CheckboxCompletion => "checkbox_completion",
            CheckType::WordCountMin => "word_count_min",
            CheckType::TagCrossRef => "tag_cross_ref",
            CheckType::EntityCoverage => "entity_coverage",
            CheckType::SchemaValid => "schema_valid",
            CheckType::SourceCoverage => "source_coverage",
        }
    }

    fn from_name(s: &str) -> (r: Option<Self>) {
        let r = if str_eq(s, "file_exists") {
            Some(CheckType::FileExists)
        } else if str_eq(s, "placeholder_ratio") {
            Some(CheckType::PlaceholderRatio)
        } else if str_eq(s, "checkbox_completion") {
            Some(CheckType::CheckboxCompletion)
        } else if str_eq(s, "word_count_min") {
            Some(CheckType::WordCountMin)
        } else if str_eq(s, "tag_cross_ref") {
            Some(CheckType::TagCrossRef)
        } else if str_eq(s, "entity_coverage") {
            Some(CheckType::EntityCoverage)
        } else if str_eq(s, "schema_valid") {
            Some(CheckType::SchemaValid)
        } else if str_eq(s, "source_coverage") {
            Some(CheckType::SourceCoverage)
        } else {
            None
        };
        r
    }

    proof fn lemma_name_injective(a: Self, b: Self) {
        reveal_strlit("file_exists");
        reveal_strlit("placeholder_ratio");
        reveal_strlit("checkbox_completion");
        reveal_strlit("word_count_min");
        reveal_strlit("tag_cross_ref");
        reveal_strlit("entity_coverage");
        reveal_strlit("schema_valid");
        reveal_strlit("source_coverage");
        assert("file_exists"@.len() == 11);
        assert("placeholder_ratio"@.len() == 17);
        assert("checkbox_completion"@.len() == 19);
        assert("word_count_min"@.len() == 14);
        assert("tag_cross_ref"@.len() == 13);
        assert("entity_coverage"@.len() == 15 && "entity_coverage"@[0] == 'e');
        assert("schema_valid"@.len() == 12);
        assert("source_coverage"@.len() == 15 && "source_coverage"@[0] == 's');
    }
}

/// Fourteen canonical archetypes drawn from the character-archetypes YAML catalog.
#[derive(Debug, Clone, Copy, PartialEq, Eq, Hash, Structural)]
pub enum Archetype {
    Hero,
    Mentor,
    ThresholdGuardian,
    Herald,
    Shapeshifter,
    Shadow,
    Ally,
    Trickster,
    Everyman,
    Lover,
    Caregiver,
    Sage,
    Innocent,
    Rebel,
    Ruler,
    Outcast,
    Creator,
    Explorer,
    Magician,
    Jester,
    Outlaw,
}

impl SnakeName for Archetype {
    open spec fn spec_name(self) -> Seq<char> {
        match self {
            Archetype::Hero => "hero"@,
            Archetype::Mentor => "mentor"@,
            Archetype::ThresholdGuardian => "threshold_guardian"@,
            Archetype::Herald => "herald"@,
            Archetype::Shapeshifter => "shapeshifter"@,
            Archetype::Shadow => "shadow"@,
            Archetype::Ally => "ally"@,
            Archetype::Trickster => "trickster"@,
            Archetype::Everyman => "everyman"@,
            Archetype::Lover => "lover"@,
            Archetype::Caregiver => "caregiver"@,
            Archetype::Sage => "sage"@,
            Archetype::Innocent => "innocent"@,
            Archetype::Rebel => "rebel"@,
            Archetype::Ruler => "ruler"@,
            Archetype::Outcast => "outcast"@,
            Archetype::Creator => "creator"@,
            Archetype::Explorer => "explorer"@,
            Archetype::Magician => "magician"@,
            Archetype::Jester => "jester"@,
            Archetype::Outlaw => "outlaw"@,
        }
    }

    fn name(&self) -> (r: &'static str) {
        match self {
            Archetype::Hero => "hero",
            Archetype::Mentor => "mentor",
            Archetype::ThresholdGuardian => "threshold_guardian",
            Archetype::Herald => "herald",
            Archetype::Shapeshifter => "shapeshifter",
            Archetype::Shadow => "shadow",
            Archetype::Ally => "ally",
            Archetype::Trickster => "trickster",
            Archetype::Everyman => "everyman",
            Archetype::Lover => "lover",
            Archetype::Caregiver => "caregiver",
            Archetype::Sage => "sage",
            Archetype::Innocent => "innocent",
            Archetype::Rebel => "rebel",
            Archetype::Ruler => "ruler",
            Archetype::Outcast => "outcast",
            Archetype::Creator => "creator",
            Archetype::Explorer => "explorer",
            Archetype::Magician => "magician",
            Archetype::Jester => "jester",
            Archetype::Outlaw => "outlaw",
        }
    }

    fn from_name(s: &str) -> (r: Option<Self>) {
        let r = if str_eq(s, "hero") {
            Some(Archetype::Hero)
        } else if str_eq(s, "mentor") {
            Some(Archetype::Mentor)
        } else if str_eq(s, "threshold_guardian") {
            Some(Archetype::ThresholdGuardian)
        } else if str_eq(s, "herald") {
            Some(Archetype::Herald)
        } else if str_eq(s, "shapeshifter") {
            Some(Archetype::Shapeshifter)
        } else if str_eq(s, "shadow") {
            Some(Archetype::Shadow)
        } else if str_eq(s, "ally") {
            Some(Archetype::Ally)
        } else if str_eq(s, "trickster") {
            Some(Archetype::Trickster)
        } else if str_eq(s, "everyman") {
            Some(Archetype::Everyman)
        } else if str_eq(s, "lover") {
            Some(Archetype::Lover)
        } else if str_eq(s, "caregiver") {
            Some(Archetype::Caregiver)
        } else if str_eq(s, "sage") {
            Some(Archetype::Sage)
        } else if str_eq(s, "innocent") {
            Some(Archetype::Innocent)
        } else if str_eq(s, "rebel") {
            Some(Archetype::Rebel)
        } else if str_eq(s, "ruler") {
            Some(Archetype::Ruler)
        } else if str_eq(s, "outcast") {
            Some(Archetype::Outcast)
        } else if str_eq(s, "creator") {
            Some(Archetype::Creator)
        } else if str_eq(s, "explorer") {
            Some(Archetype::Explorer)
        } else if str_eq(s, "magician") {
            Some(Archetype::Magician)
        } else if str_eq(s, "jester") {
            Some(Archetype::Jester)
        } else if str_eq(s, "outlaw") {
            Some(Archetype::Outlaw)
        } else {
            None
        };
        r
    }

    proof fn lemma_name_injective(a: Self, b: Self) {
        reveal_strlit("hero");
        reveal_strlit("mentor");
        reveal_strlit("threshold_guardian");
        reveal_strlit("herald");
        reveal_strlit("shapeshifter");
        reveal_strlit("shadow");
        reveal_strlit("ally");
        reveal_strlit("trickster");
        reveal_strlit("everyman");
        reveal_strlit("lover");
        reveal_strlit("caregiver");
        reveal_strlit("sage");
        reveal_strlit("innocent");
        reveal_strlit("rebel");
        reveal_strlit("ruler");
        reveal_strlit("outcast");
        reveal_strlit("creator");
        reveal_strlit("explorer");
        reveal_strlit("magician");
        reveal_strlit("jester");
        reveal_strlit("outlaw");
        assert("hero"@.len() == 4 && "hero"@[0] == 'h');
        assert("mentor"@.len() == 6 && "mentor"@[0] == 'm');
        assert("threshold_guardian"@.len() == 18);
        assert("herald"@.len() == 6 && "herald"@[0] == 'h');
        assert("shapeshifter"@.len() == 12);
        assert("shadow"@.len() == 6 && "shadow"@[0] == 's');
        assert("ally"@.len() == 4 && "ally"@[0] == 'a');
        assert("trickster"@.len() == 9 && "trickster"@[0] == 't');
        assert("everyman"@.len() == 8 && "everyman"@[0] == 'e' && "everyman"@[1] == 'v');
        assert("lover"@.len() == 5 && "lover"@[0] == 'l');
        assert("caregiver"@.len() == 9 && "caregiver"@[0] == 'c');
        assert("sage"@.len() == 4 && "sage"@[0] == 's');
        assert("innocent"@.len() == 8 && "innocent"@[0] == 'i');
        assert("rebel"@.len() == 5 && "rebel"@[0] == 'r' && "rebel"@[1] == 'e');
        assert("ruler"@.len() == 5 && "ruler"@[0] == 'r' && "ruler"@[1] == 'u');
        assert("outcast"@.len() == 7 && "outcast"@[0] == 'o');
        assert("creator"@.len() == 7 && "creator"@[0] == 'c');
        assert("explorer"@.len() == 8 && "explorer"@[0] == 'e' && "explorer"@[1] == 'x');
        assert("magician"@.len() == 8 && "magician"@[0] == 'm');
        assert("jester"@.len() == 6 && "jester"@[0] == 'j');
        assert("outlaw"@.len() == 6 && "outlaw"@[0] == 'o');
    }
}

/// Coarse wound category — the 13 legacy umbrella terms.
///
/// Use `Wound::category()` to map any specific `Wound` variant to its
/// broad `WoundCategory`.  This enum exists so catalog-level grouping and
/// UI filtering can work at a higher level of abstraction than the full
/// 23-variant `Wound` list.
#[derive(Debug, Clone, Copy, PartialEq, Eq, Hash, Structural)]
pub enum WoundCategory {
    Abandonment,
    Betrayal,
    GuiltAndFailure,
    TraumaAndAbuse,
    Shame,
    Grief,
    TrustViolation,
    Powerlessness,
    IdentityRejection,
    Injustice,
    Neglect,
    SurvivorGuilt,
    Displacement,
}

impl SnakeName for WoundCategory {
    open spec fn spec_name(self) -> Seq<char> {
        match self {
            WoundCategory::Abandonment => "abandonment"@,
            WoundCategory::Betrayal => "betrayal"@,
            WoundCategory::GuiltAndFailure => "guilt_and_failure"@,
            WoundCategory::TraumaAndAbuse => "trauma_and_abuse"@,
            WoundCategory::Shame => "shame"@,
            WoundCategory::Grief => "grief"@,
            WoundCategory::TrustViolation => "trust_violation"@,
            WoundCategory::Powerlessness => "powerlessness"@,
            WoundCategory::IdentityRejection => "identity_rejection"@,
            WoundCategory::Injustice => "injustice"@,
            WoundCategory::Neglect => "neglect"@,
            WoundCategory::SurvivorGuilt => "survivor_guilt"@,
            WoundCategory::Displacement => "displacement"@,
        }
    }

    fn name(&self) -> (r: &'static str) {
        match self {
            WoundCategory::Abandonment => "abandonment",
            WoundCategory::Betrayal => "betrayal",
            WoundCategory::GuiltAndFailure => "guilt_and_failure",
            WoundCategory::TraumaAndAbuse => "trauma_and_abuse",
            WoundCategory::Shame => "shame",
            WoundCategory::Grief => "grief",
            WoundCategory::TrustViolation => "trust_violation",
            WoundCategory::Powerlessness => "powerlessness",
            WoundCategory::IdentityRejection => "identity_rejection",
            WoundCategory::Injustice => "injustice",
            WoundCategory::Neglect => "neglect",
            WoundCategory::SurvivorGuilt => "survivor_guilt",
            WoundCategory::Displacement => "displacement",
        }
    }

    fn from_name(s: &str) -> (r: Option<Self>) {
        let r = if str_eq(s, "abandonment") {
            Some(WoundCategory::Abandonment)
        } else if str_eq(s, "betrayal") {
            Some(WoundCategory::Betrayal)
        } else if str_eq(s, "guilt_and_failure") {
            Some(WoundCategory::GuiltAndFailure)
        } else if str_eq(s, "trauma_and_abuse") {
            Some(WoundCategory::TraumaAndAbuse)
        } else if str_eq(s, "shame") {
            Some(WoundCategory::Shame)
        } else if str_eq(s, "grief") {
            Some(WoundCategory::Grief)
        } else if str_eq(s, "trust_violation") {
            Some(WoundCategory::TrustViolation)
        } else if str_eq(s, "powerlessness") {
            Some(WoundCategory::Powerlessness)
        } else if str_eq(s, "identity_rejection") {
            Some(WoundCategory::IdentityRejection)
        } else if str_eq(s, "injustice") {
            Some(WoundCategory::Injustice)
        } else if str_eq(s, "neglect") {
            Some(WoundCategory::Neglect)
        } else if str_eq(s, "survivor_guilt") {
            Some(WoundCategory::SurvivorGuilt)
        } else if str_eq(s, "displacement") {
            Some(WoundCategory::Displacement)
        } else {
            None
        };
        r
    }

    proof fn lemma_name_injective(a: Self, b: Self) {
        reveal_strlit("abandonment");
        reveal_strlit("betrayal");
        reveal_strlit("guilt_and_failure");
        reveal_strlit("trauma_and_abuse");
        reveal_strlit("shame");
        reveal_strlit("grief");
        reveal_strlit("trust_violation");
        reveal_strlit("powerlessness");
        reveal_strlit("identity_rejection");
        reveal_strlit("injustice");
        reveal_strlit("neglect");
        reveal_strlit("survivor_guilt");
        reveal_strlit("displacement");
        assert("abandonment"@.len() == 11);
        assert("betrayal"@.len() == 8);
        assert("guilt_and_failure"@.len() == 17);
        assert("trauma_and_abuse"@.len() == 16);
        assert("shame"@.len() == 5 && "shame"@[0] == 's');
        assert("grief"@.len() == 5 && "grief"@[0] == 'g');
        assert("trust_violation"@.len() == 15);
        assert("powerlessness"@.len() == 13);
        assert("identity_rejection"@.len() == 18);
        assert("injustice"@.len() == 9);
        assert("neglect"@.len() == 7);
        assert("survivor_guilt"@.len() == 14);
        assert("displacement"@.len() == 12);
    }
}

/// Twenty-three wound variants: 13 legacy umbrella terms plus 10 catalog-native
/// fine-grained subtypes.  Use `Wound::category()` to get the umbrella group.
#[derive(Debug, Clone, Copy, PartialEq, Eq, Hash, Structural)]
pub enum Wound {
    /// Parental or caregiver abandonment
    Abandonment,
    /// Betrayal by a trusted person
    Betrayal,
    /// Failure to protect someone dependent
    GuiltAndFailure,
    /// Violation of bodily or psychological safety
    TraumaAndAbuse,
    /// Persistent devaluation of self-worth
    Shame,
    /// Repeated or profound loss
    Grief,
    /// Fundamental mistrust of others' motives
    TrustViolation,
    /// Powerlessness in the face of authority or circumstance
    Powerlessness,
    /// Rejection of core identity
    IdentityRejection,
    /// Unfair treatment without recourse
    Injustice,
    /// Insufficient nurturing or care
    Neglect,
    /// Survivor's guilt or complicity in harm to others
    SurvivorGuilt,
    /// Isolation — belonging nowhere
    Displacement,
    ParentalAbandonment,
    RomanticAbandonment,
    SocialExile,
    InstitutionalBetrayal,
    PublicHumiliation,
    IdentityShame,
    LossOfPurpose,
    CatastrophicFailure,
    MoralCompromise,
    Smothering,
}

impl SnakeName for Wound {
    open spec fn spec_name(self) -> Seq<char> {
        match self {
            Wound::Abandonment => "abandonment"@,
            Wound::Betrayal => "betrayal"@,
            Wound::GuiltAndFailure => "guilt_and_failure"@,
            Wound::TraumaAndAbuse => "trauma_and_abuse"@,
            Wound::Shame => "shame"@,
            Wound::Grief => "grief"@,
            Wound::TrustViolation => "trust_violation"@,
            Wound::Powerlessness => "powerlessness"@,
            Wound::IdentityRejection => "identity_rejection"@,
            Wound::Injustice => "injustice"@,
            Wound::Neglect => "neglect"@,
            Wound::SurvivorGuilt => "survivor_guilt"@,
            Wound::Displacement => "displacement"@,
            Wound::ParentalAbandonment => "parental_abandonment"@,
            Wound::RomanticAbandonment => "romantic_abandonment"@,
            Wound::SocialExile => "social_exile"@,
            Wound::InstitutionalBetrayal => "institutional_betrayal"@,
            Wound::PublicHumiliation => "public_humiliation"@,
            Wound::IdentityShame => "identity_shame"@,
            Wound::LossOfPurpose => "loss_of_purpose"@,
            Wound::CatastrophicFailure => "catastrophic_failure"@,
            Wound::MoralCompromise => "moral_compromise"@,
            Wound::Smothering => "smothering"@,
        }
    }

    fn name(&self) -> (r: &'static str) {
        match self {
            Wound::Abandonment => "abandonment",
            Wound::Betrayal => "betrayal",
            Wound::GuiltAndFailure => "guilt_and_failure",
            Wound::TraumaAndAbuse => "trauma_and_abuse",
            Wound::Shame => "shame",
            Wound::Grief => "grief",
            Wound::TrustViolation => "trust_violation",
            Wound::Powerlessness => "powerlessness",
            Wound::IdentityRejection => "identity_rejection",
            Wound::Injustice => "injustice",
            Wound::Neglect => "neglect",
            Wound::SurvivorGuilt => "survivor_guilt",
            Wound::Displacement => "displacement",
            Wound::ParentalAbandonment => "parental_abandonment",
            Wound::RomanticAbandonment => "romantic_abandonment",
            Wound::SocialExile => "social_exile",
            Wound::InstitutionalBetrayal => "institutional_betrayal",
            Wound::PublicHumiliation => "public_humiliation",
            Wound::IdentityShame => "identity_shame",
            Wound::LossOfPurpose => "loss_of_purpose",
            Wound::CatastrophicFailure => "catastrophic_failure",
            Wound::MoralCompromise => "moral_compromise",
            Wound::Smothering => "smothering",
        }
    }

    fn from_name(s: &str) -> (r: Option<Self>) {
        let r = if str_eq(s, "abandonment") {
            Some(Wound::Abandonment)
        } else if str_eq(s, "betrayal") {
            Some(Wound::Betrayal)
        } else if str_eq(s, "guilt_and_failure") {
            Some(Wound::GuiltAndFailure)
        } else if str_eq(s, "trauma_and_abuse") {
            Some(Wound::TraumaAndAbuse)
        } else if str_eq(s, "shame") {
            Some(Wound::Shame)
        } else if str_eq(s, "grief") {
            Some(Wound::Grief)
        } else if str_eq(s, "trust_violation") {
            Some(Wound::TrustViolation)
        } else if str_eq(s, "powerlessness") {
            Some(Wound::Powerlessness)
        } else if str_eq(s, "identity_rejection") {
            Some(Wound::IdentityRejection)
        } else if str_eq(s, "injustice") {
            Some(Wound::Injustice)
        } else if str_eq(s, "neglect") {
            Some(Wound::Neglect)
        } else if str_eq(s, "survivor_guilt") {
            Some(Wound::SurvivorGuilt)
        } else if str_eq(s, "displacement") {
            Some(Wound::Displacement)
        } else if str_eq(s, "parental_abandonment") {
            Some(Wound::ParentalAbandonment)
        } else if str_eq(s, "romantic_abandonment") {
            Some(Wound::RomanticAbandonment)
        } else if str_eq(s, "social_exile") {
            Some(Wound::SocialExile)
        } else if str_eq(s, "institutional_betrayal") {
            Some(Wound::InstitutionalBetrayal)
        } else if str_eq(s, "public_humiliation") {
            Some(Wound::PublicHumiliation)
        } else if str_eq(s, "identity_shame") {
            Some(Wound::IdentityShame)
        } else if str_eq(s, "loss_of_purpose") {
            Some(Wound::LossOfPurpose)
        } else if str_eq(s, "catastrophic_failure") {
            Some(Wound::CatastrophicFailure)
        } else if str_eq(s, "moral_compromise") {
            Some(Wound::MoralCompromise)
        } else if str_eq(s, "smothering") {
            Some(Wound::Smothering)
        } else {
            None
        };
        r
    }

    proof fn lemma_name_injective(a: Self, b: Self) {
        reveal_strlit("abandonment");
        reveal_strlit("betrayal");
        reveal_strlit("guilt_and_failure");
        reveal_strlit("trauma_and_abuse");
        reveal_strlit("shame");
        reveal_strlit("grief");
        reveal_strlit("trust_violation");
        reveal_strlit("powerlessness");
        reveal_strlit("identity_rejection");
        reveal_strlit("injustice");
        reveal_strlit("neglect");
        reveal_strlit("survivor_guilt");
        reveal_strlit("displacement");
        reveal_strlit("parental_abandonment");
        reveal_strlit("romantic_abandonment");
        reveal_strlit("social_exile");
        reveal_strlit("institutional_betrayal");
        reveal_strlit("public_humiliation");
        reveal_strlit("identity_shame");
        reveal_strlit("loss_of_purpose");
        reveal_strlit("catastrophic_failure");
        reveal_strlit("moral_compromise");
        reveal_strlit("smothering");
        assert("abandonment"@.len() == 11);
        assert("betrayal"@.len() == 8);
        assert("guilt_and_failure"@.len() == 17);
        assert("trauma_and_abuse"@.len() == 16 && "trauma_and_abuse"@[0] == 't');
        assert("shame"@.len() == 5 && "shame"@[0] == 's');
        assert("grief"@.len() == 5 && "grief"@[0] == 'g');
        assert("trust_violation"@.len() == 15 && "trust_violation"@[0] == 't');
        assert("powerlessness"@.len() == 13);
        assert("identity_rejection"@.len() == 18 && "identity_rejection"@[0] == 'i');
        assert("injustice"@.len() == 9);
        assert("neglect"@.len() == 7);
        assert("survivor_guilt"@.len() == 14 && "survivor_guilt"@[0] == 's');
        assert("displacement"@.len() == 12 && "displacement"@[0] == 'd');
        assert("parental_abandonment"@.len() == 20 && "parental_abandonment"@[0] == 'p');
        assert("romantic_abandonment"@.len() == 20 && "romantic_abandonment"@[0] == 'r');
        assert("social_exile"@.len() == 12 && "social_exile"@[0] == 's');
        assert("institutional_betrayal"@.len() == 22);
        assert("public_humiliation"@.len() == 18 && "public_humiliation"@[0] == 'p');
        assert("identity_shame"@.len() == 14 && "identity_shame"@[0] == 'i');
        assert("loss_of_purpose"@.len() == 15 && "loss_of_purpose"@[0] == 'l');
        assert("catastrophic_failure"@.len() == 20 && "catastrophic_failure"@[0] == 'c');
        assert("moral_compromise"@.len() == 16 && "moral_compromise"@[0] == 'm');
        assert("smothering"@.len() == 10);
    }
}

/// Nine-cell moral alignment grid.
/// These variants use a neutral slug that maps to both; display strings in catalog data.
#[derive(Debug, Clone, Copy, PartialEq, Eq, Hash, Structural)]
pub enum Alignment {
    LawfulGood,
    NeutralGood,
    ChaoticGood,
    LawfulNeutral,
    TrueNeutral,
    ChaoticNeutral,
    LawfulEvil,
    NeutralEvil,
    ChaoticEvil,
}

impl SnakeName for Alignment {
    open spec fn spec_name(self) -> Seq<char> {
        match self {
            Alignment::LawfulGood => "lawful_good"@,
            Alignment::NeutralGood => "neutral_good"@,
            Alignment::ChaoticGood => "chaotic_good"@,
            Alignment::LawfulNeutral => "lawful_neutral"@,
            Alignment::TrueNeutral => "true_neutral"@,
            Alignment::ChaoticNeutral => "chaotic_neutral"@,
            Alignment::LawfulEvil => "lawful_evil"@,
            Alignment::NeutralEvil => "neutral_evil"@,
            Alignment::ChaoticEvil => "chaotic_evil"@,
        }
    }

    fn name(&self) -> (r: &'static str) {
        match self {
            Alignment::LawfulGood => "lawful_good",
            Alignment::NeutralGood => "neutral_good",
            Alignment::ChaoticGood => "chaotic_good",
            Alignment::LawfulNeutral => "lawful_neutral",
            Alignment::TrueNeutral => "true_neutral",
            Alignment::ChaoticNeutral => "chaotic_neutral",
            Alignment::LawfulEvil => "lawful_evil",
            Alignment::NeutralEvil => "neutral_evil",
            Alignment::ChaoticEvil => "chaotic_evil",
        }
    }

    fn from_name(s: &str) -> (r: Option<Self>) {
        let r = if str_eq(s, "lawful_good") {
            Some(Alignment::LawfulGood)
        } else if str_eq(s, "neutral_good") {
            Some(Alignment::NeutralGood)
        } else if str_eq(s, "chaotic_good") {
            Some(Alignment::ChaoticGood)
        } else if str_eq(s, "lawful_neutral") {
            Some(Alignment::LawfulNeutral)
        } else if str_eq(s, "true_neutral") {
            Some(Alignment::TrueNeutral)
        } else if str_eq(s, "chaotic_neutral") {
            Some(Alignment::ChaoticNeutral)
        } else if str_eq(s, "lawful_evil") {
            Some(Alignment::LawfulEvil)
        } else if str_eq(s, "neutral_evil") {
            Some(Alignment::NeutralEvil)
        } else if str_eq(s, "chaotic_evil") {
            Some(Alignment::ChaoticEvil)
        } else {
            None
        };
        r
    }

    proof fn lemma_name_injective(a: Self, b: Self) {
        reveal_strlit("lawful_good");
        reveal_strlit("neutral_good");
        reveal_strlit("chaotic_good");
        reveal_strlit("lawful_neutral");
        reveal_strlit("true_neutral");
        reveal_strlit("chaotic_neutral");
        reveal_strlit("lawful_evil");
        reveal_strlit("neutral_evil");
        reveal_strlit("chaotic_evil");
        assert("lawful_good"@.len() == 11 && "lawful_good"@[7] == 'g');
        assert("neutral_good"@.len() == 12 && "neutral_good"@[0] == 'n' && "neutral_good"@[8] == 'g');
        assert("chaotic_good"@.len() == 12 && "chaotic_good"@[0] == 'c' && "chaotic_good"@[8] == 'g');
        assert("lawful_neutral"@.len() == 14);
        assert("true_neutral"@.len() == 12 && "true_neutral"@[0] == 't');
        assert("chaotic_neutral"@.len() == 15);
        assert("lawful_evil"@.len() == 11 && "lawful_evil"@[7] == 'e');
        assert("neutral_evil"@.len() == 12 && "neutral_evil"@[0] == 'n' && "neutral_evil"@[8] == 'e');
        assert("chaotic_evil"@.len() == 12 && "chaotic_evil"@[0] == 'c' && "chaotic_evil"@[8] == 'e');
    }
}

/// Story roles — ~30 roles from character-roles.yaml, distilled into key categories.
#[derive(Debug, Clone, Copy, PartialEq, Eq, Hash, Structural)]
pub enum Role {
    Protagonist,
    Deuteragonist,
    Antagonist,
    LoveInterest,
    Mentor,
    Confidant,
    Ally,
    Foil,
    Catalyst,
    BridgeCharacter,
    GhostCharacter,
    Trickster,
    Guardian,
    Herald,
    Shapeshifter,
    Contagonist,
    WalkOn,
}

impl SnakeName for Role {
    open spec fn spec_name(self) -> Seq<char> {
        match self {
            Role::Protagonist => "protagonist"@,
            Role::Deuteragonist => "deuteragonist"@,
            Role::Antagonist => "antagonist"@,
            Role::LoveInterest => "love_interest"@,
            Role::Mentor => "mentor"@,
            Role::Confidant => "confidant"@,
            Role::Ally => "ally"@,
            Role::Foil => "foil"@,
            Role::Catalyst => "catalyst"@,
            Role::BridgeCharacter => "bridge_character"@,
            Role::GhostCharacter => "ghost_character"@,
            Role::Trickster => "trickster"@,
            Role::Guardian => "guardian"@,
            Role::Herald => "herald"@,
            Role::Shapeshifter => "shapeshifter"@,
            Role::Contagonist => "contagonist"@,
            Role::WalkOn => "walk_on"@,
        }
    }

    fn name(&self) -> (r: &'static str) {
        match self {
            Role::Protagonist => "protagonist",
            Role::Deuteragonist => "deuteragonist",
            Role::Antagonist => "antagonist",
            Role::LoveInterest => "love_interest",
            Role::Mentor => "mentor",
            Role::Confidant => "confidant",
            Role::Ally => "ally",
            Role::Foil => "foil",
            Role::Catalyst => "catalyst",
            Role::BridgeCharacter => "bridge_character",
            Role::GhostCharacter => "ghost_character",
            Role::Trickster => "trickster",
            Role::Guardian => "guardian",
            Role::Herald => "herald",
            Role::Shapeshifter => "shapeshifter",
            Role::Contagonist => "contagonist",
            Role::WalkOn => "walk_on",
        }
    }

    fn from_name(s: &str) -> (r: Option<Self>) {
        let r = if str_eq(s, "protagonist") {
            Some(Role::Protagonist)
        } else if str_eq(s, "deuteragonist") {
            Some(Role::Deuteragonist)
        } else if str_eq(s, "antagonist") {
            Some(Role::Antagonist)
        } else if str_eq(s, "love_interest") {
            Some(Role::LoveInterest)
        } else if str_eq(s, "mentor") {
            Some(Role::Mentor)
        } else if str_eq(s, "confidant") {
            Some(Role::Confidant)
        } else if str_eq(s, "ally") {
            Some(Role::Ally)
        } else if str_eq(s, "foil") {
            Some(Role::Foil)
        } else if str_eq(s, "catalyst") {
            Some(Role::Catalyst)
        } else if str_eq(s, "bridge_character") {
            Some(Role::BridgeCharacter)
        } else if str_eq(s, "ghost_character") {
            Some(Role::GhostCharacter)
        } else if str_eq(s, "trickster") {
            Some(Role::Trickster)
        } else if str_eq(s, "guardian") {
            Some(Role::Guardian)
        } else if str_eq(s, "herald") {
            Some(Role::Herald)
        } else if str_eq(s, "shapeshifter") {
            Some(Role::Shapeshifter)
        } else if str_eq(s, "contagonist") {
            Some(Role::Contagonist)
        } else if str_eq(s, "walk_on") {
            Some(Role::WalkOn)
        } else {
            None
        };
        r
    }

    proof fn lemma_name_injective(a: Self, b: Self) {
        reveal_strlit("protagonist");
        reveal_strlit("deuteragonist");
        reveal_strlit("antagonist");
        reveal_strlit("love_interest");
        reveal_strlit("mentor");
        reveal_strlit("confidant");
        reveal_strlit("ally");
        reveal_strlit("foil");
        reveal_strlit("catalyst");
        reveal_strlit("bridge_character");
        reveal_strlit("ghost_character");
        reveal_strlit("trickster");
        reveal_strlit("guardian");
        reveal_strlit("herald");
        reveal_strlit("shapeshifter");
        reveal_strlit("contagonist");
        reveal_strlit("walk_on");
        assert("protagonist"@.len() == 11 && "protagonist"@[0] == 'p');
        assert("deuteragonist"@.len() == 13 && "deuteragonist"@[0] == 'd');
        assert("antagonist"@.len() == 10);
        assert("love_interest"@.len() == 13 && "love_interest"@[0] == 'l');
        assert("mentor"@.len() == 6 && "mentor"@[0] == 'm');
        assert("confidant"@.len() == 9 && "confidant"@[0] == 'c');
        assert("ally"@.len() == 4 && "ally"@[0] == 'a');
        assert("foil"@.len() == 4 && "foil"@[0] == 'f');
        assert("catalyst"@.len() == 8 && "catalyst"@[0] == 'c');
        assert("bridge_character"@.len() == 16);
        assert("ghost_character"@.len() == 15);
        assert("trickster"@.len() == 9 && "trickster"@[0] == 't');
        assert("guardian"@.len() == 8 && "guardian"@[0] == 'g');
        assert("herald"@.len() == 6 && "herald"@[0] == 'h');
        assert("shapeshifter"@.len() == 12);
        assert("contagonist"@.len() == 11 && "contagonist"@[0] == 'c');
        assert("walk_on"@.len() == 7);
    }
}

/// Five drive models from character-drives.yaml.
#[derive(Debug, Clone, Copy, PartialEq, Eq, Hash, Structural)]
pub enum DriveModel {
    /// Character acts from an unhealed wound
    Wound,
    /// Character acts toward a conscious want
    Desire,
    /// Character acts from obligation (honor, loyalty, law)
    Duty,
    /// Character acts from a distorted worldview
    Perception,
    /// Character acts from confrontation with mortality / meaninglessness
    Existential,
}

impl SnakeName for DriveModel {
    open spec fn spec_name(self) -> Seq<char> {
        match self {
            DriveModel::Wound => "wound"@,
            DriveModel::Desire => "desire"@,
            DriveModel::Duty => "duty"@,
            DriveModel::Perception => "perception"@,
            DriveModel::Existential => "existential"@,
        }
    }

    fn name(&self) -> (r: &'static str) {
        match self {
            DriveModel::Wound => "wound",
            DriveModel::Desire => "desire",
            DriveModel::Duty => "duty",
            DriveModel::Perception => "perception",
            DriveModel::Existential => "existential",
        }
    }

    fn from_name(s: &str) -> (r: Option<Self>) {
        let r = if str_eq(s, "wound") {
            Some(DriveModel::Wound)
        } else if str_eq(s, "desire") {
            Some(DriveModel::Desire)
        } else if str_eq(s, "duty") {
            Some(DriveModel::Duty)
        } else if str_eq(s, "perception") {
            Some(DriveModel::Perception)
        } else if str_eq(s, "existential") {
            Some(DriveModel::Existential)
        } else {
            None
        };
        r
    }

    proof fn lemma_name_injective(a: Self, b: Self) {
        reveal_strlit("wound");
        reveal_strlit("desire");
        reveal_strlit("duty");
        reveal_strlit("perception");
        reveal_strlit("existential");
        assert("wound"@.len() == 5);
        assert("desire"@.len() == 6);
        assert("duty"@.len() == 4);
        assert("perception"@.len() == 10);
        assert("existential"@.len() == 11);
    }
}

/// Character arc trajectory.
#[derive(Debug, Clone, Copy, PartialEq, Eq, Hash, Structural)]
pub enum ArcType {
    PositiveChange,
    NegativeFall,
    Flat,
    Minor,
    Disillusionment,
    Corruption,
    Absent,
}

impl SnakeName for ArcType {
    open spec fn spec_name(self) -> Seq<char> {
        match self {
            ArcType::PositiveChange => "positive_change"@,
            ArcType::NegativeFall => "negative_fall"@,
            ArcType::Flat => "flat"@,
            ArcType::Minor => "minor"@,
            ArcType::Disillusionment => "disillusionment"@,
            ArcType::Corruption => "corruption"@,
            ArcType::Absent => "none"@,
        }
    }

    fn name(&self) -> (r: &'static str) {
        match self {
            ArcType::PositiveChange => "positive_change",
            ArcType::NegativeFall => "negative_fall",
            ArcType::Flat => "flat",
            ArcType::Minor => "minor",
            ArcType::Disillusionment => "disillusionment",
            ArcType::Corruption => "corruption",
            ArcType::Absent => "none",
        }
    }

    fn from_name(s: &str) -> (r: Option<Self>) {
        let r = if str_eq(s, "positive_change") {
            Some(ArcType::PositiveChange)
        } else if str_eq(s, "negative_fall") {
            Some(ArcType::NegativeFall)
        } else if str_eq(s, "flat") {
            Some(ArcType::Flat)
        } else if str_eq(s, "minor") {
            Some(ArcType::Minor)
        } else if str_eq(s, "disillusionment") {
            Some(ArcType::Disillusionment)
        } else if str_eq(s, "corruption") {
            Some(ArcType::Corruption)
        } else if str_eq(s, "none") {
            Some(ArcType::Absent)
        } else {
            None
        };
        r
    }

    proof fn lemma_name_injective(a: Self, b: Self) {
        reveal_strlit("positive_change");
        reveal_strlit("negative_fall");
        reveal_strlit("flat");
        reveal_strlit("minor");
        reveal_strlit("disillusionment");
        reveal_strlit("corruption");
        reveal_strlit("none");
        assert("positive_change"@.len() == 15 && "positive_change"@[0] == 'p');
        assert("negative_fall"@.len() == 13);
        assert("flat"@.len() == 4 && "flat"@[0] == 'f');
        assert("minor"@.len() == 5);
        assert("disillusionment"@.len() == 15 && "disillusionment"@[0] == 'd');
        assert("corruption"@.len() == 10);
        assert("none"@.len() == 4 && "none"@[0] == 'n');
    }
}

#[derive(Debug, Clone, Copy, PartialEq, Eq, Hash, Structural)]
pub enum ConflictType {
    PersonVsPerson,
    PersonVsSelf,
    PersonVsEnvironment,
    PersonVsSociety,
    PersonVsTechnology,
    PersonVsNature,
    Multiple,
}

impl SnakeName for ConflictType {
    open spec fn spec_name(self) -> Seq<char> {
        match self {
            ConflictType::PersonVsPerson => "person_vs_person"@,
            ConflictType::PersonVsSelf => "person_vs_self"@,
            ConflictType::PersonVsEnvironment => "person_vs_environment"@,
            ConflictType::PersonVsSociety => "person_vs_society"@,
            ConflictType::PersonVsTechnology => "person_vs_technology"@,
            ConflictType::PersonVsNature => "person_vs_nature"@,
            ConflictType::Multiple => "multiple"@,
        }
    }

    fn name(&self) -> (r: &'static str) {
        match self {
            ConflictType::PersonVsPerson => "person_vs_person",
            ConflictType::PersonVsSelf => "person_vs_self",
            ConflictType::PersonVsEnvironment => "person_vs_environment",
            ConflictType::PersonVsSociety => "person_vs_society",
            ConflictType::PersonVsTechnology => "person_vs_technology",
            ConflictType::PersonVsNature => "person_vs_nature",
            ConflictType::Multiple => "multiple",
        }
    }

    fn from_name(s: &str) -> (r: Option<Self>) {
        let r = if str_eq(s, "person_vs_person") {
            Some(ConflictType::PersonVsPerson)
        } else if str_eq(s, "person_vs_self") {
            Some(ConflictType::PersonVsSelf)
        } else if str_eq(s, "person_vs_environment") {
            Some(ConflictType::PersonVsEnvironment)
        } else if str_eq(s, "person_vs_society") {
            Some(ConflictType::PersonVsSociety)
        } else if str_eq(s, "person_vs_technology") {
            Some(ConflictType::PersonVsTechnology)
        } else if str_eq(s, "person_vs_nature") {
            Some(ConflictType::PersonVsNature)
        } else if str_eq(s, "multiple") {
            Some(ConflictType::Multiple)
        } else {
            None
        };
        r
    }

    proof fn lemma_name_injective(a: Self, b: Self) {
        reveal_strlit("person_vs_person");
        reveal_strlit("person_vs_self");
        reveal_strlit("person_vs_environment");
        reveal_strlit("person_vs_society");
        reveal_strlit("person_vs_technology");
        reveal_strlit("person_vs_nature");
        reveal_strlit("multiple");
        assert("person_vs_person"@.len() == 16 && "person_vs_person"@[10] == 'p');
        assert("person_vs_self"@.len() == 14);
        assert("person_vs_environment"@.len() == 21);
        assert("person_vs_society"@.len() == 17);
        assert("person_vs_technology"@.len() == 20);
        assert("person_vs_nature"@.len() == 16 && "person_vs_nature"@[10] == 'n');
        assert("multiple"@.len() == 8);
    }
}

#[derive(Debug, Clone, Copy, PartialEq, Eq, Hash, Structural)]
pub enum OutcomeType {
    FullDisaster,
    PartialDisaster,
    Dilemma,
    SuccessWithComplication,
    FullSuccess,
}

impl SnakeName for OutcomeType {
    open spec fn spec_name(self) -> Seq<char> {
        match self {
            OutcomeType::FullDisaster => "full_disaster"@,
            OutcomeType::PartialDisaster => "partial_disaster"@,
            OutcomeType::Dilemma => "dilemma"@,
            OutcomeType::SuccessWithComplication => "success_with_complication"@,
            OutcomeType::FullSuccess => "full_success"@,
        }
    }

    fn name(&self) -> (r: &'static str) {
        match self {
            OutcomeType::FullDisaster => "full_disaster",
            OutcomeType::PartialDisaster => "partial_disaster",
            OutcomeType::Dilemma => "dilemma",
            OutcomeType::SuccessWithComplication => "success_with_complication",
            OutcomeType::FullSuccess => "full_success",
        }
    }

    fn from_name(s: &str) -> (r: Option<Self>) {
        let r = if str_eq(s, "full_disaster") {
            Some(OutcomeType::FullDisaster)
        } else if str_eq(s, "partial_disaster") {
            Some(OutcomeType::PartialDisaster)
        } else if str_eq(s, "dilemma") {
            Some(OutcomeType::Dilemma)
        } else if str_eq(s, "success_with_complication") {
            Some(OutcomeType::SuccessWithComplication)
        } else if str_eq(s, "full_success") {
            Some(OutcomeType::FullSuccess)
        } else {
            None
        };
        r
    }

    proof fn lemma_name_injective(a: Self, b: Self) {
        reveal_strlit("full_disaster");
        reveal_strlit("partial_disaster");
        reveal_strlit("dilemma");
        reveal_strlit("success_with_complication");
        reveal_strlit("full_success");
        assert("full_disaster"@.len() == 13);
        assert("partial_disaster"@.len() == 16);
        assert("dilemma"@.len() == 7);
        assert("success_with_complication"@.len() == 25);
        assert("full_success"@.len() == 12);
    }
}

/// Scene sequence arc pattern.
#[derive(Debug, Clone, Copy, PartialEq, Eq, Hash, Structural)]
pub enum ArcPattern {
    SteadyBuild,
    PeaksAndValleys,
    Plateau,
    Spike,
    Descent,
}

impl SnakeName for ArcPattern {
    open spec fn spec_name(self) -> Seq<char> {
        match self {
            ArcPattern::SteadyBuild => "steady_build"@,
            ArcPattern::PeaksAndValleys => "peaks_and_valleys"@,
            ArcPattern::Plateau => "plateau"@,
            ArcPattern::Spike => "spike"@,
            ArcPattern::Descent => "descent"@,
        }
    }

    fn name(&self) -> (r: &'static str) {
        match self {
            ArcPattern::SteadyBuild => "steady_build",
            ArcPattern::PeaksAndValleys => "peaks_and_valleys",
            ArcPattern::Plateau => "plateau",
            ArcPattern::Spike => "spike",
            ArcPattern::Descent => "descent",
        }
    }

    fn from_name(s: &str) -> (r: Option<Self>) {
        let r = if str_eq(s, "steady_build") {
            Some(ArcPattern::SteadyBuild)
        } else if str_eq(s, "peaks_and_valleys") {
            Some(ArcPattern::PeaksAndValleys)
        } else if str_eq(s, "plateau") {
            Some(ArcPattern::Plateau)
        } else if str_eq(s, "spike") {
            Some(ArcPattern::Spike)
        } else if str_eq(s, "descent") {
            Some(ArcPattern::Descent)
        } else {
            None
        };
        r
    }

    proof fn lemma_name_injective(a: Self, b: Self) {
        reveal_strlit("steady_build");
        reveal_strlit("peaks_and_valleys");
        reveal_strlit("plateau");
        reveal_strlit("spike");
        reveal_strlit("descent");
        assert("steady_build"@.len() == 12);
        assert("peaks_and_valleys"@.len() == 17);
        assert("plateau"@.len() == 7 && "plateau"@[0] == 'p');
        assert("spike"@.len() == 5);
        assert("descent"@.len() == 7 && "descent"@[0] == 'd');
    }
}

/// Function of a scene within a sequence.
///
/// `Anchor` (formerly only in `SceneType`) is included here: a scene that
/// establishes context without advancing the conflict — the "steady ground"
/// before movement.
#[derive(Debug, Clone, Copy, PartialEq, Eq, Hash, Structural)]
pub enum SceneFunction {
    /// Establishes context, character state, or setting — no conflict advance.
    Anchor,
    Setup,
    Complication,
    Escalation,
    Revelation,
    Climax,
    Resolution,
    Transition,
}

impl SnakeName for SceneFunction {
    open spec fn spec_name(self) -> Seq<char> {
        match self {
            SceneFunction::Anchor => "anchor"@,
            SceneFunction::Setup => "setup"@,
            SceneFunction::Complication => "complication"@,
            SceneFunction::Escalation => "escalation"@,
            SceneFunction::Revelation => "revelation"@,
            SceneFunction::Climax => "climax"@,
            SceneFunction::Resolution => "resolution"@,
            SceneFunction::Transition => "transition"@,
        }
    }

    fn name(&self) -> (r: &'static str) {
        match self {
            SceneFunction::Anchor => "anchor",
            SceneFunction::Setup => "setup",
            SceneFunction::Complication => "complication",
            SceneFunction::Escalation => "escalation",
            SceneFunction::Revelation => "revelation",
            SceneFunction::Climax => "climax",
            SceneFunction::Resolution => "resolution",
            SceneFunction::Transition => "transition",
        }
    }

    fn from_name(s: &str) -> (r: Option<Self>) {
        let r = if str_eq(s, "anchor") {
            Some(SceneFunction::Anchor)
        } else if str_eq(s, "setup") {
            Some(SceneFunction::Setup)
        } else if str_eq(s, "complication") {
            Some(SceneFunction::Complication)
        } else if str_eq(s, "escalation") {
            Some(SceneFunction::Escalation)
        } else if str_eq(s, "revelation") {
            Some(SceneFunction::Revelation)
        } else if str_eq(s, "climax") {
            Some(SceneFunction::Climax)
        } else if str_eq(s, "resolution") {
            Some(SceneFunction::Resolution)
        } else if str_eq(s, "transition") {
            Some(SceneFunction::Transition)
        } else {
            None
        };
        r
    }

    proof fn lemma_name_injective(a: Self, b: Self) {
        reveal_strlit("anchor");
        reveal_strlit("setup");
        reveal_strlit("complication");
        reveal_strlit("escalation");
        reveal_strlit("revelation");
        reveal_strlit("climax");
        reveal_strlit("resolution");
        reveal_strlit("transition");
        assert("anchor"@.len() == 6 && "anchor"@[0] == 'a');
        assert("setup"@.len() == 5);
        assert("complication"@.len() == 12);
        assert("escalation"@.len() == 10 && "escalation"@[0] == 'e');
        assert("revelation"@.len() == 10 && "revelation"@[0] == 'r' && "revelation"@[2] == 'v');
        assert("climax"@.len() == 6 && "climax"@[0] == 'c');
        assert("resolution"@.len() == 10 && "resolution"@[0] == 'r' && "resolution"@[2] == 's');
        assert("transition"@.len() == 10 && "transition"@[0] == 't');
    }
}

/// Complexity rating for a scene.
#[derive(Debug, Clone, Copy, PartialEq, Eq, Hash, Structural)]
pub enum Complexity {
    Simple,
    Moderate,
    Complex,
}

impl SnakeName for Complexity {
    open spec fn spec_name(self) -> Seq<char> {
        match self {
            Complexity::Simple => "simple"@,
            Complexity::Moderate => "moderate"@,
            Complexity::Complex => "complex"@,
        }
    }

    fn name(&self) -> (r: &'static str) {
        match self {
            Complexity::Simple => "simple",
            Complexity::Moderate => "moderate",
            Complexity::Complex => "complex",
        }
    }

    fn from_name(s: &str) -> (r: Option<Self>) {
        let r = if str_eq(s, "simple") {
            Some(Complexity::Simple)
        } else if str_eq(s, "moderate") {
            Some(Complexity::Moderate)
        } else if str_eq(s, "complex") {
            Some(Complexity::Complex)
        } else {
            None
        };
        r
    }

    proof fn lemma_name_injective(a: Self, b: Self) {
        reveal_strlit("simple");
        reveal_strlit("moderate");
        reveal_strlit("complex");
        assert("simple"@.len() == 6);
        assert("moderate"@.len() == 8);
        assert("complex"@.len() == 7);
    }
}

/// Scene planning priority.
///
/// **Two scales are present for historical reasons:**
/// - Qualitative (scene narrative weight): `Critical`, `Important`, `Supporting`
/// - Generic (effort/order): `Low`, `Medium`, `High`
///
/// Prefer the qualitative scale (`Critical`/`Important`/`Supporting`) for scene
/// priority fields; the generic scale (`Low`/`Medium`/`High`) is kept for
/// backward compatibility with any stored data that uses it.
#[derive(Debug, Clone, Copy, PartialEq, Eq, Hash, Structural)]
pub enum Priority {
    /// Pivotal scene — must land perfectly; cannot be cut.
    Critical,
    /// Scene materially advances plot or character arc.
    Important,
    /// Scene adds texture or support; could be trimmed.
    Supporting,
    /// Alias for `Supporting` (generic scale — prefer qualitative).
    Low,
    /// Alias for `Important` (generic scale — prefer qualitative).
    Medium,
    /// Alias for `Critical` (generic scale — prefer qualitative).
    High,
}

impl SnakeName for Priority {
    open spec fn spec_name(self) -> Seq<char> {
        match self {
            Priority::Critical => "critical"@,
            Priority::Important => "important"@,
            Priority::Supporting => "supporting"@,
            Priority::Low => "low"@,
            Priority::Medium => "medium"@,
            Priority::High => "high"@,
        }
    }

    fn name(&self) -> (r: &'static str) {
        match self {
            Priority::Critical => "critical",
            Priority::Important => "important",
            Priority::Supporting => "supporting",
            Priority::Low => "low",
            Priority::Medium => "medium",
            Priority::High => "high",
        }
    }

    fn from_name(s: &str) -> (r: Option<Self>) {
        let r = if str_eq(s, "critical") {
            Some(Priority::Critical)
        } else if str_eq(s, "important") {
            Some(Priority::Important)
        } else if str_eq(s, "supporting") {
            Some(Priority::Supporting)
        } else if str_eq(s, "low") {
            Some(Priority::Low)
        } else if str_eq(s, "medium") {
            Some(Priority::Medium)
        } else if str_eq(s, "high") {
            Some(Priority::High)
        } else {
            None
        };
        r
    }

    proof fn lemma_name_injective(a: Self, b: Self) {
        reveal_strlit("critical");
        reveal_strlit("important");
        reveal_strlit("supporting");
        reveal_strlit("low");
        reveal_strlit("medium");
        reveal_strlit("high");
        assert("critical"@.len() == 8);
        assert("important"@.len() == 9);
        assert("supporting"@.len() == 10);
        assert("low"@.len() == 3);
        assert("medium"@.len() == 6);
        assert("high"@.len() == 4);
    }
}

/// Tension level coarsened.
#[derive(Debug, Clone, Copy, PartialEq, Eq, Hash, Structural)]
pub enum TensionLevel {
    Low,
    Moderate,
    High,
    Peak,
}

impl SnakeName for TensionLevel {
    open spec fn spec_name(self) -> Seq<char> {
        match self {
            TensionLevel::Low => "low"@,
            TensionLevel::Moderate => "moderate"@,
            TensionLevel::High => "high"@,
            TensionLevel::Peak => "peak"@,
        }
    }

    fn name(&self) -> (r: &'static str) {
        match self {
            TensionLevel::Low => "low",
            TensionLevel::Moderate => "moderate",
            TensionLevel::High => "high",
            TensionLevel::Peak => "peak",
        }
    }

    fn from_name(s: &str) -> (r: Option<Self>) {
        let r = if str_eq(s, "low") {
            Some(TensionLevel::Low)
        } else if str_eq(s, "moderate") {
            Some(TensionLevel::Moderate)
        } else if str_eq(s, "high") {
            Some(TensionLevel::High)
        } else if str_eq(s, "peak") {
            Some(TensionLevel::Peak)
        } else {
            None
        };
        r
    }

    proof fn lemma_name_injective(a: Self, b: Self) {
        reveal_strlit("low");
        reveal_strlit("moderate");
        reveal_strlit("high");
        reveal_strlit("peak");
        assert("low"@.len() == 3);
        assert("moderate"@.len() == 8);
        assert("high"@.len() == 4 && "high"@[0] == 'h');
        assert("peak"@.len() == 4 && "peak"@[0] == 'p');
    }
}

/// Opening hook type.
#[derive(Debug, Clone, Copy, PartialEq, Eq, Hash, Structural)]
pub enum OpeningType {
    InMediasRes,
    CharacteristicMoment,
    IncitingImage,
    VoiceForward,
    WorldImmersion,
    FramingDevice,
}

impl SnakeName for OpeningType {
    open spec fn spec_name(self) -> Seq<char> {
        match self {
            OpeningType::InMediasRes => "in_medias_res"@,
            OpeningType::CharacteristicMoment => "characteristic_moment"@,
            OpeningType::IncitingImage => "inciting_image"@,
            OpeningType::VoiceForward => "voice_forward"@,
            OpeningType::WorldImmersion => "world_immersion"@,
            OpeningType::FramingDevice => "framing_device"@,
        }
    }

    fn name(&self) -> (r: &'static str) {
        match self {
            OpeningType::InMediasRes => "in_medias_res",
            OpeningType::CharacteristicMoment => "characteristic_moment",
            OpeningType::IncitingImage => "inciting_image",
            OpeningType::VoiceForward => "voice_forward",
            OpeningType::WorldImmersion => "world_immersion",
            OpeningType::FramingDevice => "framing_device",
        }
    }

    fn from_name(s: &str) -> (r: Option<Self>) {
        let r = if str_eq(s, "in_medias_res") {
            Some(OpeningType::InMediasRes)
        } else if str_eq(s, "characteristic_moment") {
            Some(OpeningType::CharacteristicMoment)
        } else if str_eq(s, "inciting_image") {
            Some(OpeningType::IncitingImage)
        } else if str_eq(s, "voice_forward") {
            Some(OpeningType::VoiceForward)
        } else if str_eq(s, "world_immersion") {
            Some(OpeningType::WorldImmersion)
        } else if str_eq(s, "framing_device") {
            Some(OpeningType::FramingDevice)
        } else {
            None
        };
        r
    }

    proof fn lemma_name_injective(a: Self, b: Self) {
        reveal_strlit("in_medias_res");
        reveal_strlit("characteristic_moment");
        reveal_strlit("inciting_image");
        reveal_strlit("voice_forward");
        reveal_strlit("world_immersion");
        reveal_strlit("framing_device");
        assert("in_medias_res"@.len() == 13 && "in_medias_res"@[0] == 'i');
        assert("characteristic_moment"@.len() == 21);
        assert("inciting_image"@.len() == 14 && "inciting_image"@[0] == 'i');
        assert("voice_forward"@.len() == 13 && "voice_forward"@[0] == 'v');
        assert("world_immersion"@.len() == 15);
        assert("framing_device"@.len() == 14 && "framing_device"@[0] == 'f');
    }
}

/// Narrative world delivery method.
#[derive(Debug, Clone, Copy, PartialEq, Eq, Hash, Structural)]
pub enum WorldDeliveryMethod {
    Immersive,
    Explanatory,
    Incremental,
    Contrast,
}

impl SnakeName for WorldDeliveryMethod {
    open spec fn spec_name(self) -> Seq<char> {
        match self {
            WorldDeliveryMethod::Immersive => "immersive"@,
            WorldDeliveryMethod::Explanatory => "explanatory"@,
            WorldDeliveryMethod::Incremental => "incremental"@,
            WorldDeliveryMethod::Contrast => "contrast"@,
        }
    }

    fn name(&self) -> (r: &'static str) {
        match self {
            WorldDeliveryMethod::Immersive => "immersive",
            WorldDeliveryMethod::Explanatory => "explanatory",
            WorldDeliveryMethod::Incremental => "incremental",
            WorldDeliveryMethod::Contrast => "contrast",
        }
    }

    fn from_name(s: &str) -> (r: Option<Self>) {
        let r = if str_eq(s, "immersive") {
            Some(WorldDeliveryMethod::Immersive)
        } else if str_eq(s, "explanatory") {
            Some(WorldDeliveryMethod::Explanatory)
        } else if str_eq(s, "incremental") {
            Some(WorldDeliveryMethod::Incremental)
        } else if str_eq(s, "contrast") {
            Some(WorldDeliveryMethod::Contrast)
        } else {
            None
        };
        r
    }

    proof fn lemma_name_injective(a: Self, b: Self) {
        reveal_strlit("immersive");
        reveal_strlit("explanatory");
        reveal_strlit("incremental");
        reveal_strlit("contrast");
        assert("immersive"@.len() == 9);
        assert("explanatory"@.len() == 11 && "explanatory"@[0] == 'e');
        assert("incremental"@.len() == 11 && "incremental"@[0] == 'i');
        assert("contrast"@.len() == 8);
    }
}

/// How the central narrative question is delivered.
#[derive(Debug, Clone, Copy, PartialEq, Eq, Hash, Structural)]
pub enum QuestionDelivery {
    Explicit,
    Implicit,
    Atmospheric,
    Character,
}

impl SnakeName for QuestionDelivery {
    open spec fn spec_name(self) -> Seq<char> {
        match self {
            QuestionDelivery::Explicit => "explicit"@,
            QuestionDelivery::Implicit => "implicit"@,
            QuestionDelivery::Atmospheric => "atmospheric"@,
            QuestionDelivery::Character => "character"@,
        }
    }

    fn name(&self) -> (r: &'static str) {
        match self {
            QuestionDelivery::Explicit => "explicit",
            QuestionDelivery::Implicit => "implicit",
            QuestionDelivery::Atmospheric => "atmospheric",
            QuestionDelivery::Character => "character",
        }
    }

    fn from_name(s: &str) -> (r: Option<Self>) {
        let r = if str_eq(s, "explicit") {
            Some(QuestionDelivery::Explicit)
        } else if str_eq(s, "implicit") {
            Some(QuestionDelivery::Implicit)
        } else if str_eq(s, "atmospheric") {
            Some(QuestionDelivery::Atmospheric)
        } else if str_eq(s, "character") {
            Some(QuestionDelivery::Character)
        } else {
            None
        };
        r
    }

    proof fn lemma_name_injective(a: Self, b: Self) {
        reveal_strlit("explicit");
        reveal_strlit("implicit");
        reveal_strlit("atmospheric");
        reveal_strlit("character");
        assert("explicit"@.len() == 8 && "explicit"@[0] == 'e');
        assert("implicit"@.len() == 8 && "implicit"@[0] == 'i');
        assert("atmospheric"@.len() == 11);
        assert("character"@.len() == 9);
    }
}

#[derive(Debug, Clone, Copy, PartialEq, Eq, Hash, Structural)]
pub enum PovType {
    FirstPerson,
    SecondPerson,
    ThirdPersonLimited,
    ThirdPersonMultiple,
    ThirdPersonOmniscient,
    ThirdPersonObjective,
    Epistolary,
}

impl SnakeName for PovType {
    open spec fn spec_name(self) -> Seq<char> {
        match self {
            PovType::FirstPerson => "first_person"@,
            PovType::SecondPerson => "second_person"@,
            PovType::ThirdPersonLimited => "third_person_limited"@,
            PovType::ThirdPersonMultiple => "third_person_multiple"@,
            PovType::ThirdPersonOmniscient => "third_person_omniscient"@,
            PovType::ThirdPersonObjective => "third_person_objective"@,
            PovType::Epistolary => "epistolary"@,
        }
    }

    fn name(&self) -> (r: &'static str) {
        match self {
            PovType::FirstPerson => "first_person",
            PovType::SecondPerson => "second_person",
            PovType::ThirdPersonLimited => "third_person_limited",
            PovType::ThirdPersonMultiple => "third_person_multiple",
            PovType::ThirdPersonOmniscient => "third_person_omniscient",
            PovType::ThirdPersonObjective => "third_person_objective",
            PovType::Epistolary => "epistolary",
        }
    }

    fn from_name(s: &str) -> (r: Option<Self>) {
        let r = if str_eq(s, "first_person") {
            Some(PovType::FirstPerson)
        } else if str_eq(s, "second_person") {
            Some(PovType::SecondPerson)
        } else if str_eq(s, "third_person_limited") {
            Some(PovType::ThirdPersonLimited)
        } else if str_eq(s, "third_person_multiple") {
            Some(PovType::ThirdPersonMultiple)
        } else if str_eq(s, "third_person_omniscient") {
            Some(PovType::ThirdPersonOmniscient)
        } else if str_eq(s, "third_person_objective") {
            Some(PovType::ThirdPersonObjective)
        } else if str_eq(s, "epistolary") {
            Some(PovType::Epistolary)
        } else {
            None
        };
        r
    }

    proof fn lemma_name_injective(a: Self, b: Self) {
        reveal_strlit("first_person");
        reveal_strlit("second_person");
        reveal_strlit("third_person_limited");
        reveal_strlit("third_person_multiple");
        reveal_strlit("third_person_omniscient");
        reveal_strlit("third_person_objective");
        reveal_strlit("epistolary");
        assert("first_person"@.len() == 12);
        assert("second_person"@.len() == 13);
        assert("third_person_limited"@.len() == 20);
        assert("third_person_multiple"@.len() == 21);
        assert("third_person_omniscient"@.len() == 23);
        assert("third_person_objective"@.len() == 22);
        assert("epistolary"@.len() == 10);
    }
}

/// Genette focalization spectrum.
#[derive(Debug, Clone, Copy, PartialEq, Eq, Hash, Structural)]
pub enum FocalizationType {
    /// Narrator knows more than any character (zero restriction)
    Zero,
    /// Committed to one character's perspective throughout
    InternalFixed,
    /// Shifts between characters (chapter by chapter)
    InternalVariable,
    /// Same events through multiple characters
    InternalMultiple,
    /// Narrator knows less than characters (behaviourist)
    External,
}

impl SnakeName for FocalizationType {
    open spec fn spec_name(self) -> Seq<char> {
        match self {
            FocalizationType::Zero => "zero"@,
            FocalizationType::InternalFixed => "internal_fixed"@,
            FocalizationType::InternalVariable => "internal_variable"@,
            FocalizationType::InternalMultiple => "internal_multiple"@,
            FocalizationType::External => "external"@,
        }
    }

    fn name(&self) -> (r: &'static str) {
        match self {
            FocalizationType::Zero => "zero",
            FocalizationType::InternalFixed => "internal_fixed",
            FocalizationType::InternalVariable => "internal_variable",
            FocalizationType::InternalMultiple => "internal_multiple",
            FocalizationType::External => "external",
        }
    }

    fn from_name(s: &str) -> (r: Option<Self>) {
        let r = if str_eq(s, "zero") {
            Some(FocalizationType::Zero)
        } else if str_eq(s, "internal_fixed") {
            Some(FocalizationType::InternalFixed)
        } else if str_eq(s, "internal_variable") {
            Some(FocalizationType::InternalVariable)
        } else if str_eq(s, "internal_multiple") {
            Some(FocalizationType::InternalMultiple)
        } else if str_eq(s, "external") {
            Some(FocalizationType::External)
        } else {
            None
        };
        r
    }

    proof fn lemma_name_injective(a: Self, b: Self) {
        reveal_strlit("zero");
        reveal_strlit("internal_fixed");
        reveal_strlit("internal_variable");
        reveal_strlit("internal_multiple");
        reveal_strlit("external");
        assert("zero"@.len() == 4);
        assert("internal_fixed"@.len() == 14);
        assert("internal_variable"@.len() == 17 && "internal_variable"@[9] == 'v');
        assert("internal_multiple"@.len() == 17 && "internal_multiple"@[9] == 'm');
        assert("external"@.len() == 8);
    }
}

/// Dorrit Cohn's three modes of representing consciousness (third-person).
#[derive(Debug, Clone, Copy, PartialEq, Eq, Hash, Structural)]
pub enum ConsciousnessMode {
    /// Narrator describes the character's mind in narrator's language
    PsychoNarration,
    /// Free indirect discourse — narrator/character voices merge
    NarratedMonologue,
    /// Quoted interior monologue — typographically marked
    QuotedMonologue,
}

impl SnakeName for ConsciousnessMode {
    open spec fn spec_name(self) -> Seq<char> {
        match self {
            ConsciousnessMode::PsychoNarration => "psycho_narration"@,
            ConsciousnessMode::NarratedMonologue => "narrated_monologue"@,
            ConsciousnessMode::QuotedMonologue => "quoted_monologue"@,
        }
    }

    fn name(&self) -> (r: &'static str) {
        match self {
            ConsciousnessMode::PsychoNarration => "psycho_narration",
            ConsciousnessMode::NarratedMonologue => "narrated_monologue",
            ConsciousnessMode::QuotedMonologue => "quoted_monologue",
        }
    }

    fn from_name(s: &str) -> (r: Option<Self>) {
        let r = if str_eq(s, "psycho_narration") {
            Some(ConsciousnessMode::PsychoNarration)
        } else if str_eq(s, "narrated_monologue") {
            Some(ConsciousnessMode::NarratedMonologue)
        } else if str_eq(s, "quoted_monologue") {
            Some(ConsciousnessMode::QuotedMonologue)
        } else {
            None
        };
        r
    }

    proof fn lemma_name_injective(a: Self, b: Self) {
        reveal_strlit("psycho_narration");
        reveal_strlit("narrated_monologue");
        reveal_strlit("quoted_monologue");
        assert("psycho_narration"@.len() == 16 && "psycho_narration"@[0] == 'p');
        assert("narrated_monologue"@.len() == 18);
        assert("quoted_monologue"@.len() == 16 && "quoted_monologue"@[0] == 'q');
    }
}

/// Bakhtin voice structure.
#[derive(Debug, Clone, Copy, PartialEq, Eq, Hash, Structural)]
pub enum VoiceStructure {
    Monologic,
    Dialogic,
    Polyphonic,
}

impl SnakeName for VoiceStructure {
    open spec fn spec_name(self) -> Seq<char> {
        match self {
            VoiceStructure::Monologic => "monologic"@,
            VoiceStructure::Dialogic => "dialogic"@,
            VoiceStructure::Polyphonic => "polyphonic"@,
        }
    }

    fn name(&self) -> (r: &'static str) {
        match self {
            VoiceStructure::Monologic => "monologic",
            VoiceStructure::Dialogic => "dialogic",
            VoiceStructure::Polyphonic => "polyphonic",
        }
    }

    fn from_name(s: &str) -> (r: Option<Self>) {
        let r = if str_eq(s, "monologic") {
            Some(VoiceStructure::Monologic)
        } else if str_eq(s, "dialogic") {
            Some(VoiceStructure::Dialogic)
        } else if str_eq(s, "polyphonic") {
            Some(VoiceStructure::Polyphonic)
        } else {
            None
        };
        r
    }

    proof fn lemma_name_injective(a: Self, b: Self) {
        reveal_strlit("monologic");
        reveal_strlit("dialogic");
        reveal_strlit("polyphonic");
        assert("monologic"@.len() == 9);
        assert("dialogic"@.len() == 8);
        assert("polyphonic"@.len() == 10);
    }
}

/// Genette diegetic levels.
#[derive(Debug, Clone, Copy, PartialEq, Eq, Hash, Structural)]
pub enum DiegeticLevel {
    /// Narrator exists outside the story world
    Extradiegetic,
    /// Narrator exists within the story world
    Intradiegetic,
    /// Story within a story
    Metadiegetic,
}

impl SnakeName for DiegeticLevel {
    open spec fn spec_name(self) -> Seq<char> {
        match self {
            DiegeticLevel::Extradiegetic => "extradiegetic"@,
            DiegeticLevel::Intradiegetic => "intradiegetic"@,
            DiegeticLevel::Metadiegetic => "metadiegetic"@,
        }
    }

    fn name(&self) -> (r: &'static str) {
        match self {
            DiegeticLevel::Extradiegetic => "extradiegetic",
            DiegeticLevel::Intradiegetic => "intradiegetic",
            DiegeticLevel::Metadiegetic => "metadiegetic",
        }
    }

    fn from_name(s: &str) -> (r: Option<Self>) {
        let r = if str_eq(s, "extradiegetic") {
            Some(DiegeticLevel::Extradiegetic)
        } else if str_eq(s, "intradiegetic") {
            Some(DiegeticLevel::Intradiegetic)
        } else if str_eq(s, "metadiegetic") {
            Some(DiegeticLevel::Metadiegetic)
        } else {
            None
        };
        r
    }

    proof fn lemma_name_injective(a: Self, b: Self) {
        reveal_strlit("extradiegetic");
        reveal_strlit("intradiegetic");
        reveal_strlit("metadiegetic");
        assert("extradiegetic"@.len() == 13 && "extradiegetic"@[0] == 'e');
        assert("intradiegetic"@.len() == 13 && "intradiegetic"@[0] == 'i');
        assert("metadiegetic"@.len() == 12);
    }
}

/// Narrator knowledge scope.
#[derive(Debug, Clone, Copy, PartialEq, Eq, Hash, Structural)]
pub enum KnowledgeScope {
    Omniscient,
    Limited,
    Objective,
    Varies,
}

impl SnakeName for KnowledgeScope {
    open spec fn spec_name(self) -> Seq<char> {
        match self {
            KnowledgeScope::Omniscient => "omniscient"@,
            KnowledgeScope::Limited => "limited"@,
            KnowledgeScope::Objective => "objective"@,
            KnowledgeScope::Varies => "varies"@,
        }
    }

    fn name(&self) -> (r: &'static str) {
        match self {
            KnowledgeScope::Omniscient => "omniscient",
            KnowledgeScope::Limited => "limited",
            KnowledgeScope::Objective => "objective",
            KnowledgeScope::Varies => "varies",
        }
    }

    fn from_name(s: &str) -> (r: Option<Self>) {
        let r = if str_eq(s, "omniscient") {
            Some(KnowledgeScope::Omniscient)
        } else if str_eq(s, "limited") {
            Some(KnowledgeScope::Limited)
        } else if str_eq(s, "objective") {
            Some(KnowledgeScope::Objective)
        } else if str_eq(s, "varies") {
            Some(KnowledgeScope::Varies)
        } else {
            None
        };
        r
    }

    proof fn lemma_name_injective(a: Self, b: Self) {
        reveal_strlit("omniscient");
        reveal_strlit("limited");
        reveal_strlit("objective");
        reveal_strlit("varies");
        assert("omniscient"@.len() == 10);
        assert("limited"@.len() == 7);
        assert("objective"@.len() == 9);
        assert("varies"@.len() == 6);
    }
}

/// Narrator reliability spectrum (Booth/Nünning).
#[derive(Debug, Clone, Copy, PartialEq, Eq, Hash, Structural)]
pub enum ReliabilitySpectrum {
    FullyReliable,
    MostlyReliable,
    Unreliable,
    RadicallyUnreliable,
}

impl SnakeName for ReliabilitySpectrum {
    open spec fn spec_name(self) -> Seq<char> {
        match self {
            ReliabilitySpectrum::FullyReliable => "fully_reliable"@,
            ReliabilitySpectrum::MostlyReliable => "mostly_reliable"@,
            ReliabilitySpectrum::Unreliable => "unreliable"@,
            ReliabilitySpectrum::RadicallyUnreliable => "radically_unreliable"@,
        }
    }

    fn name(&self) -> (r: &'static str) {
        match self {
            ReliabilitySpectrum::FullyReliable => "fully_reliable",
            ReliabilitySpectrum::MostlyReliable => "mostly_reliable",
            ReliabilitySpectrum::Unreliable => "unreliable",
            ReliabilitySpectrum::RadicallyUnreliable => "radically_unreliable",
        }
    }

    fn from_name(s: &str) -> (r: Option<Self>) {
        let r = if str_eq(s, "fully_reliable") {
            Some(ReliabilitySpectrum::FullyReliable)
        } else if str_eq(s, "mostly_reliable") {
            Some(ReliabilitySpectrum::MostlyReliable)
        } else if str_eq(s, "unreliable") {
            Some(ReliabilitySpectrum::Unreliable)
        } else if str_eq(s, "radically_unreliable") {
            Some(ReliabilitySpectrum::RadicallyUnreliable)
        } else {
            None
        };
        r
    }

    proof fn lemma_name_injective(a: Self, b: Self) {
        reveal_strlit("fully_reliable");
        reveal_strlit("mostly_reliable");
        reveal_strlit("unreliable");
        reveal_strlit("radically_unreliable");
        assert("fully_reliable"@.len() == 14);
        assert("mostly_reliable"@.len() == 15);
        assert("unreliable"@.len() == 10);
        assert("radically_unreliable"@.len() == 20);
    }
}

/// Warhol engaging/distancing narrative mode.
#[derive(Debug, Clone, Copy, PartialEq, Eq, Hash, Structural)]
pub enum EngagementMode {
    Engaging,
    Distancing,
    Oscillating,
}

impl SnakeName for EngagementMode {
    open spec fn spec_name(self) -> Seq<char> {
        match self {
            EngagementMode::Engaging => "engaging"@,
            EngagementMode::Distancing => "distancing"@,
            EngagementMode::Oscillating => "oscillating"@,
        }
    }

    fn name(&self) -> (r: &'static str) {
        match self {
            EngagementMode::Engaging => "engaging",
            EngagementMode::Distancing => "distancing",
            EngagementMode::Oscillating => "oscillating",
        }
    }

    fn from_name(s: &str) -> (r: Option<Self>) {
        let r = if str_eq(s, "engaging") {
            Some(EngagementMode::Engaging)
        } else if str_eq(s, "distancing") {
            Some(EngagementMode::Distancing)
        } else if str_eq(s, "oscillating") {
            Some(EngagementMode::Oscillating)
        } else {
            None
        };
        r
    }

    proof fn lemma_name_injective(a: Self, b: Self) {
        reveal_strlit("engaging");
        reveal_strlit("distancing");
        reveal_strlit("oscillating");
        assert("engaging"@.len() == 8);
        assert("distancing"@.len() == 10);
        assert("oscillating"@.len() == 11);
    }
}

/// Narrative distance (prose style register).
#[derive(Debug, Clone, Copy, PartialEq, Eq, Hash, Structural)]
pub enum NarrativeDistance {
    Intimate,
    Medium,
    Distant,
}

impl SnakeName for NarrativeDistance {
    open spec fn spec_name(self) -> Seq<char> {
        match self {
            NarrativeDistance::Intimate => "intimate"@,
            NarrativeDistance::Medium => "medium"@,
            NarrativeDistance::Distant => "distant"@,
        }
    }

    fn name(&self) -> (r: &'static str) {
        match self {
            NarrativeDistance::Intimate => "intimate",
            NarrativeDistance::Medium => "medium",
            NarrativeDistance::Distant => "distant",
        }
    }

    fn from_name(s: &str) -> (r: Option<Self>) {
        let r = if str_eq(s, "intimate") {
            Some(NarrativeDistance::Intimate)
        } else if str_eq(s, "medium") {
            Some(NarrativeDistance::Medium)
        } else if str_eq(s, "distant") {
            Some(NarrativeDistance::Distant)
        } else {
            None
        };
        r
    }

    proof fn lemma_name_injective(a: Self, b: Self) {
        reveal_strlit("intimate");
        reveal_strlit("medium");
        reveal_strlit("distant");
        assert("intimate"@.len() == 8);
        assert("medium"@.len() == 6);
        assert("distant"@.len() == 7);
    }
}

/// Bordwell narration type (*Narration in the Fiction Film*, 1985).
///
/// Classifies how much information a narrative withholds or reveals relative
/// to character knowledge — a more precise alternative to `KnowledgeScope`
/// for analytical work.
#[derive(Debug, Clone, Copy, PartialEq, Eq, Hash, Structural)]
pub enum BordwellNarrationType {
    /// Narration bound to one character's knowledge; reader learns when they do
    Restricted,
    /// Narration ranges freely across characters and locations; may know more than any character
    Unrestricted,
    /// Narration withholds information the POV character possesses; reader knows less than character
    Suppressive,
    /// Narration foregrounds a formal parameter over story logic; style is itself the subject
    Parametric,
}

impl SnakeName for BordwellNarrationType {
    open spec fn spec_name(self) -> Seq<char> {
        match self {
            BordwellNarrationType::Restricted => "restricted"@,
            BordwellNarrationType::Unrestricted => "unrestricted"@,
            BordwellNarrationType::Suppressive => "suppressive"@,
            BordwellNarrationType::Parametric => "parametric"@,
        }
    }

    fn name(&self) -> (r: &'static str) {
        match self {
            BordwellNarrationType::Restricted => "restricted",
            BordwellNarrationType::Unrestricted => "unrestricted",
            BordwellNarrationType::Suppressive => "suppressive",
            BordwellNarrationType::Parametric => "parametric",
        }
    }

    fn from_name(s: &str) -> (r: Option<Self>) {
        let r = if str_eq(s, "restricted") {
            Some(BordwellNarrationType::Restricted)
        } else if str_eq(s, "unrestricted") {
            Some(BordwellNarrationType::Unrestricted)
        } else if str_eq(s, "suppressive") {
            Some(BordwellNarrationType::Suppressive)
        } else if str_eq(s, "parametric") {
            Some(BordwellNarrationType::Parametric)
        } else {
            None
        };
        r
    }

    proof fn lemma_name_injective(a: Self, b: Self) {
        reveal_strlit("restricted");
        reveal_strlit("unrestricted");
        reveal_strlit("suppressive");
        reveal_strlit("parametric");
        assert("restricted"@.len() == 10 && "restricted"@[0] == 'r');
        assert("unrestricted"@.len() == 12);
        assert("suppressive"@.len() == 11);
        assert("parametric"@.len() == 10 && "parametric"@[0] == 'p');
    }
}

/// Bordwell self-consciousness scale (covert → metafictional).
///
/// Captures how overtly the narrative acknowledges its own act of narrating.
#[derive(Debug, Clone, Copy, PartialEq, Eq, Hash, Structural)]
pub enum NarrationSelfConsciousness {
    /// Invisible style — the narration pretends not to exist
    Covert,
    /// Slight signals, teases, irony — narration hints at its own presence
    ModeratelyCommunicative,
    /// Direct address to reader; metafictional commentary
    OvertlySelfConscious,
    /// The fiction acknowledges its own fictionality as its subject
    Metafictional,
}

impl SnakeName for NarrationSelfConsciousness {
    open spec fn spec_name(self) -> Seq<char> {
        match self {
            NarrationSelfConsciousness::Covert => "covert"@,
            NarrationSelfConsciousness::ModeratelyCommunicative => "moderately_communicative"@,
            NarrationSelfConsciousness::OvertlySelfConscious => "overtly_self_conscious"@,
            NarrationSelfConsciousness::Metafictional => "metafictional"@,
        }
    }

    fn name(&self) -> (r: &'static str) {
        match self {
            NarrationSelfConsciousness::Covert => "covert",
            NarrationSelfConsciousness::ModeratelyCommunicative => "moderately_communicative",
            NarrationSelfConsciousness::OvertlySelfConscious => "overtly_self_conscious",
            NarrationSelfConsciousness::Metafictional => "metafictional",
        }
    }

    fn from_name(s: &str) -> (r: Option<Self>) {
        let r = if str_eq(s, "covert") {
            Some(NarrationSelfConsciousness::Covert)
        } else if str_eq(s, "moderately_communicative") {
            Some(NarrationSelfConsciousness::ModeratelyCommunicative)
        } else if str_eq(s, "overtly_self_conscious") {
            Some(NarrationSelfConsciousness::OvertlySelfConscious)
        } else if str_eq(s, "metafictional") {
            Some(NarrationSelfConsciousness::Metafictional)
        } else {
            None
        };
        r
    }

    proof fn lemma_name_injective(a: Self, b: Self) {
        reveal_strlit("covert");
        reveal_strlit("moderately_communicative");
        reveal_strlit("overtly_self_conscious");
        reveal_strlit("metafictional");
        assert("covert"@.len() == 6);
        assert("moderately_communicative"@.len() == 24);
        assert("overtly_self_conscious"@.len() == 22);
        assert("metafictional"@.len() == 13);
    }
}

#[derive(Debug, Clone, Copy, PartialEq, Eq, Hash, Structural)]
pub enum SentenceLength {
    Short,
    Medium,
    Long,
    Varied,
}

impl SnakeName for SentenceLength {
    open spec fn spec_name(self) -> Seq<char> {
        match self {
            SentenceLength::Short => "short"@,
            SentenceLength::Medium => "medium"@,
            SentenceLength::Long => "long"@,
            SentenceLength::Varied => "varied"@,
        }
    }

    fn name(&self) -> (r: &'static str) {
        match self {
            SentenceLength::Short => "short",
            SentenceLength::Medium => "medium",
            SentenceLength::Long => "long",
            SentenceLength::Varied => "varied",
        }
    }

    fn from_name(s: &str) -> (r: Option<Self>) {
        let r = if str_eq(s, "short") {
            Some(SentenceLength::Short)
        } else if str_eq(s, "medium") {
            Some(SentenceLength::Medium)
        } else if str_eq(s, "long") {
            Some(SentenceLength::Long)
        } else if str_eq(s, "varied") {
            Some(SentenceLength::Varied)
        } else {
            None
        };
        r
    }

    proof fn lemma_name_injective(a: Self, b: Self) {
        reveal_strlit("short");
        reveal_strlit("medium");
        reveal_strlit("long");
        reveal_strlit("varied");
        assert("short"@.len() == 5);
        assert("medium"@.len() == 6 && "medium"@[0] == 'm');
        assert("long"@.len() == 4);
        assert("varied"@.len() == 6 && "varied"@[0] == 'v');
    }
}

/// Fish/Tufte sentence type taxonomy.
#[derive(Debug, Clone, Copy, PartialEq, Eq, Hash, Structural)]
pub enum SentenceType {
    Additive,
    Subordinative,
    Periodic,
    Cumulative,
    Appositive,
    AbsolutePhrase,
    Fragment,
}

impl SnakeName for SentenceType {
    open spec fn spec_name(self) -> Seq<char> {
        match self {
            SentenceType::Additive => "additive"@,
            SentenceType::Subordinative => "subordinative"@,
            SentenceType::Periodic => "periodic"@,
            SentenceType::Cumulative => "cumulative"@,
            SentenceType::Appositive => "appositive"@,
            SentenceType::AbsolutePhrase => "absolute_phrase"@,
            SentenceType::Fragment => "fragment"@,
        }
    }

    fn name(&self) -> (r: &'static str) {
        match self {
            SentenceType::Additive => "additive",
            SentenceType::Subordinative => "subordinative",
            SentenceType::Periodic => "periodic",
            SentenceType::Cumulative => "cumulative",
            SentenceType::Appositive => "appositive",
            SentenceType::AbsolutePhrase => "absolute_phrase",
            SentenceType::Fragment => "fragment",
        }
    }

    fn from_name(s: &str) -> (r: Option<Self>) {
        let r = if str_eq(s, "additive") {
            Some(SentenceType::Additive)
        } else if str_eq(s, "subordinative") {
            Some(SentenceType::Subordinative)
        } else if str_eq(s, "periodic") {
            Some(SentenceType::Periodic)
        } else if str_eq(s, "cumulative") {
            Some(SentenceType::Cumulative)
        } else if str_eq(s, "appositive") {
            Some(SentenceType::Appositive)
        } else if str_eq(s, "absolute_phrase") {
            Some(SentenceType::AbsolutePhrase)
        } else if str_eq(s, "fragment") {
            Some(SentenceType::Fragment)
        } else {
            None
        };
        r
    }

    proof fn lemma_name_injective(a: Self, b: Self) {
        reveal_strlit("additive");
        reveal_strlit("subordinative");
        reveal_strlit("periodic");
        reveal_strlit("cumulative");
        reveal_strlit("appositive");
        reveal_strlit("absolute_phrase");
        reveal_strlit("fragment");
        assert("additive"@.len() == 8 && "additive"@[0] == 'a');
        assert("subordinative"@.len() == 13);
        assert("periodic"@.len() == 8 && "periodic"@[0] == 'p');
        assert("cumulative"@.len() == 10 && "cumulative"@[0] == 'c');
        assert("appositive"@.len() == 10 && "appositive"@[0] == 'a');
        assert("absolute_phrase"@.len() == 15);
        assert("fragment"@.len() == 8 && "fragment"@[0] == 'f');
    }
}

#[derive(Debug, Clone, Copy, PartialEq, Eq, Hash, Structural)]
pub enum VocabularyLevel {
    Plain,
    Moderate,
    Elevated,
    Specialized,
}

impl SnakeName for VocabularyLevel {
    open spec fn spec_name(self) -> Seq<char> {
        match self {
            VocabularyLevel::Plain => "plain"@,
            VocabularyLevel::Moderate => "moderate"@,
            VocabularyLevel::Elevated => "elevated"@,
            VocabularyLevel::Specialized => "specialized"@,
        }
    }

    fn name(&self) -> (r: &'static str) {
        match self {
            VocabularyLevel::Plain => "plain",
            VocabularyLevel::Moderate => "moderate",
            VocabularyLevel::Elevated => "elevated",
            VocabularyLevel::Specialized => "specialized",
        }
    }

    fn from_name(s: &str) -> (r: Option<Self>) {
        let r = if str_eq(s, "plain") {
            Some(VocabularyLevel::Plain)
        } else if str_eq(s, "moderate") {
            Some(VocabularyLevel::Moderate)
        } else if str_eq(s, "elevated") {
            Some(VocabularyLevel::Elevated)
        } else if str_eq(s, "specialized") {
            Some(VocabularyLevel::Specialized)
        } else {
            None
        };
        r
    }

    proof fn lemma_name_injective(a: Self, b: Self) {
        reveal_strlit("plain");
        reveal_strlit("moderate");
        reveal_strlit("elevated");
        reveal_strlit("specialized");
        assert("plain"@.len() == 5);
        assert("moderate"@.len() == 8 && "moderate"@[0] == 'm');
        assert("elevated"@.len() == 8 && "elevated"@[0] == 'e');
        assert("specialized"@.len() == 11);
    }
}

#[derive(Debug, Clone, Copy, PartialEq, Eq, Hash, Structural)]
pub enum ProfanityLevel {
    Absent,
    Mild,
    Moderate,
    Unrestricted,
}

impl SnakeName for ProfanityLevel {
    open spec fn spec_name(self) -> Seq<char> {
        match self {
            ProfanityLevel::Absent => "none"@,
            ProfanityLevel::Mild => "mild"@,
            ProfanityLevel::Moderate => "moderate"@,
            ProfanityLevel::Unrestricted => "unrestricted"@,
        }
    }

    fn name(&self) -> (r: &'static str) {
        match self {
            ProfanityLevel::Absent => "none",
            ProfanityLevel::Mild => "mild",
            ProfanityLevel::Moderate => "moderate",
            ProfanityLevel::Unrestricted => "unrestricted",
        }
    }

    fn from_name(s: &str) -> (r: Option<Self>) {
        let r = if str_eq(s, "none") {
            Some(ProfanityLevel::Absent)
        } else if str_eq(s, "mild") {
            Some(ProfanityLevel::Mild)
        } else if str_eq(s, "moderate") {
            Some(ProfanityLevel::Moderate)
        } else if str_eq(s, "unrestricted") {
            Some(ProfanityLevel::Unrestricted)
        } else {
            None
        };
        r
    }

    proof fn lemma_name_injective(a: Self, b: Self) {
        reveal_strlit("none");
        reveal_strlit("mild");
        reveal_strlit("moderate");
        reveal_strlit("unrestricted");
        assert("none"@.len() == 4 && "none"@[0] == 'n');
        assert("mild"@.len() == 4 && "mild"@[0] == 'm');
        assert("moderate"@.len() == 8);
        assert("unrestricted"@.len() == 12);
    }
}

#[derive(Debug, Clone, Copy, PartialEq, Eq, Hash, Structural)]
pub enum DominantSense {
    Visual,
    Auditory,
    Tactile,
    Olfactory,
    Gustatory,
}

impl SnakeName for DominantSense {
    open spec fn spec_name(self) -> Seq<char> {
        match self {
            DominantSense::Visual => "visual"@,
            DominantSense::Auditory => "auditory"@,
            DominantSense::Tactile => "tactile"@,
            DominantSense::Olfactory => "olfactory"@,
            DominantSense::Gustatory => "gustatory"@,
        }
    }

    fn name(&self) -> (r: &'static str) {
        match self {
            DominantSense::Visual => "visual",
            DominantSense::Auditory => "auditory",
            DominantSense::Tactile => "tactile",
            DominantSense::Olfactory => "olfactory",
            DominantSense::Gustatory => "gustatory",
        }
    }

    fn from_name(s: &str) -> (r: Option<Self>) {
        let r = if str_eq(s, "visual") {
            Some(DominantSense::Visual)
        } else if str_eq(s, "auditory") {
            Some(DominantSense::Auditory)
        } else if str_eq(s, "tactile") {
            Some(DominantSense::Tactile)
        } else if str_eq(s, "olfactory") {
            Some(DominantSense::Olfactory)
        } else if str_eq(s, "gustatory") {
            Some(DominantSense::Gustatory)
        } else {
            None
        };
        r
    }

    proof fn lemma_name_injective(a: Self, b: Self) {
        reveal_strlit("visual");
        reveal_strlit("auditory");
        reveal_strlit("tactile");
        reveal_strlit("olfactory");
        reveal_strlit("gustatory");
        assert("visual"@.len() == 6);
        assert("auditory"@.len() == 8);
        assert("tactile"@.len() == 7);
        assert("olfactory"@.len() == 9 && "olfactory"@[0] == 'o');
        assert("gustatory"@.len() == 9 && "gustatory"@[0] == 'g');
    }
}

#[derive(Debug, Clone, Copy, PartialEq, Eq, Hash, Structural)]
pub enum TimeOfDay {
    Dawn,
    Morning,
    Midday,
    Afternoon,
    Dusk,
    Evening,
    Night,
    Midnight,
}

impl SnakeName for TimeOfDay {
    open spec fn spec_name(self) -> Seq<char> {
        match self {
            TimeOfDay::Dawn => "dawn"@,
            TimeOfDay::Morning => "morning"@,
            TimeOfDay::Midday => "midday"@,
            TimeOfDay::Afternoon => "afternoon"@,
            TimeOfDay::Dusk => "dusk"@,
            TimeOfDay::Evening => "evening"@,
            TimeOfDay::Night => "night"@,
            TimeOfDay::Midnight => "midnight"@,
        }
    }

    fn name(&self) -> (r: &'static str) {
        match self {
            TimeOfDay::Dawn => "dawn",
            TimeOfDay::Morning => "morning",
            TimeOfDay::Midday => "midday",
            TimeOfDay::Afternoon => "afternoon",
            TimeOfDay::Dusk => "dusk",
            TimeOfDay::Evening => "evening",
            TimeOfDay::Night => "night",
            TimeOfDay::Midnight => "midnight",
        }
    }

    fn from_name(s: &str) -> (r: Option<Self>) {
        let r = if str_eq(s, "dawn") {
            Some(TimeOfDay::Dawn)
        } else if str_eq(s, "morning") {
            Some(TimeOfDay::Morning)
        } else if str_eq(s, "midday") {
            Some(TimeOfDay::Midday)
        } else if str_eq(s, "afternoon") {
            Some(TimeOfDay::Afternoon)
        } else if str_eq(s, "dusk") {
            Some(TimeOfDay::Dusk)
        } else if str_eq(s, "evening") {
            Some(TimeOfDay::Evening)
        } else if str_eq(s, "night") {
            Some(TimeOfDay::Night)
        } else if str_eq(s, "midnight") {
            Some(TimeOfDay::Midnight)
        } else {
            None
        };
        r
    }

    proof fn lemma_name_injective(a: Self, b: Self) {
        reveal_strlit("dawn");
        reveal_strlit("morning");
        reveal_strlit("midday");
        reveal_strlit("afternoon");
        reveal_strlit("dusk");
        reveal_strlit("evening");
        reveal_strlit("night");
        reveal_strlit("midnight");
        assert("dawn"@.len() == 4 && "dawn"@[1] == 'a');
        assert("morning"@.len() == 7 && "morning"@[0] == 'm');
        assert("midday"@.len() == 6);
        assert("afternoon"@.len() == 9);
        assert("dusk"@.len() == 4 && "dusk"@[1] == 'u');
        assert("evening"@.len() == 7 && "evening"@[0] == 'e');
        assert("night"@.len() == 5);
        assert("midnight"@.len() == 8);
    }
}

#[derive(Debug, Clone, Copy, PartialEq, Eq, Hash, Structural)]
pub enum Weather {
    Clear,
    Rain,
    Storm,
    Fog,
    Snow,
    Wind,
    Overcast,
}

impl SnakeName for Weather {
    open spec fn spec_name(self) -> Seq<char> {
        match self {
            Weather::Clear => "clear"@,
            Weather::Rain => "rain"@,
            Weather::Storm => "storm"@,
            Weather::Fog => "fog"@,
            Weather::Snow => "snow"@,
            Weather::Wind => "wind"@,
            Weather::Overcast => "overcast"@,
        }
    }

    fn name(&self) -> (r: &'static str) {
        match self {
            Weather::Clear => "clear",
            Weather::Rain => "rain",
            Weather::Storm => "storm",
            Weather::Fog => "fog",
            Weather::Snow => "snow",
            Weather::Wind => "wind",
            Weather::Overcast => "overcast",
        }
    }

    fn from_name(s: &str) -> (r: Option<Self>) {
        let r = if str_eq(s, "clear") {
            Some(Weather::Clear)
        } else if str_eq(s, "rain") {
            Some(Weather::Rain)
        } else if str_eq(s, "storm") {
            Some(Weather::Storm)
        } else if str_eq(s, "fog") {
            Some(Weather::Fog)
        } else if str_eq(s, "snow") {
            Some(Weather::Snow)
        } else if str_eq(s, "wind") {
            Some(Weather::Wind)
        } else if str_eq(s, "overcast") {
            Some(Weather::Overcast)
        } else {
            None
        };
        r
    }

    proof fn lemma_name_injective(a: Self, b: Self) {
        reveal_strlit("clear");
        reveal_strlit("rain");
        reveal_strlit("storm");
        reveal_strlit("fog");
        reveal_strlit("snow");
        reveal_strlit("wind");
        reveal_strlit("overcast");
        assert("clear"@.len() == 5 && "clear"@[0] == 'c');
        assert("rain"@.len() == 4 && "rain"@[0] == 'r');
        assert("storm"@.len() == 5 && "storm"@[0] == 's');
        assert("fog"@.len() == 3);
        assert("snow"@.len() == 4 && "snow"@[0] == 's');
        assert("wind"@.len() == 4 && "wind"@[0] == 'w');
        assert("overcast"@.len() == 8);
    }
}

/// Motif stage in the narrative arc.
#[derive(Debug, Clone, Copy, PartialEq, Eq, Hash, Structural)]
pub enum MotifStage {
    Introduction,
    Development,
    Payoff,
}

impl SnakeName for MotifStage {
    open spec fn spec_name(self) -> Seq<char> {
        match self {
            MotifStage::Introduction => "introduction"@,
            MotifStage::Development => "development"@,
            MotifStage::Payoff => "payoff"@,
        }
    }

    fn name(&self) -> (r: &'static str) {
        match self {
            MotifStage::Introduction => "introduction",
            MotifStage::Development => "development",
            MotifStage::Payoff => "payoff",
        }
    }

    fn from_name(s: &str) -> (r: Option<Self>) {
        let r = if str_eq(s, "introduction") {
            Some(MotifStage::Introduction)
        } else if str_eq(s, "development") {
            Some(MotifStage::Development)
        } else if str_eq(s, "payoff") {
            Some(MotifStage::Payoff)
        } else {
            None
        };
        r
    }

    proof fn lemma_name_injective(a: Self, b: Self) {
        reveal_strlit("introduction");
        reveal_strlit("development");
        reveal_strlit("payoff");
        assert("introduction"@.len() == 12);
        assert("development"@.len() == 11);
        assert("payoff"@.len() == 6);
    }
}

/// Core emotional states for character scene state tracking.
/// Aligned with `enums.schema.json#/$defs/emotion`.
#[derive(Debug, Clone, Copy, PartialEq, Eq, Hash, Structural)]
pub enum Emotion {
    Joy,
    Contentment,
    Hope,
    Pride,
    Love,
    Gratitude,
    Relief,
    Anger,
    Frustration,
    Resentment,
    Contempt,
    Disgust,
    Fear,
    Anxiety,
    Dread,
    Panic,
    Sadness,
    Grief,
    Despair,
    Melancholy,
    Loneliness,
    Shame,
    Guilt,
    Embarrassment,
    Humiliation,
    Surprise,
    Shock,
    Confusion,
    Disbelief,
    Curiosity,
    Interest,
    Anticipation,
    Boredom,
    Apathy,
    Resignation,
    Jealousy,
    Envy,
    Neutral,
    Conflicted,
    Mixed,
}

impl SnakeName for Emotion {
    open spec fn spec_name(self) -> Seq<char> {
        match self {
            Emotion::Joy => "joy"@,
            Emotion::Contentment => "contentment"@,
            Emotion::Hope => "hope"@,
            Emotion::Pride => "pride"@,
            Emotion::Love => "love"@,
            Emotion::Gratitude => "gratitude"@,
            Emotion::Relief => "relief"@,
            Emotion::Anger => "anger"@,
            Emotion::Frustration => "frustration"@,
            Emotion::Resentment => "resentment"@,
            Emotion::Contempt => "contempt"@,
            Emotion::Disgust => "disgust"@,
            Emotion::Fear => "fear"@,
            Emotion::Anxiety => "anxiety"@,
            Emotion::Dread => "dread"@,
            Emotion::Panic => "panic"@,
            Emotion::Sadness => "sadness"@,
            Emotion::Grief => "grief"@,
            Emotion::Despair => "despair"@,
            Emotion::Melancholy => "melancholy"@,
            Emotion::Loneliness => "loneliness"@,
            Emotion::Shame => "shame"@,
            Emotion::Guilt => "guilt"@,
            Emotion::Embarrassment => "embarrassment"@,
            Emotion::Humiliation => "humiliation"@,
            Emotion::Surprise => "surprise"@,
            Emotion::Shock => "shock"@,
            Emotion::Confusion => "confusion"@,
            Emotion::Disbelief => "disbelief"@,
            Emotion::Curiosity => "curiosity"@,
            Emotion::Interest => "interest"@,
            Emotion::Anticipation => "anticipation"@,
            Emotion::Boredom => "boredom"@,
            Emotion::Apathy => "apathy"@,
            Emotion::Resignation => "resignation"@,
            Emotion::Jealousy => "jealousy"@,
            Emotion::Envy => "envy"@,
            Emotion::Neutral => "neutral"@,
            Emotion::Conflicted => "conflicted"@,
            Emotion::Mixed => "mixed"@,
        }
    }

    fn name(&self) -> (r: &'static str) {
        match self {
            Emotion::Joy => "joy",
            Emotion::Contentment => "contentment",
            Emotion::Hope => "hope",
            Emotion::Pride => "pride",
            Emotion::Love => "love",
            Emotion::Gratitude => "gratitude",
            Emotion::Relief => "relief",
            Emotion::Anger => "anger",
            Emotion::Frustration => "frustration",
            Emotion::Resentment => "resentment",
            Emotion::Contempt => "contempt",
            Emotion::Disgust => "disgust",
            Emotion::Fear => "fear",
            Emotion::Anxiety => "anxiety",
            Emotion::Dread => "dread",
            Emotion::Panic => "panic",
            Emotion::Sadness => "sadness",
            Emotion::Grief => "grief",
            Emotion::Despair => "despair",
            Emotion::Melancholy => "melancholy",
            Emotion::Loneliness => "loneliness",
            Emotion::Shame => "shame",
            Emotion::Guilt => "guilt",
            Emotion::Embarrassment => "embarrassment",
            Emotion::Humiliation => "humiliation",
            Emotion::Surprise => "surprise",
            Emotion::Shock => "shock",
            Emotion::Confusion => "confusion",
            Emotion::Disbelief => "disbelief",
            Emotion::Curiosity => "curiosity",
            Emotion::Interest => "interest",
            Emotion::Anticipation => "anticipation",
            Emotion::Boredom => "boredom",
            Emotion::Apathy => "apathy",
            Emotion::Resignation => "resignation",
            Emotion::Jealousy => "jealousy",
            Emotion::Envy => "envy",
            Emotion::Neutral => "neutral",
            Emotion::Conflicted => "conflicted",
            Emotion::Mixed => "mixed",
        }
    }

    fn from_name(s: &str) -> (r: Option<Self>) {
        let r = if str_eq(s, "joy") {
            Some(Emotion::Joy)
        } else if str_eq(s, "contentment") {
            Some(Emotion::Contentment)
        } else if str_eq(s, "hope") {
            Some(Emotion::Hope)
        } else if str_eq(s, "pride") {
            Some(Emotion::Pride)
        } else if str_eq(s, "love") {
            Some(Emotion::Love)
        } else if str_eq(s, "gratitude") {
            Some(Emotion::Gratitude)
        } else if str_eq(s, "relief") {
            Some(Emotion::Relief)
        } else if str_eq(s, "anger") {
            Some(Emotion::Anger)
        } else if str_eq(s, "frustration") {
            Some(Emotion::Frustration)
        } else if str_eq(s, "resentment") {
            Some(Emotion::Resentment)
        } else if str_eq(s, "contempt") {
            Some(Emotion::Contempt)
        } else if str_eq(s, "disgust") {
            Some(Emotion::Disgust)
        } else if str_eq(s, "fear") {
            Some(Emotion::Fear)
        } else if str_eq(s, "anxiety") {
            Some(Emotion::Anxiety)
        } else if str_eq(s, "dread") {
            Some(Emotion::Dread)
        } else if str_eq(s, "panic") {
            Some(Emotion::Panic)
        } else if str_eq(s, "sadness") {
            Some(Emotion::Sadness)
        } else if str_eq(s, "grief") {
            Some(Emotion::Grief)
        } else if str_eq(s, "despair") {
            Some(Emotion::Despair)
        } else if str_eq(s, "melancholy") {
            Some(Emotion::Melancholy)
        } else if str_eq(s, "loneliness") {
            Some(Emotion::Loneliness)
        } else if str_eq(s, "shame") {
            Some(Emotion::Shame)
        } else if str_eq(s, "guilt") {
            Some(Emotion::Guilt)
        } else if str_eq(s, "embarrassment") {
            Some(Emotion::Embarrassment)
        } else if str_eq(s, "humiliation") {
            Some(Emotion::Humiliation)
        } else if str_eq(s, "surprise") {
            Some(Emotion::Surprise)
        } else if str_eq(s, "shock") {
            Some(Emotion::Shock)
        } else if str_eq(s, "confusion") {
            Some(Emotion::Confusion)
        } else if str_eq(s, "disbelief") {
            Some(Emotion::Disbelief)
        } else if str_eq(s, "curiosity") {
            Some(Emotion::Curiosity)
        } else if str_eq(s, "interest") {
            Some(Emotion::Interest)
        } else if str_eq(s, "anticipation") {
            Some(Emotion::Anticipation)
        } else if str_eq(s, "boredom") {
            Some(Emotion::Boredom)
        } else if str_eq(s, "apathy") {
            Some(Emotion::Apathy)
        } else if str_eq(s, "resignation") {
            Some(Emotion::Resignation)
        } else if str_eq(s, "jealousy") {
            Some(Emotion::Jealousy)
        } else if str_eq(s, "envy") {
            Some(Emotion::Envy)
        } else if str_eq(s, "neutral") {
            Some(Emotion::Neutral)
        } else if str_eq(s, "conflicted") {
            Some(Emotion::Conflicted)
        } else if str_eq(s, "mixed") {
            Some(Emotion::Mixed)
        } else {
            None
        };
        r
    }

    #[verifier::rlimit(50)]
    proof fn lemma_name_injective(a: Self, b: Self) {
        reveal_strlit("joy");
        reveal_strlit("contentment");
        reveal_strlit("hope");
        reveal_strlit("pride");
        reveal_strlit("love");
        reveal_strlit("gratitude");
        reveal_strlit("relief");
        reveal_strlit("anger");
        reveal_strlit("frustration");
        reveal_strlit("resentment");
        reveal_strlit("contempt");
        reveal_strlit("disgust");
        reveal_strlit("fear");
        reveal_strlit("anxiety");
        reveal_strlit("dread");
        reveal_strlit("panic");
        reveal_strlit("sadness");
        reveal_strlit("grief");
        reveal_strlit("despair");
        reveal_strlit("melancholy");
        reveal_strlit("loneliness");
        reveal_strlit("shame");
        reveal_strlit("guilt");
        reveal_strlit("embarrassment");
        reveal_strlit("humiliation");
        reveal_strlit("surprise");
        reveal_strlit("shock");
        reveal_strlit("confusion");
        reveal_strlit("disbelief");
        reveal_strlit("curiosity");
        reveal_strlit("interest");
        reveal_strlit("anticipation");
        reveal_strlit("boredom");
        reveal_strlit("apathy");
        reveal_strlit("resignation");
        reveal_strlit("jealousy");
        reveal_strlit("envy");
        reveal_strlit("neutral");
        reveal_strlit("conflicted");
        reveal_strlit("mixed");
        assert("joy"@.len() == 3);
        assert("contentment"@.len() == 11 && "contentment"@[0] == 'c');
        assert("hope"@.len() == 4 && "hope"@[0] == 'h');
        assert("pride"@.len() == 5 && "pride"@[0] == 'p' && "pride"@[1] == 'r');
        assert("love"@.len() == 4 && "love"@[0] == 'l');
        assert("gratitude"@.len() == 9 && "gratitude"@[0] == 'g');
        assert("relief"@.len() == 6 && "relief"@[0] == 'r');
        assert("anger"@.len() == 5 && "anger"@[0] == 'a');
        assert("frustration"@.len() == 11 && "frustration"@[0] == 'f');
        assert("resentment"@.len() == 10 && "resentment"@[0] == 'r');
        assert("contempt"@.len() == 8 && "contempt"@[0] == 'c');
        assert("disgust"@.len() == 7 && "disgust"@[0] == 'd' && "disgust"@[1] == 'i');
        assert("fear"@.len() == 4 && "fear"@[0] == 'f');
        assert("anxiety"@.len() == 7 && "anxiety"@[0] == 'a');
        assert("dread"@.len() == 5 && "dread"@[0] == 'd');
        assert("panic"@.len() == 5 && "panic"@[0] == 'p' && "panic"@[1] == 'a');
        assert("sadness"@.len() == 7 && "sadness"@[0] == 's');
        assert("grief"@.len() == 5 && "grief"@[0] == 'g' && "grief"@[1] == 'r');
        assert("despair"@.len() == 7 && "despair"@[0] == 'd' && "despair"@[1] == 'e');
        assert("melancholy"@.len() == 10 && "melancholy"@[0] == 'm');
        assert("loneliness"@.len() == 10 && "loneliness"@[0] == 'l');
        assert("shame"@.len() == 5 && "shame"@[0] == 's' && "shame"@[2] == 'a');
        assert("guilt"@.len() == 5 && "guilt"@[0] == 'g' && "guilt"@[1] == 'u');
        assert("embarrassment"@.len() == 13);
        assert("humiliation"@.len() == 11 && "humiliation"@[0] == 'h');
        assert("surprise"@.len() == 8 && "surprise"@[0] == 's');
        assert("shock"@.len() == 5 && "shock"@[0] == 's' && "shock"@[2] == 'o');
        assert("confusion"@.len() == 9 && "confusion"@[0] == 'c' && "confusion"@[1] == 'o');
        assert("disbelief"@.len() == 9 && "disbelief"@[0] == 'd');
        assert("curiosity"@.len() == 9 && "curiosity"@[0] == 'c' && "curiosity"@[1] == 'u');
        assert("interest"@.len() == 8 && "interest"@[0] == 'i');
        assert("anticipation"@.len() == 12);
        assert("boredom"@.len() == 7 && "boredom"@[0] == 'b');
        assert("apathy"@.len() == 6 && "apathy"@[0] == 'a');
        assert("resignation"@.len() == 11 && "resignation"@[0] == 'r');
        assert("jealousy"@.len() == 8 && "jealousy"@[0] == 'j');
        assert("envy"@.len() == 4 && "envy"@[0] == 'e');
        assert("neutral"@.len() == 7 && "neutral"@[0] == 'n');
        assert("conflicted"@.len() == 10 && "conflicted"@[0] == 'c');
        assert("mixed"@.len() == 5 && "mixed"@[0] == 'm');
    }
}

/// Scene tone/emotional register.
/// Aligned with `enums.schema.json#/$defs/tone`.
#[derive(Debug, Clone, Copy, PartialEq, Eq, Hash, Structural)]
pub enum Tone {
    Tender,
    Intimate,
    Warm,
    Affectionate,
    Playful,
    Humorous,
    Ironic,
    Satirical,
    Sardonic,
    Tense,
    Anxious,
    Ominous,
    Menacing,
    Threatening,
    Confrontational,
    Hostile,
    Aggressive,
    Melancholic,
    Elegiac,
    Mournful,
    Somber,
    Hopeful,
    Optimistic,
    Triumphant,
    Desperate,
    Frantic,
    Chaotic,
    Calm,
    Peaceful,
    Contemplative,
    Reflective,
    Formal,
    Ceremonial,
    Dignified,
    Casual,
    Everyday,
    Mundane,
    Mysterious,
    Eerie,
    Uncanny,
    Romantic,
    Passionate,
    Erotic,
    Clinical,
    Detached,
    ToneNeutral,
}

impl SnakeName for Tone {
    open spec fn spec_name(self) -> Seq<char> {
        match self {
            Tone::Tender => "tender"@,
            Tone::Intimate => "intimate"@,
            Tone::Warm => "warm"@,
            Tone::Affectionate => "affectionate"@,
            Tone::Playful => "playful"@,
            Tone::Humorous => "humorous"@,
            Tone::Ironic => "ironic"@,
            Tone::Satirical => "satirical"@,
            Tone::Sardonic => "sardonic"@,
            Tone::Tense => "tense"@,
            Tone::Anxious => "anxious"@,
            Tone::Ominous => "ominous"@,
            Tone::Menacing => "menacing"@,
            Tone::Threatening => "threatening"@,
            Tone::Confrontational => "confrontational"@,
            Tone::Hostile => "hostile"@,
            Tone::Aggressive => "aggressive"@,
            Tone::Melancholic => "melancholic"@,
            Tone::Elegiac => "elegiac"@,
            Tone::Mournful => "mournful"@,
            Tone::Somber => "somber"@,
            Tone::Hopeful => "hopeful"@,
            Tone::Optimistic => "optimistic"@,
            Tone::Triumphant => "triumphant"@,
            Tone::Desperate => "desperate"@,
            Tone::Frantic => "frantic"@,
            Tone::Chaotic => "chaotic"@,
            Tone::Calm => "calm"@,
            Tone::Peaceful => "peaceful"@,
            Tone::Contemplative => "contemplative"@,
            Tone::Reflective => "reflective"@,
            Tone::Formal => "formal"@,
            Tone::Ceremonial => "ceremonial"@,
            Tone::Dignified => "dignified"@,
            Tone::Casual => "casual"@,
            Tone::Everyday => "everyday"@,
            Tone::Mundane => "mundane"@,
            Tone::Mysterious => "mysterious"@,
            Tone::Eerie => "eerie"@,
            Tone::Uncanny => "uncanny"@,
            Tone::Romantic => "romantic"@,
            Tone::Passionate => "passionate"@,
            Tone::Erotic => "erotic"@,
            Tone::Clinical => "clinical"@,
            Tone::Detached => "detached"@,
            Tone::ToneNeutral => "tone_neutral"@,
        }
    }

    fn name(&self) -> (r: &'static str) {
        match self {
            Tone::Tender => "tender",
            Tone::Intimate => "intimate",
            Tone::Warm => "warm",
            Tone::Affectionate => "affectionate",
            Tone::Playful => "playful",
            Tone::Humorous => "humorous",
            Tone::Ironic => "ironic",
            Tone::Satirical => "satirical",
            Tone::Sardonic => "sardonic",
            Tone::Tense => "tense",
            Tone::Anxious => "anxious",
            Tone::Ominous => "ominous",
            Tone::Menacing => "menacing",
            Tone::Threatening => "threatening",
            Tone::Confrontational => "confrontational",
            Tone::Hostile => "hostile",
            Tone::Aggressive => "aggressive",
            Tone::Melancholic => "melancholic",
            Tone::Elegiac => "elegiac",
            Tone::Mournful => "mournful",
            Tone::Somber => "somber",
            Tone::Hopeful => "hopeful",
            Tone::Optimistic => "optimistic",
            Tone::Triumphant => "triumphant",
            Tone::Desperate => "desperate",
            Tone::Frantic => "frantic",
            Tone::Chaotic => "chaotic",
            Tone::Calm => "calm",
            Tone::Peaceful => "peaceful",
            Tone::Contemplative => "contemplative",
            Tone::Reflective => "reflective",
            Tone::Formal => "formal",
            Tone::Ceremonial => "ceremonial",
            Tone::Dignified => "dignified",
            Tone::Casual => "casual",
            Tone::Everyday => "everyday",
            Tone::Mundane => "mundane",
            Tone::Mysterious => "mysterious",
            Tone::Eerie => "eerie",
            Tone::Uncanny => "uncanny",
            Tone::Romantic => "romantic",
            Tone::Passionate => "passionate",
            Tone::Erotic => "erotic",
            Tone::Clinical => "clinical",
            Tone::Detached => "detached",
            Tone::ToneNeutral => "tone_neutral",
        }
    }

    fn from_name(s: &str) -> (r: Option<Self>) {
        let r = if str_eq(s, "tender") {
            Some(Tone::Tender)
        } else if str_eq(s, "intimate") {
            Some(Tone::Intimate)
        } else if str_eq(s, "warm") {
            Some(Tone::Warm)
        } else if str_eq(s, "affectionate") {
            Some(Tone::Affectionate)
        } else if str_eq(s, "playful") {
            Some(Tone::Playful)
        } else if str_eq(s, "humorous") {
            Some(Tone::Humorous)
        } else if str_eq(s, "ironic") {
            Some(Tone::Ironic)
        } else if str_eq(s, "satirical") {
            Some(Tone::Satirical)
        } else if str_eq(s, "sardonic") {
            Some(Tone::Sardonic)
        } else if str_eq(s, "tense") {
            Some(Tone::Tense)
        } else if str_eq(s, "anxious") {
            Some(Tone::Anxious)
        } else if str_eq(s, "ominous") {
            Some(Tone::Ominous)
        } else if str_eq(s, "menacing") {
            Some(Tone::Menacing)
        } else if str_eq(s, "threatening") {
            Some(Tone::Threatening)
        } else if str_eq(s, "confrontational") {
            Some(Tone::Confrontational)
        } else if str_eq(s, "hostile") {
            Some(Tone::Hostile)
        } else if str_eq(s, "aggressive") {
            Some(Tone::Aggressive)
        } else if str_eq(s, "melancholic") {
            Some(Tone::Melancholic)
        } else if str_eq(s, "elegiac") {
            Some(Tone::Elegiac)
        } else if str_eq(s, "mournful") {
            Some(Tone::Mournful)
        } else if str_eq(s, "somber") {
            Some(Tone::Somber)
        } else if str_eq(s, "hopeful") {
            Some(Tone::Hopeful)
        } else if str_eq(s, "optimistic") {
            Some(Tone::Optimistic)
        } else if str_eq(s, "triumphant") {
            Some(Tone::Triumphant)
        } else if str_eq(s, "desperate") {
            Some(Tone::Desperate)
        } else if str_eq(s, "frantic") {
            Some(Tone::Frantic)
        } else if str_eq(s, "chaotic") {
            Some(Tone::Chaotic)
        } else if str_eq(s, "calm") {
            Some(Tone::Calm)
        } else if str_eq(s, "peaceful") {
            Some(Tone::Peaceful)
        } else if str_eq(s, "contemplative") {
            Some(Tone::Contemplative)
        } else if str_eq(s, "reflective") {
            Some(Tone::Reflective)
        } else if str_eq(s, "formal") {
            Some(Tone::Formal)
        } else if str_eq(s, "ceremonial") {
            Some(Tone::Ceremonial)
        } else if str_eq(s, "dignified") {
            Some(Tone::Dignified)
        } else if str_eq(s, "casual") {
            Some(Tone::Casual)
        } else if str_eq(s, "everyday") {
            Some(Tone::Everyday)
        } else if str_eq(s, "mundane") {
            Some(Tone::Mundane)
        } else if str_eq(s, "mysterious") {
            Some(Tone::Mysterious)
        } else if str_eq(s, "eerie") {
            Some(Tone::Eerie)
        } else if str_eq(s, "uncanny") {
            Some(Tone::Uncanny)
        } else if str_eq(s, "romantic") {
            Some(Tone::Romantic)
        } else if str_eq(s, "passionate") {
            Some(Tone::Passionate)
        } else if str_eq(s, "erotic") {
            Some(Tone::Erotic)
        } else if str_eq(s, "clinical") {
            Some(Tone::Clinical)
        } else if str_eq(s, "detached") {
            Some(Tone::Detached)
        } else if str_eq(s, "tone_neutral") {
            Some(Tone::ToneNeutral)
        } else {
            None
        };
        r
    }

    #[verifier::rlimit(50)]
    proof fn lemma_name_injective(a: Self, b: Self) {
        reveal_strlit("tender");
        reveal_strlit("intimate");
        reveal_strlit("warm");
        reveal_strlit("affectionate");
        reveal_strlit("playful");
        reveal_strlit("humorous");
        reveal_strlit("ironic");
        reveal_strlit("satirical");
        reveal_strlit("sardonic");
        reveal_strlit("tense");
        reveal_strlit("anxious");
        reveal_strlit("ominous");
        reveal_strlit("menacing");
        reveal_strlit("threatening");
        reveal_strlit("confrontational");
        reveal_strlit("hostile");
        reveal_strlit("aggressive");
        reveal_strlit("melancholic");
        reveal_strlit("elegiac");
        reveal_strlit("mournful");
        reveal_strlit("somber");
        reveal_strlit("hopeful");
        reveal_strlit("optimistic");
        reveal_strlit("triumphant");
        reveal_strlit("desperate");
        reveal_strlit("frantic");
        reveal_strlit("chaotic");
        reveal_strlit("calm");
        reveal_strlit("peaceful");
        reveal_strlit("contemplative");
        reveal_strlit("reflective");
        reveal_strlit("formal");
        reveal_strlit("ceremonial");
        reveal_strlit("dignified");
        reveal_strlit("casual");
        reveal_strlit("everyday");
        reveal_strlit("mundane");
        reveal_strlit("mysterious");
        reveal_strlit("eerie");
        reveal_strlit("uncanny");
        reveal_strlit("romantic");
        reveal_strlit("passionate");
        reveal_strlit("erotic");
        reveal_strlit("clinical");
        reveal_strlit("detached");
        reveal_strlit("tone_neutral");
        assert("tender"@.len() == 6 && "tender"@[0] == 't');
        assert("intimate"@.len() == 8 && "intimate"@[0] == 'i');
        assert("warm"@.len() == 4 && "warm"@[0] == 'w');
        assert("affectionate"@.len() == 12 && "affectionate"@[0] == 'a');
        assert("playful"@.len() == 7 && "playful"@[0] == 'p');
        assert("humorous"@.len() == 8 && "humorous"@[0] == 'h');
        assert("ironic"@.len() == 6 && "ironic"@[0] == 'i');
        assert("satirical"@.len() == 9 && "satirical"@[0] == 's');
        assert("sardonic"@.len() == 8 && "sardonic"@[0] == 's');
        assert("tense"@.len() == 5 && "tense"@[0] == 't');
        assert("anxious"@.len() == 7 && "anxious"@[0] == 'a');
        assert("ominous"@.len() == 7 && "ominous"@[0] == 'o');
        assert("menacing"@.len() == 8 && "menacing"@[0] == 'm' && "menacing"@[1] == 'e');
        assert("threatening"@.len() == 11 && "threatening"@[0] == 't');
        assert("confrontational"@.len() == 15);
        assert("hostile"@.len() == 7 && "hostile"@[0] == 'h' && "hostile"@[2] == 's');
        assert("aggressive"@.len() == 10 && "aggressive"@[0] == 'a');
        assert("melancholic"@.len() == 11 && "melancholic"@[0] == 'm');
        assert("elegiac"@.len() == 7 && "elegiac"@[0] == 'e');
        assert("mournful"@.len() == 8 && "mournful"@[0] == 'm' && "mournful"@[1] == 'o');
        assert("somber"@.len() == 6 && "somber"@[0] == 's');
        assert("hopeful"@.len() == 7 && "hopeful"@[0] == 'h' && "hopeful"@[2] == 'p');
        assert("optimistic"@.len() == 10 && "optimistic"@[0] == 'o');
        assert("triumphant"@.len() == 10 && "triumphant"@[0] == 't');
        assert("desperate"@.len() == 9 && "desperate"@[0] == 'd' && "desperate"@[1] == 'e');
        assert("frantic"@.len() == 7 && "frantic"@[0] == 'f');
        assert("chaotic"@.len() == 7 && "chaotic"@[0] == 'c');
        assert("calm"@.len() == 4 && "calm"@[0] == 'c');
        assert("peaceful"@.len() == 8 && "peaceful"@[0] == 'p');
        assert("contemplative"@.len() == 13);
        assert("reflective"@.len() == 10 && "reflective"@[0] == 'r');
        assert("formal"@.len() == 6 && "formal"@[0] == 'f');
        assert("ceremonial"@.len() == 10 && "ceremonial"@[0] == 'c');
        assert("dignified"@.len() == 9 && "dignified"@[0] == 'd' && "dignified"@[1] == 'i');
        assert("casual"@.len() == 6 && "casual"@[0] == 'c');
        assert("everyday"@.len() == 8 && "everyday"@[0] == 'e');
        assert("mundane"@.len() == 7 && "mundane"@[0] == 'm');
        assert("mysterious"@.len() == 10 && "mysterious"@[0] == 'm');
        assert("eerie"@.len() == 5 && "eerie"@[0] == 'e');
        assert("uncanny"@.len() == 7 && "uncanny"@[0] == 'u');
        assert("romantic"@.len() == 8 && "romantic"@[0] == 'r');
        assert("passionate"@.len() == 10 && "passionate"@[0] == 'p');
        assert("erotic"@.len() == 6 && "erotic"@[0] == 'e');
        assert("clinical"@.len() == 8 && "clinical"@[0] == 'c');
        assert("detached"@.len() == 8 && "detached"@[0] == 'd');
        assert("tone_neutral"@.len() == 12 && "tone_neutral"@[0] == 't');
    }
}

/// What gives one character power over another.
/// Aligned with `enums.schema.json#/$defs/power_source`.
#[derive(Debug, Clone, Copy, PartialEq, Eq, Hash, Structural)]
pub enum PowerSource {
    Economic,
    SocialRank,
    ProfessionalAuthority,
    Physical,
    KnowledgeSecret,
    KnowledgeExpertise,
    MoralAuthority,
    EmotionalLeverage,
    AgeSeniority,
    Charisma,
    Institutional,
    Legal,
    Familial,
    Absent,
}

impl SnakeName for PowerSource {
    open spec fn spec_name(self) -> Seq<char> {
        match self {
            PowerSource::Economic => "economic"@,
            PowerSource::SocialRank => "social_rank"@,
            PowerSource::ProfessionalAuthority => "professional_authority"@,
            PowerSource::Physical => "physical"@,
            PowerSource::KnowledgeSecret => "knowledge_secret"@,
            PowerSource::KnowledgeExpertise => "knowledge_expertise"@,
            PowerSource::MoralAuthority => "moral_authority"@,
            PowerSource::EmotionalLeverage => "emotional_leverage"@,
            PowerSource::AgeSeniority => "age_seniority"@,
            PowerSource::Charisma => "charisma"@,
            PowerSource::Institutional => "institutional"@,
            PowerSource::Legal => "legal"@,
            PowerSource::Familial => "familial"@,
            PowerSource::Absent => "none"@,
        }
    }

    fn name(&self) -> (r: &'static str) {
        match self {
            PowerSource::Economic => "economic",
            PowerSource::SocialRank => "social_rank",
            PowerSource::ProfessionalAuthority => "professional_authority",
            PowerSource::Physical => "physical",
            PowerSource::KnowledgeSecret => "knowledge_secret",
            PowerSource::KnowledgeExpertise => "knowledge_expertise",
            PowerSource::MoralAuthority => "moral_authority",
            PowerSource::EmotionalLeverage => "emotional_leverage",
            PowerSource::AgeSeniority => "age_seniority",
            PowerSource::Charisma => "charisma",
            PowerSource::Institutional => "institutional",
            PowerSource::Legal => "legal",
            PowerSource::Familial => "familial",
            PowerSource::Absent => "none",
        }
    }

    fn from_name(s: &str) -> (r: Option<Self>) {
        let r = if str_eq(s, "economic") {
            Some(PowerSource::Economic)
        } else if str_eq(s, "social_rank") {
            Some(PowerSource::SocialRank)
        } else if str_eq(s, "professional_authority") {
            Some(PowerSource::ProfessionalAuthority)
        } else if str_eq(s, "physical") {
            Some(PowerSource::Physical)
        } else if str_eq(s, "knowledge_secret") {
            Some(PowerSource::KnowledgeSecret)
        } else if str_eq(s, "knowledge_expertise") {
            Some(PowerSource::KnowledgeExpertise)
        } else if str_eq(s, "moral_authority") {
            Some(PowerSource::MoralAuthority)
        } else if str_eq(s, "emotional_leverage") {
            Some(PowerSource::EmotionalLeverage)
        } else if str_eq(s, "age_seniority") {
            Some(PowerSource::AgeSeniority)
        } else if str_eq(s, "charisma") {
            Some(PowerSource::Charisma)
        } else if str_eq(s, "institutional") {
            Some(PowerSource::Institutional)
        } else if str_eq(s, "legal") {
            Some(PowerSource::Legal)
        } else if str_eq(s, "familial") {
            Some(PowerSource::Familial)
        } else if str_eq(s, "none") {
            Some(PowerSource::Absent)
        } else {
            None
        };
        r
    }

    proof fn lemma_name_injective(a: Self, b: Self) {
        reveal_strlit("economic");
        reveal_strlit("social_rank");
        reveal_strlit("professional_authority");
        reveal_strlit("physical");
        reveal_strlit("knowledge_secret");
        reveal_strlit("knowledge_expertise");
        reveal_strlit("moral_authority");
        reveal_strlit("emotional_leverage");
        reveal_strlit("age_seniority");
        reveal_strlit("charisma");
        reveal_strlit("institutional");
        reveal_strlit("legal");
        reveal_strlit("familial");
        reveal_strlit("none");
        assert("economic"@.len() == 8 && "economic"@[0] == 'e');
        assert("social_rank"@.len() == 11);
        assert("professional_authority"@.len() == 22);
        assert("physical"@.len() == 8 && "physical"@[0] == 'p');
        assert("knowledge_secret"@.len() == 16);
        assert("knowledge_expertise"@.len() == 19);
        assert("moral_authority"@.len() == 15);
        assert("emotional_leverage"@.len() == 18);
        assert("age_seniority"@.len() == 13 && "age_seniority"@[0] == 'a');
        assert("charisma"@.len() == 8 && "charisma"@[0] == 'c');
        assert("institutional"@.len() == 13 && "institutional"@[0] == 'i');
        assert("legal"@.len() == 5);
        assert("familial"@.len() == 8 && "familial"@[0] == 'f');
        assert("none"@.len() == 4);
    }
}

/// What one character wants from another.
/// Aligned with `enums.schema.json#/$defs/want_type`.
#[derive(Debug, Clone, Copy, PartialEq, Eq, Hash, Structural)]
pub enum WantType {
    Approval,
    Acceptance,
    Validation,
    Respect,
    WantLove,
    Affection,
    Intimacy,
    Connection,
    Information,
    Truth,
    Honesty,
    Explanation,
    Acknowledgment,
    Apology,
    Justice,
    Revenge,
    Distance,
    Escape,
    Freedom,
    Independence,
    Protection,
    Safety,
    Security,
    Control,
    Obedience,
    Submission,
    Help,
    Support,
    Cooperation,
    Forgiveness,
    Reconciliation,
    Silence,
    Discretion,
}

impl SnakeName for WantType {
    open spec fn spec_name(self) -> Seq<char> {
        match self {
            WantType::Approval => "approval"@,
            WantType::Acceptance => "acceptance"@,
            WantType::Validation => "validation"@,
            WantType::Respect => "respect"@,
            WantType::WantLove => "want_love"@,
            WantType::Affection => "affection"@,
            WantType::Intimacy => "intimacy"@,
            WantType::Connection => "connection"@,
            WantType::Information => "information"@,
            WantType::Truth => "truth"@,
            WantType::Honesty => "honesty"@,
            WantType::Explanation => "explanation"@,
            WantType::Acknowledgment => "acknowledgment"@,
            WantType::Apology => "apology"@,
            WantType::Justice => "justice"@,
            WantType::Revenge => "revenge"@,
            WantType::Distance => "distance"@,
            WantType::Escape => "escape"@,
            WantType::Freedom => "freedom"@,
            WantType::Independence => "independence"@,
            WantType::Protection => "protection"@,
            WantType::Safety => "safety"@,
            WantType::Security => "security"@,
            WantType::Control => "control"@,
            WantType::Obedience => "obedience"@,
            WantType::Submission => "submission"@,
            WantType::Help => "help"@,
            WantType::Support => "support"@,
            WantType::Cooperation => "cooperation"@,
            WantType::Forgiveness => "forgiveness"@,
            WantType::Reconciliation => "reconciliation"@,
            WantType::Silence => "silence"@,
            WantType::Discretion => "discretion"@,
        }
    }

    fn name(&self) -> (r: &'static str) {
        match self {
            WantType::Approval => "approval",
            WantType::Acceptance => "acceptance",
            WantType::Validation => "validation",
            WantType::Respect => "respect",
            WantType::WantLove => "want_love",
            WantType::Affection => "affection",
            WantType::Intimacy => "intimacy",
            WantType::Connection => "connection",
            WantType::Information => "information",
            WantType::Truth => "truth",
            WantType::Honesty => "honesty",
            WantType::Explanation => "explanation",
            WantType::Acknowledgment => "acknowledgment",
            WantType::Apology => "apology",
            WantType::Justice => "justice",
            WantType::Revenge => "revenge",
            WantType::Distance => "distance",
            WantType::Escape => "escape",
            WantType::Freedom => "freedom",
            WantType::Independence => "independence",
            WantType::Protection => "protection",
            WantType::Safety => "safety",
            WantType::Security => "security",
            WantType::Control => "control",
            WantType::Obedience => "obedience",
            WantType::Submission => "submission",
            WantType::Help => "help",
            WantType::Support => "support",
            WantType::Cooperation => "cooperation",
            WantType::Forgiveness => "forgiveness",
            WantType::Reconciliation => "reconciliation",
            WantType::Silence => "silence",
            WantType::Discretion => "discretion",
        }
    }

    fn from_name(s: &str) -> (r: Option<Self>) {
        let r = if str_eq(s, "approval") {
            Some(WantType::Approval)
        } else if str_eq(s, "acceptance") {
            Some(WantType::Acceptance)
        } else if str_eq(s, "validation") {
            Some(WantType::Validation)
        } else if str_eq(s, "respect") {
            Some(WantType::Respect)
        } else if str_eq(s, "want_love") {
            Some(WantType::WantLove)
        } else if str_eq(s, "affection") {
            Some(WantType::Affection)
        } else if str_eq(s, "intimacy") {
            Some(WantType::Intimacy)
        } else if str_eq(s, "connection") {
            Some(WantType::Connection)
        } else if str_eq(s, "information") {
            Some(WantType::Information)
        } else if str_eq(s, "truth") {
            Some(WantType::Truth)
        } else if str_eq(s, "honesty") {
            Some(WantType::Honesty)
        } else if str_eq(s, "explanation") {
            Some(WantType::Explanation)
        } else if str_eq(s, "acknowledgment") {
            Some(WantType::Acknowledgment)
        } else if str_eq(s, "apology") {
            Some(WantType::Apology)
        } else if str_eq(s, "justice") {
            Some(WantType::Justice)
        } else if str_eq(s, "revenge") {
            Some(WantType::Revenge)
        } else if str_eq(s, "distance") {
            Some(WantType::Distance)
        } else if str_eq(s, "escape") {
            Some(WantType::Escape)
        } else if str_eq(s, "freedom") {
            Some(WantType::Freedom)
        } else if str_eq(s, "independence") {
            Some(WantType::Independence)
        } else if str_eq(s, "protection") {
            Some(WantType::Protection)
        } else if str_eq(s, "safety") {
            Some(WantType::Safety)
        } else if str_eq(s, "security") {
            Some(WantType::Security)
        } else if str_eq(s, "control") {
            Some(WantType::Control)
        } else if str_eq(s, "obedience") {
            Some(WantType::Obedience)
        } else if str_eq(s, "submission") {
            Some(WantType::Submission)
        } else if str_eq(s, "help") {
            Some(WantType::Help)
        } else if str_eq(s, "support") {
            Some(WantType::Support)
        } else if str_eq(s, "cooperation") {
            Some(WantType::Cooperation)
        } else if str_eq(s, "forgiveness") {
            Some(WantType::Forgiveness)
        } else if str_eq(s, "reconciliation") {
            Some(WantType::Reconciliation)
        } else if str_eq(s, "silence") {
            Some(WantType::Silence)
        } else if str_eq(s, "discretion") {
            Some(WantType::Discretion)
        } else {
            None
        };
        r
    }

    #[verifier::rlimit(50)]
    proof fn lemma_name_injective(a: Self, b: Self) {
        reveal_strlit("approval");
        reveal_strlit("acceptance");
        reveal_strlit("validation");
        reveal_strlit("respect");
        reveal_strlit("want_love");
        reveal_strlit("affection");
        reveal_strlit("intimacy");
        reveal_strlit("connection");
        reveal_strlit("information");
        reveal_strlit("truth");
        reveal_strlit("honesty");
        reveal_strlit("explanation");
        reveal_strlit("acknowledgment");
        reveal_strlit("apology");
        reveal_strlit("justice");
        reveal_strlit("revenge");
        reveal_strlit("distance");
        reveal_strlit("escape");
        reveal_strlit("freedom");
        reveal_strlit("independence");
        reveal_strlit("protection");
        reveal_strlit("safety");
        reveal_strlit("security");
        reveal_strlit("control");
        reveal_strlit("obedience");
        reveal_strlit("submission");
        reveal_strlit("help");
        reveal_strlit("support");
        reveal_strlit("cooperation");
        reveal_strlit("forgiveness");
        reveal_strlit("reconciliation");
        reveal_strlit("silence");
        reveal_strlit("discretion");
        assert("approval"@.len() == 8 && "approval"@[0] == 'a');
        assert("acceptance"@.len() == 10 && "acceptance"@[0] == 'a');
        assert("validation"@.len() == 10 && "validation"@[0] == 'v');
        assert("respect"@.len() == 7 && "respect"@[0] == 'r' && "respect"@[2] == 's');
        assert("want_love"@.len() == 9 && "want_love"@[0] == 'w');
        assert("affection"@.len() == 9 && "affection"@[0] == 'a');
        assert("intimacy"@.len() == 8 && "intimacy"@[0] == 'i');
        assert("connection"@.len() == 10 && "connection"@[0] == 'c');
        assert("information"@.len() == 11 && "information"@[0] == 'i');
        assert("truth"@.len() == 5);
        assert("honesty"@.len() == 7 && "honesty"@[0] == 'h');
        assert("explanation"@.len() == 11 && "explanation"@[0] == 'e');
        assert("acknowledgment"@.len() == 14 && "acknowledgment"@[0] == 'a');
        assert("apology"@.len() == 7 && "apology"@[0] == 'a');
        assert("justice"@.len() == 7 && "justice"@[0] == 'j');
        assert("revenge"@.len() == 7 && "revenge"@[0] == 'r' && "revenge"@[2] == 'v');
        assert("distance"@.len() == 8 && "distance"@[0] == 'd');
        assert("escape"@.len() == 6 && "escape"@[0] == 'e');
        assert("freedom"@.len() == 7 && "freedom"@[0] == 'f');
        assert("independence"@.len() == 12);
        assert("protection"@.len() == 10 && "protection"@[0] == 'p');
        assert("safety"@.len() == 6 && "safety"@[0] == 's');
        assert("security"@.len() == 8 && "security"@[0] == 's');
        assert("control"@.len() == 7 && "control"@[0] == 'c');
        assert("obedience"@.len() == 9 && "obedience"@[0] == 'o');
        assert("submission"@.len() == 10 && "submission"@[0] == 's');
        assert("help"@.len() == 4);
        assert("support"@.len() == 7 && "support"@[0] == 's' && "support"@[1] == 'u');
        assert("cooperation"@.len() == 11 && "cooperation"@[0] == 'c');
        assert("forgiveness"@.len() == 11 && "forgiveness"@[0] == 'f');
        assert("reconciliation"@.len() == 14 && "reconciliation"@[0] == 'r');
        assert("silence"@.len() == 7 && "silence"@[0] == 's' && "silence"@[1] == 'i');
        assert("discretion"@.len() == 10 && "discretion"@[0] == 'd');
    }
}

/// The deeper issue beneath surface disagreements.
/// Aligned with `enums.schema.json#/$defs/underlying_conflict`.
#[derive(Debug, Clone, Copy, PartialEq, Eq, Hash, Structural)]
pub enum UnderlyingConflict {
    RespectVsContempt,
    TrustVsSuspicion,
    ControlVsAutonomy,
    WorthVsInadequacy,
    BelongingVsRejection,
    TruthVsDeception,
    DutyVsDesire,
    LoyaltyVsSelfInterest,
    PrideVsHumility,
    ClassPrejudice,
    CulturalClash,
    GenerationalGap,
    PastInjury,
    UnspokenHistory,
    CompetingValues,
    IdentityConflict,
    PowerStruggle,
    ResourceConflict,
    ConflictNone,
}

impl SnakeName for UnderlyingConflict {
    open spec fn spec_name(self) -> Seq<char> {
        match self {
            UnderlyingConflict::RespectVsContempt => "respect_vs_contempt"@,
            UnderlyingConflict::TrustVsSuspicion => "trust_vs_suspicion"@,
            UnderlyingConflict::ControlVsAutonomy => "control_vs_autonomy"@,
            UnderlyingConflict::WorthVsInadequacy => "worth_vs_inadequacy"@,
            UnderlyingConflict::BelongingVsRejection => "belonging_vs_rejection"@,
            UnderlyingConflict::TruthVsDeception => "truth_vs_deception"@,
            UnderlyingConflict::DutyVsDesire => "duty_vs_desire"@,
            UnderlyingConflict::LoyaltyVsSelfInterest => "loyalty_vs_self_interest"@,
            UnderlyingConflict::PrideVsHumility => "pride_vs_humility"@,
            UnderlyingConflict::ClassPrejudice => "class_prejudice"@,
            UnderlyingConflict::CulturalClash => "cultural_clash"@,
            UnderlyingConflict::GenerationalGap => "generational_gap"@,
            UnderlyingConflict::PastInjury => "past_injury"@,
            UnderlyingConflict::UnspokenHistory => "unspoken_history"@,
            UnderlyingConflict::CompetingValues => "competing_values"@,
            UnderlyingConflict::IdentityConflict => "identity_conflict"@,
            UnderlyingConflict::PowerStruggle => "power_struggle"@,
            UnderlyingConflict::ResourceConflict => "resource_conflict"@,
            UnderlyingConflict::ConflictNone => "conflict_none"@,
        }
    }

    fn name(&self) -> (r: &'static str) {
        match self {
            UnderlyingConflict::RespectVsContempt => "respect_vs_contempt",
            UnderlyingConflict::TrustVsSuspicion => "trust_vs_suspicion",
            UnderlyingConflict::ControlVsAutonomy => "control_vs_autonomy",
            UnderlyingConflict::WorthVsInadequacy => "worth_vs_inadequacy",
            UnderlyingConflict::BelongingVsRejection => "belonging_vs_rejection",
            UnderlyingConflict::TruthVsDeception => "truth_vs_deception",
            UnderlyingConflict::DutyVsDesire => "duty_vs_desire",
            UnderlyingConflict::LoyaltyVsSelfInterest => "loyalty_vs_self_interest",
            UnderlyingConflict::PrideVsHumility => "pride_vs_humility",
            UnderlyingConflict::ClassPrejudice => "class_prejudice",
            UnderlyingConflict::CulturalClash => "cultural_clash",
            UnderlyingConflict::GenerationalGap => "generational_gap",
            UnderlyingConflict::PastInjury => "past_injury",
            UnderlyingConflict::UnspokenHistory => "unspoken_history",
            UnderlyingConflict::CompetingValues => "competing_values",
            UnderlyingConflict::IdentityConflict => "identity_conflict",
            UnderlyingConflict::PowerStruggle => "power_struggle",
            UnderlyingConflict::ResourceConflict => "resource_conflict",
            UnderlyingConflict::ConflictNone => "conflict_none",
        }
    }

    fn from_name(s: &str) -> (r: Option<Self>) {
        let r = if str_eq(s, "respect_vs_contempt") {
            Some(UnderlyingConflict::RespectVsContempt)
        } else if str_eq(s, "trust_vs_suspicion") {
            Some(UnderlyingConflict::TrustVsSuspicion)
        } else if str_eq(s, "control_vs_autonomy") {
            Some(UnderlyingConflict::ControlVsAutonomy)
        } else if str_eq(s, "worth_vs_inadequacy") {
            Some(UnderlyingConflict::WorthVsInadequacy)
        } else if str_eq(s, "belonging_vs_rejection") {
            Some(UnderlyingConflict::BelongingVsRejection)
        } else if str_eq(s, "truth_vs_deception") {
            Some(UnderlyingConflict::TruthVsDeception)
        } else if str_eq(s, "duty_vs_desire") {
            Some(UnderlyingConflict::DutyVsDesire)
        } else if str_eq(s, "loyalty_vs_self_interest") {
            Some(UnderlyingConflict::LoyaltyVsSelfInterest)
        } else if str_eq(s, "pride_vs_humility") {
            Some(UnderlyingConflict::PrideVsHumility)
        } else if str_eq(s, "class_prejudice") {
            Some(UnderlyingConflict::ClassPrejudice)
        } else if str_eq(s, "cultural_clash") {
            Some(UnderlyingConflict::CulturalClash)
        } else if str_eq(s, "generational_gap") {
            Some(UnderlyingConflict::GenerationalGap)
        } else if str_eq(s, "past_injury") {
            Some(UnderlyingConflict::PastInjury)
        } else if str_eq(s, "unspoken_history") {
            Some(UnderlyingConflict::UnspokenHistory)
        } else if str_eq(s, "competing_values") {
            Some(UnderlyingConflict::CompetingValues)
        } else if str_eq(s, "identity_conflict") {
            Some(UnderlyingConflict::IdentityConflict)
        } else if str_eq(s, "power_struggle") {
            Some(UnderlyingConflict::PowerStruggle)
        } else if str_eq(s, "resource_conflict") {
            Some(UnderlyingConflict::ResourceConflict)
        } else if str_eq(s, "conflict_none") {
            Some(UnderlyingConflict::ConflictNone)
        } else {
            None
        };
        r
    }

    proof fn lemma_name_injective(a: Self, b: Self) {
        reveal_strlit("respect_vs_contempt");
        reveal_strlit("trust_vs_suspicion");
        reveal_strlit("control_vs_autonomy");
        reveal_strlit("worth_vs_inadequacy");
        reveal_strlit("belonging_vs_rejection");
        reveal_strlit("truth_vs_deception");
        reveal_strlit("duty_vs_desire");
        reveal_strlit("loyalty_vs_self_interest");
        reveal_strlit("pride_vs_humility");
        reveal_strlit("class_prejudice");
        reveal_strlit("cultural_clash");
        reveal_strlit("generational_gap");
        reveal_strlit("past_injury");
        reveal_strlit("unspoken_history");
        reveal_strlit("competing_values");
        reveal_strlit("identity_conflict");
        reveal_strlit("power_struggle");
        reveal_strlit("resource_conflict");
        reveal_strlit("conflict_none");
        assert("respect_vs_contempt"@.len() == 19 && "respect_vs_contempt"@[0] == 'r');
        assert("trust_vs_suspicion"@.len() == 18 && "trust_vs_suspicion"@[3] == 's');
        assert("control_vs_autonomy"@.len() == 19 && "control_vs_autonomy"@[0] == 'c');
        assert("worth_vs_inadequacy"@.len() == 19 && "worth_vs_inadequacy"@[0] == 'w');
        assert("belonging_vs_rejection"@.len() == 22);
        assert("truth_vs_deception"@.len() == 18 && "truth_vs_deception"@[3] == 't');
        assert("duty_vs_desire"@.len() == 14 && "duty_vs_desire"@[0] == 'd');
        assert("loyalty_vs_self_interest"@.len() == 24);
        assert("pride_vs_humility"@.len() == 17 && "pride_vs_humility"@[0] == 'p');
        assert("class_prejudice"@.len() == 15);
        assert("cultural_clash"@.len() == 14 && "cultural_clash"@[0] == 'c');
        assert("generational_gap"@.len() == 16 && "generational_gap"@[0] == 'g');
        assert("past_injury"@.len() == 11);
        assert("unspoken_history"@.len() == 16 && "unspoken_history"@[0] == 'u');
        assert("competing_values"@.len() == 16 && "competing_values"@[0] == 'c');
        assert("identity_conflict"@.len() == 17 && "identity_conflict"@[0] == 'i');
        assert("power_struggle"@.len() == 14 && "power_struggle"@[0] == 'p');
        assert("resource_conflict"@.len() == 17 && "resource_conflict"@[0] == 'r');
        assert("conflict_none"@.len() == 13);
    }
}

/// Category of what prevents character from achieving objective.
/// Aligned with `enums.schema.json#/$defs/obstacle_type`.
#[derive(Debug, Clone, Copy, PartialEq, Eq, Hash, Structural)]
pub enum ObstacleType {
    OpposingCharacter,
    SocialNorms,
    PhysicalBarrier,
    TimePressure,
    MissingInformation,
    InternalResistance,
    CompetingObligation,
    ResourceLack,
    SkillLack,
    AuthorityFigure,
    InstitutionalObstacle,
    Environmental,
    EmotionalBlock,
    ObstacleNone,
}

impl SnakeName for ObstacleType {
    open spec fn spec_name(self) -> Seq<char> {
        match self {
            ObstacleType::OpposingCharacter => "opposing_character"@,
            ObstacleType::SocialNorms => "social_norms"@,
            ObstacleType::PhysicalBarrier => "physical_barrier"@,
            ObstacleType::TimePressure => "time_pressure"@,
            ObstacleType::MissingInformation => "missing_information"@,
            ObstacleType::InternalResistance => "internal_resistance"@,
            ObstacleType::CompetingObligation => "competing_obligation"@,
            ObstacleType::ResourceLack => "resource_lack"@,
            ObstacleType::SkillLack => "skill_lack"@,
            ObstacleType::AuthorityFigure => "authority_figure"@,
            ObstacleType::InstitutionalObstacle => "institutional_obstacle"@,
            ObstacleType::Environmental => "environmental"@,
            ObstacleType::EmotionalBlock => "emotional_block"@,
            ObstacleType::ObstacleNone => "obstacle_none"@,
        }
    }

    fn name(&self) -> (r: &'static str) {
        match self {
            ObstacleType::OpposingCharacter => "opposing_character",
            ObstacleType::SocialNorms => "social_norms",
            ObstacleType::PhysicalBarrier => "physical_barrier",
            ObstacleType::TimePressure => "time_pressure",
            ObstacleType::MissingInformation => "missing_information",
            ObstacleType::InternalResistance => "internal_resistance",
            ObstacleType::CompetingObligation => "competing_obligation",
            ObstacleType::ResourceLack => "resource_lack",
            ObstacleType::SkillLack => "skill_lack",
            ObstacleType::AuthorityFigure => "authority_figure",
            ObstacleType::InstitutionalObstacle => "institutional_obstacle",
            ObstacleType::Environmental => "environmental",
            ObstacleType::EmotionalBlock => "emotional_block",
            ObstacleType::ObstacleNone => "obstacle_none",
        }
    }

    fn from_name(s: &str) -> (r: Option<Self>) {
        let r = if str_eq(s, "opposing_character") {
            Some(ObstacleType::OpposingCharacter)
        } else if str_eq(s, "social_norms") {
            Some(ObstacleType::SocialNorms)
        } else if str_eq(s, "physical_barrier") {
            Some(ObstacleType::PhysicalBarrier)
        } else if str_eq(s, "time_pressure") {
            Some(ObstacleType::TimePressure)
        } else if str_eq(s, "missing_information") {
            Some(ObstacleType::MissingInformation)
        } else if str_eq(s, "internal_resistance") {
            Some(ObstacleType::InternalResistance)
        } else if str_eq(s, "competing_obligation") {
            Some(ObstacleType::CompetingObligation)
        } else if str_eq(s, "resource_lack") {
            Some(ObstacleType::ResourceLack)
        } else if str_eq(s, "skill_lack") {
            Some(ObstacleType::SkillLack)
        } else if str_eq(s, "authority_figure") {
            Some(ObstacleType::AuthorityFigure)
        } else if str_eq(s, "institutional_obstacle") {
            Some(ObstacleType::InstitutionalObstacle)
        } else if str_eq(s, "environmental") {
            Some(ObstacleType::Environmental)
        } else if str_eq(s, "emotional_block") {
            Some(ObstacleType::EmotionalBlock)
        } else if str_eq(s, "obstacle_none") {
            Some(ObstacleType::ObstacleNone)
        } else {
            None
        };
        r
    }

    proof fn lemma_name_injective(a: Self, b: Self) {
        reveal_strlit("opposing_character");
        reveal_strlit("social_norms");
        reveal_strlit("physical_barrier");
        reveal_strlit("time_pressure");
        reveal_strlit("missing_information");
        reveal_strlit("internal_resistance");
        reveal_strlit("competing_obligation");
        reveal_strlit("resource_lack");
        reveal_strlit("skill_lack");
        reveal_strlit("authority_figure");
        reveal_strlit("institutional_obstacle");
        reveal_strlit("environmental");
        reveal_strlit("emotional_block");
        reveal_strlit("obstacle_none");
        assert("opposing_character"@.len() == 18);
        assert("social_norms"@.len() == 12);
        assert("physical_barrier"@.len() == 16 && "physical_barrier"@[0] == 'p');
        assert("time_pressure"@.len() == 13 && "time_pressure"@[0] == 't');
        assert("missing_information"@.len() == 19 && "missing_information"@[0] == 'm');
        assert("internal_resistance"@.len() == 19 && "internal_resistance"@[0] == 'i');
        assert("competing_obligation"@.len() == 20);
        assert("resource_lack"@.len() == 13 && "resource_lack"@[0] == 'r');
        assert("skill_lack"@.len() == 10);
        assert("authority_figure"@.len() == 16 && "authority_figure"@[0] == 'a');
        assert("institutional_obstacle"@.len() == 22);
        assert("environmental"@.len() == 13 && "environmental"@[0] == 'e');
        assert("emotional_block"@.len() == 15);
        assert("obstacle_none"@.len() == 13 && "obstacle_none"@[0] == 'o');
    }
}

/// How a character pursues their objective.
/// Aligned with `enums.schema.json#/$defs/tactic`.
#[derive(Debug, Clone, Copy, PartialEq, Eq, Hash, Structural)]
pub enum Tactic {
    DirectRequest,
    Demand,
    Persuasion,
    Manipulation,
    Charm,
    Flattery,
    Seduction,
    Bribery,
    Threat,
    Intimidation,
    Aggression,
    Deflection,
    Avoidance,
    Withdrawal,
    TacticSilence,
    TacticHonesty,
    Confession,
    Vulnerability,
    Deception,
    Misdirection,
    Omission,
    AppealToEmotion,
    AppealToLogic,
    AppealToAuthority,
    Bargaining,
    Compromise,
    TacticSubmission,
    Defiance,
    Mockery,
    Sarcasm,
    PassiveObservation,
    InformationGathering,
}

impl SnakeName for Tactic {
    open spec fn spec_name(self) -> Seq<char> {
        match self {
            Tactic::DirectRequest => "direct_request"@,
            Tactic::Demand => "demand"@,
            Tactic::Persuasion => "persuasion"@,
            Tactic::Manipulation => "manipulation"@,
            Tactic::Charm => "charm"@,
            Tactic::Flattery => "flattery"@,
            Tactic::Seduction => "seduction"@,
            Tactic::Bribery => "bribery"@,
            Tactic::Threat => "threat"@,
            Tactic::Intimidation => "intimidation"@,
            Tactic::Aggression => "aggression"@,
            Tactic::Deflection => "deflection"@,
            Tactic::Avoidance => "avoidance"@,
            Tactic::Withdrawal => "withdrawal"@,
            Tactic::TacticSilence => "tactic_silence"@,
            Tactic::TacticHonesty => "tactic_honesty"@,
            Tactic::Confession => "confession"@,
            Tactic::Vulnerability => "vulnerability"@,
            Tactic::Deception => "deception"@,
            Tactic::Misdirection => "misdirection"@,
            Tactic::Omission => "omission"@,
            Tactic::AppealToEmotion => "appeal_to_emotion"@,
            Tactic::AppealToLogic => "appeal_to_logic"@,
            Tactic::AppealToAuthority => "appeal_to_authority"@,
            Tactic::Bargaining => "bargaining"@,
            Tactic::Compromise => "compromise"@,
            Tactic::TacticSubmission => "tactic_submission"@,
            Tactic::Defiance => "defiance"@,
            Tactic::Mockery => "mockery"@,
            Tactic::Sarcasm => "sarcasm"@,
            Tactic::PassiveObservation => "passive_observation"@,
            Tactic::InformationGathering => "information_gathering"@,
        }
    }

    fn name(&self) -> (r: &'static str) {
        match self {
            Tactic::DirectRequest => "direct_request",
            Tactic::Demand => "demand",
            Tactic::Persuasion => "persuasion",
            Tactic::Manipulation => "manipulation",
            Tactic::Charm => "charm",
            Tactic::Flattery => "flattery",
            Tactic::Seduction => "seduction",
            Tactic::Bribery => "bribery",
            Tactic::Threat => "threat",
            Tactic::Intimidation => "intimidation",
            Tactic::Aggression => "aggression",
            Tactic::Deflection => "deflection",
            Tactic::Avoidance => "avoidance",
            Tactic::Withdrawal => "withdrawal",
            Tactic::TacticSilence => "tactic_silence",
            Tactic::TacticHonesty => "tactic_honesty",
            Tactic::Confession => "confession",
            Tactic::Vulnerability => "vulnerability",
            Tactic::Deception => "deception",
            Tactic::Misdirection => "misdirection",
            Tactic::Omission => "omission",
            Tactic::AppealToEmotion => "appeal_to_emotion",
            Tactic::AppealToLogic => "appeal_to_logic",
            Tactic::AppealToAuthority => "appeal_to_authority",
            Tactic::Bargaining => "bargaining",
            Tactic::Compromise => "compromise",
            Tactic::TacticSubmission => "tactic_submission",
            Tactic::Defiance => "defiance",
            Tactic::Mockery => "mockery",
            Tactic::Sarcasm => "sarcasm",
            Tactic::PassiveObservation => "passive_observation",
            Tactic::InformationGathering => "information_gathering",
        }
    }

    fn from_name(s: &str) -> (r: Option<Self>) {
        let r = if str_eq(s, "direct_request") {
            Some(Tactic::DirectRequest)
        } else if str_eq(s, "demand") {
            Some(Tactic::Demand)
        } else if str_eq(s, "persuasion") {
            Some(Tactic::Persuasion)
        } else if str_eq(s, "manipulation") {
            Some(Tactic::Manipulation)
        } else if str_eq(s, "charm") {
            Some(Tactic::Charm)
        } else if str_eq(s, "flattery") {
            Some(Tactic::Flattery)
        } else if str_eq(s, "seduction") {
            Some(Tactic::Seduction)
        } else if str_eq(s, "bribery") {
            Some(Tactic::Bribery)
        } else if str_eq(s, "threat") {
            Some(Tactic::Threat)
        } else if str_eq(s, "intimidation") {
            Some(Tactic::Intimidation)
        } else if str_eq(s, "aggression") {
            Some(Tactic::Aggression)
        } else if str_eq(s, "deflection") {
            Some(Tactic::Deflection)
        } else if str_eq(s, "avoidance") {
            Some(Tactic::Avoidance)
        } else if str_eq(s, "withdrawal") {
            Some(Tactic::Withdrawal)
        } else if str_eq(s, "tactic_silence") {
            Some(Tactic::TacticSilence)
        } else if str_eq(s, "tactic_honesty") {
            Some(Tactic::TacticHonesty)
        } else if str_eq(s, "confession") {
            Some(Tactic::Confession)
        } else if str_eq(s, "vulnerability") {
            Some(Tactic::Vulnerability)
        } else if str_eq(s, "deception") {
            Some(Tactic::Deception)
        } else if str_eq(s, "misdirection") {
            Some(Tactic::Misdirection)
        } else if str_eq(s, "omission") {
            Some(Tactic::Omission)
        } else if str_eq(s, "appeal_to_emotion") {
            Some(Tactic::AppealToEmotion)
        } else if str_eq(s, "appeal_to_logic") {
            Some(Tactic::AppealToLogic)
        } else if str_eq(s, "appeal_to_authority") {
            Some(Tactic::AppealToAuthority)
        } else if str_eq(s, "bargaining") {
            Some(Tactic::Bargaining)
        } else if str_eq(s, "compromise") {
            Some(Tactic::Compromise)
        } else if str_eq(s, "tactic_submission") {
            Some(Tactic::TacticSubmission)
        } else if str_eq(s, "defiance") {
            Some(Tactic::Defiance)
        } else if str_eq(s, "mockery") {
            Some(Tactic::Mockery)
        } else if str_eq(s, "sarcasm") {
            Some(Tactic::Sarcasm)
        } else if str_eq(s, "passive_observation") {
            Some(Tactic::PassiveObservation)
        } else if str_eq(s, "information_gathering") {
            Some(Tactic::InformationGathering)
        } else {
            None
        };
        r
    }

    #[verifier::rlimit(50)]
    proof fn lemma_name_injective(a: Self, b: Self) {
        reveal_strlit("direct_request");
        reveal_strlit("demand");
        reveal_strlit("persuasion");
        reveal_strlit("manipulation");
        reveal_strlit("charm");
        reveal_strlit("flattery");
        reveal_strlit("seduction");
        reveal_strlit("bribery");
        reveal_strlit("threat");
        reveal_strlit("intimidation");
        reveal_strlit("aggression");
        reveal_strlit("deflection");
        reveal_strlit("avoidance");
        reveal_strlit("withdrawal");
        reveal_strlit("tactic_silence");
        reveal_strlit("tactic_honesty");
        reveal_strlit("confession");
        reveal_strlit("vulnerability");
        reveal_strlit("deception");
        reveal_strlit("misdirection");
        reveal_strlit("omission");
        reveal_strlit("appeal_to_emotion");
        reveal_strlit("appeal_to_logic");
        reveal_strlit("appeal_to_authority");
        reveal_strlit("bargaining");
        reveal_strlit("compromise");
        reveal_strlit("tactic_submission");
        reveal_strlit("defiance");
        reveal_strlit("mockery");
        reveal_strlit("sarcasm");
        reveal_strlit("passive_observation");
        reveal_strlit("information_gathering");
        assert("direct_request"@.len() == 14 && "direct_request"@[0] == 'd');
        assert("demand"@.len() == 6 && "demand"@[0] == 'd');
        assert("persuasion"@.len() == 10 && "persuasion"@[0] == 'p');
        assert("manipulation"@.len() == 12 && "manipulation"@[0] == 'm' && "manipulation"@[1] == 'a');
        assert("charm"@.len() == 5);
        assert("flattery"@.len() == 8 && "flattery"@[0] == 'f');
        assert("seduction"@.len() == 9 && "seduction"@[0] == 's');
        assert("bribery"@.len() == 7 && "bribery"@[0] == 'b');
        assert("threat"@.len() == 6 && "threat"@[0] == 't');
        assert("intimidation"@.len() == 12 && "intimidation"@[0] == 'i');
        assert("aggression"@.len() == 10 && "aggression"@[0] == 'a');
        assert("deflection"@.len() == 10 && "deflection"@[0] == 'd');
        assert("avoidance"@.len() == 9 && "avoidance"@[0] == 'a');
        assert("withdrawal"@.len() == 10 && "withdrawal"@[0] == 'w');
        assert("tactic_silence"@.len() == 14 && "tactic_silence"@[0] == 't' && "tactic_silence"@[7] == 's');
        assert("tactic_honesty"@.len() == 14 && "tactic_honesty"@[0] == 't' && "tactic_honesty"@[7] == 'h');
        assert("confession"@.len() == 10 && "confession"@[0] == 'c' && "confession"@[2] == 'n');
        assert("vulnerability"@.len() == 13);
        assert("deception"@.len() == 9 && "deception"@[0] == 'd');
        assert("misdirection"@.len() == 12 && "misdirection"@[0] == 'm' && "misdirection"@[1] == 'i');
        assert("omission"@.len() == 8 && "omission"@[0] == 'o');
        assert("appeal_to_emotion"@.len() == 17 && "appeal_to_emotion"@[0] == 'a');
        assert("appeal_to_logic"@.len() == 15);
        assert("appeal_to_authority"@.len() == 19 && "appeal_to_authority"@[0] == 'a');
        assert("bargaining"@.len() == 10 && "bargaining"@[0] == 'b');
        assert("compromise"@.len() == 10 && "compromise"@[0] == 'c' && "compromise"@[2] == 'm');
        assert("tactic_submission"@.len() == 17 && "tactic_submission"@[0] == 't');
        assert("defiance"@.len() == 8 && "defiance"@[0] == 'd');
        assert("mockery"@.len() == 7 && "mockery"@[0] == 'm');
        assert("sarcasm"@.len() == 7 && "sarcasm"@[0] == 's');
        assert("passive_observation"@.len() == 19 && "passive_observation"@[0] == 'p');
        assert("information_gathering"@.len() == 21);
    }
}

/// Markers of free indirect discourse.
/// Aligned with `enums.schema.json#/$defs/fid_marker`.
#[derive(Debug, Clone, Copy, PartialEq, Eq, Hash, Structural)]
pub enum FidMarker {
    ExclamatorySyntax,
    CharacterVocabulary,
    UnattributedQuestions,
    PresentTenseFeelings,
    DeicticShifts,
    EvaluativeLanguage,
    ColloquialRegister,
    TagQuestions,
}

impl SnakeName for FidMarker {
    open spec fn spec_name(self) -> Seq<char> {
        match self {
            FidMarker::ExclamatorySyntax => "exclamatory_syntax"@,
            FidMarker::CharacterVocabulary => "character_vocabulary"@,
            FidMarker::UnattributedQuestions => "unattributed_questions"@,
            FidMarker::PresentTenseFeelings => "present_tense_feelings"@,
            FidMarker::DeicticShifts => "deictic_shifts"@,
            FidMarker::EvaluativeLanguage => "evaluative_language"@,
            FidMarker::ColloquialRegister => "colloquial_register"@,
            FidMarker::TagQuestions => "tag_questions"@,
        }
    }

    fn name(&self) -> (r: &'static str) {
        match self {
            FidMarker::ExclamatorySyntax => "exclamatory_syntax",
            FidMarker::CharacterVocabulary => "character_vocabulary",
            FidMarker::UnattributedQuestions => "unattributed_questions",
            FidMarker::PresentTenseFeelings => "present_tense_feelings",
            FidMarker::DeicticShifts => "deictic_shifts",
            FidMarker::EvaluativeLanguage => "evaluative_language",
            FidMarker::ColloquialRegister => "colloquial_register",
            FidMarker::TagQuestions => "tag_questions",
        }
    }

    fn from_name(s: &str) -> (r: Option<Self>) {
        let r = if str_eq(s, "exclamatory_syntax") {
            Some(FidMarker::ExclamatorySyntax)
        } else if str_eq(s, "character_vocabulary") {
            Some(FidMarker::CharacterVocabulary)
        } else if str_eq(s, "unattributed_questions") {
            Some(FidMarker::UnattributedQuestions)
        } else if str_eq(s, "present_tense_feelings") {
            Some(FidMarker::PresentTenseFeelings)
        } else if str_eq(s, "deictic_shifts") {
            Some(FidMarker::DeicticShifts)
        } else if str_eq(s, "evaluative_language") {
            Some(FidMarker::EvaluativeLanguage)
        } else if str_eq(s, "colloquial_register") {
            Some(FidMarker::ColloquialRegister)
        } else if str_eq(s, "tag_questions") {
            Some(FidMarker::TagQuestions)
        } else {
            None
        };
        r
    }

    proof fn lemma_name_injective(a: Self, b: Self) {
        reveal_strlit("exclamatory_syntax");
        reveal_strlit("character_vocabulary");
        reveal_strlit("unattributed_questions");
        reveal_strlit("present_tense_feelings");
        reveal_strlit("deictic_shifts");
        reveal_strlit("evaluative_language");
        reveal_strlit("colloquial_register");
        reveal_strlit("tag_questions");
        assert("exclamatory_syntax"@.len() == 18);
        assert("character_vocabulary"@.len() == 20);
        assert("unattributed_questions"@.len() == 22 && "unattributed_questions"@[0] == 'u');
        assert("present_tense_feelings"@.len() == 22 && "present_tense_feelings"@[0] == 'p');
        assert("deictic_shifts"@.len() == 14);
        assert("evaluative_language"@.len() == 19 && "evaluative_language"@[0] == 'e');
        assert("colloquial_register"@.len() == 19 && "colloquial_register"@[0] == 'c');
        assert("tag_questions"@.len() == 13);
    }
}

/// How Gricean maxim violations manifest in dialogue.
/// Aligned with `enums.schema.json#/$defs/violation_signature`.
#[derive(Debug, Clone, Copy, PartialEq, Eq, Hash, Structural)]
pub enum ViolationSignature {
    OverExplanation,
    UnderExplanation,
    SingleSyllableShutdown,
    TopicChange,
    AnsweringDifferentQuestion,
    ExcessiveDetail,
    VaguenessFromPreciseSpeaker,
    FormalityShift,
    RepetitionUnderPressure,
    FalsePleasantry,
}

impl SnakeName for ViolationSignature {
    open spec fn spec_name(self) -> Seq<char> {
        match self {
            ViolationSignature::OverExplanation => "over_explanation"@,
            ViolationSignature::UnderExplanation => "under_explanation"@,
            ViolationSignature::SingleSyllableShutdown => "single_syllable_shutdown"@,
            ViolationSignature::TopicChange => "topic_change"@,
            ViolationSignature::AnsweringDifferentQuestion => "answering_different_question"@,
            ViolationSignature::ExcessiveDetail => "excessive_detail"@,
            ViolationSignature::VaguenessFromPreciseSpeaker => "vagueness_from_precise_speaker"@,
            ViolationSignature::FormalityShift => "formality_shift"@,
            ViolationSignature::RepetitionUnderPressure => "repetition_under_pressure"@,
            ViolationSignature::FalsePleasantry => "false_pleasantry"@,
        }
    }

    fn name(&self) -> (r: &'static str) {
        match self {
            ViolationSignature::OverExplanation => "over_explanation",
            ViolationSignature::UnderExplanation => "under_explanation",
            ViolationSignature::SingleSyllableShutdown => "single_syllable_shutdown",
            ViolationSignature::TopicChange => "topic_change",
            ViolationSignature::AnsweringDifferentQuestion => "answering_different_question",
            ViolationSignature::ExcessiveDetail => "excessive_detail",
            ViolationSignature::VaguenessFromPreciseSpeaker => "vagueness_from_precise_speaker",
            ViolationSignature::FormalityShift => "formality_shift",
            ViolationSignature::RepetitionUnderPressure => "repetition_under_pressure",
            ViolationSignature::FalsePleasantry => "false_pleasantry",
        }
    }

    fn from_name(s: &str) -> (r: Option<Self>) {
        let r = if str_eq(s, "over_explanation") {
            Some(ViolationSignature::OverExplanation)
        } else if str_eq(s, "under_explanation") {
            Some(ViolationSignature::UnderExplanation)
        } else if str_eq(s, "single_syllable_shutdown") {
            Some(ViolationSignature::SingleSyllableShutdown)
        } else if str_eq(s, "topic_change") {
            Some(ViolationSignature::TopicChange)
        } else if str_eq(s, "answering_different_question") {
            Some(ViolationSignature::AnsweringDifferentQuestion)
        } else if str_eq(s, "excessive_detail") {
            Some(ViolationSignature::ExcessiveDetail)
        } else if str_eq(s, "vagueness_from_precise_speaker") {
            Some(ViolationSignature::VaguenessFromPreciseSpeaker)
        } else if str_eq(s, "formality_shift") {
            Some(ViolationSignature::FormalityShift)
        } else if str_eq(s, "repetition_under_pressure") {
            Some(ViolationSignature::RepetitionUnderPressure)
        } else if str_eq(s, "false_pleasantry") {
            Some(ViolationSignature::FalsePleasantry)
        } else {
            None
        };
        r
    }

    proof fn lemma_name_injective(a: Self, b: Self) {
        reveal_strlit("over_explanation");
        reveal_strlit("under_explanation");
        reveal_strlit("single_syllable_shutdown");
        reveal_strlit("topic_change");
        reveal_strlit("answering_different_question");
        reveal_strlit("excessive_detail");
        reveal_strlit("vagueness_from_precise_speaker");
        reveal_strlit("formality_shift");
        reveal_strlit("repetition_under_pressure");
        reveal_strlit("false_pleasantry");
        assert("over_explanation"@.len() == 16 && "over_explanation"@[0] == 'o');
        assert("under_explanation"@.len() == 17);
        assert("single_syllable_shutdown"@.len() == 24);
        assert("topic_change"@.len() == 12);
        assert("answering_different_question"@.len() == 28);
        assert("excessive_detail"@.len() == 16 && "excessive_detail"@[0] == 'e');
        assert("vagueness_from_precise_speaker"@.len() == 30);
        assert("formality_shift"@.len() == 15);
        assert("repetition_under_pressure"@.len() == 25);
        assert("false_pleasantry"@.len() == 16 && "false_pleasantry"@[0] == 'f');
    }
}

/// Social role character inhabits in scene.
/// Aligned with `enums.schema.json#/$defs/social_role`.
#[derive(Debug, Clone, Copy, PartialEq, Eq, Hash, Structural)]
pub enum SocialRole {
    SocialAuthorityFigure,
    Subordinate,
    EqualPeer,
    SocialRival,
    SocialMentor,
    Student,
    Protector,
    SocialDependent,
    Host,
    Guest,
    SocialStranger,
    SocialIntimate,
    Professional,
    Client,
    Servant,
    Master,
    Elder,
    Youth,
    SocialParent,
    Child,
    Sibling,
    Suitor,
    Beloved,
    ExPartner,
    Spouse,
    SocialAlly,
    Adversary,
    NeutralParty,
}

impl SnakeName for SocialRole {
    open spec fn spec_name(self) -> Seq<char> {
        match self {
            SocialRole::SocialAuthorityFigure => "social_authority_figure"@,
            SocialRole::Subordinate => "subordinate"@,
            SocialRole::EqualPeer => "equal_peer"@,
            SocialRole::SocialRival => "social_rival"@,
            SocialRole::SocialMentor => "social_mentor"@,
            SocialRole::Student => "student"@,
            SocialRole::Protector => "protector"@,
            SocialRole::SocialDependent => "social_dependent"@,
            SocialRole::Host => "host"@,
            SocialRole::Guest => "guest"@,
            SocialRole::SocialStranger => "social_stranger"@,
            SocialRole::SocialIntimate => "social_intimate"@,
            SocialRole::Professional => "professional"@,
            SocialRole::Client => "client"@,
            SocialRole::Servant => "servant"@,
            SocialRole::Master => "master"@,
            SocialRole::Elder => "elder"@,
            SocialRole::Youth => "youth"@,
            SocialRole::SocialParent => "social_parent"@,
            SocialRole::Child => "child"@,
            SocialRole::Sibling => "sibling"@,
            SocialRole::Suitor => "suitor"@,
            SocialRole::Beloved => "beloved"@,
            SocialRole::ExPartner => "ex_partner"@,
            SocialRole::Spouse => "spouse"@,
            SocialRole::SocialAlly => "social_ally"@,
            SocialRole::Adversary => "adversary"@,
            SocialRole::NeutralParty => "neutral_party"@,
        }
    }

    fn name(&self) -> (r: &'static str) {
        match self {
            SocialRole::SocialAuthorityFigure => "social_authority_figure",
            SocialRole::Subordinate => "subordinate",
            SocialRole::EqualPeer => "equal_peer",
            SocialRole::SocialRival => "social_rival",
            SocialRole::SocialMentor => "social_mentor",
            SocialRole::Student => "student",
            SocialRole::Protector => "protector",
            SocialRole::SocialDependent => "social_dependent",
            SocialRole::Host => "host",
            SocialRole::Guest => "guest",
            SocialRole::SocialStranger => "social_stranger",
            SocialRole::SocialIntimate => "social_intimate",
            SocialRole::Professional => "professional",
            SocialRole::Client => "client",
            SocialRole::Servant => "servant",
            SocialRole::Master => "master",
            SocialRole::Elder => "elder",
            SocialRole::Youth => "youth",
            SocialRole::SocialParent => "social_parent",
            SocialRole::Child => "child",
            SocialRole::Sibling => "sibling",
            SocialRole::Suitor => "suitor",
            SocialRole::Beloved => "beloved",
            SocialRole::ExPartner => "ex_partner",
            SocialRole::Spouse => "spouse",
            SocialRole::SocialAlly => "social_ally",
            SocialRole::Adversary => "adversary",
            SocialRole::NeutralParty => "neutral_party",
        }
    }

    fn from_name(s: &str) -> (r: Option<Self>) {
        let r = if str_eq(s, "social_authority_figure") {
            Some(SocialRole::SocialAuthorityFigure)
        } else if str_eq(s, "subordinate") {
            Some(SocialRole::Subordinate)
        } else if str_eq(s, "equal_peer") {
            Some(SocialRole::EqualPeer)
        } else if str_eq(s, "social_rival") {
            Some(SocialRole::SocialRival)
        } else if str_eq(s, "social_mentor") {
            Some(SocialRole::SocialMentor)
        } else if str_eq(s, "student") {
            Some(SocialRole::Student)
        } else if str_eq(s, "protector") {
            Some(SocialRole::Protector)
        } else if str_eq(s, "social_dependent") {
            Some(SocialRole::SocialDependent)
        } else if str_eq(s, "host") {
            Some(SocialRole::Host)
        } else if str_eq(s, "guest") {
            Some(SocialRole::Guest)
        } else if str_eq(s, "social_stranger") {
            Some(SocialRole::SocialStranger)
        } else if str_eq(s, "social_intimate") {
            Some(SocialRole::SocialIntimate)
        } else if str_eq(s, "professional") {
            Some(SocialRole::Professional)
        } else if str_eq(s, "client") {
            Some(SocialRole::Client)
        } else if str_eq(s, "servant") {
            Some(SocialRole::Servant)
        } else if str_eq(s, "master") {
            Some(SocialRole::Master)
        } else if str_eq(s, "elder") {
            Some(SocialRole::Elder)
        } else if str_eq(s, "youth") {
            Some(SocialRole::Youth)
        } else if str_eq(s, "social_parent") {
            Some(SocialRole::SocialParent)
        } else if str_eq(s, "child") {
            Some(SocialRole::Child)
        } else if str_eq(s, "sibling") {
            Some(SocialRole::Sibling)
        } else if str_eq(s, "suitor") {
            Some(SocialRole::Suitor)
        } else if str_eq(s, "beloved") {
            Some(SocialRole::Beloved)
        } else if str_eq(s, "ex_partner") {
            Some(SocialRole::ExPartner)
        } else if str_eq(s, "spouse") {
            Some(SocialRole::Spouse)
        } else if str_eq(s, "social_ally") {
            Some(SocialRole::SocialAlly)
        } else if str_eq(s, "adversary") {
            Some(SocialRole::Adversary)
        } else if str_eq(s, "neutral_party") {
            Some(SocialRole::NeutralParty)
        } else {
            None
        };
        r
    }

    #[verifier::rlimit(50)]
    proof fn lemma_name_injective(a: Self, b: Self) {
        reveal_strlit("social_authority_figure");
        reveal_strlit("subordinate");
        reveal_strlit("equal_peer");
        reveal_strlit("social_rival");
        reveal_strlit("social_mentor");
        reveal_strlit("student");
        reveal_strlit("protector");
        reveal_strlit("social_dependent");
        reveal_strlit("host");
        reveal_strlit("guest");
        reveal_strlit("social_stranger");
        reveal_strlit("social_intimate");
        reveal_strlit("professional");
        reveal_strlit("client");
        reveal_strlit("servant");
        reveal_strlit("master");
        reveal_strlit("elder");
        reveal_strlit("youth");
        reveal_strlit("social_parent");
        reveal_strlit("child");
        reveal_strlit("sibling");
        reveal_strlit("suitor");
        reveal_strlit("beloved");
        reveal_strlit("ex_partner");
        reveal_strlit("spouse");
        reveal_strlit("social_ally");
        reveal_strlit("adversary");
        reveal_strlit("neutral_party");
        assert("social_authority_figure"@.len() == 23);
        assert("subordinate"@.len() == 11 && "subordinate"@[1] == 'u');
        assert("equal_peer"@.len() == 10 && "equal_peer"@[1] == 'q');
        assert("social_rival"@.len() == 12 && "social_rival"@[0] == 's');
        assert("social_mentor"@.len() == 13 && "social_mentor"@[0] == 's' && "social_mentor"@[7] == 'm');
        assert("student"@.len() == 7 && "student"@[0] == 's' && "student"@[1] == 't');
        assert("protector"@.len() == 9 && "protector"@[0] == 'p');
        assert("social_dependent"@.len() == 16);
        assert("host"@.len() == 4);
        assert("guest"@.len() == 5 && "guest"@[0] == 'g');
        assert("social_stranger"@.len() == 15 && "social_stranger"@[7] == 's');
        assert("social_intimate"@.len() == 15 && "social_intimate"@[7] == 'i');
        assert("professional"@.len() == 12 && "professional"@[0] == 'p');
        assert("client"@.len() == 6 && "client"@[0] == 'c');
        assert("servant"@.len() == 7 && "servant"@[0] == 's' && "servant"@[1] == 'e');
        assert("master"@.len() == 6 && "master"@[0] == 'm');
        assert("elder"@.len() == 5 && "elder"@[0] == 'e');
        assert("youth"@.len() == 5 && "youth"@[0] == 'y');
        assert("social_parent"@.len() == 13 && "social_parent"@[0] == 's' && "social_parent"@[7] == 'p');
        assert("child"@.len() == 5 && "child"@[0] == 'c');
        assert("sibling"@.len() == 7 && "sibling"@[0] == 's' && "sibling"@[1] == 'i');
        assert("suitor"@.len() == 6 && "suitor"@[0] == 's' && "suitor"@[1] == 'u');
        assert("beloved"@.len() == 7 && "beloved"@[0] == 'b');
        assert("ex_partner"@.len() == 10 && "ex_partner"@[1] == 'x');
        assert("spouse"@.len() == 6 && "spouse"@[0] == 's' && "spouse"@[1] == 'p');
        assert("social_ally"@.len() == 11 && "social_ally"@[1] == 'o');
        assert("adversary"@.len() == 9 && "adversary"@[0] == 'a');
        assert("neutral_party"@.len() == 13 && "neutral_party"@[0] == 'n');
    }
}

/// Category of setting location.
/// Aligned with `enums.schema.json#/$defs/setting_type`.
#[derive(Debug, Clone, Copy, PartialEq, Eq, Hash, Structural)]
pub enum SettingType {
    EstateInterior,
    EstateExterior,
    ManorHouse,
    Cottage,
    PublicBuilding,
    ReligiousBuilding,
    GovernmentBuilding,
    Commercial,
    InnTavern,
    Market,
    DomesticModest,
    DomesticGrand,
    DomesticPoor,
    Transport,
    Carriage,
    Ship,
    OnFoot,
    NaturalLandscape,
    Garden,
    Forest,
    Field,
    WaterBody,
    UrbanStreet,
    UrbanSquare,
    UrbanAlley,
    Military,
    Prison,
    Hospital,
    School,
}

impl SnakeName for SettingType {
    open spec fn spec_name(self) -> Seq<char> {
        match self {
            SettingType::EstateInterior => "estate_interior"@,
            SettingType::EstateExterior => "estate_exterior"@,
            SettingType::ManorHouse => "manor_house"@,
            SettingType::Cottage => "cottage"@,
            SettingType::PublicBuilding => "public_building"@,
            SettingType::ReligiousBuilding => "religious_building"@,
            SettingType::GovernmentBuilding => "government_building"@,
            SettingType::Commercial => "commercial"@,
            SettingType::InnTavern => "inn_tavern"@,
            SettingType::Market => "market"@,
            SettingType::DomesticModest => "domestic_modest"@,
            SettingType::DomesticGrand => "domestic_grand"@,
            SettingType::DomesticPoor => "domestic_poor"@,
            SettingType::Transport => "transport"@,
            SettingType::Carriage => "carriage"@,
            SettingType::Ship => "ship"@,
            SettingType::OnFoot => "on_foot"@,
            SettingType::NaturalLandscape => "natural_landscape"@,
            SettingType::Garden => "garden"@,
            SettingType::Forest => "forest"@,
            SettingType::Field => "field"@,
            SettingType::WaterBody => "water_body"@,
            SettingType::UrbanStreet => "urban_street"@,
            SettingType::UrbanSquare => "urban_square"@,
            SettingType::UrbanAlley => "urban_alley"@,
            SettingType::Military => "military"@,
            SettingType::Prison => "prison"@,
            SettingType::Hospital => "hospital"@,
            SettingType::School => "school"@,
        }
    }

    fn name(&self) -> (r: &'static str) {
        match self {
            SettingType::EstateInterior => "estate_interior",
            SettingType::EstateExterior => "estate_exterior",
            SettingType::ManorHouse => "manor_house",
            SettingType::Cottage => "cottage",
            SettingType::PublicBuilding => "public_building",
            SettingType::ReligiousBuilding => "religious_building",
            SettingType::GovernmentBuilding => "government_building",
            SettingType::Commercial => "commercial",
            SettingType::InnTavern => "inn_tavern",
            SettingType::Market => "market",
            SettingType::DomesticModest => "domestic_modest",
            SettingType::DomesticGrand => "domestic_grand",
            SettingType::DomesticPoor => "domestic_poor",
            SettingType::Transport => "transport",
            SettingType::Carriage => "carriage",
            SettingType::Ship => "ship",
            SettingType::OnFoot => "on_foot",
            SettingType::NaturalLandscape => "natural_landscape",
            SettingType::Garden => "garden",
            SettingType::Forest => "forest",
            SettingType::Field => "field",
            SettingType::WaterBody => "water_body",
            SettingType::UrbanStreet => "urban_street",
            SettingType::UrbanSquare => "urban_square",
            SettingType::UrbanAlley => "urban_alley",
            SettingType::Military => "military",
            SettingType::Prison => "prison",
            SettingType::Hospital => "hospital",
            SettingType::School => "school",
        }
    }

    fn from_name(s: &str) -> (r: Option<Self>) {
        let r = if str_eq(s, "estate_interior") {
            Some(SettingType::EstateInterior)
        } else if str_eq(s, "estate_exterior") {
            Some(SettingType::EstateExterior)
        } else if str_eq(s, "manor_house") {
            Some(SettingType::ManorHouse)
        } else if str_eq(s, "cottage") {
            Some(SettingType::Cottage)
        } else if str_eq(s, "public_building") {
            Some(SettingType::PublicBuilding)
        } else if str_eq(s, "religious_building") {
            Some(SettingType::ReligiousBuilding)
        } else if str_eq(s, "government_building") {
            Some(SettingType::GovernmentBuilding)
        } else if str_eq(s, "commercial") {
            Some(SettingType::Commercial)
        } else if str_eq(s, "inn_tavern") {
            Some(SettingType::InnTavern)
        } else if str_eq(s, "market") {
            Some(SettingType::Market)
        } else if str_eq(s, "domestic_modest") {
            Some(SettingType::DomesticModest)
        } else if str_eq(s, "domestic_grand") {
            Some(SettingType::DomesticGrand)
        } else if str_eq(s, "domestic_poor") {
            Some(SettingType::DomesticPoor)
        } else if str_eq(s, "transport") {
            Some(SettingType::Transport)
        } else if str_eq(s, "carriage") {
            Some(SettingType::Carriage)
        } else if str_eq(s, "ship") {
            Some(SettingType::Ship)
        } else if str_eq(s, "on_foot") {
            Some(SettingType::OnFoot)
        } else if str_eq(s, "natural_landscape") {
            Some(SettingType::NaturalLandscape)
        } else if str_eq(s, "garden") {
            Some(SettingType::Garden)
        } else if str_eq(s, "forest") {
            Some(SettingType::Forest)
        } else if str_eq(s, "field") {
            Some(SettingType::Field)
        } else if str_eq(s, "water_body") {
            Some(SettingType::WaterBody)
        } else if str_eq(s, "urban_street") {
            Some(SettingType::UrbanStreet)
        } else if str_eq(s, "urban_square") {
            Some(SettingType::UrbanSquare)
        } else if str_eq(s, "urban_alley") {
            Some(SettingType::UrbanAlley)
        } else if str_eq(s, "military") {
            Some(SettingType::Military)
        } else if str_eq(s, "prison") {
            Some(SettingType::Prison)
        } else if str_eq(s, "hospital") {
            Some(SettingType::Hospital)
        } else if str_eq(s, "school") {
            Some(SettingType::School)
        } else {
            None
        };
        r
    }

    #[verifier::rlimit(50)]
    proof fn lemma_name_injective(a: Self, b: Self) {
        reveal_strlit("estate_interior");
        reveal_strlit("estate_exterior");
        reveal_strlit("manor_house");
        reveal_strlit("cottage");
        reveal_strlit("public_building");
        reveal_strlit("religious_building");
        reveal_strlit("government_building");
        reveal_strlit("commercial");
        reveal_strlit("inn_tavern");
        reveal_strlit("market");
        reveal_strlit("domestic_modest");
        reveal_strlit("domestic_grand");
        reveal_strlit("domestic_poor");
        reveal_strlit("transport");
        reveal_strlit("carriage");
        reveal_strlit("ship");
        reveal_strlit("on_foot");
        reveal_strlit("natural_landscape");
        reveal_strlit("garden");
        reveal_strlit("forest");
        reveal_strlit("field");
        reveal_strlit("water_body");
        reveal_strlit("urban_street");
        reveal_strlit("urban_square");
        reveal_strlit("urban_alley");
        reveal_strlit("military");
        reveal_strlit("prison");
        reveal_strlit("hospital");
        reveal_strlit("school");
        assert("estate_interior"@.len() == 15 && "estate_interior"@[0] == 'e' && "estate_interior"@[7] == 'i');
        assert("estate_exterior"@.len() == 15 && "estate_exterior"@[0] == 'e' && "estate_exterior"@[7] == 'e');
        assert("manor_house"@.len() == 11 && "manor_house"@[0] == 'm');
        assert("cottage"@.len() == 7 && "cottage"@[0] == 'c');
        assert("public_building"@.len() == 15 && "public_building"@[0] == 'p');
        assert("religious_building"@.len() == 18);
        assert("government_building"@.len() == 19);
        assert("commercial"@.len() == 10 && "commercial"@[0] == 'c');
        assert("inn_tavern"@.len() == 10 && "inn_tavern"@[0] == 'i');
        assert("market"@.len() == 6 && "market"@[0] == 'm');
        assert("domestic_modest"@.len() == 15 && "domestic_modest"@[0] == 'd');
        assert("domestic_grand"@.len() == 14);
        assert("domestic_poor"@.len() == 13);
        assert("transport"@.len() == 9);
        assert("carriage"@.len() == 8 && "carriage"@[0] == 'c');
        assert("ship"@.len() == 4);
        assert("on_foot"@.len() == 7 && "on_foot"@[0] == 'o');
        assert("natural_landscape"@.len() == 17);
        assert("garden"@.len() == 6 && "garden"@[0] == 'g');
        assert("forest"@.len() == 6 && "forest"@[0] == 'f');
        assert("field"@.len() == 5);
        assert("water_body"@.len() == 10 && "water_body"@[0] == 'w');
        assert("urban_street"@.len() == 12 && "urban_street"@[7] == 't');
        assert("urban_square"@.len() == 12 && "urban_square"@[7] == 'q');
        assert("urban_alley"@.len() == 11 && "urban_alley"@[0] == 'u');
        assert("military"@.len() == 8 && "military"@[0] == 'm');
        assert("prison"@.len() == 6 && "prison"@[0] == 'p');
        assert("hospital"@.len() == 8 && "hospital"@[0] == 'h');
        assert("school"@.len() == 6 && "school"@[0] == 's');
    }
}

/// Specific room type within a building.
/// Aligned with `enums.schema.json#/$defs/room_type`.
#[derive(Debug, Clone, Copy, PartialEq, Eq, Hash, Structural)]
pub enum RoomType {
    DrawingRoom,
    SittingRoom,
    Parlor,
    Library,
    Study,
    DiningRoom,
    Ballroom,
    Hall,
    Gallery,
    Bedroom,
    DressingRoom,
    Nursery,
    Kitchen,
    ServantsQuarters,
    Cellar,
    Attic,
    EntranceHall,
    Corridor,
    Stairway,
    GardenRoom,
    Conservatory,
    Terrace,
    Office,
    ShopFloor,
    Workshop,
    RoomNone,
}

impl SnakeName for RoomType {
    open spec fn spec_name(self) -> Seq<char> {
        match self {
            RoomType::DrawingRoom => "drawing_room"@,
            RoomType::SittingRoom => "sitting_room"@,
            RoomType::Parlor => "parlor"@,
            RoomType::Library => "library"@,
            RoomType::Study => "study"@,
            RoomType::DiningRoom => "dining_room"@,
            RoomType::Ballroom => "ballroom"@,
            RoomType::Hall => "hall"@,
            RoomType::Gallery => "gallery"@,
            RoomType::Bedroom => "bedroom"@,
            RoomType::DressingRoom => "dressing_room"@,
            RoomType::Nursery => "nursery"@,
            RoomType::Kitchen => "kitchen"@,
            RoomType::ServantsQuarters => "servants_quarters"@,
            RoomType::Cellar => "cellar"@,
            RoomType::Attic => "attic"@,
            RoomType::EntranceHall => "entrance_hall"@,
            RoomType::Corridor => "corridor"@,
            RoomType::Stairway => "stairway"@,
            RoomType::GardenRoom => "garden_room"@,
            RoomType::Conservatory => "conservatory"@,
            RoomType::Terrace => "terrace"@,
            RoomType::Office => "office"@,
            RoomType::ShopFloor => "shop_floor"@,
            RoomType::Workshop => "workshop"@,
            RoomType::RoomNone => "room_none"@,
        }
    }

    fn name(&self) -> (r: &'static str) {
        match self {
            RoomType::DrawingRoom => "drawing_room",
            RoomType::SittingRoom => "sitting_room",
            RoomType::Parlor => "parlor",
            RoomType::Library => "library",
            RoomType::Study => "study",
            RoomType::DiningRoom => "dining_room",
            RoomType::Ballroom => "ballroom",
            RoomType::Hall => "hall",
            RoomType::Gallery => "gallery",
            RoomType::Bedroom => "bedroom",
            RoomType::DressingRoom => "dressing_room",
            RoomType::Nursery => "nursery",
            RoomType::Kitchen => "kitchen",
            RoomType::ServantsQuarters => "servants_quarters",
            RoomType::Cellar => "cellar",
            RoomType::Attic => "attic",
            RoomType::EntranceHall => "entrance_hall",
            RoomType::Corridor => "corridor",
            RoomType::Stairway => "stairway",
            RoomType::GardenRoom => "garden_room",
            RoomType::Conservatory => "conservatory",
            RoomType::Terrace => "terrace",
            RoomType::Office => "office",
            RoomType::ShopFloor => "shop_floor",
            RoomType::Workshop => "workshop",
            RoomType::RoomNone => "room_none",
        }
    }

    fn from_name(s: &str) -> (r: Option<Self>) {
        let r = if str_eq(s, "drawing_room") {
            Some(RoomType::DrawingRoom)
        } else if str_eq(s, "sitting_room") {
            Some(RoomType::SittingRoom)
        } else if str_eq(s, "parlor") {
            Some(RoomType::Parlor)
        } else if str_eq(s, "library") {
            Some(RoomType::Library)
        } else if str_eq(s, "study") {
            Some(RoomType::Study)
        } else if str_eq(s, "dining_room") {
            Some(RoomType::DiningRoom)
        } else if str_eq(s, "ballroom") {
            Some(RoomType::Ballroom)
        } else if str_eq(s, "hall") {
            Some(RoomType::Hall)
        } else if str_eq(s, "gallery") {
            Some(RoomType::Gallery)
        } else if str_eq(s, "bedroom") {
            Some(RoomType::Bedroom)
        } else if str_eq(s, "dressing_room") {
            Some(RoomType::DressingRoom)
        } else if str_eq(s, "nursery") {
            Some(RoomType::Nursery)
        } else if str_eq(s, "kitchen") {
            Some(RoomType::Kitchen)
        } else if str_eq(s, "servants_quarters") {
            Some(RoomType::ServantsQuarters)
        } else if str_eq(s, "cellar") {
            Some(RoomType::Cellar)
        } else if str_eq(s, "attic") {
            Some(RoomType::Attic)
        } else if str_eq(s, "entrance_hall") {
            Some(RoomType::EntranceHall)
        } else if str_eq(s, "corridor") {
            Some(RoomType::Corridor)
        } else if str_eq(s, "stairway") {
            Some(RoomType::Stairway)
        } else if str_eq(s, "garden_room") {
            Some(RoomType::GardenRoom)
        } else if str_eq(s, "conservatory") {
            Some(RoomType::Conservatory)
        } else if str_eq(s, "terrace") {
            Some(RoomType::Terrace)
        } else if str_eq(s, "office") {
            Some(RoomType::Office)
        } else if str_eq(s, "shop_floor") {
            Some(RoomType::ShopFloor)
        } else if str_eq(s, "workshop") {
            Some(RoomType::Workshop)
        } else if str_eq(s, "room_none") {
            Some(RoomType::RoomNone)
        } else {
            None
        };
        r
    }

    #[verifier::rlimit(50)]
    proof fn lemma_name_injective(a: Self, b: Self) {
        reveal_strlit("drawing_room");
        reveal_strlit("sitting_room");
        reveal_strlit("parlor");
        reveal_strlit("library");
        reveal_strlit("study");
        reveal_strlit("dining_room");
        reveal_strlit("ballroom");
        reveal_strlit("hall");
        reveal_strlit("gallery");
        reveal_strlit("bedroom");
        reveal_strlit("dressing_room");
        reveal_strlit("nursery");
        reveal_strlit("kitchen");
        reveal_strlit("servants_quarters");
        reveal_strlit("cellar");
        reveal_strlit("attic");
        reveal_strlit("entrance_hall");
        reveal_strlit("corridor");
        reveal_strlit("stairway");
        reveal_strlit("garden_room");
        reveal_strlit("conservatory");
        reveal_strlit("terrace");
        reveal_strlit("office");
        reveal_strlit("shop_floor");
        reveal_strlit("workshop");
        reveal_strlit("room_none");
        assert("drawing_room"@.len() == 12 && "drawing_room"@[0] == 'd');
        assert("sitting_room"@.len() == 12 && "sitting_room"@[0] == 's');
        assert("parlor"@.len() == 6 && "parlor"@[0] == 'p');
        assert("library"@.len() == 7 && "library"@[0] == 'l');
        assert("study"@.len() == 5 && "study"@[0] == 's');
        assert("dining_room"@.len() == 11 && "dining_room"@[0] == 'd');
        assert("ballroom"@.len() == 8 && "ballroom"@[0] == 'b');
        assert("hall"@.len() == 4);
        assert("gallery"@.len() == 7 && "gallery"@[0] == 'g');
        assert("bedroom"@.len() == 7 && "bedroom"@[0] == 'b');
        assert("dressing_room"@.len() == 13 && "dressing_room"@[0] == 'd');
        assert("nursery"@.len() == 7 && "nursery"@[0] == 'n');
        assert("kitchen"@.len() == 7 && "kitchen"@[0] == 'k');
        assert("servants_quarters"@.len() == 17);
        assert("cellar"@.len() == 6 && "cellar"@[0] == 'c');
        assert("attic"@.len() == 5 && "attic"@[0] == 'a');
        assert("entrance_hall"@.len() == 13 && "entrance_hall"@[0] == 'e');
        assert("corridor"@.len() == 8 && "corridor"@[0] == 'c');
        assert("stairway"@.len() == 8 && "stairway"@[0] == 's');
        assert("garden_room"@.len() == 11 && "garden_room"@[0] == 'g');
        assert("conservatory"@.len() == 12 && "conservatory"@[0] == 'c');
        assert("terrace"@.len() == 7 && "terrace"@[0] == 't');
        assert("office"@.len() == 6 && "office"@[0] == 'o');
        assert("shop_floor"@.len() == 10);
        assert("workshop"@.len() == 8 && "workshop"@[0] == 'w');
        assert("room_none"@.len() == 9);
    }
}

/// Qualitative aspect of the space.
/// Aligned with `enums.schema.json#/$defs/location_qualifier`.
#[derive(Debug, Clone, Copy, PartialEq, Eq, Hash, Structural)]
pub enum LocationQualifier {
    Grand,
    Modest,
    Shabby,
    Intimate,
    Vast,
    Private,
    Public,
    SemiPublic,
    Transitional,
    Utilitarian,
    Ceremonial,
    Sacred,
    Familiar,
    Foreign,
    Contested,
}

impl SnakeName for LocationQualifier {
    open spec fn spec_name(self) -> Seq<char> {
        match self {
            LocationQualifier::Grand => "grand"@,
            LocationQualifier::Modest => "modest"@,
            LocationQualifier::Shabby => "shabby"@,
            LocationQualifier::Intimate => "intimate"@,
            LocationQualifier::Vast => "vast"@,
            LocationQualifier::Private => "private"@,
            LocationQualifier::Public => "public"@,
            LocationQualifier::SemiPublic => "semi_public"@,
            LocationQualifier::Transitional => "transitional"@,
            LocationQualifier::Utilitarian => "utilitarian"@,
            LocationQualifier::Ceremonial => "ceremonial"@,
            LocationQualifier::Sacred => "sacred"@,
            LocationQualifier::Familiar => "familiar"@,
            LocationQualifier::Foreign => "foreign"@,
            LocationQualifier::Contested => "contested"@,
        }
    }

    fn name(&self) -> (r: &'static str) {
        match self {
            LocationQualifier::Grand => "grand",
            LocationQualifier::Modest => "modest",
            LocationQualifier::Shabby => "shabby",
            LocationQualifier::Intimate => "intimate",
            LocationQualifier::Vast => "vast",
            LocationQualifier::Private => "private",
            LocationQualifier::Public => "public",
            LocationQualifier::SemiPublic => "semi_public",
            LocationQualifier::Transitional => "transitional",
            LocationQualifier::Utilitarian => "utilitarian",
            LocationQualifier::Ceremonial => "ceremonial",
            LocationQualifier::Sacred => "sacred",
            LocationQualifier::Familiar => "familiar",
            LocationQualifier::Foreign => "foreign",
            LocationQualifier::Contested => "contested",
        }
    }

    fn from_name(s: &str) -> (r: Option<Self>) {
        let r = if str_eq(s, "grand") {
            Some(LocationQualifier::Grand)
        } else if str_eq(s, "modest") {
            Some(LocationQualifier::Modest)
        } else if str_eq(s, "shabby") {
            Some(LocationQualifier::Shabby)
        } else if str_eq(s, "intimate") {
            Some(LocationQualifier::Intimate)
        } else if str_eq(s, "vast") {
            Some(LocationQualifier::Vast)
        } else if str_eq(s, "private") {
            Some(LocationQualifier::Private)
        } else if str_eq(s, "public") {
            Some(LocationQualifier::Public)
        } else if str_eq(s, "semi_public") {
            Some(LocationQualifier::SemiPublic)
        } else if str_eq(s, "transitional") {
            Some(LocationQualifier::Transitional)
        } else if str_eq(s, "utilitarian") {
            Some(LocationQualifier::Utilitarian)
        } else if str_eq(s, "ceremonial") {
            Some(LocationQualifier::Ceremonial)
        } else if str_eq(s, "sacred") {
            Some(LocationQualifier::Sacred)
        } else if str_eq(s, "familiar") {
            Some(LocationQualifier::Familiar)
        } else if str_eq(s, "foreign") {
            Some(LocationQualifier::Foreign)
        } else if str_eq(s, "contested") {
            Some(LocationQualifier::Contested)
        } else {
            None
        };
        r
    }

    proof fn lemma_name_injective(a: Self, b: Self) {
        reveal_strlit("grand");
        reveal_strlit("modest");
        reveal_strlit("shabby");
        reveal_strlit("intimate");
        reveal_strlit("vast");
        reveal_strlit("private");
        reveal_strlit("public");
        reveal_strlit("semi_public");
        reveal_strlit("transitional");
        reveal_strlit("utilitarian");
        reveal_strlit("ceremonial");
        reveal_strlit("sacred");
        reveal_strlit("familiar");
        reveal_strlit("foreign");
        reveal_strlit("contested");
        assert("grand"@.len() == 5);
        assert("modest"@.len() == 6 && "modest"@[0] == 'm');
        assert("shabby"@.len() == 6 && "shabby"@[0] == 's' && "shabby"@[1] == 'h');
        assert("intimate"@.len() == 8 && "intimate"@[0] == 'i');
        assert("vast"@.len() == 4);
        assert("private"@.len() == 7 && "private"@[0] == 'p');
        assert("public"@.len() == 6 && "public"@[0] == 'p');
        assert("semi_public"@.len() == 11 && "semi_public"@[0] == 's');
        assert("transitional"@.len() == 12);
        assert("utilitarian"@.len() == 11 && "utilitarian"@[0] == 'u');
        assert("ceremonial"@.len() == 10);
        assert("sacred"@.len() == 6 && "sacred"@[0] == 's' && "sacred"@[1] == 'a');
        assert("familiar"@.len() == 8 && "familiar"@[0] == 'f');
        assert("foreign"@.len() == 7 && "foreign"@[0] == 'f');
        assert("contested"@.len() == 9);
    }
}

/// Atmospheric weather conditions.
/// Aligned with `enums.schema.json#/$defs/weather_condition`.
#[derive(Debug, Clone, Copy, PartialEq, Eq, Hash, Structural)]
pub enum WeatherCondition {
    WxClear,
    PartlyCloudy,
    WxOvercast,
    Threatening,
    RainLight,
    RainHeavy,
    RainStarting,
    RainEnding,
    SnowLight,
    SnowHeavy,
    Sleet,
    Hail,
    WxFog,
    Mist,
    Haze,
    WxStorm,
    Thunderstorm,
    WindLight,
    WindStrong,
    Gale,
    HeatOppressive,
    ColdBitter,
    Humid,
    Dry,
    SeasonalTypical,
    Unseasonable,
    WeatherNone,
}

impl SnakeName for WeatherCondition {
    open spec fn spec_name(self) -> Seq<char> {
        match self {
            WeatherCondition::WxClear => "wx_clear"@,
            WeatherCondition::PartlyCloudy => "partly_cloudy"@,
            WeatherCondition::WxOvercast => "wx_overcast"@,
            WeatherCondition::Threatening => "threatening"@,
            WeatherCondition::RainLight => "rain_light"@,
            WeatherCondition::RainHeavy => "rain_heavy"@,
            WeatherCondition::RainStarting => "rain_starting"@,
            WeatherCondition::RainEnding => "rain_ending"@,
            WeatherCondition::SnowLight => "snow_light"@,
            WeatherCondition::SnowHeavy => "snow_heavy"@,
            WeatherCondition::Sleet => "sleet"@,
            WeatherCondition::Hail => "hail"@,
            WeatherCondition::WxFog => "wx_fog"@,
            WeatherCondition::Mist => "mist"@,
            WeatherCondition::Haze => "haze"@,
            WeatherCondition::WxStorm => "wx_storm"@,
            WeatherCondition::Thunderstorm => "thunderstorm"@,
            WeatherCondition::WindLight => "wind_light"@,
            WeatherCondition::WindStrong => "wind_strong"@,
            WeatherCondition::Gale => "gale"@,
            WeatherCondition::HeatOppressive => "heat_oppressive"@,
            WeatherCondition::ColdBitter => "cold_bitter"@,
            WeatherCondition::Humid => "humid"@,
            WeatherCondition::Dry => "dry"@,
            WeatherCondition::SeasonalTypical => "seasonal_typical"@,
            WeatherCondition::Unseasonable => "unseasonable"@,
            WeatherCondition::WeatherNone => "weather_none"@,
        }
    }

    fn name(&self) -> (r: &'static str) {
        match self {
            WeatherCondition::WxClear => "wx_clear",
            WeatherCondition::PartlyCloudy => "partly_cloudy",
            WeatherCondition::WxOvercast => "wx_overcast",
            WeatherCondition::Threatening => "threatening",
            WeatherCondition::RainLight => "rain_light",
            WeatherCondition::RainHeavy => "rain_heavy",
            WeatherCondition::RainStarting => "rain_starting",
            WeatherCondition::RainEnding => "rain_ending",
            WeatherCondition::SnowLight => "snow_light",
            WeatherCondition::SnowHeavy => "snow_heavy",
            WeatherCondition::Sleet => "sleet",
            WeatherCondition::Hail => "hail",
            WeatherCondition::WxFog => "wx_fog",
            WeatherCondition::Mist => "mist",
            WeatherCondition::Haze => "haze",
            WeatherCondition::WxStorm => "wx_storm",
            WeatherCondition::Thunderstorm => "thunderstorm",
            WeatherCondition::WindLight => "wind_light",
            WeatherCondition::WindStrong => "wind_strong",
            WeatherCondition::Gale => "gale",
            WeatherCondition::HeatOppressive => "heat_oppressive",
            WeatherCondition::ColdBitter => "cold_bitter",
            WeatherCondition::Humid => "humid",
            WeatherCondition::Dry => "dry",
            WeatherCondition::SeasonalTypical => "seasonal_typical",
            WeatherCondition::Unseasonable => "unseasonable",
            WeatherCondition::WeatherNone => "weather_none",
        }
    }

    fn from_name(s: &str) -> (r: Option<Self>) {
        let r = if str_eq(s, "wx_clear") {
            Some(WeatherCondition::WxClear)
        } else if str_eq(s, "partly_cloudy") {
            Some(WeatherCondition::PartlyCloudy)
        } else if str_eq(s, "wx_overcast") {
            Some(WeatherCondition::WxOvercast)
        } else if str_eq(s, "threatening") {
            Some(WeatherCondition::Threatening)
        } else if str_eq(s, "rain_light") {
            Some(WeatherCondition::RainLight)
        } else if str_eq(s, "rain_heavy") {
            Some(WeatherCondition::RainHeavy)
        } else if str_eq(s, "rain_starting") {
            Some(WeatherCondition::RainStarting)
        } else if str_eq(s, "rain_ending") {
            Some(WeatherCondition::RainEnding)
        } else if str_eq(s, "snow_light") {
            Some(WeatherCondition::SnowLight)
        } else if str_eq(s, "snow_heavy") {
            Some(WeatherCondition::SnowHeavy)
        } else if str_eq(s, "sleet") {
            Some(WeatherCondition::Sleet)
        } else if str_eq(s, "hail") {
            Some(WeatherCondition::Hail)
        } else if str_eq(s, "wx_fog") {
            Some(WeatherCondition::WxFog)
        } else if str_eq(s, "mist") {
            Some(WeatherCondition::Mist)
        } else if str_eq(s, "haze") {
            Some(WeatherCondition::Haze)
        } else if str_eq(s, "wx_storm") {
            Some(WeatherCondition::WxStorm)
        } else if str_eq(s, "thunderstorm") {
            Some(WeatherCondition::Thunderstorm)
        } else if str_eq(s, "wind_light") {
            Some(WeatherCondition::WindLight)
        } else if str_eq(s, "wind_strong") {
            Some(WeatherCondition::WindStrong)
        } else if str_eq(s, "gale") {
            Some(WeatherCondition::Gale)
        } else if str_eq(s, "heat_oppressive") {
            Some(WeatherCondition::HeatOppressive)
        } else if str_eq(s, "cold_bitter") {
            Some(WeatherCondition::ColdBitter)
        } else if str_eq(s, "humid") {
            Some(WeatherCondition::Humid)
        } else if str_eq(s, "dry") {
            Some(WeatherCondition::Dry)
        } else if str_eq(s, "seasonal_typical") {
            Some(WeatherCondition::SeasonalTypical)
        } else if str_eq(s, "unseasonable") {
            Some(WeatherCondition::Unseasonable)
        } else if str_eq(s, "weather_none") {
            Some(WeatherCondition::WeatherNone)
        } else {
            None
        };
        r
    }

    #[verifier::rlimit(50)]
    proof fn lemma_name_injective(a: Self, b: Self) {
        reveal_strlit("wx_clear");
        reveal_strlit("partly_cloudy");
        reveal_strlit("wx_overcast");
        reveal_strlit("threatening");
        reveal_strlit("rain_light");
        reveal_strlit("rain_heavy");
        reveal_strlit("rain_starting");
        reveal_strlit("rain_ending");
        reveal_strlit("snow_light");
        reveal_strlit("snow_heavy");
        reveal_strlit("sleet");
        reveal_strlit("hail");
        reveal_strlit("wx_fog");
        reveal_strlit("mist");
        reveal_strlit("haze");
        reveal_strlit("wx_storm");
        reveal_strlit("thunderstorm");
        reveal_strlit("wind_light");
        reveal_strlit("wind_strong");
        reveal_strlit("gale");
        reveal_strlit("heat_oppressive");
        reveal_strlit("cold_bitter");
        reveal_strlit("humid");
        reveal_strlit("dry");
        reveal_strlit("seasonal_typical");
        reveal_strlit("unseasonable");
        reveal_strlit("weather_none");
        assert("wx_clear"@.len() == 8 && "wx_clear"@[3] == 'c');
        assert("partly_cloudy"@.len() == 13 && "partly_cloudy"@[0] == 'p');
        assert("wx_overcast"@.len() == 11 && "wx_overcast"@[0] == 'w' && "wx_overcast"@[1] == 'x');
        assert("threatening"@.len() == 11 && "threatening"@[0] == 't');
        assert("rain_light"@.len() == 10 && "rain_light"@[0] == 'r' && "rain_light"@[5] == 'l');
        assert("rain_heavy"@.len() == 10 && "rain_heavy"@[0] == 'r' && "rain_heavy"@[5] == 'h');
        assert("rain_starting"@.len() == 13 && "rain_starting"@[0] == 'r');
        assert("rain_ending"@.len() == 11 && "rain_ending"@[0] == 'r');
        assert("snow_light"@.len() == 10 && "snow_light"@[0] == 's' && "snow_light"@[5] == 'l');
        assert("snow_heavy"@.len() == 10 && "snow_heavy"@[0] == 's' && "snow_heavy"@[5] == 'h');
        assert("sleet"@.len() == 5 && "sleet"@[0] == 's');
        assert("hail"@.len() == 4 && "hail"@[0] == 'h' && "hail"@[2] == 'i');
        assert("wx_fog"@.len() == 6);
        assert("mist"@.len() == 4 && "mist"@[0] == 'm');
        assert("haze"@.len() == 4 && "haze"@[0] == 'h' && "haze"@[2] == 'z');
        assert("wx_storm"@.len() == 8 && "wx_storm"@[3] == 's');
        assert("thunderstorm"@.len() == 12 && "thunderstorm"@[0] == 't');
        assert("wind_light"@.len() == 10 && "wind_light"@[0] == 'w');
        assert("wind_strong"@.len() == 11 && "wind_strong"@[0] == 'w' && "wind_strong"@[1] == 'i');
        assert("gale"@.len() == 4 && "gale"@[0] == 'g');
        assert("heat_oppressive"@.len() == 15);
        assert("cold_bitter"@.len() == 11 && "cold_bitter"@[0] == 'c');
        assert("humid"@.len() == 5 && "humid"@[0] == 'h');
        assert("dry"@.len() == 3);
        assert("seasonal_typical"@.len() == 16);
        assert("unseasonable"@.len() == 12 && "unseasonable"@[0] == 'u');
        assert("weather_none"@.len() == 12 && "weather_none"@[0] == 'w');
    }
}

/// Primary light source.
/// Aligned with `enums.schema.json#/$defs/lighting_source`.
#[derive(Debug, Clone, Copy, PartialEq, Eq, Hash, Structural)]
pub enum LightingSource {
    SunlightDirect,
    SunlightDiffused,
    SunlightFiltered,
    Moonlight,
    Starlight,
    CandleSingle,
    CandlesMultiple,
    Chandelier,
    Fireplace,
    Torch,
    Lantern,
    LampOil,
    GasLight,
    Electric,
    LightNone,
    LightMixed,
}

impl SnakeName for LightingSource {
    open spec fn spec_name(self) -> Seq<char> {
        match self {
            LightingSource::SunlightDirect => "sunlight_direct"@,
            LightingSource::SunlightDiffused => "sunlight_diffused"@,
            LightingSource::SunlightFiltered => "sunlight_filtered"@,
            LightingSource::Moonlight => "moonlight"@,
            LightingSource::Starlight => "starlight"@,
            LightingSource::CandleSingle => "candle_single"@,
            LightingSource::CandlesMultiple => "candles_multiple"@,
            LightingSource::Chandelier => "chandelier"@,
            LightingSource::Fireplace => "fireplace"@,
            LightingSource::Torch => "torch"@,
            LightingSource::Lantern => "lantern"@,
            LightingSource::LampOil => "lamp_oil"@,
            LightingSource::GasLight => "gas_light"@,
            LightingSource::Electric => "electric"@,
            LightingSource::LightNone => "light_none"@,
            LightingSource::LightMixed => "light_mixed"@,
        }
    }

    fn name(&self) -> (r: &'static str) {
        match self {
            LightingSource::SunlightDirect => "sunlight_direct",
            LightingSource::SunlightDiffused => "sunlight_diffused",
            LightingSource::SunlightFiltered => "sunlight_filtered",
            LightingSource::Moonlight => "moonlight",
            LightingSource::Starlight => "starlight",
            LightingSource::CandleSingle => "candle_single",
            LightingSource::CandlesMultiple => "candles_multiple",
            LightingSource::Chandelier => "chandelier",
            LightingSource::Fireplace => "fireplace",
            LightingSource::Torch => "torch",
            LightingSource::Lantern => "lantern",
            LightingSource::LampOil => "lamp_oil",
            LightingSource::GasLight => "gas_light",
            LightingSource::Electric => "electric",
            LightingSource::LightNone => "light_none",
            LightingSource::LightMixed => "light_mixed",
        }
    }

    fn from_name(s: &str) -> (r: Option<Self>) {
        let r = if str_eq(s, "sunlight_direct") {
            Some(LightingSource::SunlightDirect)
        } else if str_eq(s, "sunlight_diffused") {
            Some(LightingSource::SunlightDiffused)
        } else if str_eq(s, "sunlight_filtered") {
            Some(LightingSource::SunlightFiltered)
        } else if str_eq(s, "moonlight") {
            Some(LightingSource::Moonlight)
        } else if str_eq(s, "starlight") {
            Some(LightingSource::Starlight)
        } else if str_eq(s, "candle_single") {
            Some(LightingSource::CandleSingle)
        } else if str_eq(s, "candles_multiple") {
            Some(LightingSource::CandlesMultiple)
        } else if str_eq(s, "chandelier") {
            Some(LightingSource::Chandelier)
        } else if str_eq(s, "fireplace") {
            Some(LightingSource::Fireplace)
        } else if str_eq(s, "torch") {
            Some(LightingSource::Torch)
        } else if str_eq(s, "lantern") {
            Some(LightingSource::Lantern)
        } else if str_eq(s, "lamp_oil") {
            Some(LightingSource::LampOil)
        } else if str_eq(s, "gas_light") {
            Some(LightingSource::GasLight)
        } else if str_eq(s, "electric") {
            Some(LightingSource::Electric)
        } else if str_eq(s, "light_none") {
            Some(LightingSource::LightNone)
        } else if str_eq(s, "light_mixed") {
            Some(LightingSource::LightMixed)
        } else {
            None
        };
        r
    }

    proof fn lemma_name_injective(a: Self, b: Self) {
        reveal_strlit("sunlight_direct");
        reveal_strlit("sunlight_diffused");
        reveal_strlit("sunlight_filtered");
        reveal_strlit("moonlight");
        reveal_strlit("starlight");
        reveal_strlit("candle_single");
        reveal_strlit("candles_multiple");
        reveal_strlit("chandelier");
        reveal_strlit("fireplace");
        reveal_strlit("torch");
        reveal_strlit("lantern");
        reveal_strlit("lamp_oil");
        reveal_strlit("gas_light");
        reveal_strlit("electric");
        reveal_strlit("light_none");
        reveal_strlit("light_mixed");
        assert("sunlight_direct"@.len() == 15);
        assert("sunlight_diffused"@.len() == 17 && "sunlight_diffused"@[9] == 'd');
        assert("sunlight_filtered"@.len() == 17 && "sunlight_filtered"@[9] == 'f');
        assert("moonlight"@.len() == 9 && "moonlight"@[0] == 'm');
        assert("starlight"@.len() == 9 && "starlight"@[0] == 's');
        assert("candle_single"@.len() == 13);
        assert("candles_multiple"@.len() == 16);
        assert("chandelier"@.len() == 10 && "chandelier"@[0] == 'c');
        assert("fireplace"@.len() == 9 && "fireplace"@[0] == 'f');
        assert("torch"@.len() == 5);
        assert("lantern"@.len() == 7);
        assert("lamp_oil"@.len() == 8 && "lamp_oil"@[0] == 'l');
        assert("gas_light"@.len() == 9 && "gas_light"@[0] == 'g');
        assert("electric"@.len() == 8 && "electric"@[0] == 'e');
        assert("light_none"@.len() == 10 && "light_none"@[0] == 'l');
        assert("light_mixed"@.len() == 11);
    }
}

/// Quality of illumination.
/// Aligned with `enums.schema.json#/$defs/lighting_quality`.
#[derive(Debug, Clone, Copy, PartialEq, Eq, Hash, Structural)]
pub enum LightingQuality {
    Bright,
    WellLit,
    Adequate,
    Dim,
    Dark,
    PitchBlack,
    Harsh,
    Soft,
    LightWarm,
    LightCold,
    Flickering,
    Steady,
    Shifting,
    Dappled,
    Shadowed,
    Contrasting,
}

impl SnakeName for LightingQuality {
    open spec fn spec_name(self) -> Seq<char> {
        match self {
            LightingQuality::Bright => "bright"@,
            LightingQuality::WellLit => "well_lit"@,
            LightingQuality::Adequate => "adequate"@,
            LightingQuality::Dim => "dim"@,
            LightingQuality::Dark => "dark"@,
            LightingQuality::PitchBlack => "pitch_black"@,
            LightingQuality::Harsh => "harsh"@,
            LightingQuality::Soft => "soft"@,
            LightingQuality::LightWarm => "light_warm"@,
            LightingQuality::LightCold => "light_cold"@,
            LightingQuality::Flickering => "flickering"@,
            LightingQuality::Steady => "steady"@,
            LightingQuality::Shifting => "shifting"@,
            LightingQuality::Dappled => "dappled"@,
            LightingQuality::Shadowed => "shadowed"@,
            LightingQuality::Contrasting => "contrasting"@,
        }
    }

    fn name(&self) -> (r: &'static str) {
        match self {
            LightingQuality::Bright => "bright",
            LightingQuality::WellLit => "well_lit",
            LightingQuality::Adequate => "adequate",
            LightingQuality::Dim => "dim",
            LightingQuality::Dark => "dark",
            LightingQuality::PitchBlack => "pitch_black",
            LightingQuality::Harsh => "harsh",
            LightingQuality::Soft => "soft",
            LightingQuality::LightWarm => "light_warm",
            LightingQuality::LightCold => "light_cold",
            LightingQuality::Flickering => "flickering",
            LightingQuality::Steady => "steady",
            LightingQuality::Shifting => "shifting",
            LightingQuality::Dappled => "dappled",
            LightingQuality::Shadowed => "shadowed",
            LightingQuality::Contrasting => "contrasting",
        }
    }

    fn from_name(s: &str) -> (r: Option<Self>) {
        let r = if str_eq(s, "bright") {
            Some(LightingQuality::Bright)
        } else if str_eq(s, "well_lit") {
            Some(LightingQuality::WellLit)
        } else if str_eq(s, "adequate") {
            Some(LightingQuality::Adequate)
        } else if str_eq(s, "dim") {
            Some(LightingQuality::Dim)
        } else if str_eq(s, "dark") {
            Some(LightingQuality::Dark)
        } else if str_eq(s, "pitch_black") {
            Some(LightingQuality::PitchBlack)
        } else if str_eq(s, "harsh") {
            Some(LightingQuality::Harsh)
        } else if str_eq(s, "soft") {
            Some(LightingQuality::Soft)
        } else if str_eq(s, "light_warm") {
            Some(LightingQuality::LightWarm)
        } else if str_eq(s, "light_cold") {
            Some(LightingQuality::LightCold)
        } else if str_eq(s, "flickering") {
            Some(LightingQuality::Flickering)
        } else if str_eq(s, "steady") {
            Some(LightingQuality::Steady)
        } else if str_eq(s, "shifting") {
            Some(LightingQuality::Shifting)
        } else if str_eq(s, "dappled") {
            Some(LightingQuality::Dappled)
        } else if str_eq(s, "shadowed") {
            Some(LightingQuality::Shadowed)
        } else if str_eq(s, "contrasting") {
            Some(LightingQuality::Contrasting)
        } else {
            None
        };
        r
    }

    proof fn lemma_name_injective(a: Self, b: Self) {
        reveal_strlit("bright");
        reveal_strlit("well_lit");
        reveal_strlit("adequate");
        reveal_strlit("dim");
        reveal_strlit("dark");
        reveal_strlit("pitch_black");
        reveal_strlit("harsh");
        reveal_strlit("soft");
        reveal_strlit("light_warm");
        reveal_strlit("light_cold");
        reveal_strlit("flickering");
        reveal_strlit("steady");
        reveal_strlit("shifting");
        reveal_strlit("dappled");
        reveal_strlit("shadowed");
        reveal_strlit("contrasting");
        assert("bright"@.len() == 6 && "bright"@[0] == 'b');
        assert("well_lit"@.len() == 8 && "well_lit"@[0] == 'w');
        assert("adequate"@.len() == 8 && "adequate"@[0] == 'a');
        assert("dim"@.len() == 3);
        assert("dark"@.len() == 4 && "dark"@[0] == 'd');
        assert("pitch_black"@.len() == 11 && "pitch_black"@[0] == 'p');
        assert("harsh"@.len() == 5);
        assert("soft"@.len() == 4 && "soft"@[0] == 's');
        assert("light_warm"@.len() == 10 && "light_warm"@[0] == 'l' && "light_warm"@[6] == 'w');
        assert("light_cold"@.len() == 10 && "light_cold"@[0] == 'l' && "light_cold"@[6] == 'c');
        assert("flickering"@.len() == 10 && "flickering"@[0] == 'f');
        assert("steady"@.len() == 6 && "steady"@[0] == 's');
        assert("shifting"@.len() == 8 && "shifting"@[0] == 's' && "shifting"@[2] == 'i');
        assert("dappled"@.len() == 7);
        assert("shadowed"@.len() == 8 && "shadowed"@[0] == 's' && "shadowed"@[2] == 'a');
        assert("contrasting"@.len() == 11 && "contrasting"@[0] == 'c');
    }
}

/// Thematic motif category.
/// Aligned with `enums.schema.json#/$defs/motif_category`.
#[derive(Debug, Clone, Copy, PartialEq, Eq, Hash, Structural)]
pub enum MotifCategory {
    Entrapment,
    MotifFreedom,
    Confinement,
    MotifEscape,
    Sight,
    Blindness,
    Perception,
    Revelation,
    Journey,
    Arrival,
    Departure,
    Threshold,
    Nature,
    Civilization,
    Wilderness,
    MotifGarden,
    MotifTime,
    Decay,
    Growth,
    Season,
    Mirror,
    Reflection,
    Doubling,
    Shadow,
    Water,
    Fire,
    Earth,
    Air,
    Light,
    Darkness,
    MotifDawn,
    MotifDusk,
    Mask,
    Performance,
    Authenticity,
    Letter,
    Book,
    Document,
    Secret,
    Food,
    Hunger,
    Feast,
    Poison,
    Blood,
    Wound,
    Healing,
    Music,
    MotifSilence,
    Noise,
}

impl SnakeName for MotifCategory {
    open spec fn spec_name(self) -> Seq<char> {
        match self {
            MotifCategory::Entrapment => "entrapment"@,
            MotifCategory::MotifFreedom => "motif_freedom"@,
            MotifCategory::Confinement => "confinement"@,
            MotifCategory::MotifEscape => "motif_escape"@,
            MotifCategory::Sight => "sight"@,
            MotifCategory::Blindness => "blindness"@,
            MotifCategory::Perception => "perception"@,
            MotifCategory::Revelation => "revelation"@,
            MotifCategory::Journey => "journey"@,
            MotifCategory::Arrival => "arrival"@,
            MotifCategory::Departure => "departure"@,
            MotifCategory::Threshold => "threshold"@,
            MotifCategory::Nature => "nature"@,
            MotifCategory::Civilization => "civilization"@,
            MotifCategory::Wilderness => "wilderness"@,
            MotifCategory::MotifGarden => "motif_garden"@,
            MotifCategory::MotifTime => "motif_time"@,
            MotifCategory::Decay => "decay"@,
            MotifCategory::Growth => "growth"@,
            MotifCategory::Season => "season"@,
            MotifCategory::Mirror => "mirror"@,
            MotifCategory::Reflection => "reflection"@,
            MotifCategory::Doubling => "doubling"@,
            MotifCategory::Shadow => "shadow"@,
            MotifCategory::Water => "water"@,
            MotifCategory::Fire => "fire"@,
            MotifCategory::Earth => "earth"@,
            MotifCategory::Air => "air"@,
            MotifCategory::Light => "light"@,
            MotifCategory::Darkness => "darkness"@,
            MotifCategory::MotifDawn => "motif_dawn"@,
            MotifCategory::MotifDusk => "motif_dusk"@,
            MotifCategory::Mask => "mask"@,
            MotifCategory::Performance => "performance"@,
            MotifCategory::Authenticity => "authenticity"@,
            MotifCategory::Letter => "letter"@,
            MotifCategory::Book => "book"@,
            MotifCategory::Document => "document"@,
            MotifCategory::Secret => "secret"@,
            MotifCategory::Food => "food"@,
            MotifCategory::Hunger => "hunger"@,
            MotifCategory::Feast => "feast"@,
            MotifCategory::Poison => "poison"@,
            MotifCategory::Blood => "blood"@,
            MotifCategory::Wound => "wound"@,
            MotifCategory::Healing => "healing"@,
            MotifCategory::Music => "music"@,
            MotifCategory::MotifSilence => "motif_silence"@,
            MotifCategory::Noise => "noise"@,
        }
    }

    fn name(&self) -> (r: &'static str) {
        match self {
            MotifCategory::Entrapment => "entrapment",
            MotifCategory::MotifFreedom => "motif_freedom",
            MotifCategory::Confinement => "confinement",
            MotifCategory::MotifEscape => "motif_escape",
            MotifCategory::Sight => "sight",
            MotifCategory::Blindness => "blindness",
            MotifCategory::Perception => "perception",
            MotifCategory::Revelation => "revelation",
            MotifCategory::Journey => "journey",
            MotifCategory::Arrival => "arrival",
            MotifCategory::Departure => "departure",
            MotifCategory::Threshold => "threshold",
            MotifCategory::Nature => "nature",
            MotifCategory::Civilization => "civilization",
            MotifCategory::Wilderness => "wilderness",
            MotifCategory::MotifGarden => "motif_garden",
            MotifCategory::MotifTime => "motif_time",
            MotifCategory::Decay => "decay",
            MotifCategory::Growth => "growth",
            MotifCategory::Season => "season",
            MotifCategory::Mirror => "mirror",
            MotifCategory::Reflection => "reflection",
            MotifCategory::Doubling => "doubling",
            MotifCategory::Shadow => "shadow",
            MotifCategory::Water => "water",
            MotifCategory::Fire => "fire",
            MotifCategory::Earth => "earth",
            MotifCategory::Air => "air",
            MotifCategory::Light => "light",
            MotifCategory::Darkness => "darkness",
            MotifCategory::MotifDawn => "motif_dawn",
            MotifCategory::MotifDusk => "motif_dusk",
            MotifCategory::Mask => "mask",
            MotifCategory::Performance => "performance",
            MotifCategory::Authenticity => "authenticity",
            MotifCategory::Letter => "letter",
            MotifCategory::Book => "book",
            MotifCategory::Document => "document",
            MotifCategory::Secret => "secret",
            MotifCategory::Food => "food",
            MotifCategory::Hunger => "hunger",
            MotifCategory::Feast => "feast",
            MotifCategory::Poison => "poison",
            MotifCategory::Blood => "blood",
            MotifCategory::Wound => "wound",
            MotifCategory::Healing => "healing",
            MotifCategory::Music => "music",
            MotifCategory::MotifSilence => "motif_silence",
            MotifCategory::Noise => "noise",
        }
    }

    fn from_name(s: &str) -> (r: Option<Self>) {
        let r = if str_eq(s, "entrapment") {
            Some(MotifCategory::Entrapment)
        } else if str_eq(s, "motif_freedom") {
            Some(MotifCategory::MotifFreedom)
        } else if str_eq(s, "confinement") {
            Some(MotifCategory::Confinement)
        } else if str_eq(s, "motif_escape") {
            Some(MotifCategory::MotifEscape)
        } else if str_eq(s, "sight") {
            Some(MotifCategory::Sight)
        } else if str_eq(s, "blindness") {
            Some(MotifCategory::Blindness)
        } else if str_eq(s, "perception") {
            Some(MotifCategory::Perception)
        } else if str_eq(s, "revelation") {
            Some(MotifCategory::Revelation)
        } else if str_eq(s, "journey") {
            Some(MotifCategory::Journey)
        } else if str_eq(s, "arrival") {
            Some(MotifCategory::Arrival)
        } else if str_eq(s, "departure") {
            Some(MotifCategory::Departure)
        } else if str_eq(s, "threshold") {
            Some(MotifCategory::Threshold)
        } else if str_eq(s, "nature") {
            Some(MotifCategory::Nature)
        } else if str_eq(s, "civilization") {
            Some(MotifCategory::Civilization)
        } else if str_eq(s, "wilderness") {
            Some(MotifCategory::Wilderness)
        } else if str_eq(s, "motif_garden") {
            Some(MotifCategory::MotifGarden)
        } else if str_eq(s, "motif_time") {
            Some(MotifCategory::MotifTime)
        } else if str_eq(s, "decay") {
            Some(MotifCategory::Decay)
        } else if str_eq(s, "growth") {
            Some(MotifCategory::Growth)
        } else if str_eq(s, "season") {
            Some(MotifCategory::Season)
        } else if str_eq(s, "mirror") {
            Some(MotifCategory::Mirror)
        } else if str_eq(s, "reflection") {
            Some(MotifCategory::Reflection)
        } else if str_eq(s, "doubling") {
            Some(MotifCategory::Doubling)
        } else if str_eq(s, "shadow") {
            Some(MotifCategory::Shadow)
        } else if str_eq(s, "water") {
            Some(MotifCategory::Water)
        } else if str_eq(s, "fire") {
            Some(MotifCategory::Fire)
        } else if str_eq(s, "earth") {
            Some(MotifCategory::Earth)
        } else if str_eq(s, "air") {
            Some(MotifCategory::Air)
        } else if str_eq(s, "light") {
            Some(MotifCategory::Light)
        } else if str_eq(s, "darkness") {
            Some(MotifCategory::Darkness)
        } else if str_eq(s, "motif_dawn") {
            Some(MotifCategory::MotifDawn)
        } else if str_eq(s, "motif_dusk") {
            Some(MotifCategory::MotifDusk)
        } else if str_eq(s, "mask") {
            Some(MotifCategory::Mask)
        } else if str_eq(s, "performance") {
            Some(MotifCategory::Performance)
        } else if str_eq(s, "authenticity") {
            Some(MotifCategory::Authenticity)
        } else if str_eq(s, "letter") {
            Some(MotifCategory::Letter)
        } else if str_eq(s, "book") {
            Some(MotifCategory::Book)
        } else if str_eq(s, "document") {
            Some(MotifCategory::Document)
        } else if str_eq(s, "secret") {
            Some(MotifCategory::Secret)
        } else if str_eq(s, "food") {
            Some(MotifCategory::Food)
        } else if str_eq(s, "hunger") {
            Some(MotifCategory::Hunger)
        } else if str_eq(s, "feast") {
            Some(MotifCategory::Feast)
        } else if str_eq(s, "poison") {
            Some(MotifCategory::Poison)
        } else if str_eq(s, "blood") {
            Some(MotifCategory::Blood)
        } else if str_eq(s, "wound") {
            Some(MotifCategory::Wound)
        } else if str_eq(s, "healing") {
            Some(MotifCategory::Healing)
        } else if str_eq(s, "music") {
            Some(MotifCategory::Music)
        } else if str_eq(s, "motif_silence") {
            Some(MotifCategory::MotifSilence)
        } else if str_eq(s, "noise") {
            Some(MotifCategory::Noise)
        } else {
            None
        };
        r
    }

    #[verifier::rlimit(50)]
    proof fn lemma_name_injective(a: Self, b: Self) {
        reveal_strlit("entrapment");
        reveal_strlit("motif_freedom");
        reveal_strlit("confinement");
        reveal_strlit("motif_escape");
        reveal_strlit("sight");
        reveal_strlit("blindness");
        reveal_strlit("perception");
        reveal_strlit("revelation");
        reveal_strlit("journey");
        reveal_strlit("arrival");
        reveal_strlit("departure");
        reveal_strlit("threshold");
        reveal_strlit("nature");
        reveal_strlit("civilization");
        reveal_strlit("wilderness");
        reveal_strlit("motif_garden");
        reveal_strlit("motif_time");
        reveal_strlit("decay");
        reveal_strlit("growth");
        reveal_strlit("season");
        reveal_strlit("mirror");
        reveal_strlit("reflection");
        reveal_strlit("doubling");
        reveal_strlit("shadow");
        reveal_strlit("water");
        reveal_strlit("fire");
        reveal_strlit("earth");
        reveal_strlit("air");
        reveal_strlit("light");
        reveal_strlit("darkness");
        reveal_strlit("motif_dawn");
        reveal_strlit("motif_dusk");
        reveal_strlit("mask");
        reveal_strlit("performance");
        reveal_strlit("authenticity");
        reveal_strlit("letter");
        reveal_strlit("book");
        reveal_strlit("document");
        reveal_strlit("secret");
        reveal_strlit("food");
        reveal_strlit("hunger");
        reveal_strlit("feast");
        reveal_strlit("poison");
        reveal_strlit("blood");
        reveal_strlit("wound");
        reveal_strlit("healing");
        reveal_strlit("music");
        reveal_strlit("motif_silence");
        reveal_strlit("noise");
        assert("entrapment"@.len() == 10 && "entrapment"@[0] == 'e');
        assert("motif_freedom"@.len() == 13 && "motif_freedom"@[6] == 'f');
        assert("confinement"@.len() == 11 && "confinement"@[0] == 'c');
        assert("motif_escape"@.len() == 12 && "motif_escape"@[0] == 'm' && "motif_escape"@[6] == 'e');
        assert("sight"@.len() == 5 && "sight"@[0] == 's');
        assert("blindness"@.len() == 9 && "blindness"@[0] == 'b');
        assert("perception"@.len() == 10 && "perception"@[0] == 'p');
        assert("revelation"@.len() == 10 && "revelation"@[0] == 'r' && "revelation"@[2] == 'v');
        assert("journey"@.len() == 7 && "journey"@[0] == 'j');
        assert("arrival"@.len() == 7 && "arrival"@[0] == 'a');
        assert("departure"@.len() == 9 && "departure"@[0] == 'd');
        assert("threshold"@.len() == 9 && "threshold"@[0] == 't');
        assert("nature"@.len() == 6 && "nature"@[0] == 'n');
        assert("civilization"@.len() == 12 && "civilization"@[0] == 'c');
        assert("wilderness"@.len() == 10 && "wilderness"@[0] == 'w');
        assert("motif_garden"@.len() == 12 && "motif_garden"@[0] == 'm' && "motif_garden"@[6] == 'g');
        assert("motif_time"@.len() == 10 && "motif_time"@[0] == 'm' && "motif_time"@[6] == 't');
        assert("decay"@.len() == 5 && "decay"@[0] == 'd');
        assert("growth"@.len() == 6 && "growth"@[0] == 'g');
        assert("season"@.len() == 6 && "season"@[0] == 's' && "season"@[1] == 'e' && "season"@[2] == 'a');
        assert("mirror"@.len() == 6 && "mirror"@[0] == 'm');
        assert("reflection"@.len() == 10 && "reflection"@[0] == 'r' && "reflection"@[2] == 'f');
        assert("doubling"@.len() == 8 && "doubling"@[1] == 'o' && "doubling"@[2] == 'u');
        assert("shadow"@.len() == 6 && "shadow"@[0] == 's' && "shadow"@[1] == 'h');
        assert("water"@.len() == 5 && "water"@[0] == 'w' && "water"@[1] == 'a');
        assert("fire"@.len() == 4 && "fire"@[0] == 'f' && "fire"@[1] == 'i');
        assert("earth"@.len() == 5 && "earth"@[0] == 'e');
        assert("air"@.len() == 3);
        assert("light"@.len() == 5 && "light"@[0] == 'l');
        assert("darkness"@.len() == 8 && "darkness"@[1] == 'a');
        assert("motif_dawn"@.len() == 10 && "motif_dawn"@[0] == 'm' && "motif_dawn"@[6] == 'd' && "motif_dawn"@[7] == 'a');
        assert("motif_dusk"@.len() == 10 && "motif_dusk"@[0] == 'm' && "motif_dusk"@[6] == 'd' && "motif_dusk"@[7] == 'u');
        assert("mask"@.len() == 4 && "mask"@[0] == 'm');
        assert("performance"@.len() == 11 && "performance"@[0] == 'p');
        assert("authenticity"@.len() == 12 && "authenticity"@[0] == 'a');
        assert("letter"@.len() == 6 && "letter"@[0] == 'l');
        assert("book"@.len() == 4 && "book"@[0] == 'b');
        assert("document"@.len() == 8 && "document"@[1] == 'o' && "document"@[2] == 'c');
        assert("secret"@.len() == 6 && "secret"@[0] == 's' && "secret"@[1] == 'e' && "secret"@[2] == 'c');
        assert("food"@.len() == 4 && "food"@[0] == 'f' && "food"@[1] == 'o');
        assert("hunger"@.len() == 6 && "hunger"@[0] == 'h');
        assert("feast"@.len() == 5 && "feast"@[0] == 'f');
        assert("poison"@.len() == 6 && "poison"@[0] == 'p');
        assert("blood"@.len() == 5 && "blood"@[0] == 'b');
        assert("wound"@.len() == 5 && "wound"@[0] == 'w' && "wound"@[1] == 'o');
        assert("healing"@.len() == 7 && "healing"@[0] == 'h');
        assert("music"@.len() == 5 && "music"@[0] == 'm');
        assert("motif_silence"@.len() == 13 && "motif_silence"@[6] == 's');
        assert("noise"@.len() == 5 && "noise"@[0] == 'n');
    }
}

/// Category of physical object in scene.
/// Aligned with `enums.schema.json#/$defs/prop_category`.
#[derive(Debug, Clone, Copy, PartialEq, Eq, Hash, Structural)]
pub enum PropCategory {
    FurnitureSeating,
    FurnitureTable,
    FurnitureStorage,
    FurnitureBed,
    DocumentLetter,
    DocumentBook,
    DocumentLegal,
    DocumentNews,
    ClothingWorn,
    ClothingRemoved,
    Accessory,
    Jewelry,
    PropFood,
    Drink,
    DiningImplement,
    PersonalItem,
    Keepsake,
    Gift,
    ArchitecturalDoor,
    ArchitecturalWindow,
    ArchitecturalFireplace,
    ArchitecturalStair,
    NaturePlant,
    NatureAnimal,
    NatureWeatherRelated,
    WeaponBlade,
    WeaponFirearm,
    WeaponImprovised,
    PropLightSource,
    Timepiece,
    PropMirror,
    MusicalInstrument,
    ArtObject,
    ReligiousObject,
    Container,
    Vehicle,
    Tool,
    SymbolicObject,
}

impl SnakeName for PropCategory {
    open spec fn spec_name(self) -> Seq<char> {
        match self {
            PropCategory::FurnitureSeating => "furniture_seating"@,
            PropCategory::FurnitureTable => "furniture_table"@,
            PropCategory::FurnitureStorage => "furniture_storage"@,
            PropCategory::FurnitureBed => "furniture_bed"@,
            PropCategory::DocumentLetter => "document_letter"@,
            PropCategory::DocumentBook => "document_book"@,
            PropCategory::DocumentLegal => "document_legal"@,
            PropCategory::DocumentNews => "document_news"@,
            PropCategory::ClothingWorn => "clothing_worn"@,
            PropCategory::ClothingRemoved => "clothing_removed"@,
            PropCategory::Accessory => "accessory"@,
            PropCategory::Jewelry => "jewelry"@,
            PropCategory::PropFood => "prop_food"@,
            PropCategory::Drink => "drink"@,
            PropCategory::DiningImplement => "dining_implement"@,
            PropCategory::PersonalItem => "personal_item"@,
            PropCategory::Keepsake => "keepsake"@,
            PropCategory::Gift => "gift"@,
            PropCategory::ArchitecturalDoor => "architectural_door"@,
            PropCategory::ArchitecturalWindow => "architectural_window"@,
            PropCategory::ArchitecturalFireplace => "architectural_fireplace"@,
            PropCategory::ArchitecturalStair => "architectural_stair"@,
            PropCategory::NaturePlant => "nature_plant"@,
            PropCategory::NatureAnimal => "nature_animal"@,
            PropCategory::NatureWeatherRelated => "nature_weather_related"@,
            PropCategory::WeaponBlade => "weapon_blade"@,
            PropCategory::WeaponFirearm => "weapon_firearm"@,
            PropCategory::WeaponImprovised => "weapon_improvised"@,
            PropCategory::PropLightSource => "prop_light_source"@,
            PropCategory::Timepiece => "timepiece"@,
            PropCategory::PropMirror => "prop_mirror"@,
            PropCategory::MusicalInstrument => "musical_instrument"@,
            PropCategory::ArtObject => "art_object"@,
            PropCategory::ReligiousObject => "religious_object"@,
            PropCategory::Container => "container"@,
            PropCategory::Vehicle => "vehicle"@,
            PropCategory::Tool => "tool"@,
            PropCategory::SymbolicObject => "symbolic_object"@,
        }
    }

    fn name(&self) -> (r: &'static str) {
        match self {
            PropCategory::FurnitureSeating => "furniture_seating",
            PropCategory::FurnitureTable => "furniture_table",
            PropCategory::FurnitureStorage => "furniture_storage",
            PropCategory::FurnitureBed => "furniture_bed",
            PropCategory::DocumentLetter => "document_letter",
            PropCategory::DocumentBook => "document_book",
            PropCategory::DocumentLegal => "document_legal",
            PropCategory::DocumentNews => "document_news",
            PropCategory::ClothingWorn => "clothing_worn",
            PropCategory::ClothingRemoved => "clothing_removed",
            PropCategory::Accessory => "accessory",
            PropCategory::Jewelry => "jewelry",
            PropCategory::PropFood => "prop_food",
            PropCategory::Drink => "drink",
            PropCategory::DiningImplement => "dining_implement",
            PropCategory::PersonalItem => "personal_item",
            PropCategory::Keepsake => "keepsake",
            PropCategory::Gift => "gift",
            PropCategory::ArchitecturalDoor => "architectural_door",
            PropCategory::ArchitecturalWindow => "architectural_window",
            PropCategory::ArchitecturalFireplace => "architectural_fireplace",
            PropCategory::ArchitecturalStair => "architectural_stair",
            PropCategory::NaturePlant => "nature_plant",
            PropCategory::NatureAnimal => "nature_animal",
            PropCategory::NatureWeatherRelated => "nature_weather_related",
            PropCategory::WeaponBlade => "weapon_blade",
            PropCategory::WeaponFirearm => "weapon_firearm",
            PropCategory::WeaponImprovised => "weapon_improvised",
            PropCategory::PropLightSource => "prop_light_source",
            PropCategory::Timepiece => "timepiece",
            PropCategory::PropMirror => "prop_mirror",
            PropCategory::MusicalInstrument => "musical_instrument",
            PropCategory::ArtObject => "art_object",
            PropCategory::ReligiousObject => "religious_object",
            PropCategory::Container => "container",
            PropCategory::Vehicle => "vehicle",
            PropCategory::Tool => "tool",
            PropCategory::SymbolicObject => "symbolic_object",
        }
    }

    fn from_name(s: &str) -> (r: Option<Self>) {
        let r = if str_eq(s, "furniture_seating") {
            Some(PropCategory::FurnitureSeating)
        } else if str_eq(s, "furniture_table") {
            Some(PropCategory::FurnitureTable)
        } else if str_eq(s, "furniture_storage") {
            Some(PropCategory::FurnitureStorage)
        } else if str_eq(s, "furniture_bed") {
            Some(PropCategory::FurnitureBed)
        } else if str_eq(s, "document_letter") {
            Some(PropCategory::DocumentLetter)
        } else if str_eq(s, "document_book") {
            Some(PropCategory::DocumentBook)
        } else if str_eq(s, "document_legal") {
            Some(PropCategory::DocumentLegal)
        } else if str_eq(s, "document_news") {
            Some(PropCategory::DocumentNews)
        } else if str_eq(s, "clothing_worn") {
            Some(PropCategory::ClothingWorn)
        } else if str_eq(s, "clothing_removed") {
            Some(PropCategory::ClothingRemoved)
        } else if str_eq(s, "accessory") {
            Some(PropCategory::Accessory)
        } else if str_eq(s, "jewelry") {
            Some(PropCategory::Jewelry)
        } else if str_eq(s, "prop_food") {
            Some(PropCategory::PropFood)
        } else if str_eq(s, "drink") {
            Some(PropCategory::Drink)
        } else if str_eq(s, "dining_implement") {
            Some(PropCategory::DiningImplement)
        } else if str_eq(s, "personal_item") {
            Some(PropCategory::PersonalItem)
        } else if str_eq(s, "keepsake") {
            Some(PropCategory::Keepsake)
        } else if str_eq(s, "gift") {
            Some(PropCategory::Gift)
        } else if str_eq(s, "architectural_door") {
            Some(PropCategory::ArchitecturalDoor)
        } else if str_eq(s, "architectural_window") {
            Some(PropCategory::ArchitecturalWindow)
        } else if str_eq(s, "architectural_fireplace") {
            Some(PropCategory::ArchitecturalFireplace)
        } else if str_eq(s, "architectural_stair") {
            Some(PropCategory::ArchitecturalStair)
        } else if str_eq(s, "nature_plant") {
            Some(PropCategory::NaturePlant)
        } else if str_eq(s, "nature_animal") {
            Some(PropCategory::NatureAnimal)
        } else if str_eq(s, "nature_weather_related") {
            Some(PropCategory::NatureWeatherRelated)
        } else if str_eq(s, "weapon_blade") {
            Some(PropCategory::WeaponBlade)
        } else if str_eq(s, "weapon_firearm") {
            Some(PropCategory::WeaponFirearm)
        } else if str_eq(s, "weapon_improvised") {
            Some(PropCategory::WeaponImprovised)
        } else if str_eq(s, "prop_light_source") {
            Some(PropCategory::PropLightSource)
        } else if str_eq(s, "timepiece") {
            Some(PropCategory::Timepiece)
        } else if str_eq(s, "prop_mirror") {
            Some(PropCategory::PropMirror)
        } else if str_eq(s, "musical_instrument") {
            Some(PropCategory::MusicalInstrument)
        } else if str_eq(s, "art_object") {
            Some(PropCategory::ArtObject)
        } else if str_eq(s, "religious_object") {
            Some(PropCategory::ReligiousObject)
        } else if str_eq(s, "container") {
            Some(PropCategory::Container)
        } else if str_eq(s, "vehicle") {
            Some(PropCategory::Vehicle)
        } else if str_eq(s, "tool") {
            Some(PropCategory::Tool)
        } else if str_eq(s, "symbolic_object") {
            Some(PropCategory::SymbolicObject)
        } else {
            None
        };
        r
    }

    #[verifier::rlimit(50)]
    proof fn lemma_name_injective(a: Self, b: Self) {
        reveal_strlit("furniture_seating");
        reveal_strlit("furniture_table");
        reveal_strlit("furniture_storage");
        reveal_strlit("furniture_bed");
        reveal_strlit("document_letter");
        reveal_strlit("document_book");
        reveal_strlit("document_legal");
        reveal_strlit("document_news");
        reveal_strlit("clothing_worn");
        reveal_strlit("clothing_removed");
        reveal_strlit("accessory");
        reveal_strlit("jewelry");
        reveal_strlit("prop_food");
        reveal_strlit("drink");
        reveal_strlit("dining_implement");
        reveal_strlit("personal_item");
        reveal_strlit("keepsake");
        reveal_strlit("gift");
        reveal_strlit("architectural_door");
        reveal_strlit("architectural_window");
        reveal_strlit("architectural_fireplace");
        reveal_strlit("architectural_stair");
        reveal_strlit("nature_plant");
        reveal_strlit("nature_animal");
        reveal_strlit("nature_weather_related");
        reveal_strlit("weapon_blade");
        reveal_strlit("weapon_firearm");
        reveal_strlit("weapon_improvised");
        reveal_strlit("prop_light_source");
        reveal_strlit("timepiece");
        reveal_strlit("prop_mirror");
        reveal_strlit("musical_instrument");
        reveal_strlit("art_object");
        reveal_strlit("religious_object");
        reveal_strlit("container");
        reveal_strlit("vehicle");
        reveal_strlit("tool");
        reveal_strlit("symbolic_object");
        assert("furniture_seating"@.len() == 17 && "furniture_seating"@[0] == 'f' && "furniture_seating"@[11] == 'e');
        assert("furniture_table"@.len() == 15 && "furniture_table"@[0] == 'f');
        assert("furniture_storage"@.len() == 17 && "furniture_storage"@[0] == 'f' && "furniture_storage"@[11] == 't');
        assert("furniture_bed"@.len() == 13 && "furniture_bed"@[0] == 'f');
        assert("document_letter"@.len() == 15 && "document_letter"@[0] == 'd');
        assert("document_book"@.len() == 13 && "document_book"@[0] == 'd' && "document_book"@[9] == 'b');
        assert("document_legal"@.len() == 14 && "document_legal"@[0] == 'd');
        assert("document_news"@.len() == 13 && "document_news"@[0] == 'd' && "document_news"@[9] == 'n');
        assert("clothing_worn"@.len() == 13 && "clothing_worn"@[0] == 'c');
        assert("clothing_removed"@.len() == 16 && "clothing_removed"@[0] == 'c');
        assert("accessory"@.len() == 9 && "accessory"@[0] == 'a');
        assert("jewelry"@.len() == 7 && "jewelry"@[0] == 'j');
        assert("prop_food"@.len() == 9 && "prop_food"@[0] == 'p');
        assert("drink"@.len() == 5);
        assert("dining_implement"@.len() == 16 && "dining_implement"@[0] == 'd');
        assert("personal_item"@.len() == 13 && "personal_item"@[0] == 'p');
        assert("keepsake"@.len() == 8);
        assert("gift"@.len() == 4 && "gift"@[0] == 'g');
        assert("architectural_door"@.len() == 18 && "architectural_door"@[0] == 'a');
        assert("architectural_window"@.len() == 20);
        assert("architectural_fireplace"@.len() == 23);
        assert("architectural_stair"@.len() == 19);
        assert("nature_plant"@.len() == 12 && "nature_plant"@[0] == 'n');
        assert("nature_animal"@.len() == 13 && "nature_animal"@[0] == 'n');
        assert("nature_weather_related"@.len() == 22);
        assert("weapon_blade"@.len() == 12 && "weapon_blade"@[0] == 'w');
        assert("weapon_firearm"@.len() == 14 && "weapon_firearm"@[0] == 'w');
        assert("weapon_improvised"@.len() == 17 && "weapon_improvised"@[0] == 'w');
        assert("prop_light_source"@.len() == 17 && "prop_light_source"@[0] == 'p');
        assert("timepiece"@.len() == 9 && "timepiece"@[0] == 't');
        assert("prop_mirror"@.len() == 11);
        assert("musical_instrument"@.len() == 18 && "musical_instrument"@[0] == 'm');
        assert("art_object"@.len() == 10);
        assert("religious_object"@.len() == 16 && "religious_object"@[0] == 'r');
        assert("container"@.len() == 9 && "container"@[0] == 'c');
        assert("vehicle"@.len() == 7 && "vehicle"@[0] == 'v');
        assert("tool"@.len() == 4 && "tool"@[0] == 't');
        assert("symbolic_object"@.len() == 15 && "symbolic_object"@[0] == 's');
    }
}

/// Character's physical position in space.
/// Aligned with `enums.schema.json#/$defs/position_type`.
#[derive(Debug, Clone, Copy, PartialEq, Eq, Hash, Structural)]
pub enum PositionType {
    Seated,
    Standing,
    Pacing,
    Lying,
    Kneeling,
    AtThreshold,
    AtWindow,
    AtFireplace,
    AtTable,
    CenterRoom,
    Corner,
    Background,
    Foreground,
    BlockingExit,
    NearExit,
    Isolated,
    Clustered,
}

impl SnakeName for PositionType {
    open spec fn spec_name(self) -> Seq<char> {
        match self {
            PositionType::Seated => "seated"@,
            PositionType::Standing => "standing"@,
            PositionType::Pacing => "pacing"@,
            PositionType::Lying => "lying"@,
            PositionType::Kneeling => "kneeling"@,
            PositionType::AtThreshold => "at_threshold"@,
            PositionType::AtWindow => "at_window"@,
            PositionType::AtFireplace => "at_fireplace"@,
            PositionType::AtTable => "at_table"@,
            PositionType::CenterRoom => "center_room"@,
            PositionType::Corner => "corner"@,
            PositionType::Background => "background"@,
            PositionType::Foreground => "foreground"@,
            PositionType::BlockingExit => "blocking_exit"@,
            PositionType::NearExit => "near_exit"@,
            PositionType::Isolated => "isolated"@,
            PositionType::Clustered => "clustered"@,
        }
    }

    fn name(&self) -> (r: &'static str) {
        match self {
            PositionType::Seated => "seated",
            PositionType::Standing => "standing",
            PositionType::Pacing => "pacing",
            PositionType::Lying => "lying",
            PositionType::Kneeling => "kneeling",
            PositionType::AtThreshold => "at_threshold",
            PositionType::AtWindow => "at_window",
            PositionType::AtFireplace => "at_fireplace",
            PositionType::AtTable => "at_table",
            PositionType::CenterRoom => "center_room",
            PositionType::Corner => "corner",
            PositionType::Background => "background",
            PositionType::Foreground => "foreground",
            PositionType::BlockingExit => "blocking_exit",
            PositionType::NearExit => "near_exit",
            PositionType::Isolated => "isolated",
            PositionType::Clustered => "clustered",
        }
    }

    fn from_name(s: &str) -> (r: Option<Self>) {
        let r = if str_eq(s, "seated") {
            Some(PositionType::Seated)
        } else if str_eq(s, "standing") {
            Some(PositionType::Standing)
        } else if str_eq(s, "pacing") {
            Some(PositionType::Pacing)
        } else if str_eq(s, "lying") {
            Some(PositionType::Lying)
        } else if str_eq(s, "kneeling") {
            Some(PositionType::Kneeling)
        } else if str_eq(s, "at_threshold") {
            Some(PositionType::AtThreshold)
        } else if str_eq(s, "at_window") {
            Some(PositionType::AtWindow)
        } else if str_eq(s, "at_fireplace") {
            Some(PositionType::AtFireplace)
        } else if str_eq(s, "at_table") {
            Some(PositionType::AtTable)
        } else if str_eq(s, "center_room") {
            Some(PositionType::CenterRoom)
        } else if str_eq(s, "corner") {
            Some(PositionType::Corner)
        } else if str_eq(s, "background") {
            Some(PositionType::Background)
        } else if str_eq(s, "foreground") {
            Some(PositionType::Foreground)
        } else if str_eq(s, "blocking_exit") {
            Some(PositionType::BlockingExit)
        } else if str_eq(s, "near_exit") {
            Some(PositionType::NearExit)
        } else if str_eq(s, "isolated") {
            Some(PositionType::Isolated)
        } else if str_eq(s, "clustered") {
            Some(PositionType::Clustered)
        } else {
            None
        };
        r
    }

    proof fn lemma_name_injective(a: Self, b: Self) {
        reveal_strlit("seated");
        reveal_strlit("standing");
        reveal_strlit("pacing");
        reveal_strlit("lying");
        reveal_strlit("kneeling");
        reveal_strlit("at_threshold");
        reveal_strlit("at_window");
        reveal_strlit("at_fireplace");
        reveal_strlit("at_table");
        reveal_strlit("center_room");
        reveal_strlit("corner");
        reveal_strlit("background");
        reveal_strlit("foreground");
        reveal_strlit("blocking_exit");
        reveal_strlit("near_exit");
        reveal_strlit("isolated");
        reveal_strlit("clustered");
        assert("seated"@.len() == 6 && "seated"@[0] == 's');
        assert("standing"@.len() == 8 && "standing"@[0] == 's');
        assert("pacing"@.len() == 6 && "pacing"@[0] == 'p');
        assert("lying"@.len() == 5);
        assert("kneeling"@.len() == 8 && "kneeling"@[0] == 'k');
        assert("at_threshold"@.len() == 12 && "at_threshold"@[3] == 't');
        assert("at_window"@.len() == 9 && "at_window"@[0] == 'a');
        assert("at_fireplace"@.len() == 12 && "at_fireplace"@[3] == 'f');
        assert("at_table"@.len() == 8 && "at_table"@[0] == 'a');
        assert("center_room"@.len() == 11);
        assert("corner"@.len() == 6 && "corner"@[0] == 'c');
        assert("background"@.len() == 10 && "background"@[0] == 'b');
        assert("foreground"@.len() == 10 && "foreground"@[0] == 'f');
        assert("blocking_exit"@.len() == 13);
        assert("near_exit"@.len() == 9 && "near_exit"@[0] == 'n');
        assert("isolated"@.len() == 8 && "isolated"@[0] == 'i');
        assert("clustered"@.len() == 9 && "clustered"@[0] == 'c');
    }
}

/// Type of physical movement.
/// Aligned with `enums.schema.json#/$defs/movement_type`.
#[derive(Debug, Clone, Copy, PartialEq, Eq, Hash, Structural)]
pub enum MovementType {
    Enters,
    Exits,
    Approaches,
    Retreats,
    Circles,
    Rises,
    Sits,
    TurnsToward,
    TurnsAway,
    CrossesTo,
    RemainsStill,
    Gestures,
    TouchesObject,
    HandlesProp,
    DiscardsProp,
    TouchesCharacter,
    WithdrawsContact,
    MovePaces,
    Freezes,
    Collapses,
}

impl SnakeName for MovementType {
    open spec fn spec_name(self) -> Seq<char> {
        match self {
            MovementType::Enters => "enters"@,
            MovementType::Exits => "exits"@,
            MovementType::Approaches => "approaches"@,
            MovementType::Retreats => "retreats"@,
            MovementType::Circles => "circles"@,
            MovementType::Rises => "rises"@,
            MovementType::Sits => "sits"@,
            MovementType::TurnsToward => "turns_toward"@,
            MovementType::TurnsAway => "turns_away"@,
            MovementType::CrossesTo => "crosses_to"@,
            MovementType::RemainsStill => "remains_still"@,
            MovementType::Gestures => "gestures"@,
            MovementType::TouchesObject => "touches_object"@,
            MovementType::HandlesProp => "handles_prop"@,
            MovementType::DiscardsProp => "discards_prop"@,
            MovementType::TouchesCharacter => "touches_character"@,
            MovementType::WithdrawsContact => "withdraws_contact"@,
            MovementType::MovePaces => "move_paces"@,
            MovementType::Freezes => "freezes"@,
            MovementType::Collapses => "collapses"@,
        }
    }

    fn name(&self) -> (r: &'static str) {
        match self {
            MovementType::Enters => "enters",
            MovementType::Exits => "exits",
            MovementType::Approaches => "approaches",
            MovementType::Retreats => "retreats",
            MovementType::Circles => "circles",
            MovementType::Rises => "rises",
            MovementType::Sits => "sits",
            MovementType::TurnsToward => "turns_toward",
            MovementType::TurnsAway => "turns_away",
            MovementType::CrossesTo => "crosses_to",
            MovementType::RemainsStill => "remains_still",
            MovementType::Gestures => "gestures",
            MovementType::TouchesObject => "touches_object",
            MovementType::HandlesProp => "handles_prop",
            MovementType::DiscardsProp => "discards_prop",
            MovementType::TouchesCharacter => "touches_character",
            MovementType::WithdrawsContact => "withdraws_contact",
            MovementType::MovePaces => "move_paces",
            MovementType::Freezes => "freezes",
            MovementType::Collapses => "collapses",
        }
    }

    fn from_name(s: &str) -> (r: Option<Self>) {
        let r = if str_eq(s, "enters") {
            Some(MovementType::Enters)
        } else if str_eq(s, "exits") {
            Some(MovementType::Exits)
        } else if str_eq(s, "approaches") {
            Some(MovementType::Approaches)
        } else if str_eq(s, "retreats") {
            Some(MovementType::Retreats)
        } else if str_eq(s, "circles") {
            Some(MovementType::Circles)
        } else if str_eq(s, "rises") {
            Some(MovementType::Rises)
        } else if str_eq(s, "sits") {
            Some(MovementType::Sits)
        } else if str_eq(s, "turns_toward") {
            Some(MovementType::TurnsToward)
        } else if str_eq(s, "turns_away") {
            Some(MovementType::TurnsAway)
        } else if str_eq(s, "crosses_to") {
            Some(MovementType::CrossesTo)
        } else if str_eq(s, "remains_still") {
            Some(MovementType::RemainsStill)
        } else if str_eq(s, "gestures") {
            Some(MovementType::Gestures)
        } else if str_eq(s, "touches_object") {
            Some(MovementType::TouchesObject)
        } else if str_eq(s, "handles_prop") {
            Some(MovementType::HandlesProp)
        } else if str_eq(s, "discards_prop") {
            Some(MovementType::DiscardsProp)
        } else if str_eq(s, "touches_character") {
            Some(MovementType::TouchesCharacter)
        } else if str_eq(s, "withdraws_contact") {
            Some(MovementType::WithdrawsContact)
        } else if str_eq(s, "move_paces") {
            Some(MovementType::MovePaces)
        } else if str_eq(s, "freezes") {
            Some(MovementType::Freezes)
        } else if str_eq(s, "collapses") {
            Some(MovementType::Collapses)
        } else {
            None
        };
        r
    }

    proof fn lemma_name_injective(a: Self, b: Self) {
        reveal_strlit("enters");
        reveal_strlit("exits");
        reveal_strlit("approaches");
        reveal_strlit("retreats");
        reveal_strlit("circles");
        reveal_strlit("rises");
        reveal_strlit("sits");
        reveal_strlit("turns_toward");
        reveal_strlit("turns_away");
        reveal_strlit("crosses_to");
        reveal_strlit("remains_still");
        reveal_strlit("gestures");
        reveal_strlit("touches_object");
        reveal_strlit("handles_prop");
        reveal_strlit("discards_prop");
        reveal_strlit("touches_character");
        reveal_strlit("withdraws_contact");
        reveal_strlit("move_paces");
        reveal_strlit("freezes");
        reveal_strlit("collapses");
        assert("enters"@.len() == 6);
        assert("exits"@.len() == 5 && "exits"@[0] == 'e');
        assert("approaches"@.len() == 10 && "approaches"@[0] == 'a');
        assert("retreats"@.len() == 8 && "retreats"@[0] == 'r');
        assert("circles"@.len() == 7 && "circles"@[0] == 'c');
        assert("rises"@.len() == 5 && "rises"@[0] == 'r');
        assert("sits"@.len() == 4);
        assert("turns_toward"@.len() == 12 && "turns_toward"@[0] == 't');
        assert("turns_away"@.len() == 10 && "turns_away"@[0] == 't');
        assert("crosses_to"@.len() == 10 && "crosses_to"@[0] == 'c');
        assert("remains_still"@.len() == 13 && "remains_still"@[0] == 'r');
        assert("gestures"@.len() == 8 && "gestures"@[0] == 'g');
        assert("touches_object"@.len() == 14);
        assert("handles_prop"@.len() == 12 && "handles_prop"@[0] == 'h');
        assert("discards_prop"@.len() == 13 && "discards_prop"@[0] == 'd');
        assert("touches_character"@.len() == 17 && "touches_character"@[0] == 't');
        assert("withdraws_contact"@.len() == 17 && "withdraws_contact"@[0] == 'w');
        assert("move_paces"@.len() == 10 && "move_paces"@[0] == 'm');
        assert("freezes"@.len() == 7 && "freezes"@[0] == 'f');
        assert("collapses"@.len() == 9);
    }
}

/// Category of sensory detail.
/// Aligned with `enums.schema.json#/$defs/sensory_type`.
#[derive(Debug, Clone, Copy, PartialEq, Eq, Hash, Structural)]
pub enum SensoryType {
    VisualLight,
    VisualColor,
    VisualMovement,
    VisualTexture,
    AuditoryVoice,
    AuditoryMusic,
    AuditoryNature,
    AuditoryMechanical,
    AuditorySilence,
    TactileTemperature,
    TactileTexture,
    TactilePressure,
    TactileMoisture,
    OlfactoryPleasant,
    OlfactoryUnpleasant,
    OlfactoryFood,
    OlfactoryNature,
    OlfactoryHuman,
    GustatorySweet,
    GustatoryBitter,
    GustatorySavory,
    GustatorySour,
}

impl SnakeName for SensoryType {
    open spec fn spec_name(self) -> Seq<char> {
        match self {
            SensoryType::VisualLight => "visual_light"@,
            SensoryType::VisualColor => "visual_color"@,
            SensoryType::VisualMovement => "visual_movement"@,
            SensoryType::VisualTexture => "visual_texture"@,
            SensoryType::AuditoryVoice => "auditory_voice"@,
            SensoryType::AuditoryMusic => "auditory_music"@,
            SensoryType::AuditoryNature => "auditory_nature"@,
            SensoryType::AuditoryMechanical => "auditory_mechanical"@,
            SensoryType::AuditorySilence => "auditory_silence"@,
            SensoryType::TactileTemperature => "tactile_temperature"@,
            SensoryType::TactileTexture => "tactile_texture"@,
            SensoryType::TactilePressure => "tactile_pressure"@,
            SensoryType::TactileMoisture => "tactile_moisture"@,
            SensoryType::OlfactoryPleasant => "olfactory_pleasant"@,
            SensoryType::OlfactoryUnpleasant => "olfactory_unpleasant"@,
            SensoryType::OlfactoryFood => "olfactory_food"@,
            SensoryType::OlfactoryNature => "olfactory_nature"@,
            SensoryType::OlfactoryHuman => "olfactory_human"@,
            SensoryType::GustatorySweet => "gustatory_sweet"@,
            SensoryType::GustatoryBitter => "gustatory_bitter"@,
            SensoryType::GustatorySavory => "gustatory_savory"@,
            SensoryType::GustatorySour => "gustatory_sour"@,
        }
    }

    fn name(&self) -> (r: &'static str) {
        match self {
            SensoryType::VisualLight => "visual_light",
            SensoryType::VisualColor => "visual_color",
            SensoryType::VisualMovement => "visual_movement",
            SensoryType::VisualTexture => "visual_texture",
            SensoryType::AuditoryVoice => "auditory_voice",
            SensoryType::AuditoryMusic => "auditory_music",
            SensoryType::AuditoryNature => "auditory_nature",
            SensoryType::AuditoryMechanical => "auditory_mechanical",
            SensoryType::AuditorySilence => "auditory_silence",
            SensoryType::TactileTemperature => "tactile_temperature",
            SensoryType::TactileTexture => "tactile_texture",
            SensoryType::TactilePressure => "tactile_pressure",
            SensoryType::TactileMoisture => "tactile_moisture",
            SensoryType::OlfactoryPleasant => "olfactory_pleasant",
            SensoryType::OlfactoryUnpleasant => "olfactory_unpleasant",
            SensoryType::OlfactoryFood => "olfactory_food",
            SensoryType::OlfactoryNature => "olfactory_nature",
            SensoryType::OlfactoryHuman => "olfactory_human",
            SensoryType::GustatorySweet => "gustatory_sweet",
            SensoryType::GustatoryBitter => "gustatory_bitter",
            SensoryType::GustatorySavory => "gustatory_savory",
            SensoryType::GustatorySour => "gustatory_sour",
        }
    }

    fn from_name(s: &str) -> (r: Option<Self>) {
        let r = if str_eq(s, "visual_light") {
            Some(SensoryType::VisualLight)
        } else if str_eq(s, "visual_color") {
            Some(SensoryType::VisualColor)
        } else if str_eq(s, "visual_movement") {
            Some(SensoryType::VisualMovement)
        } else if str_eq(s, "visual_texture") {
            Some(SensoryType::VisualTexture)
        } else if str_eq(s, "auditory_voice") {
            Some(SensoryType::AuditoryVoice)
        } else if str_eq(s, "auditory_music") {
            Some(SensoryType::AuditoryMusic)
        } else if str_eq(s, "auditory_nature") {
            Some(SensoryType::AuditoryNature)
        } else if str_eq(s, "auditory_mechanical") {
            Some(SensoryType::AuditoryMechanical)
        } else if str_eq(s, "auditory_silence") {
            Some(SensoryType::AuditorySilence)
        } else if str_eq(s, "tactile_temperature") {
            Some(SensoryType::TactileTemperature)
        } else if str_eq(s, "tactile_texture") {
            Some(SensoryType::TactileTexture)
        } else if str_eq(s, "tactile_pressure") {
            Some(SensoryType::TactilePressure)
        } else if str_eq(s, "tactile_moisture") {
            Some(SensoryType::TactileMoisture)
        } else if str_eq(s, "olfactory_pleasant") {
            Some(SensoryType::OlfactoryPleasant)
        } else if str_eq(s, "olfactory_unpleasant") {
            Some(SensoryType::OlfactoryUnpleasant)
        } else if str_eq(s, "olfactory_food") {
            Some(SensoryType::OlfactoryFood)
        } else if str_eq(s, "olfactory_nature") {
            Some(SensoryType::OlfactoryNature)
        } else if str_eq(s, "olfactory_human") {
            Some(SensoryType::OlfactoryHuman)
        } else if str_eq(s, "gustatory_sweet") {
            Some(SensoryType::GustatorySweet)
        } else if str_eq(s, "gustatory_bitter") {
            Some(SensoryType::GustatoryBitter)
        } else if str_eq(s, "gustatory_savory") {
            Some(SensoryType::GustatorySavory)
        } else if str_eq(s, "gustatory_sour") {
            Some(SensoryType::GustatorySour)
        } else {
            None
        };
        r
    }

    proof fn lemma_name_injective(a: Self, b: Self) {
        reveal_strlit("visual_light");
        reveal_strlit("visual_color");
        reveal_strlit("visual_movement");
        reveal_strlit("visual_texture");
        reveal_strlit("auditory_voice");
        reveal_strlit("auditory_music");
        reveal_strlit("auditory_nature");
        reveal_strlit("auditory_mechanical");
        reveal_strlit("auditory_silence");
        reveal_strlit("tactile_temperature");
        reveal_strlit("tactile_texture");
        reveal_strlit("tactile_pressure");
        reveal_strlit("tactile_moisture");
        reveal_strlit("olfactory_pleasant");
        reveal_strlit("olfactory_unpleasant");
        reveal_strlit("olfactory_food");
        reveal_strlit("olfactory_nature");
        reveal_strlit("olfactory_human");
        reveal_strlit("gustatory_sweet");
        reveal_strlit("gustatory_bitter");
        reveal_strlit("gustatory_savory");
        reveal_strlit("gustatory_sour");
        assert("visual_light"@.len() == 12 && "visual_light"@[7] == 'l');
        assert("visual_color"@.len() == 12 && "visual_color"@[7] == 'c');
        assert("visual_movement"@.len() == 15 && "visual_movement"@[0] == 'v');
        assert("visual_texture"@.len() == 14 && "visual_texture"@[0] == 'v');
        assert("auditory_voice"@.len() == 14 && "auditory_voice"@[0] == 'a' && "auditory_voice"@[9] == 'v');
        assert("auditory_music"@.len() == 14 && "auditory_music"@[0] == 'a' && "auditory_music"@[9] == 'm');
        assert("auditory_nature"@.len() == 15 && "auditory_nature"@[0] == 'a');
        assert("auditory_mechanical"@.len() == 19 && "auditory_mechanical"@[0] == 'a');
        assert("auditory_silence"@.len() == 16 && "auditory_silence"@[0] == 'a');
        assert("tactile_temperature"@.len() == 19 && "tactile_temperature"@[0] == 't');
        assert("tactile_texture"@.len() == 15 && "tactile_texture"@[0] == 't');
        assert("tactile_pressure"@.len() == 16 && "tactile_pressure"@[0] == 't' && "tactile_pressure"@[8] == 'p');
        assert("tactile_moisture"@.len() == 16 && "tactile_moisture"@[0] == 't' && "tactile_moisture"@[8] == 'm');
        assert("olfactory_pleasant"@.len() == 18);
        assert("olfactory_unpleasant"@.len() == 20);
        assert("olfactory_food"@.len() == 14 && "olfactory_food"@[0] == 'o');
        assert("olfactory_nature"@.len() == 16 && "olfactory_nature"@[0] == 'o');
        assert("olfactory_human"@.len() == 15 && "olfactory_human"@[0] == 'o');
        assert("gustatory_sweet"@.len() == 15 && "gustatory_sweet"@[0] == 'g');
        assert("gustatory_bitter"@.len() == 16 && "gustatory_bitter"@[0] == 'g' && "gustatory_bitter"@[10] == 'b');
        assert("gustatory_savory"@.len() == 16 && "gustatory_savory"@[0] == 'g' && "gustatory_savory"@[10] == 's');
        assert("gustatory_sour"@.len() == 14 && "gustatory_sour"@[0] == 'g');
    }
}

/// Thread type for narrative tracking.
#[derive(Debug, Clone, Copy, PartialEq, Eq, Hash, Structural)]
pub enum ThreadType {
    Plot,
    Relationship,
    Thematic,
    Mystery,
    CharacterArc,
}

impl SnakeName for ThreadType {
    open spec fn spec_name(self) -> Seq<char> {
        match self {
            ThreadType::Plot => "plot"@,
            ThreadType::Relationship => "relationship"@,
            ThreadType::Thematic => "thematic"@,
            ThreadType::Mystery => "mystery"@,
            ThreadType::CharacterArc => "character_arc"@,
        }
    }

    fn name(&self) -> (r: &'static str) {
        match self {
            ThreadType::Plot => "plot",
            ThreadType::Relationship => "relationship",
            ThreadType::Thematic => "thematic",
            ThreadType::Mystery => "mystery",
            ThreadType::CharacterArc => "character_arc",
        }
    }

    fn from_name(s: &str) -> (r: Option<Self>) {
        let r = if str_eq(s, "plot") {
            Some(ThreadType::Plot)
        } else if str_eq(s, "relationship") {
            Some(ThreadType::Relationship)
        } else if str_eq(s, "thematic") {
            Some(ThreadType::Thematic)
        } else if str_eq(s, "mystery") {
            Some(ThreadType::Mystery)
        } else if str_eq(s, "character_arc") {
            Some(ThreadType::CharacterArc)
        } else {
            None
        };
        r
    }

    proof fn lemma_name_injective(a: Self, b: Self) {
        reveal_strlit("plot");
        reveal_strlit("relationship");
        reveal_strlit("thematic");
        reveal_strlit("mystery");
        reveal_strlit("character_arc");
        assert("plot"@.len() == 4);
        assert("relationship"@.len() == 12);
        assert("thematic"@.len() == 8);
        assert("mystery"@.len() == 7);
        assert("character_arc"@.len() == 13);
    }
}

/// Thread status in the narrative.
#[derive(Debug, Clone, Copy, PartialEq, Eq, Hash, Structural)]
pub enum ThreadStatus {
    Introduced,
    Developing,
    Escalating,
    Pivoting,
    Resolving,
    Dormant,
}

impl SnakeName for ThreadStatus {
    open spec fn spec_name(self) -> Seq<char> {
        match self {
            ThreadStatus::Introduced => "introduced"@,
            ThreadStatus::Developing => "developing"@,
            ThreadStatus::Escalating => "escalating"@,
            ThreadStatus::Pivoting => "pivoting"@,
            ThreadStatus::Resolving => "resolving"@,
            ThreadStatus::Dormant => "dormant"@,
        }
    }

    fn name(&self) -> (r: &'static str) {
        match self {
            ThreadStatus::Introduced => "introduced",
            ThreadStatus::Developing => "developing",
            ThreadStatus::Escalating => "escalating",
            ThreadStatus::Pivoting => "pivoting",
            ThreadStatus::Resolving => "resolving",
            ThreadStatus::Dormant => "dormant",
        }
    }

    fn from_name(s: &str) -> (r: Option<Self>) {
        let r = if str_eq(s, "introduced") {
            Some(ThreadStatus::Introduced)
        } else if str_eq(s, "developing") {
            Some(ThreadStatus::Developing)
        } else if str_eq(s, "escalating") {
            Some(ThreadStatus::Escalating)
        } else if str_eq(s, "pivoting") {
            Some(ThreadStatus::Pivoting)
        } else if str_eq(s, "resolving") {
            Some(ThreadStatus::Resolving)
        } else if str_eq(s, "dormant") {
            Some(ThreadStatus::Dormant)
        } else {
            None
        };
        r
    }

    proof fn lemma_name_injective(a: Self, b: Self) {
        reveal_strlit("introduced");
        reveal_strlit("developing");
        reveal_strlit("escalating");
        reveal_strlit("pivoting");
        reveal_strlit("resolving");
        reveal_strlit("dormant");
        assert("introduced"@.len() == 10 && "introduced"@[0] == 'i');
        assert("developing"@.len() == 10 && "developing"@[0] == 'd');
        assert("escalating"@.len() == 10 && "escalating"@[0] == 'e');
        assert("pivoting"@.len() == 8);
        assert("resolving"@.len() == 9);
        assert("dormant"@.len() == 7);
    }
}

/// Motif deployment stage.
#[derive(Debug, Clone, Copy, PartialEq, Eq, Hash, Structural)]
pub enum MotifDeployment {
    MotifIntroduced,
    Reinforced,
    Varied,
    Inverted,
    Culminating,
}

impl SnakeName for MotifDeployment {
    open spec fn spec_name(self) -> Seq<char> {
        match self {
            MotifDeployment::MotifIntroduced => "motif_introduced"@,
            MotifDeployment::Reinforced => "reinforced"@,
            MotifDeployment::Varied => "varied"@,
            MotifDeployment::Inverted => "inverted"@,
            MotifDeployment::Culminating => "culminating"@,
        }
    }

    fn name(&self) -> (r: &'static str) {
        match self {
            MotifDeployment::MotifIntroduced => "motif_introduced",
            MotifDeployment::Reinforced => "reinforced",
            MotifDeployment::Varied => "varied",
            MotifDeployment::Inverted => "inverted",
            MotifDeployment::Culminating => "culminating",
        }
    }

    fn from_name(s: &str) -> (r: Option<Self>) {
        let r = if str_eq(s, "motif_introduced") {
            Some(MotifDeployment::MotifIntroduced)
        } else if str_eq(s, "reinforced") {
            Some(MotifDeployment::Reinforced)
        } else if str_eq(s, "varied") {
            Some(MotifDeployment::Varied)
        } else if str_eq(s, "inverted") {
            Some(MotifDeployment::Inverted)
        } else if str_eq(s, "culminating") {
            Some(MotifDeployment::Culminating)
        } else {
            None
        };
        r
    }

    proof fn lemma_name_injective(a: Self, b: Self) {
        reveal_strlit("motif_introduced");
        reveal_strlit("reinforced");
        reveal_strlit("varied");
        reveal_strlit("inverted");
        reveal_strlit("culminating");
        assert("motif_introduced"@.len() == 16);
        assert("reinforced"@.len() == 10);
        assert("varied"@.len() == 6);
        assert("inverted"@.len() == 8);
        assert("culminating"@.len() == 11);
    }
}

/// Narrative time order (Genette).
#[derive(Debug, Clone, Copy, PartialEq, Eq, Hash, Structural)]
pub enum NarrativeTimeOrder {
    NtChronological,
    NtAnalepsis,
    NtProlepsis,
    Braided,
}

impl SnakeName for NarrativeTimeOrder {
    open spec fn spec_name(self) -> Seq<char> {
        match self {
            NarrativeTimeOrder::NtChronological => "nt_chronological"@,
            NarrativeTimeOrder::NtAnalepsis => "nt_analepsis"@,
            NarrativeTimeOrder::NtProlepsis => "nt_prolepsis"@,
            NarrativeTimeOrder::Braided => "braided"@,
        }
    }

    fn name(&self) -> (r: &'static str) {
        match self {
            NarrativeTimeOrder::NtChronological => "nt_chronological",
            NarrativeTimeOrder::NtAnalepsis => "nt_analepsis",
            NarrativeTimeOrder::NtProlepsis => "nt_prolepsis",
            NarrativeTimeOrder::Braided => "braided",
        }
    }

    fn from_name(s: &str) -> (r: Option<Self>) {
        let r = if str_eq(s, "nt_chronological") {
            Some(NarrativeTimeOrder::NtChronological)
        } else if str_eq(s, "nt_analepsis") {
            Some(NarrativeTimeOrder::NtAnalepsis)
        } else if str_eq(s, "nt_prolepsis") {
            Some(NarrativeTimeOrder::NtProlepsis)
        } else if str_eq(s, "braided") {
            Some(NarrativeTimeOrder::Braided)
        } else {
            None
        };
        r
    }

    proof fn lemma_name_injective(a: Self, b: Self) {
        reveal_strlit("nt_chronological");
        reveal_strlit("nt_analepsis");
        reveal_strlit("nt_prolepsis");
        reveal_strlit("braided");
        assert("nt_chronological"@.len() == 16);
        assert("nt_analepsis"@.len() == 12 && "nt_analepsis"@[3] == 'a');
        assert("nt_prolepsis"@.len() == 12 && "nt_prolepsis"@[3] == 'p');
        assert("braided"@.len() == 7);
    }
}

/// Scene chapter position.
#[derive(Debug, Clone, Copy, PartialEq, Eq, Hash, Structural)]
pub enum ChapterPosition {
    Opening,
    Early,
    Middle,
    Late,
    Closing,
    EntireChapter,
}

impl SnakeName for ChapterPosition {
    open spec fn spec_name(self) -> Seq<char> {
        match self {
            ChapterPosition::Opening => "opening"@,
            ChapterPosition::Early => "early"@,
            ChapterPosition::Middle => "middle"@,
            ChapterPosition::Late => "late"@,
            ChapterPosition::Closing => "closing"@,
            ChapterPosition::EntireChapter => "entire_chapter"@,
        }
    }

    fn name(&self) -> (r: &'static str) {
        match self {
            ChapterPosition::Opening => "opening",
            ChapterPosition::Early => "early",
            ChapterPosition::Middle => "middle",
            ChapterPosition::Late => "late",
            ChapterPosition::Closing => "closing",
            ChapterPosition::EntireChapter => "entire_chapter",
        }
    }

    fn from_name(s: &str) -> (r: Option<Self>) {
        let r = if str_eq(s, "opening") {
            Some(ChapterPosition::Opening)
        } else if str_eq(s, "early") {
            Some(ChapterPosition::Early)
        } else if str_eq(s, "middle") {
            Some(ChapterPosition::Middle)
        } else if str_eq(s, "late") {
            Some(ChapterPosition::Late)
        } else if str_eq(s, "closing") {
            Some(ChapterPosition::Closing)
        } else if str_eq(s, "entire_chapter") {
            Some(ChapterPosition::EntireChapter)
        } else {
            None
        };
        r
    }

    proof fn lemma_name_injective(a: Self, b: Self) {
        reveal_strlit("opening");
        reveal_strlit("early");
        reveal_strlit("middle");
        reveal_strlit("late");
        reveal_strlit("closing");
        reveal_strlit("entire_chapter");
        assert("opening"@.len() == 7 && "opening"@[0] == 'o');
        assert("early"@.len() == 5);
        assert("middle"@.len() == 6);
        assert("late"@.len() == 4);
        assert("closing"@.len() == 7 && "closing"@[0] == 'c');
        assert("entire_chapter"@.len() == 14);
    }
}

/// Character arc beat position.
#[derive(Debug, Clone, Copy, PartialEq, Eq, Hash, Structural)]
pub enum PersonalArcBeat {
    Ordinary,
    Disruption,
    Refusal,
    Threshold,
    Tests,
    Approach,
    Ordeal,
    Reward,
    RoadBack,
    DarkNight,
    Resurrection,
    Elixir,
}

impl SnakeName for PersonalArcBeat {
    open spec fn spec_name(self) -> Seq<char> {
        match self {
            PersonalArcBeat::Ordinary => "ordinary"@,
            PersonalArcBeat::Disruption => "disruption"@,
            PersonalArcBeat::Refusal => "refusal"@,
            PersonalArcBeat::Threshold => "threshold"@,
            PersonalArcBeat::Tests => "tests"@,
            PersonalArcBeat::Approach => "approach"@,
            PersonalArcBeat::Ordeal => "ordeal"@,
            PersonalArcBeat::Reward => "reward"@,
            PersonalArcBeat::RoadBack => "road_back"@,
            PersonalArcBeat::DarkNight => "dark_night"@,
            PersonalArcBeat::Resurrection => "resurrection"@,
            PersonalArcBeat::Elixir => "elixir"@,
        }
    }

    fn name(&self) -> (r: &'static str) {
        match self {
            PersonalArcBeat::Ordinary => "ordinary",
            PersonalArcBeat::Disruption => "disruption",
            PersonalArcBeat::Refusal => "refusal",
            PersonalArcBeat::Threshold => "threshold",
            PersonalArcBeat::Tests => "tests",
            PersonalArcBeat::Approach => "approach",
            PersonalArcBeat::Ordeal => "ordeal",
            PersonalArcBeat::Reward => "reward",
            PersonalArcBeat::RoadBack => "road_back",
            PersonalArcBeat::DarkNight => "dark_night",
            PersonalArcBeat::Resurrection => "resurrection",
            PersonalArcBeat::Elixir => "elixir",
        }
    }

    fn from_name(s: &str) -> (r: Option<Self>) {
        let r = if str_eq(s, "ordinary") {
            Some(PersonalArcBeat::Ordinary)
        } else if str_eq(s, "disruption") {
            Some(PersonalArcBeat::Disruption)
        } else if str_eq(s, "refusal") {
            Some(PersonalArcBeat::Refusal)
        } else if str_eq(s, "threshold") {
            Some(PersonalArcBeat::Threshold)
        } else if str_eq(s, "tests") {
            Some(PersonalArcBeat::Tests)
        } else if str_eq(s, "approach") {
            Some(PersonalArcBeat::Approach)
        } else if str_eq(s, "ordeal") {
            Some(PersonalArcBeat::Ordeal)
        } else if str_eq(s, "reward") {
            Some(PersonalArcBeat::Reward)
        } else if str_eq(s, "road_back") {
            Some(PersonalArcBeat::RoadBack)
        } else if str_eq(s, "dark_night") {
            Some(PersonalArcBeat::DarkNight)
        } else if str_eq(s, "resurrection") {
            Some(PersonalArcBeat::Resurrection)
        } else if str_eq(s, "elixir") {
            Some(PersonalArcBeat::Elixir)
        } else {
            None
        };
        r
    }

    proof fn lemma_name_injective(a: Self, b: Self) {
        reveal_strlit("ordinary");
        reveal_strlit("disruption");
        reveal_strlit("refusal");
        reveal_strlit("threshold");
        reveal_strlit("tests");
        reveal_strlit("approach");
        reveal_strlit("ordeal");
        reveal_strlit("reward");
        reveal_strlit("road_back");
        reveal_strlit("dark_night");
        reveal_strlit("resurrection");
        reveal_strlit("elixir");
        assert("ordinary"@.len() == 8 && "ordinary"@[0] == 'o');
        assert("disruption"@.len() == 10 && "disruption"@[1] == 'i');
        assert("refusal"@.len() == 7);
        assert("threshold"@.len() == 9 && "threshold"@[0] == 't');
        assert("tests"@.len() == 5);
        assert("approach"@.len() == 8 && "approach"@[0] == 'a');
        assert("ordeal"@.len() == 6 && "ordeal"@[0] == 'o');
        assert("reward"@.len() == 6 && "reward"@[0] == 'r');
        assert("road_back"@.len() == 9 && "road_back"@[0] == 'r');
        assert("dark_night"@.len() == 10 && "dark_night"@[1] == 'a');
        assert("resurrection"@.len() == 12);
        assert("elixir"@.len() == 6 && "elixir"@[0] == 'e');
    }
}

/// Knowledge domain for character state.
#[derive(Debug, Clone, Copy, PartialEq, Eq, Hash, Structural)]
pub enum KnowledgeDomain {
    CharacterTrait,
    KdRelationship,
    PastEvent,
    KdSecret,
    SocialStatus,
    Plan,
    Belief,
    Capability,
}

impl SnakeName for KnowledgeDomain {
    open spec fn spec_name(self) -> Seq<char> {
        match self {
            KnowledgeDomain::CharacterTrait => "character_trait"@,
            KnowledgeDomain::KdRelationship => "kd_relationship"@,
            KnowledgeDomain::PastEvent => "past_event"@,
            KnowledgeDomain::KdSecret => "kd_secret"@,
            KnowledgeDomain::SocialStatus => "social_status"@,
            KnowledgeDomain::Plan => "plan"@,
            KnowledgeDomain::Belief => "belief"@,
            KnowledgeDomain::Capability => "capability"@,
        }
    }

    fn name(&self) -> (r: &'static str) {
        match self {
            KnowledgeDomain::CharacterTrait => "character_trait",
            KnowledgeDomain::KdRelationship => "kd_relationship",
            KnowledgeDomain::PastEvent => "past_event",
            KnowledgeDomain::KdSecret => "kd_secret",
            KnowledgeDomain::SocialStatus => "social_status",
            KnowledgeDomain::Plan => "plan",
            KnowledgeDomain::Belief => "belief",
            KnowledgeDomain::Capability => "capability",
        }
    }

    fn from_name(s: &str) -> (r: Option<Self>) {
        let r = if str_eq(s, "character_trait") {
            Some(KnowledgeDomain::CharacterTrait)
        } else if str_eq(s, "kd_relationship") {
            Some(KnowledgeDomain::KdRelationship)
        } else if str_eq(s, "past_event") {
            Some(KnowledgeDomain::PastEvent)
        } else if str_eq(s, "kd_secret") {
            Some(KnowledgeDomain::KdSecret)
        } else if str_eq(s, "social_status") {
            Some(KnowledgeDomain::SocialStatus)
        } else if str_eq(s, "plan") {
            Some(KnowledgeDomain::Plan)
        } else if str_eq(s, "belief") {
            Some(KnowledgeDomain::Belief)
        } else if str_eq(s, "capability") {
            Some(KnowledgeDomain::Capability)
        } else {
            None
        };
        r
    }

    proof fn lemma_name_injective(a: Self, b: Self) {
        reveal_strlit("character_trait");
        reveal_strlit("kd_relationship");
        reveal_strlit("past_event");
        reveal_strlit("kd_secret");
        reveal_strlit("social_status");
        reveal_strlit("plan");
        reveal_strlit("belief");
        reveal_strlit("capability");
        assert("character_trait"@.len() == 15 && "character_trait"@[0] == 'c');
        assert("kd_relationship"@.len() == 15 && "kd_relationship"@[0] == 'k');
        assert("past_event"@.len() == 10 && "past_event"@[0] == 'p');
        assert("kd_secret"@.len() == 9);
        assert("social_status"@.len() == 13);
        assert("plan"@.len() == 4);
        assert("belief"@.len() == 6);
        assert("capability"@.len() == 10 && "capability"@[0] == 'c');
    }
}

/// Certainty level for knowledge items.
#[derive(Debug, Clone, Copy, PartialEq, Eq, Hash, Structural)]
pub enum KnowledgeCertainty {
    Witnessed,
    ToldDirectly,
    Inferred,
    Rumored,
    Assumed,
    Suspected,
}

impl SnakeName for KnowledgeCertainty {
    open spec fn spec_name(self) -> Seq<char> {
        match self {
            KnowledgeCertainty::Witnessed => "witnessed"@,
            KnowledgeCertainty::ToldDirectly => "told_directly"@,
            KnowledgeCertainty::Inferred => "inferred"@,
            KnowledgeCertainty::Rumored => "rumored"@,
            KnowledgeCertainty::Assumed => "assumed"@,
            KnowledgeCertainty::Suspected => "suspected"@,
        }
    }

    fn name(&self) -> (r: &'static str) {
        match self {
            KnowledgeCertainty::Witnessed => "witnessed",
            KnowledgeCertainty::ToldDirectly => "told_directly",
            KnowledgeCertainty::Inferred => "inferred",
            KnowledgeCertainty::Rumored => "rumored",
            KnowledgeCertainty::Assumed => "assumed",
            KnowledgeCertainty::Suspected => "suspected",
        }
    }

    fn from_name(s: &str) -> (r: Option<Self>) {
        let r = if str_eq(s, "witnessed") {
            Some(KnowledgeCertainty::Witnessed)
        } else if str_eq(s, "told_directly") {
            Some(KnowledgeCertainty::ToldDirectly)
        } else if str_eq(s, "inferred") {
            Some(KnowledgeCertainty::Inferred)
        } else if str_eq(s, "rumored") {
            Some(KnowledgeCertainty::Rumored)
        } else if str_eq(s, "assumed") {
            Some(KnowledgeCertainty::Assumed)
        } else if str_eq(s, "suspected") {
            Some(KnowledgeCertainty::Suspected)
        } else {
            None
        };
        r
    }

    proof fn lemma_name_injective(a: Self, b: Self) {
        reveal_strlit("witnessed");
        reveal_strlit("told_directly");
        reveal_strlit("inferred");
        reveal_strlit("rumored");
        reveal_strlit("assumed");
        reveal_strlit("suspected");
        assert("witnessed"@.len() == 9 && "witnessed"@[0] == 'w');
        assert("told_directly"@.len() == 13);
        assert("inferred"@.len() == 8);
        assert("rumored"@.len() == 7 && "rumored"@[0] == 'r');
        assert("assumed"@.len() == 7 && "assumed"@[0] == 'a');
        assert("suspected"@.len() == 9 && "suspected"@[0] == 's');
    }
}

/// Character role in scene (for role-based references).
#[derive(Debug, Clone, Copy, PartialEq, Eq, Hash, Structural)]
pub enum SceneRole {
    SceneProtagonist,
    SceneDeuteragonist,
    SceneAntagonist,
    SceneLoveInterest,
    SceneAlly,
    SceneRival,
    SceneMentor,
    SceneAuthority,
    SceneDependent,
    FamilyMember,
    Confidant,
    Foil,
    Catalyst,
    Stranger,
    Narrator,
    AbsentParty,
    OtherPresent,
    RoleSelf,
    ThisChar,
    RoleNone,
}

impl SnakeName for SceneRole {
    open spec fn spec_name(self) -> Seq<char> {
        match self {
            SceneRole::SceneProtagonist => "scene_protagonist"@,
            SceneRole::SceneDeuteragonist => "scene_deuteragonist"@,
            SceneRole::SceneAntagonist => "scene_antagonist"@,
            SceneRole::SceneLoveInterest => "scene_love_interest"@,
            SceneRole::SceneAlly => "scene_ally"@,
            SceneRole::SceneRival => "scene_rival"@,
            SceneRole::SceneMentor => "scene_mentor"@,
            SceneRole::SceneAuthority => "scene_authority"@,
            SceneRole::SceneDependent => "scene_dependent"@,
            SceneRole::FamilyMember => "family_member"@,
            SceneRole::Confidant => "confidant"@,
            SceneRole::Foil => "foil"@,
            SceneRole::Catalyst => "catalyst"@,
            SceneRole::Stranger => "stranger"@,
            SceneRole::Narrator => "narrator"@,
            SceneRole::AbsentParty => "absent_party"@,
            SceneRole::OtherPresent => "other_present"@,
            SceneRole::RoleSelf => "self"@,
            SceneRole::ThisChar => "this_char"@,
            SceneRole::RoleNone => "role_none"@,
        }
    }

    fn name(&self) -> (r: &'static str) {
        match self {
            SceneRole::SceneProtagonist => "scene_protagonist",
            SceneRole::SceneDeuteragonist => "scene_deuteragonist",
            SceneRole::SceneAntagonist => "scene_antagonist",
            SceneRole::SceneLoveInterest => "scene_love_interest",
            SceneRole::SceneAlly => "scene_ally",
            SceneRole::SceneRival => "scene_rival",
            SceneRole::SceneMentor => "scene_mentor",
            SceneRole::SceneAuthority => "scene_authority",
            SceneRole::SceneDependent => "scene_dependent",
            SceneRole::FamilyMember => "family_member",
            SceneRole::Confidant => "confidant",
            SceneRole::Foil => "foil",
            SceneRole::Catalyst => "catalyst",
            SceneRole::Stranger => "stranger",
            SceneRole::Narrator => "narrator",
            SceneRole::AbsentParty => "absent_party",
            SceneRole::OtherPresent => "other_present",
            SceneRole::RoleSelf => "self",
            SceneRole::ThisChar => "this_char",
            SceneRole::RoleNone => "role_none",
        }
    }

    fn from_name(s: &str) -> (r: Option<Self>) {
        let r = if str_eq(s, "scene_protagonist") {
            Some(SceneRole::SceneProtagonist)
        } else if str_eq(s, "scene_deuteragonist") {
            Some(SceneRole::SceneDeuteragonist)
        } else if str_eq(s, "scene_antagonist") {
            Some(SceneRole::SceneAntagonist)
        } else if str_eq(s, "scene_love_interest") {
            Some(SceneRole::SceneLoveInterest)
        } else if str_eq(s, "scene_ally") {
            Some(SceneRole::SceneAlly)
        } else if str_eq(s, "scene_rival") {
            Some(SceneRole::SceneRival)
        } else if str_eq(s, "scene_mentor") {
            Some(SceneRole::SceneMentor)
        } else if str_eq(s, "scene_authority") {
            Some(SceneRole::SceneAuthority)
        } else if str_eq(s, "scene_dependent") {
            Some(SceneRole::SceneDependent)
        } else if str_eq(s, "family_member") {
            Some(SceneRole::FamilyMember)
        } else if str_eq(s, "confidant") {
            Some(SceneRole::Confidant)
        } else if str_eq(s, "foil") {
            Some(SceneRole::Foil)
        } else if str_eq(s, "catalyst") {
            Some(SceneRole::Catalyst)
        } else if str_eq(s, "stranger") {
            Some(SceneRole::Stranger)
        } else if str_eq(s, "narrator") {
            Some(SceneRole::Narrator)
        } else if str_eq(s, "absent_party") {
            Some(SceneRole::AbsentParty)
        } else if str_eq(s, "other_present") {
            Some(SceneRole::OtherPresent)
        } else if str_eq(s, "self") {
            Some(SceneRole::RoleSelf)
        } else if str_eq(s, "this_char") {
            Some(SceneRole::ThisChar)
        } else if str_eq(s, "role_none") {
            Some(SceneRole::RoleNone)
        } else {
            None
        };
        r
    }

    proof fn lemma_name_injective(a: Self, b: Self) {
        reveal_strlit("scene_protagonist");
        reveal_strlit("scene_deuteragonist");
        reveal_strlit("scene_antagonist");
        reveal_strlit("scene_love_interest");
        reveal_strlit("scene_ally");
        reveal_strlit("scene_rival");
        reveal_strlit("scene_mentor");
        reveal_strlit("scene_authority");
        reveal_strlit("scene_dependent");
        reveal_strlit("family_member");
        reveal_strlit("confidant");
        reveal_strlit("foil");
        reveal_strlit("catalyst");
        reveal_strlit("stranger");
        reveal_strlit("narrator");
        reveal_strlit("absent_party");
        reveal_strlit("other_present");
        reveal_strlit("self");
        reveal_strlit("this_char");
        reveal_strlit("role_none");
        assert("scene_protagonist"@.len() == 17);
        assert("scene_deuteragonist"@.len() == 19 && "scene_deuteragonist"@[6] == 'd');
        assert("scene_antagonist"@.len() == 16);
        assert("scene_love_interest"@.len() == 19 && "scene_love_interest"@[6] == 'l');
        assert("scene_ally"@.len() == 10);
        assert("scene_rival"@.len() == 11);
        assert("scene_mentor"@.len() == 12 && "scene_mentor"@[0] == 's');
        assert("scene_authority"@.len() == 15 && "scene_authority"@[6] == 'a');
        assert("scene_dependent"@.len() == 15 && "scene_dependent"@[6] == 'd');
        assert("family_member"@.len() == 13 && "family_member"@[0] == 'f');
        assert("confidant"@.len() == 9 && "confidant"@[0] == 'c');
        assert("foil"@.len() == 4 && "foil"@[0] == 'f');
        assert("catalyst"@.len() == 8 && "catalyst"@[0] == 'c');
        assert("stranger"@.len() == 8 && "stranger"@[0] == 's');
        assert("narrator"@.len() == 8 && "narrator"@[0] == 'n');
        assert("absent_party"@.len() == 12 && "absent_party"@[0] == 'a');
        assert("other_present"@.len() == 13 && "other_present"@[0] == 'o');
        assert("self"@.len() == 4 && "self"@[0] == 's');
        assert("this_char"@.len() == 9 && "this_char"@[0] == 't');
        assert("role_none"@.len() == 9 && "role_none"@[0] == 'r');
    }
}

/// Scene polarity for turn tracking (dramatic direction).
#[derive(Debug, Clone, Copy, PartialEq, Eq, Hash, Structural)]
pub enum ScenePolarity {
    Hope,
    Fear,
    Trust,
    Suspicion,
    Ignorance,
    Knowledge,
    Connection,
    Isolation,
    Control,
    Chaos,
    Safety,
    Danger,
    Certainty,
    Doubt,
    Love,
    Hate,
    Calm,
    Agitation,
    Power,
    Powerlessness,
    Belonging,
    Alienation,
    Clarity,
    Confusion,
}

impl SnakeName for ScenePolarity {
    open spec fn spec_name(self) -> Seq<char> {
        match self {
            ScenePolarity::Hope => "hope"@,
            ScenePolarity::Fear => "fear"@,
            ScenePolarity::Trust => "trust"@,
            ScenePolarity::Suspicion => "suspicion"@,
            ScenePolarity::Ignorance => "ignorance"@,
            ScenePolarity::Knowledge => "knowledge"@,
            ScenePolarity::Connection => "connection"@,
            ScenePolarity::Isolation => "isolation"@,
            ScenePolarity::Control => "control"@,
            ScenePolarity::Chaos => "chaos"@,
            ScenePolarity::Safety => "safety"@,
            ScenePolarity::Danger => "danger"@,
            ScenePolarity::Certainty => "certainty"@,
            ScenePolarity::Doubt => "doubt"@,
            ScenePolarity::Love => "love"@,
            ScenePolarity::Hate => "hate"@,
            ScenePolarity::Calm => "calm"@,
            ScenePolarity::Agitation => "agitation"@,
            ScenePolarity::Power => "power"@,
            ScenePolarity::Powerlessness => "powerlessness"@,
            ScenePolarity::Belonging => "belonging"@,
            ScenePolarity::Alienation => "alienation"@,
            ScenePolarity::Clarity => "clarity"@,
            ScenePolarity::Confusion => "confusion"@,
        }
    }

    fn name(&self) -> (r: &'static str) {
        match self {
            ScenePolarity::Hope => "hope",
            ScenePolarity::Fear => "fear",
            ScenePolarity::Trust => "trust",
            ScenePolarity::Suspicion => "suspicion",
            ScenePolarity::Ignorance => "ignorance",
            ScenePolarity::Knowledge => "knowledge",
            ScenePolarity::Connection => "connection",
            ScenePolarity::Isolation => "isolation",
            ScenePolarity::Control => "control",
            ScenePolarity::Chaos => "chaos",
            ScenePolarity::Safety => "safety",
            ScenePolarity::Danger => "danger",
            ScenePolarity::Certainty => "certainty",
            ScenePolarity::Doubt => "doubt",
            ScenePolarity::Love => "love",
            ScenePolarity::Hate => "hate",
            ScenePolarity::Calm => "calm",
            ScenePolarity::Agitation => "agitation",
            ScenePolarity::Power => "power",
            ScenePolarity::Powerlessness => "powerlessness",
            ScenePolarity::Belonging => "belonging",
            ScenePolarity::Alienation => "alienation",
            ScenePolarity::Clarity => "clarity",
            ScenePolarity::Confusion => "confusion",
        }
    }

    fn from_name(s: &str) -> (r: Option<Self>) {
        let r = if str_eq(s, "hope") {
            Some(ScenePolarity::Hope)
        } else if str_eq(s, "fear") {
            Some(ScenePolarity::Fear)
        } else if str_eq(s, "trust") {
            Some(ScenePolarity::Trust)
        } else if str_eq(s, "suspicion") {
            Some(ScenePolarity::Suspicion)
        } else if str_eq(s, "ignorance") {
            Some(ScenePolarity::Ignorance)
        } else if str_eq(s, "knowledge") {
            Some(ScenePolarity::Knowledge)
        } else if str_eq(s, "connection") {
            Some(ScenePolarity::Connection)
        } else if str_eq(s, "isolation") {
            Some(ScenePolarity::Isolation)
        } else if str_eq(s, "control") {
            Some(ScenePolarity::Control)
        } else if str_eq(s, "chaos") {
            Some(ScenePolarity::Chaos)
        } else if str_eq(s, "safety") {
            Some(ScenePolarity::Safety)
        } else if str_eq(s, "danger") {
            Some(ScenePolarity::Danger)
        } else if str_eq(s, "certainty") {
            Some(ScenePolarity::Certainty)
        } else if str_eq(s, "doubt") {
            Some(ScenePolarity::Doubt)
        } else if str_eq(s, "love") {
            Some(ScenePolarity::Love)
        } else if str_eq(s, "hate") {
            Some(ScenePolarity::Hate)
        } else if str_eq(s, "calm") {
            Some(ScenePolarity::Calm)
        } else if str_eq(s, "agitation") {
            Some(ScenePolarity::Agitation)
        } else if str_eq(s, "power") {
            Some(ScenePolarity::Power)
        } else if str_eq(s, "powerlessness") {
            Some(ScenePolarity::Powerlessness)
        } else if str_eq(s, "belonging") {
            Some(ScenePolarity::Belonging)
        } else if str_eq(s, "alienation") {
            Some(ScenePolarity::Alienation)
        } else if str_eq(s, "clarity") {
            Some(ScenePolarity::Clarity)
        } else if str_eq(s, "confusion") {
            Some(ScenePolarity::Confusion)
        } else {
            None
        };
        r
    }

    proof fn lemma_name_injective(a: Self, b: Self) {
        reveal_strlit("hope");
        reveal_strlit("fear");
        reveal_strlit("trust");
        reveal_strlit("suspicion");
        reveal_strlit("ignorance");
        reveal_strlit("knowledge");
        reveal_strlit("connection");
        reveal_strlit("isolation");
        reveal_strlit("control");
        reveal_strlit("chaos");
        reveal_strlit("safety");
        reveal_strlit("danger");
        reveal_strlit("certainty");
        reveal_strlit("doubt");
        reveal_strlit("love");
        reveal_strlit("hate");
        reveal_strlit("calm");
        reveal_strlit("agitation");
        reveal_strlit("power");
        reveal_strlit("powerlessness");
        reveal_strlit("belonging");
        reveal_strlit("alienation");
        reveal_strlit("clarity");
        reveal_strlit("confusion");
        assert("hope"@.len() == 4 && "hope"@[0] == 'h' && "hope"@[1] == 'o');
        assert("fear"@.len() == 4 && "fear"@[0] == 'f');
        assert("trust"@.len() == 5 && "trust"@[0] == 't');
        assert("suspicion"@.len() == 9 && "suspicion"@[0] == 's');
        assert("ignorance"@.len() == 9 && "ignorance"@[0] == 'i' && "ignorance"@[1] == 'g');
        assert("knowledge"@.len() == 9 && "knowledge"@[0] == 'k');
        assert("connection"@.len() == 10 && "connection"@[0] == 'c');
        assert("isolation"@.len() == 9 && "isolation"@[0] == 'i' && "isolation"@[1] == 's');
        assert("control"@.len() == 7 && "control"@[1] == 'o');
        assert("chaos"@.len() == 5 && "chaos"@[0] == 'c');
        assert("safety"@.len() == 6 && "safety"@[0] == 's');
        assert("danger"@.len() == 6 && "danger"@[0] == 'd');
        assert("certainty"@.len() == 9 && "certainty"@[0] == 'c' && "certainty"@[1] == 'e');
        assert("doubt"@.len() == 5 && "doubt"@[0] == 'd');
        assert("love"@.len() == 4 && "love"@[0] == 'l');
        assert("hate"@.len() == 4 && "hate"@[0] == 'h' && "hate"@[1] == 'a');
        assert("calm"@.len() == 4 && "calm"@[0] == 'c');
        assert("agitation"@.len() == 9 && "agitation"@[0] == 'a');
        assert("power"@.len() == 5 && "power"@[0] == 'p');
        assert("powerlessness"@.len() == 13);
        assert("belonging"@.len() == 9 && "belonging"@[0] == 'b');
        assert("alienation"@.len() == 10 && "alienation"@[0] == 'a');
        assert("clarity"@.len() == 7 && "clarity"@[1] == 'l');
        assert("confusion"@.len() == 9 && "confusion"@[0] == 'c' && "confusion"@[1] == 'o');
    }
}

/// Thematic question being explored.
#[derive(Debug, Clone, Copy, PartialEq, Eq, Hash, Structural)]
pub enum ThematicQuestion {
    CanLoveOvercomeObstacles,
    IsPersonalChangePossible,
    DoesTruthMatterMoreThanPeace,
    CanWoundsHeal,
    IsJusticeAttainable,
    DoesSocialClassDetermineFate,
    CanPrideBeOvercome,
    DoesVirtueGetRewarded,
    IsForgivenessPossible,
    CanDutyCoexistWithDesire,
    DoesLoyaltyDemandSacrifice,
    IsHappinessAChoice,
    CanThePastBeEscaped,
    DoesPowerCorrupt,
    IsAuthenticityWorthTheCost,
    CanLoveSurviveDeception,
    IsRedemptionEarnedOrGiven,
    DoesKnowledgeBringHappiness,
}

impl SnakeName for ThematicQuestion {
    open spec fn spec_name(self) -> Seq<char> {
        match self {
            ThematicQuestion::CanLoveOvercomeObstacles => "can_love_overcome_obstacles"@,
            ThematicQuestion::IsPersonalChangePossible => "is_personal_change_possible"@,
            ThematicQuestion::DoesTruthMatterMoreThanPeace => "does_truth_matter_more_than_peace"@,
            ThematicQuestion::CanWoundsHeal => "can_wounds_heal"@,
            ThematicQuestion::IsJusticeAttainable => "is_justice_attainable"@,
            ThematicQuestion::DoesSocialClassDetermineFate => "does_social_class_determine_fate"@,
            ThematicQuestion::CanPrideBeOvercome => "can_pride_be_overcome"@,
            ThematicQuestion::DoesVirtueGetRewarded => "does_virtue_get_rewarded"@,
            ThematicQuestion::IsForgivenessPossible => "is_forgiveness_possible"@,
            ThematicQuestion::CanDutyCoexistWithDesire => "can_duty_coexist_with_desire"@,
            ThematicQuestion::DoesLoyaltyDemandSacrifice => "does_loyalty_demand_sacrifice"@,
            ThematicQuestion::IsHappinessAChoice => "is_happiness_a_choice"@,
            ThematicQuestion::CanThePastBeEscaped => "can_the_past_be_escaped"@,
            ThematicQuestion::DoesPowerCorrupt => "does_power_corrupt"@,
            ThematicQuestion::IsAuthenticityWorthTheCost => "is_authenticity_worth_the_cost"@,
            ThematicQuestion::CanLoveSurviveDeception => "can_love_survive_deception"@,
            ThematicQuestion::IsRedemptionEarnedOrGiven => "is_redemption_earned_or_given"@,
            ThematicQuestion::DoesKnowledgeBringHappiness => "does_knowledge_bring_happiness"@,
        }
    }

    fn name(&self) -> (r: &'static str) {
        match self {
            ThematicQuestion::CanLoveOvercomeObstacles => "can_love_overcome_obstacles",
            ThematicQuestion::IsPersonalChangePossible => "is_personal_change_possible",
            ThematicQuestion::DoesTruthMatterMoreThanPeace => "does_truth_matter_more_than_peace",
            ThematicQuestion::CanWoundsHeal => "can_wounds_heal",
            ThematicQuestion::IsJusticeAttainable => "is_justice_attainable",
            ThematicQuestion::DoesSocialClassDetermineFate => "does_social_class_determine_fate",
            ThematicQuestion::CanPrideBeOvercome => "can_pride_be_overcome",
            ThematicQuestion::DoesVirtueGetRewarded => "does_virtue_get_rewarded",
            ThematicQuestion::IsForgivenessPossible => "is_forgiveness_possible",
            ThematicQuestion::CanDutyCoexistWithDesire => "can_duty_coexist_with_desire",
            ThematicQuestion::DoesLoyaltyDemandSacrifice => "does_loyalty_demand_sacrifice",
            ThematicQuestion::IsHappinessAChoice => "is_happiness_a_choice",
            ThematicQuestion::CanThePastBeEscaped => "can_the_past_be_escaped",
            ThematicQuestion::DoesPowerCorrupt => "does_power_corrupt",
            ThematicQuestion::IsAuthenticityWorthTheCost => "is_authenticity_worth_the_cost",
            ThematicQuestion::CanLoveSurviveDeception => "can_love_survive_deception",
            ThematicQuestion::IsRedemptionEarnedOrGiven => "is_redemption_earned_or_given",
            ThematicQuestion::DoesKnowledgeBringHappiness => "does_knowledge_bring_happiness",
        }
    }

    fn from_name(s: &str) -> (r: Option<Self>) {
        let r = if str_eq(s, "can_love_overcome_obstacles") {
            Some(ThematicQuestion::CanLoveOvercomeObstacles)
        } else if str_eq(s, "is_personal_change_possible") {
            Some(ThematicQuestion::IsPersonalChangePossible)
        } else if str_eq(s, "does_truth_matter_more_than_peace") {
            Some(ThematicQuestion::DoesTruthMatterMoreThanPeace)
        } else if str_eq(s, "can_wounds_heal") {
            Some(ThematicQuestion::CanWoundsHeal)
        } else if str_eq(s, "is_justice_attainable") {
            Some(ThematicQuestion::IsJusticeAttainable)
        } else if str_eq(s, "does_social_class_determine_fate") {
            Some(ThematicQuestion::DoesSocialClassDetermineFate)
        } else if str_eq(s, "can_pride_be_overcome") {
            Some(ThematicQuestion::CanPrideBeOvercome)
        } else if str_eq(s, "does_virtue_get_rewarded") {
            Some(ThematicQuestion::DoesVirtueGetRewarded)
        } else if str_eq(s, "is_forgiveness_possible") {
            Some(ThematicQuestion::IsForgivenessPossible)
        } else if str_eq(s, "can_duty_coexist_with_desire") {
            Some(ThematicQuestion::CanDutyCoexistWithDesire)
        } else if str_eq(s, "does_loyalty_demand_sacrifice") {
            Some(ThematicQuestion::DoesLoyaltyDemandSacrifice)
        } else if str_eq(s, "is_happiness_a_choice") {
            Some(ThematicQuestion::IsHappinessAChoice)
        } else if str_eq(s, "can_the_past_be_escaped") {
            Some(ThematicQuestion::CanThePastBeEscaped)
        } else if str_eq(s, "does_power_corrupt") {
            Some(ThematicQuestion::DoesPowerCorrupt)
        } else if str_eq(s, "is_authenticity_worth_the_cost") {
            Some(ThematicQuestion::IsAuthenticityWorthTheCost)
        } else if str_eq(s, "can_love_survive_deception") {
            Some(ThematicQuestion::CanLoveSurviveDeception)
        } else if str_eq(s, "is_redemption_earned_or_given") {
            Some(ThematicQuestion::IsRedemptionEarnedOrGiven)
        } else if str_eq(s, "does_knowledge_bring_happiness") {
            Some(ThematicQuestion::DoesKnowledgeBringHappiness)
        } else {
            None
        };
        r
    }

    proof fn lemma_name_injective(a: Self, b: Self) {
        reveal_strlit("can_love_overcome_obstacles");
        reveal_strlit("is_personal_change_possible");
        reveal_strlit("does_truth_matter_more_than_peace");
        reveal_strlit("can_wounds_heal");
        reveal_strlit("is_justice_attainable");
        reveal_strlit("does_social_class_determine_fate");
        reveal_strlit("can_pride_be_overcome");
        reveal_strlit("does_virtue_get_rewarded");
        reveal_strlit("is_forgiveness_possible");
        reveal_strlit("can_duty_coexist_with_desire");
        reveal_strlit("does_loyalty_demand_sacrifice");
        reveal_strlit("is_happiness_a_choice");
        reveal_strlit("can_the_past_be_escaped");
        reveal_strlit("does_power_corrupt");
        reveal_strlit("is_authenticity_worth_the_cost");
        reveal_strlit("can_love_survive_deception");
        reveal_strlit("is_redemption_earned_or_given");
        reveal_strlit("does_knowledge_bring_happiness");
        assert("can_love_overcome_obstacles"@.len() == 27 && "can_love_overcome_obstacles"@[0] == 'c');
        assert("is_personal_change_possible"@.len() == 27 && "is_personal_change_possible"@[0] == 'i');
        assert("does_truth_matter_more_than_peace"@.len() == 33);
        assert("can_wounds_heal"@.len() == 15);
        assert("is_justice_attainable"@.len() == 21 && "is_justice_attainable"@[0] == 'i' && "is_justice_attainable"@[3] == 'j');
        assert("does_social_class_determine_fate"@.len() == 32);
        assert("can_pride_be_overcome"@.len() == 21 && "can_pride_be_overcome"@[0] == 'c');
        assert("does_virtue_get_rewarded"@.len() == 24);
        assert("is_forgiveness_possible"@.len() == 23 && "is_forgiveness_possible"@[0] == 'i');
        assert("can_duty_coexist_with_desire"@.len() == 28);
        assert("does_loyalty_demand_sacrifice"@.len() == 29 && "does_loyalty_demand_sacrifice"@[0] == 'd');
        assert("is_happiness_a_choice"@.len() == 21 && "is_happiness_a_choice"@[0] == 'i' && "is_happiness_a_choice"@[3] == 'h');
        assert("can_the_past_be_escaped"@.len() == 23 && "can_the_past_be_escaped"@[0] == 'c');
        assert("does_power_corrupt"@.len() == 18);
        assert("is_authenticity_worth_the_cost"@.len() == 30 && "is_authenticity_worth_the_cost"@[0] == 'i');
        assert("can_love_survive_deception"@.len() == 26);
        assert("is_redemption_earned_or_given"@.len() == 29 && "is_redemption_earned_or_given"@[0] == 'i');
        assert("does_knowledge_bring_happiness"@.len() == 30 && "does_knowledge_bring_happiness"@[0] == 'd');
    }
}

/// Speech register (formality level in dialogue).
#[derive(Debug, Clone, Copy, PartialEq, Eq, Hash, Structural)]
pub enum SpeechRegister {
    FormalElevated,
    FormalStandard,
    PoliteNeutral,
    CasualFamiliar,
    IntimatePrivate,
    ArchaicPeriod,
    DialectRegional,
    SlangSubcultural,
    ProfessionalTechnical,
    CeremonialRitual,
}

impl SnakeName for SpeechRegister {
    open spec fn spec_name(self) -> Seq<char> {
        match self {
            SpeechRegister::FormalElevated => "formal_elevated"@,
            SpeechRegister::FormalStandard => "formal_standard"@,
            SpeechRegister::PoliteNeutral => "polite_neutral"@,
            SpeechRegister::CasualFamiliar => "casual_familiar"@,
            SpeechRegister::IntimatePrivate => "intimate_private"@,
            SpeechRegister::ArchaicPeriod => "archaic_period"@,
            SpeechRegister::DialectRegional => "dialect_regional"@,
            SpeechRegister::SlangSubcultural => "slang_subcultural"@,
            SpeechRegister::ProfessionalTechnical => "professional_technical"@,
            SpeechRegister::CeremonialRitual => "ceremonial_ritual"@,
        }
    }

    fn name(&self) -> (r: &'static str) {
        match self {
            SpeechRegister::FormalElevated => "formal_elevated",
            SpeechRegister::FormalStandard => "formal_standard",
            SpeechRegister::PoliteNeutral => "polite_neutral",
            SpeechRegister::CasualFamiliar => "casual_familiar",
            SpeechRegister::IntimatePrivate => "intimate_private",
            SpeechRegister::ArchaicPeriod => "archaic_period",
            SpeechRegister::DialectRegional => "dialect_regional",
            SpeechRegister::SlangSubcultural => "slang_subcultural",
            SpeechRegister::ProfessionalTechnical => "professional_technical",
            SpeechRegister::CeremonialRitual => "ceremonial_ritual",
        }
    }

    fn from_name(s: &str) -> (r: Option<Self>) {
        let r = if str_eq(s, "formal_elevated") {
            Some(SpeechRegister::FormalElevated)
        } else if str_eq(s, "formal_standard") {
            Some(SpeechRegister::FormalStandard)
        } else if str_eq(s, "polite_neutral") {
            Some(SpeechRegister::PoliteNeutral)
        } else if str_eq(s, "casual_familiar") {
            Some(SpeechRegister::CasualFamiliar)
        } else if str_eq(s, "intimate_private") {
            Some(SpeechRegister::IntimatePrivate)
        } else if str_eq(s, "archaic_period") {
            Some(SpeechRegister::ArchaicPeriod)
        } else if str_eq(s, "dialect_regional") {
            Some(SpeechRegister::DialectRegional)
        } else if str_eq(s, "slang_subcultural") {
            Some(SpeechRegister::SlangSubcultural)
        } else if str_eq(s, "professional_technical") {
            Some(SpeechRegister::ProfessionalTechnical)
        } else if str_eq(s, "ceremonial_ritual") {
            Some(SpeechRegister::CeremonialRitual)
        } else {
            None
        };
        r
    }

    proof fn lemma_name_injective(a: Self, b: Self) {
        reveal_strlit("formal_elevated");
        reveal_strlit("formal_standard");
        reveal_strlit("polite_neutral");
        reveal_strlit("casual_familiar");
        reveal_strlit("intimate_private");
        reveal_strlit("archaic_period");
        reveal_strlit("dialect_regional");
        reveal_strlit("slang_subcultural");
        reveal_strlit("professional_technical");
        reveal_strlit("ceremonial_ritual");
        assert("formal_elevated"@.len() == 15 && "formal_elevated"@[0] == 'f' && "formal_elevated"@[7] == 'e');
        assert("formal_standard"@.len() == 15 && "formal_standard"@[0] == 'f' && "formal_standard"@[7] == 's');
        assert("polite_neutral"@.len() == 14 && "polite_neutral"@[0] == 'p');
        assert("casual_familiar"@.len() == 15 && "casual_familiar"@[0] == 'c');
        assert("intimate_private"@.len() == 16 && "intimate_private"@[0] == 'i');
        assert("archaic_period"@.len() == 14 && "archaic_period"@[0] == 'a');
        assert("dialect_regional"@.len() == 16 && "dialect_regional"@[0] == 'd');
        assert("slang_subcultural"@.len() == 17 && "slang_subcultural"@[0] == 's');
        assert("professional_technical"@.len() == 22);
        assert("ceremonial_ritual"@.len() == 17 && "ceremonial_ritual"@[0] == 'c');
    }
}

/// Narrative voice register (stylistic register).
#[derive(Debug, Clone, Copy, PartialEq, Eq, Hash, Structural)]
pub enum NarrativeVoiceRegister {
    Archaic,
    PeriodAppropriate,
    Contemporary,
    FormalLiterary,
    Conversational,
    Lyrical,
    Journalistic,
    Academic,
    Vernacular,
}

impl SnakeName for NarrativeVoiceRegister {
    open spec fn spec_name(self) -> Seq<char> {
        match self {
            NarrativeVoiceRegister::Archaic => "archaic"@,
            NarrativeVoiceRegister::PeriodAppropriate => "period_appropriate"@,
            NarrativeVoiceRegister::Contemporary => "contemporary"@,
            NarrativeVoiceRegister::FormalLiterary => "formal_literary"@,
            NarrativeVoiceRegister::Conversational => "conversational"@,
            NarrativeVoiceRegister::Lyrical => "lyrical"@,
            NarrativeVoiceRegister::Journalistic => "journalistic"@,
            NarrativeVoiceRegister::Academic => "academic"@,
            NarrativeVoiceRegister::Vernacular => "vernacular"@,
        }
    }

    fn name(&self) -> (r: &'static str) {
        match self {
            NarrativeVoiceRegister::Archaic => "archaic",
            NarrativeVoiceRegister::PeriodAppropriate => "period_appropriate",
            NarrativeVoiceRegister::Contemporary => "contemporary",
            NarrativeVoiceRegister::FormalLiterary => "formal_literary",
            NarrativeVoiceRegister::Conversational => "conversational",
            NarrativeVoiceRegister::Lyrical => "lyrical",
            NarrativeVoiceRegister::Journalistic => "journalistic",
            NarrativeVoiceRegister::Academic => "academic",
            NarrativeVoiceRegister::Vernacular => "vernacular",
        }
    }

    fn from_name(s: &str) -> (r: Option<Self>) {
        let r = if str_eq(s, "archaic") {
            Some(NarrativeVoiceRegister::Archaic)
        } else if str_eq(s, "period_appropriate") {
            Some(NarrativeVoiceRegister::PeriodAppropriate)
        } else if str_eq(s, "contemporary") {
            Some(NarrativeVoiceRegister::Contemporary)
        } else if str_eq(s, "formal_literary") {
            Some(NarrativeVoiceRegister::FormalLiterary)
        } else if str_eq(s, "conversational") {
            Some(NarrativeVoiceRegister::Conversational)
        } else if str_eq(s, "lyrical") {
            Some(NarrativeVoiceRegister::Lyrical)
        } else if str_eq(s, "journalistic") {
            Some(NarrativeVoiceRegister::Journalistic)
        } else if str_eq(s, "academic") {
            Some(NarrativeVoiceRegister::Academic)
        } else if str_eq(s, "vernacular") {
            Some(NarrativeVoiceRegister::Vernacular)
        } else {
            None
        };
        r
    }

    proof fn lemma_name_injective(a: Self, b: Self) {
        reveal_strlit("archaic");
        reveal_strlit("period_appropriate");
        reveal_strlit("contemporary");
        reveal_strlit("formal_literary");
        reveal_strlit("conversational");
        reveal_strlit("lyrical");
        reveal_strlit("journalistic");
        reveal_strlit("academic");
        reveal_strlit("vernacular");
        assert("archaic"@.len() == 7 && "archaic"@[0] == 'a');
        assert("period_appropriate"@.len() == 18);
        assert("contemporary"@.len() == 12 && "contemporary"@[0] == 'c');
        assert("formal_literary"@.len() == 15);
        assert("conversational"@.len() == 14);
        assert("lyrical"@.len() == 7 && "lyrical"@[0] == 'l');
        assert("journalistic"@.len() == 12 && "journalistic"@[0] == 'j');
        assert("academic"@.len() == 8);
        assert("vernacular"@.len() == 10);
    }
}

#[derive(Debug, Clone, Copy, PartialEq, Eq, Hash, Structural)]
pub enum SpeechAct {
    /// Describes a state of affairs (assert, conclude, deny)
    Assertive,
    /// Attempts to get the hearer to do something (request, order, plead)
    Directive,
    /// Commits the speaker to a future action (promise, threaten, offer)
    Commissive,
    /// Expresses psychological states (apologise, thank, congratulate)
    Expressive,
    /// Changes a state in the world (declare war, pronounce married)
    Declaration,
}

impl SnakeName for SpeechAct {
    open spec fn spec_name(self) -> Seq<char> {
        match self {
            SpeechAct::Assertive => "assertive"@,
            SpeechAct::Directive => "directive"@,
            SpeechAct::Commissive => "commissive"@,
            SpeechAct::Expressive => "expressive"@,
            SpeechAct::Declaration => "declaration"@,
        }
    }

    fn name(&self) -> (r: &'static str) {
        match self {
            SpeechAct::Assertive => "assertive",
            SpeechAct::Directive => "directive",
            SpeechAct::Commissive => "commissive",
            SpeechAct::Expressive => "expressive",
            SpeechAct::Declaration => "declaration",
        }
    }

    fn from_name(s: &str) -> (r: Option<Self>) {
        let r = if str_eq(s, "assertive") {
            Some(SpeechAct::Assertive)
        } else if str_eq(s, "directive") {
            Some(SpeechAct::Directive)
        } else if str_eq(s, "commissive") {
            Some(SpeechAct::Commissive)
        } else if str_eq(s, "expressive") {
            Some(SpeechAct::Expressive)
        } else if str_eq(s, "declaration") {
            Some(SpeechAct::Declaration)
        } else {
            None
        };
        r
    }

    proof fn lemma_name_injective(a: Self, b: Self) {
        reveal_strlit("assertive");
        reveal_strlit("directive");
        reveal_strlit("commissive");
        reveal_strlit("expressive");
        reveal_strlit("declaration");
        assert("assertive"@.len() == 9 && "assertive"@[0] == 'a');
        assert("directive"@.len() == 9 && "directive"@[0] == 'd');
        assert("commissive"@.len() == 10 && "commissive"@[0] == 'c');
        assert("expressive"@.len() == 10 && "expressive"@[0] == 'e');
        assert("declaration"@.len() == 11);
    }
}

#[derive(Debug, Clone, Copy, PartialEq, Eq, Hash, Structural)]
pub enum GazeType {
    Active,
    Passive,
    Power,
    Counter,
    Internalized,
}

impl SnakeName for GazeType {
    open spec fn spec_name(self) -> Seq<char> {
        match self {
            GazeType::Active => "active"@,
            GazeType::Passive => "passive"@,
            GazeType::Power => "power"@,
            GazeType::Counter => "counter"@,
            GazeType::Internalized => "internalized"@,
        }
    }

    fn name(&self) -> (r: &'static str) {
        match self {
            GazeType::Active => "active",
            GazeType::Passive => "passive",
            GazeType::Power => "power",
            GazeType::Counter => "counter",
            GazeType::Internalized => "internalized",
        }
    }

    fn from_name(s: &str) -> (r: Option<Self>) {
        let r = if str_eq(s, "active") {
            Some(GazeType::Active)
        } else if str_eq(s, "passive") {
            Some(GazeType::Passive)
        } else if str_eq(s, "power") {
            Some(GazeType::Power)
        } else if str_eq(s, "counter") {
            Some(GazeType::Counter)
        } else if str_eq(s, "internalized") {
            Some(GazeType::Internalized)
        } else {
            None
        };
        r
    }

    proof fn lemma_name_injective(a: Self, b: Self) {
        reveal_strlit("active");
        reveal_strlit("passive");
        reveal_strlit("power");
        reveal_strlit("counter");
        reveal_strlit("internalized");
        assert("active"@.len() == 6);
        assert("passive"@.len() == 7 && "passive"@[0] == 'p');
        assert("power"@.len() == 5);
        assert("counter"@.len() == 7 && "counter"@[0] == 'c');
        assert("internalized"@.len() == 12);
    }
}

#[derive(Debug, Clone, Copy, PartialEq, Eq, Hash, Structural)]
pub enum PactType {
    Autobiographical,
    Fictional,
    Autofictional,
}

impl SnakeName for PactType {
    open spec fn spec_name(self) -> Seq<char> {
        match self {
            PactType::Autobiographical => "autobiographical"@,
            PactType::Fictional => "fictional"@,
            PactType::Autofictional => "autofictional"@,
        }
    }

    fn name(&self) -> (r: &'static str) {
        match self {
            PactType::Autobiographical => "autobiographical",
            PactType::Fictional => "fictional",
            PactType::Autofictional => "autofictional",
        }
    }

    fn from_name(s: &str) -> (r: Option<Self>) {
        let r = if str_eq(s, "autobiographical") {
            Some(PactType::Autobiographical)
        } else if str_eq(s, "fictional") {
            Some(PactType::Fictional)
        } else if str_eq(s, "autofictional") {
            Some(PactType::Autofictional)
        } else {
            None
        };
        r
    }

    proof fn lemma_name_injective(a: Self, b: Self) {
        reveal_strlit("autobiographical");
        reveal_strlit("fictional");
        reveal_strlit("autofictional");
        assert("autobiographical"@.len() == 16);
        assert("fictional"@.len() == 9);
        assert("autofictional"@.len() == 13);
    }
}

#[derive(Debug, Clone, Copy, PartialEq, Eq, Hash, Structural)]
pub enum Actant {
    Subject,
    Object,
    Sender,
    Receiver,
    Helper,
    Opponent,
}

impl SnakeName for Actant {
    open spec fn spec_name(self) -> Seq<char> {
        match self {
            Actant::Subject => "subject"@,
            Actant::Object => "object"@,
            Actant::Sender => "sender"@,
            Actant::Receiver => "receiver"@,
            Actant::Helper => "helper"@,
            Actant::Opponent => "opponent"@,
        }
    }

    fn name(&self) -> (r: &'static str) {
        match self {
            Actant::Subject => "subject",
            Actant::Object => "object",
            Actant::Sender => "sender",
            Actant::Receiver => "receiver",
            Actant::Helper => "helper",
            Actant::Opponent => "opponent",
        }
    }

    fn from_name(s: &str) -> (r: Option<Self>) {
        let r = if str_eq(s, "subject") {
            Some(Actant::Subject)
        } else if str_eq(s, "object") {
            Some(Actant::Object)
        } else if str_eq(s, "sender") {
            Some(Actant::Sender)
        } else if str_eq(s, "receiver") {
            Some(Actant::Receiver)
        } else if str_eq(s, "helper") {
            Some(Actant::Helper)
        } else if str_eq(s, "opponent") {
            Some(Actant::Opponent)
        } else {
            None
        };
        r
    }

    proof fn lemma_name_injective(a: Self, b: Self) {
        reveal_strlit("subject");
        reveal_strlit("object");
        reveal_strlit("sender");
        reveal_strlit("receiver");
        reveal_strlit("helper");
        reveal_strlit("opponent");
        assert("subject"@.len() == 7);
        assert("object"@.len() == 6 && "object"@[0] == 'o');
        assert("sender"@.len() == 6 && "sender"@[0] == 's');
        assert("receiver"@.len() == 8 && "receiver"@[0] == 'r');
        assert("helper"@.len() == 6 && "helper"@[0] == 'h');
        assert("opponent"@.len() == 8 && "opponent"@[0] == 'o');
    }
}

#[derive(Debug, Clone, Copy, PartialEq, Eq, Hash, Structural)]
pub enum GriceanMaxim {
    Quantity,
    Quality,
    Relation,
    Manner,
}

impl SnakeName for GriceanMaxim {
    open spec fn spec_name(self) -> Seq<char> {
        match self {
            GriceanMaxim::Quantity => "quantity"@,
            GriceanMaxim::Quality => "quality"@,
            GriceanMaxim::Relation => "relation"@,
            GriceanMaxim::Manner => "manner"@,
        }
    }

    fn name(&self) -> (r: &'static str) {
        match self {
            GriceanMaxim::Quantity => "quantity",
            GriceanMaxim::Quality => "quality",
            GriceanMaxim::Relation => "relation",
            GriceanMaxim::Manner => "manner",
        }
    }

    fn from_name(s: &str) -> (r: Option<Self>) {
        let r = if str_eq(s, "quantity") {
            Some(GriceanMaxim::Quantity)
        } else if str_eq(s, "quality") {
            Some(GriceanMaxim::Quality)
        } else if str_eq(s, "relation") {
            Some(GriceanMaxim::Relation)
        } else if str_eq(s, "manner") {
            Some(GriceanMaxim::Manner)
        } else {
            None
        };
        r
    }

    proof fn lemma_name_injective(a: Self, b: Self) {
        reveal_strlit("quantity");
        reveal_strlit("quality");
        reveal_strlit("relation");
        reveal_strlit("manner");
        assert("quantity"@.len() == 8 && "quantity"@[0] == 'q');
        assert("quality"@.len() == 7);
        assert("relation"@.len() == 8 && "relation"@[0] == 'r');
        assert("manner"@.len() == 6);
    }
}

#[derive(Debug, Clone, Copy, PartialEq, Eq, Hash, Structural)]
pub enum DisplacementGap {
    Small,
    Medium,
    Large,
}

impl SnakeName for DisplacementGap {
    open spec fn spec_name(self) -> Seq<char> {
        match self {
            DisplacementGap::Small => "small"@,
            DisplacementGap::Medium => "medium"@,
            DisplacementGap::Large => "large"@,
        }
    }

    fn name(&self) -> (r: &'static str) {
        match self {
            DisplacementGap::Small => "small",
            DisplacementGap::Medium => "medium",
            DisplacementGap::Large => "large",
        }
    }

    fn from_name(s: &str) -> (r: Option<Self>) {
        let r = if str_eq(s, "small") {
            Some(DisplacementGap::Small)
        } else if str_eq(s, "medium") {
            Some(DisplacementGap::Medium)
        } else if str_eq(s, "large") {
            Some(DisplacementGap::Large)
        } else {
            None
        };
        r
    }

    proof fn lemma_name_injective(a: Self, b: Self) {
        reveal_strlit("small");
        reveal_strlit("medium");
        reveal_strlit("large");
        assert("small"@.len() == 5 && "small"@[0] == 's');
        assert("medium"@.len() == 6);
        assert("large"@.len() == 5 && "large"@[0] == 'l');
    }
}

#[derive(Debug, Clone, Copy, PartialEq, Eq, Hash, Structural)]
pub enum NonResponseType {
    Deflection,
    Silence,
    TopicChange,
    OverAnswer,
}

impl SnakeName for NonResponseType {
    open spec fn spec_name(self) -> Seq<char> {
        match self {
            NonResponseType::Deflection => "deflection"@,
            NonResponseType::Silence => "silence"@,
            NonResponseType::TopicChange => "topic_change"@,
            NonResponseType::OverAnswer => "over_answer"@,
        }
    }

    fn name(&self) -> (r: &'static str) {
        match self {
            NonResponseType::Deflection => "deflection",
            NonResponseType::Silence => "silence",
            NonResponseType::TopicChange => "topic_change",
            NonResponseType::OverAnswer => "over_answer",
        }
    }

    fn from_name(s: &str) -> (r: Option<Self>) {
        let r = if str_eq(s, "deflection") {
            Some(NonResponseType::Deflection)
        } else if str_eq(s, "silence") {
            Some(NonResponseType::Silence)
        } else if str_eq(s, "topic_change") {
            Some(NonResponseType::TopicChange)
        } else if str_eq(s, "over_answer") {
            Some(NonResponseType::OverAnswer)
        } else {
            None
        };
        r
    }

    proof fn lemma_name_injective(a: Self, b: Self) {
        reveal_strlit("deflection");
        reveal_strlit("silence");
        reveal_strlit("topic_change");
        reveal_strlit("over_answer");
        assert("deflection"@.len() == 10);
        assert("silence"@.len() == 7);
        assert("topic_change"@.len() == 12);
        assert("over_answer"@.len() == 11);
    }
}

#[derive(Debug, Clone, Copy, PartialEq, Eq, Hash, Structural)]
pub enum RevisionFlag {
    TellingNotShowing,
    VoiceContractFail,
    PivotUnclear,
    SubtextMissing,
    PacingDrag,
    ContinuityBreak,
}

impl SnakeName for RevisionFlag {
    open spec fn spec_name(self) -> Seq<char> {
        match self {
            RevisionFlag::TellingNotShowing => "telling_not_showing"@,
            RevisionFlag::VoiceContractFail => "voice_contract_fail"@,
            RevisionFlag::PivotUnclear => "pivot_unclear"@,
            RevisionFlag::SubtextMissing => "subtext_missing"@,
            RevisionFlag::PacingDrag => "pacing_drag"@,
            RevisionFlag::ContinuityBreak => "continuity_break"@,
        }
    }

    fn name(&self) -> (r: &'static str) {
        match self {
            RevisionFlag::TellingNotShowing => "telling_not_showing",
            RevisionFlag::VoiceContractFail => "voice_contract_fail",
            RevisionFlag::PivotUnclear => "pivot_unclear",
            RevisionFlag::SubtextMissing => "subtext_missing",
            RevisionFlag::PacingDrag => "pacing_drag",
            RevisionFlag::ContinuityBreak => "continuity_break",
        }
    }

    fn from_name(s: &str) -> (r: Option<Self>) {
        let r = if str_eq(s, "telling_not_showing") {
            Some(RevisionFlag::TellingNotShowing)
        } else if str_eq(s, "voice_contract_fail") {
            Some(RevisionFlag::VoiceContractFail)
        } else if str_eq(s, "pivot_unclear") {
            Some(RevisionFlag::PivotUnclear)
        } else if str_eq(s, "subtext_missing") {
            Some(RevisionFlag::SubtextMissing)
        } else if str_eq(s, "pacing_drag") {
            Some(RevisionFlag::PacingDrag)
        } else if str_eq(s, "continuity_break") {
            Some(RevisionFlag::ContinuityBreak)
        } else {
            None
        };
        r
    }

    proof fn lemma_name_injective(a: Self, b: Self) {
        reveal_strlit("telling_not_showing");
        reveal_strlit("voice_contract_fail");
        reveal_strlit("pivot_unclear");
        reveal_strlit("subtext_missing");
        reveal_strlit("pacing_drag");
        reveal_strlit("continuity_break");
        assert("telling_not_showing"@.len() == 19 && "telling_not_showing"@[0] == 't');
        assert("voice_contract_fail"@.len() == 19 && "voice_contract_fail"@[0] == 'v');
        assert("pivot_unclear"@.len() == 13);
        assert("subtext_missing"@.len() == 15);
        assert("pacing_drag"@.len() == 11);
        assert("continuity_break"@.len() == 16);
    }
}

#[derive(Debug, Clone, Copy, PartialEq, Eq, Hash, Structural)]
pub enum SegmentType {
    Narration,
    Dialogue,
    AiSpeech,
}

impl SnakeName for SegmentType {
    open spec fn spec_name(self) -> Seq<char> {
        match self {
            SegmentType::Narration => "narration"@,
            SegmentType::Dialogue => "dialogue"@,
            SegmentType::AiSpeech => "ai_speech"@,
        }
    }

    fn name(&self) -> (r: &'static str) {
        match self {
            SegmentType::Narration => "narration",
            SegmentType::Dialogue => "dialogue",
            SegmentType::AiSpeech => "ai_speech",
        }
    }

    fn from_name(s: &str) -> (r: Option<Self>) {
        let r = if str_eq(s, "narration") {
            Some(SegmentType::Narration)
        } else if str_eq(s, "dialogue") {
            Some(SegmentType::Dialogue)
        } else if str_eq(s, "ai_speech") {
            Some(SegmentType::AiSpeech)
        } else {
            None
        };
        r
    }

    proof fn lemma_name_injective(a: Self, b: Self) {
        reveal_strlit("narration");
        reveal_strlit("dialogue");
        reveal_strlit("ai_speech");
        assert("narration"@.len() == 9 && "narration"@[0] == 'n');
        assert("dialogue"@.len() == 8);
        assert("ai_speech"@.len() == 9 && "ai_speech"@[0] == 'a');
    }
}

#[derive(Debug, Clone, Copy, PartialEq, Eq, Hash, Structural)]
pub enum VoiceTone {
    Neutral,
    Urgent,
    Tense,
    Tender,
    Formal,
}

impl SnakeName for VoiceTone {
    open spec fn spec_name(self) -> Seq<char> {
        match self {
            VoiceTone::Neutral => "neutral"@,
            VoiceTone::Urgent => "urgent"@,
            VoiceTone::Tense => "tense"@,
            VoiceTone::Tender => "tender"@,
            VoiceTone::Formal => "formal"@,
        }
    }

    fn name(&self) -> (r: &'static str) {
        match self {
            VoiceTone::Neutral => "neutral",
            VoiceTone::Urgent => "urgent",
            VoiceTone::Tense => "tense",
            VoiceTone::Tender => "tender",
            VoiceTone::Formal => "formal",
        }
    }

    fn from_name(s: &str) -> (r: Option<Self>) {
        let r = if str_eq(s, "neutral") {
            Some(VoiceTone::Neutral)
        } else if str_eq(s, "urgent") {
            Some(VoiceTone::Urgent)
        } else if str_eq(s, "tense") {
            Some(VoiceTone::Tense)
        } else if str_eq(s, "tender") {
            Some(VoiceTone::Tender)
        } else if str_eq(s, "formal") {
            Some(VoiceTone::Formal)
        } else {
            None
        };
        r
    }

    proof fn lemma_name_injective(a: Self, b: Self) {
        reveal_strlit("neutral");
        reveal_strlit("urgent");
        reveal_strlit("tense");
        reveal_strlit("tender");
        reveal_strlit("formal");
        assert("neutral"@.len() == 7);
        assert("urgent"@.len() == 6 && "urgent"@[0] == 'u');
        assert("tense"@.len() == 5);
        assert("tender"@.len() == 6 && "tender"@[0] == 't');
        assert("formal"@.len() == 6 && "formal"@[0] == 'f');
    }
}

/// Audio priority setting for the oral-performance design.
#[derive(Debug, Clone, Copy, PartialEq, Eq, Hash, Structural)]
pub enum AudioPriority {
    Primary,
    Secondary,
    Equal,
}

impl SnakeName for AudioPriority {
    open spec fn spec_name(self) -> Seq<char> {
        match self {
            AudioPriority::Primary => "primary"@,
            AudioPriority::Secondary => "secondary"@,
            AudioPriority::Equal => "equal"@,
        }
    }

    fn name(&self) -> (r: &'static str) {
        match self {
            AudioPriority::Primary => "primary",
            AudioPriority::Secondary => "secondary",
            AudioPriority::Equal => "equal",
        }
    }

    fn from_name(s: &str) -> (r: Option<Self>) {
        let r = if str_eq(s, "primary") {
            Some(AudioPriority::Primary)
        } else if str_eq(s, "secondary") {
            Some(AudioPriority::Secondary)
        } else if str_eq(s, "equal") {
            Some(AudioPriority::Equal)
        } else {
            None
        };
        r
    }

    proof fn lemma_name_injective(a: Self, b: Self) {
        reveal_strlit("primary");
        reveal_strlit("secondary");
        reveal_strlit("equal");
        assert("primary"@.len() == 7);
        assert("secondary"@.len() == 9);
        assert("equal"@.len() == 5);
    }
}

/// Coarsened sentence architecture for oral/audiobook performance design.
///
/// This is a projection of `SentenceType` onto three oral-delivery shapes.
/// Use `SentenceType::architecture()` or `SentenceArchitecture::from(st)` to
/// derive this value from a fine-grained `SentenceType` rather than setting
/// it independently.
#[derive(Debug, Clone, Copy, PartialEq, Eq, Hash, Structural)]
pub enum SentenceArchitecture {
    Additive,
    Subordinative,
    /// All sentence types that mix or transcend the additive/subordinative split.
    Mixed,
}

impl SnakeName for SentenceArchitecture {
    open spec fn spec_name(self) -> Seq<char> {
        match self {
            SentenceArchitecture::Additive => "additive"@,
            SentenceArchitecture::Subordinative => "subordinative"@,
            SentenceArchitecture::Mixed => "mixed"@,
        }
    }

    fn name(&self) -> (r: &'static str) {
        match self {
            SentenceArchitecture::Additive => "additive",
            SentenceArchitecture::Subordinative => "subordinative",
            SentenceArchitecture::Mixed => "mixed",
        }
    }

    fn from_name(s: &str) -> (r: Option<Self>) {
        let r = if str_eq(s, "additive") {
            Some(SentenceArchitecture::Additive)
        } else if str_eq(s, "subordinative") {
            Some(SentenceArchitecture::Subordinative)
        } else if str_eq(s, "mixed") {
            Some(SentenceArchitecture::Mixed)
        } else {
            None
        };
        r
    }

    proof fn lemma_name_injective(a: Self, b: Self) {
        reveal_strlit("additive");
        reveal_strlit("subordinative");
        reveal_strlit("mixed");
        assert("additive"@.len() == 8);
        assert("subordinative"@.len() == 13);
        assert("mixed"@.len() == 5);
    }
}

#[derive(Debug, Clone, Copy, PartialEq, Eq, Hash, Structural)]
pub enum ParatextZone {
    Peritext,
    Title,
    Subtitle,
    Epigraph,
    Dedication,
    ChapterTitles,
    AuthorsNote,
    Footnote,
    Glossary,
    Appendix,
    Epitext,
}

impl SnakeName for ParatextZone {
    open spec fn spec_name(self) -> Seq<char> {
        match self {
            ParatextZone::Peritext => "peritext"@,
            ParatextZone::Title => "title"@,
            ParatextZone::Subtitle => "subtitle"@,
            ParatextZone::Epigraph => "epigraph"@,
            ParatextZone::Dedication => "dedication"@,
            ParatextZone::ChapterTitles => "chapter_titles"@,
            ParatextZone::AuthorsNote => "authors_note"@,
            ParatextZone::Footnote => "footnote"@,
            ParatextZone::Glossary => "glossary"@,
            ParatextZone::Appendix => "appendix"@,
            ParatextZone::Epitext => "epitext"@,
        }
    }

    fn name(&self) -> (r: &'static str) {
        match self {
            ParatextZone::Peritext => "peritext",
            ParatextZone::Title => "title",
            ParatextZone::Subtitle => "subtitle",
            ParatextZone::Epigraph => "epigraph",
            ParatextZone::Dedication => "dedication",
            ParatextZone::ChapterTitles => "chapter_titles",
            ParatextZone::AuthorsNote => "authors_note",
            ParatextZone::Footnote => "footnote",
            ParatextZone::Glossary => "glossary",
            ParatextZone::Appendix => "appendix",
            ParatextZone::Epitext => "epitext",
        }
    }

    fn from_name(s: &str) -> (r: Option<Self>) {
        let r = if str_eq(s, "peritext") {
            Some(ParatextZone::Peritext)
        } else if str_eq(s, "title") {
            Some(ParatextZone::Title)
        } else if str_eq(s, "subtitle") {
            Some(ParatextZone::Subtitle)
        } else if str_eq(s, "epigraph") {
            Some(ParatextZone::Epigraph)
        } else if str_eq(s, "dedication") {
            Some(ParatextZone::Dedication)
        } else if str_eq(s, "chapter_titles") {
            Some(ParatextZone::ChapterTitles)
        } else if str_eq(s, "authors_note") {
            Some(ParatextZone::AuthorsNote)
        } else if str_eq(s, "footnote") {
            Some(ParatextZone::Footnote)
        } else if str_eq(s, "glossary") {
            Some(ParatextZone::Glossary)
        } else if str_eq(s, "appendix") {
            Some(ParatextZone::Appendix)
        } else if str_eq(s, "epitext") {
            Some(ParatextZone::Epitext)
        } else {
            None
        };
        r
    }

    proof fn lemma_name_injective(a: Self, b: Self) {
        reveal_strlit("peritext");
        reveal_strlit("title");
        reveal_strlit("subtitle");
        reveal_strlit("epigraph");
        reveal_strlit("dedication");
        reveal_strlit("chapter_titles");
        reveal_strlit("authors_note");
        reveal_strlit("footnote");
        reveal_strlit("glossary");
        reveal_strlit("appendix");
        reveal_strlit("epitext");
        assert("peritext"@.len() == 8 && "peritext"@[0] == 'p');
        assert("title"@.len() == 5);
        assert("subtitle"@.len() == 8 && "subtitle"@[0] == 's');
        assert("epigraph"@.len() == 8 && "epigraph"@[0] == 'e');
        assert("dedication"@.len() == 10);
        assert("chapter_titles"@.len() == 14);
        assert("authors_note"@.len() == 12);
        assert("footnote"@.len() == 8 && "footnote"@[0] == 'f');
        assert("glossary"@.len() == 8 && "glossary"@[0] == 'g');
        assert("appendix"@.len() == 8 && "appendix"@[0] == 'a');
        assert("epitext"@.len() == 7);
    }
}

#[derive(Debug, Clone, Copy, PartialEq, Eq, Hash, Structural)]
pub enum SessionStatus {
    DraftingNew,
    Revising,
    Outlining,
    Research,
    Other,
}

impl SnakeName for SessionStatus {
    open spec fn spec_name(self) -> Seq<char> {
        match self {
            SessionStatus::DraftingNew => "drafting_new"@,
            SessionStatus::Revising => "revising"@,
            SessionStatus::Outlining => "outlining"@,
            SessionStatus::Research => "research"@,
            SessionStatus::Other => "other"@,
        }
    }

    fn name(&self) -> (r: &'static str) {
        match self {
            SessionStatus::DraftingNew => "drafting_new",
            SessionStatus::Revising => "revising",
            SessionStatus::Outlining => "outlining",
            SessionStatus::Research => "research",
            SessionStatus::Other => "other",
        }
    }

    fn from_name(s: &str) -> (r: Option<Self>) {
        let r = if str_eq(s, "drafting_new") {
            Some(SessionStatus::DraftingNew)
        } else if str_eq(s, "revising") {
            Some(SessionStatus::Revising)
        } else if str_eq(s, "outlining") {
            Some(SessionStatus::Outlining)
        } else if str_eq(s, "research") {
            Some(SessionStatus::Research)
        } else if str_eq(s, "other") {
            Some(SessionStatus::Other)
        } else {
            None
        };
        r
    }

    proof fn lemma_name_injective(a: Self, b: Self) {
        reveal_strlit("drafting_new");
        reveal_strlit("revising");
        reveal_strlit("outlining");
        reveal_strlit("research");
        reveal_strlit("other");
        assert("drafting_new"@.len() == 12);
        assert("revising"@.len() == 8 && "revising"@[2] == 'v');
        assert("outlining"@.len() == 9);
        assert("research"@.len() == 8 && "research"@[2] == 's');
        assert("other"@.len() == 5);
    }
}

#[derive(Debug, Clone, Copy, PartialEq, Eq, Hash, Structural)]
pub enum SessionDifficulty {
    Easy,
    Moderate,
    Hard,
}

impl SnakeName for SessionDifficulty {
    open spec fn spec_name(self) -> Seq<char> {
        match self {
            SessionDifficulty::Easy => "easy"@,
            SessionDifficulty::Moderate => "moderate"@,
            SessionDifficulty::Hard => "hard"@,
        }
    }

    fn name(&self) -> (r: &'static str) {
        match self {
            SessionDifficulty::Easy => "easy",
            SessionDifficulty::Moderate => "moderate",
            SessionDifficulty::Hard => "hard",
        }
    }

    fn from_name(s: &str) -> (r: Option<Self>) {
        let r = if str_eq(s, "easy") {
            Some(SessionDifficulty::Easy)
        } else if str_eq(s, "moderate") {
            Some(SessionDifficulty::Moderate)
        } else if str_eq(s, "hard") {
            Some(SessionDifficulty::Hard)
        } else {
            None
        };
        r
    }

    proof fn lemma_name_injective(a: Self, b: Self) {
        reveal_strlit("easy");
        reveal_strlit("moderate");
        reveal_strlit("hard");
        assert("easy"@.len() == 4 && "easy"@[0] == 'e');
        assert("moderate"@.len() == 8);
        assert("hard"@.len() == 4 && "hard"@[0] == 'h');
    }
}

#[derive(Debug, Clone, Copy, PartialEq, Eq, Hash, Structural)]
pub enum CraftRating {
    Strong,
    Adequate,
    Weak,
}

impl SnakeName for CraftRating {
    open spec fn spec_name(self) -> Seq<char> {
        match self {
            CraftRating::Strong => "strong"@,
            CraftRating::Adequate => "adequate"@,
            CraftRating::Weak => "weak"@,
        }
    }

    fn name(&self) -> (r: &'static str) {
        match self {
            CraftRating::Strong => "strong",
            CraftRating::Adequate => "adequate",
            CraftRating::Weak => "weak",
        }
    }

    fn from_name(s: &str) -> (r: Option<Self>) {
        let r = if str_eq(s, "strong") {
            Some(CraftRating::Strong)
        } else if str_eq(s, "adequate") {
            Some(CraftRating::Adequate)
        } else if str_eq(s, "weak") {
            Some(CraftRating::Weak)
        } else {
            None
        };
        r
    }

    proof fn lemma_name_injective(a: Self, b: Self) {
        reveal_strlit("strong");
        reveal_strlit("adequate");
        reveal_strlit("weak");
        assert("strong"@.len() == 6);
        assert("adequate"@.len() == 8);
        assert("weak"@.len() == 4);
    }
}

#[derive(Debug, Clone, Copy, PartialEq, Eq, Hash, Structural)]
pub enum PromiseStatus {
    Open,
    Developing,
    Answered,
    Abandoned,
}

impl SnakeName for PromiseStatus {
    open spec fn spec_name(self) -> Seq<char> {
        match self {
            PromiseStatus::Open => "open"@,
            PromiseStatus::Developing => "developing"@,
            PromiseStatus::Answered => "answered"@,
            PromiseStatus::Abandoned => "abandoned"@,
        }
    }

    fn name(&self) -> (r: &'static str) {
        match self {
            PromiseStatus::Open => "open",
            PromiseStatus::Developing => "developing",
            PromiseStatus::Answered => "answered",
            PromiseStatus::Abandoned => "abandoned",
        }
    }

    fn from_name(s: &str) -> (r: Option<Self>) {
        let r = if str_eq(s, "open") {
            Some(PromiseStatus::Open)
        } else if str_eq(s, "developing") {
            Some(PromiseStatus::Developing)
        } else if str_eq(s, "answered") {
            Some(PromiseStatus::Answered)
        } else if str_eq(s, "abandoned") {
            Some(PromiseStatus::Abandoned)
        } else {
            None
        };
        r
    }

    proof fn lemma_name_injective(a: Self, b: Self) {
        reveal_strlit("open");
        reveal_strlit("developing");
        reveal_strlit("answered");
        reveal_strlit("abandoned");
        assert("open"@.len() == 4);
        assert("developing"@.len() == 10);
        assert("answered"@.len() == 8);
        assert("abandoned"@.len() == 9);
    }
}

#[derive(Debug, Clone, Copy, PartialEq, Eq, Hash, Structural)]
pub enum PromisePhase {
    Plant,
    Reminder,
    Payoff,
}

impl SnakeName for PromisePhase {
    open spec fn spec_name(self) -> Seq<char> {
        match self {
            PromisePhase::Plant => "plant"@,
            PromisePhase::Reminder => "reminder"@,
            PromisePhase::Payoff => "payoff"@,
        }
    }

    fn name(&self) -> (r: &'static str) {
        match self {
            PromisePhase::Plant => "plant",
            PromisePhase::Reminder => "reminder",
            PromisePhase::Payoff => "payoff",
        }
    }

    fn from_name(s: &str) -> (r: Option<Self>) {
        let r = if str_eq(s, "plant") {
            Some(PromisePhase::Plant)
        } else if str_eq(s, "reminder") {
            Some(PromisePhase::Reminder)
        } else if str_eq(s, "payoff") {
            Some(PromisePhase::Payoff)
        } else {
            None
        };
        r
    }

    proof fn lemma_name_injective(a: Self, b: Self) {
        reveal_strlit("plant");
        reveal_strlit("reminder");
        reveal_strlit("payoff");
        assert("plant"@.len() == 5);
        assert("reminder"@.len() == 8);
        assert("payoff"@.len() == 6);
    }
}

#[derive(Debug, Clone, Copy, PartialEq, Eq, Hash, Structural)]
pub enum Act {
    ActOne,
    ActTwo,
    ActTwoA,
    ActTwoB,
    ActThree,
}

impl SnakeName for Act {
    open spec fn spec_name(self) -> Seq<char> {
        match self {
            Act::ActOne => "act_one"@,
            Act::ActTwo => "act_two"@,
            Act::ActTwoA => "act_two_a"@,
            Act::ActTwoB => "act_two_b"@,
            Act::ActThree => "act_three"@,
        }
    }

    fn name(&self) -> (r: &'static str) {
        match self {
            Act::ActOne => "act_one",
            Act::ActTwo => "act_two",
            Act::ActTwoA => "act_two_a",
            Act::ActTwoB => "act_two_b",
            Act::ActThree => "act_three",
        }
    }

    fn from_name(s: &str) -> (r: Option<Self>) {
        let r = if str_eq(s, "act_one") {
            Some(Act::ActOne)
        } else if str_eq(s, "act_two") {
            Some(Act::ActTwo)
        } else if str_eq(s, "act_two_a") {
            Some(Act::ActTwoA)
        } else if str_eq(s, "act_two_b") {
            Some(Act::ActTwoB)
        } else if str_eq(s, "act_three") {
            Some(Act::ActThree)
        } else {
            None
        };
        r
    }

    proof fn lemma_name_injective(a: Self, b: Self) {
        reveal_strlit("act_one");
        reveal_strlit("act_two");
        reveal_strlit("act_two_a");
        reveal_strlit("act_two_b");
        reveal_strlit("act_three");
        assert("act_one"@.len() == 7 && "act_one"@[4] == 'o');
        assert("act_two"@.len() == 7 && "act_two"@[4] == 't');
        assert("act_two_a"@.len() == 9 && "act_two_a"@[5] == 'w' && "act_two_a"@[8] == 'a');
        assert("act_two_b"@.len() == 9 && "act_two_b"@[5] == 'w' && "act_two_b"@[8] == 'b');
        assert("act_three"@.len() == 9 && "act_three"@[5] == 'h');
    }
}

/// Genette *Narrative Discourse* (1972): temporal ORDER — the relation between
/// story-time sequence and discourse-time sequence.
#[derive(Debug, Clone, Copy, PartialEq, Eq, Hash, Structural)]
pub enum TemporalOrder {
    /// Default: story sequence == discourse sequence.
    Chronological,
    /// Flashback — discourse moves backward in story time.
    Analepsis,
    /// Flash-forward — discourse anticipates future events.
    Prolepsis,
    /// Story begins at a point of action; prior context delivered through analepsis.
    InMediasRes,
}

impl SnakeName for TemporalOrder {
    open spec fn spec_name(self) -> Seq<char> {
        match self {
            TemporalOrder::Chronological => "chronological"@,
            TemporalOrder::Analepsis => "analepsis"@,
            TemporalOrder::Prolepsis => "prolepsis"@,
            TemporalOrder::InMediasRes => "in_medias_res"@,
        }
    }

    fn name(&self) -> (r: &'static str) {
        match self {
            TemporalOrder::Chronological => "chronological",
            TemporalOrder::Analepsis => "analepsis",
            TemporalOrder::Prolepsis => "prolepsis",
            TemporalOrder::InMediasRes => "in_medias_res",
        }
    }

    fn from_name(s: &str) -> (r: Option<Self>) {
        let r = if str_eq(s, "chronological") {
            Some(TemporalOrder::Chronological)
        } else if str_eq(s, "analepsis") {
            Some(TemporalOrder::Analepsis)
        } else if str_eq(s, "prolepsis") {
            Some(TemporalOrder::Prolepsis)
        } else if str_eq(s, "in_medias_res") {
            Some(TemporalOrder::InMediasRes)
        } else {
            None
        };
        r
    }

    proof fn lemma_name_injective(a: Self, b: Self) {
        reveal_strlit("chronological");
        reveal_strlit("analepsis");
        reveal_strlit("prolepsis");
        reveal_strlit("in_medias_res");
        assert("chronological"@.len() == 13 && "chronological"@[0] == 'c');
        assert("analepsis"@.len() == 9 && "analepsis"@[0] == 'a');
        assert("prolepsis"@.len() == 9 && "prolepsis"@[0] == 'p');
        assert("in_medias_res"@.len() == 13 && "in_medias_res"@[0] == 'i');
    }
}

/// Genette: temporal DURATION — the ratio of narrative time to story time.
#[derive(Debug, Clone, Copy, PartialEq, Eq, Hash, Structural)]
pub enum TemporalDuration {
    /// Gap — time passes with zero narrative space (chapter breaks, omitted events).
    Ellipsis,
    /// Events compressed; narrative time < story time.
    Summary,
    /// Roughly equal pacing: narrative time ≈ story time (dialogue, action).
    Scene,
    /// Slow-down; narrative time > story time (stream of consciousness, lyric).
    Stretch,
    /// Story time halts entirely; static description or meditation.
    Pause,
}

impl SnakeName for TemporalDuration {
    open spec fn spec_name(self) -> Seq<char> {
        match self {
            TemporalDuration::Ellipsis => "ellipsis"@,
            TemporalDuration::Summary => "summary"@,
            TemporalDuration::Scene => "scene"@,
            TemporalDuration::Stretch => "stretch"@,
            TemporalDuration::Pause => "pause"@,
        }
    }

    fn name(&self) -> (r: &'static str) {
        match self {
            TemporalDuration::Ellipsis => "ellipsis",
            TemporalDuration::Summary => "summary",
            TemporalDuration::Scene => "scene",
            TemporalDuration::Stretch => "stretch",
            TemporalDuration::Pause => "pause",
        }
    }

    fn from_name(s: &str) -> (r: Option<Self>) {
        let r = if str_eq(s, "ellipsis") {
            Some(TemporalDuration::Ellipsis)
        } else if str_eq(s, "summary") {
            Some(TemporalDuration::Summary)
        } else if str_eq(s, "scene") {
            Some(TemporalDuration::Scene)
        } else if str_eq(s, "stretch") {
            Some(TemporalDuration::Stretch)
        } else if str_eq(s, "pause") {
            Some(TemporalDuration::Pause)
        } else {
            None
        };
        r
    }

    proof fn lemma_name_injective(a: Self, b: Self) {
        reveal_strlit("ellipsis");
        reveal_strlit("summary");
        reveal_strlit("scene");
        reveal_strlit("stretch");
        reveal_strlit("pause");
        assert("ellipsis"@.len() == 8);
        assert("summary"@.len() == 7 && "summary"@[1] == 'u');
        assert("scene"@.len() == 5 && "scene"@[0] == 's');
        assert("stretch"@.len() == 7 && "stretch"@[1] == 't');
        assert("pause"@.len() == 5 && "pause"@[0] == 'p');
    }
}

/// Genette: temporal FREQUENCY — how many times an event is narrated.
#[derive(Debug, Clone, Copy, PartialEq, Eq, Hash, Structural)]
pub enum TemporalFrequency {
    /// One event told once. Default.
    Singulative,
    /// One narration represents a class of repeated events ("every morning she…").
    Iterative,
    /// The same event narrated more than once, from different angles (*Rashomon*, *As I Lay Dying*).
    Repetitive,
    /// The same *type* of event told each time it occurs, building an escalating series.
    CumulativeSingulative,
}

impl SnakeName for TemporalFrequency {
    open spec fn spec_name(self) -> Seq<char> {
        match self {
            TemporalFrequency::Singulative => "singulative"@,
            TemporalFrequency::Iterative => "iterative"@,
            TemporalFrequency::Repetitive => "repetitive"@,
            TemporalFrequency::CumulativeSingulative => "cumulative_singulative"@,
        }
    }

    fn name(&self) -> (r: &'static str) {
        match self {
            TemporalFrequency::Singulative => "singulative",
            TemporalFrequency::Iterative => "iterative",
            TemporalFrequency::Repetitive => "repetitive",
            TemporalFrequency::CumulativeSingulative => "cumulative_singulative",
        }
    }

    fn from_name(s: &str) -> (r: Option<Self>) {
        let r = if str_eq(s, "singulative") {
            Some(TemporalFrequency::Singulative)
        } else if str_eq(s, "iterative") {
            Some(TemporalFrequency::Iterative)
        } else if str_eq(s, "repetitive") {
            Some(TemporalFrequency::Repetitive)
        } else if str_eq(s, "cumulative_singulative") {
            Some(TemporalFrequency::CumulativeSingulative)
        } else {
            None
        };
        r
    }

    proof fn lemma_name_injective(a: Self, b: Self) {
        reveal_strlit("singulative");
        reveal_strlit("iterative");
        reveal_strlit("repetitive");
        reveal_strlit("cumulative_singulative");
        assert("singulative"@.len() == 11);
        assert("iterative"@.len() == 9);
        assert("repetitive"@.len() == 10);
        assert("cumulative_singulative"@.len() == 22);
    }
}

/// Sternberg *Expositional Modes and Temporal Ordering in Fiction* (1978) /
/// Iser *The Act of Reading* (1978): the primary effects of narrative information management.
#[derive(Debug, Clone, Copy, PartialEq, Eq, Hash, Structural)]
pub enum ReaderExperienceEffect {
    /// Reader doesn't know what happened in the past — withheld backstory.
    Curiosity,
    /// Reader doesn't know what will happen — uncertain future outcome.
    Suspense,
    /// Reader held a confident belief that turns out to be wrong.
    Surprise,
    /// Reader actively fills interpretive gaps (Iser indeterminacy).
    GapFilling,
    /// Reader knows something a character doesn't — structural dramatic irony.
    DramaticIrony,
}

impl SnakeName for ReaderExperienceEffect {
    open spec fn spec_name(self) -> Seq<char> {
        match self {
            ReaderExperienceEffect::Curiosity => "curiosity"@,
            ReaderExperienceEffect::Suspense => "suspense"@,
            ReaderExperienceEffect::Surprise => "surprise"@,
            ReaderExperienceEffect::GapFilling => "gap_filling"@,
            ReaderExperienceEffect::DramaticIrony => "dramatic_irony"@,
        }
    }

    fn name(&self) -> (r: &'static str) {
        match self {
            ReaderExperienceEffect::Curiosity => "curiosity",
            ReaderExperienceEffect::Suspense => "suspense",
            ReaderExperienceEffect::Surprise => "surprise",
            ReaderExperienceEffect::GapFilling => "gap_filling",
            ReaderExperienceEffect::DramaticIrony => "dramatic_irony",
        }
    }

    fn from_name(s: &str) -> (r: Option<Self>) {
        let r = if str_eq(s, "curiosity") {
            Some(ReaderExperienceEffect::Curiosity)
        } else if str_eq(s, "suspense") {
            Some(ReaderExperienceEffect::Suspense)
        } else if str_eq(s, "surprise") {
            Some(ReaderExperienceEffect::Surprise)
        } else if str_eq(s, "gap_filling") {
            Some(ReaderExperienceEffect::GapFilling)
        } else if str_eq(s, "dramatic_irony") {
            Some(ReaderExperienceEffect::DramaticIrony)
        } else {
            None
        };
        r
    }

    proof fn lemma_name_injective(a: Self, b: Self) {
        reveal_strlit("curiosity");
        reveal_strlit("suspense");
        reveal_strlit("surprise");
        reveal_strlit("gap_filling");
        reveal_strlit("dramatic_irony");
        assert("curiosity"@.len() == 9);
        assert("suspense"@.len() == 8 && "suspense"@[2] == 's');
        assert("surprise"@.len() == 8 && "surprise"@[2] == 'r');
        assert("gap_filling"@.len() == 11);
        assert("dramatic_irony"@.len() == 14);
    }
}

/// Genette *Palimpsests* (1982): the five types of transtextual relation.
#[derive(Debug, Clone, Copy, PartialEq, Eq, Hash, Structural)]
pub enum IntertextualRelation {
    /// Co-presence: quotation, allusion, plagiarism.
    Intertextuality,
    /// Threshold relation: titles, prefaces, epigraphs, blurbs.
    Paratextuality,
    /// Commentary: a text commenting on another (criticism, gloss, review).
    Metatextuality,
    /// Transformation: hypertext derived from a hypotext (parody, pastiche, adaptation).
    Hypertextuality,
    /// Taxonomic: unmarked architectural relation to genre and archetype.
    Architextuality,
}

impl SnakeName for IntertextualRelation {
    open spec fn spec_name(self) -> Seq<char> {
        match self {
            IntertextualRelation::Intertextuality => "intertextuality"@,
            IntertextualRelation::Paratextuality => "paratextuality"@,
            IntertextualRelation::Metatextuality => "metatextuality"@,
            IntertextualRelation::Hypertextuality => "hypertextuality"@,
            IntertextualRelation::Architextuality => "architextuality"@,
        }
    }

    fn name(&self) -> (r: &'static str) {
        match self {
            IntertextualRelation::Intertextuality => "intertextuality",
            IntertextualRelation::Paratextuality => "paratextuality",
            IntertextualRelation::Metatextuality => "metatextuality",
            IntertextualRelation::Hypertextuality => "hypertextuality",
            IntertextualRelation::Architextuality => "architextuality",
        }
    }

    fn from_name(s: &str) -> (r: Option<Self>) {
        let r = if str_eq(s, "intertextuality") {
            Some(IntertextualRelation::Intertextuality)
        } else if str_eq(s, "paratextuality") {
            Some(IntertextualRelation::Paratextuality)
        } else if str_eq(s, "metatextuality") {
            Some(IntertextualRelation::Metatextuality)
        } else if str_eq(s, "hypertextuality") {
            Some(IntertextualRelation::Hypertextuality)
        } else if str_eq(s, "architextuality") {
            Some(IntertextualRelation::Architextuality)
        } else {
            None
        };
        r
    }

    proof fn lemma_name_injective(a: Self, b: Self) {
        reveal_strlit("intertextuality");
        reveal_strlit("paratextuality");
        reveal_strlit("metatextuality");
        reveal_strlit("hypertextuality");
        reveal_strlit("architextuality");
        assert("intertextuality"@.len() == 15 && "intertextuality"@[0] == 'i');
        assert("paratextuality"@.len() == 14 && "paratextuality"@[0] == 'p');
        assert("metatextuality"@.len() == 14 && "metatextuality"@[0] == 'm');
        assert("hypertextuality"@.len() == 15 && "hypertextuality"@[0] == 'h');
        assert("architextuality"@.len() == 15 && "architextuality"@[0] == 'a');
    }
}

/// Bloom *The Anxiety of Influence* (1973): six revisionary ratios by which a
/// later writer wrestles free from a precursor.
#[derive(Debug, Clone, Copy, PartialEq, Eq, Hash, Structural)]
pub enum BloomInfluenceMode {
    /// Swerve — creative misreading that opens a new poetic space.
    Clinamen,
    /// Antithetical completion — extending or "completing" the precursor's work.
    Tessera,
    /// Discontinuity — emptying out the precursor's claim on the sublime.
    Kenosis,
    /// Counter-sublime — demonizing the precursor's strength as a defense.
    Daemonization,
    /// Purgation — self-curtailment to separate the self from the precursor.
    Askesis,
    /// Return — the later poem seems to have been anticipated by the precursor.
    Apophrades,
}

impl SnakeName for BloomInfluenceMode {
    open spec fn spec_name(self) -> Seq<char> {
        match self {
            BloomInfluenceMode::Clinamen => "clinamen"@,
            BloomInfluenceMode::Tessera => "tessera"@,
            BloomInfluenceMode::Kenosis => "kenosis"@,
            BloomInfluenceMode::Daemonization => "daemonization"@,
            BloomInfluenceMode::Askesis => "askesis"@,
            BloomInfluenceMode::Apophrades => "apophrades"@,
        }
    }

    fn name(&self) -> (r: &'static str) {
        match self {
            BloomInfluenceMode::Clinamen => "clinamen",
            BloomInfluenceMode::Tessera => "tessera",
            BloomInfluenceMode::Kenosis => "kenosis",
            BloomInfluenceMode::Daemonization => "daemonization",
            BloomInfluenceMode::Askesis => "askesis",
            BloomInfluenceMode::Apophrades => "apophrades",
        }
    }

    fn from_name(s: &str) -> (r: Option<Self>) {
        let r = if str_eq(s, "clinamen") {
            Some(BloomInfluenceMode::Clinamen)
        } else if str_eq(s, "tessera") {
            Some(BloomInfluenceMode::Tessera)
        } else if str_eq(s, "kenosis") {
            Some(BloomInfluenceMode::Kenosis)
        } else if str_eq(s, "daemonization") {
            Some(BloomInfluenceMode::Daemonization)
        } else if str_eq(s, "askesis") {
            Some(BloomInfluenceMode::Askesis)
        } else if str_eq(s, "apophrades") {
            Some(BloomInfluenceMode::Apophrades)
        } else {
            None
        };
        r
    }

    proof fn lemma_name_injective(a: Self, b: Self) {
        reveal_strlit("clinamen");
        reveal_strlit("tessera");
        reveal_strlit("kenosis");
        reveal_strlit("daemonization");
        reveal_strlit("askesis");
        reveal_strlit("apophrades");
        assert("clinamen"@.len() == 8);
        assert("tessera"@.len() == 7 && "tessera"@[0] == 't');
        assert("kenosis"@.len() == 7 && "kenosis"@[0] == 'k');
        assert("daemonization"@.len() == 13);
        assert("askesis"@.len() == 7 && "askesis"@[0] == 'a');
        assert("apophrades"@.len() == 10);
    }
}

/// Figurative language type; anchors to Lakoff/Johnson, Richards, and Black
/// frameworks in `07-drafting/theory-reference/metaphor-and-figurative-language.md`.
#[derive(Debug, Clone, Copy, PartialEq, Eq, Hash, Structural)]
pub enum MetaphorType {
    /// Lakoff/Johnson: one conceptual domain understood through another (ARGUMENT IS WAR).
    Conceptual,
    /// Fossilized; figurative origin no longer recognized ("leg" of a table).
    Dead,
    /// Two incompatible metaphors conflated in the same phrase.
    Mixed,
    /// Sustained and developed at significant length.
    Extended,
    /// Elaborate, often paradoxical extended metaphor (Donne, Herbert).
    Conceit,
    /// Explicit comparison using "like" or "as".
    Simile,
    /// Part stands for whole, or whole for part.
    Synecdoche,
    /// Adjacent concept substituted for the intended referent (crown for royalty).
    Metonymy,
    /// Abstract or non-human entity given human qualities.
    Personification,
    /// Speaker addresses an absent, dead, or non-human entity.
    Apostrophe,
}

impl SnakeName for MetaphorType {
    open spec fn spec_name(self) -> Seq<char> {
        match self {
            MetaphorType::Conceptual => "conceptual"@,
            MetaphorType::Dead => "dead"@,
            MetaphorType::Mixed => "mixed"@,
            MetaphorType::Extended => "extended"@,
            MetaphorType::Conceit => "conceit"@,
            MetaphorType::Simile => "simile"@,
            MetaphorType::Synecdoche => "synecdoche"@,
            MetaphorType::Metonymy => "metonymy"@,
            MetaphorType::Personification => "personification"@,
            MetaphorType::Apostrophe => "apostrophe"@,
        }
    }

    fn name(&self) -> (r: &'static str) {
        match self {
            MetaphorType::Conceptual => "conceptual",
            MetaphorType::Dead => "dead",
            MetaphorType::Mixed => "mixed",
            MetaphorType::Extended => "extended",
            MetaphorType::Conceit => "conceit",
            MetaphorType::Simile => "simile",
            MetaphorType::Synecdoche => "synecdoche",
            MetaphorType::Metonymy => "metonymy",
            MetaphorType::Personification => "personification",
            MetaphorType::Apostrophe => "apostrophe",
        }
    }

    fn from_name(s: &str) -> (r: Option<Self>) {
        let r = if str_eq(s, "conceptual") {
            Some(MetaphorType::Conceptual)
        } else if str_eq(s, "dead") {
            Some(MetaphorType::Dead)
        } else if str_eq(s, "mixed") {
            Some(MetaphorType::Mixed)
        } else if str_eq(s, "extended") {
            Some(MetaphorType::Extended)
        } else if str_eq(s, "conceit") {
            Some(MetaphorType::Conceit)
        } else if str_eq(s, "simile") {
            Some(MetaphorType::Simile)
        } else if str_eq(s, "synecdoche") {
            Some(MetaphorType::Synecdoche)
        } else if str_eq(s, "metonymy") {
            Some(MetaphorType::Metonymy)
        } else if str_eq(s, "personification") {
            Some(MetaphorType::Personification)
        } else if str_eq(s, "apostrophe") {
            Some(MetaphorType::Apostrophe)
        } else {
            None
        };
        r
    }

    proof fn lemma_name_injective(a: Self, b: Self) {
        reveal_strlit("conceptual");
        reveal_strlit("dead");
        reveal_strlit("mixed");
        reveal_strlit("extended");
        reveal_strlit("conceit");
        reveal_strlit("simile");
        reveal_strlit("synecdoche");
        reveal_strlit("metonymy");
        reveal_strlit("personification");
        reveal_strlit("apostrophe");
        assert("conceptual"@.len() == 10 && "conceptual"@[0] == 'c');
        assert("dead"@.len() == 4);
        assert("mixed"@.len() == 5);
        assert("extended"@.len() == 8 && "extended"@[0] == 'e');
        assert("conceit"@.len() == 7);
        assert("simile"@.len() == 6);
        assert("synecdoche"@.len() == 10 && "synecdoche"@[0] == 's');
        assert("metonymy"@.len() == 8 && "metonymy"@[0] == 'm');
        assert("personification"@.len() == 15);
        assert("apostrophe"@.len() == 10 && "apostrophe"@[0] == 'a');
    }
}

/// Booth/Hutcheon irony taxonomy (v3.0.7 aligned)
#[derive(Debug, Clone, Copy, PartialEq, Eq, Hash, Structural)]
pub enum IronyType {
    /// Saying the opposite of what you mean; sarcasm, understatement, litotes
    Verbal,
    /// Events contradict reasonable expectations (the fire station burns down)
    Situational,
    /// Audience knows something a character doesn't (Shakespeare, most thrillers)
    Dramatic,
    /// The text's structure undermines or ironizes its apparent argument
    StructuralIrony,
    /// Fate or the universe mocks human aspiration; cosmic scale
    Cosmic,
    /// Feigning ignorance to expose another's foolishness (Columbo, Socrates)
    Socratic,
    /// Author breaks the fictional frame to comment on the narrative's artificiality
    Romantic,
    /// No irony marked
    Absent,
}

impl SnakeName for IronyType {
    open spec fn spec_name(self) -> Seq<char> {
        match self {
            IronyType::Verbal => "verbal"@,
            IronyType::Situational => "situational"@,
            IronyType::Dramatic => "dramatic"@,
            IronyType::StructuralIrony => "structural"@,
            IronyType::Cosmic => "cosmic"@,
            IronyType::Socratic => "socratic"@,
            IronyType::Romantic => "romantic"@,
            IronyType::Absent => "none"@,
        }
    }

    fn name(&self) -> (r: &'static str) {
        match self {
            IronyType::Verbal => "verbal",
            IronyType::Situational => "situational",
            IronyType::Dramatic => "dramatic",
            IronyType::StructuralIrony => "structural",
            IronyType::Cosmic => "cosmic",
            IronyType::Socratic => "socratic",
            IronyType::Romantic => "romantic",
            IronyType::Absent => "none",
        }
    }

    fn from_name(s: &str) -> (r: Option<Self>) {
        let r = if str_eq(s, "verbal") {
            Some(IronyType::Verbal)
        } else if str_eq(s, "situational") {
            Some(IronyType::Situational)
        } else if str_eq(s, "dramatic") {
            Some(IronyType::Dramatic)
        } else if str_eq(s, "structural") {
            Some(IronyType::StructuralIrony)
        } else if str_eq(s, "cosmic") {
            Some(IronyType::Cosmic)
        } else if str_eq(s, "socratic") {
            Some(IronyType::Socratic)
        } else if str_eq(s, "romantic") {
            Some(IronyType::Romantic)
        } else if str_eq(s, "none") {
            Some(IronyType::Absent)
        } else {
            None
        };
        r
    }

    proof fn lemma_name_injective(a: Self, b: Self) {
        reveal_strlit("verbal");
        reveal_strlit("situational");
        reveal_strlit("dramatic");
        reveal_strlit("structural");
        reveal_strlit("cosmic");
        reveal_strlit("socratic");
        reveal_strlit("romantic");
        reveal_strlit("none");
        assert("verbal"@.len() == 6 && "verbal"@[0] == 'v');
        assert("situational"@.len() == 11);
        assert("dramatic"@.len() == 8 && "dramatic"@[0] == 'd');
        assert("structural"@.len() == 10);
        assert("cosmic"@.len() == 6 && "cosmic"@[0] == 'c');
        assert("socratic"@.len() == 8 && "socratic"@[0] == 's');
        assert("romantic"@.len() == 8 && "romantic"@[0] == 'r');
        assert("none"@.len() == 4);
    }
}

/// Comic mode — which register of humor defines a story or passage (v3.0.7 aligned)
#[derive(Debug, Clone, Copy, PartialEq, Eq, Hash, Structural)]
pub enum ComicMode {
    /// Critiques institutions, ideologies, or human folly from a superior external position
    Satire,
    /// Exposes the gap between social performance and private reality (Austen, Wilde)
    Manners,
    /// Physical comedy, improbable situations, escalating chaos (Wodehouse, Feydeau)
    Farce,
    /// Humor drawn from dark, painful, or taboo material
    DarkComedy,
    /// The world itself is irrational; logic fails (Beckett, Ionesco)
    Absurdist,
    /// An outsider/rogue moves through society, exposing its contradictions
    Picaresque,
    /// Love story where humor arises from misunderstanding, denial, and social performance
    RomanticComedy,
    /// Humor delivered without any signal that it's funny
    Deadpan,
    /// No comic mode marked
    Absent,
}

impl SnakeName for ComicMode {
    open spec fn spec_name(self) -> Seq<char> {
        match self {
            ComicMode::Satire => "satire"@,
            ComicMode::Manners => "manners"@,
            ComicMode::Farce => "farce"@,
            ComicMode::DarkComedy => "dark_comedy"@,
            ComicMode::Absurdist => "absurdist"@,
            ComicMode::Picaresque => "picaresque"@,
            ComicMode::RomanticComedy => "romantic_comedy"@,
            ComicMode::Deadpan => "deadpan"@,
            ComicMode::Absent => "none"@,
        }
    }

    fn name(&self) -> (r: &'static str) {
        match self {
            ComicMode::Satire => "satire",
            ComicMode::Manners => "manners",
            ComicMode::Farce => "farce",
            ComicMode::DarkComedy => "dark_comedy",
            ComicMode::Absurdist => "absurdist",
            ComicMode::Picaresque => "picaresque",
            ComicMode::RomanticComedy => "romantic_comedy",
            ComicMode::Deadpan => "deadpan",
            ComicMode::Absent => "none",
        }
    }

    fn from_name(s: &str) -> (r: Option<Self>) {
        let r = if str_eq(s, "satire") {
            Some(ComicMode::Satire)
        } else if str_eq(s, "manners") {
            Some(ComicMode::Manners)
        } else if str_eq(s, "farce") {
            Some(ComicMode::Farce)
        } else if str_eq(s, "dark_comedy") {
            Some(ComicMode::DarkComedy)
        } else if str_eq(s, "absurdist") {
            Some(ComicMode::Absurdist)
        } else if str_eq(s, "picaresque") {
            Some(ComicMode::Picaresque)
        } else if str_eq(s, "romantic_comedy") {
            Some(ComicMode::RomanticComedy)
        } else if str_eq(s, "deadpan") {
            Some(ComicMode::Deadpan)
        } else if str_eq(s, "none") {
            Some(ComicMode::Absent)
        } else {
            None
        };
        r
    }

    proof fn lemma_name_injective(a: Self, b: Self) {
        reveal_strlit("satire");
        reveal_strlit("manners");
        reveal_strlit("farce");
        reveal_strlit("dark_comedy");
        reveal_strlit("absurdist");
        reveal_strlit("picaresque");
        reveal_strlit("romantic_comedy");
        reveal_strlit("deadpan");
        reveal_strlit("none");
        assert("satire"@.len() == 6);
        assert("manners"@.len() == 7 && "manners"@[0] == 'm');
        assert("farce"@.len() == 5);
        assert("dark_comedy"@.len() == 11);
        assert("absurdist"@.len() == 9);
        assert("picaresque"@.len() == 10);
        assert("romantic_comedy"@.len() == 15);
        assert("deadpan"@.len() == 7 && "deadpan"@[0] == 'd');
        assert("none"@.len() == 4);
    }
}

/// Ahmed/Berlant affect theory: textual affect operating in scene (v3.0.8)
#[derive(Debug, Clone, Copy, PartialEq, Eq, Hash, Structural)]
pub enum TextualAffectType {
    /// Attachment to object/fantasy that actively impedes flourishing (Berlant)
    CruelOptimism,
    /// Emotion adheres to objects, accretes over time, circulates (Ahmed)
    AffectiveStickiness,
    /// Minor affects — envy, anxiety, irritation — vs. grand passions (Ngai)
    UglyFeelings,
    /// Attrition of life under late capitalism; ordinary crisis (Berlant)
    SlowDeath,
    /// Suspension of agency; stuck between old and new forms (Berlant)
    Impasse,
    /// Loss of bearings, spatial/temporal confusion (Ahmed)
    Disorientation,
    /// No textual affect type marked
    Absent,
}

impl SnakeName for TextualAffectType {
    open spec fn spec_name(self) -> Seq<char> {
        match self {
            TextualAffectType::CruelOptimism => "cruel_optimism"@,
            TextualAffectType::AffectiveStickiness => "affective_stickiness"@,
            TextualAffectType::UglyFeelings => "ugly_feelings"@,
            TextualAffectType::SlowDeath => "slow_death"@,
            TextualAffectType::Impasse => "impasse"@,
            TextualAffectType::Disorientation => "disorientation"@,
            TextualAffectType::Absent => "none"@,
        }
    }

    fn name(&self) -> (r: &'static str) {
        match self {
            TextualAffectType::CruelOptimism => "cruel_optimism",
            TextualAffectType::AffectiveStickiness => "affective_stickiness",
            TextualAffectType::UglyFeelings => "ugly_feelings",
            TextualAffectType::SlowDeath => "slow_death",
            TextualAffectType::Impasse => "impasse",
            TextualAffectType::Disorientation => "disorientation",
            TextualAffectType::Absent => "none",
        }
    }

    fn from_name(s: &str) -> (r: Option<Self>) {
        let r = if str_eq(s, "cruel_optimism") {
            Some(TextualAffectType::CruelOptimism)
        } else if str_eq(s, "affective_stickiness") {
            Some(TextualAffectType::AffectiveStickiness)
        } else if str_eq(s, "ugly_feelings") {
            Some(TextualAffectType::UglyFeelings)
        } else if str_eq(s, "slow_death") {
            Some(TextualAffectType::SlowDeath)
        } else if str_eq(s, "impasse") {
            Some(TextualAffectType::Impasse)
        } else if str_eq(s, "disorientation") {
            Some(TextualAffectType::Disorientation)
        } else if str_eq(s, "none") {
            Some(TextualAffectType::Absent)
        } else {
            None
        };
        r
    }

    proof fn lemma_name_injective(a: Self, b: Self) {
        reveal_strlit("cruel_optimism");
        reveal_strlit("affective_stickiness");
        reveal_strlit("ugly_feelings");
        reveal_strlit("slow_death");
        reveal_strlit("impasse");
        reveal_strlit("disorientation");
        reveal_strlit("none");
        assert("cruel_optimism"@.len() == 14 && "cruel_optimism"@[0] == 'c');
        assert("affective_stickiness"@.len() == 20);
        assert("ugly_feelings"@.len() == 13);
        assert("slow_death"@.len() == 10);
        assert("impasse"@.len() == 7);
        assert("disorientation"@.len() == 14 && "disorientation"@[0] == 'd');
        assert("none"@.len() == 4);
    }
}

/// Richardson unnatural narratology: anti-mimetic techniques (v3.0.8)
#[derive(Debug, Clone, Copy, PartialEq, Eq, Hash, Structural)]
pub enum AntiMimeticTechnique {
    /// Dead, unborn, or omniscient first-person narrator (impossible epistemic access)
    ImpossibleNarrator,
    /// Events are negated or un-happen after being narrated
    Denarration,
    /// Logical impossibilities coexist in the storyworld
    ContradictoryStoryworld,
    /// Time runs backward, scrambled, or acausal
    AntiTemporal,
    /// Multiple incompatible versions of events presented
    Permutation,
    /// "You" as protagonist creates defamiliarization
    SecondPersonAntiMimetic,
    /// No anti-mimetic technique
    Absent,
}

impl SnakeName for AntiMimeticTechnique {
    open spec fn spec_name(self) -> Seq<char> {
        match self {
            AntiMimeticTechnique::ImpossibleNarrator => "impossible_narrator"@,
            AntiMimeticTechnique::Denarration => "denarration"@,
            AntiMimeticTechnique::ContradictoryStoryworld => "contradictory_storyworld"@,
            AntiMimeticTechnique::AntiTemporal => "anti_temporal"@,
            AntiMimeticTechnique::Permutation => "permutation"@,
            AntiMimeticTechnique::SecondPersonAntiMimetic => "second_person_anti_mimetic"@,
            AntiMimeticTechnique::Absent => "none"@,
        }
    }

    fn name(&self) -> (r: &'static str) {
        match self {
            AntiMimeticTechnique::ImpossibleNarrator => "impossible_narrator",
            AntiMimeticTechnique::Denarration => "denarration",
            AntiMimeticTechnique::ContradictoryStoryworld => "contradictory_storyworld",
            AntiMimeticTechnique::AntiTemporal => "anti_temporal",
            AntiMimeticTechnique::Permutation => "permutation",
            AntiMimeticTechnique::SecondPersonAntiMimetic => "second_person_anti_mimetic",
            AntiMimeticTechnique::Absent => "none",
        }
    }

    fn from_name(s: &str) -> (r: Option<Self>) {
        let r = if str_eq(s, "impossible_narrator") {
            Some(AntiMimeticTechnique::ImpossibleNarrator)
        } else if str_eq(s, "denarration") {
            Some(AntiMimeticTechnique::Denarration)
        } else if str_eq(s, "contradictory_storyworld") {
            Some(AntiMimeticTechnique::ContradictoryStoryworld)
        } else if str_eq(s, "anti_temporal") {
            Some(AntiMimeticTechnique::AntiTemporal)
        } else if str_eq(s, "permutation") {
            Some(AntiMimeticTechnique::Permutation)
        } else if str_eq(s, "second_person_anti_mimetic") {
            Some(AntiMimeticTechnique::SecondPersonAntiMimetic)
        } else if str_eq(s, "none") {
            Some(AntiMimeticTechnique::Absent)
        } else {
            None
        };
        r
    }

    proof fn lemma_name_injective(a: Self, b: Self) {
        reveal_strlit("impossible_narrator");
        reveal_strlit("denarration");
        reveal_strlit("contradictory_storyworld");
        reveal_strlit("anti_temporal");
        reveal_strlit("permutation");
        reveal_strlit("second_person_anti_mimetic");
        reveal_strlit("none");
        assert("impossible_narrator"@.len() == 19);
        assert("denarration"@.len() == 11 && "denarration"@[0] == 'd');
        assert("contradictory_storyworld"@.len() == 24);
        assert("anti_temporal"@.len() == 13);
        assert("permutation"@.len() == 11 && "permutation"@[0] == 'p');
        assert("second_person_anti_mimetic"@.len() == 26);
        assert("none"@.len() == 4);
    }
}

/// Chatman kernel/satellite distinction for event significance (v3.0.8)
#[derive(Debug, Clone, Copy, PartialEq, Eq, Hash, Structural)]
pub enum EventSignificance {
    /// Plot-changing event; cannot be removed without altering story logic
    Kernel,
    /// Texture/elaboration; can be removed without changing plot
    Satellite,
}

impl SnakeName for EventSignificance {
    open spec fn spec_name(self) -> Seq<char> {
        match self {
            EventSignificance::Kernel => "kernel"@,
            EventSignificance::Satellite => "satellite"@,
        }
    }

    fn name(&self) -> (r: &'static str) {
        match self {
            EventSignificance::Kernel => "kernel",
            EventSignificance::Satellite => "satellite",
        }
    }

    fn from_name(s: &str) -> (r: Option<Self>) {
        let r = if str_eq(s, "kernel") {
            Some(EventSignificance::Kernel)
        } else if str_eq(s, "satellite") {
            Some(EventSignificance::Satellite)
        } else {
            None
        };
        r
    }

    proof fn lemma_name_injective(a: Self, b: Self) {
        reveal_strlit("kernel");
        reveal_strlit("satellite");
        assert("kernel"@.len() == 6);
        assert("satellite"@.len() == 9);
    }
}

/// Prince narratee types (v3.0.9)
#[derive(Debug, Clone, Copy, PartialEq, Eq, Hash, Structural)]
pub enum NarrateeType {
    /// Named or directly addressed within the text
    Explicit,
    /// Constructed by narration but not named
    Implicit,
    /// Narratee as character with reactions/responses
    Dramatized,
    /// Unmarked, universal reader position
    ZeroDegree,
    /// No narratee marked
    Absent,
}

impl SnakeName for NarrateeType {
    open spec fn spec_name(self) -> Seq<char> {
        match self {
            NarrateeType::Explicit => "explicit"@,
            NarrateeType::Implicit => "implicit"@,
            NarrateeType::Dramatized => "dramatized"@,
            NarrateeType::ZeroDegree => "zero_degree"@,
            NarrateeType::Absent => "none"@,
        }
    }

    fn name(&self) -> (r: &'static str) {
        match self {
            NarrateeType::Explicit => "explicit",
            NarrateeType::Implicit => "implicit",
            NarrateeType::Dramatized => "dramatized",
            NarrateeType::ZeroDegree => "zero_degree",
            NarrateeType::Absent => "none",
        }
    }

    fn from_name(s: &str) -> (r: Option<Self>) {
        let r = if str_eq(s, "explicit") {
            Some(NarrateeType::Explicit)
        } else if str_eq(s, "implicit") {
            Some(NarrateeType::Implicit)
        } else if str_eq(s, "dramatized") {
            Some(NarrateeType::Dramatized)
        } else if str_eq(s, "zero_degree") {
            Some(NarrateeType::ZeroDegree)
        } else if str_eq(s, "none") {
            Some(NarrateeType::Absent)
        } else {
            None
        };
        r
    }

    proof fn lemma_name_injective(a: Self, b: Self) {
        reveal_strlit("explicit");
        reveal_strlit("implicit");
        reveal_strlit("dramatized");
        reveal_strlit("zero_degree");
        reveal_strlit("none");
        assert("explicit"@.len() == 8 && "explicit"@[0] == 'e');
        assert("implicit"@.len() == 8 && "implicit"@[0] == 'i');
        assert("dramatized"@.len() == 10);
        assert("zero_degree"@.len() == 11);
        assert("none"@.len() == 4);
    }
}

/// Burke Pentad focus (v3.0.9)
#[derive(Debug, Clone, Copy, PartialEq, Eq, Hash, Structural)]
pub enum PentadFocus {
    /// What happened — the action itself dominates
    Act,
    /// Where/when — setting as determinant
    Scene,
    /// Who did it — character agency dominates
    Agent,
    /// How/by what means — method, instrument
    Agency,
    /// Why — motivation, intention, goal
    Purpose,
}

impl SnakeName for PentadFocus {
    open spec fn spec_name(self) -> Seq<char> {
        match self {
            PentadFocus::Act => "act"@,
            PentadFocus::Scene => "scene"@,
            PentadFocus::Agent => "agent"@,
            PentadFocus::Agency => "agency"@,
            PentadFocus::Purpose => "purpose"@,
        }
    }

    fn name(&self) -> (r: &'static str) {
        match self {
            PentadFocus::Act => "act",
            PentadFocus::Scene => "scene",
            PentadFocus::Agent => "agent",
            PentadFocus::Agency => "agency",
            PentadFocus::Purpose => "purpose",
        }
    }

    fn from_name(s: &str) -> (r: Option<Self>) {
        let r = if str_eq(s, "act") {
            Some(PentadFocus::Act)
        } else if str_eq(s, "scene") {
            Some(PentadFocus::Scene)
        } else if str_eq(s, "agent") {
            Some(PentadFocus::Agent)
        } else if str_eq(s, "agency") {
            Some(PentadFocus::Agency)
        } else if str_eq(s, "purpose") {
            Some(PentadFocus::Purpose)
        } else {
            None
        };
        r
    }

    proof fn lemma_name_injective(a: Self, b: Self) {
        reveal_strlit("act");
        reveal_strlit("scene");
        reveal_strlit("agent");
        reveal_strlit("agency");
        reveal_strlit("purpose");
        assert("act"@.len() == 3);
        assert("scene"@.len() == 5 && "scene"@[0] == 's');
        assert("agent"@.len() == 5 && "agent"@[0] == 'a');
        assert("agency"@.len() == 6);
        assert("purpose"@.len() == 7);
    }
}

/// Which theory of comedy *grounds* the humor — diagnostic, not mutually exclusive.
#[derive(Debug, Clone, Copy, PartialEq, Eq, Hash, Structural)]
pub enum ComedyTheory {
    /// Laughter from violated expectations (Kant, Schopenhauer, Kierkegaard).
    Incongruity,
    /// Laughter from superiority over a comic target (Hobbes, Bergson's "rigidity").
    Superiority,
    /// Laughter releases psychic tension; taboo content in safe form (Freud, Spencer).
    Relief,
}

impl SnakeName for ComedyTheory {
    open spec fn spec_name(self) -> Seq<char> {
        match self {
            ComedyTheory::Incongruity => "incongruity"@,
            ComedyTheory::Superiority => "superiority"@,
            ComedyTheory::Relief => "relief"@,
        }
    }

    fn name(&self) -> (r: &'static str) {
        match self {
            ComedyTheory::Incongruity => "incongruity",
            ComedyTheory::Superiority => "superiority",
            ComedyTheory::Relief => "relief",
        }
    }

    fn from_name(s: &str) -> (r: Option<Self>) {
        let r = if str_eq(s, "incongruity") {
            Some(ComedyTheory::Incongruity)
        } else if str_eq(s, "superiority") {
            Some(ComedyTheory::Superiority)
        } else if str_eq(s, "relief") {
            Some(ComedyTheory::Relief)
        } else {
            None
        };
        r
    }

    proof fn lemma_name_injective(a: Self, b: Self) {
        reveal_strlit("incongruity");
        reveal_strlit("superiority");
        reveal_strlit("relief");
        assert("incongruity"@.len() == 11 && "incongruity"@[0] == 'i');
        assert("superiority"@.len() == 11 && "superiority"@[0] == 's');
        assert("relief"@.len() == 6);
    }
}

/// LaCapra *Writing History, Writing Trauma* (2001) / Caruth (1996) /
/// Felman & Laub (1992): trauma as narrative form.
#[derive(Debug, Clone, Copy, PartialEq, Eq, Hash, Structural)]
pub enum TraumaMode {
    /// Trauma returns belatedly, fragmented and compulsive — not integrated (Caruth).
    Belatedness,
    /// Compulsive repetition without integration; the wound governs behavior (LaCapra).
    ActingOut,
    /// Conscious integration; the character begins to narrate and contextualize (LaCapra).
    WorkingThrough,
    /// Ethically attuned bearing of witness to another's trauma (Felman/Laub).
    Witnessing,
    /// Passive consumption of another's trauma — risks exploitation (Felman/Laub).
    Spectating,
}

impl SnakeName for TraumaMode {
    open spec fn spec_name(self) -> Seq<char> {
        match self {
            TraumaMode::Belatedness => "belatedness"@,
            TraumaMode::ActingOut => "acting_out"@,
            TraumaMode::WorkingThrough => "working_through"@,
            TraumaMode::Witnessing => "witnessing"@,
            TraumaMode::Spectating => "spectating"@,
        }
    }

    fn name(&self) -> (r: &'static str) {
        match self {
            TraumaMode::Belatedness => "belatedness",
            TraumaMode::ActingOut => "acting_out",
            TraumaMode::WorkingThrough => "working_through",
            TraumaMode::Witnessing => "witnessing",
            TraumaMode::Spectating => "spectating",
        }
    }

    fn from_name(s: &str) -> (r: Option<Self>) {
        let r = if str_eq(s, "belatedness") {
            Some(TraumaMode::Belatedness)
        } else if str_eq(s, "acting_out") {
            Some(TraumaMode::ActingOut)
        } else if str_eq(s, "working_through") {
            Some(TraumaMode::WorkingThrough)
        } else if str_eq(s, "witnessing") {
            Some(TraumaMode::Witnessing)
        } else if str_eq(s, "spectating") {
            Some(TraumaMode::Spectating)
        } else {
            None
        };
        r
    }

    proof fn lemma_name_injective(a: Self, b: Self) {
        reveal_strlit("belatedness");
        reveal_strlit("acting_out");
        reveal_strlit("working_through");
        reveal_strlit("witnessing");
        reveal_strlit("spectating");
        assert("belatedness"@.len() == 11);
        assert("acting_out"@.len() == 10 && "acting_out"@[0] == 'a');
        assert("working_through"@.len() == 15);
        assert("witnessing"@.len() == 10 && "witnessing"@[0] == 'w');
        assert("spectating"@.len() == 10 && "spectating"@[0] == 's');
    }
}

/// Herman *Trauma and Recovery* (1992): the three-stage recovery arc.
#[derive(Debug, Clone, Copy, PartialEq, Eq, Hash, Structural)]
pub enum HermanRecoveryStage {
    /// Establishing physical and psychological safety; stabilizing the survivor.
    Safety,
    /// Remembrance and mourning — constructing the narrative of the traumatic event.
    RemembranceAndMourning,
    /// Rebuilding a new life and a new relationship with the world.
    Reconnection,
}

impl SnakeName for HermanRecoveryStage {
    open spec fn spec_name(self) -> Seq<char> {
        match self {
            HermanRecoveryStage::Safety => "safety"@,
            HermanRecoveryStage::RemembranceAndMourning => "remembrance_and_mourning"@,
            HermanRecoveryStage::Reconnection => "reconnection"@,
        }
    }

    fn name(&self) -> (r: &'static str) {
        match self {
            HermanRecoveryStage::Safety => "safety",
            HermanRecoveryStage::RemembranceAndMourning => "remembrance_and_mourning",
            HermanRecoveryStage::Reconnection => "reconnection",
        }
    }

    fn from_name(s: &str) -> (r: Option<Self>) {
        let r = if str_eq(s, "safety") {
            Some(HermanRecoveryStage::Safety)
        } else if str_eq(s, "remembrance_and_mourning") {
            Some(HermanRecoveryStage::RemembranceAndMourning)
        } else if str_eq(s, "reconnection") {
            Some(HermanRecoveryStage::Reconnection)
        } else {
            None
        };
        r
    }

    proof fn lemma_name_injective(a: Self, b: Self) {
        reveal_strlit("safety");
        reveal_strlit("remembrance_and_mourning");
        reveal_strlit("reconnection");
        assert("safety"@.len() == 6);
        assert("remembrance_and_mourning"@.len() == 24);
        assert("reconnection"@.len() == 12);
    }
}

/// Burke *A Grammar of Motives* (1945): the five constitutive elements.
#[derive(Debug, Clone, Copy, PartialEq, Eq, Hash, Structural)]
pub enum PentadElement {
    /// What was done — the event, deed, or change.
    Act,
    /// Where/when it happened — context, environment, conditions.
    Scene,
    /// Who did it — the motive-bearer.
    Agent,
    /// How it was done — the means, instrument, or method.
    Agency,
    /// Why it was done — the value or goal at stake.
    Purpose,
}

impl SnakeName for PentadElement {
    open spec fn spec_name(self) -> Seq<char> {
        match self {
            PentadElement::Act => "act"@,
            PentadElement::Scene => "scene"@,
            PentadElement::Agent => "agent"@,
            PentadElement::Agency => "agency"@,
            PentadElement::Purpose => "purpose"@,
        }
    }

    fn name(&self) -> (r: &'static str) {
        match self {
            PentadElement::Act => "act",
            PentadElement::Scene => "scene",
            PentadElement::Agent => "agent",
            PentadElement::Agency => "agency",
            PentadElement::Purpose => "purpose",
        }
    }

    fn from_name(s: &str) -> (r: Option<Self>) {
        let r = if str_eq(s, "act") {
            Some(PentadElement::Act)
        } else if str_eq(s, "scene") {
            Some(PentadElement::Scene)
        } else if str_eq(s, "agent") {
            Some(PentadElement::Agent)
        } else if str_eq(s, "agency") {
            Some(PentadElement::Agency)
        } else if str_eq(s, "purpose") {
            Some(PentadElement::Purpose)
        } else {
            None
        };
        r
    }

    proof fn lemma_name_injective(a: Self, b: Self) {
        reveal_strlit("act");
        reveal_strlit("scene");
        reveal_strlit("agent");
        reveal_strlit("agency");
        reveal_strlit("purpose");
        assert("act"@.len() == 3);
        assert("scene"@.len() == 5 && "scene"@[0] == 's');
        assert("agent"@.len() == 5 && "agent"@[0] == 'a');
        assert("agency"@.len() == 6);
        assert("purpose"@.len() == 7);
    }
}

/// The *dominant ratio* in a character's implicit philosophy of action — which
/// pentadic element they privilege as the primary explanatory frame.
#[derive(Debug, Clone, Copy, PartialEq, Eq, Hash, Structural)]
pub enum PentadRatio {
    SceneAct,
    SceneAgent,
    SceneAgency,
    ScenePurpose,
    ActAgent,
    ActAgency,
    ActPurpose,
    AgentAgency,
    AgentPurpose,
    AgencyPurpose,
}

impl SnakeName for PentadRatio {
    open spec fn spec_name(self) -> Seq<char> {
        match self {
            PentadRatio::SceneAct => "scene_act"@,
            PentadRatio::SceneAgent => "scene_agent"@,
            PentadRatio::SceneAgency => "scene_agency"@,
            PentadRatio::ScenePurpose => "scene_purpose"@,
            PentadRatio::ActAgent => "act_agent"@,
            PentadRatio::ActAgency => "act_agency"@,
            PentadRatio::ActPurpose => "act_purpose"@,
            PentadRatio::AgentAgency => "agent_agency"@,
            PentadRatio::AgentPurpose => "agent_purpose"@,
            PentadRatio::AgencyPurpose => "agency_purpose"@,
        }
    }

    fn name(&self) -> (r: &'static str) {
        match self {
            PentadRatio::SceneAct => "scene_act",
            PentadRatio::SceneAgent => "scene_agent",
            PentadRatio::SceneAgency => "scene_agency",
            PentadRatio::ScenePurpose => "scene_purpose",
            PentadRatio::ActAgent => "act_agent",
            PentadRatio::ActAgency => "act_agency",
            PentadRatio::ActPurpose => "act_purpose",
            PentadRatio::AgentAgency => "agent_agency",
            PentadRatio::AgentPurpose => "agent_purpose",
            PentadRatio::AgencyPurpose => "agency_purpose",
        }
    }

    fn from_name(s: &str) -> (r: Option<Self>) {
        let r = if str_eq(s, "scene_act") {
            Some(PentadRatio::SceneAct)
        } else if str_eq(s, "scene_agent") {
            Some(PentadRatio::SceneAgent)
        } else if str_eq(s, "scene_agency") {
            Some(PentadRatio::SceneAgency)
        } else if str_eq(s, "scene_purpose") {
            Some(PentadRatio::ScenePurpose)
        } else if str_eq(s, "act_agent") {
            Some(PentadRatio::ActAgent)
        } else if str_eq(s, "act_agency") {
            Some(PentadRatio::ActAgency)
        } else if str_eq(s, "act_purpose") {
            Some(PentadRatio::ActPurpose)
        } else if str_eq(s, "agent_agency") {
            Some(PentadRatio::AgentAgency)
        } else if str_eq(s, "agent_purpose") {
            Some(PentadRatio::AgentPurpose)
        } else if str_eq(s, "agency_purpose") {
            Some(PentadRatio::AgencyPurpose)
        } else {
            None
        };
        r
    }

    proof fn lemma_name_injective(a: Self, b: Self) {
        reveal_strlit("scene_act");
        reveal_strlit("scene_agent");
        reveal_strlit("scene_agency");
        reveal_strlit("scene_purpose");
        reveal_strlit("act_agent");
        reveal_strlit("act_agency");
        reveal_strlit("act_purpose");
        reveal_strlit("agent_agency");
        reveal_strlit("agent_purpose");
        reveal_strlit("agency_purpose");
        assert("scene_act"@.len() == 9 && "scene_act"@[0] == 's');
        assert("scene_agent"@.len() == 11 && "scene_agent"@[0] == 's');
        assert("scene_agency"@.len() == 12 && "scene_agency"@[0] == 's');
        assert("scene_purpose"@.len() == 13 && "scene_purpose"@[0] == 's');
        assert("act_agent"@.len() == 9 && "act_agent"@[0] == 'a');
        assert("act_agency"@.len() == 10);
        assert("act_purpose"@.len() == 11 && "act_purpose"@[0] == 'a');
        assert("agent_agency"@.len() == 12 && "agent_agency"@[0] == 'a');
        assert("agent_purpose"@.len() == 13 && "agent_purpose"@[0] == 'a');
        assert("agency_purpose"@.len() == 14);
    }
}

/// Burke's four form types: how narrative creates and fulfills expectations.
#[derive(Debug, Clone, Copy, PartialEq, Eq, Hash, Structural)]
pub enum BurkeFormType {
    /// Creates and fulfills desire in sequence (syllogistic or qualitative progression).
    Progressive,
    /// The same gesture repeated with variations.
    Repetitive,
    /// Satisfies expectations the genre or form itself has already established.
    Conventional,
    /// Local devices: antithesis, chiasmus, alliteration — not architectural.
    Minor,
}

impl SnakeName for BurkeFormType {
    open spec fn spec_name(self) -> Seq<char> {
        match self {
            BurkeFormType::Progressive => "progressive"@,
            BurkeFormType::Repetitive => "repetitive"@,
            BurkeFormType::Conventional => "conventional"@,
            BurkeFormType::Minor => "minor"@,
        }
    }

    fn name(&self) -> (r: &'static str) {
        match self {
            BurkeFormType::Progressive => "progressive",
            BurkeFormType::Repetitive => "repetitive",
            BurkeFormType::Conventional => "conventional",
            BurkeFormType::Minor => "minor",
        }
    }

    fn from_name(s: &str) -> (r: Option<Self>) {
        let r = if str_eq(s, "progressive") {
            Some(BurkeFormType::Progressive)
        } else if str_eq(s, "repetitive") {
            Some(BurkeFormType::Repetitive)
        } else if str_eq(s, "conventional") {
            Some(BurkeFormType::Conventional)
        } else if str_eq(s, "minor") {
            Some(BurkeFormType::Minor)
        } else {
            None
        };
        r
    }

    proof fn lemma_name_injective(a: Self, b: Self) {
        reveal_strlit("progressive");
        reveal_strlit("repetitive");
        reveal_strlit("conventional");
        reveal_strlit("minor");
        assert("progressive"@.len() == 11);
        assert("repetitive"@.len() == 10);
        assert("conventional"@.len() == 12);
        assert("minor"@.len() == 5);
    }
}

/// Hayden White *Metahistory* (1973) / Frye *Anatomy of Criticism* (1957):
/// the four emplotment types (mythoi) available to narrative.
#[derive(Debug, Clone, Copy, PartialEq, Eq, Hash, Structural)]
pub enum EmplotmentType {
    /// Protagonist triumphs over the world; quest, redemption, wish-fulfillment.
    Romance,
    /// Protagonist falls; fatal flaw, inexorable consequence, catharsis.
    Tragedy,
    /// Hero integrates with society; reconciliation, renewal, festive ending.
    Comedy,
    /// Ironic distance on the other three; skepticism, ambiguity, deflation.
    Satire,
}

impl SnakeName for EmplotmentType {
    open spec fn spec_name(self) -> Seq<char> {
        match self {
            EmplotmentType::Romance => "romance"@,
            EmplotmentType::Tragedy => "tragedy"@,
            EmplotmentType::Comedy => "comedy"@,
            EmplotmentType::Satire => "satire"@,
        }
    }

    fn name(&self) -> (r: &'static str) {
        match self {
            EmplotmentType::Romance => "romance",
            EmplotmentType::Tragedy => "tragedy",
            EmplotmentType::Comedy => "comedy",
            EmplotmentType::Satire => "satire",
        }
    }

    fn from_name(s: &str) -> (r: Option<Self>) {
        let r = if str_eq(s, "romance") {
            Some(EmplotmentType::Romance)
        } else if str_eq(s, "tragedy") {
            Some(EmplotmentType::Tragedy)
        } else if str_eq(s, "comedy") {
            Some(EmplotmentType::Comedy)
        } else if str_eq(s, "satire") {
            Some(EmplotmentType::Satire)
        } else {
            None
        };
        r
    }

    proof fn lemma_name_injective(a: Self, b: Self) {
        reveal_strlit("romance");
        reveal_strlit("tragedy");
        reveal_strlit("comedy");
        reveal_strlit("satire");
        assert("romance"@.len() == 7 && "romance"@[0] == 'r');
        assert("tragedy"@.len() == 7 && "tragedy"@[0] == 't');
        assert("comedy"@.len() == 6 && "comedy"@[0] == 'c');
        assert("satire"@.len() == 6 && "satire"@[0] == 's');
    }
}

/// Ricoeur *Time and Narrative* vol. 1 (1984): the three-phase mimesis cycle.
#[derive(Debug, Clone, Copy, PartialEq, Eq, Hash, Structural)]
pub enum MimesisPhase {
    /// Pre-understanding of human action; the symbolic field the author draws on.
    Prefiguration,
    /// The narrative text itself; emplotment that mediates reality and imagination.
    Configuration,
    /// The reader's reception; the text realized in lived experience and action.
    Refiguration,
}

impl SnakeName for MimesisPhase {
    open spec fn spec_name(self) -> Seq<char> {
        match self {
            MimesisPhase::Prefiguration => "prefiguration"@,
            MimesisPhase::Configuration => "configuration"@,
            MimesisPhase::Refiguration => "refiguration"@,
        }
    }

    fn name(&self) -> (r: &'static str) {
        match self {
            MimesisPhase::Prefiguration => "prefiguration",
            MimesisPhase::Configuration => "configuration",
            MimesisPhase::Refiguration => "refiguration",
        }
    }

    fn from_name(s: &str) -> (r: Option<Self>) {
        let r = if str_eq(s, "prefiguration") {
            Some(MimesisPhase::Prefiguration)
        } else if str_eq(s, "configuration") {
            Some(MimesisPhase::Configuration)
        } else if str_eq(s, "refiguration") {
            Some(MimesisPhase::Refiguration)
        } else {
            None
        };
        r
    }

    proof fn lemma_name_injective(a: Self, b: Self) {
        reveal_strlit("prefiguration");
        reveal_strlit("configuration");
        reveal_strlit("refiguration");
        assert("prefiguration"@.len() == 13 && "prefiguration"@[0] == 'p');
        assert("configuration"@.len() == 13 && "configuration"@[0] == 'c');
        assert("refiguration"@.len() == 12);
    }
}

/// Doležel *Heterocosmica* (1998): accessibility relations that govern which
/// possible states can coexist within a fictional universe.
#[derive(Debug, Clone, Copy, PartialEq, Eq, Hash, Structural)]
pub enum AccessibilityRelation {
    /// Laws of nature and logical possibility ("can this happen in this world?").
    Alethic,
    /// What characters know, believe, or are deceived about.
    Epistemic,
    /// What is permitted, forbidden, or obligated in the storyworld.
    Deontic,
    /// What is good, bad, beautiful, or worthy of praise.
    Axiological,
}

impl SnakeName for AccessibilityRelation {
    open spec fn spec_name(self) -> Seq<char> {
        match self {
            AccessibilityRelation::Alethic => "alethic"@,
            AccessibilityRelation::Epistemic => "epistemic"@,
            AccessibilityRelation::Deontic => "deontic"@,
            AccessibilityRelation::Axiological => "axiological"@,
        }
    }

    fn name(&self) -> (r: &'static str) {
        match self {
            AccessibilityRelation::Alethic => "alethic",
            AccessibilityRelation::Epistemic => "epistemic",
            AccessibilityRelation::Deontic => "deontic",
            AccessibilityRelation::Axiological => "axiological",
        }
    }

    fn from_name(s: &str) -> (r: Option<Self>) {
        let r = if str_eq(s, "alethic") {
            Some(AccessibilityRelation::Alethic)
        } else if str_eq(s, "epistemic") {
            Some(AccessibilityRelation::Epistemic)
        } else if str_eq(s, "deontic") {
            Some(AccessibilityRelation::Deontic)
        } else if str_eq(s, "axiological") {
            Some(AccessibilityRelation::Axiological)
        } else {
            None
        };
        r
    }

    proof fn lemma_name_injective(a: Self, b: Self) {
        reveal_strlit("alethic");
        reveal_strlit("epistemic");
        reveal_strlit("deontic");
        reveal_strlit("axiological");
        assert("alethic"@.len() == 7 && "alethic"@[0] == 'a');
        assert("epistemic"@.len() == 9);
        assert("deontic"@.len() == 7 && "deontic"@[0] == 'd');
        assert("axiological"@.len() == 11);
    }
}

/// Venuti *The Translator's Invisibility* (1995): the core translation tension.
#[derive(Debug, Clone, Copy, PartialEq, Eq, Hash, Structural)]
pub enum TranslationStrategy {
    /// Smooths foreign elements; reads as if originally in the target language.
    Domestication,
    /// Preserves foreign texture; the translation feels like it comes from elsewhere.
    Foreignization,
}

impl SnakeName for TranslationStrategy {
    open spec fn spec_name(self) -> Seq<char> {
        match self {
            TranslationStrategy::Domestication => "domestication"@,
            TranslationStrategy::Foreignization => "foreignization"@,
        }
    }

    fn name(&self) -> (r: &'static str) {
        match self {
            TranslationStrategy::Domestication => "domestication",
            TranslationStrategy::Foreignization => "foreignization",
        }
    }

    fn from_name(s: &str) -> (r: Option<Self>) {
        let r = if str_eq(s, "domestication") {
            Some(TranslationStrategy::Domestication)
        } else if str_eq(s, "foreignization") {
            Some(TranslationStrategy::Foreignization)
        } else {
            None
        };
        r
    }

    proof fn lemma_name_injective(a: Self, b: Self) {
        reveal_strlit("domestication");
        reveal_strlit("foreignization");
        assert("domestication"@.len() == 13);
        assert("foreignization"@.len() == 14);
    }
}

/// Craft-level rendering strategy for a multilingual character's non-dominant language.
#[derive(Debug, Clone, Copy, PartialEq, Eq, Hash, Structural)]
pub enum MultilingualStrategy {
    /// Reproduce the original language verbatim; assumes bilingual reader.
    NativeScript,
    /// Translate directly; linguistic difference is invisible.
    Translation,
    /// Reproduce with a gloss in brackets or italics immediately after.
    Gloss,
    /// Phonetic transcription conveys sound without intelligibility.
    Phonetic,
    /// Italicize to signal foreignness without translating.
    Italics,
}

impl SnakeName for MultilingualStrategy {
    open spec fn spec_name(self) -> Seq<char> {
        match self {
            MultilingualStrategy::NativeScript => "native_script"@,
            MultilingualStrategy::Translation => "translation"@,
            MultilingualStrategy::Gloss => "gloss"@,
            MultilingualStrategy::Phonetic => "phonetic"@,
            MultilingualStrategy::Italics => "italics"@,
        }
    }

    fn name(&self) -> (r: &'static str) {
        match self {
            MultilingualStrategy::NativeScript => "native_script",
            MultilingualStrategy::Translation => "translation",
            MultilingualStrategy::Gloss => "gloss",
            MultilingualStrategy::Phonetic => "phonetic",
            MultilingualStrategy::Italics => "italics",
        }
    }

    fn from_name(s: &str) -> (r: Option<Self>) {
        let r = if str_eq(s, "native_script") {
            Some(MultilingualStrategy::NativeScript)
        } else if str_eq(s, "translation") {
            Some(MultilingualStrategy::Translation)
        } else if str_eq(s, "gloss") {
            Some(MultilingualStrategy::Gloss)
        } else if str_eq(s, "phonetic") {
            Some(MultilingualStrategy::Phonetic)
        } else if str_eq(s, "italics") {
            Some(MultilingualStrategy::Italics)
        } else {
            None
        };
        r
    }

    proof fn lemma_name_injective(a: Self, b: Self) {
        reveal_strlit("native_script");
        reveal_strlit("translation");
        reveal_strlit("gloss");
        reveal_strlit("phonetic");
        reveal_strlit("italics");
        assert("native_script"@.len() == 13);
        assert("translation"@.len() == 11);
        assert("gloss"@.len() == 5);
        assert("phonetic"@.len() == 8);
        assert("italics"@.len() == 7);
    }
}

/// McCloud *Understanding Comics* (1993): six panel-to-panel transition types.
#[derive(Debug, Clone, Copy, PartialEq, Eq, Hash, Structural)]
pub enum PanelTransitionType {
    /// Two panels show a single moment from slightly different angles.
    MomentToMoment,
    /// A single subject in continuous action across two panels.
    ActionToAction,
    /// Different subjects within the same scene.
    SubjectToSubject,
    /// A shot change to a different scene, location, or time.
    SceneToScene,
    /// Different aspects of a place or mood; no advancing action.
    AspectToAspect,
    /// No logical relationship — pure stylistic or conceptual jump.
    NonSequitur,
}

impl SnakeName for PanelTransitionType {
    open spec fn spec_name(self) -> Seq<char> {
        match self {
            PanelTransitionType::MomentToMoment => "moment_to_moment"@,
            PanelTransitionType::ActionToAction => "action_to_action"@,
            PanelTransitionType::SubjectToSubject => "subject_to_subject"@,
            PanelTransitionType::SceneToScene => "scene_to_scene"@,
            PanelTransitionType::AspectToAspect => "aspect_to_aspect"@,
            PanelTransitionType::NonSequitur => "non_sequitur"@,
        }
    }

    fn name(&self) -> (r: &'static str) {
        match self {
            PanelTransitionType::MomentToMoment => "moment_to_moment",
            PanelTransitionType::ActionToAction => "action_to_action",
            PanelTransitionType::SubjectToSubject => "subject_to_subject",
            PanelTransitionType::SceneToScene => "scene_to_scene",
            PanelTransitionType::AspectToAspect => "aspect_to_aspect",
            PanelTransitionType::NonSequitur => "non_sequitur",
        }
    }

    fn from_name(s: &str) -> (r: Option<Self>) {
        let r = if str_eq(s, "moment_to_moment") {
            Some(PanelTransitionType::MomentToMoment)
        } else if str_eq(s, "action_to_action") {
            Some(PanelTransitionType::ActionToAction)
        } else if str_eq(s, "subject_to_subject") {
            Some(PanelTransitionType::SubjectToSubject)
        } else if str_eq(s, "scene_to_scene") {
            Some(PanelTransitionType::SceneToScene)
        } else if str_eq(s, "aspect_to_aspect") {
            Some(PanelTransitionType::AspectToAspect)
        } else if str_eq(s, "non_sequitur") {
            Some(PanelTransitionType::NonSequitur)
        } else {
            None
        };
        r
    }

    proof fn lemma_name_injective(a: Self, b: Self) {
        reveal_strlit("moment_to_moment");
        reveal_strlit("action_to_action");
        reveal_strlit("subject_to_subject");
        reveal_strlit("scene_to_scene");
        reveal_strlit("aspect_to_aspect");
        reveal_strlit("non_sequitur");
        assert("moment_to_moment"@.len() == 16 && "moment_to_moment"@[0] == 'm');
        assert("action_to_action"@.len() == 16 && "action_to_action"@[0] == 'a' && "action_to_action"@[1] == 'c');
        assert("subject_to_subject"@.len() == 18);
        assert("scene_to_scene"@.len() == 14);
        assert("aspect_to_aspect"@.len() == 16 && "aspect_to_aspect"@[0] == 'a' && "aspect_to_aspect"@[1] == 's');
        assert("non_sequitur"@.len() == 12);
    }
}

/// Chute *Graphic Women* (2010): modes of visual-verbal relationship in
/// graphic narrative.
#[derive(Debug, Clone, Copy, PartialEq, Eq, Hash, Structural)]
pub enum VisualVerbalRelation {
    /// Words and pictures say essentially the same thing.
    Parallel,
    /// Each reinforces the other; together they say more.
    Additive,
    /// Words and pictures work in interdependence; neither alone conveys the full meaning.
    Interdependent,
    /// Words and pictures contradict or ironize each other.
    Contrapuntal,
}

impl SnakeName for VisualVerbalRelation {
    open spec fn spec_name(self) -> Seq<char> {
        match self {
            VisualVerbalRelation::Parallel => "parallel"@,
            VisualVerbalRelation::Additive => "additive"@,
            VisualVerbalRelation::Interdependent => "interdependent"@,
            VisualVerbalRelation::Contrapuntal => "contrapuntal"@,
        }
    }

    fn name(&self) -> (r: &'static str) {
        match self {
            VisualVerbalRelation::Parallel => "parallel",
            VisualVerbalRelation::Additive => "additive",
            VisualVerbalRelation::Interdependent => "interdependent",
            VisualVerbalRelation::Contrapuntal => "contrapuntal",
        }
    }

    fn from_name(s: &str) -> (r: Option<Self>) {
        let r = if str_eq(s, "parallel") {
            Some(VisualVerbalRelation::Parallel)
        } else if str_eq(s, "additive") {
            Some(VisualVerbalRelation::Additive)
        } else if str_eq(s, "interdependent") {
            Some(VisualVerbalRelation::Interdependent)
        } else if str_eq(s, "contrapuntal") {
            Some(VisualVerbalRelation::Contrapuntal)
        } else {
            None
        };
        r
    }

    proof fn lemma_name_injective(a: Self, b: Self) {
        reveal_strlit("parallel");
        reveal_strlit("additive");
        reveal_strlit("interdependent");
        reveal_strlit("contrapuntal");
        assert("parallel"@.len() == 8 && "parallel"@[0] == 'p');
        assert("additive"@.len() == 8 && "additive"@[0] == 'a');
        assert("interdependent"@.len() == 14);
        assert("contrapuntal"@.len() == 12);
    }
}

/// Nikolajeva *The Rhetoric of Character in Children's Literature* (2002):
/// narrator types in YA and children's fiction.
#[derive(Debug, Clone, Copy, PartialEq, Eq, Hash, Structural)]
pub enum YaNarratorType {
    /// Child narrator with limited understanding; creates dramatic irony for adult readers.
    Naive,
    /// Narrator knows more than they reveal; controlled ironic distance.
    Sophisticated,
    /// Adult narrator looking back at childhood; temporal gap creates reflection.
    Retrospective,
    /// Multiple child voices with no authoritative adult perspective imposed.
    Polyphonic,
}

impl SnakeName for YaNarratorType {
    open spec fn spec_name(self) -> Seq<char> {
        match self {
            YaNarratorType::Naive => "naive"@,
            YaNarratorType::Sophisticated => "sophisticated"@,
            YaNarratorType::Retrospective => "retrospective"@,
            YaNarratorType::Polyphonic => "polyphonic"@,
        }
    }

    fn name(&self) -> (r: &'static str) {
        match self {
            YaNarratorType::Naive => "naive",
            YaNarratorType::Sophisticated => "sophisticated",
            YaNarratorType::Retrospective => "retrospective",
            YaNarratorType::Polyphonic => "polyphonic",
        }
    }

    fn from_name(s: &str) -> (r: Option<Self>) {
        let r = if str_eq(s, "naive") {
            Some(YaNarratorType::Naive)
        } else if str_eq(s, "sophisticated") {
            Some(YaNarratorType::Sophisticated)
        } else if str_eq(s, "retrospective") {
            Some(YaNarratorType::Retrospective)
        } else if str_eq(s, "polyphonic") {
            Some(YaNarratorType::Polyphonic)
        } else {
            None
        };
        r
    }

    proof fn lemma_name_injective(a: Self, b: Self) {
        reveal_strlit("naive");
        reveal_strlit("sophisticated");
        reveal_strlit("retrospective");
        reveal_strlit("polyphonic");
        assert("naive"@.len() == 5);
        assert("sophisticated"@.len() == 13 && "sophisticated"@[0] == 's');
        assert("retrospective"@.len() == 13 && "retrospective"@[0] == 'r');
        assert("polyphonic"@.len() == 10);
    }
}

/// Vizenor *Manifest Manners* (1994): active presence vs. colonial construction.
#[derive(Debug, Clone, Copy, PartialEq, Eq, Hash, Structural)]
pub enum SurvivranceMode {
    /// Active presence; stories that resist absence, dominance, and tragedy narratives.
    Survivance,
    /// Passive colonial construction: Indigenous subject as victim, absence, or pathology.
    Victimry,
}

impl SnakeName for SurvivranceMode {
    open spec fn spec_name(self) -> Seq<char> {
        match self {
            SurvivranceMode::Survivance => "survivance"@,
            SurvivranceMode::Victimry => "victimry"@,
        }
    }

    fn name(&self) -> (r: &'static str) {
        match self {
            SurvivranceMode::Survivance => "survivance",
            SurvivranceMode::Victimry => "victimry",
        }
    }

    fn from_name(s: &str) -> (r: Option<Self>) {
        let r = if str_eq(s, "survivance") {
            Some(SurvivranceMode::Survivance)
        } else if str_eq(s, "victimry") {
            Some(SurvivranceMode::Victimry)
        } else {
            None
        };
        r
    }

    proof fn lemma_name_injective(a: Self, b: Self) {
        reveal_strlit("survivance");
        reveal_strlit("victimry");
        assert("survivance"@.len() == 10);
        assert("victimry"@.len() == 8);
    }
}

/// Vizenor *Manifest Manners* (1994): extended survivance vocabulary.
/// Reference: `08-revision/critical-theory/indigenous-narratology.md`
#[derive(Debug, Clone, Copy, PartialEq, Eq, Hash, Structural)]
pub enum SurvivanceMode {
    /// Active presence; stories that resist absence, dominance, and tragedy narratives.
    Survivance,
    /// Passive colonial construction: Indigenous subject as victim, absence, or pathology.
    Victimry,
    /// Radical irony, indeterminacy, transformation; refusal of fixed identity.
    TricksterDiscourse,
    /// Colonial simulations of Indianness — not living self-representation.
    DeadVoices,
}

impl SnakeName for SurvivanceMode {
    open spec fn spec_name(self) -> Seq<char> {
        match self {
            SurvivanceMode::Survivance => "survivance"@,
            SurvivanceMode::Victimry => "victimry"@,
            SurvivanceMode::TricksterDiscourse => "trickster_discourse"@,
            SurvivanceMode::DeadVoices => "dead_voices"@,
        }
    }

    fn name(&self) -> (r: &'static str) {
        match self {
            SurvivanceMode::Survivance => "survivance",
            SurvivanceMode::Victimry => "victimry",
            SurvivanceMode::TricksterDiscourse => "trickster_discourse",
            SurvivanceMode::DeadVoices => "dead_voices",
        }
    }

    fn from_name(s: &str) -> (r: Option<Self>) {
        let r = if str_eq(s, "survivance") {
            Some(SurvivanceMode::Survivance)
        } else if str_eq(s, "victimry") {
            Some(SurvivanceMode::Victimry)
        } else if str_eq(s, "trickster_discourse") {
            Some(SurvivanceMode::TricksterDiscourse)
        } else if str_eq(s, "dead_voices") {
            Some(SurvivanceMode::DeadVoices)
        } else {
            None
        };
        r
    }

    proof fn lemma_name_injective(a: Self, b: Self) {
        reveal_strlit("survivance");
        reveal_strlit("victimry");
        reveal_strlit("trickster_discourse");
        reveal_strlit("dead_voices");
        assert("survivance"@.len() == 10);
        assert("victimry"@.len() == 8);
        assert("trickster_discourse"@.len() == 19);
        assert("dead_voices"@.len() == 11);
    }
}

/// Archibald *Indigenous Storywork* (2008): Seven Principles of ethical
/// engagement with Indigenous stories.
#[derive(Debug, Clone, Copy, PartialEq, Eq, Hash, Structural)]
pub enum StoryworkProtocol {
    Respect,
    Responsibility,
    Reciprocity,
    Reverence,
    Holism,
    Interrelatedness,
    Synergy,
}

impl SnakeName for StoryworkProtocol {
    open spec fn spec_name(self) -> Seq<char> {
        match self {
            StoryworkProtocol::Respect => "respect"@,
            StoryworkProtocol::Responsibility => "responsibility"@,
            StoryworkProtocol::Reciprocity => "reciprocity"@,
            StoryworkProtocol::Reverence => "reverence"@,
            StoryworkProtocol::Holism => "holism"@,
            StoryworkProtocol::Interrelatedness => "interrelatedness"@,
            StoryworkProtocol::Synergy => "synergy"@,
        }
    }

    fn name(&self) -> (r: &'static str) {
        match self {
            StoryworkProtocol::Respect => "respect",
            StoryworkProtocol::Responsibility => "responsibility",
            StoryworkProtocol::Reciprocity => "reciprocity",
            StoryworkProtocol::Reverence => "reverence",
            StoryworkProtocol::Holism => "holism",
            StoryworkProtocol::Interrelatedness => "interrelatedness",
            StoryworkProtocol::Synergy => "synergy",
        }
    }

    fn from_name(s: &str) -> (r: Option<Self>) {
        let r = if str_eq(s, "respect") {
            Some(StoryworkProtocol::Respect)
        } else if str_eq(s, "responsibility") {
            Some(StoryworkProtocol::Responsibility)
        } else if str_eq(s, "reciprocity") {
            Some(StoryworkProtocol::Reciprocity)
        } else if str_eq(s, "reverence") {
            Some(StoryworkProtocol::Reverence)
        } else if str_eq(s, "holism") {
            Some(StoryworkProtocol::Holism)
        } else if str_eq(s, "interrelatedness") {
            Some(StoryworkProtocol::Interrelatedness)
        } else if str_eq(s, "synergy") {
            Some(StoryworkProtocol::Synergy)
        } else {
            None
        };
        r
    }

    proof fn lemma_name_injective(a: Self, b: Self) {
        reveal_strlit("respect");
        reveal_strlit("responsibility");
        reveal_strlit("reciprocity");
        reveal_strlit("reverence");
        reveal_strlit("holism");
        reveal_strlit("interrelatedness");
        reveal_strlit("synergy");
        assert("respect"@.len() == 7 && "respect"@[0] == 'r');
        assert("responsibility"@.len() == 14);
        assert("reciprocity"@.len() == 11);
        assert("reverence"@.len() == 9);
        assert("holism"@.len() == 6);
        assert("interrelatedness"@.len() == 16);
        assert("synergy"@.len() == 7 && "synergy"@[0] == 's');
    }
}

/// Raymond Williams *Marxism and Literature* (1977): cultural formation types.
#[derive(Debug, Clone, Copy, PartialEq, Eq, Hash, Structural)]
pub enum CulturalStructure {
    /// The hegemonic; the established order that currently feels like common sense.
    Dominant,
    /// What is beginning to emerge in opposition to the dominant.
    Emergent,
    /// What was once dominant but is now archaic, vestigial, or nostalgic.
    Residual,
}

impl SnakeName for CulturalStructure {
    open spec fn spec_name(self) -> Seq<char> {
        match self {
            CulturalStructure::Dominant => "dominant"@,
            CulturalStructure::Emergent => "emergent"@,
            CulturalStructure::Residual => "residual"@,
        }
    }

    fn name(&self) -> (r: &'static str) {
        match self {
            CulturalStructure::Dominant => "dominant",
            CulturalStructure::Emergent => "emergent",
            CulturalStructure::Residual => "residual",
        }
    }

    fn from_name(s: &str) -> (r: Option<Self>) {
        let r = if str_eq(s, "dominant") {
            Some(CulturalStructure::Dominant)
        } else if str_eq(s, "emergent") {
            Some(CulturalStructure::Emergent)
        } else if str_eq(s, "residual") {
            Some(CulturalStructure::Residual)
        } else {
            None
        };
        r
    }

    proof fn lemma_name_injective(a: Self, b: Self) {
        reveal_strlit("dominant");
        reveal_strlit("emergent");
        reveal_strlit("residual");
        assert("dominant"@.len() == 8 && "dominant"@[0] == 'd');
        assert("emergent"@.len() == 8 && "emergent"@[0] == 'e');
        assert("residual"@.len() == 8 && "residual"@[0] == 'r');
    }
}

/// Bachelard *The Poetics of Space* (1958): intimate phenomenological space types.
#[derive(Debug, Clone, Copy, PartialEq, Eq, Hash, Structural)]
pub enum IntimateSpaceType {
    /// Height, overview, aspiration — freedom from the weight of what lies below.
    Attic,
    /// Depth, the unconscious, the hidden — the irrational below the threshold.
    Cellar,
    /// Warmth, intimacy, the smallest habitable circle of home.
    Nest,
    /// Retreat, self-enclosure, solitude — smallest possible dwelling.
    Shell,
    /// Rest, refuge — the sheltered angle; cosiness in confinement.
    Corner,
    /// Container of secrets — memory storage space.
    Drawer,
    /// Container of treasures — the repository of depths.
    Chest,
    /// Liminal space — the point of passage between domains.
    Threshold,
}

impl SnakeName for IntimateSpaceType {
    open spec fn spec_name(self) -> Seq<char> {
        match self {
            IntimateSpaceType::Attic => "attic"@,
            IntimateSpaceType::Cellar => "cellar"@,
            IntimateSpaceType::Nest => "nest"@,
            IntimateSpaceType::Shell => "shell"@,
            IntimateSpaceType::Corner => "corner"@,
            IntimateSpaceType::Drawer => "drawer"@,
            IntimateSpaceType::Chest => "chest"@,
            IntimateSpaceType::Threshold => "threshold"@,
        }
    }

    fn name(&self) -> (r: &'static str) {
        match self {
            IntimateSpaceType::Attic => "attic",
            IntimateSpaceType::Cellar => "cellar",
            IntimateSpaceType::Nest => "nest",
            IntimateSpaceType::Shell => "shell",
            IntimateSpaceType::Corner => "corner",
            IntimateSpaceType::Drawer => "drawer",
            IntimateSpaceType::Chest => "chest",
            IntimateSpaceType::Threshold => "threshold",
        }
    }

    fn from_name(s: &str) -> (r: Option<Self>) {
        let r = if str_eq(s, "attic") {
            Some(IntimateSpaceType::Attic)
        } else if str_eq(s, "cellar") {
            Some(IntimateSpaceType::Cellar)
        } else if str_eq(s, "nest") {
            Some(IntimateSpaceType::Nest)
        } else if str_eq(s, "shell") {
            Some(IntimateSpaceType::Shell)
        } else if str_eq(s, "corner") {
            Some(IntimateSpaceType::Corner)
        } else if str_eq(s, "drawer") {
            Some(IntimateSpaceType::Drawer)
        } else if str_eq(s, "chest") {
            Some(IntimateSpaceType::Chest)
        } else if str_eq(s, "threshold") {
            Some(IntimateSpaceType::Threshold)
        } else {
            None
        };
        r
    }

    proof fn lemma_name_injective(a: Self, b: Self) {
        reveal_strlit("attic");
        reveal_strlit("cellar");
        reveal_strlit("nest");
        reveal_strlit("shell");
        reveal_strlit("corner");
        reveal_strlit("drawer");
        reveal_strlit("chest");
        reveal_strlit("threshold");
        assert("attic"@.len() == 5 && "attic"@[0] == 'a');
        assert("cellar"@.len() == 6 && "cellar"@[0] == 'c' && "cellar"@[1] == 'e');
        assert("nest"@.len() == 4);
        assert("shell"@.len() == 5 && "shell"@[0] == 's');
        assert("corner"@.len() == 6 && "corner"@[0] == 'c' && "corner"@[1] == 'o');
        assert("drawer"@.len() == 6 && "drawer"@[0] == 'd');
        assert("chest"@.len() == 5 && "chest"@[0] == 'c');
        assert("threshold"@.len() == 9);
    }
}

/// De Certeau *The Practice of Everyday Life* (1980): enacted spatial opposites.
#[derive(Debug, Clone, Copy, PartialEq, Eq, Hash, Structural)]
pub enum SpatialPractice {
    /// Institutional / power-structural: plans, property, surveyed place — from above.
    Strategy,
    /// Marginal / improvisatory: moving through spaces without owning them — from below.
    Tactic,
}

impl SnakeName for SpatialPractice {
    open spec fn spec_name(self) -> Seq<char> {
        match self {
            SpatialPractice::Strategy => "strategy"@,
            SpatialPractice::Tactic => "tactic"@,
        }
    }

    fn name(&self) -> (r: &'static str) {
        match self {
            SpatialPractice::Strategy => "strategy",
            SpatialPractice::Tactic => "tactic",
        }
    }

    fn from_name(s: &str) -> (r: Option<Self>) {
        let r = if str_eq(s, "strategy") {
            Some(SpatialPractice::Strategy)
        } else if str_eq(s, "tactic") {
            Some(SpatialPractice::Tactic)
        } else {
            None
        };
        r
    }

    proof fn lemma_name_injective(a: Self, b: Self) {
        reveal_strlit("strategy");
        reveal_strlit("tactic");
        assert("strategy"@.len() == 8);
        assert("tactic"@.len() == 6);
    }
}

/// Murray / Elbow / Lamott six-pass revision framework.
/// Each pass targets a distinct level of the manuscript.
#[derive(Debug, Clone, Copy, PartialEq, Eq, Hash, Structural)]
pub enum RevisionPassType {
    /// Architecture: structure, sequence, act turns, sub-plot integration.
    StructuralPass,
    /// Character consistency: voice, arc, motivation, relationship dynamics.
    Character,
    /// Sentence-level voice: rhythm, diction, psychic distance consistency.
    Voice,
    /// Line-by-line: cutting, verb strength, clarity, subtext craft.
    Line,
    /// Grammar, punctuation, usage.
    Copyedit,
    /// Final read for typos and typesetting issues before publication.
    Proofread,
}

impl SnakeName for RevisionPassType {
    open spec fn spec_name(self) -> Seq<char> {
        match self {
            RevisionPassType::StructuralPass => "structural"@,
            RevisionPassType::Character => "character"@,
            RevisionPassType::Voice => "voice"@,
            RevisionPassType::Line => "line"@,
            RevisionPassType::Copyedit => "copyedit"@,
            RevisionPassType::Proofread => "proofread"@,
        }
    }

    fn name(&self) -> (r: &'static str) {
        match self {
            RevisionPassType::StructuralPass => "structural",
            RevisionPassType::Character => "character",
            RevisionPassType::Voice => "voice",
            RevisionPassType::Line => "line",
            RevisionPassType::Copyedit => "copyedit",
            RevisionPassType::Proofread => "proofread",
        }
    }

    fn from_name(s: &str) -> (r: Option<Self>) {
        let r = if str_eq(s, "structural") {
            Some(RevisionPassType::StructuralPass)
        } else if str_eq(s, "character") {
            Some(RevisionPassType::Character)
        } else if str_eq(s, "voice") {
            Some(RevisionPassType::Voice)
        } else if str_eq(s, "line") {
            Some(RevisionPassType::Line)
        } else if str_eq(s, "copyedit") {
            Some(RevisionPassType::Copyedit)
        } else if str_eq(s, "proofread") {
            Some(RevisionPassType::Proofread)
        } else {
            None
        };
        r
    }

    proof fn lemma_name_injective(a: Self, b: Self) {
        reveal_strlit("structural");
        reveal_strlit("character");
        reveal_strlit("voice");
        reveal_strlit("line");
        reveal_strlit("copyedit");
        reveal_strlit("proofread");
        assert("structural"@.len() == 10);
        assert("character"@.len() == 9 && "character"@[0] == 'c');
        assert("voice"@.len() == 5);
        assert("line"@.len() == 4);
        assert("copyedit"@.len() == 8);
        assert("proofread"@.len() == 9 && "proofread"@[0] == 'p');
    }
}

/// How a book's arc relates to the larger series structure.
#[derive(Debug, Clone, Copy, PartialEq, Eq, Hash, Structural)]
pub enum SerialArcType {
    /// Each book fully resolves; no series-level arc dependency.
    Standalone,
    /// Books are self-contained AND contribute to a series arc.
    StandaloneWithArc,
    /// Books are episodes playable in any order.
    Episodic,
    /// Books require reading in order; one long arc with a planned resolution.
    ClosedSeries,
    /// Series arc continues indefinitely; no planned endpoint.
    OpenSeries,
}

impl SnakeName for SerialArcType {
    open spec fn spec_name(self) -> Seq<char> {
        match self {
            SerialArcType::Standalone => "standalone"@,
            SerialArcType::StandaloneWithArc => "standalone_with_arc"@,
            SerialArcType::Episodic => "episodic"@,
            SerialArcType::ClosedSeries => "closed_series"@,
            SerialArcType::OpenSeries => "open_series"@,
        }
    }

    fn name(&self) -> (r: &'static str) {
        match self {
            SerialArcType::Standalone => "standalone",
            SerialArcType::StandaloneWithArc => "standalone_with_arc",
            SerialArcType::Episodic => "episodic",
            SerialArcType::ClosedSeries => "closed_series",
            SerialArcType::OpenSeries => "open_series",
        }
    }

    fn from_name(s: &str) -> (r: Option<Self>) {
        let r = if str_eq(s, "standalone") {
            Some(SerialArcType::Standalone)
        } else if str_eq(s, "standalone_with_arc") {
            Some(SerialArcType::StandaloneWithArc)
        } else if str_eq(s, "episodic") {
            Some(SerialArcType::Episodic)
        } else if str_eq(s, "closed_series") {
            Some(SerialArcType::ClosedSeries)
        } else if str_eq(s, "open_series") {
            Some(SerialArcType::OpenSeries)
        } else {
            None
        };
        r
    }

    proof fn lemma_name_injective(a: Self, b: Self) {
        reveal_strlit("standalone");
        reveal_strlit("standalone_with_arc");
        reveal_strlit("episodic");
        reveal_strlit("closed_series");
        reveal_strlit("open_series");
        assert("standalone"@.len() == 10);
        assert("standalone_with_arc"@.len() == 19);
        assert("episodic"@.len() == 8);
        assert("closed_series"@.len() == 13);
        assert("open_series"@.len() == 11);
    }
}

/// Ethical audit categories for the revision phase.
/// Grounds to Booth, Keen, Nussbaum, Spivak in `08-revision/critical-theory/`.
#[derive(Debug, Clone, Copy, PartialEq, Eq, Hash, Structural)]
pub enum EthicsAuditCategory {
    /// Who is represented, how, and whether their humanity is fully rendered.
    Representation,
    /// Whose perspective structures the visual field; complicity in objectification?
    GazeAnalysis,
    /// Does the text invite empathy, and with whom?
    Empathy,
    /// Does the text invite the reader to collude with problematic attitudes?
    Complicity,
    /// Who has power and who doesn't — examined critically or reinforced?
    PowerDynamics,
    /// Booth's test: what does the narrative's ethical argument coerce from the reader?
    BoothCoduction,
}

impl SnakeName for EthicsAuditCategory {
    open spec fn spec_name(self) -> Seq<char> {
        match self {
            EthicsAuditCategory::Representation => "representation"@,
            EthicsAuditCategory::GazeAnalysis => "gaze_analysis"@,
            EthicsAuditCategory::Empathy => "empathy"@,
            EthicsAuditCategory::Complicity => "complicity"@,
            EthicsAuditCategory::PowerDynamics => "power_dynamics"@,
            EthicsAuditCategory::BoothCoduction => "booth_coduction"@,
        }
    }

    fn name(&self) -> (r: &'static str) {
        match self {
            EthicsAuditCategory::Representation => "representation",
            EthicsAuditCategory::GazeAnalysis => "gaze_analysis",
            EthicsAuditCategory::Empathy => "empathy",
            EthicsAuditCategory::Complicity => "complicity",
            EthicsAuditCategory::PowerDynamics => "power_dynamics",
            EthicsAuditCategory::BoothCoduction => "booth_coduction",
        }
    }

    fn from_name(s: &str) -> (r: Option<Self>) {
        let r = if str_eq(s, "representation") {
            Some(EthicsAuditCategory::Representation)
        } else if str_eq(s, "gaze_analysis") {
            Some(EthicsAuditCategory::GazeAnalysis)
        } else if str_eq(s, "empathy") {
            Some(EthicsAuditCategory::Empathy)
        } else if str_eq(s, "complicity") {
            Some(EthicsAuditCategory::Complicity)
        } else if str_eq(s, "power_dynamics") {
            Some(EthicsAuditCategory::PowerDynamics)
        } else if str_eq(s, "booth_coduction") {
            Some(EthicsAuditCategory::BoothCoduction)
        } else {
            None
        };
        r
    }

    proof fn lemma_name_injective(a: Self, b: Self) {
        reveal_strlit("representation");
        reveal_strlit("gaze_analysis");
        reveal_strlit("empathy");
        reveal_strlit("complicity");
        reveal_strlit("power_dynamics");
        reveal_strlit("booth_coduction");
        assert("representation"@.len() == 14 && "representation"@[0] == 'r');
        assert("gaze_analysis"@.len() == 13);
        assert("empathy"@.len() == 7);
        assert("complicity"@.len() == 10);
        assert("power_dynamics"@.len() == 14 && "power_dynamics"@[0] == 'p');
        assert("booth_coduction"@.len() == 15);
    }
}

/// Peirce's three sign types (*Collected Papers*).
#[derive(Debug, Clone, Copy, PartialEq, Eq, Hash, Structural)]
pub enum SignType {
    /// Sign that resembles what it represents (photograph, map, onomatopoeia).
    Icon,
    /// Sign caused by or indexically connected to its referent (smoke → fire, fever → illness).
    Index,
    /// Sign with arbitrary, conventional relationship to its referent (most words).
    Symbol,
}

impl SnakeName for SignType {
    open spec fn spec_name(self) -> Seq<char> {
        match self {
            SignType::Icon => "icon"@,
            SignType::Index => "index"@,
            SignType::Symbol => "symbol"@,
        }
    }

    fn name(&self) -> (r: &'static str) {
        match self {
            SignType::Icon => "icon",
            SignType::Index => "index",
            SignType::Symbol => "symbol",
        }
    }

    fn from_name(s: &str) -> (r: Option<Self>) {
        let r = if str_eq(s, "icon") {
            Some(SignType::Icon)
        } else if str_eq(s, "index") {
            Some(SignType::Index)
        } else if str_eq(s, "symbol") {
            Some(SignType::Symbol)
        } else {
            None
        };
        r
    }

    proof fn lemma_name_injective(a: Self, b: Self) {
        reveal_strlit("icon");
        reveal_strlit("index");
        reveal_strlit("symbol");
        assert("icon"@.len() == 4);
        assert("index"@.len() == 5);
        assert("symbol"@.len() == 6);
    }
}

/// Jakobson *Closing Statement: Linguistics and Poetics* (1960):
/// the six functions of any communicative act.
#[derive(Debug, Clone, Copy, PartialEq, Eq, Hash, Structural)]
pub enum JakobsonFunction {
    /// Context-oriented: conveying information about the world.
    Referential,
    /// Sender-oriented: expressing attitude, emotion, subjective stance.
    Emotive,
    /// Receiver-oriented: commanding, requesting, persuading.
    Conative,
    /// Channel-oriented: checking or maintaining the communication channel ("hello?").
    Phatic,
    /// Code-oriented: discussing the language or code being used.
    Metalingual,
    /// Message-oriented: aesthetic self-focus; the poetic function.
    Poetic,
}

impl SnakeName for JakobsonFunction {
    open spec fn spec_name(self) -> Seq<char> {
        match self {
            JakobsonFunction::Referential => "referential"@,
            JakobsonFunction::Emotive => "emotive"@,
            JakobsonFunction::Conative => "conative"@,
            JakobsonFunction::Phatic => "phatic"@,
            JakobsonFunction::Metalingual => "metalingual"@,
            JakobsonFunction::Poetic => "poetic"@,
        }
    }

    fn name(&self) -> (r: &'static str) {
        match self {
            JakobsonFunction::Referential => "referential",
            JakobsonFunction::Emotive => "emotive",
            JakobsonFunction::Conative => "conative",
            JakobsonFunction::Phatic => "phatic",
            JakobsonFunction::Metalingual => "metalingual",
            JakobsonFunction::Poetic => "poetic",
        }
    }

    fn from_name(s: &str) -> (r: Option<Self>) {
        let r = if str_eq(s, "referential") {
            Some(JakobsonFunction::Referential)
        } else if str_eq(s, "emotive") {
            Some(JakobsonFunction::Emotive)
        } else if str_eq(s, "conative") {
            Some(JakobsonFunction::Conative)
        } else if str_eq(s, "phatic") {
            Some(JakobsonFunction::Phatic)
        } else if str_eq(s, "metalingual") {
            Some(JakobsonFunction::Metalingual)
        } else if str_eq(s, "poetic") {
            Some(JakobsonFunction::Poetic)
        } else {
            None
        };
        r
    }

    proof fn lemma_name_injective(a: Self, b: Self) {
        reveal_strlit("referential");
        reveal_strlit("emotive");
        reveal_strlit("conative");
        reveal_strlit("phatic");
        reveal_strlit("metalingual");
        reveal_strlit("poetic");
        assert("referential"@.len() == 11 && "referential"@[0] == 'r');
        assert("emotive"@.len() == 7);
        assert("conative"@.len() == 8);
        assert("phatic"@.len() == 6 && "phatic"@[1] == 'h');
        assert("metalingual"@.len() == 11 && "metalingual"@[0] == 'm');
        assert("poetic"@.len() == 6 && "poetic"@[1] == 'o');
    }
}

/// Halliday's systemic functional grammar: the six process types.
/// Who does what to whom — the grammar of agency and representation in a sentence.
#[derive(Debug, Clone, Copy, PartialEq, Eq, Hash, Structural)]
pub enum TransitivityProcess {
    /// Doing, happening, creating — physical action in the world.
    Material,
    /// Sensing, feeling, perceiving — inner mental experience.
    Mental,
    /// Being, having, attributing — identification or classification.
    Relational,
    /// Saying, telling, communicating — speech or text production.
    Verbal,
    /// Physiological and behavioral processes (sigh, cough, dream, tremble).
    Behavioral,
    /// Intransitive existence statements ("There was a woman…").
    Existential,
}

impl SnakeName for TransitivityProcess {
    open spec fn spec_name(self) -> Seq<char> {
        match self {
            TransitivityProcess::Material => "material"@,
            TransitivityProcess::Mental => "mental"@,
            TransitivityProcess::Relational => "relational"@,
            TransitivityProcess::Verbal => "verbal"@,
            TransitivityProcess::Behavioral => "behavioral"@,
            TransitivityProcess::Existential => "existential"@,
        }
    }

    fn name(&self) -> (r: &'static str) {
        match self {
            TransitivityProcess::Material => "material",
            TransitivityProcess::Mental => "mental",
            TransitivityProcess::Relational => "relational",
            TransitivityProcess::Verbal => "verbal",
            TransitivityProcess::Behavioral => "behavioral",
            TransitivityProcess::Existential => "existential",
        }
    }

    fn from_name(s: &str) -> (r: Option<Self>) {
        let r = if str_eq(s, "material") {
            Some(TransitivityProcess::Material)
        } else if str_eq(s, "mental") {
            Some(TransitivityProcess::Mental)
        } else if str_eq(s, "relational") {
            Some(TransitivityProcess::Relational)
        } else if str_eq(s, "verbal") {
            Some(TransitivityProcess::Verbal)
        } else if str_eq(s, "behavioral") {
            Some(TransitivityProcess::Behavioral)
        } else if str_eq(s, "existential") {
            Some(TransitivityProcess::Existential)
        } else {
            None
        };
        r
    }

    proof fn lemma_name_injective(a: Self, b: Self) {
        reveal_strlit("material");
        reveal_strlit("mental");
        reveal_strlit("relational");
        reveal_strlit("verbal");
        reveal_strlit("behavioral");
        reveal_strlit("existential");
        assert("material"@.len() == 8);
        assert("mental"@.len() == 6 && "mental"@[0] == 'm');
        assert("relational"@.len() == 10 && "relational"@[0] == 'r');
        assert("verbal"@.len() == 6 && "verbal"@[0] == 'v');
        assert("behavioral"@.len() == 10 && "behavioral"@[0] == 'b');
        assert("existential"@.len() == 11);
    }
}

/// Hutcheon *A Theory of Adaptation* (2006): how an audience engages adapted narrative.
#[derive(Debug, Clone, Copy, PartialEq, Eq, Hash, Structural)]
pub enum AdaptationMode {
    /// Novels, poetry — narrative mediated through language alone.
    Telling,
    /// Film, theatre, opera — narrative shown through performance.
    Showing,
    /// Video games, interactive fiction — narrative navigated through participation.
    Interacting,
}

impl SnakeName for AdaptationMode {
    open spec fn spec_name(self) -> Seq<char> {
        match self {
            AdaptationMode::Telling => "telling"@,
            AdaptationMode::Showing => "showing"@,
            AdaptationMode::Interacting => "interacting"@,
        }
    }

    fn name(&self) -> (r: &'static str) {
        match self {
            AdaptationMode::Telling => "telling",
            AdaptationMode::Showing => "showing",
            AdaptationMode::Interacting => "interacting",
        }
    }

    fn from_name(s: &str) -> (r: Option<Self>) {
        let r = if str_eq(s, "telling") {
            Some(AdaptationMode::Telling)
        } else if str_eq(s, "showing") {
            Some(AdaptationMode::Showing)
        } else if str_eq(s, "interacting") {
            Some(AdaptationMode::Interacting)
        } else {
            None
        };
        r
    }

    proof fn lemma_name_injective(a: Self, b: Self) {
        reveal_strlit("telling");
        reveal_strlit("showing");
        reveal_strlit("interacting");
        assert("telling"@.len() == 7 && "telling"@[0] == 't');
        assert("showing"@.len() == 7 && "showing"@[0] == 's');
        assert("interacting"@.len() == 11);
    }
}

/// Halberstam *In a Queer Time and Place* (2005) / Edelman *No Future* (2004) /
/// Muñoz *Cruising Utopia* (2009).
#[derive(Debug, Clone, Copy, PartialEq, Eq, Hash, Structural)]
pub enum QueerTimeMode {
    /// The hegemonic temporal model: organized around reproduction, the child-future.
    ReproductiveFuturism,
    /// Halberstam: alternative temporalities around different life-markers (subculture, illness).
    QueerTemporality,
    /// Muñoz: utopian hope in the not-yet-here; glimpsed in collective performance.
    QueerFuturity,
}

impl SnakeName for QueerTimeMode {
    open spec fn spec_name(self) -> Seq<char> {
        match self {
            QueerTimeMode::ReproductiveFuturism => "reproductive_futurism"@,
            QueerTimeMode::QueerTemporality => "queer_temporality"@,
            QueerTimeMode::QueerFuturity => "queer_futurity"@,
        }
    }

    fn name(&self) -> (r: &'static str) {
        match self {
            QueerTimeMode::ReproductiveFuturism => "reproductive_futurism",
            QueerTimeMode::QueerTemporality => "queer_temporality",
            QueerTimeMode::QueerFuturity => "queer_futurity",
        }
    }

    fn from_name(s: &str) -> (r: Option<Self>) {
        let r = if str_eq(s, "reproductive_futurism") {
            Some(QueerTimeMode::ReproductiveFuturism)
        } else if str_eq(s, "queer_temporality") {
            Some(QueerTimeMode::QueerTemporality)
        } else if str_eq(s, "queer_futurity") {
            Some(QueerTimeMode::QueerFuturity)
        } else {
            None
        };
        r
    }

    proof fn lemma_name_injective(a: Self, b: Self) {
        reveal_strlit("reproductive_futurism");
        reveal_strlit("queer_temporality");
        reveal_strlit("queer_futurity");
        assert("reproductive_futurism"@.len() == 21);
        assert("queer_temporality"@.len() == 17);
        assert("queer_futurity"@.len() == 14);
    }
}

/// Sedgwick/Rich/Butler/Edelman/Halberstam: combined queer narrative modes for audit.
/// Reference: `08-revision/critical-theory/queer-narratology.md`
#[derive(Debug, Clone, Copy, PartialEq, Eq, Hash, Structural)]
pub enum QueerMode {
    /// Sedgwick: narrative organized around the epistemology of the closet — concealment/revelation.
    ClosetEpistemology,
    /// Rich: the institution that makes heterosexuality appear natural and mandatory.
    CompulsoryHeterosexuality,
    /// Edelman: the hegemonic temporal model organized around reproduction & the child-future.
    ReproductiveFuturism,
    /// Halberstam: alternative temporalities around different life-markers (subculture, illness).
    QueerTemporality,
    /// Muñoz: utopian hope in the not-yet-here; glimpsed in collective performance.
    QueerFuturity,
}

impl SnakeName for QueerMode {
    open spec fn spec_name(self) -> Seq<char> {
        match self {
            QueerMode::ClosetEpistemology => "closet_epistemology"@,
            QueerMode::CompulsoryHeterosexuality => "compulsory_heterosexuality"@,
            QueerMode::ReproductiveFuturism => "reproductive_futurism"@,
            QueerMode::QueerTemporality => "queer_temporality"@,
            QueerMode::QueerFuturity => "queer_futurity"@,
        }
    }

    fn name(&self) -> (r: &'static str) {
        match self {
            QueerMode::ClosetEpistemology => "closet_epistemology",
            QueerMode::CompulsoryHeterosexuality => "compulsory_heterosexuality",
            QueerMode::ReproductiveFuturism => "reproductive_futurism",
            QueerMode::QueerTemporality => "queer_temporality",
            QueerMode::QueerFuturity => "queer_futurity",
        }
    }

    fn from_name(s: &str) -> (r: Option<Self>) {
        let r = if str_eq(s, "closet_epistemology") {
            Some(QueerMode::ClosetEpistemology)
        } else if str_eq(s, "compulsory_heterosexuality") {
            Some(QueerMode::CompulsoryHeterosexuality)
        } else if str_eq(s, "reproductive_futurism") {
            Some(QueerMode::ReproductiveFuturism)
        } else if str_eq(s, "queer_temporality") {
            Some(QueerMode::QueerTemporality)
        } else if str_eq(s, "queer_futurity") {
            Some(QueerMode::QueerFuturity)
        } else {
            None
        };
        r
    }

    proof fn lemma_name_injective(a: Self, b: Self) {
        reveal_strlit("closet_epistemology");
        reveal_strlit("compulsory_heterosexuality");
        reveal_strlit("reproductive_futurism");
        reveal_strlit("queer_temporality");
        reveal_strlit("queer_futurity");
        assert("closet_epistemology"@.len() == 19);
        assert("compulsory_heterosexuality"@.len() == 26);
        assert("reproductive_futurism"@.len() == 21);
        assert("queer_temporality"@.len() == 17);
        assert("queer_futurity"@.len() == 14);
    }
}

/// Garland-Thomson, Mitchell & Snyder, Siebers, Kafer.
#[derive(Debug, Clone, Copy, PartialEq, Eq, Hash, Structural)]
pub enum DisabilityRepMode {
    /// Mitchell & Snyder: disability as narrative device without full subjectivity.
    NarrativeProsthesis,
    /// Siebers: disability as social/political position, not deviation from a norm.
    ComplexEmbodiment,
    /// Kafer: refusal of the cure narrative; openness to non-normative futures.
    CripFuturity,
    /// Garland-Thomson: the normate gaze that renders disability as spectacle.
    NormateLens,
}

impl SnakeName for DisabilityRepMode {
    open spec fn spec_name(self) -> Seq<char> {
        match self {
            DisabilityRepMode::NarrativeProsthesis => "narrative_prosthesis"@,
            DisabilityRepMode::ComplexEmbodiment => "complex_embodiment"@,
            DisabilityRepMode::CripFuturity => "crip_futurity"@,
            DisabilityRepMode::NormateLens => "normate_lens"@,
        }
    }

    fn name(&self) -> (r: &'static str) {
        match self {
            DisabilityRepMode::NarrativeProsthesis => "narrative_prosthesis",
            DisabilityRepMode::ComplexEmbodiment => "complex_embodiment",
            DisabilityRepMode::CripFuturity => "crip_futurity",
            DisabilityRepMode::NormateLens => "normate_lens",
        }
    }

    fn from_name(s: &str) -> (r: Option<Self>) {
        let r = if str_eq(s, "narrative_prosthesis") {
            Some(DisabilityRepMode::NarrativeProsthesis)
        } else if str_eq(s, "complex_embodiment") {
            Some(DisabilityRepMode::ComplexEmbodiment)
        } else if str_eq(s, "crip_futurity") {
            Some(DisabilityRepMode::CripFuturity)
        } else if str_eq(s, "normate_lens") {
            Some(DisabilityRepMode::NormateLens)
        } else {
            None
        };
        r
    }

    proof fn lemma_name_injective(a: Self, b: Self) {
        reveal_strlit("narrative_prosthesis");
        reveal_strlit("complex_embodiment");
        reveal_strlit("crip_futurity");
        reveal_strlit("normate_lens");
        assert("narrative_prosthesis"@.len() == 20);
        assert("complex_embodiment"@.len() == 18);
        assert("crip_futurity"@.len() == 13);
        assert("normate_lens"@.len() == 12);
    }
}

/// Ahmed *The Cultural Politics of Emotion* (2004) /
/// Berlant *Cruel Optimism* (2011).
#[derive(Debug, Clone, Copy, PartialEq, Eq, Hash, Structural)]
pub enum AffectMode {
    /// Ahmed: emotions that accumulate and adhere to objects through repetitive contact.
    Sticky,
    /// Berlant: attachment to an object whose attainment would damage the subject.
    CruelOptimism,
    /// Berlant: suspended between hope and its failure; temporal stasis.
    Impasse,
    /// Berlant/Nixon: cumulative, slow harm that does not register as acute crisis.
    SlowDeath,
    /// Ahmed: how bodies and subjects orient toward (or away from) objects and worlds.
    Orientation,
}

impl SnakeName for AffectMode {
    open spec fn spec_name(self) -> Seq<char> {
        match self {
            AffectMode::Sticky => "sticky"@,
            AffectMode::CruelOptimism => "cruel_optimism"@,
            AffectMode::Impasse => "impasse"@,
            AffectMode::SlowDeath => "slow_death"@,
            AffectMode::Orientation => "orientation"@,
        }
    }

    fn name(&self) -> (r: &'static str) {
        match self {
            AffectMode::Sticky => "sticky",
            AffectMode::CruelOptimism => "cruel_optimism",
            AffectMode::Impasse => "impasse",
            AffectMode::SlowDeath => "slow_death",
            AffectMode::Orientation => "orientation",
        }
    }

    fn from_name(s: &str) -> (r: Option<Self>) {
        let r = if str_eq(s, "sticky") {
            Some(AffectMode::Sticky)
        } else if str_eq(s, "cruel_optimism") {
            Some(AffectMode::CruelOptimism)
        } else if str_eq(s, "impasse") {
            Some(AffectMode::Impasse)
        } else if str_eq(s, "slow_death") {
            Some(AffectMode::SlowDeath)
        } else if str_eq(s, "orientation") {
            Some(AffectMode::Orientation)
        } else {
            None
        };
        r
    }

    proof fn lemma_name_injective(a: Self, b: Self) {
        reveal_strlit("sticky");
        reveal_strlit("cruel_optimism");
        reveal_strlit("impasse");
        reveal_strlit("slow_death");
        reveal_strlit("orientation");
        assert("sticky"@.len() == 6);
        assert("cruel_optimism"@.len() == 14);
        assert("impasse"@.len() == 7);
        assert("slow_death"@.len() == 10);
        assert("orientation"@.len() == 11);
    }
}

/// Freudian mechanisms as applied to narrative production and character psychology.
/// Source: Freud *The Interpretation of Dreams* (1900), *Beyond the Pleasure Principle* (1920).
/// Reference: `07-drafting/theory-reference/psychoanalytic-narratology.md`
#[derive(Debug, Clone, Copy, PartialEq, Eq, Hash, Structural)]
pub enum FreudianMechanism {
    /// Merging of two (or more) ideas into a single composite image; dream-work logic.
    Condensation,
    /// An idea's affective charge transferred to a different, less threatening object.
    Displacement,
    /// The return of something familiar that has become estranged — *unheimlich*.
    Uncanny,
    /// Compulsive re-enactment of a traumatic situation without resolution.
    RepetitionCompulsion,
    /// Attributing one's own unacceptable impulse to another person.
    Projection,
    /// Constructing logical justification for an unconsciously motivated act.
    Rationalization,
    /// Redirecting an unacceptable impulse toward a socially sanctioned outlet.
    Sublimation,
    /// Banishment of a thought from consciousness; the engine of the symptom.
    Repression,
}

impl SnakeName for FreudianMechanism {
    open spec fn spec_name(self) -> Seq<char> {
        match self {
            FreudianMechanism::Condensation => "condensation"@,
            FreudianMechanism::Displacement => "displacement"@,
            FreudianMechanism::Uncanny => "uncanny"@,
            FreudianMechanism::RepetitionCompulsion => "repetition_compulsion"@,
            FreudianMechanism::Projection => "projection"@,
            FreudianMechanism::Rationalization => "rationalization"@,
            FreudianMechanism::Sublimation => "sublimation"@,
            FreudianMechanism::Repression => "repression"@,
        }
    }

    fn name(&self) -> (r: &'static str) {
        match self {
            FreudianMechanism::Condensation => "condensation",
            FreudianMechanism::Displacement => "displacement",
            FreudianMechanism::Uncanny => "uncanny",
            FreudianMechanism::RepetitionCompulsion => "repetition_compulsion",
            FreudianMechanism::Projection => "projection",
            FreudianMechanism::Rationalization => "rationalization",
            FreudianMechanism::Sublimation => "sublimation",
            FreudianMechanism::Repression => "repression",
        }
    }

    fn from_name(s: &str) -> (r: Option<Self>) {
        let r = if str_eq(s, "condensation") {
            Some(FreudianMechanism::Condensation)
        } else if str_eq(s, "displacement") {
            Some(FreudianMechanism::Displacement)
        } else if str_eq(s, "uncanny") {
            Some(FreudianMechanism::Uncanny)
        } else if str_eq(s, "repetition_compulsion") {
            Some(FreudianMechanism::RepetitionCompulsion)
        } else if str_eq(s, "projection") {
            Some(FreudianMechanism::Projection)
        } else if str_eq(s, "rationalization") {
            Some(FreudianMechanism::Rationalization)
        } else if str_eq(s, "sublimation") {
            Some(FreudianMechanism::Sublimation)
        } else if str_eq(s, "repression") {
            Some(FreudianMechanism::Repression)
        } else {
            None
        };
        r
    }

    proof fn lemma_name_injective(a: Self, b: Self) {
        reveal_strlit("condensation");
        reveal_strlit("displacement");
        reveal_strlit("uncanny");
        reveal_strlit("repetition_compulsion");
        reveal_strlit("projection");
        reveal_strlit("rationalization");
        reveal_strlit("sublimation");
        reveal_strlit("repression");
        assert("condensation"@.len() == 12 && "condensation"@[0] == 'c');
        assert("displacement"@.len() == 12 && "displacement"@[0] == 'd');
        assert("uncanny"@.len() == 7);
        assert("repetition_compulsion"@.len() == 21);
        assert("projection"@.len() == 10 && "projection"@[0] == 'p');
        assert("rationalization"@.len() == 15);
        assert("sublimation"@.len() == 11);
        assert("repression"@.len() == 10 && "repression"@[0] == 'r');
    }
}

/// Lacan's three registers — the structural coordinates of psychic life.
/// Source: Lacan seminars; overview in *Écrits* (1966).
#[derive(Debug, Clone, Copy, PartialEq, Eq, Hash, Structural)]
pub enum LacanRegister {
    /// The pre-linguistic, unmediated, traumatic core that resists symbolization.
    Real,
    /// The domain of language, law, the Other; narrative and social identity.
    Symbolic,
    /// The domain of image, identification, misrecognition; the ego's mirror stage.
    Imaginary,
}

impl SnakeName for LacanRegister {
    open spec fn spec_name(self) -> Seq<char> {
        match self {
            LacanRegister::Real => "real"@,
            LacanRegister::Symbolic => "symbolic"@,
            LacanRegister::Imaginary => "imaginary"@,
        }
    }

    fn name(&self) -> (r: &'static str) {
        match self {
            LacanRegister::Real => "real",
            LacanRegister::Symbolic => "symbolic",
            LacanRegister::Imaginary => "imaginary",
        }
    }

    fn from_name(s: &str) -> (r: Option<Self>) {
        let r = if str_eq(s, "real") {
            Some(LacanRegister::Real)
        } else if str_eq(s, "symbolic") {
            Some(LacanRegister::Symbolic)
        } else if str_eq(s, "imaginary") {
            Some(LacanRegister::Imaginary)
        } else {
            None
        };
        r
    }

    proof fn lemma_name_injective(a: Self, b: Self) {
        reveal_strlit("real");
        reveal_strlit("symbolic");
        reveal_strlit("imaginary");
        assert("real"@.len() == 4);
        assert("symbolic"@.len() == 8);
        assert("imaginary"@.len() == 9);
    }
}

/// Kristeva's categories of the abject — that which threatens the boundary of self.
/// Source: Kristeva *Powers of Horror* (1980).
#[derive(Debug, Clone, Copy, PartialEq, Eq, Hash, Structural)]
pub enum AbjectCategory {
    /// Bodily waste and excretion that must be expelled to maintain selfhood.
    Corporeal,
    /// The maternal body that must be repudiated for the subject to individuate.
    Maternal,
    /// Ritual pollution and taboo objects; the sacred-in-reverse.
    ReligiousDefilement,
    /// The corpse — the ultimate abject, the body that was self but is now other.
    Death,
    /// Social or cultural categories that disturb identity and stable meaning.
    IdentityThreat,
}

impl SnakeName for AbjectCategory {
    open spec fn spec_name(self) -> Seq<char> {
        match self {
            AbjectCategory::Corporeal => "corporeal"@,
            AbjectCategory::Maternal => "maternal"@,
            AbjectCategory::ReligiousDefilement => "religious_defilement"@,
            AbjectCategory::Death => "death"@,
            AbjectCategory::IdentityThreat => "identity_threat"@,
        }
    }

    fn name(&self) -> (r: &'static str) {
        match self {
            AbjectCategory::Corporeal => "corporeal",
            AbjectCategory::Maternal => "maternal",
            AbjectCategory::ReligiousDefilement => "religious_defilement",
            AbjectCategory::Death => "death",
            AbjectCategory::IdentityThreat => "identity_threat",
        }
    }

    fn from_name(s: &str) -> (r: Option<Self>) {
        let r = if str_eq(s, "corporeal") {
            Some(AbjectCategory::Corporeal)
        } else if str_eq(s, "maternal") {
            Some(AbjectCategory::Maternal)
        } else if str_eq(s, "religious_defilement") {
            Some(AbjectCategory::ReligiousDefilement)
        } else if str_eq(s, "death") {
            Some(AbjectCategory::Death)
        } else if str_eq(s, "identity_threat") {
            Some(AbjectCategory::IdentityThreat)
        } else {
            None
        };
        r
    }

    proof fn lemma_name_injective(a: Self, b: Self) {
        reveal_strlit("corporeal");
        reveal_strlit("maternal");
        reveal_strlit("religious_defilement");
        reveal_strlit("death");
        reveal_strlit("identity_threat");
        assert("corporeal"@.len() == 9);
        assert("maternal"@.len() == 8);
        assert("religious_defilement"@.len() == 20);
        assert("death"@.len() == 5);
        assert("identity_threat"@.len() == 15);
    }
}

/// Postcolonial narrative modes and critical categories.
/// Sources: Said *Orientalism* (1978), Spivak *Can the Subaltern Speak?* (1988),
/// Bhabha *The Location of Culture* (1994), Fanon *Black Skin, White Masks* (1952).
/// Reference: `08-revision/critical-theory/postcolonial-narratology.md`
#[derive(Debug, Clone, Copy, PartialEq, Eq, Hash, Structural)]
pub enum PostcolonialMode {
    /// Said: the West's systematic representation of the East as exotic, static, inferior.
    Orientalism,
    /// Bhabha: cultural mixing that produces something new, irreducible to either source.
    Hybridity,
    /// Bhabha: the space of cultural translation where meaning is negotiated between cultures.
    ThirdSpace,
    /// Bhabha: colonial subject imitates colonizer — close but never identical; uncanny to power.
    Mimicry,
    /// Du Bois / Fanon: the divided consciousness of those who see themselves through the colonizer's eyes.
    DoubleConsciousness,
    /// Spivak: the subaltern cannot speak in structures that systematically exclude their voice.
    SubalternSilence,
    /// Active resistance to colonial epistemology and institutional structures.
    Decolonial,
    /// Bhabha: the colonizer's ambivalence — desire and dread toward the colonial other.
    Ambivalence,
    /// Achebe: narrative dehumanization through systematic reduction of a people to background.
    StructuralDehumanization,
    /// Ngũgĩ: the politics of which language carries authority and whose culture is validated.
    LanguagePolitics,
}

impl SnakeName for PostcolonialMode {
    open spec fn spec_name(self) -> Seq<char> {
        match self {
            PostcolonialMode::Orientalism => "orientalism"@,
            PostcolonialMode::Hybridity => "hybridity"@,
            PostcolonialMode::ThirdSpace => "third_space"@,
            PostcolonialMode::Mimicry => "mimicry"@,
            PostcolonialMode::DoubleConsciousness => "double_consciousness"@,
            PostcolonialMode::SubalternSilence => "subaltern_silence"@,
            PostcolonialMode::Decolonial => "decolonial"@,
            PostcolonialMode::Ambivalence => "ambivalence"@,
            PostcolonialMode::StructuralDehumanization => "structural_dehumanization"@,
            PostcolonialMode::LanguagePolitics => "language_politics"@,
        }
    }

    fn name(&self) -> (r: &'static str) {
        match self {
            PostcolonialMode::Orientalism => "orientalism",
            PostcolonialMode::Hybridity => "hybridity",
            PostcolonialMode::ThirdSpace => "third_space",
            PostcolonialMode::Mimicry => "mimicry",
            PostcolonialMode::DoubleConsciousness => "double_consciousness",
            PostcolonialMode::SubalternSilence => "subaltern_silence",
            PostcolonialMode::Decolonial => "decolonial",
            PostcolonialMode::Ambivalence => "ambivalence",
            PostcolonialMode::StructuralDehumanization => "structural_dehumanization",
            PostcolonialMode::LanguagePolitics => "language_politics",
        }
    }

    fn from_name(s: &str) -> (r: Option<Self>) {
        let r = if str_eq(s, "orientalism") {
            Some(PostcolonialMode::Orientalism)
        } else if str_eq(s, "hybridity") {
            Some(PostcolonialMode::Hybridity)
        } else if str_eq(s, "third_space") {
            Some(PostcolonialMode::ThirdSpace)
        } else if str_eq(s, "mimicry") {
            Some(PostcolonialMode::Mimicry)
        } else if str_eq(s, "double_consciousness") {
            Some(PostcolonialMode::DoubleConsciousness)
        } else if str_eq(s, "subaltern_silence") {
            Some(PostcolonialMode::SubalternSilence)
        } else if str_eq(s, "decolonial") {
            Some(PostcolonialMode::Decolonial)
        } else if str_eq(s, "ambivalence") {
            Some(PostcolonialMode::Ambivalence)
        } else if str_eq(s, "structural_dehumanization") {
            Some(PostcolonialMode::StructuralDehumanization)
        } else if str_eq(s, "language_politics") {
            Some(PostcolonialMode::LanguagePolitics)
        } else {
            None
        };
        r
    }

    proof fn lemma_name_injective(a: Self, b: Self) {
        reveal_strlit("orientalism");
        reveal_strlit("hybridity");
        reveal_strlit("third_space");
        reveal_strlit("mimicry");
        reveal_strlit("double_consciousness");
        reveal_strlit("subaltern_silence");
        reveal_strlit("decolonial");
        reveal_strlit("ambivalence");
        reveal_strlit("structural_dehumanization");
        reveal_strlit("language_politics");
        assert("orientalism"@.len() == 11 && "orientalism"@[0] == 'o');
        assert("hybridity"@.len() == 9);
        assert("third_space"@.len() == 11 && "third_space"@[0] == 't');
        assert("mimicry"@.len() == 7);
        assert("double_consciousness"@.len() == 20);
        assert("subaltern_silence"@.len() == 17 && "subaltern_silence"@[0] == 's');
        assert("decolonial"@.len() == 10);
        assert("ambivalence"@.len() == 11 && "ambivalence"@[0] == 'a');
        assert("structural_dehumanization"@.len() == 25);
        assert("language_politics"@.len() == 17 && "language_politics"@[0] == 'l');
    }
}

/// Ecocritical modes for representing environment and ecological crisis.
/// Sources: Buell *The Environmental Imagination* (1995), Morton *Ecology Without Nature* (2007),
/// Nixon *Slow Violence* (2011), Haraway *Staying with the Trouble* (2016).
/// Reference: `08-revision/critical-theory/ecocriticism.md`
#[derive(Debug, Clone, Copy, PartialEq, Eq, Hash, Structural)]
pub enum EcocriticalMode {
    /// Traditional nature as innocent refuge from civilization; idealized wilderness.
    Pastoral,
    /// Pastoral exposed as ideology — the violence beneath the natural idyll.
    AntiPastoral,
    /// The aestheticization of environmental catastrophe; sublime horror of collapse.
    ToxicSublime,
    /// Nixon: dispersed, attritional violence that accumulates invisibly over time — pollution, climate, deforestation.
    SlowViolence,
    /// Morton: ecology without a concept of pristine nature; the mesh, the strange stranger.
    DarkEcology,
    /// Haraway: webs of species relation; humans embedded in multi-species assemblages.
    Multispecies,
    /// Heise: scale problem — attachment to local place vs. sense of planetary belonging.
    SenseOfPlace,
    /// Heise: cognitivized world-citizenship; global risk as narrative subject.
    SenseOfPlanet,
    /// Environmental threat as eschatological; narrative shaped by extinction or collapse.
    Apocalyptic,
}

impl SnakeName for EcocriticalMode {
    open spec fn spec_name(self) -> Seq<char> {
        match self {
            EcocriticalMode::Pastoral => "pastoral"@,
            EcocriticalMode::AntiPastoral => "anti_pastoral"@,
            EcocriticalMode::ToxicSublime => "toxic_sublime"@,
            EcocriticalMode::SlowViolence => "slow_violence"@,
            EcocriticalMode::DarkEcology => "dark_ecology"@,
            EcocriticalMode::Multispecies => "multispecies"@,
            EcocriticalMode::SenseOfPlace => "sense_of_place"@,
            EcocriticalMode::SenseOfPlanet => "sense_of_planet"@,
            EcocriticalMode::Apocalyptic => "apocalyptic"@,
        }
    }

    fn name(&self) -> (r: &'static str) {
        match self {
            EcocriticalMode::Pastoral => "pastoral",
            EcocriticalMode::AntiPastoral => "anti_pastoral",
            EcocriticalMode::ToxicSublime => "toxic_sublime",
            EcocriticalMode::SlowViolence => "slow_violence",
            EcocriticalMode::DarkEcology => "dark_ecology",
            EcocriticalMode::Multispecies => "multispecies",
            EcocriticalMode::SenseOfPlace => "sense_of_place",
            EcocriticalMode::SenseOfPlanet => "sense_of_planet",
            EcocriticalMode::Apocalyptic => "apocalyptic",
        }
    }

    fn from_name(s: &str) -> (r: Option<Self>) {
        let r = if str_eq(s, "pastoral") {
            Some(EcocriticalMode::Pastoral)
        } else if str_eq(s, "anti_pastoral") {
            Some(EcocriticalMode::AntiPastoral)
        } else if str_eq(s, "toxic_sublime") {
            Some(EcocriticalMode::ToxicSublime)
        } else if str_eq(s, "slow_violence") {
            Some(EcocriticalMode::SlowViolence)
        } else if str_eq(s, "dark_ecology") {
            Some(EcocriticalMode::DarkEcology)
        } else if str_eq(s, "multispecies") {
            Some(EcocriticalMode::Multispecies)
        } else if str_eq(s, "sense_of_place") {
            Some(EcocriticalMode::SenseOfPlace)
        } else if str_eq(s, "sense_of_planet") {
            Some(EcocriticalMode::SenseOfPlanet)
        } else if str_eq(s, "apocalyptic") {
            Some(EcocriticalMode::Apocalyptic)
        } else {
            None
        };
        r
    }

    proof fn lemma_name_injective(a: Self, b: Self) {
        reveal_strlit("pastoral");
        reveal_strlit("anti_pastoral");
        reveal_strlit("toxic_sublime");
        reveal_strlit("slow_violence");
        reveal_strlit("dark_ecology");
        reveal_strlit("multispecies");
        reveal_strlit("sense_of_place");
        reveal_strlit("sense_of_planet");
        reveal_strlit("apocalyptic");
        assert("pastoral"@.len() == 8);
        assert("anti_pastoral"@.len() == 13 && "anti_pastoral"@[0] == 'a');
        assert("toxic_sublime"@.len() == 13 && "toxic_sublime"@[0] == 't');
        assert("slow_violence"@.len() == 13 && "slow_violence"@[0] == 's');
        assert("dark_ecology"@.len() == 12 && "dark_ecology"@[0] == 'd');
        assert("multispecies"@.len() == 12 && "multispecies"@[0] == 'm');
        assert("sense_of_place"@.len() == 14);
        assert("sense_of_planet"@.len() == 15);
        assert("apocalyptic"@.len() == 11);
    }
}

/// Image schemas — recurrent kinesthetic-sensory gestalts that structure abstract thought.
/// Source: Johnson *The Body in the Mind* (1987); Lakoff & Johnson *Philosophy in the Flesh* (1999).
/// Reference: `07-drafting/theory-reference/embodied-narration.md`
#[derive(Debug, Clone, Copy, PartialEq, Eq, Hash, Structural)]
pub enum ImageSchema {
    /// In–out; bounded region with interior, exterior, and boundary.
    Containment,
    /// Oriented movement toward a goal: source, path, destination.
    SourcePathGoal,
    /// Application of energy; resistance and overcoming.
    Force,
    /// Equilibrium of counteracting forces.
    Balance,
    /// Physical connection establishing relationship.
    Link,
    /// Centralpoint surrounded by peripheral region.
    CenterPeriphery,
    /// Vertical orientation; up as positive, down as negative in most cultures.
    UpDown,
    /// Recurring process that returns to origin.
    Cycle,
    /// Obstacle preventing motion along a path.
    Blockage,
    /// The same entity in different conditions (caterpillar → butterfly structurally).
    Transformation,
}

impl SnakeName for ImageSchema {
    open spec fn spec_name(self) -> Seq<char> {
        match self {
            ImageSchema::Containment => "containment"@,
            ImageSchema::SourcePathGoal => "source_path_goal"@,
            ImageSchema::Force => "force"@,
            ImageSchema::Balance => "balance"@,
            ImageSchema::Link => "link"@,
            ImageSchema::CenterPeriphery => "center_periphery"@,
            ImageSchema::UpDown => "up_down"@,
            ImageSchema::Cycle => "cycle"@,
            ImageSchema::Blockage => "blockage"@,
            ImageSchema::Transformation => "transformation"@,
        }
    }

    fn name(&self) -> (r: &'static str) {
        match self {
            ImageSchema::Containment => "containment",
            ImageSchema::SourcePathGoal => "source_path_goal",
            ImageSchema::Force => "force",
            ImageSchema::Balance => "balance",
            ImageSchema::Link => "link",
            ImageSchema::CenterPeriphery => "center_periphery",
            ImageSchema::UpDown => "up_down",
            ImageSchema::Cycle => "cycle",
            ImageSchema::Blockage => "blockage",
            ImageSchema::Transformation => "transformation",
        }
    }

    fn from_name(s: &str) -> (r: Option<Self>) {
        let r = if str_eq(s, "containment") {
            Some(ImageSchema::Containment)
        } else if str_eq(s, "source_path_goal") {
            Some(ImageSchema::SourcePathGoal)
        } else if str_eq(s, "force") {
            Some(ImageSchema::Force)
        } else if str_eq(s, "balance") {
            Some(ImageSchema::Balance)
        } else if str_eq(s, "link") {
            Some(ImageSchema::Link)
        } else if str_eq(s, "center_periphery") {
            Some(ImageSchema::CenterPeriphery)
        } else if str_eq(s, "up_down") {
            Some(ImageSchema::UpDown)
        } else if str_eq(s, "cycle") {
            Some(ImageSchema::Cycle)
        } else if str_eq(s, "blockage") {
            Some(ImageSchema::Blockage)
        } else if str_eq(s, "transformation") {
            Some(ImageSchema::Transformation)
        } else {
            None
        };
        r
    }

    proof fn lemma_name_injective(a: Self, b: Self) {
        reveal_strlit("containment");
        reveal_strlit("source_path_goal");
        reveal_strlit("force");
        reveal_strlit("balance");
        reveal_strlit("link");
        reveal_strlit("center_periphery");
        reveal_strlit("up_down");
        reveal_strlit("cycle");
        reveal_strlit("blockage");
        reveal_strlit("transformation");
        assert("containment"@.len() == 11);
        assert("source_path_goal"@.len() == 16 && "source_path_goal"@[0] == 's');
        assert("force"@.len() == 5 && "force"@[0] == 'f');
        assert("balance"@.len() == 7 && "balance"@[0] == 'b');
        assert("link"@.len() == 4);
        assert("center_periphery"@.len() == 16 && "center_periphery"@[0] == 'c');
        assert("up_down"@.len() == 7 && "up_down"@[0] == 'u');
        assert("cycle"@.len() == 5 && "cycle"@[0] == 'c');
        assert("blockage"@.len() == 8);
        assert("transformation"@.len() == 14);
    }
}

/// Defamiliarization and foregrounding modes.
/// Sources: Shklovsky *Art as Technique* (1917); Leech & Short *Style in Fiction* (2007).
/// Reference: `07-drafting/theory-reference/prose-linguistics.md`
#[derive(Debug, Clone, Copy, PartialEq, Eq, Hash, Structural)]
pub enum DefamiliarizationMode {
    /// Shklovsky: perception dulled by habit — what was once strange is now invisible.
    Automatization,
    /// Shklovsky: art makes the familiar strange again; restores perception of form.
    Ostranenie,
    /// Leech/Short: deviation from a linguistic or literary norm (grammar, vocabulary, syntax).
    Deviation,
    /// Leech/Short: regular repetition of a pattern at any linguistic level.
    Parallelism,
    /// Making the reader perceive the technique itself — the brush strokes visible.
    ExposedConstruction,
    /// The deliberate breaking of established automatized pattern.
    PatternBreak,
}

impl SnakeName for DefamiliarizationMode {
    open spec fn spec_name(self) -> Seq<char> {
        match self {
            DefamiliarizationMode::Automatization => "automatization"@,
            DefamiliarizationMode::Ostranenie => "ostranenie"@,
            DefamiliarizationMode::Deviation => "deviation"@,
            DefamiliarizationMode::Parallelism => "parallelism"@,
            DefamiliarizationMode::ExposedConstruction => "exposed_construction"@,
            DefamiliarizationMode::PatternBreak => "pattern_break"@,
        }
    }

    fn name(&self) -> (r: &'static str) {
        match self {
            DefamiliarizationMode::Automatization => "automatization",
            DefamiliarizationMode::Ostranenie => "ostranenie",
            DefamiliarizationMode::Deviation => "deviation",
            DefamiliarizationMode::Parallelism => "parallelism",
            DefamiliarizationMode::ExposedConstruction => "exposed_construction",
            DefamiliarizationMode::PatternBreak => "pattern_break",
        }
    }

    fn from_name(s: &str) -> (r: Option<Self>) {
        let r = if str_eq(s, "automatization") {
            Some(DefamiliarizationMode::Automatization)
        } else if str_eq(s, "ostranenie") {
            Some(DefamiliarizationMode::Ostranenie)
        } else if str_eq(s, "deviation") {
            Some(DefamiliarizationMode::Deviation)
        } else if str_eq(s, "parallelism") {
            Some(DefamiliarizationMode::Parallelism)
        } else if str_eq(s, "exposed_construction") {
            Some(DefamiliarizationMode::ExposedConstruction)
        } else if str_eq(s, "pattern_break") {
            Some(DefamiliarizationMode::PatternBreak)
        } else {
            None
        };
        r
    }

    proof fn lemma_name_injective(a: Self, b: Self) {
        reveal_strlit("automatization");
        reveal_strlit("ostranenie");
        reveal_strlit("deviation");
        reveal_strlit("parallelism");
        reveal_strlit("exposed_construction");
        reveal_strlit("pattern_break");
        assert("automatization"@.len() == 14);
        assert("ostranenie"@.len() == 10);
        assert("deviation"@.len() == 9);
        assert("parallelism"@.len() == 11);
        assert("exposed_construction"@.len() == 20);
        assert("pattern_break"@.len() == 13);
    }
}

/// Greimas's semiotic square — the four positions of the logical square.
/// Source: Greimas *Structural Semantics* (1966).
/// Reference: `01-concept/references/semiotic-square-reference.md`
#[derive(Debug, Clone, Copy, PartialEq, Eq, Hash, Structural)]
pub enum SemioticSquarePosition {
    /// S1: the primary term (e.g. Life, Freedom, Good).
    S1,
    /// S2: the contrary of S1 (e.g. Death, Constraint, Evil).
    S2,
    /// Not-S2: the contradictory of S2; implies S1 but is not identical to it.
    NotS2,
    /// Not-S1: the contradictory of S1; implies S2 but is not identical to it.
    NotS1,
    /// Complex term: both S1 and S2 simultaneously held.
    Complex,
    /// Neutral term: neither S1 nor S2 (the unmarked middle).
    Neutral,
}

impl SnakeName for SemioticSquarePosition {
    open spec fn spec_name(self) -> Seq<char> {
        match self {
            SemioticSquarePosition::S1 => "s1"@,
            SemioticSquarePosition::S2 => "s2"@,
            SemioticSquarePosition::NotS2 => "not_s2"@,
            SemioticSquarePosition::NotS1 => "not_s1"@,
            SemioticSquarePosition::Complex => "complex"@,
            SemioticSquarePosition::Neutral => "neutral"@,
        }
    }

    fn name(&self) -> (r: &'static str) {
        match self {
            SemioticSquarePosition::S1 => "s1",
            SemioticSquarePosition::S2 => "s2",
            SemioticSquarePosition::NotS2 => "not_s2",
            SemioticSquarePosition::NotS1 => "not_s1",
            SemioticSquarePosition::Complex => "complex",
            SemioticSquarePosition::Neutral => "neutral",
        }
    }

    fn from_name(s: &str) -> (r: Option<Self>) {
        let r = if str_eq(s, "s1") {
            Some(SemioticSquarePosition::S1)
        } else if str_eq(s, "s2") {
            Some(SemioticSquarePosition::S2)
        } else if str_eq(s, "not_s2") {
            Some(SemioticSquarePosition::NotS2)
        } else if str_eq(s, "not_s1") {
            Some(SemioticSquarePosition::NotS1)
        } else if str_eq(s, "complex") {
            Some(SemioticSquarePosition::Complex)
        } else if str_eq(s, "neutral") {
            Some(SemioticSquarePosition::Neutral)
        } else {
            None
        };
        r
    }

    proof fn lemma_name_injective(a: Self, b: Self) {
        reveal_strlit("s1");
        reveal_strlit("s2");
        reveal_strlit("not_s2");
        reveal_strlit("not_s1");
        reveal_strlit("complex");
        reveal_strlit("neutral");
        assert("s1"@.len() == 2 && "s1"@[1] == '1');
        assert("s2"@.len() == 2 && "s2"@[1] == '2');
        assert("not_s2"@.len() == 6 && "not_s2"@[5] == '2');
        assert("not_s1"@.len() == 6 && "not_s1"@[5] == '1');
        assert("complex"@.len() == 7 && "complex"@[0] == 'c');
        assert("neutral"@.len() == 7 && "neutral"@[0] == 'n');
    }
}

/// Experimental narration modes — deviations from conventionally transparent narration.
/// Sources: Booth *The Rhetoric of Fiction* (1961), Waugh *Metafiction* (1984),
/// McHale *Postmodernist Fiction* (1987).
/// Reference: `07-drafting/theory-reference/experimental-narration.md`
#[derive(Debug, Clone, Copy, PartialEq, Eq, Hash, Structural)]
pub enum ExperimentalNarrationMode {
    /// Booth: narrator whose testimony is systematically undermined by the implied author.
    UnreliableNarrator,
    /// Waugh/McHale: fiction that foregrounds its own constructedness; the frame breaks.
    Metafictional,
    /// Narrative without stable chronology; mosaic, shattered, or collaged structure.
    Fragmented,
    /// Second-person address ('you') implicates the reader as protagonist.
    SecondPerson,
    /// Oulipo tradition: writing produced or constrained by a formal rule.
    ConstraintBased,
    /// Bakhtin: multiple independent consciousnesses; no single authorial perspective dominates.
    Polyphonic,
    /// Aarseth: text requiring non-trivial traversal effort; ergodic / interactive.
    Ergodic,
    /// Nabokov/Borges: the character becomes aware they are in a narrative.
    Metaleptic,
}

impl SnakeName for ExperimentalNarrationMode {
    open spec fn spec_name(self) -> Seq<char> {
        match self {
            ExperimentalNarrationMode::UnreliableNarrator => "unreliable_narrator"@,
            ExperimentalNarrationMode::Metafictional => "metafictional"@,
            ExperimentalNarrationMode::Fragmented => "fragmented"@,
            ExperimentalNarrationMode::SecondPerson => "second_person"@,
            ExperimentalNarrationMode::ConstraintBased => "constraint_based"@,
            ExperimentalNarrationMode::Polyphonic => "polyphonic"@,
            ExperimentalNarrationMode::Ergodic => "ergodic"@,
            ExperimentalNarrationMode::Metaleptic => "metaleptic"@,
        }
    }

    fn name(&self) -> (r: &'static str) {
        match self {
            ExperimentalNarrationMode::UnreliableNarrator => "unreliable_narrator",
            ExperimentalNarrationMode::Metafictional => "metafictional",
            ExperimentalNarrationMode::Fragmented => "fragmented",
            ExperimentalNarrationMode::SecondPerson => "second_person",
            ExperimentalNarrationMode::ConstraintBased => "constraint_based",
            ExperimentalNarrationMode::Polyphonic => "polyphonic",
            ExperimentalNarrationMode::Ergodic => "ergodic",
            ExperimentalNarrationMode::Metaleptic => "metaleptic",
        }
    }

    fn from_name(s: &str) -> (r: Option<Self>) {
        let r = if str_eq(s, "unreliable_narrator") {
            Some(ExperimentalNarrationMode::UnreliableNarrator)
        } else if str_eq(s, "metafictional") {
            Some(ExperimentalNarrationMode::Metafictional)
        } else if str_eq(s, "fragmented") {
            Some(ExperimentalNarrationMode::Fragmented)
        } else if str_eq(s, "second_person") {
            Some(ExperimentalNarrationMode::SecondPerson)
        } else if str_eq(s, "constraint_based") {
            Some(ExperimentalNarrationMode::ConstraintBased)
        } else if str_eq(s, "polyphonic") {
            Some(ExperimentalNarrationMode::Polyphonic)
        } else if str_eq(s, "ergodic") {
            Some(ExperimentalNarrationMode::Ergodic)
        } else if str_eq(s, "metaleptic") {
            Some(ExperimentalNarrationMode::Metaleptic)
        } else {
            None
        };
        r
    }

    proof fn lemma_name_injective(a: Self, b: Self) {
        reveal_strlit("unreliable_narrator");
        reveal_strlit("metafictional");
        reveal_strlit("fragmented");
        reveal_strlit("second_person");
        reveal_strlit("constraint_based");
        reveal_strlit("polyphonic");
        reveal_strlit("ergodic");
        reveal_strlit("metaleptic");
        assert("unreliable_narrator"@.len() == 19);
        assert("metafictional"@.len() == 13 && "metafictional"@[0] == 'm');
        assert("fragmented"@.len() == 10 && "fragmented"@[0] == 'f');
        assert("second_person"@.len() == 13 && "second_person"@[0] == 's');
        assert("constraint_based"@.len() == 16);
        assert("polyphonic"@.len() == 10 && "polyphonic"@[0] == 'p');
        assert("ergodic"@.len() == 7);
        assert("metaleptic"@.len() == 10 && "metaleptic"@[0] == 'm');
    }
}

/// Posthumanist narrative modes — how narrative frames nonhuman, animal, machine subjects.
/// Sources: Wolfe *Animal Rites* (2003), Braidotti *The Posthuman* (2013),
/// Hayles *How We Became Posthuman* (1999).
/// Reference: `08-revision/critical-theory/posthumanism-and-nonhuman.md`
#[derive(Debug, Clone, Copy, PartialEq, Eq, Hash, Structural)]
pub enum PosthumanMode {
    /// Wolfe: approaching animal experience through its own Umwelt — non-humanizing.
    AnimalAlterity,
    /// Braidotti: process of becoming-animal; the human boundary is crossed imaginatively.
    BecomingAnimal,
    /// Braidotti: the human-machine assemblage; cyborg consciousness.
    BecomingMachine,
    /// Braidotti: zoe (bare life) as the force that exceeds the human subject.
    ZoeCentered,
    /// Hayles: consciousness as pattern of information rather than embodied continuity.
    EmbodiedInformation,
    /// Clark: mind extended into tools, environment, others; cognition beyond the skull.
    ExtendedCognition,
    /// Distributed and collective nonhuman agency — the network, the swarm, the ecosystem.
    NonhumanAgency,
}

impl SnakeName for PosthumanMode {
    open spec fn spec_name(self) -> Seq<char> {
        match self {
            PosthumanMode::AnimalAlterity => "animal_alterity"@,
            PosthumanMode::BecomingAnimal => "becoming_animal"@,
            PosthumanMode::BecomingMachine => "becoming_machine"@,
            PosthumanMode::ZoeCentered => "zoe_centered"@,
            PosthumanMode::EmbodiedInformation => "embodied_information"@,
            PosthumanMode::ExtendedCognition => "extended_cognition"@,
            PosthumanMode::NonhumanAgency => "nonhuman_agency"@,
        }
    }

    fn name(&self) -> (r: &'static str) {
        match self {
            PosthumanMode::AnimalAlterity => "animal_alterity",
            PosthumanMode::BecomingAnimal => "becoming_animal",
            PosthumanMode::BecomingMachine => "becoming_machine",
            PosthumanMode::ZoeCentered => "zoe_centered",
            PosthumanMode::EmbodiedInformation => "embodied_information",
            PosthumanMode::ExtendedCognition => "extended_cognition",
            PosthumanMode::NonhumanAgency => "nonhuman_agency",
        }
    }

    fn from_name(s: &str) -> (r: Option<Self>) {
        let r = if str_eq(s, "animal_alterity") {
            Some(PosthumanMode::AnimalAlterity)
        } else if str_eq(s, "becoming_animal") {
            Some(PosthumanMode::BecomingAnimal)
        } else if str_eq(s, "becoming_machine") {
            Some(PosthumanMode::BecomingMachine)
        } else if str_eq(s, "zoe_centered") {
            Some(PosthumanMode::ZoeCentered)
        } else if str_eq(s, "embodied_information") {
            Some(PosthumanMode::EmbodiedInformation)
        } else if str_eq(s, "extended_cognition") {
            Some(PosthumanMode::ExtendedCognition)
        } else if str_eq(s, "nonhuman_agency") {
            Some(PosthumanMode::NonhumanAgency)
        } else {
            None
        };
        r
    }

    proof fn lemma_name_injective(a: Self, b: Self) {
        reveal_strlit("animal_alterity");
        reveal_strlit("becoming_animal");
        reveal_strlit("becoming_machine");
        reveal_strlit("zoe_centered");
        reveal_strlit("embodied_information");
        reveal_strlit("extended_cognition");
        reveal_strlit("nonhuman_agency");
        assert("animal_alterity"@.len() == 15 && "animal_alterity"@[0] == 'a');
        assert("becoming_animal"@.len() == 15 && "becoming_animal"@[0] == 'b');
        assert("becoming_machine"@.len() == 16);
        assert("zoe_centered"@.len() == 12);
        assert("embodied_information"@.len() == 20);
        assert("extended_cognition"@.len() == 18);
        assert("nonhuman_agency"@.len() == 15 && "nonhuman_agency"@[0] == 'n');
    }
}

/// Marxist and class-based narrative analysis modes.
/// Sources: Jameson *The Political Unconscious* (1981), Williams *Marxism and Literature* (1977),
/// Lukács *Studies in European Realism* (1950), Eagleton *Criticism and Ideology* (1976).
/// Reference: `08-revision/critical-theory/class-and-marxist-narratology.md`
#[derive(Debug, Clone, Copy, PartialEq, Eq, Hash, Structural)]
pub enum MarxistNarrativeMode {
    /// Jameson: the ideological horizon that cannot be thought directly — only symptomatically.
    PoliticalUnconscious,
    /// Goldmann: homological relationship between narrative structure and social class's world-view.
    Homology,
    /// Williams: the dominant form of culture — what the current order reproduces.
    DominantStructure,
    /// Williams: surviving formations from a previous social order; not fully residual.
    ResidualStructure,
    /// Williams: formation not yet dominant; harbinger of a new cultural logic.
    EmergentStructure,
    /// Marx/Lukács: social relations between people misapprehended as relations between things.
    Reification,
    /// Eagleton: literary text as site of ideological production, not merely reflection.
    IdeologicalProduction,
    /// Lukács: the bourgeois novel form as historically conditioned by capital's rise.
    RealismAsBourgeoisForm,
}

impl SnakeName for MarxistNarrativeMode {
    open spec fn spec_name(self) -> Seq<char> {
        match self {
            MarxistNarrativeMode::PoliticalUnconscious => "political_unconscious"@,
            MarxistNarrativeMode::Homology => "homology"@,
            MarxistNarrativeMode::DominantStructure => "dominant_structure"@,
            MarxistNarrativeMode::ResidualStructure => "residual_structure"@,
            MarxistNarrativeMode::EmergentStructure => "emergent_structure"@,
            MarxistNarrativeMode::Reification => "reification"@,
            MarxistNarrativeMode::IdeologicalProduction => "ideological_production"@,
            MarxistNarrativeMode::RealismAsBourgeoisForm => "realism_as_bourgeois_form"@,
        }
    }

    fn name(&self) -> (r: &'static str) {
        match self {
            MarxistNarrativeMode::PoliticalUnconscious => "political_unconscious",
            MarxistNarrativeMode::Homology => "homology",
            MarxistNarrativeMode::DominantStructure => "dominant_structure",
            MarxistNarrativeMode::ResidualStructure => "residual_structure",
            MarxistNarrativeMode::EmergentStructure => "emergent_structure",
            MarxistNarrativeMode::Reification => "reification",
            MarxistNarrativeMode::IdeologicalProduction => "ideological_production",
            MarxistNarrativeMode::RealismAsBourgeoisForm => "realism_as_bourgeois_form",
        }
    }

    fn from_name(s: &str) -> (r: Option<Self>) {
        let r = if str_eq(s, "political_unconscious") {
            Some(MarxistNarrativeMode::PoliticalUnconscious)
        } else if str_eq(s, "homology") {
            Some(MarxistNarrativeMode::Homology)
        } else if str_eq(s, "dominant_structure") {
            Some(MarxistNarrativeMode::DominantStructure)
        } else if str_eq(s, "residual_structure") {
            Some(MarxistNarrativeMode::ResidualStructure)
        } else if str_eq(s, "emergent_structure") {
            Some(MarxistNarrativeMode::EmergentStructure)
        } else if str_eq(s, "reification") {
            Some(MarxistNarrativeMode::Reification)
        } else if str_eq(s, "ideological_production") {
            Some(MarxistNarrativeMode::IdeologicalProduction)
        } else if str_eq(s, "realism_as_bourgeois_form") {
            Some(MarxistNarrativeMode::RealismAsBourgeoisForm)
        } else {
            None
        };
        r
    }

    proof fn lemma_name_injective(a: Self, b: Self) {
        reveal_strlit("political_unconscious");
        reveal_strlit("homology");
        reveal_strlit("dominant_structure");
        reveal_strlit("residual_structure");
        reveal_strlit("emergent_structure");
        reveal_strlit("reification");
        reveal_strlit("ideological_production");
        reveal_strlit("realism_as_bourgeois_form");
        assert("political_unconscious"@.len() == 21);
        assert("homology"@.len() == 8);
        assert("dominant_structure"@.len() == 18 && "dominant_structure"@[0] == 'd');
        assert("residual_structure"@.len() == 18 && "residual_structure"@[0] == 'r');
        assert("emergent_structure"@.len() == 18 && "emergent_structure"@[0] == 'e');
        assert("reification"@.len() == 11);
        assert("ideological_production"@.len() == 22);
        assert("realism_as_bourgeois_form"@.len() == 25);
    }
}

/// Feminist narrative categories.
/// Sources: Lanser *Fictions of Authority* (1992), DuPlessis *Writing Beyond the Ending* (1985),
/// Warhol *Gendered Interventions* (1989), Fetterley *The Resisting Reader* (1978).
/// Reference: `08-revision/critical-theory/feminist-narratology.md`
#[derive(Debug, Clone, Copy, PartialEq, Eq, Hash, Structural)]
pub enum FeministNarrativeType {
    /// Warhol: narrator who directly addresses the narratee to encourage emotional identification.
    EngagingNarrator,
    /// Warhol: narrator who creates ironic/critical distance, refusing sentimental complicity.
    DistancingNarrator,
    /// DuPlessis: the nineteenth-century convention that resolves women's stories through marriage or death.
    MarriagePlot,
    /// DuPlessis: narrative strategies that write beyond the marriage/death ending for women.
    WritingBeyondTheEnding,
    /// Fetterley: the process by which female readers are trained to identify with male values against their own interests.
    Immasculation,
    /// Miller: conventions that govern what is 'plausible' for female characters — often ideologically determined.
    PlausibilityConvention,
    /// Lanser: narrative authority as gendered — female narrators face specific legitimation problems.
    AuthorityAndGender,
    /// Women's cultural tradition as distinct resource distinct from the dominant tradition.
    WomensCulture,
}

impl SnakeName for FeministNarrativeType {
    open spec fn spec_name(self) -> Seq<char> {
        match self {
            FeministNarrativeType::EngagingNarrator => "engaging_narrator"@,
            FeministNarrativeType::DistancingNarrator => "distancing_narrator"@,
            FeministNarrativeType::MarriagePlot => "marriage_plot"@,
            FeministNarrativeType::WritingBeyondTheEnding => "writing_beyond_the_ending"@,
            FeministNarrativeType::Immasculation => "immasculation"@,
            FeministNarrativeType::PlausibilityConvention => "plausibility_convention"@,
            FeministNarrativeType::AuthorityAndGender => "authority_and_gender"@,
            FeministNarrativeType::WomensCulture => "womens_culture"@,
        }
    }

    fn name(&self) -> (r: &'static str) {
        match self {
            FeministNarrativeType::EngagingNarrator => "engaging_narrator",
            FeministNarrativeType::DistancingNarrator => "distancing_narrator",
            FeministNarrativeType::MarriagePlot => "marriage_plot",
            FeministNarrativeType::WritingBeyondTheEnding => "writing_beyond_the_ending",
            FeministNarrativeType::Immasculation => "immasculation",
            FeministNarrativeType::PlausibilityConvention => "plausibility_convention",
            FeministNarrativeType::AuthorityAndGender => "authority_and_gender",
            FeministNarrativeType::WomensCulture => "womens_culture",
        }
    }

    fn from_name(s: &str) -> (r: Option<Self>) {
        let r = if str_eq(s, "engaging_narrator") {
            Some(FeministNarrativeType::EngagingNarrator)
        } else if str_eq(s, "distancing_narrator") {
            Some(FeministNarrativeType::DistancingNarrator)
        } else if str_eq(s, "marriage_plot") {
            Some(FeministNarrativeType::MarriagePlot)
        } else if str_eq(s, "writing_beyond_the_ending") {
            Some(FeministNarrativeType::WritingBeyondTheEnding)
        } else if str_eq(s, "immasculation") {
            Some(FeministNarrativeType::Immasculation)
        } else if str_eq(s, "plausibility_convention") {
            Some(FeministNarrativeType::PlausibilityConvention)
        } else if str_eq(s, "authority_and_gender") {
            Some(FeministNarrativeType::AuthorityAndGender)
        } else if str_eq(s, "womens_culture") {
            Some(FeministNarrativeType::WomensCulture)
        } else {
            None
        };
        r
    }

    proof fn lemma_name_injective(a: Self, b: Self) {
        reveal_strlit("engaging_narrator");
        reveal_strlit("distancing_narrator");
        reveal_strlit("marriage_plot");
        reveal_strlit("writing_beyond_the_ending");
        reveal_strlit("immasculation");
        reveal_strlit("plausibility_convention");
        reveal_strlit("authority_and_gender");
        reveal_strlit("womens_culture");
        assert("engaging_narrator"@.len() == 17);
        assert("distancing_narrator"@.len() == 19);
        assert("marriage_plot"@.len() == 13 && "marriage_plot"@[0] == 'm');
        assert("writing_beyond_the_ending"@.len() == 25);
        assert("immasculation"@.len() == 13 && "immasculation"@[0] == 'i');
        assert("plausibility_convention"@.len() == 23);
        assert("authority_and_gender"@.len() == 20);
        assert("womens_culture"@.len() == 14);
    }
}

/// Signifying and related modes from the African-American literary tradition.
/// Sources: Gates *The Signifying Monkey* (1988), Baker *Blues, Ideology and Afro-American Literature* (1984),
/// Morrison *Playing in the Dark* (1992), Hurston *Their Eyes Were Watching God* (1937).
/// Reference: `references/african-american-narrative-tradition.md`
#[derive(Debug, Clone, Copy, PartialEq, Eq, Hash, Structural)]
pub enum SignifyingMode {
    /// Gates: repetition with a difference — texts revise and signify on prior texts.
    RepetitionWithDifference,
    /// Gates: indirect, tonal signification through implication and double-voiced discourse.
    SignifyinTonal,
    /// Gates: direct signification — explicit revision of a prior text or tradition.
    SignifyinDirect,
    /// Gates: metaphoric indirection; the signifier slides under the surface of the signified.
    MetaphoricIndirection,
    /// Imitation of another's style, but with parodic or critical intent.
    Pastiche,
    /// Hurston: vernacular voice as the primary medium; the language of community speaks through the text.
    SpeakerlyText,
    /// Baker: the blues matrix — music as cultural epistemology; narrative shaped by blues formal logic.
    BluesAesthetic,
    /// Morrison: the presence of Africanist imagery and shadow in 'white' American literary texts.
    AfricanistPresence,
}

impl SnakeName for SignifyingMode {
    open spec fn spec_name(self) -> Seq<char> {
        match self {
            SignifyingMode::RepetitionWithDifference => "repetition_with_difference"@,
            SignifyingMode::SignifyinTonal => "signifyin_tonal"@,
            SignifyingMode::SignifyinDirect => "signifyin_direct"@,
            SignifyingMode::MetaphoricIndirection => "metaphoric_indirection"@,
            SignifyingMode::Pastiche => "pastiche"@,
            SignifyingMode::SpeakerlyText => "speakerly_text"@,
            SignifyingMode::BluesAesthetic => "blues_aesthetic"@,
            SignifyingMode::AfricanistPresence => "africanist_presence"@,
        }
    }

    fn name(&self) -> (r: &'static str) {
        match self {
            SignifyingMode::RepetitionWithDifference => "repetition_with_difference",
            SignifyingMode::SignifyinTonal => "signifyin_tonal",
            SignifyingMode::SignifyinDirect => "signifyin_direct",
            SignifyingMode::MetaphoricIndirection => "metaphoric_indirection",
            SignifyingMode::Pastiche => "pastiche",
            SignifyingMode::SpeakerlyText => "speakerly_text",
            SignifyingMode::BluesAesthetic => "blues_aesthetic",
            SignifyingMode::AfricanistPresence => "africanist_presence",
        }
    }

    fn from_name(s: &str) -> (r: Option<Self>) {
        let r = if str_eq(s, "repetition_with_difference") {
            Some(SignifyingMode::RepetitionWithDifference)
        } else if str_eq(s, "signifyin_tonal") {
            Some(SignifyingMode::SignifyinTonal)
        } else if str_eq(s, "signifyin_direct") {
            Some(SignifyingMode::SignifyinDirect)
        } else if str_eq(s, "metaphoric_indirection") {
            Some(SignifyingMode::MetaphoricIndirection)
        } else if str_eq(s, "pastiche") {
            Some(SignifyingMode::Pastiche)
        } else if str_eq(s, "speakerly_text") {
            Some(SignifyingMode::SpeakerlyText)
        } else if str_eq(s, "blues_aesthetic") {
            Some(SignifyingMode::BluesAesthetic)
        } else if str_eq(s, "africanist_presence") {
            Some(SignifyingMode::AfricanistPresence)
        } else {
            None
        };
        r
    }

    proof fn lemma_name_injective(a: Self, b: Self) {
        reveal_strlit("repetition_with_difference");
        reveal_strlit("signifyin_tonal");
        reveal_strlit("signifyin_direct");
        reveal_strlit("metaphoric_indirection");
        reveal_strlit("pastiche");
        reveal_strlit("speakerly_text");
        reveal_strlit("blues_aesthetic");
        reveal_strlit("africanist_presence");
        assert("repetition_with_difference"@.len() == 26);
        assert("signifyin_tonal"@.len() == 15 && "signifyin_tonal"@[0] == 's');
        assert("signifyin_direct"@.len() == 16);
        assert("metaphoric_indirection"@.len() == 22);
        assert("pastiche"@.len() == 8);
        assert("speakerly_text"@.len() == 14);
        assert("blues_aesthetic"@.len() == 15 && "blues_aesthetic"@[0] == 'b');
        assert("africanist_presence"@.len() == 19);
    }
}

/// Cognitive narrative modes — how minds, comprehension, and emotion operate in narrative.
/// Sources: Fludernik *Towards a Natural Narratology* (1996), Palmer *Fictional Minds* (2004),
/// Hogan *The Mind and Its Stories* (2003), Nünning *Unreliable Narration* (1999).
/// Reference: `references/cognitive-narratology-reference.md`
#[derive(Debug, Clone, Copy, PartialEq, Eq, Hash, Structural)]
pub enum CognitiveNarrativeMode {
    /// Fludernik: narrative as the representation of conscious human experience; experientiality as the core criterion.
    Experientiality,
    /// Fludernik: texts conforming to natural (oral, conversational) narrative schemas.
    NaturalNarrative,
    /// Palmer: the continuing, developing consciousness of fictional characters as primary narrative engine.
    ContinuingConsciousness,
    /// Palmer: the shared, group, collective minds of characters — social mind in action.
    IntermentalThought,
    /// Hogan: universal emotional story structures (heroic, romantic, sacrificial) driven by affect.
    AffectiveScript,
    /// Nünning: unreliability detected through frame comparison between narrator and implied-author frames.
    FrameBasedUnreliability,
}

impl SnakeName for CognitiveNarrativeMode {
    open spec fn spec_name(self) -> Seq<char> {
        match self {
            CognitiveNarrativeMode::Experientiality => "experientiality"@,
            CognitiveNarrativeMode::NaturalNarrative => "natural_narrative"@,
            CognitiveNarrativeMode::ContinuingConsciousness => "continuing_consciousness"@,
            CognitiveNarrativeMode::IntermentalThought => "intermental_thought"@,
            CognitiveNarrativeMode::AffectiveScript => "affective_script"@,
            CognitiveNarrativeMode::FrameBasedUnreliability => "frame_based_unreliability"@,
        }
    }

    fn name(&self) -> (r: &'static str) {
        match self {
            CognitiveNarrativeMode::Experientiality => "experientiality",
            CognitiveNarrativeMode::NaturalNarrative => "natural_narrative",
            CognitiveNarrativeMode::ContinuingConsciousness => "continuing_consciousness",
            CognitiveNarrativeMode::IntermentalThought => "intermental_thought",
            CognitiveNarrativeMode::AffectiveScript => "affective_script",
            CognitiveNarrativeMode::FrameBasedUnreliability => "frame_based_unreliability",
        }
    }

    fn from_name(s: &str) -> (r: Option<Self>) {
        let r = if str_eq(s, "experientiality") {
            Some(CognitiveNarrativeMode::Experientiality)
        } else if str_eq(s, "natural_narrative") {
            Some(CognitiveNarrativeMode::NaturalNarrative)
        } else if str_eq(s, "continuing_consciousness") {
            Some(CognitiveNarrativeMode::ContinuingConsciousness)
        } else if str_eq(s, "intermental_thought") {
            Some(CognitiveNarrativeMode::IntermentalThought)
        } else if str_eq(s, "affective_script") {
            Some(CognitiveNarrativeMode::AffectiveScript)
        } else if str_eq(s, "frame_based_unreliability") {
            Some(CognitiveNarrativeMode::FrameBasedUnreliability)
        } else {
            None
        };
        r
    }

    proof fn lemma_name_injective(a: Self, b: Self) {
        reveal_strlit("experientiality");
        reveal_strlit("natural_narrative");
        reveal_strlit("continuing_consciousness");
        reveal_strlit("intermental_thought");
        reveal_strlit("affective_script");
        reveal_strlit("frame_based_unreliability");
        assert("experientiality"@.len() == 15);
        assert("natural_narrative"@.len() == 17);
        assert("continuing_consciousness"@.len() == 24);
        assert("intermental_thought"@.len() == 19);
        assert("affective_script"@.len() == 16);
        assert("frame_based_unreliability"@.len() == 25);
    }
}

/// Prosodic and verse form elements — for verse novel and prose-poetry work.
/// Sources: Fussell *Poetic Meter and Poetic Form* (1965), Hartman *Free Verse* (1980),
/// Attridge *The Rhythms of English Poetry* (1982).
/// Reference: `07-drafting/theory-reference/verse-novel-and-prose-poetry.md`
#[derive(Debug, Clone, Copy, PartialEq, Eq, Hash, Structural)]
pub enum ProsodicElement {
    /// Recurring pattern of stressed and unstressed syllables.
    Meter,
    /// Repetition of terminal sounds; masculine, feminine, slant, eye.
    Rhyme,
    /// The point where a line of verse ends — a unit of meaning independent of syntax.
    LineBreak,
    /// Continuation of a syntactic unit across a line boundary; tension between syntax and line.
    Enjambment,
    /// A pause within a line, often marked by punctuation; breath and rhythm.
    Caesura,
    /// Visual arrangement of space on the page as a meaning-bearing element.
    WhiteSpace,
    /// Repetition of initial consonant sounds.
    Alliteration,
    /// Repetition of vowel sounds within nearby words.
    Assonance,
    /// A grouping of lines forming a unit; the stanza as formal container.
    StanzaForm,
    /// The overall rhythmic movement without fixed meter; breath, breath-group.
    FreeVerseRhythm,
}

impl SnakeName for ProsodicElement {
    open spec fn spec_name(self) -> Seq<char> {
        match self {
            ProsodicElement::Meter => "meter"@,
            ProsodicElement::Rhyme => "rhyme"@,
            ProsodicElement::LineBreak => "line_break"@,
            ProsodicElement::Enjambment => "enjambment"@,
            ProsodicElement::Caesura => "caesura"@,
            ProsodicElement::WhiteSpace => "white_space"@,
            ProsodicElement::Alliteration => "alliteration"@,
            ProsodicElement::Assonance => "assonance"@,
            ProsodicElement::StanzaForm => "stanza_form"@,
            ProsodicElement::FreeVerseRhythm => "free_verse_rhythm"@,
        }
    }

    fn name(&self) -> (r: &'static str) {
        match self {
            ProsodicElement::Meter => "meter",
            ProsodicElement::Rhyme => "rhyme",
            ProsodicElement::LineBreak => "line_break",
            ProsodicElement::Enjambment => "enjambment",
            ProsodicElement::Caesura => "caesura",
            ProsodicElement::WhiteSpace => "white_space",
            ProsodicElement::Alliteration => "alliteration",
            ProsodicElement::Assonance => "assonance",
            ProsodicElement::StanzaForm => "stanza_form",
            ProsodicElement::FreeVerseRhythm => "free_verse_rhythm",
        }
    }

    fn from_name(s: &str) -> (r: Option<Self>) {
        let r = if str_eq(s, "meter") {
            Some(ProsodicElement::Meter)
        } else if str_eq(s, "rhyme") {
            Some(ProsodicElement::Rhyme)
        } else if str_eq(s, "line_break") {
            Some(ProsodicElement::LineBreak)
        } else if str_eq(s, "enjambment") {
            Some(ProsodicElement::Enjambment)
        } else if str_eq(s, "caesura") {
            Some(ProsodicElement::Caesura)
        } else if str_eq(s, "white_space") {
            Some(ProsodicElement::WhiteSpace)
        } else if str_eq(s, "alliteration") {
            Some(ProsodicElement::Alliteration)
        } else if str_eq(s, "assonance") {
            Some(ProsodicElement::Assonance)
        } else if str_eq(s, "stanza_form") {
            Some(ProsodicElement::StanzaForm)
        } else if str_eq(s, "free_verse_rhythm") {
            Some(ProsodicElement::FreeVerseRhythm)
        } else {
            None
        };
        r
    }

    proof fn lemma_name_injective(a: Self, b: Self) {
        reveal_strlit("meter");
        reveal_strlit("rhyme");
        reveal_strlit("line_break");
        reveal_strlit("enjambment");
        reveal_strlit("caesura");
        reveal_strlit("white_space");
        reveal_strlit("alliteration");
        reveal_strlit("assonance");
        reveal_strlit("stanza_form");
        reveal_strlit("free_verse_rhythm");
        assert("meter"@.len() == 5 && "meter"@[0] == 'm');
        assert("rhyme"@.len() == 5 && "rhyme"@[0] == 'r');
        assert("line_break"@.len() == 10 && "line_break"@[0] == 'l');
        assert("enjambment"@.len() == 10 && "enjambment"@[0] == 'e');
        assert("caesura"@.len() == 7);
        assert("white_space"@.len() == 11 && "white_space"@[0] == 'w');
        assert("alliteration"@.len() == 12);
        assert("assonance"@.len() == 9);
        assert("stanza_form"@.len() == 11 && "stanza_form"@[0] == 's');
        assert("free_verse_rhythm"@.len() == 17);
    }
}

/// Propp *Morphology of the Folktale* (1928/1968) — the 31 narrative functions
/// condensed into a type system for structural annotation.  Not every story uses
/// all 31; the sequence is invariable when functions are present.
#[derive(Debug, Clone, Copy, PartialEq, Eq, Hash, Structural)]
pub enum ProppFunction {
    /// I — A member of the family absents themselves from home.
    Absentation,
    /// II — A prohibition or rule is established.
    Interdiction,
    /// III — The prohibition is violated.
    Violation,
    /// IV — Villain reconnoitres the hero's family.
    Reconnaissance,
    /// V — Villain receives information about the hero.
    Delivery,
    /// VI — Villain attempts to deceive the hero.
    Trickery,
    /// VII — Hero is deceived; unwitting complicity.
    Complicity,
    /// VIII — Villain causes harm or injury; the lack is established.
    VillainyCausedLack,
    /// IX — Misfortune is made known; hero is dispatched.
    Mediation,
    /// X — Hero agrees to counter the villainy or seeks to remedy the lack.
    CounterAction,
    /// XI — Hero leaves home.
    Departure,
    /// XII — Hero is tested by a donor figure.
    TestingDonor,
    /// XIII — Hero reacts to the test (often correctly).
    ReactionToTest,
    /// XIV — Hero acquires a magical agent or helper.
    AcquisitionOfAgent,
    /// XV — Hero is led to the object of the search.
    Guidance,
    /// XVI — Hero and villain join in direct struggle.
    Struggle,
    /// XVII — Hero is branded or marked.
    Branding,
    /// XVIII — Villain is defeated.
    VillainDefeated,
    /// XIX — Initial misfortune or lack is resolved.
    Liquidation,
    /// XX — Hero returns home.
    ReturnHome,
    /// XXI — Hero is pursued by villain or antagonist force.
    Pursuit,
    /// XXII — Hero is rescued from pursuit.
    Rescue,
    /// XXIII — Hero returns home unrecognized.
    UnrecognizedArrival,
    /// XXIV — False hero presents unfounded claims.
    UnfoundedClaims,
    /// XXV — A difficult task is proposed to the hero.
    DifficultTask,
    /// XXVI — The task is accomplished.
    TaskAccomplished,
    /// XXVII — Hero is recognized (branding, object).
    Recognition,
    /// XXVIII — False hero or villain is exposed.
    Exposure,
    /// XXIX — Hero is given a new appearance or transfigured.
    Transfiguration,
    /// XXX — Villain is punished.
    Punishment,
    /// XXXI — Hero is married and/or ascends the throne; reward.
    Wedding,
}

impl SnakeName for ProppFunction {
    open spec fn spec_name(self) -> Seq<char> {
        match self {
            ProppFunction::Absentation => "absentation"@,
            ProppFunction::Interdiction => "interdiction"@,
            ProppFunction::Violation => "violation"@,
            ProppFunction::Reconnaissance => "reconnaissance"@,
            ProppFunction::Delivery => "delivery"@,
            ProppFunction::Trickery => "trickery"@,
            ProppFunction::Complicity => "complicity"@,
            ProppFunction::VillainyCausedLack => "villainy_caused_lack"@,
            ProppFunction::Mediation => "mediation"@,
            ProppFunction::CounterAction => "counter_action"@,
            ProppFunction::Departure => "departure"@,
            ProppFunction::TestingDonor => "testing_donor"@,
            ProppFunction::ReactionToTest => "reaction_to_test"@,
            ProppFunction::AcquisitionOfAgent => "acquisition_of_agent"@,
            ProppFunction::Guidance => "guidance"@,
            ProppFunction::Struggle => "struggle"@,
            ProppFunction::Branding => "branding"@,
            ProppFunction::VillainDefeated => "villain_defeated"@,
            ProppFunction::Liquidation => "liquidation"@,
            ProppFunction::ReturnHome => "return_home"@,
            ProppFunction::Pursuit => "pursuit"@,
            ProppFunction::Rescue => "rescue"@,
            ProppFunction::UnrecognizedArrival => "unrecognized_arrival"@,
            ProppFunction::UnfoundedClaims => "unfounded_claims"@,
            ProppFunction::DifficultTask => "difficult_task"@,
            ProppFunction::TaskAccomplished => "task_accomplished"@,
            ProppFunction::Recognition => "recognition"@,
            ProppFunction::Exposure => "exposure"@,
            ProppFunction::Transfiguration => "transfiguration"@,
            ProppFunction::Punishment => "punishment"@,
            ProppFunction::Wedding => "wedding"@,
        }
    }

    fn name(&self) -> (r: &'static str) {
        match self {
            ProppFunction::Absentation => "absentation",
            ProppFunction::Interdiction => "interdiction",
            ProppFunction::Violation => "violation",
            ProppFunction::Reconnaissance => "reconnaissance",
            ProppFunction::Delivery => "delivery",
            ProppFunction::Trickery => "trickery",
            ProppFunction::Complicity => "complicity",
            ProppFunction::VillainyCausedLack => "villainy_caused_lack",
            ProppFunction::Mediation => "mediation",
            ProppFunction::CounterAction => "counter_action",
            ProppFunction::Departure => "departure",
            ProppFunction::TestingDonor => "testing_donor",
            ProppFunction::ReactionToTest => "reaction_to_test",
            ProppFunction::AcquisitionOfAgent => "acquisition_of_agent",
            ProppFunction::Guidance => "guidance",
            ProppFunction::Struggle => "struggle",
            ProppFunction::Branding => "branding",
            ProppFunction::VillainDefeated => "villain_defeated",
            ProppFunction::Liquidation => "liquidation",
            ProppFunction::ReturnHome => "return_home",
            ProppFunction::Pursuit => "pursuit",
            ProppFunction::Rescue => "rescue",
            ProppFunction::UnrecognizedArrival => "unrecognized_arrival",
            ProppFunction::UnfoundedClaims => "unfounded_claims",
            ProppFunction::DifficultTask => "difficult_task",
            ProppFunction::TaskAccomplished => "task_accomplished",
            ProppFunction::Recognition => "recognition",
            ProppFunction::Exposure => "exposure",
            ProppFunction::Transfiguration => "transfiguration",
            ProppFunction::Punishment => "punishment",
            ProppFunction::Wedding => "wedding",
        }
    }

    fn from_name(s: &str) -> (r: Option<Self>) {
        let r = if str_eq(s, "absentation") {
            Some(ProppFunction::Absentation)
        } else if str_eq(s, "interdiction") {
            Some(ProppFunction::Interdiction)
        } else if str_eq(s, "violation") {
            Some(ProppFunction::Violation)
        } else if str_eq(s, "reconnaissance") {
            Some(ProppFunction::Reconnaissance)
        } else if str_eq(s, "delivery") {
            Some(ProppFunction::Delivery)
        } else if str_eq(s, "trickery") {
            Some(ProppFunction::Trickery)
        } else if str_eq(s, "complicity") {
            Some(ProppFunction::Complicity)
        } else if str_eq(s, "villainy_caused_lack") {
            Some(ProppFunction::VillainyCausedLack)
        } else if str_eq(s, "mediation") {
            Some(ProppFunction::Mediation)
        } else if str_eq(s, "counter_action") {
            Some(ProppFunction::CounterAction)
        } else if str_eq(s, "departure") {
            Some(ProppFunction::Departure)
        } else if str_eq(s, "testing_donor") {
            Some(ProppFunction::TestingDonor)
        } else if str_eq(s, "reaction_to_test") {
            Some(ProppFunction::ReactionToTest)
        } else if str_eq(s, "acquisition_of_agent") {
            Some(ProppFunction::AcquisitionOfAgent)
        } else if str_eq(s, "guidance") {
            Some(ProppFunction::Guidance)
        } else if str_eq(s, "struggle") {
            Some(ProppFunction::Struggle)
        } else if str_eq(s, "branding") {
            Some(ProppFunction::Branding)
        } else if str_eq(s, "villain_defeated") {
            Some(ProppFunction::VillainDefeated)
        } else if str_eq(s, "liquidation") {
            Some(ProppFunction::Liquidation)
        } else if str_eq(s, "return_home") {
            Some(ProppFunction::ReturnHome)
        } else if str_eq(s, "pursuit") {
            Some(ProppFunction::Pursuit)
        } else if str_eq(s, "rescue") {
            Some(ProppFunction::Rescue)
        } else if str_eq(s, "unrecognized_arrival") {
            Some(ProppFunction::UnrecognizedArrival)
        } else if str_eq(s, "unfounded_claims") {
            Some(ProppFunction::UnfoundedClaims)
        } else if str_eq(s, "difficult_task") {
            Some(ProppFunction::DifficultTask)
        } else if str_eq(s, "task_accomplished") {
            Some(ProppFunction::TaskAccomplished)
        } else if str_eq(s, "recognition") {
            Some(ProppFunction::Recognition)
        } else if str_eq(s, "exposure") {
            Some(ProppFunction::Exposure)
        } else if str_eq(s, "transfiguration") {
            Some(ProppFunction::Transfiguration)
        } else if str_eq(s, "punishment") {
            Some(ProppFunction::Punishment)
        } else if str_eq(s, "wedding") {
            Some(ProppFunction::Wedding)
        } else {
            None
        };
        r
    }

    #[verifier::rlimit(50)]
    proof fn lemma_name_injective(a: Self, b: Self) {
        reveal_strlit("absentation");
        reveal_strlit("interdiction");
        reveal_strlit("violation");
        reveal_strlit("reconnaissance");
        reveal_strlit("delivery");
        reveal_strlit("trickery");
        reveal_strlit("complicity");
        reveal_strlit("villainy_caused_lack");
        reveal_strlit("mediation");
        reveal_strlit("counter_action");
        reveal_strlit("departure");
        reveal_strlit("testing_donor");
        reveal_strlit("reaction_to_test");
        reveal_strlit("acquisition_of_agent");
        reveal_strlit("guidance");
        reveal_strlit("struggle");
        reveal_strlit("branding");
        reveal_strlit("villain_defeated");
        reveal_strlit("liquidation");
        reveal_strlit("return_home");
        reveal_strlit("pursuit");
        reveal_strlit("rescue");
        reveal_strlit("unrecognized_arrival");
        reveal_strlit("unfounded_claims");
        reveal_strlit("difficult_task");
        reveal_strlit("task_accomplished");
        reveal_strlit("recognition");
        reveal_strlit("exposure");
        reveal_strlit("transfiguration");
        reveal_strlit("punishment");
        reveal_strlit("wedding");
        assert("absentation"@.len() == 11 && "absentation"@[0] == 'a');
        assert("interdiction"@.len() == 12);
        assert("violation"@.len() == 9 && "violation"@[0] == 'v');
        assert("reconnaissance"@.len() == 14 && "reconnaissance"@[0] == 'r');
        assert("delivery"@.len() == 8 && "delivery"@[0] == 'd');
        assert("trickery"@.len() == 8 && "trickery"@[0] == 't');
        assert("complicity"@.len() == 10 && "complicity"@[0] == 'c');
        assert("villainy_caused_lack"@.len() == 20 && "villainy_caused_lack"@[0] == 'v');
        assert("mediation"@.len() == 9 && "mediation"@[0] == 'm');
        assert("counter_action"@.len() == 14 && "counter_action"@[0] == 'c');
        assert("departure"@.len() == 9 && "departure"@[0] == 'd');
        assert("testing_donor"@.len() == 13);
        assert("reaction_to_test"@.len() == 16 && "reaction_to_test"@[0] == 'r');
        assert("acquisition_of_agent"@.len() == 20 && "acquisition_of_agent"@[0] == 'a');
        assert("guidance"@.len() == 8 && "guidance"@[0] == 'g');
        assert("struggle"@.len() == 8 && "struggle"@[0] == 's');
        assert("branding"@.len() == 8 && "branding"@[0] == 'b');
        assert("villain_defeated"@.len() == 16 && "villain_defeated"@[0] == 'v');
        assert("liquidation"@.len() == 11 && "liquidation"@[0] == 'l');
        assert("return_home"@.len() == 11 && "return_home"@[0] == 'r' && "return_home"@[2] == 't');
        assert("pursuit"@.len() == 7 && "pursuit"@[0] == 'p');
        assert("rescue"@.len() == 6);
        assert("unrecognized_arrival"@.len() == 20 && "unrecognized_arrival"@[0] == 'u');
        assert("unfounded_claims"@.len() == 16 && "unfounded_claims"@[0] == 'u');
        assert("difficult_task"@.len() == 14 && "difficult_task"@[0] == 'd');
        assert("task_accomplished"@.len() == 17);
        assert("recognition"@.len() == 11 && "recognition"@[0] == 'r' && "recognition"@[2] == 'c');
        assert("exposure"@.len() == 8 && "exposure"@[0] == 'e');
        assert("transfiguration"@.len() == 15);
        assert("punishment"@.len() == 10 && "punishment"@[0] == 'p');
        assert("wedding"@.len() == 7 && "wedding"@[0] == 'w');
    }
}

/// Butler *Gender Trouble* (1990), *Bodies That Matter* (1993).
/// Muñoz *Disidentifications* (1999).
/// Covers the mechanism by which gender and identity are
/// produced through repeated citation of norms — and subverted.
#[derive(Debug, Clone, Copy, PartialEq, Eq, Hash, Structural)]
pub enum PerformativityMode {
    /// Performativity as the sedimented citational chain that produces the effect of identity.
    Citationality,
    /// Parodic over-citation that exposes the constructedness of gender norms.
    DragPerformance,
    /// The performative concealment of identity to pass within a normative category.
    Passing,
    /// Performance achieves desired self-categorization; the norm is successfully inhabited.
    FelicitousPerformative,
    /// Failed performance; a gap between the citation and its recognition.
    Misfire,
    /// Repetition with a subversive difference — the norm is cited but displaces it.
    SubversiveRepetition,
    /// The re-inscription of a norm through repeated uncritical performance.
    HeteronormCitation,
    /// Muñoz: working with/against/through dominant culture rather than rejection or assimilation.
    Disidentification,
}

impl SnakeName for PerformativityMode {
    open spec fn spec_name(self) -> Seq<char> {
        match self {
            PerformativityMode::Citationality => "citationality"@,
            PerformativityMode::DragPerformance => "drag_performance"@,
            PerformativityMode::Passing => "passing"@,
            PerformativityMode::FelicitousPerformative => "felicitous_performative"@,
            PerformativityMode::Misfire => "misfire"@,
            PerformativityMode::SubversiveRepetition => "subversive_repetition"@,
            PerformativityMode::HeteronormCitation => "heteronorm_citation"@,
            PerformativityMode::Disidentification => "disidentification"@,
        }
    }

    fn name(&self) -> (r: &'static str) {
        match self {
            PerformativityMode::Citationality => "citationality",
            PerformativityMode::DragPerformance => "drag_performance",
            PerformativityMode::Passing => "passing",
            PerformativityMode::FelicitousPerformative => "felicitous_performative",
            PerformativityMode::Misfire => "misfire",
            PerformativityMode::SubversiveRepetition => "subversive_repetition",
            PerformativityMode::HeteronormCitation => "heteronorm_citation",
            PerformativityMode::Disidentification => "disidentification",
        }
    }

    fn from_name(s: &str) -> (r: Option<Self>) {
        let r = if str_eq(s, "citationality") {
            Some(PerformativityMode::Citationality)
        } else if str_eq(s, "drag_performance") {
            Some(PerformativityMode::DragPerformance)
        } else if str_eq(s, "passing") {
            Some(PerformativityMode::Passing)
        } else if str_eq(s, "felicitous_performative") {
            Some(PerformativityMode::FelicitousPerformative)
        } else if str_eq(s, "misfire") {
            Some(PerformativityMode::Misfire)
        } else if str_eq(s, "subversive_repetition") {
            Some(PerformativityMode::SubversiveRepetition)
        } else if str_eq(s, "heteronorm_citation") {
            Some(PerformativityMode::HeteronormCitation)
        } else if str_eq(s, "disidentification") {
            Some(PerformativityMode::Disidentification)
        } else {
            None
        };
        r
    }

    proof fn lemma_name_injective(a: Self, b: Self) {
        reveal_strlit("citationality");
        reveal_strlit("drag_performance");
        reveal_strlit("passing");
        reveal_strlit("felicitous_performative");
        reveal_strlit("misfire");
        reveal_strlit("subversive_repetition");
        reveal_strlit("heteronorm_citation");
        reveal_strlit("disidentification");
        assert("citationality"@.len() == 13);
        assert("drag_performance"@.len() == 16);
        assert("passing"@.len() == 7 && "passing"@[0] == 'p');
        assert("felicitous_performative"@.len() == 23);
        assert("misfire"@.len() == 7 && "misfire"@[0] == 'm');
        assert("subversive_repetition"@.len() == 21);
        assert("heteronorm_citation"@.len() == 19);
        assert("disidentification"@.len() == 17);
    }
}

/// Lejeune *On Autobiography* (1975); Doubrovsky (autofiction, 1977);
/// Ernaux (collective impersonal, 1974–); Knausgård (disclosure ethics, 2009–);
/// Barthes *Roland Barthes par Roland Barthes* (1975).
#[derive(Debug, Clone, Copy, PartialEq, Eq, Hash, Structural)]
pub enum AutofictionMode {
    /// Lejeune: author = narrator = character; identity declared in pact with reader.
    AutobiographicalPact,
    /// Doubrovsky: fictionalized autobiography; the 'I' is simultaneously real and literary construct.
    AutofictionProper,
    /// Ernaux: impersonal first person — 'I' as representative of a collective, not unique self.
    CollectiveImpersonal,
    /// Barthes: self rendered as textual system, indexed fragments, dispersal of authorial unity.
    SelfAsText,
    /// Lyric-essay hybrid: 'I' organized by meditation, digression, association over plot.
    LyricEssayMode,
    /// Knausgård line: total disclosure, no transformation of shame/intimacy into aesthetic distance.
    DisclosureEthicMode,
    /// Productive ambiguity about which contract governs — is this autobiography or fiction?
    PactAmbiguity,
}

impl SnakeName for AutofictionMode {
    open spec fn spec_name(self) -> Seq<char> {
        match self {
            AutofictionMode::AutobiographicalPact => "autobiographical_pact"@,
            AutofictionMode::AutofictionProper => "autofiction_proper"@,
            AutofictionMode::CollectiveImpersonal => "collective_impersonal"@,
            AutofictionMode::SelfAsText => "self_as_text"@,
            AutofictionMode::LyricEssayMode => "lyric_essay_mode"@,
            AutofictionMode::DisclosureEthicMode => "disclosure_ethic_mode"@,
            AutofictionMode::PactAmbiguity => "pact_ambiguity"@,
        }
    }

    fn name(&self) -> (r: &'static str) {
        match self {
            AutofictionMode::AutobiographicalPact => "autobiographical_pact",
            AutofictionMode::AutofictionProper => "autofiction_proper",
            AutofictionMode::CollectiveImpersonal => "collective_impersonal",
            AutofictionMode::SelfAsText => "self_as_text",
            AutofictionMode::LyricEssayMode => "lyric_essay_mode",
            AutofictionMode::DisclosureEthicMode => "disclosure_ethic_mode",
            AutofictionMode::PactAmbiguity => "pact_ambiguity",
        }
    }

    fn from_name(s: &str) -> (r: Option<Self>) {
        let r = if str_eq(s, "autobiographical_pact") {
            Some(AutofictionMode::AutobiographicalPact)
        } else if str_eq(s, "autofiction_proper") {
            Some(AutofictionMode::AutofictionProper)
        } else if str_eq(s, "collective_impersonal") {
            Some(AutofictionMode::CollectiveImpersonal)
        } else if str_eq(s, "self_as_text") {
            Some(AutofictionMode::SelfAsText)
        } else if str_eq(s, "lyric_essay_mode") {
            Some(AutofictionMode::LyricEssayMode)
        } else if str_eq(s, "disclosure_ethic_mode") {
            Some(AutofictionMode::DisclosureEthicMode)
        } else if str_eq(s, "pact_ambiguity") {
            Some(AutofictionMode::PactAmbiguity)
        } else {
            None
        };
        r
    }

    proof fn lemma_name_injective(a: Self, b: Self) {
        reveal_strlit("autobiographical_pact");
        reveal_strlit("autofiction_proper");
        reveal_strlit("collective_impersonal");
        reveal_strlit("self_as_text");
        reveal_strlit("lyric_essay_mode");
        reveal_strlit("disclosure_ethic_mode");
        reveal_strlit("pact_ambiguity");
        assert("autobiographical_pact"@.len() == 21 && "autobiographical_pact"@[0] == 'a');
        assert("autofiction_proper"@.len() == 18);
        assert("collective_impersonal"@.len() == 21 && "collective_impersonal"@[0] == 'c');
        assert("self_as_text"@.len() == 12);
        assert("lyric_essay_mode"@.len() == 16);
        assert("disclosure_ethic_mode"@.len() == 21 && "disclosure_ethic_mode"@[0] == 'd');
        assert("pact_ambiguity"@.len() == 14);
    }
}

/// Booth *The Company We Keep* (1988); Keen *Empathy and the Novel* (2007);
/// Nussbaum *Love's Knowledge* (1990); Spivak (representation ethics, 1988).
#[derive(Debug, Clone, Copy, PartialEq, Eq, Hash, Structural)]
pub enum NarrativeEthicsMode {
    /// Booth: the cumulative experience of the implied author as moral agent; long effect of the text.
    Coduction,
    /// Keen: author-reader empathic exchange — author designs readerly identification.
    AuthorEmpathyDesign,
    /// Keen: empathy attached to individual character rather than author strategy.
    CharacterEmpathy,
    /// Keen: broadcast empathy — universal appeal to human sameness.
    BroadcastEmpathy,
    /// Keen: bounded empathy — empathy restricted by in-group/out-group recognition.
    BoundedEmpathy,
    /// Keen: strategic empathy — deliberate authorial deployment to political end.
    StrategicEmpathy,
    /// Nussbaum: fiction as moral imagination, a rehearsal of ethical perception.
    MoralLaboratory,
    /// Text aestheticizes harm — narrative form implicates reader in what it depicts.
    Complicity,
    /// Text uses narrative to critique the autonomy of values it otherwise endorses.
    CritiqueOfAutonomy,
}

impl SnakeName for NarrativeEthicsMode {
    open spec fn spec_name(self) -> Seq<char> {
        match self {
            NarrativeEthicsMode::Coduction => "coduction"@,
            NarrativeEthicsMode::AuthorEmpathyDesign => "author_empathy_design"@,
            NarrativeEthicsMode::CharacterEmpathy => "character_empathy"@,
            NarrativeEthicsMode::BroadcastEmpathy => "broadcast_empathy"@,
            NarrativeEthicsMode::BoundedEmpathy => "bounded_empathy"@,
            NarrativeEthicsMode::StrategicEmpathy => "strategic_empathy"@,
            NarrativeEthicsMode::MoralLaboratory => "moral_laboratory"@,
            NarrativeEthicsMode::Complicity => "complicity"@,
            NarrativeEthicsMode::CritiqueOfAutonomy => "critique_of_autonomy"@,
        }
    }

    fn name(&self) -> (r: &'static str) {
        match self {
            NarrativeEthicsMode::Coduction => "coduction",
            NarrativeEthicsMode::AuthorEmpathyDesign => "author_empathy_design",
            NarrativeEthicsMode::CharacterEmpathy => "character_empathy",
            NarrativeEthicsMode::BroadcastEmpathy => "broadcast_empathy",
            NarrativeEthicsMode::BoundedEmpathy => "bounded_empathy",
            NarrativeEthicsMode::StrategicEmpathy => "strategic_empathy",
            NarrativeEthicsMode::MoralLaboratory => "moral_laboratory",
            NarrativeEthicsMode::Complicity => "complicity",
            NarrativeEthicsMode::CritiqueOfAutonomy => "critique_of_autonomy",
        }
    }

    fn from_name(s: &str) -> (r: Option<Self>) {
        let r = if str_eq(s, "coduction") {
            Some(NarrativeEthicsMode::Coduction)
        } else if str_eq(s, "author_empathy_design") {
            Some(NarrativeEthicsMode::AuthorEmpathyDesign)
        } else if str_eq(s, "character_empathy") {
            Some(NarrativeEthicsMode::CharacterEmpathy)
        } else if str_eq(s, "broadcast_empathy") {
            Some(NarrativeEthicsMode::BroadcastEmpathy)
        } else if str_eq(s, "bounded_empathy") {
            Some(NarrativeEthicsMode::BoundedEmpathy)
        } else if str_eq(s, "strategic_empathy") {
            Some(NarrativeEthicsMode::StrategicEmpathy)
        } else if str_eq(s, "moral_laboratory") {
            Some(NarrativeEthicsMode::MoralLaboratory)
        } else if str_eq(s, "complicity") {
            Some(NarrativeEthicsMode::Complicity)
        } else if str_eq(s, "critique_of_autonomy") {
            Some(NarrativeEthicsMode::CritiqueOfAutonomy)
        } else {
            None
        };
        r
    }

    proof fn lemma_name_injective(a: Self, b: Self) {
        reveal_strlit("coduction");
        reveal_strlit("author_empathy_design");
        reveal_strlit("character_empathy");
        reveal_strlit("broadcast_empathy");
        reveal_strlit("bounded_empathy");
        reveal_strlit("strategic_empathy");
        reveal_strlit("moral_laboratory");
        reveal_strlit("complicity");
        reveal_strlit("critique_of_autonomy");
        assert("coduction"@.len() == 9);
        assert("author_empathy_design"@.len() == 21);
        assert("character_empathy"@.len() == 17 && "character_empathy"@[0] == 'c');
        assert("broadcast_empathy"@.len() == 17 && "broadcast_empathy"@[0] == 'b');
        assert("bounded_empathy"@.len() == 15);
        assert("strategic_empathy"@.len() == 17 && "strategic_empathy"@[0] == 's');
        assert("moral_laboratory"@.len() == 16);
        assert("complicity"@.len() == 10);
        assert("critique_of_autonomy"@.len() == 20);
    }
}

/// Jenkins *Convergence Culture* (2006), *Transmedia Storytelling* (2009 online essay).
/// The seven core principles of transmedia storytelling plus related concepts.
#[derive(Debug, Clone, Copy, PartialEq, Eq, Hash, Structural)]
pub enum JenkinsTransmediaType {
    /// Each medium makes its own unique contribution; the whole is irreducible to parts.
    Spreadability,
    /// Depth: allows fans to drill into the world beyond the surface story.
    Drillability,
    /// Sequential cause-and-effect canon preserved across media.
    Continuity,
    /// Non-canonical alternative versions; 'what if?' explorations.
    Multiplicity,
    /// The experience of being transported into the story world — immersive design.
    Immersion,
    /// Allowing story elements to migrate into daily life as real objects or practices.
    Extractability,
    /// Expansion of the world's geography, history, and population across texts.
    WorldBuilding,
    /// The story continues across instalments; the expanded seriality principle.
    Seriality,
    /// Different characters or perspectives on the same events across media.
    Subjectivity,
    /// Audience participation in the construction of the story world.
    Performance,
}

impl SnakeName for JenkinsTransmediaType {
    open spec fn spec_name(self) -> Seq<char> {
        match self {
            JenkinsTransmediaType::Spreadability => "spreadability"@,
            JenkinsTransmediaType::Drillability => "drillability"@,
            JenkinsTransmediaType::Continuity => "continuity"@,
            JenkinsTransmediaType::Multiplicity => "multiplicity"@,
            JenkinsTransmediaType::Immersion => "immersion"@,
            JenkinsTransmediaType::Extractability => "extractability"@,
            JenkinsTransmediaType::WorldBuilding => "world_building"@,
            JenkinsTransmediaType::Seriality => "seriality"@,
            JenkinsTransmediaType::Subjectivity => "subjectivity"@,
            JenkinsTransmediaType::Performance => "performance"@,
        }
    }

    fn name(&self) -> (r: &'static str) {
        match self {
            JenkinsTransmediaType::Spreadability => "spreadability",
            JenkinsTransmediaType::Drillability => "drillability",
            JenkinsTransmediaType::Continuity => "continuity",
            JenkinsTransmediaType::Multiplicity => "multiplicity",
            JenkinsTransmediaType::Immersion => "immersion",
            JenkinsTransmediaType::Extractability => "extractability",
            JenkinsTransmediaType::WorldBuilding => "world_building",
            JenkinsTransmediaType::Seriality => "seriality",
            JenkinsTransmediaType::Subjectivity => "subjectivity",
            JenkinsTransmediaType::Performance => "performance",
        }
    }

    fn from_name(s: &str) -> (r: Option<Self>) {
        let r = if str_eq(s, "spreadability") {
            Some(JenkinsTransmediaType::Spreadability)
        } else if str_eq(s, "drillability") {
            Some(JenkinsTransmediaType::Drillability)
        } else if str_eq(s, "continuity") {
            Some(JenkinsTransmediaType::Continuity)
        } else if str_eq(s, "multiplicity") {
            Some(JenkinsTransmediaType::Multiplicity)
        } else if str_eq(s, "immersion") {
            Some(JenkinsTransmediaType::Immersion)
        } else if str_eq(s, "extractability") {
            Some(JenkinsTransmediaType::Extractability)
        } else if str_eq(s, "world_building") {
            Some(JenkinsTransmediaType::WorldBuilding)
        } else if str_eq(s, "seriality") {
            Some(JenkinsTransmediaType::Seriality)
        } else if str_eq(s, "subjectivity") {
            Some(JenkinsTransmediaType::Subjectivity)
        } else if str_eq(s, "performance") {
            Some(JenkinsTransmediaType::Performance)
        } else {
            None
        };
        r
    }

    proof fn lemma_name_injective(a: Self, b: Self) {
        reveal_strlit("spreadability");
        reveal_strlit("drillability");
        reveal_strlit("continuity");
        reveal_strlit("multiplicity");
        reveal_strlit("immersion");
        reveal_strlit("extractability");
        reveal_strlit("world_building");
        reveal_strlit("seriality");
        reveal_strlit("subjectivity");
        reveal_strlit("performance");
        assert("spreadability"@.len() == 13);
        assert("drillability"@.len() == 12 && "drillability"@[0] == 'd');
        assert("continuity"@.len() == 10);
        assert("multiplicity"@.len() == 12 && "multiplicity"@[0] == 'm');
        assert("immersion"@.len() == 9 && "immersion"@[0] == 'i');
        assert("extractability"@.len() == 14 && "extractability"@[0] == 'e');
        assert("world_building"@.len() == 14 && "world_building"@[0] == 'w');
        assert("seriality"@.len() == 9 && "seriality"@[0] == 's');
        assert("subjectivity"@.len() == 12 && "subjectivity"@[0] == 's');
        assert("performance"@.len() == 11);
    }
}

#[derive(Debug, Clone, Copy, PartialEq, Eq, Hash, Structural)]
pub enum GenreReadingMode {
    /// Derrida: every text participates in genres without belonging to any single genre.
    LawOfGenre,
    /// Derrida: texts carry the traces of genres they don't fully inhabit.
    GenreContamination,
    /// Culler: the learned set of conventions a reader brings to a text as literature.
    LiteraryCompetence,
    /// Culler: the process by which readers fit puzzling texts into recognizable frames.
    Naturalization,
    /// Rosenblatt: stance focused on the lived-through experience of the text.
    AestheticReading,
    /// Rosenblatt: stance focused on extracting information to be carried away.
    EfferentReading,
    /// Fish: meanings produced by communities of readers sharing interpretive conventions.
    InterpretiveCommunity,
}

impl SnakeName for GenreReadingMode {
    open spec fn spec_name(self) -> Seq<char> {
        match self {
            GenreReadingMode::LawOfGenre => "law_of_genre"@,
            GenreReadingMode::GenreContamination => "genre_contamination"@,
            GenreReadingMode::LiteraryCompetence => "literary_competence"@,
            GenreReadingMode::Naturalization => "naturalization"@,
            GenreReadingMode::AestheticReading => "aesthetic_reading"@,
            GenreReadingMode::EfferentReading => "efferent_reading"@,
            GenreReadingMode::InterpretiveCommunity => "interpretive_community"@,
        }
    }

    fn name(&self) -> (r: &'static str) {
        match self {
            GenreReadingMode::LawOfGenre => "law_of_genre",
            GenreReadingMode::GenreContamination => "genre_contamination",
            GenreReadingMode::LiteraryCompetence => "literary_competence",
            GenreReadingMode::Naturalization => "naturalization",
            GenreReadingMode::AestheticReading => "aesthetic_reading",
            GenreReadingMode::EfferentReading => "efferent_reading",
            GenreReadingMode::InterpretiveCommunity => "interpretive_community",
        }
    }

    fn from_name(s: &str) -> (r: Option<Self>) {
        let r = if str_eq(s, "law_of_genre") {
            Some(GenreReadingMode::LawOfGenre)
        } else if str_eq(s, "genre_contamination") {
            Some(GenreReadingMode::GenreContamination)
        } else if str_eq(s, "literary_competence") {
            Some(GenreReadingMode::LiteraryCompetence)
        } else if str_eq(s, "naturalization") {
            Some(GenreReadingMode::Naturalization)
        } else if str_eq(s, "aesthetic_reading") {
            Some(GenreReadingMode::AestheticReading)
        } else if str_eq(s, "efferent_reading") {
            Some(GenreReadingMode::EfferentReading)
        } else if str_eq(s, "interpretive_community") {
            Some(GenreReadingMode::InterpretiveCommunity)
        } else {
            None
        };
        r
    }

    proof fn lemma_name_injective(a: Self, b: Self) {
        reveal_strlit("law_of_genre");
        reveal_strlit("genre_contamination");
        reveal_strlit("literary_competence");
        reveal_strlit("naturalization");
        reveal_strlit("aesthetic_reading");
        reveal_strlit("efferent_reading");
        reveal_strlit("interpretive_community");
        assert("law_of_genre"@.len() == 12);
        assert("genre_contamination"@.len() == 19 && "genre_contamination"@[0] == 'g');
        assert("literary_competence"@.len() == 19 && "literary_competence"@[0] == 'l');
        assert("naturalization"@.len() == 14);
        assert("aesthetic_reading"@.len() == 17);
        assert("efferent_reading"@.len() == 16);
        assert("interpretive_community"@.len() == 22);
    }
}

#[derive(Debug, Clone, Copy, PartialEq, Eq, Hash, Structural)]
pub enum Genre {
    Romance,
    Horror,
    SciFi,
    HistoricalFiction,
    Fantasy,
    Mystery,
    /// Alias "literary" is used in older YAML catalog entries.
    LiteraryFiction,
    Thriller,
    YoungAdult,
    GraphicNarrative,
    VerseNovel,
}

impl SnakeName for Genre {
    open spec fn spec_name(self) -> Seq<char> {
        match self {
            Genre::Romance => "romance"@,
            Genre::Horror => "horror"@,
            Genre::SciFi => "sci_fi"@,
            Genre::HistoricalFiction => "historical_fiction"@,
            Genre::Fantasy => "fantasy"@,
            Genre::Mystery => "mystery"@,
            Genre::LiteraryFiction => "literary_fiction"@,
            Genre::Thriller => "thriller"@,
            Genre::YoungAdult => "young_adult"@,
            Genre::GraphicNarrative => "graphic_narrative"@,
            Genre::VerseNovel => "verse_novel"@,
        }
    }

    fn name(&self) -> (r: &'static str) {
        match self {
            Genre::Romance => "romance",
            Genre::Horror => "horror",
            Genre::SciFi => "sci_fi",
            Genre::HistoricalFiction => "historical_fiction",
            Genre::Fantasy => "fantasy",
            Genre::Mystery => "mystery",
            Genre::LiteraryFiction => "literary_fiction",
            Genre::Thriller => "thriller",
            Genre::YoungAdult => "young_adult",
            Genre::GraphicNarrative => "graphic_narrative",
            Genre::VerseNovel => "verse_novel",
        }
    }

    fn from_name(s: &str) -> (r: Option<Self>) {
        let r = if str_eq(s, "romance") {
            Some(Genre::Romance)
        } else if str_eq(s, "horror") {
            Some(Genre::Horror)
        } else if str_eq(s, "sci_fi") {
            Some(Genre::SciFi)
        } else if str_eq(s, "historical_fiction") {
            Some(Genre::HistoricalFiction)
        } else if str_eq(s, "fantasy") {
            Some(Genre::Fantasy)
        } else if str_eq(s, "mystery") {
            Some(Genre::Mystery)
        } else if str_eq(s, "literary_fiction") {
            Some(Genre::LiteraryFiction)
        } else if str_eq(s, "thriller") {
            Some(Genre::Thriller)
        } else if str_eq(s, "young_adult") {
            Some(Genre::YoungAdult)
        } else if str_eq(s, "graphic_narrative") {
            Some(Genre::GraphicNarrative)
        } else if str_eq(s, "verse_novel") {
            Some(Genre::VerseNovel)
        } else {
            None
        };
        r
    }

    proof fn lemma_name_injective(a: Self, b: Self) {
        reveal_strlit("romance");
        reveal_strlit("horror");
        reveal_strlit("sci_fi");
        reveal_strlit("historical_fiction");
        reveal_strlit("fantasy");
        reveal_strlit("mystery");
        reveal_strlit("literary_fiction");
        reveal_strlit("thriller");
        reveal_strlit("young_adult");
        reveal_strlit("graphic_narrative");
        reveal_strlit("verse_novel");
        assert("romance"@.len() == 7 && "romance"@[0] == 'r');
        assert("horror"@.len() == 6 && "horror"@[0] == 'h');
        assert("sci_fi"@.len() == 6 && "sci_fi"@[0] == 's');
        assert("historical_fiction"@.len() == 18);
        assert("fantasy"@.len() == 7 && "fantasy"@[0] == 'f');
        assert("mystery"@.len() == 7 && "mystery"@[0] == 'm');
        assert("literary_fiction"@.len() == 16);
        assert("thriller"@.len() == 8);
        assert("young_adult"@.len() == 11 && "young_adult"@[0] == 'y');
        assert("graphic_narrative"@.len() == 17);
        assert("verse_novel"@.len() == 11 && "verse_novel"@[0] == 'v');
    }
}

#[derive(Debug, Clone, Copy, PartialEq, Eq, Hash, Structural)]
pub enum PerceptionOfOther {
    ExpectsApproval,
    ExpectsRejection,
    ExpectsHostility,
    ExpectsIndifference,
    ExpectsSupport,
    ExpectsBetrayal,
    ExpectsHonesty,
    ExpectsDeception,
    ExpectsGratitude,
    ExpectsBlame,
    Uncertain,
}

impl SnakeName for PerceptionOfOther {
    open spec fn spec_name(self) -> Seq<char> {
        match self {
            PerceptionOfOther::ExpectsApproval => "expects_approval"@,
            PerceptionOfOther::ExpectsRejection => "expects_rejection"@,
            PerceptionOfOther::ExpectsHostility => "expects_hostility"@,
            PerceptionOfOther::ExpectsIndifference => "expects_indifference"@,
            PerceptionOfOther::ExpectsSupport => "expects_support"@,
            PerceptionOfOther::ExpectsBetrayal => "expects_betrayal"@,
            PerceptionOfOther::ExpectsHonesty => "expects_honesty"@,
            PerceptionOfOther::ExpectsDeception => "expects_deception"@,
            PerceptionOfOther::ExpectsGratitude => "expects_gratitude"@,
            PerceptionOfOther::ExpectsBlame => "expects_blame"@,
            PerceptionOfOther::Uncertain => "uncertain"@,
        }
    }

    fn name(&self) -> (r: &'static str) {
        match self {
            PerceptionOfOther::ExpectsApproval => "expects_approval",
            PerceptionOfOther::ExpectsRejection => "expects_rejection",
            PerceptionOfOther::ExpectsHostility => "expects_hostility",
            PerceptionOfOther::ExpectsIndifference => "expects_indifference",
            PerceptionOfOther::ExpectsSupport => "expects_support",
            PerceptionOfOther::ExpectsBetrayal => "expects_betrayal",
            PerceptionOfOther::ExpectsHonesty => "expects_honesty",
            PerceptionOfOther::ExpectsDeception => "expects_deception",
            PerceptionOfOther::ExpectsGratitude => "expects_gratitude",
            PerceptionOfOther::ExpectsBlame => "expects_blame",
            PerceptionOfOther::Uncertain => "uncertain",
        }
    }

    fn from_name(s: &str) -> (r: Option<Self>) {
        let r = if str_eq(s, "expects_approval") {
            Some(PerceptionOfOther::ExpectsApproval)
        } else if str_eq(s, "expects_rejection") {
            Some(PerceptionOfOther::ExpectsRejection)
        } else if str_eq(s, "expects_hostility") {
            Some(PerceptionOfOther::ExpectsHostility)
        } else if str_eq(s, "expects_indifference") {
            Some(PerceptionOfOther::ExpectsIndifference)
        } else if str_eq(s, "expects_support") {
            Some(PerceptionOfOther::ExpectsSupport)
        } else if str_eq(s, "expects_betrayal") {
            Some(PerceptionOfOther::ExpectsBetrayal)
        } else if str_eq(s, "expects_honesty") {
            Some(PerceptionOfOther::ExpectsHonesty)
        } else if str_eq(s, "expects_deception") {
            Some(PerceptionOfOther::ExpectsDeception)
        } else if str_eq(s, "expects_gratitude") {
            Some(PerceptionOfOther::ExpectsGratitude)
        } else if str_eq(s, "expects_blame") {
            Some(PerceptionOfOther::ExpectsBlame)
        } else if str_eq(s, "uncertain") {
            Some(PerceptionOfOther::Uncertain)
        } else {
            None
        };
        r
    }

    proof fn lemma_name_injective(a: Self, b: Self) {
        reveal_strlit("expects_approval");
        reveal_strlit("expects_rejection");
        reveal_strlit("expects_hostility");
        reveal_strlit("expects_indifference");
        reveal_strlit("expects_support");
        reveal_strlit("expects_betrayal");
        reveal_strlit("expects_honesty");
        reveal_strlit("expects_deception");
        reveal_strlit("expects_gratitude");
        reveal_strlit("expects_blame");
        reveal_strlit("uncertain");
        assert("expects_approval"@.len() == 16 && "expects_approval"@[8] == 'a');
        assert("expects_rejection"@.len() == 17 && "expects_rejection"@[8] == 'r');
        assert("expects_hostility"@.len() == 17 && "expects_hostility"@[8] == 'h');
        assert("expects_indifference"@.len() == 20);
        assert("expects_support"@.len() == 15 && "expects_support"@[8] == 's');
        assert("expects_betrayal"@.len() == 16 && "expects_betrayal"@[8] == 'b');
        assert("expects_honesty"@.len() == 15 && "expects_honesty"@[8] == 'h');
        assert("expects_deception"@.len() == 17 && "expects_deception"@[8] == 'd');
        assert("expects_gratitude"@.len() == 17 && "expects_gratitude"@[8] == 'g');
        assert("expects_blame"@.len() == 13);
        assert("uncertain"@.len() == 9);
    }
}

#[derive(Debug, Clone, Copy, PartialEq, Eq, Hash, Structural)]
pub enum TriggerType {
    PastInjuryMentioned,
    Dismissal,
    Condescension,
    Accusation,
    Comparison,
    NameInvoked,
    PhysicalProximity,
    ToneOfVoice,
    SpecificWord,
    TriggerNone,
}

impl SnakeName for TriggerType {
    open spec fn spec_name(self) -> Seq<char> {
        match self {
            TriggerType::PastInjuryMentioned => "past_injury_mentioned"@,
            TriggerType::Dismissal => "dismissal"@,
            TriggerType::Condescension => "condescension"@,
            TriggerType::Accusation => "accusation"@,
            TriggerType::Comparison => "comparison"@,
            TriggerType::NameInvoked => "name_invoked"@,
            TriggerType::PhysicalProximity => "physical_proximity"@,
            TriggerType::ToneOfVoice => "tone_of_voice"@,
            TriggerType::SpecificWord => "specific_word"@,
            TriggerType::TriggerNone => "trigger_none"@,
        }
    }

    fn name(&self) -> (r: &'static str) {
        match self {
            TriggerType::PastInjuryMentioned => "past_injury_mentioned",
            TriggerType::Dismissal => "dismissal",
            TriggerType::Condescension => "condescension",
            TriggerType::Accusation => "accusation",
            TriggerType::Comparison => "comparison",
            TriggerType::NameInvoked => "name_invoked",
            TriggerType::PhysicalProximity => "physical_proximity",
            TriggerType::ToneOfVoice => "tone_of_voice",
            TriggerType::SpecificWord => "specific_word",
            TriggerType::TriggerNone => "trigger_none",
        }
    }

    fn from_name(s: &str) -> (r: Option<Self>) {
        let r = if str_eq(s, "past_injury_mentioned") {
            Some(TriggerType::PastInjuryMentioned)
        } else if str_eq(s, "dismissal") {
            Some(TriggerType::Dismissal)
        } else if str_eq(s, "condescension") {
            Some(TriggerType::Condescension)
        } else if str_eq(s, "accusation") {
            Some(TriggerType::Accusation)
        } else if str_eq(s, "comparison") {
            Some(TriggerType::Comparison)
        } else if str_eq(s, "name_invoked") {
            Some(TriggerType::NameInvoked)
        } else if str_eq(s, "physical_proximity") {
            Some(TriggerType::PhysicalProximity)
        } else if str_eq(s, "tone_of_voice") {
            Some(TriggerType::ToneOfVoice)
        } else if str_eq(s, "specific_word") {
            Some(TriggerType::SpecificWord)
        } else if str_eq(s, "trigger_none") {
            Some(TriggerType::TriggerNone)
        } else {
            None
        };
        r
    }

    proof fn lemma_name_injective(a: Self, b: Self) {
        reveal_strlit("past_injury_mentioned");
        reveal_strlit("dismissal");
        reveal_strlit("condescension");
        reveal_strlit("accusation");
        reveal_strlit("comparison");
        reveal_strlit("name_invoked");
        reveal_strlit("physical_proximity");
        reveal_strlit("tone_of_voice");
        reveal_strlit("specific_word");
        reveal_strlit("trigger_none");
        assert("past_injury_mentioned"@.len() == 21);
        assert("dismissal"@.len() == 9);
        assert("condescension"@.len() == 13 && "condescension"@[0] == 'c');
        assert("accusation"@.len() == 10 && "accusation"@[0] == 'a');
        assert("comparison"@.len() == 10 && "comparison"@[0] == 'c');
        assert("name_invoked"@.len() == 12 && "name_invoked"@[0] == 'n');
        assert("physical_proximity"@.len() == 18);
        assert("tone_of_voice"@.len() == 13 && "tone_of_voice"@[0] == 't');
        assert("specific_word"@.len() == 13 && "specific_word"@[0] == 's');
        assert("trigger_none"@.len() == 12 && "trigger_none"@[0] == 't');
    }
}

#[derive(Debug, Clone, Copy, PartialEq, Eq, Hash, Structural)]
pub enum RelationshipTurn {
    TurnNone,
    Deterioration,
    Improvement,
    Revelation,
    Rupture,
    Reconciliation,
}

impl SnakeName for RelationshipTurn {
    open spec fn spec_name(self) -> Seq<char> {
        match self {
            RelationshipTurn::TurnNone => "turn_none"@,
            RelationshipTurn::Deterioration => "deterioration"@,
            RelationshipTurn::Improvement => "improvement"@,
            RelationshipTurn::Revelation => "revelation"@,
            RelationshipTurn::Rupture => "rupture"@,
            RelationshipTurn::Reconciliation => "reconciliation"@,
        }
    }

    fn name(&self) -> (r: &'static str) {
        match self {
            RelationshipTurn::TurnNone => "turn_none",
            RelationshipTurn::Deterioration => "deterioration",
            RelationshipTurn::Improvement => "improvement",
            RelationshipTurn::Revelation => "revelation",
            RelationshipTurn::Rupture => "rupture",
            RelationshipTurn::Reconciliation => "reconciliation",
        }
    }

    fn from_name(s: &str) -> (r: Option<Self>) {
        let r = if str_eq(s, "turn_none") {
            Some(RelationshipTurn::TurnNone)
        } else if str_eq(s, "deterioration") {
            Some(RelationshipTurn::Deterioration)
        } else if str_eq(s, "improvement") {
            Some(RelationshipTurn::Improvement)
        } else if str_eq(s, "revelation") {
            Some(RelationshipTurn::Revelation)
        } else if str_eq(s, "rupture") {
            Some(RelationshipTurn::Rupture)
        } else if str_eq(s, "reconciliation") {
            Some(RelationshipTurn::Reconciliation)
        } else {
            None
        };
        r
    }

    proof fn lemma_name_injective(a: Self, b: Self) {
        reveal_strlit("turn_none");
        reveal_strlit("deterioration");
        reveal_strlit("improvement");
        reveal_strlit("revelation");
        reveal_strlit("rupture");
        reveal_strlit("reconciliation");
        assert("turn_none"@.len() == 9);
        assert("deterioration"@.len() == 13);
        assert("improvement"@.len() == 11);
        assert("revelation"@.len() == 10);
        assert("rupture"@.len() == 7);
        assert("reconciliation"@.len() == 14);
    }
}

#[derive(Debug, Clone, Copy, PartialEq, Eq, Hash, Structural)]
pub enum EmotionalArc {
    Change,
    Stasis,
    Escalation,
    DeEscalation,
    Realization,
    Reversal,
}

impl SnakeName for EmotionalArc {
    open spec fn spec_name(self) -> Seq<char> {
        match self {
            EmotionalArc::Change => "change"@,
            EmotionalArc::Stasis => "stasis"@,
            EmotionalArc::Escalation => "escalation"@,
            EmotionalArc::DeEscalation => "de_escalation"@,
            EmotionalArc::Realization => "realization"@,
            EmotionalArc::Reversal => "reversal"@,
        }
    }

    fn name(&self) -> (r: &'static str) {
        match self {
            EmotionalArc::Change => "change",
            EmotionalArc::Stasis => "stasis",
            EmotionalArc::Escalation => "escalation",
            EmotionalArc::DeEscalation => "de_escalation",
            EmotionalArc::Realization => "realization",
            EmotionalArc::Reversal => "reversal",
        }
    }

    fn from_name(s: &str) -> (r: Option<Self>) {
        let r = if str_eq(s, "change") {
            Some(EmotionalArc::Change)
        } else if str_eq(s, "stasis") {
            Some(EmotionalArc::Stasis)
        } else if str_eq(s, "escalation") {
            Some(EmotionalArc::Escalation)
        } else if str_eq(s, "de_escalation") {
            Some(EmotionalArc::DeEscalation)
        } else if str_eq(s, "realization") {
            Some(EmotionalArc::Realization)
        } else if str_eq(s, "reversal") {
            Some(EmotionalArc::Reversal)
        } else {
            None
        };
        r
    }

    proof fn lemma_name_injective(a: Self, b: Self) {
        reveal_strlit("change");
        reveal_strlit("stasis");
        reveal_strlit("escalation");
        reveal_strlit("de_escalation");
        reveal_strlit("realization");
        reveal_strlit("reversal");
        assert("change"@.len() == 6 && "change"@[0] == 'c');
        assert("stasis"@.len() == 6 && "stasis"@[0] == 's');
        assert("escalation"@.len() == 10);
        assert("de_escalation"@.len() == 13);
        assert("realization"@.len() == 11);
        assert("reversal"@.len() == 8);
    }
}

#[derive(Debug, Clone, Copy, PartialEq, Eq, Hash, Structural)]
pub enum PowerBalance {
    Equal,
    ThisCharHasPower,
    OtherCharHasPower,
    Contested,
}

impl SnakeName for PowerBalance {
    open spec fn spec_name(self) -> Seq<char> {
        match self {
            PowerBalance::Equal => "equal"@,
            PowerBalance::ThisCharHasPower => "this_char_has_power"@,
            PowerBalance::OtherCharHasPower => "other_char_has_power"@,
            PowerBalance::Contested => "contested"@,
        }
    }

    fn name(&self) -> (r: &'static str) {
        match self {
            PowerBalance::Equal => "equal",
            PowerBalance::ThisCharHasPower => "this_char_has_power",
            PowerBalance::OtherCharHasPower => "other_char_has_power",
            PowerBalance::Contested => "contested",
        }
    }

    fn from_name(s: &str) -> (r: Option<Self>) {
        let r = if str_eq(s, "equal") {
            Some(PowerBalance::Equal)
        } else if str_eq(s, "this_char_has_power") {
            Some(PowerBalance::ThisCharHasPower)
        } else if str_eq(s, "other_char_has_power") {
            Some(PowerBalance::OtherCharHasPower)
        } else if str_eq(s, "contested") {
            Some(PowerBalance::Contested)
        } else {
            None
        };
        r
    }

    proof fn lemma_name_injective(a: Self, b: Self) {
        reveal_strlit("equal");
        reveal_strlit("this_char_has_power");
        reveal_strlit("other_char_has_power");
        reveal_strlit("contested");
        assert("equal"@.len() == 5);
        assert("this_char_has_power"@.len() == 19);
        assert("other_char_has_power"@.len() == 20);
        assert("contested"@.len() == 9);
    }
}

#[derive(Debug, Clone, Copy, PartialEq, Eq, Hash, Structural)]
pub enum RelationshipDistanceLevel {
    Intimate,
    Personal,
    Social,
    Public,
    Distant,
    Hostile,
}

impl SnakeName for RelationshipDistanceLevel {
    open spec fn spec_name(self) -> Seq<char> {
        match self {
            RelationshipDistanceLevel::Intimate => "intimate"@,
            RelationshipDistanceLevel::Personal => "personal"@,
            RelationshipDistanceLevel::Social => "social"@,
            RelationshipDistanceLevel::Public => "public"@,
            RelationshipDistanceLevel::Distant => "distant"@,
            RelationshipDistanceLevel::Hostile => "hostile"@,
        }
    }

    fn name(&self) -> (r: &'static str) {
        match self {
            RelationshipDistanceLevel::Intimate => "intimate",
            RelationshipDistanceLevel::Personal => "personal",
            RelationshipDistanceLevel::Social => "social",
            RelationshipDistanceLevel::Public => "public",
            RelationshipDistanceLevel::Distant => "distant",
            RelationshipDistanceLevel::Hostile => "hostile",
        }
    }

    fn from_name(s: &str) -> (r: Option<Self>) {
        let r = if str_eq(s, "intimate") {
            Some(RelationshipDistanceLevel::Intimate)
        } else if str_eq(s, "personal") {
            Some(RelationshipDistanceLevel::Personal)
        } else if str_eq(s, "social") {
            Some(RelationshipDistanceLevel::Social)
        } else if str_eq(s, "public") {
            Some(RelationshipDistanceLevel::Public)
        } else if str_eq(s, "distant") {
            Some(RelationshipDistanceLevel::Distant)
        } else if str_eq(s, "hostile") {
            Some(RelationshipDistanceLevel::Hostile)
        } else {
            None
        };
        r
    }

    proof fn lemma_name_injective(a: Self, b: Self) {
        reveal_strlit("intimate");
        reveal_strlit("personal");
        reveal_strlit("social");
        reveal_strlit("public");
        reveal_strlit("distant");
        reveal_strlit("hostile");
        assert("intimate"@.len() == 8 && "intimate"@[0] == 'i');
        assert("personal"@.len() == 8 && "personal"@[0] == 'p');
        assert("social"@.len() == 6 && "social"@[0] == 's');
        assert("public"@.len() == 6 && "public"@[0] == 'p');
        assert("distant"@.len() == 7 && "distant"@[0] == 'd');
        assert("hostile"@.len() == 7 && "hostile"@[0] == 'h');
    }
}

#[derive(Debug, Clone, Copy, PartialEq, Eq, Hash, Structural)]
pub enum ObjectiveVerb {
    Obtain,
    Persuade,
    Escape,
    Protect,
    Confront,
    Conceal,
    Confess,
    Decide,
    Impress,
    Survive,
    Connect,
    Separate,
    Refuse,
    Accept,
    Reveal,
    Learn,
    Prevent,
    Maintain,
    ObjectiveNone,
}

impl SnakeName for ObjectiveVerb {
    open spec fn spec_name(self) -> Seq<char> {
        match self {
            ObjectiveVerb::Obtain => "obtain"@,
            ObjectiveVerb::Persuade => "persuade"@,
            ObjectiveVerb::Escape => "escape"@,
            ObjectiveVerb::Protect => "protect"@,
            ObjectiveVerb::Confront => "confront"@,
            ObjectiveVerb::Conceal => "conceal"@,
            ObjectiveVerb::Confess => "confess"@,
            ObjectiveVerb::Decide => "decide"@,
            ObjectiveVerb::Impress => "impress"@,
            ObjectiveVerb::Survive => "survive"@,
            ObjectiveVerb::Connect => "connect"@,
            ObjectiveVerb::Separate => "separate"@,
            ObjectiveVerb::Refuse => "refuse"@,
            ObjectiveVerb::Accept => "accept"@,
            ObjectiveVerb::Reveal => "reveal"@,
            ObjectiveVerb::Learn => "learn"@,
            ObjectiveVerb::Prevent => "prevent"@,
            ObjectiveVerb::Maintain => "maintain"@,
            ObjectiveVerb::ObjectiveNone => "objective_none"@,
        }
    }

    fn name(&self) -> (r: &'static str) {
        match self {
            ObjectiveVerb::Obtain => "obtain",
            ObjectiveVerb::Persuade => "persuade",
            ObjectiveVerb::Escape => "escape",
            ObjectiveVerb::Protect => "protect",
            ObjectiveVerb::Confront => "confront",
            ObjectiveVerb::Conceal => "conceal",
            ObjectiveVerb::Confess => "confess",
            ObjectiveVerb::Decide => "decide",
            ObjectiveVerb::Impress => "impress",
            ObjectiveVerb::Survive => "survive",
            ObjectiveVerb::Connect => "connect",
            ObjectiveVerb::Separate => "separate",
            ObjectiveVerb::Refuse => "refuse",
            ObjectiveVerb::Accept => "accept",
            ObjectiveVerb::Reveal => "reveal",
            ObjectiveVerb::Learn => "learn",
            ObjectiveVerb::Prevent => "prevent",
            ObjectiveVerb::Maintain => "maintain",
            ObjectiveVerb::ObjectiveNone => "objective_none",
        }
    }

    fn from_name(s: &str) -> (r: Option<Self>) {
        let r = if str_eq(s, "obtain") {
            Some(ObjectiveVerb::Obtain)
        } else if str_eq(s, "persuade") {
            Some(ObjectiveVerb::Persuade)
        } else if str_eq(s, "escape") {
            Some(ObjectiveVerb::Escape)
        } else if str_eq(s, "protect") {
            Some(ObjectiveVerb::Protect)
        } else if str_eq(s, "confront") {
            Some(ObjectiveVerb::Confront)
        } else if str_eq(s, "conceal") {
            Some(ObjectiveVerb::Conceal)
        } else if str_eq(s, "confess") {
            Some(ObjectiveVerb::Confess)
        } else if str_eq(s, "decide") {
            Some(ObjectiveVerb::Decide)
        } else if str_eq(s, "impress") {
            Some(ObjectiveVerb::Impress)
        } else if str_eq(s, "survive") {
            Some(ObjectiveVerb::Survive)
        } else if str_eq(s, "connect") {
            Some(ObjectiveVerb::Connect)
        } else if str_eq(s, "separate") {
            Some(ObjectiveVerb::Separate)
        } else if str_eq(s, "refuse") {
            Some(ObjectiveVerb::Refuse)
        } else if str_eq(s, "accept") {
            Some(ObjectiveVerb::Accept)
        } else if str_eq(s, "reveal") {
            Some(ObjectiveVerb::Reveal)
        } else if str_eq(s, "learn") {
            Some(ObjectiveVerb::Learn)
        } else if str_eq(s, "prevent") {
            Some(ObjectiveVerb::Prevent)
        } else if str_eq(s, "maintain") {
            Some(ObjectiveVerb::Maintain)
        } else if str_eq(s, "objective_none") {
            Some(ObjectiveVerb::ObjectiveNone)
        } else {
            None
        };
        r
    }

    proof fn lemma_name_injective(a: Self, b: Self) {
        reveal_strlit("obtain");
        reveal_strlit("persuade");
        reveal_strlit("escape");
        reveal_strlit("protect");
        reveal_strlit("confront");
        reveal_strlit("conceal");
        reveal_strlit("confess");
        reveal_strlit("decide");
        reveal_strlit("impress");
        reveal_strlit("survive");
        reveal_strlit("connect");
        reveal_strlit("separate");
        reveal_strlit("refuse");
        reveal_strlit("accept");
        reveal_strlit("reveal");
        reveal_strlit("learn");
        reveal_strlit("prevent");
        reveal_strlit("maintain");
        reveal_strlit("objective_none");
        assert("obtain"@.len() == 6 && "obtain"@[0] == 'o');
        assert("persuade"@.len() == 8 && "persuade"@[0] == 'p');
        assert("escape"@.len() == 6 && "escape"@[0] == 'e');
        assert("protect"@.len() == 7 && "protect"@[0] == 'p' && "protect"@[2] == 'o');
        assert("confront"@.len() == 8 && "confront"@[0] == 'c');
        assert("conceal"@.len() == 7 && "conceal"@[0] == 'c' && "conceal"@[3] == 'c');
        assert("confess"@.len() == 7 && "confess"@[0] == 'c' && "confess"@[3] == 'f');
        assert("decide"@.len() == 6 && "decide"@[0] == 'd');
        assert("impress"@.len() == 7 && "impress"@[0] == 'i');
        assert("survive"@.len() == 7 && "survive"@[0] == 's');
        assert("connect"@.len() == 7 && "connect"@[0] == 'c' && "connect"@[3] == 'n');
        assert("separate"@.len() == 8 && "separate"@[0] == 's');
        assert("refuse"@.len() == 6 && "refuse"@[0] == 'r' && "refuse"@[2] == 'f');
        assert("accept"@.len() == 6 && "accept"@[0] == 'a');
        assert("reveal"@.len() == 6 && "reveal"@[0] == 'r' && "reveal"@[2] == 'v');
        assert("learn"@.len() == 5);
        assert("prevent"@.len() == 7 && "prevent"@[0] == 'p' && "prevent"@[2] == 'e');
        assert("maintain"@.len() == 8 && "maintain"@[0] == 'm');
        assert("objective_none"@.len() == 14);
    }
}

#[derive(Debug, Clone, Copy, PartialEq, Eq, Hash, Structural)]
pub enum ObjectiveObject {
    Information,
    Secret,
    Relationship,
    Proposal,
    Accusation,
    Position,
    Resource,
    Safety,
    Dignity,
    Truth,
    Alliance,
    Freedom,
    Approval,
    Control,
    ReconciliationObj,
}

impl SnakeName for ObjectiveObject {
    open spec fn spec_name(self) -> Seq<char> {
        match self {
            ObjectiveObject::Information => "information"@,
            ObjectiveObject::Secret => "secret"@,
            ObjectiveObject::Relationship => "relationship"@,
            ObjectiveObject::Proposal => "proposal"@,
            ObjectiveObject::Accusation => "accusation"@,
            ObjectiveObject::Position => "position"@,
            ObjectiveObject::Resource => "resource"@,
            ObjectiveObject::Safety => "safety"@,
            ObjectiveObject::Dignity => "dignity"@,
            ObjectiveObject::Truth => "truth"@,
            ObjectiveObject::Alliance => "alliance"@,
            ObjectiveObject::Freedom => "freedom"@,
            ObjectiveObject::Approval => "approval"@,
            ObjectiveObject::Control => "control"@,
            ObjectiveObject::ReconciliationObj => "reconciliation_obj"@,
        }
    }

    fn name(&self) -> (r: &'static str) {
        match self {
            ObjectiveObject::Information => "information",
            ObjectiveObject::Secret => "secret",
            ObjectiveObject::Relationship => "relationship",
            ObjectiveObject::Proposal => "proposal",
            ObjectiveObject::Accusation => "accusation",
            ObjectiveObject::Position => "position",
            ObjectiveObject::Resource => "resource",
            ObjectiveObject::Safety => "safety",
            ObjectiveObject::Dignity => "dignity",
            ObjectiveObject::Truth => "truth",
            ObjectiveObject::Alliance => "alliance",
            ObjectiveObject::Freedom => "freedom",
            ObjectiveObject::Approval => "approval",
            ObjectiveObject::Control => "control",
            ObjectiveObject::ReconciliationObj => "reconciliation_obj",
        }
    }

    fn from_name(s: &str) -> (r: Option<Self>) {
        let r = if str_eq(s, "information") {
            Some(ObjectiveObject::Information)
        } else if str_eq(s, "secret") {
            Some(ObjectiveObject::Secret)
        } else if str_eq(s, "relationship") {
            Some(ObjectiveObject::Relationship)
        } else if str_eq(s, "proposal") {
            Some(ObjectiveObject::Proposal)
        } else if str_eq(s, "accusation") {
            Some(ObjectiveObject::Accusation)
        } else if str_eq(s, "position") {
            Some(ObjectiveObject::Position)
        } else if str_eq(s, "resource") {
            Some(ObjectiveObject::Resource)
        } else if str_eq(s, "safety") {
            Some(ObjectiveObject::Safety)
        } else if str_eq(s, "dignity") {
            Some(ObjectiveObject::Dignity)
        } else if str_eq(s, "truth") {
            Some(ObjectiveObject::Truth)
        } else if str_eq(s, "alliance") {
            Some(ObjectiveObject::Alliance)
        } else if str_eq(s, "freedom") {
            Some(ObjectiveObject::Freedom)
        } else if str_eq(s, "approval") {
            Some(ObjectiveObject::Approval)
        } else if str_eq(s, "control") {
            Some(ObjectiveObject::Control)
        } else if str_eq(s, "reconciliation_obj") {
            Some(ObjectiveObject::ReconciliationObj)
        } else {
            None
        };
        r
    }

    proof fn lemma_name_injective(a: Self, b: Self) {
        reveal_strlit("information");
        reveal_strlit("secret");
        reveal_strlit("relationship");
        reveal_strlit("proposal");
        reveal_strlit("accusation");
        reveal_strlit("position");
        reveal_strlit("resource");
        reveal_strlit("safety");
        reveal_strlit("dignity");
        reveal_strlit("truth");
        reveal_strlit("alliance");
        reveal_strlit("freedom");
        reveal_strlit("approval");
        reveal_strlit("control");
        reveal_strlit("reconciliation_obj");
        assert("information"@.len() == 11);
        assert("secret"@.len() == 6 && "secret"@[1] == 'e');
        assert("relationship"@.len() == 12);
        assert("proposal"@.len() == 8 && "proposal"@[0] == 'p' && "proposal"@[1] == 'r');
        assert("accusation"@.len() == 10);
        assert("position"@.len() == 8 && "position"@[0] == 'p' && "position"@[1] == 'o');
        assert("resource"@.len() == 8 && "resource"@[0] == 'r');
        assert("safety"@.len() == 6 && "safety"@[1] == 'a');
        assert("dignity"@.len() == 7 && "dignity"@[0] == 'd');
        assert("truth"@.len() == 5);
        assert("alliance"@.len() == 8 && "alliance"@[0] == 'a' && "alliance"@[1] == 'l');
        assert("freedom"@.len() == 7 && "freedom"@[0] == 'f');
        assert("approval"@.len() == 8 && "approval"@[0] == 'a' && "approval"@[1] == 'p');
        assert("control"@.len() == 7 && "control"@[0] == 'c');
        assert("reconciliation_obj"@.len() == 18);
    }
}

#[derive(Debug, Clone, Copy, PartialEq, Eq, Hash, Structural)]
pub enum ObjectiveConstraint {
    Openly,
    Covertly,
    MaintainingDignity,
    WithoutConflict,
    Permanently,
    Temporarily,
    Conditionally,
    ConstraintNone,
}

impl SnakeName for ObjectiveConstraint {
    open spec fn spec_name(self) -> Seq<char> {
        match self {
            ObjectiveConstraint::Openly => "openly"@,
            ObjectiveConstraint::Covertly => "covertly"@,
            ObjectiveConstraint::MaintainingDignity => "maintaining_dignity"@,
            ObjectiveConstraint::WithoutConflict => "without_conflict"@,
            ObjectiveConstraint::Permanently => "permanently"@,
            ObjectiveConstraint::Temporarily => "temporarily"@,
            ObjectiveConstraint::Conditionally => "conditionally"@,
            ObjectiveConstraint::ConstraintNone => "constraint_none"@,
        }
    }

    fn name(&self) -> (r: &'static str) {
        match self {
            ObjectiveConstraint::Openly => "openly",
            ObjectiveConstraint::Covertly => "covertly",
            ObjectiveConstraint::MaintainingDignity => "maintaining_dignity",
            ObjectiveConstraint::WithoutConflict => "without_conflict",
            ObjectiveConstraint::Permanently => "permanently",
            ObjectiveConstraint::Temporarily => "temporarily",
            ObjectiveConstraint::Conditionally => "conditionally",
            ObjectiveConstraint::ConstraintNone => "constraint_none",
        }
    }

    fn from_name(s: &str) -> (r: Option<Self>) {
        let r = if str_eq(s, "openly") {
            Some(ObjectiveConstraint::Openly)
        } else if str_eq(s, "covertly") {
            Some(ObjectiveConstraint::Covertly)
        } else if str_eq(s, "maintaining_dignity") {
            Some(ObjectiveConstraint::MaintainingDignity)
        } else if str_eq(s, "without_conflict") {
            Some(ObjectiveConstraint::WithoutConflict)
        } else if str_eq(s, "permanently") {
            Some(ObjectiveConstraint::Permanently)
        } else if str_eq(s, "temporarily") {
            Some(ObjectiveConstraint::Temporarily)
        } else if str_eq(s, "conditionally") {
            Some(ObjectiveConstraint::Conditionally)
        } else if str_eq(s, "constraint_none") {
            Some(ObjectiveConstraint::ConstraintNone)
        } else {
            None
        };
        r
    }

    proof fn lemma_name_injective(a: Self, b: Self) {
        reveal_strlit("openly");
        reveal_strlit("covertly");
        reveal_strlit("maintaining_dignity");
        reveal_strlit("without_conflict");
        reveal_strlit("permanently");
        reveal_strlit("temporarily");
        reveal_strlit("conditionally");
        reveal_strlit("constraint_none");
        assert("openly"@.len() == 6);
        assert("covertly"@.len() == 8);
        assert("maintaining_dignity"@.len() == 19);
        assert("without_conflict"@.len() == 16);
        assert("permanently"@.len() == 11 && "permanently"@[0] == 'p');
        assert("temporarily"@.len() == 11 && "temporarily"@[0] == 't');
        assert("conditionally"@.len() == 13);
        assert("constraint_none"@.len() == 15);
    }
}

#[derive(Debug, Clone, Copy, PartialEq, Eq, Hash, Structural)]
pub enum BodyLanguage {
    EyeContact,
    AvoidsEyeContact,
    ClenchedFists,
    CrossedArms,
    OpenPosture,
    TurnedAway,
    LeaningIn,
    LeaningBack,
    Fidgeting,
    Stillness,
    Trembling,
    Tears,
    ForcedSmile,
    GenuineSmile,
    Frown,
    BlankExpression,
    Nodding,
    ShakingHead,
    TouchingFace,
    TouchingOther,
    MaintainingDistance,
    ClosingDistance,
}

impl SnakeName for BodyLanguage {
    open spec fn spec_name(self) -> Seq<char> {
        match self {
            BodyLanguage::EyeContact => "eye_contact"@,
            BodyLanguage::AvoidsEyeContact => "avoids_eye_contact"@,
            BodyLanguage::ClenchedFists => "clenched_fists"@,
            BodyLanguage::CrossedArms => "crossed_arms"@,
            BodyLanguage::OpenPosture => "open_posture"@,
            BodyLanguage::TurnedAway => "turned_away"@,
            BodyLanguage::LeaningIn => "leaning_in"@,
            BodyLanguage::LeaningBack => "leaning_back"@,
            BodyLanguage::Fidgeting => "fidgeting"@,
            BodyLanguage::Stillness => "stillness"@,
            BodyLanguage::Trembling => "trembling"@,
            BodyLanguage::Tears => "tears"@,
            BodyLanguage::ForcedSmile => "forced_smile"@,
            BodyLanguage::GenuineSmile => "genuine_smile"@,
            BodyLanguage::Frown => "frown"@,
            BodyLanguage::BlankExpression => "blank_expression"@,
            BodyLanguage::Nodding => "nodding"@,
            BodyLanguage::ShakingHead => "shaking_head"@,
            BodyLanguage::TouchingFace => "touching_face"@,
            BodyLanguage::TouchingOther => "touching_other"@,
            BodyLanguage::MaintainingDistance => "maintaining_distance"@,
            BodyLanguage::ClosingDistance => "closing_distance"@,
        }
    }

    fn name(&self) -> (r: &'static str) {
        match self {
            BodyLanguage::EyeContact => "eye_contact",
            BodyLanguage::AvoidsEyeContact => "avoids_eye_contact",
            BodyLanguage::ClenchedFists => "clenched_fists",
            BodyLanguage::CrossedArms => "crossed_arms",
            BodyLanguage::OpenPosture => "open_posture",
            BodyLanguage::TurnedAway => "turned_away",
            BodyLanguage::LeaningIn => "leaning_in",
            BodyLanguage::LeaningBack => "leaning_back",
            BodyLanguage::Fidgeting => "fidgeting",
            BodyLanguage::Stillness => "stillness",
            BodyLanguage::Trembling => "trembling",
            BodyLanguage::Tears => "tears",
            BodyLanguage::ForcedSmile => "forced_smile",
            BodyLanguage::GenuineSmile => "genuine_smile",
            BodyLanguage::Frown => "frown",
            BodyLanguage::BlankExpression => "blank_expression",
            BodyLanguage::Nodding => "nodding",
            BodyLanguage::ShakingHead => "shaking_head",
            BodyLanguage::TouchingFace => "touching_face",
            BodyLanguage::TouchingOther => "touching_other",
            BodyLanguage::MaintainingDistance => "maintaining_distance",
            BodyLanguage::ClosingDistance => "closing_distance",
        }
    }

    fn from_name(s: &str) -> (r: Option<Self>) {
        let r = if str_eq(s, "eye_contact") {
            Some(BodyLanguage::EyeContact)
        } else if str_eq(s, "avoids_eye_contact") {
            Some(BodyLanguage::AvoidsEyeContact)
        } else if str_eq(s, "clenched_fists") {
            Some(BodyLanguage::ClenchedFists)
        } else if str_eq(s, "crossed_arms") {
            Some(BodyLanguage::CrossedArms)
        } else if str_eq(s, "open_posture") {
            Some(BodyLanguage::OpenPosture)
        } else if str_eq(s, "turned_away") {
            Some(BodyLanguage::TurnedAway)
        } else if str_eq(s, "leaning_in") {
            Some(BodyLanguage::LeaningIn)
        } else if str_eq(s, "leaning_back") {
            Some(BodyLanguage::LeaningBack)
        } else if str_eq(s, "fidgeting") {
            Some(BodyLanguage::Fidgeting)
        } else if str_eq(s, "stillness") {
            Some(BodyLanguage::Stillness)
        } else if str_eq(s, "trembling") {
            Some(BodyLanguage::Trembling)
        } else if str_eq(s, "tears") {
            Some(BodyLanguage::Tears)
        } else if str_eq(s, "forced_smile") {
            Some(BodyLanguage::ForcedSmile)
        } else if str_eq(s, "genuine_smile") {
            Some(BodyLanguage::GenuineSmile)
        } else if str_eq(s, "frown") {
            Some(BodyLanguage::Frown)
        } else if str_eq(s, "blank_expression") {
            Some(BodyLanguage::BlankExpression)
        } else if str_eq(s, "nodding") {
            Some(BodyLanguage::Nodding)
        } else if str_eq(s, "shaking_head") {
            Some(BodyLanguage::ShakingHead)
        } else if str_eq(s, "touching_face") {
            Some(BodyLanguage::TouchingFace)
        } else if str_eq(s, "touching_other") {
            Some(BodyLanguage::TouchingOther)
        } else if str_eq(s, "maintaining_distance") {
            Some(BodyLanguage::MaintainingDistance)
        } else if str_eq(s, "closing_distance") {
            Some(BodyLanguage::ClosingDistance)
        } else {
            None
        };
        r
    }

    proof fn lemma_name_injective(a: Self, b: Self) {
        reveal_strlit("eye_contact");
        reveal_strlit("avoids_eye_contact");
        reveal_strlit("clenched_fists");
        reveal_strlit("crossed_arms");
        reveal_strlit("open_posture");
        reveal_strlit("turned_away");
        reveal_strlit("leaning_in");
        reveal_strlit("leaning_back");
        reveal_strlit("fidgeting");
        reveal_strlit("stillness");
        reveal_strlit("trembling");
        reveal_strlit("tears");
        reveal_strlit("forced_smile");
        reveal_strlit("genuine_smile");
        reveal_strlit("frown");
        reveal_strlit("blank_expression");
        reveal_strlit("nodding");
        reveal_strlit("shaking_head");
        reveal_strlit("touching_face");
        reveal_strlit("touching_other");
        reveal_strlit("maintaining_distance");
        reveal_strlit("closing_distance");
        assert("eye_contact"@.len() == 11 && "eye_contact"@[0] == 'e');
        assert("avoids_eye_contact"@.len() == 18);
        assert("clenched_fists"@.len() == 14 && "clenched_fists"@[0] == 'c');
        assert("crossed_arms"@.len() == 12 && "crossed_arms"@[0] == 'c');
        assert("open_posture"@.len() == 12 && "open_posture"@[0] == 'o');
        assert("turned_away"@.len() == 11 && "turned_away"@[0] == 't');
        assert("leaning_in"@.len() == 10);
        assert("leaning_back"@.len() == 12 && "leaning_back"@[0] == 'l');
        assert("fidgeting"@.len() == 9 && "fidgeting"@[0] == 'f');
        assert("stillness"@.len() == 9 && "stillness"@[0] == 's');
        assert("trembling"@.len() == 9 && "trembling"@[0] == 't');
        assert("tears"@.len() == 5 && "tears"@[0] == 't');
        assert("forced_smile"@.len() == 12 && "forced_smile"@[0] == 'f');
        assert("genuine_smile"@.len() == 13 && "genuine_smile"@[0] == 'g');
        assert("frown"@.len() == 5 && "frown"@[0] == 'f');
        assert("blank_expression"@.len() == 16 && "blank_expression"@[0] == 'b');
        assert("nodding"@.len() == 7);
        assert("shaking_head"@.len() == 12 && "shaking_head"@[0] == 's');
        assert("touching_face"@.len() == 13 && "touching_face"@[0] == 't');
        assert("touching_other"@.len() == 14 && "touching_other"@[0] == 't');
        assert("maintaining_distance"@.len() == 20);
        assert("closing_distance"@.len() == 16 && "closing_distance"@[0] == 'c');
    }
}

#[derive(Debug, Clone, Copy, PartialEq, Eq, Hash, Structural)]
pub enum Posture {
    Seated,
    Standing,
    Pacing,
    Lying,
    Kneeling,
    Crouching,
    Leaning,
    Frozen,
}

impl SnakeName for Posture {
    open spec fn spec_name(self) -> Seq<char> {
        match self {
            Posture::Seated => "seated"@,
            Posture::Standing => "standing"@,
            Posture::Pacing => "pacing"@,
            Posture::Lying => "lying"@,
            Posture::Kneeling => "kneeling"@,
            Posture::Crouching => "crouching"@,
            Posture::Leaning => "leaning"@,
            Posture::Frozen => "frozen"@,
        }
    }

    fn name(&self) -> (r: &'static str) {
        match self {
            Posture::Seated => "seated",
            Posture::Standing => "standing",
            Posture::Pacing => "pacing",
            Posture::Lying => "lying",
            Posture::Kneeling => "kneeling",
            Posture::Crouching => "crouching",
            Posture::Leaning => "leaning",
            Posture::Frozen => "frozen",
        }
    }

    fn from_name(s: &str) -> (r: Option<Self>) {
        let r = if str_eq(s, "seated") {
            Some(Posture::Seated)
        } else if str_eq(s, "standing") {
            Some(Posture::Standing)
        } else if str_eq(s, "pacing") {
            Some(Posture::Pacing)
        } else if str_eq(s, "lying") {
            Some(Posture::Lying)
        } else if str_eq(s, "kneeling") {
            Some(Posture::Kneeling)
        } else if str_eq(s, "crouching") {
            Some(Posture::Crouching)
        } else if str_eq(s, "leaning") {
            Some(Posture::Leaning)
        } else if str_eq(s, "frozen") {
            Some(Posture::Frozen)
        } else {
            None
        };
        r
    }

    proof fn lemma_name_injective(a: Self, b: Self) {
        reveal_strlit("seated");
        reveal_strlit("standing");
        reveal_strlit("pacing");
        reveal_strlit("lying");
        reveal_strlit("kneeling");
        reveal_strlit("crouching");
        reveal_strlit("leaning");
        reveal_strlit("frozen");
        assert("seated"@.len() == 6 && "seated"@[0] == 's');
        assert("standing"@.len() == 8 && "standing"@[0] == 's');
        assert("pacing"@.len() == 6 && "pacing"@[0] == 'p');
        assert("lying"@.len() == 5);
        assert("kneeling"@.len() == 8 && "kneeling"@[0] == 'k');
        assert("crouching"@.len() == 9);
        assert("leaning"@.len() == 7);
        assert("frozen"@.len() == 6 && "frozen"@[0] == 'f');
    }
}

#[derive(Debug, Clone, Copy, PartialEq, Eq, Hash, Structural)]
pub enum PovRole {
    Focal,
    Present,
    Mentioned,
}

impl SnakeName for PovRole {
    open spec fn spec_name(self) -> Seq<char> {
        match self {
            PovRole::Focal => "focal"@,
            PovRole::Present => "present"@,
            PovRole::Mentioned => "mentioned"@,
        }
    }

    fn name(&self) -> (r: &'static str) {
        match self {
            PovRole::Focal => "focal",
            PovRole::Present => "present",
            PovRole::Mentioned => "mentioned",
        }
    }

    fn from_name(s: &str) -> (r: Option<Self>) {
        let r = if str_eq(s, "focal") {
            Some(PovRole::Focal)
        } else if str_eq(s, "present") {
            Some(PovRole::Present)
        } else if str_eq(s, "mentioned") {
            Some(PovRole::Mentioned)
        } else {
            None
        };
        r
    }

    proof fn lemma_name_injective(a: Self, b: Self) {
        reveal_strlit("focal");
        reveal_strlit("present");
        reveal_strlit("mentioned");
        assert("focal"@.len() == 5);
        assert("present"@.len() == 7);
        assert("mentioned"@.len() == 9);
    }
}

#[derive(Debug, Clone, Copy, PartialEq, Eq, Hash, Structural)]
pub enum PsychicDistanceLevel {
    DistantNarrator,
    CloseNarrator,
    NeutralFilter,
    DeepFilter,
    StreamOfConsciousness,
}

impl SnakeName for PsychicDistanceLevel {
    open spec fn spec_name(self) -> Seq<char> {
        match self {
            PsychicDistanceLevel::DistantNarrator => "distant_narrator"@,
            PsychicDistanceLevel::CloseNarrator => "close_narrator"@,
            PsychicDistanceLevel::NeutralFilter => "neutral_filter"@,
            PsychicDistanceLevel::DeepFilter => "deep_filter"@,
            PsychicDistanceLevel::StreamOfConsciousness => "stream_of_consciousness"@,
        }
    }

    fn name(&self) -> (r: &'static str) {
        match self {
            PsychicDistanceLevel::DistantNarrator => "distant_narrator",
            PsychicDistanceLevel::CloseNarrator => "close_narrator",
            PsychicDistanceLevel::NeutralFilter => "neutral_filter",
            PsychicDistanceLevel::DeepFilter => "deep_filter",
            PsychicDistanceLevel::StreamOfConsciousness => "stream_of_consciousness",
        }
    }

    fn from_name(s: &str) -> (r: Option<Self>) {
        let r = if str_eq(s, "distant_narrator") {
            Some(PsychicDistanceLevel::DistantNarrator)
        } else if str_eq(s, "close_narrator") {
            Some(PsychicDistanceLevel::CloseNarrator)
        } else if str_eq(s, "neutral_filter") {
            Some(PsychicDistanceLevel::NeutralFilter)
        } else if str_eq(s, "deep_filter") {
            Some(PsychicDistanceLevel::DeepFilter)
        } else if str_eq(s, "stream_of_consciousness") {
            Some(PsychicDistanceLevel::StreamOfConsciousness)
        } else {
            None
        };
        r
    }

    proof fn lemma_name_injective(a: Self, b: Self) {
        reveal_strlit("distant_narrator");
        reveal_strlit("close_narrator");
        reveal_strlit("neutral_filter");
        reveal_strlit("deep_filter");
        reveal_strlit("stream_of_consciousness");
        assert("distant_narrator"@.len() == 16);
        assert("close_narrator"@.len() == 14 && "close_narrator"@[0] == 'c');
        assert("neutral_filter"@.len() == 14 && "neutral_filter"@[0] == 'n');
        assert("deep_filter"@.len() == 11);
        assert("stream_of_consciousness"@.len() == 23);
    }
}

#[derive(Debug, Clone, Copy, PartialEq, Eq, Hash, Structural)]
pub enum PsychicDistanceTrigger {
    DialogueStart,
    RevelationMoment,
    DecisionPoint,
    EmotionalPeak,
    ActionSequence,
    Reflection,
    SceneEnd,
}

impl SnakeName for PsychicDistanceTrigger {
    open spec fn spec_name(self) -> Seq<char> {
        match self {
            PsychicDistanceTrigger::DialogueStart => "dialogue_start"@,
            PsychicDistanceTrigger::RevelationMoment => "revelation_moment"@,
            PsychicDistanceTrigger::DecisionPoint => "decision_point"@,
            PsychicDistanceTrigger::EmotionalPeak => "emotional_peak"@,
            PsychicDistanceTrigger::ActionSequence => "action_sequence"@,
            PsychicDistanceTrigger::Reflection => "reflection"@,
            PsychicDistanceTrigger::SceneEnd => "scene_end"@,
        }
    }

    fn name(&self) -> (r: &'static str) {
        match self {
            PsychicDistanceTrigger::DialogueStart => "dialogue_start",
            PsychicDistanceTrigger::RevelationMoment => "revelation_moment",
            PsychicDistanceTrigger::DecisionPoint => "decision_point",
            PsychicDistanceTrigger::EmotionalPeak => "emotional_peak",
            PsychicDistanceTrigger::ActionSequence => "action_sequence",
            PsychicDistanceTrigger::Reflection => "reflection",
            PsychicDistanceTrigger::SceneEnd => "scene_end",
        }
    }

    fn from_name(s: &str) -> (r: Option<Self>) {
        let r = if str_eq(s, "dialogue_start") {
            Some(PsychicDistanceTrigger::DialogueStart)
        } else if str_eq(s, "revelation_moment") {
            Some(PsychicDistanceTrigger::RevelationMoment)
        } else if str_eq(s, "decision_point") {
            Some(PsychicDistanceTrigger::DecisionPoint)
        } else if str_eq(s, "emotional_peak") {
            Some(PsychicDistanceTrigger::EmotionalPeak)
        } else if str_eq(s, "action_sequence") {
            Some(PsychicDistanceTrigger::ActionSequence)
        } else if str_eq(s, "reflection") {
            Some(PsychicDistanceTrigger::Reflection)
        } else if str_eq(s, "scene_end") {
            Some(PsychicDistanceTrigger::SceneEnd)
        } else {
            None
        };
        r
    }

    proof fn lemma_name_injective(a: Self, b: Self) {
        reveal_strlit("dialogue_start");
        reveal_strlit("revelation_moment");
        reveal_strlit("decision_point");
        reveal_strlit("emotional_peak");
        reveal_strlit("action_sequence");
        reveal_strlit("reflection");
        reveal_strlit("scene_end");
        assert("dialogue_start"@.len() == 14 && "dialogue_start"@[0] == 'd' && "dialogue_start"@[1] == 'i');
        assert("revelation_moment"@.len() == 17);
        assert("decision_point"@.len() == 14 && "decision_point"@[0] == 'd' && "decision_point"@[1] == 'e');
        assert("emotional_peak"@.len() == 14 && "emotional_peak"@[0] == 'e');
        assert("action_sequence"@.len() == 15);
        assert("reflection"@.len() == 10);
        assert("scene_end"@.len() == 9);
    }
}

#[derive(Debug, Clone, Copy, PartialEq, Eq, Hash, Structural)]
pub enum PersonalStakes {
    Identity,
    SelfRespect,
    SafetyStake,
    FreedomStake,
    Livelihood,
    Reputation,
    RelationshipStake,
    Goal,
    SecretStake,
    Belief,
    StakesNone,
}

impl SnakeName for PersonalStakes {
    open spec fn spec_name(self) -> Seq<char> {
        match self {
            PersonalStakes::Identity => "identity"@,
            PersonalStakes::SelfRespect => "self_respect"@,
            PersonalStakes::SafetyStake => "safety_stake"@,
            PersonalStakes::FreedomStake => "freedom_stake"@,
            PersonalStakes::Livelihood => "livelihood"@,
            PersonalStakes::Reputation => "reputation"@,
            PersonalStakes::RelationshipStake => "relationship_stake"@,
            PersonalStakes::Goal => "goal"@,
            PersonalStakes::SecretStake => "secret_stake"@,
            PersonalStakes::Belief => "belief"@,
            PersonalStakes::StakesNone => "stakes_none"@,
        }
    }

    fn name(&self) -> (r: &'static str) {
        match self {
            PersonalStakes::Identity => "identity",
            PersonalStakes::SelfRespect => "self_respect",
            PersonalStakes::SafetyStake => "safety_stake",
            PersonalStakes::FreedomStake => "freedom_stake",
            PersonalStakes::Livelihood => "livelihood",
            PersonalStakes::Reputation => "reputation",
            PersonalStakes::RelationshipStake => "relationship_stake",
            PersonalStakes::Goal => "goal",
            PersonalStakes::SecretStake => "secret_stake",
            PersonalStakes::Belief => "belief",
            PersonalStakes::StakesNone => "stakes_none",
        }
    }

    fn from_name(s: &str) -> (r: Option<Self>) {
        let r = if str_eq(s, "identity") {
            Some(PersonalStakes::Identity)
        } else if str_eq(s, "self_respect") {
            Some(PersonalStakes::SelfRespect)
        } else if str_eq(s, "safety_stake") {
            Some(PersonalStakes::SafetyStake)
        } else if str_eq(s, "freedom_stake") {
            Some(PersonalStakes::FreedomStake)
        } else if str_eq(s, "livelihood") {
            Some(PersonalStakes::Livelihood)
        } else if str_eq(s, "reputation") {
            Some(PersonalStakes::Reputation)
        } else if str_eq(s, "relationship_stake") {
            Some(PersonalStakes::RelationshipStake)
        } else if str_eq(s, "goal") {
            Some(PersonalStakes::Goal)
        } else if str_eq(s, "secret_stake") {
            Some(PersonalStakes::SecretStake)
        } else if str_eq(s, "belief") {
            Some(PersonalStakes::Belief)
        } else if str_eq(s, "stakes_none") {
            Some(PersonalStakes::StakesNone)
        } else {
            None
        };
        r
    }

    proof fn lemma_name_injective(a: Self, b: Self) {
        reveal_strlit("identity");
        reveal_strlit("self_respect");
        reveal_strlit("safety_stake");
        reveal_strlit("freedom_stake");
        reveal_strlit("livelihood");
        reveal_strlit("reputation");
        reveal_strlit("relationship_stake");
        reveal_strlit("goal");
        reveal_strlit("secret_stake");
        reveal_strlit("belief");
        reveal_strlit("stakes_none");
        assert("identity"@.len() == 8);
        assert("self_respect"@.len() == 12 && "self_respect"@[1] == 'e' && "self_respect"@[2] == 'l');
        assert("safety_stake"@.len() == 12 && "safety_stake"@[1] == 'a');
        assert("freedom_stake"@.len() == 13);
        assert("livelihood"@.len() == 10 && "livelihood"@[0] == 'l');
        assert("reputation"@.len() == 10 && "reputation"@[0] == 'r');
        assert("relationship_stake"@.len() == 18);
        assert("goal"@.len() == 4);
        assert("secret_stake"@.len() == 12 && "secret_stake"@[1] == 'e' && "secret_stake"@[2] == 'c');
        assert("belief"@.len() == 6);
        assert("stakes_none"@.len() == 11);
    }
}

#[derive(Debug, Clone, Copy, PartialEq, Eq, Hash, Structural)]
pub enum RelationalStakes {
    TrustStake,
    IntimacyStake,
    StatusStake,
    ConnectionStake,
    AllianceStake,
    RuptureStake,
    RelationStakesNone,
}

impl SnakeName for RelationalStakes {
    open spec fn spec_name(self) -> Seq<char> {
        match self {
            RelationalStakes::TrustStake => "trust_stake"@,
            RelationalStakes::IntimacyStake => "intimacy_stake"@,
            RelationalStakes::StatusStake => "status_stake"@,
            RelationalStakes::ConnectionStake => "connection_stake"@,
            RelationalStakes::AllianceStake => "alliance_stake"@,
            RelationalStakes::RuptureStake => "rupture_stake"@,
            RelationalStakes::RelationStakesNone => "relation_stakes_none"@,
        }
    }

    fn name(&self) -> (r: &'static str) {
        match self {
            RelationalStakes::TrustStake => "trust_stake",
            RelationalStakes::IntimacyStake => "intimacy_stake",
            RelationalStakes::StatusStake => "status_stake",
            RelationalStakes::ConnectionStake => "connection_stake",
            RelationalStakes::AllianceStake => "alliance_stake",
            RelationalStakes::RuptureStake => "rupture_stake",
            RelationalStakes::RelationStakesNone => "relation_stakes_none",
        }
    }

    fn from_name(s: &str) -> (r: Option<Self>) {
        let r = if str_eq(s, "trust_stake") {
            Some(RelationalStakes::TrustStake)
        } else if str_eq(s, "intimacy_stake") {
            Some(RelationalStakes::IntimacyStake)
        } else if str_eq(s, "status_stake") {
            Some(RelationalStakes::StatusStake)
        } else if str_eq(s, "connection_stake") {
            Some(RelationalStakes::ConnectionStake)
        } else if str_eq(s, "alliance_stake") {
            Some(RelationalStakes::AllianceStake)
        } else if str_eq(s, "rupture_stake") {
            Some(RelationalStakes::RuptureStake)
        } else if str_eq(s, "relation_stakes_none") {
            Some(RelationalStakes::RelationStakesNone)
        } else {
            None
        };
        r
    }

    proof fn lemma_name_injective(a: Self, b: Self) {
        reveal_strlit("trust_stake");
        reveal_strlit("intimacy_stake");
        reveal_strlit("status_stake");
        reveal_strlit("connection_stake");
        reveal_strlit("alliance_stake");
        reveal_strlit("rupture_stake");
        reveal_strlit("relation_stakes_none");
        assert("trust_stake"@.len() == 11);
        assert("intimacy_stake"@.len() == 14 && "intimacy_stake"@[0] == 'i');
        assert("status_stake"@.len() == 12);
        assert("connection_stake"@.len() == 16);
        assert("alliance_stake"@.len() == 14 && "alliance_stake"@[0] == 'a');
        assert("rupture_stake"@.len() == 13);
        assert("relation_stakes_none"@.len() == 20);
    }
}

#[derive(Debug, Clone, Copy, PartialEq, Eq, Hash, Structural)]
pub enum SocialCircle {
    Family,
    Professional,
    Community,
    Underground,
    Romantic,
    Religious,
    Political,
    Artistic,
    CircleNone,
}

impl SnakeName for SocialCircle {
    open spec fn spec_name(self) -> Seq<char> {
        match self {
            SocialCircle::Family => "family"@,
            SocialCircle::Professional => "professional"@,
            SocialCircle::Community => "community"@,
            SocialCircle::Underground => "underground"@,
            SocialCircle::Romantic => "romantic"@,
            SocialCircle::Religious => "religious"@,
            SocialCircle::Political => "political"@,
            SocialCircle::Artistic => "artistic"@,
            SocialCircle::CircleNone => "circle_none"@,
        }
    }

    fn name(&self) -> (r: &'static str) {
        match self {
            SocialCircle::Family => "family",
            SocialCircle::Professional => "professional",
            SocialCircle::Community => "community",
            SocialCircle::Underground => "underground",
            SocialCircle::Romantic => "romantic",
            SocialCircle::Religious => "religious",
            SocialCircle::Political => "political",
            SocialCircle::Artistic => "artistic",
            SocialCircle::CircleNone => "circle_none",
        }
    }

    fn from_name(s: &str) -> (r: Option<Self>) {
        let r = if str_eq(s, "family") {
            Some(SocialCircle::Family)
        } else if str_eq(s, "professional") {
            Some(SocialCircle::Professional)
        } else if str_eq(s, "community") {
            Some(SocialCircle::Community)
        } else if str_eq(s, "underground") {
            Some(SocialCircle::Underground)
        } else if str_eq(s, "romantic") {
            Some(SocialCircle::Romantic)
        } else if str_eq(s, "religious") {
            Some(SocialCircle::Religious)
        } else if str_eq(s, "political") {
            Some(SocialCircle::Political)
        } else if str_eq(s, "artistic") {
            Some(SocialCircle::Artistic)
        } else if str_eq(s, "circle_none") {
            Some(SocialCircle::CircleNone)
        } else {
            None
        };
        r
    }

    proof fn lemma_name_injective(a: Self, b: Self) {
        reveal_strlit("family");
        reveal_strlit("professional");
        reveal_strlit("community");
        reveal_strlit("underground");
        reveal_strlit("romantic");
        reveal_strlit("religious");
        reveal_strlit("political");
        reveal_strlit("artistic");
        reveal_strlit("circle_none");
        assert("family"@.len() == 6);
        assert("professional"@.len() == 12);
        assert("community"@.len() == 9 && "community"@[0] == 'c');
        assert("underground"@.len() == 11 && "underground"@[0] == 'u');
        assert("romantic"@.len() == 8 && "romantic"@[0] == 'r');
        assert("religious"@.len() == 9 && "religious"@[0] == 'r');
        assert("political"@.len() == 9 && "political"@[0] == 'p');
        assert("artistic"@.len() == 8 && "artistic"@[0] == 'a');
        assert("circle_none"@.len() == 11 && "circle_none"@[0] == 'c');
    }
}

#[derive(Debug, Clone, Copy, PartialEq, Eq, Hash, Structural)]
pub enum SocialMask {
    Authentic,
    Performing,
    Concealing,
    CodeSwitching,
}

impl SnakeName for SocialMask {
    open spec fn spec_name(self) -> Seq<char> {
        match self {
            SocialMask::Authentic => "authentic"@,
            SocialMask::Performing => "performing"@,
            SocialMask::Concealing => "concealing"@,
            SocialMask::CodeSwitching => "code_switching"@,
        }
    }

    fn name(&self) -> (r: &'static str) {
        match self {
            SocialMask::Authentic => "authentic",
            SocialMask::Performing => "performing",
            SocialMask::Concealing => "concealing",
            SocialMask::CodeSwitching => "code_switching",
        }
    }

    fn from_name(s: &str) -> (r: Option<Self>) {
        let r = if str_eq(s, "authentic") {
            Some(SocialMask::Authentic)
        } else if str_eq(s, "performing") {
            Some(SocialMask::Performing)
        } else if str_eq(s, "concealing") {
            Some(SocialMask::Concealing)
        } else if str_eq(s, "code_switching") {
            Some(SocialMask::CodeSwitching)
        } else {
            None
        };
        r
    }

    proof fn lemma_name_injective(a: Self, b: Self) {
        reveal_strlit("authentic");
        reveal_strlit("performing");
        reveal_strlit("concealing");
        reveal_strlit("code_switching");
        assert("authentic"@.len() == 9);
        assert("performing"@.len() == 10 && "performing"@[0] == 'p');
        assert("concealing"@.len() == 10 && "concealing"@[0] == 'c');
        assert("code_switching"@.len() == 14);
    }
}

#[derive(Debug, Clone, Copy, PartialEq, Eq, Hash, Structural)]
pub enum DominantSocialCircle {
    FamilyDom,
    ProfessionalDom,
    SocialDom,
    IntimateDom,
    PublicDom,
    PrivateDom,
    InstitutionalDom,
    UndergroundDom,
    MarginalDom,
}

impl SnakeName for DominantSocialCircle {
    open spec fn spec_name(self) -> Seq<char> {
        match self {
            DominantSocialCircle::FamilyDom => "family_dom"@,
            DominantSocialCircle::ProfessionalDom => "professional_dom"@,
            DominantSocialCircle::SocialDom => "social_dom"@,
            DominantSocialCircle::IntimateDom => "intimate_dom"@,
            DominantSocialCircle::PublicDom => "public_dom"@,
            DominantSocialCircle::PrivateDom => "private_dom"@,
            DominantSocialCircle::InstitutionalDom => "institutional_dom"@,
            DominantSocialCircle::UndergroundDom => "underground_dom"@,
            DominantSocialCircle::MarginalDom => "marginal_dom"@,
        }
    }

    fn name(&self) -> (r: &'static str) {
        match self {
            DominantSocialCircle::FamilyDom => "family_dom",
            DominantSocialCircle::ProfessionalDom => "professional_dom",
            DominantSocialCircle::SocialDom => "social_dom",
            DominantSocialCircle::IntimateDom => "intimate_dom",
            DominantSocialCircle::PublicDom => "public_dom",
            DominantSocialCircle::PrivateDom => "private_dom",
            DominantSocialCircle::InstitutionalDom => "institutional_dom",
            DominantSocialCircle::UndergroundDom => "underground_dom",
            DominantSocialCircle::MarginalDom => "marginal_dom",
        }
    }

    fn from_name(s: &str) -> (r: Option<Self>) {
        let r = if str_eq(s, "family_dom") {
            Some(DominantSocialCircle::FamilyDom)
        } else if str_eq(s, "professional_dom") {
            Some(DominantSocialCircle::ProfessionalDom)
        } else if str_eq(s, "social_dom") {
            Some(DominantSocialCircle::SocialDom)
        } else if str_eq(s, "intimate_dom") {
            Some(DominantSocialCircle::IntimateDom)
        } else if str_eq(s, "public_dom") {
            Some(DominantSocialCircle::PublicDom)
        } else if str_eq(s, "private_dom") {
            Some(DominantSocialCircle::PrivateDom)
        } else if str_eq(s, "institutional_dom") {
            Some(DominantSocialCircle::InstitutionalDom)
        } else if str_eq(s, "underground_dom") {
            Some(DominantSocialCircle::UndergroundDom)
        } else if str_eq(s, "marginal_dom") {
            Some(DominantSocialCircle::MarginalDom)
        } else {
            None
        };
        r
    }

    proof fn lemma_name_injective(a: Self, b: Self) {
        reveal_strlit("family_dom");
        reveal_strlit("professional_dom");
        reveal_strlit("social_dom");
        reveal_strlit("intimate_dom");
        reveal_strlit("public_dom");
        reveal_strlit("private_dom");
        reveal_strlit("institutional_dom");
        reveal_strlit("underground_dom");
        reveal_strlit("marginal_dom");
        assert("family_dom"@.len() == 10 && "family_dom"@[0] == 'f');
        assert("professional_dom"@.len() == 16);
        assert("social_dom"@.len() == 10 && "social_dom"@[0] == 's');
        assert("intimate_dom"@.len() == 12 && "intimate_dom"@[0] == 'i');
        assert("public_dom"@.len() == 10 && "public_dom"@[0] == 'p');
        assert("private_dom"@.len() == 11);
        assert("institutional_dom"@.len() == 17);
        assert("underground_dom"@.len() == 15);
        assert("marginal_dom"@.len() == 12 && "marginal_dom"@[0] == 'm');
    }
}

#[derive(Debug, Clone, Copy, PartialEq, Eq, Hash, Structural)]
pub enum CircleIntersection {
    IntersectionNone,
    FamilyProfessional,
    FamilySocial,
    ProfessionalSocial,
    IntimateFamily,
    PublicPrivate,
    MultiCircle,
}

impl SnakeName for CircleIntersection {
    open spec fn spec_name(self) -> Seq<char> {
        match self {
            CircleIntersection::IntersectionNone => "intersection_none"@,
            CircleIntersection::FamilyProfessional => "family_professional"@,
            CircleIntersection::FamilySocial => "family_social"@,
            CircleIntersection::ProfessionalSocial => "professional_social"@,
            CircleIntersection::IntimateFamily => "intimate_family"@,
            CircleIntersection::PublicPrivate => "public_private"@,
            CircleIntersection::MultiCircle => "multi_circle"@,
        }
    }

    fn name(&self) -> (r: &'static str) {
        match self {
            CircleIntersection::IntersectionNone => "intersection_none",
            CircleIntersection::FamilyProfessional => "family_professional",
            CircleIntersection::FamilySocial => "family_social",
            CircleIntersection::ProfessionalSocial => "professional_social",
            CircleIntersection::IntimateFamily => "intimate_family",
            CircleIntersection::PublicPrivate => "public_private",
            CircleIntersection::MultiCircle => "multi_circle",
        }
    }

    fn from_name(s: &str) -> (r: Option<Self>) {
        let r = if str_eq(s, "intersection_none") {
            Some(CircleIntersection::IntersectionNone)
        } else if str_eq(s, "family_professional") {
            Some(CircleIntersection::FamilyProfessional)
        } else if str_eq(s, "family_social") {
            Some(CircleIntersection::FamilySocial)
        } else if str_eq(s, "professional_social") {
            Some(CircleIntersection::ProfessionalSocial)
        } else if str_eq(s, "intimate_family") {
            Some(CircleIntersection::IntimateFamily)
        } else if str_eq(s, "public_private") {
            Some(CircleIntersection::PublicPrivate)
        } else if str_eq(s, "multi_circle") {
            Some(CircleIntersection::MultiCircle)
        } else {
            None
        };
        r
    }

    proof fn lemma_name_injective(a: Self, b: Self) {
        reveal_strlit("intersection_none");
        reveal_strlit("family_professional");
        reveal_strlit("family_social");
        reveal_strlit("professional_social");
        reveal_strlit("intimate_family");
        reveal_strlit("public_private");
        reveal_strlit("multi_circle");
        assert("intersection_none"@.len() == 17);
        assert("family_professional"@.len() == 19 && "family_professional"@[0] == 'f');
        assert("family_social"@.len() == 13);
        assert("professional_social"@.len() == 19 && "professional_social"@[0] == 'p');
        assert("intimate_family"@.len() == 15);
        assert("public_private"@.len() == 14);
        assert("multi_circle"@.len() == 12);
    }
}

#[derive(Debug, Clone, Copy, PartialEq, Eq, Hash, Structural)]
pub enum TerritoryType {
    HomeGround,
    SharedSpace,
    RivalTerritory,
    NeutralGround,
    ContestedTerritory,
}

impl SnakeName for TerritoryType {
    open spec fn spec_name(self) -> Seq<char> {
        match self {
            TerritoryType::HomeGround => "home_ground"@,
            TerritoryType::SharedSpace => "shared_space"@,
            TerritoryType::RivalTerritory => "rival_territory"@,
            TerritoryType::NeutralGround => "neutral_ground"@,
            TerritoryType::ContestedTerritory => "contested_territory"@,
        }
    }

    fn name(&self) -> (r: &'static str) {
        match self {
            TerritoryType::HomeGround => "home_ground",
            TerritoryType::SharedSpace => "shared_space",
            TerritoryType::RivalTerritory => "rival_territory",
            TerritoryType::NeutralGround => "neutral_ground",
            TerritoryType::ContestedTerritory => "contested_territory",
        }
    }

    fn from_name(s: &str) -> (r: Option<Self>) {
        let r = if str_eq(s, "home_ground") {
            Some(TerritoryType::HomeGround)
        } else if str_eq(s, "shared_space") {
            Some(TerritoryType::SharedSpace)
        } else if str_eq(s, "rival_territory") {
            Some(TerritoryType::RivalTerritory)
        } else if str_eq(s, "neutral_ground") {
            Some(TerritoryType::NeutralGround)
        } else if str_eq(s, "contested_territory") {
            Some(TerritoryType::ContestedTerritory)
        } else {
            None
        };
        r
    }

    proof fn lemma_name_injective(a: Self, b: Self) {
        reveal_strlit("home_ground");
        reveal_strlit("shared_space");
        reveal_strlit("rival_territory");
        reveal_strlit("neutral_ground");
        reveal_strlit("contested_territory");
        assert("home_ground"@.len() == 11);
        assert("shared_space"@.len() == 12);
        assert("rival_territory"@.len() == 15);
        assert("neutral_ground"@.len() == 14);
        assert("contested_territory"@.len() == 19);
    }
}

#[derive(Debug, Clone, Copy, PartialEq, Eq, Hash, Structural)]
pub enum CharacterTerritory {
    Home,
    Foreign,
    Neutral,
    ContestedChar,
}

impl SnakeName for CharacterTerritory {
    open spec fn spec_name(self) -> Seq<char> {
        match self {
            CharacterTerritory::Home => "home"@,
            CharacterTerritory::Foreign => "foreign"@,
            CharacterTerritory::Neutral => "neutral"@,
            CharacterTerritory::ContestedChar => "contested_char"@,
        }
    }

    fn name(&self) -> (r: &'static str) {
        match self {
            CharacterTerritory::Home => "home",
            CharacterTerritory::Foreign => "foreign",
            CharacterTerritory::Neutral => "neutral",
            CharacterTerritory::ContestedChar => "contested_char",
        }
    }

    fn from_name(s: &str) -> (r: Option<Self>) {
        let r = if str_eq(s, "home") {
            Some(CharacterTerritory::Home)
        } else if str_eq(s, "foreign") {
            Some(CharacterTerritory::Foreign)
        } else if str_eq(s, "neutral") {
            Some(CharacterTerritory::Neutral)
        } else if str_eq(s, "contested_char") {
            Some(CharacterTerritory::ContestedChar)
        } else {
            None
        };
        r
    }

    proof fn lemma_name_injective(a: Self, b: Self) {
        reveal_strlit("home");
        reveal_strlit("foreign");
        reveal_strlit("neutral");
        reveal_strlit("contested_char");
        assert("home"@.len() == 4);
        assert("foreign"@.len() == 7 && "foreign"@[0] == 'f');
        assert("neutral"@.len() == 7 && "neutral"@[0] == 'n');
        assert("contested_char"@.len() == 14);
    }
}

#[derive(Debug, Clone, Copy, PartialEq, Eq, Hash, Structural)]
pub enum TemporalGapType {
    GapNone,
    BriefEllipsis,
    ExtendedEllipsis,
    ChapterBreak,
    SectionBreak,
}

impl SnakeName for TemporalGapType {
    open spec fn spec_name(self) -> Seq<char> {
        match self {
            TemporalGapType::GapNone => "gap_none"@,
            TemporalGapType::BriefEllipsis => "brief_ellipsis"@,
            TemporalGapType::ExtendedEllipsis => "extended_ellipsis"@,
            TemporalGapType::ChapterBreak => "chapter_break"@,
            TemporalGapType::SectionBreak => "section_break"@,
        }
    }

    fn name(&self) -> (r: &'static str) {
        match self {
            TemporalGapType::GapNone => "gap_none",
            TemporalGapType::BriefEllipsis => "brief_ellipsis",
            TemporalGapType::ExtendedEllipsis => "extended_ellipsis",
            TemporalGapType::ChapterBreak => "chapter_break",
            TemporalGapType::SectionBreak => "section_break",
        }
    }

    fn from_name(s: &str) -> (r: Option<Self>) {
        let r = if str_eq(s, "gap_none") {
            Some(TemporalGapType::GapNone)
        } else if str_eq(s, "brief_ellipsis") {
            Some(TemporalGapType::BriefEllipsis)
        } else if str_eq(s, "extended_ellipsis") {
            Some(TemporalGapType::ExtendedEllipsis)
        } else if str_eq(s, "chapter_break") {
            Some(TemporalGapType::ChapterBreak)
        } else if str_eq(s, "section_break") {
            Some(TemporalGapType::SectionBreak)
        } else {
            None
        };
        r
    }

    proof fn lemma_name_injective(a: Self, b: Self) {
        reveal_strlit("gap_none");
        reveal_strlit("brief_ellipsis");
        reveal_strlit("extended_ellipsis");
        reveal_strlit("chapter_break");
        reveal_strlit("section_break");
        assert("gap_none"@.len() == 8);
        assert("brief_ellipsis"@.len() == 14);
        assert("extended_ellipsis"@.len() == 17);
        assert("chapter_break"@.len() == 13 && "chapter_break"@[0] == 'c');
        assert("section_break"@.len() == 13 && "section_break"@[0] == 's');
    }
}

#[derive(Debug, Clone, Copy, PartialEq, Eq, Hash, Structural)]
pub enum LocationChangeType {
    Same,
    Adjacent,
    Nearby,
    DistantLoc,
    VeryDistant,
    Unknown,
}

impl SnakeName for LocationChangeType {
    open spec fn spec_name(self) -> Seq<char> {
        match self {
            LocationChangeType::Same => "same"@,
            LocationChangeType::Adjacent => "adjacent"@,
            LocationChangeType::Nearby => "nearby"@,
            LocationChangeType::DistantLoc => "distant_loc"@,
            LocationChangeType::VeryDistant => "very_distant"@,
            LocationChangeType::Unknown => "unknown"@,
        }
    }

    fn name(&self) -> (r: &'static str) {
        match self {
            LocationChangeType::Same => "same",
            LocationChangeType::Adjacent => "adjacent",
            LocationChangeType::Nearby => "nearby",
            LocationChangeType::DistantLoc => "distant_loc",
            LocationChangeType::VeryDistant => "very_distant",
            LocationChangeType::Unknown => "unknown",
        }
    }

    fn from_name(s: &str) -> (r: Option<Self>) {
        let r = if str_eq(s, "same") {
            Some(LocationChangeType::Same)
        } else if str_eq(s, "adjacent") {
            Some(LocationChangeType::Adjacent)
        } else if str_eq(s, "nearby") {
            Some(LocationChangeType::Nearby)
        } else if str_eq(s, "distant_loc") {
            Some(LocationChangeType::DistantLoc)
        } else if str_eq(s, "very_distant") {
            Some(LocationChangeType::VeryDistant)
        } else if str_eq(s, "unknown") {
            Some(LocationChangeType::Unknown)
        } else {
            None
        };
        r
    }

    proof fn lemma_name_injective(a: Self, b: Self) {
        reveal_strlit("same");
        reveal_strlit("adjacent");
        reveal_strlit("nearby");
        reveal_strlit("distant_loc");
        reveal_strlit("very_distant");
        reveal_strlit("unknown");
        assert("same"@.len() == 4);
        assert("adjacent"@.len() == 8);
        assert("nearby"@.len() == 6);
        assert("distant_loc"@.len() == 11);
        assert("very_distant"@.len() == 12);
        assert("unknown"@.len() == 7);
    }
}

#[derive(Debug, Clone, Copy, PartialEq, Eq, Hash, Structural)]
pub enum CharacterArrival {
    StartsPresent,
    EntersEarly,
    EntersMid,
    EntersLate,
    NotPresent,
}

impl SnakeName for CharacterArrival {
    open spec fn spec_name(self) -> Seq<char> {
        match self {
            CharacterArrival::StartsPresent => "starts_present"@,
            CharacterArrival::EntersEarly => "enters_early"@,
            CharacterArrival::EntersMid => "enters_mid"@,
            CharacterArrival::EntersLate => "enters_late"@,
            CharacterArrival::NotPresent => "not_present"@,
        }
    }

    fn name(&self) -> (r: &'static str) {
        match self {
            CharacterArrival::StartsPresent => "starts_present",
            CharacterArrival::EntersEarly => "enters_early",
            CharacterArrival::EntersMid => "enters_mid",
            CharacterArrival::EntersLate => "enters_late",
            CharacterArrival::NotPresent => "not_present",
        }
    }

    fn from_name(s: &str) -> (r: Option<Self>) {
        let r = if str_eq(s, "starts_present") {
            Some(CharacterArrival::StartsPresent)
        } else if str_eq(s, "enters_early") {
            Some(CharacterArrival::EntersEarly)
        } else if str_eq(s, "enters_mid") {
            Some(CharacterArrival::EntersMid)
        } else if str_eq(s, "enters_late") {
            Some(CharacterArrival::EntersLate)
        } else if str_eq(s, "not_present") {
            Some(CharacterArrival::NotPresent)
        } else {
            None
        };
        r
    }

    proof fn lemma_name_injective(a: Self, b: Self) {
        reveal_strlit("starts_present");
        reveal_strlit("enters_early");
        reveal_strlit("enters_mid");
        reveal_strlit("enters_late");
        reveal_strlit("not_present");
        assert("starts_present"@.len() == 14);
        assert("enters_early"@.len() == 12);
        assert("enters_mid"@.len() == 10);
        assert("enters_late"@.len() == 11 && "enters_late"@[0] == 'e');
        assert("not_present"@.len() == 11 && "not_present"@[0] == 'n');
    }
}

#[derive(Debug, Clone, Copy, PartialEq, Eq, Hash, Structural)]
pub enum CharacterDeparture {
    StaysThroughout,
    ExitsEarly,
    ExitsMid,
    ExitsLate,
    NotPresentDep,
}

impl SnakeName for CharacterDeparture {
    open spec fn spec_name(self) -> Seq<char> {
        match self {
            CharacterDeparture::StaysThroughout => "stays_throughout"@,
            CharacterDeparture::ExitsEarly => "exits_early"@,
            CharacterDeparture::ExitsMid => "exits_mid"@,
            CharacterDeparture::ExitsLate => "exits_late"@,
            CharacterDeparture::NotPresentDep => "not_present_dep"@,
        }
    }

    fn name(&self) -> (r: &'static str) {
        match self {
            CharacterDeparture::StaysThroughout => "stays_throughout",
            CharacterDeparture::ExitsEarly => "exits_early",
            CharacterDeparture::ExitsMid => "exits_mid",
            CharacterDeparture::ExitsLate => "exits_late",
            CharacterDeparture::NotPresentDep => "not_present_dep",
        }
    }

    fn from_name(s: &str) -> (r: Option<Self>) {
        let r = if str_eq(s, "stays_throughout") {
            Some(CharacterDeparture::StaysThroughout)
        } else if str_eq(s, "exits_early") {
            Some(CharacterDeparture::ExitsEarly)
        } else if str_eq(s, "exits_mid") {
            Some(CharacterDeparture::ExitsMid)
        } else if str_eq(s, "exits_late") {
            Some(CharacterDeparture::ExitsLate)
        } else if str_eq(s, "not_present_dep") {
            Some(CharacterDeparture::NotPresentDep)
        } else {
            None
        };
        r
    }

    proof fn lemma_name_injective(a: Self, b: Self) {
        reveal_strlit("stays_throughout");
        reveal_strlit("exits_early");
        reveal_strlit("exits_mid");
        reveal_strlit("exits_late");
        reveal_strlit("not_present_dep");
        assert("stays_throughout"@.len() == 16);
        assert("exits_early"@.len() == 11);
        assert("exits_mid"@.len() == 9);
        assert("exits_late"@.len() == 10);
        assert("not_present_dep"@.len() == 15);
    }
}

#[derive(Debug, Clone, Copy, PartialEq, Eq, Hash, Structural)]
pub enum InformationGapType {
    Temporary,
    Permanent,
    Ambiguous,
    FalseGap,
    InfoGapNone,
}

impl SnakeName for InformationGapType {
    open spec fn spec_name(self) -> Seq<char> {
        match self {
            InformationGapType::Temporary => "temporary"@,
            InformationGapType::Permanent => "permanent"@,
            InformationGapType::Ambiguous => "ambiguous"@,
            InformationGapType::FalseGap => "false_gap"@,
            InformationGapType::InfoGapNone => "info_gap_none"@,
        }
    }

    fn name(&self) -> (r: &'static str) {
        match self {
            InformationGapType::Temporary => "temporary",
            InformationGapType::Permanent => "permanent",
            InformationGapType::Ambiguous => "ambiguous",
            InformationGapType::FalseGap => "false_gap",
            InformationGapType::InfoGapNone => "info_gap_none",
        }
    }

    fn from_name(s: &str) -> (r: Option<Self>) {
        let r = if str_eq(s, "temporary") {
            Some(InformationGapType::Temporary)
        } else if str_eq(s, "permanent") {
            Some(InformationGapType::Permanent)
        } else if str_eq(s, "ambiguous") {
            Some(InformationGapType::Ambiguous)
        } else if str_eq(s, "false_gap") {
            Some(InformationGapType::FalseGap)
        } else if str_eq(s, "info_gap_none") {
            Some(InformationGapType::InfoGapNone)
        } else {
            None
        };
        r
    }

    proof fn lemma_name_injective(a: Self, b: Self) {
        reveal_strlit("temporary");
        reveal_strlit("permanent");
        reveal_strlit("ambiguous");
        reveal_strlit("false_gap");
        reveal_strlit("info_gap_none");
        assert("temporary"@.len() == 9 && "temporary"@[0] == 't');
        assert("permanent"@.len() == 9 && "permanent"@[0] == 'p');
        assert("ambiguous"@.len() == 9 && "ambiguous"@[0] == 'a');
        assert("false_gap"@.len() == 9 && "false_gap"@[0] == 'f');
        assert("info_gap_none"@.len() == 13);
    }
}

#[derive(Debug, Clone, Copy, PartialEq, Eq, Hash, Structural)]
pub enum InformationAsymmetry {
    ReaderKnowsMore,
    ReaderKnowsLess,
    EqualKnowledge,
    ReaderSuspects,
}

impl SnakeName for InformationAsymmetry {
    open spec fn spec_name(self) -> Seq<char> {
        match self {
            InformationAsymmetry::ReaderKnowsMore => "reader_knows_more"@,
            InformationAsymmetry::ReaderKnowsLess => "reader_knows_less"@,
            InformationAsymmetry::EqualKnowledge => "equal_knowledge"@,
            InformationAsymmetry::ReaderSuspects => "reader_suspects"@,
        }
    }

    fn name(&self) -> (r: &'static str) {
        match self {
            InformationAsymmetry::ReaderKnowsMore => "reader_knows_more",
            InformationAsymmetry::ReaderKnowsLess => "reader_knows_less",
            InformationAsymmetry::EqualKnowledge => "equal_knowledge",
            InformationAsymmetry::ReaderSuspects => "reader_suspects",
        }
    }

    fn from_name(s: &str) -> (r: Option<Self>) {
        let r = if str_eq(s, "reader_knows_more") {
            Some(InformationAsymmetry::ReaderKnowsMore)
        } else if str_eq(s, "reader_knows_less") {
            Some(InformationAsymmetry::ReaderKnowsLess)
        } else if str_eq(s, "equal_knowledge") {
            Some(InformationAsymmetry::EqualKnowledge)
        } else if str_eq(s, "reader_suspects") {
            Some(InformationAsymmetry::ReaderSuspects)
        } else {
            None
        };
        r
    }

    proof fn lemma_name_injective(a: Self, b: Self) {
        reveal_strlit("reader_knows_more");
        reveal_strlit("reader_knows_less");
        reveal_strlit("equal_knowledge");
        reveal_strlit("reader_suspects");
        assert("reader_knows_more"@.len() == 17 && "reader_knows_more"@[13] == 'm');
        assert("reader_knows_less"@.len() == 17 && "reader_knows_less"@[13] == 'l');
        assert("equal_knowledge"@.len() == 15 && "equal_knowledge"@[0] == 'e');
        assert("reader_suspects"@.len() == 15 && "reader_suspects"@[0] == 'r');
    }
}

#[derive(Debug, Clone, Copy, PartialEq, Eq, Hash, Structural)]
pub enum GapDomain {
    Plot,
    CharacterMotive,
    Backstory,
    Future,
    Reliability,
    DomainNone,
}

impl SnakeName for GapDomain {
    open spec fn spec_name(self) -> Seq<char> {
        match self {
            GapDomain::Plot => "plot"@,
            GapDomain::CharacterMotive => "character_motive"@,
            GapDomain::Backstory => "backstory"@,
            GapDomain::Future => "future"@,
            GapDomain::Reliability => "reliability"@,
            GapDomain::DomainNone => "domain_none"@,
        }
    }

    fn name(&self) -> (r: &'static str) {
        match self {
            GapDomain::Plot => "plot",
            GapDomain::CharacterMotive => "character_motive",
            GapDomain::Backstory => "backstory",
            GapDomain::Future => "future",
            GapDomain::Reliability => "reliability",
            GapDomain::DomainNone => "domain_none",
        }
    }

    fn from_name(s: &str) -> (r: Option<Self>) {
        let r = if str_eq(s, "plot") {
            Some(GapDomain::Plot)
        } else if str_eq(s, "character_motive") {
            Some(GapDomain::CharacterMotive)
        } else if str_eq(s, "backstory") {
            Some(GapDomain::Backstory)
        } else if str_eq(s, "future") {
            Some(GapDomain::Future)
        } else if str_eq(s, "reliability") {
            Some(GapDomain::Reliability)
        } else if str_eq(s, "domain_none") {
            Some(GapDomain::DomainNone)
        } else {
            None
        };
        r
    }

    proof fn lemma_name_injective(a: Self, b: Self) {
        reveal_strlit("plot");
        reveal_strlit("character_motive");
        reveal_strlit("backstory");
        reveal_strlit("future");
        reveal_strlit("reliability");
        reveal_strlit("domain_none");
        assert("plot"@.len() == 4);
        assert("character_motive"@.len() == 16);
        assert("backstory"@.len() == 9);
        assert("future"@.len() == 6);
        assert("reliability"@.len() == 11 && "reliability"@[0] == 'r');
        assert("domain_none"@.len() == 11 && "domain_none"@[0] == 'd');
    }
}

#[derive(Debug, Clone, Copy, PartialEq, Eq, Hash, Structural)]
pub enum CallbackThreadType {
    PlotCallback,
    DialogueCallback,
    ImageCallback,
    MotifCallback,
    CharacterTraitCallback,
}

impl SnakeName for CallbackThreadType {
    open spec fn spec_name(self) -> Seq<char> {
        match self {
            CallbackThreadType::PlotCallback => "plot_callback"@,
            CallbackThreadType::DialogueCallback => "dialogue_callback"@,
            CallbackThreadType::ImageCallback => "image_callback"@,
            CallbackThreadType::MotifCallback => "motif_callback"@,
            CallbackThreadType::CharacterTraitCallback => "character_trait_callback"@,
        }
    }

    fn name(&self) -> (r: &'static str) {
        match self {
            CallbackThreadType::PlotCallback => "plot_callback",
            CallbackThreadType::DialogueCallback => "dialogue_callback",
            CallbackThreadType::ImageCallback => "image_callback",
            CallbackThreadType::MotifCallback => "motif_callback",
            CallbackThreadType::CharacterTraitCallback => "character_trait_callback",
        }
    }

    fn from_name(s: &str) -> (r: Option<Self>) {
        let r = if str_eq(s, "plot_callback") {
            Some(CallbackThreadType::PlotCallback)
        } else if str_eq(s, "dialogue_callback") {
            Some(CallbackThreadType::DialogueCallback)
        } else if str_eq(s, "image_callback") {
            Some(CallbackThreadType::ImageCallback)
        } else if str_eq(s, "motif_callback") {
            Some(CallbackThreadType::MotifCallback)
        } else if str_eq(s, "character_trait_callback") {
            Some(CallbackThreadType::CharacterTraitCallback)
        } else {
            None
        };
        r
    }

    proof fn lemma_name_injective(a: Self, b: Self) {
        reveal_strlit("plot_callback");
        reveal_strlit("dialogue_callback");
        reveal_strlit("image_callback");
        reveal_strlit("motif_callback");
        reveal_strlit("character_trait_callback");
        assert("plot_callback"@.len() == 13);
        assert("dialogue_callback"@.len() == 17);
        assert("image_callback"@.len() == 14 && "image_callback"@[0] == 'i');
        assert("motif_callback"@.len() == 14 && "motif_callback"@[0] == 'm');
        assert("character_trait_callback"@.len() == 24);
    }
}

#[derive(Debug, Clone, Copy, PartialEq, Eq, Hash, Structural)]
pub enum CallbackEffect {
    Echo,
    Contrast,
    EscalationEffect,
    Payoff,
    Reframe,
}

impl SnakeName for CallbackEffect {
    open spec fn spec_name(self) -> Seq<char> {
        match self {
            CallbackEffect::Echo => "echo"@,
            CallbackEffect::Contrast => "contrast"@,
            CallbackEffect::EscalationEffect => "escalation_effect"@,
            CallbackEffect::Payoff => "payoff"@,
            CallbackEffect::Reframe => "reframe"@,
        }
    }

    fn name(&self) -> (r: &'static str) {
        match self {
            CallbackEffect::Echo => "echo",
            CallbackEffect::Contrast => "contrast",
            CallbackEffect::EscalationEffect => "escalation_effect",
            CallbackEffect::Payoff => "payoff",
            CallbackEffect::Reframe => "reframe",
        }
    }

    fn from_name(s: &str) -> (r: Option<Self>) {
        let r = if str_eq(s, "echo") {
            Some(CallbackEffect::Echo)
        } else if str_eq(s, "contrast") {
            Some(CallbackEffect::Contrast)
        } else if str_eq(s, "escalation_effect") {
            Some(CallbackEffect::EscalationEffect)
        } else if str_eq(s, "payoff") {
            Some(CallbackEffect::Payoff)
        } else if str_eq(s, "reframe") {
            Some(CallbackEffect::Reframe)
        } else {
            None
        };
        r
    }

    proof fn lemma_name_injective(a: Self, b: Self) {
        reveal_strlit("echo");
        reveal_strlit("contrast");
        reveal_strlit("escalation_effect");
        reveal_strlit("payoff");
        reveal_strlit("reframe");
        assert("echo"@.len() == 4);
        assert("contrast"@.len() == 8);
        assert("escalation_effect"@.len() == 17);
        assert("payoff"@.len() == 6);
        assert("reframe"@.len() == 7);
    }
}

#[derive(Debug, Clone, Copy, PartialEq, Eq, Hash, Structural)]
pub enum MotifType {
    Visual,
    Auditory,
    Tactile,
    Linguistic,
    Behavioral,
    Spatial,
    Temporal,
}

impl SnakeName for MotifType {
    open spec fn spec_name(self) -> Seq<char> {
        match self {
            MotifType::Visual => "visual"@,
            MotifType::Auditory => "auditory"@,
            MotifType::Tactile => "tactile"@,
            MotifType::Linguistic => "linguistic"@,
            MotifType::Behavioral => "behavioral"@,
            MotifType::Spatial => "spatial"@,
            MotifType::Temporal => "temporal"@,
        }
    }

    fn name(&self) -> (r: &'static str) {
        match self {
            MotifType::Visual => "visual",
            MotifType::Auditory => "auditory",
            MotifType::Tactile => "tactile",
            MotifType::Linguistic => "linguistic",
            MotifType::Behavioral => "behavioral",
            MotifType::Spatial => "spatial",
            MotifType::Temporal => "temporal",
        }
    }

    fn from_name(s: &str) -> (r: Option<Self>) {
        let r = if str_eq(s, "visual") {
            Some(MotifType::Visual)
        } else if str_eq(s, "auditory") {
            Some(MotifType::Auditory)
        } else if str_eq(s, "tactile") {
            Some(MotifType::Tactile)
        } else if str_eq(s, "linguistic") {
            Some(MotifType::Linguistic)
        } else if str_eq(s, "behavioral") {
            Some(MotifType::Behavioral)
        } else if str_eq(s, "spatial") {
            Some(MotifType::Spatial)
        } else if str_eq(s, "temporal") {
            Some(MotifType::Temporal)
        } else {
            None
        };
        r
    }

    proof fn lemma_name_injective(a: Self, b: Self) {
        reveal_strlit("visual");
        reveal_strlit("auditory");
        reveal_strlit("tactile");
        reveal_strlit("linguistic");
        reveal_strlit("behavioral");
        reveal_strlit("spatial");
        reveal_strlit("temporal");
        assert("visual"@.len() == 6);
        assert("auditory"@.len() == 8 && "auditory"@[0] == 'a');
        assert("tactile"@.len() == 7 && "tactile"@[0] == 't');
        assert("linguistic"@.len() == 10 && "linguistic"@[0] == 'l');
        assert("behavioral"@.len() == 10 && "behavioral"@[0] == 'b');
        assert("spatial"@.len() == 7 && "spatial"@[0] == 's');
        assert("temporal"@.len() == 8 && "temporal"@[0] == 't');
    }
}

#[derive(Debug, Clone, Copy, PartialEq, Eq, Hash, Structural)]
pub enum ObjectiveCorrelativeType {
    NaturalPhenomenon,
    PhysicalObject,
    SettingDetail,
    Action,
    Sound,
    WeatherCorr,
    CorrelativeNone,
}

impl SnakeName for ObjectiveCorrelativeType {
    open spec fn spec_name(self) -> Seq<char> {
        match self {
            ObjectiveCorrelativeType::NaturalPhenomenon => "natural_phenomenon"@,
            ObjectiveCorrelativeType::PhysicalObject => "physical_object"@,
            ObjectiveCorrelativeType::SettingDetail => "setting_detail"@,
            ObjectiveCorrelativeType::Action => "action"@,
            ObjectiveCorrelativeType::Sound => "sound"@,
            ObjectiveCorrelativeType::WeatherCorr => "weather_corr"@,
            ObjectiveCorrelativeType::CorrelativeNone => "correlative_none"@,
        }
    }

    fn name(&self) -> (r: &'static str) {
        match self {
            ObjectiveCorrelativeType::NaturalPhenomenon => "natural_phenomenon",
            ObjectiveCorrelativeType::PhysicalObject => "physical_object",
            ObjectiveCorrelativeType::SettingDetail => "setting_detail",
            ObjectiveCorrelativeType::Action => "action",
            ObjectiveCorrelativeType::Sound => "sound",
            ObjectiveCorrelativeType::WeatherCorr => "weather_corr",
            ObjectiveCorrelativeType::CorrelativeNone => "correlative_none",
        }
    }

    fn from_name(s: &str) -> (r: Option<Self>) {
        let r = if str_eq(s, "natural_phenomenon") {
            Some(ObjectiveCorrelativeType::NaturalPhenomenon)
        } else if str_eq(s, "physical_object") {
            Some(ObjectiveCorrelativeType::PhysicalObject)
        } else if str_eq(s, "setting_detail") {
            Some(ObjectiveCorrelativeType::SettingDetail)
        } else if str_eq(s, "action") {
            Some(ObjectiveCorrelativeType::Action)
        } else if str_eq(s, "sound") {
            Some(ObjectiveCorrelativeType::Sound)
        } else if str_eq(s, "weather_corr") {
            Some(ObjectiveCorrelativeType::WeatherCorr)
        } else if str_eq(s, "correlative_none") {
            Some(ObjectiveCorrelativeType::CorrelativeNone)
        } else {
            None
        };
        r
    }

    proof fn lemma_name_injective(a: Self, b: Self) {
        reveal_strlit("natural_phenomenon");
        reveal_strlit("physical_object");
        reveal_strlit("setting_detail");
        reveal_strlit("action");
        reveal_strlit("sound");
        reveal_strlit("weather_corr");
        reveal_strlit("correlative_none");
        assert("natural_phenomenon"@.len() == 18);
        assert("physical_object"@.len() == 15);
        assert("setting_detail"@.len() == 14);
        assert("action"@.len() == 6);
        assert("sound"@.len() == 5);
        assert("weather_corr"@.len() == 12);
        assert("correlative_none"@.len() == 16);
    }
}

#[derive(Debug, Clone, Copy, PartialEq, Eq, Hash, Structural)]
pub enum ControllingIdeaPosition {
    Supports,
    Challenges,
    Complicates,
    Tests,
    PositionNeutral,
}

impl SnakeName for ControllingIdeaPosition {
    open spec fn spec_name(self) -> Seq<char> {
        match self {
            ControllingIdeaPosition::Supports => "supports"@,
            ControllingIdeaPosition::Challenges => "challenges"@,
            ControllingIdeaPosition::Complicates => "complicates"@,
            ControllingIdeaPosition::Tests => "tests"@,
            ControllingIdeaPosition::PositionNeutral => "position_neutral"@,
        }
    }

    fn name(&self) -> (r: &'static str) {
        match self {
            ControllingIdeaPosition::Supports => "supports",
            ControllingIdeaPosition::Challenges => "challenges",
            ControllingIdeaPosition::Complicates => "complicates",
            ControllingIdeaPosition::Tests => "tests",
            ControllingIdeaPosition::PositionNeutral => "position_neutral",
        }
    }

    fn from_name(s: &str) -> (r: Option<Self>) {
        let r = if str_eq(s, "supports") {
            Some(ControllingIdeaPosition::Supports)
        } else if str_eq(s, "challenges") {
            Some(ControllingIdeaPosition::Challenges)
        } else if str_eq(s, "complicates") {
            Some(ControllingIdeaPosition::Complicates)
        } else if str_eq(s, "tests") {
            Some(ControllingIdeaPosition::Tests)
        } else if str_eq(s, "position_neutral") {
            Some(ControllingIdeaPosition::PositionNeutral)
        } else {
            None
        };
        r
    }

    proof fn lemma_name_injective(a: Self, b: Self) {
        reveal_strlit("supports");
        reveal_strlit("challenges");
        reveal_strlit("complicates");
        reveal_strlit("tests");
        reveal_strlit("position_neutral");
        assert("supports"@.len() == 8);
        assert("challenges"@.len() == 10);
        assert("complicates"@.len() == 11);
        assert("tests"@.len() == 5);
        assert("position_neutral"@.len() == 16);
    }
}

#[derive(Debug, Clone, Copy, PartialEq, Eq, Hash, Structural)]
pub enum Season {
    Spring,
    Summer,
    Autumn,
    Winter,
}

impl SnakeName for Season {
    open spec fn spec_name(self) -> Seq<char> {
        match self {
            Season::Spring => "spring"@,
            Season::Summer => "summer"@,
            Season::Autumn => "autumn"@,
            Season::Winter => "winter"@,
        }
    }

    fn name(&self) -> (r: &'static str) {
        match self {
            Season::Spring => "spring",
            Season::Summer => "summer",
            Season::Autumn => "autumn",
            Season::Winter => "winter",
        }
    }

    fn from_name(s: &str) -> (r: Option<Self>) {
        let r = if str_eq(s, "spring") {
            Some(Season::Spring)
        } else if str_eq(s, "summer") {
            Some(Season::Summer)
        } else if str_eq(s, "autumn") {
            Some(Season::Autumn)
        } else if str_eq(s, "winter") {
            Some(Season::Winter)
        } else {
            None
        };
        r
    }

    proof fn lemma_name_injective(a: Self, b: Self) {
        reveal_strlit("spring");
        reveal_strlit("summer");
        reveal_strlit("autumn");
        reveal_strlit("winter");
        assert("spring"@.len() == 6 && "spring"@[0] == 's' && "spring"@[1] == 'p');
        assert("summer"@.len() == 6 && "summer"@[0] == 's' && "summer"@[1] == 'u');
        assert("autumn"@.len() == 6 && "autumn"@[0] == 'a');
        assert("winter"@.len() == 6 && "winter"@[0] == 'w');
    }
}

#[derive(Debug, Clone, Copy, PartialEq, Eq, Hash, Structural)]
pub enum SpatialStructure {
    Enclosed,
    Threshold,
    Open,
    Liminal,
    Vertical,
    Horizontal,
}

impl SnakeName for SpatialStructure {
    open spec fn spec_name(self) -> Seq<char> {
        match self {
            SpatialStructure::Enclosed => "enclosed"@,
            SpatialStructure::Threshold => "threshold"@,
            SpatialStructure::Open => "open"@,
            SpatialStructure::Liminal => "liminal"@,
            SpatialStructure::Vertical => "vertical"@,
            SpatialStructure::Horizontal => "horizontal"@,
        }
    }

    fn name(&self) -> (r: &'static str) {
        match self {
            SpatialStructure::Enclosed => "enclosed",
            SpatialStructure::Threshold => "threshold",
            SpatialStructure::Open => "open",
            SpatialStructure::Liminal => "liminal",
            SpatialStructure::Vertical => "vertical",
            SpatialStructure::Horizontal => "horizontal",
        }
    }

    fn from_name(s: &str) -> (r: Option<Self>) {
        let r = if str_eq(s, "enclosed") {
            Some(SpatialStructure::Enclosed)
        } else if str_eq(s, "threshold") {
            Some(SpatialStructure::Threshold)
        } else if str_eq(s, "open") {
            Some(SpatialStructure::Open)
        } else if str_eq(s, "liminal") {
            Some(SpatialStructure::Liminal)
        } else if str_eq(s, "vertical") {
            Some(SpatialStructure::Vertical)
        } else if str_eq(s, "horizontal") {
            Some(SpatialStructure::Horizontal)
        } else {
            None
        };
        r
    }

    proof fn lemma_name_injective(a: Self, b: Self) {
        reveal_strlit("enclosed");
        reveal_strlit("threshold");
        reveal_strlit("open");
        reveal_strlit("liminal");
        reveal_strlit("vertical");
        reveal_strlit("horizontal");
        assert("enclosed"@.len() == 8 && "enclosed"@[0] == 'e');
        assert("threshold"@.len() == 9);
        assert("open"@.len() == 4);
        assert("liminal"@.len() == 7);
        assert("vertical"@.len() == 8 && "vertical"@[0] == 'v');
        assert("horizontal"@.len() == 10);
    }
}

#[derive(Debug, Clone, Copy, PartialEq, Eq, Hash, Structural)]
pub enum PropFunction {
    SetDressing,
    ActionObject,
    Symbolic,
    ChekhovGun,
    Continuity,
}

impl SnakeName for PropFunction {
    open spec fn spec_name(self) -> Seq<char> {
        match self {
            PropFunction::SetDressing => "set_dressing"@,
            PropFunction::ActionObject => "action_object"@,
            PropFunction::Symbolic => "symbolic"@,
            PropFunction::ChekhovGun => "chekhov_gun"@,
            PropFunction::Continuity => "continuity"@,
        }
    }

    fn name(&self) -> (r: &'static str) {
        match self {
            PropFunction::SetDressing => "set_dressing",
            PropFunction::ActionObject => "action_object",
            PropFunction::Symbolic => "symbolic",
            PropFunction::ChekhovGun => "chekhov_gun",
            PropFunction::Continuity => "continuity",
        }
    }

    fn from_name(s: &str) -> (r: Option<Self>) {
        let r = if str_eq(s, "set_dressing") {
            Some(PropFunction::SetDressing)
        } else if str_eq(s, "action_object") {
            Some(PropFunction::ActionObject)
        } else if str_eq(s, "symbolic") {
            Some(PropFunction::Symbolic)
        } else if str_eq(s, "chekhov_gun") {
            Some(PropFunction::ChekhovGun)
        } else if str_eq(s, "continuity") {
            Some(PropFunction::Continuity)
        } else {
            None
        };
        r
    }

    proof fn lemma_name_injective(a: Self, b: Self) {
        reveal_strlit("set_dressing");
        reveal_strlit("action_object");
        reveal_strlit("symbolic");
        reveal_strlit("chekhov_gun");
        reveal_strlit("continuity");
        assert("set_dressing"@.len() == 12);
        assert("action_object"@.len() == 13);
        assert("symbolic"@.len() == 8);
        assert("chekhov_gun"@.len() == 11);
        assert("continuity"@.len() == 10);
    }
}

#[derive(Debug, Clone, Copy, PartialEq, Eq, Hash, Structural)]
pub enum SensoryProminence {
    Background,
    Mentioned,
    Emphasized,
    Dominant,
}

impl SnakeName for SensoryProminence {
    open spec fn spec_name(self) -> Seq<char> {
        match self {
            SensoryProminence::Background => "background"@,
            SensoryProminence::Mentioned => "mentioned"@,
            SensoryProminence::Emphasized => "emphasized"@,
            SensoryProminence::Dominant => "dominant"@,
        }
    }

    fn name(&self) -> (r: &'static str) {
        match self {
            SensoryProminence::Background => "background",
            SensoryProminence::Mentioned => "mentioned",
            SensoryProminence::Emphasized => "emphasized",
            SensoryProminence::Dominant => "dominant",
        }
    }

    fn from_name(s: &str) -> (r: Option<Self>) {
        let r = if str_eq(s, "background") {
            Some(SensoryProminence::Background)
        } else if str_eq(s, "mentioned") {
            Some(SensoryProminence::Mentioned)
        } else if str_eq(s, "emphasized") {
            Some(SensoryProminence::Emphasized)
        } else if str_eq(s, "dominant") {
            Some(SensoryProminence::Dominant)
        } else {
            None
        };
        r
    }

    proof fn lemma_name_injective(a: Self, b: Self) {
        reveal_strlit("background");
        reveal_strlit("mentioned");
        reveal_strlit("emphasized");
        reveal_strlit("dominant");
        assert("background"@.len() == 10 && "background"@[0] == 'b');
        assert("mentioned"@.len() == 9);
        assert("emphasized"@.len() == 10 && "emphasized"@[0] == 'e');
        assert("dominant"@.len() == 8);
    }
}

#[derive(Debug, Clone, Copy, PartialEq, Eq, Hash, Structural)]
pub enum AnalepsisType {
    External,
    Internal,
    Complete,
    Partial,
    AnalepsisNone,
}

impl SnakeName for AnalepsisType {
    open spec fn spec_name(self) -> Seq<char> {
        match self {
            AnalepsisType::External => "external"@,
            AnalepsisType::Internal => "internal"@,
            AnalepsisType::Complete => "complete"@,
            AnalepsisType::Partial => "partial"@,
            AnalepsisType::AnalepsisNone => "analepsis_none"@,
        }
    }

    fn name(&self) -> (r: &'static str) {
        match self {
            AnalepsisType::External => "external",
            AnalepsisType::Internal => "internal",
            AnalepsisType::Complete => "complete",
            AnalepsisType::Partial => "partial",
            AnalepsisType::AnalepsisNone => "analepsis_none",
        }
    }

    fn from_name(s: &str) -> (r: Option<Self>) {
        let r = if str_eq(s, "external") {
            Some(AnalepsisType::External)
        } else if str_eq(s, "internal") {
            Some(AnalepsisType::Internal)
        } else if str_eq(s, "complete") {
            Some(AnalepsisType::Complete)
        } else if str_eq(s, "partial") {
            Some(AnalepsisType::Partial)
        } else if str_eq(s, "analepsis_none") {
            Some(AnalepsisType::AnalepsisNone)
        } else {
            None
        };
        r
    }

    proof fn lemma_name_injective(a: Self, b: Self) {
        reveal_strlit("external");
        reveal_strlit("internal");
        reveal_strlit("complete");
        reveal_strlit("partial");
        reveal_strlit("analepsis_none");
        assert("external"@.len() == 8 && "external"@[0] == 'e');
        assert("internal"@.len() == 8 && "internal"@[0] == 'i');
        assert("complete"@.len() == 8 && "complete"@[0] == 'c');
        assert("partial"@.len() == 7);
        assert("analepsis_none"@.len() == 14);
    }
}

#[derive(Debug, Clone, Copy, PartialEq, Eq, Hash, Structural)]
pub enum ProlepisType {
    Announcing,
    Completing,
    ExternalProl,
    InternalProl,
    ProlepisNone,
}

impl SnakeName for ProlepisType {
    open spec fn spec_name(self) -> Seq<char> {
        match self {
            ProlepisType::Announcing => "announcing"@,
            ProlepisType::Completing => "completing"@,
            ProlepisType::ExternalProl => "external_prol"@,
            ProlepisType::InternalProl => "internal_prol"@,
            ProlepisType::ProlepisNone => "prolepis_none"@,
        }
    }

    fn name(&self) -> (r: &'static str) {
        match self {
            ProlepisType::Announcing => "announcing",
            ProlepisType::Completing => "completing",
            ProlepisType::ExternalProl => "external_prol",
            ProlepisType::InternalProl => "internal_prol",
            ProlepisType::ProlepisNone => "prolepis_none",
        }
    }

    fn from_name(s: &str) -> (r: Option<Self>) {
        let r = if str_eq(s, "announcing") {
            Some(ProlepisType::Announcing)
        } else if str_eq(s, "completing") {
            Some(ProlepisType::Completing)
        } else if str_eq(s, "external_prol") {
            Some(ProlepisType::ExternalProl)
        } else if str_eq(s, "internal_prol") {
            Some(ProlepisType::InternalProl)
        } else if str_eq(s, "prolepis_none") {
            Some(ProlepisType::ProlepisNone)
        } else {
            None
        };
        r
    }

    proof fn lemma_name_injective(a: Self, b: Self) {
        reveal_strlit("announcing");
        reveal_strlit("completing");
        reveal_strlit("external_prol");
        reveal_strlit("internal_prol");
        reveal_strlit("prolepis_none");
        assert("announcing"@.len() == 10 && "announcing"@[0] == 'a');
        assert("completing"@.len() == 10 && "completing"@[0] == 'c');
        assert("external_prol"@.len() == 13 && "external_prol"@[0] == 'e');
        assert("internal_prol"@.len() == 13 && "internal_prol"@[0] == 'i');
        assert("prolepis_none"@.len() == 13 && "prolepis_none"@[0] == 'p');
    }
}

#[derive(Debug, Clone, Copy, PartialEq, Eq, Hash, Structural)]
pub enum IterativePattern {
    Daily,
    Weekly,
    Seasonal,
    Habitual,
    PatternNone,
}

impl SnakeName for IterativePattern {
    open spec fn spec_name(self) -> Seq<char> {
        match self {
            IterativePattern::Daily => "daily"@,
            IterativePattern::Weekly => "weekly"@,
            IterativePattern::Seasonal => "seasonal"@,
            IterativePattern::Habitual => "habitual"@,
            IterativePattern::PatternNone => "pattern_none"@,
        }
    }

    fn name(&self) -> (r: &'static str) {
        match self {
            IterativePattern::Daily => "daily",
            IterativePattern::Weekly => "weekly",
            IterativePattern::Seasonal => "seasonal",
            IterativePattern::Habitual => "habitual",
            IterativePattern::PatternNone => "pattern_none",
        }
    }

    fn from_name(s: &str) -> (r: Option<Self>) {
        let r = if str_eq(s, "daily") {
            Some(IterativePattern::Daily)
        } else if str_eq(s, "weekly") {
            Some(IterativePattern::Weekly)
        } else if str_eq(s, "seasonal") {
            Some(IterativePattern::Seasonal)
        } else if str_eq(s, "habitual") {
            Some(IterativePattern::Habitual)
        } else if str_eq(s, "pattern_none") {
            Some(IterativePattern::PatternNone)
        } else {
            None
        };
        r
    }

    proof fn lemma_name_injective(a: Self, b: Self) {
        reveal_strlit("daily");
        reveal_strlit("weekly");
        reveal_strlit("seasonal");
        reveal_strlit("habitual");
        reveal_strlit("pattern_none");
        assert("daily"@.len() == 5);
        assert("weekly"@.len() == 6);
        assert("seasonal"@.len() == 8 && "seasonal"@[0] == 's');
        assert("habitual"@.len() == 8 && "habitual"@[0] == 'h');
        assert("pattern_none"@.len() == 12);
    }
}

#[derive(Debug, Clone, Copy, PartialEq, Eq, Hash, Structural)]
pub enum SubtextTechnique {
    GriceanViolation,
    Deflection,
    LoadedSilence,
    Iceberg,
    PinterPause,
    ApparentIrrelevance,
    TechniqueNone,
}

impl SnakeName for SubtextTechnique {
    open spec fn spec_name(self) -> Seq<char> {
        match self {
            SubtextTechnique::GriceanViolation => "gricean_violation"@,
            SubtextTechnique::Deflection => "deflection"@,
            SubtextTechnique::LoadedSilence => "loaded_silence"@,
            SubtextTechnique::Iceberg => "iceberg"@,
            SubtextTechnique::PinterPause => "pinter_pause"@,
            SubtextTechnique::ApparentIrrelevance => "apparent_irrelevance"@,
            SubtextTechnique::TechniqueNone => "technique_none"@,
        }
    }

    fn name(&self) -> (r: &'static str) {
        match self {
            SubtextTechnique::GriceanViolation => "gricean_violation",
            SubtextTechnique::Deflection => "deflection",
            SubtextTechnique::LoadedSilence => "loaded_silence",
            SubtextTechnique::Iceberg => "iceberg",
            SubtextTechnique::PinterPause => "pinter_pause",
            SubtextTechnique::ApparentIrrelevance => "apparent_irrelevance",
            SubtextTechnique::TechniqueNone => "technique_none",
        }
    }

    fn from_name(s: &str) -> (r: Option<Self>) {
        let r = if str_eq(s, "gricean_violation") {
            Some(SubtextTechnique::GriceanViolation)
        } else if str_eq(s, "deflection") {
            Some(SubtextTechnique::Deflection)
        } else if str_eq(s, "loaded_silence") {
            Some(SubtextTechnique::LoadedSilence)
        } else if str_eq(s, "iceberg") {
            Some(SubtextTechnique::Iceberg)
        } else if str_eq(s, "pinter_pause") {
            Some(SubtextTechnique::PinterPause)
        } else if str_eq(s, "apparent_irrelevance") {
            Some(SubtextTechnique::ApparentIrrelevance)
        } else if str_eq(s, "technique_none") {
            Some(SubtextTechnique::TechniqueNone)
        } else {
            None
        };
        r
    }

    proof fn lemma_name_injective(a: Self, b: Self) {
        reveal_strlit("gricean_violation");
        reveal_strlit("deflection");
        reveal_strlit("loaded_silence");
        reveal_strlit("iceberg");
        reveal_strlit("pinter_pause");
        reveal_strlit("apparent_irrelevance");
        reveal_strlit("technique_none");
        assert("gricean_violation"@.len() == 17);
        assert("deflection"@.len() == 10);
        assert("loaded_silence"@.len() == 14 && "loaded_silence"@[0] == 'l');
        assert("iceberg"@.len() == 7);
        assert("pinter_pause"@.len() == 12);
        assert("apparent_irrelevance"@.len() == 20);
        assert("technique_none"@.len() == 14 && "technique_none"@[0] == 't');
    }
}

#[derive(Debug, Clone, Copy, PartialEq, Eq, Hash, Structural)]
pub enum IcebergCategory {
    PastTrauma,
    SecretLove,
    HiddenResentment,
    Guilt,
    FearIceberg,
    Desire,
    FamilySecret,
    Betrayal,
    Loss,
    Ambition,
    IcebergNone,
}

impl SnakeName for IcebergCategory {
    open spec fn spec_name(self) -> Seq<char> {
        match self {
            IcebergCategory::PastTrauma => "past_trauma"@,
            IcebergCategory::SecretLove => "secret_love"@,
            IcebergCategory::HiddenResentment => "hidden_resentment"@,
            IcebergCategory::Guilt => "guilt"@,
            IcebergCategory::FearIceberg => "fear_iceberg"@,
            IcebergCategory::Desire => "desire"@,
            IcebergCategory::FamilySecret => "family_secret"@,
            IcebergCategory::Betrayal => "betrayal"@,
            IcebergCategory::Loss => "loss"@,
            IcebergCategory::Ambition => "ambition"@,
            IcebergCategory::IcebergNone => "iceberg_none"@,
        }
    }

    fn name(&self) -> (r: &'static str) {
        match self {
            IcebergCategory::PastTrauma => "past_trauma",
            IcebergCategory::SecretLove => "secret_love",
            IcebergCategory::HiddenResentment => "hidden_resentment",
            IcebergCategory::Guilt => "guilt",
            IcebergCategory::FearIceberg => "fear_iceberg",
            IcebergCategory::Desire => "desire",
            IcebergCategory::FamilySecret => "family_secret",
            IcebergCategory::Betrayal => "betrayal",
            IcebergCategory::Loss => "loss",
            IcebergCategory::Ambition => "ambition",
            IcebergCategory::IcebergNone => "iceberg_none",
        }
    }

    fn from_name(s: &str) -> (r: Option<Self>) {
        let r = if str_eq(s, "past_trauma") {
            Some(IcebergCategory::PastTrauma)
        } else if str_eq(s, "secret_love") {
            Some(IcebergCategory::SecretLove)
        } else if str_eq(s, "hidden_resentment") {
            Some(IcebergCategory::HiddenResentment)
        } else if str_eq(s, "guilt") {
            Some(IcebergCategory::Guilt)
        } else if str_eq(s, "fear_iceberg") {
            Some(IcebergCategory::FearIceberg)
        } else if str_eq(s, "desire") {
            Some(IcebergCategory::Desire)
        } else if str_eq(s, "family_secret") {
            Some(IcebergCategory::FamilySecret)
        } else if str_eq(s, "betrayal") {
            Some(IcebergCategory::Betrayal)
        } else if str_eq(s, "loss") {
            Some(IcebergCategory::Loss)
        } else if str_eq(s, "ambition") {
            Some(IcebergCategory::Ambition)
        } else if str_eq(s, "iceberg_none") {
            Some(IcebergCategory::IcebergNone)
        } else {
            None
        };
        r
    }

    proof fn lemma_name_injective(a: Self, b: Self) {
        reveal_strlit("past_trauma");
        reveal_strlit("secret_love");
        reveal_strlit("hidden_resentment");
        reveal_strlit("guilt");
        reveal_strlit("fear_iceberg");
        reveal_strlit("desire");
        reveal_strlit("family_secret");
        reveal_strlit("betrayal");
        reveal_strlit("loss");
        reveal_strlit("ambition");
        reveal_strlit("iceberg_none");
        assert("past_trauma"@.len() == 11 && "past_trauma"@[0] == 'p');
        assert("secret_love"@.len() == 11 && "secret_love"@[0] == 's');
        assert("hidden_resentment"@.len() == 17);
        assert("guilt"@.len() == 5);
        assert("fear_iceberg"@.len() == 12 && "fear_iceberg"@[0] == 'f');
        assert("desire"@.len() == 6);
        assert("family_secret"@.len() == 13);
        assert("betrayal"@.len() == 8 && "betrayal"@[0] == 'b');
        assert("loss"@.len() == 4);
        assert("ambition"@.len() == 8 && "ambition"@[0] == 'a');
        assert("iceberg_none"@.len() == 12 && "iceberg_none"@[0] == 'i');
    }
}

#[derive(Debug, Clone, Copy, PartialEq, Eq, Hash, Structural)]
pub enum BeatType {
    Hook,
    Setup,
    Catalyst,
    Debate,
    Threshold,
    Tests,
    Approach,
    Ordeal,
    Reward,
    RoadBack,
    Resurrection,
    Return,
    Crisis,
    Climax,
    Resolution,
}

impl SnakeName for BeatType {
    open spec fn spec_name(self) -> Seq<char> {
        match self {
            BeatType::Hook => "hook"@,
            BeatType::Setup => "setup"@,
            BeatType::Catalyst => "catalyst"@,
            BeatType::Debate => "debate"@,
            BeatType::Threshold => "threshold"@,
            BeatType::Tests => "tests"@,
            BeatType::Approach => "approach"@,
            BeatType::Ordeal => "ordeal"@,
            BeatType::Reward => "reward"@,
            BeatType::RoadBack => "road_back"@,
            BeatType::Resurrection => "resurrection"@,
            BeatType::Return => "return"@,
            BeatType::Crisis => "crisis"@,
            BeatType::Climax => "climax"@,
            BeatType::Resolution => "resolution"@,
        }
    }

    fn name(&self) -> (r: &'static str) {
        match self {
            BeatType::Hook => "hook",
            BeatType::Setup => "setup",
            BeatType::Catalyst => "catalyst",
            BeatType::Debate => "debate",
            BeatType::Threshold => "threshold",
            BeatType::Tests => "tests",
            BeatType::Approach => "approach",
            BeatType::Ordeal => "ordeal",
            BeatType::Reward => "reward",
            BeatType::RoadBack => "road_back",
            BeatType::Resurrection => "resurrection",
            BeatType::Return => "return",
            BeatType::Crisis => "crisis",
            BeatType::Climax => "climax",
            BeatType::Resolution => "resolution",
        }
    }

    fn from_name(s: &str) -> (r: Option<Self>) {
        let r = if str_eq(s, "hook") {
            Some(BeatType::Hook)
        } else if str_eq(s, "setup") {
            Some(BeatType::Setup)
        } else if str_eq(s, "catalyst") {
            Some(BeatType::Catalyst)
        } else if str_eq(s, "debate") {
            Some(BeatType::Debate)
        } else if str_eq(s, "threshold") {
            Some(BeatType::Threshold)
        } else if str_eq(s, "tests") {
            Some(BeatType::Tests)
        } else if str_eq(s, "approach") {
            Some(BeatType::Approach)
        } else if str_eq(s, "ordeal") {
            Some(BeatType::Ordeal)
        } else if str_eq(s, "reward") {
            Some(BeatType::Reward)
        } else if str_eq(s, "road_back") {
            Some(BeatType::RoadBack)
        } else if str_eq(s, "resurrection") {
            Some(BeatType::Resurrection)
        } else if str_eq(s, "return") {
            Some(BeatType::Return)
        } else if str_eq(s, "crisis") {
            Some(BeatType::Crisis)
        } else if str_eq(s, "climax") {
            Some(BeatType::Climax)
        } else if str_eq(s, "resolution") {
            Some(BeatType::Resolution)
        } else {
            None
        };
        r
    }

    proof fn lemma_name_injective(a: Self, b: Self) {
        reveal_strlit("hook");
        reveal_strlit("setup");
        reveal_strlit("catalyst");
        reveal_strlit("debate");
        reveal_strlit("threshold");
        reveal_strlit("tests");
        reveal_strlit("approach");
        reveal_strlit("ordeal");
        reveal_strlit("reward");
        reveal_strlit("road_back");
        reveal_strlit("resurrection");
        reveal_strlit("return");
        reveal_strlit("crisis");
        reveal_strlit("climax");
        reveal_strlit("resolution");
        assert("hook"@.len() == 4);
        assert("setup"@.len() == 5 && "setup"@[0] == 's');
        assert("catalyst"@.len() == 8 && "catalyst"@[0] == 'c');
        assert("debate"@.len() == 6 && "debate"@[0] == 'd');
        assert("threshold"@.len() == 9 && "threshold"@[0] == 't');
        assert("tests"@.len() == 5 && "tests"@[0] == 't');
        assert("approach"@.len() == 8 && "approach"@[0] == 'a');
        assert("ordeal"@.len() == 6 && "ordeal"@[0] == 'o');
        assert("reward"@.len() == 6 && "reward"@[0] == 'r' && "reward"@[2] == 'w');
        assert("road_back"@.len() == 9 && "road_back"@[0] == 'r');
        assert("resurrection"@.len() == 12);
        assert("return"@.len() == 6 && "return"@[0] == 'r' && "return"@[2] == 't');
        assert("crisis"@.len() == 6 && "crisis"@[0] == 'c' && "crisis"@[1] == 'r');
        assert("climax"@.len() == 6 && "climax"@[0] == 'c' && "climax"@[1] == 'l');
        assert("resolution"@.len() == 10);
    }
}

#[derive(Debug, Clone, Copy, PartialEq, Eq, Hash, Structural)]
pub enum SequenceType {
    SetupSeq,
    CatalystSeq,
    DebateSeq,
    BreakIntoTwo,
    FunAndGames,
    Midpoint,
    BadGuysCloseIn,
    AllIsLost,
    DarkNight,
    BreakIntoThree,
    Finale,
    FinalImage,
}

impl SnakeName for SequenceType {
    open spec fn spec_name(self) -> Seq<char> {
        match self {
            SequenceType::SetupSeq => "setup_seq"@,
            SequenceType::CatalystSeq => "catalyst_seq"@,
            SequenceType::DebateSeq => "debate_seq"@,
            SequenceType::BreakIntoTwo => "break_into_two"@,
            SequenceType::FunAndGames => "fun_and_games"@,
            SequenceType::Midpoint => "midpoint"@,
            SequenceType::BadGuysCloseIn => "bad_guys_close_in"@,
            SequenceType::AllIsLost => "all_is_lost"@,
            SequenceType::DarkNight => "dark_night"@,
            SequenceType::BreakIntoThree => "break_into_three"@,
            SequenceType::Finale => "finale"@,
            SequenceType::FinalImage => "final_image"@,
        }
    }

    fn name(&self) -> (r: &'static str) {
        match self {
            SequenceType::SetupSeq => "setup_seq",
            SequenceType::CatalystSeq => "catalyst_seq",
            SequenceType::DebateSeq => "debate_seq",
            SequenceType::BreakIntoTwo => "break_into_two",
            SequenceType::FunAndGames => "fun_and_games",
            SequenceType::Midpoint => "midpoint",
            SequenceType::BadGuysCloseIn => "bad_guys_close_in",
            SequenceType::AllIsLost => "all_is_lost",
            SequenceType::DarkNight => "dark_night",
            SequenceType::BreakIntoThree => "break_into_three",
            SequenceType::Finale => "finale",
            SequenceType::FinalImage => "final_image",
        }
    }

    fn from_name(s: &str) -> (r: Option<Self>) {
        let r = if str_eq(s, "setup_seq") {
            Some(SequenceType::SetupSeq)
        } else if str_eq(s, "catalyst_seq") {
            Some(SequenceType::CatalystSeq)
        } else if str_eq(s, "debate_seq") {
            Some(SequenceType::DebateSeq)
        } else if str_eq(s, "break_into_two") {
            Some(SequenceType::BreakIntoTwo)
        } else if str_eq(s, "fun_and_games") {
            Some(SequenceType::FunAndGames)
        } else if str_eq(s, "midpoint") {
            Some(SequenceType::Midpoint)
        } else if str_eq(s, "bad_guys_close_in") {
            Some(SequenceType::BadGuysCloseIn)
        } else if str_eq(s, "all_is_lost") {
            Some(SequenceType::AllIsLost)
        } else if str_eq(s, "dark_night") {
            Some(SequenceType::DarkNight)
        } else if str_eq(s, "break_into_three") {
            Some(SequenceType::BreakIntoThree)
        } else if str_eq(s, "finale") {
            Some(SequenceType::Finale)
        } else if str_eq(s, "final_image") {
            Some(SequenceType::FinalImage)
        } else {
            None
        };
        r
    }

    proof fn lemma_name_injective(a: Self, b: Self) {
        reveal_strlit("setup_seq");
        reveal_strlit("catalyst_seq");
        reveal_strlit("debate_seq");
        reveal_strlit("break_into_two");
        reveal_strlit("fun_and_games");
        reveal_strlit("midpoint");
        reveal_strlit("bad_guys_close_in");
        reveal_strlit("all_is_lost");
        reveal_strlit("dark_night");
        reveal_strlit("break_into_three");
        reveal_strlit("finale");
        reveal_strlit("final_image");
        assert("setup_seq"@.len() == 9);
        assert("catalyst_seq"@.len() == 12);
        assert("debate_seq"@.len() == 10 && "debate_seq"@[1] == 'e');
        assert("break_into_two"@.len() == 14);
        assert("fun_and_games"@.len() == 13);
        assert("midpoint"@.len() == 8);
        assert("bad_guys_close_in"@.len() == 17);
        assert("all_is_lost"@.len() == 11 && "all_is_lost"@[0] == 'a');
        assert("dark_night"@.len() == 10 && "dark_night"@[1] == 'a');
        assert("break_into_three"@.len() == 16);
        assert("finale"@.len() == 6);
        assert("final_image"@.len() == 11 && "final_image"@[0] == 'f');
    }
}

#[derive(Debug, Clone, Copy, PartialEq, Eq, Hash, Structural)]
pub enum KnowledgePredicate {
    Loves,
    Hates,
    Married,
    Engaged,
    Separated,
    Divorced,
    RelatedTo,
    Betrayed,
    Helped,
    Harmed,
    Saved,
    Abandoned,
    Rejected,
    Forgave,
    LiedTo,
    Deceived,
    Manipulated,
    ToldTruth,
    IsWealthy,
    IsPoor,
    IsPowerful,
    IsVulnerable,
    IsHiding,
    IsPresent,
    KnowsSecret,
    HasDebt,
    OwesFavor,
    BrokePromise,
    KeptPromise,
    Caused,
    Prevented,
    Witnessed,
    Planned,
    Intends,
    Owns,
    Wants,
    Fears,
}

impl SnakeName for KnowledgePredicate {
    open spec fn spec_name(self) -> Seq<char> {
        match self {
            KnowledgePredicate::Loves => "loves"@,
            KnowledgePredicate::Hates => "hates"@,
            KnowledgePredicate::Married => "married"@,
            KnowledgePredicate::Engaged => "engaged"@,
            KnowledgePredicate::Separated => "separated"@,
            KnowledgePredicate::Divorced => "divorced"@,
            KnowledgePredicate::RelatedTo => "related_to"@,
            KnowledgePredicate::Betrayed => "betrayed"@,
            KnowledgePredicate::Helped => "helped"@,
            KnowledgePredicate::Harmed => "harmed"@,
            KnowledgePredicate::Saved => "saved"@,
            KnowledgePredicate::Abandoned => "abandoned"@,
            KnowledgePredicate::Rejected => "rejected"@,
            KnowledgePredicate::Forgave => "forgave"@,
            KnowledgePredicate::LiedTo => "lied_to"@,
            KnowledgePredicate::Deceived => "deceived"@,
            KnowledgePredicate::Manipulated => "manipulated"@,
            KnowledgePredicate::ToldTruth => "told_truth"@,
            KnowledgePredicate::IsWealthy => "is_wealthy"@,
            KnowledgePredicate::IsPoor => "is_poor"@,
            KnowledgePredicate::IsPowerful => "is_powerful"@,
            KnowledgePredicate::IsVulnerable => "is_vulnerable"@,
            KnowledgePredicate::IsHiding => "is_hiding"@,
            KnowledgePredicate::IsPresent => "is_present"@,
            KnowledgePredicate::KnowsSecret => "knows_secret"@,
            KnowledgePredicate::HasDebt => "has_debt"@,
            KnowledgePredicate::OwesFavor => "owes_favor"@,
            KnowledgePredicate::BrokePromise => "broke_promise"@,
            KnowledgePredicate::KeptPromise => "kept_promise"@,
            KnowledgePredicate::Caused => "caused"@,
            KnowledgePredicate::Prevented => "prevented"@,
            KnowledgePredicate::Witnessed => "witnessed"@,
            KnowledgePredicate::Planned => "planned"@,
            KnowledgePredicate::Intends => "intends"@,
            KnowledgePredicate::Owns => "owns"@,
            KnowledgePredicate::Wants => "wants"@,
            KnowledgePredicate::Fears => "fears"@,
        }
    }

    fn name(&self) -> (r: &'static str) {
        match self {
            KnowledgePredicate::Loves => "loves",
            KnowledgePredicate::Hates => "hates",
            KnowledgePredicate::Married => "married",
            KnowledgePredicate::Engaged => "engaged",
            KnowledgePredicate::Separated => "separated",
            KnowledgePredicate::Divorced => "divorced",
            KnowledgePredicate::RelatedTo => "related_to",
            KnowledgePredicate::Betrayed => "betrayed",
            KnowledgePredicate::Helped => "helped",
            KnowledgePredicate::Harmed => "harmed",
            KnowledgePredicate::Saved => "saved",
            KnowledgePredicate::Abandoned => "abandoned",
            KnowledgePredicate::Rejected => "rejected",
            KnowledgePredicate::Forgave => "forgave",
            KnowledgePredicate::LiedTo => "lied_to",
            KnowledgePredicate::Deceived => "deceived",
            KnowledgePredicate::Manipulated => "manipulated",
            KnowledgePredicate::ToldTruth => "told_truth",
            KnowledgePredicate::IsWealthy => "is_wealthy",
            KnowledgePredicate::IsPoor => "is_poor",
            KnowledgePredicate::IsPowerful => "is_powerful",
            KnowledgePredicate::IsVulnerable => "is_vulnerable",
            KnowledgePredicate::IsHiding => "is_hiding",
            KnowledgePredicate::IsPresent => "is_present",
            KnowledgePredicate::KnowsSecret => "knows_secret",
            KnowledgePredicate::HasDebt => "has_debt",
            KnowledgePredicate::OwesFavor => "owes_favor",
            KnowledgePredicate::BrokePromise => "broke_promise",
            KnowledgePredicate::KeptPromise => "kept_promise",
            KnowledgePredicate::Caused => "caused",
            KnowledgePredicate::Prevented => "prevented",
            KnowledgePredicate::Witnessed => "witnessed",
            KnowledgePredicate::Planned => "planned",
            KnowledgePredicate::Intends => "intends",
            KnowledgePredicate::Owns => "owns",
            KnowledgePredicate::Wants => "wants",
            KnowledgePredicate::Fears => "fears",
        }
    }

    fn from_name(s: &str) -> (r: Option<Self>) {
        let r = if str_eq(s, "loves") {
            Some(KnowledgePredicate::Loves)
        } else if str_eq(s, "hates") {
            Some(KnowledgePredicate::Hates)
        } else if str_eq(s, "married") {
            Some(KnowledgePredicate::Married)
        } else if str_eq(s, "engaged") {
            Some(KnowledgePredicate::Engaged)
        } else if str_eq(s, "separated") {
            Some(KnowledgePredicate::Separated)
        } else if str_eq(s, "divorced") {
            Some(KnowledgePredicate::Divorced)
        } else if str_eq(s, "related_to") {
            Some(KnowledgePredicate::RelatedTo)
        } else if str_eq(s, "betrayed") {
            Some(KnowledgePredicate::Betrayed)
        } else if str_eq(s, "helped") {
            Some(KnowledgePredicate::Helped)
        } else if str_eq(s, "harmed") {
            Some(KnowledgePredicate::Harmed)
        } else if str_eq(s, "saved") {
            Some(KnowledgePredicate::Saved)
        } else if str_eq(s, "abandoned") {
            Some(KnowledgePredicate::Abandoned)
        } else if str_eq(s, "rejected") {
            Some(KnowledgePredicate::Rejected)
        } else if str_eq(s, "forgave") {
            Some(KnowledgePredicate::Forgave)
        } else if str_eq(s, "lied_to") {
            Some(KnowledgePredicate::LiedTo)
        } else if str_eq(s, "deceived") {
            Some(KnowledgePredicate::Deceived)
        } else if str_eq(s, "manipulated") {
            Some(KnowledgePredicate::Manipulated)
        } else if str_eq(s, "told_truth") {
            Some(KnowledgePredicate::ToldTruth)
        } else if str_eq(s, "is_wealthy") {
            Some(KnowledgePredicate::IsWealthy)
        } else if str_eq(s, "is_poor") {
            Some(KnowledgePredicate::IsPoor)
        } else if str_eq(s, "is_powerful") {
            Some(KnowledgePredicate::IsPowerful)
        } else if str_eq(s, "is_vulnerable") {
            Some(KnowledgePredicate::IsVulnerable)
        } else if str_eq(s, "is_hiding") {
            Some(KnowledgePredicate::IsHiding)
        } else if str_eq(s, "is_present") {
            Some(KnowledgePredicate::IsPresent)
        } else if str_eq(s, "knows_secret") {
            Some(KnowledgePredicate::KnowsSecret)
        } else if str_eq(s, "has_debt") {
            Some(KnowledgePredicate::HasDebt)
        } else if str_eq(s, "owes_favor") {
            Some(KnowledgePredicate::OwesFavor)
        } else if str_eq(s, "broke_promise") {
            Some(KnowledgePredicate::BrokePromise)
        } else if str_eq(s, "kept_promise") {
            Some(KnowledgePredicate::KeptPromise)
        } else if str_eq(s, "caused") {
            Some(KnowledgePredicate::Caused)
        } else if str_eq(s, "prevented") {
            Some(KnowledgePredicate::Prevented)
        } else if str_eq(s, "witnessed") {
            Some(KnowledgePredicate::Witnessed)
        } else if str_eq(s, "planned") {
            Some(KnowledgePredicate::Planned)
        } else if str_eq(s, "intends") {
            Some(KnowledgePredicate::Intends)
        } else if str_eq(s, "owns") {
            Some(KnowledgePredicate::Owns)
        } else if str_eq(s, "wants") {
            Some(KnowledgePredicate::Wants)
        } else if str_eq(s, "fears") {
            Some(KnowledgePredicate::Fears)
        } else {
            None
        };
        r
    }

    #[verifier::rlimit(50)]
    proof fn lemma_name_injective(a: Self, b: Self) {
        reveal_strlit("loves");
        reveal_strlit("hates");
        reveal_strlit("married");
        reveal_strlit("engaged");
        reveal_strlit("separated");
        reveal_strlit("divorced");
        reveal_strlit("related_to");
        reveal_strlit("betrayed");
        reveal_strlit("helped");
        reveal_strlit("harmed");
        reveal_strlit("saved");
        reveal_strlit("abandoned");
        reveal_strlit("rejected");
        reveal_strlit("forgave");
        reveal_strlit("lied_to");
        reveal_strlit("deceived");
        reveal_strlit("manipulated");
        reveal_strlit("told_truth");
        reveal_strlit("is_wealthy");
        reveal_strlit("is_poor");
        reveal_strlit("is_powerful");
        reveal_strlit("is_vulnerable");
        reveal_strlit("is_hiding");
        reveal_strlit("is_present");
        reveal_strlit("knows_secret");
        reveal_strlit("has_debt");
        reveal_strlit("owes_favor");
        reveal_strlit("broke_promise");
        reveal_strlit("kept_promise");
        reveal_strlit("caused");
        reveal_strlit("prevented");
        reveal_strlit("witnessed");
        reveal_strlit("planned");
        reveal_strlit("intends");
        reveal_strlit("owns");
        reveal_strlit("wants");
        reveal_strlit("fears");
        assert("loves"@.len() == 5 && "loves"@[0] == 'l');
        assert("hates"@.len() == 5 && "hates"@[0] == 'h');
        assert("married"@.len() == 7 && "married"@[0] == 'm');
        assert("engaged"@.len() == 7 && "engaged"@[0] == 'e');
        assert("separated"@.len() == 9 && "separated"@[0] == 's');
        assert("divorced"@.len() == 8 && "divorced"@[0] == 'd' && "divorced"@[1] == 'i');
        assert("related_to"@.len() == 10 && "related_to"@[0] == 'r');
        assert("betrayed"@.len() == 8 && "betrayed"@[0] == 'b');
        assert("helped"@.len() == 6 && "helped"@[0] == 'h' && "helped"@[1] == 'e');
        assert("harmed"@.len() == 6 && "harmed"@[0] == 'h' && "harmed"@[1] == 'a');
        assert("saved"@.len() == 5 && "saved"@[0] == 's');
        assert("abandoned"@.len() == 9 && "abandoned"@[0] == 'a');
        assert("rejected"@.len() == 8 && "rejected"@[0] == 'r');
        assert("forgave"@.len() == 7 && "forgave"@[0] == 'f');
        assert("lied_to"@.len() == 7 && "lied_to"@[0] == 'l');
        assert("deceived"@.len() == 8 && "deceived"@[0] == 'd' && "deceived"@[1] == 'e');
        assert("manipulated"@.len() == 11 && "manipulated"@[0] == 'm');
        assert("told_truth"@.len() == 10 && "told_truth"@[0] == 't');
        assert("is_wealthy"@.len() == 10 && "is_wealthy"@[0] == 'i' && "is_wealthy"@[3] == 'w');
        assert("is_poor"@.len() == 7 && "is_poor"@[0] == 'i' && "is_poor"@[1] == 's');
        assert("is_powerful"@.len() == 11 && "is_powerful"@[0] == 'i');
        assert("is_vulnerable"@.len() == 13 && "is_vulnerable"@[0] == 'i');
        assert("is_hiding"@.len() == 9 && "is_hiding"@[0] == 'i');
        assert("is_present"@.len() == 10 && "is_present"@[0] == 'i' && "is_present"@[3] == 'p');
        assert("knows_secret"@.len() == 12 && "knows_secret"@[1] == 'n');
        assert("has_debt"@.len() == 8 && "has_debt"@[0] == 'h');
        assert("owes_favor"@.len() == 10 && "owes_favor"@[0] == 'o');
        assert("broke_promise"@.len() == 13 && "broke_promise"@[0] == 'b');
        assert("kept_promise"@.len() == 12 && "kept_promise"@[1] == 'e');
        assert("caused"@.len() == 6 && "caused"@[0] == 'c');
        assert("prevented"@.len() == 9 && "prevented"@[0] == 'p');
        assert("witnessed"@.len() == 9 && "witnessed"@[0] == 'w');
        assert("planned"@.len() == 7 && "planned"@[0] == 'p');
        assert("intends"@.len() == 7 && "intends"@[0] == 'i' && "intends"@[1] == 'n');
        assert("owns"@.len() == 4);
        assert("wants"@.len() == 5 && "wants"@[0] == 'w');
        assert("fears"@.len() == 5 && "fears"@[0] == 'f');
    }
}

#[derive(Debug, Clone, Copy, PartialEq, Eq, Hash, Structural)]
pub enum GrammaticalSentenceType {
    Declarative,
    Interrogative,
    Imperative,
    Exclamatory,
}

impl SnakeName for GrammaticalSentenceType {
    open spec fn spec_name(self) -> Seq<char> {
        match self {
            GrammaticalSentenceType::Declarative => "declarative"@,
            GrammaticalSentenceType::Interrogative => "interrogative"@,
            GrammaticalSentenceType::Imperative => "imperative"@,
            GrammaticalSentenceType::Exclamatory => "exclamatory"@,
        }
    }

    fn name(&self) -> (r: &'static str) {
        match self {
            GrammaticalSentenceType::Declarative => "declarative",
            GrammaticalSentenceType::Interrogative => "interrogative",
            GrammaticalSentenceType::Imperative => "imperative",
            GrammaticalSentenceType::Exclamatory => "exclamatory",
        }
    }

    fn from_name(s: &str) -> (r: Option<Self>) {
        let r = if str_eq(s, "declarative") {
            Some(GrammaticalSentenceType::Declarative)
        } else if str_eq(s, "interrogative") {
            Some(GrammaticalSentenceType::Interrogative)
        } else if str_eq(s, "imperative") {
            Some(GrammaticalSentenceType::Imperative)
        } else if str_eq(s, "exclamatory") {
            Some(GrammaticalSentenceType::Exclamatory)
        } else {
            None
        };
        r
    }

    proof fn lemma_name_injective(a: Self, b: Self) {
        reveal_strlit("declarative");
        reveal_strlit("interrogative");
        reveal_strlit("imperative");
        reveal_strlit("exclamatory");
        assert("declarative"@.len() == 11 && "declarative"@[0] == 'd');
        assert("interrogative"@.len() == 13);
        assert("imperative"@.len() == 10);
        assert("exclamatory"@.len() == 11 && "exclamatory"@[0] == 'e');
    }
}

#[derive(Debug, Clone, Copy, PartialEq, Eq, Hash, Structural)]
pub enum SentenceStructure {
    Fragment,
    Simple,
    Compound,
    Complex,
    CompoundComplex,
}

impl SnakeName for SentenceStructure {
    open spec fn spec_name(self) -> Seq<char> {
        match self {
            SentenceStructure::Fragment => "fragment"@,
            SentenceStructure::Simple => "simple"@,
            SentenceStructure::Compound => "compound"@,
            SentenceStructure::Complex => "complex"@,
            SentenceStructure::CompoundComplex => "compound_complex"@,
        }
    }

    fn name(&self) -> (r: &'static str) {
        match self {
            SentenceStructure::Fragment => "fragment",
            SentenceStructure::Simple => "simple",
            SentenceStructure::Compound => "compound",
            SentenceStructure::Complex => "complex",
            SentenceStructure::CompoundComplex => "compound_complex",
        }
    }

    fn from_name(s: &str) -> (r: Option<Self>) {
        let r = if str_eq(s, "fragment") {
            Some(SentenceStructure::Fragment)
        } else if str_eq(s, "simple") {
            Some(SentenceStructure::Simple)
        } else if str_eq(s, "compound") {
            Some(SentenceStructure::Compound)
        } else if str_eq(s, "complex") {
            Some(SentenceStructure::Complex)
        } else if str_eq(s, "compound_complex") {
            Some(SentenceStructure::CompoundComplex)
        } else {
            None
        };
        r
    }

    proof fn lemma_name_injective(a: Self, b: Self) {
        reveal_strlit("fragment");
        reveal_strlit("simple");
        reveal_strlit("compound");
        reveal_strlit("complex");
        reveal_strlit("compound_complex");
        assert("fragment"@.len() == 8 && "fragment"@[0] == 'f');
        assert("simple"@.len() == 6);
        assert("compound"@.len() == 8 && "compound"@[0] == 'c');
        assert("complex"@.len() == 7);
        assert("compound_complex"@.len() == 16);
    }
}

#[derive(Debug, Clone, Copy, PartialEq, Eq, Hash, Structural)]
pub enum SentenceLengthCategory {
    Fragment,
    Short,
    Medium,
    Long,
    Marathon,
}

impl SnakeName for SentenceLengthCategory {
    open spec fn spec_name(self) -> Seq<char> {
        match self {
            SentenceLengthCategory::Fragment => "fragment"@,
            SentenceLengthCategory::Short => "short"@,
            SentenceLengthCategory::Medium => "medium"@,
            SentenceLengthCategory::Long => "long"@,
            SentenceLengthCategory::Marathon => "marathon"@,
        }
    }

    fn name(&self) -> (r: &'static str) {
        match self {
            SentenceLengthCategory::Fragment => "fragment",
            SentenceLengthCategory::Short => "short",
            SentenceLengthCategory::Medium => "medium",
            SentenceLengthCategory::Long => "long",
            SentenceLengthCategory::Marathon => "marathon",
        }
    }

    fn from_name(s: &str) -> (r: Option<Self>) {
        let r = if str_eq(s, "fragment") {
            Some(SentenceLengthCategory::Fragment)
        } else if str_eq(s, "short") {
            Some(SentenceLengthCategory::Short)
        } else if str_eq(s, "medium") {
            Some(SentenceLengthCategory::Medium)
        } else if str_eq(s, "long") {
            Some(SentenceLengthCategory::Long)
        } else if str_eq(s, "marathon") {
            Some(SentenceLengthCategory::Marathon)
        } else {
            None
        };
        r
    }

    proof fn lemma_name_injective(a: Self, b: Self) {
        reveal_strlit("fragment");
        reveal_strlit("short");
        reveal_strlit("medium");
        reveal_strlit("long");
        reveal_strlit("marathon");
        assert("fragment"@.len() == 8 && "fragment"@[0] == 'f');
        assert("short"@.len() == 5);
        assert("medium"@.len() == 6);
        assert("long"@.len() == 4);
        assert("marathon"@.len() == 8 && "marathon"@[0] == 'm');
    }
}

#[derive(Debug, Clone, Copy, PartialEq, Eq, Hash, Structural)]
pub enum ProseRhythm {
    Staccato,
    Flowing,
    Varied,
    Periodic,
    Telegraphic,
    Cumulative,
}

impl SnakeName for ProseRhythm {
    open spec fn spec_name(self) -> Seq<char> {
        match self {
            ProseRhythm::Staccato => "staccato"@,
            ProseRhythm::Flowing => "flowing"@,
            ProseRhythm::Varied => "varied"@,
            ProseRhythm::Periodic => "periodic"@,
            ProseRhythm::Telegraphic => "telegraphic"@,
            ProseRhythm::Cumulative => "cumulative"@,
        }
    }

    fn name(&self) -> (r: &'static str) {
        match self {
            ProseRhythm::Staccato => "staccato",
            ProseRhythm::Flowing => "flowing",
            ProseRhythm::Varied => "varied",
            ProseRhythm::Periodic => "periodic",
            ProseRhythm::Telegraphic => "telegraphic",
            ProseRhythm::Cumulative => "cumulative",
        }
    }

    fn from_name(s: &str) -> (r: Option<Self>) {
        let r = if str_eq(s, "staccato") {
            Some(ProseRhythm::Staccato)
        } else if str_eq(s, "flowing") {
            Some(ProseRhythm::Flowing)
        } else if str_eq(s, "varied") {
            Some(ProseRhythm::Varied)
        } else if str_eq(s, "periodic") {
            Some(ProseRhythm::Periodic)
        } else if str_eq(s, "telegraphic") {
            Some(ProseRhythm::Telegraphic)
        } else if str_eq(s, "cumulative") {
            Some(ProseRhythm::Cumulative)
        } else {
            None
        };
        r
    }

    proof fn lemma_name_injective(a: Self, b: Self) {
        reveal_strlit("staccato");
        reveal_strlit("flowing");
        reveal_strlit("varied");
        reveal_strlit("periodic");
        reveal_strlit("telegraphic");
        reveal_strlit("cumulative");
        assert("staccato"@.len() == 8 && "staccato"@[0] == 's');
        assert("flowing"@.len() == 7);
        assert("varied"@.len() == 6);
        assert("periodic"@.len() == 8 && "periodic"@[0] == 'p');
        assert("telegraphic"@.len() == 11);
        assert("cumulative"@.len() == 10);
    }
}

#[derive(Debug, Clone, Copy, PartialEq, Eq, Hash, Structural)]
pub enum DictionLevel {
    Monosyllabic,
    Plain,
    Conversational,
    Formal,
    Literary,
    Ornate,
}

impl SnakeName for DictionLevel {
    open spec fn spec_name(self) -> Seq<char> {
        match self {
            DictionLevel::Monosyllabic => "monosyllabic"@,
            DictionLevel::Plain => "plain"@,
            DictionLevel::Conversational => "conversational"@,
            DictionLevel::Formal => "formal"@,
            DictionLevel::Literary => "literary"@,
            DictionLevel::Ornate => "ornate"@,
        }
    }

    fn name(&self) -> (r: &'static str) {
        match self {
            DictionLevel::Monosyllabic => "monosyllabic",
            DictionLevel::Plain => "plain",
            DictionLevel::Conversational => "conversational",
            DictionLevel::Formal => "formal",
            DictionLevel::Literary => "literary",
            DictionLevel::Ornate => "ornate",
        }
    }

    fn from_name(s: &str) -> (r: Option<Self>) {
        let r = if str_eq(s, "monosyllabic") {
            Some(DictionLevel::Monosyllabic)
        } else if str_eq(s, "plain") {
            Some(DictionLevel::Plain)
        } else if str_eq(s, "conversational") {
            Some(DictionLevel::Conversational)
        } else if str_eq(s, "formal") {
            Some(DictionLevel::Formal)
        } else if str_eq(s, "literary") {
            Some(DictionLevel::Literary)
        } else if str_eq(s, "ornate") {
            Some(DictionLevel::Ornate)
        } else {
            None
        };
        r
    }

    proof fn lemma_name_injective(a: Self, b: Self) {
        reveal_strlit("monosyllabic");
        reveal_strlit("plain");
        reveal_strlit("conversational");
        reveal_strlit("formal");
        reveal_strlit("literary");
        reveal_strlit("ornate");
        assert("monosyllabic"@.len() == 12);
        assert("plain"@.len() == 5);
        assert("conversational"@.len() == 14);
        assert("formal"@.len() == 6 && "formal"@[0] == 'f');
        assert("literary"@.len() == 8);
        assert("ornate"@.len() == 6 && "ornate"@[0] == 'o');
    }
}

#[derive(Debug, Clone, Copy, PartialEq, Eq, Hash, Structural)]
pub enum Concreteness {
    Abstract,
    General,
    Concrete,
    Sensory,
    Visceral,
}

impl SnakeName for Concreteness {
    open spec fn spec_name(self) -> Seq<char> {
        match self {
            Concreteness::Abstract => "abstract"@,
            Concreteness::General => "general"@,
            Concreteness::Concrete => "concrete"@,
            Concreteness::Sensory => "sensory"@,
            Concreteness::Visceral => "visceral"@,
        }
    }

    fn name(&self) -> (r: &'static str) {
        match self {
            Concreteness::Abstract => "abstract",
            Concreteness::General => "general",
            Concreteness::Concrete => "concrete",
            Concreteness::Sensory => "sensory",
            Concreteness::Visceral => "visceral",
        }
    }

    fn from_name(s: &str) -> (r: Option<Self>) {
        let r = if str_eq(s, "abstract") {
            Some(Concreteness::Abstract)
        } else if str_eq(s, "general") {
            Some(Concreteness::General)
        } else if str_eq(s, "concrete") {
            Some(Concreteness::Concrete)
        } else if str_eq(s, "sensory") {
            Some(Concreteness::Sensory)
        } else if str_eq(s, "visceral") {
            Some(Concreteness::Visceral)
        } else {
            None
        };
        r
    }

    proof fn lemma_name_injective(a: Self, b: Self) {
        reveal_strlit("abstract");
        reveal_strlit("general");
        reveal_strlit("concrete");
        reveal_strlit("sensory");
        reveal_strlit("visceral");
        assert("abstract"@.len() == 8 && "abstract"@[0] == 'a');
        assert("general"@.len() == 7 && "general"@[0] == 'g');
        assert("concrete"@.len() == 8 && "concrete"@[0] == 'c');
        assert("sensory"@.len() == 7 && "sensory"@[0] == 's');
        assert("visceral"@.len() == 8 && "visceral"@[0] == 'v');
    }
}

#[derive(Debug, Clone, Copy, PartialEq, Eq, Hash, Structural)]
pub enum FigureType {
    Metaphor,
    Simile,
    Personification,
    Metonymy,
    Synecdoche,
    Hyperbole,
    Litotes,
    Oxymoron,
    Antithesis,
    Zeugma,
    Chiasmus,
    Anaphora,
    Anadiplosis,
    Epistrophe,
    Asyndeton,
    Polysyndeton,
    Absent,
}

impl SnakeName for FigureType {
    open spec fn spec_name(self) -> Seq<char> {
        match self {
            FigureType::Metaphor => "metaphor"@,
            FigureType::Simile => "simile"@,
            FigureType::Personification => "personification"@,
            FigureType::Metonymy => "metonymy"@,
            FigureType::Synecdoche => "synecdoche"@,
            FigureType::Hyperbole => "hyperbole"@,
            FigureType::Litotes => "litotes"@,
            FigureType::Oxymoron => "oxymoron"@,
            FigureType::Antithesis => "antithesis"@,
            FigureType::Zeugma => "zeugma"@,
            FigureType::Chiasmus => "chiasmus"@,
            FigureType::Anaphora => "anaphora"@,
            FigureType::Anadiplosis => "anadiplosis"@,
            FigureType::Epistrophe => "epistrophe"@,
            FigureType::Asyndeton => "asyndeton"@,
            FigureType::Polysyndeton => "polysyndeton"@,
            FigureType::Absent => "none"@,
        }
    }

    fn name(&self) -> (r: &'static str) {
        match self {
            FigureType::Metaphor => "metaphor",
            FigureType::Simile => "simile",
            FigureType::Personification => "personification",
            FigureType::Metonymy => "metonymy",
            FigureType::Synecdoche => "synecdoche",
            FigureType::Hyperbole => "hyperbole",
            FigureType::Litotes => "litotes",
            FigureType::Oxymoron => "oxymoron",
            FigureType::Antithesis => "antithesis",
            FigureType::Zeugma => "zeugma",
            FigureType::Chiasmus => "chiasmus",
            FigureType::Anaphora => "anaphora",
            FigureType::Anadiplosis => "anadiplosis",
            FigureType::Epistrophe => "epistrophe",
            FigureType::Asyndeton => "asyndeton",
            FigureType::Polysyndeton => "polysyndeton",
            FigureType::Absent => "none",
        }
    }

    fn from_name(s: &str) -> (r: Option<Self>) {
        let r = if str_eq(s, "metaphor") {
            Some(FigureType::Metaphor)
        } else if str_eq(s, "simile") {
            Some(FigureType::Simile)
        } else if str_eq(s, "personification") {
            Some(FigureType::Personification)
        } else if str_eq(s, "metonymy") {
            Some(FigureType::Metonymy)
        } else if str_eq(s, "synecdoche") {
            Some(FigureType::Synecdoche)
        } else if str_eq(s, "hyperbole") {
            Some(FigureType::Hyperbole)
        } else if str_eq(s, "litotes") {
            Some(FigureType::Litotes)
        } else if str_eq(s, "oxymoron") {
            Some(FigureType::Oxymoron)
        } else if str_eq(s, "antithesis") {
            Some(FigureType::Antithesis)
        } else if str_eq(s, "zeugma") {
            Some(FigureType::Zeugma)
        } else if str_eq(s, "chiasmus") {
            Some(FigureType::Chiasmus)
        } else if str_eq(s, "anaphora") {
            Some(FigureType::Anaphora)
        } else if str_eq(s, "anadiplosis") {
            Some(FigureType::Anadiplosis)
        } else if str_eq(s, "epistrophe") {
            Some(FigureType::Epistrophe)
        } else if str_eq(s, "asyndeton") {
            Some(FigureType::Asyndeton)
        } else if str_eq(s, "polysyndeton") {
            Some(FigureType::Polysyndeton)
        } else if str_eq(s, "none") {
            Some(FigureType::Absent)
        } else {
            None
        };
        r
    }

    proof fn lemma_name_injective(a: Self, b: Self) {
        reveal_strlit("metaphor");
        reveal_strlit("simile");
        reveal_strlit("personification");
        reveal_strlit("metonymy");
        reveal_strlit("synecdoche");
        reveal_strlit("hyperbole");
        reveal_strlit("litotes");
        reveal_strlit("oxymoron");
        reveal_strlit("antithesis");
        reveal_strlit("zeugma");
        reveal_strlit("chiasmus");
        reveal_strlit("anaphora");
        reveal_strlit("anadiplosis");
        reveal_strlit("epistrophe");
        reveal_strlit("asyndeton");
        reveal_strlit("polysyndeton");
        reveal_strlit("none");
        assert("metaphor"@.len() == 8 && "metaphor"@[0] == 'm' && "metaphor"@[3] == 'a');
        assert("simile"@.len() == 6 && "simile"@[0] == 's');
        assert("personification"@.len() == 15);
        assert("metonymy"@.len() == 8 && "metonymy"@[0] == 'm' && "metonymy"@[3] == 'o');
        assert("synecdoche"@.len() == 10 && "synecdoche"@[0] == 's');
        assert("hyperbole"@.len() == 9 && "hyperbole"@[0] == 'h');
        assert("litotes"@.len() == 7);
        assert("oxymoron"@.len() == 8 && "oxymoron"@[0] == 'o');
        assert("antithesis"@.len() == 10 && "antithesis"@[0] == 'a');
        assert("zeugma"@.len() == 6 && "zeugma"@[0] == 'z');
        assert("chiasmus"@.len() == 8 && "chiasmus"@[0] == 'c');
        assert("anaphora"@.len() == 8 && "anaphora"@[0] == 'a');
        assert("anadiplosis"@.len() == 11);
        assert("epistrophe"@.len() == 10 && "epistrophe"@[0] == 'e');
        assert("asyndeton"@.len() == 9 && "asyndeton"@[0] == 'a');
        assert("polysyndeton"@.len() == 12);
        assert("none"@.len() == 4);
    }
}

#[derive(Debug, Clone, Copy, PartialEq, Eq, Hash, Structural)]
pub enum DefamiliarizationLevel {
    Automatized,
    Mild,
    Moderate,
    Strong,
    Radical,
}

impl SnakeName for DefamiliarizationLevel {
    open spec fn spec_name(self) -> Seq<char> {
        match self {
            DefamiliarizationLevel::Automatized => "automatized"@,
            DefamiliarizationLevel::Mild => "mild"@,
            DefamiliarizationLevel::Moderate => "moderate"@,
            DefamiliarizationLevel::Strong => "strong"@,
            DefamiliarizationLevel::Radical => "radical"@,
        }
    }

    fn name(&self) -> (r: &'static str) {
        match self {
            DefamiliarizationLevel::Automatized => "automatized",
            DefamiliarizationLevel::Mild => "mild",
            DefamiliarizationLevel::Moderate => "moderate",
            DefamiliarizationLevel::Strong => "strong",
            DefamiliarizationLevel::Radical => "radical",
        }
    }

    fn from_name(s: &str) -> (r: Option<Self>) {
        let r = if str_eq(s, "automatized") {
            Some(DefamiliarizationLevel::Automatized)
        } else if str_eq(s, "mild") {
            Some(DefamiliarizationLevel::Mild)
        } else if str_eq(s, "moderate") {
            Some(DefamiliarizationLevel::Moderate)
        } else if str_eq(s, "strong") {
            Some(DefamiliarizationLevel::Strong)
        } else if str_eq(s, "radical") {
            Some(DefamiliarizationLevel::Radical)
        } else {
            None
        };
        r
    }

    proof fn lemma_name_injective(a: Self, b: Self) {
        reveal_strlit("automatized");
        reveal_strlit("mild");
        reveal_strlit("moderate");
        reveal_strlit("strong");
        reveal_strlit("radical");
        assert("automatized"@.len() == 11);
        assert("mild"@.len() == 4);
        assert("moderate"@.len() == 8);
        assert("strong"@.len() == 6);
        assert("radical"@.len() == 7);
    }
}

#[derive(Debug, Clone, Copy, PartialEq, Eq, Hash, Structural)]
pub enum SoundDevice {
    Alliteration,
    Assonance,
    Consonance,
    Onomatopoeia,
    Euphony,
    Cacophony,
    Sibilance,
    Plosives,
    Absent,
}

impl SnakeName for SoundDevice {
    open spec fn spec_name(self) -> Seq<char> {
        match self {
            SoundDevice::Alliteration => "alliteration"@,
            SoundDevice::Assonance => "assonance"@,
            SoundDevice::Consonance => "consonance"@,
            SoundDevice::Onomatopoeia => "onomatopoeia"@,
            SoundDevice::Euphony => "euphony"@,
            SoundDevice::Cacophony => "cacophony"@,
            SoundDevice::Sibilance => "sibilance"@,
            SoundDevice::Plosives => "plosives"@,
            SoundDevice::Absent => "none"@,
        }
    }

    fn name(&self) -> (r: &'static str) {
        match self {
            SoundDevice::Alliteration => "alliteration",
            SoundDevice::Assonance => "assonance",
            SoundDevice::Consonance => "consonance",
            SoundDevice::Onomatopoeia => "onomatopoeia",
            SoundDevice::Euphony => "euphony",
            SoundDevice::Cacophony => "cacophony",
            SoundDevice::Sibilance => "sibilance",
            SoundDevice::Plosives => "plosives",
            SoundDevice::Absent => "none",
        }
    }

    fn from_name(s: &str) -> (r: Option<Self>) {
        let r = if str_eq(s, "alliteration") {
            Some(SoundDevice::Alliteration)
        } else if str_eq(s, "assonance") {
            Some(SoundDevice::Assonance)
        } else if str_eq(s, "consonance") {
            Some(SoundDevice::Consonance)
        } else if str_eq(s, "onomatopoeia") {
            Some(SoundDevice::Onomatopoeia)
        } else if str_eq(s, "euphony") {
            Some(SoundDevice::Euphony)
        } else if str_eq(s, "cacophony") {
            Some(SoundDevice::Cacophony)
        } else if str_eq(s, "sibilance") {
            Some(SoundDevice::Sibilance)
        } else if str_eq(s, "plosives") {
            Some(SoundDevice::Plosives)
        } else if str_eq(s, "none") {
            Some(SoundDevice::Absent)
        } else {
            None
        };
        r
    }

    proof fn lemma_name_injective(a: Self, b: Self) {
        reveal_strlit("alliteration");
        reveal_strlit("assonance");
        reveal_strlit("consonance");
        reveal_strlit("onomatopoeia");
        reveal_strlit("euphony");
        reveal_strlit("cacophony");
        reveal_strlit("sibilance");
        reveal_strlit("plosives");
        reveal_strlit("none");
        assert("alliteration"@.len() == 12 && "alliteration"@[0] == 'a');
        assert("assonance"@.len() == 9 && "assonance"@[0] == 'a');
        assert("consonance"@.len() == 10);
        assert("onomatopoeia"@.len() == 12 && "onomatopoeia"@[0] == 'o');
        assert("euphony"@.len() == 7);
        assert("cacophony"@.len() == 9 && "cacophony"@[0] == 'c');
        assert("sibilance"@.len() == 9 && "sibilance"@[0] == 's');
        assert("plosives"@.len() == 8);
        assert("none"@.len() == 4);
    }
}

#[derive(Debug, Clone, Copy, PartialEq, Eq, Hash, Structural)]
pub enum ProcessType {
    Material,
    Mental,
    Verbal,
    Relational,
    Behavioral,
    Existential,
}

impl SnakeName for ProcessType {
    open spec fn spec_name(self) -> Seq<char> {
        match self {
            ProcessType::Material => "material"@,
            ProcessType::Mental => "mental"@,
            ProcessType::Verbal => "verbal"@,
            ProcessType::Relational => "relational"@,
            ProcessType::Behavioral => "behavioral"@,
            ProcessType::Existential => "existential"@,
        }
    }

    fn name(&self) -> (r: &'static str) {
        match self {
            ProcessType::Material => "material",
            ProcessType::Mental => "mental",
            ProcessType::Verbal => "verbal",
            ProcessType::Relational => "relational",
            ProcessType::Behavioral => "behavioral",
            ProcessType::Existential => "existential",
        }
    }

    fn from_name(s: &str) -> (r: Option<Self>) {
        let r = if str_eq(s, "material") {
            Some(ProcessType::Material)
        } else if str_eq(s, "mental") {
            Some(ProcessType::Mental)
        } else if str_eq(s, "verbal") {
            Some(ProcessType::Verbal)
        } else if str_eq(s, "relational") {
            Some(ProcessType::Relational)
        } else if str_eq(s, "behavioral") {
            Some(ProcessType::Behavioral)
        } else if str_eq(s, "existential") {
            Some(ProcessType::Existential)
        } else {
            None
        };
        r
    }

    proof fn lemma_name_injective(a: Self, b: Self) {
        reveal_strlit("material");
        reveal_strlit("mental");
        reveal_strlit("verbal");
        reveal_strlit("relational");
        reveal_strlit("behavioral");
        reveal_strlit("existential");
        assert("material"@.len() == 8);
        assert("mental"@.len() == 6 && "mental"@[0] == 'm');
        assert("verbal"@.len() == 6 && "verbal"@[0] == 'v');
        assert("relational"@.len() == 10 && "relational"@[0] == 'r');
        assert("behavioral"@.len() == 10 && "behavioral"@[0] == 'b');
        assert("existential"@.len() == 11);
    }
}

#[derive(Debug, Clone, Copy, PartialEq, Eq, Hash, Structural)]
pub enum AgentEncoding {
    ClearAgent,
    ObscuredAgent,
    AgentlessPassive,
    Nominalization,
    Ambient,
}

impl SnakeName for AgentEncoding {
    open spec fn spec_name(self) -> Seq<char> {
        match self {
            AgentEncoding::ClearAgent => "clear_agent"@,
            AgentEncoding::ObscuredAgent => "obscured_agent"@,
            AgentEncoding::AgentlessPassive => "agentless_passive"@,
            AgentEncoding::Nominalization => "nominalization"@,
            AgentEncoding::Ambient => "ambient"@,
        }
    }

    fn name(&self) -> (r: &'static str) {
        match self {
            AgentEncoding::ClearAgent => "clear_agent",
            AgentEncoding::ObscuredAgent => "obscured_agent",
            AgentEncoding::AgentlessPassive => "agentless_passive",
            AgentEncoding::Nominalization => "nominalization",
            AgentEncoding::Ambient => "ambient",
        }
    }

    fn from_name(s: &str) -> (r: Option<Self>) {
        let r = if str_eq(s, "clear_agent") {
            Some(AgentEncoding::ClearAgent)
        } else if str_eq(s, "obscured_agent") {
            Some(AgentEncoding::ObscuredAgent)
        } else if str_eq(s, "agentless_passive") {
            Some(AgentEncoding::AgentlessPassive)
        } else if str_eq(s, "nominalization") {
            Some(AgentEncoding::Nominalization)
        } else if str_eq(s, "ambient") {
            Some(AgentEncoding::Ambient)
        } else {
            None
        };
        r
    }

    proof fn lemma_name_injective(a: Self, b: Self) {
        reveal_strlit("clear_agent");
        reveal_strlit("obscured_agent");
        reveal_strlit("agentless_passive");
        reveal_strlit("nominalization");
        reveal_strlit("ambient");
        assert("clear_agent"@.len() == 11);
        assert("obscured_agent"@.len() == 14 && "obscured_agent"@[0] == 'o');
        assert("agentless_passive"@.len() == 17);
        assert("nominalization"@.len() == 14 && "nominalization"@[0] == 'n');
        assert("ambient"@.len() == 7);
    }
}

#[derive(Debug, Clone, Copy, PartialEq, Eq, Hash, Structural)]
pub enum AttributionStyle {
    Said,
    SaidVariant,
    ActionBeat,
    Absent,
    Mixed,
}

impl SnakeName for AttributionStyle {
    open spec fn spec_name(self) -> Seq<char> {
        match self {
            AttributionStyle::Said => "said"@,
            AttributionStyle::SaidVariant => "said_variant"@,
            AttributionStyle::ActionBeat => "action_beat"@,
            AttributionStyle::Absent => "none"@,
            AttributionStyle::Mixed => "mixed"@,
        }
    }

    fn name(&self) -> (r: &'static str) {
        match self {
            AttributionStyle::Said => "said",
            AttributionStyle::SaidVariant => "said_variant",
            AttributionStyle::ActionBeat => "action_beat",
            AttributionStyle::Absent => "none",
            AttributionStyle::Mixed => "mixed",
        }
    }

    fn from_name(s: &str) -> (r: Option<Self>) {
        let r = if str_eq(s, "said") {
            Some(AttributionStyle::Said)
        } else if str_eq(s, "said_variant") {
            Some(AttributionStyle::SaidVariant)
        } else if str_eq(s, "action_beat") {
            Some(AttributionStyle::ActionBeat)
        } else if str_eq(s, "none") {
            Some(AttributionStyle::Absent)
        } else if str_eq(s, "mixed") {
            Some(AttributionStyle::Mixed)
        } else {
            None
        };
        r
    }

    proof fn lemma_name_injective(a: Self, b: Self) {
        reveal_strlit("said");
        reveal_strlit("said_variant");
        reveal_strlit("action_beat");
        reveal_strlit("none");
        reveal_strlit("mixed");
        assert("said"@.len() == 4 && "said"@[0] == 's');
        assert("said_variant"@.len() == 12);
        assert("action_beat"@.len() == 11);
        assert("none"@.len() == 4 && "none"@[0] == 'n');
        assert("mixed"@.len() == 5);
    }
}

#[derive(Debug, Clone, Copy, PartialEq, Eq, Hash, Structural)]
pub enum DiscourseMode {
    DirectSpeech,
    IndirectSpeech,
    FreeIndirectDiscourse,
    NarratedSpeech,
    SpeechSummary,
    ThoughtReport,
    DirectThought,
    FreeIndirectThought,
}

impl SnakeName for DiscourseMode {
    open spec fn spec_name(self) -> Seq<char> {
        match self {
            DiscourseMode::DirectSpeech => "direct_speech"@,
            DiscourseMode::IndirectSpeech => "indirect_speech"@,
            DiscourseMode::FreeIndirectDiscourse => "free_indirect_discourse"@,
            DiscourseMode::NarratedSpeech => "narrated_speech"@,
            DiscourseMode::SpeechSummary => "speech_summary"@,
            DiscourseMode::ThoughtReport => "thought_report"@,
            DiscourseMode::DirectThought => "direct_thought"@,
            DiscourseMode::FreeIndirectThought => "free_indirect_thought"@,
        }
    }

    fn name(&self) -> (r: &'static str) {
        match self {
            DiscourseMode::DirectSpeech => "direct_speech",
            DiscourseMode::IndirectSpeech => "indirect_speech",
            DiscourseMode::FreeIndirectDiscourse => "free_indirect_discourse",
            DiscourseMode::NarratedSpeech => "narrated_speech",
            DiscourseMode::SpeechSummary => "speech_summary",
            DiscourseMode::ThoughtReport => "thought_report",
            DiscourseMode::DirectThought => "direct_thought",
            DiscourseMode::FreeIndirectThought => "free_indirect_thought",
        }
    }

    fn from_name(s: &str) -> (r: Option<Self>) {
        let r = if str_eq(s, "direct_speech") {
            Some(DiscourseMode::DirectSpeech)
        } else if str_eq(s, "indirect_speech") {
            Some(DiscourseMode::IndirectSpeech)
        } else if str_eq(s, "free_indirect_discourse") {
            Some(DiscourseMode::FreeIndirectDiscourse)
        } else if str_eq(s, "narrated_speech") {
            Some(DiscourseMode::NarratedSpeech)
        } else if str_eq(s, "speech_summary") {
            Some(DiscourseMode::SpeechSummary)
        } else if str_eq(s, "thought_report") {
            Some(DiscourseMode::ThoughtReport)
        } else if str_eq(s, "direct_thought") {
            Some(DiscourseMode::DirectThought)
        } else if str_eq(s, "free_indirect_thought") {
            Some(DiscourseMode::FreeIndirectThought)
        } else {
            None
        };
        r
    }

    proof fn lemma_name_injective(a: Self, b: Self) {
        reveal_strlit("direct_speech");
        reveal_strlit("indirect_speech");
        reveal_strlit("free_indirect_discourse");
        reveal_strlit("narrated_speech");
        reveal_strlit("speech_summary");
        reveal_strlit("thought_report");
        reveal_strlit("direct_thought");
        reveal_strlit("free_indirect_thought");
        assert("direct_speech"@.len() == 13);
        assert("indirect_speech"@.len() == 15 && "indirect_speech"@[0] == 'i');
        assert("free_indirect_discourse"@.len() == 23);
        assert("narrated_speech"@.len() == 15 && "narrated_speech"@[0] == 'n');
        assert("speech_summary"@.len() == 14 && "speech_summary"@[0] == 's');
        assert("thought_report"@.len() == 14 && "thought_report"@[0] == 't');
        assert("direct_thought"@.len() == 14 && "direct_thought"@[0] == 'd');
        assert("free_indirect_thought"@.len() == 21);
    }
}

#[derive(Debug, Clone, Copy, PartialEq, Eq, Hash, Structural)]
pub enum ForegroundingType {
    ExternalDeviation,
    InternalDeviation,
    Parallelism,
    CohesionPattern,
    SemanticSaturation,
    Absent,
}

impl SnakeName for ForegroundingType {
    open spec fn spec_name(self) -> Seq<char> {
        match self {
            ForegroundingType::ExternalDeviation => "external_deviation"@,
            ForegroundingType::InternalDeviation => "internal_deviation"@,
            ForegroundingType::Parallelism => "parallelism"@,
            ForegroundingType::CohesionPattern => "cohesion_pattern"@,
            ForegroundingType::SemanticSaturation => "semantic_saturation"@,
            ForegroundingType::Absent => "none"@,
        }
    }

    fn name(&self) -> (r: &'static str) {
        match self {
            ForegroundingType::ExternalDeviation => "external_deviation",
            ForegroundingType::InternalDeviation => "internal_deviation",
            ForegroundingType::Parallelism => "parallelism",
            ForegroundingType::CohesionPattern => "cohesion_pattern",
            ForegroundingType::SemanticSaturation => "semantic_saturation",
            ForegroundingType::Absent => "none",
        }
    }

    fn from_name(s: &str) -> (r: Option<Self>) {
        let r = if str_eq(s, "external_deviation") {
            Some(ForegroundingType::ExternalDeviation)
        } else if str_eq(s, "internal_deviation") {
            Some(ForegroundingType::InternalDeviation)
        } else if str_eq(s, "parallelism") {
            Some(ForegroundingType::Parallelism)
        } else if str_eq(s, "cohesion_pattern") {
            Some(ForegroundingType::CohesionPattern)
        } else if str_eq(s, "semantic_saturation") {
            Some(ForegroundingType::SemanticSaturation)
        } else if str_eq(s, "none") {
            Some(ForegroundingType::Absent)
        } else {
            None
        };
        r
    }

    proof fn lemma_name_injective(a: Self, b: Self) {
        reveal_strlit("external_deviation");
        reveal_strlit("internal_deviation");
        reveal_strlit("parallelism");
        reveal_strlit("cohesion_pattern");
        reveal_strlit("semantic_saturation");
        reveal_strlit("none");
        assert("external_deviation"@.len() == 18 && "external_deviation"@[0] == 'e');
        assert("internal_deviation"@.len() == 18 && "internal_deviation"@[0] == 'i');
        assert("parallelism"@.len() == 11);
        assert("cohesion_pattern"@.len() == 16);
        assert("semantic_saturation"@.len() == 19);
        assert("none"@.len() == 4);
    }
}

#[derive(Debug, Clone, Copy, PartialEq, Eq, Hash, Structural)]
pub enum ProsePacing {
    Compressed,
    Standard,
    Expanded,
    Dilated,
}

impl SnakeName for ProsePacing {
    open spec fn spec_name(self) -> Seq<char> {
        match self {
            ProsePacing::Compressed => "compressed"@,
            ProsePacing::Standard => "standard"@,
            ProsePacing::Expanded => "expanded"@,
            ProsePacing::Dilated => "dilated"@,
        }
    }

    fn name(&self) -> (r: &'static str) {
        match self {
            ProsePacing::Compressed => "compressed",
            ProsePacing::Standard => "standard",
            ProsePacing::Expanded => "expanded",
            ProsePacing::Dilated => "dilated",
        }
    }

    fn from_name(s: &str) -> (r: Option<Self>) {
        let r = if str_eq(s, "compressed") {
            Some(ProsePacing::Compressed)
        } else if str_eq(s, "standard") {
            Some(ProsePacing::Standard)
        } else if str_eq(s, "expanded") {
            Some(ProsePacing::Expanded)
        } else if str_eq(s, "dilated") {
            Some(ProsePacing::Dilated)
        } else {
            None
        };
        r
    }

    proof fn lemma_name_injective(a: Self, b: Self) {
        reveal_strlit("compressed");
        reveal_strlit("standard");
        reveal_strlit("expanded");
        reveal_strlit("dilated");
        assert("compressed"@.len() == 10);
        assert("standard"@.len() == 8 && "standard"@[0] == 's');
        assert("expanded"@.len() == 8 && "expanded"@[0] == 'e');
        assert("dilated"@.len() == 7);
    }
}

#[derive(Debug, Clone, Copy, PartialEq, Eq, Hash, Structural)]
pub enum VocabularySource {
    CharacterOwned,
    NarratorOwned,
    PeriodAppropriate,
    Mixed,
}

impl SnakeName for VocabularySource {
    open spec fn spec_name(self) -> Seq<char> {
        match self {
            VocabularySource::CharacterOwned => "character_owned"@,
            VocabularySource::NarratorOwned => "narrator_owned"@,
            VocabularySource::PeriodAppropriate => "period_appropriate"@,
            VocabularySource::Mixed => "mixed"@,
        }
    }

    fn name(&self) -> (r: &'static str) {
        match self {
            VocabularySource::CharacterOwned => "character_owned",
            VocabularySource::NarratorOwned => "narrator_owned",
            VocabularySource::PeriodAppropriate => "period_appropriate",
            VocabularySource::Mixed => "mixed",
        }
    }

    fn from_name(s: &str) -> (r: Option<Self>) {
        let r = if str_eq(s, "character_owned") {
            Some(VocabularySource::CharacterOwned)
        } else if str_eq(s, "narrator_owned") {
            Some(VocabularySource::NarratorOwned)
        } else if str_eq(s, "period_appropriate") {
            Some(VocabularySource::PeriodAppropriate)
        } else if str_eq(s, "mixed") {
            Some(VocabularySource::Mixed)
        } else {
            None
        };
        r
    }

    proof fn lemma_name_injective(a: Self, b: Self) {
        reveal_strlit("character_owned");
        reveal_strlit("narrator_owned");
        reveal_strlit("period_appropriate");
        reveal_strlit("mixed");
        assert("character_owned"@.len() == 15);
        assert("narrator_owned"@.len() == 14);
        assert("period_appropriate"@.len() == 18);
        assert("mixed"@.len() == 5);
    }
}

#[derive(Debug, Clone, Copy, PartialEq, Eq, Hash, Structural)]
pub enum ClausePosition {
    MainInitial,
    MainMedial,
    MainFinal,
    Embedded,
}

impl SnakeName for ClausePosition {
    open spec fn spec_name(self) -> Seq<char> {
        match self {
            ClausePosition::MainInitial => "main_initial"@,
            ClausePosition::MainMedial => "main_medial"@,
            ClausePosition::MainFinal => "main_final"@,
            ClausePosition::Embedded => "embedded"@,
        }
    }

    fn name(&self) -> (r: &'static str) {
        match self {
            ClausePosition::MainInitial => "main_initial",
            ClausePosition::MainMedial => "main_medial",
            ClausePosition::MainFinal => "main_final",
            ClausePosition::Embedded => "embedded",
        }
    }

    fn from_name(s: &str) -> (r: Option<Self>) {
        let r = if str_eq(s, "main_initial") {
            Some(ClausePosition::MainInitial)
        } else if str_eq(s, "main_medial") {
            Some(ClausePosition::MainMedial)
        } else if str_eq(s, "main_final") {
            Some(ClausePosition::MainFinal)
        } else if str_eq(s, "embedded") {
            Some(ClausePosition::Embedded)
        } else {
            None
        };
        r
    }

    proof fn lemma_name_injective(a: Self, b: Self) {
        reveal_strlit("main_initial");
        reveal_strlit("main_medial");
        reveal_strlit("main_final");
        reveal_strlit("embedded");
        assert("main_initial"@.len() == 12);
        assert("main_medial"@.len() == 11);
        assert("main_final"@.len() == 10);
        assert("embedded"@.len() == 8);
    }
}

#[derive(Debug, Clone, Copy, PartialEq, Eq, Hash, Structural)]
pub enum ParagraphFunction {
    SceneAction,
    DialogueExchange,
    Interiority,
    Description,
    Exposition,
    Transition,
    Summary,
    Reflection,
}

impl SnakeName for ParagraphFunction {
    open spec fn spec_name(self) -> Seq<char> {
        match self {
            ParagraphFunction::SceneAction => "scene_action"@,
            ParagraphFunction::DialogueExchange => "dialogue_exchange"@,
            ParagraphFunction::Interiority => "interiority"@,
            ParagraphFunction::Description => "description"@,
            ParagraphFunction::Exposition => "exposition"@,
            ParagraphFunction::Transition => "transition"@,
            ParagraphFunction::Summary => "summary"@,
            ParagraphFunction::Reflection => "reflection"@,
        }
    }

    fn name(&self) -> (r: &'static str) {
        match self {
            ParagraphFunction::SceneAction => "scene_action",
            ParagraphFunction::DialogueExchange => "dialogue_exchange",
            ParagraphFunction::Interiority => "interiority",
            ParagraphFunction::Description => "description",
            ParagraphFunction::Exposition => "exposition",
            ParagraphFunction::Transition => "transition",
            ParagraphFunction::Summary => "summary",
            ParagraphFunction::Reflection => "reflection",
        }
    }

    fn from_name(s: &str) -> (r: Option<Self>) {
        let r = if str_eq(s, "scene_action") {
            Some(ParagraphFunction::SceneAction)
        } else if str_eq(s, "dialogue_exchange") {
            Some(ParagraphFunction::DialogueExchange)
        } else if str_eq(s, "interiority") {
            Some(ParagraphFunction::Interiority)
        } else if str_eq(s, "description") {
            Some(ParagraphFunction::Description)
        } else if str_eq(s, "exposition") {
            Some(ParagraphFunction::Exposition)
        } else if str_eq(s, "transition") {
            Some(ParagraphFunction::Transition)
        } else if str_eq(s, "summary") {
            Some(ParagraphFunction::Summary)
        } else if str_eq(s, "reflection") {
            Some(ParagraphFunction::Reflection)
        } else {
            None
        };
        r
    }

    proof fn lemma_name_injective(a: Self, b: Self) {
        reveal_strlit("scene_action");
        reveal_strlit("dialogue_exchange");
        reveal_strlit("interiority");
        reveal_strlit("description");
        reveal_strlit("exposition");
        reveal_strlit("transition");
        reveal_strlit("summary");
        reveal_strlit("reflection");
        assert("scene_action"@.len() == 12);
        assert("dialogue_exchange"@.len() == 17);
        assert("interiority"@.len() == 11 && "interiority"@[0] == 'i');
        assert("description"@.len() == 11 && "description"@[0] == 'd');
        assert("exposition"@.len() == 10 && "exposition"@[0] == 'e');
        assert("transition"@.len() == 10 && "transition"@[0] == 't');
        assert("summary"@.len() == 7);
        assert("reflection"@.len() == 10 && "reflection"@[0] == 'r');
    }
}

#[derive(Debug, Clone, Copy, PartialEq, Eq, Hash, Structural)]
pub enum GenreType {
    Romance,
    Literary,
    Thriller,
    Mystery,
    Fantasy,
    ScienceFiction,
    Horror,
    Historical,
    Contemporary,
    YoungAdult,
    MiddleGrade,
    Memoir,
    Western,
    Gothic,
    Comedy,
    Tragedy,
    Satire,
}

impl SnakeName for GenreType {
    open spec fn spec_name(self) -> Seq<char> {
        match self {
            GenreType::Romance => "romance"@,
            GenreType::Literary => "literary"@,
            GenreType::Thriller => "thriller"@,
            GenreType::Mystery => "mystery"@,
            GenreType::Fantasy => "fantasy"@,
            GenreType::ScienceFiction => "science_fiction"@,
            GenreType::Horror => "horror"@,
            GenreType::Historical => "historical"@,
            GenreType::Contemporary => "contemporary"@,
            GenreType::YoungAdult => "young_adult"@,
            GenreType::MiddleGrade => "middle_grade"@,
            GenreType::Memoir => "memoir"@,
            GenreType::Western => "western"@,
            GenreType::Gothic => "gothic"@,
            GenreType::Comedy => "comedy"@,
            GenreType::Tragedy => "tragedy"@,
            GenreType::Satire => "satire"@,
        }
    }

    fn name(&self) -> (r: &'static str) {
        match self {
            GenreType::Romance => "romance",
            GenreType::Literary => "literary",
            GenreType::Thriller => "thriller",
            GenreType::Mystery => "mystery",
            GenreType::Fantasy => "fantasy",
            GenreType::ScienceFiction => "science_fiction",
            GenreType::Horror => "horror",
            GenreType::Historical => "historical",
            GenreType::Contemporary => "contemporary",
            GenreType::YoungAdult => "young_adult",
            GenreType::MiddleGrade => "middle_grade",
            GenreType::Memoir => "memoir",
            GenreType::Western => "western",
            GenreType::Gothic => "gothic",
            GenreType::Comedy => "comedy",
            GenreType::Tragedy => "tragedy",
            GenreType::Satire => "satire",
        }
    }

    fn from_name(s: &str) -> (r: Option<Self>) {
        let r = if str_eq(s, "romance") {
            Some(GenreType::Romance)
        } else if str_eq(s, "literary") {
            Some(GenreType::Literary)
        } else if str_eq(s, "thriller") {
            Some(GenreType::Thriller)
        } else if str_eq(s, "mystery") {
            Some(GenreType::Mystery)
        } else if str_eq(s, "fantasy") {
            Some(GenreType::Fantasy)
        } else if str_eq(s, "science_fiction") {
            Some(GenreType::ScienceFiction)
        } else if str_eq(s, "horror") {
            Some(GenreType::Horror)
        } else if str_eq(s, "historical") {
            Some(GenreType::Historical)
        } else if str_eq(s, "contemporary") {
            Some(GenreType::Contemporary)
        } else if str_eq(s, "young_adult") {
            Some(GenreType::YoungAdult)
        } else if str_eq(s, "middle_grade") {
            Some(GenreType::MiddleGrade)
        } else if str_eq(s, "memoir") {
            Some(GenreType::Memoir)
        } else if str_eq(s, "western") {
            Some(GenreType::Western)
        } else if str_eq(s, "gothic") {
            Some(GenreType::Gothic)
        } else if str_eq(s, "comedy") {
            Some(GenreType::Comedy)
        } else if str_eq(s, "tragedy") {
            Some(GenreType::Tragedy)
        } else if str_eq(s, "satire") {
            Some(GenreType::Satire)
        } else {
            None
        };
        r
    }

    proof fn lemma_name_injective(a: Self, b: Self) {
        reveal_strlit("romance");
        reveal_strlit("literary");
        reveal_strlit("thriller");
        reveal_strlit("mystery");
        reveal_strlit("fantasy");
        reveal_strlit("science_fiction");
        reveal_strlit("horror");
        reveal_strlit("historical");
        reveal_strlit("contemporary");
        reveal_strlit("young_adult");
        reveal_strlit("middle_grade");
        reveal_strlit("memoir");
        reveal_strlit("western");
        reveal_strlit("gothic");
        reveal_strlit("comedy");
        reveal_strlit("tragedy");
        reveal_strlit("satire");
        assert("romance"@.len() == 7 && "romance"@[0] == 'r');
        assert("literary"@.len() == 8 && "literary"@[0] == 'l');
        assert("thriller"@.len() == 8 && "thriller"@[0] == 't');
        assert("mystery"@.len() == 7 && "mystery"@[0] == 'm');
        assert("fantasy"@.len() == 7 && "fantasy"@[0] == 'f');
        assert("science_fiction"@.len() == 15);
        assert("horror"@.len() == 6 && "horror"@[0] == 'h');
        assert("historical"@.len() == 10);
        assert("contemporary"@.len() == 12 && "contemporary"@[0] == 'c');
        assert("young_adult"@.len() == 11);
        assert("middle_grade"@.len() == 12 && "middle_grade"@[0] == 'm');
        assert("memoir"@.len() == 6 && "memoir"@[0] == 'm');
        assert("western"@.len() == 7 && "western"@[0] == 'w');
        assert("gothic"@.len() == 6 && "gothic"@[0] == 'g');
        assert("comedy"@.len() == 6 && "comedy"@[0] == 'c');
        assert("tragedy"@.len() == 7 && "tragedy"@[0] == 't');
        assert("satire"@.len() == 6 && "satire"@[0] == 's');
    }
}

#[derive(Debug, Clone, Copy, PartialEq, Eq, Hash, Structural)]
pub enum CollisionPattern {
    RivalCirclesEqual,
    ClassCrossing,
    InsiderOutsider,
    ForbiddenProximity,
    ForcedProximity,
    SameCircleDisruption,
    InstitutionalHierarchy,
    PerformanceForAudience,
    InstitutionalMerger,
    ReturningInsider,
    TemperamentCollision,
    TriangulatedCircles,
    HiddenWorld,
    CompetitiveArena,
    GenerationalDivide,
    InvestigatorEntersClosedWorld,
    SealedCommunity,
    LoneFigureVsInstitution,
    UnderworldOverworld,
    CatAndMouseCircles,
    Infiltration,
    CivilianEntersInstitutional,
    WhistleblowerVsInstitution,
    FugitiveAndPursuers,
    HostageBoundary,
    PsychologicalBoundary,
    FellowshipVsDarkPower,
    WorldCrossingLiteral,
    CommonerEntersPowerStructure,
    CourtFactions,
}

impl SnakeName for CollisionPattern {
    open spec fn spec_name(self) -> Seq<char> {
        match self {
            CollisionPattern::RivalCirclesEqual => "rival_circles_equal"@,
            CollisionPattern::ClassCrossing => "class_crossing"@,
            CollisionPattern::InsiderOutsider => "insider_outsider"@,
            CollisionPattern::ForbiddenProximity => "forbidden_proximity"@,
            CollisionPattern::ForcedProximity => "forced_proximity"@,
            CollisionPattern::SameCircleDisruption => "same_circle_disruption"@,
            CollisionPattern::InstitutionalHierarchy => "institutional_hierarchy"@,
            CollisionPattern::PerformanceForAudience => "performance_for_audience"@,
            CollisionPattern::InstitutionalMerger => "institutional_merger"@,
            CollisionPattern::ReturningInsider => "returning_insider"@,
            CollisionPattern::TemperamentCollision => "temperament_collision"@,
            CollisionPattern::TriangulatedCircles => "triangulated_circles"@,
            CollisionPattern::HiddenWorld => "hidden_world"@,
            CollisionPattern::CompetitiveArena => "competitive_arena"@,
            CollisionPattern::GenerationalDivide => "generational_divide"@,
            CollisionPattern::InvestigatorEntersClosedWorld => "investigator_enters_closed_world"@,
            CollisionPattern::SealedCommunity => "sealed_community"@,
            CollisionPattern::LoneFigureVsInstitution => "lone_figure_vs_institution"@,
            CollisionPattern::UnderworldOverworld => "underworld_overworld"@,
            CollisionPattern::CatAndMouseCircles => "cat_and_mouse_circles"@,
            CollisionPattern::Infiltration => "infiltration"@,
            CollisionPattern::CivilianEntersInstitutional => "civilian_enters_institutional"@,
            CollisionPattern::WhistleblowerVsInstitution => "whistleblower_vs_institution"@,
            CollisionPattern::FugitiveAndPursuers => "fugitive_and_pursuers"@,
            CollisionPattern::HostageBoundary => "hostage_boundary"@,
            CollisionPattern::PsychologicalBoundary => "psychological_boundary"@,
            CollisionPattern::FellowshipVsDarkPower => "fellowship_vs_dark_power"@,
            CollisionPattern::WorldCrossingLiteral => "world_crossing_literal"@,
            CollisionPattern::CommonerEntersPowerStructure => "commoner_enters_power_structure"@,
            CollisionPattern::CourtFactions => "court_factions"@,
        }
    }

    fn name(&self) -> (r: &'static str) {
        match self {
            CollisionPattern::RivalCirclesEqual => "rival_circles_equal",
            CollisionPattern::ClassCrossing => "class_crossing",
            CollisionPattern::InsiderOutsider => "insider_outsider",
            CollisionPattern::ForbiddenProximity => "forbidden_proximity",
            CollisionPattern::ForcedProximity => "forced_proximity",
            CollisionPattern::SameCircleDisruption => "same_circle_disruption",
            CollisionPattern::InstitutionalHierarchy => "institutional_hierarchy",
            CollisionPattern::PerformanceForAudience => "performance_for_audience",
            CollisionPattern::InstitutionalMerger => "institutional_merger",
            CollisionPattern::ReturningInsider => "returning_insider",
            CollisionPattern::TemperamentCollision => "temperament_collision",
            CollisionPattern::TriangulatedCircles => "triangulated_circles",
            CollisionPattern::HiddenWorld => "hidden_world",
            CollisionPattern::CompetitiveArena => "competitive_arena",
            CollisionPattern::GenerationalDivide => "generational_divide",
            CollisionPattern::InvestigatorEntersClosedWorld => "investigator_enters_closed_world",
            CollisionPattern::SealedCommunity => "sealed_community",
            CollisionPattern::LoneFigureVsInstitution => "lone_figure_vs_institution",
            CollisionPattern::UnderworldOverworld => "underworld_overworld",
            CollisionPattern::CatAndMouseCircles => "cat_and_mouse_circles",
            CollisionPattern::Infiltration => "infiltration",
            CollisionPattern::CivilianEntersInstitutional => "civilian_enters_institutional",
            CollisionPattern::WhistleblowerVsInstitution => "whistleblower_vs_institution",
            CollisionPattern::FugitiveAndPursuers => "fugitive_and_pursuers",
            CollisionPattern::HostageBoundary => "hostage_boundary",
            CollisionPattern::PsychologicalBoundary => "psychological_boundary",
            CollisionPattern::FellowshipVsDarkPower => "fellowship_vs_dark_power",
            CollisionPattern::WorldCrossingLiteral => "world_crossing_literal",
            CollisionPattern::CommonerEntersPowerStructure => "commoner_enters_power_structure",
            CollisionPattern::CourtFactions => "court_factions",
        }
    }

    fn from_name(s: &str) -> (r: Option<Self>) {
        let r = if str_eq(s, "rival_circles_equal") {
            Some(CollisionPattern::RivalCirclesEqual)
        } else if str_eq(s, "class_crossing") {
            Some(CollisionPattern::ClassCrossing)
        } else if str_eq(s, "insider_outsider") {
            Some(CollisionPattern::InsiderOutsider)
        } else if str_eq(s, "forbidden_proximity") {
            Some(CollisionPattern::ForbiddenProximity)
        } else if str_eq(s, "forced_proximity") {
            Some(CollisionPattern::ForcedProximity)
        } else if str_eq(s, "same_circle_disruption") {
            Some(CollisionPattern::SameCircleDisruption)
        } else if str_eq(s, "institutional_hierarchy") {
            Some(CollisionPattern::InstitutionalHierarchy)
        } else if str_eq(s, "performance_for_audience") {
            Some(CollisionPattern::PerformanceForAudience)
        } else if str_eq(s, "institutional_merger") {
            Some(CollisionPattern::InstitutionalMerger)
        } else if str_eq(s, "returning_insider") {
            Some(CollisionPattern::ReturningInsider)
        } else if str_eq(s, "temperament_collision") {
            Some(CollisionPattern::TemperamentCollision)
        } else if str_eq(s, "triangulated_circles") {
            Some(CollisionPattern::TriangulatedCircles)
        } else if str_eq(s, "hidden_world") {
            Some(CollisionPattern::HiddenWorld)
        } else if str_eq(s, "competitive_arena") {
            Some(CollisionPattern::CompetitiveArena)
        } else if str_eq(s, "generational_divide") {
            Some(CollisionPattern::GenerationalDivide)
        } else if str_eq(s, "investigator_enters_closed_world") {
            Some(CollisionPattern::InvestigatorEntersClosedWorld)
        } else if str_eq(s, "sealed_community") {
            Some(CollisionPattern::SealedCommunity)
        } else if str_eq(s, "lone_figure_vs_institution") {
            Some(CollisionPattern::LoneFigureVsInstitution)
        } else if str_eq(s, "underworld_overworld") {
            Some(CollisionPattern::UnderworldOverworld)
        } else if str_eq(s, "cat_and_mouse_circles") {
            Some(CollisionPattern::CatAndMouseCircles)
        } else if str_eq(s, "infiltration") {
            Some(CollisionPattern::Infiltration)
        } else if str_eq(s, "civilian_enters_institutional") {
            Some(CollisionPattern::CivilianEntersInstitutional)
        } else if str_eq(s, "whistleblower_vs_institution") {
            Some(CollisionPattern::WhistleblowerVsInstitution)
        } else if str_eq(s, "fugitive_and_pursuers") {
            Some(CollisionPattern::FugitiveAndPursuers)
        } else if str_eq(s, "hostage_boundary") {
            Some(CollisionPattern::HostageBoundary)
        } else if str_eq(s, "psychological_boundary") {
            Some(CollisionPattern::PsychologicalBoundary)
        } else if str_eq(s, "fellowship_vs_dark_power") {
            Some(CollisionPattern::FellowshipVsDarkPower)
        } else if str_eq(s, "world_crossing_literal") {
            Some(CollisionPattern::WorldCrossingLiteral)
        } else if str_eq(s, "commoner_enters_power_structure") {
            Some(CollisionPattern::CommonerEntersPowerStructure)
        } else if str_eq(s, "court_factions") {
            Some(CollisionPattern::CourtFactions)
        } else {
            None
        };
        r
    }

    #[verifier::rlimit(50)]
    proof fn lemma_name_injective(a: Self, b: Self) {
        reveal_strlit("rival_circles_equal");
        reveal_strlit("class_crossing");
        reveal_strlit("insider_outsider");
        reveal_strlit("forbidden_proximity");
        reveal_strlit("forced_proximity");
        reveal_strlit("same_circle_disruption");
        reveal_strlit("institutional_hierarchy");
        reveal_strlit("performance_for_audience");
        reveal_strlit("institutional_merger");
        reveal_strlit("returning_insider");
        reveal_strlit("temperament_collision");
        reveal_strlit("triangulated_circles");
        reveal_strlit("hidden_world");
        reveal_strlit("competitive_arena");
        reveal_strlit("generational_divide");
        reveal_strlit("investigator_enters_closed_world");
        reveal_strlit("sealed_community");
        reveal_strlit("lone_figure_vs_institution");
        reveal_strlit("underworld_overworld");
        reveal_strlit("cat_and_mouse_circles");
        reveal_strlit("infiltration");
        reveal_strlit("civilian_enters_institutional");
        reveal_strlit("whistleblower_vs_institution");
        reveal_strlit("fugitive_and_pursuers");
        reveal_strlit("hostage_boundary");
        reveal_strlit("psychological_boundary");
        reveal_strlit("fellowship_vs_dark_power");
        reveal_strlit("world_crossing_literal");
        reveal_strlit("commoner_enters_power_structure");
        reveal_strlit("court_factions");
        assert("rival_circles_equal"@.len() == 19 && "rival_circles_equal"@[0] == 'r');
        assert("class_crossing"@.len() == 14 && "class_crossing"@[1] == 'l');
        assert("insider_outsider"@.len() == 16 && "insider_outsider"@[0] == 'i');
        assert("forbidden_proximity"@.len() == 19 && "forbidden_proximity"@[0] == 'f');
        assert("forced_proximity"@.len() == 16 && "forced_proximity"@[0] == 'f');
        assert("same_circle_disruption"@.len() == 22 && "same_circle_disruption"@[0] == 's');
        assert("institutional_hierarchy"@.len() == 23);
        assert("performance_for_audience"@.len() == 24 && "performance_for_audience"@[0] == 'p');
        assert("institutional_merger"@.len() == 20 && "institutional_merger"@[0] == 'i');
        assert("returning_insider"@.len() == 17 && "returning_insider"@[0] == 'r');
        assert("temperament_collision"@.len() == 21 && "temperament_collision"@[0] == 't');
        assert("triangulated_circles"@.len() == 20 && "triangulated_circles"@[0] == 't');
        assert("hidden_world"@.len() == 12 && "hidden_world"@[0] == 'h');
        assert("competitive_arena"@.len() == 17 && "competitive_arena"@[0] == 'c');
        assert("generational_divide"@.len() == 19 && "generational_divide"@[0] == 'g');
        assert("investigator_enters_closed_world"@.len() == 32);
        assert("sealed_community"@.len() == 16 && "sealed_community"@[0] == 's');
        assert("lone_figure_vs_institution"@.len() == 26);
        assert("underworld_overworld"@.len() == 20 && "underworld_overworld"@[0] == 'u');
        assert("cat_and_mouse_circles"@.len() == 21 && "cat_and_mouse_circles"@[0] == 'c');
        assert("infiltration"@.len() == 12 && "infiltration"@[0] == 'i');
        assert("civilian_enters_institutional"@.len() == 29);
        assert("whistleblower_vs_institution"@.len() == 28);
        assert("fugitive_and_pursuers"@.len() == 21 && "fugitive_and_pursuers"@[0] == 'f');
        assert("hostage_boundary"@.len() == 16 && "hostage_boundary"@[0] == 'h');
        assert("psychological_boundary"@.len() == 22 && "psychological_boundary"@[0] == 'p');
        assert("fellowship_vs_dark_power"@.len() == 24 && "fellowship_vs_dark_power"@[0] == 'f');
        assert("world_crossing_literal"@.len() == 22 && "world_crossing_literal"@[0] == 'w');
        assert("commoner_enters_power_structure"@.len() == 31);
        assert("court_factions"@.len() == 14 && "court_factions"@[1] == 'o');
    }
}

#[derive(Debug, Clone, Copy, PartialEq, Eq, Hash, Structural)]
pub enum CollisionType {
    WorldCrossing,
    PowerAsymmetry,
    ResourceCompetition,
    LoyaltyConflict,
    ValueClash,
    IdentityThreat,
    ForcedAlliance,
}

impl SnakeName for CollisionType {
    open spec fn spec_name(self) -> Seq<char> {
        match self {
            CollisionType::WorldCrossing => "world_crossing"@,
            CollisionType::PowerAsymmetry => "power_asymmetry"@,
            CollisionType::ResourceCompetition => "resource_competition"@,
            CollisionType::LoyaltyConflict => "loyalty_conflict"@,
            CollisionType::ValueClash => "value_clash"@,
            CollisionType::IdentityThreat => "identity_threat"@,
            CollisionType::ForcedAlliance => "forced_alliance"@,
        }
    }

    fn name(&self) -> (r: &'static str) {
        match self {
            CollisionType::WorldCrossing => "world_crossing",
            CollisionType::PowerAsymmetry => "power_asymmetry",
            CollisionType::ResourceCompetition => "resource_competition",
            CollisionType::LoyaltyConflict => "loyalty_conflict",
            CollisionType::ValueClash => "value_clash",
            CollisionType::IdentityThreat => "identity_threat",
            CollisionType::ForcedAlliance => "forced_alliance",
        }
    }

    fn from_name(s: &str) -> (r: Option<Self>) {
        let r = if str_eq(s, "world_crossing") {
            Some(CollisionType::WorldCrossing)
        } else if str_eq(s, "power_asymmetry") {
            Some(CollisionType::PowerAsymmetry)
        } else if str_eq(s, "resource_competition") {
            Some(CollisionType::ResourceCompetition)
        } else if str_eq(s, "loyalty_conflict") {
            Some(CollisionType::LoyaltyConflict)
        } else if str_eq(s, "value_clash") {
            Some(CollisionType::ValueClash)
        } else if str_eq(s, "identity_threat") {
            Some(CollisionType::IdentityThreat)
        } else if str_eq(s, "forced_alliance") {
            Some(CollisionType::ForcedAlliance)
        } else {
            None
        };
        r
    }

    proof fn lemma_name_injective(a: Self, b: Self) {
        reveal_strlit("world_crossing");
        reveal_strlit("power_asymmetry");
        reveal_strlit("resource_competition");
        reveal_strlit("loyalty_conflict");
        reveal_strlit("value_clash");
        reveal_strlit("identity_threat");
        reveal_strlit("forced_alliance");
        assert("world_crossing"@.len() == 14);
        assert("power_asymmetry"@.len() == 15 && "power_asymmetry"@[0] == 'p');
        assert("resource_competition"@.len() == 20);
        assert("loyalty_conflict"@.len() == 16);
        assert("value_clash"@.len() == 11);
        assert("identity_threat"@.len() == 15 && "identity_threat"@[0] == 'i');
        assert("forced_alliance"@.len() == 15 && "forced_alliance"@[0] == 'f');
    }
}

#[derive(Debug, Clone, Copy, PartialEq, Eq, Hash, Structural)]
pub enum IncitingIncidentType {
    StrangerArrives,
    ProtagonistDisplaced,
    ReturnOfThePast,
    ForcedDeparture,
    AssignedTogether,
    ArrangementProposed,
    StrandedOrTrapped,
    DiscoveryRevelation,
    InheritanceBequest,
    ChallengeIssued,
    CrimeWitnessed,
    WrongAccused,
    LossOrDeath,
    BetrayalDiscovered,
    SecretExposed,
    OpportunityOffered,
    ThresholdCrossed,
    CallRefusedThenForced,
}

impl SnakeName for IncitingIncidentType {
    open spec fn spec_name(self) -> Seq<char> {
        match self {
            IncitingIncidentType::StrangerArrives => "stranger_arrives"@,
            IncitingIncidentType::ProtagonistDisplaced => "protagonist_displaced"@,
            IncitingIncidentType::ReturnOfThePast => "return_of_the_past"@,
            IncitingIncidentType::ForcedDeparture => "forced_departure"@,
            IncitingIncidentType::AssignedTogether => "assigned_together"@,
            IncitingIncidentType::ArrangementProposed => "arrangement_proposed"@,
            IncitingIncidentType::StrandedOrTrapped => "stranded_or_trapped"@,
            IncitingIncidentType::DiscoveryRevelation => "discovery_revelation"@,
            IncitingIncidentType::InheritanceBequest => "inheritance_bequest"@,
            IncitingIncidentType::ChallengeIssued => "challenge_issued"@,
            IncitingIncidentType::CrimeWitnessed => "crime_witnessed"@,
            IncitingIncidentType::WrongAccused => "wrong_accused"@,
            IncitingIncidentType::LossOrDeath => "loss_or_death"@,
            IncitingIncidentType::BetrayalDiscovered => "betrayal_discovered"@,
            IncitingIncidentType::SecretExposed => "secret_exposed"@,
            IncitingIncidentType::OpportunityOffered => "opportunity_offered"@,
            IncitingIncidentType::ThresholdCrossed => "threshold_crossed"@,
            IncitingIncidentType::CallRefusedThenForced => "call_refused_then_forced"@,
        }
    }

    fn name(&self) -> (r: &'static str) {
        match self {
            IncitingIncidentType::StrangerArrives => "stranger_arrives",
            IncitingIncidentType::ProtagonistDisplaced => "protagonist_displaced",
            IncitingIncidentType::ReturnOfThePast => "return_of_the_past",
            IncitingIncidentType::ForcedDeparture => "forced_departure",
            IncitingIncidentType::AssignedTogether => "assigned_together",
            IncitingIncidentType::ArrangementProposed => "arrangement_proposed",
            IncitingIncidentType::StrandedOrTrapped => "stranded_or_trapped",
            IncitingIncidentType::DiscoveryRevelation => "discovery_revelation",
            IncitingIncidentType::InheritanceBequest => "inheritance_bequest",
            IncitingIncidentType::ChallengeIssued => "challenge_issued",
            IncitingIncidentType::CrimeWitnessed => "crime_witnessed",
            IncitingIncidentType::WrongAccused => "wrong_accused",
            IncitingIncidentType::LossOrDeath => "loss_or_death",
            IncitingIncidentType::BetrayalDiscovered => "betrayal_discovered",
            IncitingIncidentType::SecretExposed => "secret_exposed",
            IncitingIncidentType::OpportunityOffered => "opportunity_offered",
            IncitingIncidentType::ThresholdCrossed => "threshold_crossed",
            IncitingIncidentType::CallRefusedThenForced => "call_refused_then_forced",
        }
    }

    fn from_name(s: &str) -> (r: Option<Self>) {
        let r = if str_eq(s, "stranger_arrives") {
            Some(IncitingIncidentType::StrangerArrives)
        } else if str_eq(s, "protagonist_displaced") {
            Some(IncitingIncidentType::ProtagonistDisplaced)
        } else if str_eq(s, "return_of_the_past") {
            Some(IncitingIncidentType::ReturnOfThePast)
        } else if str_eq(s, "forced_departure") {
            Some(IncitingIncidentType::ForcedDeparture)
        } else if str_eq(s, "assigned_together") {
            Some(IncitingIncidentType::AssignedTogether)
        } else if str_eq(s, "arrangement_proposed") {
            Some(IncitingIncidentType::ArrangementProposed)
        } else if str_eq(s, "stranded_or_trapped") {
            Some(IncitingIncidentType::StrandedOrTrapped)
        } else if str_eq(s, "discovery_revelation") {
            Some(IncitingIncidentType::DiscoveryRevelation)
        } else if str_eq(s, "inheritance_bequest") {
            Some(IncitingIncidentType::InheritanceBequest)
        } else if str_eq(s, "challenge_issued") {
            Some(IncitingIncidentType::ChallengeIssued)
        } else if str_eq(s, "crime_witnessed") {
            Some(IncitingIncidentType::CrimeWitnessed)
        } else if str_eq(s, "wrong_accused") {
            Some(IncitingIncidentType::WrongAccused)
        } else if str_eq(s, "loss_or_death") {
            Some(IncitingIncidentType::LossOrDeath)
        } else if str_eq(s, "betrayal_discovered") {
            Some(IncitingIncidentType::BetrayalDiscovered)
        } else if str_eq(s, "secret_exposed") {
            Some(IncitingIncidentType::SecretExposed)
        } else if str_eq(s, "opportunity_offered") {
            Some(IncitingIncidentType::OpportunityOffered)
        } else if str_eq(s, "threshold_crossed") {
            Some(IncitingIncidentType::ThresholdCrossed)
        } else if str_eq(s, "call_refused_then_forced") {
            Some(IncitingIncidentType::CallRefusedThenForced)
        } else {
            None
        };
        r
    }

    proof fn lemma_name_injective(a: Self, b: Self) {
        reveal_strlit("stranger_arrives");
        reveal_strlit("protagonist_displaced");
        reveal_strlit("return_of_the_past");
        reveal_strlit("forced_departure");
        reveal_strlit("assigned_together");
        reveal_strlit("arrangement_proposed");
        reveal_strlit("stranded_or_trapped");
        reveal_strlit("discovery_revelation");
        reveal_strlit("inheritance_bequest");
        reveal_strlit("challenge_issued");
        reveal_strlit("crime_witnessed");
        reveal_strlit("wrong_accused");
        reveal_strlit("loss_or_death");
        reveal_strlit("betrayal_discovered");
        reveal_strlit("secret_exposed");
        reveal_strlit("opportunity_offered");
        reveal_strlit("threshold_crossed");
        reveal_strlit("call_refused_then_forced");
        assert("stranger_arrives"@.len() == 16 && "stranger_arrives"@[0] == 's');
        assert("protagonist_displaced"@.len() == 21);
        assert("return_of_the_past"@.len() == 18);
        assert("forced_departure"@.len() == 16 && "forced_departure"@[0] == 'f');
        assert("assigned_together"@.len() == 17 && "assigned_together"@[0] == 'a');
        assert("arrangement_proposed"@.len() == 20 && "arrangement_proposed"@[0] == 'a');
        assert("stranded_or_trapped"@.len() == 19 && "stranded_or_trapped"@[0] == 's');
        assert("discovery_revelation"@.len() == 20 && "discovery_revelation"@[0] == 'd');
        assert("inheritance_bequest"@.len() == 19 && "inheritance_bequest"@[0] == 'i');
        assert("challenge_issued"@.len() == 16 && "challenge_issued"@[0] == 'c');
        assert("crime_witnessed"@.len() == 15);
        assert("wrong_accused"@.len() == 13 && "wrong_accused"@[0] == 'w');
        assert("loss_or_death"@.len() == 13 && "loss_or_death"@[0] == 'l');
        assert("betrayal_discovered"@.len() == 19 && "betrayal_discovered"@[0] == 'b');
        assert("secret_exposed"@.len() == 14);
        assert("opportunity_offered"@.len() == 19 && "opportunity_offered"@[0] == 'o');
        assert("threshold_crossed"@.len() == 17 && "threshold_crossed"@[0] == 't');
        assert("call_refused_then_forced"@.len() == 24);
    }
}

#[derive(Debug, Clone, Copy, PartialEq, Eq, Hash, Structural)]
pub enum AntagonistType {
    Character,
    Institutional,
    Natural,
    Internal,
    Societal,
    Cosmic,
    Layered,
}

impl SnakeName for AntagonistType {
    open spec fn spec_name(self) -> Seq<char> {
        match self {
            AntagonistType::Character => "character"@,
            AntagonistType::Institutional => "institutional"@,
            AntagonistType::Natural => "natural"@,
            AntagonistType::Internal => "internal"@,
            AntagonistType::Societal => "societal"@,
            AntagonistType::Cosmic => "cosmic"@,
            AntagonistType::Layered => "layered"@,
        }
    }

    fn name(&self) -> (r: &'static str) {
        match self {
            AntagonistType::Character => "character",
            AntagonistType::Institutional => "institutional",
            AntagonistType::Natural => "natural",
            AntagonistType::Internal => "internal",
            AntagonistType::Societal => "societal",
            AntagonistType::Cosmic => "cosmic",
            AntagonistType::Layered => "layered",
        }
    }

    fn from_name(s: &str) -> (r: Option<Self>) {
        let r = if str_eq(s, "character") {
            Some(AntagonistType::Character)
        } else if str_eq(s, "institutional") {
            Some(AntagonistType::Institutional)
        } else if str_eq(s, "natural") {
            Some(AntagonistType::Natural)
        } else if str_eq(s, "internal") {
            Some(AntagonistType::Internal)
        } else if str_eq(s, "societal") {
            Some(AntagonistType::Societal)
        } else if str_eq(s, "cosmic") {
            Some(AntagonistType::Cosmic)
        } else if str_eq(s, "layered") {
            Some(AntagonistType::Layered)
        } else {
            None
        };
        r
    }

    proof fn lemma_name_injective(a: Self, b: Self) {
        reveal_strlit("character");
        reveal_strlit("institutional");
        reveal_strlit("natural");
        reveal_strlit("internal");
        reveal_strlit("societal");
        reveal_strlit("cosmic");
        reveal_strlit("layered");
        assert("character"@.len() == 9);
        assert("institutional"@.len() == 13);
        assert("natural"@.len() == 7 && "natural"@[0] == 'n');
        assert("internal"@.len() == 8 && "internal"@[0] == 'i');
        assert("societal"@.len() == 8 && "societal"@[0] == 's');
        assert("cosmic"@.len() == 6);
        assert("layered"@.len() == 7 && "layered"@[0] == 'l');
    }
}

#[derive(Debug, Clone, Copy, PartialEq, Eq, Hash, Structural)]
pub enum AntagonistArcType {
    FlatEvil,
    TragicDescent,
    Revelation,
    Redemption,
    Parallel,
    Escalation,
}

impl SnakeName for AntagonistArcType {
    open spec fn spec_name(self) -> Seq<char> {
        match self {
            AntagonistArcType::FlatEvil => "flat_evil"@,
            AntagonistArcType::TragicDescent => "tragic_descent"@,
            AntagonistArcType::Revelation => "revelation"@,
            AntagonistArcType::Redemption => "redemption"@,
            AntagonistArcType::Parallel => "parallel"@,
            AntagonistArcType::Escalation => "escalation"@,
        }
    }

    fn name(&self) -> (r: &'static str) {
        match self {
            AntagonistArcType::FlatEvil => "flat_evil",
            AntagonistArcType::TragicDescent => "tragic_descent",
            AntagonistArcType::Revelation => "revelation",
            AntagonistArcType::Redemption => "redemption",
            AntagonistArcType::Parallel => "parallel",
            AntagonistArcType::Escalation => "escalation",
        }
    }

    fn from_name(s: &str) -> (r: Option<Self>) {
        let r = if str_eq(s, "flat_evil") {
            Some(AntagonistArcType::FlatEvil)
        } else if str_eq(s, "tragic_descent") {
            Some(AntagonistArcType::TragicDescent)
        } else if str_eq(s, "revelation") {
            Some(AntagonistArcType::Revelation)
        } else if str_eq(s, "redemption") {
            Some(AntagonistArcType::Redemption)
        } else if str_eq(s, "parallel") {
            Some(AntagonistArcType::Parallel)
        } else if str_eq(s, "escalation") {
            Some(AntagonistArcType::Escalation)
        } else {
            None
        };
        r
    }

    proof fn lemma_name_injective(a: Self, b: Self) {
        reveal_strlit("flat_evil");
        reveal_strlit("tragic_descent");
        reveal_strlit("revelation");
        reveal_strlit("redemption");
        reveal_strlit("parallel");
        reveal_strlit("escalation");
        assert("flat_evil"@.len() == 9);
        assert("tragic_descent"@.len() == 14);
        assert("revelation"@.len() == 10 && "revelation"@[0] == 'r' && "revelation"@[2] == 'v');
        assert("redemption"@.len() == 10 && "redemption"@[0] == 'r' && "redemption"@[2] == 'd');
        assert("parallel"@.len() == 8);
        assert("escalation"@.len() == 10 && "escalation"@[0] == 'e');
    }
}

#[derive(Debug, Clone, Copy, PartialEq, Eq, Hash, Structural)]
pub enum OppositionLevel {
    Physical,
    Intellectual,
    Emotional,
    Moral,
    Thematic,
}

impl SnakeName for OppositionLevel {
    open spec fn spec_name(self) -> Seq<char> {
        match self {
            OppositionLevel::Physical => "physical"@,
            OppositionLevel::Intellectual => "intellectual"@,
            OppositionLevel::Emotional => "emotional"@,
            OppositionLevel::Moral => "moral"@,
            OppositionLevel::Thematic => "thematic"@,
        }
    }

    fn name(&self) -> (r: &'static str) {
        match self {
            OppositionLevel::Physical => "physical",
            OppositionLevel::Intellectual => "intellectual",
            OppositionLevel::Emotional => "emotional",
            OppositionLevel::Moral => "moral",
            OppositionLevel::Thematic => "thematic",
        }
    }

    fn from_name(s: &str) -> (r: Option<Self>) {
        let r = if str_eq(s, "physical") {
            Some(OppositionLevel::Physical)
        } else if str_eq(s, "intellectual") {
            Some(OppositionLevel::Intellectual)
        } else if str_eq(s, "emotional") {
            Some(OppositionLevel::Emotional)
        } else if str_eq(s, "moral") {
            Some(OppositionLevel::Moral)
        } else if str_eq(s, "thematic") {
            Some(OppositionLevel::Thematic)
        } else {
            None
        };
        r
    }

    proof fn lemma_name_injective(a: Self, b: Self) {
        reveal_strlit("physical");
        reveal_strlit("intellectual");
        reveal_strlit("emotional");
        reveal_strlit("moral");
        reveal_strlit("thematic");
        assert("physical"@.len() == 8 && "physical"@[0] == 'p');
        assert("intellectual"@.len() == 12);
        assert("emotional"@.len() == 9);
        assert("moral"@.len() == 5);
        assert("thematic"@.len() == 8 && "thematic"@[0] == 't');
    }
}

#[derive(Debug, Clone, Copy, PartialEq, Eq, Hash, Structural)]
pub enum BoundaryType {
    Physical,
    Social,
    Institutional,
    Psychological,
    Temporal,
    Ontological,
}

impl SnakeName for BoundaryType {
    open spec fn spec_name(self) -> Seq<char> {
        match self {
            BoundaryType::Physical => "physical"@,
            BoundaryType::Social => "social"@,
            BoundaryType::Institutional => "institutional"@,
            BoundaryType::Psychological => "psychological"@,
            BoundaryType::Temporal => "temporal"@,
            BoundaryType::Ontological => "ontological"@,
        }
    }

    fn name(&self) -> (r: &'static str) {
        match self {
            BoundaryType::Physical => "physical",
            BoundaryType::Social => "social",
            BoundaryType::Institutional => "institutional",
            BoundaryType::Psychological => "psychological",
            BoundaryType::Temporal => "temporal",
            BoundaryType::Ontological => "ontological",
        }
    }

    fn from_name(s: &str) -> (r: Option<Self>) {
        let r = if str_eq(s, "physical") {
            Some(BoundaryType::Physical)
        } else if str_eq(s, "social") {
            Some(BoundaryType::Social)
        } else if str_eq(s, "institutional") {
            Some(BoundaryType::Institutional)
        } else if str_eq(s, "psychological") {
            Some(BoundaryType::Psychological)
        } else if str_eq(s, "temporal") {
            Some(BoundaryType::Temporal)
        } else if str_eq(s, "ontological") {
            Some(BoundaryType::Ontological)
        } else {
            None
        };
        r
    }

    proof fn lemma_name_injective(a: Self, b: Self) {
        reveal_strlit("physical");
        reveal_strlit("social");
        reveal_strlit("institutional");
        reveal_strlit("psychological");
        reveal_strlit("temporal");
        reveal_strlit("ontological");
        assert("physical"@.len() == 8 && "physical"@[0] == 'p');
        assert("social"@.len() == 6);
        assert("institutional"@.len() == 13 && "institutional"@[0] == 'i');
        assert("psychological"@.len() == 13 && "psychological"@[0] == 'p');
        assert("temporal"@.len() == 8 && "temporal"@[0] == 't');
        assert("ontological"@.len() == 11);
    }
}

#[derive(Debug, Clone, Copy, PartialEq, Eq, Hash, Structural)]
pub enum SemanticZone {
    Safety,
    Danger,
    Past,
    Future,
    Known,
    Unknown,
    Power,
    Powerlessness,
    Freedom,
    Constraint,
    Sacred,
    Profane,
}

impl SnakeName for SemanticZone {
    open spec fn spec_name(self) -> Seq<char> {
        match self {
            SemanticZone::Safety => "safety"@,
            SemanticZone::Danger => "danger"@,
            SemanticZone::Past => "past"@,
            SemanticZone::Future => "future"@,
            SemanticZone::Known => "known"@,
            SemanticZone::Unknown => "unknown"@,
            SemanticZone::Power => "power"@,
            SemanticZone::Powerlessness => "powerlessness"@,
            SemanticZone::Freedom => "freedom"@,
            SemanticZone::Constraint => "constraint"@,
            SemanticZone::Sacred => "sacred"@,
            SemanticZone::Profane => "profane"@,
        }
    }

    fn name(&self) -> (r: &'static str) {
        match self {
            SemanticZone::Safety => "safety",
            SemanticZone::Danger => "danger",
            SemanticZone::Past => "past",
            SemanticZone::Future => "future",
            SemanticZone::Known => "known",
            SemanticZone::Unknown => "unknown",
            SemanticZone::Power => "power",
            SemanticZone::Powerlessness => "powerlessness",
            SemanticZone::Freedom => "freedom",
            SemanticZone::Constraint => "constraint",
            SemanticZone::Sacred => "sacred",
            SemanticZone::Profane => "profane",
        }
    }

    fn from_name(s: &str) -> (r: Option<Self>) {
        let r = if str_eq(s, "safety") {
            Some(SemanticZone::Safety)
        } else if str_eq(s, "danger") {
            Some(SemanticZone::Danger)
        } else if str_eq(s, "past") {
            Some(SemanticZone::Past)
        } else if str_eq(s, "future") {
            Some(SemanticZone::Future)
        } else if str_eq(s, "known") {
            Some(SemanticZone::Known)
        } else if str_eq(s, "unknown") {
            Some(SemanticZone::Unknown)
        } else if str_eq(s, "power") {
            Some(SemanticZone::Power)
        } else if str_eq(s, "powerlessness") {
            Some(SemanticZone::Powerlessness)
        } else if str_eq(s, "freedom") {
            Some(SemanticZone::Freedom)
        } else if str_eq(s, "constraint") {
            Some(SemanticZone::Constraint)
        } else if str_eq(s, "sacred") {
            Some(SemanticZone::Sacred)
        } else if str_eq(s, "profane") {
            Some(SemanticZone::Profane)
        } else {
            None
        };
        r
    }

    proof fn lemma_name_injective(a: Self, b: Self) {
        reveal_strlit("safety");
        reveal_strlit("danger");
        reveal_strlit("past");
        reveal_strlit("future");
        reveal_strlit("known");
        reveal_strlit("unknown");
        reveal_strlit("power");
        reveal_strlit("powerlessness");
        reveal_strlit("freedom");
        reveal_strlit("constraint");
        reveal_strlit("sacred");
        reveal_strlit("profane");
        assert("safety"@.len() == 6 && "safety"@[0] == 's' && "safety"@[2] == 'f');
        assert("danger"@.len() == 6 && "danger"@[0] == 'd');
        assert("past"@.len() == 4);
        assert("future"@.len() == 6 && "future"@[0] == 'f');
        assert("known"@.len() == 5 && "known"@[0] == 'k');
        assert("unknown"@.len() == 7 && "unknown"@[0] == 'u');
        assert("power"@.len() == 5 && "power"@[0] == 'p');
        assert("powerlessness"@.len() == 13);
        assert("freedom"@.len() == 7 && "freedom"@[0] == 'f');
        assert("constraint"@.len() == 10);
        assert("sacred"@.len() == 6 && "sacred"@[0] == 's' && "sacred"@[2] == 'c');
        assert("profane"@.len() == 7 && "profane"@[0] == 'p');
    }
}

#[derive(Debug, Clone, Copy, PartialEq, Eq, Hash, Structural)]
pub enum ChronotopeType {
    Road,
    ThresholdChronotope,
    Salon,
    Castle,
    ProvincialTown,
    Idyll,
    AdventureTime,
    EverydayTime,
    CrisisTime,
    BiographicalTime,
}

impl SnakeName for ChronotopeType {
    open spec fn spec_name(self) -> Seq<char> {
        match self {
            ChronotopeType::Road => "road"@,
            ChronotopeType::ThresholdChronotope => "threshold_chronotope"@,
            ChronotopeType::Salon => "salon"@,
            ChronotopeType::Castle => "castle"@,
            ChronotopeType::ProvincialTown => "provincial_town"@,
            ChronotopeType::Idyll => "idyll"@,
            ChronotopeType::AdventureTime => "adventure_time"@,
            ChronotopeType::EverydayTime => "everyday_time"@,
            ChronotopeType::CrisisTime => "crisis_time"@,
            ChronotopeType::BiographicalTime => "biographical_time"@,
        }
    }

    fn name(&self) -> (r: &'static str) {
        match self {
            ChronotopeType::Road => "road",
            ChronotopeType::ThresholdChronotope => "threshold_chronotope",
            ChronotopeType::Salon => "salon",
            ChronotopeType::Castle => "castle",
            ChronotopeType::ProvincialTown => "provincial_town",
            ChronotopeType::Idyll => "idyll",
            ChronotopeType::AdventureTime => "adventure_time",
            ChronotopeType::EverydayTime => "everyday_time",
            ChronotopeType::CrisisTime => "crisis_time",
            ChronotopeType::BiographicalTime => "biographical_time",
        }
    }

    fn from_name(s: &str) -> (r: Option<Self>) {
        let r = if str_eq(s, "road") {
            Some(ChronotopeType::Road)
        } else if str_eq(s, "threshold_chronotope") {
            Some(ChronotopeType::ThresholdChronotope)
        } else if str_eq(s, "salon") {
            Some(ChronotopeType::Salon)
        } else if str_eq(s, "castle") {
            Some(ChronotopeType::Castle)
        } else if str_eq(s, "provincial_town") {
            Some(ChronotopeType::ProvincialTown)
        } else if str_eq(s, "idyll") {
            Some(ChronotopeType::Idyll)
        } else if str_eq(s, "adventure_time") {
            Some(ChronotopeType::AdventureTime)
        } else if str_eq(s, "everyday_time") {
            Some(ChronotopeType::EverydayTime)
        } else if str_eq(s, "crisis_time") {
            Some(ChronotopeType::CrisisTime)
        } else if str_eq(s, "biographical_time") {
            Some(ChronotopeType::BiographicalTime)
        } else {
            None
        };
        r
    }

    proof fn lemma_name_injective(a: Self, b: Self) {
        reveal_strlit("road");
        reveal_strlit("threshold_chronotope");
        reveal_strlit("salon");
        reveal_strlit("castle");
        reveal_strlit("provincial_town");
        reveal_strlit("idyll");
        reveal_strlit("adventure_time");
        reveal_strlit("everyday_time");
        reveal_strlit("crisis_time");
        reveal_strlit("biographical_time");
        assert("road"@.len() == 4);
        assert("threshold_chronotope"@.len() == 20);
        assert("salon"@.len() == 5 && "salon"@[0] == 's');
        assert("castle"@.len() == 6);
        assert("provincial_town"@.len() == 15);
        assert("idyll"@.len() == 5 && "idyll"@[0] == 'i');
        assert("adventure_time"@.len() == 14);
        assert("everyday_time"@.len() == 13);
        assert("crisis_time"@.len() == 11);
        assert("biographical_time"@.len() == 17);
    }
}

#[derive(Debug, Clone, Copy, PartialEq, Eq, Hash, Structural)]
pub enum SpeechActCategory {
    Assertive,
    Directive,
    Commissive,
    Expressive,
    Declaration,
}

impl SnakeName for SpeechActCategory {
    open spec fn spec_name(self) -> Seq<char> {
        match self {
            SpeechActCategory::Assertive => "assertive"@,
            SpeechActCategory::Directive => "directive"@,
            SpeechActCategory::Commissive => "commissive"@,
            SpeechActCategory::Expressive => "expressive"@,
            SpeechActCategory::Declaration => "declaration"@,
        }
    }

    fn name(&self) -> (r: &'static str) {
        match self {
            SpeechActCategory::Assertive => "assertive",
            SpeechActCategory::Directive => "directive",
            SpeechActCategory::Commissive => "commissive",
            SpeechActCategory::Expressive => "expressive",
            SpeechActCategory::Declaration => "declaration",
        }
    }

    fn from_name(s: &str) -> (r: Option<Self>) {
        let r = if str_eq(s, "assertive") {
            Some(SpeechActCategory::Assertive)
        } else if str_eq(s, "directive") {
            Some(SpeechActCategory::Directive)
        } else if str_eq(s, "commissive") {
            Some(SpeechActCategory::Commissive)
        } else if str_eq(s, "expressive") {
            Some(SpeechActCategory::Expressive)
        } else if str_eq(s, "declaration") {
            Some(SpeechActCategory::Declaration)
        } else {
            None
        };
        r
    }

    proof fn lemma_name_injective(a: Self, b: Self) {
        reveal_strlit("assertive");
        reveal_strlit("directive");
        reveal_strlit("commissive");
        reveal_strlit("expressive");
        reveal_strlit("declaration");
        assert("assertive"@.len() == 9 && "assertive"@[0] == 'a');
        assert("directive"@.len() == 9 && "directive"@[0] == 'd');
        assert("commissive"@.len() == 10 && "commissive"@[0] == 'c');
        assert("expressive"@.len() == 10 && "expressive"@[0] == 'e');
        assert("declaration"@.len() == 11);
    }
}

#[derive(Debug, Clone, Copy, PartialEq, Eq, Hash, Structural)]
pub enum IllocutionaryForce {
    Assert,
    Claim,
    Report,
    Describe,
    Insist,
    Deny,
    Order,
    Command,
    Request,
    Ask,
    Beg,
    Plead,
    Invite,
    Suggest,
    Promise,
    Vow,
    Pledge,
    Threaten,
    Offer,
    Guarantee,
    Refuse,
    Thank,
    Apologize,
    Congratulate,
    Condole,
    Welcome,
    Deplore,
    Declare,
    Pronounce,
    Name,
    Appoint,
    Fire,
    Adjourn,
}

impl SnakeName for IllocutionaryForce {
    open spec fn spec_name(self) -> Seq<char> {
        match self {
            IllocutionaryForce::Assert => "assert"@,
            IllocutionaryForce::Claim => "claim"@,
            IllocutionaryForce::Report => "report"@,
            IllocutionaryForce::Describe => "describe"@,
            IllocutionaryForce::Insist => "insist"@,
            IllocutionaryForce::Deny => "deny"@,
            IllocutionaryForce::Order => "order"@,
            IllocutionaryForce::Command => "command"@,
            IllocutionaryForce::Request => "request"@,
            IllocutionaryForce::Ask => "ask"@,
            IllocutionaryForce::Beg => "beg"@,
            IllocutionaryForce::Plead => "plead"@,
            IllocutionaryForce::Invite => "invite"@,
            IllocutionaryForce::Suggest => "suggest"@,
            IllocutionaryForce::Promise => "promise"@,
            IllocutionaryForce::Vow => "vow"@,
            IllocutionaryForce::Pledge => "pledge"@,
            IllocutionaryForce::Threaten => "threaten"@,
            IllocutionaryForce::Offer => "offer"@,
            IllocutionaryForce::Guarantee => "guarantee"@,
            IllocutionaryForce::Refuse => "refuse"@,
            IllocutionaryForce::Thank => "thank"@,
            IllocutionaryForce::Apologize => "apologize"@,
            IllocutionaryForce::Congratulate => "congratulate"@,
            IllocutionaryForce::Condole => "condole"@,
            IllocutionaryForce::Welcome => "welcome"@,
            IllocutionaryForce::Deplore => "deplore"@,
            IllocutionaryForce::Declare => "declare"@,
            IllocutionaryForce::Pronounce => "pronounce"@,
            IllocutionaryForce::Name => "name"@,
            IllocutionaryForce::Appoint => "appoint"@,
            IllocutionaryForce::Fire => "fire"@,
            IllocutionaryForce::Adjourn => "adjourn"@,
        }
    }

    fn name(&self) -> (r: &'static str) {
        match self {
            IllocutionaryForce::Assert => "assert",
            IllocutionaryForce::Claim => "claim",
            IllocutionaryForce::Report => "report",
            IllocutionaryForce::Describe => "describe",
            IllocutionaryForce::Insist => "insist",
            IllocutionaryForce::Deny => "deny",
            IllocutionaryForce::Order => "order",
            IllocutionaryForce::Command => "command",
            IllocutionaryForce::Request => "request",
            IllocutionaryForce::Ask => "ask",
            IllocutionaryForce::Beg => "beg",
            IllocutionaryForce::Plead => "plead",
            IllocutionaryForce::Invite => "invite",
            IllocutionaryForce::Suggest => "suggest",
            IllocutionaryForce::Promise => "promise",
            IllocutionaryForce::Vow => "vow",
            IllocutionaryForce::Pledge => "pledge",
            IllocutionaryForce::Threaten => "threaten",
            IllocutionaryForce::Offer => "offer",
            IllocutionaryForce::Guarantee => "guarantee",
            IllocutionaryForce::Refuse => "refuse",
            IllocutionaryForce::Thank => "thank",
            IllocutionaryForce::Apologize => "apologize",
            IllocutionaryForce::Congratulate => "congratulate",
            IllocutionaryForce::Condole => "condole",
            IllocutionaryForce::Welcome => "welcome",
            IllocutionaryForce::Deplore => "deplore",
            IllocutionaryForce::Declare => "declare",
            IllocutionaryForce::Pronounce => "pronounce",
            IllocutionaryForce::Name => "name",
            IllocutionaryForce::Appoint => "appoint",
            IllocutionaryForce::Fire => "fire",
            IllocutionaryForce::Adjourn => "adjourn",
        }
    }

    fn from_name(s: &str) -> (r: Option<Self>) {
        let r = if str_eq(s, "assert") {
            Some(IllocutionaryForce::Assert)
        } else if str_eq(s, "claim") {
            Some(IllocutionaryForce::Claim)
        } else if str_eq(s, "report") {
            Some(IllocutionaryForce::Report)
        } else if str_eq(s, "describe") {
            Some(IllocutionaryForce::Describe)
        } else if str_eq(s, "insist") {
            Some(IllocutionaryForce::Insist)
        } else if str_eq(s, "deny") {
            Some(IllocutionaryForce::Deny)
        } else if str_eq(s, "order") {
            Some(IllocutionaryForce::Order)
        } else if str_eq(s, "command") {
            Some(IllocutionaryForce::Command)
        } else if str_eq(s, "request") {
            Some(IllocutionaryForce::Request)
        } else if str_eq(s, "ask") {
            Some(IllocutionaryForce::Ask)
        } else if str_eq(s, "beg") {
            Some(IllocutionaryForce::Beg)
        } else if str_eq(s, "plead") {
            Some(IllocutionaryForce::Plead)
        } else if str_eq(s, "invite") {
            Some(IllocutionaryForce::Invite)
        } else if str_eq(s, "suggest") {
            Some(IllocutionaryForce::Suggest)
        } else if str_eq(s, "promise") {
            Some(IllocutionaryForce::Promise)
        } else if str_eq(s, "vow") {
            Some(IllocutionaryForce::Vow)
        } else if str_eq(s, "pledge") {
            Some(IllocutionaryForce::Pledge)
        } else if str_eq(s, "threaten") {
            Some(IllocutionaryForce::Threaten)
        } else if str_eq(s, "offer") {
            Some(IllocutionaryForce::Offer)
        } else if str_eq(s, "guarantee") {
            Some(IllocutionaryForce::Guarantee)
        } else if str_eq(s, "refuse") {
            Some(IllocutionaryForce::Refuse)
        } else if str_eq(s, "thank") {
            Some(IllocutionaryForce::Thank)
        } else if str_eq(s, "apologize") {
            Some(IllocutionaryForce::Apologize)
        } else if str_eq(s, "congratulate") {
            Some(IllocutionaryForce::Congratulate)
        } else if str_eq(s, "condole") {
            Some(IllocutionaryForce::Condole)
        } else if str_eq(s, "welcome") {
            Some(IllocutionaryForce::Welcome)
        } else if str_eq(s, "deplore") {
            Some(IllocutionaryForce::Deplore)
        } else if str_eq(s, "declare") {
            Some(IllocutionaryForce::Declare)
        } else if str_eq(s, "pronounce") {
            Some(IllocutionaryForce::Pronounce)
        } else if str_eq(s, "name") {
            Some(IllocutionaryForce::Name)
        } else if str_eq(s, "appoint") {
            Some(IllocutionaryForce::Appoint)
        } else if str_eq(s, "fire") {
            Some(IllocutionaryForce::Fire)
        } else if str_eq(s, "adjourn") {
            Some(IllocutionaryForce::Adjourn)
        } else {
            None
        };
        r
    }

    #[verifier::rlimit(50)]
    proof fn lemma_name_injective(a: Self, b: Self) {
        reveal_strlit("assert");
        reveal_strlit("claim");
        reveal_strlit("report");
        reveal_strlit("describe");
        reveal_strlit("insist");
        reveal_strlit("deny");
        reveal_strlit("order");
        reveal_strlit("command");
        reveal_strlit("request");
        reveal_strlit("ask");
        reveal_strlit("beg");
        reveal_strlit("plead");
        reveal_strlit("invite");
        reveal_strlit("suggest");
        reveal_strlit("promise");
        reveal_strlit("vow");
        reveal_strlit("pledge");
        reveal_strlit("threaten");
        reveal_strlit("offer");
        reveal_strlit("guarantee");
        reveal_strlit("refuse");
        reveal_strlit("thank");
        reveal_strlit("apologize");
        reveal_strlit("congratulate");
        reveal_strlit("condole");
        reveal_strlit("welcome");
        reveal_strlit("deplore");
        reveal_strlit("declare");
        reveal_strlit("pronounce");
        reveal_strlit("name");
        reveal_strlit("appoint");
        reveal_strlit("fire");
        reveal_strlit("adjourn");
        assert("assert"@.len() == 6 && "assert"@[0] == 'a');
        assert("claim"@.len() == 5 && "claim"@[0] == 'c');
        assert("report"@.len() == 6 && "report"@[0] == 'r' && "report"@[2] == 'p');
        assert("describe"@.len() == 8 && "describe"@[0] == 'd');
        assert("insist"@.len() == 6 && "insist"@[0] == 'i' && "insist"@[2] == 's');
        assert("deny"@.len() == 4 && "deny"@[0] == 'd');
        assert("order"@.len() == 5 && "order"@[0] == 'o' && "order"@[1] == 'r');
        assert("command"@.len() == 7 && "command"@[0] == 'c' && "command"@[2] == 'm');
        assert("request"@.len() == 7 && "request"@[0] == 'r');
        assert("ask"@.len() == 3 && "ask"@[0] == 'a');
        assert("beg"@.len() == 3 && "beg"@[0] == 'b');
        assert("plead"@.len() == 5 && "plead"@[0] == 'p');
        assert("invite"@.len() == 6 && "invite"@[0] == 'i' && "invite"@[2] == 'v');
        assert("suggest"@.len() == 7 && "suggest"@[0] == 's');
        assert("promise"@.len() == 7 && "promise"@[0] == 'p');
        assert("vow"@.len() == 3 && "vow"@[0] == 'v');
        assert("pledge"@.len() == 6 && "pledge"@[0] == 'p');
        assert("threaten"@.len() == 8 && "threaten"@[0] == 't');
        assert("offer"@.len() == 5 && "offer"@[0] == 'o' && "offer"@[1] == 'f');
        assert("guarantee"@.len() == 9 && "guarantee"@[0] == 'g');
        assert("refuse"@.len() == 6 && "refuse"@[0] == 'r' && "refuse"@[2] == 'f');
        assert("thank"@.len() == 5 && "thank"@[0] == 't');
        assert("apologize"@.len() == 9 && "apologize"@[0] == 'a');
        assert("congratulate"@.len() == 12);
        assert("condole"@.len() == 7 && "condole"@[0] == 'c' && "condole"@[2] == 'n');
        assert("welcome"@.len() == 7 && "welcome"@[0] == 'w');
        assert("deplore"@.len() == 7 && "deplore"@[0] == 'd' && "deplore"@[2] == 'p');
        assert("declare"@.len() == 7 && "declare"@[0] == 'd' && "declare"@[2] == 'c');
        assert("pronounce"@.len() == 9 && "pronounce"@[0] == 'p');
        assert("name"@.len() == 4 && "name"@[0] == 'n');
        assert("appoint"@.len() == 7 && "appoint"@[0] == 'a' && "appoint"@[1] == 'p');
        assert("fire"@.len() == 4 && "fire"@[0] == 'f');
        assert("adjourn"@.len() == 7 && "adjourn"@[0] == 'a' && "adjourn"@[1] == 'd');
    }
}

#[derive(Debug, Clone, Copy, PartialEq, Eq, Hash, Structural)]
pub enum ArcDirection {
    Positive,
    Negative,
    Flat,
    Disillusionment,
    FallThenRise,
    RiseThenFall,
}

impl SnakeName for ArcDirection {
    open spec fn spec_name(self) -> Seq<char> {
        match self {
            ArcDirection::Positive => "positive"@,
            ArcDirection::Negative => "negative"@,
            ArcDirection::Flat => "flat"@,
            ArcDirection::Disillusionment => "disillusionment"@,
            ArcDirection::FallThenRise => "fall_then_rise"@,
            ArcDirection::RiseThenFall => "rise_then_fall"@,
        }
    }

    fn name(&self) -> (r: &'static str) {
        match self {
            ArcDirection::Positive => "positive",
            ArcDirection::Negative => "negative",
            ArcDirection::Flat => "flat",
            ArcDirection::Disillusionment => "disillusionment",
            ArcDirection::FallThenRise => "fall_then_rise",
            ArcDirection::RiseThenFall => "rise_then_fall",
        }
    }

    fn from_name(s: &str) -> (r: Option<Self>) {
        let r = if str_eq(s, "positive") {
            Some(ArcDirection::Positive)
        } else if str_eq(s, "negative") {
            Some(ArcDirection::Negative)
        } else if str_eq(s, "flat") {
            Some(ArcDirection::Flat)
        } else if str_eq(s, "disillusionment") {
            Some(ArcDirection::Disillusionment)
        } else if str_eq(s, "fall_then_rise") {
            Some(ArcDirection::FallThenRise)
        } else if str_eq(s, "rise_then_fall") {
            Some(ArcDirection::RiseThenFall)
        } else {
            None
        };
        r
    }

    proof fn lemma_name_injective(a: Self, b: Self) {
        reveal_strlit("positive");
        reveal_strlit("negative");
        reveal_strlit("flat");
        reveal_strlit("disillusionment");
        reveal_strlit("fall_then_rise");
        reveal_strlit("rise_then_fall");
        assert("positive"@.len() == 8 && "positive"@[0] == 'p');
        assert("negative"@.len() == 8 && "negative"@[0] == 'n');
        assert("flat"@.len() == 4);
        assert("disillusionment"@.len() == 15);
        assert("fall_then_rise"@.len() == 14 && "fall_then_rise"@[0] == 'f');
        assert("rise_then_fall"@.len() == 14 && "rise_then_fall"@[0] == 'r');
    }
}

#[derive(Debug, Clone, Copy, PartialEq, Eq, Hash, Structural)]
pub enum PowerAsymmetryType {
    Equal,
    DominantA,
    DominantB,
    Contested,
    Shifting,
}

impl SnakeName for PowerAsymmetryType {
    open spec fn spec_name(self) -> Seq<char> {
        match self {
            PowerAsymmetryType::Equal => "equal"@,
            PowerAsymmetryType::DominantA => "dominant_a"@,
            PowerAsymmetryType::DominantB => "dominant_b"@,
            PowerAsymmetryType::Contested => "contested"@,
            PowerAsymmetryType::Shifting => "shifting"@,
        }
    }

    fn name(&self) -> (r: &'static str) {
        match self {
            PowerAsymmetryType::Equal => "equal",
            PowerAsymmetryType::DominantA => "dominant_a",
            PowerAsymmetryType::DominantB => "dominant_b",
            PowerAsymmetryType::Contested => "contested",
            PowerAsymmetryType::Shifting => "shifting",
        }
    }

    fn from_name(s: &str) -> (r: Option<Self>) {
        let r = if str_eq(s, "equal") {
            Some(PowerAsymmetryType::Equal)
        } else if str_eq(s, "dominant_a") {
            Some(PowerAsymmetryType::DominantA)
        } else if str_eq(s, "dominant_b") {
            Some(PowerAsymmetryType::DominantB)
        } else if str_eq(s, "contested") {
            Some(PowerAsymmetryType::Contested)
        } else if str_eq(s, "shifting") {
            Some(PowerAsymmetryType::Shifting)
        } else {
            None
        };
        r
    }

    proof fn lemma_name_injective(a: Self, b: Self) {
        reveal_strlit("equal");
        reveal_strlit("dominant_a");
        reveal_strlit("dominant_b");
        reveal_strlit("contested");
        reveal_strlit("shifting");
        assert("equal"@.len() == 5);
        assert("dominant_a"@.len() == 10 && "dominant_a"@[9] == 'a');
        assert("dominant_b"@.len() == 10 && "dominant_b"@[9] == 'b');
        assert("contested"@.len() == 9);
        assert("shifting"@.len() == 8);
    }
}

/// Booth/Nünning narrator reliability types
#[derive(Debug, Clone, Copy, PartialEq, Eq, Hash, Structural)]
pub enum NarratorReliabilityType {
    Reliable,
    FactuallyUnreliable,
    InterpretivelyUnreliable,
    EvaluativelyUnreliable,
    SelfDeceptive,
    CulturallyContingent,
}

impl SnakeName for NarratorReliabilityType {
    open spec fn spec_name(self) -> Seq<char> {
        match self {
            NarratorReliabilityType::Reliable => "reliable"@,
            NarratorReliabilityType::FactuallyUnreliable => "factually_unreliable"@,
            NarratorReliabilityType::InterpretivelyUnreliable => "interpretively_unreliable"@,
            NarratorReliabilityType::EvaluativelyUnreliable => "evaluatively_unreliable"@,
            NarratorReliabilityType::SelfDeceptive => "self_deceptive"@,
            NarratorReliabilityType::CulturallyContingent => "culturally_contingent"@,
        }
    }

    fn name(&self) -> (r: &'static str) {
        match self {
            NarratorReliabilityType::Reliable => "reliable",
            NarratorReliabilityType::FactuallyUnreliable => "factually_unreliable",
            NarratorReliabilityType::InterpretivelyUnreliable => "interpretively_unreliable",
            NarratorReliabilityType::EvaluativelyUnreliable => "evaluatively_unreliable",
            NarratorReliabilityType::SelfDeceptive => "self_deceptive",
            NarratorReliabilityType::CulturallyContingent => "culturally_contingent",
        }
    }

    fn from_name(s: &str) -> (r: Option<Self>) {
        let r = if str_eq(s, "reliable") {
            Some(NarratorReliabilityType::Reliable)
        } else if str_eq(s, "factually_unreliable") {
            Some(NarratorReliabilityType::FactuallyUnreliable)
        } else if str_eq(s, "interpretively_unreliable") {
            Some(NarratorReliabilityType::InterpretivelyUnreliable)
        } else if str_eq(s, "evaluatively_unreliable") {
            Some(NarratorReliabilityType::EvaluativelyUnreliable)
        } else if str_eq(s, "self_deceptive") {
            Some(NarratorReliabilityType::SelfDeceptive)
        } else if str_eq(s, "culturally_contingent") {
            Some(NarratorReliabilityType::CulturallyContingent)
        } else {
            None
        };
        r
    }

    proof fn lemma_name_injective(a: Self, b: Self) {
        reveal_strlit("reliable");
        reveal_strlit("factually_unreliable");
        reveal_strlit("interpretively_unreliable");
        reveal_strlit("evaluatively_unreliable");
        reveal_strlit("self_deceptive");
        reveal_strlit("culturally_contingent");
        assert("reliable"@.len() == 8);
        assert("factually_unreliable"@.len() == 20);
        assert("interpretively_unreliable"@.len() == 25);
        assert("evaluatively_unreliable"@.len() == 23);
        assert("self_deceptive"@.len() == 14);
        assert("culturally_contingent"@.len() == 21);
    }
}

/// Sternberg: what creates the information gap
#[derive(Debug, Clone, Copy, PartialEq, Eq, Hash, Structural)]
pub enum KnowledgeGapSource {
    WithheldPast,
    UncertainFuture,
    SuppressedByFocalizer,
    UnreliableSource,
    LimitedPerception,
    DeliberateOmission,
}

impl SnakeName for KnowledgeGapSource {
    open spec fn spec_name(self) -> Seq<char> {
        match self {
            KnowledgeGapSource::WithheldPast => "withheld_past"@,
            KnowledgeGapSource::UncertainFuture => "uncertain_future"@,
            KnowledgeGapSource::SuppressedByFocalizer => "suppressed_by_focalizer"@,
            KnowledgeGapSource::UnreliableSource => "unreliable_source"@,
            KnowledgeGapSource::LimitedPerception => "limited_perception"@,
            KnowledgeGapSource::DeliberateOmission => "deliberate_omission"@,
        }
    }

    fn name(&self) -> (r: &'static str) {
        match self {
            KnowledgeGapSource::WithheldPast => "withheld_past",
            KnowledgeGapSource::UncertainFuture => "uncertain_future",
            KnowledgeGapSource::SuppressedByFocalizer => "suppressed_by_focalizer",
            KnowledgeGapSource::UnreliableSource => "unreliable_source",
            KnowledgeGapSource::LimitedPerception => "limited_perception",
            KnowledgeGapSource::DeliberateOmission => "deliberate_omission",
        }
    }

    fn from_name(s: &str) -> (r: Option<Self>) {
        let r = if str_eq(s, "withheld_past") {
            Some(KnowledgeGapSource::WithheldPast)
        } else if str_eq(s, "uncertain_future") {
            Some(KnowledgeGapSource::UncertainFuture)
        } else if str_eq(s, "suppressed_by_focalizer") {
            Some(KnowledgeGapSource::SuppressedByFocalizer)
        } else if str_eq(s, "unreliable_source") {
            Some(KnowledgeGapSource::UnreliableSource)
        } else if str_eq(s, "limited_perception") {
            Some(KnowledgeGapSource::LimitedPerception)
        } else if str_eq(s, "deliberate_omission") {
            Some(KnowledgeGapSource::DeliberateOmission)
        } else {
            None
        };
        r
    }

    proof fn lemma_name_injective(a: Self, b: Self) {
        reveal_strlit("withheld_past");
        reveal_strlit("uncertain_future");
        reveal_strlit("suppressed_by_focalizer");
        reveal_strlit("unreliable_source");
        reveal_strlit("limited_perception");
        reveal_strlit("deliberate_omission");
        assert("withheld_past"@.len() == 13);
        assert("uncertain_future"@.len() == 16);
        assert("suppressed_by_focalizer"@.len() == 23);
        assert("unreliable_source"@.len() == 17);
        assert("limited_perception"@.len() == 18);
        assert("deliberate_omission"@.len() == 19);
    }
}

/// Caruth/Herman/LaCapra trauma representation modes
#[derive(Debug, Clone, Copy, PartialEq, Eq, Hash, Structural)]
pub enum TraumaRepresentationMode {
    Integrated,
    Fragmented,
    Belated,
    ActingOut,
    WorkingThrough,
    Dissociated,
    Somatized,
}

impl SnakeName for TraumaRepresentationMode {
    open spec fn spec_name(self) -> Seq<char> {
        match self {
            TraumaRepresentationMode::Integrated => "integrated"@,
            TraumaRepresentationMode::Fragmented => "fragmented"@,
            TraumaRepresentationMode::Belated => "belated"@,
            TraumaRepresentationMode::ActingOut => "acting_out"@,
            TraumaRepresentationMode::WorkingThrough => "working_through"@,
            TraumaRepresentationMode::Dissociated => "dissociated"@,
            TraumaRepresentationMode::Somatized => "somatized"@,
        }
    }

    fn name(&self) -> (r: &'static str) {
        match self {
            TraumaRepresentationMode::Integrated => "integrated",
            TraumaRepresentationMode::Fragmented => "fragmented",
            TraumaRepresentationMode::Belated => "belated",
            TraumaRepresentationMode::ActingOut => "acting_out",
            TraumaRepresentationMode::WorkingThrough => "working_through",
            TraumaRepresentationMode::Dissociated => "dissociated",
            TraumaRepresentationMode::Somatized => "somatized",
        }
    }

    fn from_name(s: &str) -> (r: Option<Self>) {
        let r = if str_eq(s, "integrated") {
            Some(TraumaRepresentationMode::Integrated)
        } else if str_eq(s, "fragmented") {
            Some(TraumaRepresentationMode::Fragmented)
        } else if str_eq(s, "belated") {
            Some(TraumaRepresentationMode::Belated)
        } else if str_eq(s, "acting_out") {
            Some(TraumaRepresentationMode::ActingOut)
        } else if str_eq(s, "working_through") {
            Some(TraumaRepresentationMode::WorkingThrough)
        } else if str_eq(s, "dissociated") {
            Some(TraumaRepresentationMode::Dissociated)
        } else if str_eq(s, "somatized") {
            Some(TraumaRepresentationMode::Somatized)
        } else {
            None
        };
        r
    }

    proof fn lemma_name_injective(a: Self, b: Self) {
        reveal_strlit("integrated");
        reveal_strlit("fragmented");
        reveal_strlit("belated");
        reveal_strlit("acting_out");
        reveal_strlit("working_through");
        reveal_strlit("dissociated");
        reveal_strlit("somatized");
        assert("integrated"@.len() == 10 && "integrated"@[0] == 'i');
        assert("fragmented"@.len() == 10 && "fragmented"@[0] == 'f');
        assert("belated"@.len() == 7);
        assert("acting_out"@.len() == 10 && "acting_out"@[0] == 'a');
        assert("working_through"@.len() == 15);
        assert("dissociated"@.len() == 11);
        assert("somatized"@.len() == 9);
    }
}

/// Van der Kolk embodied trauma responses
#[derive(Debug, Clone, Copy, PartialEq, Eq, Hash, Structural)]
pub enum SomaticTraumaResponse {
    Startle,
    Freeze,
    Dissociation,
    Hypervigilance,
    Numbness,
    FlashbackBody,
    Trembling,
    Nausea,
    ConstrictedBreathing,
    Absent,
}

impl SnakeName for SomaticTraumaResponse {
    open spec fn spec_name(self) -> Seq<char> {
        match self {
            SomaticTraumaResponse::Startle => "startle"@,
            SomaticTraumaResponse::Freeze => "freeze"@,
            SomaticTraumaResponse::Dissociation => "dissociation"@,
            SomaticTraumaResponse::Hypervigilance => "hypervigilance"@,
            SomaticTraumaResponse::Numbness => "numbness"@,
            SomaticTraumaResponse::FlashbackBody => "flashback_body"@,
            SomaticTraumaResponse::Trembling => "trembling"@,
            SomaticTraumaResponse::Nausea => "nausea"@,
            SomaticTraumaResponse::ConstrictedBreathing => "constricted_breathing"@,
            SomaticTraumaResponse::Absent => "none"@,
        }
    }

    fn name(&self) -> (r: &'static str) {
        match self {
            SomaticTraumaResponse::Startle => "startle",
            SomaticTraumaResponse::Freeze => "freeze",
            SomaticTraumaResponse::Dissociation => "dissociation",
            SomaticTraumaResponse::Hypervigilance => "hypervigilance",
            SomaticTraumaResponse::Numbness => "numbness",
            SomaticTraumaResponse::FlashbackBody => "flashback_body",
            SomaticTraumaResponse::Trembling => "trembling",
            SomaticTraumaResponse::Nausea => "nausea",
            SomaticTraumaResponse::ConstrictedBreathing => "constricted_breathing",
            SomaticTraumaResponse::Absent => "none",
        }
    }

    fn from_name(s: &str) -> (r: Option<Self>) {
        let r = if str_eq(s, "startle") {
            Some(SomaticTraumaResponse::Startle)
        } else if str_eq(s, "freeze") {
            Some(SomaticTraumaResponse::Freeze)
        } else if str_eq(s, "dissociation") {
            Some(SomaticTraumaResponse::Dissociation)
        } else if str_eq(s, "hypervigilance") {
            Some(SomaticTraumaResponse::Hypervigilance)
        } else if str_eq(s, "numbness") {
            Some(SomaticTraumaResponse::Numbness)
        } else if str_eq(s, "flashback_body") {
            Some(SomaticTraumaResponse::FlashbackBody)
        } else if str_eq(s, "trembling") {
            Some(SomaticTraumaResponse::Trembling)
        } else if str_eq(s, "nausea") {
            Some(SomaticTraumaResponse::Nausea)
        } else if str_eq(s, "constricted_breathing") {
            Some(SomaticTraumaResponse::ConstrictedBreathing)
        } else if str_eq(s, "none") {
            Some(SomaticTraumaResponse::Absent)
        } else {
            None
        };
        r
    }

    proof fn lemma_name_injective(a: Self, b: Self) {
        reveal_strlit("startle");
        reveal_strlit("freeze");
        reveal_strlit("dissociation");
        reveal_strlit("hypervigilance");
        reveal_strlit("numbness");
        reveal_strlit("flashback_body");
        reveal_strlit("trembling");
        reveal_strlit("nausea");
        reveal_strlit("constricted_breathing");
        reveal_strlit("none");
        assert("startle"@.len() == 7);
        assert("freeze"@.len() == 6 && "freeze"@[0] == 'f');
        assert("dissociation"@.len() == 12);
        assert("hypervigilance"@.len() == 14 && "hypervigilance"@[0] == 'h');
        assert("numbness"@.len() == 8);
        assert("flashback_body"@.len() == 14 && "flashback_body"@[0] == 'f');
        assert("trembling"@.len() == 9);
        assert("nausea"@.len() == 6 && "nausea"@[0] == 'n');
        assert("constricted_breathing"@.len() == 21);
        assert("none"@.len() == 4);
    }
}

/// Waugh/McHale metafictional techniques
#[derive(Debug, Clone, Copy, PartialEq, Eq, Hash, Structural)]
pub enum MetafictionalTechnique {
    DirectAddress,
    AuthorialIntrusion,
    MiseEnAbyme,
    FrameBreaking,
    SelfReference,
    ExposedDevice,
    AlternativeEndings,
    ReaderAsCharacter,
    Absent,
}

impl SnakeName for MetafictionalTechnique {
    open spec fn spec_name(self) -> Seq<char> {
        match self {
            MetafictionalTechnique::DirectAddress => "direct_address"@,
            MetafictionalTechnique::AuthorialIntrusion => "authorial_intrusion"@,
            MetafictionalTechnique::MiseEnAbyme => "mise_en_abyme"@,
            MetafictionalTechnique::FrameBreaking => "frame_breaking"@,
            MetafictionalTechnique::SelfReference => "self_reference"@,
            MetafictionalTechnique::ExposedDevice => "exposed_device"@,
            MetafictionalTechnique::AlternativeEndings => "alternative_endings"@,
            MetafictionalTechnique::ReaderAsCharacter => "reader_as_character"@,
            MetafictionalTechnique::Absent => "none"@,
        }
    }

    fn name(&self) -> (r: &'static str) {
        match self {
            MetafictionalTechnique::DirectAddress => "direct_address",
            MetafictionalTechnique::AuthorialIntrusion => "authorial_intrusion",
            MetafictionalTechnique::MiseEnAbyme => "mise_en_abyme",
            MetafictionalTechnique::FrameBreaking => "frame_breaking",
            MetafictionalTechnique::SelfReference => "self_reference",
            MetafictionalTechnique::ExposedDevice => "exposed_device",
            MetafictionalTechnique::AlternativeEndings => "alternative_endings",
            MetafictionalTechnique::ReaderAsCharacter => "reader_as_character",
            MetafictionalTechnique::Absent => "none",
        }
    }

    fn from_name(s: &str) -> (r: Option<Self>) {
        let r = if str_eq(s, "direct_address") {
            Some(MetafictionalTechnique::DirectAddress)
        } else if str_eq(s, "authorial_intrusion") {
            Some(MetafictionalTechnique::AuthorialIntrusion)
        } else if str_eq(s, "mise_en_abyme") {
            Some(MetafictionalTechnique::MiseEnAbyme)
        } else if str_eq(s, "frame_breaking") {
            Some(MetafictionalTechnique::FrameBreaking)
        } else if str_eq(s, "self_reference") {
            Some(MetafictionalTechnique::SelfReference)
        } else if str_eq(s, "exposed_device") {
            Some(MetafictionalTechnique::ExposedDevice)
        } else if str_eq(s, "alternative_endings") {
            Some(MetafictionalTechnique::AlternativeEndings)
        } else if str_eq(s, "reader_as_character") {
            Some(MetafictionalTechnique::ReaderAsCharacter)
        } else if str_eq(s, "none") {
            Some(MetafictionalTechnique::Absent)
        } else {
            None
        };
        r
    }

    proof fn lemma_name_injective(a: Self, b: Self) {
        reveal_strlit("direct_address");
        reveal_strlit("authorial_intrusion");
        reveal_strlit("mise_en_abyme");
        reveal_strlit("frame_breaking");
        reveal_strlit("self_reference");
        reveal_strlit("exposed_device");
        reveal_strlit("alternative_endings");
        reveal_strlit("reader_as_character");
        reveal_strlit("none");
        assert("direct_address"@.len() == 14 && "direct_address"@[0] == 'd');
        assert("authorial_intrusion"@.len() == 19 && "authorial_intrusion"@[0] == 'a' && "authorial_intrusion"@[1] == 'u');
        assert("mise_en_abyme"@.len() == 13);
        assert("frame_breaking"@.len() == 14 && "frame_breaking"@[0] == 'f');
        assert("self_reference"@.len() == 14 && "self_reference"@[0] == 's');
        assert("exposed_device"@.len() == 14 && "exposed_device"@[0] == 'e');
        assert("alternative_endings"@.len() == 19 && "alternative_endings"@[0] == 'a' && "alternative_endings"@[1] == 'l');
        assert("reader_as_character"@.len() == 19 && "reader_as_character"@[0] == 'r');
        assert("none"@.len() == 4);
    }
}

/// Max Black interaction theory: metaphor quality levels
#[derive(Debug, Clone, Copy, PartialEq, Eq, Hash, Structural)]
pub enum MetaphorQuality {
    Dead,
    Conventional,
    Active,
    Resonant,
    Mixed,
}

impl SnakeName for MetaphorQuality {
    open spec fn spec_name(self) -> Seq<char> {
        match self {
            MetaphorQuality::Dead => "dead"@,
            MetaphorQuality::Conventional => "conventional"@,
            MetaphorQuality::Active => "active"@,
            MetaphorQuality::Resonant => "resonant"@,
            MetaphorQuality::Mixed => "mixed"@,
        }
    }

    fn name(&self) -> (r: &'static str) {
        match self {
            MetaphorQuality::Dead => "dead",
            MetaphorQuality::Conventional => "conventional",
            MetaphorQuality::Active => "active",
            MetaphorQuality::Resonant => "resonant",
            MetaphorQuality::Mixed => "mixed",
        }
    }

    fn from_name(s: &str) -> (r: Option<Self>) {
        let r = if str_eq(s, "dead") {
            Some(MetaphorQuality::Dead)
        } else if str_eq(s, "conventional") {
            Some(MetaphorQuality::Conventional)
        } else if str_eq(s, "active") {
            Some(MetaphorQuality::Active)
        } else if str_eq(s, "resonant") {
            Some(MetaphorQuality::Resonant)
        } else if str_eq(s, "mixed") {
            Some(MetaphorQuality::Mixed)
        } else {
            None
        };
        r
    }

    proof fn lemma_name_injective(a: Self, b: Self) {
        reveal_strlit("dead");
        reveal_strlit("conventional");
        reveal_strlit("active");
        reveal_strlit("resonant");
        reveal_strlit("mixed");
        assert("dead"@.len() == 4);
        assert("conventional"@.len() == 12);
        assert("active"@.len() == 6);
        assert("resonant"@.len() == 8);
        assert("mixed"@.len() == 5);
    }
}

/// Truby want vs. need alignment
#[derive(Debug, Clone, Copy, PartialEq, Eq, Hash, Structural)]
pub enum WantNeedAlignment {
    Aligned,
    Opposed,
    UnknownNeed,
    FalseWant,
    Evolving,
}

impl SnakeName for WantNeedAlignment {
    open spec fn spec_name(self) -> Seq<char> {
        match self {
            WantNeedAlignment::Aligned => "aligned"@,
            WantNeedAlignment::Opposed => "opposed"@,
            WantNeedAlignment::UnknownNeed => "unknown_need"@,
            WantNeedAlignment::FalseWant => "false_want"@,
            WantNeedAlignment::Evolving => "evolving"@,
        }
    }

    fn name(&self) -> (r: &'static str) {
        match self {
            WantNeedAlignment::Aligned => "aligned",
            WantNeedAlignment::Opposed => "opposed",
            WantNeedAlignment::UnknownNeed => "unknown_need",
            WantNeedAlignment::FalseWant => "false_want",
            WantNeedAlignment::Evolving => "evolving",
        }
    }

    fn from_name(s: &str) -> (r: Option<Self>) {
        let r = if str_eq(s, "aligned") {
            Some(WantNeedAlignment::Aligned)
        } else if str_eq(s, "opposed") {
            Some(WantNeedAlignment::Opposed)
        } else if str_eq(s, "unknown_need") {
            Some(WantNeedAlignment::UnknownNeed)
        } else if str_eq(s, "false_want") {
            Some(WantNeedAlignment::FalseWant)
        } else if str_eq(s, "evolving") {
            Some(WantNeedAlignment::Evolving)
        } else {
            None
        };
        r
    }

    proof fn lemma_name_injective(a: Self, b: Self) {
        reveal_strlit("aligned");
        reveal_strlit("opposed");
        reveal_strlit("unknown_need");
        reveal_strlit("false_want");
        reveal_strlit("evolving");
        assert("aligned"@.len() == 7 && "aligned"@[0] == 'a');
        assert("opposed"@.len() == 7 && "opposed"@[0] == 'o');
        assert("unknown_need"@.len() == 12);
        assert("false_want"@.len() == 10);
        assert("evolving"@.len() == 8);
    }
}

/// Greimas actantial model roles
#[derive(Debug, Clone, Copy, PartialEq, Eq, Hash, Structural)]
pub enum ActantialRole {
    Subject,
    Object,
    Sender,
    Receiver,
    Helper,
    Opponent,
}

impl SnakeName for ActantialRole {
    open spec fn spec_name(self) -> Seq<char> {
        match self {
            ActantialRole::Subject => "subject"@,
            ActantialRole::Object => "object"@,
            ActantialRole::Sender => "sender"@,
            ActantialRole::Receiver => "receiver"@,
            ActantialRole::Helper => "helper"@,
            ActantialRole::Opponent => "opponent"@,
        }
    }

    fn name(&self) -> (r: &'static str) {
        match self {
            ActantialRole::Subject => "subject",
            ActantialRole::Object => "object",
            ActantialRole::Sender => "sender",
            ActantialRole::Receiver => "receiver",
            ActantialRole::Helper => "helper",
            ActantialRole::Opponent => "opponent",
        }
    }

    fn from_name(s: &str) -> (r: Option<Self>) {
        let r = if str_eq(s, "subject") {
            Some(ActantialRole::Subject)
        } else if str_eq(s, "object") {
            Some(ActantialRole::Object)
        } else if str_eq(s, "sender") {
            Some(ActantialRole::Sender)
        } else if str_eq(s, "receiver") {
            Some(ActantialRole::Receiver)
        } else if str_eq(s, "helper") {
            Some(ActantialRole::Helper)
        } else if str_eq(s, "opponent") {
            Some(ActantialRole::Opponent)
        } else {
            None
        };
        r
    }

    proof fn lemma_name_injective(a: Self, b: Self) {
        reveal_strlit("subject");
        reveal_strlit("object");
        reveal_strlit("sender");
        reveal_strlit("receiver");
        reveal_strlit("helper");
        reveal_strlit("opponent");
        assert("subject"@.len() == 7);
        assert("object"@.len() == 6 && "object"@[0] == 'o');
        assert("sender"@.len() == 6 && "sender"@[0] == 's');
        assert("receiver"@.len() == 8 && "receiver"@[0] == 'r');
        assert("helper"@.len() == 6 && "helper"@[0] == 'h');
        assert("opponent"@.len() == 8 && "opponent"@[0] == 'o');
    }
}

/// Genette transtextuality types (v3.0.7 - complements IntertextualRelation with None variant)
#[derive(Debug, Clone, Copy, PartialEq, Eq, Hash, Structural)]
pub enum TranstextualityType {
    Intertextuality,
    Paratextuality,
    Metatextuality,
    Hypertextuality,
    Architextuality,
    Absent,
}

impl SnakeName for TranstextualityType {
    open spec fn spec_name(self) -> Seq<char> {
        match self {
            TranstextualityType::Intertextuality => "intertextuality"@,
            TranstextualityType::Paratextuality => "paratextuality"@,
            TranstextualityType::Metatextuality => "metatextuality"@,
            TranstextualityType::Hypertextuality => "hypertextuality"@,
            TranstextualityType::Architextuality => "architextuality"@,
            TranstextualityType::Absent => "none"@,
        }
    }

    fn name(&self) -> (r: &'static str) {
        match self {
            TranstextualityType::Intertextuality => "intertextuality",
            TranstextualityType::Paratextuality => "paratextuality",
            TranstextualityType::Metatextuality => "metatextuality",
            TranstextualityType::Hypertextuality => "hypertextuality",
            TranstextualityType::Architextuality => "architextuality",
            TranstextualityType::Absent => "none",
        }
    }

    fn from_name(s: &str) -> (r: Option<Self>) {
        let r = if str_eq(s, "intertextuality") {
            Some(TranstextualityType::Intertextuality)
        } else if str_eq(s, "paratextuality") {
            Some(TranstextualityType::Paratextuality)
        } else if str_eq(s, "metatextuality") {
            Some(TranstextualityType::Metatextuality)
        } else if str_eq(s, "hypertextuality") {
            Some(TranstextualityType::Hypertextuality)
        } else if str_eq(s, "architextuality") {
            Some(TranstextualityType::Architextuality)
        } else if str_eq(s, "none") {
            Some(TranstextualityType::Absent)
        } else {
            None
        };
        r
    }

    proof fn lemma_name_injective(a: Self, b: Self) {
        reveal_strlit("intertextuality");
        reveal_strlit("paratextuality");
        reveal_strlit("metatextuality");
        reveal_strlit("hypertextuality");
        reveal_strlit("architextuality");
        reveal_strlit("none");
        assert("intertextuality"@.len() == 15 && "intertextuality"@[0] == 'i');
        assert("paratextuality"@.len() == 14 && "paratextuality"@[0] == 'p');
        assert("metatextuality"@.len() == 14 && "metatextuality"@[0] == 'm');
        assert("hypertextuality"@.len() == 15 && "hypertextuality"@[0] == 'h');
        assert("architextuality"@.len() == 15 && "architextuality"@[0] == 'a');
        assert("none"@.len() == 4);
    }
}


// ── Type aliases ──────────────────────────────────────────────────────────────

/// Phase-level readiness status — unified with `GateStatus`.
///
/// A phase can be `Green`, `Yellow`, `Red`, or `Unknown`; it never uses the
/// `Locked` variant (only sub-phases lock). This alias ensures one canonical
/// status type for both gate-level and phase-level results.
pub type PhaseStatus = GateStatus;

/// Scene types are scene functions: one vocabulary serves both tags.
pub type SceneType = SceneFunction;

// ── Psychic distance ──────────────────────────────────────────────────────────

/// Gardner's psychic distance scale (1 = very close, 5 = very distant).
///
/// A newtype whose value always lies in 1–5.
#[derive(Debug, Clone, Copy, PartialEq, Eq, Hash, Structural)]
pub struct PsychicDistance(u8);

impl PsychicDistance {
    #[verifier::type_invariant]
    spec fn in_range(self) -> bool {
        1 <= self.0 <= 5
    }

    /// The distance on the 1–5 scale.
    pub closed spec fn spec_value(self) -> u8 {
        self.0
    }

    /// The error text for an out-of-range distance.
    pub open spec fn range_error(value: u8) -> Seq<char> {
        "PsychicDistance must be 1–5, got "@ + decimal(value as nat)
    }

    /// A distance of `value`, which must lie in 1–5.
    pub fn new(value: u8) -> (r: Result<Self, String>)
        ensures
            match r {
                Ok(d) => 1 <= value <= 5 && d.spec_value() == value,
                Err(e) => !(1 <= value <= 5) && e@ == Self::range_error(value),
            },
    {
        if 1 <= value && value <= 5 {
            Ok(PsychicDistance(value))
        } else {
            let mut e = String::from_str("PsychicDistance must be 1–5, got ");
            push_decimal(&mut e, value as u32);
            Err(e)
        }
    }

    /// The distance on the 1–5 scale.
    pub fn value(self) -> (r: u8)
        ensures
            r == self.spec_value(),
            1 <= r <= 5,
    {
        proof {
            use_type_invariant(&self);
        }
        self.0
    }
}

// ── Wound categories ──────────────────────────────────────────────────────────

impl Wound {
    /// The thirteen umbrella wounds, which double as category names.
    pub open spec fn is_umbrella(self) -> bool {
        match self {
            Wound::Abandonment | Wound::Betrayal | Wound::GuiltAndFailure | Wound::TraumaAndAbuse
            | Wound::Shame | Wound::Grief | Wound::TrustViolation | Wound::Powerlessness
            | Wound::IdentityRejection | Wound::Injustice | Wound::Neglect | Wound::SurvivorGuilt
            | Wound::Displacement => true,
            _ => false,
        }
    }

    /// The broad category of a wound.
    pub open spec fn spec_category(self) -> WoundCategory {
        match self {
            Wound::Abandonment => WoundCategory::Abandonment,
            Wound::Betrayal => WoundCategory::Betrayal,
            Wound::GuiltAndFailure => WoundCategory::GuiltAndFailure,
            Wound::TraumaAndAbuse => WoundCategory::TraumaAndAbuse,
            Wound::Shame => WoundCategory::Shame,
            Wound::Grief => WoundCategory::Grief,
            Wound::TrustViolation => WoundCategory::TrustViolation,
            Wound::Powerlessness => WoundCategory::Powerlessness,
            Wound::IdentityRejection => WoundCategory::IdentityRejection,
            Wound::Injustice => WoundCategory::Injustice,
            Wound::Neglect => WoundCategory::Neglect,
            Wound::SurvivorGuilt => WoundCategory::SurvivorGuilt,
            Wound::Displacement => WoundCategory::Displacement,
            Wound::ParentalAbandonment => WoundCategory::Abandonment,
            Wound::RomanticAbandonment => WoundCategory::Abandonment,
            Wound::SocialExile => WoundCategory::Displacement,
            Wound::InstitutionalBetrayal => WoundCategory::Betrayal,
            Wound::PublicHumiliation => WoundCategory::Shame,
            Wound::IdentityShame => WoundCategory::Shame,
            Wound::LossOfPurpose => WoundCategory::GuiltAndFailure,
            Wound::CatastrophicFailure => WoundCategory::GuiltAndFailure,
            Wound::MoralCompromise => WoundCategory::GuiltAndFailure,
            Wound::Smothering => WoundCategory::Powerlessness,
        }
    }

    /// Maps any `Wound` variant to its broad `WoundCategory`.
    ///
    /// Umbrella wounds map directly to the category of the same name;
    /// catalog-native wounds map to their parent umbrella category.
    pub fn category(self) -> (r: WoundCategory)
        ensures
            r == self.spec_category(),
    {
        match self {
            Wound::Abandonment => WoundCategory::Abandonment,
            Wound::Betrayal => WoundCategory::Betrayal,
            Wound::GuiltAndFailure => WoundCategory::GuiltAndFailure,
            Wound::TraumaAndAbuse => WoundCategory::TraumaAndAbuse,
            Wound::Shame => WoundCategory::Shame,
            Wound::Grief => WoundCategory::Grief,
            Wound::TrustViolation => WoundCategory::TrustViolation,
            Wound::Powerlessness => WoundCategory::Powerlessness,
            Wound::IdentityRejection => WoundCategory::IdentityRejection,
            Wound::Injustice => WoundCategory::Injustice,
            Wound::Neglect => WoundCategory::Neglect,
            Wound::SurvivorGuilt => WoundCategory::SurvivorGuilt,
            Wound::Displacement => WoundCategory::Displacement,
            Wound::ParentalAbandonment => WoundCategory::Abandonment,
            Wound::RomanticAbandonment => WoundCategory::Abandonment,
            Wound::SocialExile => WoundCategory::Displacement,
            Wound::InstitutionalBetrayal => WoundCategory::Betrayal,
            Wound::PublicHumiliation => WoundCategory::Shame,
            Wound::IdentityShame => WoundCategory::Shame,
            Wound::LossOfPurpose => WoundCategory::GuiltAndFailure,
            Wound::CatastrophicFailure => WoundCategory::GuiltAndFailure,
            Wound::MoralCompromise => WoundCategory::GuiltAndFailure,
            Wound::Smothering => WoundCategory::Powerlessness,
        }
    }
}

/// An umbrella wound belongs to the category that bears its own name.
pub proof fn lemma_umbrella_wound_names_its_category(w: Wound)
    requires
        w.is_umbrella(),
    ensures
        w.spec_category().spec_name() == w.spec_name(),
{
}

/// Every category is reached by exactly one umbrella wound, its namesake.
pub proof fn lemma_category_has_umbrella_wound(c: WoundCategory)
    ensures
        exists|w: Wound| w.is_umbrella() && #[trigger] w.spec_category() == c && w.spec_name()
            == c.spec_name(),
{
    let w = match c {
        WoundCategory::Abandonment => Wound::Abandonment,
        WoundCategory::Betrayal => Wound::Betrayal,
        WoundCategory::GuiltAndFailure => Wound::GuiltAndFailure,
        WoundCategory::TraumaAndAbuse => Wound::TraumaAndAbuse,
        WoundCategory::Shame => Wound::Shame,
        WoundCategory::Grief => Wound::Grief,
        WoundCategory::TrustViolation => Wound::TrustViolation,
        WoundCategory::Powerlessness => Wound::Powerlessness,
        WoundCategory::IdentityRejection => Wound::IdentityRejection,
        WoundCategory::Injustice => Wound::Injustice,
        WoundCategory::Neglect => Wound::Neglect,
        WoundCategory::SurvivorGuilt => Wound::SurvivorGuilt,
        WoundCategory::Displacement => Wound::Displacement,
    };
    assert(w.is_umbrella() && w.spec_category() == c && w.spec_name() == c.spec_name());
}

// ── Sentence architecture ─────────────────────────────────────────────────────

impl SentenceType {
    /// The oral-architecture category of a sentence type.
    pub open spec fn spec_architecture(self) -> SentenceArchitecture {
        match self {
            SentenceType::Additive => SentenceArchitecture::Additive,
            SentenceType::Subordinative => SentenceArchitecture::Subordinative,
            _ => SentenceArchitecture::Mixed,
        }
    }

    /// Returns the coarsened oral-architecture category for this sentence type.
    ///
    /// `Additive` and `Subordinative` map directly.  All other sentence types
    /// (`Periodic`, `Cumulative`, `Appositive`, `AbsolutePhrase`, `Fragment`)
    /// map to `Mixed` because they don't fit cleanly into either oral pattern.
    pub fn architecture(self) -> (r: SentenceArchitecture)
        ensures
            r == self.spec_architecture(),
    {
        match self {
            SentenceType::Additive => SentenceArchitecture::Additive,
            SentenceType::Subordinative => SentenceArchitecture::Subordinative,
            _ => SentenceArchitecture::Mixed,
        }
    }
}

impl From<SentenceType> for SentenceArchitecture {
    fn from(st: SentenceType) -> (r: Self) {
        st.architecture()
    }
}

impl vstd::std_specs::convert::FromSpecImpl<SentenceType> for SentenceArchitecture {
    open spec fn obeys_from_spec() -> bool {
        true
    }

    open spec fn from_spec(st: SentenceType) -> Self {
        st.spec_architecture()
    }
}

/// The two pure oral shapes keep their own name as architecture; every
/// other sentence type is `Mixed`.
pub proof fn lemma_architecture_keeps_pure_names(st: SentenceType)
    ensures
        st.spec_architecture() != SentenceArchitecture::Mixed ==> st.spec_architecture().spec_name()
            == st.spec_name(),
{
}

// ── Marxist modes and Williams' cultural structures ───────────────────────────

impl MarxistNarrativeMode {
    /// The Williams structure of feeling a mode stands for, if any.
    pub open spec fn spec_cultural_structure(self) -> Option<CulturalStructure> {
        match self {
            MarxistNarrativeMode::DominantStructure => Some(CulturalStructure::Dominant),
            MarxistNarrativeMode::ResidualStructure => Some(CulturalStructure::Residual),
            MarxistNarrativeMode::EmergentStructure => Some(CulturalStructure::Emergent),
            _ => None,
        }
    }

    /// The mode that stands for a Williams structure of feeling.
    pub open spec fn spec_from_cultural_structure(c: CulturalStructure) -> Self {
        match c {
            CulturalStructure::Dominant => MarxistNarrativeMode::DominantStructure,
            CulturalStructure::Residual => MarxistNarrativeMode::ResidualStructure,
            CulturalStructure::Emergent => MarxistNarrativeMode::EmergentStructure,
        }
    }

    /// Returns the Williams `CulturalStructure` equivalent for the three
    /// structure-of-feeling variants, or `None` for Jameson/Goldmann/Lukács modes.
    ///
    /// This formalises the overlap between the standalone `cultural_structure`
    /// annotation tag and the `marxist_mode` tag: the same Williams concept appears
    /// in both contexts and both are valid — `cultural_structure` for standalone
    /// thematic annotation, `marxist_mode` for full Marxist meta-analysis.
    pub fn as_cultural_structure(self) -> (r: Option<CulturalStructure>)
        ensures
            r == self.spec_cultural_structure(),
    {
        match self {
            MarxistNarrativeMode::DominantStructure => Some(CulturalStructure::Dominant),
            MarxistNarrativeMode::ResidualStructure => Some(CulturalStructure::Residual),
            MarxistNarrativeMode::EmergentStructure => Some(CulturalStructure::Emergent),
            _ => None,
        }
    }
}

impl From<CulturalStructure> for MarxistNarrativeMode {
    /// Lifts a Williams `CulturalStructure` into the `MarxistNarrativeMode` context
    /// for cross-phase constraint validation.
    fn from(c: CulturalStructure) -> (r: Self) {
        match c {
            CulturalStructure::Dominant => MarxistNarrativeMode::DominantStructure,
            CulturalStructure::Residual => MarxistNarrativeMode::ResidualStructure,
            CulturalStructure::Emergent => MarxistNarrativeMode::EmergentStructure,
        }
    }
}

impl vstd::std_specs::convert::FromSpecImpl<CulturalStructure> for MarxistNarrativeMode {
    open spec fn obeys_from_spec() -> bool {
        true
    }

    open spec fn from_spec(c: CulturalStructure) -> Self {
        MarxistNarrativeMode::spec_from_cultural_structure(c)
    }
}

/// Lifting a structure of feeling into the Marxist modes and reading it
/// back gives the same structure.
pub proof fn lemma_cultural_structure_roundtrip(c: CulturalStructure)
    ensures
        MarxistNarrativeMode::spec_from_cultural_structure(c).spec_cultural_structure() == Some(c),
{
}

/// A mode that stands for a structure of feeling is the lift of that
/// structure; the other modes stand for none.
pub proof fn lemma_marxist_mode_lift_inverse(m: MarxistNarrativeMode)
    ensures
        match m.spec_cultural_structure() {
            Some(c) => MarxistNarrativeMode::spec_from_cultural_structure(c) == m,
            None => forall|c: CulturalStructure|
                #[trigger] MarxistNarrativeMode::spec_from_cultural_structure(c) != m,
        },
{
}

} // verus!
