//! Snake-case names of the closed vocabularies.
//!
//! Every controlled enumeration of the data model is written in annotations,
//! catalogs and schemas by a `snake_case` name.  The [`SnakeName`] trait ties
//! each variant to that name in both directions.

use vstd::prelude::*;

verus! {

/// The variant of `T` whose snake-case name is `s`, if there is one.
pub open spec fn parse_name<T: SnakeName>(s: Seq<char>) -> Option<T> {
    if exists|v: T| #[trigger] v.spec_name() == s {
        Some(choose|v: T| #[trigger] v.spec_name() == s)
    } else {
        None
    }
}

/// A closed vocabulary whose variants are written as distinct snake-case names.
pub trait SnakeName: Sized + Copy {
    /// The snake-case name of a variant.
    spec fn spec_name(self) -> Seq<char>;

    /// The snake-case name of this variant (its `Display` form).
    fn name(&self) -> (r: &'static str)
        ensures
            r@ == self.spec_name(),
    ;

    /// The variant named `s`; `None` when `s` names no variant.
    /// Since names are distinct, this determines the result
    /// (see [`lemma_from_name_exact`]).
    fn from_name(s: &str) -> (r: Option<Self>)
        ensures
            r matches Some(v) ==> v.spec_name() == s@,
            r is None ==> forall|v: Self| #[trigger] v.spec_name() != s@,
    ;

    /// No two variants share a name.
    proof fn lemma_name_injective(a: Self, b: Self)
        ensures
            a.spec_name() == b.spec_name() ==> a == b,
    ;
}

/// Reading back the name of a variant yields that variant.
pub proof fn lemma_parse_name_of_name<T: SnakeName>(v: T)
    ensures
        parse_name::<T>(v.spec_name()) == Some(v),
{
    let w = choose|w: T| #[trigger] w.spec_name() == v.spec_name();
    T::lemma_name_injective(v, w);
}

/// Any result meeting the contract of `from_name` is the parse of `s`.
pub proof fn lemma_from_name_exact<T: SnakeName>(s: Seq<char>, r: Option<T>)
    requires
        r matches Some(v) ==> v.spec_name() == s,
        r is None ==> forall|v: T| #[trigger] v.spec_name() != s,
    ensures
        r == parse_name::<T>(s),
{
    if let Some(v) = r {
        lemma_parse_name_of_name(v);
    }
}

/// A successful parse returns a variant carrying exactly the parsed name.
pub proof fn lemma_parse_name_sound<T: SnakeName>(s: Seq<char>)
    ensures
        parse_name::<T>(s) matches Some(v) ==> v.spec_name() == s,
        parse_name::<T>(s) is None ==> forall|v: T| #[trigger] v.spec_name() != s,
{
}

} // verus!
