//! Closed vocabularies and their wire spellings.
use vstd::prelude::*;

verus! {

/// A closed set of values, each with exactly one spelling on the wire.
pub trait WireToken: Sized {
    /// The spelling of this value on the wire.
    spec fn wire(&self) -> Seq<char>;

    /// No two values share a spelling.
    proof fn lemma_wire_injective(a: Self, b: Self)
        ensures
            a.wire() == b.wire() ==> a == b,
    ;

    /// The spelling of this value.
    fn token(&self) -> (r: &'static str)
        ensures
            r@ == self.wire(),
    ;

    /// The value spelled `s`, if any: the match is exact and case-sensitive.
    fn from_token(s: &str) -> (r: Option<Self>)
        ensures
            match r {
                Some(v) => v.wire() == s@,
                None => forall|v: Self| #[trigger] v.wire() != s@,
            },
    ;
}

} // verus!
