//! What a value type supplies to be interned.

use std::hash::Hash;
use vstd::prelude::*;
use vstd::std_specs::cmp::PartialEqSpec;

verus! {

/// A value type that can be interned.
///
/// The view of a value is its content. Two values are structurally equal
/// when their views are equal, and `==` has to decide exactly that. `Hash`
/// has to agree with `==`; a registry compares by `==` alone.
///
/// An interner calls `==` and `leak` while it holds its lock. Neither may
/// intern into the interner that is calling it: the lock is not reentrant,
/// and such a call panics or never returns.
pub trait Internable: View + PartialEq + Eq + Hash + 'static {
    /// `==` on this type is specified, and it holds of two values exactly
    /// when their views are equal.
    proof fn eq_is_structural()
        ensures
            Self::obeys_eq_spec(),
            forall|a: &Self, b: &Self| #[trigger] a.eq_spec(b) <==> a@ == b@,
    ;

    /// Allocates a copy of the value that lives for the rest of the process
    /// and is never freed.
    fn leak(&self) -> (canonical: &'static Self)
        ensures
            canonical@ == self@,
    ;
}

} // verus!
