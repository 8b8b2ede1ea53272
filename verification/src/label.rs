//! A text label: the reference internable type.

use crate::handle::Interned;
use crate::internable::Internable;
use crate::interner::Interner;
use vstd::prelude::*;
use vstd::std_specs::cmp::PartialEqSpecImpl;

verus! {

/// A thin wrapper over a text value. Its view is the text.
#[derive(Debug, Copy, Clone, Hash)]
pub struct Label(pub &'static str);

impl View for Label {
    type V = Seq<char>;

    open spec fn view(&self) -> Seq<char> {
        self.0@
    }
}

/// `==` of `str`: true exactly when both slices hold the same characters.
#[verifier::external_body]
fn same_text(a: &str, b: &str) -> (same: bool)
    ensures
        same == (a@ == b@),
{
    a == b
}

/// `Box::leak`: the box gives up its allocation, which is never freed, and
/// the reference to the boxed value is good for the rest of the process.
#[verifier::external_body]
fn leak_box(boxed: Box<Label>) -> (leaked: &'static Label)
    ensures
        *leaked == *boxed,
{
    Box::leak(boxed)
}

impl PartialEq for Label {
    fn eq(&self, other: &Self) -> (same: bool) {
        same_text(self.0, other.0)
    }
}

impl PartialEqSpecImpl for Label {
    open spec fn obeys_eq_spec() -> bool {
        true
    }

    open spec fn eq_spec(&self, other: &Self) -> bool {
        self@ == other@
    }
}

impl Eq for Label {

}

impl Label {
    /// Returns the handle of the canonical instance in `interner` that holds
    /// the same text as this label. Which identity the handle has is fixed
    /// by the registry of `interner` alone.
    pub fn intern(&self, interner: &Interner<Label>) -> (handle: Interned<Label>)
        ensures
            handle@ == self@,
    {
        interner.intern(self)
    }
}

impl Internable for Label {
    proof fn eq_is_structural() {
    }

    fn leak(&self) -> (canonical: &'static Self) {
        leak_box(Box::new(Label(self.0)))
    }
}

} // verus!
