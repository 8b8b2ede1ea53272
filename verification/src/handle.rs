//! The handle to a canonical instance.

use crate::internable::Internable;
use std::fmt::{Debug, Error, Formatter};
use std::hash::{Hash, Hasher};
use vstd::prelude::*;
use vstd::std_specs::cmp::PartialEqSpecImpl;

verus! {

/// A copyable handle to a canonical instance.
///
/// A handle is compared and hashed by the identity of the instance it refers
/// to, never by the instance's content. The identity has two parts: the slot
/// of the instance in the registry that issued the handle, and the address
/// at which the instance lives. Two handles are equal when both parts are.
///
/// Of handles that one registry issued, that is so exactly when the contents
/// of their instances are equal; [`crate::laws`] proves it. Handles of two
/// registries refer to two allocations and so differ in the address. No
/// contract says that: where an allocation lies is the allocator's choice.
pub struct Interned<T: Internable + ?Sized> {
    instance: &'static T,
    slot: usize,
    addr: usize,
}

impl<T: Internable + ?Sized> View for Interned<T> {
    type V = T::V;

    /// The content of the canonical instance.
    closed spec fn view(&self) -> T::V {
        self.instance@
    }
}

impl<T: Internable + ?Sized> Interned<T> {
    /// The slot of the canonical instance in the registry that issued the
    /// handle.
    pub closed spec fn id(&self) -> nat {
        self.slot as nat
    }

    /// The address of the canonical instance, as it was taken when the
    /// instance was added to its registry.
    pub closed spec fn address(&self) -> nat {
        self.addr as nat
    }

    /// The identity: the slot, then the address.
    pub open spec fn identity(&self) -> (nat, nat) {
        (self.id(), self.address())
    }

    /// The handle to `instance`, which stands at `slot` of its registry and
    /// lives at `addr`.
    pub(crate) fn issue(instance: &'static T, slot: usize, addr: usize) -> (handle: Self)
        ensures
            handle@ == instance@,
            handle.id() == slot,
            handle.address() == addr,
    {
        Interned { instance, slot, addr }
    }

    /// The canonical instance itself.
    pub fn get(&self) -> (canonical: &'static T)
        ensures
            canonical@ == self@,
    {
        self.instance
    }

    /// The identity as machine numbers: the slot, then the address. It is
    /// what `==` compares and all that `hash` feeds to a hasher.
    pub fn key(&self) -> (key: (usize, usize))
        ensures
            (key.0 as nat, key.1 as nat) == self.identity(),
    {
        (self.slot, self.addr)
    }
}

impl<T: Internable + ?Sized> Clone for Interned<T> {
    fn clone(&self) -> (copy: Self)
        ensures
            copy == *self,
    {
        Interned { instance: self.instance, slot: self.slot, addr: self.addr }
    }
}

impl<T: Internable + ?Sized> Copy for Interned<T> {

}

impl<T: Internable + ?Sized> PartialEq for Interned<T> {
    fn eq(&self, other: &Self) -> (same: bool) {
        self.slot == other.slot && self.addr == other.addr
    }
}

impl<T: Internable + ?Sized> PartialEqSpecImpl for Interned<T> {
    open spec fn obeys_eq_spec() -> bool {
        true
    }

    open spec fn eq_spec(&self, other: &Self) -> bool {
        self.identity() == other.identity()
    }
}

impl<T: Internable + ?Sized> Eq for Interned<T> {

}

/// `std::fmt::Formatter`, opaque.
#[verifier::external_type_specification]
#[verifier::external_body]
pub struct ExFormatter<'a>(Formatter<'a>);

/// `std::fmt::Error`, opaque.
#[verifier::external_type_specification]
#[verifier::external_body]
pub struct ExError(Error);

impl<T: Internable + Debug + ?Sized> Debug for Interned<T> {
    /// `Formatter::debug_struct`: writes the handle as a struct named
    /// `Interned` with the one field `instance`, the canonical instance.
    /// Nothing is claimed of what the formatter holds afterwards.
    #[verifier::external_body]
    fn fmt(&self, f: &mut Formatter<'_>) -> (written: Result<(), Error>) {
        f.debug_struct("Interned").field("instance", &self.instance).finish()
    }
}

/// `Hash::hash` of `usize`: feeds `number` to the hasher. Nothing is claimed
/// of the hasher's state.
#[verifier::external_body]
fn feed<H: Hasher>(number: usize, state: &mut H) {
    number.hash(state)
}

impl<T: Internable + ?Sized> Hash for Interned<T> {
    /// Feeds the two numbers of [`Interned::key`] to the hasher, and nothing
    /// of the content.
    fn hash<H: Hasher>(&self, state: &mut H) {
        let key = self.key();
        feed(key.0, state);
        feed(key.1, state);
    }
}

} // verus!
