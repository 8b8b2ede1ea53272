//! The deduplicating registry of canonical instances.

use crate::handle::Interned;
use crate::internable::Internable;
use vstd::prelude::*;
use vstd::std_specs::cmp::PartialEqSpec;

verus! {

/// The position of `v` in a duplicate-free store.
pub open spec fn slot_of<V>(store: Seq<V>, v: V) -> int {
    store.index_of(v)
}

/// The store after `v` has been interned.
pub open spec fn interned<V>(store: Seq<V>, v: V) -> Seq<V> {
    if store.contains(v) {
        store
    } else {
        store.push(v)
    }
}

/// In a duplicate-free store, the position at which a value stands is its
/// slot.
pub proof fn lemma_slot_unique<V>(store: Seq<V>, v: V, i: int)
    requires
        store.no_duplicates(),
        0 <= i < store.len(),
        store[i] == v,
    ensures
        store.contains(v),
        slot_of(store, v) == i,
{
}

/// `std::ptr::from_ref(..).addr()`: the address at which the referent
/// lives. An address depends on where the allocator put the referent, so
/// nothing is claimed of the number.
#[verifier::external_body]
fn address<T: ?Sized>(instance: &'static T) -> (addr: usize) {
    std::ptr::from_ref(instance).addr()
}

/// The canonical instances of one value type, in the order in which they
/// were first interned: an arena that only grows and never holds two
/// structurally equal instances.
///
/// The view is the sequence of the instances' contents. The position of an
/// instance in it never changes. Together with the address of the instance,
/// which is taken once when the instance is added, it is the identity of
/// the handles to that instance.
pub struct Registry<T: Internable + ?Sized> {
    arena: Vec<Interned<T>>,
}

impl<T: Internable + ?Sized> View for Registry<T> {
    type V = Seq<T::V>;

    closed spec fn view(&self) -> Seq<T::V> {
        Seq::new(self.arena@.len(), |i: int| self.arena@[i]@)
    }
}

impl<T: Internable + ?Sized> Registry<T> {
    #[verifier::type_invariant]
    spec fn well_formed(self) -> bool {
        &&& self@.no_duplicates()
        &&& forall|i: int| 0 <= i < self.arena@.len() ==> (#[trigger] self.arena@[i]).id() == i
    }

    /// The addresses of the canonical instances, slot by slot, as they were
    /// taken when the instances were added.
    pub closed spec fn addresses(&self) -> Seq<nat> {
        Seq::new(self.arena@.len(), |i: int| self.arena@[i].address())
    }

    /// Whether `handle` refers to an instance of this registry: its slot is
    /// taken here, by an instance of the content that the handle shows and of
    /// the address that the handle holds.
    pub open spec fn issued(&self, handle: Interned<T>) -> bool {
        &&& handle.id() < self@.len()
        &&& handle.id() < self.addresses().len()
        &&& self@[handle.id() as int] == handle@
        &&& self.addresses()[handle.id() as int] == handle.address()
    }

    /// An empty registry.
    pub fn new() -> (registry: Self)
        ensures
            registry@ == Seq::<T::V>::empty(),
            registry.addresses() == Seq::<nat>::empty(),
    {
        Registry { arena: Vec::new() }
    }

    /// The number of canonical instances.
    pub fn len(&self) -> (n: usize)
        ensures
            n == self@.len(),
    {
        self.arena.len()
    }

    /// Finds the canonical instance that is structurally equal to `value`,
    /// and leaves the registry as it is.
    pub fn lookup(&self, value: &T) -> (found: Option<Interned<T>>)
        ensures
            self@.no_duplicates(),
            self.addresses().len() == self@.len(),
            found.is_some() == self@.contains(value@),
            found matches Some(handle) ==> {
                &&& handle@ == value@
                &&& handle.id() == slot_of(self@, value@)
                &&& self.issued(handle)
            },
    {
        proof {
            use_type_invariant(self);
            T::eq_is_structural();
        }
        let mut slot: usize = 0;
        while slot < self.arena.len()
            invariant
                slot <= self.arena@.len(),
                self@.no_duplicates(),
                forall|i: int|
                    0 <= i < self.arena@.len() ==> (#[trigger] self.arena@[i]).id() == i,
                T::obeys_eq_spec(),
                forall|a: &T, b: &T| #[trigger] a.eq_spec(b) <==> a@ == b@,
                forall|i: int| 0 <= i < slot ==> self@[i] != value@,
            decreases self.arena@.len() - slot,
        {
            let handle: Interned<T> = self.arena[slot].clone();
            if *handle.get() == *value {
                proof {
                    lemma_slot_unique(self@, value@, slot as int);
                }
                return Some(handle);
            }
            slot += 1;
        }
        None
    }

    /// Returns the handle of the canonical instance that is structurally
    /// equal to `value`. Where the registry holds none yet, a leaked copy of
    /// `value` becomes that instance, at the end of the arena, and its
    /// address is taken.
    pub fn intern(&mut self, value: &T) -> (handle: Interned<T>)
        ensures
            old(self)@.no_duplicates(),
            final(self)@ == interned(old(self)@, value@),
            final(self)@.no_duplicates(),
            old(self)@.is_prefix_of(final(self)@),
            old(self).addresses().is_prefix_of(final(self).addresses()),
            final(self).addresses() == (if old(self)@.contains(value@) {
                old(self).addresses()
            } else {
                old(self).addresses().push(handle.address())
            }),
            final(self).addresses().len() == final(self)@.len(),
            handle@ == value@,
            handle.id() == slot_of(final(self)@, value@),
            final(self).issued(handle),
    {
        proof {
            let before = self@;
            let addresses = self.addresses();
            assert(before.subrange(0, before.len() as int) =~= before);
            assert(addresses.subrange(0, addresses.len() as int) =~= addresses);
            assert(before.push(value@).subrange(0, before.len() as int) =~= before);
        }
        match self.lookup(value) {
            Some(handle) => handle,
            None => {
                proof {
                    use_type_invariant(&*self);
                }
                let instance = value.leak();
                let mut arena: Vec<Interned<T>> = Vec::new();
                std::mem::swap(&mut arena, &mut self.arena);
                let slot: usize = arena.len();
                let handle = Interned::issue(instance, slot, address(instance));
                arena.push(handle);
                proof {
                    let grown = Seq::new(arena@.len(), |i: int| arena@[i]@);
                    assert(grown =~= old(self)@.push(value@));
                    assert(grown.no_duplicates());
                }
                self.arena = arena;
                proof {
                    lemma_slot_unique(self@, value@, slot as int);
                    let before = old(self).addresses();
                    let grown = before.push(handle.address());
                    assert(self.addresses() =~= grown);
                    assert(grown.subrange(0, before.len() as int) =~= before);
                }
                handle
            },
        }
    }
}

} // verus!
