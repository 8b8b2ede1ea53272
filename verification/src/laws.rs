//! What holds of interning, whatever is interned and in whatever order.
//!
//! The laws speak of stores: the duplicate-free sequences of contents that a
//! registry's view ranges over. An interner only ever appends to its store,
//! so of two moments in its life the store of the earlier one is a prefix of
//! the store of the later one. The same holds of the addresses that a
//! registry keeps beside its store.
//!
//! The first laws are about slots. The last ones carry them over to handles,
//! whose identity is a slot together with the address kept for it.

use crate::handle::Interned;
use crate::internable::Internable;
use crate::registry::{interned, slot_of, Registry};
use vstd::prelude::*;
use vstd::std_specs::cmp::PartialEqSpec;

verus! {

/// A value that a store contains stands at its slot.
pub proof fn lemma_slot_holds_value<V>(store: Seq<V>, v: V)
    requires
        store.contains(v),
    ensures
        0 <= slot_of(store, v) < store.len(),
        store[slot_of(store, v)] == v,
{
}

/// Interning keeps the store as it was and adds at most the value at its
/// end: afterwards the store contains the value and still holds nothing
/// twice.
pub proof fn lemma_interned_extends<V>(store: Seq<V>, v: V)
    requires
        store.no_duplicates(),
    ensures
        interned(store, v).no_duplicates(),
        interned(store, v).contains(v),
        store.is_prefix_of(interned(store, v)),
        interned(store, v).len() == store.len() + (if store.contains(v) {
            0int
        } else {
            1int
        }),
{
    let after = interned(store, v);
    if store.contains(v) {
        assert(after == store);
    } else {
        assert(after[store.len() as int] == v);
    }
    assert(after.subrange(0, store.len() as int) =~= store);
}

/// A slot, once given, is kept: a value of the earlier store stands at the
/// same slot in every later one.
pub proof fn lemma_slot_kept<V>(earlier: Seq<V>, later: Seq<V>, v: V)
    requires
        later.no_duplicates(),
        earlier.is_prefix_of(later),
        earlier.contains(v),
    ensures
        later.contains(v),
        slot_of(later, v) == slot_of(earlier, v),
{
    let slot = slot_of(earlier, v);
    assert(later.subrange(0, earlier.len() as int)[slot] == v);
    assert(later[slot] == v);
}

/// Uniqueness: structurally equal values get the same slot, however much
/// was interned between the two calls.
pub proof fn lemma_uniqueness<V>(first: Seq<V>, later: Seq<V>, a: V, b: V)
    requires
        later.no_duplicates(),
        interned(first, a).is_prefix_of(later),
        a == b,
    ensures
        slot_of(interned(later, b), b) == slot_of(interned(first, a), a),
{
    lemma_interned_extends(later, b);
    assert(interned(first, a).contains(a)) by {
        if !first.contains(a) {
            assert(first.push(a)[first.len() as int] == a);
        }
    }
    lemma_slot_kept(interned(first, a), later, a);
}

/// Distinctness: structurally unequal values get different slots.
pub proof fn lemma_distinctness<V>(first: Seq<V>, later: Seq<V>, a: V, b: V)
    requires
        later.no_duplicates(),
        interned(first, a).is_prefix_of(later),
        a != b,
    ensures
        slot_of(interned(later, b), b) != slot_of(interned(first, a), a),
{
    let last = interned(later, b);
    lemma_interned_extends(later, b);
    assert(interned(first, a).contains(a)) by {
        if !first.contains(a) {
            assert(first.push(a)[first.len() as int] == a);
        }
    }
    lemma_slot_kept(interned(first, a), later, a);
    lemma_slot_kept(later, last, a);
    lemma_slot_holds_value(last, a);
    lemma_slot_holds_value(last, b);
}

/// Idempotence: interning the canonical instance of a handle again changes
/// nothing and gives the slot of that handle.
pub proof fn lemma_idempotence<V>(first: Seq<V>, later: Seq<V>, v: V)
    requires
        later.no_duplicates(),
        interned(first, v).is_prefix_of(later),
    ensures
        ({
            let slot = slot_of(interned(first, v), v);
            let canonical = interned(first, v)[slot];
            &&& interned(later, canonical) == later
            &&& slot_of(later, canonical) == slot
        }),
{
    assert(interned(first, v).contains(v)) by {
        if !first.contains(v) {
            assert(first.push(v)[first.len() as int] == v);
        }
    }
    lemma_slot_holds_value(interned(first, v), v);
    lemma_slot_kept(interned(first, v), later, v);
}

/// The store after the values of `calls` have been interned into `store`,
/// one after another.
pub open spec fn interned_all<V>(store: Seq<V>, calls: Seq<V>) -> Seq<V>
    decreases calls.len(),
{
    if calls.len() == 0 {
        store
    } else {
        interned(interned_all(store, calls.drop_last()), calls.last())
    }
}

/// The slot that the call at position `k` of `calls` returns.
pub open spec fn slot_returned<V>(store: Seq<V>, calls: Seq<V>, k: int) -> int {
    slot_of(interned_all(store, calls.take(k + 1)), calls[k])
}

/// A prefix of a prefix is a prefix.
proof fn lemma_prefix_transitive<V>(a: Seq<V>, b: Seq<V>, c: Seq<V>)
    requires
        a.is_prefix_of(b),
        b.is_prefix_of(c),
    ensures
        a.is_prefix_of(c),
{
    assert forall|i: int| 0 <= i < a.len() implies a[i] == c[i] by {
        assert(a[i] == b.subrange(0, a.len() as int)[i]);
        assert(b[i] == c.subrange(0, b.len() as int)[i]);
    }
    assert(a =~= c.subrange(0, a.len() as int));
}

/// However many calls follow one another, the store stays duplicate-free,
/// and the store as it stood after any one call is a prefix of the store
/// after all of them.
pub proof fn lemma_calls_extend<V>(store: Seq<V>, calls: Seq<V>, k: int)
    requires
        store.no_duplicates(),
        0 <= k <= calls.len(),
    ensures
        interned_all(store, calls).no_duplicates(),
        interned_all(store, calls.take(k)).is_prefix_of(interned_all(store, calls)),
        k > 0 ==> interned_all(store, calls.take(k)).contains(calls[k - 1]),
    decreases calls.len(),
{
    if calls.len() == 0 {
        assert(calls.take(k) =~= calls);
        assert(store.subrange(0, store.len() as int) =~= store);
    } else {
        let before = interned_all(store, calls.drop_last());
        lemma_calls_extend(store, calls.drop_last(), 0);
        lemma_interned_extends(before, calls.last());
        if k == calls.len() {
            assert(calls.take(k) =~= calls);
            let all = interned_all(store, calls);
            assert(all.subrange(0, all.len() as int) =~= all);
        } else {
            assert(calls.drop_last().take(k) =~= calls.take(k));
            lemma_calls_extend(store, calls.drop_last(), k);
            lemma_prefix_transitive(
                interned_all(store, calls.take(k)),
                before,
                interned_all(store, calls),
            );
        }
    }
}

/// Whatever the order in which the calls of any number of threads take
/// effect, two of them return the same slot exactly when their values are
/// structurally equal, and the store that they leave holds each of their
/// values exactly once.
pub proof fn lemma_any_order<V>(store: Seq<V>, calls: Seq<V>, i: int, j: int)
    requires
        store.no_duplicates(),
        0 <= i < calls.len(),
        0 <= j < calls.len(),
    ensures
        slot_returned(store, calls, i) == slot_returned(store, calls, j) <==> calls[i] == calls[j],
        interned_all(store, calls).no_duplicates(),
        interned_all(store, calls).contains(calls[i]),
        slot_returned(store, calls, i) == slot_of(interned_all(store, calls), calls[i]),
{
    let last = interned_all(store, calls);
    lemma_calls_extend(store, calls, i + 1);
    lemma_calls_extend(store, calls, j + 1);
    lemma_slot_kept(interned_all(store, calls.take(i + 1)), last, calls[i]);
    lemma_slot_kept(interned_all(store, calls.take(j + 1)), last, calls[j]);
    lemma_slot_holds_value(last, calls[i]);
    lemma_slot_holds_value(last, calls[j]);
}

/// Identity and structure agree: of two handles that one registry issued,
/// `==` holds exactly when the contents of their instances are equal.
pub proof fn lemma_identity_agrees_with_structure<T: Internable + ?Sized>(
    registry: Registry<T>,
    a: Interned<T>,
    b: Interned<T>,
)
    requires
        registry@.no_duplicates(),
        registry.issued(a),
        registry.issued(b),
    ensures
        a.eq_spec(&b) <==> a@ == b@,
{
}

/// A handle that a registry issued is a handle of every later state of that
/// registry.
pub proof fn lemma_issued_for_good<T: Internable + ?Sized>(
    earlier: Registry<T>,
    later: Registry<T>,
    handle: Interned<T>,
)
    requires
        earlier@.is_prefix_of(later@),
        earlier.addresses().is_prefix_of(later.addresses()),
        earlier.issued(handle),
    ensures
        later.issued(handle),
{
    let slot = handle.id() as int;
    assert(later@.subrange(0, earlier@.len() as int)[slot] == handle@);
    assert(later.addresses().subrange(0, earlier.addresses().len() as int)[slot]
        == handle.address());
}

/// Of two handles that one registry issued at two moments of its life, `==`
/// holds exactly when the contents of their instances are equal, however
/// much was interned in between.
pub proof fn lemma_equal_exactly_when_structurally_equal<T: Internable + ?Sized>(
    earlier: Registry<T>,
    later: Registry<T>,
    a: Interned<T>,
    b: Interned<T>,
)
    requires
        later@.no_duplicates(),
        earlier@.is_prefix_of(later@),
        earlier.addresses().is_prefix_of(later.addresses()),
        earlier.issued(a),
        later.issued(b),
    ensures
        a.eq_spec(&b) <==> a@ == b@,
{
    lemma_issued_for_good(earlier, later, a);
    lemma_identity_agrees_with_structure(later, a, b);
}

/// Two handles are equal exactly when their identities are. `key` returns
/// the identity, so equal handles have equal keys and unequal handles
/// different ones.
pub proof fn lemma_equal_handles_share_identity<T: Internable + ?Sized>(
    a: Interned<T>,
    b: Interned<T>,
)
    ensures
        a.eq_spec(&b) <==> a.identity() == b.identity(),
        a.eq_spec(&b) ==> a.id() == b.id() && a.address() == b.address(),
{
}

} // verus!
