//! The concurrent interner: one registry behind a reader/writer lock.

use crate::handle::Interned;
use crate::internable::Internable;
use crate::lock::{exclusive, shared};
use crate::registry::Registry;
use std::sync::RwLock;
use vstd::prelude::*;

verus! {

/// A deduplicating store for one value type that any number of threads may
/// share: a registry behind a reader/writer lock.
///
/// What the registry holds at a given moment depends on the other threads,
/// so the contracts here state what holds whichever calls came before.
/// [`Registry`] states what one call does to a given store, and
/// [`crate::laws`] what follows for any number of calls in any order.
#[verifier::reject_recursive_types(T)]
pub struct Interner<T: Internable + ?Sized> {
    map: RwLock<Registry<T>>,
}

impl<T: Internable + ?Sized> Interner<T> {
    /// An interner that has no canonical instance yet.
    pub fn new() -> (interner: Self) {
        Interner { map: RwLock::new(Registry::new()) }
    }

    /// Returns the handle of the canonical instance that is structurally
    /// equal to `value`.
    ///
    /// The registry is searched under the shared lock first, which never
    /// allocates and lets any number of readers in. Only where that finds
    /// nothing is the exclusive lock taken, and the registry searched again
    /// before a copy of `value` is leaked and added: another thread may have
    /// added one in between. A lock that a panic has poisoned is used as it
    /// was left, since an instance is never changed once it is added.
    ///
    /// The contract states what holds whatever the other threads did. Which
    /// identity the handle has is fixed by [`Registry::lookup`] and
    /// [`Registry::intern`] alone, for the registry as the lock held it at
    /// the moment of the call.
    pub fn intern(&self, value: &T) -> (handle: Interned<T>)
        ensures
            handle@ == value@,
    {
        let found = {
            let guard = match self.map.read() {
                Ok(guard) => guard,
                Err(poisoned) => poisoned.into_inner(),
            };
            shared(&guard).lookup(value)
        };
        match found {
            Some(handle) => handle,
            None => {
                let mut guard = match self.map.write() {
                    Ok(guard) => guard,
                    Err(poisoned) => poisoned.into_inner(),
                };
                exclusive(&mut guard).intern(value)
            },
        }
    }
}

} // verus!
