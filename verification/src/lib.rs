//! Interning: structurally equal values are deduplicated into one canonical
//! instance that lives for the rest of the process, and a handle to such an
//! instance is compared and hashed by identity instead of content.
//!
//! - [`Internable`] is what a value type supplies to take part.
//! - [`Registry`] is the deduplicating store itself, for one owner at a time.
//! - [`Interner`] shares one registry among threads behind a reader/writer
//!   lock.
//! - [`Interned`] is the handle that both give out.
//! - [`Label`] is a text label, the reference internable type.
//! - [`laws`] holds what is proved of interning in general.

pub mod handle;
pub mod internable;
pub mod interner;
pub mod label;
pub mod laws;
pub mod lock;
pub mod registry;

pub use handle::Interned;
pub use internable::Internable;
pub use interner::Interner;
pub use label::Label;
pub use registry::Registry;
