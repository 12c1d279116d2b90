//! Brand tokens: values that prove two instances were produced by distinct
//! minting events and therefore can never be confused with one another.
//!
//! Three pieces cooperate. An [`Allocator`] is a source of fresh unique
//! identifiers. A [`Guard`] is the single, move-only owner of one freshly
//! minted identifier, valid for a bounded scope. An [`Id`] is a copyable,
//! comparison-only view of that identifier, safe to embed in other data.
//! Branded containers store an [`Id`] at construction and later grant access
//! only when a presented [`Id`] compares equal to the stored one; this crate
//! guarantees that such comparisons are sound, and proves it: identifiers
//! minted by distinct events are never equal, and every handle derived from
//! one guard carries the same identifier.

mod allocator;
mod brand;

pub use allocator::Allocator;
pub use brand::Guard;
pub use brand::Id;
pub use brand::advances_to;
pub use brand::create_scope;
pub use brand::lemma_distinct_scopes_distinct_handles;
pub use brand::lemma_guard_identity;
pub use brand::lemma_handle_equality;
pub use brand::lemma_same_scope_handles_equal;
pub use brand::mint_handles;
pub use brand::mints;
pub use brand::try_create_scope;
pub use brand::with_scope;
