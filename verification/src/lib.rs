//! A semaphore-based bulkhead: a gate that bounds how many calls to a resource
//! are in flight at once, and turns a caller away once its wait for a free
//! slot has lasted longer than a fixed budget.
//!
//! A [`Bulkhead`] is made by [`BulkheadBuilder::build`] from a number of
//! permits and a wait budget. All clones of a bulkhead share one permit
//! counter. A [`BulkheadRegistry`] keeps bulkheads by resource name.
//!
//! Waiting is left to the async runtime. A bulkhead hands out the future that
//! waits for a permit ([`Bulkhead::acquire`]) and its budget
//! ([`Bulkhead::max_wait_duration`]); the caller races the two and gives the
//! outcome to [`Bulkhead::enter`], which decides whether the guarded work may
//! run.
pub mod bulkhead;
pub mod error;
pub mod permits;
pub mod registry;
pub mod time;

pub use bulkhead::Bulkhead;
pub use bulkhead::BulkheadBuilder;
pub use bulkhead::BulkheadView;
pub use bulkhead::remaining_from;
pub use bulkhead::remaining_of;
pub use bulkhead::Configuration;
pub use error::BulkheadError;
pub use permits::initial_permits;
pub use permits::MAX_PERMITS;
pub use registry::BulkheadRegistry;
pub use registry::Bulkheads;
pub use time::duration_nanos;
