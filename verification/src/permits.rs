//! The counting semaphore that a bulkhead rests on, `tokio::sync::Semaphore`,
//! and what this crate takes on trust about it.
use std::future::Future;
use std::sync::Arc;
use tokio::sync::AcquireError;
use tokio::sync::Semaphore;
use tokio::sync::SemaphorePermit;
use vstd::prelude::*;

verus! {

/// `tokio::sync::Semaphore`. Opaque: its counter changes under a shared
/// reference, so no contract speaks of the permits that are free right now.
#[verifier::external_type_specification]
#[verifier::external_body]
pub struct ExSemaphore(Semaphore);

/// `tokio::sync::SemaphorePermit`, one permit taken from a semaphore and given
/// back when the value is dropped. Opaque.
#[verifier::external_type_specification]
#[verifier::external_body]
pub struct ExSemaphorePermit<'a>(SemaphorePermit<'a>);

/// The most permits that a semaphore takes, `Semaphore::MAX_PERMITS`: the
/// largest `usize` without its three top bits.
pub const MAX_PERMITS: usize = usize::MAX / 8;

/// The number of permits that a semaphore was made with. It stays what it is
/// as long as the semaphore lives, whatever is taken and given back.
pub uninterp spec fn initial_permits(semaphore: Semaphore) -> nat;

/// `Semaphore::new`. Trusted, not proved: for up to [`MAX_PERMITS`] permits it
/// returns, without panicking, a semaphore made with that many.
pub assume_specification[ Semaphore::new ](permits: usize) -> (semaphore: Semaphore)
    requires
        permits <= MAX_PERMITS,
    ensures
        initial_permits(semaphore) == permits,
;

/// `Semaphore::available_permits`. Trusted, not proved: the number is the
/// counter of the semaphore without its lowest bit, so it is no more than half
/// of the largest `usize`. Nothing else is claimed of it: other holders of the
/// semaphore take and return permits at any time.
pub assume_specification[ Semaphore::available_permits ](semaphore: &Semaphore) -> (permits: usize)
    ensures
        permits <= usize::MAX / 2,
;

/// `Semaphore::acquire`: the future that waits for one permit. Nothing is
/// claimed of how the wait ends.
#[verifier::external_body]
pub(crate) fn acquire_permit<'a>(semaphore: &'a Semaphore) -> impl Future<
    Output = Result<SemaphorePermit<'a>, AcquireError>,
> + 'a {
    semaphore.acquire()
}

/// `Arc::clone` on the handle of a semaphore. Trusted, not proved: the new
/// handle points to the same semaphore.
#[verifier::external_body]
pub(crate) fn share(semaphore: &Arc<Semaphore>) -> (shared: Arc<Semaphore>)
    ensures
        shared == *semaphore,
{
    Arc::clone(semaphore)
}

} // verus!
