//! The bulkhead and its builder.
use crate::error::BulkheadError;
use crate::permits::acquire_permit;
use crate::permits::initial_permits;
use crate::permits::share;
use crate::permits::MAX_PERMITS;
use crate::time::duration_nanos;
use std::future::Future;
use std::sync::Arc;
use std::time::Duration;
use tokio::sync::AcquireError;
use tokio::sync::Semaphore;
use tokio::sync::SemaphorePermit;
use tokio::time::error::Elapsed;
use vstd::prelude::*;

verus! {

/// The number of permits of a bulkhead that is built from the defaults.
pub const DEFAULT_MAX_CONCURRENT_CALLS: usize = 25;

/// The wait budget, in milliseconds, of a bulkhead that is built from the
/// defaults.
pub const DEFAULT_MAX_WAIT_MILLIS: u64 = 1;

/// The number of permits for a semaphore that is to let through
/// `max_concurrent_calls` calls at once: one for each call, up to the
/// [`MAX_PERMITS`] that a semaphore can count.
pub open spec fn permits_for(max_concurrent_calls: nat) -> nat {
    if max_concurrent_calls <= MAX_PERMITS {
        max_concurrent_calls
    } else {
        MAX_PERMITS as nat
    }
}

/// The number of calls that a bulkhead for `max_concurrent_calls` calls
/// reports as remaining while `free` permits of its semaphore are free: the
/// free permits, and with them the allowed calls that the semaphore has no
/// permit for. What is more than the largest `usize` counts as that.
pub open spec fn remaining_of(free: nat, max_concurrent_calls: nat) -> nat {
    let sum = free + (max_concurrent_calls - permits_for(max_concurrent_calls)) as nat;
    if sum > usize::MAX {
        usize::MAX as nat
    } else {
        sum
    }
}

/// What a builder has collected and what a bulkhead was made with: the number
/// of calls that may be in flight at once, and how long a call may wait for
/// its turn.
pub struct Configuration {
    pub max_concurrent_calls: nat,
    pub max_wait_duration: Duration,
}

impl Configuration {
    /// The default configuration: 25 concurrent calls, and a wait of one
    /// millisecond.
    pub open spec fn is_default(self) -> bool {
        &&& self.max_concurrent_calls == DEFAULT_MAX_CONCURRENT_CALLS
        &&& duration_nanos(self.max_wait_duration) == DEFAULT_MAX_WAIT_MILLIS * 1_000_000
    }

    /// A bulkhead can be built from this configuration: it allows one call at
    /// least.
    pub open spec fn is_valid(self) -> bool {
        self.max_concurrent_calls >= 1
    }

    /// The number of permits that the semaphore of a bulkhead is made with:
    /// one for each allowed call, up to the [`MAX_PERMITS`] that a semaphore
    /// can count.
    pub open spec fn permits(self) -> nat {
        permits_for(self.max_concurrent_calls)
    }
}

/// A bulkhead as the contracts see it: what it was configured with, and the
/// number of permits that its semaphore was made with.
pub struct BulkheadView {
    pub configuration: Configuration,
    pub permits: nat,
}

impl BulkheadView {
    /// The bulkhead that is made from a configuration.
    pub open spec fn of(configuration: Configuration) -> BulkheadView {
        BulkheadView { configuration, permits: configuration.permits() }
    }
}

/// Computes [`permits_for`].
fn countable(max_concurrent_calls: usize) -> (permits: usize)
    ensures
        permits == permits_for(max_concurrent_calls as nat),
{
    if max_concurrent_calls <= MAX_PERMITS {
        max_concurrent_calls
    } else {
        MAX_PERMITS
    }
}

/// The number of calls that remain for a bulkhead of `max_concurrent_calls`
/// calls, given the number of permits of its semaphore that are free. This is
/// what [`Bulkhead::remaining_calls`] makes of the semaphore's answer.
pub fn remaining_from(free: usize, max_concurrent_calls: usize) -> (remaining: usize)
    ensures
        remaining == remaining_of(free as nat, max_concurrent_calls as nat),
{
    let uncounted = max_concurrent_calls - countable(max_concurrent_calls);
    free.saturating_add(uncounted)
}

/// With some permits of a semaphore held, one call less remains for each of
/// them: a bulkhead of `max_concurrent_calls` calls whose semaphore has all
/// its permits free but `held` reports `max_concurrent_calls - held`. With no
/// permit held that is the whole number of calls, and with all of them held
/// the calls that the semaphore does not count.
pub proof fn lemma_remaining_counts_permits_held(max_concurrent_calls: nat, held: nat)
    requires
        max_concurrent_calls <= usize::MAX,
        held <= permits_for(max_concurrent_calls),
    ensures
        remaining_of((permits_for(max_concurrent_calls) - held) as nat, max_concurrent_calls)
            == max_concurrent_calls - held,
        remaining_of(permits_for(max_concurrent_calls), max_concurrent_calls)
            == max_concurrent_calls,
{
}

/// A builder type for a [`Bulkhead`].
#[derive(Debug, Copy, Clone)]
pub struct BulkheadBuilder {
    max_concurrent_calls: usize,
    max_wait_duration: Duration,
}

impl View for BulkheadBuilder {
    type V = Configuration;

    closed spec fn view(&self) -> Configuration {
        Configuration {
            max_concurrent_calls: self.max_concurrent_calls as nat,
            max_wait_duration: self.max_wait_duration,
        }
    }
}

impl BulkheadBuilder {
    /// Specifies the maximum number of concurrent calls the bulkhead will
    /// allow.
    ///
    /// Defaults to 25.
    pub fn max_concurrent_calls(self, max_concurrent_calls: usize) -> (builder: Self)
        ensures
            builder@.max_concurrent_calls == max_concurrent_calls,
            builder@.max_wait_duration == self@.max_wait_duration,
    {
        Self { max_concurrent_calls, max_wait_duration: self.max_wait_duration }
    }

    /// Specifies the maximum wait duration for a permit of the bulkhead to be
    /// acquired. A duration of zero means: never wait.
    ///
    /// Defaults to one millisecond.
    pub fn max_wait_duration(self, max_wait_duration: Duration) -> (builder: Self)
        ensures
            builder@.max_concurrent_calls == self@.max_concurrent_calls,
            builder@.max_wait_duration == max_wait_duration,
    {
        Self { max_concurrent_calls: self.max_concurrent_calls, max_wait_duration }
    }

    /// Builds the [`Bulkhead`], with a semaphore of its own. Every number of
    /// calls from one up gives a bulkhead. Without a single allowed call there
    /// is nothing to build: the result is then
    /// [`BulkheadError::InvalidConcurrentCalls`].
    ///
    /// The semaphore holds one permit for each allowed call, up to
    /// [`MAX_PERMITS`]. Where more calls are allowed than that, the bulkhead
    /// keeps the number it was given, and the semaphore lets [`MAX_PERMITS`]
    /// calls through at once.
    pub fn build(self) -> (built: Result<Bulkhead, BulkheadError>)
        ensures
            match built {
                Ok(bulkhead) => self@.is_valid() && bulkhead@ == BulkheadView::of(self@),
                Err(error) => !self@.is_valid() && error == BulkheadError::InvalidConcurrentCalls,
            },
    {
        if self.max_concurrent_calls > 0 {
            Ok(
                Bulkhead {
                    semaphore: Arc::new(Semaphore::new(countable(self.max_concurrent_calls))),
                    max_concurrent_calls: self.max_concurrent_calls,
                    max_wait_duration: self.max_wait_duration,
                },
            )
        } else {
            Err(BulkheadError::InvalidConcurrentCalls)
        }
    }
}

impl Default for BulkheadBuilder {
    /// A builder that holds the default configuration.
    fn default() -> (builder: Self)
        ensures
            builder@.is_default(),
    {
        Self {
            max_concurrent_calls: DEFAULT_MAX_CONCURRENT_CALLS,
            max_wait_duration: Duration::from_millis(DEFAULT_MAX_WAIT_MILLIS),
        }
    }
}

/// A semaphore-based bulkhead for limiting the number of concurrent calls to a
/// resource.
///
/// This type can be cloned and sent across threads: every clone counts on the
/// same semaphore, so the limit holds for all of them together.
#[derive(Debug)]
pub struct Bulkhead {
    semaphore: Arc<Semaphore>,
    max_concurrent_calls: usize,
    max_wait_duration: Duration,
}

impl View for Bulkhead {
    type V = BulkheadView;

    closed spec fn view(&self) -> BulkheadView {
        BulkheadView {
            configuration: Configuration {
                max_concurrent_calls: self.max_concurrent_calls as nat,
                max_wait_duration: self.max_wait_duration,
            },
            permits: initial_permits(*self.semaphore),
        }
    }
}

impl Bulkhead {
    /// Every bulkhead allows one call at least, and its semaphore was made
    /// with the permits that its configuration asks for.
    #[verifier::type_invariant]
    spec fn counts_calls(self) -> bool {
        &&& self@.configuration.is_valid()
        &&& self@ == BulkheadView::of(self@.configuration)
    }

    /// The outcome of a call that asked to pass with `outcome` as the
    /// end of its wait: the permit, if it came in time; else why the call is
    /// turned away.
    pub open spec fn entry_of<'a>(
        outcome: Result<Result<SemaphorePermit<'a>, AcquireError>, Elapsed>,
    ) -> Result<SemaphorePermit<'a>, BulkheadError> {
        match outcome {
            Ok(Ok(permit)) => Ok(permit),
            Ok(Err(_)) => Err(BulkheadError::Acquire),
            Err(_) => Err(BulkheadError::Timeout),
        }
    }

    /// Creates a new bulkhead with the default configuration.
    pub fn new() -> (bulkhead: Self)
        ensures
            bulkhead@.configuration.is_default(),
            bulkhead@ == BulkheadView::of(bulkhead@.configuration),
    {
        Self::default()
    }

    /// Creates a new [`BulkheadBuilder`] containing the default configuration.
    pub fn builder() -> (builder: BulkheadBuilder)
        ensures
            builder@.is_default(),
    {
        BulkheadBuilder::default()
    }

    /// The number of calls that could start at the moment of the call: the
    /// permits of the semaphore that are free, and with them the allowed calls
    /// that the semaphore has no permit for. With other calls going on, the
    /// number may be out of date when it arrives.
    ///
    /// How many permits are free is the semaphore's to say, and no more than
    /// half of the largest `usize`. What is reported for each such number is
    /// [`remaining_of`], computed by [`remaining_from`].
    pub fn remaining_calls(&self) -> (remaining: usize)
        ensures
            exists|free: usize|
                free <= usize::MAX / 2 && remaining == #[trigger] remaining_of(
                    free as nat,
                    self@.configuration.max_concurrent_calls,
                ),
    {
        let free = self.semaphore.available_permits();
        let remaining = remaining_from(free, self.max_concurrent_calls);
        assert(remaining == remaining_of(
            free as nat,
            self@.configuration.max_concurrent_calls,
        ));
        remaining
    }

    /// How long a call waits for a permit before it is turned away.
    pub fn max_wait_duration(&self) -> (budget: Duration)
        ensures
            budget == self@.configuration.max_wait_duration,
    {
        self.max_wait_duration
    }

    /// The future that waits for one permit of this bulkhead. It is to be
    /// raced against a timer of [`Bulkhead::max_wait_duration`], and the
    /// outcome of the race given to [`Bulkhead::enter`].
    ///
    /// Nothing is promised of how the wait ends: that is between the
    /// semaphore and the other calls.
    ///
    /// The permit that the wait ends with is the semaphore's own type, because
    /// the waiting is done outside this crate. Through it a caller reaches the
    /// semaphore, and could close it or add permits to it. A bulkhead is meant
    /// to keep its number of permits for life and never to be closed: take the
    /// permit to hold it and to drop it, and for nothing else.
    pub fn acquire(&self) -> (wait: impl Future<
        Output = Result<SemaphorePermit<'_>, AcquireError>,
    > + '_) {
        acquire_permit(&self.semaphore)
    }

    /// Decides what becomes of a call whose wait for a permit has ended with
    /// `outcome`. A permit that came in time is handed on: the guarded work
    /// runs while the caller holds it, and dropping it frees the slot. When
    /// the time was up first the call fails with [`BulkheadError::Timeout`],
    /// and when the semaphore was closed with [`BulkheadError::Acquire`]; in
    /// both cases there is no permit, and the work must not start.
    pub fn enter<'a>(
        outcome: Result<Result<SemaphorePermit<'a>, AcquireError>, Elapsed>,
    ) -> (entry: Result<SemaphorePermit<'a>, BulkheadError>)
        ensures
            entry == Self::entry_of(outcome),
    {
        match outcome {
            Ok(Ok(permit)) => Ok(permit),
            Ok(Err(closed)) => Err(BulkheadError::from(closed)),
            Err(elapsed) => Err(BulkheadError::from(elapsed)),
        }
    }
}

impl Bulkhead {
    /// No call passes without a permit. A call passes if and only if its wait
    /// ended with a permit, and it then holds that very permit. It fails with
    /// [`BulkheadError::Timeout`] if and only if the time was up first, and
    /// never with [`BulkheadError::InvalidConcurrentCalls`].
    pub proof fn lemma_no_entry_without_permit<'a>(
        outcome: Result<Result<SemaphorePermit<'a>, AcquireError>, Elapsed>,
    )
        ensures
            Self::entry_of(outcome) is Ok <==> outcome matches Ok(Ok(_)),
            Self::entry_of(outcome) matches Ok(permit) ==> outcome == Ok::<
                Result<SemaphorePermit<'a>, AcquireError>,
                Elapsed,
            >(Ok(permit)),
            Self::entry_of(outcome) matches Err(BulkheadError::Timeout) <==> outcome is Err,
            !(Self::entry_of(outcome) matches Err(BulkheadError::InvalidConcurrentCalls)),
    {
    }
}

impl Clone for Bulkhead {
    /// Another handle on the same gate: it shares the semaphore, not a copy
    /// of it.
    fn clone(&self) -> (handle: Self)
        ensures
            handle == *self,
    {
        proof {
            use_type_invariant(self);
        }
        Bulkhead {
            semaphore: share(&self.semaphore),
            max_concurrent_calls: self.max_concurrent_calls,
            max_wait_duration: self.max_wait_duration,
        }
    }
}

impl Default for Bulkhead {
    /// A bulkhead with the default configuration.
    fn default() -> (bulkhead: Self)
        ensures
            bulkhead@.configuration.is_default(),
            bulkhead@ == BulkheadView::of(bulkhead@.configuration),
    {
        let BulkheadBuilder { max_concurrent_calls, max_wait_duration } =
            BulkheadBuilder::default();
        Self {
            semaphore: Arc::new(Semaphore::new(countable(max_concurrent_calls))),
            max_concurrent_calls,
            max_wait_duration,
        }
    }
}

} // verus!
