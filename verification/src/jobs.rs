//! Bookkeeping for running many fallible jobs with a bound on how many are
//! in flight at once, and for retrying a single fallible operation a fixed
//! number of times.
//!
//! The asynchronous driver that actually polls futures lives outside this
//! library; it consults these state machines before every admission and
//! reports every completion back, so the scheduling decisions themselves are
//! verified: the in-flight count never exceeds the limit, admission stops at
//! the first failure, and the overall outcome is the first error observed.

use vstd::prelude::*;

verus! {

/// Default bound on concurrently running jobs.
pub const DEFAULT_JOB_LIMIT: usize = 64;

/// Reduced bound for platforms with tight file-descriptor quotas.
pub const REDUCED_JOB_LIMIT: usize = 32;

/// Bookkeeping for a batch of `total` independent jobs, each yielding
/// `Result<T, E>`, with at most `limit` of them unresolved at any instant.
///
/// A driver admits jobs while `wants_admit` says so, reports each completion
/// through `complete_ok` / `complete_err`, and calls `finish` once
/// `is_done` holds.
pub struct JobRunner<T, E> {
    limit: usize,
    total: usize,
    admitted: usize,
    in_flight: usize,
    outputs: Vec<T>,
    first_error: Option<E>,
    errors_seen: Ghost<Seq<E>>,
}

impl<T, E> JobRunner<T, E> {
    /// The concurrency bound this runner was created with.
    pub closed spec fn limit(&self) -> nat {
        self.limit as nat
    }

    /// The number of jobs in the batch.
    pub closed spec fn total(&self) -> nat {
        self.total as nat
    }

    /// How many jobs have been admitted so far.
    pub closed spec fn admitted(&self) -> nat {
        self.admitted as nat
    }

    /// How many admitted jobs have not completed yet.
    pub closed spec fn in_flight(&self) -> nat {
        self.in_flight as nat
    }

    /// The successful results collected so far.
    pub closed spec fn outputs(&self) -> Seq<T> {
        self.outputs@
    }

    /// Every error reported so far, in the order it was observed.
    pub closed spec fn errors_seen(&self) -> Seq<E> {
        self.errors_seen@
    }

    /// The first error observed, if any.
    pub closed spec fn first_error(&self) -> Option<E> {
        self.first_error
    }

    /// Well-formedness: the in-flight count is bounded by the limit,
    /// admissions never exceed the batch, every admitted job is either in
    /// flight or accounted for by a success or an error, and the recorded
    /// first error is the head of the errors observed.
    pub closed spec fn wf(&self) -> bool {
        &&& self.limit() >= 1
        &&& self.in_flight() <= self.limit()
        &&& self.admitted() <= self.total()
        &&& self.in_flight() + self.outputs().len() + self.errors_seen().len()
            == self.admitted()
        &&& match self.first_error {
            None => self.errors_seen().len() == 0,
            Some(e) => self.errors_seen().len() > 0 && e == self.errors_seen()[0],
        }
    }

    /// A fresh runner for `total` jobs under the concurrency bound `limit`.
    ///
    /// A bound of zero would deadlock the batch, so it is rejected here.
    pub fn new(limit: usize, total: usize) -> (r: Self)
        requires
            limit >= 1,
        ensures
            r.wf(),
            r.limit() == limit,
            r.total() == total,
            r.admitted() == 0,
            r.in_flight() == 0,
            r.outputs() == Seq::<T>::empty(),
            r.errors_seen() == Seq::<E>::empty(),
            r.first_error() is None,
    {
        JobRunner {
            limit,
            total,
            admitted: 0,
            in_flight: 0,
            outputs: Vec::new(),
            first_error: None,
            errors_seen: Ghost(Seq::empty()),
        }
    }

    /// May another job be started right now? True exactly when the batch is
    /// not exhausted, a slot is free under the limit, and no failure has been
    /// observed (fail-fast: after an error nothing new is admitted).
    pub fn wants_admit(&self) -> (r: bool)
        requires
            self.wf(),
        ensures
            r == (self.admitted() < self.total() && self.in_flight() < self.limit()
                && self.first_error() is None),
    {
        self.admitted < self.total && self.in_flight < self.limit
            && self.first_error.is_none()
    }

    /// Record that the next job of the batch has been started.
    pub fn start_next(&mut self)
        requires
            old(self).wf(),
            old(self).admitted() < old(self).total(),
            old(self).in_flight() < old(self).limit(),
            old(self).first_error() is None,
        ensures
            final(self).wf(),
            final(self).limit() == old(self).limit(),
            final(self).total() == old(self).total(),
            final(self).admitted() == old(self).admitted() + 1,
            final(self).in_flight() == old(self).in_flight() + 1,
            final(self).outputs() == old(self).outputs(),
            final(self).errors_seen() == old(self).errors_seen(),
            final(self).first_error() == old(self).first_error(),
    {
        self.admitted += 1;
        self.in_flight += 1;
    }

    /// Record that one in-flight job finished successfully with `out`.
    pub fn complete_ok(&mut self, out: T)
        requires
            old(self).wf(),
            old(self).in_flight() >= 1,
        ensures
            final(self).wf(),
            final(self).limit() == old(self).limit(),
            final(self).total() == old(self).total(),
            final(self).admitted() == old(self).admitted(),
            final(self).in_flight() == old(self).in_flight() - 1,
            final(self).outputs() == old(self).outputs().push(out),
            final(self).errors_seen() == old(self).errors_seen(),
            final(self).first_error() == old(self).first_error(),
    {
        self.in_flight -= 1;
        self.outputs.push(out);
    }

    /// Record that one in-flight job failed with `err`. The first failure is
    /// kept; later ones are remembered only in the ghost history.
    pub fn complete_err(&mut self, err: E)
        requires
            old(self).wf(),
            old(self).in_flight() >= 1,
        ensures
            final(self).wf(),
            final(self).limit() == old(self).limit(),
            final(self).total() == old(self).total(),
            final(self).admitted() == old(self).admitted(),
            final(self).in_flight() == old(self).in_flight() - 1,
            final(self).outputs() == old(self).outputs(),
            final(self).errors_seen() == old(self).errors_seen().push(err),
            old(self).first_error() is None ==> final(self).first_error() == Some(err),
            old(self).first_error() is Some ==> final(self).first_error()
                == old(self).first_error(),
    {
        self.in_flight -= 1;
        proof {
            if self.errors_seen@.len() > 0 {
                assert(self.errors_seen@.push(err)[0] == self.errors_seen@[0]);
            }
        }
        self.errors_seen = Ghost(self.errors_seen@.push(err));
        if self.first_error.is_none() {
            self.first_error = Some(err);
        }
    }

    /// How many jobs are unresolved right now.
    pub fn running(&self) -> (r: usize)
        ensures
            r == self.in_flight(),
    {
        self.in_flight
    }

    /// The concurrency bound this runner was created with.
    pub fn bound(&self) -> (r: usize)
        ensures
            r == self.limit(),
    {
        self.limit
    }

    /// Is the batch over? True when nothing is in flight and either every job
    /// was admitted or a failure stopped admission.
    pub fn is_done(&self) -> (r: bool)
        requires
            self.wf(),
        ensures
            r == (self.in_flight() == 0
                && (self.admitted() == self.total() || self.first_error() is Some)),
    {
        self.in_flight == 0
            && (self.admitted == self.total || self.first_error.is_some())
    }

    /// The overall outcome of the batch: the first error observed if any job
    /// failed, otherwise the collected outputs of all `total` jobs.
    pub fn finish(self) -> (r: Result<Vec<T>, E>)
        requires
            self.wf(),
            self.in_flight() == 0,
            self.admitted() == self.total() || self.first_error() is Some,
        ensures
            match r {
                Err(e) => self.errors_seen().len() > 0 && e == self.errors_seen()[0],
                Ok(outs) => self.errors_seen().len() == 0 && outs@ == self.outputs()
                    && outs@.len() == self.total(),
            },
            (r is Err) == (self.errors_seen().len() > 0),
    {
        match self.first_error {
            Some(e) => Err(e),
            None => Ok(self.outputs),
        }
    }
}

/// At most `limit` jobs are ever unresolved at once: the in-flight count of
/// any well-formed runner state is bounded by its limit, and every transition
/// above preserves well-formedness.
pub proof fn lemma_in_flight_bounded<T, E>(r: &JobRunner<T, E>)
    requires
        r.wf(),
    ensures
        r.in_flight() <= r.limit(),
{
}

/// If any job failed, the batch's outcome is an error equal to the first
/// failure observed, and no outputs are returned; a batch with no failure
/// yields exactly one output per job.
pub proof fn lemma_first_error_wins<T, E>(r: &JobRunner<T, E>, out: Result<Vec<T>, E>)
    requires
        r.wf(),
        match out {
            Err(e) => r.errors_seen().len() > 0 && e == r.errors_seen()[0],
            Ok(outs) => r.errors_seen().len() == 0 && outs@ == r.outputs()
                && outs@.len() == r.total(),
        },
    ensures
        r.errors_seen().len() > 0 ==> out == Result::<Vec<T>, E>::Err(r.errors_seen()[0]),
        r.errors_seen().len() == 0 ==> out is Ok,
{
}

/// Largest number of times a retried operation is attempted: one initial
/// attempt and up to five retries.
pub const MAX_ATTEMPTS: usize = 6;

/// Bookkeeping for retrying one fallible operation: the producer is invoked,
/// and on failure invoked again, until it succeeds or `MAX_ATTEMPTS`
/// invocations have been made; the last result stands regardless of outcome.
///
/// A driver invokes the producer while `should_attempt` says so and reports
/// each outcome through `record`.
pub struct RetryState {
    attempts: usize,
    last_ok: bool,
}

impl RetryState {
    /// How many times the producer has been invoked so far.
    pub closed spec fn attempts(&self) -> nat {
        self.attempts as nat
    }

    /// Whether the most recent invocation succeeded.
    pub closed spec fn last_ok(&self) -> bool {
        self.last_ok
    }

    /// Well-formedness: the attempt count never passes the ceiling.
    pub closed spec fn wf(&self) -> bool {
        self.attempts() <= MAX_ATTEMPTS
    }

    /// The retry loop is over: an attempt succeeded, or the ceiling was hit.
    pub closed spec fn spec_done(&self) -> bool {
        (self.attempts() >= 1 && self.last_ok()) || self.attempts() == MAX_ATTEMPTS
    }

    /// A fresh retry, with no attempt made yet.
    pub fn new() -> (r: Self)
        ensures
            r.wf(),
            r.attempts() == 0,
            !r.spec_done(),
    {
        RetryState { attempts: 0, last_ok: false }
    }

    /// Should the producer be invoked (again)? True until an invocation
    /// succeeds or `MAX_ATTEMPTS` invocations have been made.
    pub fn should_attempt(&self) -> (r: bool)
        requires
            self.wf(),
        ensures
            r == !self.spec_done(),
    {
        !((self.attempts >= 1 && self.last_ok) || self.attempts == MAX_ATTEMPTS)
    }

    /// Record the outcome of one invocation of the producer.
    pub fn record(&mut self, ok: bool)
        requires
            old(self).wf(),
            !old(self).spec_done(),
        ensures
            final(self).wf(),
            final(self).attempts() == old(self).attempts() + 1,
            final(self).last_ok() == ok,
            final(self).spec_done() == (ok || final(self).attempts() == MAX_ATTEMPTS),
    {
        self.attempts += 1;
        self.last_ok = ok;
    }

    /// How many times the producer has been invoked so far.
    pub fn attempt_count(&self) -> (r: usize)
        ensures
            r == self.attempts(),
    {
        self.attempts
    }

    /// Did the most recent invocation succeed?
    pub fn last_succeeded(&self) -> (r: bool)
        ensures
            r == self.last_ok(),
    {
        self.last_ok
    }

    /// Is the retry loop over?
    pub fn is_done(&self) -> (r: bool)
        requires
            self.wf(),
        ensures
            r == self.spec_done(),
    {
        (self.attempts >= 1 && self.last_ok) || self.attempts == MAX_ATTEMPTS
    }
}

/// The attempt ceiling: a well-formed retry never invokes the producer more
/// than `MAX_ATTEMPTS` times (one initial attempt plus five retries).
pub proof fn lemma_retry_attempt_ceiling(r: &RetryState)
    requires
        r.wf(),
    ensures
        r.attempts() <= 6,
{
}

/// A retry that stopped without success hit the ceiling exactly: a finished
/// well-formed retry whose last attempt failed made all six attempts.
pub proof fn lemma_retry_failure_exhausts(r: &RetryState)
    requires
        r.wf(),
        r.spec_done(),
        !r.last_ok(),
    ensures
        r.attempts() == 6,
{
}

} // verus!
