//! The worker pool that solve steps run on, and its reconfiguration.
use vstd::prelude::*;
use crate::error::ErrorKind;
use rayon::{ThreadPool, ThreadPoolBuildError};

verus! {

#[verifier::external_type_specification]
#[verifier::external_body]
pub struct ExThreadPool(ThreadPool);

#[verifier::external_type_specification]
#[verifier::external_body]
pub struct ExThreadPoolBuildError(ThreadPoolBuildError);

/// Number of worker threads of a rayon pool, fixed when it is built.
pub uninterp spec fn threads_of(p: ThreadPool) -> nat;

/// Largest thread count that rayon builds exactly as requested on every
/// target (its cap is 255 threads with 32-bit pointers, 65535 with 64-bit).
pub const EXACT_THREADS_MAX: usize = 255;

/// Relies on rayon's `ThreadPoolBuilder::new().num_threads(n).build()`: a
/// new pool of `n` worker threads, `0` letting rayon choose; rayon takes a
/// positive count as it is, capped at its thread maximum (so never more
/// than `n`), and never sizes a pool below one thread. Whether the threads
/// can be spawned depends on the
/// machine, so success is not promised.
#[verifier::external_body]
fn build_pool(num_threads: usize) -> (r: Result<ThreadPool, ThreadPoolBuildError>)
    ensures
        r matches Ok(p) ==> threads_of(p) >= 1,
        r matches Ok(p) ==> (0 < num_threads ==> threads_of(p) <= num_threads),
        r matches Ok(p) ==> (0 < num_threads <= EXACT_THREADS_MAX ==> threads_of(p) == num_threads),
{
    rayon::ThreadPoolBuilder::new().num_threads(num_threads).build()
}

/// Relies on rayon's `ThreadPool::current_num_threads`: the length of the
/// pool's worker list.
#[verifier::external_body]
fn pool_threads(pool: &ThreadPool) -> (r: usize)
    ensures
        r == threads_of(*pool),
{
    pool.current_num_threads()
}

/// The single active worker pool. Reconfiguring replaces it whole; a caller
/// needs exclusive access to do so, so a solve step that holds the pool
/// completes on it before the replacement happens.
pub struct WorkerPool {
    pool: ThreadPool,
    requested: usize,
}

impl WorkerPool {
    /// The thread count the active pool was requested with; `0` means
    /// rayon's default.
    pub closed spec fn spec_requested(&self) -> usize {
        self.requested
    }

    /// A built pool has at least one thread, and exactly the requested
    /// count whenever that count is positive and within the exact range.
    pub closed spec fn wf(&self) -> bool {
        &&& threads_of(self.pool) >= 1
        &&& 0 < self.requested ==> threads_of(self.pool) <= self.requested
        &&& 0 < self.requested <= EXACT_THREADS_MAX ==> threads_of(self.pool) == self.requested
    }

    /// The active pool.
    pub closed spec fn spec_pool(&self) -> ThreadPool {
        self.pool
    }

    /// Builds a pool of `num_threads` workers (`0`: the default count); a
    /// resource error when the threads cannot be obtained.
    pub fn new(num_threads: usize) -> (r: Result<WorkerPool, ErrorKind>)
        ensures
            r matches Ok(p) ==> p.spec_requested() == num_threads && p.wf(),
            r matches Ok(p) ==> threads_of(p.spec_pool()) >= 1,
            r matches Ok(p) ==> (0 < num_threads ==> threads_of(p.spec_pool()) <= num_threads),
            r matches Ok(p) ==> (0 < num_threads <= EXACT_THREADS_MAX ==> threads_of(p.spec_pool()) == num_threads),
            r is Err ==> r == Err::<WorkerPool, ErrorKind>(ErrorKind::Resource),
    {
        match build_pool(num_threads) {
            Ok(pool) => Ok(WorkerPool { pool, requested: num_threads }),
            Err(_) => Err(ErrorKind::Resource),
        }
    }

    /// Replaces the active pool with one of `num_threads` workers. When the
    /// new pool cannot be built the old one stays active, untouched, and a
    /// resource error is returned.
    pub fn reconfigure(&mut self, num_threads: usize) -> (r: Result<(), ErrorKind>)
        requires
            old(self).wf(),
        ensures
            final(self).wf(),
            r is Ok ==> final(self).spec_requested() == num_threads,
            r is Ok ==> threads_of(final(self).spec_pool()) >= 1,
            r is Ok ==> (0 < num_threads ==> threads_of(final(self).spec_pool()) <= num_threads),
            r is Ok ==> (0 < num_threads <= EXACT_THREADS_MAX ==> threads_of(final(self).spec_pool()) == num_threads),
            r is Err ==> r == Err::<(), ErrorKind>(ErrorKind::Resource) && *final(self) == *old(self),
    {
        match build_pool(num_threads) {
            Ok(pool) => {
                self.pool = pool;
                self.requested = num_threads;
                Ok(())
            },
            Err(_) => Err(ErrorKind::Resource),
        }
    }

    /// The thread count the active pool was requested with.
    pub fn requested(&self) -> (r: usize)
        ensures
            r == self.spec_requested(),
    {
        self.requested
    }

    /// Number of worker threads of the active pool: at least one, and the
    /// requested count when that is positive and within the exact range.
    pub fn thread_count(&self) -> (r: usize)
        requires
            self.wf(),
        ensures
            r == threads_of(self.spec_pool()),
            r >= 1,
            0 < self.spec_requested() ==> r <= self.spec_requested(),
            0 < self.spec_requested() <= EXACT_THREADS_MAX ==> r == self.spec_requested(),
    {
        pool_threads(&self.pool)
    }

    /// The active pool, on which a solve step is run.
    pub fn pool(&self) -> (r: &ThreadPool)
        ensures
            *r == self.spec_pool(),
    {
        &self.pool
    }
}

} // verus!
