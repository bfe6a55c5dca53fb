//! Lifecycle of the solver's game state: initialization, the explicit
//! memory-allocation phase, iterative solve steps and finalization.
use vstd::prelude::*;
use crate::error::ErrorKind;

verus! {

/// Lifecycle phase of the game state.
#[derive(Debug, Clone, Copy, PartialEq, Eq, Structural)]
pub enum GamePhase {
    /// Nothing has been set up.
    Empty,
    /// Ranges and tree have been taken in; no working memory yet.
    Initialized,
    /// Working memory is allocated; solve steps may run.
    Allocated,
    /// Results are locked in for read-only queries.
    Finalized,
}

/// Bookkeeping of the game state that decides which operations are allowed.
#[derive(Debug, Clone, Copy, PartialEq, Eq, Structural)]
pub struct GameLifecycle {
    pub phase: GamePhase,
    /// Number of solve steps run since memory was allocated.
    pub iterations: u64,
    /// Bytes of working memory held; zero before allocation.
    pub allocated_bytes: u64,
    /// Whether the card-removal table has been attached.
    pub bunching: bool,
}

/// Whether working memory is held in phase `p`.
pub open spec fn holds_memory(p: GamePhase) -> bool {
    p == GamePhase::Allocated || p == GamePhase::Finalized
}

/// State right after initialization from a fresh tree and ranges.
pub open spec fn initialized_state() -> GameLifecycle {
    GameLifecycle { phase: GamePhase::Initialized, iterations: 0, allocated_bytes: 0, bunching: false }
}

/// Outcome of attaching the card-removal table, `ready` telling whether its
/// preprocessing has completed.
pub open spec fn set_bunching_spec(g: GameLifecycle, ready: bool) -> (GameLifecycle, Result<(), ErrorKind>) {
    if g.phase != GamePhase::Initialized || !ready {
        (g, Err(ErrorKind::State))
    } else {
        (GameLifecycle { bunching: true, ..g }, Ok(()))
    }
}

/// Outcome of allocating `required` bytes of working memory when
/// `available` bytes are free.
pub open spec fn allocate_spec(g: GameLifecycle, required: u64, available: u64) -> (GameLifecycle, Result<(), ErrorKind>) {
    if g.phase != GamePhase::Initialized {
        (g, Err(ErrorKind::State))
    } else if required > available {
        (g, Err(ErrorKind::Resource))
    } else {
        (GameLifecycle { phase: GamePhase::Allocated, iterations: 0, allocated_bytes: required, ..g }, Ok(()))
    }
}

/// Outcome of one solve step: the new iteration count on success.
pub open spec fn step_spec(g: GameLifecycle) -> (GameLifecycle, Result<u64, ErrorKind>) {
    if g.phase != GamePhase::Allocated {
        (g, Err(ErrorKind::State))
    } else if g.iterations == u64::MAX {
        (g, Err(ErrorKind::Resource))
    } else {
        (GameLifecycle { iterations: (g.iterations + 1) as u64, ..g }, Ok((g.iterations + 1) as u64))
    }
}

/// Outcome of finalizing; finalizing twice is a successful no-op.
pub open spec fn finalize_spec(g: GameLifecycle) -> (GameLifecycle, Result<(), ErrorKind>) {
    match g.phase {
        GamePhase::Allocated => (GameLifecycle { phase: GamePhase::Finalized, ..g }, Ok(())),
        GamePhase::Finalized => (g, Ok(())),
        _ => (g, Err(ErrorKind::State)),
    }
}

/// Whether an exploitability estimate is defined: at least one step has
/// run on allocated memory.
pub open spec fn exploitability_defined(g: GameLifecycle) -> bool {
    holds_memory(g.phase) && g.iterations >= 1
}

impl GameLifecycle {
    /// Memory is held exactly in the allocated and finalized phases, and no
    /// step has run without it.
    pub open spec fn wf(&self) -> bool {
        &&& !holds_memory(self.phase) ==> self.allocated_bytes == 0 && self.iterations == 0
        &&& self.phase == GamePhase::Empty ==> !self.bunching
    }

    /// A game state with nothing set up.
    pub fn new() -> (r: GameLifecycle)
        ensures
            r.wf(),
            r.phase == GamePhase::Empty,
            r.iterations == 0,
            r.allocated_bytes == 0,
            !r.bunching,
    {
        GameLifecycle { phase: GamePhase::Empty, iterations: 0, allocated_bytes: 0, bunching: false }
    }

    /// Takes in a fresh tree and ranges; any earlier memory and progress is
    /// dropped.
    pub fn init(&mut self)
        ensures
            *final(self) == initialized_state(),
            final(self).wf(),
    {
        *self = GameLifecycle { phase: GamePhase::Initialized, iterations: 0, allocated_bytes: 0, bunching: false };
    }

    /// Attaches the card-removal table; allowed only before allocation and
    /// only once its preprocessing has completed.
    pub fn set_bunching(&mut self, ready: bool) -> (r: Result<(), ErrorKind>)
        requires
            old(self).wf(),
        ensures
            (*final(self), r) == set_bunching_spec(*old(self), ready),
            final(self).wf(),
    {
        match self.phase {
            GamePhase::Initialized => {
                if ready {
                    self.bunching = true;
                    Ok(())
                } else {
                    Err(ErrorKind::State)
                }
            },
            _ => Err(ErrorKind::State),
        }
    }

    /// Of two memory estimates, the one that applies: with or without the
    /// card-removal table.
    pub fn memory_estimate(&self, plain: u64, with_bunching: u64) -> (r: u64)
        ensures
            r == if self.bunching { with_bunching } else { plain },
    {
        if self.bunching {
            with_bunching
        } else {
            plain
        }
    }

    /// Commits `required` bytes of working memory. Fails with a resource
    /// error, and allocates nothing, when fewer than `required` bytes are
    /// available.
    pub fn allocate_memory(&mut self, required: u64, available: u64) -> (r: Result<(), ErrorKind>)
        requires
            old(self).wf(),
        ensures
            (*final(self), r) == allocate_spec(*old(self), required, available),
            final(self).wf(),
    {
        match self.phase {
            GamePhase::Initialized => {
                if required > available {
                    Err(ErrorKind::Resource)
                } else {
                    self.phase = GamePhase::Allocated;
                    self.iterations = 0;
                    self.allocated_bytes = required;
                    Ok(())
                }
            },
            _ => Err(ErrorKind::State),
        }
    }

    /// Records one solve step and returns the new iteration count; refused
    /// unless memory is allocated and results are not yet finalized.
    pub fn solve_step(&mut self) -> (r: Result<u64, ErrorKind>)
        requires
            old(self).wf(),
        ensures
            (*final(self), r) == step_spec(*old(self)),
            final(self).wf(),
    {
        match self.phase {
            GamePhase::Allocated => {
                if self.iterations == u64::MAX {
                    Err(ErrorKind::Resource)
                } else {
                    self.iterations = self.iterations + 1;
                    Ok(self.iterations)
                }
            },
            _ => Err(ErrorKind::State),
        }
    }

    /// Locks the results in for read-only queries.
    pub fn finalize(&mut self) -> (r: Result<(), ErrorKind>)
        requires
            old(self).wf(),
        ensures
            (*final(self), r) == finalize_spec(*old(self)),
            final(self).wf(),
    {
        match self.phase {
            GamePhase::Allocated => {
                self.phase = GamePhase::Finalized;
                Ok(())
            },
            GamePhase::Finalized => Ok(()),
            _ => Err(ErrorKind::State),
        }
    }

    /// Whether the exploitability may be queried; a state error otherwise.
    pub fn check_exploitability(&self) -> (r: Result<(), ErrorKind>)
        ensures
            r is Ok <==> exploitability_defined(*self),
            r is Err ==> r == Err::<(), ErrorKind>(ErrorKind::State),
    {
        match self.phase {
            GamePhase::Allocated | GamePhase::Finalized => {
                if self.iterations >= 1 {
                    Ok(())
                } else {
                    Err(ErrorKind::State)
                }
            },
            _ => Err(ErrorKind::State),
        }
    }

    /// Whether finalized results may be queried; a state error otherwise.
    pub fn check_finalized(&self) -> (r: Result<(), ErrorKind>)
        ensures
            r is Ok <==> self.phase == GamePhase::Finalized,
            r is Err ==> r == Err::<(), ErrorKind>(ErrorKind::State),
    {
        match self.phase {
            GamePhase::Finalized => Ok(()),
            _ => Err(ErrorKind::State),
        }
    }
}

/// A solve step requested before memory is allocated is refused with a
/// state error and changes nothing; in particular no memory is held.
pub proof fn lemma_step_before_allocation(g: GameLifecycle)
    requires
        g.wf(),
        g.phase == GamePhase::Empty || g.phase == GamePhase::Initialized,
    ensures
        step_spec(g) == (g, Err::<u64, ErrorKind>(ErrorKind::State)),
        step_spec(g).0.allocated_bytes == 0,
{
}

/// A successful solve step advances the iteration count by exactly one, so
/// consecutive steps report strictly increasing counts.
pub proof fn lemma_step_advances(g: GameLifecycle)
    requires
        g.wf(),
        step_spec(g).1 is Ok,
    ensures
        step_spec(g).1 == Ok::<u64, ErrorKind>(step_spec(g).0.iterations),
        step_spec(g).0.iterations == g.iterations + 1,
        step_spec(g).0.wf(),
{
}

/// A failed allocation leaves the state exactly as it was: no partial
/// allocation remains.
pub proof fn lemma_failed_allocation_unchanged(g: GameLifecycle, required: u64, available: u64)
    requires
        g.wf(),
        allocate_spec(g, required, available).1 is Err,
    ensures
        allocate_spec(g, required, available).0 == g,
{
}

/// Finalizing a second time succeeds and changes nothing.
pub proof fn lemma_finalize_idempotent(g: GameLifecycle)
    requires
        g.wf(),
        finalize_spec(g).1 is Ok,
    ensures
        finalize_spec(finalize_spec(g).0) == (finalize_spec(g).0, Ok::<(), ErrorKind>(())),
{
}

} // verus!

verus! {

/// After a successful allocation, three solve steps in a row all succeed
/// and report strictly increasing iteration counts, and the memory held is
/// the positive estimate that fit in the available bytes.
pub proof fn lemma_allocate_then_three_steps(g: GameLifecycle, required: u64, available: u64)
    requires
        g.wf(),
        allocate_spec(g, required, available).1 is Ok,
        required > 0,
    ensures
        ({
            let a = allocate_spec(g, required, available).0;
            let s1 = step_spec(a);
            let s2 = step_spec(s1.0);
            let s3 = step_spec(s2.0);
            &&& 0 < a.allocated_bytes <= available
            &&& s1.1 == Ok::<u64, ErrorKind>(1)
            &&& s2.1 == Ok::<u64, ErrorKind>(2)
            &&& s3.1 == Ok::<u64, ErrorKind>(3)
            &&& s3.0.iterations == 3
        }),
{
}

} // verus!
