//! Progress tracking for the card-removal preprocessing, which starts on
//! request, reports its progress as it runs and completes asynchronously.
use vstd::prelude::*;
use crate::error::ErrorKind;

verus! {

/// Where the card-removal preprocessing stands.
#[derive(Debug, Clone, Copy, PartialEq, Eq, Structural)]
pub enum BunchingState {
    NotStarted,
    Running { percent: u8 },
    Done,
}

/// Answer to a progress query.
#[derive(Debug, Clone, Copy, PartialEq, Eq, Structural)]
pub enum BunchingProgress {
    /// Preprocessing was never started, or its table was cleared.
    NotStarted,
    /// Percentage completed, from 0 to 100.
    Percent(u8),
}

/// The card-removal table's preprocessing state.
#[derive(Debug, Clone, Copy, PartialEq, Eq, Structural)]
pub struct BunchingTracker {
    pub state: BunchingState,
}

/// Progress reported in state `s`.
pub open spec fn progress_of(s: BunchingState) -> BunchingProgress {
    match s {
        BunchingState::NotStarted => BunchingProgress::NotStarted,
        BunchingState::Running { percent } => BunchingProgress::Percent(percent),
        BunchingState::Done => BunchingProgress::Percent(100),
    }
}

/// Outcome of a request to start preprocessing.
pub open spec fn start_spec(s: BunchingState) -> (BunchingState, Result<(), ErrorKind>) {
    match s {
        BunchingState::Running { .. } => (s, Err(ErrorKind::Busy)),
        _ => (BunchingState::Running { percent: 0 }, Ok(())),
    }
}

/// State after the running pass reports `percent`: progress never moves
/// backwards and never exceeds 100.
pub open spec fn report_spec(s: BunchingState, percent: u8) -> BunchingState {
    match s {
        BunchingState::Running { percent: p } => BunchingState::Running {
            percent: if percent > 100 { 100 } else if percent < p { p } else { percent },
        },
        _ => s,
    }
}

/// Outcome of the running pass completing.
pub open spec fn finish_spec(s: BunchingState) -> (BunchingState, Result<(), ErrorKind>) {
    match s {
        BunchingState::Running { .. } => (BunchingState::Done, Ok(())),
        _ => (s, Err(ErrorKind::State)),
    }
}

/// Outcome of discarding the table; a running pass cannot be interrupted.
pub open spec fn clear_spec(s: BunchingState) -> (BunchingState, Result<(), ErrorKind>) {
    match s {
        BunchingState::Running { .. } => (s, Err(ErrorKind::Busy)),
        _ => (BunchingState::NotStarted, Ok(())),
    }
}

/// Numeric progress of a state, with "not started" below every percentage.
pub open spec fn progress_rank(s: BunchingState) -> int {
    match s {
        BunchingState::NotStarted => -1,
        BunchingState::Running { percent } => percent as int,
        BunchingState::Done => 100,
    }
}

impl BunchingTracker {
    /// A running pass never reports more than 100 percent.
    pub open spec fn wf(&self) -> bool {
        match self.state {
            BunchingState::Running { percent } => percent <= 100,
            _ => true,
        }
    }

    /// No preprocessing started.
    pub fn new() -> (r: BunchingTracker)
        ensures
            r.state == BunchingState::NotStarted,
            r.wf(),
    {
        BunchingTracker { state: BunchingState::NotStarted }
    }

    /// Starts preprocessing; refused as busy while a pass is running.
    pub fn start(&mut self) -> (r: Result<(), ErrorKind>)
        requires
            old(self).wf(),
        ensures
            (final(self).state, r) == start_spec(old(self).state),
            final(self).wf(),
    {
        match self.state {
            BunchingState::Running { .. } => Err(ErrorKind::Busy),
            _ => {
                self.state = BunchingState::Running { percent: 0 };
                Ok(())
            },
        }
    }

    /// Records progress reported by the running pass; ignored when no pass
    /// is running.
    pub fn report(&mut self, percent: u8)
        requires
            old(self).wf(),
        ensures
            final(self).state == report_spec(old(self).state, percent),
            final(self).wf(),
    {
        match self.state {
            BunchingState::Running { percent: p } => {
                let q: u8 = if percent > 100 {
                    100
                } else if percent < p {
                    p
                } else {
                    percent
                };
                self.state = BunchingState::Running { percent: q };
            },
            _ => {},
        }
    }

    /// Marks the running pass as complete; a state error when none runs.
    pub fn finish(&mut self) -> (r: Result<(), ErrorKind>)
        requires
            old(self).wf(),
        ensures
            (final(self).state, r) == finish_spec(old(self).state),
            final(self).wf(),
    {
        match self.state {
            BunchingState::Running { .. } => {
                self.state = BunchingState::Done;
                Ok(())
            },
            _ => Err(ErrorKind::State),
        }
    }

    /// Discards the table; refused as busy while a pass is running.
    pub fn clear(&mut self) -> (r: Result<(), ErrorKind>)
        requires
            old(self).wf(),
        ensures
            (final(self).state, r) == clear_spec(old(self).state),
            final(self).wf(),
    {
        match self.state {
            BunchingState::Running { .. } => Err(ErrorKind::Busy),
            _ => {
                self.state = BunchingState::NotStarted;
                Ok(())
            },
        }
    }

    /// Current progress: "not started" before any pass, a percentage from
    /// then on. Never an error.
    pub fn progress(&self) -> (r: BunchingProgress)
        requires
            self.wf(),
        ensures
            r == progress_of(self.state),
            r matches BunchingProgress::Percent(p) ==> p <= 100,
    {
        match self.state {
            BunchingState::NotStarted => BunchingProgress::NotStarted,
            BunchingState::Running { percent } => BunchingProgress::Percent(percent),
            BunchingState::Done => BunchingProgress::Percent(100),
        }
    }

    /// Whether the table is complete and may be attached to a game.
    pub fn is_ready(&self) -> (r: bool)
        ensures
            r == (self.state == BunchingState::Done),
    {
        match self.state {
            BunchingState::Done => true,
            _ => false,
        }
    }
}

/// Before preprocessing is started, a progress query answers "not started",
/// which is distinct from every percentage.
pub proof fn lemma_progress_before_start()
    ensures
        progress_of(BunchingState::NotStarted) == BunchingProgress::NotStarted,
        forall|p: u8| progress_of(BunchingState::NotStarted) != BunchingProgress::Percent(p),
{
}

/// Reports from the running pass never make progress go backwards.
pub proof fn lemma_report_monotone(s: BunchingState, percent: u8)
    requires
        (BunchingTracker { state: s }).wf(),
    ensures
        progress_rank(s) <= progress_rank(report_spec(s, percent)),
{
}

/// Completing a pass never makes progress go backwards.
pub proof fn lemma_finish_monotone(s: BunchingState)
    requires
        (BunchingTracker { state: s }).wf(),
    ensures
        progress_rank(s) <= progress_rank(finish_spec(s).0),
{
}

} // verus!
