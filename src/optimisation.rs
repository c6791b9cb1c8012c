//! The schedule of a simulated-annealing run.
//!
//! A run is a number of stages of `inner_steps` moves each. The caller performs each move
//! (perturb one parameter, re-score, accept or reject) and reports whether it was
//! accepted; at the end of each stage it reports whether the score improved by less than
//! the convergence threshold, if one is set. The run ends when every stage is done, or
//! early once the score has stalled for more than `CONVERGED_STAGES` stages in a row.
use vstd::prelude::*;

verus! {

/// The number of consecutive stalled stages that a run tolerates before it stops early.
pub const CONVERGED_STAGES: u64 = 5;

/// What the caller does next.
#[derive(Debug, Clone, Copy, PartialEq, Eq, Structural)]
pub enum Step {
    /// Perform one move and report it with `record_move`.
    Move,
    /// Cool down, adapt the step size and report the stage with `end_stage`.
    EndStage,
    /// The run is over.
    Finish,
}

/// The number of moves per stage: never more than the run has steps.
pub fn clamp_inner_steps(inner_steps: u64, steps: u64) -> (r: u64)
    ensures
        r == if inner_steps <= steps { inner_steps } else { steps },
{
    if inner_steps <= steps {
        inner_steps
    } else {
        steps
    }
}

/// The progress of a run.
#[derive(Debug, Clone, Copy, PartialEq, Eq, Structural)]
pub struct RunState {
    /// The number of stages of the run.
    pub stages: u64,
    /// The number of moves in each stage.
    pub inner_steps: u64,
    /// The stages that are complete.
    pub stage: u64,
    /// The moves made in the current stage.
    pub moves: u64,
    /// The moves rejected in the current stage.
    pub stage_rejections: u64,
    /// The stalled stages just before this one, in a row.
    pub stalled: u64,
    /// The run stopped early because its score converged.
    pub converged: bool,
}

impl RunState {
    pub open spec fn wf(&self) -> bool {
        &&& self.inner_steps > 0
        &&& self.stage <= self.stages
        &&& self.moves <= self.inner_steps
        &&& self.stage_rejections <= self.moves
        &&& self.stalled <= CONVERGED_STAGES
    }

    pub open spec fn next_spec(&self) -> Step {
        if self.converged || self.stage >= self.stages {
            Step::Finish
        } else if self.moves < self.inner_steps {
            Step::Move
        } else {
            Step::EndStage
        }
    }

    /// A run of `steps` moves in stages of `inner_steps` moves, the latter clamped to
    /// `steps`. Both must be positive.
    pub fn new(steps: u64, inner_steps: u64) -> (r: RunState)
        requires
            steps > 0,
            inner_steps > 0,
        ensures
            r.wf(),
            r.inner_steps == if inner_steps <= steps { inner_steps } else { steps },
            r.stages == steps / r.inner_steps,
            r.stage == 0,
            r.moves == 0,
            r.stage_rejections == 0,
            r.stalled == 0,
            !r.converged,
    {
        let inner = clamp_inner_steps(inner_steps, steps);
        RunState {
            stages: steps / inner,
            inner_steps: inner,
            stage: 0,
            moves: 0,
            stage_rejections: 0,
            stalled: 0,
            converged: false,
        }
    }

    /// What to do next.
    pub fn next_step(&self) -> (r: Step)
        ensures
            r == self.next_spec(),
    {
        if self.converged || self.stage >= self.stages {
            Step::Finish
        } else if self.moves < self.inner_steps {
            Step::Move
        } else {
            Step::EndStage
        }
    }

    /// Counts a move of the current stage, and a rejection if it was not accepted.
    pub fn record_move(&mut self, accepted: bool)
        requires
            old(self).wf(),
            old(self).next_spec() == Step::Move,
        ensures
            final(self).wf(),
            *final(self) == (RunState {
                moves: (old(self).moves + 1) as u64,
                stage_rejections: if accepted {
                    old(self).stage_rejections
                } else {
                    (old(self).stage_rejections + 1) as u64
                },
                ..*old(self)
            }),
    {
        self.moves = self.moves + 1;
        if !accepted {
            self.stage_rejections = self.stage_rejections + 1;
        }
    }

    /// Closes the current stage. `stalled` is `None` when no convergence threshold is set,
    /// and otherwise whether the score improved by less than the threshold over the stage.
    /// Returns whether the run stops here because the score has converged: that is when
    /// this stage stalled and so did the `CONVERGED_STAGES` stages before it.
    pub fn end_stage(&mut self, stalled: Option<bool>) -> (stop: bool)
        requires
            old(self).wf(),
            old(self).next_spec() == Step::EndStage,
        ensures
            final(self).wf(),
            final(self).stages == old(self).stages,
            final(self).inner_steps == old(self).inner_steps,
            final(self).stage == old(self).stage + 1,
            final(self).moves == 0,
            final(self).stage_rejections == 0,
            stop == (stalled == Some(true) && old(self).stalled == CONVERGED_STAGES),
            final(self).converged == stop,
            final(self).stalled == match stalled {
                Some(true) => if stop { old(self).stalled } else { (old(self).stalled + 1) as u64 },
                Some(false) => 0,
                None => old(self).stalled,
            },
    {
        self.stage = self.stage + 1;
        self.moves = 0;
        self.stage_rejections = 0;
        let mut stop = false;
        match stalled {
            Some(true) => {
                if self.stalled == CONVERGED_STAGES {
                    stop = true;
                } else {
                    self.stalled = self.stalled + 1;
                }
            },
            Some(false) => {
                self.stalled = 0;
            },
            None => {},
        }
        self.converged = stop;
        stop
    }
}

} // verus!
