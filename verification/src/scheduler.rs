//! The step scheduler: how many update passes run before each displayed
//! frame, and the start/stop, single-step and steps-per-frame controls that
//! drive them. A steps-per-frame request outside [1, 512] is rejected and the
//! previous configured value stays in effect; a request for zero steps is a
//! strict no-op.

use vstd::prelude::*;
use vstd::arithmetic::div_mod::{lemma_add_mod_noop, lemma_small_mod};
use crate::valid_state;
use crate::grid::{lemma_identity_rule_step, step_grid, Grid, GENERATION_WRAP};
use crate::rule::IdentityRule;
use crate::table::{table_spec, TransitionTable};

verus! {

/// Smallest accepted steps-per-frame request.
pub const MIN_STEPS_PER_FRAME: u64 = 1;

/// Largest accepted steps-per-frame request.
pub const MAX_STEPS_PER_FRAME: u64 = 512;

/// The grid after `n` sequential update passes.
pub open spec fn multi_step(table: Seq<u8>, cells: Seq<u8>, w: int, h: int, n: nat) -> Seq<u8>
    decreases n,
{
    if n == 0 {
        cells
    } else {
        step_grid(table, multi_step(table, cells, w, h, (n - 1) as nat), w, h)
    }
}

/// Drives N update passes per displayed frame and owns the stepping controls.
pub struct StepScheduler {
    steps_per_frame: u64,
    running: bool,
    single_step: bool,
}

impl StepScheduler {
    /// The configured number of update passes per displayed frame.
    pub closed spec fn spec_steps_per_frame(&self) -> u64 {
        self.steps_per_frame
    }

    /// Whether continuous stepping is on.
    pub closed spec fn spec_running(&self) -> bool {
        self.running
    }

    /// Whether a single step is armed for the next frame.
    pub closed spec fn spec_single_step(&self) -> bool {
        self.single_step
    }

    /// The configured steps-per-frame is within the accepted range.
    pub open spec fn wf(&self) -> bool {
        MIN_STEPS_PER_FRAME <= self.spec_steps_per_frame() <= MAX_STEPS_PER_FRAME
    }

    /// A fresh scheduler: one pass per frame, suspended, nothing armed.
    pub fn new() -> (s: StepScheduler)
        ensures
            s.wf(),
            s.spec_steps_per_frame() == MIN_STEPS_PER_FRAME,
            !s.spec_running(),
            !s.spec_single_step(),
    {
        StepScheduler { steps_per_frame: MIN_STEPS_PER_FRAME, running: false, single_step: false }
    }

    /// The configured number of update passes per displayed frame.
    pub fn steps_per_frame(&self) -> (n: u64)
        ensures
            n == self.spec_steps_per_frame(),
    {
        self.steps_per_frame
    }

    /// Requests a new steps-per-frame value. A request outside [1, 512] is
    /// rejected and the previous configured value is retained.
    pub fn set_steps_per_frame(&mut self, n: u64)
        requires
            old(self).wf(),
        ensures
            final(self).wf(),
            MIN_STEPS_PER_FRAME <= n <= MAX_STEPS_PER_FRAME ==> final(self).spec_steps_per_frame()
                == n,
            !(MIN_STEPS_PER_FRAME <= n <= MAX_STEPS_PER_FRAME) ==> final(self).spec_steps_per_frame() == old(self).spec_steps_per_frame(),
            final(self).spec_running() == old(self).spec_running(),
            final(self).spec_single_step() == old(self).spec_single_step(),
    {
        if MIN_STEPS_PER_FRAME <= n && n <= MAX_STEPS_PER_FRAME {
            self.steps_per_frame = n;
        }
    }

    /// Starts continuous stepping if it is suspended, and suspends it if it
    /// is on.
    pub fn toggle_running(&mut self)
        ensures
            final(self).spec_running() == !old(self).spec_running(),
            final(self).spec_steps_per_frame() == old(self).spec_steps_per_frame(),
            final(self).spec_single_step() == old(self).spec_single_step(),
    {
        self.running = !self.running;
    }

    /// Arms a single step: the next frame runs exactly one pass, then
    /// scheduling is suspended again until re-armed.
    pub fn arm_single_step(&mut self)
        ensures
            final(self).spec_single_step(),
            final(self).spec_steps_per_frame() == old(self).spec_steps_per_frame(),
            final(self).spec_running() == old(self).spec_running(),
    {
        self.single_step = true;
    }

    /// How many update passes the coming frame runs: the configured count
    /// while running, one for an armed single step (which this call
    /// disarms), and zero while suspended.
    pub fn frame_steps(&mut self) -> (n: u64)
        ensures
            final(self).spec_steps_per_frame() == old(self).spec_steps_per_frame(),
            final(self).spec_running() == old(self).spec_running(),
            old(self).spec_running() ==> n == old(self).spec_steps_per_frame() && final(self).spec_single_step() == old(self).spec_single_step(),
            !old(self).spec_running() && old(self).spec_single_step() ==> n == 1 && !final(self).spec_single_step(),
            !old(self).spec_running() && !old(self).spec_single_step() ==> n == 0 && final(self).spec_single_step() == old(self).spec_single_step(),
    {
        if self.running {
            self.steps_per_frame
        } else if self.single_step {
            self.single_step = false;
            1
        } else {
            0
        }
    }

    /// Requests `n_steps` sequential update passes. A count in [1, 512] is
    /// honored in whole units: it becomes the configured steps-per-frame and
    /// the grid advances that many passes, the generation counter rising by
    /// the same amount (wrapping silently). Any other count — zero included —
    /// is rejected: the configured value, the grid and its generation stay
    /// exactly as they were.
    pub fn advance(&mut self, table: &TransitionTable, grid: &mut Grid, n_steps: u64)
        requires
            table.wf(),
            old(grid).wf(),
            old(self).wf(),
        ensures
            final(self).wf(),
            final(grid).wf(),
            final(self).spec_running() == old(self).spec_running(),
            final(self).spec_single_step() == old(self).spec_single_step(),
            MIN_STEPS_PER_FRAME <= n_steps <= MAX_STEPS_PER_FRAME ==> {
                &&& final(self).spec_steps_per_frame() == n_steps
                &&& final(grid)@ == multi_step(
                    table@,
                    old(grid)@,
                    old(grid).spec_width() as int,
                    old(grid).spec_height() as int,
                    n_steps as nat,
                )
                &&& final(grid).spec_width() == old(grid).spec_width()
                &&& final(grid).spec_height() == old(grid).spec_height()
                &&& final(grid).spec_seed() == old(grid).spec_seed()
                &&& final(grid).spec_generation() == (old(grid).spec_generation() + n_steps) % (
                GENERATION_WRAP as int)
            },
            !(MIN_STEPS_PER_FRAME <= n_steps <= MAX_STEPS_PER_FRAME) ==> *final(self) == *old(self)
                && *final(grid) == *old(grid),
    {
        if n_steps < MIN_STEPS_PER_FRAME || n_steps > MAX_STEPS_PER_FRAME {
            return ;
        }
        self.steps_per_frame = n_steps;
        let ghost cells0 = grid@;
        let ghost gen0 = grid.spec_generation();
        let ghost w = grid.spec_width() as int;
        let ghost h = grid.spec_height() as int;
        let mut k: u64 = 0;
        proof {
            lemma_small_mod(gen0 as nat, GENERATION_WRAP as nat);
        }
        while k < n_steps
            invariant
                table.wf(),
                grid.wf(),
                k <= n_steps,
                grid.spec_width() == w,
                grid.spec_height() == h,
                grid.spec_seed() == old(grid).spec_seed(),
                grid@ == multi_step(table@, cells0, w, h, k as nat),
                grid.spec_generation() == (gen0 + k) % (GENERATION_WRAP as int),
            decreases n_steps - k,
        {
            grid.step_once(table);
            proof {
                lemma_small_mod(1nat, GENERATION_WRAP as nat);
                lemma_add_mod_noop(gen0 + k, 1, GENERATION_WRAP as int);
            }
            k += 1;
        }
    }

    /// Runs one displayed frame's worth of update passes: the configured
    /// count while running, one for an armed single step (disarming it), and
    /// none while suspended — panning or zooming alone changes no state.
    pub fn advance_frame(&mut self, table: &TransitionTable, grid: &mut Grid)
        requires
            table.wf(),
            old(grid).wf(),
            old(self).wf(),
        ensures
            final(self).wf(),
            final(grid).wf(),
            final(self).spec_running() == old(self).spec_running(),
            final(grid).spec_width() == old(grid).spec_width(),
            final(grid).spec_height() == old(grid).spec_height(),
            final(grid).spec_seed() == old(grid).spec_seed(),
            old(self).spec_running() ==> {
                &&& final(self).spec_single_step() == old(self).spec_single_step()
                &&& final(self).spec_steps_per_frame() == old(self).spec_steps_per_frame()
                &&& final(grid)@ == multi_step(
                    table@,
                    old(grid)@,
                    old(grid).spec_width() as int,
                    old(grid).spec_height() as int,
                    old(self).spec_steps_per_frame() as nat,
                )
                &&& final(grid).spec_generation() == (old(grid).spec_generation() + old(self).spec_steps_per_frame()) % (GENERATION_WRAP as int)
            },
            !old(self).spec_running() && old(self).spec_single_step() ==> {
                &&& !final(self).spec_single_step()
                &&& final(self).spec_steps_per_frame() == 1
                &&& final(grid)@ == multi_step(
                    table@,
                    old(grid)@,
                    old(grid).spec_width() as int,
                    old(grid).spec_height() as int,
                    1,
                )
                &&& final(grid).spec_generation() == (old(grid).spec_generation() + 1) % (
                GENERATION_WRAP as int)
            },
            !old(self).spec_running() && !old(self).spec_single_step() ==> {
                &&& final(self).spec_single_step() == old(self).spec_single_step()
                &&& final(self).spec_steps_per_frame() == old(self).spec_steps_per_frame()
                &&& *final(grid) == *old(grid)
            },
    {
        let n = self.frame_steps();
        if n > 0 {
            self.advance(table, grid, n);
        }
    }
}


/// Any number of update passes under the rule that outputs every cell's own
/// state unchanged leaves the grid exactly as seeded.
pub proof fn lemma_identity_rule_multi_step(
    table: TransitionTable,
    cells: Seq<u8>,
    w: int,
    h: int,
    n: nat,
)
    requires
        table.wf(),
        table@ == table_spec(IdentityRule),
        0 <= w,
        0 <= h,
        cells.len() == w * h,
        forall|j: int| 0 <= j < cells.len() ==> valid_state(#[trigger] cells[j]),
    ensures
        multi_step(table@, cells, w, h, n) == cells,
    decreases n,
{
    if n > 0 {
        lemma_identity_rule_multi_step(table, cells, w, h, (n - 1) as nat);
        assert forall|i: int| 0 <= i < cells.len() implies step_grid(table@, cells, w, h)[i]
            == cells[i] by {
            lemma_identity_rule_step(table, cells, w, h, i);
        }
        assert(step_grid(table@, cells, w, h) =~= cells);
    }
}

} // verus!
