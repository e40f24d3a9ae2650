//! Simulation time: wall time owed to the simulation is consumed in whole
//! fixed steps.
//!
//! All times are nanoseconds. Wall time is read from a monotonic clock whose
//! origin the caller picks; simulation time starts at zero.
use vstd::prelude::*;
use vstd::arithmetic::div_mod::{
    lemma_fundamental_div_mod,
    lemma_fundamental_div_mod_converse,
    lemma_mod_multiples_vanish,
};

verus! {

/// Length of one simulation step: a hundredth of a second.
pub const FIXED_TIME_STEP_NANOS: u64 = 10_000_000;

/// Most simulation steps run for one frame tick. When more steps are owed
/// (after a stall), the whole steps beyond this bound are dropped and only
/// the fraction of a step is kept, so that one slow frame cannot make every
/// following frame slower.
pub const MAX_CATCH_UP_STEPS: u64 = 10;

/// `x`, or the largest `u64` where `x` is larger.
pub open spec fn saturated(x: int) -> int {
    if x > u64::MAX {
        u64::MAX as int
    } else {
        x
    }
}

/// The abstract state of a simulation clock.
pub struct ClockState {
    /// Simulated time so far (saturating at the largest `u64`).
    pub engine_time: nat,
    /// Length of one simulation step.
    pub fixed_step: nat,
    /// The last wall-clock sample.
    pub current_time: nat,
    /// Wall time owed to the simulation and not yet simulated.
    pub accumulator: nat,
    /// Most steps run per frame tick.
    pub max_steps: nat,
}

impl ClockState {
    pub open spec fn wf(self) -> bool {
        &&& 0 < self.fixed_step
        &&& 0 < self.max_steps
        &&& self.accumulator < self.fixed_step
    }

    /// Wall time since the last sample; a sample that goes backwards counts
    /// as no time.
    pub open spec fn elapsed_until(self, now: int) -> int {
        if now >= self.current_time {
            now - self.current_time
        } else {
            0
        }
    }

    /// Wall time owed to the simulation once `now` is sampled.
    pub open spec fn debt_at(self, now: int) -> int {
        self.accumulator + self.elapsed_until(now)
    }

    /// Whole steps owed once `now` is sampled.
    pub open spec fn owed_steps(self, now: int) -> int {
        self.debt_at(now) / (self.fixed_step as int)
    }

    /// Steps run for a frame tick at `now`: those owed, at most `max_steps`.
    pub open spec fn steps_for(self, now: int) -> int {
        if self.owed_steps(now) <= self.max_steps {
            self.owed_steps(now)
        } else {
            self.max_steps as int
        }
    }

    /// The clock after a frame tick at `now`: the sample is kept, the steps
    /// run are added to simulated time, and only the fraction of a step that
    /// is owed stays in the accumulator (whole steps beyond `max_steps` are
    /// dropped).
    pub open spec fn advanced(self, now: int) -> ClockState {
        ClockState {
            engine_time: saturated(
                self.engine_time + self.steps_for(now) * self.fixed_step,
            ) as nat,
            current_time: now as nat,
            accumulator: (self.debt_at(now) % (self.fixed_step as int)) as nat,
            ..self
        }
    }
}

/// After a frame tick less than one step is owed, and at most `max_steps`
/// steps ran. When no more than `max_steps` steps were owed, the tick ran
/// all of them and the time owed is exactly what the steps did not consume;
/// otherwise it ran `max_steps` and dropped the other whole steps.
pub proof fn lemma_tick_leaves_less_than_a_step(c: ClockState, now: int)
    requires
        c.wf(),
    ensures
        0 <= c.advanced(now).accumulator < c.advanced(now).fixed_step,
        0 <= c.steps_for(now) <= c.max_steps,
        c.advanced(now).wf(),
        c.owed_steps(now) <= c.max_steps ==> c.steps_for(now) == c.owed_steps(now)
            && c.advanced(now).accumulator == c.debt_at(now) - c.steps_for(now) * c.fixed_step,
        c.owed_steps(now) > c.max_steps ==> c.steps_for(now) == c.max_steps,
{
    lemma_fundamental_div_mod(c.debt_at(now), c.fixed_step as int);
    assert(c.debt_at(now) >= 0);
    assert(c.owed_steps(now) >= 0) by (nonlinear_arith)
        requires
            c.debt_at(now) >= 0,
            c.fixed_step > 0,
            c.owed_steps(now) == c.debt_at(now) / (c.fixed_step as int),
    ;
    assert(c.owed_steps(now) * c.fixed_step == c.fixed_step * c.owed_steps(now)) by (nonlinear_arith);
}

/// Tracks wall time, owed time and simulated time.
#[derive(Debug, Clone)]
pub struct SimulationClock {
    engine_time: u64,
    time_step: u64,
    current_time: u64,
    time_accumulator: u64,
    max_steps: u64,
}

impl View for SimulationClock {
    type V = ClockState;

    closed spec fn view(&self) -> ClockState {
        ClockState {
            engine_time: self.engine_time as nat,
            fixed_step: self.time_step as nat,
            current_time: self.current_time as nat,
            accumulator: self.time_accumulator as nat,
            max_steps: self.max_steps as nat,
        }
    }
}

impl SimulationClock {
    /// A clock with the default step and catch-up bound, first sampled at
    /// `now`.
    pub fn new(now: u64) -> (r: SimulationClock)
        ensures
            r@ == (ClockState {
                engine_time: 0,
                fixed_step: FIXED_TIME_STEP_NANOS as nat,
                current_time: now as nat,
                accumulator: 0,
                max_steps: MAX_CATCH_UP_STEPS as nat,
            }),
            r@.wf(),
    {
        SimulationClock::with_step(FIXED_TIME_STEP_NANOS, MAX_CATCH_UP_STEPS, now)
    }

    /// A clock with the given step and catch-up bound, first sampled at
    /// `now`.
    pub fn with_step(fixed_step: u64, max_steps: u64, now: u64) -> (r: SimulationClock)
        requires
            fixed_step > 0,
            max_steps > 0,
        ensures
            r@ == (ClockState {
                engine_time: 0,
                fixed_step: fixed_step as nat,
                current_time: now as nat,
                accumulator: 0,
                max_steps: max_steps as nat,
            }),
            r@.wf(),
    {
        SimulationClock {
            engine_time: 0,
            time_step: fixed_step,
            current_time: now,
            time_accumulator: 0,
            max_steps,
        }
    }

    /// Simulated time so far.
    pub fn engine_time(&self) -> (r: u64)
        ensures
            r == self@.engine_time,
    {
        self.engine_time
    }

    /// Length of one simulation step.
    pub fn fixed_step(&self) -> (r: u64)
        ensures
            r == self@.fixed_step,
    {
        self.time_step
    }

    /// The last wall-clock sample.
    pub fn current_time(&self) -> (r: u64)
        ensures
            r == self@.current_time,
    {
        self.current_time
    }

    /// Wall time owed to the simulation and not yet simulated; divided by the
    /// step, it is the blending factor for rendering between two steps.
    pub fn accumulator(&self) -> (r: u64)
        ensures
            r == self@.accumulator,
    {
        self.time_accumulator
    }

    /// Most steps run per frame tick.
    pub fn max_steps(&self) -> (r: u64)
        ensures
            r == self@.max_steps,
    {
        self.max_steps
    }

    /// Samples the wall clock at `now` and consumes the owed time in whole
    /// steps, at most `max_steps` of them; returns how many steps the
    /// simulation must run. Afterwards less than one step is owed.
    pub fn advance(&mut self, now: u64) -> (steps: u64)
        requires
            old(self)@.wf(),
        ensures
            steps == old(self)@.steps_for(now as int),
            final(self)@ == old(self)@.advanced(now as int),
            final(self)@.wf(),
            final(self)@.accumulator < final(self)@.fixed_step,
            steps <= final(self)@.max_steps,
            old(self)@.owed_steps(now as int) <= old(self)@.max_steps ==> steps
                == old(self)@.owed_steps(now as int),
    {
        let ghost s0 = self@;
        let elapsed = now.saturating_sub(self.current_time);
        self.current_time = now;
        let step = self.time_step;
        let max_steps = self.max_steps;
        let ghost debt0: int = s0.debt_at(now as int);
        let ghost e0: int = s0.engine_time as int;
        let mut debt: u128 = self.time_accumulator as u128 + elapsed as u128;
        let mut steps: u64 = 0;
        while debt >= step as u128 && steps < max_steps
            invariant
                step == s0.fixed_step,
                max_steps == s0.max_steps,
                self.time_step == step,
                self.max_steps == max_steps,
                self.current_time == now,
                self.time_accumulator == s0.accumulator,
                0 < step,
                debt + steps * step == debt0,
                steps <= max_steps,
                self.engine_time == saturated(e0 + steps * step),
            decreases debt,
        {
            debt = debt - step as u128;
            proof {
                assert((steps + 1) * step == steps * step + step) by (nonlinear_arith);
            }
            self.engine_time = self.engine_time.saturating_add(step);
            steps = steps + 1;
        }
        proof {
            let q: int = (debt as int) / (step as int);
            let r: int = (debt as int) % (step as int);
            lemma_fundamental_div_mod(debt as int, step as int);
            assert(debt0 == (steps + q) * step + r) by (nonlinear_arith)
                requires
                    debt0 == debt + steps * step,
                    debt == step * q + r,
            ;
            lemma_fundamental_div_mod_converse(debt0, step as int, steps + q, r);
            if debt < step {
                assert(q == 0) by (nonlinear_arith)
                    requires
                        debt == step * q + r,
                        0 <= r < step,
                        0 <= debt < step,
                ;
            } else {
                assert(q >= 1) by (nonlinear_arith)
                    requires
                        debt == step * q + r,
                        0 <= r < step,
                        debt >= step,
                ;
            }
        }
        if debt >= step as u128 {
            debt = debt % (step as u128);
        }
        self.time_accumulator = debt as u64;
        steps
    }
}

} // verus!
