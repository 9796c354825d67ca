//! The timing engine: warm an operation up, then time a fixed number of executions.

use crate::ratio::Ratio;
use vstd::prelude::*;

verus! {

/// Number of untimed executions that precede every measurement.
pub const WARMUP_RUNS: usize = 3;

/// `std::time::Instant`: a reading of the monotonic clock, of which nothing is known here.
#[verifier::external_type_specification]
#[verifier::external_body]
pub struct ExInstant(std::time::Instant);

/// `std::time::Instant::now` reads the monotonic clock. Nothing is claimed of the instant
/// it returns.
pub assume_specification[ std::time::Instant::now ]() -> (start: std::time::Instant)
;

/// `std::time::Instant::elapsed` gives the time that has passed since the instant was taken.
/// Nothing is claimed of the duration it returns.
pub assume_specification[ std::time::Instant::elapsed ](start: &std::time::Instant) -> (elapsed:
    std::time::Duration)
;

/// `std::time::Duration::as_micros` gives the whole microseconds in a duration. Nothing is
/// claimed of the number beyond its type.
pub assume_specification[ std::time::Duration::as_micros ](elapsed: &std::time::Duration) -> (micros:
    u128)
;

/// A repeatable, zero-argument operation whose executions are counted.
///
/// Whether an execution succeeds may depend on how many executions came before it,
/// and on nothing else.
///
/// The two specification functions default to an operation that is never counted and
/// never fails. An implementation that is to be verified overrides them, or `execute`
/// cannot be shown to count; one that is written outside the verifier may leave them as
/// they are, since they are never executed.
pub trait Operation {
    /// How many times the operation has been executed so far.
    open spec fn runs(&self) -> nat {
        0
    }

    /// Whether the execution that follows `run` earlier ones succeeds.
    open spec fn succeeds_at(&self, run: int) -> bool {
        true
    }

    /// Execute the operation once and report whether it succeeded.
    fn execute(&mut self) -> (ok: bool)
        ensures
            ok == old(self).succeeds_at(old(self).runs() as int),
            final(self).runs() == old(self).runs() + 1,
            forall|k: int| #[trigger] final(self).succeeds_at(k) == old(self).succeeds_at(k),
    ;
}

/// Where a measurement stopped because the operation failed.
#[derive(Clone, Copy, Debug, PartialEq, Eq)]
pub enum OperationFailure {
    /// The warmup execution with this index (from 0) failed.
    Warmup { run: usize },
    /// The timed execution with this index (from 0) failed.
    Measured { iteration: usize },
}

/// What a measurement is: the time that a number of timed executions took together.
pub struct MeasurementView {
    pub elapsed_micros: nat,
    pub iterations: nat,
}

impl MeasurementView {
    /// Mean latency of one execution in microseconds: elapsed time over executions.
    pub open spec fn mean_latency_micros(self) -> Ratio {
        Ratio { numer: self.elapsed_micros as int, denom: self.iterations as int }
    }
}

/// The mean latency of a measurement is a number that is never negative, and it is zero
/// exactly if the clock saw no time pass during the timed executions.
pub proof fn lemma_mean_latency_sign(measurement: MeasurementView)
    requires
        measurement.iterations >= 1,
    ensures
        measurement.mean_latency_micros().defined(),
        measurement.mean_latency_micros().non_negative(),
        measurement.mean_latency_micros().is_zero() <==> measurement.elapsed_micros == 0,
{
}

/// Elapsed wall-clock time of a positive number of back-to-back executions.
#[derive(Clone, Copy, Debug, PartialEq, Eq)]
pub struct MeasurementResult {
    elapsed_micros: u128,
    iterations: usize,
}

impl View for MeasurementResult {
    type V = MeasurementView;

    closed spec fn view(&self) -> MeasurementView {
        MeasurementView {
            elapsed_micros: self.elapsed_micros as nat,
            iterations: self.iterations as nat,
        }
    }
}

impl MeasurementResult {
    #[verifier::type_invariant]
    spec fn well_formed(self) -> bool {
        self.iterations >= 1
    }

    /// A measurement of `iterations` executions that took `elapsed_micros` microseconds
    /// in all; none where `iterations` is zero.
    pub fn new(elapsed_micros: u128, iterations: usize) -> (result: Option<MeasurementResult>)
        ensures
            result is None <==> iterations == 0,
            result matches Some(m) ==> m@ == (MeasurementView {
                elapsed_micros: elapsed_micros as nat,
                iterations: iterations as nat,
            }),
    {
        if iterations == 0 {
            None
        } else {
            Some(MeasurementResult { elapsed_micros, iterations })
        }
    }

    /// Total elapsed time of the timed executions, in microseconds.
    pub fn elapsed_micros(&self) -> (micros: u128)
        ensures
            micros == self@.elapsed_micros,
    {
        self.elapsed_micros
    }

    /// Number of timed executions, at least one.
    pub fn iterations(&self) -> (count: usize)
        ensures
            count == self@.iterations,
            count >= 1,
    {
        proof {
            use_type_invariant(self);
        }
        self.iterations
    }

    /// Whether the clock saw no time pass, so that the mean latency is zero.
    pub fn is_degenerate(&self) -> (degenerate: bool)
        ensures
            degenerate <==> self@.mean_latency_micros().is_zero(),
            degenerate <==> self@.elapsed_micros == 0,
    {
        self.elapsed_micros == 0
    }

    /// Mean latency of one execution in whole microseconds, rounded down.
    pub fn mean_latency_whole_micros(&self) -> (micros: u128)
        ensures
            micros == self@.mean_latency_micros().floor(),
    {
        proof {
            use_type_invariant(self);
        }
        self.elapsed_micros / (self.iterations as u128)
    }
}

/// The next `count` executions of `op` all succeed.
pub open spec fn next_runs_succeed<O: Operation>(op: O, count: int) -> bool {
    forall|k: int| 0 <= k < count ==> #[trigger] op.succeeds_at(op.runs() + k)
}

/// Measure `op`: execute it `WARMUP_RUNS` times untimed, then start the clock, execute
/// it `iterations` times back to back and stop the clock.
///
/// The first execution that fails ends the measurement at once, and the failure says
/// which execution it was. Otherwise the operation has been executed exactly
/// `WARMUP_RUNS + iterations` times, and the result holds the number of timed executions
/// and the time that they took together, whatever the clock showed.
pub fn measure<O: Operation>(iterations: usize, op: &mut O) -> (result: Result<
    MeasurementResult,
    OperationFailure,
>)
    requires
        iterations >= 1,
    ensures
        forall|k: int| #[trigger] final(op).succeeds_at(k) == old(op).succeeds_at(k),
        match result {
            Ok(m) => {
                &&& next_runs_succeed(*old(op), WARMUP_RUNS + iterations)
                &&& final(op).runs() == old(op).runs() + WARMUP_RUNS + iterations
                &&& m@.iterations == iterations
            },
            Err(OperationFailure::Warmup { run }) => {
                &&& run < WARMUP_RUNS
                &&& next_runs_succeed(*old(op), run as int)
                &&& !old(op).succeeds_at(old(op).runs() + run)
                &&& final(op).runs() == old(op).runs() + run + 1
            },
            Err(OperationFailure::Measured { iteration }) => {
                &&& iteration < iterations
                &&& next_runs_succeed(*old(op), WARMUP_RUNS + iteration)
                &&& !old(op).succeeds_at(old(op).runs() + WARMUP_RUNS + iteration)
                &&& final(op).runs() == old(op).runs() + WARMUP_RUNS + iteration + 1
            },
        },
{
    let mut warm: usize = 0;
    while warm < WARMUP_RUNS
        invariant
            warm <= WARMUP_RUNS,
            op.runs() == old(op).runs() + warm,
            forall|k: int| #[trigger] op.succeeds_at(k) == old(op).succeeds_at(k),
            next_runs_succeed(*old(op), warm as int),
        decreases WARMUP_RUNS - warm,
    {
        if !op.execute() {
            return Err(OperationFailure::Warmup { run: warm });
        }
        warm = warm + 1;
    }
    let start = std::time::Instant::now();
    let mut done: usize = 0;
    while done < iterations
        invariant
            done <= iterations,
            op.runs() == old(op).runs() + WARMUP_RUNS + done,
            forall|k: int| #[trigger] op.succeeds_at(k) == old(op).succeeds_at(k),
            next_runs_succeed(*old(op), WARMUP_RUNS + done),
        decreases iterations - done,
    {
        if !op.execute() {
            return Err(OperationFailure::Measured { iteration: done });
        }
        done = done + 1;
    }
    let elapsed = start.elapsed();
    Ok(MeasurementResult { elapsed_micros: elapsed.as_micros(), iterations })
}

} // verus!
