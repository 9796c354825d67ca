//! What a run produces: one record per measured pair of corpus entry and backend, a
//! diagnostic per entry that could not be loaded, and the failure that ends a run.

use crate::ratio::Ratio;
use crate::timing::{MeasurementResult, MeasurementView};
use vstd::prelude::*;

verus! {

/// Bytes in a megabyte.
pub const BYTES_PER_MB: u128 = 1_048_576;

/// Microseconds in a second.
pub const MICROS_PER_SECOND: u128 = 1_000_000;

/// What a record is: which entry and backend were measured, how large the input was and
/// what the timing engine measured.
pub struct RecordView {
    pub corpus_entry_name: Seq<char>,
    pub backend_name: Seq<char>,
    pub size_bytes: nat,
    pub measurement: MeasurementView,
}

impl RecordView {
    /// Size of the input in megabytes.
    pub open spec fn size_mb(self) -> Ratio {
        Ratio { numer: self.size_bytes as int, denom: BYTES_PER_MB as int }
    }

    /// Mean latency of one execution in microseconds.
    pub open spec fn mean_latency_micros(self) -> Ratio {
        self.measurement.mean_latency_micros()
    }

    /// Mean latency of one execution in seconds.
    pub open spec fn mean_latency_seconds(self) -> Ratio {
        self.mean_latency_micros().over(Ratio::whole(MICROS_PER_SECOND as int))
    }

    /// Throughput in megabytes per second: input size over mean latency. There is none
    /// where the mean latency is zero.
    pub open spec fn throughput_mbps(self) -> Option<Ratio> {
        if self.mean_latency_micros().is_zero() {
            None
        } else {
            Some(self.size_mb().over(self.mean_latency_seconds()))
        }
    }
}

/// Throughput of one measurement, kept exact.
#[derive(Clone, Copy, Debug, PartialEq, Eq)]
pub enum Throughput {
    /// The clock saw no time pass: the throughput has no bound.
    Unbounded,
    /// This many bytes went through the backend in this many microseconds.
    Finite { total_bytes: u128, elapsed_micros: u128 },
}

impl Throughput {
    /// The throughput in megabytes per second, where it is bounded.
    pub open spec fn mbps(self) -> Option<Ratio> {
        match self {
            Throughput::Unbounded => None,
            Throughput::Finite { total_bytes, elapsed_micros } => Some(
                Ratio {
                    numer: total_bytes * MICROS_PER_SECOND,
                    denom: elapsed_micros * BYTES_PER_MB,
                },
            ),
        }
    }

    /// The inputs on which `whole_mbps` has a result: the throughput is bounded, its
    /// time is not zero, and the two products of the fraction fit the machine integer.
    pub open spec fn has_whole_mbps(self) -> bool {
        &&& self matches Throughput::Finite { total_bytes, elapsed_micros }
        &&& elapsed_micros > 0
        &&& total_bytes * MICROS_PER_SECOND <= u128::MAX
        &&& elapsed_micros * BYTES_PER_MB <= u128::MAX
    }

    /// Whole megabytes per second, rounded down.
    pub fn whole_mbps(&self) -> (result: Option<u128>)
        ensures
            result is Some <==> self.has_whole_mbps(),
            result matches Some(whole) ==> whole == self.mbps().unwrap().floor(),
    {
        match self {
            Throughput::Unbounded => None,
            Throughput::Finite { total_bytes, elapsed_micros } => {
                if *elapsed_micros == 0 {
                    return None;
                }
                match (
                    total_bytes.checked_mul(MICROS_PER_SECOND),
                    elapsed_micros.checked_mul(BYTES_PER_MB),
                ) {
                    (Some(numer), Some(denom)) => Some(numer / denom),
                    _ => None,
                }
            },
        }
    }
}

/// One backend's measured performance on one corpus entry.
#[derive(Debug, PartialEq, Eq)]
pub struct ComparisonRecord {
    pub corpus_entry_name: String,
    pub backend_name: String,
    pub size_bytes: usize,
    pub measurement: MeasurementResult,
}

impl View for ComparisonRecord {
    type V = RecordView;

    open spec fn view(&self) -> RecordView {
        RecordView {
            corpus_entry_name: self.corpus_entry_name@,
            backend_name: self.backend_name@,
            size_bytes: self.size_bytes as nat,
            measurement: self.measurement@,
        }
    }
}

impl ComparisonRecord {
    /// Throughput of the measurement: unbounded exactly where no time was seen to pass,
    /// and otherwise input size over mean latency.
    pub fn throughput(&self) -> (throughput: Throughput)
        ensures
            throughput is Unbounded <==> self@.measurement.elapsed_micros == 0,
            throughput matches Throughput::Finite { total_bytes, elapsed_micros } ==> {
                &&& total_bytes == self@.size_bytes * self@.measurement.iterations
                &&& elapsed_micros == self@.measurement.elapsed_micros
            },
            match (throughput.mbps(), self@.throughput_mbps()) {
                (Some(exact), Some(formula)) => {
                    &&& exact.defined()
                    &&& formula.defined()
                    &&& exact.same_value(formula)
                },
                (None, None) => true,
                _ => false,
            },
    {
        let elapsed_micros = self.measurement.elapsed_micros();
        if elapsed_micros == 0 {
            return Throughput::Unbounded;
        }
        let size = self.size_bytes as u128;
        let iterations = self.measurement.iterations() as u128;
        assert(size * iterations <= u128::MAX) by (nonlinear_arith)
            requires
                size <= 0xffff_ffff_ffff_ffff,
                iterations <= 0xffff_ffff_ffff_ffff,
        ;
        let total_bytes = size * iterations;
        proof {
            let s = self@.size_bytes as int;
            let n = self@.measurement.iterations as int;
            let e = self@.measurement.elapsed_micros as int;
            assert((s * n * 1_000_000) * (1_048_576 * (e * 1)) == (s * (n * 1_000_000)) * (e
                * 1_048_576)) by (nonlinear_arith);
            assert(e * 1_048_576 != 0 && 1_048_576 * (e * 1) != 0) by (nonlinear_arith)
                requires
                    e > 0,
            ;
        }
        Throughput::Finite { total_bytes, elapsed_micros }
    }
}

/// What a load diagnostic is: which entry could not be loaded, and from where.
pub struct DiagnosticView {
    pub entry_index: nat,
    pub entry_name: Seq<char>,
    pub source_locator: Seq<char>,
}

/// A corpus entry whose source was missing or unreadable; it was skipped.
#[derive(Debug, PartialEq, Eq)]
pub struct LoadDiagnostic {
    pub entry_index: usize,
    pub entry_name: String,
    pub source_locator: String,
}

impl View for LoadDiagnostic {
    type V = DiagnosticView;

    open spec fn view(&self) -> DiagnosticView {
        DiagnosticView {
            entry_index: self.entry_index as nat,
            entry_name: self.entry_name@,
            source_locator: self.source_locator@,
        }
    }
}

/// What a parse failure is: which backend failed on which entry.
pub struct FailureView {
    pub entry_index: nat,
    pub backend_index: nat,
    pub entry_name: Seq<char>,
    pub backend_name: Seq<char>,
}

/// A backend that could not parse a loaded corpus entry; this ends the run.
#[derive(Debug, PartialEq, Eq)]
pub struct ParseFailure {
    pub entry_index: usize,
    pub backend_index: usize,
    pub entry_name: String,
    pub backend_name: String,
}

impl View for ParseFailure {
    type V = FailureView;

    open spec fn view(&self) -> FailureView {
        FailureView {
            entry_index: self.entry_index as nat,
            backend_index: self.backend_index as nat,
            entry_name: self.entry_name@,
            backend_name: self.backend_name@,
        }
    }
}

/// The outcome of a run that no backend ended: the records in corpus order and, within
/// an entry, in registration order, and a diagnostic for every entry that was skipped.
#[derive(Debug, PartialEq, Eq)]
pub struct Report {
    pub records: Vec<ComparisonRecord>,
    pub diagnostics: Vec<LoadDiagnostic>,
}

} // verus!
