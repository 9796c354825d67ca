//! The comparison runner: every loaded corpus entry is measured against every backend,
//! in corpus order and, within an entry, in registration order.

use crate::backend::{parses, BackendHandle, Parser};
use crate::corpus::{byte_size, views, CorpusEntry, CorpusEntryView, LoadedInput};
use crate::record::{
    ComparisonRecord, DiagnosticView, FailureView, LoadDiagnostic, ParseFailure, RecordView,
    Report,
};
use crate::timing::{measure, MeasurementView, Operation};
use vstd::prelude::*;

verus! {

/// The operation that is timed for one backend on one loaded input: parse the input and
/// drop what was parsed.
///
/// A parser that overwrites its input gets a copy of the text that is made for that one
/// call, so every execution sees the text as it was loaded.
pub struct ParseOperation<'a, P: Parser> {
    parser: &'a P,
    input: &'a LoadedInput,
    runs: Ghost<nat>,
}

impl<'a, P: Parser> ParseOperation<'a, P> {
    #[verifier::type_invariant]
    spec fn well_formed(self) -> bool {
        self.parser.admissible(self.input@)
    }

    /// The parser that is run.
    pub closed spec fn parser(&self) -> P {
        *self.parser
    }

    /// The text that every execution parses.
    pub closed spec fn text(&self) -> Seq<char> {
        self.input@
    }

    /// The operation that parses `input` with `parser`, not yet executed.
    pub fn new(parser: &'a P, input: &'a LoadedInput) -> (op: ParseOperation<'a, P>)
        requires
            parser.admissible(input@),
        ensures
            op.parser() == *parser,
            op.text() == input@,
            op.runs() == 0,
    {
        ParseOperation { parser, input, runs: Ghost(0) }
    }
}

impl<'a, P: Parser> Operation for ParseOperation<'a, P> {
    closed spec fn runs(&self) -> nat {
        self.runs@
    }

    /// Every execution succeeds exactly if the parser accepts the text as it was loaded,
    /// however many executions came before.
    open spec fn succeeds_at(&self, run: int) -> bool {
        self.parser().accepts(self.text())
    }

    fn execute(&mut self) -> (ok: bool)
        ensures
            final(self).parser() == old(self).parser(),
            final(self).text() == old(self).text(),
    {
        proof {
            use_type_invariant(&*self);
        }
        let ok = if self.parser.needs_owned_input() {
            self.parser.parse_owned(self.input.text().to_owned())
        } else {
            self.parser.parse_shared(self.input.text())
        };
        proof {
            self.runs@ = self.runs@ + 1;
        }
        ok
    }
}

/// The record of one measurement of `backend_name` on an input of `size_bytes` bytes from
/// the entry `entry`.
pub open spec fn record_of(
    entry: CorpusEntryView,
    backend_name: Seq<char>,
    size_bytes: nat,
    elapsed_micros: nat,
) -> RecordView {
    RecordView {
        corpus_entry_name: entry.name,
        backend_name,
        size_bytes,
        measurement: MeasurementView { elapsed_micros, iterations: entry.iteration_count },
    }
}

/// Measure one backend on one loaded input: three warmup executions, then the entry's
/// number of timed ones, each on the text as it was loaded. There is a record exactly if
/// the backend parses the text; a backend that does not is found out before the clock
/// is started.
pub fn measure_backend<P: Parser>(
    entry: &CorpusEntry,
    input: &LoadedInput,
    backend: &BackendHandle<P>,
) -> (result: Option<ComparisonRecord>)
    ensures
        result is Some <==> parses(backend.parser, input@),
        result matches Some(record) ==> record@ == record_of(
            entry@,
            backend.name@,
            byte_size(input@),
            record@.measurement.elapsed_micros,
        ),
{
    if !backend.parser.admits(input.text()) {
        return None;
    }
    let mut operation = ParseOperation::new(&backend.parser, input);
    let ghost fresh = operation;
    let result = measure(entry.iteration_count(), &mut operation);
    assert(fresh.succeeds_at(fresh.runs() + 0int) == backend.parser.accepts(input@));
    match result {
        Ok(measurement) => Some(
            ComparisonRecord {
                corpus_entry_name: entry.name().to_owned(),
                backend_name: backend.name.clone(),
                size_bytes: input.size_bytes(),
                measurement,
            },
        ),
        Err(_) => None,
    }
}

/// `count` backends parse `text` before the first one that does not; where all of them
/// parse it, `count` is their number.
pub open spec fn first_rejection<P: Parser>(
    backends: Seq<BackendHandle<P>>,
    text: Seq<char>,
    count: int,
) -> bool {
    &&& 0 <= count <= backends.len()
    &&& forall|j: int| 0 <= j < count ==> parses((#[trigger] backends[j]).parser, text)
    &&& count < backends.len() ==> !parses(backends[count].parser, text)
}

/// `after` is `before` followed by one record for each of the first `count` backends, in
/// registration order, all measured on `size_bytes` bytes loaded for `entry`.
pub open spec fn appended_entry_records<P>(
    before: Seq<RecordView>,
    after: Seq<RecordView>,
    entry: CorpusEntryView,
    size_bytes: nat,
    backends: Seq<BackendHandle<P>>,
    count: int,
) -> bool {
    &&& after.len() == before.len() + count
    &&& after.take(before.len() as int) == before
    &&& forall|j: int|
        0 <= j < count ==> #[trigger] after[before.len() + j] == record_of(
            entry,
            backends[j].name@,
            size_bytes,
            after[before.len() + j].measurement.elapsed_micros,
        )
}

/// What a runner is at any moment: its configuration, how far it has come and what it has
/// produced.
pub struct RunnerView<P> {
    pub corpus: Seq<CorpusEntryView>,
    pub backends: Seq<BackendHandle<P>>,
    /// Index of the entry that is loaded next.
    pub cursor: nat,
    pub records: Seq<RecordView>,
    pub diagnostics: Seq<DiagnosticView>,
    /// A backend failed; the run is over.
    pub halted: bool,
}

impl<P> RunnerView<P> {
    /// An entry is waiting for its content.
    pub open spec fn pending(self) -> bool {
        !self.halted && self.cursor < self.corpus.len()
    }

    /// The diagnostic for the pending entry, which could not be loaded.
    pub open spec fn pending_diagnostic(self) -> DiagnosticView {
        DiagnosticView {
            entry_index: self.cursor,
            entry_name: self.corpus[self.cursor as int].name,
            source_locator: self.corpus[self.cursor as int].source_locator,
        }
    }

    /// The failure of the backend with index `backend_index` on the pending entry.
    pub open spec fn pending_failure(self, backend_index: int) -> FailureView {
        FailureView {
            entry_index: self.cursor,
            backend_index: backend_index as nat,
            entry_name: self.corpus[self.cursor as int].name,
            backend_name: self.backends[backend_index].name@,
        }
    }
}

/// Steps through a corpus: it names the entry whose content it needs next, and measures
/// every backend on the content it is given.
///
/// The corpus and the registry are fixed when the runner is made. Loading is left to the
/// caller, so that no more than one entry's content is held at a time.
pub struct ComparisonRunner<P: Parser> {
    corpus: Vec<CorpusEntry>,
    backends: Vec<BackendHandle<P>>,
    cursor: usize,
    records: Vec<ComparisonRecord>,
    diagnostics: Vec<LoadDiagnostic>,
    halted: bool,
}

impl<P: Parser> View for ComparisonRunner<P> {
    type V = RunnerView<P>;

    closed spec fn view(&self) -> RunnerView<P> {
        RunnerView {
            corpus: views(self.corpus@),
            backends: self.backends@,
            cursor: self.cursor as nat,
            records: views(self.records@),
            diagnostics: views(self.diagnostics@),
            halted: self.halted,
        }
    }
}

impl<P: Parser> ComparisonRunner<P> {
    /// A runner at the start of `corpus`, with nothing produced yet.
    pub fn new(corpus: Vec<CorpusEntry>, backends: Vec<BackendHandle<P>>) -> (runner: Self)
        ensures
            runner@ == (RunnerView {
                corpus: views(corpus@),
                backends: backends@,
                cursor: 0,
                records: Seq::empty(),
                diagnostics: Seq::empty(),
                halted: false,
            }),
    {
        let runner = ComparisonRunner {
            corpus,
            backends,
            cursor: 0,
            records: Vec::new(),
            diagnostics: Vec::new(),
            halted: false,
        };
        assert(views(runner.records@) =~= Seq::empty());
        assert(views(runner.diagnostics@) =~= Seq::empty());
        runner
    }

    /// The entry whose content is to be loaded and supplied next; none once the corpus
    /// is exhausted or a backend has failed.
    pub fn pending(&self) -> (entry: Option<&CorpusEntry>)
        ensures
            entry is Some <==> self@.pending(),
            entry matches Some(e) ==> e@ == self@.corpus[self@.cursor as int],
    {
        if !self.halted && self.cursor < self.corpus.len() {
            Some(&self.corpus[self.cursor])
        } else {
            None
        }
    }

    /// The records produced so far.
    pub fn records(&self) -> (records: &Vec<ComparisonRecord>)
        ensures
            views(records@) == self@.records,
    {
        &self.records
    }

    /// The diagnostics of the entries skipped so far.
    pub fn diagnostics(&self) -> (diagnostics: &Vec<LoadDiagnostic>)
        ensures
            views(diagnostics@) == self@.diagnostics,
    {
        &self.diagnostics
    }

    /// Hand the runner the content of the pending entry, or `None` where its source was
    /// missing or unreadable.
    ///
    /// An entry without content is skipped with a diagnostic. A loaded entry is measured
    /// against every backend in registration order, each on the same text. The first
    /// backend that cannot parse the text ends the run: the records of the backends
    /// before it stay, and the runner has nothing pending from then on. Where nothing is
    /// pending, nothing happens.
    #[verifier::loop_isolation(false)]
    pub fn supply(&mut self, loaded: Option<String>) -> (result: Result<(), ParseFailure>)
        ensures
            final(self)@.corpus == old(self)@.corpus,
            final(self)@.backends == old(self)@.backends,
            !old(self)@.pending() ==> result is Ok && final(self)@ == old(self)@,
            old(self)@.pending() && loaded is None ==> {
                &&& result is Ok
                &&& final(self)@ == (RunnerView {
                    cursor: old(self)@.cursor + 1,
                    diagnostics: old(self)@.diagnostics.push(old(self)@.pending_diagnostic()),
                    ..old(self)@
                })
            },
            old(self)@.pending() ==> (loaded matches Some(text) ==> {
                let accepted = final(self)@.records.len() - old(self)@.records.len();
                &&& first_rejection(old(self)@.backends, text@, accepted)
                &&& appended_entry_records(
                    old(self)@.records,
                    final(self)@.records,
                    old(self)@.corpus[old(self)@.cursor as int],
                    byte_size(text@),
                    old(self)@.backends,
                    accepted,
                )
                &&& final(self)@.diagnostics == old(self)@.diagnostics
                &&& if accepted == old(self)@.backends.len() {
                    &&& result is Ok
                    &&& final(self)@.cursor == old(self)@.cursor + 1
                    &&& !final(self)@.halted
                } else {
                    &&& result matches Err(failure)
                    &&& failure@ == old(self)@.pending_failure(accepted)
                    &&& final(self)@.cursor == old(self)@.cursor
                    &&& final(self)@.halted
                }
            }),
    {
        if self.halted || self.cursor >= self.corpus.len() {
            return Ok(());
        }
        let index = self.cursor;
        match loaded {
            None => {
                let diagnostic = LoadDiagnostic {
                    entry_index: index,
                    entry_name: self.corpus[index].name().to_owned(),
                    source_locator: self.corpus[index].source_locator().to_owned(),
                };
                self.diagnostics.push(diagnostic);
                self.cursor = index + 1;
                assert(views(self.diagnostics@) =~= views(old(self).diagnostics@).push(
                    diagnostic@,
                ));
                Ok(())
            },
            Some(text) => {
                let input = LoadedInput::new(text);
                let ghost before = views(old(self).records@);
                assert(before.take(before.len() as int) =~= before);
                let mut j: usize = 0;
                while j < self.backends.len()
                    invariant
                        j <= self.backends.len(),
                        self.corpus == old(self).corpus,
                        self.backends == old(self).backends,
                        self.cursor == old(self).cursor,
                        self.diagnostics == old(self).diagnostics,
                        self.halted == old(self).halted,
                        index == self.cursor,
                        !self.halted,
                        forall|k: int|
                            0 <= k < j ==> parses((#[trigger] self.backends@[k]).parser, text@),
                        appended_entry_records(
                            before,
                            views(self.records@),
                            self.corpus@[index as int]@,
                            byte_size(text@),
                            self.backends@,
                            j as int,
                        ),
                    decreases self.backends.len() - j,
                {
                    let ghost so_far = views(self.records@);
                    match measure_backend(&self.corpus[index], &input, &self.backends[j]) {
                        Some(record) => {
                            self.records.push(record);
                            proof {
                                let now = views(self.records@);
                                assert(now =~= so_far.push(record@));
                                assert(now.take(before.len() as int) =~= so_far.take(
                                    before.len() as int,
                                ));
                                assert forall|k: int| 0 <= k < j + 1 implies #[trigger] now[before.len()
                                    + k] == record_of(
                                    self.corpus@[index as int]@,
                                    self.backends@[k].name@,
                                    byte_size(text@),
                                    now[before.len() + k].measurement.elapsed_micros,
                                ) by {
                                    if k < j {
                                        assert(now[before.len() + k] == so_far[before.len() + k]);
                                    }
                                }
                            }
                        },
                        None => {
                            self.halted = true;
                            return Err(
                                ParseFailure {
                                    entry_index: index,
                                    backend_index: j,
                                    entry_name: self.corpus[index].name().to_owned(),
                                    backend_name: self.backends[j].name.clone(),
                                },
                            );
                        },
                    }
                    j = j + 1;
                }
                self.cursor = index + 1;
                Ok(())
            },
        }
    }
}

impl<P: Parser> ComparisonRunner<P> {
    /// What the runner has produced.
    pub fn into_report(self) -> (report: Report)
        ensures
            views(report.records@) == self@.records,
            views(report.diagnostics@) == self@.diagnostics,
    {
        Report { records: self.records, diagnostics: self.diagnostics }
    }
}

} // verus!
