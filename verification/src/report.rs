//! A whole run over a corpus whose contents are at hand: what it produces, stated over
//! the corpus, the contents and the measured times.

use crate::backend::{BackendHandle, Parser};
use crate::corpus::{byte_size, views, CorpusEntry, CorpusEntryView};
use crate::record::{DiagnosticView, ParseFailure, RecordView, Report};
use crate::runner::{first_rejection, record_of, ComparisonRunner};
use vstd::prelude::*;

verus! {

/// Names of the backends, in registration order.
pub open spec fn backend_names<P>(backends: Seq<BackendHandle<P>>) -> Seq<Seq<char>> {
    backends.map_values(|backend: BackendHandle<P>| backend.name@)
}

/// Elapsed time of each record, in the order of the records.
pub open spec fn timings(records: Seq<RecordView>) -> Seq<nat> {
    records.map_values(|record: RecordView| record.measurement.elapsed_micros)
}

/// The text of a loaded content; an entry that could not be loaded has none.
pub open spec fn text_of(input: Option<String>) -> Option<Seq<char>> {
    match input {
        Some(text) => Some(text@),
        None => None,
    }
}

/// The texts of the contents handed in, in their order.
pub open spec fn texts(inputs: Seq<Option<String>>) -> Seq<Option<Seq<char>>> {
    inputs.map_values(|input: Option<String>| text_of(input))
}

/// The text loaded for the entry with index `index`. An entry for which no content was
/// handed in counts as not loaded.
pub open spec fn source_at(sources: Seq<Option<Seq<char>>>, index: int) -> Option<Seq<char>> {
    if 0 <= index < sources.len() {
        sources[index]
    } else {
        None
    }
}

/// Every backend parses the text loaded for the entry with index `index`, if any was.
pub open spec fn entry_passes<P: Parser>(
    backends: Seq<BackendHandle<P>>,
    sources: Seq<Option<Seq<char>>>,
    index: int,
) -> bool {
    source_at(sources, index) matches Some(text) ==> first_rejection(
        backends,
        text,
        backends.len() as int,
    )
}

/// The records of one loaded entry: one per backend name, in registration order, the
/// one at `j` with the elapsed time `elapsed[j]`.
pub open spec fn entry_records(
    entry: CorpusEntryView,
    size_bytes: nat,
    names: Seq<Seq<char>>,
    elapsed: Seq<nat>,
) -> Seq<RecordView> {
    Seq::new(names.len(), |j: int| record_of(entry, names[j], size_bytes, elapsed[j]))
}

/// The records of the first `count` entries of the corpus, where `elapsed` lists the
/// elapsed time of every record in the order of the records.
pub open spec fn records_through(
    corpus: Seq<CorpusEntryView>,
    sources: Seq<Option<Seq<char>>>,
    names: Seq<Seq<char>>,
    elapsed: Seq<nat>,
    count: nat,
) -> Seq<RecordView>
    decreases count,
{
    if count == 0 {
        Seq::empty()
    } else {
        let earlier = records_through(corpus, sources, names, elapsed, (count - 1) as nat);
        match source_at(sources, count - 1) {
            None => earlier,
            Some(text) => earlier + entry_records(
                corpus[count - 1],
                byte_size(text),
                names,
                elapsed.skip(earlier.len() as int),
            ),
        }
    }
}

/// The records of a whole run that no backend ended.
pub open spec fn run_records(
    corpus: Seq<CorpusEntryView>,
    sources: Seq<Option<Seq<char>>>,
    names: Seq<Seq<char>>,
    elapsed: Seq<nat>,
) -> Seq<RecordView> {
    records_through(corpus, sources, names, elapsed, corpus.len())
}

/// The diagnostics of the first `count` entries of the corpus: one for each entry that
/// was not loaded, in corpus order.
pub open spec fn diagnostics_through(
    corpus: Seq<CorpusEntryView>,
    sources: Seq<Option<Seq<char>>>,
    count: nat,
) -> Seq<DiagnosticView>
    decreases count,
{
    if count == 0 {
        Seq::empty()
    } else {
        let earlier = diagnostics_through(corpus, sources, (count - 1) as nat);
        match source_at(sources, count - 1) {
            None => earlier.push(
                DiagnosticView {
                    entry_index: (count - 1) as nat,
                    entry_name: corpus[count - 1].name,
                    source_locator: corpus[count - 1].source_locator,
                },
            ),
            Some(_) => earlier,
        }
    }
}

/// The diagnostics of a whole run that no backend ended.
pub open spec fn run_diagnostics(
    corpus: Seq<CorpusEntryView>,
    sources: Seq<Option<Seq<char>>>,
) -> Seq<DiagnosticView> {
    diagnostics_through(corpus, sources, corpus.len())
}

/// How many of the first `count` entries were loaded.
pub open spec fn loaded_before(sources: Seq<Option<Seq<char>>>, count: nat) -> nat
    decreases count,
{
    if count == 0 {
        0
    } else {
        loaded_before(sources, (count - 1) as nat) + if source_at(sources, count - 1) is Some {
            1nat
        } else {
            0nat
        }
    }
}

/// The records of the first `count` entries number one per backend for every entry
/// among them that was loaded.
pub proof fn lemma_records_len(
    corpus: Seq<CorpusEntryView>,
    sources: Seq<Option<Seq<char>>>,
    names: Seq<Seq<char>>,
    elapsed: Seq<nat>,
    count: nat,
)
    ensures
        records_through(corpus, sources, names, elapsed, count).len() == loaded_before(
            sources,
            count,
        ) * names.len(),
    decreases count,
{
    let width = names.len() as int;
    if count == 0 {
        assert(0 * width == 0) by (nonlinear_arith);
    } else {
        let fewer = (count - 1) as nat;
        lemma_records_len(corpus, sources, names, elapsed, fewer);
        let loaded = loaded_before(sources, fewer) as int;
        assert((loaded + 1) * width == loaded * width + width) by (nonlinear_arith);
    }
}

/// The records of the first `count` entries read no elapsed time but their own: two
/// lists of times that agree on as many items as there are records give the same records.
proof fn lemma_records_read_own_timings(
    corpus: Seq<CorpusEntryView>,
    sources: Seq<Option<Seq<char>>>,
    names: Seq<Seq<char>>,
    first: Seq<nat>,
    second: Seq<nat>,
    count: nat,
)
    requires
        records_through(corpus, sources, names, first, count).len() <= first.len(),
        records_through(corpus, sources, names, first, count).len() <= second.len(),
        forall|k: int|
            0 <= k < records_through(corpus, sources, names, first, count).len() ==> first[k]
                == second[k],
    ensures
        records_through(corpus, sources, names, first, count) == records_through(
            corpus,
            sources,
            names,
            second,
            count,
        ),
    decreases count,
{
    if count > 0 {
        let fewer = (count - 1) as nat;
        lemma_records_read_own_timings(corpus, sources, names, first, second, fewer);
        let earlier = records_through(corpus, sources, names, first, fewer);
        if let Some(text) = source_at(sources, count - 1) {
            assert(entry_records(
                corpus[count - 1],
                byte_size(text),
                names,
                first.skip(earlier.len() as int),
            ) =~= entry_records(
                corpus[count - 1],
                byte_size(text),
                names,
                second.skip(earlier.len() as int),
            ));
        }
    }
}

/// Every entry among the first `count` that was not loaded has one diagnostic, and no
/// other entry has one.
pub proof fn lemma_diagnostics_len(
    corpus: Seq<CorpusEntryView>,
    sources: Seq<Option<Seq<char>>>,
    count: nat,
)
    ensures
        diagnostics_through(corpus, sources, count).len() + loaded_before(sources, count)
            == count,
    decreases count,
{
    if count > 0 {
        lemma_diagnostics_len(corpus, sources, (count - 1) as nat);
    }
}

/// Output order is corpus order, then registration order, with skipped entries absent:
/// among the records of the first `count` entries, the record of the loaded entry `i` and
/// the backend `j` stands after the records of all loaded entries before `i` and of the
/// backends before `j`, and it holds the names of both, the size of the loaded text, the
/// entry's iteration count and the elapsed time listed for its place.
pub proof fn lemma_record_place(
    corpus: Seq<CorpusEntryView>,
    sources: Seq<Option<Seq<char>>>,
    names: Seq<Seq<char>>,
    elapsed: Seq<nat>,
    count: nat,
    i: int,
    j: int,
)
    requires
        0 <= i < count,
        0 <= j < names.len(),
        source_at(sources, i) is Some,
        records_through(corpus, sources, names, elapsed, count).len() <= elapsed.len(),
    ensures
        ({
            let records = records_through(corpus, sources, names, elapsed, count);
            let place = loaded_before(sources, i as nat) * names.len() + j;
            &&& place < records.len()
            &&& records[place] == record_of(
                corpus[i],
                names[j],
                byte_size(source_at(sources, i).unwrap()),
                elapsed[place],
            )
        }),
    decreases count,
{
    let fewer = (count - 1) as nat;
    let earlier = records_through(corpus, sources, names, elapsed, fewer);
    let width = names.len() as int;
    lemma_records_len(corpus, sources, names, elapsed, fewer);
    lemma_records_len(corpus, sources, names, elapsed, count);
    if i < fewer {
        lemma_record_place(corpus, sources, names, elapsed, fewer, i, j);
    } else {
        let text = source_at(sources, i).unwrap();
        let fresh = entry_records(
            corpus[i],
            byte_size(text),
            names,
            elapsed.skip(earlier.len() as int),
        );
        assert(records_through(corpus, sources, names, elapsed, count) == earlier + fresh);
        assert((earlier + fresh)[earlier.len() + j] == fresh[j]);
    }
}

/// A run is deterministic: its records are a function of the corpus, the loaded
/// contents, the backend names and the measured times. So two runs over the same corpus,
/// contents and registry that measured the same times produced the same records in the
/// same order.
pub proof fn lemma_same_timings_same_records(
    corpus: Seq<CorpusEntryView>,
    sources: Seq<Option<Seq<char>>>,
    names: Seq<Seq<char>>,
    first: Seq<RecordView>,
    second: Seq<RecordView>,
)
    requires
        first == run_records(corpus, sources, names, timings(first)),
        second == run_records(corpus, sources, names, timings(second)),
        timings(first) == timings(second),
    ensures
        first == second,
{
}

/// Run the whole comparison over a corpus whose contents are at hand: `inputs[i]` is the
/// content loaded for `corpus[i]`, or `None` where its source was missing or unreadable.
/// An entry for which `inputs` has no item counts as unreadable.
///
/// The run succeeds exactly if every backend parses every loaded text. Its report then
/// holds one record per loaded entry and backend, in corpus order and, within an entry,
/// in registration order, and one diagnostic per entry that was not loaded. Otherwise the
/// run ends at the first loaded entry, in corpus order, that some backend cannot parse,
/// and the failure names that entry and the first such backend in registration order.
#[verifier::loop_isolation(false)]
pub fn run<P: Parser>(
    corpus: Vec<CorpusEntry>,
    inputs: Vec<Option<String>>,
    backends: Vec<BackendHandle<P>>,
) -> (result: Result<Report, ParseFailure>)
    ensures
        match result {
            Ok(report) => {
                &&& forall|i: int|
                    0 <= i < corpus.len() ==> #[trigger] entry_passes(
                        backends@,
                        texts(inputs@),
                        i,
                    )
                &&& views(report.records@) == run_records(
                    views(corpus@),
                    texts(inputs@),
                    backend_names(backends@),
                    timings(views(report.records@)),
                )
                &&& views(report.diagnostics@) == run_diagnostics(
                    views(corpus@),
                    texts(inputs@),
                )
            },
            Err(failure) => {
                let entry_index = failure@.entry_index as int;
                let backend_index = failure@.backend_index as int;
                &&& entry_index < corpus.len()
                &&& backend_index < backends.len()
                &&& forall|i: int|
                    0 <= i < entry_index ==> #[trigger] entry_passes(
                        backends@,
                        texts(inputs@),
                        i,
                    )
                &&& source_at(texts(inputs@), entry_index) matches Some(text)
                &&& first_rejection(backends@, text, backend_index)
                &&& failure@.entry_name == corpus[entry_index]@.name
                &&& failure@.backend_name == backends[backend_index].name@
            },
        },
{
    let ghost entries = views(corpus@);
    let ghost sources = texts(inputs@);
    let ghost names = backend_names(backends@);
    let ghost handed_in = inputs@;
    let mut remaining = inputs;
    let mut runner = ComparisonRunner::new(corpus, backends);
    let ghost mut done: nat = 0;
    loop
        invariant
            runner@.corpus == entries,
            runner@.backends == backends@,
            !runner@.halted,
            runner@.cursor == done,
            done <= entries.len(),
            entries.len() == corpus.len(),
            remaining@ == handed_in.skip(
                if done <= handed_in.len() {
                    done as int
                } else {
                    handed_in.len() as int
                },
            ),
            forall|i: int| 0 <= i < done ==> #[trigger] entry_passes(backends@, sources, i),
            runner@.records == records_through(
                entries,
                sources,
                names,
                timings(runner@.records),
                done,
            ),
            runner@.diagnostics == diagnostics_through(entries, sources, done),
        decreases entries.len() - done,
    {
        if runner.pending().is_none() {
            break;
        }
        let loaded = if remaining.len() > 0 {
            remaining.remove(0)
        } else {
            None
        };
        let ghost text = text_of(loaded);
        assert(text == source_at(sources, done as int));
        let ghost before = runner@.records;
        let outcome = runner.supply(loaded);
        proof {
            let after = runner@.records;
            if let Some(content) = text {
                let accepted = after.len() - before.len();
                assert forall|k: int| 0 <= k < before.len() implies timings(before)[k] == timings(
                    after,
                )[k] by {
                    assert(after.take(before.len() as int)[k] == after[k]);
                }
                lemma_records_read_own_timings(
                    entries,
                    sources,
                    names,
                    timings(before),
                    timings(after),
                    done,
                );
                if accepted == backends@.len() {
                    let fresh = entry_records(
                        entries[done as int],
                        byte_size(content),
                        names,
                        timings(after).skip(before.len() as int),
                    );
                    assert forall|k: int| 0 <= k < after.len() implies after[k] == (before
                        + fresh)[k] by {
                        if k < before.len() {
                            assert(after.take(before.len() as int)[k] == after[k]);
                        } else {
                            let j = k - before.len();
                            assert(after[before.len() + j] == fresh[j]);
                        }
                    }
                    assert(after =~= before + fresh);
                }
            }
        }
        match outcome {
            Ok(()) => {},
            Err(failure) => {
                return Err(failure);
            },
        }
        proof {
            done = done + 1;
        }
    }
    Ok(runner.into_report())
}

} // verus!
