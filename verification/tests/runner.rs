use rust_bench::backend::{default_backends, BackendHandle, JsonParser, Parser};
use rust_bench::corpus::{CorpusEntry, LoadedInput};
use rust_bench::record::{ComparisonRecord, LoadDiagnostic, ParseFailure, Throughput};
use rust_bench::report::run;
use rust_bench::runner::{measure_backend, ComparisonRunner, ParseOperation};
use rust_bench::timing::{measure, MeasurementResult, Operation};
use std::cell::{Cell, RefCell};

const SMALL: &str = r#"{"type":"FeatureCollection","features":[{"id":1,"name":"lot \"A\"\n"},{"id":2}]}"#;

fn entry(name: &str, iterations: usize) -> CorpusEntry {
    CorpusEntry::new(name.to_string(), format!("../data/{}", name), iterations).unwrap()
}

/// Accepts everything, reads nothing, and counts how often it is called.
struct Echo {
    calls: Cell<usize>,
}

impl Echo {
    fn new() -> Echo {
        Echo { calls: Cell::new(0) }
    }
}

impl Parser for Echo {
    fn needs_owned_input(&self) -> bool {
        false
    }

    fn admits(&self, _text: &str) -> bool {
        true
    }

    fn parse_shared(&self, _text: &str) -> bool {
        self.calls.set(self.calls.get() + 1);
        true
    }

    fn parse_owned(&self, _text: String) -> bool {
        panic!("a parser that reads a shared view is handed no copy")
    }
}

/// Overwrites the copy it is given, and fails where the copy is not the text as loaded.
struct Scribbler {
    loaded: String,
    seen: RefCell<Vec<bool>>,
}

impl Parser for Scribbler {
    fn needs_owned_input(&self) -> bool {
        true
    }

    fn admits(&self, _text: &str) -> bool {
        true
    }

    fn parse_shared(&self, _text: &str) -> bool {
        panic!("a parser that overwrites its input is handed a copy")
    }

    fn parse_owned(&self, text: String) -> bool {
        let pristine = text == self.loaded;
        self.seen.borrow_mut().push(pristine);
        let mut bytes = text.into_bytes();
        for byte in bytes.iter_mut() {
            *byte = b'#';
        }
        pristine
    }
}

/// Accepts a text exactly if it does not contain the marker.
struct Picky {
    marker: &'static str,
}

impl Parser for Picky {
    fn needs_owned_input(&self) -> bool {
        false
    }

    fn admits(&self, _text: &str) -> bool {
        true
    }

    fn parse_shared(&self, text: &str) -> bool {
        !text.contains(self.marker)
    }

    fn parse_owned(&self, text: String) -> bool {
        !text.contains(self.marker)
    }
}

fn picky(name: &str, marker: &'static str) -> BackendHandle<Picky> {
    BackendHandle { name: name.to_string(), parser: Picky { marker } }
}

fn names(records: &[ComparisonRecord]) -> Vec<(String, String)> {
    records.iter().map(|r| (r.corpus_entry_name.clone(), r.backend_name.clone())).collect()
}

fn pair(entry: &str, backend: &str) -> (String, String) {
    (entry.to_string(), backend.to_string())
}

#[test]
fn end_to_end_one_entry_one_backend() {
    let corpus = vec![entry("small", 20)];
    let backends = vec![BackendHandle { name: "echoParser".to_string(), parser: Echo::new() }];
    let report = run(corpus, vec![Some(SMALL.to_string())], backends).unwrap();
    assert_eq!(report.records.len(), 1);
    assert!(report.diagnostics.is_empty());
    let record = &report.records[0];
    assert_eq!(record.corpus_entry_name, "small");
    assert_eq!(record.backend_name, "echoParser");
    assert_eq!(record.size_bytes, SMALL.len());
    assert_eq!(record.measurement.iterations(), 20);
    let elapsed = record.measurement.elapsed_micros();
    let latency = elapsed as f64 / 20.0;
    assert!(latency >= 0.0);
    match record.throughput() {
        Throughput::Unbounded => assert_eq!(elapsed, 0),
        Throughput::Finite { total_bytes, elapsed_micros } => {
            assert!(elapsed > 0);
            assert_eq!(total_bytes, 20 * SMALL.len() as u128);
            assert_eq!(elapsed_micros, elapsed);
            let size_mb = SMALL.len() as f64 / (1024.0 * 1024.0);
            let expected = size_mb / (latency / 1_000_000.0);
            let exact = (total_bytes as f64 * 1_000_000.0) / (elapsed_micros as f64 * 1_048_576.0);
            assert!((exact - expected).abs() <= expected * 1e-12);
        }
    }
}

#[test]
fn every_backend_runs_warmup_and_iterations_per_entry() {
    let mut runner = ComparisonRunner::new(
        vec![entry("a", 20), entry("b", 1)],
        vec![
            BackendHandle { name: "first".to_string(), parser: Echo::new() },
            BackendHandle { name: "second".to_string(), parser: Echo::new() },
        ],
    );
    assert_eq!(runner.supply(Some(SMALL.to_string())), Ok(()));
    assert_eq!(runner.supply(Some("[]".to_string())), Ok(()));
    let report = runner.into_report();
    assert_eq!(report.records.len(), 4);
    assert_eq!(report.records[0].measurement.iterations(), 20);
    assert_eq!(report.records[1].measurement.iterations(), 20);
    assert_eq!(report.records[2].measurement.iterations(), 1);
    assert_eq!(report.records[3].measurement.iterations(), 1);
    assert_eq!(report.records[2].size_bytes, 2);
}

#[test]
fn parse_operation_counts_calls_of_the_parser() {
    let parser = Echo::new();
    let input = LoadedInput::new(SMALL.to_string());
    let mut operation = ParseOperation::new(&parser, &input);
    assert!(operation.execute());
    assert_eq!(parser.calls.get(), 1);
    let measured = measure(5, &mut operation).unwrap();
    assert_eq!(measured.iterations(), 5);
    assert_eq!(parser.calls.get(), 1 + 3 + 5);
}

#[test]
fn skipped_entry_leaves_no_record_and_one_diagnostic() {
    let corpus = vec![entry("one", 2), entry("two", 2), entry("three", 2)];
    let inputs = vec![Some(SMALL.to_string()), None, Some("[1, 2, 3]".to_string())];
    let report = run(corpus, inputs, default_backends()).unwrap();
    assert_eq!(report.records.len(), 3 * 2);
    assert_eq!(
        names(&report.records),
        vec![
            pair("one", "serde_json"),
            pair("one", "simd-json"),
            pair("one", "sonic-rs"),
            pair("three", "serde_json"),
            pair("three", "simd-json"),
            pair("three", "sonic-rs"),
        ]
    );
    assert_eq!(
        report.diagnostics,
        vec![LoadDiagnostic {
            entry_index: 1,
            entry_name: "two".to_string(),
            source_locator: "../data/two".to_string(),
        }]
    );
    for record in &report.records[..3] {
        assert_eq!(record.size_bytes, SMALL.len());
    }
    for record in &report.records[3..] {
        assert_eq!(record.size_bytes, 9);
    }
}

#[test]
fn mutating_backend_sees_pristine_input_every_time() {
    let scribbler = Scribbler { loaded: SMALL.to_string(), seen: RefCell::new(Vec::new()) };
    let backend = BackendHandle { name: "scribbler".to_string(), parser: scribbler };
    let input = LoadedInput::new(SMALL.to_string());
    let record = measure_backend(&entry("small", 5), &input, &backend).unwrap();
    assert_eq!(record.measurement.iterations(), 5);
    assert_eq!(*backend.parser.seen.borrow(), vec![true; 3 + 5]);
    assert_eq!(input.text(), SMALL);
}

#[test]
fn simd_json_parses_on_all_iterations() {
    // the escapes make simd-json rewrite the bytes it is given
    let text = r#"{"a":"line\nbreak \"quoted\" é\\","b":["x\ty","\/"]}"#;
    let backend = BackendHandle { name: "simd-json".to_string(), parser: JsonParser::SimdJson };
    let input = LoadedInput::new(text.to_string());
    let record = measure_backend(&entry("escapes", 5), &input, &backend).unwrap();
    assert_eq!(record.measurement.iterations(), 5);
    assert_eq!(record.backend_name, "simd-json");
    assert_eq!(record.corpus_entry_name, "escapes");
    assert_eq!(record.size_bytes, text.len());
    assert_eq!(input.text(), text);
}

#[test]
fn measure_backend_gives_no_record_for_a_rejected_text() {
    let input = LoadedInput::new("{\"open\": ".to_string());
    for backend in default_backends() {
        assert_eq!(measure_backend(&entry("broken", 5), &input, &backend), None);
    }
}

#[test]
fn order_is_corpus_then_registration() {
    let corpus = vec![entry("first", 1), entry("second", 2)];
    let inputs = vec![Some("{}".to_string()), Some("[]".to_string())];
    let report = run(corpus, inputs, default_backends()).unwrap();
    assert_eq!(
        names(&report.records),
        vec![
            pair("first", "serde_json"),
            pair("first", "simd-json"),
            pair("first", "sonic-rs"),
            pair("second", "serde_json"),
            pair("second", "simd-json"),
            pair("second", "sonic-rs"),
        ]
    );
    let iterations: Vec<usize> = report.records.iter().map(|r| r.measurement.iterations()).collect();
    assert_eq!(iterations, vec![1, 1, 1, 2, 2, 2]);
    assert!(report.diagnostics.is_empty());
}

/// The records with their measured times replaced by fixed ones.
fn with_fixed_latencies(records: &[ComparisonRecord], latencies: &[u128]) -> Vec<ComparisonRecord> {
    records
        .iter()
        .zip(latencies)
        .map(|(r, elapsed)| ComparisonRecord {
            corpus_entry_name: r.corpus_entry_name.clone(),
            backend_name: r.backend_name.clone(),
            size_bytes: r.size_bytes,
            measurement: MeasurementResult::new(*elapsed, r.measurement.iterations()).unwrap(),
        })
        .collect()
}

#[test]
fn two_runs_with_fixed_latencies_are_identical() {
    let once = || {
        let corpus = vec![entry("one", 3), entry("gone", 4), entry("three", 5)];
        let inputs = vec![Some(SMALL.to_string()), None, Some("[true]".to_string())];
        run(corpus, inputs, default_backends()).unwrap()
    };
    let first = once();
    let second = once();
    let latencies = [11, 22, 33, 44, 55, 66];
    let a = with_fixed_latencies(&first.records, &latencies);
    let b = with_fixed_latencies(&second.records, &latencies);
    assert_eq!(a.len(), 6);
    assert_eq!(a, b);
    assert_eq!(format!("{:?}", a), format!("{:?}", b));
    assert_eq!(first.diagnostics, second.diagnostics);
    let throughputs: Vec<Throughput> = a.iter().map(|r| r.throughput()).collect();
    assert_eq!(throughputs, b.iter().map(|r| r.throughput()).collect::<Vec<_>>());
}

#[test]
fn run_ends_at_the_first_backend_that_fails() {
    let corpus = vec![entry("good", 1), entry("bad", 1), entry("never", 1)];
    let inputs =
        vec![Some("{}".to_string()), Some("{\"a\": ".to_string()), Some("{]".to_string())];
    assert_eq!(
        run(corpus, inputs, default_backends()),
        Err(ParseFailure {
            entry_index: 1,
            backend_index: 0,
            entry_name: "bad".to_string(),
            backend_name: "serde_json".to_string(),
        })
    );
}

#[test]
fn failure_names_the_first_rejecting_backend() {
    let corpus = vec![entry("plain", 2), entry("marked", 2)];
    let inputs = vec![Some("plain text".to_string()), Some("text with B in it".to_string())];
    let backends = vec![picky("a", "A"), picky("b", "B"), picky("also b", "B")];
    assert_eq!(
        run(corpus, inputs, backends),
        Err(ParseFailure {
            entry_index: 1,
            backend_index: 1,
            entry_name: "marked".to_string(),
            backend_name: "b".to_string(),
        })
    );
}

#[test]
fn runner_keeps_earlier_records_and_halts_on_failure() {
    let mut runner = ComparisonRunner::new(
        vec![entry("plain", 2), entry("marked", 2), entry("after", 2)],
        vec![picky("a", "A"), picky("b", "B"), picky("c", "C")],
    );
    assert_eq!(runner.pending().map(|e| e.name().to_string()), Some("plain".to_string()));
    assert_eq!(runner.supply(Some("plain text".to_string())), Ok(()));
    assert_eq!(runner.records().len(), 3);
    assert_eq!(runner.pending().map(|e| e.name().to_string()), Some("marked".to_string()));
    assert_eq!(
        runner.supply(Some("text with B in it".to_string())),
        Err(ParseFailure {
            entry_index: 1,
            backend_index: 1,
            entry_name: "marked".to_string(),
            backend_name: "b".to_string(),
        })
    );
    assert_eq!(
        names(runner.records()),
        vec![pair("plain", "a"), pair("plain", "b"), pair("plain", "c"), pair("marked", "a")]
    );
    assert!(runner.pending().is_none());
    assert!(runner.diagnostics().is_empty());
    // nothing is pending, so nothing happens
    assert_eq!(runner.supply(Some("plain text".to_string())), Ok(()));
    assert_eq!(runner.supply(None), Ok(()));
    assert_eq!(runner.records().len(), 4);
    assert!(runner.diagnostics().is_empty());
}

#[test]
fn runner_steps_through_the_corpus() {
    let mut runner =
        ComparisonRunner::new(vec![entry("one", 1), entry("two", 3)], default_backends());
    assert!(runner.records().is_empty());
    let pending = runner.pending().unwrap();
    assert_eq!(pending.name(), "one");
    assert_eq!(pending.source_locator(), "../data/one");
    assert_eq!(runner.supply(None), Ok(()));
    assert_eq!(runner.diagnostics().len(), 1);
    assert_eq!(runner.diagnostics()[0].entry_index, 0);
    assert_eq!(runner.diagnostics()[0].entry_name, "one");
    assert_eq!(runner.diagnostics()[0].source_locator, "../data/one");
    assert!(runner.records().is_empty());
    assert_eq!(runner.pending().unwrap().name(), "two");
    assert_eq!(runner.supply(Some(SMALL.to_string())), Ok(()));
    assert_eq!(runner.records().len(), 3);
    assert!(runner.pending().is_none());
    assert_eq!(runner.supply(Some(SMALL.to_string())), Ok(()));
    assert_eq!(runner.records().len(), 3);
    let report = runner.into_report();
    assert_eq!(report.records.len(), 3);
    assert_eq!(report.diagnostics.len(), 1);
}

#[test]
fn entries_without_an_input_count_as_unreadable() {
    let corpus = vec![entry("one", 1), entry("two", 1), entry("three", 1)];
    let report = run(corpus, vec![Some("1".to_string())], default_backends()).unwrap();
    assert_eq!(report.records.len(), 3);
    let skipped: Vec<(usize, String)> =
        report.diagnostics.iter().map(|d| (d.entry_index, d.entry_name.clone())).collect();
    assert_eq!(skipped, vec![(1, "two".to_string()), (2, "three".to_string())]);
}

#[test]
fn inputs_past_the_corpus_are_ignored() {
    let corpus = vec![entry("one", 1)];
    let inputs = vec![Some("1".to_string()), Some("not json".to_string()), None];
    let report = run(corpus, inputs, default_backends()).unwrap();
    assert_eq!(report.records.len(), 3);
    assert!(report.diagnostics.is_empty());
}

#[test]
fn empty_corpus_gives_an_empty_report() {
    let report = run(Vec::new(), Vec::new(), default_backends()).unwrap();
    assert!(report.records.is_empty());
    assert!(report.diagnostics.is_empty());
}

#[test]
fn empty_registry_measures_nothing() {
    let corpus = vec![entry("one", 1), entry("two", 1)];
    let inputs = vec![Some("not json".to_string()), None];
    let backends: Vec<BackendHandle<JsonParser>> = Vec::new();
    let report = run(corpus, inputs, backends).unwrap();
    assert!(report.records.is_empty());
    assert_eq!(report.diagnostics.len(), 1);
    assert_eq!(report.diagnostics[0].entry_name, "two");
}

#[test]
fn an_unreadable_entry_is_never_parsed() {
    let corpus = vec![entry("gone", 7)];
    let backends = vec![BackendHandle { name: "echo".to_string(), parser: Echo::new() }];
    let mut runner = ComparisonRunner::new(corpus, backends);
    assert_eq!(runner.supply(None), Ok(()));
    assert!(runner.records().is_empty());
    assert_eq!(runner.diagnostics().len(), 1);
}

/// Turns every text down, and must therefore never be asked to parse one.
struct Shy {
    asked: Cell<usize>,
}

impl Parser for Shy {
    fn needs_owned_input(&self) -> bool {
        false
    }

    fn admits(&self, _text: &str) -> bool {
        self.asked.set(self.asked.get() + 1);
        false
    }

    fn parse_shared(&self, _text: &str) -> bool {
        panic!("a text that was turned down is not parsed")
    }

    fn parse_owned(&self, _text: String) -> bool {
        panic!("a text that was turned down is not parsed")
    }
}

#[test]
fn a_backend_that_turns_the_text_down_is_not_run() {
    let backend = BackendHandle { name: "shy".to_string(), parser: Shy { asked: Cell::new(0) } };
    let input = LoadedInput::new(SMALL.to_string());
    assert_eq!(measure_backend(&entry("small", 5), &input, &backend), None);
    assert_eq!(backend.parser.asked.get(), 1);
}

/// Counts how often it is asked whether it can run, and how often it parses.
struct Asked {
    asked: Cell<usize>,
    parsed: Cell<usize>,
}

impl Parser for Asked {
    fn needs_owned_input(&self) -> bool {
        false
    }

    fn admits(&self, _text: &str) -> bool {
        self.asked.set(self.asked.get() + 1);
        true
    }

    fn parse_shared(&self, _text: &str) -> bool {
        self.parsed.set(self.parsed.get() + 1);
        true
    }

    fn parse_owned(&self, _text: String) -> bool {
        false
    }
}

#[test]
fn admission_is_asked_once_per_entry_and_backend() {
    let backend = BackendHandle {
        name: "asked".to_string(),
        parser: Asked { asked: Cell::new(0), parsed: Cell::new(0) },
    };
    let input = LoadedInput::new(SMALL.to_string());
    assert!(measure_backend(&entry("small", 7), &input, &backend).is_some());
    assert_eq!(backend.parser.asked.get(), 1);
    assert_eq!(backend.parser.parsed.get(), 3 + 7);
}

fn nested(depth: usize) -> String {
    let mut text = String::new();
    for _ in 0..depth {
        text.push('[');
    }
    text.push('1');
    for _ in 0..depth {
        text.push(']');
    }
    text
}

#[test]
fn text_at_the_nesting_bound_is_measured_by_all_backends() {
    let report = run(vec![entry("nested", 2)], vec![Some(nested(32))], default_backends()).unwrap();
    assert_eq!(
        names(&report.records),
        vec![pair("nested", "serde_json"), pair("nested", "simd-json"), pair("nested", "sonic-rs")]
    );
}

#[test]
fn text_past_the_nesting_bound_fails_at_sonic_rs() {
    assert_eq!(
        run(vec![entry("nested", 2)], vec![Some(nested(33))], default_backends()),
        Err(ParseFailure {
            entry_index: 0,
            backend_index: 2,
            entry_name: "nested".to_string(),
            backend_name: "sonic-rs".to_string(),
        })
    );
}
