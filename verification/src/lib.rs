//! Throughput comparison of interchangeable parsing backends over a fixed corpus.
//!
//! - [`timing`]: the timing engine. It runs an operation three times untimed and then a
//!   given number of times against the clock.
//! - [`backend`]: the parser capability that is timed, and the JSON parsers that come
//!   with the library.
//! - [`nesting`]: how deeply the brackets of a text nest, which decides whether a parser
//!   without a bound of its own may be run on it.
//! - [`corpus`]: corpus entries and loaded inputs.
//! - [`record`]: the records, diagnostics and failures that a run produces, and the
//!   throughput of a record.
//! - [`ratio`]: exact fractions, in which latency and throughput are stated.
//! - [`runner`]: the comparison runner, which is handed the content of one entry after
//!   the other and measures every backend on it.
//! - [`report`]: a whole run over contents that are at hand, and what holds of its
//!   outcome.

pub mod backend;
pub mod corpus;
pub mod nesting;
pub mod ratio;
pub mod record;
pub mod report;
pub mod runner;
pub mod timing;
