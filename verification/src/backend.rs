//! Parsing backends: the capability the runner times, and the three JSON parsers it ships with.

use crate::nesting::{max_nesting, nesting_depth};
use vstd::prelude::*;
use vstd::utf8::encode_utf8;

verus! {

/// An interchangeable parser: given the input text it builds a parsed value, drops it
/// again and reports whether parsing succeeded.
///
/// A parser keeps no state between calls, so whether it succeeds depends on the text alone.
///
/// The two specification functions default to a parser that can be run on every text and
/// accepts every text. An implementation that is to be verified overrides them with what
/// its parser does; one that is written outside the verifier may leave them as they are,
/// since they are never executed.
pub trait Parser {
    /// Whether the parser can be run on `text` at all. A parser may have to turn a text
    /// down unparsed, as one that recurses without a bound of its own must on a text that
    /// nests too deeply for the stack.
    open spec fn admissible(&self, text: Seq<char>) -> bool {
        true
    }

    /// Whether the parser parses `text` successfully.
    open spec fn accepts(&self, text: Seq<char>) -> bool {
        true
    }

    /// Whether the parser overwrites its input while parsing, so that every call has to be
    /// handed a copy of its own through `parse_owned`.
    fn needs_owned_input(&self) -> bool;

    /// Decide whether the parser can be run on `text`. This is asked once per input,
    /// outside any timed execution.
    fn admits(&self, text: &str) -> (admitted: bool)
        ensures
            admitted == self.admissible(text@),
    ;

    /// Parse from a shared, read-only view of the input.
    fn parse_shared(&self, text: &str) -> (ok: bool)
        requires
            self.admissible(text@),
        ensures
            ok == self.accepts(text@),
    ;

    /// Parse from an owned copy of the input, which the parser may overwrite.
    fn parse_owned(&self, text: String) -> (ok: bool)
        requires
            self.admissible(text@),
        ensures
            ok == self.accepts(text@),
    ;
}

/// The parser can be run on `text` and parses it successfully.
pub open spec fn parses<P: Parser>(parser: P, text: Seq<char>) -> bool {
    parser.admissible(text) && parser.accepts(text)
}

/// A registered backend: a display name and the parser behind it.
pub struct BackendHandle<P> {
    pub name: String,
    pub parser: P,
}

/// Whether `serde_json::from_str` builds a `serde_json::Value` from the text.
pub uninterp spec fn serde_json_accepts(text: Seq<char>) -> bool;

/// Whether `simd_json::to_borrowed_value` builds a value from the UTF-8 bytes of the text.
pub uninterp spec fn simd_json_accepts(text: Seq<char>) -> bool;

/// Whether `sonic_rs::from_str` builds a `sonic_rs::Value` from the text.
pub uninterp spec fn sonic_rs_accepts(text: Seq<char>) -> bool;

/// Calls `serde_json::from_str` for a `serde_json::Value` and drops the value.
/// The outcome is a function of the text alone; the contract gives it its name and
/// claims nothing else.
#[verifier::external_body]
fn serde_json_parse(text: &str) -> (ok: bool)
    ensures
        ok == serde_json_accepts(text@),
{
    serde_json::from_str::<serde_json::Value>(text).is_ok()
}

/// Turns the owned text into its bytes and calls `simd_json::to_borrowed_value` on them,
/// which rewrites the bytes in place; value and bytes are dropped.
/// The outcome is a function of the text alone; the contract gives it its name and
/// claims nothing else.
#[verifier::external_body]
fn simd_json_parse(text: String) -> (ok: bool)
    ensures
        ok == simd_json_accepts(text@),
{
    let mut bytes = text.into_bytes();
    let ok = simd_json::to_borrowed_value(&mut bytes).is_ok();
    ok
}

/// The deepest nesting of brackets that a text may have to be handed to sonic-rs.
pub const SONIC_RS_MAX_NESTING: usize = 32;

/// Calls `sonic_rs::from_str` for a `sonic_rs::Value` and drops the value.
/// The outcome is a function of the text alone; the contract gives it its name and
/// claims nothing else.
///
/// sonic-rs builds a `Value` by recursion on every opening bracket outside a string and
/// has no bound on it, so that on a deeply nested text it runs out of stack instead of
/// returning. The precondition keeps such texts away: with at most
/// `SONIC_RS_MAX_NESTING` brackets open at once the call stays within the stack of a
/// thread of default size and returns.
#[verifier::external_body]
fn sonic_rs_parse(text: &str) -> (ok: bool)
    requires
        nesting_depth(encode_utf8(text@)) <= SONIC_RS_MAX_NESTING,
    ensures
        ok == sonic_rs_accepts(text@),
{
    sonic_rs::from_str::<sonic_rs::Value>(text).is_ok()
}

/// The JSON parsers that can be compared.
#[derive(Clone, Copy, Debug, PartialEq, Eq)]
pub enum JsonParser {
    SerdeJson,
    SimdJson,
    SonicRs,
}

impl Parser for JsonParser {
    /// serde_json and simd-json bound their own nesting and take every text; sonic-rs
    /// takes the texts that nest no deeper than `SONIC_RS_MAX_NESTING`.
    open spec fn admissible(&self, text: Seq<char>) -> bool {
        self is SonicRs ==> nesting_depth(encode_utf8(text)) <= SONIC_RS_MAX_NESTING
    }

    open spec fn accepts(&self, text: Seq<char>) -> bool {
        match self {
            JsonParser::SerdeJson => serde_json_accepts(text),
            JsonParser::SimdJson => simd_json_accepts(text),
            JsonParser::SonicRs => sonic_rs_accepts(text),
        }
    }

    /// Only simd-json parses destructively in place.
    fn needs_owned_input(&self) -> (owned: bool)
        ensures
            owned <==> self is SimdJson,
    {
        match self {
            JsonParser::SimdJson => true,
            _ => false,
        }
    }

    fn admits(&self, text: &str) -> (admitted: bool) {
        match self {
            JsonParser::SonicRs => max_nesting(text.as_bytes()) <= SONIC_RS_MAX_NESTING,
            _ => true,
        }
    }

    fn parse_shared(&self, text: &str) -> (ok: bool) {
        match self {
            JsonParser::SerdeJson => serde_json_parse(text),
            JsonParser::SimdJson => simd_json_parse(text.to_owned()),
            JsonParser::SonicRs => sonic_rs_parse(text),
        }
    }

    fn parse_owned(&self, text: String) -> (ok: bool) {
        match self {
            JsonParser::SerdeJson => serde_json_parse(text.as_str()),
            JsonParser::SimdJson => simd_json_parse(text),
            JsonParser::SonicRs => sonic_rs_parse(text.as_str()),
        }
    }
}

/// The three JSON backends in the order in which they are compared.
pub fn default_backends() -> (backends: Vec<BackendHandle<JsonParser>>)
    ensures
        backends@.len() == 3,
        backends@[0].name@ == "serde_json"@,
        backends@[0].parser == JsonParser::SerdeJson,
        backends@[1].name@ == "simd-json"@,
        backends@[1].parser == JsonParser::SimdJson,
        backends@[2].name@ == "sonic-rs"@,
        backends@[2].parser == JsonParser::SonicRs,
{
    let mut backends: Vec<BackendHandle<JsonParser>> = Vec::new();
    backends.push(BackendHandle { name: "serde_json".to_owned(), parser: JsonParser::SerdeJson });
    backends.push(BackendHandle { name: "simd-json".to_owned(), parser: JsonParser::SimdJson });
    backends.push(BackendHandle { name: "sonic-rs".to_owned(), parser: JsonParser::SonicRs });
    backends
}

} // verus!
