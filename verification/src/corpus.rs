//! The corpus: named input sources, and the content loaded from one of them.

use vstd::prelude::*;
use vstd::utf8::encode_utf8;

verus! {

/// The views of the items of a sequence, in the same order.
pub open spec fn views<T: View>(items: Seq<T>) -> Seq<T::V> {
    items.map_values(|item: T| item@)
}

/// What a corpus entry is: a display name, where its content comes from, and how many
/// timed executions each backend gets on it.
pub struct CorpusEntryView {
    pub name: Seq<char>,
    pub source_locator: Seq<char>,
    pub iteration_count: nat,
}

/// One named input source with a positive iteration count.
#[derive(Debug, PartialEq, Eq)]
pub struct CorpusEntry {
    name: String,
    source_locator: String,
    iteration_count: usize,
}

impl View for CorpusEntry {
    type V = CorpusEntryView;

    closed spec fn view(&self) -> CorpusEntryView {
        CorpusEntryView {
            name: self.name@,
            source_locator: self.source_locator@,
            iteration_count: self.iteration_count as nat,
        }
    }
}

impl CorpusEntry {
    #[verifier::type_invariant]
    spec fn well_formed(self) -> bool {
        self.iteration_count >= 1
    }

    /// The entry with these parts; none where `iteration_count` is zero.
    pub fn new(name: String, source_locator: String, iteration_count: usize) -> (result: Option<
        CorpusEntry,
    >)
        ensures
            result is None <==> iteration_count == 0,
            result matches Some(entry) ==> entry@ == (CorpusEntryView {
                name: name@,
                source_locator: source_locator@,
                iteration_count: iteration_count as nat,
            }),
    {
        if iteration_count == 0 {
            None
        } else {
            Some(CorpusEntry { name, source_locator, iteration_count })
        }
    }

    /// The display name.
    pub fn name(&self) -> (name: &str)
        ensures
            name@ == self@.name,
    {
        self.name.as_str()
    }

    /// Where the content is loaded from.
    pub fn source_locator(&self) -> (locator: &str)
        ensures
            locator@ == self@.source_locator,
    {
        self.source_locator.as_str()
    }

    /// Number of timed executions per backend, at least one.
    pub fn iteration_count(&self) -> (count: usize)
        ensures
            count == self@.iteration_count,
            count >= 1,
    {
        proof {
            use_type_invariant(self);
        }
        self.iteration_count
    }
}

impl Clone for CorpusEntry {
    fn clone(&self) -> (copy: CorpusEntry)
        ensures
            copy@ == self@,
    {
        proof {
            use_type_invariant(self);
        }
        CorpusEntry {
            name: self.name.clone(),
            source_locator: self.source_locator.clone(),
            iteration_count: self.iteration_count,
        }
    }
}

/// Size in bytes of a text in UTF-8, the encoding in which it is held and parsed.
pub open spec fn byte_size(text: Seq<char>) -> nat {
    encode_utf8(text).len()
}

/// The content of one corpus entry, together with its size in bytes.
#[derive(Debug, PartialEq, Eq)]
pub struct LoadedInput {
    text: String,
    size_bytes: usize,
}

impl View for LoadedInput {
    type V = Seq<char>;

    closed spec fn view(&self) -> Seq<char> {
        self.text@
    }
}

impl LoadedInput {
    #[verifier::type_invariant]
    spec fn well_formed(self) -> bool {
        self.size_bytes == byte_size(self.text@)
    }

    /// Take ownership of a loaded text and measure its size.
    pub fn new(text: String) -> (input: LoadedInput)
        ensures
            input@ == text@,
    {
        let size_bytes = text.as_str().as_bytes().len();
        LoadedInput { text, size_bytes }
    }

    /// The loaded text.
    pub fn text(&self) -> (text: &str)
        ensures
            text@ == self@,
    {
        self.text.as_str()
    }

    /// Size of the loaded text in bytes.
    pub fn size_bytes(&self) -> (size: usize)
        ensures
            size == byte_size(self@),
    {
        proof {
            use_type_invariant(self);
        }
        self.size_bytes
    }
}

} // verus!
