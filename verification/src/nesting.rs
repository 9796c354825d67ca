//! How deeply the brackets of a JSON text nest, found in one pass over its bytes.
//!
//! The scan knows strings, so that a bracket inside a string literal does not count, and
//! nothing else of JSON: it gives a number for every sequence of bytes.

use vstd::prelude::*;

verus! {

/// What the scan knows after a prefix of the bytes.
pub struct Scan {
    /// Brackets that are open at this point.
    pub depth: nat,
    /// The most brackets that were open at once so far.
    pub deepest: nat,
    /// The scan is inside a string literal.
    pub in_string: bool,
    /// The byte before was a backslash that escapes this one.
    pub escaped: bool,
}

/// The scan before the first byte.
pub open spec fn scan_start() -> Scan {
    Scan { depth: 0, deepest: 0, in_string: false, escaped: false }
}

/// The scan after one more byte.
pub open spec fn scan_step(before: Scan, byte: u8) -> Scan {
    if before.in_string {
        if before.escaped {
            Scan { escaped: false, ..before }
        } else if byte == 0x5c {
            Scan { escaped: true, ..before }
        } else if byte == 0x22 {
            Scan { in_string: false, ..before }
        } else {
            before
        }
    } else if byte == 0x22 {
        Scan { in_string: true, ..before }
    } else if byte == 0x5b || byte == 0x7b {
        let depth = before.depth + 1;
        Scan {
            depth,
            deepest: if depth > before.deepest {
                depth
            } else {
                before.deepest
            },
            ..before
        }
    } else if byte == 0x5d || byte == 0x7d {
        Scan {
            depth: if before.depth > 0 {
                (before.depth - 1) as nat
            } else {
                0
            },
            ..before
        }
    } else {
        before
    }
}

/// The scan after all of `bytes`.
pub open spec fn scan(bytes: Seq<u8>) -> Scan
    decreases bytes.len(),
{
    if bytes.len() == 0 {
        scan_start()
    } else {
        scan_step(scan(bytes.drop_last()), bytes.last())
    }
}

/// The most square and curly brackets that are open at once anywhere in `bytes`, not
/// counting what stands inside string literals. A closing bracket without an open one is
/// passed over.
pub open spec fn nesting_depth(bytes: Seq<u8>) -> nat {
    scan(bytes).deepest
}

/// No prefix of a text nests deeper than the text: whoever reads the bytes from the front
/// and stops anywhere has seen no more than `nesting_depth(bytes)` brackets open at once.
pub proof fn lemma_prefix_nests_no_deeper(bytes: Seq<u8>, len: int)
    requires
        0 <= len <= bytes.len(),
    ensures
        nesting_depth(bytes.take(len)) <= nesting_depth(bytes),
    decreases bytes.len(),
{
    if len == bytes.len() {
        assert(bytes.take(len) =~= bytes);
    } else {
        lemma_prefix_nests_no_deeper(bytes.drop_last(), len);
        assert(bytes.drop_last().take(len) =~= bytes.take(len));
    }
}

/// Compute the nesting depth of `bytes`.
pub fn max_nesting(bytes: &[u8]) -> (deepest: usize)
    ensures
        deepest == nesting_depth(bytes@),
{
    let mut depth: usize = 0;
    let mut deepest: usize = 0;
    let mut in_string = false;
    let mut escaped = false;
    let mut i: usize = 0;
    while i < bytes.len()
        invariant
            i <= bytes.len(),
            depth <= deepest <= i,
            scan(bytes@.take(i as int)) == (Scan {
                depth: depth as nat,
                deepest: deepest as nat,
                in_string,
                escaped,
            }),
        decreases bytes.len() - i,
    {
        let byte = bytes[i];
        proof {
            let longer = bytes@.take(i + 1);
            assert(longer.drop_last() =~= bytes@.take(i as int));
            assert(longer.last() == byte);
        }
        if in_string {
            if escaped {
                escaped = false;
            } else if byte == 0x5c {
                escaped = true;
            } else if byte == 0x22 {
                in_string = false;
            }
        } else if byte == 0x22 {
            in_string = true;
        } else if byte == 0x5b || byte == 0x7b {
            depth = depth + 1;
            if depth > deepest {
                deepest = depth;
            }
        } else if byte == 0x5d || byte == 0x7d {
            if depth > 0 {
                depth = depth - 1;
            }
        }
        i = i + 1;
    }
    assert(bytes@.take(i as int) =~= bytes@);
    deepest
}

} // verus!
