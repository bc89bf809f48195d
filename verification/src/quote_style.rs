//! The quoting policies a line can be written with.

use vstd::prelude::*;

verus! {

/// When the writer wraps a field in quotes.
#[derive(Copy, Clone, Debug, PartialEq, Eq, Structural)]
pub enum QuoteStyle {
    /// Quotes around every field.
    Always,
    /// Quotes only around fields that hold a quote, the delimiter or a record
    /// terminator, and around the single empty field of an otherwise empty record.
    Necessary,
    /// Quotes around every field that does not parse as an integer or a float.
    NonNumeric,
    /// No quotes at all, even where the line is then ambiguous.
    Never,
}

impl Default for QuoteStyle {
    fn default() -> (style: QuoteStyle)
        ensures
            style == QuoteStyle::Necessary,
    {
        QuoteStyle::Necessary
    }
}

} // verus!
