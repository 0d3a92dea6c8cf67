//! Locations in the text that a query site was written in.

use vstd::prelude::*;

verus! {

/// Where a query site stands: the line and column at which it starts.
#[derive(Clone, Copy, Debug, PartialEq, Eq, Structural)]
pub struct SourceSpan {
    pub line: u32,
    pub column: u32,
}

impl SourceSpan {
    /// The span that starts at `line` and `column`.
    pub fn new(line: u32, column: u32) -> (span: SourceSpan)
        ensures
            span.line == line,
            span.column == column,
    {
        SourceSpan { line, column }
    }
}

} // verus!
