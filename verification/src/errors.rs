use vstd::prelude::*;

verus! {

/// Terminal failures of a pipeline invocation. Every error names the
/// offending column or parameter; there is no partial-result semantics.
#[derive(Debug)]
pub enum IndicatorError {
    /// A required column is absent from the input table.
    SchemaError { column: String },
    /// The rolling window length is below one.
    InvalidPeriod { period: usize },
    /// The series has fewer than the two rows a first difference needs.
    EmptySeriesError { rows: usize },
}

} // verus!
