//! Reading a table's rows from end to end, as the diagnostic pass does
//! before the column checks run.  Nothing is computed from the rows; the
//! pass only proves the text readable.

use vstd::prelude::*;
use crate::csv_processor::CsvProcessor;
use crate::error::ImportError;
use crate::manifest::csv_table;

verus! {

/// Anything whose table can be read through row by row.
pub trait RowPrinter {
    /// The raw text the rows are read from.
    spec fn printed_text(&self) -> Seq<u8>;

    /// Reads through all rows, reporting only whether the text parses as a
    /// table.
    fn print_all_rows(&self) -> (r: Result<(), ImportError>)
        ensures
            r is Ok <==> csv_table(self.printed_text()) is Some,
    ;
}

impl RowPrinter for CsvProcessor {
    open spec fn printed_text(&self) -> Seq<u8> {
        self.text@
    }

    fn print_all_rows(&self) -> (r: Result<(), ImportError>) {
        match self.manifest() {
            Ok(_) => Ok(()),
            Err(e) => Err(e),
        }
    }
}

} // verus!
