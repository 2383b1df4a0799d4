//! A processor around one batch's raw CSV text.  Each logical pass re-parses
//! the text, so every check and the import loop get an independent, fresh
//! view of the same table.

use vstd::prelude::*;
use crate::equal_column::equal_column_check_result;
use crate::error::ImportError;
use crate::header_searcher::HeaderSearcher;
use crate::header_searcher::matching_indices;
use crate::header_searcher::single_header_search_result;
use crate::manifest::Manifest;
use crate::manifest::csv_table;

verus! {

/// Holds the raw CSV text of one manifest.
pub struct CsvProcessor {
    pub text: Vec<u8>,
}

/// What resolving a column name through freshly parsed text must return:
/// a read error when the text is not a table, and the single-position search
/// outcome over the parsed header row otherwise.
pub open spec fn processor_header_search_result(
    text: Seq<u8>,
    name: Seq<char>,
    r: Result<usize, ImportError>,
) -> bool {
    match csv_table(text) {
        None => r matches Err(ImportError::Csv(e)),
        Some(t) => {
            let ms = matching_indices(t.0, name);
            match r {
                Ok(i) => ms.len() == 1 && i == ms[0],
                Err(ImportError::Header(e)) => single_header_search_result(t.0, name, Err(e)),
                _ => false,
            }
        },
    }
}

impl CsvProcessor {
    /// Wraps the given CSV text; the text is kept as handed in.
    pub fn new(text: Vec<u8>) -> (r: Result<CsvProcessor, ImportError>)
        ensures
            r matches Ok(p) && p.text@ == text@,
    {
        Ok(CsvProcessor { text })
    }

    /// Parses the held text into a fresh manifest, one independent cursor
    /// per call.
    pub fn manifest(&self) -> (r: Result<Manifest, ImportError>)
        ensures
            match r {
                Ok(m) => {
                    &&& csv_table(self.text@) is Some
                    &&& m.headers_view() == csv_table(self.text@)->Some_0.0
                    &&& m.rows_view() == csv_table(self.text@)->Some_0.1
                    &&& m.wf()
                },
                Err(e) => csv_table(self.text@) is None && e matches ImportError::Csv(inner),
            },
    {
        match Manifest::parse(self.text.as_slice()) {
            Ok(m) => Ok(m),
            Err(e) => Err(ImportError::Csv(e)),
        }
    }

    /// Reads through all rows of the text, reporting only whether the text
    /// parses as a table.
    pub fn print_all_rows(&mut self) -> (r: Result<(), ImportError>)
        ensures
            *final(self) == *old(self),
            r is Ok <==> csv_table(old(self).text@) is Some,
    {
        match self.manifest() {
            Ok(_) => Ok(()),
            Err(e) => Err(e),
        }
    }

    /// Resolves a column name to its unique header position in the freshly
    /// parsed table.
    pub fn find_single_header_index(&mut self, column_header: &String) -> (r: Result<
        usize,
        ImportError,
    >)
        ensures
            *final(self) == *old(self),
            processor_header_search_result(old(self).text@, column_header@, r),
    {
        let m = match self.manifest() {
            Ok(m) => m,
            Err(e) => {
                return Err(e);
            },
        };
        match m.find_single_header_index(column_header) {
            Ok(i) => Ok(i),
            Err(e) => Err(ImportError::Header(e)),
        }
    }

    /// Checks that every data row of the freshly parsed table carries the
    /// first row's value in the named column.
    pub fn assert_equal_column_values(&mut self, column_header: &String) -> (r: Result<
        (),
        ImportError,
    >)
        ensures
            *final(self) == *old(self),
            match csv_table(old(self).text@) {
                None => r matches Err(ImportError::Csv(e)),
                Some(t) => equal_column_check_result(t.0, t.1, column_header@, r),
            },
    {
        let m = match self.manifest() {
            Ok(m) => m,
            Err(e) => {
                return Err(e);
            },
        };
        m.assert_equal_column_values(column_header)
    }
}

} // verus!
