//! The manifest: an ordered header row and an ordered sequence of data rows,
//! every row as wide as the header.  A manifest is obtained by parsing CSV
//! text through the `csv` crate, or built directly from its parts.

use vstd::prelude::*;
use vstd::string::StringExecFns;

verus! {

/// What the `csv` crate's default reader makes of a byte sequence: the header
/// row and the data rows, or nothing when the bytes are not a well-formed
/// table.  The parse is a function of the bytes alone.
pub uninterp spec fn csv_table(text: Seq<u8>) -> Option<(Seq<Seq<char>>, Seq<Seq<Seq<char>>>)>;

/// The input bytes could not be read as a table.
#[derive(Debug, PartialEq, Eq)]
pub enum CsvReadError {
    NotTabular,
}

impl CsvReadError {
    /// The human-readable description of this read failure.
    pub fn message(&self) -> (r: String)
        ensures
            r@ == "The input could not be read as a CSV table."@,
    {
        String::from_str("The input could not be read as a CSV table.")
    }
}

/// An ordered header row and the data rows aligned to it.
pub struct Manifest {
    pub headers: Vec<String>,
    pub rows: Vec<Vec<String>>,
}

impl Manifest {
    /// The header row, column name by column name.
    pub open spec fn headers_view(self) -> Seq<Seq<char>> {
        self.headers.deep_view()
    }

    /// The data rows, each a sequence of field values.
    pub open spec fn rows_view(self) -> Seq<Seq<Seq<char>>> {
        self.rows.deep_view()
    }

    /// Every data row has exactly one field per header column.
    pub open spec fn wf(self) -> bool {
        forall|i: int|
            0 <= i < self.rows_view().len() ==> (#[trigger] self.rows_view()[i]).len()
                == self.headers_view().len()
    }

    /// Builds a manifest from its parts; refuses rows whose width differs
    /// from the header's.
    pub fn new(headers: Vec<String>, rows: Vec<Vec<String>>) -> (r: Option<Manifest>)
        ensures
            match r {
                Some(m) => m.wf() && m.headers_view() == headers.deep_view() && m.rows_view()
                    == rows.deep_view(),
                None => exists|i: int|
                    0 <= i < rows.deep_view().len() && (#[trigger] rows.deep_view()[i]).len()
                        != headers.deep_view().len(),
            },
    {
        let mut i: usize = 0;
        while i < rows.len()
            invariant
                i <= rows.len(),
                forall|j: int|
                    0 <= j < i ==> (#[trigger] rows.deep_view()[j]).len()
                        == headers.deep_view().len(),
            decreases rows.len() - i,
        {
            if rows[i].len() != headers.len() {
                proof {
                    assert(rows.deep_view()[i as int].len() != headers.deep_view().len());
                }
                return None;
            }
            i = i + 1;
        }
        Some(Manifest { headers, rows })
    }

    /// The number of data rows.
    pub fn num_rows(&self) -> (r: usize)
        ensures
            r == self.rows_view().len(),
    {
        self.rows.len()
    }

    /// Hands the data rows over, for the import loop to iterate.
    pub fn into_rows(self) -> (r: Vec<Vec<String>>)
        ensures
            r.deep_view() == self.rows_view(),
    {
        self.rows
    }

    /// Parses CSV text into a manifest, the first record as the header row
    /// and the remaining records as data rows.
    ///
    /// Relies on `csv::ReaderBuilder` with `has_headers(true)` and the
    /// default strict field counting: the parse depends on the bytes alone,
    /// and on success every record carries exactly as many fields as the
    /// header record, so the manifest is well-formed.
    #[verifier::external_body]
    pub fn parse(text: &[u8]) -> (r: Result<Manifest, CsvReadError>)
        ensures
            r is Ok <==> csv_table(text@) is Some,
            r matches Ok(m) ==> {
                &&& m.headers_view() == csv_table(text@)->Some_0.0
                &&& m.rows_view() == csv_table(text@)->Some_0.1
                &&& m.wf()
            },
    {
        let mut reader = csv::ReaderBuilder::new().has_headers(true).from_reader(text);
        let headers: Vec<String> = match reader.headers() {
            Ok(h) => h.iter().map(|f| f.to_string()).collect(),
            Err(_) => return Err(CsvReadError::NotTabular),
        };
        let mut rows: Vec<Vec<String>> = Vec::new();
        for record in reader.records() {
            match record {
                Ok(rec) => rows.push(rec.iter().map(|f| f.to_string()).collect()),
                Err(_) => return Err(CsvReadError::NotTabular),
            }
        }
        Ok(Manifest { headers, rows })
    }
}

} // verus!
