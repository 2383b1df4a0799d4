//! Choosing which of two candidate columns serves as the per-item identifier
//! source.  The first column wins whenever it is fully populated; the second
//! is a fallback; two gappy columns are unrecoverable.

use vstd::prelude::*;
use vstd::string::StringExecFns;
use crate::all_rows_filled::AllRowsFilledValidator;
use crate::all_rows_filled::column_filled;
use crate::error::ImportError;
use crate::header_searcher::matching_indices;
use crate::header_searcher::single_header_search_result;
use crate::manifest::Manifest;

verus! {

/// Neither candidate identifier column is fully populated.
#[derive(Debug, PartialEq, Eq)]
pub enum GetPopulatedColumnError {
    BothColumnsAreEmpty { column_header_one: String, column_header_two: String },
}

/// What `GetPopulatedColumnError::message` renders.
pub open spec fn populated_column_error_message(e: GetPopulatedColumnError) -> Seq<char> {
    match e {
        GetPopulatedColumnError::BothColumnsAreEmpty { column_header_one, column_header_two } => {
            "Tried to find a filled column '"@ + column_header_one@ + "' or '"@
                + column_header_two@ + "' but both were at least partially empty."@
        },
    }
}

impl GetPopulatedColumnError {
    /// The human-readable description of this selection failure.
    pub fn message(&self) -> (r: String)
        ensures
            r@ == populated_column_error_message(*self),
    {
        match self {
            GetPopulatedColumnError::BothColumnsAreEmpty {
                column_header_one,
                column_header_two,
            } => {
                let mut s = String::from_str("Tried to find a filled column '");
                s.append(column_header_one.as_str());
                s.append("' or '");
                s.append(column_header_two.as_str());
                s.append("' but both were at least partially empty.");
                s
            },
        }
    }
}

/// What selecting the identifier column must return, following the ordered
/// policy: a fully populated column one wins; otherwise a fully populated
/// column two; otherwise the failure names both columns.  Either column name
/// failing to resolve uniquely is reported first, column one's search before
/// column two's.
pub open spec fn populated_column_result(
    headers: Seq<Seq<char>>,
    rows: Seq<Seq<Seq<char>>>,
    one: Seq<char>,
    two: Seq<char>,
    r: Result<&String, ImportError>,
) -> bool {
    let ms1 = matching_indices(headers, one);
    let ms2 = matching_indices(headers, two);
    if ms1.len() != 1 {
        r matches Err(ImportError::Header(e)) && single_header_search_result(headers, one, Err(e))
    } else if ms2.len() != 1 {
        r matches Err(ImportError::Header(e)) && single_header_search_result(headers, two, Err(e))
    } else if column_filled(rows, ms1[0] as int) {
        r matches Ok(v) && v@ == one
    } else if column_filled(rows, ms2[0] as int) {
        r matches Ok(v) && v@ == two
    } else {
        r matches Err(ImportError::PopulatedColumn(
            GetPopulatedColumnError::BothColumnsAreEmpty { column_header_one, column_header_two },
        )) && column_header_one@ == one && column_header_two@ == two
    }
}

/// Anything whose table decides which of two candidate columns serves as
/// the per-item identifier source.
pub trait PopulatedColumn {
    /// The header row of the inspected table.
    spec fn selection_headers(&self) -> Seq<Seq<char>>;

    /// The data rows of the inspected table.
    spec fn selection_rows(&self) -> Seq<Seq<Seq<char>>>;

    /// Every data row is as wide as the header row.
    spec fn selection_wf(&self) -> bool;

    /// Chooses which of the two candidate columns serves as the per-item
    /// identifier source.
    fn get_populated_column<'a>(
        &self,
        column_header_one: &'a String,
        column_header_two: &'a String,
    ) -> (r: Result<&'a String, ImportError>)
        requires
            self.selection_wf(),
        ensures
            populated_column_result(
                self.selection_headers(),
                self.selection_rows(),
                column_header_one@,
                column_header_two@,
                r,
            ),
    ;
}

impl PopulatedColumn for Manifest {
    open spec fn selection_headers(&self) -> Seq<Seq<char>> {
        self.headers_view()
    }

    open spec fn selection_rows(&self) -> Seq<Seq<Seq<char>>> {
        self.rows_view()
    }

    open spec fn selection_wf(&self) -> bool {
        self.wf()
    }

    fn get_populated_column<'a>(
        &self,
        column_header_one: &'a String,
        column_header_two: &'a String,
    ) -> (r: Result<&'a String, ImportError>) {
        let one_filled = match self.all_rows_filled(column_header_one) {
            Ok(b) => b,
            Err(e) => {
                return Err(ImportError::Header(e));
            },
        };
        let two_filled = match self.all_rows_filled(column_header_two) {
            Ok(b) => b,
            Err(e) => {
                return Err(ImportError::Header(e));
            },
        };
        match (one_filled, two_filled) {
            (true, _) => Ok(column_header_one),
            (false, true) => Ok(column_header_two),
            _ => Err(
                ImportError::PopulatedColumn(
                    GetPopulatedColumnError::BothColumnsAreEmpty {
                        column_header_one: column_header_one.clone(),
                        column_header_two: column_header_two.clone(),
                    },
                ),
            ),
        }
    }
}

} // verus!
