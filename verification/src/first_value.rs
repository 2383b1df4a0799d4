//! Fetching the first data row's value of a column, the token the path
//! planner derives the batch directories from.

use vstd::prelude::*;
use vstd::string::StringExecFns;
use crate::error::ImportError;
use crate::header_searcher::HeaderSearcher;
use crate::header_searcher::lemma_matching_indices_in_range;
use crate::header_searcher::matching_indices;
use crate::header_searcher::single_header_search_result;
use crate::manifest::Manifest;

verus! {

/// Why a first value could not be fetched.
#[derive(Debug, PartialEq, Eq)]
pub enum FirstValueFetchErrorOption {
    NoRecords,
}

impl FirstValueFetchErrorOption {
    /// The human-readable description of this fetch failure.
    pub fn message(&self) -> (r: String)
        ensures
            r@ == "There are no records in the CSV."@,
    {
        String::from_str("There are no records in the CSV.")
    }
}

/// What fetching the first data row's value of a column must return: the
/// value itself when the name resolves uniquely and a data row exists, and
/// the precise error otherwise.
pub open spec fn first_value_result(
    headers: Seq<Seq<char>>,
    rows: Seq<Seq<Seq<char>>>,
    name: Seq<char>,
    r: Result<String, ImportError>,
) -> bool {
    let ms = matching_indices(headers, name);
    match r {
        Ok(v) => ms.len() == 1 && rows.len() > 0 && v@ == rows[0][ms[0] as int],
        Err(ImportError::Header(e)) => ms.len() != 1 && single_header_search_result(
            headers,
            name,
            Err(e),
        ),
        Err(ImportError::FirstValue(e)) => ms.len() == 1 && rows.len() == 0 && e
            == FirstValueFetchErrorOption::NoRecords,
        _ => false,
    }
}

/// Anything whose table yields the first data row's value of a column.
pub trait FirstValueFetcher {
    /// The header row of the read table.
    spec fn fetched_headers(&self) -> Seq<Seq<char>>;

    /// The data rows of the read table.
    spec fn fetched_rows(&self) -> Seq<Seq<Seq<char>>>;

    /// Every data row is as wide as the header row.
    spec fn fetched_wf(&self) -> bool;

    /// Fetches the first data row's value in the named column.
    fn get_first_value(&self, column_header: &String) -> (r: Result<String, ImportError>)
        requires
            self.fetched_wf(),
        ensures
            first_value_result(self.fetched_headers(), self.fetched_rows(), column_header@, r),
    ;
}

impl FirstValueFetcher for Manifest {
    open spec fn fetched_headers(&self) -> Seq<Seq<char>> {
        self.headers_view()
    }

    open spec fn fetched_rows(&self) -> Seq<Seq<Seq<char>>> {
        self.rows_view()
    }

    open spec fn fetched_wf(&self) -> bool {
        self.wf()
    }

    fn get_first_value(&self, column_header: &String) -> (r: Result<String, ImportError>) {
        let header_i = match self.find_single_header_index(column_header) {
            Ok(i) => i,
            Err(e) => {
                return Err(ImportError::Header(e));
            },
        };
        proof {
            assert(self.headers_view().len() == self.headers.len());
            lemma_matching_indices_in_range(self.headers_view(), column_header@);
        }
        if self.rows.len() == 0 {
            return Err(ImportError::FirstValue(FirstValueFetchErrorOption::NoRecords));
        }
        proof {
            assert(self.rows_view()[0] == self.rows@[0].deep_view());
            assert(self.rows@[0].deep_view().len() == self.rows@[0]@.len());
        }
        Ok(self.rows[0][header_i].clone())
    }
}

} // verus!
