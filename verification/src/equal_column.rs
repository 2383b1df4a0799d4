//! The homogeneity check: every row of a column must share the first row's
//! value.  The check scans rows in file order and reports the first data row
//! that deviates, or `NoRecords` when the manifest has no data rows at all.

use vstd::prelude::*;
use vstd::string::StringExecFns;
use crate::error::ImportError;
use crate::header_searcher::HeaderSearcher;
use crate::header_searcher::lemma_matching_indices_in_range;
use crate::header_searcher::matching_indices;
use crate::header_searcher::single_header_search_result;
use crate::manifest::Manifest;
use crate::text::dec_str;

verus! {

/// How a column failed the homogeneity check.
#[derive(Debug, PartialEq, Eq)]
pub enum ColumnEqualityCheckErrorOption {
    UnequalValue { line_number: usize },
    NoRecords,
}

/// What `ColumnEqualityCheckErrorOption::message` renders.
pub open spec fn column_equality_option_message(e: ColumnEqualityCheckErrorOption) -> Seq<char> {
    match e {
        ColumnEqualityCheckErrorOption::UnequalValue { line_number } => "Non-equal value at line "@
            + dec_str(line_number as nat),
        ColumnEqualityCheckErrorOption::NoRecords => "There are no records in the CSV."@,
    }
}

impl ColumnEqualityCheckErrorOption {
    /// The human-readable description of this check failure.
    pub fn message(&self) -> (r: String)
        ensures
            r@ == column_equality_option_message(*self),
    {
        match self {
            ColumnEqualityCheckErrorOption::UnequalValue { line_number } => {
                let mut s = String::from_str("Non-equal value at line ");
                let n = crate::text::usize_to_dec_string(*line_number);
                s.append(n.as_str());
                s
            },
            ColumnEqualityCheckErrorOption::NoRecords => String::from_str(
                "There are no records in the CSV.",
            ),
        }
    }
}

/// A column whose values were expected to be uniform, but were not.
#[derive(Debug, PartialEq, Eq)]
pub struct ColumnEqualityCheckError {
    pub header_name: String,
    pub error: ColumnEqualityCheckErrorOption,
}

impl ColumnEqualityCheckError {
    /// The human-readable description of this check failure.
    pub fn message(&self) -> (r: String)
        ensures
            r@ == "An error occurred while verifying all values in a \""@ + self.header_name@
                + "\" are equal: "@ + column_equality_option_message(self.error),
    {
        let mut s = String::from_str("An error occurred while verifying all values in a \"");
        s.append(self.header_name.as_str());
        s.append("\" are equal: ");
        let post = self.error.message();
        s.append(post.as_str());
        s
    }
}

/// The first `n` data rows agree with the first data row in column `c`.
pub open spec fn column_uniform_to(rows: Seq<Seq<Seq<char>>>, c: int, n: int) -> bool {
    forall|i: int| 1 <= i < n ==> (#[trigger] rows[i])[c] == rows[0][c]
}

/// The named column resolves uniquely, at least one data row exists, and
/// every data row agrees with the first: the homogeneity check succeeds.
pub open spec fn column_uniform_ok(
    headers: Seq<Seq<char>>,
    rows: Seq<Seq<Seq<char>>>,
    name: Seq<char>,
) -> bool {
    let ms = matching_indices(headers, name);
    ms.len() == 1 && rows.len() > 0 && column_uniform_to(rows, ms[0] as int, rows.len() as int)
}

/// What the homogeneity check must return: success exactly when the column
/// resolves uniquely, at least one data row exists, and every data row agrees
/// with the first; otherwise the precise error, with the first offending row
/// reported by its one-based data row number.
pub open spec fn equal_column_check_result(
    headers: Seq<Seq<char>>,
    rows: Seq<Seq<Seq<char>>>,
    name: Seq<char>,
    r: Result<(), ImportError>,
) -> bool {
    let ms = matching_indices(headers, name);
    match r {
        Ok(_) => column_uniform_ok(headers, rows, name),
        Err(ImportError::Header(e)) => ms.len() != 1 && single_header_search_result(
            headers,
            name,
            Err(e),
        ),
        Err(ImportError::ColumnEquality(e)) => ms.len() == 1 && e.header_name@ == name
            && match e.error {
            ColumnEqualityCheckErrorOption::NoRecords => rows.len() == 0,
            ColumnEqualityCheckErrorOption::UnequalValue { line_number } => {
                let c = ms[0] as int;
                let k = line_number as int - 1;
                &&& 1 <= k < rows.len()
                &&& rows[k][c] != rows[0][c]
                &&& column_uniform_to(rows, c, k)
            },
        },
        _ => false,
    }
}

impl Manifest {
    /// Checks that every data row carries the first row's value in the named
    /// column, scanning in file order and stopping at the first mismatch.
    pub fn assert_equal_column_values(&self, column_header: &String) -> (r: Result<
        (),
        ImportError,
    >)
        requires
            self.wf(),
        ensures
            equal_column_check_result(self.headers_view(), self.rows_view(), column_header@, r),
    {
        let ghost ms = matching_indices(self.headers_view(), column_header@);
        let header_i = match self.find_single_header_index(column_header) {
            Ok(i) => i,
            Err(e) => {
                return Err(ImportError::Header(e));
            },
        };
        proof {
            assert(self.headers_view().len() == self.headers.len());
            lemma_matching_indices_in_range(self.headers_view(), column_header@);
        }
        if self.rows.len() == 0 {
            return Err(
                ImportError::ColumnEquality(
                    ColumnEqualityCheckError {
                        header_name: column_header.clone(),
                        error: ColumnEqualityCheckErrorOption::NoRecords,
                    },
                ),
            );
        }
        let mut i: usize = 1;
        while i < self.rows.len()
            invariant
                1 <= i <= self.rows.len(),
                self.wf(),
                ms == matching_indices(self.headers_view(), column_header@),
                ms.len() == 1 && header_i == ms[0],
                header_i < self.headers_view().len(),
                self.rows.len() == self.rows_view().len(),
                self.rows.len() > 0,
                column_uniform_to(self.rows_view(), header_i as int, i as int),
            decreases self.rows.len() - i,
        {
            proof {
                assert(self.rows_view()[i as int] == self.rows@[i as int].deep_view());
                assert(self.rows_view()[0] == self.rows@[0].deep_view());
                assert(self.rows@[i as int].deep_view().len() == self.rows@[i as int]@.len());
                assert(self.rows@[0].deep_view().len() == self.rows@[0]@.len());
            }
            if !self.rows[i][header_i].eq(&self.rows[0][header_i]) {
                return Err(
                    ImportError::ColumnEquality(
                        ColumnEqualityCheckError {
                            header_name: column_header.clone(),
                            error: ColumnEqualityCheckErrorOption::UnequalValue {
                                line_number: i + 1,
                            },
                        },
                    ),
                );
            }
            i = i + 1;
        }
        Ok(())
    }
}

} // verus!
