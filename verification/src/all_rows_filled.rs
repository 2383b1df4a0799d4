//! The completeness check: whether every data row carries a non-empty value
//! in a column.  Only the boolean matters to callers, so the scan may stop at
//! the first empty value.

use vstd::prelude::*;
use crate::header_searcher::HeaderSearcher;
use crate::header_searcher::SingleHeaderSearchError;
use crate::header_searcher::lemma_matching_indices_in_range;
use crate::header_searcher::matching_indices;
use crate::header_searcher::single_header_search_result;
use crate::manifest::Manifest;

verus! {

/// Every data row has a non-empty value in column `c`.
pub open spec fn column_filled(rows: Seq<Seq<Seq<char>>>, c: int) -> bool {
    forall|i: int| 0 <= i < rows.len() ==> (#[trigger] rows[i])[c].len() > 0
}

/// What the completeness check must return: the column's fill state when the
/// name resolves uniquely, and the search error otherwise.
pub open spec fn all_rows_filled_result(
    headers: Seq<Seq<char>>,
    rows: Seq<Seq<Seq<char>>>,
    name: Seq<char>,
    r: Result<bool, SingleHeaderSearchError>,
) -> bool {
    let ms = matching_indices(headers, name);
    match r {
        Ok(b) => ms.len() == 1 && (b <==> column_filled(rows, ms[0] as int)),
        Err(e) => ms.len() != 1 && single_header_search_result(headers, name, Err(e)),
    }
}

/// Anything whose table can be checked column by column for completeness.
pub trait AllRowsFilledValidator {
    /// The header row of the checked table.
    spec fn filled_check_headers(&self) -> Seq<Seq<char>>;

    /// The data rows of the checked table.
    spec fn filled_check_rows(&self) -> Seq<Seq<Seq<char>>>;

    /// Every data row is as wide as the header row.
    spec fn filled_check_wf(&self) -> bool;

    /// Reports whether the named column has a non-empty value in every data
    /// row.
    fn all_rows_filled(&self, column_header: &String) -> (r: Result<
        bool,
        SingleHeaderSearchError,
    >)
        requires
            self.filled_check_wf(),
        ensures
            all_rows_filled_result(
                self.filled_check_headers(),
                self.filled_check_rows(),
                column_header@,
                r,
            ),
    ;
}

impl AllRowsFilledValidator for Manifest {
    open spec fn filled_check_headers(&self) -> Seq<Seq<char>> {
        self.headers_view()
    }

    open spec fn filled_check_rows(&self) -> Seq<Seq<Seq<char>>> {
        self.rows_view()
    }

    open spec fn filled_check_wf(&self) -> bool {
        self.wf()
    }

    fn all_rows_filled(&self, column_header: &String) -> (r: Result<
        bool,
        SingleHeaderSearchError,
    >) {
        let ghost ms = matching_indices(self.headers_view(), column_header@);
        let header_i = match self.find_single_header_index(column_header) {
            Ok(i) => i,
            Err(e) => {
                return Err(e);
            },
        };
        proof {
            assert(self.headers_view().len() == self.headers.len());
            lemma_matching_indices_in_range(self.headers_view(), column_header@);
        }
        let mut i: usize = 0;
        while i < self.rows.len()
            invariant
                i <= self.rows.len(),
                self.wf(),
                ms == matching_indices(self.headers_view(), column_header@),
                ms.len() == 1 && header_i == ms[0],
                header_i < self.headers_view().len(),
                self.rows.len() == self.rows_view().len(),
                forall|j: int|
                    0 <= j < i ==> (#[trigger] self.rows_view()[j])[header_i as int].len() > 0,
            decreases self.rows.len() - i,
        {
            proof {
                assert(self.rows_view()[i as int] == self.rows@[i as int].deep_view());
                assert(self.rows@[i as int].deep_view().len() == self.rows@[i as int]@.len());
            }
            if self.rows[i][header_i].as_str().is_empty() {
                proof {
                    assert(self.rows_view()[i as int][header_i as int].len() == 0);
                    assert(!column_filled(self.rows_view(), header_i as int));
                }
                return Ok(false);
            }
            i = i + 1;
        }
        Ok(true)
    }
}

} // verus!
