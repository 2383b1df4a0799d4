//! Resolving a column name to its unique position in the header row.  Zero
//! matches and two or more matches are both terminal errors, never silently
//! resolved to a default.

use vstd::prelude::*;
use vstd::string::StringExecFns;
use crate::error::SingleSearchError;
use crate::error::single_search_message;
use crate::manifest::Manifest;

verus! {

/// The positions of `name` in `headers`, in header order.
pub open spec fn matching_indices(headers: Seq<Seq<char>>, name: Seq<char>) -> Seq<usize>
    decreases headers.len(),
{
    if headers.len() == 0 {
        Seq::empty()
    } else {
        let rest = matching_indices(headers.drop_last(), name);
        if headers.last() == name {
            rest.push((headers.len() - 1) as usize)
        } else {
            rest
        }
    }
}

/// Every matching position lies within the header row and carries the
/// searched name.
pub proof fn lemma_matching_indices_in_range(headers: Seq<Seq<char>>, name: Seq<char>)
    requires
        headers.len() <= usize::MAX,
    ensures
        forall|j: int|
            0 <= j < matching_indices(headers, name).len() ==> (#[trigger] matching_indices(
                headers,
                name,
            )[j]) < headers.len() && headers[matching_indices(headers, name)[j] as int] == name,
    decreases headers.len(),
{
    if headers.len() > 0 {
        lemma_matching_indices_in_range(headers.drop_last(), name);
        let rest = matching_indices(headers.drop_last(), name);
        let ms = matching_indices(headers, name);
        assert forall|j: int| 0 <= j < ms.len() implies (#[trigger] ms[j]) < headers.len()
            && headers[ms[j] as int] == name by {
            if j < rest.len() {
                assert(ms[j] == rest[j]);
                assert(rest[j] < headers.drop_last().len());
                assert(headers.drop_last()[rest[j] as int] == headers[rest[j] as int]);
            } else {
                assert(headers.last() == name);
                assert(ms[j] == (headers.len() - 1) as usize);
            }
        }
    }
}

/// Every position at which the searched name stands in the header row is
/// listed by `matching_indices`: together with
/// `lemma_matching_indices_in_range` this says the listed positions are
/// exactly the matching ones, so a name in exactly one header position is
/// resolved to that position and never to a default or first match.
pub proof fn lemma_matching_indices_complete(headers: Seq<Seq<char>>, name: Seq<char>)
    ensures
        forall|i: int|
            0 <= i < headers.len() && headers[i] == name ==> matching_indices(
                headers,
                name,
            ).contains(i as usize),
    decreases headers.len(),
{
    if headers.len() > 0 {
        lemma_matching_indices_complete(headers.drop_last(), name);
        let rest = matching_indices(headers.drop_last(), name);
        let ms = matching_indices(headers, name);
        assert forall|i: int| 0 <= i < headers.len() && headers[i] == name implies ms.contains(
            i as usize,
        ) by {
            if i < headers.len() - 1 {
                assert(headers.drop_last()[i] == headers[i]);
                assert(rest.contains(i as usize));
                let j = choose|j: int| 0 <= j < rest.len() && rest[j] == i as usize;
                assert(ms[j] == i as usize);
            } else {
                assert(headers.last() == name);
                assert(ms.last() == (headers.len() - 1) as usize);
            }
        }
    }
}

/// What a single-position header search must return: the unique position of
/// the name, `NotFound` when the name is absent, and `TooMany` with every
/// matching position when the name is ambiguous.
pub open spec fn single_header_search_result(
    headers: Seq<Seq<char>>,
    name: Seq<char>,
    r: Result<usize, SingleHeaderSearchError>,
) -> bool {
    let ms = matching_indices(headers, name);
    match r {
        Ok(i) => ms.len() == 1 && i == ms[0],
        Err(e) => e.header_name@ == name && match e.error {
            SingleSearchError::NotFound => ms.len() == 0,
            SingleSearchError::TooMany { indices } => ms.len() >= 2 && indices@ == ms,
        },
    }
}

/// A search for a column name that did not resolve to exactly one position.
#[derive(Debug, PartialEq, Eq)]
pub struct SingleHeaderSearchError {
    pub header_name: String,
    pub error: SingleSearchError,
}

impl SingleHeaderSearchError {
    /// The human-readable description of this search failure.
    pub fn message(&self) -> (r: String)
        ensures
            r@ == "An error occurred while searching for the header \""@ + self.header_name@
                + "\": "@ + single_search_message(self.error),
    {
        let mut s = String::from_str("An error occurred while searching for the header \"");
        s.append(self.header_name.as_str());
        s.append("\": ");
        let post = self.error.message();
        s.append(post.as_str());
        s
    }
}

/// Anything with a header row in which a column name can be resolved to its
/// unique position.
pub trait HeaderSearcher {
    /// The header row the search runs over.
    spec fn searched_headers(&self) -> Seq<Seq<char>>;

    /// Resolves a column name to its unique header position.
    fn find_single_header_index(&self, column_header: &String) -> (r: Result<
        usize,
        SingleHeaderSearchError,
    >)
        ensures
            single_header_search_result(self.searched_headers(), column_header@, r),
    ;
}

impl HeaderSearcher for Manifest {
    open spec fn searched_headers(&self) -> Seq<Seq<char>> {
        self.headers_view()
    }

    fn find_single_header_index(&self, column_header: &String) -> (r: Result<
        usize,
        SingleHeaderSearchError,
    >) {
        let ghost hs = self.headers_view();
        let mut matched: Vec<usize> = Vec::new();
        let mut i: usize = 0;
        while i < self.headers.len()
            invariant
                i <= self.headers.len(),
                hs == self.headers_view(),
                matched@ =~= matching_indices(hs.take(i as int), column_header@),
            decreases self.headers.len() - i,
        {
            proof {
                assert(hs.take(i + 1 as int).drop_last() =~= hs.take(i as int));
                assert(hs.take(i + 1 as int).last() == hs[i as int]);
            }
            if self.headers[i].eq(column_header) {
                matched.push(i);
            }
            i = i + 1;
        }
        proof {
            assert(hs.take(hs.len() as int) =~= hs);
        }
        if matched.len() == 0 {
            Err(SingleHeaderSearchError {
                header_name: column_header.clone(),
                error: SingleSearchError::NotFound,
            })
        } else if matched.len() == 1 {
            Ok(matched[0])
        } else {
            Err(SingleHeaderSearchError {
                header_name: column_header.clone(),
                error: SingleSearchError::TooMany { indices: matched },
            })
        }
    }
}

} // verus!
