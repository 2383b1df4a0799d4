//! Shared error taxonomy: the per-domain variants carry exactly the data a
//! precise diagnostic needs, and every error renders its text through a
//! verified `message` function.

use vstd::prelude::*;
use vstd::string::StringExecFns;
use crate::equal_column::ColumnEqualityCheckError;
use crate::equal_column::column_equality_option_message;
use crate::first_value::FirstValueFetchErrorOption;
use crate::header_searcher::SingleHeaderSearchError;
use crate::manifest::CsvReadError;
use crate::path_validator::PathCheckError;
use crate::path_validator::path_check_error_message;
use crate::populated_column::GetPopulatedColumnError;
use crate::populated_column::populated_column_error_message;
use crate::text::dec_list_str;
use crate::text::usizes_to_list_string;

verus! {

/// A row together with a description of what is wrong with it.
#[derive(Debug, PartialEq, Eq)]
pub struct RowError {
    pub row_number: usize,
    pub error_description: String,
}

/// Outcome of a search that must resolve to exactly one position.
#[derive(Debug, PartialEq, Eq)]
pub enum SingleSearchError {
    NotFound,
    TooMany { indices: Vec<usize> },
}

/// What `SingleSearchError::message` renders.
pub open spec fn single_search_message(e: SingleSearchError) -> Seq<char> {
    match e {
        SingleSearchError::NotFound => "Not found."@,
        SingleSearchError::TooMany { indices } => "Multiple results at "@ + "["@ + dec_list_str(
            indices@,
        ) + "]"@,
    }
}

impl SingleSearchError {
    /// The human-readable description of this search failure.
    pub fn message(&self) -> (r: String)
        ensures
            r@ == single_search_message(*self),
    {
        match self {
            SingleSearchError::NotFound => String::from_str("Not found."),
            SingleSearchError::TooMany { indices } => {
                let mut s = String::from_str("Multiple results at ");
                let list = usizes_to_list_string(indices);
                s.append(list.as_str());
                proof {
                    assert(s@ =~= "Multiple results at "@ + "["@ + dec_list_str(indices@)
                        + "]"@);
                }
                s
            },
        }
    }
}

/// The single top-level error type: any validation, selection, path or read
/// failure that aborts a run, plus the operator's decision to cancel.
#[derive(Debug, PartialEq, Eq)]
pub enum ImportError {
    Csv(CsvReadError),
    Header(SingleHeaderSearchError),
    ColumnEquality(ColumnEqualityCheckError),
    FirstValue(FirstValueFetchErrorOption),
    PopulatedColumn(GetPopulatedColumnError),
    Path(PathCheckError),
    OutputLocationExists { path: String },
    ExistsAsFile { path: String },
    ContinueDeclined { path: String },
    ImportCancelled,
}

/// What `ImportError::message` renders, variant by variant.
pub open spec fn import_error_message(e: ImportError) -> Seq<char> {
    match e {
        ImportError::Csv(_) => "The input could not be read as a CSV table."@,
        ImportError::Header(inner) => "An error occurred while searching for the header \""@
            + inner.header_name@ + "\": "@ + single_search_message(inner.error),
        ImportError::ColumnEquality(inner) => {
            "An error occurred while verifying all values in a \""@ + inner.header_name@
                + "\" are equal: "@ + column_equality_option_message(inner.error)
        },
        ImportError::FirstValue(_) => "There are no records in the CSV."@,
        ImportError::PopulatedColumn(inner) => populated_column_error_message(inner),
        ImportError::Path(inner) => path_check_error_message(inner),
        ImportError::OutputLocationExists { path } => "Output location \""@ + path@
            + "\" already exists."@,
        ImportError::ExistsAsFile { path } => "File "@ + path@
            + " already exists and is a file, but should be a directory."@,
        ImportError::ContinueDeclined { path } => "File "@ + path@
            + " already exists and user has declined to continue."@,
        ImportError::ImportCancelled => {
            "The import encountered existing files which cannot not be overwritten, and the user elected to cancel the import."@
        },
    }
}

impl ImportError {
    /// The human-readable description of this failure, the text the program
    /// reports before it exits.
    pub fn message(&self) -> (r: String)
        ensures
            r@ == import_error_message(*self),
    {
        match self {
            ImportError::Csv(inner) => inner.message(),
            ImportError::Header(inner) => inner.message(),
            ImportError::ColumnEquality(inner) => inner.message(),
            ImportError::FirstValue(inner) => inner.message(),
            ImportError::PopulatedColumn(inner) => inner.message(),
            ImportError::Path(inner) => inner.message(),
            ImportError::OutputLocationExists { path } => {
                let mut s = String::from_str("Output location \"");
                s.append(path.as_str());
                s.append("\" already exists.");
                s
            },
            ImportError::ExistsAsFile { path } => {
                let mut s = String::from_str("File ");
                s.append(path.as_str());
                s.append(" already exists and is a file, but should be a directory.");
                s
            },
            ImportError::ContinueDeclined { path } => {
                let mut s = String::from_str("File ");
                s.append(path.as_str());
                s.append(" already exists and user has declined to continue.");
                s
            },
            ImportError::ImportCancelled => String::from_str(
                "The import encountered existing files which cannot not be overwritten, and the user elected to cancel the import.",
            ),
        }
    }
}

} // verus!
