//! The error taxonomy's message rendering, including the variants the other
//! suites do not reach.

use carroh::error::ImportError;
use carroh::error::SingleSearchError;
use carroh::first_value::FirstValueFetcher;
use carroh::header_searcher::HeaderSearcher;
use carroh::manifest::Manifest;

#[test]
fn ambiguous_header_lists_every_position() {
    let csv = "dup,val,dup\n\
               a,b,c\n";
    let m = Manifest::parse(csv.as_bytes()).unwrap();
    let e = m.find_single_header_index(&"dup".to_string()).unwrap_err();

    assert!(matches!(e.error, SingleSearchError::TooMany { .. }));
    assert_eq!(
        e.message(),
        "An error occurred while searching for the header \"dup\": \
         Multiple results at [0, 2]"
    );
}

#[test]
fn first_value_of_empty_manifest_is_no_records() {
    let csv = "marc\n";
    let m = Manifest::parse(csv.as_bytes()).unwrap();
    let e = m.get_first_value(&"marc".to_string()).unwrap_err();

    assert!(matches!(e, ImportError::FirstValue(_)));
    assert_eq!(e.message(), "There are no records in the CSV.");
}

#[test]
fn first_value_returns_the_first_rows_value() {
    let csv = "marc,obj_grant_cycle\n\
               cahuca,2023/2024\n\
               cahuca,2023/2024\n";
    let m = Manifest::parse(csv.as_bytes()).unwrap();

    assert_eq!(m.get_first_value(&"obj_grant_cycle".to_string()).unwrap(), "2023/2024");
    assert_eq!(m.get_first_value(&"marc".to_string()).unwrap(), "cahuca");
}

#[test]
fn cancellation_message() {
    assert_eq!(
        ImportError::ImportCancelled.message(),
        "The import encountered existing files which cannot not be \
         overwritten, and the user elected to cancel the import."
    );
}

#[test]
fn manifest_from_parts_checks_row_widths() {
    let headers = vec!["a".to_string(), "b".to_string()];
    let good = vec![vec!["1".to_string(), "2".to_string()]];
    assert!(Manifest::new(headers.clone(), good).is_some());

    let ragged = vec![vec!["1".to_string()]];
    assert!(Manifest::new(headers, ragged).is_none());
}

#[test]
fn parsing_reads_the_table_not_the_bytes() {
    let csv = "b,a\n\
               \"x,y\",z\n";
    let m = Manifest::parse(csv.as_bytes()).unwrap();

    assert_eq!(m.find_single_header_index(&"a".to_string()).unwrap(), 1);
    assert_eq!(m.find_single_header_index(&"b".to_string()).unwrap(), 0);
    assert_eq!(m.get_first_value(&"b".to_string()).unwrap(), "x,y");
    assert_eq!(m.get_first_value(&"a".to_string()).unwrap(), "z");
    assert_eq!(m.num_rows(), 1);
}
