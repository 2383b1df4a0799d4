//! Column check behaviour over a small four-column table: a column that is
//! filled but not uniform, a uniform one, an all-empty one, and a partially
//! empty one.

use carroh::all_rows_filled::AllRowsFilledValidator;
use carroh::csv_processor::CsvProcessor;
use carroh::error::ImportError;
use carroh::header_searcher::HeaderSearcher;
use carroh::manifest::Manifest;
use carroh::populated_column::PopulatedColumn;

fn simple_column_tester() -> Manifest {
    let csv = "neq,eq,empty,some_empty\n\
               a,x,,s\n\
               a,x,,\n\
               a,x,,s\n\
               b,x,,s\n";
    Manifest::parse(csv.as_bytes()).unwrap()
}

#[test]
fn all_rows_filled_test_nonequal() {
    let e = simple_column_tester()
        .all_rows_filled(&"neq".to_string())
        .unwrap();

    assert_eq!(e, true);
}

#[test]
fn all_rows_filled_test_equal() {
    let e = simple_column_tester()
        .all_rows_filled(&"eq".to_string())
        .unwrap();

    assert_eq!(e, true);
}

#[test]
fn all_rows_filled_empty() {
    let e = simple_column_tester()
        .all_rows_filled(&"empty".to_string())
        .unwrap();

    assert_eq!(e, false);
}

#[test]
fn all_rows_filled_test_some_empty() {
    let e = simple_column_tester()
        .all_rows_filled(&"some_empty".to_string())
        .unwrap();

    assert_eq!(e, false);
}

#[test]
fn header_searcher_test_nonequal() {
    let e = simple_column_tester()
        .find_single_header_index(&"neq".to_string())
        .unwrap();

    assert_eq!(e, 0);
}

#[test]
fn header_searcher_test_equal() {
    let e = simple_column_tester()
        .find_single_header_index(&"eq".to_string())
        .unwrap();

    assert_eq!(e, 1);
}

#[test]
fn header_searcher_empty() {
    let e = simple_column_tester()
        .find_single_header_index(&"empty".to_string())
        .unwrap();

    assert_eq!(e, 2);
}

#[test]
fn header_searcher_test_some_empty() {
    let e = simple_column_tester()
        .find_single_header_index(&"some_empty".to_string())
        .unwrap();

    assert_eq!(e, 3);
}

#[test]
fn test_non_existent() {
    let e = simple_column_tester()
        .find_single_header_index(&"non_existent".to_string())
        .unwrap_err()
        .message();

    assert_eq!(
        e,
        "An error occurred while searching for the header \
         \"non_existent\": Not found."
    );
}

#[test]
fn equal_column_test_nonequal() {
    let e = simple_column_tester()
        .assert_equal_column_values(&"neq".to_string())
        .unwrap_err();

    assert_eq!(
        e.message(),
        "An error occurred while verifying all values in a \"neq\" are \
         equal: Non-equal value at line 4"
    );
}

#[test]
fn equal_column_test_equal() {
    simple_column_tester()
        .assert_equal_column_values(&"eq".to_string())
        .unwrap();
}

#[test]
fn equal_column_empty() {
    simple_column_tester()
        .assert_equal_column_values(&"empty".to_string())
        .unwrap();
}

#[test]
fn equal_column_test_some_empty() {
    simple_column_tester()
        .assert_equal_column_values(&"some_empty".to_string())
        .unwrap_err();
}

#[test]
fn test_same_col() {
    let col_one = "neq".to_string();
    let col_two = "neq".to_string();
    let m = simple_column_tester();
    let e = m.get_populated_column(&col_one, &col_two).unwrap();

    assert_eq!(e, "neq");
}

#[test]
fn test_two_populated() {
    let col_one = "eq".to_string();
    let col_two = "neq".to_string();
    let m = simple_column_tester();
    let e = m.get_populated_column(&col_one, &col_two).unwrap();

    assert_eq!(e, "eq");
}

#[test]
fn test_two_populated_rev() {
    let col_one = "neq".to_string();
    let col_two = "eq".to_string();
    let m = simple_column_tester();
    let e = m.get_populated_column(&col_one, &col_two).unwrap();

    assert_eq!(e, "neq");
}

#[test]
fn test_one_empty() {
    let col_one = "neq".to_string();
    let col_two = "empty".to_string();
    let m = simple_column_tester();
    let e = m.get_populated_column(&col_one, &col_two).unwrap();

    assert_eq!(e, "neq");
}

#[test]
fn test_one_empty_rev() {
    let col_one = "empty".to_string();
    let col_two = "neq".to_string();
    let m = simple_column_tester();
    let e = m.get_populated_column(&col_one, &col_two).unwrap();

    assert_eq!(e, "neq");
}

#[test]
fn test_mostly_empty() {
    let m = simple_column_tester();
    let e = m
        .get_populated_column(&"empty".to_string(), &"some_empty".to_string())
        .unwrap_err()
        .message();

    assert_eq!(
        e,
        "Tried to find a filled column 'empty' or 'some_empty' but both \
         were at least partially empty."
    );
}

#[test]
fn test_nonequal_marc() {
    let csv = "marc,obj_grant_cycle\n\
               X,2023/2024\n\
               Y,2023/2024\n";

    let mut cp = CsvProcessor::new(csv.as_bytes().to_vec()).unwrap();

    let e = cp
        .assert_equal_column_values(&"marc".to_string())
        .unwrap_err();

    assert_eq!(
        e.message(),
        "An error occurred while verifying all values in a \"marc\" are \
         equal: Non-equal value at line 2"
    );
}

#[test]
fn test_nonequal_grant_cycle() {
    let csv = "marc,obj_grant_cycle\n\
               cahuca,2022/2023\n\
               cahuca,2023/2024\n";

    let mut cp = CsvProcessor::new(csv.as_bytes().to_vec()).unwrap();

    let e = cp
        .assert_equal_column_values(&"obj_grant_cycle".to_string())
        .unwrap_err();

    assert_eq!(
        e.message(),
        "An error occurred while verifying all values in a \
         \"obj_grant_cycle\" are equal: Non-equal value at line 2"
    );
}

#[test]
fn equal_column_check_on_headers_only_reports_no_records() {
    let csv = "neq,eq,empty,some_empty\n";
    let m = Manifest::parse(csv.as_bytes()).unwrap();
    let e = m
        .assert_equal_column_values(&"eq".to_string())
        .unwrap_err();

    assert_eq!(
        e.message(),
        "An error occurred while verifying all values in a \"eq\" are \
         equal: There are no records in the CSV."
    );
}

#[test]
fn processor_resolves_headers() {
    let csv = "marc,obj_grant_cycle\n\
               cahuca,2023/2024\n";

    let mut cp = CsvProcessor::new(csv.as_bytes().to_vec()).unwrap();

    assert_eq!(
        cp.find_single_header_index(&"obj_grant_cycle".to_string())
            .unwrap(),
        1
    );
    cp.print_all_rows().unwrap();
}

#[test]
fn processor_rejects_ragged_text() {
    let csv = "marc,obj_grant_cycle\n\
               cahuca\n";

    let mut cp = CsvProcessor::new(csv.as_bytes().to_vec()).unwrap();

    let e = cp.print_all_rows().unwrap_err();
    assert!(matches!(e, ImportError::Csv(_)));
    assert_eq!(e.message(), "The input could not be read as a CSV table.");
}
