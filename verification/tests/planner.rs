//! Batch planning and the pre-creation decisions: validation order, derived
//! layout, path-state validation and directory preparation.

use carroh::error::ImportError;
use carroh::manifest::Manifest;
use carroh::path_planner::plan_batch;
use carroh::path_planner::plan_create_directory;
use carroh::path_planner::prepare_directory;
use carroh::path_planner::resolve_continue;
use carroh::path_planner::DirPreparation;
use carroh::path_validator::DirectoryStatus;
use carroh::path_validator::PathCheckError;
use carroh::path_validator::PathStatus;
use carroh::path_validator::PathValidationOptions;
use carroh::path_validator::PathValidator;

fn uniform_manifest() -> Manifest {
    let csv = "marc,obj_grant_cycle,obj_call_number,obj_temporary_id\n\
               cahuca,2023/2024,ITEM001,\n";
    Manifest::parse(csv.as_bytes()).unwrap()
}

#[test]
fn plan_batch_derives_layout() {
    let m = uniform_manifest();
    let plan = plan_batch(&m, "demo/out").unwrap();

    assert_eq!(plan.pit_column_index, 2);
    assert_eq!(plan.grant_cycle_descriptor, "2023-2024");
    assert_eq!(plan.marc, "cahuca");
    assert_eq!(plan.parent_location, "demo/out/2023-2024_cahuca");
    assert_eq!(
        plan.raw_location,
        "demo/out/2023-2024_cahuca/cahuca_2023-2024_Raw"
    );
}

#[test]
fn plan_batch_falls_back_to_temporary_id() {
    let csv = "marc,obj_grant_cycle,obj_call_number,obj_temporary_id\n\
               cahuca,2023/2024,,TMP1\n\
               cahuca,2023/2024,ITEM2,TMP2\n";
    let m = Manifest::parse(csv.as_bytes()).unwrap();
    let plan = plan_batch(&m, "demo/out").unwrap();

    assert_eq!(plan.pit_column_index, 3);
}

#[test]
fn plan_batch_rejects_nonuniform_marc() {
    let csv = "marc,obj_grant_cycle,obj_call_number,obj_temporary_id\n\
               X,2023/2024,ITEM001,\n\
               Y,2023/2024,ITEM002,\n";
    let m = Manifest::parse(csv.as_bytes()).unwrap();
    let e = plan_batch(&m, "demo/out").unwrap_err();

    assert_eq!(
        e.message(),
        "An error occurred while verifying all values in a \"marc\" are \
         equal: Non-equal value at line 2"
    );
}

#[test]
fn plan_batch_rejects_empty_manifest() {
    let csv = "marc,obj_grant_cycle,obj_call_number,obj_temporary_id\n";
    let m = Manifest::parse(csv.as_bytes()).unwrap();
    let e = plan_batch(&m, "demo/out").unwrap_err();

    assert_eq!(
        e.message(),
        "An error occurred while verifying all values in a \"marc\" are \
         equal: There are no records in the CSV."
    );
}

#[test]
fn plan_batch_rejects_two_gappy_identifier_columns() {
    let csv = "marc,obj_grant_cycle,obj_call_number,obj_temporary_id\n\
               cahuca,2023/2024,,TMP1\n\
               cahuca,2023/2024,ITEM2,\n";
    let m = Manifest::parse(csv.as_bytes()).unwrap();
    let e = plan_batch(&m, "demo/out").unwrap_err();

    assert_eq!(
        e.message(),
        "Tried to find a filled column 'obj_call_number' or \
         'obj_temporary_id' but both were at least partially empty."
    );
}

#[test]
fn plan_batch_rejects_missing_column() {
    let csv = "obj_grant_cycle,obj_call_number\n\
               2023/2024,ITEM001\n";
    let m = Manifest::parse(csv.as_bytes()).unwrap();
    let e = plan_batch(&m, "demo/out").unwrap_err();

    assert_eq!(
        e.message(),
        "An error occurred while searching for the header \"marc\": Not \
         found."
    );
}

#[test]
fn create_directory_refuses_existing_path() {
    let e = plan_create_directory("demo/out/2023-2024_cahuca", true, false).unwrap_err();

    assert!(matches!(e, ImportError::OutputLocationExists { .. }));
    assert_eq!(
        e.message(),
        "Output location \"demo/out/2023-2024_cahuca\" already exists."
    );

    let e = plan_create_directory("demo/out/2023-2024_cahuca", true, true).unwrap_err();
    assert!(matches!(e, ImportError::OutputLocationExists { .. }));
}

#[test]
fn create_directory_orders_creation_unless_dry() {
    assert_eq!(plan_create_directory("demo/out/x", false, false).unwrap(), true);
    assert_eq!(plan_create_directory("demo/out/x", false, true).unwrap(), false);
}

#[test]
fn prepare_directory_decisions() {
    assert_eq!(
        prepare_directory("demo/out/x", false, false, false).unwrap(),
        DirPreparation::CreateNow
    );
    assert_eq!(
        prepare_directory("demo/out/x", false, false, true).unwrap(),
        DirPreparation::SkipCreation
    );
    assert_eq!(
        prepare_directory("demo/out/x", true, false, false).unwrap(),
        DirPreparation::AskToContinue
    );

    let e = prepare_directory("demo/out/x", true, true, false).unwrap_err();
    assert_eq!(
        e.message(),
        "File demo/out/x already exists and is a file, but should be a \
         directory."
    );
}

#[test]
fn continuing_into_existing_directory_needs_consent() {
    resolve_continue("demo/out/x", true).unwrap();

    let e = resolve_continue("demo/out/x", false).unwrap_err();
    assert_eq!(
        e.message(),
        "File demo/out/x already exists and user has declined to continue."
    );
}

#[test]
fn path_validation_outcomes() {
    let missing = PathStatus {
        path: "demo/does_not_exist.csv".to_string(),
        exists: false,
        is_dir: false,
    };
    let e = missing
        .validate_path(PathValidationOptions::Exists(DirectoryStatus::IsNotDirectory))
        .unwrap_err();
    assert_eq!(
        e.message(),
        "\"demo/does_not_exist.csv\" could not be found, but is expected to \
         exist."
    );

    let occupied = PathStatus {
        path: "demo/out/1_exists".to_string(),
        exists: true,
        is_dir: true,
    };
    let e = occupied
        .validate_path(PathValidationOptions::DoesNotExist)
        .unwrap_err();
    assert_eq!(
        e.message(),
        "\"demo/out/1_exists\" should not already exist, but does."
    );

    let file = PathStatus {
        path: "demo/out".to_string(),
        exists: true,
        is_dir: false,
    };
    let e = file
        .validate_path(PathValidationOptions::Exists(DirectoryStatus::IsDirectory))
        .unwrap_err();
    assert_eq!(e.message(), "\"demo/out\" should be a directory, but is not.");

    let dir = PathStatus {
        path: "demo/simple.csv".to_string(),
        exists: true,
        is_dir: true,
    };
    let e = dir
        .validate_path(PathValidationOptions::Exists(DirectoryStatus::IsNotDirectory))
        .unwrap_err();
    assert!(matches!(e, PathCheckError::ShouldNotBeDirectory { .. }));
    assert_eq!(
        e.message(),
        "\"demo/simple.csv\" should not be a directory, but it is."
    );

    let ok = PathStatus {
        path: "demo/simple.csv".to_string(),
        exists: true,
        is_dir: false,
    };
    ok.validate_path(PathValidationOptions::Exists(DirectoryStatus::IsNotDirectory))
        .unwrap();

    let free = PathStatus {
        path: "demo/out/new".to_string(),
        exists: false,
        is_dir: false,
    };
    free.validate_path(PathValidationOptions::DoesNotExist).unwrap();
}
