//! End-to-end drives of the import state machine with a scripted operator
//! and simulated device and filesystem outcomes.

use carroh::manifest::Manifest;
use carroh::orchestrator::CollisionChoice;
use carroh::orchestrator::ImportAction;
use carroh::orchestrator::ImportEvent;
use carroh::orchestrator::ImportSession;
use carroh::path_planner::plan_batch;

fn session_for(csv: &str, output_parent: &str, device: &str) -> ImportSession {
    let m = Manifest::parse(csv.as_bytes()).unwrap();
    let plan = plan_batch(&m, output_parent).unwrap();
    ImportSession::new(
        m.into_rows(),
        plan.pit_column_index,
        plan.raw_location,
        device.to_string(),
    )
    .unwrap()
}

#[test]
fn single_item_run_writes_one_image_and_one_copy() {
    let csv = "marc,obj_grant_cycle,obj_call_number,obj_temporary_id\n\
               cahuca,2023/2024,ITEM001,\n";
    let mut s = session_for(csv, "demo/out", "sr0");
    let raw = "demo/out/2023-2024_cahuca/cahuca_2023-2024_Raw";

    assert_eq!(
        s.current_action(),
        ImportAction::ConfirmInsertion {
            sub_identifier: "ITEM001".to_string(),
            device: "sr0".to_string(),
        }
    );
    s.step(ImportEvent::Answered { yes: true });

    assert_eq!(
        s.current_action(),
        ImportAction::ReadLabel { device: "sr0".to_string() }
    );
    s.step(ImportEvent::LabelRead { label: "DISC1".to_string() });

    assert_eq!(
        s.current_action(),
        ImportAction::CheckImagePath {
            path: format!("{raw}/ITEM001_DISC1.iso"),
        }
    );
    s.step(ImportEvent::PathChecked { exists: false });

    assert_eq!(
        s.current_action(),
        ImportAction::DumpImage {
            device: "sr0".to_string(),
            label: "DISC1".to_string(),
            dest: format!("{raw}/ITEM001_DISC1.iso"),
        }
    );
    s.step(ImportEvent::ImageDumped);

    assert_eq!(
        s.current_action(),
        ImportAction::CheckCopyPath {
            path: format!("{raw}/ITEM001_DISC1"),
        }
    );
    s.step(ImportEvent::PathChecked { exists: false });

    assert_eq!(
        s.current_action(),
        ImportAction::CopyContents {
            device: "sr0".to_string(),
            label: "DISC1".to_string(),
            dest: format!("{raw}/ITEM001_DISC1"),
        }
    );
    s.step(ImportEvent::ContentsCopied);

    assert_eq!(s.current_action(), ImportAction::EjectTray);
    s.step(ImportEvent::Ejected);

    assert_eq!(s.current_action(), ImportAction::Finished);
}

#[test]
fn declined_insertion_ejects_and_asks_again() {
    let csv = "marc,obj_grant_cycle,obj_call_number,obj_temporary_id\n\
               cahuca,2023/2024,ITEM001,\n";
    let mut s = session_for(csv, "demo/out", "sr0");

    assert!(matches!(
        s.current_action(),
        ImportAction::ConfirmInsertion { .. }
    ));
    s.step(ImportEvent::Answered { yes: false });

    assert_eq!(s.current_action(), ImportAction::EjectTray);
    s.step(ImportEvent::Ejected);

    assert_eq!(
        s.current_action(),
        ImportAction::ConfirmInsertion {
            sub_identifier: "ITEM001".to_string(),
            device: "sr0".to_string(),
        }
    );
}

#[test]
fn image_collision_skip_moves_to_next_sub_identifier() {
    let csv = "marc,obj_grant_cycle,obj_call_number,obj_temporary_id\n\
               cahuca,2023/2024,ITEM001;ITEM002,\n";
    let mut s = session_for(csv, "demo/out", "sr0");
    let raw = "demo/out/2023-2024_cahuca/cahuca_2023-2024_Raw";

    s.step(ImportEvent::Answered { yes: true });
    s.step(ImportEvent::LabelRead { label: "DISC1".to_string() });

    assert_eq!(
        s.current_action(),
        ImportAction::CheckImagePath {
            path: format!("{raw}/ITEM001_DISC1.iso"),
        }
    );
    s.step(ImportEvent::PathChecked { exists: true });

    assert_eq!(
        s.current_action(),
        ImportAction::AskImageCollision {
            path: format!("{raw}/ITEM001_DISC1.iso"),
            sub_identifier: "ITEM001".to_string(),
        }
    );
    s.step(ImportEvent::Chose { choice: CollisionChoice::SkipItem });

    // The skipped sub-identifier produced no image or copy request; the next
    // one proceeds normally.
    assert_eq!(
        s.current_action(),
        ImportAction::ConfirmInsertion {
            sub_identifier: "ITEM002".to_string(),
            device: "sr0".to_string(),
        }
    );
    s.step(ImportEvent::Answered { yes: true });
    s.step(ImportEvent::LabelRead { label: "DISC2".to_string() });
    s.step(ImportEvent::PathChecked { exists: false });

    assert_eq!(
        s.current_action(),
        ImportAction::DumpImage {
            device: "sr0".to_string(),
            label: "DISC2".to_string(),
            dest: format!("{raw}/ITEM002_DISC2.iso"),
        }
    );
    s.step(ImportEvent::ImageDumped);
    s.step(ImportEvent::PathChecked { exists: false });
    s.step(ImportEvent::ContentsCopied);
    s.step(ImportEvent::Ejected);

    assert_eq!(s.current_action(), ImportAction::Finished);
}

#[test]
fn copy_collision_cancel_aborts_the_run() {
    let csv = "marc,obj_grant_cycle,obj_call_number,obj_temporary_id\n\
               cahuca,2023/2024,ITEM001,\n\
               cahuca,2023/2024,ITEM002,\n";
    let mut s = session_for(csv, "demo/out", "sr0");
    let raw = "demo/out/2023-2024_cahuca/cahuca_2023-2024_Raw";

    s.step(ImportEvent::Answered { yes: true });
    s.step(ImportEvent::LabelRead { label: "DISC1".to_string() });
    s.step(ImportEvent::PathChecked { exists: false });
    s.step(ImportEvent::ImageDumped);

    assert_eq!(
        s.current_action(),
        ImportAction::CheckCopyPath {
            path: format!("{raw}/ITEM001_DISC1"),
        }
    );
    s.step(ImportEvent::PathChecked { exists: true });

    assert_eq!(
        s.current_action(),
        ImportAction::AskCopyCollision {
            path: format!("{raw}/ITEM001_DISC1"),
            sub_identifier: "ITEM001".to_string(),
        }
    );
    s.step(ImportEvent::Chose { choice: CollisionChoice::CancelImport });

    // Remaining rows are never visited.
    assert_eq!(s.current_action(), ImportAction::Cancelled);
}

#[test]
fn rows_and_sub_identifiers_processed_in_file_order() {
    let csv = "marc,obj_grant_cycle,obj_call_number,obj_temporary_id\n\
               cahuca,2023/2024,ITEM001;ITEM002,\n\
               cahuca,2023/2024,ITEM003,\n";
    let mut s = session_for(csv, "demo/out", "sr0");

    let mut seen: Vec<String> = Vec::new();
    loop {
        match s.current_action() {
            ImportAction::ConfirmInsertion { sub_identifier, .. } => {
                seen.push(sub_identifier);
                s.step(ImportEvent::Answered { yes: true });
            }
            ImportAction::ReadLabel { .. } => {
                s.step(ImportEvent::LabelRead { label: "D".to_string() });
            }
            ImportAction::CheckImagePath { .. } | ImportAction::CheckCopyPath { .. } => {
                s.step(ImportEvent::PathChecked { exists: false });
            }
            ImportAction::DumpImage { .. } => {
                s.step(ImportEvent::ImageDumped);
            }
            ImportAction::CopyContents { .. } => {
                s.step(ImportEvent::ContentsCopied);
            }
            ImportAction::EjectTray => {
                s.step(ImportEvent::Ejected);
            }
            ImportAction::Finished => break,
            other => panic!("unexpected action {other:?}"),
        }
    }

    assert_eq!(seen, vec!["ITEM001", "ITEM002", "ITEM003"]);
}

#[test]
fn empty_manifest_session_is_complete_at_once() {
    let rows: Vec<Vec<String>> = Vec::new();
    let s = ImportSession::new(rows, 0, "raw".to_string(), "sr0".to_string()).unwrap();

    assert_eq!(s.current_action(), ImportAction::Finished);
}

#[test]
fn session_refuses_out_of_range_identifier_column() {
    let rows = vec![vec!["only-one-field".to_string()]];
    assert!(ImportSession::new(rows, 1, "raw".to_string(), "sr0".to_string()).is_none());
}
