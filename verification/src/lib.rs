//! Verified core of a bulk optical-media digitization workflow.
//!
//! Given a tabular manifest describing a batch of physical discs, the library
//! checks the manifest's column invariants, derives the batch's output
//! directory layout, and drives a per-item import state machine that sequences
//! operator confirmation, label retrieval, collision detection, imaging and
//! file copying.  All decision logic lives here and is verified; reading the
//! manifest text is delegated to the `csv` crate, and the device, filesystem
//! and operator interactions are performed by the surrounding program, which
//! feeds their outcomes back in as plain values.

pub mod all_rows_filled;
pub mod csv_processor;
pub mod equal_column;
pub mod error;
pub mod first_value;
pub mod header_searcher;
pub mod manifest;
pub mod orchestrator;
pub mod path_planner;
pub mod path_validator;
pub mod populated_column;
pub mod row_printer;
pub mod text;
