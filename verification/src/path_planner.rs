//! Deriving the batch's output directory layout from manifest content, and
//! deciding what to do about a directory's observed state before anything is
//! created.  Everything here is a pure function of its inputs; the
//! filesystem observations and mutations happen outside and their outcomes
//! are handed in as plain values.

use vstd::prelude::*;
use vstd::string::StringExecFns;
use crate::all_rows_filled::column_filled;
use crate::equal_column::column_uniform_ok;
use crate::equal_column::equal_column_check_result;
use crate::error::ImportError;
use crate::first_value::FirstValueFetcher;
use crate::header_searcher::HeaderSearcher;
use crate::header_searcher::matching_indices;
use crate::manifest::Manifest;
use crate::populated_column::PopulatedColumn;
use crate::populated_column::populated_column_result;
use crate::text::replace_slashes;
use crate::text::slashes_to_hyphens;

verus! {

/// The parent directory's name: `{grant_cycle_descriptor}_{marc}`.
pub open spec fn parent_dir_name_spec(gcd: Seq<char>, marc: Seq<char>) -> Seq<char> {
    gcd + "_"@ + marc
}

/// The raw directory's name: `{marc}_{grant_cycle_descriptor}_Raw`.
pub open spec fn raw_dir_name_spec(gcd: Seq<char>, marc: Seq<char>) -> Seq<char> {
    marc + "_"@ + gcd + "_Raw"@
}

/// Builds the parent directory's name from the two derived tokens.
pub fn parent_dir_name(gcd: &str, marc: &str) -> (r: String)
    ensures
        r@ == parent_dir_name_spec(gcd@, marc@),
{
    let mut s = String::from_str(gcd);
    s.append("_");
    s.append(marc);
    s
}

/// Builds the raw directory's name from the two derived tokens.
pub fn raw_dir_name(gcd: &str, marc: &str) -> (r: String)
    ensures
        r@ == raw_dir_name_spec(gcd@, marc@),
{
    let mut s = String::from_str(marc);
    s.append("_");
    s.append(gcd);
    s.append("_Raw");
    s
}

/// Joins a directory path and an entry name with a single separator.
pub fn join_path(base: &str, name: &str) -> (r: String)
    ensures
        r@ == base@ + "/"@ + name@,
{
    let mut s = String::from_str(base);
    s.append("/");
    s.append(name);
    s
}

/// A sub-identifier's image file path: `{raw}/{sub}_{label}.iso`.  The
/// device label is part of the name, so the path is only known once a disc
/// is inserted.
pub open spec fn image_path_spec(raw: Seq<char>, sub: Seq<char>, label: Seq<char>) -> Seq<char> {
    raw + "/"@ + sub + "_"@ + label + ".iso"@
}

/// Builds a sub-identifier's image file path under the raw location.
pub fn image_path(raw: &str, sub: &str, label: &str) -> (r: String)
    ensures
        r@ == image_path_spec(raw@, sub@, label@),
{
    let mut s = String::from_str(raw);
    s.append("/");
    s.append(sub);
    s.append("_");
    s.append(label);
    s.append(".iso");
    s
}

/// A sub-identifier's content-copy path: `{raw}/{sub}_{label}`.
pub open spec fn copy_path_spec(raw: Seq<char>, sub: Seq<char>, label: Seq<char>) -> Seq<char> {
    raw + "/"@ + sub + "_"@ + label
}

/// Builds a sub-identifier's content-copy path under the raw location.
pub fn copy_path(raw: &str, sub: &str, label: &str) -> (r: String)
    ensures
        r@ == copy_path_spec(raw@, sub@, label@),
{
    let mut s = String::from_str(raw);
    s.append("/");
    s.append(sub);
    s.append("_");
    s.append(label);
    s
}

/// Directory derivation is pure and deterministic: the two directory names
/// are functions of the grant-cycle descriptor and the shared marc value
/// alone, so running the derivation twice on identical inputs yields
/// identical names.
pub proof fn lemma_directory_derivation_deterministic(
    gcd1: Seq<char>,
    marc1: Seq<char>,
    gcd2: Seq<char>,
    marc2: Seq<char>,
)
    requires
        gcd1 == gcd2,
        marc1 == marc2,
    ensures
        parent_dir_name_spec(gcd1, marc1) == parent_dir_name_spec(gcd2, marc2),
        raw_dir_name_spec(gcd1, marc1) == raw_dir_name_spec(gcd2, marc2),
{
}

/// Both candidate identifier columns resolve uniquely and at least one of
/// them is fully populated, so a per-item identifier column can be selected.
pub open spec fn pit_selection_ok(
    headers: Seq<Seq<char>>,
    rows: Seq<Seq<Seq<char>>>,
    one: Seq<char>,
    two: Seq<char>,
) -> bool {
    let ms1 = matching_indices(headers, one);
    let ms2 = matching_indices(headers, two);
    &&& ms1.len() == 1
    &&& ms2.len() == 1
    &&& (column_filled(rows, ms1[0] as int) || column_filled(rows, ms2[0] as int))
}

/// Which candidate the selection policy picks: the first column whenever it
/// is fully populated, the second otherwise.
pub open spec fn selected_pit(
    headers: Seq<Seq<char>>,
    rows: Seq<Seq<Seq<char>>>,
    one: Seq<char>,
    two: Seq<char>,
) -> Seq<char> {
    if column_filled(rows, matching_indices(headers, one)[0] as int) {
        one
    } else {
        two
    }
}

/// Everything the import loop needs about one batch, derived once from the
/// manifest: the identifier column's position, the derived tokens, and the
/// two output directory paths.
#[derive(Debug)]
pub struct BatchPlan {
    pub pit_column_index: usize,
    pub grant_cycle_descriptor: String,
    pub marc: String,
    pub parent_location: String,
    pub raw_location: String,
}

/// What planning a batch must return.  The checks run in order: the `marc`
/// homogeneity check, the `obj_grant_cycle` homogeneity check, then the
/// identifier column selection between `obj_call_number` and
/// `obj_temporary_id`; the first failure is reported.  On success the plan
/// carries the selected column's position and the derived directory paths.
pub open spec fn batch_plan_result(
    headers: Seq<Seq<char>>,
    rows: Seq<Seq<Seq<char>>>,
    output_parent: Seq<char>,
    r: Result<BatchPlan, ImportError>,
) -> bool {
    let ocn = "obj_call_number"@;
    let oti = "obj_temporary_id"@;
    if !column_uniform_ok(headers, rows, "marc"@) {
        r matches Err(e) && equal_column_check_result(headers, rows, "marc"@, Err(e))
    } else if !column_uniform_ok(headers, rows, "obj_grant_cycle"@) {
        r matches Err(e) && equal_column_check_result(headers, rows, "obj_grant_cycle"@, Err(e))
    } else if !pit_selection_ok(headers, rows, ocn, oti) {
        r matches Err(e) && populated_column_result(
            headers,
            rows,
            ocn,
            oti,
            Result::<&String, ImportError>::Err(e),
        )
    } else {
        r matches Ok(plan) && {
            let pit = selected_pit(headers, rows, ocn, oti);
            let gcd = slashes_to_hyphens(
                rows[0][matching_indices(headers, "obj_grant_cycle"@)[0] as int],
            );
            let marc = rows[0][matching_indices(headers, "marc"@)[0] as int];
            &&& plan.pit_column_index == matching_indices(headers, pit)[0]
            &&& plan.grant_cycle_descriptor@ == gcd
            &&& plan.marc@ == marc
            &&& plan.parent_location@ == output_parent + "/"@ + parent_dir_name_spec(gcd, marc)
            &&& plan.raw_location@ == output_parent + "/"@ + parent_dir_name_spec(gcd, marc)
                + "/"@ + raw_dir_name_spec(gcd, marc)
        }
    }
}

/// Plans one batch: validates the manifest's column invariants, selects the
/// identifier column, and derives the output directory layout under the
/// given output parent directory.
pub fn plan_batch(m: &Manifest, output_parent: &str) -> (r: Result<BatchPlan, ImportError>)
    requires
        m.wf(),
    ensures
        batch_plan_result(m.headers_view(), m.rows_view(), output_parent@, r),
{
    let marc_col = String::from_str("marc");
    let ogc_col = String::from_str("obj_grant_cycle");
    match m.assert_equal_column_values(&marc_col) {
        Ok(_) => {},
        Err(e) => {
            return Err(e);
        },
    }
    match m.assert_equal_column_values(&ogc_col) {
        Ok(_) => {},
        Err(e) => {
            return Err(e);
        },
    }
    let ocn_col = String::from_str("obj_call_number");
    let oti_col = String::from_str("obj_temporary_id");
    let pit_col = match m.get_populated_column(&ocn_col, &oti_col) {
        Ok(p) => p,
        Err(e) => {
            return Err(e);
        },
    };
    let pit_column_index = match m.find_single_header_index(pit_col) {
        Ok(i) => i,
        Err(e) => {
            return Err(ImportError::Header(e));
        },
    };
    let ogc = match m.get_first_value(&ogc_col) {
        Ok(v) => v,
        Err(e) => {
            return Err(e);
        },
    };
    let marc = match m.get_first_value(&marc_col) {
        Ok(v) => v,
        Err(e) => {
            return Err(e);
        },
    };
    let grant_cycle_descriptor = replace_slashes(ogc.as_str());
    let parent_name = parent_dir_name(grant_cycle_descriptor.as_str(), marc.as_str());
    let parent_location = join_path(output_parent, parent_name.as_str());
    let raw_name = raw_dir_name(grant_cycle_descriptor.as_str(), marc.as_str());
    let raw_location = join_path(parent_location.as_str(), raw_name.as_str());
    Ok(
        BatchPlan {
            pit_column_index,
            grant_cycle_descriptor,
            marc,
            parent_location,
            raw_location,
        },
    )
}

/// What the planner decides about a directory that is about to be created.
#[derive(Debug, PartialEq, Eq)]
pub enum DirPreparation {
    /// The path is free and this is a real run: create the directory now.
    CreateNow,
    /// The path is free but this is a dry run: report success, create
    /// nothing.
    SkipCreation,
    /// The path already exists as a directory: the operator must explicitly
    /// elect to continue into it.
    AskToContinue,
}

/// What preparing an output directory must decide from the path's observed
/// state: an existing file is a hard failure, an existing directory needs
/// the operator's confirmation, a free path is created unless the run is
/// dry.
pub open spec fn prepare_directory_result(
    path: Seq<char>,
    exists: bool,
    is_file: bool,
    dry_run: bool,
    r: Result<DirPreparation, ImportError>,
) -> bool {
    if exists && is_file {
        r matches Err(ImportError::ExistsAsFile { path: p }) && p@ == path
    } else if exists {
        r matches Ok(DirPreparation::AskToContinue)
    } else if dry_run {
        r matches Ok(DirPreparation::SkipCreation)
    } else {
        r matches Ok(DirPreparation::CreateNow)
    }
}

/// Decides what to do about one output directory from its observed state.
pub fn prepare_directory(path: &str, exists: bool, is_file: bool, dry_run: bool) -> (r: Result<
    DirPreparation,
    ImportError,
>)
    ensures
        prepare_directory_result(path@, exists, is_file, dry_run, r),
{
    if exists {
        if is_file {
            Err(ImportError::ExistsAsFile { path: String::from_str(path) })
        } else {
            Ok(DirPreparation::AskToContinue)
        }
    } else if dry_run {
        Ok(DirPreparation::SkipCreation)
    } else {
        Ok(DirPreparation::CreateNow)
    }
}

/// Turns the operator's answer to "continue into the existing directory?"
/// into the run's fate: an affirmative answer continues, a negative one is a
/// terminal error naming the path.
pub fn resolve_continue(path: &str, confirmed: bool) -> (r: Result<(), ImportError>)
    ensures
        confirmed ==> r is Ok,
        !confirmed ==> (r matches Err(ImportError::ContinueDeclined { path: p }) && p@ == path@),
{
    if confirmed {
        Ok(())
    } else {
        Err(ImportError::ContinueDeclined { path: String::from_str(path) })
    }
}

/// What the strict creation check must decide: an existing path is the
/// `OutputLocationExists` error, a free path is created unless the run is
/// dry.  `Ok(true)` orders the creation, `Ok(false)` skips it.
pub open spec fn plan_create_directory_result(
    path: Seq<char>,
    exists: bool,
    dry_run: bool,
    r: Result<bool, ImportError>,
) -> bool {
    if exists {
        r matches Err(ImportError::OutputLocationExists { path: p }) && p@ == path
    } else {
        r matches Ok(b) && (b <==> !dry_run)
    }
}

/// Decides whether an output directory may and should be created: a second
/// creation attempt at the same path finds it existing and must fail.
pub fn plan_create_directory(path: &str, exists: bool, dry_run: bool) -> (r: Result<
    bool,
    ImportError,
>)
    ensures
        plan_create_directory_result(path@, exists, dry_run, r),
{
    if exists {
        Err(ImportError::OutputLocationExists { path: String::from_str(path) })
    } else {
        Ok(!dry_run)
    }
}

} // verus!
