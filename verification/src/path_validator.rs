//! Deciding whether a path's observed state (does it exist, is it a
//! directory) meets an expectation.  The observation itself is made by the
//! surrounding program; the decision and its diagnostics are verified here.

use vstd::prelude::*;
use vstd::string::StringExecFns;

verus! {

/// Whether an existing path is expected to be a directory.
#[derive(Debug, PartialEq, Eq, Clone, Copy)]
pub enum DirectoryStatus {
    IsNotDirectory,
    IsDirectory,
}

/// The expectation a path is validated against.
#[derive(Debug, PartialEq, Eq, Clone, Copy)]
pub enum PathValidationOptions {
    DoesNotExist,
    Exists(DirectoryStatus),
}

/// A path whose observed state does not meet the expectation.
#[derive(Debug, PartialEq, Eq)]
pub enum PathCheckError {
    NotFoundButExpected { path: String },
    ShouldNotExist { path: String },
    ShouldBeDirectory { path: String },
    ShouldNotBeDirectory { path: String },
}

/// What `PathCheckError::message` renders; the path is quoted the way the
/// diagnostics print paths.
pub open spec fn path_check_error_message(e: PathCheckError) -> Seq<char> {
    match e {
        PathCheckError::NotFoundButExpected { path } => "\""@ + path@
            + "\" could not be found, but is expected to exist."@,
        PathCheckError::ShouldNotExist { path } => "\""@ + path@
            + "\" should not already exist, but does."@,
        PathCheckError::ShouldBeDirectory { path } => "\""@ + path@
            + "\" should be a directory, but is not."@,
        PathCheckError::ShouldNotBeDirectory { path } => "\""@ + path@
            + "\" should not be a directory, but it is."@,
    }
}

impl PathCheckError {
    /// The human-readable description of this validation failure.
    pub fn message(&self) -> (r: String)
        ensures
            r@ == path_check_error_message(*self),
    {
        let mut s = String::from_str("\"");
        match self {
            PathCheckError::NotFoundButExpected { path } => {
                s.append(path.as_str());
                s.append("\" could not be found, but is expected to exist.");
            },
            PathCheckError::ShouldNotExist { path } => {
                s.append(path.as_str());
                s.append("\" should not already exist, but does.");
            },
            PathCheckError::ShouldBeDirectory { path } => {
                s.append(path.as_str());
                s.append("\" should be a directory, but is not.");
            },
            PathCheckError::ShouldNotBeDirectory { path } => {
                s.append(path.as_str());
                s.append("\" should not be a directory, but it is.");
            },
        }
        s
    }
}

/// The observed state of a path, as reported by the filesystem.
#[derive(Debug, PartialEq, Eq)]
pub struct PathStatus {
    pub path: String,
    pub exists: bool,
    pub is_dir: bool,
}

/// What validating an observed path state against an expectation must
/// return, case by case.
pub open spec fn path_validation_result(
    status: PathStatus,
    options: PathValidationOptions,
    r: Result<(), PathCheckError>,
) -> bool {
    match options {
        PathValidationOptions::DoesNotExist => {
            if status.exists {
                r matches Err(e) && e == (PathCheckError::ShouldNotExist { path: status.path })
            } else {
                r is Ok
            }
        },
        PathValidationOptions::Exists(ds) => {
            if !status.exists {
                r matches Err(e) && e == (PathCheckError::NotFoundButExpected {
                    path: status.path,
                })
            } else {
                match ds {
                    DirectoryStatus::IsDirectory => {
                        if status.is_dir {
                            r is Ok
                        } else {
                            r matches Err(e) && e == (PathCheckError::ShouldBeDirectory {
                                path: status.path,
                            })
                        }
                    },
                    DirectoryStatus::IsNotDirectory => {
                        if status.is_dir {
                            r matches Err(e) && e == (PathCheckError::ShouldNotBeDirectory {
                                path: status.path,
                            })
                        } else {
                            r is Ok
                        }
                    },
                }
            }
        },
    }
}

/// Anything that stands for an observed path state and can be validated
/// against an expectation.
pub trait PathValidator {
    /// The observed state the validation runs over.
    spec fn observed(&self) -> PathStatus;

    /// Validates the observed path state against the expectation.
    fn validate_path(self, options: PathValidationOptions) -> (r: Result<(), PathCheckError>)
        ensures
            path_validation_result(self.observed(), options, r),
    ;
}

impl PathValidator for PathStatus {
    open spec fn observed(&self) -> PathStatus {
        *self
    }

    fn validate_path(self, options: PathValidationOptions) -> (r: Result<(), PathCheckError>) {
        match (options, self.exists) {
            (PathValidationOptions::Exists(_), false) => Err(
                PathCheckError::NotFoundButExpected { path: self.path },
            ),
            (PathValidationOptions::DoesNotExist, true) => Err(
                PathCheckError::ShouldNotExist { path: self.path },
            ),
            (PathValidationOptions::Exists(ds), true) => {
                match (ds, self.is_dir) {
                    (DirectoryStatus::IsNotDirectory, false) => Ok(()),
                    (DirectoryStatus::IsDirectory, true) => Ok(()),
                    (DirectoryStatus::IsDirectory, false) => Err(
                        PathCheckError::ShouldBeDirectory { path: self.path },
                    ),
                    (DirectoryStatus::IsNotDirectory, true) => Err(
                        PathCheckError::ShouldNotBeDirectory { path: self.path },
                    ),
                }
            },
            (PathValidationOptions::DoesNotExist, false) => Ok(()),
        }
    }
}

} // verus!
