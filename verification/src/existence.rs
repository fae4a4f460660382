//! The existence validator's decision: given what a filesystem probe
//! reported about a path, accept it or pick the error to surface.
//!
//! The probe itself touches the filesystem and lives with the caller; it
//! hands over whether the path exists (or why that could not be
//! determined) and whether the path is a regular file.

use vstd::prelude::*;
use crate::errors::ExistenceError;

verus! {

/// Accepts exactly when the probe succeeded, the path exists and it is a
/// regular file. A failed probe outranks a missing path, and a missing
/// path outranks a wrong file type.
pub fn check_file_status(probe: Result<bool, String>, is_file: bool) -> (r: Result<(), ExistenceError>)
    ensures
        match r {
            Ok(()) => probe matches Ok(true) && is_file,
            Err(ExistenceError::ProbeFailed { cause }) => probe matches Err(c) && cause == c,
            Err(ExistenceError::NotFound) => probe matches Ok(false),
            Err(ExistenceError::NotAFile) => probe matches Ok(true) && !is_file,
        },
{
    match probe {
        Err(cause) => Err(ExistenceError::ProbeFailed { cause }),
        Ok(false) => Err(ExistenceError::NotFound),
        Ok(true) => {
            if !is_file {
                Err(ExistenceError::NotAFile)
            } else {
                Ok(())
            }
        },
    }
}

} // verus!
