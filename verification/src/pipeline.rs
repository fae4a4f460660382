//! The pipeline's pure orchestration: the stages that work on in-memory
//! values, wired in their fixed order with fail-fast behaviour.
//!
//! Filesystem work stands between the two halves: after `validate_inputs`
//! accepts the path list, the caller probes each path, reads each file and
//! parses it, and then hands the maps to `validate_contents`.

use vstd::prelude::*;
use crate::errors::{PipelineError, UsageError};
use crate::extension::{all_valid_extensions, check_file_extension};
use crate::validate::{
    check_files_equal, check_key_length, equal_key_sets, some_empty, uniform_cardinality, wf_all,
};
use crate::flat_map::KeyValueMap;

verus! {

/// Accepts exactly when at least two input paths were supplied.
pub fn validate_usage(file_paths: &Vec<String>) -> (r: Result<(), UsageError>)
    ensures
        r is Ok <==> file_paths@.len() >= 2,
{
    if file_paths.len() < 2 {
        Err(UsageError::TooFewFiles)
    } else {
        Ok(())
    }
}

/// The stages before any file is touched: the minimum-count rule, then the
/// extension check. A usage error is reported before any extension is
/// looked at.
pub fn validate_inputs(file_paths: &Vec<String>) -> (r: Result<(), PipelineError>)
    ensures
        match r {
            Ok(()) => file_paths@.len() >= 2 && all_valid_extensions(file_paths@),
            Err(PipelineError::Usage(_)) => file_paths@.len() < 2,
            Err(PipelineError::Extension(_)) => file_paths@.len() >= 2 && !all_valid_extensions(
                file_paths@,
            ),
            Err(_) => false,
        },
{
    match validate_usage(file_paths) {
        Ok(()) => {},
        Err(e) => {
            return Err(PipelineError::Usage(e));
        },
    }
    match check_file_extension(file_paths) {
        Ok(()) => {},
        Err(e) => {
            return Err(PipelineError::Extension(e));
        },
    }
    Ok(())
}

/// The stages after every file is parsed: the entry-count check, then the
/// key-set check. A count error is reported before any key set is
/// compared, so maps of differing counts never reach the key comparison.
pub fn validate_contents(data: Vec<KeyValueMap>) -> (r: Result<(), PipelineError>)
    requires
        wf_all(data@),
    ensures
        match r {
            Ok(()) => data@.len() >= 1 && !some_empty(data@) && uniform_cardinality(data@)
                && equal_key_sets(data@),
            Err(PipelineError::Length(crate::errors::LengthError::NoInput)) => data@.len() == 0,
            Err(PipelineError::Length(crate::errors::LengthError::EmptyFile)) => some_empty(data@),
            Err(PipelineError::Length(crate::errors::LengthError::Mismatch)) => data@.len() >= 1
                && !some_empty(data@) && !uniform_cardinality(data@),
            Err(PipelineError::Equality(crate::errors::EqualityError::KeySetMismatch)) => data@.len()
                >= 1 && !some_empty(data@) && uniform_cardinality(data@) && !equal_key_sets(data@),
            Err(_) => false,
        },
{
    match check_key_length(&data) {
        Ok(()) => {},
        Err(e) => {
            return Err(PipelineError::Length(e));
        },
    }
    match check_files_equal(data) {
        Ok(()) => {},
        Err(e) => {
            return Err(PipelineError::Equality(e));
        },
    }
    Ok(())
}

} // verus!
