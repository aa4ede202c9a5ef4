//! Planning the atomic write that mirrors the value to its file.
//!
//! The write itself is the caller's: a [`WriteRequest`] says which directory has
//! to exist, which file is replaced in one step, and with which bytes.

use crate::adapter::EncodeError;
use crate::error::ConfigError;
use std::path::PathBuf;
use vstd::prelude::*;

verus! {

/// One atomic write for the caller to perform: create `dir` and what is missing
/// above it, then replace `path` by a file that holds exactly `bytes`, so that
/// no reader ever sees part of them.
#[derive(Debug)]
pub struct WriteRequest {
    pub dir: PathBuf,
    pub path: PathBuf,
    pub bytes: Vec<u8>,
}

/// The write that persists `encoded` at `path`, whose parent directory is
/// `parent`: a value that could not be encoded is reported first, then a path
/// without a parent directory.
pub open spec fn write_plan(
    path: PathBuf,
    parent: Option<PathBuf>,
    encoded: Result<Vec<u8>, EncodeError>,
) -> Result<WriteRequest, ConfigError> {
    match encoded {
        Err(_) => Err(ConfigError::Encode),
        Ok(bytes) => match parent {
            None => Err(ConfigError::Path),
            Some(dir) => Ok(WriteRequest { dir, path, bytes }),
        },
    }
}

/// What a fire-and-log caller gets back of a plan: the write to perform, if
/// there is one, and still the error of a path without a parent directory.
pub open spec fn surfaced(plan: Result<WriteRequest, ConfigError>) -> Result<Option<WriteRequest>, ConfigError> {
    match plan {
        Ok(request) => Ok(Some(request)),
        Err(ConfigError::Path) => Err(ConfigError::Path),
        Err(_) => Ok(None),
    }
}

/// The error of a plan that a fire-and-log caller does not get back.
pub open spec fn swallowed(plan: Result<WriteRequest, ConfigError>) -> Option<ConfigError> {
    match plan {
        Ok(_) => None,
        Err(ConfigError::Path) => None,
        Err(e) => Some(e),
    }
}

/// Plans the write of `encoded` to `path`, given the parent directory of `path`.
pub fn plan_write(
    path: &PathBuf,
    parent: Option<PathBuf>,
    encoded: Result<Vec<u8>, EncodeError>,
) -> (r: Result<WriteRequest, ConfigError>)
    ensures
        r == write_plan(*path, parent, encoded),
{
    match encoded {
        Err(_) => Err(ConfigError::Encode),
        Ok(bytes) => match parent {
            None => Err(ConfigError::Path),
            Some(dir) => Ok(WriteRequest { dir, path: path.clone(), bytes }),
        },
    }
}

/// Splits a plan for a fire-and-log caller: what it gets back, and the error
/// that is only reported.
pub fn split_plan(plan: Result<WriteRequest, ConfigError>) -> (r: (
    Result<Option<WriteRequest>, ConfigError>,
    Option<ConfigError>,
))
    ensures
        r.0 == surfaced(plan),
        r.1 == swallowed(plan),
{
    match plan {
        Ok(request) => (Ok(Some(request)), None),
        Err(ConfigError::Path) => (Err(ConfigError::Path), None),
        Err(e) => (Ok(None), Some(e)),
    }
}

} // verus!
