//! What the store reports: the error of an insert and the classification of
//! a lookup, each as a function of the map's status code.

use vstd::prelude::*;

use crate::ct::{cmov_u32, ct_eq_u32};
use crate::engine::{OMAP_FOUND, OMAP_INVALID_KEY, OMAP_NOT_FOUND, OMAP_OVERFLOW};

verus! {

/// Why a record could not be added.
#[derive(Clone, Copy, Debug, PartialEq, Eq, Structural)]
pub enum AddRecordsError {
    /// The key was rejected by the map, or the map had no room left for it.
    KeyWrongSize,
}

/// Classification that accompanies every lookup.
#[derive(Clone, Copy, Debug, PartialEq, Eq, Structural)]
pub enum KeyImageResultCode {
    /// A record is stored under the key image.
    NotSpent,
    /// No record is stored under the key image, or the key image is malformed.
    KeyImageError,
}

/// Number that stands for `NotSpent` while a classification is being selected.
const NOT_SPENT: u32 = 2;

/// Number that stands for `KeyImageError` while a classification is being selected.
const KEY_IMAGE_ERROR: u32 = 3;

/// Whether `code` is one of the three status codes that a read can give.
pub open spec fn is_read_code(code: u32) -> bool {
    code == OMAP_FOUND || code == OMAP_NOT_FOUND || code == OMAP_INVALID_KEY
}

/// Whether `code` is one of the four status codes that a write can give.
pub open spec fn is_write_code(code: u32) -> bool {
    code == OMAP_FOUND || code == OMAP_NOT_FOUND || code == OMAP_INVALID_KEY || code
        == OMAP_OVERFLOW
}

/// What an insert reports for a status code of the map: a rejected key and a
/// full table are the same error, and both a fresh insert and an overwrite
/// succeed.
pub open spec fn write_result(code: u32) -> Result<(), AddRecordsError> {
    if code == OMAP_INVALID_KEY || code == OMAP_OVERFLOW {
        Err(AddRecordsError::KeyWrongSize)
    } else {
        Ok(())
    }
}

/// How a lookup is classified for a status code of the map: only a found key
/// is `NotSpent`.
pub open spec fn read_classification(code: u32) -> KeyImageResultCode {
    if code == OMAP_FOUND {
        KeyImageResultCode::NotSpent
    } else {
        KeyImageResultCode::KeyImageError
    }
}

/// Turns the status code of a write into the result of the insert.
pub fn write_outcome(code: u32) -> (result: Result<(), AddRecordsError>)
    requires
        is_write_code(code),
    ensures
        result == write_result(code),
{
    if code == OMAP_INVALID_KEY {
        Err(AddRecordsError::KeyWrongSize)
    } else if code == OMAP_OVERFLOW {
        Err(AddRecordsError::KeyWrongSize)
    } else {
        Ok(())
    }
}

/// Classifies the status code of a read. The classification is selected by
/// constant-time comparisons and conditional moves: no branch is taken on
/// `code`, and the same three moves run for every code.
pub fn classify_read(code: u32) -> (classification: KeyImageResultCode)
    ensures
        classification == read_classification(code),
{
    let mut selected: u32 = KEY_IMAGE_ERROR;
    cmov_u32(&mut selected, ct_eq_u32(code, OMAP_FOUND), NOT_SPENT);
    cmov_u32(&mut selected, ct_eq_u32(code, OMAP_NOT_FOUND), KEY_IMAGE_ERROR);
    cmov_u32(&mut selected, ct_eq_u32(code, OMAP_INVALID_KEY), KEY_IMAGE_ERROR);
    if selected == NOT_SPENT {
        KeyImageResultCode::NotSpent
    } else {
        KeyImageResultCode::KeyImageError
    }
}

} // verus!
