//! What each request handler answers: the status code for every result of
//! the directory store and of skill validation.
use vstd::prelude::*;
use crate::model::{Person, ValidationError};
use crate::store::StoreErrorKind;

verus! {

pub const STATUS_OK: u16 = 200;

pub const STATUS_BAD_REQUEST: u16 = 400;

pub const STATUS_NOT_FOUND: u16 = 404;

pub const STATUS_INTERNAL_ERROR: u16 = 500;

pub const STATUS_UNAVAILABLE: u16 = 503;

pub const STATUS_GATEWAY_TIMEOUT: u16 = 504;

/// Why a skill submission failed: the skills were rejected before the store
/// was asked, or the store could not apply them.
#[derive(Clone, Debug)]
pub enum SubmitError {
    Invalid(ValidationError),
    Store(StoreErrorKind),
}

pub open spec fn store_error_status_of(k: StoreErrorKind) -> u16 {
    match k {
        StoreErrorKind::NotFound => STATUS_NOT_FOUND,
        StoreErrorKind::Decode => STATUS_INTERNAL_ERROR,
        StoreErrorKind::Unavailable => STATUS_UNAVAILABLE,
        StoreErrorKind::Timeout => STATUS_GATEWAY_TIMEOUT,
    }
}

pub open spec fn people_status_of(r: Result<Vec<Person>, StoreErrorKind>) -> u16 {
    match r {
        Ok(_) => STATUS_OK,
        Err(k) => store_error_status_of(k),
    }
}

pub open spec fn submit_status_of(r: Result<Person, SubmitError>) -> u16 {
    match r {
        Ok(_) => STATUS_OK,
        Err(SubmitError::Invalid(_)) => STATUS_BAD_REQUEST,
        Err(SubmitError::Store(k)) => store_error_status_of(k),
    }
}

/// The status code that answers a failed store operation.
pub fn store_error_status(k: StoreErrorKind) -> (r: u16)
    ensures
        r == store_error_status_of(k),
{
    match k {
        StoreErrorKind::NotFound => STATUS_NOT_FOUND,
        StoreErrorKind::Decode => STATUS_INTERNAL_ERROR,
        StoreErrorKind::Unavailable => STATUS_UNAVAILABLE,
        StoreErrorKind::Timeout => STATUS_GATEWAY_TIMEOUT,
    }
}

/// The status code of a listing of people.
pub fn people_status(r: &Result<Vec<Person>, StoreErrorKind>) -> (s: u16)
    ensures
        s == people_status_of(*r),
{
    match r {
        Ok(_) => STATUS_OK,
        Err(k) => store_error_status(*k),
    }
}

/// The status code of a skill submission.
pub fn submit_status(r: &Result<Person, SubmitError>) -> (s: u16)
    ensures
        s == submit_status_of(*r),
{
    match r {
        Ok(_) => STATUS_OK,
        Err(SubmitError::Invalid(_)) => STATUS_BAD_REQUEST,
        Err(SubmitError::Store(k)) => store_error_status(*k),
    }
}

} // verus!
