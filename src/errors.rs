use vstd::prelude::*;

use crate::client::BackendError;
use crate::json::JsonValue;
use crate::sequence::OEISSequence;

verus! {

/// The two kinds of error that a caller of the service sees.
#[derive(Clone, Copy, Debug, PartialEq, Eq, Structural)]
pub enum ErrorCode {
    /// The caller's key matched nothing, or its resource URI is malformed.
    InvalidParams,
    /// The backend failed.
    InternalError,
}

/// An error as the service reports it: its kind, a message, and data that
/// names what was refused, where there is any.
#[derive(Debug, PartialEq)]
pub struct ServiceError {
    pub code: ErrorCode,
    pub message: String,
    pub data: Option<JsonValue>,
}

/// The message for an id that matches no record.
pub open spec fn not_found_message(id: Seq<char>) -> Seq<char> {
    "No sequence found (by id: "@ + id + ")"@
}

/// Whether `r` is an error of kind `code` with message `message`.
pub open spec fn is_error<T>(r: Result<T, ServiceError>, code: ErrorCode, message: Seq<char>) -> bool {
    r is Err && r->Err_0.code == code && r->Err_0.message@ == message
}

/// What a lookup of `id` gives, the backend having answered `outcome`: the
/// record itself; invalid-parameters where there is none; an internal error
/// with the backend's message where the backend failed.
pub open spec fn lookup_result(
    id: Seq<char>,
    outcome: Result<Option<OEISSequence>, BackendError>,
    r: Result<OEISSequence, ServiceError>,
) -> bool {
    match outcome {
        Err(e) => is_error(r, ErrorCode::InternalError, e.message@),
        Ok(None) => is_error(r, ErrorCode::InvalidParams, not_found_message(id)),
        Ok(Some(s)) => r is Ok && r->Ok_0@ == s@,
    }
}

/// What a search gives, the backend having answered `outcome`: the records as
/// they came, the empty list included; an internal error where the backend failed.
pub open spec fn search_result(
    outcome: Result<Vec<OEISSequence>, BackendError>,
    r: Result<Vec<OEISSequence>, ServiceError>,
) -> bool {
    match outcome {
        Err(e) => is_error(r, ErrorCode::InternalError, e.message@),
        Ok(v) => r is Ok && r->Ok_0 == v,
    }
}

impl ServiceError {
    /// The error for an id that matches no record.
    pub fn not_found(id: &str) -> (r: ServiceError)
        ensures
            r.code == ErrorCode::InvalidParams,
            r.message@ == not_found_message(id@),
            r.data is None,
    {
        let mut message = String::from_str("No sequence found (by id: ");
        message.append(id);
        message.append(")");
        ServiceError { code: ErrorCode::InvalidParams, message, data: None }
    }

    /// The error for a failure of the backend, with its message.
    pub fn internal(e: BackendError) -> (r: ServiceError)
        ensures
            r.code == ErrorCode::InternalError,
            r.message@ == e.message@,
            r.data is None,
    {
        ServiceError { code: ErrorCode::InternalError, message: e.message, data: None }
    }
}

/// The result of a lookup of `id`, the backend having answered `outcome`.
pub fn resolve_lookup(id: &str, outcome: Result<Option<OEISSequence>, BackendError>) -> (r: Result<
    OEISSequence,
    ServiceError,
>)
    ensures
        lookup_result(id@, outcome, r),
{
    match outcome {
        Ok(Some(s)) => Ok(s),
        Ok(None) => Err(ServiceError::not_found(id)),
        Err(e) => Err(ServiceError::internal(e)),
    }
}

/// The result of a search, the backend having answered `outcome`.
pub fn resolve_search(outcome: Result<Vec<OEISSequence>, BackendError>) -> (r: Result<
    Vec<OEISSequence>,
    ServiceError,
>)
    ensures
        search_result(outcome, r),
{
    match outcome {
        Ok(v) => Ok(v),
        Err(e) => Err(ServiceError::internal(e)),
    }
}

} // verus!
