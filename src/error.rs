//! Store failures and their classification into the ledger's error kinds.
use vstd::prelude::*;
use vstd::string::*;
use crate::status::{decode_view, unknown_message, JobStatus, StatusView};

verus! {

/// The failure categories that the store client reports.
#[derive(PartialEq, Eq, Structural, Clone, Copy, Debug)]
pub enum StoreErrorKind {
    /// The store refused the credentials.
    AuthenticationFailed,
    /// The reply could not be read as the expected type (a missing key included).
    TypeError,
    /// The connection failed (network or protocol).
    IoError,
    /// Any other failure.
    Other,
}

/// A failure reported by the store client, with its detail text.
#[derive(Debug)]
pub struct StoreError {
    pub kind: StoreErrorKind,
    pub detail: String,
}

/// The error of a failed ledger operation.
#[derive(Debug)]
pub enum MyRedisError {
    /// The store refused the credentials.
    Auth(StoreError),
    /// The stored value is missing or is no status.
    IncompatibleType(StoreError),
    /// The connection to the store failed.
    Transport(StoreError),
    /// Any other failure, kept with its cause.
    Other(StoreError),
}

/// The kind of ledger error that a store failure falls under.
pub open spec fn classify(e: StoreError) -> MyRedisError {
    match e.kind {
        StoreErrorKind::AuthenticationFailed => MyRedisError::Auth(e),
        StoreErrorKind::TypeError => MyRedisError::IncompatibleType(e),
        StoreErrorKind::IoError => MyRedisError::Transport(e),
        StoreErrorKind::Other => MyRedisError::Other(e),
    }
}

impl From<StoreError> for MyRedisError {
    fn from(e: StoreError) -> (r: MyRedisError)
        ensures
            r == classify(e),
    {
        match e.kind {
            StoreErrorKind::AuthenticationFailed => MyRedisError::Auth(e),
            StoreErrorKind::TypeError => MyRedisError::IncompatibleType(e),
            StoreErrorKind::IoError => MyRedisError::Transport(e),
            StoreErrorKind::Other => MyRedisError::Other(e),
        }
    }
}

impl vstd::std_specs::convert::FromSpecImpl<StoreError> for MyRedisError {
    open spec fn obeys_from_spec() -> bool {
        true
    }

    open spec fn from_spec(e: StoreError) -> MyRedisError {
        classify(e)
    }
}

/// A stored text that is no status: a type error carrying the decode message,
/// so that it is classified as `IncompatibleType`.
pub fn to_redis_error(e: String) -> (r: StoreError)
    ensures
        r.kind == StoreErrorKind::TypeError,
        r.detail@ == e@,
{
    StoreError { kind: StoreErrorKind::TypeError, detail: e }
}

/// The texts inside an optional reply.
pub open spec fn text_of(v: Option<String>) -> Option<Seq<char>> {
    match v {
        Some(s) => Some(s@),
        None => None,
    }
}

/// `r` is what a read of the stored text `stored` yields: its status when
/// it decodes, else an `IncompatibleType` error (a missing key included).
pub open spec fn reads_as(r: Result<JobStatus, MyRedisError>, stored: Option<Seq<char>>) -> bool {
    match r {
        Ok(v) => stored is Some && decode_view(stored->0) == Some(v@),
        Err(e) => e is IncompatibleType && (stored is None || decode_view(stored->0) is None),
    }
}

impl JobStatus {
    /// Reads the reply of a store command as a status; an absent value is a type error.
    pub fn from_redis_value(reply: Option<String>) -> (r: Result<JobStatus, StoreError>)
        ensures
            match r {
                Ok(v) => reply is Some && decode_view(reply->0@) == Some(v@),
                Err(e) => e.kind == StoreErrorKind::TypeError && match reply {
                    Some(s) => decode_view(s@) is None && e.detail@ == unknown_message(s@),
                    None => true,
                },
            },
    {
        match reply {
            None => Err(
                StoreError {
                    kind: StoreErrorKind::TypeError,
                    detail: String::from_str("no value stored under the key"),
                },
            ),
            Some(s) => match JobStatus::decode(s.as_str()) {
                Ok(v) => Ok(v),
                Err(e) => Err(to_redis_error(e.message)),
            },
        }
    }
}

/// The outcome of a ledger operation from the store's reply: a failed round
/// trip is classified, a value is read as a status.
pub fn reply_status(reply: Result<Option<String>, StoreError>) -> (r: Result<JobStatus, MyRedisError>)
    ensures
        match reply {
            Err(e) => r == Err::<JobStatus, MyRedisError>(classify(e)),
            Ok(v) => reads_as(r, text_of(v)),
        },
{
    match reply {
        Err(e) => Err(MyRedisError::from(e)),
        Ok(v) => match JobStatus::from_redis_value(v) {
            Ok(s) => Ok(s),
            Err(e) => Err(MyRedisError::from(e)),
        },
    }
}

} // verus!
