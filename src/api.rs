use vstd::prelude::*;

use crate::clock::current_time_millis;
use crate::status::{parse_status, Status};
use crate::store::{read_effect, read_result, upsert_effect, StatusStore};

verus! {

/// Why a request was not served.
#[derive(Debug, Clone, Copy, PartialEq, Eq, Structural)]
pub enum ApiError {
    /// The request body is not a JSON object.
    MalformedBody,
    /// The `status` field is absent or not one of the allowed values.
    InvalidStatus,
    /// A stored status is not one of the allowed values.
    DataCorruption,
    /// The store failed.
    Storage,
}

pub open spec fn http_code_of(e: ApiError) -> u16 {
    match e {
        ApiError::MalformedBody => 400,
        ApiError::InvalidStatus => 422,
        ApiError::DataCorruption => 500,
        ApiError::Storage => 500,
    }
}

impl ApiError {
    /// The HTTP status code that answers this error.
    pub fn http_status(&self) -> (r: u16)
        ensures
            r == http_code_of(*self),
    {
        match self {
            ApiError::MalformedBody => 400,
            ApiError::InvalidStatus => 422,
            ApiError::DataCorruption => 500,
            ApiError::Storage => 500,
        }
    }
}

/// The body of a successful answer: an article and its status.
#[derive(Debug)]
pub struct StatusResponse {
    pub article_id: String,
    pub status: Status,
}

/// The status a write request asks for, from the request's `status` field.
pub open spec fn requested_status(field: Option<Seq<char>>) -> Result<Status, ApiError> {
    match field {
        Some(t) => match parse_status(t) {
            Some(s) => Ok(s),
            None => Err(ApiError::InvalidStatus),
        },
        None => Err(ApiError::InvalidStatus),
    }
}

/// The text of an optional request field.
pub open spec fn field_text(field: Option<&str>) -> Option<Seq<char>> {
    match field {
        Some(t) => Some(t@),
        None => None,
    }
}

/// Validates the `status` field of a write request: absent or unknown values
/// are a client error.
pub fn parse_status_field(field: Option<&str>) -> (r: Result<Status, ApiError>)
    ensures
        r == requested_status(field_text(field)),
{
    match field {
        Some(t) => match Status::from_str(t) {
            Some(s) => Ok(s),
            None => Err(ApiError::InvalidStatus),
        },
        None => Err(ApiError::InvalidStatus),
    }
}

/// Reads a status as stored: text outside the enumeration means the store
/// was tampered with.
pub fn status_from_storage(text: &str) -> (r: Result<Status, ApiError>)
    ensures
        r == (match parse_status(text@) {
            Some(s) => Ok(s),
            None => Err(ApiError::DataCorruption),
        }),
{
    match Status::from_str(text) {
        Some(s) => Ok(s),
        None => Err(ApiError::DataCorruption),
    }
}

/// Serves a read of `article_id` from an in-memory store, creating the
/// default record for an unknown article.
pub fn get_article_status(store: &mut StatusStore, article_id: &str) -> (r: StatusResponse)
    requires
        old(store).wf(),
    ensures
        final(store).wf(),
        exists|now: i64| final(store)@ == read_effect(old(store)@, article_id@, now),
        r.article_id@ == article_id@,
        r.status == read_result(old(store)@, article_id@),
{
    let now = current_time_millis();
    let (status, _created) = store.get_or_create_default(article_id, now);
    StatusResponse { article_id: String::from_str(article_id), status }
}

/// Serves a write of `article_id` to an in-memory store. An absent or unknown
/// status is rejected and leaves the store as it was.
pub fn put_article_status(store: &mut StatusStore, article_id: &str, field: Option<&str>) -> (r:
    Result<StatusResponse, ApiError>)
    requires
        old(store).wf(),
    ensures
        final(store).wf(),
        requested_status(field_text(field)) matches Ok(s) ==> r matches Ok(resp)
            && resp.article_id@ == article_id@ && resp.status == s,
        requested_status(field_text(field)) matches Ok(s) ==> exists|now: i64|
            final(store)@ == upsert_effect(old(store)@, article_id@, s, now),
        requested_status(field_text(field)) matches Err(e) ==> r matches Err(e2) && e2 == e,
        requested_status(field_text(field)) is Err ==> final(store)@ == old(store)@,
{
    match parse_status_field(field) {
        Ok(s) => {
            let now = current_time_millis();
            let written = store.upsert(article_id, s, now);
            assert(store@ == upsert_effect(old(store)@, article_id@, s, now));
            Ok(StatusResponse { article_id: String::from_str(article_id), status: written })
        },
        Err(e) => Err(e),
    }
}

/// What a relational store answered to a lookup of an article's status.
#[derive(Debug)]
pub enum Lookup {
    Found(String),
    Missing,
    Failed,
}

/// What a relational store answered to an insert of the default record that
/// is skipped where the article already has one.
#[derive(Debug, Clone, Copy, PartialEq, Eq, Structural)]
pub enum InsertOutcome {
    Inserted,
    AlreadyPresent,
    Failed,
}

/// The next move of a read served by a relational store: a read looks the
/// article up; if it is missing, inserts the default record unless one
/// appeared meanwhile; if one did, looks it up again.
#[derive(Debug, Clone, Copy, PartialEq, Eq, Structural)]
pub enum ReadStep {
    Reply(Status),
    InsertDefault,
    LookupAgain,
    Fail(ApiError),
}

pub open spec fn lookup_step(found: Lookup, default_tried: bool) -> ReadStep {
    match found {
        Lookup::Found(t) => match parse_status(t@) {
            Some(s) => ReadStep::Reply(s),
            None => ReadStep::Fail(ApiError::DataCorruption),
        },
        Lookup::Missing => if default_tried {
            ReadStep::Fail(ApiError::Storage)
        } else {
            ReadStep::InsertDefault
        },
        Lookup::Failed => ReadStep::Fail(ApiError::Storage),
    }
}

pub open spec fn insert_step(outcome: InsertOutcome) -> ReadStep {
    match outcome {
        InsertOutcome::Inserted => ReadStep::Reply(Status::ToRead),
        InsertOutcome::AlreadyPresent => ReadStep::LookupAgain,
        InsertOutcome::Failed => ReadStep::Fail(ApiError::Storage),
    }
}

/// Decides what a read does after a lookup. `default_tried` tells whether the
/// default record was already offered to the store; an article that is still
/// missing after that points to a failing store, as records are never deleted.
pub fn after_lookup(found: &Lookup, default_tried: bool) -> (r: ReadStep)
    ensures
        r == lookup_step(*found, default_tried),
{
    match found {
        Lookup::Found(t) => match status_from_storage(t.as_str()) {
            Ok(s) => ReadStep::Reply(s),
            Err(e) => ReadStep::Fail(e),
        },
        Lookup::Missing => if default_tried {
            ReadStep::Fail(ApiError::Storage)
        } else {
            ReadStep::InsertDefault
        },
        Lookup::Failed => ReadStep::Fail(ApiError::Storage),
    }
}

/// Decides what a read does after offering the default record: a created
/// record answers `to_read`; where another request created it first, the
/// record that won is looked up and reported.
pub fn after_insert(outcome: InsertOutcome) -> (r: ReadStep)
    ensures
        r == insert_step(outcome),
{
    match outcome {
        InsertOutcome::Inserted => ReadStep::Reply(Status::ToRead),
        InsertOutcome::AlreadyPresent => ReadStep::LookupAgain,
        InsertOutcome::Failed => ReadStep::Fail(ApiError::Storage),
    }
}

} // verus!
