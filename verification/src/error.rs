//! The errors that a request is answered with.

use vstd::prelude::*;
use crate::text::{decimal, int_text, joined};

verus! {

/// The three classes of failure, each answered with its own status.
#[derive(Debug, Clone, Copy, PartialEq, Eq)]
pub enum ErrorKind {
    BadRequest,
    NotFound,
    Internal,
}

/// A failed request: its class and the message shown to the client.
#[derive(Debug, Clone, PartialEq)]
pub enum AppError {
    BadRequest(String),
    NotFound(String),
    Internal(String),
}

impl View for AppError {
    type V = (ErrorKind, Seq<char>);

    open spec fn view(&self) -> (ErrorKind, Seq<char>) {
        match self {
            AppError::BadRequest(m) => (ErrorKind::BadRequest, m@),
            AppError::NotFound(m) => (ErrorKind::NotFound, m@),
            AppError::Internal(m) => (ErrorKind::Internal, m@),
        }
    }
}

/// The HTTP status of each class of failure.
pub open spec fn status_of(kind: ErrorKind) -> u16 {
    match kind {
        ErrorKind::BadRequest => 400,
        ErrorKind::NotFound => 404,
        ErrorKind::Internal => 500,
    }
}

impl AppError {
    /// The HTTP status the failure is answered with.
    pub fn status(&self) -> (res: u16)
        ensures
            res == status_of(self@.0),
    {
        match self {
            AppError::BadRequest(_) => 400,
            AppError::NotFound(_) => 404,
            AppError::Internal(_) => 500,
        }
    }

    /// The message shown to the client.
    pub fn message(&self) -> (res: String)
        ensures
            res@ == self@.1,
    {
        match self {
            AppError::BadRequest(m) => m.clone(),
            AppError::NotFound(m) => m.clone(),
            AppError::Internal(m) => m.clone(),
        }
    }
}

/// The two kinds of record that requests address.
#[derive(Debug, Clone, Copy, PartialEq, Eq)]
pub enum Resource {
    Author,
    Book,
}

/// The name a resource goes by in messages.
pub open spec fn resource_name(r: Resource) -> Seq<char> {
    match r {
        Resource::Author => "Author"@,
        Resource::Book => "Book"@,
    }
}

/// "`Resource` with id `id` not found".
pub open spec fn missing_message(r: Resource, id: int) -> Seq<char> {
    resource_name(r) + " with id "@ + decimal(id) + " not found"@
}

/// The message for a record that does not exist.
pub fn missing_text(r: Resource, id: i64) -> (res: String)
    ensures
        res@ == missing_message(r, id as int),
{
    let head = match r {
        Resource::Author => joined("Author", " with id "),
        Resource::Book => joined("Book", " with id "),
    };
    let num = int_text(id);
    let s = head.concat(num.as_str());
    s.concat(" not found")
}

/// The answer for a record that does not exist.
pub fn not_found(r: Resource, id: i64) -> (res: AppError)
    ensures
        res@ == (ErrorKind::NotFound, missing_message(r, id as int)),
{
    AppError::NotFound(missing_text(r, id))
}

/// A failure that the database reported.
#[derive(Debug, Clone, PartialEq)]
pub struct DbFailure {
    /// The database's own message, when the failure came from the database
    /// itself rather than from the connection or the driver.
    pub database_message: Option<String>,
    /// A description of the failure.
    pub description: String,
}

/// Any database failure not handled otherwise is an internal error.
pub fn database_error(f: DbFailure) -> (res: AppError)
    ensures
        res@ == (ErrorKind::Internal, f.description@),
{
    AppError::Internal(f.description)
}


/// Whether `res` is the failure of class `kind` with message `msg`.
pub open spec fn fails_with<T>(res: Result<T, AppError>, kind: ErrorKind, msg: Seq<char>) -> bool {
    res matches Err(e) && e@ == (kind, msg)
}

} // verus!

verus! {

/// The three classes of failure answer with 400, 404 and 500, and a record
/// that does not exist is named with its kind and id.
pub proof fn lemma_error_answers(r: Resource, id: int)
    ensures
        status_of(ErrorKind::BadRequest) == 400,
        status_of(ErrorKind::NotFound) == 404,
        status_of(ErrorKind::Internal) == 500,
        r == Resource::Author ==> missing_message(r, id) == "Author"@ + " with id "@ + decimal(id)
            + " not found"@,
        r == Resource::Book ==> missing_message(r, id) == "Book"@ + " with id "@ + decimal(id)
            + " not found"@,
{
}

/// `fails_with` holds of a failure exactly when its class and message are
/// the ones named, and never of a success.
pub proof fn lemma_fails_with_meaning<T>(res: Result<T, AppError>, kind: ErrorKind, msg: Seq<char>)
    ensures
        res is Ok ==> !fails_with(res, kind, msg),
        res matches Err(e) ==> (fails_with(res, kind, msg) <==> e@.0 == kind && e@.1 == msg),
{
}

} // verus!
