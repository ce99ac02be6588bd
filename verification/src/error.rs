//! What a request is refused with, and what a database lookup comes back with.

use vstd::prelude::*;

verus! {

/// Why a request was refused, with the message the client gets.
#[derive(Debug)]
pub enum AppError {
    BadRequest(String),
    Unauthorized(String),
    Forbidden(String),
    NotFound(String),
    Conflict(String),
    Internal(String),
}

/// The model of an [`AppError`].
pub enum Refusal {
    BadRequest(Seq<char>),
    Unauthorized(Seq<char>),
    Forbidden(Seq<char>),
    NotFound(Seq<char>),
    Conflict(Seq<char>),
    Internal(Seq<char>),
}

impl View for AppError {
    type V = Refusal;

    open spec fn view(&self) -> Refusal {
        match self {
            AppError::BadRequest(m) => Refusal::BadRequest(m@),
            AppError::Unauthorized(m) => Refusal::Unauthorized(m@),
            AppError::Forbidden(m) => Refusal::Forbidden(m@),
            AppError::NotFound(m) => Refusal::NotFound(m@),
            AppError::Conflict(m) => Refusal::Conflict(m@),
            AppError::Internal(m) => Refusal::Internal(m@),
        }
    }
}

impl AppError {
    /// The same refusal again.
    pub fn copied(&self) -> (res: AppError)
        ensures
            res@ == self@,
    {
        match self {
            AppError::BadRequest(m) => AppError::BadRequest(m.clone()),
            AppError::Unauthorized(m) => AppError::Unauthorized(m.clone()),
            AppError::Forbidden(m) => AppError::Forbidden(m.clone()),
            AppError::NotFound(m) => AppError::NotFound(m.clone()),
            AppError::Conflict(m) => AppError::Conflict(m.clone()),
            AppError::Internal(m) => AppError::Internal(m.clone()),
        }
    }
}

/// A result with its message taken by its characters.
pub open spec fn with_message<T>(r: Result<T, String>) -> Result<T, Seq<char>> {
    match r {
        Ok(v) => Ok(v),
        Err(e) => Err(e@),
    }
}

/// A malformed request.
pub fn bad_request(message: &str) -> (res: AppError)
    ensures
        res@ == Refusal::BadRequest(message@),
{
    AppError::BadRequest(message.to_owned())
}

/// A request without valid credentials.
pub fn unauthorized(message: &str) -> (res: AppError)
    ensures
        res@ == Refusal::Unauthorized(message@),
{
    AppError::Unauthorized(message.to_owned())
}

/// A request that the caller may not make.
pub fn forbidden(message: &str) -> (res: AppError)
    ensures
        res@ == Refusal::Forbidden(message@),
{
    AppError::Forbidden(message.to_owned())
}

/// A request for something that is not there.
pub fn not_found(message: &str) -> (res: AppError)
    ensures
        res@ == Refusal::NotFound(message@),
{
    AppError::NotFound(message.to_owned())
}

/// A request that clashes with what is there.
pub fn conflict(message: &str) -> (res: AppError)
    ensures
        res@ == Refusal::Conflict(message@),
{
    AppError::Conflict(message.to_owned())
}

/// The outcome of looking one row up.
pub enum Lookup<T> {
    /// The row was there.
    Found(T),
    /// There was no such row.
    Missing,
    /// The database could not answer, for the reason given.
    Failed(String),
}

/// The model of "the count is positive, and no row counts as zero": what a
/// `SELECT COUNT(*)` says about existence.
pub open spec fn counted(l: Lookup<i64>) -> Result<bool, Refusal> {
    match l {
        Lookup::Found(n) => Ok(n > 0),
        Lookup::Missing => Ok(false),
        Lookup::Failed(e) => Err(Refusal::Internal(e@)),
    }
}

/// Whether a `SELECT COUNT(*)` counted anything. A failed query refuses the
/// request.
pub fn any_counted(l: &Lookup<i64>) -> (res: Result<bool, AppError>)
    ensures
        shown(res) == counted(*l),
{
    match l {
        Lookup::Found(n) => Ok(*n > 0),
        Lookup::Missing => Ok(false),
        Lookup::Failed(e) => Err(AppError::Internal(e.clone())),
    }
}

/// A result with its refusal taken by its model.
pub open spec fn shown<T>(r: Result<T, AppError>) -> Result<T, Refusal> {
    match r {
        Ok(v) => Ok(v),
        Err(e) => Err(e@),
    }
}

/// A count that was made and is positive.
pub open spec fn some_found(l: Lookup<i64>) -> bool {
    l matches Lookup::Found(n) && n > 0
}

/// A count that was made and is not positive; no row counts as zero.
pub open spec fn none_found(l: Lookup<i64>) -> bool {
    match l {
        Lookup::Found(n) => n <= 0,
        Lookup::Missing => true,
        Lookup::Failed(_) => false,
    }
}

} // verus!
