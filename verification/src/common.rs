//! Shapes shared by every component: the error, the paging request and the
//! paged answer.

use vstd::prelude::*;

verus! {

/// What went wrong, as callers tell failures apart.
#[derive(Clone, Copy, Debug, PartialEq, Eq, Structural)]
pub enum ErrorKind {
    /// No record matches the key.
    NotFound,
    /// A record with the same id or email is already stored.
    Conflict,
    /// No connection to the store could be had.
    ConnectionFailure,
    /// The store refused or failed the operation.
    StoreFailure,
    /// A token did not pass validation.
    AuthFailure,
    /// The service itself failed.
    InternalFailure,
}

impl ErrorKind {
    /// The classification code that an error of this kind carries.
    pub open spec fn spec_code(self) -> u32 {
        match self {
            ErrorKind::NotFound => 404,
            ErrorKind::Conflict => 409,
            ErrorKind::AuthFailure => 403,
            ErrorKind::ConnectionFailure => 500,
            ErrorKind::StoreFailure => 500,
            ErrorKind::InternalFailure => 500,
        }
    }

    #[verifier::when_used_as_spec(spec_code)]
    pub fn code(self) -> (c: u32)
        ensures
            c == self.spec_code(),
    {
        match self {
            ErrorKind::NotFound => 404,
            ErrorKind::Conflict => 409,
            ErrorKind::AuthFailure => 403,
            ErrorKind::ConnectionFailure => 500,
            ErrorKind::StoreFailure => 500,
            ErrorKind::InternalFailure => 500,
        }
    }
}

/// The one error shape of the library: a message for people and a
/// classification code for callers.
#[derive(Debug, PartialEq, Eq)]
pub struct CommonError {
    pub message: String,
    pub code: u32,
}

impl CommonError {
    /// An error of the given kind.
    pub fn new(kind: ErrorKind, message: String) -> (e: CommonError)
        ensures
            e.code == kind.code(),
            e.message == message,
    {
        CommonError { message, code: kind.code() }
    }
}

impl Clone for CommonError {
    fn clone(&self) -> (copy: CommonError)
        ensures
            copy == *self,
    {
        CommonError { message: self.message.clone(), code: self.code }
    }
}

/// What a repository operation returns.
pub type RepoResult<T> = Result<T, CommonError>;

/// Whether an error reports that the store or the connection to it failed,
/// which may happen to any operation at any time.
pub open spec fn is_store_fault(e: CommonError) -> bool {
    e.code == 500
}

/// What a listing is asked for: how many records at most, and how many to
/// skip first.
pub trait QueryParams {
    /// The limit, as contracts speak of it.
    spec fn spec_limit(&self) -> i64;

    /// The offset, as contracts speak of it.
    spec fn spec_offset(&self) -> i64;

    /// How many records the listing may return.
    fn limit(&self) -> (l: i64)
        ensures
            l == self.spec_limit(),
    ;

    /// How many records the listing skips first.
    fn offset(&self) -> (o: i64)
        ensures
            o == self.spec_offset(),
    ;
}

/// A listing request given by its two numbers.
#[derive(Clone, Copy, Debug, PartialEq, Eq)]
pub struct PageQuery {
    pub limit: i64,
    pub offset: i64,
}

impl QueryParams for PageQuery {
    open spec fn spec_limit(&self) -> i64 {
        self.limit
    }

    open spec fn spec_offset(&self) -> i64 {
        self.offset
    }

    fn limit(&self) -> (l: i64) {
        self.limit
    }

    fn offset(&self) -> (o: i64) {
        self.offset
    }
}

/// One page of a listing, with the number of all records that the listing
/// ranges over.
#[derive(Debug)]
pub struct ResultPaging<T> {
    pub total: i64,
    pub items: Vec<T>,
}

impl<T> ResultPaging<T> {
    /// The page holds no more than was asked for, and no more than there is.
    pub open spec fn fits(&self, limit: i64) -> bool {
        &&& self.items@.len() <= limit
        &&& self.items@.len() <= self.total
    }
}

} // verus!
