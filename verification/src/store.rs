//! What a store reports of an operation, and how a repository that keeps
//! its rows in such a store classifies it.
//!
//! The code that talks to the store hands its outcomes over as plain values;
//! what is returned to the repository's caller is decided here.

use vstd::prelude::*;

use crate::common::{CommonError, ErrorKind, RepoResult, ResultPaging};

verus! {

/// A failure as the store, or the pool of connections to it, reports it.
#[derive(Debug, PartialEq, Eq)]
pub enum StoreFault {
    /// No connection could be had.
    Connection(String),
    /// A query for one row found none.
    NotFound,
    /// A uniqueness constraint refused a row.
    UniqueViolation(String),
    /// Any other failure of the store.
    Other(String),
}

impl StoreFault {
    /// The classification of the fault.
    pub open spec fn spec_kind(&self) -> ErrorKind {
        match self {
            StoreFault::Connection(_) => ErrorKind::ConnectionFailure,
            StoreFault::NotFound => ErrorKind::NotFound,
            StoreFault::UniqueViolation(_) => ErrorKind::Conflict,
            StoreFault::Other(_) => ErrorKind::StoreFailure,
        }
    }

    #[verifier::when_used_as_spec(spec_kind)]
    pub fn kind(&self) -> (kind: ErrorKind)
        ensures
            kind == self.spec_kind(),
    {
        match self {
            StoreFault::Connection(_) => ErrorKind::ConnectionFailure,
            StoreFault::NotFound => ErrorKind::NotFound,
            StoreFault::UniqueViolation(_) => ErrorKind::Conflict,
            StoreFault::Other(_) => ErrorKind::StoreFailure,
        }
    }

    /// The error that the repository's caller gets: the store's own words
    /// where it gave any, under the code of the fault's classification.
    pub fn into_error(self) -> (e: CommonError)
        ensures
            e.code == self.kind().code(),
            match self {
                StoreFault::Connection(words) => e.message == words,
                StoreFault::UniqueViolation(words) => e.message == words,
                StoreFault::Other(words) => e.message == words,
                StoreFault::NotFound => true,
            },
    {
        match self {
            StoreFault::Connection(words) => CommonError::new(ErrorKind::ConnectionFailure, words),
            StoreFault::NotFound => CommonError::new(
                ErrorKind::NotFound,
                "no record matches".to_owned(),
            ),
            StoreFault::UniqueViolation(words) => CommonError::new(ErrorKind::Conflict, words),
            StoreFault::Other(words) => CommonError::new(ErrorKind::StoreFailure, words),
        }
    }
}

/// What an operation returns for what the store gave: the value, or the
/// fault as an error.
pub fn outcome<T>(given: Result<T, StoreFault>) -> (res: RepoResult<T>)
    ensures
        match given {
            Ok(value) => res == Ok::<T, CommonError>(value),
            Err(fault) => res matches Err(e) && e.code == fault.kind().code(),
        },
{
    match given {
        Ok(value) => Ok(value),
        Err(fault) => Err(fault.into_error()),
    }
}

/// A listing from its two queries, the count and the page. Where both
/// failed, the count's failure is the one reported.
pub fn listing<T>(total: RepoResult<i64>, items: RepoResult<Vec<T>>) -> (res: RepoResult<
    ResultPaging<T>,
>)
    ensures
        match (total, items) {
            (Ok(count), Ok(page)) => res matches Ok(paging) && paging.total == count && paging.items
                == page,
            (Err(e), _) => res == Err::<ResultPaging<T>, CommonError>(e),
            (Ok(_), Err(e)) => res == Err::<ResultPaging<T>, CommonError>(e),
        },
{
    match total {
        Ok(count) => match items {
            Ok(page) => Ok(ResultPaging { total: count, items: page }),
            Err(e) => Err(e),
        },
        Err(e) => Err(e),
    }
}

} // verus!
