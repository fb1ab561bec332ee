//! How a request can fail, and how each outcome is answered.

use vstd::prelude::*;

verus! {

/// Why a request was turned down.
#[derive(Debug, Clone, Copy, PartialEq, Eq, Structural)]
pub enum Error {
    /// The resource query does not hold one user name and one domain
    /// around a single `@`.
    MalformedResource,
}

/// The outcome of a request that may find nothing: `Ok(None)` stands for
/// "not found" and is no error.
pub type Perhaps<T> = Result<Option<T>, Error>;

/// The classes of response that the discovery endpoints give.
#[derive(Debug, Clone, Copy, PartialEq, Eq, Structural)]
pub enum ResponseClass {
    /// The document is sent.
    Success,
    /// The query was malformed: a client error, without a body.
    BadRequest,
    /// No resource matches the query: not found, with an empty body.
    NotFound,
    /// The storage failed: a server error, without a body.
    ServerError,
}

/// How the outcome of a resource query is answered: a malformed query as a
/// client error, a foreign domain or an unknown user as not found.
pub open spec fn query_class<T>(reply: Perhaps<T>) -> ResponseClass {
    match reply {
        Ok(Some(_)) => ResponseClass::Success,
        Ok(None) => ResponseClass::NotFound,
        Err(Error::MalformedResource) => ResponseClass::BadRequest,
    }
}

/// How the outcome of a resource query is answered.
pub fn class_of_query<T>(reply: &Perhaps<T>) -> (class: ResponseClass)
    ensures
        class == query_class(*reply),
{
    match reply {
        Ok(Some(_)) => ResponseClass::Success,
        Ok(None) => ResponseClass::NotFound,
        Err(Error::MalformedResource) => ResponseClass::BadRequest,
    }
}

/// How the outcome of a request that reads the storage is answered: any
/// failure of the storage as a server error.
pub fn class_of_read<T, E>(reply: &Result<T, E>) -> (class: ResponseClass)
    ensures
        class == if reply is Ok {
            ResponseClass::Success
        } else {
            ResponseClass::ServerError
        },
{
    match reply {
        Ok(_) => ResponseClass::Success,
        Err(_) => ResponseClass::ServerError,
    }
}

} // verus!
