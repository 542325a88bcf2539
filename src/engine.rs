//! What a terminal execution call returns, given what the session answered.
//!
//! The session itself (sending a statement, decoding a raw row into the
//! entity type) is reached by the caller; these functions decide the result.

use vstd::prelude::*;
use crate::errors::{DecodeFault, QueryError, TransportFault};
use crate::stream::PageIterator;

verus! {

/// The result of a single-row execution. `response` is the session's answer:
/// a transport fault, or the decoding of the first returned row (`None` where
/// no row came back). Zero rows is `NotFound`, never a default entity.
pub fn first_row_outcome<E>(response: Result<Option<Result<E, DecodeFault>>, TransportFault>) -> (r: Result<
    E,
    QueryError,
>)
    ensures
        response matches Err(t) ==> r == Err::<E, QueryError>(QueryError::Transport(t)),
        response matches Ok(None) ==> r == Err::<E, QueryError>(QueryError::NotFound),
        response matches Ok(Some(Err(d))) ==> r == Err::<E, QueryError>(QueryError::Decode(d)),
        response matches Ok(Some(Ok(e))) ==> r == Ok::<E, QueryError>(e),
{
    match response {
        Err(t) => Err(QueryError::Transport(t)),
        Ok(None) => Err(QueryError::NotFound),
        Ok(Some(Err(d))) => Err(QueryError::Decode(d)),
        Ok(Some(Ok(e))) => Ok(e),
    }
}

/// The result of a one-page execution: the page's rows, to be read in order,
/// and its continuation token (`None` at the end of the result set).
pub fn page_outcome<R>(response: Result<(Vec<R>, Option<Vec<u8>>), TransportFault>) -> (r: Result<
    (PageIterator<R>, Option<Vec<u8>>),
    QueryError,
>)
    ensures
        response matches Err(t) ==> r matches Err(e) && e == QueryError::Transport(t),
        response matches Ok((rows, token)) ==> r matches Ok((it, tk)) && it@ == rows@ && tk == token,
{
    match response {
        Err(t) => Err(QueryError::Transport(t)),
        Ok((rows, token)) => Ok((PageIterator::new(rows), token)),
    }
}

} // verus!
