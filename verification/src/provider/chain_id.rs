//! Fetching the identifier of the chain.

use vstd::prelude::*;
use crate::error::Error;

verus! {

/// Ends the fetch of the chain's identifier: the identifier as the client
/// gave it, or the failure of the call with the client's words unchanged.
pub fn fetch_chain_id_result(reply: Result<String, String>) -> (r: Result<String, Error>)
    ensures
        reply matches Ok(id) ==> r == Ok::<String, Error>(id),
        reply matches Err(m) ==> r == Err::<String, Error>(Error::Client(m)),
{
    match reply {
        Ok(id) => Ok(id),
        Err(m) => Err(Error::Client(m)),
    }
}

} // verus!
