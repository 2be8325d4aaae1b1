//! Fetching the balance of one coin type at one address.

use vstd::prelude::*;
use crate::convert::{convert_bal, converted_balance};
use crate::error::{Error, ErrorView};
use crate::native::NativeBalance;
use crate::types::balance::Balance;

verus! {

/// Ends the fetch of a balance: the balance that the client gave, with its
/// total as a number without a bound, or the failure of the call.
///
/// The address and the coin type go to the client as they were given; where
/// no coin type is given the client answers for the chain's own coin.
pub fn fetch_balance_result(reply: Result<NativeBalance, String>) -> (r: Result<Balance, Error>)
    ensures
        reply matches Ok(b) ==> r is Ok && r->Ok_0@ == converted_balance(b),
        reply matches Err(m) ==> r is Err && r->Err_0@ == ErrorView::Client(m@),
{
    match reply {
        Ok(b) => Ok(convert_bal(b)),
        Err(m) => Err(Error::Client(m)),
    }
}

} // verus!
