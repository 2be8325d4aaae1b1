//! The balance of one coin type at one address.

use vstd::prelude::*;
use crate::types::big_int::BigInt;

verus! {

/// How many coin objects an address holds of one coin type, and their sum.
#[derive(Clone, Debug, PartialEq, Eq)]
pub struct Balance {
    pub coin_object_count: u64,
    pub total_balance: BigInt,
}

/// The model of a [`Balance`].
pub struct BalanceView {
    pub coin_object_count: u64,
    pub total_balance: int,
}

impl View for Balance {
    type V = BalanceView;

    open spec fn view(&self) -> BalanceView {
        BalanceView {
            coin_object_count: self.coin_object_count,
            total_balance: self.total_balance@,
        }
    }
}

} // verus!
