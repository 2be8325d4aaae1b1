//! What a transaction offered for gas and what it was charged.

use vstd::prelude::*;
use crate::model::{opt_view, seq_view};
use crate::types::address::Address;
use crate::types::big_int::BigInt;
use crate::types::object::{Object, ObjectView};

verus! {

/// What the sender of a transaction offered to pay for it.
#[derive(Clone, Debug, PartialEq, Eq)]
pub struct GasInput {
    pub gas_sponsor: Option<Address>,
    pub gas_payment: Option<Vec<Object>>,
    pub gas_price: Option<BigInt>,
    pub gas_budget: Option<BigInt>,
}

/// The model of a [`GasInput`].
pub struct GasInputView {
    pub gas_sponsor: Option<Address>,
    pub gas_payment: Option<Seq<ObjectView>>,
    pub gas_price: Option<int>,
    pub gas_budget: Option<int>,
}

impl View for GasInput {
    type V = GasInputView;

    open spec fn view(&self) -> GasInputView {
        GasInputView {
            gas_sponsor: self.gas_sponsor,
            gas_payment: match self.gas_payment {
                Some(objs) => Some(seq_view(objs@)),
                None => None,
            },
            gas_price: opt_view(self.gas_price),
            gas_budget: opt_view(self.gas_budget),
        }
    }
}

/// What a transaction was charged, part by part.
#[derive(Clone, Debug, PartialEq, Eq)]
pub struct GasCostSummary {
    pub computation_cost: Option<BigInt>,
    pub storage_cost: Option<BigInt>,
    pub storage_rebate: Option<BigInt>,
    pub non_refundable_storage_fee: Option<BigInt>,
}

/// The model of a [`GasCostSummary`].
pub struct GasCostSummaryView {
    pub computation_cost: Option<int>,
    pub storage_cost: Option<int>,
    pub storage_rebate: Option<int>,
    pub non_refundable_storage_fee: Option<int>,
}

impl View for GasCostSummary {
    type V = GasCostSummaryView;

    open spec fn view(&self) -> GasCostSummaryView {
        GasCostSummaryView {
            computation_cost: opt_view(self.computation_cost),
            storage_cost: opt_view(self.storage_cost),
            storage_rebate: opt_view(self.storage_rebate),
            non_refundable_storage_fee: opt_view(self.non_refundable_storage_fee),
        }
    }
}

/// The gas object that a transaction used up, and what it was charged.
#[derive(Clone, Debug, PartialEq, Eq)]
pub struct GasEffects {
    pub gas_object: Option<Object>,
    pub gas_summary: Option<GasCostSummary>,
}

/// The model of a [`GasEffects`].
pub struct GasEffectsView {
    pub gas_object: Option<ObjectView>,
    pub gas_summary: Option<GasCostSummaryView>,
}

impl View for GasEffects {
    type V = GasEffectsView;

    open spec fn view(&self) -> GasEffectsView {
        GasEffectsView {
            gas_object: opt_view(self.gas_object),
            gas_summary: opt_view(self.gas_summary),
        }
    }
}

} // verus!
