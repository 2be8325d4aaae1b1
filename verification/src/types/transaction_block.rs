//! A transaction as the schema shows it.

use vstd::prelude::*;
use crate::model::opt_view;
use crate::types::address::Address;
use crate::types::base64::Base64;
use crate::types::gas::{GasEffects, GasEffectsView, GasInput, GasInputView};

verus! {

/// What a transaction did.
#[derive(Clone, Debug, PartialEq, Eq)]
pub struct TransactionBlockEffects {
    pub digest: String,
    pub gas_effects: GasEffects,
}

/// The model of a [`TransactionBlockEffects`].
pub struct TransactionBlockEffectsView {
    pub digest: Seq<char>,
    pub gas_effects: GasEffectsView,
}

impl View for TransactionBlockEffects {
    type V = TransactionBlockEffectsView;

    open spec fn view(&self) -> TransactionBlockEffectsView {
        TransactionBlockEffectsView { digest: self.digest@, gas_effects: self.gas_effects@ }
    }
}

/// A transaction.
#[derive(Clone, Debug, PartialEq, Eq)]
pub struct TransactionBlock {
    pub digest: String,
    pub effects: Option<TransactionBlockEffects>,
    pub sender: Option<Address>,
    pub bcs: Option<Base64>,
    pub gas_input: Option<GasInput>,
}

/// The model of a [`TransactionBlock`].
pub struct TransactionBlockView {
    pub digest: Seq<char>,
    pub effects: Option<TransactionBlockEffectsView>,
    pub sender: Option<Address>,
    pub bcs: Option<Seq<u8>>,
    pub gas_input: Option<GasInputView>,
}

impl View for TransactionBlock {
    type V = TransactionBlockView;

    open spec fn view(&self) -> TransactionBlockView {
        TransactionBlockView {
            digest: self.digest@,
            effects: opt_view(self.effects),
            sender: self.sender,
            bcs: opt_view(self.bcs),
            gas_input: opt_view(self.gas_input),
        }
    }
}

} // verus!
