//! Fetching one transaction.
//!
//! Three things are asked of the client in turn: the transaction with its
//! full content, the gas object that it used up, and the objects that it
//! offered in payment. Each step takes what came back, keeps it, and names
//! what to ask next; the last one assembles the transaction.

use vstd::prelude::*;
use crate::convert::{
    convert_to_gas_effects, convert_to_gas_input, converted_gas_effects, converted_gas_input,
    gas_payment_ids,
};
use crate::error::{Error, ErrorView};
use crate::model::{opt_view, seq_view};
use crate::native::{
    NativeObjectResponse, NativeObjectResponseView, NativeTransactionBlockResponse,
    NativeTransactionBlockResponseView,
};
use crate::types::address::{Address, SuiAddress};
use crate::types::base64::Base64;
use crate::types::transaction_block::{
    TransactionBlock, TransactionBlockEffects, TransactionBlockEffectsView, TransactionBlockView,
};

verus! {

/// What is reported when the client returns a transaction without its data
/// or without its effects, though it was asked for both.
pub const NO_TRANSACTION_CONTENT: &'static str =
    "Expected transaction data and effects, received a transaction without them";

/// The answer holds what was asked for: the transaction's data and effects.
pub open spec fn has_content(tx: NativeTransactionBlockResponseView) -> bool {
    tx.transaction is Some && tx.effects is Some
}

/// A fetch that waits for the gas object of its transaction.
#[derive(Clone, Debug, PartialEq, Eq)]
pub struct GasObjectPending {
    /// The digest as the caller gave it.
    pub digest: String,
    /// The transaction as the client returned it.
    pub tx: NativeTransactionBlockResponse,
}

/// The model of a [`GasObjectPending`].
pub struct GasObjectPendingView {
    pub digest: Seq<char>,
    pub tx: NativeTransactionBlockResponseView,
}

impl View for GasObjectPending {
    type V = GasObjectPendingView;

    open spec fn view(&self) -> GasObjectPendingView {
        GasObjectPendingView { digest: self.digest@, tx: self.tx@ }
    }
}

/// A fetch that waits for the payment objects of its transaction.
#[derive(Clone, Debug, PartialEq, Eq)]
pub struct GasPaymentPending {
    /// The digest as the caller gave it.
    pub digest: String,
    /// The transaction as the client returned it.
    pub tx: NativeTransactionBlockResponse,
    /// The client's answer about the gas object.
    pub gas_object: NativeObjectResponse,
}

/// The model of a [`GasPaymentPending`].
pub struct GasPaymentPendingView {
    pub digest: Seq<char>,
    pub tx: NativeTransactionBlockResponseView,
    pub gas_object: NativeObjectResponseView,
}

impl View for GasPaymentPending {
    type V = GasPaymentPendingView;

    open spec fn view(&self) -> GasPaymentPendingView {
        GasPaymentPendingView { digest: self.digest@, tx: self.tx@, gas_object: self.gas_object@ }
    }
}

/// What follows the transaction's arrival: the gas object to ask for, or the
/// failure of the fetch.
pub open spec fn gas_object_step(tx: NativeTransactionBlockResponseView) -> Result<
    SuiAddress,
    ErrorView,
> {
    if has_content(tx) {
        Ok(tx.effects->0.gas_object)
    } else {
        Err(ErrorView::Internal(NO_TRANSACTION_CONTENT@))
    }
}

/// What follows the gas object's arrival: the payment objects to ask for, or
/// the failure of the fetch.
pub open spec fn gas_payment_step(
    tx: NativeTransactionBlockResponseView,
    gas_object: NativeObjectResponseView,
) -> Result<Seq<SuiAddress>, ErrorView> {
    if !has_content(tx) {
        Err(ErrorView::Internal(NO_TRANSACTION_CONTENT@))
    } else {
        match converted_gas_effects(tx.effects->0.gas_cost_summary, gas_object) {
            Err(e) => Err(e),
            Ok(_) => Ok(tx.transaction->0.gas_data.payment),
        }
    }
}

/// The transaction that the schema shows, given its digest and everything
/// that came back from the client: the sender as the transaction declares
/// it, the gas effects from the cost summary and the gas object, the gas
/// input from the gas data and the payment objects, and the raw bytes.
pub open spec fn fetched_transaction(
    digest: Seq<char>,
    tx: NativeTransactionBlockResponseView,
    gas_object: NativeObjectResponseView,
    payment: Seq<NativeObjectResponseView>,
) -> Result<Option<TransactionBlockView>, ErrorView> {
    if !has_content(tx) {
        Err(ErrorView::Internal(NO_TRANSACTION_CONTENT@))
    } else {
        let data = tx.transaction->0;
        let effects = tx.effects->0;
        match converted_gas_effects(effects.gas_cost_summary, gas_object) {
            Err(e) => Err(e),
            Ok(gas_effects) => match converted_gas_input(data.gas_data, payment) {
                Err(e) => Err(e),
                Ok(gas_input) => Ok(
                    Some(
                        TransactionBlockView {
                            digest,
                            effects: Some(
                                TransactionBlockEffectsView {
                                    digest: effects.transaction_digest,
                                    gas_effects,
                                },
                            ),
                            sender: Some(Address { address: data.sender }),
                            bcs: Some(tx.raw_transaction),
                            gas_input: Some(gas_input),
                        },
                    ),
                ),
            },
        }
    }
}

/// A failure met at an earlier step is the failure of the whole fetch,
/// whatever would have come back later.
pub proof fn lemma_fetch_tx_fails_early(
    digest: Seq<char>,
    tx: NativeTransactionBlockResponseView,
    gas_object: NativeObjectResponseView,
    payment: Seq<NativeObjectResponseView>,
)
    ensures
        gas_object_step(tx) matches Err(e) ==> fetched_transaction(digest, tx, gas_object, payment)
            == Err::<Option<TransactionBlockView>, ErrorView>(e),
        gas_payment_step(tx, gas_object) matches Err(e) ==> fetched_transaction(
            digest,
            tx,
            gas_object,
            payment,
        ) == Err::<Option<TransactionBlockView>, ErrorView>(e),
{
}

/// Takes the transaction that the client returned for `digest`, asked for
/// with full content, and names the gas object to ask for next.
///
/// A failed call, which includes a digest that the client could not read, is
/// handed on as it is. A transaction without data or effects is reported as
/// an internal failure.
pub fn fetch_tx_transaction(
    digest: &str,
    reply: Result<NativeTransactionBlockResponse, String>,
) -> (r: Result<(GasObjectPending, SuiAddress), Error>)
    ensures
        reply matches Err(m) ==> r is Err && r->Err_0@ == ErrorView::Client(m@),
        reply matches Ok(tx) ==> (r is Ok <==> gas_object_step(tx@) is Ok),
        reply matches Ok(tx) ==> (r matches Err(e) ==> e@ == gas_object_step(tx@)->Err_0),
        reply matches Ok(tx) ==> (r matches Ok((state, id)) ==> state@ == (GasObjectPendingView {
            digest: digest@,
            tx: tx@,
        }) && id == gas_object_step(tx@)->Ok_0),
{
    let tx = match reply {
        Ok(tx) => tx,
        Err(m) => {
            return Err(Error::Client(m));
        },
    };
    if tx.transaction.is_none() {
        return Err(Error::Internal(String::from_str(NO_TRANSACTION_CONTENT)));
    }
    let id = match &tx.effects {
        Some(effects) => effects.gas_object,
        None => {
            return Err(Error::Internal(String::from_str(NO_TRANSACTION_CONTENT)));
        },
    };
    Ok((GasObjectPending { digest: String::from_str(digest), tx }, id))
}

/// Takes the client's answer about the gas object and names the payment
/// objects to ask for next, all in one request.
///
/// A failed call is handed on as it is. An answer without an object, or with
/// an object without owner or previous transaction, is reported as an
/// internal failure.
pub fn fetch_tx_gas_object(state: GasObjectPending, reply: Result<NativeObjectResponse, String>) -> (r:
    Result<(GasPaymentPending, Vec<SuiAddress>), Error>)
    ensures
        reply matches Err(m) ==> r is Err && r->Err_0@ == ErrorView::Client(m@),
        reply matches Ok(g) ==> (r is Ok <==> gas_payment_step(state@.tx, g@) is Ok),
        reply matches Ok(g) ==> (r matches Err(e) ==> e@ == gas_payment_step(state@.tx, g@)->Err_0),
        reply matches Ok(g) ==> (r matches Ok((next, ids)) ==> next@ == (GasPaymentPendingView {
            digest: state@.digest,
            tx: state@.tx,
            gas_object: g@,
        }) && ids@ == gas_payment_step(state@.tx, g@)->Ok_0),
{
    let gas_object = match reply {
        Ok(g) => g,
        Err(m) => {
            return Err(Error::Client(m));
        },
    };
    let ids = match (&state.tx.transaction, &state.tx.effects) {
        (Some(data), Some(effects)) => {
            match convert_to_gas_effects(&effects.gas_cost_summary, &gas_object) {
                Ok(_) => gas_payment_ids(&data.gas_data),
                Err(e) => {
                    return Err(e);
                },
            }
        },
        _ => {
            return Err(Error::Internal(String::from_str(NO_TRANSACTION_CONTENT)));
        },
    };
    Ok((GasPaymentPending { digest: state.digest, tx: state.tx, gas_object }, ids))
}

/// Takes the client's answers about the payment objects and ends the fetch
/// with the transaction.
///
/// A failed call is handed on as it is. An answer without an object, or with
/// an object without owner or previous transaction, is reported as an
/// internal failure; the first such answer decides.
pub fn fetch_tx_result(state: GasPaymentPending, reply: Result<Vec<NativeObjectResponse>, String>) -> (r:
    Result<Option<TransactionBlock>, Error>)
    ensures
        reply matches Err(m) ==> r is Err && r->Err_0@ == ErrorView::Client(m@),
        reply matches Ok(p) ==> (r is Ok <==> fetched_transaction(
            state@.digest,
            state@.tx,
            state@.gas_object,
            seq_view(p@),
        ) is Ok),
        reply matches Ok(p) ==> (r matches Ok(t) ==> opt_view(t) == fetched_transaction(
            state@.digest,
            state@.tx,
            state@.gas_object,
            seq_view(p@),
        )->Ok_0),
        reply matches Ok(p) ==> (r matches Err(e) ==> e@ == fetched_transaction(
            state@.digest,
            state@.tx,
            state@.gas_object,
            seq_view(p@),
        )->Err_0),
{
    let payment = match reply {
        Ok(p) => p,
        Err(m) => {
            return Err(Error::Client(m));
        },
    };
    let (effects, sender, gas_input) = match (&state.tx.transaction, &state.tx.effects) {
        (Some(data), Some(effects)) => {
            let gas_effects = match convert_to_gas_effects(
                &effects.gas_cost_summary,
                &state.gas_object,
            ) {
                Ok(g) => g,
                Err(e) => {
                    return Err(e);
                },
            };
            let gas_input = match convert_to_gas_input(&data.gas_data, &payment) {
                Ok(g) => g,
                Err(e) => {
                    return Err(e);
                },
            };
            (
                TransactionBlockEffects {
                    digest: effects.transaction_digest.clone(),
                    gas_effects,
                },
                Address { address: data.sender },
                gas_input,
            )
        },
        _ => {
            return Err(Error::Internal(String::from_str(NO_TRANSACTION_CONTENT)));
        },
    };
    let bytes = state.tx.raw_transaction.clone();
    Ok(
        Some(
            TransactionBlock {
                digest: state.digest,
                effects: Some(effects),
                sender: Some(sender),
                bcs: Some(Base64 { bytes }),
                gas_input: Some(gas_input),
            },
        ),
    )
}

} // verus!
