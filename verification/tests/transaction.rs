use sui_data_provider::convert::{INCOMPLETE_OBJECT, NO_OBJECT_DATA};
use sui_data_provider::error::Error;
use sui_data_provider::native::{
    NativeGasCostSummary, NativeGasData, NativeObjectData, NativeObjectResponse, NativeOwner,
    NativeRawData, NativeTransactionBlockResponse, NativeTransactionData,
    NativeTransactionEffects,
};
use sui_data_provider::provider::transaction::{
    fetch_tx_gas_object, fetch_tx_result, fetch_tx_transaction, GasObjectPending,
    GasPaymentPending, NO_TRANSACTION_CONTENT,
};
use sui_data_provider::types::address::{Address, SuiAddress};
use sui_data_provider::types::base64::Base64;
use sui_data_provider::types::big_int::BigInt;
use sui_data_provider::types::gas::{GasCostSummary, GasEffects, GasInput};
use sui_data_provider::types::object::{Object, ObjectKind};
use sui_data_provider::types::transaction_block::{TransactionBlock, TransactionBlockEffects};

fn addr(n: u8) -> SuiAddress {
    SuiAddress::from_array([n; 32])
}

fn record(n: u8) -> NativeObjectData {
    NativeObjectData {
        object_id: addr(n),
        object_id_text: format!("0x{:02x}", n),
        version: n as u64,
        digest: format!("digest-{}", n),
        storage_rebate: Some(1),
        owner: Some(NativeOwner::AddressOwner(addr(0xaa))),
        previous_transaction: Some(format!("tx-{}", n)),
        bcs: Some(NativeRawData::MoveObject(vec![n])),
    }
}

fn shown(n: u8) -> Object {
    Object {
        address: addr(n),
        version: n as u64,
        digest: format!("digest-{}", n),
        storage_rebate: Some(1),
        owner: Some(addr(0xaa)),
        bcs: Some(Base64 { bytes: vec![n] }),
        previous_transaction: Some(format!("tx-{}", n)),
        kind: Some(ObjectKind::Owned),
    }
}

fn item(n: u8) -> NativeObjectResponse {
    NativeObjectResponse { data: Some(record(n)), error: None }
}

fn transaction() -> NativeTransactionBlockResponse {
    NativeTransactionBlockResponse {
        transaction: Some(NativeTransactionData {
            sender: addr(0xaa),
            gas_data: NativeGasData {
                payment: vec![addr(1), addr(2)],
                owner: addr(0xbb),
                price: 1000,
                budget: 20_000_000,
            },
        }),
        effects: Some(NativeTransactionEffects {
            transaction_digest: "EffDigest".to_string(),
            gas_cost_summary: NativeGasCostSummary {
                computation_cost: 11,
                storage_cost: 22,
                storage_rebate: 33,
                non_refundable_storage_fee: 44,
            },
            gas_object: addr(1),
        }),
        raw_transaction: vec![9, 8, 7, 6],
    }
}

#[test]
fn transaction_names_its_gas_object() {
    let (state, id) = fetch_tx_transaction("Dg1", Ok(transaction())).unwrap();
    assert_eq!(id, addr(1));
    assert_eq!(state, GasObjectPending { digest: "Dg1".to_string(), tx: transaction() });
}

#[test]
fn failed_transaction_call_is_handed_on() {
    assert_eq!(
        fetch_tx_transaction("Dg1", Err("Invalid digest length".to_string())),
        Err(Error::Client("Invalid digest length".to_string()))
    );
}

#[test]
fn transaction_without_data_or_effects_is_an_internal_failure() {
    let mut no_data = transaction();
    no_data.transaction = None;
    assert_eq!(
        fetch_tx_transaction("Dg1", Ok(no_data)),
        Err(Error::Internal(NO_TRANSACTION_CONTENT.to_string()))
    );
    let mut no_effects = transaction();
    no_effects.effects = None;
    assert_eq!(
        fetch_tx_transaction("Dg1", Ok(no_effects)),
        Err(Error::Internal(NO_TRANSACTION_CONTENT.to_string()))
    );
}

#[test]
fn gas_object_names_the_payment_objects() {
    let state = GasObjectPending { digest: "Dg1".to_string(), tx: transaction() };
    let (next, ids) = fetch_tx_gas_object(state, Ok(item(1))).unwrap();
    assert_eq!(ids, vec![addr(1), addr(2)]);
    assert_eq!(
        next,
        GasPaymentPending { digest: "Dg1".to_string(), tx: transaction(), gas_object: item(1) }
    );
}

#[test]
fn failed_gas_object_call_is_handed_on() {
    let state = GasObjectPending { digest: "Dg1".to_string(), tx: transaction() };
    assert_eq!(
        fetch_tx_gas_object(state, Err("503".to_string())),
        Err(Error::Client("503".to_string()))
    );
}

#[test]
fn missing_gas_object_is_an_internal_failure() {
    let state = GasObjectPending { digest: "Dg1".to_string(), tx: transaction() };
    assert_eq!(
        fetch_tx_gas_object(state.clone(), Ok(NativeObjectResponse { data: None, error: None })),
        Err(Error::Internal(NO_OBJECT_DATA.to_string()))
    );
    let mut incomplete = record(1);
    incomplete.previous_transaction = None;
    assert_eq!(
        fetch_tx_gas_object(
            state,
            Ok(NativeObjectResponse { data: Some(incomplete), error: None })
        ),
        Err(Error::Internal(INCOMPLETE_OBJECT.to_string()))
    );
}

#[test]
fn payment_objects_end_the_fetch_with_the_transaction() {
    let state =
        GasPaymentPending { digest: "Dg1".to_string(), tx: transaction(), gas_object: item(1) };
    assert_eq!(
        fetch_tx_result(state, Ok(vec![item(1), item(2)])),
        Ok(Some(TransactionBlock {
            digest: "Dg1".to_string(),
            effects: Some(TransactionBlockEffects {
                digest: "EffDigest".to_string(),
                gas_effects: GasEffects {
                    gas_object: Some(shown(1)),
                    gas_summary: Some(GasCostSummary {
                        computation_cost: Some(BigInt::from_u64(11)),
                        storage_cost: Some(BigInt::from_u64(22)),
                        storage_rebate: Some(BigInt::from_u64(33)),
                        non_refundable_storage_fee: Some(BigInt::from_u64(44)),
                    }),
                },
            }),
            sender: Some(Address { address: addr(0xaa) }),
            bcs: Some(Base64 { bytes: vec![9, 8, 7, 6] }),
            gas_input: Some(GasInput {
                gas_sponsor: Some(Address { address: addr(0xbb) }),
                gas_payment: Some(vec![shown(1), shown(2)]),
                gas_price: Some(BigInt::from_u64(1000)),
                gas_budget: Some(BigInt::from_u64(20_000_000)),
            }),
        }))
    );
}

#[test]
fn whole_fetch_step_by_step() {
    let (state, id) = fetch_tx_transaction("Dg2", Ok(transaction())).unwrap();
    assert_eq!(id, addr(1));
    let (state, ids) = fetch_tx_gas_object(state, Ok(item(1))).unwrap();
    assert_eq!(ids, vec![addr(1), addr(2)]);
    let tx = fetch_tx_result(state, Ok(vec![item(1), item(2)])).unwrap().unwrap();
    assert_eq!(tx.digest, "Dg2");
    assert_eq!(tx.sender, Some(Address { address: addr(0xaa) }));
    assert_eq!(tx.bcs.unwrap().encode(), "CQgHBg==");
    assert_eq!(tx.gas_input.unwrap().gas_payment.unwrap().len(), 2);
}

#[test]
fn failed_payment_call_is_handed_on() {
    let state =
        GasPaymentPending { digest: "Dg1".to_string(), tx: transaction(), gas_object: item(1) };
    assert_eq!(
        fetch_tx_result(state, Err("broken pipe".to_string())),
        Err(Error::Client("broken pipe".to_string()))
    );
}

#[test]
fn missing_payment_object_is_an_internal_failure() {
    let state =
        GasPaymentPending { digest: "Dg1".to_string(), tx: transaction(), gas_object: item(1) };
    assert_eq!(
        fetch_tx_result(
            state,
            Ok(vec![item(1), NativeObjectResponse { data: None, error: Some("gone".to_string()) }])
        ),
        Err(Error::Internal(NO_OBJECT_DATA.to_string()))
    );
}

#[test]
fn last_step_meets_earlier_failures_first() {
    let mut no_effects = transaction();
    no_effects.effects = None;
    let state =
        GasPaymentPending { digest: "Dg1".to_string(), tx: no_effects.clone(), gas_object: item(1) };
    assert_eq!(
        fetch_tx_result(state, Ok(vec![])),
        Err(Error::Internal(NO_TRANSACTION_CONTENT.to_string()))
    );
    let state = GasObjectPending { digest: "Dg1".to_string(), tx: no_effects };
    assert_eq!(
        fetch_tx_gas_object(state, Ok(item(1))),
        Err(Error::Internal(NO_TRANSACTION_CONTENT.to_string()))
    );
    let state = GasPaymentPending {
        digest: "Dg1".to_string(),
        tx: transaction(),
        gas_object: NativeObjectResponse { data: None, error: None },
    };
    let mut incomplete = record(2);
    incomplete.owner = None;
    assert_eq!(
        fetch_tx_result(
            state,
            Ok(vec![NativeObjectResponse { data: Some(incomplete), error: None }])
        ),
        Err(Error::Internal(NO_OBJECT_DATA.to_string()))
    );
}
