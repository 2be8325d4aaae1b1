//! Answers of the chain client, as plain values.
//!
//! The client speaks in types of its own. What the rules of this library read
//! of an answer is kept here: identifiers as 32 bytes, digests and error
//! messages as the text the client prints for them, serialized contents as
//! bytes. Whoever talks to the client fills these records in, field by field.
//! Each record has a model in which texts and bytes are sequences.

use vstd::prelude::*;
use crate::model::{opt_view, seq_view};
use crate::types::address::SuiAddress;

verus! {

/// Who owns an object, as the chain records it.
#[derive(Clone, Copy, Debug, PartialEq, Eq)]
pub enum NativeOwner {
    /// Owned by an account.
    AddressOwner(SuiAddress),
    /// Owned by another object, which is named by its identifier.
    ObjectOwner(SuiAddress),
    /// Shared since the given version.
    Shared { initial_shared_version: u64 },
    /// Frozen.
    Immutable,
}

/// The serialized contents of an object.
#[derive(Clone, Debug, PartialEq, Eq)]
pub enum NativeRawData {
    /// A package, as the canonical serialization of its raw structure.
    Package(Vec<u8>),
    /// A Move object, as its raw content bytes.
    MoveObject(Vec<u8>),
}

/// The model of a [`NativeRawData`].
pub enum NativeRawDataView {
    Package(Seq<u8>),
    MoveObject(Seq<u8>),
}

impl View for NativeRawData {
    type V = NativeRawDataView;

    open spec fn view(&self) -> NativeRawDataView {
        match self {
            NativeRawData::Package(b) => NativeRawDataView::Package(b@),
            NativeRawData::MoveObject(b) => NativeRawDataView::MoveObject(b@),
        }
    }
}

impl NativeRawDataView {
    /// The bytes, whichever kind of object they belong to.
    pub open spec fn bytes(self) -> Seq<u8> {
        match self {
            NativeRawDataView::Package(b) => b,
            NativeRawDataView::MoveObject(b) => b,
        }
    }
}

/// One version of an object, as the client reports it.
#[derive(Clone, Debug, PartialEq, Eq)]
pub struct NativeObjectData {
    pub object_id: SuiAddress,
    /// The identifier as the client prints it.
    pub object_id_text: String,
    pub version: u64,
    /// The digest as the client prints it.
    pub digest: String,
    pub storage_rebate: Option<u64>,
    pub owner: Option<NativeOwner>,
    /// The digest of the transaction that wrote this version, as printed.
    pub previous_transaction: Option<String>,
    pub bcs: Option<NativeRawData>,
}

/// The model of a [`NativeObjectData`].
pub struct NativeObjectDataView {
    pub object_id: SuiAddress,
    pub object_id_text: Seq<char>,
    pub version: u64,
    pub digest: Seq<char>,
    pub storage_rebate: Option<u64>,
    pub owner: Option<NativeOwner>,
    pub previous_transaction: Option<Seq<char>>,
    pub bcs: Option<NativeRawDataView>,
}

impl View for NativeObjectData {
    type V = NativeObjectDataView;

    open spec fn view(&self) -> NativeObjectDataView {
        NativeObjectDataView {
            object_id: self.object_id,
            object_id_text: self.object_id_text@,
            version: self.version,
            digest: self.digest@,
            storage_rebate: self.storage_rebate,
            owner: self.owner,
            previous_transaction: opt_view(self.previous_transaction),
            bcs: opt_view(self.bcs),
        }
    }
}

impl NativeObjectDataView {
    /// The record names its owner and the transaction that wrote it. The
    /// client includes both whenever it is asked for full content.
    pub open spec fn is_complete(self) -> bool {
        self.owner is Some && self.previous_transaction is Some
    }
}

/// The client's answer about one object: the object, an error, or both.
#[derive(Clone, Debug, PartialEq, Eq)]
pub struct NativeObjectResponse {
    pub data: Option<NativeObjectData>,
    /// The error as the client prints it.
    pub error: Option<String>,
}

/// The model of a [`NativeObjectResponse`].
pub struct NativeObjectResponseView {
    pub data: Option<NativeObjectDataView>,
    pub error: Option<Seq<char>>,
}

impl View for NativeObjectResponse {
    type V = NativeObjectResponseView;

    open spec fn view(&self) -> NativeObjectResponseView {
        NativeObjectResponseView { data: opt_view(self.data), error: opt_view(self.error) }
    }
}

/// The client's answer about one version of an object.
#[derive(Clone, Debug, PartialEq, Eq)]
pub enum NativePastObjectResponse {
    /// The object at the version asked for.
    VersionFound(NativeObjectData),
    /// Anything else: no such object, no such version, deleted at that
    /// version, or a version that the chain has not reached.
    NotFound,
}

/// The model of a [`NativePastObjectResponse`].
pub enum NativePastObjectResponseView {
    VersionFound(NativeObjectDataView),
    NotFound,
}

impl View for NativePastObjectResponse {
    type V = NativePastObjectResponseView;

    open spec fn view(&self) -> NativePastObjectResponseView {
        match self {
            NativePastObjectResponse::VersionFound(d) => NativePastObjectResponseView::VersionFound(
                d@,
            ),
            NativePastObjectResponse::NotFound => NativePastObjectResponseView::NotFound,
        }
    }
}

/// A page of the objects that an address owns.
#[derive(Clone, Debug, PartialEq, Eq)]
pub struct NativeObjectsPage {
    pub data: Vec<NativeObjectResponse>,
    pub has_next_page: bool,
}

/// The model of a [`NativeObjectsPage`].
pub struct NativeObjectsPageView {
    pub data: Seq<NativeObjectResponseView>,
    pub has_next_page: bool,
}

impl View for NativeObjectsPage {
    type V = NativeObjectsPageView;

    open spec fn view(&self) -> NativeObjectsPageView {
        NativeObjectsPageView { data: seq_view(self.data@), has_next_page: self.has_next_page }
    }
}

/// The balance of one coin type at one address.
#[derive(Clone, Copy, Debug, PartialEq, Eq)]
pub struct NativeBalance {
    pub coin_object_count: usize,
    pub total_balance: u128,
}

/// What a transaction was charged, part by part.
#[derive(Clone, Copy, Debug, PartialEq, Eq)]
pub struct NativeGasCostSummary {
    pub computation_cost: u64,
    pub storage_cost: u64,
    pub storage_rebate: u64,
    pub non_refundable_storage_fee: u64,
}

/// What the sender of a transaction offered to pay for it.
#[derive(Clone, Debug, PartialEq, Eq)]
pub struct NativeGasData {
    /// The identifiers of the objects offered in payment.
    pub payment: Vec<SuiAddress>,
    pub owner: SuiAddress,
    pub price: u64,
    pub budget: u64,
}

/// The model of a [`NativeGasData`].
pub struct NativeGasDataView {
    pub payment: Seq<SuiAddress>,
    pub owner: SuiAddress,
    pub price: u64,
    pub budget: u64,
}

impl View for NativeGasData {
    type V = NativeGasDataView;

    open spec fn view(&self) -> NativeGasDataView {
        NativeGasDataView {
            payment: self.payment@,
            owner: self.owner,
            price: self.price,
            budget: self.budget,
        }
    }
}

/// What a transaction asked for.
#[derive(Clone, Debug, PartialEq, Eq)]
pub struct NativeTransactionData {
    pub sender: SuiAddress,
    pub gas_data: NativeGasData,
}

/// The model of a [`NativeTransactionData`].
pub struct NativeTransactionDataView {
    pub sender: SuiAddress,
    pub gas_data: NativeGasDataView,
}

impl View for NativeTransactionData {
    type V = NativeTransactionDataView;

    open spec fn view(&self) -> NativeTransactionDataView {
        NativeTransactionDataView { sender: self.sender, gas_data: self.gas_data@ }
    }
}

/// What a transaction did.
#[derive(Clone, Debug, PartialEq, Eq)]
pub struct NativeTransactionEffects {
    /// The digest of the transaction, as the client prints it.
    pub transaction_digest: String,
    pub gas_cost_summary: NativeGasCostSummary,
    /// The identifier of the gas object that the transaction used up.
    pub gas_object: SuiAddress,
}

/// The model of a [`NativeTransactionEffects`].
pub struct NativeTransactionEffectsView {
    pub transaction_digest: Seq<char>,
    pub gas_cost_summary: NativeGasCostSummary,
    pub gas_object: SuiAddress,
}

impl View for NativeTransactionEffects {
    type V = NativeTransactionEffectsView;

    open spec fn view(&self) -> NativeTransactionEffectsView {
        NativeTransactionEffectsView {
            transaction_digest: self.transaction_digest@,
            gas_cost_summary: self.gas_cost_summary,
            gas_object: self.gas_object,
        }
    }
}

/// The client's answer about one transaction.
#[derive(Clone, Debug, PartialEq, Eq)]
pub struct NativeTransactionBlockResponse {
    pub transaction: Option<NativeTransactionData>,
    pub effects: Option<NativeTransactionEffects>,
    /// The transaction in the chain's canonical serialization.
    pub raw_transaction: Vec<u8>,
}

/// The model of a [`NativeTransactionBlockResponse`].
pub struct NativeTransactionBlockResponseView {
    pub transaction: Option<NativeTransactionDataView>,
    pub effects: Option<NativeTransactionEffectsView>,
    pub raw_transaction: Seq<u8>,
}

impl View for NativeTransactionBlockResponse {
    type V = NativeTransactionBlockResponseView;

    open spec fn view(&self) -> NativeTransactionBlockResponseView {
        NativeTransactionBlockResponseView {
            transaction: opt_view(self.transaction),
            effects: opt_view(self.effects),
            raw_transaction: self.raw_transaction@,
        }
    }
}

/// One setting of the protocol. The value is the text that the client prints
/// for it when asked to show its structure; a setting may have no value.
#[derive(Clone, Debug, PartialEq, Eq)]
pub struct NativeConfigAttr {
    pub key: String,
    pub value: Option<String>,
}

/// The model of a [`NativeConfigAttr`].
pub struct NativeConfigAttrView {
    pub key: Seq<char>,
    pub value: Option<Seq<char>>,
}

impl View for NativeConfigAttr {
    type V = NativeConfigAttrView;

    open spec fn view(&self) -> NativeConfigAttrView {
        NativeConfigAttrView { key: self.key@, value: opt_view(self.value) }
    }
}

/// One feature of the protocol and whether it is switched on.
#[derive(Clone, Debug, PartialEq, Eq)]
pub struct NativeFeatureFlag {
    pub key: String,
    pub value: bool,
}

/// The model of a [`NativeFeatureFlag`].
pub struct NativeFeatureFlagView {
    pub key: Seq<char>,
    pub value: bool,
}

impl View for NativeFeatureFlag {
    type V = NativeFeatureFlagView;

    open spec fn view(&self) -> NativeFeatureFlagView {
        NativeFeatureFlagView { key: self.key@, value: self.value }
    }
}

/// The settings and features of one version of the protocol, each list in
/// the order in which the client holds it.
#[derive(Clone, Debug, PartialEq, Eq)]
pub struct NativeProtocolConfig {
    pub attributes: Vec<NativeConfigAttr>,
    pub feature_flags: Vec<NativeFeatureFlag>,
    pub protocol_version: u64,
}

/// The model of a [`NativeProtocolConfig`].
pub struct NativeProtocolConfigView {
    pub attributes: Seq<NativeConfigAttrView>,
    pub feature_flags: Seq<NativeFeatureFlagView>,
    pub protocol_version: u64,
}

impl View for NativeProtocolConfig {
    type V = NativeProtocolConfigView;

    open spec fn view(&self) -> NativeProtocolConfigView {
        NativeProtocolConfigView {
            attributes: seq_view(self.attributes@),
            feature_flags: seq_view(self.feature_flags@),
            protocol_version: self.protocol_version,
        }
    }
}

} // verus!
