//! From the client's records to the entities of the schema.

use vstd::prelude::*;
use crate::error::{Error, ErrorView};
use crate::model::seq_view;
use crate::native::{
    NativeBalance, NativeConfigAttrView, NativeFeatureFlagView, NativeGasCostSummary,
    NativeGasData, NativeGasDataView, NativeObjectData, NativeObjectDataView,
    NativeObjectResponse, NativeObjectResponseView, NativeOwner, NativeProtocolConfig,
    NativeProtocolConfigView, NativeRawData,
};
use crate::types::address::{Address, SuiAddress};
use crate::types::balance::{Balance, BalanceView};
use crate::types::base64::Base64;
use crate::types::big_int::BigInt;
use crate::types::gas::{
    GasCostSummary, GasCostSummaryView, GasEffects, GasEffectsView, GasInput, GasInputView,
};
use crate::types::object::{Object, ObjectKind, ObjectView};
use crate::types::protocol_config::{
    ProtocolConfigAttr, ProtocolConfigAttrView, ProtocolConfigFeatureFlag,
    ProtocolConfigFeatureFlagView, ProtocolConfigs, ProtocolConfigsView,
};

verus! {

/// The kind of ownership that an owner stands for.
pub open spec fn object_kind(owner: NativeOwner) -> ObjectKind {
    match owner {
        NativeOwner::AddressOwner(_) => ObjectKind::Owned,
        NativeOwner::ObjectOwner(_) => ObjectKind::Child,
        NativeOwner::Shared { .. } => ObjectKind::Shared,
        NativeOwner::Immutable => ObjectKind::Immutable,
    }
}

/// The address that owns an object: there is one only where an account owns
/// it.
pub open spec fn owner_address(owner: NativeOwner) -> Option<SuiAddress> {
    match owner {
        NativeOwner::AddressOwner(a) => Some(a),
        _ => None,
    }
}

/// The object that the schema shows for a complete record of the client.
pub open spec fn converted_object(s: NativeObjectDataView) -> ObjectView
    recommends
        s.is_complete(),
{
    ObjectView {
        address: s.object_id,
        version: s.version,
        digest: s.digest,
        storage_rebate: s.storage_rebate,
        owner: owner_address(s.owner->0),
        bcs: match s.bcs {
            Some(raw) => Some(raw.bytes()),
            None => None,
        },
        previous_transaction: s.previous_transaction,
        kind: Some(object_kind(s.owner->0)),
    }
}

/// Classifies an owner.
fn kind_of(owner: &NativeOwner) -> (k: ObjectKind)
    ensures
        k == object_kind(*owner),
{
    match owner {
        NativeOwner::AddressOwner(_) => ObjectKind::Owned,
        NativeOwner::ObjectOwner(_) => ObjectKind::Child,
        NativeOwner::Shared { .. } => ObjectKind::Shared,
        NativeOwner::Immutable => ObjectKind::Immutable,
    }
}

/// Turns a record of the client into the object that the schema shows.
///
/// Version, digest and storage rebate are copied. The owner's address is
/// present only where an account owns the object. The contents are the raw
/// bytes of a Move object, or the serialized structure of a package.
///
/// The record must name its owner and the transaction that wrote it.
pub fn convert_obj(s: &NativeObjectData) -> (o: Object)
    requires
        s@.is_complete(),
    ensures
        o@ == converted_object(s@),
        s.owner matches Some(NativeOwner::AddressOwner(a)) ==> o.kind == Some(ObjectKind::Owned)
            && o.owner == Some(a),
        s.owner matches Some(NativeOwner::ObjectOwner(_)) ==> o.kind == Some(ObjectKind::Child),
        s.owner matches Some(NativeOwner::Shared { .. }) ==> o.kind == Some(ObjectKind::Shared),
        s.owner matches Some(NativeOwner::Immutable) ==> o.kind == Some(ObjectKind::Immutable)
            && o.owner is None,
{
    let owner = match &s.owner {
        Some(w) => *w,
        None => NativeOwner::Immutable,
    };
    let previous_transaction = match &s.previous_transaction {
        Some(d) => Some(d.clone()),
        None => None,
    };
    let bcs = match &s.bcs {
        Some(NativeRawData::Package(raw)) => Some(Base64 { bytes: raw.clone() }),
        Some(NativeRawData::MoveObject(raw)) => Some(Base64 { bytes: raw.clone() }),
        None => None,
    };
    Object {
        address: s.object_id,
        version: s.version,
        digest: s.digest.clone(),
        storage_rebate: s.storage_rebate,
        owner: match owner {
            NativeOwner::AddressOwner(a) => Some(a),
            _ => None,
        },
        bcs,
        previous_transaction,
        kind: Some(kind_of(&owner)),
    }
}

/// What is reported when an answer holds neither an object nor an error.
pub const NEITHER_DATA_NOR_ERROR: &'static str =
    "Expected either data or error fields, received neither";

/// What is reported when an answer that must hold an object holds none.
pub const NO_OBJECT_DATA: &'static str = "Expected object data, received none";

/// What is reported when an object comes without its owner or without the
/// transaction that wrote it.
pub const INCOMPLETE_OBJECT: &'static str =
    "Expected owner and previous transaction of an object, received an object without them";

/// What converting one answer about an object gives: the object, or the
/// failure to report where the answer holds no object or an incomplete one.
pub open spec fn required_object(r: NativeObjectResponseView) -> Result<ObjectView, ErrorView> {
    match r.data {
        None => Err(ErrorView::Internal(NO_OBJECT_DATA@)),
        Some(d) => if d.is_complete() {
            Ok(converted_object(d))
        } else {
            Err(ErrorView::Internal(INCOMPLETE_OBJECT@))
        },
    }
}

/// Turns a record of the client into an object, or reports the record as
/// incomplete where it names no owner or no previous transaction.
pub fn try_convert_obj(s: &NativeObjectData) -> (r: Result<Object, Error>)
    ensures
        s@.is_complete() ==> r is Ok && r->Ok_0@ == converted_object(s@),
        !s@.is_complete() ==> r is Err && r->Err_0@ == ErrorView::Internal(INCOMPLETE_OBJECT@),
{
    if s.owner.is_some() && s.previous_transaction.is_some() {
        Ok(convert_obj(s))
    } else {
        Err(Error::Internal(String::from_str(INCOMPLETE_OBJECT)))
    }
}

/// The balance that the schema shows for a balance of the client.
pub open spec fn converted_balance(b: NativeBalance) -> BalanceView {
    BalanceView {
        coin_object_count: b.coin_object_count as u64,
        total_balance: b.total_balance as int,
    }
}

/// Turns a balance of the client into the balance that the schema shows. The
/// total keeps every digit: it becomes a number without a bound.
pub fn convert_bal(b: NativeBalance) -> (r: Balance)
    ensures
        r@ == converted_balance(b),
        r.coin_object_count == b.coin_object_count,
        r.total_balance@ == b.total_balance,
{
    Balance {
        coin_object_count: b.coin_object_count as u64,
        total_balance: BigInt::from_u128(b.total_balance),
    }
}

/// The cost summary that the schema shows: every part is present, as a
/// number without a bound.
pub open spec fn converted_gas_cost_summary(gcs: NativeGasCostSummary) -> GasCostSummaryView {
    GasCostSummaryView {
        computation_cost: Some(gcs.computation_cost as int),
        storage_cost: Some(gcs.storage_cost as int),
        storage_rebate: Some(gcs.storage_rebate as int),
        non_refundable_storage_fee: Some(gcs.non_refundable_storage_fee as int),
    }
}

/// Turns a cost summary of the client into the one that the schema shows.
/// This never fails.
pub fn convert_to_gas_cost_summary(gcs: &NativeGasCostSummary) -> (r: Result<
    GasCostSummary,
    Error,
>)
    ensures
        r is Ok,
        r->Ok_0@ == converted_gas_cost_summary(*gcs),
{
    Ok(
        GasCostSummary {
            computation_cost: Some(BigInt::from_u64(gcs.computation_cost)),
            storage_cost: Some(BigInt::from_u64(gcs.storage_cost)),
            storage_rebate: Some(BigInt::from_u64(gcs.storage_rebate)),
            non_refundable_storage_fee: Some(BigInt::from_u64(gcs.non_refundable_storage_fee)),
        },
    )
}

/// What the cost summary of a transaction and the client's answer about its
/// gas object give together.
pub open spec fn converted_gas_effects(
    gcs: NativeGasCostSummary,
    gas_obj: NativeObjectResponseView,
) -> Result<GasEffectsView, ErrorView> {
    match required_object(gas_obj) {
        Ok(o) => Ok(
            GasEffectsView {
                gas_object: Some(o),
                gas_summary: Some(converted_gas_cost_summary(gcs)),
            },
        ),
        Err(e) => Err(e),
    }
}

/// Pairs the cost summary of a transaction with its gas object, which the
/// client was asked for with full content.
///
/// Fails where the client's answer holds no object, or an object without
/// owner or previous transaction.
pub fn convert_to_gas_effects(gcs: &NativeGasCostSummary, gas_obj: &NativeObjectResponse) -> (r:
    Result<GasEffects, Error>)
    ensures
        r is Ok <==> converted_gas_effects(*gcs, gas_obj@) is Ok,
        r matches Ok(g) ==> g@ == converted_gas_effects(*gcs, gas_obj@)->Ok_0,
        r matches Err(e) ==> e@ == converted_gas_effects(*gcs, gas_obj@)->Err_0,
{
    let gas_summary = match convert_to_gas_cost_summary(gcs) {
        Ok(summary) => summary,
        Err(e) => {
            return Err(e);
        },
    };
    let gas_object = match &gas_obj.data {
        Some(d) => match try_convert_obj(d) {
            Ok(o) => o,
            Err(e) => {
                return Err(e);
            },
        },
        None => {
            return Err(Error::Internal(String::from_str(NO_OBJECT_DATA)));
        },
    };
    Ok(GasEffects { gas_object: Some(gas_object), gas_summary: Some(gas_summary) })
}

/// The identifiers of the objects that a transaction offered in payment, in
/// the order in which it named them. These are the objects to ask for, all
/// in one request, before the gas input can be shown.
pub fn gas_payment_ids(gas_data: &NativeGasData) -> (ids: Vec<SuiAddress>)
    ensures
        ids@ == gas_data.payment@,
{
    gas_data.payment.clone()
}

/// The objects of a list of answers, each of which holds a complete object.
pub open spec fn converted_objects(rs: Seq<NativeObjectResponseView>) -> Seq<ObjectView> {
    Seq::new(rs.len(), |i: int| converted_object(rs[i].data->0))
}

/// The failure of the first answer that holds no complete object, if there
/// is such an answer.
pub open spec fn first_unusable(rs: Seq<NativeObjectResponseView>) -> Option<ErrorView>
    decreases rs.len(),
{
    if rs.len() == 0 {
        None
    } else {
        match required_object(rs[0]) {
            Err(e) => Some(e),
            Ok(_) => first_unusable(rs.skip(1)),
        }
    }
}

/// No answer is reported as unusable exactly when every answer holds a
/// complete object.
pub proof fn lemma_first_unusable_none(rs: Seq<NativeObjectResponseView>)
    ensures
        first_unusable(rs) is None <==> forall|i: int|
            0 <= i < rs.len() ==> required_object(#[trigger] rs[i]) is Ok,
    decreases rs.len(),
{
    if rs.len() > 0 {
        let rest = rs.skip(1);
        lemma_first_unusable_none(rest);
        if first_unusable(rs) is None {
            assert forall|i: int| 0 <= i < rs.len() implies required_object(
                #[trigger] rs[i],
            ) is Ok by {
                if i > 0 {
                    assert(rs[i] == rest[i - 1]);
                }
            }
        } else if required_object(rs[0]) is Ok {
            let j = choose|j: int|
                0 <= j < rest.len() && !(required_object(#[trigger] rest[j]) is Ok);
            assert(rs[j + 1] == rest[j]);
        }
    }
}

/// What the gas data of a transaction and the client's answers about its
/// payment objects give together: the first answer without a complete object
/// decides the failure.
pub open spec fn converted_gas_input(
    gas_data: NativeGasDataView,
    responses: Seq<NativeObjectResponseView>,
) -> Result<GasInputView, ErrorView> {
    match first_unusable(responses) {
        Some(e) => Err(e),
        None => Ok(
            GasInputView {
                gas_sponsor: Some(Address { address: gas_data.owner }),
                gas_payment: Some(converted_objects(responses)),
                gas_price: Some(gas_data.price as int),
                gas_budget: Some(gas_data.budget as int),
            },
        ),
    }
}

/// Assembles what the sender offered for gas: the sponsor, the payment
/// objects as the client returned them for `gas_payment_ids`, the price and
/// the budget.
///
/// Fails where one of the answers holds no object, or an object without owner
/// or previous transaction; the first such answer decides the message.
pub fn convert_to_gas_input(gas_data: &NativeGasData, obj_responses: &Vec<NativeObjectResponse>) -> (r:
    Result<GasInput, Error>)
    ensures
        r is Ok <==> converted_gas_input(gas_data@, seq_view(obj_responses@)) is Ok,
        r matches Ok(g) ==> g@ == converted_gas_input(gas_data@, seq_view(obj_responses@))->Ok_0,
        r matches Err(e) ==> e@ == converted_gas_input(
            gas_data@,
            seq_view(obj_responses@),
        )->Err_0,
{
    let ghost answers = seq_view(obj_responses@);
    let mut payment_objs: Vec<Object> = Vec::new();
    let n = obj_responses.len();
    let mut i: usize = 0;
    assert(answers.skip(0) =~= answers);
    while i < n
        invariant
            i <= n,
            n == obj_responses@.len(),
            answers == seq_view(obj_responses@),
            first_unusable(answers) == first_unusable(answers.skip(i as int)),
            payment_objs@.len() == i,
            forall|j: int|
                0 <= j < i ==> (#[trigger] payment_objs@[j])@ == converted_object(
                    answers[j].data->0,
                ),
        decreases n - i,
    {
        let item = &obj_responses[i];
        assert(answers.skip(i as int)[0] == item@);
        assert(answers.skip(i as int).skip(1) =~= answers.skip(i + 1));
        let o = match &item.data {
            Some(d) => match try_convert_obj(d) {
                Ok(o) => o,
                Err(e) => {
                    return Err(e);
                },
            },
            None => {
                return Err(Error::Internal(String::from_str(NO_OBJECT_DATA)));
            },
        };
        payment_objs.push(o);
        i = i + 1;
    }
    assert(seq_view(payment_objs@) =~= converted_objects(answers));
    Ok(
        GasInput {
            gas_sponsor: Some(Address { address: gas_data.owner }),
            gas_payment: Some(payment_objs),
            gas_price: Some(BigInt::from_u64(gas_data.price)),
            gas_budget: Some(BigInt::from_u64(gas_data.budget)),
        },
    )
}

/// The setting that the schema shows for a setting of the client: a setting
/// without a value is shown with the empty text.
pub open spec fn converted_attr(a: NativeConfigAttrView) -> ProtocolConfigAttrView {
    ProtocolConfigAttrView {
        key: a.key,
        value: match a.value {
            Some(v) => v,
            None => Seq::<char>::empty(),
        },
    }
}

/// The feature that the schema shows for a feature of the client.
pub open spec fn converted_flag(f: NativeFeatureFlagView) -> ProtocolConfigFeatureFlagView {
    ProtocolConfigFeatureFlagView { key: f.key, value: f.value }
}

/// The settings that the schema shows for those of the client: one for each,
/// in the same order.
pub open spec fn converted_protocol_config(cfg: NativeProtocolConfigView) -> ProtocolConfigsView {
    ProtocolConfigsView {
        configs: Seq::new(cfg.attributes.len(), |i: int| converted_attr(cfg.attributes[i])),
        feature_flags: Seq::new(
            cfg.feature_flags.len(),
            |i: int| converted_flag(cfg.feature_flags[i]),
        ),
        protocol_version: cfg.protocol_version,
    }
}

/// Turns the protocol settings of the client into those that the schema
/// shows. Every setting and every feature is kept, in order; a setting
/// without a value gets the empty text.
pub fn convert_protocol_config(cfg: &NativeProtocolConfig) -> (r: ProtocolConfigs)
    ensures
        r@ == converted_protocol_config(cfg@),
        r.configs@.len() == cfg.attributes@.len(),
        forall|i: int|
            0 <= i < cfg.attributes@.len() && cfg.attributes@[i].value is None ==> (
            #[trigger] r.configs@[i]).value@ == Seq::<char>::empty(),
{
    let mut configs: Vec<ProtocolConfigAttr> = Vec::new();
    let n = cfg.attributes.len();
    let mut i: usize = 0;
    while i < n
        invariant
            i <= n,
            n == cfg.attributes@.len(),
            configs@.len() == i,
            forall|j: int|
                0 <= j < i ==> (#[trigger] configs@[j])@ == converted_attr(cfg.attributes@[j]@),
        decreases n - i,
    {
        let a = &cfg.attributes[i];
        let value = match &a.value {
            Some(v) => v.clone(),
            None => String::new(),
        };
        configs.push(ProtocolConfigAttr { key: a.key.clone(), value });
        i = i + 1;
    }
    let mut feature_flags: Vec<ProtocolConfigFeatureFlag> = Vec::new();
    let m = cfg.feature_flags.len();
    let mut k: usize = 0;
    while k < m
        invariant
            k <= m,
            m == cfg.feature_flags@.len(),
            feature_flags@.len() == k,
            forall|j: int|
                0 <= j < k ==> (#[trigger] feature_flags@[j])@ == converted_flag(
                    cfg.feature_flags@[j]@,
                ),
        decreases m - k,
    {
        let f = &cfg.feature_flags[k];
        feature_flags.push(ProtocolConfigFeatureFlag { key: f.key.clone(), value: f.value });
        k = k + 1;
    }
    let r = ProtocolConfigs { configs, feature_flags, protocol_version: cfg.protocol_version };
    proof {
        assert(r@.configs =~= converted_protocol_config(cfg@).configs);
        assert(r@.feature_flags =~= converted_protocol_config(cfg@).feature_flags);
        assert forall|i: int|
            0 <= i < cfg.attributes@.len() && cfg.attributes@[i].value is None implies (
            #[trigger] r.configs@[i]).value@ == Seq::<char>::empty() by {
            assert(r.configs@[i]@ == converted_attr(cfg.attributes@[i]@));
        }
    }
    r
}

} // verus!
