//! An object of the chain as the schema shows it.

use vstd::prelude::*;
use crate::model::{opt_view, seq_view};
use crate::types::address::SuiAddress;
use crate::types::base64::Base64;

verus! {

/// How an object is owned.
#[derive(Clone, Copy, Debug, PartialEq, Eq, Structural)]
pub enum ObjectKind {
    /// Owned by an address.
    Owned,
    /// Owned by another object.
    Child,
    /// Shared: anyone may use it in a transaction.
    Shared,
    /// Frozen: nobody may change it.
    Immutable,
}

/// One version of an object.
#[derive(Clone, Debug, PartialEq, Eq)]
pub struct Object {
    pub address: SuiAddress,
    pub version: u64,
    pub digest: String,
    pub storage_rebate: Option<u64>,
    pub owner: Option<SuiAddress>,
    pub bcs: Option<Base64>,
    pub previous_transaction: Option<String>,
    pub kind: Option<ObjectKind>,
}

/// The model of an [`Object`].
pub struct ObjectView {
    pub address: SuiAddress,
    pub version: u64,
    pub digest: Seq<char>,
    pub storage_rebate: Option<u64>,
    pub owner: Option<SuiAddress>,
    pub bcs: Option<Seq<u8>>,
    pub previous_transaction: Option<Seq<char>>,
    pub kind: Option<ObjectKind>,
}

impl View for Object {
    type V = ObjectView;

    open spec fn view(&self) -> ObjectView {
        ObjectView {
            address: self.address,
            version: self.version,
            digest: self.digest@,
            storage_rebate: self.storage_rebate,
            owner: self.owner,
            bcs: opt_view(self.bcs),
            previous_transaction: opt_view(self.previous_transaction),
            kind: self.kind,
        }
    }
}

/// A filter on objects. It is accepted and has no effect yet.
#[derive(Clone, Debug, PartialEq, Eq)]
pub struct ObjectFilter {
    pub package: Option<SuiAddress>,
    pub module: Option<String>,
    pub ty: Option<String>,
    pub owner: Option<SuiAddress>,
    pub object_ids: Option<Vec<SuiAddress>>,
}

/// One item of a page of objects, with the cursor that stands for it.
#[derive(Clone, Debug, PartialEq, Eq)]
pub struct ObjectEdge {
    pub cursor: String,
    pub node: Object,
}

/// The model of an [`ObjectEdge`].
pub struct ObjectEdgeView {
    pub cursor: Seq<char>,
    pub node: ObjectView,
}

impl View for ObjectEdge {
    type V = ObjectEdgeView;

    open spec fn view(&self) -> ObjectEdgeView {
        ObjectEdgeView { cursor: self.cursor@, node: self.node@ }
    }
}

/// A page of objects.
#[derive(Clone, Debug, PartialEq, Eq)]
pub struct ObjectConnection {
    pub edges: Vec<ObjectEdge>,
    pub has_previous_page: bool,
    pub has_next_page: bool,
}

/// The model of an [`ObjectConnection`].
pub struct ObjectConnectionView {
    pub edges: Seq<ObjectEdgeView>,
    pub has_previous_page: bool,
    pub has_next_page: bool,
}

impl View for ObjectConnection {
    type V = ObjectConnectionView;

    open spec fn view(&self) -> ObjectConnectionView {
        ObjectConnectionView {
            edges: seq_view(self.edges@),
            has_previous_page: self.has_previous_page,
            has_next_page: self.has_next_page,
        }
    }
}

} // verus!
