//! The settings of one version of the protocol.

use vstd::prelude::*;
use crate::model::seq_view;

verus! {

/// One setting: its name and its value as text.
#[derive(Clone, Debug, PartialEq, Eq)]
pub struct ProtocolConfigAttr {
    pub key: String,
    pub value: String,
}

/// The model of a [`ProtocolConfigAttr`].
pub struct ProtocolConfigAttrView {
    pub key: Seq<char>,
    pub value: Seq<char>,
}

impl View for ProtocolConfigAttr {
    type V = ProtocolConfigAttrView;

    open spec fn view(&self) -> ProtocolConfigAttrView {
        ProtocolConfigAttrView { key: self.key@, value: self.value@ }
    }
}

/// One feature: its name and whether it is switched on.
#[derive(Clone, Debug, PartialEq, Eq)]
pub struct ProtocolConfigFeatureFlag {
    pub key: String,
    pub value: bool,
}

/// The model of a [`ProtocolConfigFeatureFlag`].
pub struct ProtocolConfigFeatureFlagView {
    pub key: Seq<char>,
    pub value: bool,
}

impl View for ProtocolConfigFeatureFlag {
    type V = ProtocolConfigFeatureFlagView;

    open spec fn view(&self) -> ProtocolConfigFeatureFlagView {
        ProtocolConfigFeatureFlagView { key: self.key@, value: self.value }
    }
}

/// The settings and features of one version of the protocol.
#[derive(Clone, Debug, PartialEq, Eq)]
pub struct ProtocolConfigs {
    pub configs: Vec<ProtocolConfigAttr>,
    pub feature_flags: Vec<ProtocolConfigFeatureFlag>,
    pub protocol_version: u64,
}

/// The model of a [`ProtocolConfigs`].
pub struct ProtocolConfigsView {
    pub configs: Seq<ProtocolConfigAttrView>,
    pub feature_flags: Seq<ProtocolConfigFeatureFlagView>,
    pub protocol_version: u64,
}

impl View for ProtocolConfigs {
    type V = ProtocolConfigsView;

    open spec fn view(&self) -> ProtocolConfigsView {
        ProtocolConfigsView {
            configs: seq_view(self.configs@),
            feature_flags: seq_view(self.feature_flags@),
            protocol_version: self.protocol_version,
        }
    }
}

} // verus!
