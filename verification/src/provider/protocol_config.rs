//! Fetching the settings of a version of the protocol.

use vstd::prelude::*;
use crate::convert::{convert_protocol_config, converted_protocol_config};
use crate::error::{Error, ErrorView};
use crate::native::NativeProtocolConfig;
use crate::types::protocol_config::ProtocolConfigs;

verus! {

/// Ends the fetch of the protocol's settings: every setting and feature that
/// the client gave, or the failure of the call.
///
/// The version goes to the client as it was given; where none is given the
/// client answers for the current version.
pub fn fetch_protocol_config_result(reply: Result<NativeProtocolConfig, String>) -> (r: Result<
    ProtocolConfigs,
    Error,
>)
    ensures
        reply matches Ok(cfg) ==> r is Ok && r->Ok_0@ == converted_protocol_config(cfg@),
        reply matches Err(m) ==> r is Err && r->Err_0@ == ErrorView::Client(m@),
{
    match reply {
        Ok(cfg) => Ok(convert_protocol_config(&cfg)),
        Err(m) => Err(Error::Client(m)),
    }
}

} // verus!
