//! Fetching one object, at its current or at an earlier version.

use vstd::prelude::*;
use crate::convert::{converted_object, try_convert_obj, INCOMPLETE_OBJECT};
use crate::error::{Error, ErrorView};
use crate::model::{opt_view, reply_view};
use crate::native::{
    NativeObjectDataView, NativeObjectResponse, NativeObjectResponseView,
    NativePastObjectResponse, NativePastObjectResponseView,
};
use crate::types::address::SuiAddress;
use crate::types::object::{Object, ObjectView};

verus! {

/// What to ask the client for. Either way the object is asked for with full
/// content.
#[derive(Clone, Copy, Debug, PartialEq, Eq)]
pub enum ObjectQuery {
    /// The object as it was at `version`.
    Past { id: SuiAddress, version: u64 },
    /// The object as it is now.
    Current { id: SuiAddress },
}

/// What the client answered to an [`ObjectQuery`].
#[derive(Clone, Debug, PartialEq, Eq)]
pub enum ObjectReply {
    Past(NativePastObjectResponse),
    Current(NativeObjectResponse),
}

/// The model of an [`ObjectReply`].
pub enum ObjectReplyView {
    Past(NativePastObjectResponseView),
    Current(NativeObjectResponseView),
}

impl View for ObjectReply {
    type V = ObjectReplyView;

    open spec fn view(&self) -> ObjectReplyView {
        match self {
            ObjectReply::Past(p) => ObjectReplyView::Past(p@),
            ObjectReply::Current(c) => ObjectReplyView::Current(c@),
        }
    }
}

/// Says what to ask the client: the object at the version given, or else
/// the current object. The address is the identifier of the object.
pub fn fetch_obj_request(address: SuiAddress, version: Option<u64>) -> (q: ObjectQuery)
    ensures
        version matches Some(v) ==> q == (ObjectQuery::Past { id: address, version: v }),
        version is None ==> q == (ObjectQuery::Current { id: address }),
{
    match version {
        Some(v) => ObjectQuery::Past { id: address, version: v },
        None => ObjectQuery::Current { id: address },
    }
}

/// The record that an answer holds, if it holds one to show: the version
/// found, or the current object where the answer has data and no error.
pub open spec fn found_object(reply: ObjectReplyView) -> Option<NativeObjectDataView> {
    match reply {
        ObjectReplyView::Past(NativePastObjectResponseView::VersionFound(d)) => Some(d),
        ObjectReplyView::Past(NativePastObjectResponseView::NotFound) => None,
        ObjectReplyView::Current(c) => if c.error is Some {
            None
        } else {
            c.data
        },
    }
}

/// How fetching an object ends, given what came back from the client.
pub open spec fn fetched_object(reply: Result<ObjectReplyView, Seq<char>>) -> Result<
    Option<ObjectView>,
    ErrorView,
> {
    match reply {
        Err(m) => Err(ErrorView::Client(m)),
        Ok(a) => match found_object(a) {
            None => Ok(None),
            Some(d) => if d.is_complete() {
                Ok(Some(converted_object(d)))
            } else {
                Err(ErrorView::Internal(INCOMPLETE_OBJECT@))
            },
        },
    }
}

/// Ends the fetch of an object.
///
/// An answer without an object to show gives no object and no failure: a
/// version that was not found, a current object reported with an error or
/// without data. A failed call is handed on as it is. An object that the
/// client returns without owner or previous transaction is reported as an
/// internal failure.
pub fn fetch_obj_result(reply: Result<ObjectReply, String>) -> (r: Result<Option<Object>, Error>)
    ensures
        r is Ok <==> fetched_object(reply_view(reply)) is Ok,
        r matches Ok(o) ==> opt_view(o) == fetched_object(reply_view(reply))->Ok_0,
        r matches Err(e) ==> e@ == fetched_object(reply_view(reply))->Err_0,
        reply matches Ok(a) && found_object(a@) is None ==> r matches Ok(None),
{
    let answer = match reply {
        Ok(a) => a,
        Err(m) => {
            return Err(Error::Client(m));
        },
    };
    let found = match &answer {
        ObjectReply::Past(NativePastObjectResponse::VersionFound(d)) => Some(d),
        ObjectReply::Past(NativePastObjectResponse::NotFound) => None,
        ObjectReply::Current(c) => if c.error.is_some() {
            None
        } else {
            c.data.as_ref()
        },
    };
    match found {
        None => Ok(None),
        Some(d) => match try_convert_obj(d) {
            Ok(o) => Ok(Some(o)),
            Err(e) => Err(e),
        },
    }
}

} // verus!
